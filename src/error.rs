use vstd::prelude::*;

verus! {

/// Every way an operation can be refused. A refused operation changes nothing.
#[derive(Clone, Copy, Debug, PartialEq, Eq, Structural)]
pub enum OpenfourrError {
    NameTooLong,
    BioTooLong,
    TooManySkills,
    TitleTooLong,
    DescriptionTooLong,
    InvalidBounty,
    InvalidDeadline,
    TaskNotOpen,
    AgentNotActive,
    TaskExpired,
    UrlTooLong,
    InvalidRating,
    CannotCancel,
    HasSubmissions,
    SubmissionNotPending,
    MessageTooLong,
    MessageEmpty,
    NotTaskParticipant,
    InvalidExtension,
    ExtensionAlreadyRequested,
    NoExtensionRequested,
    NoSubmissions,
    GracePeriodNotOver,
    /// The caller does not hold the identity that the operation demands.
    Unauthorized,
    /// A record that the operation would create is already there.
    AlreadyExists,
    /// A record that the operation names is not there.
    NotFound,
    /// An account record does not belong to the task it is used with.
    AccountMismatch,
    /// A counter or a time would leave its integer range.
    Overflow,
}

impl OpenfourrError {
    /// The human-readable message of the error.
    pub fn message(&self) -> (r: &'static str) {
        match self {
            OpenfourrError::NameTooLong => "Name too long",
            OpenfourrError::BioTooLong => "Bio too long",
            OpenfourrError::TooManySkills => "Too many skills",
            OpenfourrError::TitleTooLong => "Title too long",
            OpenfourrError::DescriptionTooLong => "Description too long",
            OpenfourrError::InvalidBounty => "Invalid bounty",
            OpenfourrError::InvalidDeadline => "Invalid deadline",
            OpenfourrError::TaskNotOpen => "Task not open",
            OpenfourrError::AgentNotActive => "Agent not active",
            OpenfourrError::TaskExpired => "Task expired",
            OpenfourrError::UrlTooLong => "URL too long",
            OpenfourrError::InvalidRating => "Invalid rating",
            OpenfourrError::CannotCancel => "Cannot cancel",
            OpenfourrError::HasSubmissions => "Has submissions",
            OpenfourrError::SubmissionNotPending => "Submission not pending",
            OpenfourrError::MessageTooLong => "Message too long",
            OpenfourrError::MessageEmpty => "Message empty",
            OpenfourrError::NotTaskParticipant => "Not participant",
            OpenfourrError::InvalidExtension => "Invalid extension",
            OpenfourrError::ExtensionAlreadyRequested => "Extension already requested",
            OpenfourrError::NoExtensionRequested => "No extension requested",
            OpenfourrError::NoSubmissions => "No submissions",
            OpenfourrError::GracePeriodNotOver => "Grace period not over",
            OpenfourrError::Unauthorized => "Unauthorized",
            OpenfourrError::AlreadyExists => "Account already exists",
            OpenfourrError::NotFound => "Account not found",
            OpenfourrError::AccountMismatch => "Account mismatch",
            OpenfourrError::Overflow => "Arithmetic overflow",
        }
    }
}

} // verus!
