use vstd::prelude::*;
use crate::error::OpenfourrError;
use crate::identity::Identity;
use crate::state::{byte_len, text_len, AgentProfile, Platform};

verus! {

/// The platform singleton as `initialize` creates it.
pub open spec fn initialize_spec(authority: Identity, platform_fee_bps: u16) -> Platform {
    Platform {
        authority,
        fee_bps: platform_fee_bps,
        total_tasks: 0,
        total_completed: 0,
        total_volume: 0,
    }
}

/// Creates the platform singleton. The fee rate is kept as given.
pub fn initialize(authority: &Identity, platform_fee_bps: u16) -> (r: Platform)
    requires
        platform_fee_bps <= 10000,
    ensures
        r == initialize_spec(*authority, platform_fee_bps),
        r.wf(),
{
    Platform {
        authority: *authority,
        fee_bps: platform_fee_bps,
        total_tasks: 0,
        total_completed: 0,
        total_volume: 0,
    }
}

/// The first bound that a profile's text fields break, if any.
pub open spec fn profile_refusal(name: Seq<char>, bio: Seq<char>, n_skills: nat) -> Option<
    OpenfourrError,
> {
    if byte_len(name) > 32 {
        Some(OpenfourrError::NameTooLong)
    } else if byte_len(bio) > 500 {
        Some(OpenfourrError::BioTooLong)
    } else if n_skills > 10 {
        Some(OpenfourrError::TooManySkills)
    } else {
        None
    }
}

/// An owner registers an agent profile, active and with every counter at zero.
pub fn register_agent(
    owner: &Identity,
    name: String,
    bio: String,
    skills: Vec<String>,
    hourly_rate: u64,
    now: i64,
) -> (r: Result<AgentProfile, OpenfourrError>)
    ensures
        match profile_refusal(name@, bio@, skills@.len()) {
            Some(e) => r == Err::<AgentProfile, OpenfourrError>(e),
            None => r == Ok::<AgentProfile, OpenfourrError>(
                AgentProfile {
                    owner: *owner,
                    name,
                    bio,
                    skills,
                    hourly_rate,
                    tasks_completed: 0,
                    tasks_failed: 0,
                    total_earned: 0,
                    rating_sum: 0,
                    rating_count: 0,
                    registered_at: now,
                    is_active: true,
                },
            ),
        },
{
    if text_len(&name) > 32 {
        return Err(OpenfourrError::NameTooLong);
    }
    if text_len(&bio) > 500 {
        return Err(OpenfourrError::BioTooLong);
    }
    if skills.len() > 10 {
        return Err(OpenfourrError::TooManySkills);
    }
    Ok(
        AgentProfile {
            owner: *owner,
            name,
            bio,
            skills,
            hourly_rate,
            tasks_completed: 0,
            tasks_failed: 0,
            total_earned: 0,
            rating_sum: 0,
            rating_count: 0,
            registered_at: now,
            is_active: true,
        },
    )
}

/// The first check that refuses `update_agent`, if any.
pub open spec fn update_refusal(
    caller: Identity,
    agent: AgentProfile,
    name: Option<String>,
    bio: Option<String>,
    skills: Option<Vec<String>>,
) -> Option<OpenfourrError> {
    if caller@ != agent.owner@ {
        Some(OpenfourrError::Unauthorized)
    } else if name is Some && byte_len(name->Some_0@) > 32 {
        Some(OpenfourrError::NameTooLong)
    } else if bio is Some && byte_len(bio->Some_0@) > 500 {
        Some(OpenfourrError::BioTooLong)
    } else if skills is Some && skills->Some_0@.len() > 10 {
        Some(OpenfourrError::TooManySkills)
    } else {
        None
    }
}

/// The owner replaces the fields that it supplies; the others stay.
pub fn update_agent(
    caller: &Identity,
    agent: &mut AgentProfile,
    name: Option<String>,
    bio: Option<String>,
    skills: Option<Vec<String>>,
    hourly_rate: Option<u64>,
    is_active: Option<bool>,
) -> (r: Result<(), OpenfourrError>)
    ensures
        match update_refusal(*caller, *old(agent), name, bio, skills) {
            Some(e) => {
                &&& r == Err::<(), OpenfourrError>(e)
                &&& *final(agent) == *old(agent)
            },
            None => {
                &&& r is Ok
                &&& final(agent).name == (if name is Some {
                    name->Some_0
                } else {
                    old(agent).name
                })
                &&& final(agent).bio == (if bio is Some {
                    bio->Some_0
                } else {
                    old(agent).bio
                })
                &&& final(agent).skills == (if skills is Some {
                    skills->Some_0
                } else {
                    old(agent).skills
                })
                &&& final(agent).hourly_rate == (if hourly_rate is Some {
                    hourly_rate->Some_0
                } else {
                    old(agent).hourly_rate
                })
                &&& final(agent).is_active == (if is_active is Some {
                    is_active->Some_0
                } else {
                    old(agent).is_active
                })
                &&& *final(agent) == (AgentProfile {
                    name: final(agent).name,
                    bio: final(agent).bio,
                    skills: final(agent).skills,
                    hourly_rate: final(agent).hourly_rate,
                    is_active: final(agent).is_active,
                    ..*old(agent)
                })
            },
        },
{
    if !caller.same_as(&agent.owner) {
        return Err(OpenfourrError::Unauthorized);
    }
    if let Some(n) = &name {
        if text_len(n) > 32 {
            return Err(OpenfourrError::NameTooLong);
        }
    }
    if let Some(b) = &bio {
        if text_len(b) > 500 {
            return Err(OpenfourrError::BioTooLong);
        }
    }
    if let Some(s) = &skills {
        if s.len() > 10 {
            return Err(OpenfourrError::TooManySkills);
        }
    }
    if let Some(n) = name {
        agent.name = n;
    }
    if let Some(b) = bio {
        agent.bio = b;
    }
    if let Some(s) = skills {
        agent.skills = s;
    }
    if let Some(h) = hourly_rate {
        agent.hourly_rate = h;
    }
    if let Some(a) = is_active {
        agent.is_active = a;
    }
    Ok(())
}

} // verus!
