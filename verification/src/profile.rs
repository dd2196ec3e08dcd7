//! The scan profile catalog: named bundles of default timing and
//! behavior values, consulted whenever a field has no explicit value.

use vstd::prelude::*;

use crate::text::str_eq;

verus! {

/// A named bundle of default timing and behavior values.
#[derive(Clone, Copy, Debug, PartialEq, Eq, Structural)]
pub enum ProfileType {
    Default,
    Fast,
    Stealth,
    Chaos,
}

/// The profile a token names: full names and their one-letter short
/// forms, nothing else.
pub open spec fn profile_of_token(s: Seq<char>) -> Option<ProfileType> {
    if s == "default"@ || s == "d"@ {
        Some(ProfileType::Default)
    } else if s == "fast"@ || s == "f"@ {
        Some(ProfileType::Fast)
    } else if s == "stealth"@ || s == "s"@ {
        Some(ProfileType::Stealth)
    } else if s == "chaos"@ || s == "c"@ {
        Some(ProfileType::Chaos)
    } else {
        None
    }
}

/// The profile an optional token resolves to: an absent token resolves
/// to `Default`, an unknown token to nothing.
pub open spec fn spec_profile(tok: Option<Seq<char>>) -> Option<ProfileType> {
    match tok {
        Some(s) => profile_of_token(s),
        None => Some(ProfileType::Default),
    }
}

/// The per-request timeout a profile implies, in milliseconds.
pub open spec fn profile_timeout_ms(p: ProfileType) -> u64 {
    if p is Fast {
        800u64
    } else {
        2000u64
    }
}

/// The inter-request interval a profile implies, in milliseconds.
pub open spec fn profile_interval_ms(p: ProfileType) -> u64 {
    match p {
        ProfileType::Stealth => 20u64,
        ProfileType::Fast => 0u64,
        _ => 10u64,
    }
}

/// The per-host retry count a profile implies: Chaos doubles the
/// baseline of one.
pub open spec fn profile_retry_count(p: ProfileType) -> usize {
    if p is Chaos {
        2usize
    } else {
        1usize
    }
}

/// Resolve the optional profile token.
pub fn resolve_profile(tok: &Option<String>) -> (r: Option<ProfileType>)
    ensures
        r == spec_profile(tok.deep_view()),
{
    match tok {
        Some(t) => {
            let s = t.as_str();
            if str_eq(s, "default") || str_eq(s, "d") {
                Some(ProfileType::Default)
            } else if str_eq(s, "fast") || str_eq(s, "f") {
                Some(ProfileType::Fast)
            } else if str_eq(s, "stealth") || str_eq(s, "s") {
                Some(ProfileType::Stealth)
            } else if str_eq(s, "chaos") || str_eq(s, "c") {
                Some(ProfileType::Chaos)
            } else {
                None
            }
        },
        None => Some(ProfileType::Default),
    }
}

/// Timeout defaulting law: with no explicit timeout, Fast implies
/// 800 ms and every other profile 2000 ms.
pub proof fn lemma_timeout_profile_defaults(p: ProfileType)
    ensures
        p is Fast ==> profile_timeout_ms(p) == 800,
        !(p is Fast) ==> profile_timeout_ms(p) == 2000,
{
}

/// Retry defaulting law: with no explicit retry count, Chaos implies
/// exactly twice the baseline of one, every other profile the baseline.
pub proof fn lemma_retry_profile_defaults(p: ProfileType)
    ensures
        p is Chaos ==> profile_retry_count(p) == 2,
        !(p is Chaos) ==> profile_retry_count(p) == 1,
{
}

} // verus!
