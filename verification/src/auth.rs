//! Credential negotiation with a bounded retry budget.
//!
//! A remote operation (push or fetch) may ask for credentials several
//! times; the negotiator answers at most [`MAX_AUTH_ATTEMPTS`] of those
//! requests and refuses every further one with
//! [`SyncError::AuthExhausted`]. The strategy for a granted attempt is
//! chosen once, from the URL scheme alone: agent-held SSH identities for
//! SSH-style URLs, an interactive username/password prompt otherwise.

use vstd::prelude::*;

use crate::error::SyncError;

verus! {

/// The most credential requests one remote operation may have answered.
/// A remote that rejects the first credential therefore surfaces a
/// terminal authentication failure rather than a second prompt.
pub const MAX_AUTH_ATTEMPTS: u32 = 1;

/// How a granted authentication attempt obtains its credential.
#[derive(Debug, PartialEq, Eq)]
pub enum AuthStrategy {
    /// Ask the SSH agent for an identity held under this username.
    AgentKey(String),
    /// Prompt interactively for a username and a password.
    UserPass,
}

/// A URL is treated as SSH-style when it starts with `ssh://` or with
/// `git@`.
pub open spec fn is_ssh_url(url: Seq<char>) -> bool {
    ||| (url.len() >= 6 && url[0] == 's' && url[1] == 's' && url[2] == 'h' && url[3] == ':'
        && url[4] == '/' && url[5] == '/')
    ||| (url.len() >= 4 && url[0] == 'g' && url[1] == 'i' && url[2] == 't' && url[3] == '@')
}

/// The username an agent lookup uses: the hint from the URL when there is
/// one, the conventional `git` otherwise.
pub open spec fn agent_username(hint: Option<Seq<char>>) -> Seq<char> {
    match hint {
        Some(h) => h,
        None => seq!['g', 'i', 't'],
    }
}

/// Whether a request finding this many past attempts is granted.
pub open spec fn attempt_granted(attempts: u32) -> bool {
    attempts < MAX_AUTH_ATTEMPTS
}

/// The attempt counter after one more credential request.
pub open spec fn attempts_after(attempts: u32) -> u32 {
    if attempts < MAX_AUTH_ATTEMPTS {
        (attempts + 1) as u32
    } else {
        attempts
    }
}

/// Decides whether the URL calls for agent or interactive authentication.
pub fn url_is_ssh(url: &str) -> (r: bool)
    ensures
        r == is_ssh_url(url@),
{
    let n = url.unicode_len();
    let ssh_scheme = n >= 6 && url.get_char(0) == 's' && url.get_char(1) == 's' && url.get_char(
        2,
    ) == 'h' && url.get_char(3) == ':' && url.get_char(4) == '/' && url.get_char(5) == '/';
    let scp_style = n >= 4 && url.get_char(0) == 'g' && url.get_char(1) == 'i' && url.get_char(2)
        == 't' && url.get_char(3) == '@';
    ssh_scheme || scp_style
}

/// Supplies authentication material to one remote operation, bounded by a
/// per-operation attempt budget that is never shared across operations.
pub struct CredentialNegotiator {
    /// How many credential requests this operation has answered so far.
    pub attempts: u32,
}

impl CredentialNegotiator {
    /// A fresh negotiator for one remote operation: no attempt made yet.
    pub fn new() -> (r: CredentialNegotiator)
        ensures
            r.attempts == 0,
    {
        CredentialNegotiator { attempts: 0 }
    }

    /// Answers one credential request. Beyond the attempt budget the
    /// request is refused with `AuthExhausted`; within it, the strategy
    /// follows the URL scheme: agent lookup under the hinted username
    /// (default `git`) for SSH-style URLs, an interactive prompt
    /// otherwise.
    pub fn next_strategy(&mut self, url: &str, username_hint: Option<&str>) -> (r: Result<
        AuthStrategy,
        SyncError,
    >)
        ensures
            final(self).attempts == attempts_after(old(self).attempts),
            !attempt_granted(old(self).attempts) ==> r == Err::<AuthStrategy, SyncError>(
                SyncError::AuthExhausted,
            ),
            attempt_granted(old(self).attempts) ==> match r {
                Ok(s) => match s {
                    AuthStrategy::AgentKey(u) => is_ssh_url(url@) && u@ == agent_username(
                        match username_hint {
                            Some(h) => Some(h@),
                            None => None,
                        },
                    ),
                    AuthStrategy::UserPass => !is_ssh_url(url@),
                },
                Err(_) => false,
            },
    {
        if self.attempts >= MAX_AUTH_ATTEMPTS {
            return Err(SyncError::AuthExhausted);
        }
        self.attempts = self.attempts + 1;
        if url_is_ssh(url) {
            let username = match username_hint {
                Some(h) => String::from_str(h),
                None => String::from_str("git"),
            };
            proof {
                reveal_strlit("git");
                assert(seq!['g', 'i', 't'] =~= "git"@);
            }
            Ok(AuthStrategy::AgentKey(username))
        } else {
            Ok(AuthStrategy::UserPass)
        }
    }

    /// When the agent holds no usable identity for an SSH URL, the same
    /// granted attempt falls back to the interactive prompt.
    pub fn agent_fallback(&self) -> (r: AuthStrategy)
        ensures
            r == AuthStrategy::UserPass,
    {
        AuthStrategy::UserPass
    }
}

/// A rejected first credential never leads to a second prompt: once a
/// request has been granted, the budget is exhausted, so the transport's
/// retry is refused instead of prompting again.
pub proof fn lemma_no_second_attempt(attempts: u32)
    requires
        attempt_granted(attempts),
    ensures
        !attempt_granted(attempts_after(attempts)),
{
}

} // verus!
