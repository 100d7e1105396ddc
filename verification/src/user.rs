//! The verified session and the credential manager: a candidate key
//! becomes a session only by passing the identity probe, and the manager
//! retries candidates until one passes.
use vstd::prelude::*;
use vstd::string::StringExecFns;
use crate::api_key::InvalidAPIKey;
use crate::extract::{extract_me_name, extract_me_name_spec};
use crate::json::{get_path_spec, json_parse, Json};

verus! {

/// The caller's identity as the probe reports it. The probe asks only for
/// the name, so a fresh session carries id 0.
#[derive(Debug, Clone, PartialEq, Eq)]
pub struct UserInfo {
    pub name: String,
    pub id: u32,
}

/// A verified session: a key the API accepted, and whose identity it
/// reported. Created once per run and read everywhere else.
#[derive(Debug, Clone, PartialEq, Eq)]
pub struct User {
    pub api_key: String,
    pub info: UserInfo,
}

impl Default for User {
    /// An unverified blank: empty key, empty name, id 0.
    fn default() -> (r: Self)
        ensures
            r.api_key@ == Seq::<char>::empty(),
            r.info.name@ == Seq::<char>::empty(),
            r.info.id == 0,
    {
        Self { api_key: String::new(), info: UserInfo { name: String::new(), id: 0 } }
    }
}

/// Where the credential manager stands: still hunting for a working key,
/// or holding a verified session.
#[derive(Debug, Clone, PartialEq, Eq)]
pub enum CredState {
    Unverified,
    Verified(User),
}

/// The session one probe attempt yields, if any: the reply must be there
/// (no transport failure) and must extract a display name.
pub open spec fn probe_session(key: String, reply: Option<String>) -> Option<User> {
    match reply {
        Some(raw) => match extract_me_name_spec(raw@) {
            Ok(name) => Some(User { api_key: key, info: UserInfo { name, id: 0 } }),
            Err(_) => None,
        },
        None => None,
    }
}

/// Owns the verify-or-retry loop's state: the current credential state and
/// how many probe attempts were made.
#[derive(Debug)]
pub struct CredentialManager {
    pub state: CredState,
    pub attempts: u64,
}

impl CredentialManager {
    pub fn new() -> (m: Self)
        ensures
            m.state is Unverified,
            m.attempts == 0,
    {
        CredentialManager { state: CredState::Unverified, attempts: 0 }
    }

    /// One attempt of the retry loop: a candidate key together with what
    /// the identity probe sent back (`None` for a transport failure, which
    /// the loop treats like a rejected key). A reply that extracts a name
    /// verifies the key; anything else leaves the manager unverified and
    /// asks the caller for the next candidate.
    pub fn offer(&mut self, key: String, reply: Option<String>) -> (r: Result<(), InvalidAPIKey>)
        requires
            old(self).state is Unverified,
            old(self).attempts < u64::MAX,
        ensures
            final(self).attempts == old(self).attempts + 1,
            match probe_session(key, reply) {
                Some(u) => final(self).state == CredState::Verified(u) && r is Ok,
                None => final(self).state is Unverified && r is Err,
            },
    {
        self.attempts = self.attempts + 1;
        match reply {
            Some(raw) => match extract_me_name(raw.as_str()) {
                Ok(name) => {
                    self.state = CredState::Verified(
                        User { api_key: key, info: UserInfo { name, id: 0 } },
                    );
                    Ok(())
                },
                Err(_) => Err(InvalidAPIKey::new()),
            },
            None => Err(InvalidAPIKey::new()),
        }
    }

    /// The verified session, once there is one.
    pub fn session(&self) -> (r: Option<&User>)
        ensures
            match self.state {
                CredState::Verified(u) => r matches Some(s) && *s == u,
                CredState::Unverified => r is None,
            },
    {
        match &self.state {
            CredState::Verified(u) => Some(u),
            CredState::Unverified => None,
        }
    }
}

/// A reply shaped `{"data":{"me":{"name":S}}}` verifies the candidate key
/// at once: the session holds that key and the name S.
pub proof fn lemma_valid_probe_creates_session(key: String, raw: String, s: String)
    requires
        json_parse(raw@) matches Some(body) && get_path_spec(
            body,
            seq!["data"@, "me"@, "name"@],
        ) == Some(Json::Str(s)),
    ensures
        probe_session(key, Some(raw)) == Some(
            User { api_key: key, info: UserInfo { name: s, id: 0 } },
        ),
{
}

/// The credential state and the attempt count after running the retry
/// loop over a script of trials, each a candidate key with the probe's
/// reply: exactly what iterating `offer` from a fresh manager leaves,
/// since a verified manager makes no further attempt.
pub open spec fn retry_run(trials: Seq<(String, Option<String>)>) -> (CredState, nat)
    decreases trials.len(),
{
    if trials.len() == 0 {
        (CredState::Unverified, 0)
    } else {
        let prev = retry_run(trials.drop_last());
        match prev.0 {
            CredState::Unverified => (
                match probe_session(trials.last().0, trials.last().1) {
                    Some(u) => CredState::Verified(u),
                    None => CredState::Unverified,
                },
                prev.1 + 1,
            ),
            CredState::Verified(_) => prev,
        }
    }
}

/// A script of failing trials leaves the manager unverified, one attempt
/// per trial.
pub proof fn lemma_retry_all_fail(trials: Seq<(String, Option<String>)>)
    requires
        forall|j: int|
            0 <= j < trials.len() ==> probe_session(
                #[trigger] trials[j].0,
                trials[j].1,
            ) is None,
    ensures
        retry_run(trials) == (CredState::Unverified, trials.len() as nat),
    decreases trials.len(),
{
    if trials.len() > 0 {
        assert(forall|j: int|
            0 <= j < trials.drop_last().len() ==> probe_session(
                #[trigger] trials.drop_last()[j].0,
                trials.drop_last()[j].1,
            ) is None);
        lemma_retry_all_fail(trials.drop_last());
    }
}

/// The retry loop on a script of failing keys followed by one working key
/// stops at the working key: it makes exactly one attempt per trial and
/// ends verified with the working key's session.
pub proof fn lemma_retry_terminates(trials: Seq<(String, Option<String>)>, u: User)
    requires
        trials.len() > 0,
        forall|j: int|
            0 <= j < trials.len() - 1 ==> probe_session(
                #[trigger] trials[j].0,
                trials[j].1,
            ) is None,
        probe_session(trials.last().0, trials.last().1) == Some(u),
    ensures
        retry_run(trials) == (CredState::Verified(u), trials.len() as nat),
{
    assert(forall|j: int|
        0 <= j < trials.drop_last().len() ==> probe_session(
            #[trigger] trials.drop_last()[j].0,
            trials.drop_last()[j].1,
        ) is None);
    lemma_retry_all_fail(trials.drop_last());
}

} // verus!
