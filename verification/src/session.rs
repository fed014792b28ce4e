//! Verification sessions: one per member and chat, created `Pending` when the member is
//! muted, and ending either `Verified` (the member opened the link in time with the right
//! token) or `Expired` (the deadline passed first). The functions here state what each
//! stored-row update does to a session.
use vstd::prelude::*;

verus! {

/// Where a verification session stands.
#[derive(Debug, Clone, Copy, PartialEq, Eq, Structural)]
pub enum SessionStatus {
    Pending,
    Verified,
    Expired,
}

/// A verification session of `user_id` in `chat_id`.
#[derive(Debug, Clone, PartialEq, Eq)]
pub struct Session {
    pub chat_id: i64,
    pub user_id: i64,
    pub chat_title: String,
    pub user_first_name: String,
    /// The group message that asks the member to verify.
    pub verify_msg_id: Option<i64>,
    /// The secret that the verification page link carries.
    pub verify_token: Option<String>,
    pub status: SessionStatus,
    /// Deadline, in seconds since the epoch.
    pub expires_at: i64,
    pub created_at: i64,
    pub verified_at: Option<i64>,
    /// Messages the member sent since verification.
    pub message_counts: i64,
    /// Messages of the member deleted as spam.
    pub spam_counts: i64,
}

/// What a new session is made of.
#[derive(Debug, Clone)]
pub struct NewSession<'a> {
    pub chat_id: i64,
    pub user_id: i64,
    pub chat_title: &'a str,
    pub user_first_name: &'a str,
    pub verify_msg_id: Option<i64>,
    pub verify_token: &'a str,
    pub expires_at: i64,
}

/// The parts of a session that updates may change.
pub struct SessionState {
    pub status: SessionStatus,
    pub verify_token: Option<Seq<char>>,
    pub expires_at: int,
    pub verified_at: Option<i64>,
    pub message_counts: int,
    pub spam_counts: int,
}

/// The state after the deadline check at `now`: a pending session that is due expires.
pub open spec fn expire(st: SessionState, now: int) -> SessionState {
    if st.status == SessionStatus::Pending && st.expires_at <= now {
        SessionState { status: SessionStatus::Expired, ..st }
    } else {
        st
    }
}

/// Whether `token` verifies the session state at time `at`.
pub open spec fn accepts(st: SessionState, token: Seq<char>, at: int) -> bool {
    &&& st.status == SessionStatus::Pending
    &&& st.expires_at > at
    &&& st.verify_token == Some(token)
}

/// The state after the verification page is opened with `token` at time `at`.
pub open spec fn verify(st: SessionState, token: Seq<char>, at: i64) -> SessionState {
    if accepts(st, token, at as int) {
        SessionState { status: SessionStatus::Verified, verified_at: Some(at), ..st }
    } else {
        st
    }
}

/// The state after a verified member's message is counted.
pub open spec fn count_message(st: SessionState) -> SessionState {
    if st.status == SessionStatus::Verified {
        SessionState { message_counts: st.message_counts + 1, ..st }
    } else {
        st
    }
}

/// The state after a verified member's message is counted as spam.
pub open spec fn count_spam(st: SessionState) -> SessionState {
    if st.status == SessionStatus::Verified {
        SessionState { spam_counts: st.spam_counts + 1, ..st }
    } else {
        st
    }
}

/// The state after one spam message of a verified member is taken back (not below zero).
pub open spec fn uncount_spam(st: SessionState) -> SessionState {
    if st.status == SessionStatus::Verified {
        SessionState {
            spam_counts: if st.spam_counts - 1 > 0 {
                st.spam_counts - 1
            } else {
                0
            },
            ..st
        }
    } else {
        st
    }
}

impl Session {
    pub open spec fn state(&self) -> SessionState {
        SessionState {
            status: self.status,
            verify_token: match self.verify_token {
                Some(t) => Some(t@),
                None => None,
            },
            expires_at: self.expires_at as int,
            verified_at: self.verified_at,
            message_counts: self.message_counts as int,
            spam_counts: self.spam_counts as int,
        }
    }

    /// Whether the rest of the session is as in `other`: only status, token, verification
    /// time and counters are changed by updates.
    pub open spec fn same_identity(&self, other: &Session) -> bool {
        &&& self.chat_id == other.chat_id
        &&& self.user_id == other.user_id
        &&& self.chat_title@ == other.chat_title@
        &&& self.user_first_name@ == other.user_first_name@
        &&& self.verify_msg_id == other.verify_msg_id
        &&& self.expires_at == other.expires_at
        &&& self.created_at == other.created_at
    }

    /// A session still waiting for the member: pending and not yet due.
    pub open spec fn active(&self, now: int) -> bool {
        self.status == SessionStatus::Pending && self.expires_at > now
    }

    /// A pending session whose deadline has come.
    pub open spec fn due(&self, now: int) -> bool {
        self.status == SessionStatus::Pending && self.expires_at <= now
    }

    /// A new pending session, created at `now`, with no messages counted.
    pub fn create(s: NewSession, now: i64) -> (r: Session)
        ensures
            r.chat_id == s.chat_id && r.user_id == s.user_id,
            r.chat_title@ == s.chat_title@ && r.user_first_name@ == s.user_first_name@,
            r.verify_msg_id == s.verify_msg_id,
            r.verify_token matches Some(t) && t@ == s.verify_token@,
            r.status == SessionStatus::Pending,
            r.expires_at == s.expires_at && r.created_at == now,
            r.verified_at is None,
            r.message_counts == 0 && r.spam_counts == 0,
    {
        Session {
            chat_id: s.chat_id,
            user_id: s.user_id,
            chat_title: s.chat_title.to_owned(),
            user_first_name: s.user_first_name.to_owned(),
            verify_msg_id: s.verify_msg_id,
            verify_token: Some(s.verify_token.to_owned()),
            status: SessionStatus::Pending,
            expires_at: s.expires_at,
            created_at: now,
            verified_at: None,
            message_counts: 0,
            spam_counts: 0,
        }
    }

    /// Whether the session is waiting for the member at `now`.
    pub fn is_active(&self, now: i64) -> (b: bool)
        ensures
            b == self.active(now as int),
    {
        self.status == SessionStatus::Pending && self.expires_at > now
    }

    /// Whether the session is pending and due at `now`.
    pub fn is_due(&self, now: i64) -> (b: bool)
        ensures
            b == self.due(now as int),
    {
        self.status == SessionStatus::Pending && self.expires_at <= now
    }

    /// Expires the session if it is pending and due at `now`; tells whether it did.
    pub fn mark_expired_if_pending_due(&mut self, now: i64) -> (changed: bool)
        ensures
            changed == old(self).due(now as int),
            final(self).same_identity(old(self)),
            final(self).state() == expire(old(self).state(), now as int),
    {
        if self.is_due(now) {
            self.status = SessionStatus::Expired;
            true
        } else {
            false
        }
    }

    /// Verifies the session at time `at` if it is pending, not due, and carries `token`;
    /// tells whether it did.
    pub fn mark_verified_if_pending_unexpired(&mut self, token: &str, at: i64) -> (changed: bool)
        ensures
            changed == accepts(old(self).state(), token@, at as int),
            final(self).same_identity(old(self)),
            final(self).state() == verify(old(self).state(), token@, at),
    {
        let token_matches = match &self.verify_token {
            Some(t) => crate::chars::str_eq(t.as_str(), token),
            None => false,
        };
        if self.status == SessionStatus::Pending && self.expires_at > at && token_matches {
            self.status = SessionStatus::Verified;
            self.verified_at = Some(at);
            true
        } else {
            false
        }
    }

    /// Gives a pending session the page token `token`; tells whether it did.
    pub fn set_verify_token(&mut self, token: &str) -> (changed: bool)
        ensures
            changed == (old(self).status == SessionStatus::Pending),
            final(self).same_identity(old(self)),
            final(self).state() == (if changed {
                SessionState { verify_token: Some(token@), ..old(self).state() }
            } else {
                old(self).state()
            }),
    {
        if self.status == SessionStatus::Pending {
            self.verify_token = Some(token.to_owned());
            true
        } else {
            false
        }
    }

    /// Counts one more message of a verified member; tells whether it did.
    pub fn increment_message_count_if_verified(&mut self) -> (changed: bool)
        requires
            old(self).message_counts < i64::MAX,
        ensures
            changed == (old(self).status == SessionStatus::Verified),
            final(self).same_identity(old(self)),
            final(self).state() == count_message(old(self).state()),
    {
        if self.status == SessionStatus::Verified {
            self.message_counts = self.message_counts + 1;
            true
        } else {
            false
        }
    }

    /// Counts one more spam message of a verified member and gives the new count.
    pub fn increment_spam_count_if_verified(&mut self) -> (r: Option<i64>)
        requires
            old(self).spam_counts < i64::MAX,
        ensures
            r is Some == (old(self).status == SessionStatus::Verified),
            final(self).same_identity(old(self)),
            r matches Some(n) ==> n == old(self).spam_counts + 1,
            final(self).state() == count_spam(old(self).state()),
    {
        if self.status == SessionStatus::Verified {
            self.spam_counts = self.spam_counts + 1;
            Some(self.spam_counts)
        } else {
            None
        }
    }

    /// Takes back one spam message of a verified member, never going below zero, and gives
    /// the new count.
    pub fn decrement_spam_count_if_verified(&mut self) -> (r: Option<i64>)
        ensures
            r is Some == (old(self).status == SessionStatus::Verified),
            final(self).same_identity(old(self)),
            r matches Some(n) ==> n == (if old(self).spam_counts - 1 > 0 {
                old(self).spam_counts - 1
            } else {
                0
            }),
            final(self).state() == uncount_spam(old(self).state()),
    {
        if self.status == SessionStatus::Verified {
            let n = if self.spam_counts > 0 {
                self.spam_counts - 1
            } else {
                0
            };
            self.spam_counts = n;
            Some(n)
        } else {
            None
        }
    }
}

/// A session that is verified or expired stays so: neither the deadline check nor the
/// verification page changes it.
pub proof fn lemma_final_states_are_final(st: SessionState, now: int, token: Seq<char>, at: i64)
    requires
        st.status != SessionStatus::Pending,
    ensures
        expire(st, now) == st,
        verify(st, token, at) == st,
{
}

/// The verification page and the deadline never both win: once one of them has changed a
/// session, the other leaves it as it is.
pub proof fn lemma_verify_and_expire_exclusive(
    st: SessionState,
    now: int,
    token: Seq<char>,
    at: i64,
)
    ensures
        verify(st, token, at) != st ==> expire(verify(st, token, at), now) == verify(st, token, at),
        expire(st, now) != st ==> verify(expire(st, now), token, at) == expire(st, now),
{
}

/// A session is verified only with its own token, before its deadline.
pub proof fn lemma_verified_only_with_token_in_time(st: SessionState, token: Seq<char>, at: i64)
    requires
        st.status == SessionStatus::Pending,
        verify(st, token, at).status == SessionStatus::Verified,
    ensures
        st.verify_token == Some(token),
        at < st.expires_at,
        verify(st, token, at).verified_at == Some(at),
{
}

/// A session expires only once its deadline has come.
pub proof fn lemma_expires_only_when_due(st: SessionState, now: int)
    requires
        st.status == SessionStatus::Pending,
        expire(st, now).status == SessionStatus::Expired,
    ensures
        st.expires_at <= now,
{
}

/// Counting a spam message and taking it back leaves the session as it was.
pub proof fn lemma_spam_count_round_trip(st: SessionState)
    requires
        st.spam_counts >= 0,
    ensures
        uncount_spam(count_spam(st)) == st,
{
}

} // verus!
