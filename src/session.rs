//! The session store: the credential pair of the current login, if any.
use vstd::prelude::*;

verus! {

/// A snapshot of the session: both credentials present (authenticated) or
/// both absent (anonymous).
#[derive(Debug, Clone)]
pub struct Session {
    pub sid: Option<String>,
    pub csrf: Option<String>,
}

/// The current session. The pair is held as one value, so that one credential
/// can never be present without the other.
#[derive(Debug)]
pub struct SessionState {
    pair: Option<(String, String)>,
}

impl View for SessionState {
    /// `None` when anonymous; the session id and the anti-forgery token otherwise.
    type V = Option<(Seq<char>, Seq<char>)>;

    closed spec fn view(&self) -> Option<(Seq<char>, Seq<char>)> {
        match self.pair {
            Some((sid, csrf)) => Some((sid@, csrf@)),
            None => None,
        }
    }
}

/// The snapshot `s` describes the session `v`.
pub open spec fn session_matches(s: Session, v: Option<(Seq<char>, Seq<char>)>) -> bool {
    match v {
        Some((sid, csrf)) => s.sid matches Some(a) && s.csrf matches Some(b) && a@ == sid && b@
            == csrf,
        None => s.sid is None && s.csrf is None,
    }
}

impl SessionState {
    /// An anonymous session.
    pub fn new() -> (r: SessionState)
        ensures
            r@ is None,
    {
        SessionState { pair: None }
    }

    /// Stores the credentials of a login.
    pub fn set_session(&mut self, sid: String, csrf: String)
        ensures
            final(self)@ == Some((sid@, csrf@)),
    {
        self.pair = Some((sid, csrf));
    }

    /// Forgets the credentials.
    pub fn clear_session(&mut self)
        ensures
            final(self)@ is None,
    {
        self.pair = None;
    }

    /// A snapshot of the current session.
    pub fn current_session(&self) -> (r: Session)
        ensures
            session_matches(r, self@),
    {
        match &self.pair {
            Some((sid, csrf)) => Session { sid: Some(sid.clone()), csrf: Some(csrf.clone()) },
            None => Session { sid: None, csrf: None },
        }
    }

    /// The session id and the anti-forgery token, when authenticated.
    pub fn credentials(&self) -> (r: Option<(&String, &String)>)
        ensures
            r is None <==> self@ is None,
            r matches Some((a, b)) ==> self@ == Some((a@, b@)),
    {
        match &self.pair {
            Some((sid, csrf)) => Some((sid, csrf)),
            None => None,
        }
    }

    /// Whether a login is in effect.
    pub fn is_authenticated(&self) -> (r: bool)
        ensures
            r == (self@ is Some),
    {
        self.pair.is_some()
    }
}

} // verus!
