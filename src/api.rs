//! The appliance's API: one request per domain operation, and the session
//! changes that login and logout replies bring.
use vstd::prelude::*;
use crate::data::{AuthRequest, AuthResponse, ClientRequest};
use crate::error::PiHoleApiError;
use crate::request::{
    auth_body, build_url, client_body, url_of, HttpRequest, Method,
};
use crate::session::{session_matches, Session, SessionState};

verus! {

/// The session view of a store: `None` when anonymous.
pub type SessionView = Option<(Seq<char>, Seq<char>)>;

/// The view of an optional text.
pub open spec fn opt_text(t: Option<String>) -> Option<Seq<char>> {
    match t {
        Some(s) => Some(s@),
        None => None,
    }
}

/// The headers of a request: the credentials when the call is authenticated,
/// then the content type when it carries a body.
pub open spec fn headers_of(session: SessionView, auth_required: bool, has_body: bool) -> Seq<
    (Seq<char>, Seq<char>),
> {
    let auth = if auth_required {
        match session {
            Some((sid, csrf)) => seq![("X-FTL-SID"@, sid), ("X-FTL-CSRF"@, csrf)],
            None => Seq::empty(),
        }
    } else {
        Seq::empty()
    };
    if has_body {
        auth.push(("Content-Type"@, "application/json"@))
    } else {
        auth
    }
}

/// `req` has the given method, URL, headers and body.
pub open spec fn request_is(
    req: HttpRequest,
    method: Method,
    url: Seq<char>,
    headers: Seq<(Seq<char>, Seq<char>)>,
    body: Option<Seq<char>>,
) -> bool {
    &&& req.method == method
    &&& req.url@ == url
    &&& req.headers@.len() == headers.len()
    &&& forall|i: int|
        0 <= i < headers.len() ==> (#[trigger] req.headers@[i]).0@ == headers[i].0
            && req.headers@[i].1@ == headers[i].1
    &&& opt_text(req.body) == body
}

/// What a call yields before anything is sent: no request, and
/// `AuthenticationRequired`, when it needs a session and there is none; else
/// the request for `endpoint`.
pub open spec fn call_outcome(
    base: Seq<char>,
    session: SessionView,
    endpoint: Seq<char>,
    body: Option<Seq<char>>,
    method: Method,
    auth_required: bool,
    r: Result<HttpRequest, PiHoleApiError>,
) -> bool {
    if auth_required && session is None {
        r matches Err(PiHoleApiError::AuthenticationRequired)
    } else {
        r matches Ok(req) && request_is(
            req,
            method,
            url_of(base, endpoint),
            headers_of(session, auth_required, body is Some),
            body,
        )
    }
}

/// Any call that needs a session, made while there is none, yields
/// `AuthenticationRequired` and no request, so nothing goes out on the network.
pub proof fn lemma_anonymous_call_sends_nothing(
    base: Seq<char>,
    endpoint: Seq<char>,
    body: Option<Seq<char>>,
    method: Method,
    r: Result<HttpRequest, PiHoleApiError>,
)
    requires
        call_outcome(base, None, endpoint, body, method, true, r),
    ensures
        r matches Err(PiHoleApiError::AuthenticationRequired),
{
}

/// After a successful login, a snapshot of the session holds the session id
/// and the anti-forgery token that the login handed out.
pub proof fn lemma_session_after_login(s: Session, resp: AuthResponse)
    requires
        session_matches(s, Some((resp.session.sid@, resp.session.csrf@))),
    ensures
        s.sid matches Some(a) && a@ == resp.session.sid@,
        s.csrf matches Some(b) && b@ == resp.session.csrf@,
{
}

/// After a logout, whatever its reply, a snapshot of the session is anonymous:
/// neither credential is present.
pub proof fn lemma_session_after_logout(s: Session)
    requires
        session_matches(s, None),
    ensures
        s.sid is None && s.csrf is None,
{
}

/// A client of the appliance's API: its address and the current session.
#[derive(Debug)]
pub struct PiHoleV6Client {
    base_url: String,
    session: SessionState,
}

impl PiHoleV6Client {
    /// The appliance's address.
    pub closed spec fn base(&self) -> Seq<char> {
        self.base_url@
    }

    /// The current session.
    pub closed spec fn session_view(&self) -> SessionView {
        self.session@
    }

    /// A client of the appliance at `base_url`, with no session.
    pub fn new(base_url: &str) -> (r: PiHoleV6Client)
        ensures
            r.base() == base_url@,
            r.session_view() is None,
    {
        PiHoleV6Client { base_url: String::from_str(base_url), session: SessionState::new() }
    }

    /// The appliance's address.
    pub fn base_url(&self) -> (r: &str)
        ensures
            r@ == self.base(),
    {
        self.base_url.as_str()
    }

    /// A snapshot of the current session.
    pub fn current_session(&self) -> (r: Session)
        ensures
            session_matches(r, self.session_view()),
    {
        self.session.current_session()
    }

    /// The request for a call of `endpoint`; with `auth_required`, it carries
    /// the session's credentials, and without a session nothing is built.
    pub fn execute_api(
        &self,
        endpoint: &str,
        body: Option<String>,
        method: Method,
        auth_required: bool,
    ) -> (r: Result<HttpRequest, PiHoleApiError>)
        ensures
            call_outcome(
                self.base(),
                self.session_view(),
                endpoint@,
                opt_text(body),
                method,
                auth_required,
                r,
            ),
    {
        let url = build_url(self.base_url.as_str(), endpoint);
        let mut headers: Vec<(String, String)> = Vec::new();
        if auth_required {
            match self.session.credentials() {
                Some((sid, csrf)) => {
                    headers.push((String::from_str("X-FTL-SID"), sid.clone()));
                    headers.push((String::from_str("X-FTL-CSRF"), csrf.clone()));
                },
                None => {
                    return Err(PiHoleApiError::AuthenticationRequired);
                },
            }
        }
        let has_body = body.is_some();
        if has_body {
            headers.push((String::from_str("Content-Type"), String::from_str("application/json")));
        }
        let req = HttpRequest { method, url, headers, body };
        let ghost expected = headers_of(self.session_view(), auth_required, has_body);
        assert(req.headers@.len() == expected.len());
        assert(request_is(req, method, url_of(self.base(), endpoint@), expected, opt_text(req.body)));
        Ok(req)
    }

    /// The login request for `password`; it needs no session, so it is always built.
    pub fn login(&self, password: &str) -> (r: Result<HttpRequest, PiHoleApiError>)
        ensures
            call_outcome(
                self.base(),
                self.session_view(),
                "api/auth"@,
                Some(auth_body(password@)),
                Method::Post,
                false,
                r,
            ),
            r is Ok,
    {
        let req = AuthRequest { password: String::from_str(password) };
        let body = req.to_json();
        self.execute_api("api/auth", Some(body), Method::Post, false)
    }

    /// Takes in the reply to a login: a success stores the session it hands
    /// out; a failure is returned and leaves the session as it was.
    pub fn complete_login(&mut self, reply: Result<AuthResponse, PiHoleApiError>) -> (r: Result<
        (),
        PiHoleApiError,
    >)
        ensures
            final(self).base() == old(self).base(),
            match reply {
                Ok(resp) => r is Ok && final(self).session_view() == Some(
                    (resp.session.sid@, resp.session.csrf@),
                ),
                Err(e) => r == Err::<(), PiHoleApiError>(e) && final(self).session_view()
                    == old(self).session_view(),
            },
    {
        match reply {
            Ok(resp) => {
                self.session.set_session(resp.session.sid, resp.session.csrf);
                Ok(())
            },
            Err(e) => Err(e),
        }
    }

    /// The logout request; it needs a session.
    pub fn logout(&self) -> (r: Result<HttpRequest, PiHoleApiError>)
        ensures
            call_outcome(self.base(), self.session_view(), "api/auth"@, None, Method::Delete, true, r),
    {
        self.execute_api("api/auth", None, Method::Delete, true)
    }

    /// Takes in the outcome of a logout: the session is forgotten whatever the
    /// reply was, and the reply's outcome is returned.
    pub fn complete_logout(&mut self, reply: Result<(), PiHoleApiError>) -> (r: Result<
        (),
        PiHoleApiError,
    >)
        ensures
            final(self).base() == old(self).base(),
            final(self).session_view() is None,
            r == reply,
    {
        self.session.clear_session();
        reply
    }

    /// The request listing all groups.
    pub fn get_groups(&self) -> (r: Result<HttpRequest, PiHoleApiError>)
        ensures
            call_outcome(self.base(), self.session_view(), "api/groups"@, None, Method::Get, true, r),
    {
        self.execute_api("api/groups", None, Method::Get, true)
    }

    /// The request for the group named `group_name`.
    pub fn get_group(&self, group_name: &str) -> (r: Result<HttpRequest, PiHoleApiError>)
        ensures
            call_outcome(
                self.base(),
                self.session_view(),
                "api/groups/"@ + group_name@,
                None,
                Method::Get,
                true,
                r,
            ),
    {
        let mut endpoint = String::from_str("api/groups/");
        endpoint.append(group_name);
        self.execute_api(endpoint.as_str(), None, Method::Get, true)
    }

    /// The request listing all clients.
    pub fn get_clients(&self) -> (r: Result<HttpRequest, PiHoleApiError>)
        ensures
            call_outcome(self.base(), self.session_view(), "api/clients"@, None, Method::Get, true, r),
    {
        self.execute_api("api/clients", None, Method::Get, true)
    }

    /// The request for the client `client_id`.
    pub fn get_client(&self, client_id: &str) -> (r: Result<HttpRequest, PiHoleApiError>)
        ensures
            call_outcome(
                self.base(),
                self.session_view(),
                "api/clients/"@ + client_id@,
                None,
                Method::Get,
                true,
                r,
            ),
    {
        let mut endpoint = String::from_str("api/clients/");
        endpoint.append(client_id);
        self.execute_api(endpoint.as_str(), None, Method::Get, true)
    }

    /// The request that replaces the comment and the whole group set of the
    /// client `client_id`.
    pub fn update_client(&self, client_id: &str, comment: String, groups: Vec<u8>) -> (r: Result<
        HttpRequest,
        PiHoleApiError,
    >)
        ensures
            call_outcome(
                self.base(),
                self.session_view(),
                "api/clients/"@ + client_id@,
                Some(client_body(comment@, groups@)),
                Method::Put,
                true,
                r,
            ),
    {
        let mut endpoint = String::from_str("api/clients/");
        endpoint.append(client_id);
        let req = ClientRequest { comment, groups };
        let body = req.to_json();
        self.execute_api(endpoint.as_str(), Some(body), Method::Put, true)
    }

    /// The request that restarts the filtering service.
    pub fn restart_dns(&self) -> (r: Result<HttpRequest, PiHoleApiError>)
        ensures
            call_outcome(
                self.base(),
                self.session_view(),
                "api/action/restartdns"@,
                None,
                Method::Post,
                true,
                r,
            ),
    {
        self.execute_api("api/action/restartdns", None, Method::Post, true)
    }
}

} // verus!
