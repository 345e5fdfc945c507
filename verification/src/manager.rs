use vstd::prelude::*;
use crate::error::Error;

verus! {

/// Whether the underlying URL parser accepts a string as a well-formed
/// absolute URL. The outcome is a function of the characters alone.
pub uninterp spec fn url_parse_ok(s: Seq<char>) -> bool;

/// Relies on `url::Url::parse`: whether a string parses as a
/// well-formed absolute URL depends on its characters alone. Only the
/// outcome is kept; the parsed value is discarded.
#[verifier::external_body]
fn check_url(s: &str) -> (r: Result<(), url::ParseError>)
    ensures
        r is Ok <==> url_parse_ok(s@),
{
    match url::Url::parse(s) {
        Ok(_) => Ok(()),
        Err(e) => Err(e),
    }
}

/// An opaque handle to a live session with the remote service; it
/// records the address the session targets.
#[derive(Debug)]
pub struct Connection {
    server_url: String,
}

impl Connection {
    /// The address this session targets.
    pub closed spec fn url_view(self) -> Seq<char> {
        self.server_url@
    }

    /// The address this session targets.
    pub fn server_url(&self) -> (r: &str)
        ensures
            r@ == self.url_view(),
    {
        self.server_url.as_str()
    }
}

/// A connection manager for CouchDB sessions: it holds the validated
/// address of one server and produces, validates, and condemns
/// sessions against it on the pool framework's behalf.
#[derive(Debug)]
pub struct CouchdbConnectionManager {
    server_url: String,
}

impl CouchdbConnectionManager {
    /// The validated address of the server this manager targets.
    pub closed spec fn url_view(self) -> Seq<char> {
        self.server_url@
    }

    /// No manager exists wrapping an unparsable address.
    #[verifier::type_invariant]
    spec fn wf(self) -> bool {
        url_parse_ok(self.server_url@)
    }

    /// Creates a new `CouchdbConnectionManager`. Construction succeeds
    /// exactly when the address parses as a well-formed absolute URL,
    /// and stores the address unchanged; otherwise it fails with the
    /// parser's native error and constructs no manager.
    pub fn new(server_url: &str) -> (r: Result<CouchdbConnectionManager, url::ParseError>)
        ensures
            r is Ok <==> url_parse_ok(server_url@),
            r matches Ok(m) ==> m.url_view() == server_url@,
    {
        match check_url(server_url) {
            Ok(()) => Ok(CouchdbConnectionManager { server_url: server_url.to_string() }),
            Err(e) => Err(e),
        }
    }

    /// The address this manager targets.
    pub fn server_url(&self) -> (r: &str)
        ensures
            r@ == self.url_view(),
    {
        self.server_url.as_str()
    }

    /// Produces a fresh session against the stored address. The
    /// address was validated at construction, so creation succeeds and
    /// the session targets the stored address unchanged; were the
    /// underlying library to fail, the failure would be returned
    /// wrapped in the unified error, never surfaced raw.
    pub fn connect(&self) -> (r: Result<Connection, Error>)
        ensures
            r matches Ok(c) && c.url_view() == self.url_view(),
    {
        proof {
            use_type_invariant(&*self);
        }
        match check_url(self.server_url.as_str()) {
            Ok(()) => Ok(Connection { server_url: self.server_url.clone() }),
            Err(e) => Err(Error::from_parse_error(&e)),
        }
    }

    /// The liveness check the pool framework may run before reusing a
    /// session: a deliberate no-op that always succeeds and leaves the
    /// session untouched.
    pub fn is_valid(&self, _conn: &mut Connection) -> (r: Result<(), Error>)
        ensures
            r is Ok,
            *final(_conn) == *old(_conn),
    {
        Ok(())
    }

    /// Whether a session has become unusable: always `false`, for any
    /// session at any time; the manager never condemns a session. This
    /// mirrors the no-op liveness check and is a known limitation.
    pub fn has_broken(&self, _conn: &mut Connection) -> (r: bool)
        ensures
            r == false,
            *final(_conn) == *old(_conn),
    {
        false
    }
}

} // verus!
