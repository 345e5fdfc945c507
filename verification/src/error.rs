use vstd::prelude::*;
use vstd::string::StringExecFns;

verus! {

/// What the adapter reads of an error raised by the underlying client
/// library: the error's own description and, when the error reports a
/// cause, the cause's display form.
#[derive(Debug)]
pub struct ErrorDetail {
    /// The wrapped error's description.
    pub description: String,
    /// The display form of the wrapped error's cause, if it reports one.
    pub cause: Option<String>,
}

/// A unified enum of errors raised by the underlying client library,
/// so that the pool framework sees one stable error type whatever the
/// underlying failure was.
#[derive(Debug)]
pub enum Error {
    /// A failure of the underlying client library.
    Other(ErrorDetail),
}

/// The native error type of the underlying URL parser, carried through
/// opaquely.
#[verifier::external_type_specification]
#[verifier::external_body]
pub struct ExParseError(url::ParseError);

/// The display text of the URL parser's native error: a function of
/// the error value alone, since each variant carries a fixed message.
pub uninterp spec fn parse_error_msg(e: url::ParseError) -> Seq<char>;

/// Relies on `url::ParseError`'s `Display` impl, which writes the
/// variant's fixed, nonempty description; the type reports no
/// underlying cause.
#[verifier::external_body]
fn parse_error_detail(e: &url::ParseError) -> (r: ErrorDetail)
    ensures
        r.description@ == parse_error_msg(*e),
        r.description@.len() > 0,
        r.cause is None,
{
    ErrorDetail { description: e.to_string(), cause: None }
}

impl Error {
    /// Wraps the URL parser's native error in the unified error's
    /// single variant: the parser's message becomes the description,
    /// and no cause is reported, since the native error carries none.
    pub fn from_parse_error(e: &url::ParseError) -> (r: Error)
        ensures
            r.description_view() == parse_error_msg(*e),
            r.description_view().len() > 0,
            r.cause_view() is None,
            r.display_view() == r.description_view(),
    {
        Error::Other(parse_error_detail(e))
    }

    /// The description of the wrapped error, delegated verbatim.
    pub open spec fn description_view(self) -> Seq<char> {
        match self {
            Error::Other(d) => d.description@,
        }
    }

    /// The cause reported by the wrapped error, if any.
    pub open spec fn cause_view(self) -> Option<Seq<char>> {
        match self {
            Error::Other(d) => match d.cause {
                Some(c) => Some(c@),
                None => None,
            },
        }
    }

    /// The combined display form: description and cause separated by
    /// `": "`; the description alone when no cause is reported.
    pub open spec fn display_view(self) -> Seq<char> {
        match self.cause_view() {
            Some(c) => self.description_view() + ": "@ + c,
            None => self.description_view(),
        }
    }

    /// A human-readable description, delegated verbatim to the wrapped
    /// error's own description.
    pub fn description(&self) -> (r: &str)
        ensures
            r@ == self.description_view(),
    {
        match self {
            Error::Other(d) => d.description.as_str(),
        }
    }

    /// The underlying cause, delegated verbatim to the wrapped error's
    /// own cause, unwrapped one level.
    pub fn cause(&self) -> (r: Option<&String>)
        ensures
            match r {
                Some(c) => self.cause_view() == Some(c@),
                None => self.cause_view() is None,
            },
    {
        match self {
            Error::Other(d) => d.cause.as_ref(),
        }
    }

    /// The combined display form. An error that reports no cause is
    /// shown by its description alone: formatting is defined for every
    /// error and never fails.
    pub fn display_string(&self) -> (r: String)
        ensures
            r@ == self.display_view(),
    {
        match self {
            Error::Other(d) => {
                let mut s = d.description.clone();
                match &d.cause {
                    Some(c) => {
                        s.append(": ");
                        s.append(c.as_str());
                        s
                    },
                    None => s,
                }
            },
        }
    }
}

/// The display form of an error that reports no cause is its description
/// alone: formatting an error never depends on a cause being present.
pub proof fn lemma_display_without_cause(e: Error)
    requires
        e.cause_view() is None,
    ensures
        e.display_view() == e.description_view(),
{
}

} // verus!
