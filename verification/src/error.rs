use vstd::prelude::*;

verus! {

/// The uniform error surface of the persistence layer.
///
/// `NotFound` and `SerializeErr` are produced by the storage primitives
/// themselves; the remaining kinds come from surrounding collaborators
/// (identifier decoding, message handling) and are propagated unchanged.
#[derive(Clone, Debug, PartialEq)]
pub enum StdError {
    /// The key was absent from the store at load time. Carries a lossy
    /// textual rendering of the key, for diagnostics only.
    NotFound { kind: String },
    /// Encoding or decoding failed. Carries the target type's name and the
    /// underlying codec failure description, for diagnostics only.
    SerializeErr { source: String, msg: String },
    /// Pass-through: an identifier was not valid base64.
    InvalidBase64 { msg: String },
    /// Pass-through: an identifier was not valid UTF-8 text.
    InvalidUtf8 { msg: String },
    /// Pass-through: a textual value could not be parsed.
    ParseErr { target: String, msg: String },
    /// Pass-through: the caller was not permitted to act.
    Unauthorized,
    /// Pass-through: a subtraction would have gone below zero.
    Underflow { minuend: String, subtrahend: String },
}

/// The result type returned by every storage primitive.
pub type StdResult<T> = Result<T, StdError>;

/// Classification predicates over the error taxonomy, so that callers can
/// branch on the kind of a failure without matching its diagnostic payload.
pub trait StdErrorExt {
    spec fn spec_is_not_found(&self) -> bool;

    spec fn spec_is_invalid_base64(&self) -> bool;

    spec fn spec_is_invalid_utf8(&self) -> bool;

    spec fn spec_is_parse_err(&self) -> bool;

    spec fn spec_is_serialize_err(&self) -> bool;

    spec fn spec_is_unauthorized(&self) -> bool;

    spec fn spec_is_underflow(&self) -> bool;

    fn is_not_found(&self) -> (r: bool)
        ensures
            r == self.spec_is_not_found(),
    ;

    fn is_invalid_base64(&self) -> (r: bool)
        ensures
            r == self.spec_is_invalid_base64(),
    ;

    fn is_invalid_utf8(&self) -> (r: bool)
        ensures
            r == self.spec_is_invalid_utf8(),
    ;

    fn is_parse_err(&self) -> (r: bool)
        ensures
            r == self.spec_is_parse_err(),
    ;

    fn is_serialize_err(&self) -> (r: bool)
        ensures
            r == self.spec_is_serialize_err(),
    ;

    fn is_unauthorized(&self) -> (r: bool)
        ensures
            r == self.spec_is_unauthorized(),
    ;

    fn is_underflow(&self) -> (r: bool)
        ensures
            r == self.spec_is_underflow(),
    ;
}

impl StdErrorExt for StdError {
    open spec fn spec_is_not_found(&self) -> bool {
        self is NotFound
    }

    open spec fn spec_is_invalid_base64(&self) -> bool {
        self is InvalidBase64
    }

    open spec fn spec_is_invalid_utf8(&self) -> bool {
        self is InvalidUtf8
    }

    open spec fn spec_is_parse_err(&self) -> bool {
        self is ParseErr
    }

    open spec fn spec_is_serialize_err(&self) -> bool {
        self is SerializeErr
    }

    open spec fn spec_is_unauthorized(&self) -> bool {
        self is Unauthorized
    }

    open spec fn spec_is_underflow(&self) -> bool {
        self is Underflow
    }

    fn is_not_found(&self) -> (r: bool) {
        matches!(self, StdError::NotFound { .. })
    }

    fn is_invalid_base64(&self) -> (r: bool) {
        matches!(self, StdError::InvalidBase64 { .. })
    }

    fn is_invalid_utf8(&self) -> (r: bool) {
        matches!(self, StdError::InvalidUtf8 { .. })
    }

    fn is_parse_err(&self) -> (r: bool) {
        matches!(self, StdError::ParseErr { .. })
    }

    fn is_serialize_err(&self) -> (r: bool) {
        matches!(self, StdError::SerializeErr { .. })
    }

    fn is_unauthorized(&self) -> (r: bool) {
        matches!(self, StdError::Unauthorized)
    }

    fn is_underflow(&self) -> (r: bool) {
        matches!(self, StdError::Underflow { .. })
    }
}

} // verus!
