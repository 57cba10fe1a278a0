use vstd::prelude::*;
use vstd::std_specs::convert::FromSpecImpl;

use crate::error::ApllodbError;
use crate::session::Session;

verus! {

/// Result type of operations that keep the session after an error.
pub type ApllodbSessionResult<T> = Result<T, ApllodbSessionError>;

/// Contains [ApllodbError] and [Session] who causes the error.
///
/// Used for server implementation to keep a session after getting error.
#[derive(Debug)]
pub struct ApllodbSessionError {
    /// Error
    pub err: ApllodbError,
    /// Session who causes this error
    pub session: Session,
}

impl ApllodbSessionError {
    /// Constructor.
    pub fn new(err: ApllodbError, session: Session) -> (r: Self)
        ensures
            r.err == err,
            r.session == session,
    {
        ApllodbSessionError { err, session }
    }

    /// Human-readable text: that of the error.
    pub fn to_display_string(&self) -> (r: String)
        ensures
            r@ == self.err.spec_display(),
    {
        self.err.to_display_string()
    }
}

impl From<ApllodbSessionError> for ApllodbError {
    /// The error, without the session.
    fn from(cmd_err: ApllodbSessionError) -> (r: Self) {
        cmd_err.err
    }
}

impl FromSpecImpl<ApllodbSessionError> for ApllodbError {
    open spec fn obeys_from_spec() -> bool {
        true
    }

    open spec fn from_spec(cmd_err: ApllodbSessionError) -> ApllodbError {
        cmd_err.err
    }
}

} // verus!
