//! Result type and error type commonly used in the apllodb workspace.

pub mod kind;
pub mod session_error;

pub mod sqlstate;

use vstd::prelude::*;

use crate::error::kind::ApllodbErrorKind;
use crate::text::{concat, string_of};

verus! {

/// Result type commonly used in apllodb workspace.
pub type ApllodbResult<T> = Result<T, ApllodbError>;

/// What an [ApllodbError] carries: its machine-readable kind and its human-readable description.
pub struct ApllodbErrorView {
    /// Machine-readable error type.
    pub kind: ApllodbErrorKind,
    /// Human-readable description.
    pub desc: Seq<char>,
}

/// A result with its error taken by its view.
pub open spec fn result_view<T>(r: ApllodbResult<T>) -> Result<T, ApllodbErrorView> {
    match r {
        Ok(x) => Ok(x),
        Err(e) => Err(e@),
    }
}

/// Error type commonly used in apllodb workspace.
#[derive(Debug)]
pub struct ApllodbError {
    /// Machine-readable error type.
    kind: ApllodbErrorKind,
    /// Human-readable description of each error instance.
    desc: String,
}

impl View for ApllodbError {
    type V = ApllodbErrorView;

    closed spec fn view(&self) -> ApllodbErrorView {
        ApllodbErrorView { kind: self.kind, desc: self.desc@ }
    }
}

impl ApllodbError {
    /// General constructor.
    pub fn new(kind: ApllodbErrorKind, desc: String) -> (r: Self)
        ensures
            r@.kind == kind,
            r@.desc == desc@,
    {
        Self { kind, desc }
    }

    /// Constructor of [ApllodbErrorKind::FeatureNotSupported].
    pub fn feature_not_supported(desc: &str) -> (r: Self)
        ensures
            r@.kind == ApllodbErrorKind::FeatureNotSupported,
            r@.desc == desc@,
    {
        Self::new(ApllodbErrorKind::FeatureNotSupported, string_of(desc))
    }

    /// Error for a failed input / output operation.
    pub fn io_error() -> (r: Self)
        ensures
            r@.kind == ApllodbErrorKind::IoError,
            r@.desc == "IO error"@,
    {
        Self::new(ApllodbErrorKind::IoError, string_of("IO error"))
    }

    /// Human-readable text: the description, the kind, the description again, and the cause (this
    /// error type keeps no cause, so it is always `none`).
    pub open spec fn spec_display(self) -> Seq<char> {
        self@.desc + " ("@ + self@.kind.spec_name() + ") `"@ + self@.desc + "` ; caused by: `none`"@
    }

    /// Human-readable text (see [ApllodbError::spec_display]).
    pub fn to_display_string(&self) -> (r: String)
        ensures
            r@ == self.spec_display(),
    {
        let s = concat(string_of(self.desc.as_str()), " (");
        let s = concat(s, self.kind.name());
        let s = concat(s, ") `");
        let s = concat(s, self.desc.as_str());
        concat(s, "` ; caused by: `none`")
    }

    /// Use this for error handling with pattern match.
    pub fn kind(&self) -> (r: &ApllodbErrorKind)
        ensures
            *r == self@.kind,
    {
        &self.kind
    }

    /// Human-readable error description.
    pub fn desc(&self) -> (r: &str)
        ensures
            r@ == self@.desc,
    {
        self.desc.as_str()
    }
}

} // verus!
