use vstd::prelude::*;
use vstd::string::*;

use crate::error::kind::ApllodbErrorKind;
use crate::error::{ApllodbError, ApllodbErrorView, ApllodbResult};
use crate::text::{concat, decimal, decimal_text, string_of};

verus! {

/// Maximum number of characters in a [ShortName].
pub const SHORT_NAME_MAX_LEN: usize = 64;

/// Description of the error for a name longer than [SHORT_NAME_MAX_LEN] characters.
pub open spec fn too_long_text(name: Seq<char>) -> Seq<char> {
    "ShortName `"@ + name + "` is too long ("@ + decimal(name.len()) + " > 64)"@
}

/// The error for a name longer than [SHORT_NAME_MAX_LEN] characters.
pub open spec fn too_long_error(name: Seq<char>) -> ApllodbErrorView {
    ApllodbErrorView { kind: ApllodbErrorKind::NameTooLong, desc: too_long_text(name) }
}

/// Short (64 chars in UTF-8 at maximum) object name used for table names, column names, and so on.
#[derive(Eq, PartialEq, Ord, PartialOrd, Hash, Debug)]
pub struct ShortName(String);

impl View for ShortName {
    type V = Seq<char>;

    closed spec fn view(&self) -> Seq<char> {
        self.0@
    }
}

impl Clone for ShortName {
    fn clone(&self) -> (r: Self)
        ensures
            r == *self,
    {
        ShortName(self.0.clone())
    }
}

impl ShortName {
    /// Constructor.
    ///
    /// Asserting that `name` contains only valid characters and is not the same as SQL keyword
    /// (since it should be assured by tokenizer).
    ///
    /// # Failures
    /// - [NameTooLong](ApllodbErrorKind::NameTooLong) when:
    ///   - `name` length is longer than 64 (counted as UTF-8 character).
    pub fn new(name: &str) -> (r: ApllodbResult<Self>)
        ensures
            r matches Ok(n) ==> name@.len() <= SHORT_NAME_MAX_LEN && n@ == name@,
            r matches Err(e) ==> name@.len() > SHORT_NAME_MAX_LEN && e@ == too_long_error(name@),
            r is Ok <==> name@.len() <= SHORT_NAME_MAX_LEN,
    {
        match Self::validate_length(name) {
            Ok(()) => Ok(Self(string_of(name))),
            Err(e) => Err(e),
        }
    }

    /// Name as str.
    pub fn as_str(&self) -> (r: &str)
        ensures
            r@ == self@,
    {
        self.0.as_str()
    }

    fn validate_length(name: &str) -> (r: ApllodbResult<()>)
        ensures
            r is Ok <==> name@.len() <= SHORT_NAME_MAX_LEN,
            r matches Err(e) ==> e@ == too_long_error(name@),
    {
        let count = name.unicode_len();
        if count > SHORT_NAME_MAX_LEN {
            let desc = string_of("ShortName `");
            let desc = concat(desc, name);
            let desc = concat(desc, "` is too long (");
            let desc = concat(desc, decimal_text(count as u64).as_str());
            let desc = concat(desc, " > 64)");
            Err(ApllodbError::new(ApllodbErrorKind::NameTooLong, desc))
        } else {
            Ok(())
        }
    }
}

} // verus!
