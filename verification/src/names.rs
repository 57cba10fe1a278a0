//! Names of database objects: each is a [ShortName].
use vstd::prelude::*;

use crate::error::{ApllodbError, ApllodbResult};
use crate::validation_helper::short_name::{too_long_error, ShortName, SHORT_NAME_MAX_LEN};

verus! {

/// Database name.
#[derive(Eq, PartialEq, Ord, PartialOrd, Hash, Debug)]
pub struct DatabaseName(ShortName);

impl View for DatabaseName {
    type V = Seq<char>;

    closed spec fn view(&self) -> Seq<char> {
        self.0@
    }
}

impl Clone for DatabaseName {
    fn clone(&self) -> (r: Self)
        ensures
            r == *self,
    {
        DatabaseName(self.0.clone())
    }
}

impl DatabaseName {
    /// Constructor.
    ///
    /// # Failures
    /// - [NameTooLong](crate::error::kind::ApllodbErrorKind::NameTooLong) when:
    ///   - `name` length is longer than 64 (counted as UTF-8 character).
    pub fn new(name: &str) -> (r: ApllodbResult<Self>)
        ensures
            r matches Ok(n) ==> n@ == name@,
            r matches Err(e) ==> e@ == too_long_error(name@),
            r is Ok <==> name@.len() <= SHORT_NAME_MAX_LEN,
    {
        match ShortName::new(name) {
            Ok(sn) => Ok(Self(sn)),
            Err(e) => Err(e),
        }
    }

    /// database name
    pub fn as_str(&self) -> (r: &str)
        ensures
            r@ == self@,
    {
        self.0.as_str()
    }
}

/// Table name.
#[derive(Eq, PartialEq, Ord, PartialOrd, Hash, Debug)]
pub struct TableName(ShortName);

impl View for TableName {
    type V = Seq<char>;

    closed spec fn view(&self) -> Seq<char> {
        self.0@
    }
}

impl Clone for TableName {
    fn clone(&self) -> (r: Self)
        ensures
            r == *self,
    {
        TableName(self.0.clone())
    }
}

impl TableName {
    /// Constructor.
    ///
    /// # Failures
    /// - [NameTooLong](crate::error::kind::ApllodbErrorKind::NameTooLong) when:
    ///   - `name` length is longer than 64 (counted as UTF-8 character).
    pub fn new(name: &str) -> (r: ApllodbResult<Self>)
        ensures
            r matches Ok(n) ==> n@ == name@,
            r matches Err(e) ==> e@ == too_long_error(name@),
            r is Ok <==> name@.len() <= SHORT_NAME_MAX_LEN,
    {
        match ShortName::new(name) {
            Ok(sn) => Ok(Self(sn)),
            Err(e) => Err(e),
        }
    }

    /// Table name as str
    pub fn as_str(&self) -> (r: &str)
        ensures
            r@ == self@,
    {
        self.0.as_str()
    }
}

/// Column name.
#[derive(Eq, PartialEq, Ord, PartialOrd, Hash, Debug)]
pub struct ColumnName(ShortName);

impl View for ColumnName {
    type V = Seq<char>;

    closed spec fn view(&self) -> Seq<char> {
        self.0@
    }
}

impl Clone for ColumnName {
    fn clone(&self) -> (r: Self)
        ensures
            r == *self,
    {
        ColumnName(self.0.clone())
    }
}

impl ColumnName {
    /// Constructor.
    ///
    /// # Failures
    /// - [NameTooLong](crate::error::kind::ApllodbErrorKind::NameTooLong) when:
    ///   - `name` length is longer than 64 (counted as UTF-8 character).
    pub fn new(name: &str) -> (r: ApllodbResult<Self>)
        ensures
            r matches Ok(n) ==> n@ == name@,
            r matches Err(e) ==> e@ == too_long_error(name@),
            r is Ok <==> name@.len() <= SHORT_NAME_MAX_LEN,
    {
        match ShortName::new(name) {
            Ok(sn) => Ok(Self(sn)),
            Err(e) => Err(e),
        }
    }

    /// Column name as str
    pub fn as_str(&self) -> (r: &str)
        ensures
            r@ == self@,
    {
        self.0.as_str()
    }
}

/// Alias name of a table or of a subquery.
#[derive(Eq, PartialEq, Ord, PartialOrd, Hash, Debug)]
pub struct AliasName(ShortName);

impl View for AliasName {
    type V = Seq<char>;

    closed spec fn view(&self) -> Seq<char> {
        self.0@
    }
}

impl Clone for AliasName {
    fn clone(&self) -> (r: Self)
        ensures
            r == *self,
    {
        AliasName(self.0.clone())
    }
}

impl AliasName {
    /// Constructor.
    ///
    /// # Failures
    /// - [NameTooLong](crate::error::kind::ApllodbErrorKind::NameTooLong) when:
    ///   - `name` length is longer than 64 (counted as UTF-8 character).
    pub fn new(name: &str) -> (r: ApllodbResult<Self>)
        ensures
            r matches Ok(n) ==> n@ == name@,
            r matches Err(e) ==> e@ == too_long_error(name@),
            r is Ok <==> name@.len() <= SHORT_NAME_MAX_LEN,
    {
        match ShortName::new(name) {
            Ok(sn) => Ok(Self(sn)),
            Err(e) => Err(e),
        }
    }

    /// Alias name as str
    pub fn as_str(&self) -> (r: &str)
        ensures
            r@ == self@,
    {
        self.0.as_str()
    }
}

/// Name of a correlation: a table, or an alias of a table or of a subquery.
#[derive(Eq, PartialEq, Ord, PartialOrd, Hash, Debug)]
pub struct CorrelationName(ShortName);

impl View for CorrelationName {
    type V = Seq<char>;

    closed spec fn view(&self) -> Seq<char> {
        self.0@
    }
}

impl Clone for CorrelationName {
    fn clone(&self) -> (r: Self)
        ensures
            r == *self,
    {
        CorrelationName(self.0.clone())
    }
}

impl CorrelationName {
    /// Constructor.
    ///
    /// # Failures
    /// - [NameTooLong](crate::error::kind::ApllodbErrorKind::NameTooLong) when:
    ///   - `name` length is longer than 64 (counted as UTF-8 character).
    pub fn new(name: &str) -> (r: ApllodbResult<Self>)
        ensures
            r matches Ok(n) ==> n@ == name@,
            r matches Err(e) ==> e@ == too_long_error(name@),
            r is Ok <==> name@.len() <= SHORT_NAME_MAX_LEN,
    {
        match ShortName::new(name) {
            Ok(sn) => Ok(Self(sn)),
            Err(e) => Err(e),
        }
    }

    /// Correlation name as str
    pub fn as_str(&self) -> (r: &str)
        ensures
            r@ == self@,
    {
        self.0.as_str()
    }
}

/// An alias to a field.
#[derive(Eq, PartialEq, Ord, PartialOrd, Hash, Debug)]
pub struct FieldAlias(ShortName);

impl View for FieldAlias {
    type V = Seq<char>;

    closed spec fn view(&self) -> Seq<char> {
        self.0@
    }
}

impl Clone for FieldAlias {
    fn clone(&self) -> (r: Self)
        ensures
            r == *self,
    {
        FieldAlias(self.0.clone())
    }
}

impl FieldAlias {
    /// Constructor.
    ///
    /// # Failures
    /// - [NameTooLong](crate::error::kind::ApllodbErrorKind::NameTooLong) when:
    ///   - `name` length is longer than 64 (counted as UTF-8 character).
    pub fn _new(name: &str) -> (r: ApllodbResult<Self>)
        ensures
            r matches Ok(n) ==> n@ == name@,
            r matches Err(e) ==> e@ == too_long_error(name@),
            r is Ok <==> name@.len() <= SHORT_NAME_MAX_LEN,
    {
        match ShortName::new(name) {
            Ok(sn) => Ok(Self(sn)),
            Err(e) => Err(e),
        }
    }

    /// Alias name as str
    pub fn _as_str(&self) -> (r: &str)
        ensures
            r@ == self@,
    {
        self.0.as_str()
    }
}

} // verus!
