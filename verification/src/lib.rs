//! Data structures shared with multiple crates in the apllodb workspace.
//!
//! - Names of database objects ([DatabaseName], [TableName], [ColumnName], ...), at most 64 characters.
//! - Sessions ([Session]) and their upgrades: without database, with database, with transaction.
//! - SQL values ([SqlValue], [NNSqlValue]), their comparison, and their evaluation in [Expression]s.
//! - Schemas of records ([RecordSchema]) that find fields by [SchemaIndex].
//! - Errors ([ApllodbError]) with their kind ([ApllodbErrorKind]), and the SQLSTATE catalogue ([SqlState]).
#![allow(unused_imports)]

pub mod error;
pub mod expression;
pub mod field;
pub mod names;
pub mod random;
pub mod record_index;
pub mod record_schema;
pub mod row;
pub mod schema;
pub mod select;
pub mod session;
pub mod table;
pub mod table_column_name;
pub mod test_models;
pub mod test_support;
pub mod text;
pub mod transaction_id;
pub mod validation_helper;
pub mod value;

pub use crate::error::kind::ApllodbErrorKind;
pub use crate::error::session_error::{ApllodbSessionError, ApllodbSessionResult};
pub use crate::error::sqlstate::{SqlState, SqlStateCategory};
pub use crate::error::{ApllodbError, ApllodbResult};
pub use crate::expression::{
    BinaryOperator, BooleanExpression, ComparisonFunction, Expression, LogicalFunction, UnaryOperator,
};
pub use crate::field::{AliasedCorrelationName, AliasedFieldName, FieldName};
pub use crate::names::{AliasName, ColumnName, CorrelationName, DatabaseName, FieldAlias, TableName};
pub use crate::record_index::{NamedRecordIndex, RecordIndex};
pub use crate::record_schema::RecordSchema;
pub use crate::row::{Record, Row};
pub use crate::schema::r_pos::RPos;
pub use crate::schema::schema_index::SchemaIndex;
pub use crate::schema::schema_name::SchemaName;
pub use crate::schema::Schema;
pub use crate::select::{FromItem, JoinType, TableWithAlias};
pub use crate::session::{Session, SessionId, SessionWithDb, SessionWithTx, SessionWithoutDb};
pub use crate::transaction_id::TransactionId;
pub use crate::table::{TableConstraintKind, TableConstraints};
pub use crate::table_column_name::TableColumnName;
pub use crate::test_models::{Body, ModelsMock, People, Pet};
pub use crate::test_support::random_id;
pub use crate::validation_helper::collection::{find_dup, find_dup_slow};
pub use crate::validation_helper::short_name::ShortName;
pub use crate::value::nn_sql_value::{NNSqlValue, NnSqlValue};
pub use crate::value::sql_compare_result::SqlCompareResult;
pub use crate::value::sql_convertible::SqlConvertible;
pub use crate::value::sql_type::{
    not_null_sql_types, DataType, DataTypeKind, I64LooseType, NumericComparableType, SqlType,
    StringComparableLoseType,
};
pub use crate::value::sql_value::SqlValue;
pub use crate::value::sql_value_hash_key::SqlValueHashKey;
