use vstd::prelude::*;

verus! {

/// All the possible errors in apllodb workspace.
///
/// Subset of SQL standard errors, whose SQLSTATE starts from 0-4, are borrowed from PostgreSQL's
/// `errcodes.txt`.
#[allow(missing_docs)]
#[derive(Clone, Copy, Eq, PartialEq, Hash, Debug, Structural)]
pub enum ApllodbErrorKind {
    // Class 00 - successful completion

    // Class 01 - warning

    // Class 02 - no data
    NoData,
    NoAdditionalDynamicResultSetsReturned,

    // Class 07 - dynamic SQL error

    // Class 08 - connection exception
    ConnectionException,
    ConnectionDoesNotExist,
    ConnectionFailure,
    SqlclientUnableToEstablishSqlconnection,
    SqlserverRejectedEstablishmentOfSqlconnection,
    TransactionResolutionUnknown,
    ProtocolViolation,

    // Class 09 - triggered action exception
    TriggeredActionException,

    // Class 0A - feature not supported
    FeatureNotSupported,

    // Class 0D - invalid target typ specification

    // Class 0D - invalid target type specification

    // Class 0E - invalid schema name list specification

    // Class 0F - locator exception
    LocatorException,
    InvalidLocatorSpecification,

    // Class 0K - resignal when handler not active

    // Class 0L - invalid grantor
    InvalidGrantor,
    InvalidGrantOperation,

    // Class 0M - invalid SQL-invoked procedure reference

    // Class 0N - SQL/XML mapping error

    // Class 0P - invalid role specification
    InvalidRoleSpecification,

    // Class 0S - invalid transform group name specification

    // Class 0T - target table disagrees with cursor specification

    // Class 0U - attempt to assign to non-updatable column

    // Class 0V - attempt to assign to ordering column

    // Class 0W - prohibited statement encountered during trigger execution

    // Class 0X - invalid foreign server specification

    // Class 0Y - pass-through specific condition

    // Class 0Z - diagnostics exception
    DiagnosticsException,
    StackedDiagnosticsAccessedWithoutActiveHandler,

    // Class 10 - XQuery error

    // Class 20 - case not found for case statement
    CaseNotFound,

    // Class 21 - cardinality violation
    CardinalityViolation,

    // Class 22 - data exception
    DataException,
    ArraySubscriptError,
    CharacterNotInRepertoire,
    DatetimeFieldOverflow,
    DivisionByZero,
    ErrorInAssignment,
    EscapeCharacterConflict,
    IndicatorOverflow,
    IntervalFieldOverflow,
    InvalidArgumentForLogarithm,
    InvalidArgumentForNtileFunction,
    InvalidArgumentForNthValueFunction,
    InvalidArgumentForPowerFunction,
    InvalidArgumentForWidthBucketFunction,
    InvalidCharacterValueForCast,
    InvalidDatetimeFormat,
    InvalidEscapeCharacter,
    InvalidEscapeOctet,
    InvalidEscapeSequence,
    NonstandardUseOfEscapeCharacter,
    InvalidIndicatorParameterValue,
    InvalidParameterValue,
    InvalidPrecedingOrFollowingSize,
    InvalidRegularExpression,
    InvalidRowCountInLimitClause,
    InvalidRowCountInResultOffsetClause,
    InvalidTablesampleArgument,
    InvalidTablesampleRepeat,
    InvalidTimeZoneDisplacementValue,
    InvalidUseOfEscapeCharacter,
    MostSpecificTypeMismatch,
    NullValueNotAllowed,
    NullValueNoIndicatorParameter,
    NumericValueOutOfRange,
    SequenceGeneratorLimitExceeded,
    StringDataLengthMismatch,
    StringDataRightTruncation,
    SubstringError,
    TrimError,
    UnterminatedCString,
    ZeroLengthCharacterString,
    FloatingPointException,
    InvalidTextRepresentation,
    InvalidBinaryRepresentation,
    BadCopyFileFormat,
    UntranslatableCharacter,
    NotAnXmlDocument,
    InvalidXmlDocument,
    InvalidXmlContent,
    InvalidXmlComment,
    InvalidXmlProcessingInstruction,
    DuplicateJsonObjectKeyValue,
    InvalidArgumentForJsonDatetimeFunction,
    InvalidJsonText,
    InvalidSqlJsonSubscript,
    MoreThanOneSqlJsonItem,
    NoSqlJsonItem,
    NonNumericSqlJsonItem,
    NonUniqueKeysInAJsonObject,
    SingletonSqlJsonItemRequired,
    SqlJsonArrayNotFound,
    SqlJsonMemberNotFound,
    SqlJsonNumberNotFound,
    SqlJsonObjectNotFound,
    TooManyJsonArrayElements,
    TooManyJsonObjectMembers,
    SqlJsonScalarRequired,

    // Class 23 - integrity constraint violation
    IntegrityConstraintViolation,
    RestrictViolation,
    NotNullViolation,
    ForeignKeyViolation,
    UniqueViolation,
    CheckViolation,
    ExclusionViolation,

    // Class 24 - invalid cursor state
    InvalidCursorState,

    // Class 25 - invalid transaction ttate
    InvalidTransactionState,
    ActiveSqlTransaction,
    BranchTransactionAlreadyActive,
    HeldCursorRequiresSameIsolationLevel,
    InappropriateAccessModeForBranchTransaction,
    InappropriateIsolationLevelForBranchTransaction,
    NoActiveSqlTransactionForBranchTransaction,
    ReadOnlySqlTransaction,
    SchemaAndDataStatementMixingNotSupported,
    NoActiveSqlTransaction,
    InFailedSqlTransaction,
    IdleInTransactionSessionTimeout,

    // Class 26 - invalid SQL statement name
    InvalidSqlStatementName,

    // Class 27 - triggered data change violation
    TriggeredDataChangeViolation,

    // Class 28 - invalid authorization specification
    InvalidAuthorizationSpecification,
    InvalidPassword,

    // Class 2B - dependent privilege descriptors still exist
    DependentPrivilegeDescriptorsStillExist,
    DependentObjectsStillExist,

    // Class 2C - invalid character set name

    // Class 2D - invalid transaction termination
    InvalidTransactionTermination,

    // Class 2E - invalid connection name

    // Class 2F - SQL routine exception
    SqlRoutineException,
    SqlFunctionExecutedNoReturnStatement,
    SqlModifyingSqlDataNotPermitted,
    SqlProhibitedSqlStatementAttempted,
    SqlReadingSqlDataNotPermitted,

    // Class 2H - invalid collation name

    // Class 30 - invalid SQL statement identifier

    // Class 33 - invalid SQL descriptor name

    // Class 34 - invalid cursor name
    InvalidCursorName,

    // Class 35 - invalid condition number

    // Class 36 - cursor sensitivity exception

    // Class 38 - external routine exception
    ExternalRoutineException,
    ExternalContainingSqlNotPermitted,
    ExternalModifyingSqlDataNotPermitted,
    ExternalProhibitedSqlStatementAttempted,
    ExternalReadingSqlDataNotPermitted,

    // Class 39 - external routine invocation exception
    ExternalRoutineInvocationException,
    ExternalInvalidSqlstateReturned,
    ExternalNullValueNotAllowed,
    ExternalTriggerProtocolViolated,
    ExternalSrfProtocolViolated,
    ExternalEventTriggerProtocolViolated,

    // Class 3B - savepoint exception
    SavepointException,
    InvalidSavepointSpecification,

    // Class 3C - ambiguous cursor name

    // Class 3D - invalid catalog name
    InvalidCatalogName,

    // Class 3F - invalid schema name
    InvalidSchemaName,

    // Class 40 - transaction rollback
    TransactionRollback,
    TransactionIntegrityConstraintViolation,
    SerializationFailure,
    StatementCompletionUnknown,
    DeadlockDetected,

    // Class 42 - syntax error or access rule violation
    /// never use this one;
    SyntaxErrorOrAccessRuleViolation,
    SyntaxError,
    InsufficientPrivilege,
    CannotCoerce,
    GroupingError,
    WindowingError,
    InvalidRecursion,
    InvalidForeignKey,
    InvalidName,
    NameTooLong,
    ReservedName,
    DatatypeMismatch,
    IndeterminateDatatype,
    CollationMismatch,
    IndeterminateCollation,
    WrongObjectType,
    GeneratedAlways,
    UndefinedColumn,
    UndefinedFunction,
    UndefinedTable,
    UndefinedParameter,
    UndefinedObject,
    DuplicateColumn,
    DuplicateCursor,
    DuplicateDatabase,
    DuplicateFunction,
    DuplicatePreparedStatement,
    DuplicateSchema,
    DuplicateTable,
    DuplicateAlias,
    DuplicateObject,
    AmbiguousColumn,
    AmbiguousFunction,
    AmbiguousParameter,
    AmbiguousAlias,
    InvalidColumnReference,
    InvalidColumnDefinition,
    InvalidCursorDefinition,
    InvalidDatabaseDefinition,
    InvalidFunctionDefinition,
    InvalidPreparedStatementDefinition,
    InvalidSchemaDefinition,
    InvalidTableDefinition,
    InvalidObjectDefinition,

    // Class 44 - with check option violation
    WithCheckOptionViolation,

    // Class 45 - unhandled user-defined exception

    // Class 46 - OLB-specific error, Java DDL

    // Class HW - datalink exception

    // Class HV - FDW-specific condition

    // Class HY - CLI-specific condition

    // Class HZ - Reserved for ISO9579 (RDA)

    // Class 58 (non-standard; partially same as PostgreSWL) - System Errors
    SystemError,
    IoError,
    DeserializationError,
    SerializationError,
    UndefinedPrimaryKey,
    InvalidVersion,

    // Class NM (non-standard; same as SQLSTATE class NM) - general name error
    NameErrorNotFound,
}

impl ApllodbErrorKind {
    /// Name of this kind, as `Debug` writes it.
    pub open spec fn spec_name(self) -> Seq<char> {
        match self {
            ApllodbErrorKind::NoData => "NoData"@,
            ApllodbErrorKind::NoAdditionalDynamicResultSetsReturned => "NoAdditionalDynamicResultSetsReturned"@,
            ApllodbErrorKind::ConnectionException => "ConnectionException"@,
            ApllodbErrorKind::ConnectionDoesNotExist => "ConnectionDoesNotExist"@,
            ApllodbErrorKind::ConnectionFailure => "ConnectionFailure"@,
            ApllodbErrorKind::SqlclientUnableToEstablishSqlconnection => "SqlclientUnableToEstablishSqlconnection"@,
            ApllodbErrorKind::SqlserverRejectedEstablishmentOfSqlconnection => "SqlserverRejectedEstablishmentOfSqlconnection"@,
            ApllodbErrorKind::TransactionResolutionUnknown => "TransactionResolutionUnknown"@,
            ApllodbErrorKind::ProtocolViolation => "ProtocolViolation"@,
            ApllodbErrorKind::TriggeredActionException => "TriggeredActionException"@,
            ApllodbErrorKind::FeatureNotSupported => "FeatureNotSupported"@,
            ApllodbErrorKind::LocatorException => "LocatorException"@,
            ApllodbErrorKind::InvalidLocatorSpecification => "InvalidLocatorSpecification"@,
            ApllodbErrorKind::InvalidGrantor => "InvalidGrantor"@,
            ApllodbErrorKind::InvalidGrantOperation => "InvalidGrantOperation"@,
            ApllodbErrorKind::InvalidRoleSpecification => "InvalidRoleSpecification"@,
            ApllodbErrorKind::DiagnosticsException => "DiagnosticsException"@,
            ApllodbErrorKind::StackedDiagnosticsAccessedWithoutActiveHandler => "StackedDiagnosticsAccessedWithoutActiveHandler"@,
            ApllodbErrorKind::CaseNotFound => "CaseNotFound"@,
            ApllodbErrorKind::CardinalityViolation => "CardinalityViolation"@,
            ApllodbErrorKind::DataException => "DataException"@,
            ApllodbErrorKind::ArraySubscriptError => "ArraySubscriptError"@,
            ApllodbErrorKind::CharacterNotInRepertoire => "CharacterNotInRepertoire"@,
            ApllodbErrorKind::DatetimeFieldOverflow => "DatetimeFieldOverflow"@,
            ApllodbErrorKind::DivisionByZero => "DivisionByZero"@,
            ApllodbErrorKind::ErrorInAssignment => "ErrorInAssignment"@,
            ApllodbErrorKind::EscapeCharacterConflict => "EscapeCharacterConflict"@,
            ApllodbErrorKind::IndicatorOverflow => "IndicatorOverflow"@,
            ApllodbErrorKind::IntervalFieldOverflow => "IntervalFieldOverflow"@,
            ApllodbErrorKind::InvalidArgumentForLogarithm => "InvalidArgumentForLogarithm"@,
            ApllodbErrorKind::InvalidArgumentForNtileFunction => "InvalidArgumentForNtileFunction"@,
            ApllodbErrorKind::InvalidArgumentForNthValueFunction => "InvalidArgumentForNthValueFunction"@,
            ApllodbErrorKind::InvalidArgumentForPowerFunction => "InvalidArgumentForPowerFunction"@,
            ApllodbErrorKind::InvalidArgumentForWidthBucketFunction => "InvalidArgumentForWidthBucketFunction"@,
            ApllodbErrorKind::InvalidCharacterValueForCast => "InvalidCharacterValueForCast"@,
            ApllodbErrorKind::InvalidDatetimeFormat => "InvalidDatetimeFormat"@,
            ApllodbErrorKind::InvalidEscapeCharacter => "InvalidEscapeCharacter"@,
            ApllodbErrorKind::InvalidEscapeOctet => "InvalidEscapeOctet"@,
            ApllodbErrorKind::InvalidEscapeSequence => "InvalidEscapeSequence"@,
            ApllodbErrorKind::NonstandardUseOfEscapeCharacter => "NonstandardUseOfEscapeCharacter"@,
            ApllodbErrorKind::InvalidIndicatorParameterValue => "InvalidIndicatorParameterValue"@,
            ApllodbErrorKind::InvalidParameterValue => "InvalidParameterValue"@,
            ApllodbErrorKind::InvalidPrecedingOrFollowingSize => "InvalidPrecedingOrFollowingSize"@,
            ApllodbErrorKind::InvalidRegularExpression => "InvalidRegularExpression"@,
            ApllodbErrorKind::InvalidRowCountInLimitClause => "InvalidRowCountInLimitClause"@,
            ApllodbErrorKind::InvalidRowCountInResultOffsetClause => "InvalidRowCountInResultOffsetClause"@,
            ApllodbErrorKind::InvalidTablesampleArgument => "InvalidTablesampleArgument"@,
            ApllodbErrorKind::InvalidTablesampleRepeat => "InvalidTablesampleRepeat"@,
            ApllodbErrorKind::InvalidTimeZoneDisplacementValue => "InvalidTimeZoneDisplacementValue"@,
            ApllodbErrorKind::InvalidUseOfEscapeCharacter => "InvalidUseOfEscapeCharacter"@,
            ApllodbErrorKind::MostSpecificTypeMismatch => "MostSpecificTypeMismatch"@,
            ApllodbErrorKind::NullValueNotAllowed => "NullValueNotAllowed"@,
            ApllodbErrorKind::NullValueNoIndicatorParameter => "NullValueNoIndicatorParameter"@,
            ApllodbErrorKind::NumericValueOutOfRange => "NumericValueOutOfRange"@,
            ApllodbErrorKind::SequenceGeneratorLimitExceeded => "SequenceGeneratorLimitExceeded"@,
            ApllodbErrorKind::StringDataLengthMismatch => "StringDataLengthMismatch"@,
            ApllodbErrorKind::StringDataRightTruncation => "StringDataRightTruncation"@,
            ApllodbErrorKind::SubstringError => "SubstringError"@,
            ApllodbErrorKind::TrimError => "TrimError"@,
            ApllodbErrorKind::UnterminatedCString => "UnterminatedCString"@,
            ApllodbErrorKind::ZeroLengthCharacterString => "ZeroLengthCharacterString"@,
            ApllodbErrorKind::FloatingPointException => "FloatingPointException"@,
            ApllodbErrorKind::InvalidTextRepresentation => "InvalidTextRepresentation"@,
            ApllodbErrorKind::InvalidBinaryRepresentation => "InvalidBinaryRepresentation"@,
            ApllodbErrorKind::BadCopyFileFormat => "BadCopyFileFormat"@,
            ApllodbErrorKind::UntranslatableCharacter => "UntranslatableCharacter"@,
            ApllodbErrorKind::NotAnXmlDocument => "NotAnXmlDocument"@,
            ApllodbErrorKind::InvalidXmlDocument => "InvalidXmlDocument"@,
            ApllodbErrorKind::InvalidXmlContent => "InvalidXmlContent"@,
            ApllodbErrorKind::InvalidXmlComment => "InvalidXmlComment"@,
            ApllodbErrorKind::InvalidXmlProcessingInstruction => "InvalidXmlProcessingInstruction"@,
            ApllodbErrorKind::DuplicateJsonObjectKeyValue => "DuplicateJsonObjectKeyValue"@,
            ApllodbErrorKind::InvalidArgumentForJsonDatetimeFunction => "InvalidArgumentForJsonDatetimeFunction"@,
            ApllodbErrorKind::InvalidJsonText => "InvalidJsonText"@,
            ApllodbErrorKind::InvalidSqlJsonSubscript => "InvalidSqlJsonSubscript"@,
            ApllodbErrorKind::MoreThanOneSqlJsonItem => "MoreThanOneSqlJsonItem"@,
            ApllodbErrorKind::NoSqlJsonItem => "NoSqlJsonItem"@,
            ApllodbErrorKind::NonNumericSqlJsonItem => "NonNumericSqlJsonItem"@,
            ApllodbErrorKind::NonUniqueKeysInAJsonObject => "NonUniqueKeysInAJsonObject"@,
            ApllodbErrorKind::SingletonSqlJsonItemRequired => "SingletonSqlJsonItemRequired"@,
            ApllodbErrorKind::SqlJsonArrayNotFound => "SqlJsonArrayNotFound"@,
            ApllodbErrorKind::SqlJsonMemberNotFound => "SqlJsonMemberNotFound"@,
            ApllodbErrorKind::SqlJsonNumberNotFound => "SqlJsonNumberNotFound"@,
            ApllodbErrorKind::SqlJsonObjectNotFound => "SqlJsonObjectNotFound"@,
            ApllodbErrorKind::TooManyJsonArrayElements => "TooManyJsonArrayElements"@,
            ApllodbErrorKind::TooManyJsonObjectMembers => "TooManyJsonObjectMembers"@,
            ApllodbErrorKind::SqlJsonScalarRequired => "SqlJsonScalarRequired"@,
            ApllodbErrorKind::IntegrityConstraintViolation => "IntegrityConstraintViolation"@,
            ApllodbErrorKind::RestrictViolation => "RestrictViolation"@,
            ApllodbErrorKind::NotNullViolation => "NotNullViolation"@,
            ApllodbErrorKind::ForeignKeyViolation => "ForeignKeyViolation"@,
            ApllodbErrorKind::UniqueViolation => "UniqueViolation"@,
            ApllodbErrorKind::CheckViolation => "CheckViolation"@,
            ApllodbErrorKind::ExclusionViolation => "ExclusionViolation"@,
            ApllodbErrorKind::InvalidCursorState => "InvalidCursorState"@,
            ApllodbErrorKind::InvalidTransactionState => "InvalidTransactionState"@,
            ApllodbErrorKind::ActiveSqlTransaction => "ActiveSqlTransaction"@,
            ApllodbErrorKind::BranchTransactionAlreadyActive => "BranchTransactionAlreadyActive"@,
            ApllodbErrorKind::HeldCursorRequiresSameIsolationLevel => "HeldCursorRequiresSameIsolationLevel"@,
            ApllodbErrorKind::InappropriateAccessModeForBranchTransaction => "InappropriateAccessModeForBranchTransaction"@,
            ApllodbErrorKind::InappropriateIsolationLevelForBranchTransaction => "InappropriateIsolationLevelForBranchTransaction"@,
            ApllodbErrorKind::NoActiveSqlTransactionForBranchTransaction => "NoActiveSqlTransactionForBranchTransaction"@,
            ApllodbErrorKind::ReadOnlySqlTransaction => "ReadOnlySqlTransaction"@,
            ApllodbErrorKind::SchemaAndDataStatementMixingNotSupported => "SchemaAndDataStatementMixingNotSupported"@,
            ApllodbErrorKind::NoActiveSqlTransaction => "NoActiveSqlTransaction"@,
            ApllodbErrorKind::InFailedSqlTransaction => "InFailedSqlTransaction"@,
            ApllodbErrorKind::IdleInTransactionSessionTimeout => "IdleInTransactionSessionTimeout"@,
            ApllodbErrorKind::InvalidSqlStatementName => "InvalidSqlStatementName"@,
            ApllodbErrorKind::TriggeredDataChangeViolation => "TriggeredDataChangeViolation"@,
            ApllodbErrorKind::InvalidAuthorizationSpecification => "InvalidAuthorizationSpecification"@,
            ApllodbErrorKind::InvalidPassword => "InvalidPassword"@,
            ApllodbErrorKind::DependentPrivilegeDescriptorsStillExist => "DependentPrivilegeDescriptorsStillExist"@,
            ApllodbErrorKind::DependentObjectsStillExist => "DependentObjectsStillExist"@,
            ApllodbErrorKind::InvalidTransactionTermination => "InvalidTransactionTermination"@,
            ApllodbErrorKind::SqlRoutineException => "SqlRoutineException"@,
            ApllodbErrorKind::SqlFunctionExecutedNoReturnStatement => "SqlFunctionExecutedNoReturnStatement"@,
            ApllodbErrorKind::SqlModifyingSqlDataNotPermitted => "SqlModifyingSqlDataNotPermitted"@,
            ApllodbErrorKind::SqlProhibitedSqlStatementAttempted => "SqlProhibitedSqlStatementAttempted"@,
            ApllodbErrorKind::SqlReadingSqlDataNotPermitted => "SqlReadingSqlDataNotPermitted"@,
            ApllodbErrorKind::InvalidCursorName => "InvalidCursorName"@,
            ApllodbErrorKind::ExternalRoutineException => "ExternalRoutineException"@,
            ApllodbErrorKind::ExternalContainingSqlNotPermitted => "ExternalContainingSqlNotPermitted"@,
            ApllodbErrorKind::ExternalModifyingSqlDataNotPermitted => "ExternalModifyingSqlDataNotPermitted"@,
            ApllodbErrorKind::ExternalProhibitedSqlStatementAttempted => "ExternalProhibitedSqlStatementAttempted"@,
            ApllodbErrorKind::ExternalReadingSqlDataNotPermitted => "ExternalReadingSqlDataNotPermitted"@,
            ApllodbErrorKind::ExternalRoutineInvocationException => "ExternalRoutineInvocationException"@,
            ApllodbErrorKind::ExternalInvalidSqlstateReturned => "ExternalInvalidSqlstateReturned"@,
            ApllodbErrorKind::ExternalNullValueNotAllowed => "ExternalNullValueNotAllowed"@,
            ApllodbErrorKind::ExternalTriggerProtocolViolated => "ExternalTriggerProtocolViolated"@,
            ApllodbErrorKind::ExternalSrfProtocolViolated => "ExternalSrfProtocolViolated"@,
            ApllodbErrorKind::ExternalEventTriggerProtocolViolated => "ExternalEventTriggerProtocolViolated"@,
            ApllodbErrorKind::SavepointException => "SavepointException"@,
            ApllodbErrorKind::InvalidSavepointSpecification => "InvalidSavepointSpecification"@,
            ApllodbErrorKind::InvalidCatalogName => "InvalidCatalogName"@,
            ApllodbErrorKind::InvalidSchemaName => "InvalidSchemaName"@,
            ApllodbErrorKind::TransactionRollback => "TransactionRollback"@,
            ApllodbErrorKind::TransactionIntegrityConstraintViolation => "TransactionIntegrityConstraintViolation"@,
            ApllodbErrorKind::SerializationFailure => "SerializationFailure"@,
            ApllodbErrorKind::StatementCompletionUnknown => "StatementCompletionUnknown"@,
            ApllodbErrorKind::DeadlockDetected => "DeadlockDetected"@,
            ApllodbErrorKind::SyntaxErrorOrAccessRuleViolation => "SyntaxErrorOrAccessRuleViolation"@,
            ApllodbErrorKind::SyntaxError => "SyntaxError"@,
            ApllodbErrorKind::InsufficientPrivilege => "InsufficientPrivilege"@,
            ApllodbErrorKind::CannotCoerce => "CannotCoerce"@,
            ApllodbErrorKind::GroupingError => "GroupingError"@,
            ApllodbErrorKind::WindowingError => "WindowingError"@,
            ApllodbErrorKind::InvalidRecursion => "InvalidRecursion"@,
            ApllodbErrorKind::InvalidForeignKey => "InvalidForeignKey"@,
            ApllodbErrorKind::InvalidName => "InvalidName"@,
            ApllodbErrorKind::NameTooLong => "NameTooLong"@,
            ApllodbErrorKind::ReservedName => "ReservedName"@,
            ApllodbErrorKind::DatatypeMismatch => "DatatypeMismatch"@,
            ApllodbErrorKind::IndeterminateDatatype => "IndeterminateDatatype"@,
            ApllodbErrorKind::CollationMismatch => "CollationMismatch"@,
            ApllodbErrorKind::IndeterminateCollation => "IndeterminateCollation"@,
            ApllodbErrorKind::WrongObjectType => "WrongObjectType"@,
            ApllodbErrorKind::GeneratedAlways => "GeneratedAlways"@,
            ApllodbErrorKind::UndefinedColumn => "UndefinedColumn"@,
            ApllodbErrorKind::UndefinedFunction => "UndefinedFunction"@,
            ApllodbErrorKind::UndefinedTable => "UndefinedTable"@,
            ApllodbErrorKind::UndefinedParameter => "UndefinedParameter"@,
            ApllodbErrorKind::UndefinedObject => "UndefinedObject"@,
            ApllodbErrorKind::DuplicateColumn => "DuplicateColumn"@,
            ApllodbErrorKind::DuplicateCursor => "DuplicateCursor"@,
            ApllodbErrorKind::DuplicateDatabase => "DuplicateDatabase"@,
            ApllodbErrorKind::DuplicateFunction => "DuplicateFunction"@,
            ApllodbErrorKind::DuplicatePreparedStatement => "DuplicatePreparedStatement"@,
            ApllodbErrorKind::DuplicateSchema => "DuplicateSchema"@,
            ApllodbErrorKind::DuplicateTable => "DuplicateTable"@,
            ApllodbErrorKind::DuplicateAlias => "DuplicateAlias"@,
            ApllodbErrorKind::DuplicateObject => "DuplicateObject"@,
            ApllodbErrorKind::AmbiguousColumn => "AmbiguousColumn"@,
            ApllodbErrorKind::AmbiguousFunction => "AmbiguousFunction"@,
            ApllodbErrorKind::AmbiguousParameter => "AmbiguousParameter"@,
            ApllodbErrorKind::AmbiguousAlias => "AmbiguousAlias"@,
            ApllodbErrorKind::NameErrorNotFound => "NameErrorNotFound"@,
            ApllodbErrorKind::InvalidColumnReference => "InvalidColumnReference"@,
            ApllodbErrorKind::InvalidColumnDefinition => "InvalidColumnDefinition"@,
            ApllodbErrorKind::InvalidCursorDefinition => "InvalidCursorDefinition"@,
            ApllodbErrorKind::InvalidDatabaseDefinition => "InvalidDatabaseDefinition"@,
            ApllodbErrorKind::InvalidFunctionDefinition => "InvalidFunctionDefinition"@,
            ApllodbErrorKind::InvalidPreparedStatementDefinition => "InvalidPreparedStatementDefinition"@,
            ApllodbErrorKind::InvalidSchemaDefinition => "InvalidSchemaDefinition"@,
            ApllodbErrorKind::InvalidTableDefinition => "InvalidTableDefinition"@,
            ApllodbErrorKind::InvalidObjectDefinition => "InvalidObjectDefinition"@,
            ApllodbErrorKind::WithCheckOptionViolation => "WithCheckOptionViolation"@,
            ApllodbErrorKind::SystemError => "SystemError"@,
            ApllodbErrorKind::IoError => "IoError"@,
            ApllodbErrorKind::DeserializationError => "DeserializationError"@,
            ApllodbErrorKind::SerializationError => "SerializationError"@,
            ApllodbErrorKind::UndefinedPrimaryKey => "UndefinedPrimaryKey"@,
            ApllodbErrorKind::InvalidVersion => "InvalidVersion"@,
        }
    }

    /// Name of this kind, as `Debug` writes it.
    pub fn name(&self) -> (r: &'static str)
        ensures
            r@ == self.spec_name(),
    {
        match self {
            ApllodbErrorKind::NoData => "NoData",
            ApllodbErrorKind::NoAdditionalDynamicResultSetsReturned => "NoAdditionalDynamicResultSetsReturned",
            ApllodbErrorKind::ConnectionException => "ConnectionException",
            ApllodbErrorKind::ConnectionDoesNotExist => "ConnectionDoesNotExist",
            ApllodbErrorKind::ConnectionFailure => "ConnectionFailure",
            ApllodbErrorKind::SqlclientUnableToEstablishSqlconnection => "SqlclientUnableToEstablishSqlconnection",
            ApllodbErrorKind::SqlserverRejectedEstablishmentOfSqlconnection => "SqlserverRejectedEstablishmentOfSqlconnection",
            ApllodbErrorKind::TransactionResolutionUnknown => "TransactionResolutionUnknown",
            ApllodbErrorKind::ProtocolViolation => "ProtocolViolation",
            ApllodbErrorKind::TriggeredActionException => "TriggeredActionException",
            ApllodbErrorKind::FeatureNotSupported => "FeatureNotSupported",
            ApllodbErrorKind::LocatorException => "LocatorException",
            ApllodbErrorKind::InvalidLocatorSpecification => "InvalidLocatorSpecification",
            ApllodbErrorKind::InvalidGrantor => "InvalidGrantor",
            ApllodbErrorKind::InvalidGrantOperation => "InvalidGrantOperation",
            ApllodbErrorKind::InvalidRoleSpecification => "InvalidRoleSpecification",
            ApllodbErrorKind::DiagnosticsException => "DiagnosticsException",
            ApllodbErrorKind::StackedDiagnosticsAccessedWithoutActiveHandler => "StackedDiagnosticsAccessedWithoutActiveHandler",
            ApllodbErrorKind::CaseNotFound => "CaseNotFound",
            ApllodbErrorKind::CardinalityViolation => "CardinalityViolation",
            ApllodbErrorKind::DataException => "DataException",
            ApllodbErrorKind::ArraySubscriptError => "ArraySubscriptError",
            ApllodbErrorKind::CharacterNotInRepertoire => "CharacterNotInRepertoire",
            ApllodbErrorKind::DatetimeFieldOverflow => "DatetimeFieldOverflow",
            ApllodbErrorKind::DivisionByZero => "DivisionByZero",
            ApllodbErrorKind::ErrorInAssignment => "ErrorInAssignment",
            ApllodbErrorKind::EscapeCharacterConflict => "EscapeCharacterConflict",
            ApllodbErrorKind::IndicatorOverflow => "IndicatorOverflow",
            ApllodbErrorKind::IntervalFieldOverflow => "IntervalFieldOverflow",
            ApllodbErrorKind::InvalidArgumentForLogarithm => "InvalidArgumentForLogarithm",
            ApllodbErrorKind::InvalidArgumentForNtileFunction => "InvalidArgumentForNtileFunction",
            ApllodbErrorKind::InvalidArgumentForNthValueFunction => "InvalidArgumentForNthValueFunction",
            ApllodbErrorKind::InvalidArgumentForPowerFunction => "InvalidArgumentForPowerFunction",
            ApllodbErrorKind::InvalidArgumentForWidthBucketFunction => "InvalidArgumentForWidthBucketFunction",
            ApllodbErrorKind::InvalidCharacterValueForCast => "InvalidCharacterValueForCast",
            ApllodbErrorKind::InvalidDatetimeFormat => "InvalidDatetimeFormat",
            ApllodbErrorKind::InvalidEscapeCharacter => "InvalidEscapeCharacter",
            ApllodbErrorKind::InvalidEscapeOctet => "InvalidEscapeOctet",
            ApllodbErrorKind::InvalidEscapeSequence => "InvalidEscapeSequence",
            ApllodbErrorKind::NonstandardUseOfEscapeCharacter => "NonstandardUseOfEscapeCharacter",
            ApllodbErrorKind::InvalidIndicatorParameterValue => "InvalidIndicatorParameterValue",
            ApllodbErrorKind::InvalidParameterValue => "InvalidParameterValue",
            ApllodbErrorKind::InvalidPrecedingOrFollowingSize => "InvalidPrecedingOrFollowingSize",
            ApllodbErrorKind::InvalidRegularExpression => "InvalidRegularExpression",
            ApllodbErrorKind::InvalidRowCountInLimitClause => "InvalidRowCountInLimitClause",
            ApllodbErrorKind::InvalidRowCountInResultOffsetClause => "InvalidRowCountInResultOffsetClause",
            ApllodbErrorKind::InvalidTablesampleArgument => "InvalidTablesampleArgument",
            ApllodbErrorKind::InvalidTablesampleRepeat => "InvalidTablesampleRepeat",
            ApllodbErrorKind::InvalidTimeZoneDisplacementValue => "InvalidTimeZoneDisplacementValue",
            ApllodbErrorKind::InvalidUseOfEscapeCharacter => "InvalidUseOfEscapeCharacter",
            ApllodbErrorKind::MostSpecificTypeMismatch => "MostSpecificTypeMismatch",
            ApllodbErrorKind::NullValueNotAllowed => "NullValueNotAllowed",
            ApllodbErrorKind::NullValueNoIndicatorParameter => "NullValueNoIndicatorParameter",
            ApllodbErrorKind::NumericValueOutOfRange => "NumericValueOutOfRange",
            ApllodbErrorKind::SequenceGeneratorLimitExceeded => "SequenceGeneratorLimitExceeded",
            ApllodbErrorKind::StringDataLengthMismatch => "StringDataLengthMismatch",
            ApllodbErrorKind::StringDataRightTruncation => "StringDataRightTruncation",
            ApllodbErrorKind::SubstringError => "SubstringError",
            ApllodbErrorKind::TrimError => "TrimError",
            ApllodbErrorKind::UnterminatedCString => "UnterminatedCString",
            ApllodbErrorKind::ZeroLengthCharacterString => "ZeroLengthCharacterString",
            ApllodbErrorKind::FloatingPointException => "FloatingPointException",
            ApllodbErrorKind::InvalidTextRepresentation => "InvalidTextRepresentation",
            ApllodbErrorKind::InvalidBinaryRepresentation => "InvalidBinaryRepresentation",
            ApllodbErrorKind::BadCopyFileFormat => "BadCopyFileFormat",
            ApllodbErrorKind::UntranslatableCharacter => "UntranslatableCharacter",
            ApllodbErrorKind::NotAnXmlDocument => "NotAnXmlDocument",
            ApllodbErrorKind::InvalidXmlDocument => "InvalidXmlDocument",
            ApllodbErrorKind::InvalidXmlContent => "InvalidXmlContent",
            ApllodbErrorKind::InvalidXmlComment => "InvalidXmlComment",
            ApllodbErrorKind::InvalidXmlProcessingInstruction => "InvalidXmlProcessingInstruction",
            ApllodbErrorKind::DuplicateJsonObjectKeyValue => "DuplicateJsonObjectKeyValue",
            ApllodbErrorKind::InvalidArgumentForJsonDatetimeFunction => "InvalidArgumentForJsonDatetimeFunction",
            ApllodbErrorKind::InvalidJsonText => "InvalidJsonText",
            ApllodbErrorKind::InvalidSqlJsonSubscript => "InvalidSqlJsonSubscript",
            ApllodbErrorKind::MoreThanOneSqlJsonItem => "MoreThanOneSqlJsonItem",
            ApllodbErrorKind::NoSqlJsonItem => "NoSqlJsonItem",
            ApllodbErrorKind::NonNumericSqlJsonItem => "NonNumericSqlJsonItem",
            ApllodbErrorKind::NonUniqueKeysInAJsonObject => "NonUniqueKeysInAJsonObject",
            ApllodbErrorKind::SingletonSqlJsonItemRequired => "SingletonSqlJsonItemRequired",
            ApllodbErrorKind::SqlJsonArrayNotFound => "SqlJsonArrayNotFound",
            ApllodbErrorKind::SqlJsonMemberNotFound => "SqlJsonMemberNotFound",
            ApllodbErrorKind::SqlJsonNumberNotFound => "SqlJsonNumberNotFound",
            ApllodbErrorKind::SqlJsonObjectNotFound => "SqlJsonObjectNotFound",
            ApllodbErrorKind::TooManyJsonArrayElements => "TooManyJsonArrayElements",
            ApllodbErrorKind::TooManyJsonObjectMembers => "TooManyJsonObjectMembers",
            ApllodbErrorKind::SqlJsonScalarRequired => "SqlJsonScalarRequired",
            ApllodbErrorKind::IntegrityConstraintViolation => "IntegrityConstraintViolation",
            ApllodbErrorKind::RestrictViolation => "RestrictViolation",
            ApllodbErrorKind::NotNullViolation => "NotNullViolation",
            ApllodbErrorKind::ForeignKeyViolation => "ForeignKeyViolation",
            ApllodbErrorKind::UniqueViolation => "UniqueViolation",
            ApllodbErrorKind::CheckViolation => "CheckViolation",
            ApllodbErrorKind::ExclusionViolation => "ExclusionViolation",
            ApllodbErrorKind::InvalidCursorState => "InvalidCursorState",
            ApllodbErrorKind::InvalidTransactionState => "InvalidTransactionState",
            ApllodbErrorKind::ActiveSqlTransaction => "ActiveSqlTransaction",
            ApllodbErrorKind::BranchTransactionAlreadyActive => "BranchTransactionAlreadyActive",
            ApllodbErrorKind::HeldCursorRequiresSameIsolationLevel => "HeldCursorRequiresSameIsolationLevel",
            ApllodbErrorKind::InappropriateAccessModeForBranchTransaction => "InappropriateAccessModeForBranchTransaction",
            ApllodbErrorKind::InappropriateIsolationLevelForBranchTransaction => "InappropriateIsolationLevelForBranchTransaction",
            ApllodbErrorKind::NoActiveSqlTransactionForBranchTransaction => "NoActiveSqlTransactionForBranchTransaction",
            ApllodbErrorKind::ReadOnlySqlTransaction => "ReadOnlySqlTransaction",
            ApllodbErrorKind::SchemaAndDataStatementMixingNotSupported => "SchemaAndDataStatementMixingNotSupported",
            ApllodbErrorKind::NoActiveSqlTransaction => "NoActiveSqlTransaction",
            ApllodbErrorKind::InFailedSqlTransaction => "InFailedSqlTransaction",
            ApllodbErrorKind::IdleInTransactionSessionTimeout => "IdleInTransactionSessionTimeout",
            ApllodbErrorKind::InvalidSqlStatementName => "InvalidSqlStatementName",
            ApllodbErrorKind::TriggeredDataChangeViolation => "TriggeredDataChangeViolation",
            ApllodbErrorKind::InvalidAuthorizationSpecification => "InvalidAuthorizationSpecification",
            ApllodbErrorKind::InvalidPassword => "InvalidPassword",
            ApllodbErrorKind::DependentPrivilegeDescriptorsStillExist => "DependentPrivilegeDescriptorsStillExist",
            ApllodbErrorKind::DependentObjectsStillExist => "DependentObjectsStillExist",
            ApllodbErrorKind::InvalidTransactionTermination => "InvalidTransactionTermination",
            ApllodbErrorKind::SqlRoutineException => "SqlRoutineException",
            ApllodbErrorKind::SqlFunctionExecutedNoReturnStatement => "SqlFunctionExecutedNoReturnStatement",
            ApllodbErrorKind::SqlModifyingSqlDataNotPermitted => "SqlModifyingSqlDataNotPermitted",
            ApllodbErrorKind::SqlProhibitedSqlStatementAttempted => "SqlProhibitedSqlStatementAttempted",
            ApllodbErrorKind::SqlReadingSqlDataNotPermitted => "SqlReadingSqlDataNotPermitted",
            ApllodbErrorKind::InvalidCursorName => "InvalidCursorName",
            ApllodbErrorKind::ExternalRoutineException => "ExternalRoutineException",
            ApllodbErrorKind::ExternalContainingSqlNotPermitted => "ExternalContainingSqlNotPermitted",
            ApllodbErrorKind::ExternalModifyingSqlDataNotPermitted => "ExternalModifyingSqlDataNotPermitted",
            ApllodbErrorKind::ExternalProhibitedSqlStatementAttempted => "ExternalProhibitedSqlStatementAttempted",
            ApllodbErrorKind::ExternalReadingSqlDataNotPermitted => "ExternalReadingSqlDataNotPermitted",
            ApllodbErrorKind::ExternalRoutineInvocationException => "ExternalRoutineInvocationException",
            ApllodbErrorKind::ExternalInvalidSqlstateReturned => "ExternalInvalidSqlstateReturned",
            ApllodbErrorKind::ExternalNullValueNotAllowed => "ExternalNullValueNotAllowed",
            ApllodbErrorKind::ExternalTriggerProtocolViolated => "ExternalTriggerProtocolViolated",
            ApllodbErrorKind::ExternalSrfProtocolViolated => "ExternalSrfProtocolViolated",
            ApllodbErrorKind::ExternalEventTriggerProtocolViolated => "ExternalEventTriggerProtocolViolated",
            ApllodbErrorKind::SavepointException => "SavepointException",
            ApllodbErrorKind::InvalidSavepointSpecification => "InvalidSavepointSpecification",
            ApllodbErrorKind::InvalidCatalogName => "InvalidCatalogName",
            ApllodbErrorKind::InvalidSchemaName => "InvalidSchemaName",
            ApllodbErrorKind::TransactionRollback => "TransactionRollback",
            ApllodbErrorKind::TransactionIntegrityConstraintViolation => "TransactionIntegrityConstraintViolation",
            ApllodbErrorKind::SerializationFailure => "SerializationFailure",
            ApllodbErrorKind::StatementCompletionUnknown => "StatementCompletionUnknown",
            ApllodbErrorKind::DeadlockDetected => "DeadlockDetected",
            ApllodbErrorKind::SyntaxErrorOrAccessRuleViolation => "SyntaxErrorOrAccessRuleViolation",
            ApllodbErrorKind::SyntaxError => "SyntaxError",
            ApllodbErrorKind::InsufficientPrivilege => "InsufficientPrivilege",
            ApllodbErrorKind::CannotCoerce => "CannotCoerce",
            ApllodbErrorKind::GroupingError => "GroupingError",
            ApllodbErrorKind::WindowingError => "WindowingError",
            ApllodbErrorKind::InvalidRecursion => "InvalidRecursion",
            ApllodbErrorKind::InvalidForeignKey => "InvalidForeignKey",
            ApllodbErrorKind::InvalidName => "InvalidName",
            ApllodbErrorKind::NameTooLong => "NameTooLong",
            ApllodbErrorKind::ReservedName => "ReservedName",
            ApllodbErrorKind::DatatypeMismatch => "DatatypeMismatch",
            ApllodbErrorKind::IndeterminateDatatype => "IndeterminateDatatype",
            ApllodbErrorKind::CollationMismatch => "CollationMismatch",
            ApllodbErrorKind::IndeterminateCollation => "IndeterminateCollation",
            ApllodbErrorKind::WrongObjectType => "WrongObjectType",
            ApllodbErrorKind::GeneratedAlways => "GeneratedAlways",
            ApllodbErrorKind::UndefinedColumn => "UndefinedColumn",
            ApllodbErrorKind::UndefinedFunction => "UndefinedFunction",
            ApllodbErrorKind::UndefinedTable => "UndefinedTable",
            ApllodbErrorKind::UndefinedParameter => "UndefinedParameter",
            ApllodbErrorKind::UndefinedObject => "UndefinedObject",
            ApllodbErrorKind::DuplicateColumn => "DuplicateColumn",
            ApllodbErrorKind::DuplicateCursor => "DuplicateCursor",
            ApllodbErrorKind::DuplicateDatabase => "DuplicateDatabase",
            ApllodbErrorKind::DuplicateFunction => "DuplicateFunction",
            ApllodbErrorKind::DuplicatePreparedStatement => "DuplicatePreparedStatement",
            ApllodbErrorKind::DuplicateSchema => "DuplicateSchema",
            ApllodbErrorKind::DuplicateTable => "DuplicateTable",
            ApllodbErrorKind::DuplicateAlias => "DuplicateAlias",
            ApllodbErrorKind::DuplicateObject => "DuplicateObject",
            ApllodbErrorKind::AmbiguousColumn => "AmbiguousColumn",
            ApllodbErrorKind::AmbiguousFunction => "AmbiguousFunction",
            ApllodbErrorKind::AmbiguousParameter => "AmbiguousParameter",
            ApllodbErrorKind::AmbiguousAlias => "AmbiguousAlias",
            ApllodbErrorKind::NameErrorNotFound => "NameErrorNotFound",
            ApllodbErrorKind::InvalidColumnReference => "InvalidColumnReference",
            ApllodbErrorKind::InvalidColumnDefinition => "InvalidColumnDefinition",
            ApllodbErrorKind::InvalidCursorDefinition => "InvalidCursorDefinition",
            ApllodbErrorKind::InvalidDatabaseDefinition => "InvalidDatabaseDefinition",
            ApllodbErrorKind::InvalidFunctionDefinition => "InvalidFunctionDefinition",
            ApllodbErrorKind::InvalidPreparedStatementDefinition => "InvalidPreparedStatementDefinition",
            ApllodbErrorKind::InvalidSchemaDefinition => "InvalidSchemaDefinition",
            ApllodbErrorKind::InvalidTableDefinition => "InvalidTableDefinition",
            ApllodbErrorKind::InvalidObjectDefinition => "InvalidObjectDefinition",
            ApllodbErrorKind::WithCheckOptionViolation => "WithCheckOptionViolation",
            ApllodbErrorKind::SystemError => "SystemError",
            ApllodbErrorKind::IoError => "IoError",
            ApllodbErrorKind::DeserializationError => "DeserializationError",
            ApllodbErrorKind::SerializationError => "SerializationError",
            ApllodbErrorKind::UndefinedPrimaryKey => "UndefinedPrimaryKey",
            ApllodbErrorKind::InvalidVersion => "InvalidVersion",
        }
    }
}

} // verus!
