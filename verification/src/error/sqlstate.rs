use vstd::prelude::*;

use crate::text::{concat, push_char, str_equal, string_of};

verus! {

/// SQLSTATE.
///
/// Errors for specific SQL part (`SQL/JRT`, for example) are omitted.
#[allow(missing_docs)]
#[derive(Clone, Copy, Eq, PartialEq, Ord, PartialOrd, Hash, Debug, Structural)]
pub enum SqlState {
    SuccessfulCompletion,
    Warning,
    WarningCursorOperationConflict,
    WarningDisconnectError,
    WarningNullValueEliminatedInSetFunction,
    WarningStringDataRightTruncation,
    WarningInsufficientItemDescriptorAreas,
    WarningPrivilegeNotRevoked,
    WarningPrivilegeNotGranted,
    WarningSearchConditionTooLongForInformationSchema,
    WarningQueryExpressionTooLongForInformationSchema,
    WarningDefaultValueTooLongForInformationSchema,
    WarningResultSetsReturned,
    WarningAdditionalResultSetsReturned,
    WarningAttemptToReturnTooManyResultSets,
    WarningStatementTooLongForInformationSchema,
    WarningInvalidNumberOfConditions,
    WarningArrayDataRightTruncation,
    NoData,
    NoDataNoAdditionalResultSetsReturned,
    DynamicSQLError,
    DynamicSQLErrorUsingClauseDoesNotMatchDynamicParameterSpecifications,
    DynamicSQLErrorUsingClauseDoesNotMatchTargetSpecifications,
    DynamicSQLErrorCursorSpecificationCannotBeExecuted,
    DynamicSQLErrorUsingClauseRequiredForDynamicParameters,
    DynamicSQLErrorPreparedStatementNotACursorSpecification,
    DynamicSQLErrorRestrictedDataTypeAttributeViolation,
    DynamicSQLErrorUsingClauseRequiredForResultFields,
    DynamicSQLErrorInvalidDescriptorCount,
    DynamicSQLErrorInvalidDescriptorIndex,
    DynamicSQLErrorDataTypeTransformFunctionViolation,
    DynamicSQLErrorUndefinedDATAValue,
    DynamicSQLErrorInvalidDATATarget,
    DynamicSQLErrorInvalidLEVELValue,
    DynamicSQLErrorInvalidDatetimeIntervalCode,
    ConnectionException,
    ConnectionExceptionSQLclientUnableToEstablishSQLconnection,
    ConnectionExceptionConnectionNameInUse,
    ConnectionExceptionConnectionDoesNotExist,
    ConnectionExceptionSQLserverRejectedEstablishmentOfSQLconnection,
    ConnectionExceptionConnectionFailure,
    ConnectionExceptionTransactionResolutionUnknown,
    TriggeredActionException,
    FeatureNotSupported,
    FeatureNotSupportedMultipleServerTransactions,
    InvalidTargetTypeSpecification,
    InvalidSchemaNameListSpecification,
    LocatorException,
    LocatorExceptionInvalidSpecification,
    InvalidGrantor,
    InvalidSQLinvokedProcedureReference,
    InvalidRoleSpecification,
    InvalidTransformGroupNameSpecification,
    TargetTableDisagreesWithCursorSpecification,
    AttemptToAssignToNonupdatableColumn,
    AttemptToAssignToOrderingColumn,
    ProhibitedStatementEncounteredDuringTriggerExecution,
    ProhibitedStatementEncounteredDuringTriggerExecutionModifyTableModifiedByDataChangeDeltaTable,
    DiagnosticsException,
    DiagnosticsExceptionMaximumNumberOfStackedDiagnosticsAreasExceeded,
    CardinalityViolation,
    DataException,
    DataExceptionStringDataRightTruncation,
    DataExceptionNullValueNoIndicatorParameter,
    DataExceptionNumericValueOutOfRange,
    DataExceptionNullValueNotAllowed,
    DataExceptionErrorInAssignment,
    DataExceptionInvalidIntervalFormat,
    DataExceptionInvalidDatetimeFormat,
    DataExceptionDatetimeFieldOverflow,
    DataExceptionInvalidTimeZoneDisplacementValue,
    DataExceptionEscapeCharacterConflict,
    DataExceptionInvalidUseOfEscapeCharacter,
    DataExceptionInvalidEscapeOctet,
    DataExceptionNullValueInArrayTarget,
    DataExceptionZerolengthCharacterString,
    DataExceptionMostSpecificTypeMismatch,
    DataExceptionSequenceGeneratorLimitExceeded,
    DataExceptionIntervalValueOutOfRange,
    DataExceptionMultisetValueOverflow,
    DataExceptionInvalidIndicatorParameterValue,
    DataExceptionSubstringError,
    DataExceptionDivisionByZero,
    DataExceptionInvalidPrecedingOrFollowingSizeInWindowFunction,
    DataExceptionInvalidArgumentForNTILEFunction,
    DataExceptionIntervalFieldOverflow,
    DataExceptionInvalidArgumentForNthValueFunction,
    DataExceptionInvalidCharacterValueForCast,
    DataExceptionInvalidEscapeCharacter,
    DataExceptionInvalidRegularExpression,
    DataExceptionNullRowNotPermittedInTable,
    DataExceptionInvalidArgumentForNaturalLogarithm,
    DataExceptionInvalidArgumentForPowerFunction,
    DataExceptionInvalidArgumentForWidthBucketFunction,
    DataExceptionInvalidRowVersion,
    DataExceptionInvalidQueryRegularExpression,
    DataExceptionInvalidQueryOptionFlag,
    DataExceptionAttemptToReplaceAZerolengthString,
    DataExceptionInvalidQueryReplacementString,
    DataExceptionInvalidRowCountInFetchFirstClause,
    DataExceptionInvalidRowCountInResultOffsetClause,
    DataExceptionCharacterNotInRepertoire,
    DataExceptionIndicatorOverflow,
    DataExceptionInvalidParameterValue,
    DataExceptionUnterminatedCString,
    DataExceptionInvalidEscapeSequence,
    DataExceptionStringDataLengthMismatch,
    DataExceptionTrimError,
    DataExceptionNoncharacterInUCSString,
    DataExceptionNullValueSubstitutedForMutatorSubjectParameter,
    DataExceptionArrayElementError,
    DataExceptionArrayDataRightTruncation,
    DataExceptionInvalidRepeatArgumentInASampleClause,
    DataExceptionInvalidSampleSize,
    DataExceptionIllegalConversion,
    DataExceptionIllegalComparison,
    DataExceptionIllegalOperation,
    IntegrityConstraintViolation,
    IntegrityConstraintViolationRestrictViolation,
    IntegrityConstraintNotNullViolation,
    IntegrityConstraintUniqueViolation,
    InvalidCursorState,
    InvalidTransactionState,
    InvalidTransactionStateActiveSQLtransaction,
    InvalidTransactionStateBranchTransactionAlreadyActive,
    InvalidTransactionStateInappropriateAccessModeForBranchTransaction,
    InvalidTransactionStateInappropriateIsolationLevelForBranchTransaction,
    InvalidTransactionStateNoActiveSQLtransactionForBranchTransaction,
    InvalidTransactionStateReadonlySQLtransaction,
    InvalidTransactionStateSchemaAndDataStatementMixingNotSupported,
    InvalidTransactionStateHeldCursorRequiresSameIsolationLevel,
    InvalidSQLStatementName,
    TriggeredDataChangeViolation,
    TriggeredDataChangeViolationModifyTableModifiedByDataChangeDeltaTable,
    InvalidAuthorizationSpecification,
    DependentPrivilegeDescriptorsStillExist,
    InvalidCharacterSetName,
    InvalidTransactionTermination,
    InvalidConnectionName,
    SQLRoutineException,
    SQLRoutineExceptionModifyingSQLdataNotPermitted,
    SQLRoutineExceptionProhibitedSQLstatementAttempted,
    SQLRoutineExceptionReadingSQLdataNotPermitted,
    SQLRoutineExceptionFunctionExecutedNoReturnStatement,
    InvalidCollationName,
    InvalidSQLStatementIdentifier,
    InvalidSQLDescriptorName,
    InvalidCursorName,
    InvalidConditionNumber,
    CursorSensitivityException,
    CursorSensitivityExceptionRequestRejected,
    CursorSensitivityExceptionRequestFailed,
    ExternalRoutineException,
    ExternalRoutineExceptionContainingSQLNotPermitted,
    ExternalRoutineExceptionModifyingSQLdataNotPermitted,
    ExternalRoutineExceptionProhibitedSQLstatementAttempted,
    ExternalRoutineExceptionReadingSQLdataNotPermitted,
    ExternalRoutineInvocationException,
    ExternalRoutineInvocationExceptionNullValueNotAllowed,
    SavepointException,
    SavepointExceptionInvalidSpecification,
    SavepointExceptionTooMany,
    AmbiguousCursorName,
    InvalidCatalogName,
    InvalidSchemaName,
    TransactionRollback,
    TransactionRollbackSerializationFailure,
    TransactionRollbackIntegrityConstraintViolation,
    TransactionRollbackStatementCompletionUnknown,
    TransactionRollbackTriggeredActionException,
    TransactionRollbackDeadlock,
    SyntaxErrorOrAccessRuleViolation,
    WithCheckOptionViolation,
    ReservedForISO9579,
    IoError,
    NameError,
    NameErrorNotFound,
    NameErrorAmbiguous,
    NameErrorDuplicate,
    NameErrorTooLong,
    DdlError,
    SystemError,
}

/// Category of a SQLSTATE: decided by its class.
#[derive(Clone, Copy, Eq, PartialEq, Ord, PartialOrd, Hash, Debug, Structural)]
pub enum SqlStateCategory {
    /// Successful completion (class `00`).
    S,
    /// Warning (class `01`).
    W,
    /// No data (class `02`).
    N,
    /// Exception (any other class).
    X,
}

impl SqlStateCategory {
    /// Human-readable name of the category.
    pub open spec fn spec_display(self) -> Seq<char> {
        match self {
            SqlStateCategory::S => "Success"@,
            SqlStateCategory::W => "Warning"@,
            SqlStateCategory::N => "No data"@,
            SqlStateCategory::X => "Exception"@,
        }
    }

    /// Human-readable name of the category.
    pub fn to_display_string(&self) -> (r: String)
        ensures
            r@ == self.spec_display(),
    {
        match self {
            SqlStateCategory::S => string_of("Success"),
            SqlStateCategory::W => string_of("Warning"),
            SqlStateCategory::N => string_of("No data"),
            SqlStateCategory::X => string_of("Exception"),
        }
    }
}

/// The category that a class code belongs to.
pub open spec fn category_of_class(class: Seq<char>) -> SqlStateCategory {
    if class == seq!['0', '0'] {
        SqlStateCategory::S
    } else if class == seq!['0', '1'] {
        SqlStateCategory::W
    } else if class == seq!['0', '2'] {
        SqlStateCategory::N
    } else {
        SqlStateCategory::X
    }
}

/// Class of SQLSTATE: its first 2 characters and their meaning.
#[derive(Debug)]
pub struct SqlStateClass {
    class: String,
    class_text: String,
}

/// Class and subclass of a SQLSTATE, with their meaning.
#[derive(Debug)]
pub struct SqlStateDetail {
    class: SqlStateClass,
    subclass: String,
    subclass_text: String,
}

/// What an [SqlStateDetail] holds.
pub struct SqlStateDetailView {
    /// 2 characters of the class.
    pub class: Seq<char>,
    /// Meaning of the class.
    pub class_text: Seq<char>,
    /// 3 characters of the subclass.
    pub subclass: Seq<char>,
    /// Meaning of the subclass.
    pub subclass_text: Seq<char>,
}

/// The detail made of the two characters of a class, its meaning, the three characters of a
/// subclass, and its meaning.
pub open spec fn detail_chars(
    c0: char,
    c1: char,
    class_text: &str,
    s0: char,
    s1: char,
    s2: char,
    subclass_text: &str,
) -> SqlStateDetailView {
    SqlStateDetailView {
        class: seq![c0, c1],
        class_text: class_text@,
        subclass: seq![s0, s1, s2],
        subclass_text: subclass_text@,
    }
}

impl View for SqlStateDetail {
    type V = SqlStateDetailView;

    closed spec fn view(&self) -> SqlStateDetailView {
        SqlStateDetailView {
            class: self.class.class@,
            class_text: self.class.class_text@,
            subclass: self.subclass@,
            subclass_text: self.subclass_text@,
        }
    }
}

impl View for SqlStateClass {
    /// The class code and its meaning.
    type V = (Seq<char>, Seq<char>);

    closed spec fn view(&self) -> (Seq<char>, Seq<char>) {
        (self.class@, self.class_text@)
    }
}

impl SqlStateClass {
    /// Constructor.
    pub fn new(class: &str, class_text: &str) -> (r: Self)
        ensures
            r@ == (class@, class_text@),
    {
        Self { class: string_of(class), class_text: string_of(class_text) }
    }
}

/// Subclass of a SQLSTATE within its class: the last 3 characters and their meaning.
#[derive(Debug)]
pub struct SqlStateSubclass {
    class: SqlStateClass,
    subclass: String,
    subclass_text: String,
}

impl View for SqlStateSubclass {
    type V = SqlStateDetailView;

    closed spec fn view(&self) -> SqlStateDetailView {
        SqlStateDetailView {
            class: self.class@.0,
            class_text: self.class@.1,
            subclass: self.subclass@,
            subclass_text: self.subclass_text@,
        }
    }
}

impl SqlStateSubclass {
    /// Constructor.
    pub fn new(class: SqlStateClass, subclass: &str, subclass_text: &str) -> (r: Self)
        ensures
            r@.class == class@.0,
            r@.class_text == class@.1,
            r@.subclass == subclass@,
            r@.subclass_text == subclass_text@,
    {
        Self::validate_subclass(subclass);
        Self { class, subclass: string_of(subclass), subclass_text: string_of(subclass_text) }
    }

    /// Any text is accepted as a subclass.
    fn validate_subclass(_subclass: &str) {
    }
}

impl SqlStateDetail {
    /// Constructor.
    pub fn new(class: SqlStateClass, subclass: &str, subclass_text: &str) -> (r: Self)
        ensures
            r@.class == class@.0,
            r@.class_text == class@.1,
            r@.subclass == subclass@,
            r@.subclass_text == subclass_text@,
    {
        Self { class, subclass: string_of(subclass), subclass_text: string_of(subclass_text) }
    }

    fn from_chars(
        c0: char,
        c1: char,
        class_text: &str,
        s0: char,
        s1: char,
        s2: char,
        subclass_text: &str,
    ) -> (r: Self)
        ensures
            r@ == detail_chars(c0, c1, class_text, s0, s1, s2, subclass_text),
    {
        let mut class = String::new();
        push_char(&mut class, c0);
        push_char(&mut class, c1);
        let mut subclass = String::new();
        push_char(&mut subclass, s0);
        push_char(&mut subclass, s1);
        push_char(&mut subclass, s2);
        proof {
            assert(class@ =~= seq![c0, c1]);
            assert(subclass@ =~= seq![s0, s1, s2]);
        }
        Self::new(SqlStateClass::new(class.as_str(), class_text), subclass.as_str(), subclass_text)
    }

    /// 5 characters called "SQLSTATE": the class followed by the subclass.
    pub fn sqlstate(&self) -> (r: String)
        ensures
            r@ == self@.class + self@.subclass,
    {
        concat(string_of(self.class.class.as_str()), self.subclass.as_str())
    }

    /// Category, decided by the class.
    pub fn category(&self) -> (r: SqlStateCategory)
        ensures
            r == category_of_class(self@.class),
    {
        let class = self.class.class.as_str();
        proof {
            reveal_strlit("00");
            reveal_strlit("01");
            reveal_strlit("02");
            assert("00"@ =~= seq!['0', '0']);
            assert("01"@ =~= seq!['0', '1']);
            assert("02"@ =~= seq!['0', '2']);
        }
        if str_equal(class, "00") {
            SqlStateCategory::S
        } else if str_equal(class, "01") {
            SqlStateCategory::W
        } else if str_equal(class, "02") {
            SqlStateCategory::N
        } else {
            SqlStateCategory::X
        }
    }

    /// Meaning of the class.
    pub fn class_text(&self) -> (r: &str)
        ensures
            r@ == self@.class_text,
    {
        self.class.class_text.as_str()
    }

    /// Meaning of the subclass.
    pub fn subclass_text(&self) -> (r: &str)
        ensures
            r@ == self@.subclass_text,
    {
        self.subclass_text.as_str()
    }
}

impl SqlState {
    /// Class and subclass of this SQLSTATE, with their meaning.
    pub open spec fn spec_detail(self) -> SqlStateDetailView {
        match self {
            SqlState::SuccessfulCompletion => detail_chars('0', '0', "successful completion", '0', '0', '0', "(no subclass)"),
            SqlState::Warning => detail_chars('0', '1', "warning", '0', '0', '0', "(no subclass)"),
            SqlState::WarningCursorOperationConflict => detail_chars('0', '1', "warning", '0', '0', '1', "cursor operation conflict"),
            SqlState::WarningDisconnectError => detail_chars('0', '1', "warning", '0', '0', '2', "disconnect error"),
            SqlState::WarningNullValueEliminatedInSetFunction => detail_chars('0', '1', "warning", '0', '0', '3', "null value eliminated in set function"),
            SqlState::WarningStringDataRightTruncation => detail_chars('0', '1', "warning", '0', '0', '4', "string data, right truncation"),
            SqlState::WarningInsufficientItemDescriptorAreas => detail_chars('0', '1', "warning", '0', '0', '5', "insufficient item descriptor areas"),
            SqlState::WarningPrivilegeNotRevoked => detail_chars('0', '1', "warning", '0', '0', '6', "privilege not revoked"),
            SqlState::WarningPrivilegeNotGranted => detail_chars('0', '1', "warning", '0', '0', '7', "privilege not granted"),
            SqlState::WarningSearchConditionTooLongForInformationSchema => detail_chars('0', '1', "warning", '0', '0', '9', "search condition too long for information schema"),
            SqlState::WarningQueryExpressionTooLongForInformationSchema => detail_chars('0', '1', "warning", '0', '0', 'A', "query expression too long for information schema"),
            SqlState::WarningDefaultValueTooLongForInformationSchema => detail_chars('0', '1', "warning", '0', '0', 'B', "default value too long for information schema"),
            SqlState::WarningResultSetsReturned => detail_chars('0', '1', "warning", '0', '0', 'C', "result sets returned"),
            SqlState::WarningAdditionalResultSetsReturned => detail_chars('0', '1', "warning", '0', '0', 'D', "additional result sets returned"),
            SqlState::WarningAttemptToReturnTooManyResultSets => detail_chars('0', '1', "warning", '0', '0', 'E', "attempt to return too many result sets"),
            SqlState::WarningStatementTooLongForInformationSchema => detail_chars('0', '1', "warning", '0', '0', 'F', "statement too long for information schema"),
            SqlState::WarningInvalidNumberOfConditions => detail_chars('0', '1', "warning", '0', '1', '2', "invalid number of conditions"),
            SqlState::WarningArrayDataRightTruncation => detail_chars('0', '1', "warning", '0', '2', 'F', "array data, right truncation"),
            SqlState::NoData => detail_chars('0', '2', "no data", '0', '0', '0', "(no subclass)"),
            SqlState::NoDataNoAdditionalResultSetsReturned => detail_chars('0', '2', "no data", '0', '0', '1', "no additional result sets returned"),
            SqlState::DynamicSQLError => detail_chars('0', '7', "dynamic SQL error", '0', '0', '0', "(no subclass)"),
            SqlState::DynamicSQLErrorUsingClauseDoesNotMatchDynamicParameterSpecifications => detail_chars('0', '7', "dynamic SQL error", '0', '0', '1', "using clause does not match dynamic parameter specifications"),
            SqlState::DynamicSQLErrorUsingClauseDoesNotMatchTargetSpecifications => detail_chars('0', '7', "dynamic SQL error", '0', '0', '2', "using clause does not match target specifications"),
            SqlState::DynamicSQLErrorCursorSpecificationCannotBeExecuted => detail_chars('0', '7', "dynamic SQL error", '0', '0', '3', "cursor specification cannot be executed"),
            SqlState::DynamicSQLErrorUsingClauseRequiredForDynamicParameters => detail_chars('0', '7', "dynamic SQL error", '0', '0', '4', "using clause required for dynamic parameters"),
            SqlState::DynamicSQLErrorPreparedStatementNotACursorSpecification => detail_chars('0', '7', "dynamic SQL error", '0', '0', '5', "prepared statement not a cursor specification"),
            SqlState::DynamicSQLErrorRestrictedDataTypeAttributeViolation => detail_chars('0', '7', "dynamic SQL error", '0', '0', '6', "restricted data type attribute violation"),
            SqlState::DynamicSQLErrorUsingClauseRequiredForResultFields => detail_chars('0', '7', "dynamic SQL error", '0', '0', '7', "using clause required for result fields"),
            SqlState::DynamicSQLErrorInvalidDescriptorCount => detail_chars('0', '7', "dynamic SQL error", '0', '0', '8', "invalid descriptor count"),
            SqlState::DynamicSQLErrorInvalidDescriptorIndex => detail_chars('0', '7', "dynamic SQL error", '0', '0', '9', "invalid descriptor index"),
            SqlState::DynamicSQLErrorDataTypeTransformFunctionViolation => detail_chars('0', '7', "dynamic SQL error", '0', '0', 'B', "data type transform function violation"),
            SqlState::DynamicSQLErrorUndefinedDATAValue => detail_chars('0', '7', "dynamic SQL error", '0', '0', 'C', "undefined DATA value"),
            SqlState::DynamicSQLErrorInvalidDATATarget => detail_chars('0', '7', "dynamic SQL error", '0', '0', 'D', "invalid DATA target"),
            SqlState::DynamicSQLErrorInvalidLEVELValue => detail_chars('0', '7', "dynamic SQL error", '0', '0', 'E', "invalid LEVEL value"),
            SqlState::DynamicSQLErrorInvalidDatetimeIntervalCode => detail_chars('0', '7', "dynamic SQL error", '0', '0', 'F', "invalid DATETIME_INTERVAL_CODE"),
            SqlState::ConnectionException => detail_chars('0', '8', "connection exception", '0', '0', '0', "(no subclass)"),
            SqlState::ConnectionExceptionSQLclientUnableToEstablishSQLconnection => detail_chars('0', '8', "connection exception", '0', '0', '1', "SQL-client unable to establish SQL-connection"),
            SqlState::ConnectionExceptionConnectionNameInUse => detail_chars('0', '8', "connection exception", '0', '0', '2', "connection name in use"),
            SqlState::ConnectionExceptionConnectionDoesNotExist => detail_chars('0', '8', "connection exception", '0', '0', '3', "connection does not exist"),
            SqlState::ConnectionExceptionSQLserverRejectedEstablishmentOfSQLconnection => detail_chars('0', '8', "connection exception", '0', '0', '4', "SQL-server rejected establishment of SQL-connection"),
            SqlState::ConnectionExceptionConnectionFailure => detail_chars('0', '8', "connection exception", '0', '0', '6', "connection failure"),
            SqlState::ConnectionExceptionTransactionResolutionUnknown => detail_chars('0', '8', "connection exception", '0', '0', '7', "transaction resolution unknown"),
            SqlState::TriggeredActionException => detail_chars('0', '9', "triggered action exception", '0', '0', '0', "(no subclass)"),
            SqlState::FeatureNotSupported => detail_chars('0', 'A', "feature not supported", '0', '0', '0', "(no subclass)"),
            SqlState::FeatureNotSupportedMultipleServerTransactions => detail_chars('0', 'A', "feature not supported", '0', '0', '1', "multiple server transactions"),
            SqlState::InvalidTargetTypeSpecification => detail_chars('0', 'D', "invalid target type specification", '0', '0', '0', "(no subclass)"),
            SqlState::InvalidSchemaNameListSpecification => detail_chars('0', 'E', "invalid schema name list specification", '0', '0', '0', "(no subclass)"),
            SqlState::LocatorException => detail_chars('0', 'F', "locator exception", '0', '0', '0', "(no subclass)"),
            SqlState::LocatorExceptionInvalidSpecification => detail_chars('0', 'F', "locator exception", '0', '0', '1', "invalid specification"),
            SqlState::InvalidGrantor => detail_chars('0', 'L', "invalid grantor", '0', '0', '0', "(no subclass)"),
            SqlState::InvalidSQLinvokedProcedureReference => detail_chars('0', 'M', "invalid SQL-invoked procedure reference", '0', '0', '0', "(no subclass)"),
            SqlState::InvalidRoleSpecification => detail_chars('0', 'P', "invalid role specification", '0', '0', '0', "(no subclass)"),
            SqlState::InvalidTransformGroupNameSpecification => detail_chars('0', 'S', "invalid transform group name specification", '0', '0', '0', "(no subclass)"),
            SqlState::TargetTableDisagreesWithCursorSpecification => detail_chars('0', 'T', "target table disagrees with cursor specification", '0', '0', '0', "(no subclass)"),
            SqlState::AttemptToAssignToNonupdatableColumn => detail_chars('0', 'U', "attempt to assign to non-updatable column", '0', '0', '0', "(no subclass)"),
            SqlState::AttemptToAssignToOrderingColumn => detail_chars('0', 'V', "attempt to assign to ordering column", '0', '0', '0', "(no subclass)"),
            SqlState::ProhibitedStatementEncounteredDuringTriggerExecution => detail_chars('0', 'W', "prohibited statement encountered during trigger execution", '0', '0', '0', "(no subclass)"),
            SqlState::ProhibitedStatementEncounteredDuringTriggerExecutionModifyTableModifiedByDataChangeDeltaTable => detail_chars('0', 'W', "prohibited statement encountered during trigger execution", '0', '0', '1', "modify table modified by data change delta table"),
            SqlState::DiagnosticsException => detail_chars('0', 'Z', "diagnostics exception", '0', '0', '0', "(no subclass)"),
            SqlState::DiagnosticsExceptionMaximumNumberOfStackedDiagnosticsAreasExceeded => detail_chars('0', 'Z', "diagnostics exception", '0', '0', '1', "maximum number of stacked diagnostics areas exceeded"),
            SqlState::CardinalityViolation => detail_chars('2', '1', "cardinality violation", '0', '0', '0', "(no subclass)"),
            SqlState::DataException => detail_chars('2', '2', "data exception", '0', '0', '0', "(no subclass)"),
            SqlState::DataExceptionStringDataRightTruncation => detail_chars('2', '2', "data exception", '0', '0', '1', "string data, right truncation"),
            SqlState::DataExceptionNullValueNoIndicatorParameter => detail_chars('2', '2', "data exception", '0', '0', '2', "null value, no indicator parameter"),
            SqlState::DataExceptionNumericValueOutOfRange => detail_chars('2', '2', "data exception", '0', '0', '3', "numeric value out of range"),
            SqlState::DataExceptionNullValueNotAllowed => detail_chars('2', '2', "data exception", '0', '0', '4', "null value not allowed"),
            SqlState::DataExceptionErrorInAssignment => detail_chars('2', '2', "data exception", '0', '0', '5', "error in assignment"),
            SqlState::DataExceptionInvalidIntervalFormat => detail_chars('2', '2', "data exception", '0', '0', '6', "invalid interval format"),
            SqlState::DataExceptionInvalidDatetimeFormat => detail_chars('2', '2', "data exception", '0', '0', '7', "invalid datetime format"),
            SqlState::DataExceptionDatetimeFieldOverflow => detail_chars('2', '2', "data exception", '0', '0', '8', "datetime field overflow"),
            SqlState::DataExceptionInvalidTimeZoneDisplacementValue => detail_chars('2', '2', "data exception", '0', '0', '9', "invalid time zone displacement value"),
            SqlState::DataExceptionEscapeCharacterConflict => detail_chars('2', '2', "data exception", '0', '0', 'B', "escape character conflict"),
            SqlState::DataExceptionInvalidUseOfEscapeCharacter => detail_chars('2', '2', "data exception", '0', '0', 'C', "invalid use of escape character"),
            SqlState::DataExceptionInvalidEscapeOctet => detail_chars('2', '2', "data exception", '0', '0', 'D', "invalid escape octet"),
            SqlState::DataExceptionNullValueInArrayTarget => detail_chars('2', '2', "data exception", '0', '0', 'E', "null value in array target"),
            SqlState::DataExceptionZerolengthCharacterString => detail_chars('2', '2', "data exception", '0', '0', 'F', "zero-length character string"),
            SqlState::DataExceptionMostSpecificTypeMismatch => detail_chars('2', '2', "data exception", '0', '0', 'G', "most specific type mismatch"),
            SqlState::DataExceptionSequenceGeneratorLimitExceeded => detail_chars('2', '2', "data exception", '0', '0', 'H', "sequence generator limit exceeded"),
            SqlState::DataExceptionIntervalValueOutOfRange => detail_chars('2', '2', "data exception", '0', '0', 'P', "interval value out of range"),
            SqlState::DataExceptionMultisetValueOverflow => detail_chars('2', '2', "data exception", '0', '0', 'Q', "multiset value overflow"),
            SqlState::DataExceptionInvalidIndicatorParameterValue => detail_chars('2', '2', "data exception", '0', '1', '0', "invalid indicator parameter value"),
            SqlState::DataExceptionSubstringError => detail_chars('2', '2', "data exception", '0', '1', '1', "substring error"),
            SqlState::DataExceptionDivisionByZero => detail_chars('2', '2', "data exception", '0', '1', '2', "division by zero"),
            SqlState::DataExceptionInvalidPrecedingOrFollowingSizeInWindowFunction => detail_chars('2', '2', "data exception", '0', '1', '3', "invalid preceding or following size in window function"),
            SqlState::DataExceptionInvalidArgumentForNTILEFunction => detail_chars('2', '2', "data exception", '0', '1', '4', "invalid argument for NTILE function"),
            SqlState::DataExceptionIntervalFieldOverflow => detail_chars('2', '2', "data exception", '0', '1', '5', "interval field overflow"),
            SqlState::DataExceptionInvalidArgumentForNthValueFunction => detail_chars('2', '2', "data exception", '0', '1', '6', "invalid argument for NTH_VALUE function"),
            SqlState::DataExceptionInvalidCharacterValueForCast => detail_chars('2', '2', "data exception", '0', '1', '8', "invalid character value for cast"),
            SqlState::DataExceptionInvalidEscapeCharacter => detail_chars('2', '2', "data exception", '0', '1', '9', "invalid escape character"),
            SqlState::DataExceptionInvalidRegularExpression => detail_chars('2', '2', "data exception", '0', '1', 'B', "invalid regular expression"),
            SqlState::DataExceptionNullRowNotPermittedInTable => detail_chars('2', '2', "data exception", '0', '1', 'C', "null row not permitted in table"),
            SqlState::DataExceptionInvalidArgumentForNaturalLogarithm => detail_chars('2', '2', "data exception", '0', '1', 'E', "invalid argument for natural logarithm"),
            SqlState::DataExceptionInvalidArgumentForPowerFunction => detail_chars('2', '2', "data exception", '0', '1', 'F', "invalid argument for power function"),
            SqlState::DataExceptionInvalidArgumentForWidthBucketFunction => detail_chars('2', '2', "data exception", '0', '1', 'G', "invalid argument for width bucket function"),
            SqlState::DataExceptionInvalidRowVersion => detail_chars('2', '2', "data exception", '0', '1', 'H', "invalid row version"),
            SqlState::DataExceptionInvalidQueryRegularExpression => detail_chars('2', '2', "data exception", '0', '1', 'S', "invalid Query regular expression"),
            SqlState::DataExceptionInvalidQueryOptionFlag => detail_chars('2', '2', "data exception", '0', '1', 'T', "invalid Query option flag"),
            SqlState::DataExceptionAttemptToReplaceAZerolengthString => detail_chars('2', '2', "data exception", '0', '1', 'U', "attempt to replace a zero-length string"),
            SqlState::DataExceptionInvalidQueryReplacementString => detail_chars('2', '2', "data exception", '0', '1', 'V', "invalid Query replacement string"),
            SqlState::DataExceptionInvalidRowCountInFetchFirstClause => detail_chars('2', '2', "data exception", '0', '1', 'W', "invalid row count in fetch first clause"),
            SqlState::DataExceptionInvalidRowCountInResultOffsetClause => detail_chars('2', '2', "data exception", '0', '1', 'X', "invalid row count in result offset clause"),
            SqlState::DataExceptionCharacterNotInRepertoire => detail_chars('2', '2', "data exception", '0', '2', '1', "character not in repertoire"),
            SqlState::DataExceptionIndicatorOverflow => detail_chars('2', '2', "data exception", '0', '2', '2', "indicator overflow"),
            SqlState::DataExceptionInvalidParameterValue => detail_chars('2', '2', "data exception", '0', '2', '3', "invalid parameter value"),
            SqlState::DataExceptionUnterminatedCString => detail_chars('2', '2', "data exception", '0', '2', '4', "unterminated C string"),
            SqlState::DataExceptionInvalidEscapeSequence => detail_chars('2', '2', "data exception", '0', '2', '5', "invalid escape sequence"),
            SqlState::DataExceptionStringDataLengthMismatch => detail_chars('2', '2', "data exception", '0', '2', '6', "string data, length mismatch"),
            SqlState::DataExceptionTrimError => detail_chars('2', '2', "data exception", '0', '2', '7', "trim error"),
            SqlState::DataExceptionNoncharacterInUCSString => detail_chars('2', '2', "data exception", '0', '2', '9', "noncharacter in UCS string"),
            SqlState::DataExceptionNullValueSubstitutedForMutatorSubjectParameter => detail_chars('2', '2', "data exception", '0', '2', 'D', "null value substituted for mutator subject parameter"),
            SqlState::DataExceptionArrayElementError => detail_chars('2', '2', "data exception", '0', '2', 'E', "array element error"),
            SqlState::DataExceptionArrayDataRightTruncation => detail_chars('2', '2', "data exception", '0', '2', 'F', "array data, right truncation"),
            SqlState::DataExceptionInvalidRepeatArgumentInASampleClause => detail_chars('2', '2', "data exception", '0', '2', 'G', "invalid repeat argument in a sample clause"),
            SqlState::DataExceptionInvalidSampleSize => detail_chars('2', '2', "data exception", '0', '2', 'H', "invalid sample size"),
            SqlState::DataExceptionIllegalConversion => detail_chars('2', '2', "data exception", 'I', '0', '0', "illegal data conversion"),
            SqlState::DataExceptionIllegalComparison => detail_chars('2', '2', "data exception", 'I', '0', '1', "illegal data comparison"),
            SqlState::DataExceptionIllegalOperation => detail_chars('2', '2', "data exception", 'I', '0', '2', "illegal operation to data"),
            SqlState::IntegrityConstraintViolation => detail_chars('2', '3', "integrity constraint violation", '0', '0', '0', "(no subclass)"),
            SqlState::IntegrityConstraintViolationRestrictViolation => detail_chars('2', '3', "integrity constraint violation", '0', '0', '1', "restrict violation"),
            SqlState::IntegrityConstraintNotNullViolation => detail_chars('2', '3', "integrity constraint violation", 'I', '0', '0', "not null violation"),
            SqlState::IntegrityConstraintUniqueViolation => detail_chars('2', '3', "integrity constraint violation", 'I', '0', '1', "unique violation"),
            SqlState::InvalidCursorState => detail_chars('2', '4', "invalid cursor state", '0', '0', '0', "(no subclass)"),
            SqlState::InvalidTransactionState => detail_chars('2', '5', "invalid transaction state", '0', '0', '0', "(no subclass)"),
            SqlState::InvalidTransactionStateActiveSQLtransaction => detail_chars('2', '5', "invalid transaction state", '0', '0', '1', "active SQL-transaction"),
            SqlState::InvalidTransactionStateBranchTransactionAlreadyActive => detail_chars('2', '5', "invalid transaction state", '0', '0', '2', "branch transaction already active"),
            SqlState::InvalidTransactionStateInappropriateAccessModeForBranchTransaction => detail_chars('2', '5', "invalid transaction state", '0', '0', '3', "inappropriate access mode for branch transaction"),
            SqlState::InvalidTransactionStateInappropriateIsolationLevelForBranchTransaction => detail_chars('2', '5', "invalid transaction state", '0', '0', '4', "inappropriate isolation level for branch transaction"),
            SqlState::InvalidTransactionStateNoActiveSQLtransactionForBranchTransaction => detail_chars('2', '5', "invalid transaction state", '0', '0', '5', "no active SQL-transaction for branch transaction"),
            SqlState::InvalidTransactionStateReadonlySQLtransaction => detail_chars('2', '5', "invalid transaction state", '0', '0', '6', "read-only SQL-transaction"),
            SqlState::InvalidTransactionStateSchemaAndDataStatementMixingNotSupported => detail_chars('2', '5', "invalid transaction state", '0', '0', '7', "schema and data statement mixing not supported"),
            SqlState::InvalidTransactionStateHeldCursorRequiresSameIsolationLevel => detail_chars('2', '5', "invalid transaction state", '0', '0', '8', "held cursor requires same isolation level"),
            SqlState::InvalidSQLStatementName => detail_chars('2', '6', "invalid SQL statement name", '0', '0', '0', "(no subclass)"),
            SqlState::TriggeredDataChangeViolation => detail_chars('2', '7', "triggered data change violation", '0', '0', '0', "(no subclass)"),
            SqlState::TriggeredDataChangeViolationModifyTableModifiedByDataChangeDeltaTable => detail_chars('2', '7', "triggered data change violation", '0', '0', '1', "modify table modified by data change delta table"),
            SqlState::InvalidAuthorizationSpecification => detail_chars('2', '8', "invalid authorization specification", '0', '0', '0', "(no subclass)"),
            SqlState::DependentPrivilegeDescriptorsStillExist => detail_chars('2', 'B', "dependent privilege descriptors still exist", '0', '0', '0', "(no subclass)"),
            SqlState::InvalidCharacterSetName => detail_chars('2', 'C', "invalid character set name", '0', '0', '0', "(no subclass)"),
            SqlState::InvalidTransactionTermination => detail_chars('2', 'D', "invalid transaction termination", '0', '0', '0', "(no subclass)"),
            SqlState::InvalidConnectionName => detail_chars('2', 'E', "invalid connection name", '0', '0', '0', "(no subclass)"),
            SqlState::SQLRoutineException => detail_chars('2', 'F', "SQL routine exception", '0', '0', '0', "(no subclass)"),
            SqlState::SQLRoutineExceptionModifyingSQLdataNotPermitted => detail_chars('2', 'F', "SQL routine exception", '0', '0', '2', "modifying SQL-data not permitted"),
            SqlState::SQLRoutineExceptionProhibitedSQLstatementAttempted => detail_chars('2', 'F', "SQL routine exception", '0', '0', '3', "prohibited SQL-statement attempted"),
            SqlState::SQLRoutineExceptionReadingSQLdataNotPermitted => detail_chars('2', 'F', "SQL routine exception", '0', '0', '4', "reading SQL-data not permitted"),
            SqlState::SQLRoutineExceptionFunctionExecutedNoReturnStatement => detail_chars('2', 'F', "SQL routine exception", '0', '0', '5', "function executed no return statement"),
            SqlState::InvalidCollationName => detail_chars('2', 'H', "invalid collation name", '0', '0', '0', "(no subclass)"),
            SqlState::InvalidSQLStatementIdentifier => detail_chars('3', '0', "invalid SQL statement identifier", '0', '0', '0', "(no subclass)"),
            SqlState::InvalidSQLDescriptorName => detail_chars('3', '3', "invalid SQL descriptor name", '0', '0', '0', "(no subclass)"),
            SqlState::InvalidCursorName => detail_chars('3', '4', "invalid cursor name", '0', '0', '0', "(no subclass)"),
            SqlState::InvalidConditionNumber => detail_chars('3', '5', "invalid condition number", '0', '0', '0', "(no subclass)"),
            SqlState::CursorSensitivityException => detail_chars('3', '6', "cursor sensitivity exception", '0', '0', '0', "(no subclass)"),
            SqlState::CursorSensitivityExceptionRequestRejected => detail_chars('3', '6', "cursor sensitivity exception", '0', '0', '1', "request rejected"),
            SqlState::CursorSensitivityExceptionRequestFailed => detail_chars('3', '6', "cursor sensitivity exception", '0', '0', '2', "request failed"),
            SqlState::ExternalRoutineException => detail_chars('3', '8', "external routine exception", '0', '0', '0', "(no subclass)"),
            SqlState::ExternalRoutineExceptionContainingSQLNotPermitted => detail_chars('3', '8', "external routine exception", '0', '0', '1', "containing SQL not permitted"),
            SqlState::ExternalRoutineExceptionModifyingSQLdataNotPermitted => detail_chars('3', '8', "external routine exception", '0', '0', '2', "modifying SQL-data not permitted"),
            SqlState::ExternalRoutineExceptionProhibitedSQLstatementAttempted => detail_chars('3', '8', "external routine exception", '0', '0', '3', "prohibited SQL-statement attempted"),
            SqlState::ExternalRoutineExceptionReadingSQLdataNotPermitted => detail_chars('3', '8', "external routine exception", '0', '0', '4', "reading SQL-data not permitted"),
            SqlState::ExternalRoutineInvocationException => detail_chars('3', '9', "external routine invocation exception", '0', '0', '0', "(no subclass)"),
            SqlState::ExternalRoutineInvocationExceptionNullValueNotAllowed => detail_chars('3', '9', "external routine invocation exception", '0', '0', '4', "null value not allowed"),
            SqlState::SavepointException => detail_chars('3', 'B', "savepoint exception", '0', '0', '0', "(no subclass)"),
            SqlState::SavepointExceptionInvalidSpecification => detail_chars('3', 'B', "savepoint exception", '0', '0', '1', "invalid specification"),
            SqlState::SavepointExceptionTooMany => detail_chars('3', 'B', "savepoint exception", '0', '0', '2', "too many"),
            SqlState::AmbiguousCursorName => detail_chars('3', 'C', "ambiguous cursor name", '0', '0', '0', "(no subclass)"),
            SqlState::InvalidCatalogName => detail_chars('3', 'D', "invalid catalog name", '0', '0', '0', "(no subclass)"),
            SqlState::InvalidSchemaName => detail_chars('3', 'F', "invalid schema name", '0', '0', '0', "(no subclass)"),
            SqlState::TransactionRollback => detail_chars('4', '0', "transaction rollback", '0', '0', '0', "(no subclass)"),
            SqlState::TransactionRollbackSerializationFailure => detail_chars('4', '0', "transaction rollback", '0', '0', '1', "serialization failure"),
            SqlState::TransactionRollbackIntegrityConstraintViolation => detail_chars('4', '0', "transaction rollback", '0', '0', '2', "integrity constraint violation"),
            SqlState::TransactionRollbackStatementCompletionUnknown => detail_chars('4', '0', "transaction rollback", '0', '0', '3', "statement completion unknown"),
            SqlState::TransactionRollbackTriggeredActionException => detail_chars('4', '0', "transaction rollback", '0', '0', '4', "triggered action exception"),
            SqlState::TransactionRollbackDeadlock => detail_chars('4', '0', "transaction rollback", 'I', '0', '0', "deadlock detected"),
            SqlState::SyntaxErrorOrAccessRuleViolation => detail_chars('4', '2', "syntax error or access rule violation", '0', '0', '0', "(no subclass)"),
            SqlState::WithCheckOptionViolation => detail_chars('4', '4', "with check option violation", '0', '0', '0', "(no subclass)"),
            SqlState::ReservedForISO9579 => detail_chars('H', 'Z', "Reserved for ISO9579 (RDA)", '?', '?', '?', ""),
            SqlState::IoError => detail_chars('I', 'O', "io error", '0', '0', '0', "(no subclass)"),
            SqlState::NameError => detail_chars('N', 'M', "general name error", '0', '0', '0', "(no subclass)"),
            SqlState::NameErrorNotFound => detail_chars('N', 'M', "general name error", '0', '0', '1', "not found by name"),
            SqlState::NameErrorAmbiguous => detail_chars('N', 'M', "general name error", '0', '0', '2', "ambiguous name"),
            SqlState::NameErrorDuplicate => detail_chars('N', 'M', "general name error", '0', '0', '3', "duplicate name"),
            SqlState::NameErrorTooLong => detail_chars('N', 'M', "general name error", '0', '0', '4', "too long name"),
            SqlState::DdlError => detail_chars('S', 'C', "DDL error", '0', '0', '0', "(no subclass)"),
            SqlState::SystemError => detail_chars('S', 'Y', "general system error", '0', '0', '0', "(no subclass)"),
        }
    }

    /// The 5 characters of this SQLSTATE.
    pub open spec fn spec_sqlstate(self) -> Seq<char> {
        self.spec_detail().class + self.spec_detail().subclass
    }

    /// The category of this SQLSTATE.
    pub open spec fn spec_category(self) -> SqlStateCategory {
        category_of_class(self.spec_detail().class)
    }

    /// 5 bytes characters called "SQLSTATE".
    pub fn sqlstate(&self) -> (r: String)
        ensures
            r@ == self.spec_sqlstate(),
    {
        self.detail().sqlstate()
    }

    /// See [SqlStateCategory].
    pub fn category(&self) -> (r: SqlStateCategory)
        ensures
            r == self.spec_category(),
    {
        self.detail().category()
    }

    /// Human-readable text with the SQLSTATE, its category, and the meaning of its class and subclass.
    pub open spec fn spec_display(self) -> Seq<char> {
        "SQLSTATE: \""@ + self.spec_sqlstate() + "\", Category: \""@ + self.spec_category().spec_display()
            + "\", ClassText: \""@ + self.spec_detail().class_text + "\", SubclassText: \""@
            + self.spec_detail().subclass_text + "\""@
    }

    /// Human-readable text with the SQLSTATE, its category, and the meaning of its class and subclass.
    pub fn to_display_string(&self) -> (r: String)
        ensures
            r@ == self.spec_display(),
    {
        let detail = self.detail();
        let s = string_of("SQLSTATE: \"");
        let s = concat(s, detail.sqlstate().as_str());
        let s = concat(s, "\", Category: \"");
        let s = concat(s, detail.category().to_display_string().as_str());
        let s = concat(s, "\", ClassText: \"");
        let s = concat(s, detail.class_text());
        let s = concat(s, "\", SubclassText: \"");
        let s = concat(s, detail.subclass_text());
        concat(s, "\"")
    }

    /// Class and subclass of this SQLSTATE, with their meaning.
    pub fn detail(&self) -> (r: SqlStateDetail)
        ensures
            r@ == self.spec_detail(),
    {
        match self {
            SqlState::SuccessfulCompletion => SqlStateDetail::from_chars('0', '0', "successful completion", '0', '0', '0', "(no subclass)"),
            SqlState::Warning => SqlStateDetail::from_chars('0', '1', "warning", '0', '0', '0', "(no subclass)"),
            SqlState::WarningCursorOperationConflict => SqlStateDetail::from_chars('0', '1', "warning", '0', '0', '1', "cursor operation conflict"),
            SqlState::WarningDisconnectError => SqlStateDetail::from_chars('0', '1', "warning", '0', '0', '2', "disconnect error"),
            SqlState::WarningNullValueEliminatedInSetFunction => SqlStateDetail::from_chars('0', '1', "warning", '0', '0', '3', "null value eliminated in set function"),
            SqlState::WarningStringDataRightTruncation => SqlStateDetail::from_chars('0', '1', "warning", '0', '0', '4', "string data, right truncation"),
            SqlState::WarningInsufficientItemDescriptorAreas => SqlStateDetail::from_chars('0', '1', "warning", '0', '0', '5', "insufficient item descriptor areas"),
            SqlState::WarningPrivilegeNotRevoked => SqlStateDetail::from_chars('0', '1', "warning", '0', '0', '6', "privilege not revoked"),
            SqlState::WarningPrivilegeNotGranted => SqlStateDetail::from_chars('0', '1', "warning", '0', '0', '7', "privilege not granted"),
            SqlState::WarningSearchConditionTooLongForInformationSchema => SqlStateDetail::from_chars('0', '1', "warning", '0', '0', '9', "search condition too long for information schema"),
            SqlState::WarningQueryExpressionTooLongForInformationSchema => SqlStateDetail::from_chars('0', '1', "warning", '0', '0', 'A', "query expression too long for information schema"),
            SqlState::WarningDefaultValueTooLongForInformationSchema => SqlStateDetail::from_chars('0', '1', "warning", '0', '0', 'B', "default value too long for information schema"),
            SqlState::WarningResultSetsReturned => SqlStateDetail::from_chars('0', '1', "warning", '0', '0', 'C', "result sets returned"),
            SqlState::WarningAdditionalResultSetsReturned => SqlStateDetail::from_chars('0', '1', "warning", '0', '0', 'D', "additional result sets returned"),
            SqlState::WarningAttemptToReturnTooManyResultSets => SqlStateDetail::from_chars('0', '1', "warning", '0', '0', 'E', "attempt to return too many result sets"),
            SqlState::WarningStatementTooLongForInformationSchema => SqlStateDetail::from_chars('0', '1', "warning", '0', '0', 'F', "statement too long for information schema"),
            SqlState::WarningInvalidNumberOfConditions => SqlStateDetail::from_chars('0', '1', "warning", '0', '1', '2', "invalid number of conditions"),
            SqlState::WarningArrayDataRightTruncation => SqlStateDetail::from_chars('0', '1', "warning", '0', '2', 'F', "array data, right truncation"),
            SqlState::NoData => SqlStateDetail::from_chars('0', '2', "no data", '0', '0', '0', "(no subclass)"),
            SqlState::NoDataNoAdditionalResultSetsReturned => SqlStateDetail::from_chars('0', '2', "no data", '0', '0', '1', "no additional result sets returned"),
            SqlState::DynamicSQLError => SqlStateDetail::from_chars('0', '7', "dynamic SQL error", '0', '0', '0', "(no subclass)"),
            SqlState::DynamicSQLErrorUsingClauseDoesNotMatchDynamicParameterSpecifications => SqlStateDetail::from_chars('0', '7', "dynamic SQL error", '0', '0', '1', "using clause does not match dynamic parameter specifications"),
            SqlState::DynamicSQLErrorUsingClauseDoesNotMatchTargetSpecifications => SqlStateDetail::from_chars('0', '7', "dynamic SQL error", '0', '0', '2', "using clause does not match target specifications"),
            SqlState::DynamicSQLErrorCursorSpecificationCannotBeExecuted => SqlStateDetail::from_chars('0', '7', "dynamic SQL error", '0', '0', '3', "cursor specification cannot be executed"),
            SqlState::DynamicSQLErrorUsingClauseRequiredForDynamicParameters => SqlStateDetail::from_chars('0', '7', "dynamic SQL error", '0', '0', '4', "using clause required for dynamic parameters"),
            SqlState::DynamicSQLErrorPreparedStatementNotACursorSpecification => SqlStateDetail::from_chars('0', '7', "dynamic SQL error", '0', '0', '5', "prepared statement not a cursor specification"),
            SqlState::DynamicSQLErrorRestrictedDataTypeAttributeViolation => SqlStateDetail::from_chars('0', '7', "dynamic SQL error", '0', '0', '6', "restricted data type attribute violation"),
            SqlState::DynamicSQLErrorUsingClauseRequiredForResultFields => SqlStateDetail::from_chars('0', '7', "dynamic SQL error", '0', '0', '7', "using clause required for result fields"),
            SqlState::DynamicSQLErrorInvalidDescriptorCount => SqlStateDetail::from_chars('0', '7', "dynamic SQL error", '0', '0', '8', "invalid descriptor count"),
            SqlState::DynamicSQLErrorInvalidDescriptorIndex => SqlStateDetail::from_chars('0', '7', "dynamic SQL error", '0', '0', '9', "invalid descriptor index"),
            SqlState::DynamicSQLErrorDataTypeTransformFunctionViolation => SqlStateDetail::from_chars('0', '7', "dynamic SQL error", '0', '0', 'B', "data type transform function violation"),
            SqlState::DynamicSQLErrorUndefinedDATAValue => SqlStateDetail::from_chars('0', '7', "dynamic SQL error", '0', '0', 'C', "undefined DATA value"),
            SqlState::DynamicSQLErrorInvalidDATATarget => SqlStateDetail::from_chars('0', '7', "dynamic SQL error", '0', '0', 'D', "invalid DATA target"),
            SqlState::DynamicSQLErrorInvalidLEVELValue => SqlStateDetail::from_chars('0', '7', "dynamic SQL error", '0', '0', 'E', "invalid LEVEL value"),
            SqlState::DynamicSQLErrorInvalidDatetimeIntervalCode => SqlStateDetail::from_chars('0', '7', "dynamic SQL error", '0', '0', 'F', "invalid DATETIME_INTERVAL_CODE"),
            SqlState::ConnectionException => SqlStateDetail::from_chars('0', '8', "connection exception", '0', '0', '0', "(no subclass)"),
            SqlState::ConnectionExceptionSQLclientUnableToEstablishSQLconnection => SqlStateDetail::from_chars('0', '8', "connection exception", '0', '0', '1', "SQL-client unable to establish SQL-connection"),
            SqlState::ConnectionExceptionConnectionNameInUse => SqlStateDetail::from_chars('0', '8', "connection exception", '0', '0', '2', "connection name in use"),
            SqlState::ConnectionExceptionConnectionDoesNotExist => SqlStateDetail::from_chars('0', '8', "connection exception", '0', '0', '3', "connection does not exist"),
            SqlState::ConnectionExceptionSQLserverRejectedEstablishmentOfSQLconnection => SqlStateDetail::from_chars('0', '8', "connection exception", '0', '0', '4', "SQL-server rejected establishment of SQL-connection"),
            SqlState::ConnectionExceptionConnectionFailure => SqlStateDetail::from_chars('0', '8', "connection exception", '0', '0', '6', "connection failure"),
            SqlState::ConnectionExceptionTransactionResolutionUnknown => SqlStateDetail::from_chars('0', '8', "connection exception", '0', '0', '7', "transaction resolution unknown"),
            SqlState::TriggeredActionException => SqlStateDetail::from_chars('0', '9', "triggered action exception", '0', '0', '0', "(no subclass)"),
            SqlState::FeatureNotSupported => SqlStateDetail::from_chars('0', 'A', "feature not supported", '0', '0', '0', "(no subclass)"),
            SqlState::FeatureNotSupportedMultipleServerTransactions => SqlStateDetail::from_chars('0', 'A', "feature not supported", '0', '0', '1', "multiple server transactions"),
            SqlState::InvalidTargetTypeSpecification => SqlStateDetail::from_chars('0', 'D', "invalid target type specification", '0', '0', '0', "(no subclass)"),
            SqlState::InvalidSchemaNameListSpecification => SqlStateDetail::from_chars('0', 'E', "invalid schema name list specification", '0', '0', '0', "(no subclass)"),
            SqlState::LocatorException => SqlStateDetail::from_chars('0', 'F', "locator exception", '0', '0', '0', "(no subclass)"),
            SqlState::LocatorExceptionInvalidSpecification => SqlStateDetail::from_chars('0', 'F', "locator exception", '0', '0', '1', "invalid specification"),
            SqlState::InvalidGrantor => SqlStateDetail::from_chars('0', 'L', "invalid grantor", '0', '0', '0', "(no subclass)"),
            SqlState::InvalidSQLinvokedProcedureReference => SqlStateDetail::from_chars('0', 'M', "invalid SQL-invoked procedure reference", '0', '0', '0', "(no subclass)"),
            SqlState::InvalidRoleSpecification => SqlStateDetail::from_chars('0', 'P', "invalid role specification", '0', '0', '0', "(no subclass)"),
            SqlState::InvalidTransformGroupNameSpecification => SqlStateDetail::from_chars('0', 'S', "invalid transform group name specification", '0', '0', '0', "(no subclass)"),
            SqlState::TargetTableDisagreesWithCursorSpecification => SqlStateDetail::from_chars('0', 'T', "target table disagrees with cursor specification", '0', '0', '0', "(no subclass)"),
            SqlState::AttemptToAssignToNonupdatableColumn => SqlStateDetail::from_chars('0', 'U', "attempt to assign to non-updatable column", '0', '0', '0', "(no subclass)"),
            SqlState::AttemptToAssignToOrderingColumn => SqlStateDetail::from_chars('0', 'V', "attempt to assign to ordering column", '0', '0', '0', "(no subclass)"),
            SqlState::ProhibitedStatementEncounteredDuringTriggerExecution => SqlStateDetail::from_chars('0', 'W', "prohibited statement encountered during trigger execution", '0', '0', '0', "(no subclass)"),
            SqlState::ProhibitedStatementEncounteredDuringTriggerExecutionModifyTableModifiedByDataChangeDeltaTable => SqlStateDetail::from_chars('0', 'W', "prohibited statement encountered during trigger execution", '0', '0', '1', "modify table modified by data change delta table"),
            SqlState::DiagnosticsException => SqlStateDetail::from_chars('0', 'Z', "diagnostics exception", '0', '0', '0', "(no subclass)"),
            SqlState::DiagnosticsExceptionMaximumNumberOfStackedDiagnosticsAreasExceeded => SqlStateDetail::from_chars('0', 'Z', "diagnostics exception", '0', '0', '1', "maximum number of stacked diagnostics areas exceeded"),
            SqlState::CardinalityViolation => SqlStateDetail::from_chars('2', '1', "cardinality violation", '0', '0', '0', "(no subclass)"),
            SqlState::DataException => SqlStateDetail::from_chars('2', '2', "data exception", '0', '0', '0', "(no subclass)"),
            SqlState::DataExceptionStringDataRightTruncation => SqlStateDetail::from_chars('2', '2', "data exception", '0', '0', '1', "string data, right truncation"),
            SqlState::DataExceptionNullValueNoIndicatorParameter => SqlStateDetail::from_chars('2', '2', "data exception", '0', '0', '2', "null value, no indicator parameter"),
            SqlState::DataExceptionNumericValueOutOfRange => SqlStateDetail::from_chars('2', '2', "data exception", '0', '0', '3', "numeric value out of range"),
            SqlState::DataExceptionNullValueNotAllowed => SqlStateDetail::from_chars('2', '2', "data exception", '0', '0', '4', "null value not allowed"),
            SqlState::DataExceptionErrorInAssignment => SqlStateDetail::from_chars('2', '2', "data exception", '0', '0', '5', "error in assignment"),
            SqlState::DataExceptionInvalidIntervalFormat => SqlStateDetail::from_chars('2', '2', "data exception", '0', '0', '6', "invalid interval format"),
            SqlState::DataExceptionInvalidDatetimeFormat => SqlStateDetail::from_chars('2', '2', "data exception", '0', '0', '7', "invalid datetime format"),
            SqlState::DataExceptionDatetimeFieldOverflow => SqlStateDetail::from_chars('2', '2', "data exception", '0', '0', '8', "datetime field overflow"),
            SqlState::DataExceptionInvalidTimeZoneDisplacementValue => SqlStateDetail::from_chars('2', '2', "data exception", '0', '0', '9', "invalid time zone displacement value"),
            SqlState::DataExceptionEscapeCharacterConflict => SqlStateDetail::from_chars('2', '2', "data exception", '0', '0', 'B', "escape character conflict"),
            SqlState::DataExceptionInvalidUseOfEscapeCharacter => SqlStateDetail::from_chars('2', '2', "data exception", '0', '0', 'C', "invalid use of escape character"),
            SqlState::DataExceptionInvalidEscapeOctet => SqlStateDetail::from_chars('2', '2', "data exception", '0', '0', 'D', "invalid escape octet"),
            SqlState::DataExceptionNullValueInArrayTarget => SqlStateDetail::from_chars('2', '2', "data exception", '0', '0', 'E', "null value in array target"),
            SqlState::DataExceptionZerolengthCharacterString => SqlStateDetail::from_chars('2', '2', "data exception", '0', '0', 'F', "zero-length character string"),
            SqlState::DataExceptionMostSpecificTypeMismatch => SqlStateDetail::from_chars('2', '2', "data exception", '0', '0', 'G', "most specific type mismatch"),
            SqlState::DataExceptionSequenceGeneratorLimitExceeded => SqlStateDetail::from_chars('2', '2', "data exception", '0', '0', 'H', "sequence generator limit exceeded"),
            SqlState::DataExceptionIntervalValueOutOfRange => SqlStateDetail::from_chars('2', '2', "data exception", '0', '0', 'P', "interval value out of range"),
            SqlState::DataExceptionMultisetValueOverflow => SqlStateDetail::from_chars('2', '2', "data exception", '0', '0', 'Q', "multiset value overflow"),
            SqlState::DataExceptionInvalidIndicatorParameterValue => SqlStateDetail::from_chars('2', '2', "data exception", '0', '1', '0', "invalid indicator parameter value"),
            SqlState::DataExceptionSubstringError => SqlStateDetail::from_chars('2', '2', "data exception", '0', '1', '1', "substring error"),
            SqlState::DataExceptionDivisionByZero => SqlStateDetail::from_chars('2', '2', "data exception", '0', '1', '2', "division by zero"),
            SqlState::DataExceptionInvalidPrecedingOrFollowingSizeInWindowFunction => SqlStateDetail::from_chars('2', '2', "data exception", '0', '1', '3', "invalid preceding or following size in window function"),
            SqlState::DataExceptionInvalidArgumentForNTILEFunction => SqlStateDetail::from_chars('2', '2', "data exception", '0', '1', '4', "invalid argument for NTILE function"),
            SqlState::DataExceptionIntervalFieldOverflow => SqlStateDetail::from_chars('2', '2', "data exception", '0', '1', '5', "interval field overflow"),
            SqlState::DataExceptionInvalidArgumentForNthValueFunction => SqlStateDetail::from_chars('2', '2', "data exception", '0', '1', '6', "invalid argument for NTH_VALUE function"),
            SqlState::DataExceptionInvalidCharacterValueForCast => SqlStateDetail::from_chars('2', '2', "data exception", '0', '1', '8', "invalid character value for cast"),
            SqlState::DataExceptionInvalidEscapeCharacter => SqlStateDetail::from_chars('2', '2', "data exception", '0', '1', '9', "invalid escape character"),
            SqlState::DataExceptionInvalidRegularExpression => SqlStateDetail::from_chars('2', '2', "data exception", '0', '1', 'B', "invalid regular expression"),
            SqlState::DataExceptionNullRowNotPermittedInTable => SqlStateDetail::from_chars('2', '2', "data exception", '0', '1', 'C', "null row not permitted in table"),
            SqlState::DataExceptionInvalidArgumentForNaturalLogarithm => SqlStateDetail::from_chars('2', '2', "data exception", '0', '1', 'E', "invalid argument for natural logarithm"),
            SqlState::DataExceptionInvalidArgumentForPowerFunction => SqlStateDetail::from_chars('2', '2', "data exception", '0', '1', 'F', "invalid argument for power function"),
            SqlState::DataExceptionInvalidArgumentForWidthBucketFunction => SqlStateDetail::from_chars('2', '2', "data exception", '0', '1', 'G', "invalid argument for width bucket function"),
            SqlState::DataExceptionInvalidRowVersion => SqlStateDetail::from_chars('2', '2', "data exception", '0', '1', 'H', "invalid row version"),
            SqlState::DataExceptionInvalidQueryRegularExpression => SqlStateDetail::from_chars('2', '2', "data exception", '0', '1', 'S', "invalid Query regular expression"),
            SqlState::DataExceptionInvalidQueryOptionFlag => SqlStateDetail::from_chars('2', '2', "data exception", '0', '1', 'T', "invalid Query option flag"),
            SqlState::DataExceptionAttemptToReplaceAZerolengthString => SqlStateDetail::from_chars('2', '2', "data exception", '0', '1', 'U', "attempt to replace a zero-length string"),
            SqlState::DataExceptionInvalidQueryReplacementString => SqlStateDetail::from_chars('2', '2', "data exception", '0', '1', 'V', "invalid Query replacement string"),
            SqlState::DataExceptionInvalidRowCountInFetchFirstClause => SqlStateDetail::from_chars('2', '2', "data exception", '0', '1', 'W', "invalid row count in fetch first clause"),
            SqlState::DataExceptionInvalidRowCountInResultOffsetClause => SqlStateDetail::from_chars('2', '2', "data exception", '0', '1', 'X', "invalid row count in result offset clause"),
            SqlState::DataExceptionCharacterNotInRepertoire => SqlStateDetail::from_chars('2', '2', "data exception", '0', '2', '1', "character not in repertoire"),
            SqlState::DataExceptionIndicatorOverflow => SqlStateDetail::from_chars('2', '2', "data exception", '0', '2', '2', "indicator overflow"),
            SqlState::DataExceptionInvalidParameterValue => SqlStateDetail::from_chars('2', '2', "data exception", '0', '2', '3', "invalid parameter value"),
            SqlState::DataExceptionUnterminatedCString => SqlStateDetail::from_chars('2', '2', "data exception", '0', '2', '4', "unterminated C string"),
            SqlState::DataExceptionInvalidEscapeSequence => SqlStateDetail::from_chars('2', '2', "data exception", '0', '2', '5', "invalid escape sequence"),
            SqlState::DataExceptionStringDataLengthMismatch => SqlStateDetail::from_chars('2', '2', "data exception", '0', '2', '6', "string data, length mismatch"),
            SqlState::DataExceptionTrimError => SqlStateDetail::from_chars('2', '2', "data exception", '0', '2', '7', "trim error"),
            SqlState::DataExceptionNoncharacterInUCSString => SqlStateDetail::from_chars('2', '2', "data exception", '0', '2', '9', "noncharacter in UCS string"),
            SqlState::DataExceptionNullValueSubstitutedForMutatorSubjectParameter => SqlStateDetail::from_chars('2', '2', "data exception", '0', '2', 'D', "null value substituted for mutator subject parameter"),
            SqlState::DataExceptionArrayElementError => SqlStateDetail::from_chars('2', '2', "data exception", '0', '2', 'E', "array element error"),
            SqlState::DataExceptionArrayDataRightTruncation => SqlStateDetail::from_chars('2', '2', "data exception", '0', '2', 'F', "array data, right truncation"),
            SqlState::DataExceptionInvalidRepeatArgumentInASampleClause => SqlStateDetail::from_chars('2', '2', "data exception", '0', '2', 'G', "invalid repeat argument in a sample clause"),
            SqlState::DataExceptionInvalidSampleSize => SqlStateDetail::from_chars('2', '2', "data exception", '0', '2', 'H', "invalid sample size"),
            SqlState::DataExceptionIllegalConversion => SqlStateDetail::from_chars('2', '2', "data exception", 'I', '0', '0', "illegal data conversion"),
            SqlState::DataExceptionIllegalComparison => SqlStateDetail::from_chars('2', '2', "data exception", 'I', '0', '1', "illegal data comparison"),
            SqlState::DataExceptionIllegalOperation => SqlStateDetail::from_chars('2', '2', "data exception", 'I', '0', '2', "illegal operation to data"),
            SqlState::IntegrityConstraintViolation => SqlStateDetail::from_chars('2', '3', "integrity constraint violation", '0', '0', '0', "(no subclass)"),
            SqlState::IntegrityConstraintViolationRestrictViolation => SqlStateDetail::from_chars('2', '3', "integrity constraint violation", '0', '0', '1', "restrict violation"),
            SqlState::IntegrityConstraintNotNullViolation => SqlStateDetail::from_chars('2', '3', "integrity constraint violation", 'I', '0', '0', "not null violation"),
            SqlState::IntegrityConstraintUniqueViolation => SqlStateDetail::from_chars('2', '3', "integrity constraint violation", 'I', '0', '1', "unique violation"),
            SqlState::InvalidCursorState => SqlStateDetail::from_chars('2', '4', "invalid cursor state", '0', '0', '0', "(no subclass)"),
            SqlState::InvalidTransactionState => SqlStateDetail::from_chars('2', '5', "invalid transaction state", '0', '0', '0', "(no subclass)"),
            SqlState::InvalidTransactionStateActiveSQLtransaction => SqlStateDetail::from_chars('2', '5', "invalid transaction state", '0', '0', '1', "active SQL-transaction"),
            SqlState::InvalidTransactionStateBranchTransactionAlreadyActive => SqlStateDetail::from_chars('2', '5', "invalid transaction state", '0', '0', '2', "branch transaction already active"),
            SqlState::InvalidTransactionStateInappropriateAccessModeForBranchTransaction => SqlStateDetail::from_chars('2', '5', "invalid transaction state", '0', '0', '3', "inappropriate access mode for branch transaction"),
            SqlState::InvalidTransactionStateInappropriateIsolationLevelForBranchTransaction => SqlStateDetail::from_chars('2', '5', "invalid transaction state", '0', '0', '4', "inappropriate isolation level for branch transaction"),
            SqlState::InvalidTransactionStateNoActiveSQLtransactionForBranchTransaction => SqlStateDetail::from_chars('2', '5', "invalid transaction state", '0', '0', '5', "no active SQL-transaction for branch transaction"),
            SqlState::InvalidTransactionStateReadonlySQLtransaction => SqlStateDetail::from_chars('2', '5', "invalid transaction state", '0', '0', '6', "read-only SQL-transaction"),
            SqlState::InvalidTransactionStateSchemaAndDataStatementMixingNotSupported => SqlStateDetail::from_chars('2', '5', "invalid transaction state", '0', '0', '7', "schema and data statement mixing not supported"),
            SqlState::InvalidTransactionStateHeldCursorRequiresSameIsolationLevel => SqlStateDetail::from_chars('2', '5', "invalid transaction state", '0', '0', '8', "held cursor requires same isolation level"),
            SqlState::InvalidSQLStatementName => SqlStateDetail::from_chars('2', '6', "invalid SQL statement name", '0', '0', '0', "(no subclass)"),
            SqlState::TriggeredDataChangeViolation => SqlStateDetail::from_chars('2', '7', "triggered data change violation", '0', '0', '0', "(no subclass)"),
            SqlState::TriggeredDataChangeViolationModifyTableModifiedByDataChangeDeltaTable => SqlStateDetail::from_chars('2', '7', "triggered data change violation", '0', '0', '1', "modify table modified by data change delta table"),
            SqlState::InvalidAuthorizationSpecification => SqlStateDetail::from_chars('2', '8', "invalid authorization specification", '0', '0', '0', "(no subclass)"),
            SqlState::DependentPrivilegeDescriptorsStillExist => SqlStateDetail::from_chars('2', 'B', "dependent privilege descriptors still exist", '0', '0', '0', "(no subclass)"),
            SqlState::InvalidCharacterSetName => SqlStateDetail::from_chars('2', 'C', "invalid character set name", '0', '0', '0', "(no subclass)"),
            SqlState::InvalidTransactionTermination => SqlStateDetail::from_chars('2', 'D', "invalid transaction termination", '0', '0', '0', "(no subclass)"),
            SqlState::InvalidConnectionName => SqlStateDetail::from_chars('2', 'E', "invalid connection name", '0', '0', '0', "(no subclass)"),
            SqlState::SQLRoutineException => SqlStateDetail::from_chars('2', 'F', "SQL routine exception", '0', '0', '0', "(no subclass)"),
            SqlState::SQLRoutineExceptionModifyingSQLdataNotPermitted => SqlStateDetail::from_chars('2', 'F', "SQL routine exception", '0', '0', '2', "modifying SQL-data not permitted"),
            SqlState::SQLRoutineExceptionProhibitedSQLstatementAttempted => SqlStateDetail::from_chars('2', 'F', "SQL routine exception", '0', '0', '3', "prohibited SQL-statement attempted"),
            SqlState::SQLRoutineExceptionReadingSQLdataNotPermitted => SqlStateDetail::from_chars('2', 'F', "SQL routine exception", '0', '0', '4', "reading SQL-data not permitted"),
            SqlState::SQLRoutineExceptionFunctionExecutedNoReturnStatement => SqlStateDetail::from_chars('2', 'F', "SQL routine exception", '0', '0', '5', "function executed no return statement"),
            SqlState::InvalidCollationName => SqlStateDetail::from_chars('2', 'H', "invalid collation name", '0', '0', '0', "(no subclass)"),
            SqlState::InvalidSQLStatementIdentifier => SqlStateDetail::from_chars('3', '0', "invalid SQL statement identifier", '0', '0', '0', "(no subclass)"),
            SqlState::InvalidSQLDescriptorName => SqlStateDetail::from_chars('3', '3', "invalid SQL descriptor name", '0', '0', '0', "(no subclass)"),
            SqlState::InvalidCursorName => SqlStateDetail::from_chars('3', '4', "invalid cursor name", '0', '0', '0', "(no subclass)"),
            SqlState::InvalidConditionNumber => SqlStateDetail::from_chars('3', '5', "invalid condition number", '0', '0', '0', "(no subclass)"),
            SqlState::CursorSensitivityException => SqlStateDetail::from_chars('3', '6', "cursor sensitivity exception", '0', '0', '0', "(no subclass)"),
            SqlState::CursorSensitivityExceptionRequestRejected => SqlStateDetail::from_chars('3', '6', "cursor sensitivity exception", '0', '0', '1', "request rejected"),
            SqlState::CursorSensitivityExceptionRequestFailed => SqlStateDetail::from_chars('3', '6', "cursor sensitivity exception", '0', '0', '2', "request failed"),
            SqlState::ExternalRoutineException => SqlStateDetail::from_chars('3', '8', "external routine exception", '0', '0', '0', "(no subclass)"),
            SqlState::ExternalRoutineExceptionContainingSQLNotPermitted => SqlStateDetail::from_chars('3', '8', "external routine exception", '0', '0', '1', "containing SQL not permitted"),
            SqlState::ExternalRoutineExceptionModifyingSQLdataNotPermitted => SqlStateDetail::from_chars('3', '8', "external routine exception", '0', '0', '2', "modifying SQL-data not permitted"),
            SqlState::ExternalRoutineExceptionProhibitedSQLstatementAttempted => SqlStateDetail::from_chars('3', '8', "external routine exception", '0', '0', '3', "prohibited SQL-statement attempted"),
            SqlState::ExternalRoutineExceptionReadingSQLdataNotPermitted => SqlStateDetail::from_chars('3', '8', "external routine exception", '0', '0', '4', "reading SQL-data not permitted"),
            SqlState::ExternalRoutineInvocationException => SqlStateDetail::from_chars('3', '9', "external routine invocation exception", '0', '0', '0', "(no subclass)"),
            SqlState::ExternalRoutineInvocationExceptionNullValueNotAllowed => SqlStateDetail::from_chars('3', '9', "external routine invocation exception", '0', '0', '4', "null value not allowed"),
            SqlState::SavepointException => SqlStateDetail::from_chars('3', 'B', "savepoint exception", '0', '0', '0', "(no subclass)"),
            SqlState::SavepointExceptionInvalidSpecification => SqlStateDetail::from_chars('3', 'B', "savepoint exception", '0', '0', '1', "invalid specification"),
            SqlState::SavepointExceptionTooMany => SqlStateDetail::from_chars('3', 'B', "savepoint exception", '0', '0', '2', "too many"),
            SqlState::AmbiguousCursorName => SqlStateDetail::from_chars('3', 'C', "ambiguous cursor name", '0', '0', '0', "(no subclass)"),
            SqlState::InvalidCatalogName => SqlStateDetail::from_chars('3', 'D', "invalid catalog name", '0', '0', '0', "(no subclass)"),
            SqlState::InvalidSchemaName => SqlStateDetail::from_chars('3', 'F', "invalid schema name", '0', '0', '0', "(no subclass)"),
            SqlState::TransactionRollback => SqlStateDetail::from_chars('4', '0', "transaction rollback", '0', '0', '0', "(no subclass)"),
            SqlState::TransactionRollbackSerializationFailure => SqlStateDetail::from_chars('4', '0', "transaction rollback", '0', '0', '1', "serialization failure"),
            SqlState::TransactionRollbackIntegrityConstraintViolation => SqlStateDetail::from_chars('4', '0', "transaction rollback", '0', '0', '2', "integrity constraint violation"),
            SqlState::TransactionRollbackStatementCompletionUnknown => SqlStateDetail::from_chars('4', '0', "transaction rollback", '0', '0', '3', "statement completion unknown"),
            SqlState::TransactionRollbackTriggeredActionException => SqlStateDetail::from_chars('4', '0', "transaction rollback", '0', '0', '4', "triggered action exception"),
            SqlState::TransactionRollbackDeadlock => SqlStateDetail::from_chars('4', '0', "transaction rollback", 'I', '0', '0', "deadlock detected"),
            SqlState::SyntaxErrorOrAccessRuleViolation => SqlStateDetail::from_chars('4', '2', "syntax error or access rule violation", '0', '0', '0', "(no subclass)"),
            SqlState::WithCheckOptionViolation => SqlStateDetail::from_chars('4', '4', "with check option violation", '0', '0', '0', "(no subclass)"),
            SqlState::ReservedForISO9579 => SqlStateDetail::from_chars('H', 'Z', "Reserved for ISO9579 (RDA)", '?', '?', '?', ""),
            SqlState::IoError => SqlStateDetail::from_chars('I', 'O', "io error", '0', '0', '0', "(no subclass)"),
            SqlState::NameError => SqlStateDetail::from_chars('N', 'M', "general name error", '0', '0', '0', "(no subclass)"),
            SqlState::NameErrorNotFound => SqlStateDetail::from_chars('N', 'M', "general name error", '0', '0', '1', "not found by name"),
            SqlState::NameErrorAmbiguous => SqlStateDetail::from_chars('N', 'M', "general name error", '0', '0', '2', "ambiguous name"),
            SqlState::NameErrorDuplicate => SqlStateDetail::from_chars('N', 'M', "general name error", '0', '0', '3', "duplicate name"),
            SqlState::NameErrorTooLong => SqlStateDetail::from_chars('N', 'M', "general name error", '0', '0', '4', "too long name"),
            SqlState::DdlError => SqlStateDetail::from_chars('S', 'C', "DDL error", '0', '0', '0', "(no subclass)"),
            SqlState::SystemError => SqlStateDetail::from_chars('S', 'Y', "general system error", '0', '0', '0', "(no subclass)"),
        }
    }
}

/// The SQLSTATE whose 5 characters are `code`, if any.
pub open spec fn sqlstate_of_code(code: Seq<char>) -> Option<SqlState> {
    if code.len() != 5 {
        None
    } else if code[0] == '0' && code[1] == '0' {
        if code[2] == '0' && code[3] == '0' && code[4] == '0' {
            Some(SqlState::SuccessfulCompletion)
        } else {
            None
        }
    } else if code[0] == '0' && code[1] == '1' {
        if code[2] == '0' && code[3] == '0' && code[4] == '0' {
            Some(SqlState::Warning)
        } else if code[2] == '0' && code[3] == '0' && code[4] == '1' {
            Some(SqlState::WarningCursorOperationConflict)
        } else if code[2] == '0' && code[3] == '0' && code[4] == '2' {
            Some(SqlState::WarningDisconnectError)
        } else if code[2] == '0' && code[3] == '0' && code[4] == '3' {
            Some(SqlState::WarningNullValueEliminatedInSetFunction)
        } else if code[2] == '0' && code[3] == '0' && code[4] == '4' {
            Some(SqlState::WarningStringDataRightTruncation)
        } else if code[2] == '0' && code[3] == '0' && code[4] == '5' {
            Some(SqlState::WarningInsufficientItemDescriptorAreas)
        } else if code[2] == '0' && code[3] == '0' && code[4] == '6' {
            Some(SqlState::WarningPrivilegeNotRevoked)
        } else if code[2] == '0' && code[3] == '0' && code[4] == '7' {
            Some(SqlState::WarningPrivilegeNotGranted)
        } else if code[2] == '0' && code[3] == '0' && code[4] == '9' {
            Some(SqlState::WarningSearchConditionTooLongForInformationSchema)
        } else if code[2] == '0' && code[3] == '0' && code[4] == 'A' {
            Some(SqlState::WarningQueryExpressionTooLongForInformationSchema)
        } else if code[2] == '0' && code[3] == '0' && code[4] == 'B' {
            Some(SqlState::WarningDefaultValueTooLongForInformationSchema)
        } else if code[2] == '0' && code[3] == '0' && code[4] == 'C' {
            Some(SqlState::WarningResultSetsReturned)
        } else if code[2] == '0' && code[3] == '0' && code[4] == 'D' {
            Some(SqlState::WarningAdditionalResultSetsReturned)
        } else if code[2] == '0' && code[3] == '0' && code[4] == 'E' {
            Some(SqlState::WarningAttemptToReturnTooManyResultSets)
        } else if code[2] == '0' && code[3] == '0' && code[4] == 'F' {
            Some(SqlState::WarningStatementTooLongForInformationSchema)
        } else if code[2] == '0' && code[3] == '1' && code[4] == '2' {
            Some(SqlState::WarningInvalidNumberOfConditions)
        } else if code[2] == '0' && code[3] == '2' && code[4] == 'F' {
            Some(SqlState::WarningArrayDataRightTruncation)
        } else {
            None
        }
    } else if code[0] == '0' && code[1] == '2' {
        if code[2] == '0' && code[3] == '0' && code[4] == '0' {
            Some(SqlState::NoData)
        } else if code[2] == '0' && code[3] == '0' && code[4] == '1' {
            Some(SqlState::NoDataNoAdditionalResultSetsReturned)
        } else {
            None
        }
    } else if code[0] == '0' && code[1] == '7' {
        if code[2] == '0' && code[3] == '0' && code[4] == '0' {
            Some(SqlState::DynamicSQLError)
        } else if code[2] == '0' && code[3] == '0' && code[4] == '1' {
            Some(SqlState::DynamicSQLErrorUsingClauseDoesNotMatchDynamicParameterSpecifications)
        } else if code[2] == '0' && code[3] == '0' && code[4] == '2' {
            Some(SqlState::DynamicSQLErrorUsingClauseDoesNotMatchTargetSpecifications)
        } else if code[2] == '0' && code[3] == '0' && code[4] == '3' {
            Some(SqlState::DynamicSQLErrorCursorSpecificationCannotBeExecuted)
        } else if code[2] == '0' && code[3] == '0' && code[4] == '4' {
            Some(SqlState::DynamicSQLErrorUsingClauseRequiredForDynamicParameters)
        } else if code[2] == '0' && code[3] == '0' && code[4] == '5' {
            Some(SqlState::DynamicSQLErrorPreparedStatementNotACursorSpecification)
        } else if code[2] == '0' && code[3] == '0' && code[4] == '6' {
            Some(SqlState::DynamicSQLErrorRestrictedDataTypeAttributeViolation)
        } else if code[2] == '0' && code[3] == '0' && code[4] == '7' {
            Some(SqlState::DynamicSQLErrorUsingClauseRequiredForResultFields)
        } else if code[2] == '0' && code[3] == '0' && code[4] == '8' {
            Some(SqlState::DynamicSQLErrorInvalidDescriptorCount)
        } else if code[2] == '0' && code[3] == '0' && code[4] == '9' {
            Some(SqlState::DynamicSQLErrorInvalidDescriptorIndex)
        } else if code[2] == '0' && code[3] == '0' && code[4] == 'B' {
            Some(SqlState::DynamicSQLErrorDataTypeTransformFunctionViolation)
        } else if code[2] == '0' && code[3] == '0' && code[4] == 'C' {
            Some(SqlState::DynamicSQLErrorUndefinedDATAValue)
        } else if code[2] == '0' && code[3] == '0' && code[4] == 'D' {
            Some(SqlState::DynamicSQLErrorInvalidDATATarget)
        } else if code[2] == '0' && code[3] == '0' && code[4] == 'E' {
            Some(SqlState::DynamicSQLErrorInvalidLEVELValue)
        } else if code[2] == '0' && code[3] == '0' && code[4] == 'F' {
            Some(SqlState::DynamicSQLErrorInvalidDatetimeIntervalCode)
        } else {
            None
        }
    } else if code[0] == '0' && code[1] == '8' {
        if code[2] == '0' && code[3] == '0' && code[4] == '0' {
            Some(SqlState::ConnectionException)
        } else if code[2] == '0' && code[3] == '0' && code[4] == '1' {
            Some(SqlState::ConnectionExceptionSQLclientUnableToEstablishSQLconnection)
        } else if code[2] == '0' && code[3] == '0' && code[4] == '2' {
            Some(SqlState::ConnectionExceptionConnectionNameInUse)
        } else if code[2] == '0' && code[3] == '0' && code[4] == '3' {
            Some(SqlState::ConnectionExceptionConnectionDoesNotExist)
        } else if code[2] == '0' && code[3] == '0' && code[4] == '4' {
            Some(SqlState::ConnectionExceptionSQLserverRejectedEstablishmentOfSQLconnection)
        } else if code[2] == '0' && code[3] == '0' && code[4] == '6' {
            Some(SqlState::ConnectionExceptionConnectionFailure)
        } else if code[2] == '0' && code[3] == '0' && code[4] == '7' {
            Some(SqlState::ConnectionExceptionTransactionResolutionUnknown)
        } else {
            None
        }
    } else if code[0] == '0' && code[1] == '9' {
        if code[2] == '0' && code[3] == '0' && code[4] == '0' {
            Some(SqlState::TriggeredActionException)
        } else {
            None
        }
    } else if code[0] == '0' && code[1] == 'A' {
        if code[2] == '0' && code[3] == '0' && code[4] == '0' {
            Some(SqlState::FeatureNotSupported)
        } else if code[2] == '0' && code[3] == '0' && code[4] == '1' {
            Some(SqlState::FeatureNotSupportedMultipleServerTransactions)
        } else {
            None
        }
    } else if code[0] == '0' && code[1] == 'D' {
        if code[2] == '0' && code[3] == '0' && code[4] == '0' {
            Some(SqlState::InvalidTargetTypeSpecification)
        } else {
            None
        }
    } else if code[0] == '0' && code[1] == 'E' {
        if code[2] == '0' && code[3] == '0' && code[4] == '0' {
            Some(SqlState::InvalidSchemaNameListSpecification)
        } else {
            None
        }
    } else if code[0] == '0' && code[1] == 'F' {
        if code[2] == '0' && code[3] == '0' && code[4] == '0' {
            Some(SqlState::LocatorException)
        } else if code[2] == '0' && code[3] == '0' && code[4] == '1' {
            Some(SqlState::LocatorExceptionInvalidSpecification)
        } else {
            None
        }
    } else if code[0] == '0' && code[1] == 'L' {
        if code[2] == '0' && code[3] == '0' && code[4] == '0' {
            Some(SqlState::InvalidGrantor)
        } else {
            None
        }
    } else if code[0] == '0' && code[1] == 'M' {
        if code[2] == '0' && code[3] == '0' && code[4] == '0' {
            Some(SqlState::InvalidSQLinvokedProcedureReference)
        } else {
            None
        }
    } else if code[0] == '0' && code[1] == 'P' {
        if code[2] == '0' && code[3] == '0' && code[4] == '0' {
            Some(SqlState::InvalidRoleSpecification)
        } else {
            None
        }
    } else if code[0] == '0' && code[1] == 'S' {
        if code[2] == '0' && code[3] == '0' && code[4] == '0' {
            Some(SqlState::InvalidTransformGroupNameSpecification)
        } else {
            None
        }
    } else if code[0] == '0' && code[1] == 'T' {
        if code[2] == '0' && code[3] == '0' && code[4] == '0' {
            Some(SqlState::TargetTableDisagreesWithCursorSpecification)
        } else {
            None
        }
    } else if code[0] == '0' && code[1] == 'U' {
        if code[2] == '0' && code[3] == '0' && code[4] == '0' {
            Some(SqlState::AttemptToAssignToNonupdatableColumn)
        } else {
            None
        }
    } else if code[0] == '0' && code[1] == 'V' {
        if code[2] == '0' && code[3] == '0' && code[4] == '0' {
            Some(SqlState::AttemptToAssignToOrderingColumn)
        } else {
            None
        }
    } else if code[0] == '0' && code[1] == 'W' {
        if code[2] == '0' && code[3] == '0' && code[4] == '0' {
            Some(SqlState::ProhibitedStatementEncounteredDuringTriggerExecution)
        } else if code[2] == '0' && code[3] == '0' && code[4] == '1' {
            Some(SqlState::ProhibitedStatementEncounteredDuringTriggerExecutionModifyTableModifiedByDataChangeDeltaTable)
        } else {
            None
        }
    } else if code[0] == '0' && code[1] == 'Z' {
        if code[2] == '0' && code[3] == '0' && code[4] == '0' {
            Some(SqlState::DiagnosticsException)
        } else if code[2] == '0' && code[3] == '0' && code[4] == '1' {
            Some(SqlState::DiagnosticsExceptionMaximumNumberOfStackedDiagnosticsAreasExceeded)
        } else {
            None
        }
    } else if code[0] == '2' && code[1] == '1' {
        if code[2] == '0' && code[3] == '0' && code[4] == '0' {
            Some(SqlState::CardinalityViolation)
        } else {
            None
        }
    } else if code[0] == '2' && code[1] == '2' {
        if code[2] == '0' && code[3] == '0' && code[4] == '0' {
            Some(SqlState::DataException)
        } else if code[2] == '0' && code[3] == '0' && code[4] == '1' {
            Some(SqlState::DataExceptionStringDataRightTruncation)
        } else if code[2] == '0' && code[3] == '0' && code[4] == '2' {
            Some(SqlState::DataExceptionNullValueNoIndicatorParameter)
        } else if code[2] == '0' && code[3] == '0' && code[4] == '3' {
            Some(SqlState::DataExceptionNumericValueOutOfRange)
        } else if code[2] == '0' && code[3] == '0' && code[4] == '4' {
            Some(SqlState::DataExceptionNullValueNotAllowed)
        } else if code[2] == '0' && code[3] == '0' && code[4] == '5' {
            Some(SqlState::DataExceptionErrorInAssignment)
        } else if code[2] == '0' && code[3] == '0' && code[4] == '6' {
            Some(SqlState::DataExceptionInvalidIntervalFormat)
        } else if code[2] == '0' && code[3] == '0' && code[4] == '7' {
            Some(SqlState::DataExceptionInvalidDatetimeFormat)
        } else if code[2] == '0' && code[3] == '0' && code[4] == '8' {
            Some(SqlState::DataExceptionDatetimeFieldOverflow)
        } else if code[2] == '0' && code[3] == '0' && code[4] == '9' {
            Some(SqlState::DataExceptionInvalidTimeZoneDisplacementValue)
        } else if code[2] == '0' && code[3] == '0' && code[4] == 'B' {
            Some(SqlState::DataExceptionEscapeCharacterConflict)
        } else if code[2] == '0' && code[3] == '0' && code[4] == 'C' {
            Some(SqlState::DataExceptionInvalidUseOfEscapeCharacter)
        } else if code[2] == '0' && code[3] == '0' && code[4] == 'D' {
            Some(SqlState::DataExceptionInvalidEscapeOctet)
        } else if code[2] == '0' && code[3] == '0' && code[4] == 'E' {
            Some(SqlState::DataExceptionNullValueInArrayTarget)
        } else if code[2] == '0' && code[3] == '0' && code[4] == 'F' {
            Some(SqlState::DataExceptionZerolengthCharacterString)
        } else if code[2] == '0' && code[3] == '0' && code[4] == 'G' {
            Some(SqlState::DataExceptionMostSpecificTypeMismatch)
        } else if code[2] == '0' && code[3] == '0' && code[4] == 'H' {
            Some(SqlState::DataExceptionSequenceGeneratorLimitExceeded)
        } else if code[2] == '0' && code[3] == '0' && code[4] == 'P' {
            Some(SqlState::DataExceptionIntervalValueOutOfRange)
        } else if code[2] == '0' && code[3] == '0' && code[4] == 'Q' {
            Some(SqlState::DataExceptionMultisetValueOverflow)
        } else if code[2] == '0' && code[3] == '1' && code[4] == '0' {
            Some(SqlState::DataExceptionInvalidIndicatorParameterValue)
        } else if code[2] == '0' && code[3] == '1' && code[4] == '1' {
            Some(SqlState::DataExceptionSubstringError)
        } else if code[2] == '0' && code[3] == '1' && code[4] == '2' {
            Some(SqlState::DataExceptionDivisionByZero)
        } else if code[2] == '0' && code[3] == '1' && code[4] == '3' {
            Some(SqlState::DataExceptionInvalidPrecedingOrFollowingSizeInWindowFunction)
        } else if code[2] == '0' && code[3] == '1' && code[4] == '4' {
            Some(SqlState::DataExceptionInvalidArgumentForNTILEFunction)
        } else if code[2] == '0' && code[3] == '1' && code[4] == '5' {
            Some(SqlState::DataExceptionIntervalFieldOverflow)
        } else if code[2] == '0' && code[3] == '1' && code[4] == '6' {
            Some(SqlState::DataExceptionInvalidArgumentForNthValueFunction)
        } else if code[2] == '0' && code[3] == '1' && code[4] == '8' {
            Some(SqlState::DataExceptionInvalidCharacterValueForCast)
        } else if code[2] == '0' && code[3] == '1' && code[4] == '9' {
            Some(SqlState::DataExceptionInvalidEscapeCharacter)
        } else if code[2] == '0' && code[3] == '1' && code[4] == 'B' {
            Some(SqlState::DataExceptionInvalidRegularExpression)
        } else if code[2] == '0' && code[3] == '1' && code[4] == 'C' {
            Some(SqlState::DataExceptionNullRowNotPermittedInTable)
        } else if code[2] == '0' && code[3] == '1' && code[4] == 'E' {
            Some(SqlState::DataExceptionInvalidArgumentForNaturalLogarithm)
        } else if code[2] == '0' && code[3] == '1' && code[4] == 'F' {
            Some(SqlState::DataExceptionInvalidArgumentForPowerFunction)
        } else if code[2] == '0' && code[3] == '1' && code[4] == 'G' {
            Some(SqlState::DataExceptionInvalidArgumentForWidthBucketFunction)
        } else if code[2] == '0' && code[3] == '1' && code[4] == 'H' {
            Some(SqlState::DataExceptionInvalidRowVersion)
        } else if code[2] == '0' && code[3] == '1' && code[4] == 'S' {
            Some(SqlState::DataExceptionInvalidQueryRegularExpression)
        } else if code[2] == '0' && code[3] == '1' && code[4] == 'T' {
            Some(SqlState::DataExceptionInvalidQueryOptionFlag)
        } else if code[2] == '0' && code[3] == '1' && code[4] == 'U' {
            Some(SqlState::DataExceptionAttemptToReplaceAZerolengthString)
        } else if code[2] == '0' && code[3] == '1' && code[4] == 'V' {
            Some(SqlState::DataExceptionInvalidQueryReplacementString)
        } else if code[2] == '0' && code[3] == '1' && code[4] == 'W' {
            Some(SqlState::DataExceptionInvalidRowCountInFetchFirstClause)
        } else if code[2] == '0' && code[3] == '1' && code[4] == 'X' {
            Some(SqlState::DataExceptionInvalidRowCountInResultOffsetClause)
        } else if code[2] == '0' && code[3] == '2' && code[4] == '1' {
            Some(SqlState::DataExceptionCharacterNotInRepertoire)
        } else if code[2] == '0' && code[3] == '2' && code[4] == '2' {
            Some(SqlState::DataExceptionIndicatorOverflow)
        } else if code[2] == '0' && code[3] == '2' && code[4] == '3' {
            Some(SqlState::DataExceptionInvalidParameterValue)
        } else if code[2] == '0' && code[3] == '2' && code[4] == '4' {
            Some(SqlState::DataExceptionUnterminatedCString)
        } else if code[2] == '0' && code[3] == '2' && code[4] == '5' {
            Some(SqlState::DataExceptionInvalidEscapeSequence)
        } else if code[2] == '0' && code[3] == '2' && code[4] == '6' {
            Some(SqlState::DataExceptionStringDataLengthMismatch)
        } else if code[2] == '0' && code[3] == '2' && code[4] == '7' {
            Some(SqlState::DataExceptionTrimError)
        } else if code[2] == '0' && code[3] == '2' && code[4] == '9' {
            Some(SqlState::DataExceptionNoncharacterInUCSString)
        } else if code[2] == '0' && code[3] == '2' && code[4] == 'D' {
            Some(SqlState::DataExceptionNullValueSubstitutedForMutatorSubjectParameter)
        } else if code[2] == '0' && code[3] == '2' && code[4] == 'E' {
            Some(SqlState::DataExceptionArrayElementError)
        } else if code[2] == '0' && code[3] == '2' && code[4] == 'F' {
            Some(SqlState::DataExceptionArrayDataRightTruncation)
        } else if code[2] == '0' && code[3] == '2' && code[4] == 'G' {
            Some(SqlState::DataExceptionInvalidRepeatArgumentInASampleClause)
        } else if code[2] == '0' && code[3] == '2' && code[4] == 'H' {
            Some(SqlState::DataExceptionInvalidSampleSize)
        } else if code[2] == 'I' && code[3] == '0' && code[4] == '0' {
            Some(SqlState::DataExceptionIllegalConversion)
        } else if code[2] == 'I' && code[3] == '0' && code[4] == '1' {
            Some(SqlState::DataExceptionIllegalComparison)
        } else if code[2] == 'I' && code[3] == '0' && code[4] == '2' {
            Some(SqlState::DataExceptionIllegalOperation)
        } else {
            None
        }
    } else if code[0] == '2' && code[1] == '3' {
        if code[2] == '0' && code[3] == '0' && code[4] == '0' {
            Some(SqlState::IntegrityConstraintViolation)
        } else if code[2] == '0' && code[3] == '0' && code[4] == '1' {
            Some(SqlState::IntegrityConstraintViolationRestrictViolation)
        } else if code[2] == 'I' && code[3] == '0' && code[4] == '0' {
            Some(SqlState::IntegrityConstraintNotNullViolation)
        } else if code[2] == 'I' && code[3] == '0' && code[4] == '1' {
            Some(SqlState::IntegrityConstraintUniqueViolation)
        } else {
            None
        }
    } else if code[0] == '2' && code[1] == '4' {
        if code[2] == '0' && code[3] == '0' && code[4] == '0' {
            Some(SqlState::InvalidCursorState)
        } else {
            None
        }
    } else if code[0] == '2' && code[1] == '5' {
        if code[2] == '0' && code[3] == '0' && code[4] == '0' {
            Some(SqlState::InvalidTransactionState)
        } else if code[2] == '0' && code[3] == '0' && code[4] == '1' {
            Some(SqlState::InvalidTransactionStateActiveSQLtransaction)
        } else if code[2] == '0' && code[3] == '0' && code[4] == '2' {
            Some(SqlState::InvalidTransactionStateBranchTransactionAlreadyActive)
        } else if code[2] == '0' && code[3] == '0' && code[4] == '3' {
            Some(SqlState::InvalidTransactionStateInappropriateAccessModeForBranchTransaction)
        } else if code[2] == '0' && code[3] == '0' && code[4] == '4' {
            Some(SqlState::InvalidTransactionStateInappropriateIsolationLevelForBranchTransaction)
        } else if code[2] == '0' && code[3] == '0' && code[4] == '5' {
            Some(SqlState::InvalidTransactionStateNoActiveSQLtransactionForBranchTransaction)
        } else if code[2] == '0' && code[3] == '0' && code[4] == '6' {
            Some(SqlState::InvalidTransactionStateReadonlySQLtransaction)
        } else if code[2] == '0' && code[3] == '0' && code[4] == '7' {
            Some(SqlState::InvalidTransactionStateSchemaAndDataStatementMixingNotSupported)
        } else if code[2] == '0' && code[3] == '0' && code[4] == '8' {
            Some(SqlState::InvalidTransactionStateHeldCursorRequiresSameIsolationLevel)
        } else {
            None
        }
    } else if code[0] == '2' && code[1] == '6' {
        if code[2] == '0' && code[3] == '0' && code[4] == '0' {
            Some(SqlState::InvalidSQLStatementName)
        } else {
            None
        }
    } else if code[0] == '2' && code[1] == '7' {
        if code[2] == '0' && code[3] == '0' && code[4] == '0' {
            Some(SqlState::TriggeredDataChangeViolation)
        } else if code[2] == '0' && code[3] == '0' && code[4] == '1' {
            Some(SqlState::TriggeredDataChangeViolationModifyTableModifiedByDataChangeDeltaTable)
        } else {
            None
        }
    } else if code[0] == '2' && code[1] == '8' {
        if code[2] == '0' && code[3] == '0' && code[4] == '0' {
            Some(SqlState::InvalidAuthorizationSpecification)
        } else {
            None
        }
    } else if code[0] == '2' && code[1] == 'B' {
        if code[2] == '0' && code[3] == '0' && code[4] == '0' {
            Some(SqlState::DependentPrivilegeDescriptorsStillExist)
        } else {
            None
        }
    } else if code[0] == '2' && code[1] == 'C' {
        if code[2] == '0' && code[3] == '0' && code[4] == '0' {
            Some(SqlState::InvalidCharacterSetName)
        } else {
            None
        }
    } else if code[0] == '2' && code[1] == 'D' {
        if code[2] == '0' && code[3] == '0' && code[4] == '0' {
            Some(SqlState::InvalidTransactionTermination)
        } else {
            None
        }
    } else if code[0] == '2' && code[1] == 'E' {
        if code[2] == '0' && code[3] == '0' && code[4] == '0' {
            Some(SqlState::InvalidConnectionName)
        } else {
            None
        }
    } else if code[0] == '2' && code[1] == 'F' {
        if code[2] == '0' && code[3] == '0' && code[4] == '0' {
            Some(SqlState::SQLRoutineException)
        } else if code[2] == '0' && code[3] == '0' && code[4] == '2' {
            Some(SqlState::SQLRoutineExceptionModifyingSQLdataNotPermitted)
        } else if code[2] == '0' && code[3] == '0' && code[4] == '3' {
            Some(SqlState::SQLRoutineExceptionProhibitedSQLstatementAttempted)
        } else if code[2] == '0' && code[3] == '0' && code[4] == '4' {
            Some(SqlState::SQLRoutineExceptionReadingSQLdataNotPermitted)
        } else if code[2] == '0' && code[3] == '0' && code[4] == '5' {
            Some(SqlState::SQLRoutineExceptionFunctionExecutedNoReturnStatement)
        } else {
            None
        }
    } else if code[0] == '2' && code[1] == 'H' {
        if code[2] == '0' && code[3] == '0' && code[4] == '0' {
            Some(SqlState::InvalidCollationName)
        } else {
            None
        }
    } else if code[0] == '3' && code[1] == '0' {
        if code[2] == '0' && code[3] == '0' && code[4] == '0' {
            Some(SqlState::InvalidSQLStatementIdentifier)
        } else {
            None
        }
    } else if code[0] == '3' && code[1] == '3' {
        if code[2] == '0' && code[3] == '0' && code[4] == '0' {
            Some(SqlState::InvalidSQLDescriptorName)
        } else {
            None
        }
    } else if code[0] == '3' && code[1] == '4' {
        if code[2] == '0' && code[3] == '0' && code[4] == '0' {
            Some(SqlState::InvalidCursorName)
        } else {
            None
        }
    } else if code[0] == '3' && code[1] == '5' {
        if code[2] == '0' && code[3] == '0' && code[4] == '0' {
            Some(SqlState::InvalidConditionNumber)
        } else {
            None
        }
    } else if code[0] == '3' && code[1] == '6' {
        if code[2] == '0' && code[3] == '0' && code[4] == '0' {
            Some(SqlState::CursorSensitivityException)
        } else if code[2] == '0' && code[3] == '0' && code[4] == '1' {
            Some(SqlState::CursorSensitivityExceptionRequestRejected)
        } else if code[2] == '0' && code[3] == '0' && code[4] == '2' {
            Some(SqlState::CursorSensitivityExceptionRequestFailed)
        } else {
            None
        }
    } else if code[0] == '3' && code[1] == '8' {
        if code[2] == '0' && code[3] == '0' && code[4] == '0' {
            Some(SqlState::ExternalRoutineException)
        } else if code[2] == '0' && code[3] == '0' && code[4] == '1' {
            Some(SqlState::ExternalRoutineExceptionContainingSQLNotPermitted)
        } else if code[2] == '0' && code[3] == '0' && code[4] == '2' {
            Some(SqlState::ExternalRoutineExceptionModifyingSQLdataNotPermitted)
        } else if code[2] == '0' && code[3] == '0' && code[4] == '3' {
            Some(SqlState::ExternalRoutineExceptionProhibitedSQLstatementAttempted)
        } else if code[2] == '0' && code[3] == '0' && code[4] == '4' {
            Some(SqlState::ExternalRoutineExceptionReadingSQLdataNotPermitted)
        } else {
            None
        }
    } else if code[0] == '3' && code[1] == '9' {
        if code[2] == '0' && code[3] == '0' && code[4] == '0' {
            Some(SqlState::ExternalRoutineInvocationException)
        } else if code[2] == '0' && code[3] == '0' && code[4] == '4' {
            Some(SqlState::ExternalRoutineInvocationExceptionNullValueNotAllowed)
        } else {
            None
        }
    } else if code[0] == '3' && code[1] == 'B' {
        if code[2] == '0' && code[3] == '0' && code[4] == '0' {
            Some(SqlState::SavepointException)
        } else if code[2] == '0' && code[3] == '0' && code[4] == '1' {
            Some(SqlState::SavepointExceptionInvalidSpecification)
        } else if code[2] == '0' && code[3] == '0' && code[4] == '2' {
            Some(SqlState::SavepointExceptionTooMany)
        } else {
            None
        }
    } else if code[0] == '3' && code[1] == 'C' {
        if code[2] == '0' && code[3] == '0' && code[4] == '0' {
            Some(SqlState::AmbiguousCursorName)
        } else {
            None
        }
    } else if code[0] == '3' && code[1] == 'D' {
        if code[2] == '0' && code[3] == '0' && code[4] == '0' {
            Some(SqlState::InvalidCatalogName)
        } else {
            None
        }
    } else if code[0] == '3' && code[1] == 'F' {
        if code[2] == '0' && code[3] == '0' && code[4] == '0' {
            Some(SqlState::InvalidSchemaName)
        } else {
            None
        }
    } else if code[0] == '4' && code[1] == '0' {
        if code[2] == '0' && code[3] == '0' && code[4] == '0' {
            Some(SqlState::TransactionRollback)
        } else if code[2] == '0' && code[3] == '0' && code[4] == '1' {
            Some(SqlState::TransactionRollbackSerializationFailure)
        } else if code[2] == '0' && code[3] == '0' && code[4] == '2' {
            Some(SqlState::TransactionRollbackIntegrityConstraintViolation)
        } else if code[2] == '0' && code[3] == '0' && code[4] == '3' {
            Some(SqlState::TransactionRollbackStatementCompletionUnknown)
        } else if code[2] == '0' && code[3] == '0' && code[4] == '4' {
            Some(SqlState::TransactionRollbackTriggeredActionException)
        } else if code[2] == 'I' && code[3] == '0' && code[4] == '0' {
            Some(SqlState::TransactionRollbackDeadlock)
        } else {
            None
        }
    } else if code[0] == '4' && code[1] == '2' {
        if code[2] == '0' && code[3] == '0' && code[4] == '0' {
            Some(SqlState::SyntaxErrorOrAccessRuleViolation)
        } else {
            None
        }
    } else if code[0] == '4' && code[1] == '4' {
        if code[2] == '0' && code[3] == '0' && code[4] == '0' {
            Some(SqlState::WithCheckOptionViolation)
        } else {
            None
        }
    } else if code[0] == 'H' && code[1] == 'Z' {
        if code[2] == '?' && code[3] == '?' && code[4] == '?' {
            Some(SqlState::ReservedForISO9579)
        } else {
            None
        }
    } else if code[0] == 'I' && code[1] == 'O' {
        if code[2] == '0' && code[3] == '0' && code[4] == '0' {
            Some(SqlState::IoError)
        } else {
            None
        }
    } else if code[0] == 'N' && code[1] == 'M' {
        if code[2] == '0' && code[3] == '0' && code[4] == '0' {
            Some(SqlState::NameError)
        } else if code[2] == '0' && code[3] == '0' && code[4] == '1' {
            Some(SqlState::NameErrorNotFound)
        } else if code[2] == '0' && code[3] == '0' && code[4] == '2' {
            Some(SqlState::NameErrorAmbiguous)
        } else if code[2] == '0' && code[3] == '0' && code[4] == '3' {
            Some(SqlState::NameErrorDuplicate)
        } else if code[2] == '0' && code[3] == '0' && code[4] == '4' {
            Some(SqlState::NameErrorTooLong)
        } else {
            None
        }
    } else if code[0] == 'S' && code[1] == 'C' {
        if code[2] == '0' && code[3] == '0' && code[4] == '0' {
            Some(SqlState::DdlError)
        } else {
            None
        }
    } else if code[0] == 'S' && code[1] == 'Y' {
        if code[2] == '0' && code[3] == '0' && code[4] == '0' {
            Some(SqlState::SystemError)
        } else {
            None
        }
    } else {
        None
    }
}

/// Law: every SQLSTATE is 5 ASCII characters, its 2-character class followed by its 3-character
/// subclass, and its category follows its first 2 characters.
pub proof fn lemma_sqlstate_shape(s: SqlState)
    ensures
        s.spec_sqlstate().len() == 5,
        forall|i: int| 0 <= i < 5 ==> (#[trigger] s.spec_sqlstate()[i] as u32) < 128,
        s.spec_sqlstate().subrange(0, 2) == s.spec_detail().class,
        s.spec_category() == category_of_class(s.spec_sqlstate().subrange(0, 2)),
{
    let d = s.spec_detail();
    assert(d.class.len() == 2 && d.subclass.len() == 3);
    assert(s.spec_sqlstate().subrange(0, 2) =~= d.class);
    assert forall|i: int| 0 <= i < 5 implies (#[trigger] s.spec_sqlstate()[i] as u32) < 128 by {
        if i < 2 {
            assert(s.spec_sqlstate()[i] == d.class[i]);
        } else {
            assert(s.spec_sqlstate()[i] == d.subclass[i - 2]);
        }
        assert(forall|k: int| 0 <= k < 2 ==> (#[trigger] d.class[k] as u32) < 128);
        assert(forall|k: int| 0 <= k < 3 ==> (#[trigger] d.subclass[k] as u32) < 128);
    }
}

/// Each SQLSTATE is read back from its 5 characters.
pub proof fn lemma_sqlstate_code_decodes(s: SqlState)
    ensures
        sqlstate_of_code(s.spec_sqlstate()) == Some(s),
{
    let d = s.spec_detail();
    let code = s.spec_sqlstate();
    assert(code[0] == d.class[0] && code[1] == d.class[1]);
    assert(code[2] == d.subclass[0] && code[3] == d.subclass[1] && code[4] == d.subclass[2]);
    match s {
        SqlState::SuccessfulCompletion => {},
        SqlState::Warning => {},
        SqlState::WarningCursorOperationConflict => {},
        SqlState::WarningDisconnectError => {},
        SqlState::WarningNullValueEliminatedInSetFunction => {},
        SqlState::WarningStringDataRightTruncation => {},
        SqlState::WarningInsufficientItemDescriptorAreas => {},
        SqlState::WarningPrivilegeNotRevoked => {},
        SqlState::WarningPrivilegeNotGranted => {},
        SqlState::WarningSearchConditionTooLongForInformationSchema => {},
        SqlState::WarningQueryExpressionTooLongForInformationSchema => {},
        SqlState::WarningDefaultValueTooLongForInformationSchema => {},
        SqlState::WarningResultSetsReturned => {},
        SqlState::WarningAdditionalResultSetsReturned => {},
        SqlState::WarningAttemptToReturnTooManyResultSets => {},
        SqlState::WarningStatementTooLongForInformationSchema => {},
        SqlState::WarningInvalidNumberOfConditions => {},
        SqlState::WarningArrayDataRightTruncation => {},
        SqlState::NoData => {},
        SqlState::NoDataNoAdditionalResultSetsReturned => {},
        SqlState::DynamicSQLError => {},
        SqlState::DynamicSQLErrorUsingClauseDoesNotMatchDynamicParameterSpecifications => {},
        SqlState::DynamicSQLErrorUsingClauseDoesNotMatchTargetSpecifications => {},
        SqlState::DynamicSQLErrorCursorSpecificationCannotBeExecuted => {},
        SqlState::DynamicSQLErrorUsingClauseRequiredForDynamicParameters => {},
        SqlState::DynamicSQLErrorPreparedStatementNotACursorSpecification => {},
        SqlState::DynamicSQLErrorRestrictedDataTypeAttributeViolation => {},
        SqlState::DynamicSQLErrorUsingClauseRequiredForResultFields => {},
        SqlState::DynamicSQLErrorInvalidDescriptorCount => {},
        SqlState::DynamicSQLErrorInvalidDescriptorIndex => {},
        SqlState::DynamicSQLErrorDataTypeTransformFunctionViolation => {},
        SqlState::DynamicSQLErrorUndefinedDATAValue => {},
        SqlState::DynamicSQLErrorInvalidDATATarget => {},
        SqlState::DynamicSQLErrorInvalidLEVELValue => {},
        SqlState::DynamicSQLErrorInvalidDatetimeIntervalCode => {},
        SqlState::ConnectionException => {},
        SqlState::ConnectionExceptionSQLclientUnableToEstablishSQLconnection => {},
        SqlState::ConnectionExceptionConnectionNameInUse => {},
        SqlState::ConnectionExceptionConnectionDoesNotExist => {},
        SqlState::ConnectionExceptionSQLserverRejectedEstablishmentOfSQLconnection => {},
        SqlState::ConnectionExceptionConnectionFailure => {},
        SqlState::ConnectionExceptionTransactionResolutionUnknown => {},
        SqlState::TriggeredActionException => {},
        SqlState::FeatureNotSupported => {},
        SqlState::FeatureNotSupportedMultipleServerTransactions => {},
        SqlState::InvalidTargetTypeSpecification => {},
        SqlState::InvalidSchemaNameListSpecification => {},
        SqlState::LocatorException => {},
        SqlState::LocatorExceptionInvalidSpecification => {},
        SqlState::InvalidGrantor => {},
        SqlState::InvalidSQLinvokedProcedureReference => {},
        SqlState::InvalidRoleSpecification => {},
        SqlState::InvalidTransformGroupNameSpecification => {},
        SqlState::TargetTableDisagreesWithCursorSpecification => {},
        SqlState::AttemptToAssignToNonupdatableColumn => {},
        SqlState::AttemptToAssignToOrderingColumn => {},
        SqlState::ProhibitedStatementEncounteredDuringTriggerExecution => {},
        SqlState::ProhibitedStatementEncounteredDuringTriggerExecutionModifyTableModifiedByDataChangeDeltaTable => {},
        SqlState::DiagnosticsException => {},
        SqlState::DiagnosticsExceptionMaximumNumberOfStackedDiagnosticsAreasExceeded => {},
        SqlState::CardinalityViolation => {},
        SqlState::DataException => {},
        SqlState::DataExceptionStringDataRightTruncation => {},
        SqlState::DataExceptionNullValueNoIndicatorParameter => {},
        SqlState::DataExceptionNumericValueOutOfRange => {},
        SqlState::DataExceptionNullValueNotAllowed => {},
        SqlState::DataExceptionErrorInAssignment => {},
        SqlState::DataExceptionInvalidIntervalFormat => {},
        SqlState::DataExceptionInvalidDatetimeFormat => {},
        SqlState::DataExceptionDatetimeFieldOverflow => {},
        SqlState::DataExceptionInvalidTimeZoneDisplacementValue => {},
        SqlState::DataExceptionEscapeCharacterConflict => {},
        SqlState::DataExceptionInvalidUseOfEscapeCharacter => {},
        SqlState::DataExceptionInvalidEscapeOctet => {},
        SqlState::DataExceptionNullValueInArrayTarget => {},
        SqlState::DataExceptionZerolengthCharacterString => {},
        SqlState::DataExceptionMostSpecificTypeMismatch => {},
        SqlState::DataExceptionSequenceGeneratorLimitExceeded => {},
        SqlState::DataExceptionIntervalValueOutOfRange => {},
        SqlState::DataExceptionMultisetValueOverflow => {},
        SqlState::DataExceptionInvalidIndicatorParameterValue => {},
        SqlState::DataExceptionSubstringError => {},
        SqlState::DataExceptionDivisionByZero => {},
        SqlState::DataExceptionInvalidPrecedingOrFollowingSizeInWindowFunction => {},
        SqlState::DataExceptionInvalidArgumentForNTILEFunction => {},
        SqlState::DataExceptionIntervalFieldOverflow => {},
        SqlState::DataExceptionInvalidArgumentForNthValueFunction => {},
        SqlState::DataExceptionInvalidCharacterValueForCast => {},
        SqlState::DataExceptionInvalidEscapeCharacter => {},
        SqlState::DataExceptionInvalidRegularExpression => {},
        SqlState::DataExceptionNullRowNotPermittedInTable => {},
        SqlState::DataExceptionInvalidArgumentForNaturalLogarithm => {},
        SqlState::DataExceptionInvalidArgumentForPowerFunction => {},
        SqlState::DataExceptionInvalidArgumentForWidthBucketFunction => {},
        SqlState::DataExceptionInvalidRowVersion => {},
        SqlState::DataExceptionInvalidQueryRegularExpression => {},
        SqlState::DataExceptionInvalidQueryOptionFlag => {},
        SqlState::DataExceptionAttemptToReplaceAZerolengthString => {},
        SqlState::DataExceptionInvalidQueryReplacementString => {},
        SqlState::DataExceptionInvalidRowCountInFetchFirstClause => {},
        SqlState::DataExceptionInvalidRowCountInResultOffsetClause => {},
        SqlState::DataExceptionCharacterNotInRepertoire => {},
        SqlState::DataExceptionIndicatorOverflow => {},
        SqlState::DataExceptionInvalidParameterValue => {},
        SqlState::DataExceptionUnterminatedCString => {},
        SqlState::DataExceptionInvalidEscapeSequence => {},
        SqlState::DataExceptionStringDataLengthMismatch => {},
        SqlState::DataExceptionTrimError => {},
        SqlState::DataExceptionNoncharacterInUCSString => {},
        SqlState::DataExceptionNullValueSubstitutedForMutatorSubjectParameter => {},
        SqlState::DataExceptionArrayElementError => {},
        SqlState::DataExceptionArrayDataRightTruncation => {},
        SqlState::DataExceptionInvalidRepeatArgumentInASampleClause => {},
        SqlState::DataExceptionInvalidSampleSize => {},
        SqlState::DataExceptionIllegalConversion => {},
        SqlState::DataExceptionIllegalComparison => {},
        SqlState::DataExceptionIllegalOperation => {},
        SqlState::IntegrityConstraintViolation => {},
        SqlState::IntegrityConstraintViolationRestrictViolation => {},
        SqlState::IntegrityConstraintNotNullViolation => {},
        SqlState::IntegrityConstraintUniqueViolation => {},
        SqlState::InvalidCursorState => {},
        SqlState::InvalidTransactionState => {},
        SqlState::InvalidTransactionStateActiveSQLtransaction => {},
        SqlState::InvalidTransactionStateBranchTransactionAlreadyActive => {},
        SqlState::InvalidTransactionStateInappropriateAccessModeForBranchTransaction => {},
        SqlState::InvalidTransactionStateInappropriateIsolationLevelForBranchTransaction => {},
        SqlState::InvalidTransactionStateNoActiveSQLtransactionForBranchTransaction => {},
        SqlState::InvalidTransactionStateReadonlySQLtransaction => {},
        SqlState::InvalidTransactionStateSchemaAndDataStatementMixingNotSupported => {},
        SqlState::InvalidTransactionStateHeldCursorRequiresSameIsolationLevel => {},
        SqlState::InvalidSQLStatementName => {},
        SqlState::TriggeredDataChangeViolation => {},
        SqlState::TriggeredDataChangeViolationModifyTableModifiedByDataChangeDeltaTable => {},
        SqlState::InvalidAuthorizationSpecification => {},
        SqlState::DependentPrivilegeDescriptorsStillExist => {},
        SqlState::InvalidCharacterSetName => {},
        SqlState::InvalidTransactionTermination => {},
        SqlState::InvalidConnectionName => {},
        SqlState::SQLRoutineException => {},
        SqlState::SQLRoutineExceptionModifyingSQLdataNotPermitted => {},
        SqlState::SQLRoutineExceptionProhibitedSQLstatementAttempted => {},
        SqlState::SQLRoutineExceptionReadingSQLdataNotPermitted => {},
        SqlState::SQLRoutineExceptionFunctionExecutedNoReturnStatement => {},
        SqlState::InvalidCollationName => {},
        SqlState::InvalidSQLStatementIdentifier => {},
        SqlState::InvalidSQLDescriptorName => {},
        SqlState::InvalidCursorName => {},
        SqlState::InvalidConditionNumber => {},
        SqlState::CursorSensitivityException => {},
        SqlState::CursorSensitivityExceptionRequestRejected => {},
        SqlState::CursorSensitivityExceptionRequestFailed => {},
        SqlState::ExternalRoutineException => {},
        SqlState::ExternalRoutineExceptionContainingSQLNotPermitted => {},
        SqlState::ExternalRoutineExceptionModifyingSQLdataNotPermitted => {},
        SqlState::ExternalRoutineExceptionProhibitedSQLstatementAttempted => {},
        SqlState::ExternalRoutineExceptionReadingSQLdataNotPermitted => {},
        SqlState::ExternalRoutineInvocationException => {},
        SqlState::ExternalRoutineInvocationExceptionNullValueNotAllowed => {},
        SqlState::SavepointException => {},
        SqlState::SavepointExceptionInvalidSpecification => {},
        SqlState::SavepointExceptionTooMany => {},
        SqlState::AmbiguousCursorName => {},
        SqlState::InvalidCatalogName => {},
        SqlState::InvalidSchemaName => {},
        SqlState::TransactionRollback => {},
        SqlState::TransactionRollbackSerializationFailure => {},
        SqlState::TransactionRollbackIntegrityConstraintViolation => {},
        SqlState::TransactionRollbackStatementCompletionUnknown => {},
        SqlState::TransactionRollbackTriggeredActionException => {},
        SqlState::TransactionRollbackDeadlock => {},
        SqlState::SyntaxErrorOrAccessRuleViolation => {},
        SqlState::WithCheckOptionViolation => {},
        SqlState::ReservedForISO9579 => {},
        SqlState::IoError => {},
        SqlState::NameError => {},
        SqlState::NameErrorNotFound => {},
        SqlState::NameErrorAmbiguous => {},
        SqlState::NameErrorDuplicate => {},
        SqlState::NameErrorTooLong => {},
        SqlState::DdlError => {},
        SqlState::SystemError => {},
    }
}

/// Law: two different SQLSTATEs have different codes.
pub proof fn lemma_sqlstate_distinct(s1: SqlState, s2: SqlState)
    requires
        s1 != s2,
    ensures
        s1.spec_sqlstate() != s2.spec_sqlstate(),
{
    lemma_sqlstate_code_decodes(s1);
    lemma_sqlstate_code_decodes(s2);
}

} // verus!
