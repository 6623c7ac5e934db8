use crate::c_api::BoxError;
use crate::external::{io_error_text, utf8_error_text};
use crate::tlua::error::LuaError;
use vstd::prelude::*;
use vstd::std_specs::convert::FromSpecImpl;
use vstd::string::StringExecFns;

verus! {

/// What went wrong with a transaction.
#[derive(Debug, Clone, Copy, PartialEq, Eq, Structural)]
pub enum TransactionError {
    AlreadyStarted,
    FailedToCommit,
    FailedToRollback,
}

impl TransactionError {
    /// The text of this error.
    pub open spec fn message_spec(self) -> Seq<char> {
        match self {
            TransactionError::AlreadyStarted => "Transaction has already been started"@,
            TransactionError::FailedToCommit => "Failed to commit"@,
            TransactionError::FailedToRollback => "Failed to rollback"@,
        }
    }

    /// The text of this error, for a reader.
    pub fn message(&self) -> (s: String)
        ensures
            s@ == self.message_spec(),
    {
        match self {
            TransactionError::AlreadyStarted => String::from_str(
                "Transaction has already been started",
            ),
            TransactionError::FailedToCommit => String::from_str("Failed to commit"),
            TransactionError::FailedToRollback => String::from_str("Failed to rollback"),
        }
    }
}

/// Codes of the errors that the data store reports.
///
/// The variants are listed in the order of their numbers: the first is 0 and
/// each following variant is one more than the one before it. `code` gives the
/// number of a variant and `from_u32` finds the variant of a number.
#[derive(Debug, Clone, Copy, PartialEq, Eq, Structural)]
pub enum TarantoolErrorCode {
    Unknown,
    IllegalParams,
    MemoryIssue,
    TupleFound,
    TupleNotFound,
    Unsupported,
    NonMaster,
    Readonly,
    Injection,
    CreateSpace,
    SpaceExists,
    DropSpace,
    AlterSpace,
    IndexType,
    ModifyIndex,
    LastDrop,
    TupleFormatLimit,
    DropPrimaryKey,
    KeyPartType,
    ExactMatch,
    InvalidMsgpack,
    ProcRet,
    TupleNotArray,
    FieldType,
    IndexPartTypeMismatch,
    Splice,
    UpdateArgType,
    FormatMismatchIndexPart,
    UnknownUpdateOp,
    UpdateField,
    FunctionTxActive,
    KeyPartCount,
    ProcLua,
    NoSuchProc,
    NoSuchTrigger,
    NoSuchIndexID,
    NoSuchSpace,
    NoSuchFieldNo,
    ExactFieldCount,
    FieldMissing,
    WalIo,
    MoreThanOneTuple,
    AccessDenied,
    CreateUser,
    DropUser,
    NoSuchUser,
    UserExists,
    PasswordMismatch,
    UnknownRequestType,
    UnknownSchemaObject,
    CreateFunction,
    NoSuchFunction,
    FunctionExists,
    BeforeReplaceRet,
    MultistatementTransaction,
    TriggerExists,
    UserMax,
    NoSuchEngine,
    ReloadCfg,
    Cfg,
    SavepointEmptyTx,
    NoSuchSavepoint,
    UnknownReplica,
    ReplicasetUuidMismatch,
    InvalidUuid,
    ReplicasetUuidIsRo,
    InstanceUuidMismatch,
    ReplicaIDIsReserved,
    InvalidOrder,
    MissingRequestField,
    Identifier,
    DropFunction,
    IteratorType,
    ReplicaMax,
    InvalidXlog,
    InvalidXlogName,
    InvalidXlogOrder,
    NoConnection,
    Timeout,
    ActiveTransaction,
    CursorNoTransaction,
    CrossEngineTransaction,
    NoSuchRole,
    RoleExists,
    CreateRole,
    IndexExists,
    SessionClosed,
    RoleLoop,
    Grant,
    PrivGranted,
    RoleGranted,
    PrivNotGranted,
    RoleNotGranted,
    MissingSnapshot,
    CantUpdatePrimaryKey,
    UpdateIntegerOverflow,
    GuestUserPassword,
    TransactionConflict,
    UnsupportedPriv,
    LoadFunction,
    FunctionLanguage,
    RtreeRect,
    ProcC,
    UnknownRtreeIndexDistanceType,
    Protocol,
    UpsertUniqueSecondaryKey,
    WrongIndexRecord,
    WrongIndexParts,
    WrongIndexOptions,
    WrongSchemaVersion,
    MemtxMaxTupleSize,
    WrongSpaceOptions,
    UnsupportedIndexFeature,
    ViewIsRo,
    NoTransaction,
    System,
    Loading,
    ConnectionToSelf,
    KeyPartIsTooLong,
    Compression,
    CheckpointInProgress,
    SubStmtMax,
    CommitInSubStmt,
    RollbackInSubStmt,
    Decompression,
    InvalidXlogType,
    AlreadyRunning,
    IndexFieldCountLimit,
    LocalInstanceIDIsReadOnly,
    BackupInProgress,
    ReadViewAborted,
    InvalidIndexFile,
    InvalidRunFile,
    InvalidVylogFile,
    CheckpointRollback,
    VyQuotaTimeout,
    PartialKey,
    TruncateSystemSpace,
    LoadModule,
    VinylMaxTupleSize,
    WrongDdVersion,
    WrongSpaceFormat,
    CreateSequence,
    AlterSequence,
    DropSequence,
    NoSuchSequence,
    SequenceExists,
    SequenceOverflow,
    NoSuchIndexName,
    SpaceFieldIsDuplicate,
    CantCreateCollation,
    WrongCollationOptions,
    NullablePrimary,
    NoSuchFieldName,
    TransactionYield,
    NoSuchGroup,
    SqlBindValue,
    SqlBindType,
    SqlBindParameterMax,
    SqlExecute,
    Unused,
    SqlBindNotFound,
    ActionMismatch,
    ViewMissingSql,
    ForeignKeyConstraint,
    NoSuchModule,
    NoSuchCollation,
    CreateFkConstraint,
    DropFkConstraint,
    NoSuchConstraint,
    ConstraintExists,
    SqlTypeMismatch,
    RowidOverflow,
    DropCollation,
    IllegalCollationMix,
    SqlNoSuchPragma,
    SqlCantResolveField,
    IndexExistsInSpace,
    InconsistentTypes,
    SqlSyntax,
    SqlStackOverflow,
    SqlSelectWildcard,
    SqlStatementEmpty,
    SqlKeywordIsReserved,
    SqlUnrecognizedSyntax,
    SqlUnknownToken,
    SqlParserGeneric,
    SqlAnalyzeArgument,
    SqlColumnCountMax,
    HexLiteralMax,
    IntLiteralMax,
    SqlParserLimit,
    IndexDefUnsupported,
    CkDefUnsupported,
    MultikeyIndexMismatch,
    CreateCkConstraint,
    CkConstraintFailed,
    SqlColumnCount,
    FuncIndexFunc,
    FuncIndexFormat,
    FuncIndexParts,
    BootstrapReadonly,
}

/// One more than the largest number that stands for an error code.
pub const ERROR_CODE_COUNT: u32 = 202;

impl TarantoolErrorCode {
    /// The number of this code.
    pub open spec fn code(self) -> u32 {
        match self {
            TarantoolErrorCode::Unknown => 0u32,
            TarantoolErrorCode::IllegalParams => 1u32,
            TarantoolErrorCode::MemoryIssue => 2u32,
            TarantoolErrorCode::TupleFound => 3u32,
            TarantoolErrorCode::TupleNotFound => 4u32,
            TarantoolErrorCode::Unsupported => 5u32,
            TarantoolErrorCode::NonMaster => 6u32,
            TarantoolErrorCode::Readonly => 7u32,
            TarantoolErrorCode::Injection => 8u32,
            TarantoolErrorCode::CreateSpace => 9u32,
            TarantoolErrorCode::SpaceExists => 10u32,
            TarantoolErrorCode::DropSpace => 11u32,
            TarantoolErrorCode::AlterSpace => 12u32,
            TarantoolErrorCode::IndexType => 13u32,
            TarantoolErrorCode::ModifyIndex => 14u32,
            TarantoolErrorCode::LastDrop => 15u32,
            TarantoolErrorCode::TupleFormatLimit => 16u32,
            TarantoolErrorCode::DropPrimaryKey => 17u32,
            TarantoolErrorCode::KeyPartType => 18u32,
            TarantoolErrorCode::ExactMatch => 19u32,
            TarantoolErrorCode::InvalidMsgpack => 20u32,
            TarantoolErrorCode::ProcRet => 21u32,
            TarantoolErrorCode::TupleNotArray => 22u32,
            TarantoolErrorCode::FieldType => 23u32,
            TarantoolErrorCode::IndexPartTypeMismatch => 24u32,
            TarantoolErrorCode::Splice => 25u32,
            TarantoolErrorCode::UpdateArgType => 26u32,
            TarantoolErrorCode::FormatMismatchIndexPart => 27u32,
            TarantoolErrorCode::UnknownUpdateOp => 28u32,
            TarantoolErrorCode::UpdateField => 29u32,
            TarantoolErrorCode::FunctionTxActive => 30u32,
            TarantoolErrorCode::KeyPartCount => 31u32,
            TarantoolErrorCode::ProcLua => 32u32,
            TarantoolErrorCode::NoSuchProc => 33u32,
            TarantoolErrorCode::NoSuchTrigger => 34u32,
            TarantoolErrorCode::NoSuchIndexID => 35u32,
            TarantoolErrorCode::NoSuchSpace => 36u32,
            TarantoolErrorCode::NoSuchFieldNo => 37u32,
            TarantoolErrorCode::ExactFieldCount => 38u32,
            TarantoolErrorCode::FieldMissing => 39u32,
            TarantoolErrorCode::WalIo => 40u32,
            TarantoolErrorCode::MoreThanOneTuple => 41u32,
            TarantoolErrorCode::AccessDenied => 42u32,
            TarantoolErrorCode::CreateUser => 43u32,
            TarantoolErrorCode::DropUser => 44u32,
            TarantoolErrorCode::NoSuchUser => 45u32,
            TarantoolErrorCode::UserExists => 46u32,
            TarantoolErrorCode::PasswordMismatch => 47u32,
            TarantoolErrorCode::UnknownRequestType => 48u32,
            TarantoolErrorCode::UnknownSchemaObject => 49u32,
            TarantoolErrorCode::CreateFunction => 50u32,
            TarantoolErrorCode::NoSuchFunction => 51u32,
            TarantoolErrorCode::FunctionExists => 52u32,
            TarantoolErrorCode::BeforeReplaceRet => 53u32,
            TarantoolErrorCode::MultistatementTransaction => 54u32,
            TarantoolErrorCode::TriggerExists => 55u32,
            TarantoolErrorCode::UserMax => 56u32,
            TarantoolErrorCode::NoSuchEngine => 57u32,
            TarantoolErrorCode::ReloadCfg => 58u32,
            TarantoolErrorCode::Cfg => 59u32,
            TarantoolErrorCode::SavepointEmptyTx => 60u32,
            TarantoolErrorCode::NoSuchSavepoint => 61u32,
            TarantoolErrorCode::UnknownReplica => 62u32,
            TarantoolErrorCode::ReplicasetUuidMismatch => 63u32,
            TarantoolErrorCode::InvalidUuid => 64u32,
            TarantoolErrorCode::ReplicasetUuidIsRo => 65u32,
            TarantoolErrorCode::InstanceUuidMismatch => 66u32,
            TarantoolErrorCode::ReplicaIDIsReserved => 67u32,
            TarantoolErrorCode::InvalidOrder => 68u32,
            TarantoolErrorCode::MissingRequestField => 69u32,
            TarantoolErrorCode::Identifier => 70u32,
            TarantoolErrorCode::DropFunction => 71u32,
            TarantoolErrorCode::IteratorType => 72u32,
            TarantoolErrorCode::ReplicaMax => 73u32,
            TarantoolErrorCode::InvalidXlog => 74u32,
            TarantoolErrorCode::InvalidXlogName => 75u32,
            TarantoolErrorCode::InvalidXlogOrder => 76u32,
            TarantoolErrorCode::NoConnection => 77u32,
            TarantoolErrorCode::Timeout => 78u32,
            TarantoolErrorCode::ActiveTransaction => 79u32,
            TarantoolErrorCode::CursorNoTransaction => 80u32,
            TarantoolErrorCode::CrossEngineTransaction => 81u32,
            TarantoolErrorCode::NoSuchRole => 82u32,
            TarantoolErrorCode::RoleExists => 83u32,
            TarantoolErrorCode::CreateRole => 84u32,
            TarantoolErrorCode::IndexExists => 85u32,
            TarantoolErrorCode::SessionClosed => 86u32,
            TarantoolErrorCode::RoleLoop => 87u32,
            TarantoolErrorCode::Grant => 88u32,
            TarantoolErrorCode::PrivGranted => 89u32,
            TarantoolErrorCode::RoleGranted => 90u32,
            TarantoolErrorCode::PrivNotGranted => 91u32,
            TarantoolErrorCode::RoleNotGranted => 92u32,
            TarantoolErrorCode::MissingSnapshot => 93u32,
            TarantoolErrorCode::CantUpdatePrimaryKey => 94u32,
            TarantoolErrorCode::UpdateIntegerOverflow => 95u32,
            TarantoolErrorCode::GuestUserPassword => 96u32,
            TarantoolErrorCode::TransactionConflict => 97u32,
            TarantoolErrorCode::UnsupportedPriv => 98u32,
            TarantoolErrorCode::LoadFunction => 99u32,
            TarantoolErrorCode::FunctionLanguage => 100u32,
            TarantoolErrorCode::RtreeRect => 101u32,
            TarantoolErrorCode::ProcC => 102u32,
            TarantoolErrorCode::UnknownRtreeIndexDistanceType => 103u32,
            TarantoolErrorCode::Protocol => 104u32,
            TarantoolErrorCode::UpsertUniqueSecondaryKey => 105u32,
            TarantoolErrorCode::WrongIndexRecord => 106u32,
            TarantoolErrorCode::WrongIndexParts => 107u32,
            TarantoolErrorCode::WrongIndexOptions => 108u32,
            TarantoolErrorCode::WrongSchemaVersion => 109u32,
            TarantoolErrorCode::MemtxMaxTupleSize => 110u32,
            TarantoolErrorCode::WrongSpaceOptions => 111u32,
            TarantoolErrorCode::UnsupportedIndexFeature => 112u32,
            TarantoolErrorCode::ViewIsRo => 113u32,
            TarantoolErrorCode::NoTransaction => 114u32,
            TarantoolErrorCode::System => 115u32,
            TarantoolErrorCode::Loading => 116u32,
            TarantoolErrorCode::ConnectionToSelf => 117u32,
            TarantoolErrorCode::KeyPartIsTooLong => 118u32,
            TarantoolErrorCode::Compression => 119u32,
            TarantoolErrorCode::CheckpointInProgress => 120u32,
            TarantoolErrorCode::SubStmtMax => 121u32,
            TarantoolErrorCode::CommitInSubStmt => 122u32,
            TarantoolErrorCode::RollbackInSubStmt => 123u32,
            TarantoolErrorCode::Decompression => 124u32,
            TarantoolErrorCode::InvalidXlogType => 125u32,
            TarantoolErrorCode::AlreadyRunning => 126u32,
            TarantoolErrorCode::IndexFieldCountLimit => 127u32,
            TarantoolErrorCode::LocalInstanceIDIsReadOnly => 128u32,
            TarantoolErrorCode::BackupInProgress => 129u32,
            TarantoolErrorCode::ReadViewAborted => 130u32,
            TarantoolErrorCode::InvalidIndexFile => 131u32,
            TarantoolErrorCode::InvalidRunFile => 132u32,
            TarantoolErrorCode::InvalidVylogFile => 133u32,
            TarantoolErrorCode::CheckpointRollback => 134u32,
            TarantoolErrorCode::VyQuotaTimeout => 135u32,
            TarantoolErrorCode::PartialKey => 136u32,
            TarantoolErrorCode::TruncateSystemSpace => 137u32,
            TarantoolErrorCode::LoadModule => 138u32,
            TarantoolErrorCode::VinylMaxTupleSize => 139u32,
            TarantoolErrorCode::WrongDdVersion => 140u32,
            TarantoolErrorCode::WrongSpaceFormat => 141u32,
            TarantoolErrorCode::CreateSequence => 142u32,
            TarantoolErrorCode::AlterSequence => 143u32,
            TarantoolErrorCode::DropSequence => 144u32,
            TarantoolErrorCode::NoSuchSequence => 145u32,
            TarantoolErrorCode::SequenceExists => 146u32,
            TarantoolErrorCode::SequenceOverflow => 147u32,
            TarantoolErrorCode::NoSuchIndexName => 148u32,
            TarantoolErrorCode::SpaceFieldIsDuplicate => 149u32,
            TarantoolErrorCode::CantCreateCollation => 150u32,
            TarantoolErrorCode::WrongCollationOptions => 151u32,
            TarantoolErrorCode::NullablePrimary => 152u32,
            TarantoolErrorCode::NoSuchFieldName => 153u32,
            TarantoolErrorCode::TransactionYield => 154u32,
            TarantoolErrorCode::NoSuchGroup => 155u32,
            TarantoolErrorCode::SqlBindValue => 156u32,
            TarantoolErrorCode::SqlBindType => 157u32,
            TarantoolErrorCode::SqlBindParameterMax => 158u32,
            TarantoolErrorCode::SqlExecute => 159u32,
            TarantoolErrorCode::Unused => 160u32,
            TarantoolErrorCode::SqlBindNotFound => 161u32,
            TarantoolErrorCode::ActionMismatch => 162u32,
            TarantoolErrorCode::ViewMissingSql => 163u32,
            TarantoolErrorCode::ForeignKeyConstraint => 164u32,
            TarantoolErrorCode::NoSuchModule => 165u32,
            TarantoolErrorCode::NoSuchCollation => 166u32,
            TarantoolErrorCode::CreateFkConstraint => 167u32,
            TarantoolErrorCode::DropFkConstraint => 168u32,
            TarantoolErrorCode::NoSuchConstraint => 169u32,
            TarantoolErrorCode::ConstraintExists => 170u32,
            TarantoolErrorCode::SqlTypeMismatch => 171u32,
            TarantoolErrorCode::RowidOverflow => 172u32,
            TarantoolErrorCode::DropCollation => 173u32,
            TarantoolErrorCode::IllegalCollationMix => 174u32,
            TarantoolErrorCode::SqlNoSuchPragma => 175u32,
            TarantoolErrorCode::SqlCantResolveField => 176u32,
            TarantoolErrorCode::IndexExistsInSpace => 177u32,
            TarantoolErrorCode::InconsistentTypes => 178u32,
            TarantoolErrorCode::SqlSyntax => 179u32,
            TarantoolErrorCode::SqlStackOverflow => 180u32,
            TarantoolErrorCode::SqlSelectWildcard => 181u32,
            TarantoolErrorCode::SqlStatementEmpty => 182u32,
            TarantoolErrorCode::SqlKeywordIsReserved => 183u32,
            TarantoolErrorCode::SqlUnrecognizedSyntax => 184u32,
            TarantoolErrorCode::SqlUnknownToken => 185u32,
            TarantoolErrorCode::SqlParserGeneric => 186u32,
            TarantoolErrorCode::SqlAnalyzeArgument => 187u32,
            TarantoolErrorCode::SqlColumnCountMax => 188u32,
            TarantoolErrorCode::HexLiteralMax => 189u32,
            TarantoolErrorCode::IntLiteralMax => 190u32,
            TarantoolErrorCode::SqlParserLimit => 191u32,
            TarantoolErrorCode::IndexDefUnsupported => 192u32,
            TarantoolErrorCode::CkDefUnsupported => 193u32,
            TarantoolErrorCode::MultikeyIndexMismatch => 194u32,
            TarantoolErrorCode::CreateCkConstraint => 195u32,
            TarantoolErrorCode::CkConstraintFailed => 196u32,
            TarantoolErrorCode::SqlColumnCount => 197u32,
            TarantoolErrorCode::FuncIndexFunc => 198u32,
            TarantoolErrorCode::FuncIndexFormat => 199u32,
            TarantoolErrorCode::FuncIndexParts => 200u32,
            TarantoolErrorCode::BootstrapReadonly => 201u32,
        }
    }

    /// The number of this code, as it goes over the wire.
    pub fn to_u32(&self) -> (n: u32)
        ensures
            n == self.code(),
            n < ERROR_CODE_COUNT,
    {
        match self {
            TarantoolErrorCode::Unknown => 0u32,
            TarantoolErrorCode::IllegalParams => 1u32,
            TarantoolErrorCode::MemoryIssue => 2u32,
            TarantoolErrorCode::TupleFound => 3u32,
            TarantoolErrorCode::TupleNotFound => 4u32,
            TarantoolErrorCode::Unsupported => 5u32,
            TarantoolErrorCode::NonMaster => 6u32,
            TarantoolErrorCode::Readonly => 7u32,
            TarantoolErrorCode::Injection => 8u32,
            TarantoolErrorCode::CreateSpace => 9u32,
            TarantoolErrorCode::SpaceExists => 10u32,
            TarantoolErrorCode::DropSpace => 11u32,
            TarantoolErrorCode::AlterSpace => 12u32,
            TarantoolErrorCode::IndexType => 13u32,
            TarantoolErrorCode::ModifyIndex => 14u32,
            TarantoolErrorCode::LastDrop => 15u32,
            TarantoolErrorCode::TupleFormatLimit => 16u32,
            TarantoolErrorCode::DropPrimaryKey => 17u32,
            TarantoolErrorCode::KeyPartType => 18u32,
            TarantoolErrorCode::ExactMatch => 19u32,
            TarantoolErrorCode::InvalidMsgpack => 20u32,
            TarantoolErrorCode::ProcRet => 21u32,
            TarantoolErrorCode::TupleNotArray => 22u32,
            TarantoolErrorCode::FieldType => 23u32,
            TarantoolErrorCode::IndexPartTypeMismatch => 24u32,
            TarantoolErrorCode::Splice => 25u32,
            TarantoolErrorCode::UpdateArgType => 26u32,
            TarantoolErrorCode::FormatMismatchIndexPart => 27u32,
            TarantoolErrorCode::UnknownUpdateOp => 28u32,
            TarantoolErrorCode::UpdateField => 29u32,
            TarantoolErrorCode::FunctionTxActive => 30u32,
            TarantoolErrorCode::KeyPartCount => 31u32,
            TarantoolErrorCode::ProcLua => 32u32,
            TarantoolErrorCode::NoSuchProc => 33u32,
            TarantoolErrorCode::NoSuchTrigger => 34u32,
            TarantoolErrorCode::NoSuchIndexID => 35u32,
            TarantoolErrorCode::NoSuchSpace => 36u32,
            TarantoolErrorCode::NoSuchFieldNo => 37u32,
            TarantoolErrorCode::ExactFieldCount => 38u32,
            TarantoolErrorCode::FieldMissing => 39u32,
            TarantoolErrorCode::WalIo => 40u32,
            TarantoolErrorCode::MoreThanOneTuple => 41u32,
            TarantoolErrorCode::AccessDenied => 42u32,
            TarantoolErrorCode::CreateUser => 43u32,
            TarantoolErrorCode::DropUser => 44u32,
            TarantoolErrorCode::NoSuchUser => 45u32,
            TarantoolErrorCode::UserExists => 46u32,
            TarantoolErrorCode::PasswordMismatch => 47u32,
            TarantoolErrorCode::UnknownRequestType => 48u32,
            TarantoolErrorCode::UnknownSchemaObject => 49u32,
            TarantoolErrorCode::CreateFunction => 50u32,
            TarantoolErrorCode::NoSuchFunction => 51u32,
            TarantoolErrorCode::FunctionExists => 52u32,
            TarantoolErrorCode::BeforeReplaceRet => 53u32,
            TarantoolErrorCode::MultistatementTransaction => 54u32,
            TarantoolErrorCode::TriggerExists => 55u32,
            TarantoolErrorCode::UserMax => 56u32,
            TarantoolErrorCode::NoSuchEngine => 57u32,
            TarantoolErrorCode::ReloadCfg => 58u32,
            TarantoolErrorCode::Cfg => 59u32,
            TarantoolErrorCode::SavepointEmptyTx => 60u32,
            TarantoolErrorCode::NoSuchSavepoint => 61u32,
            TarantoolErrorCode::UnknownReplica => 62u32,
            TarantoolErrorCode::ReplicasetUuidMismatch => 63u32,
            TarantoolErrorCode::InvalidUuid => 64u32,
            TarantoolErrorCode::ReplicasetUuidIsRo => 65u32,
            TarantoolErrorCode::InstanceUuidMismatch => 66u32,
            TarantoolErrorCode::ReplicaIDIsReserved => 67u32,
            TarantoolErrorCode::InvalidOrder => 68u32,
            TarantoolErrorCode::MissingRequestField => 69u32,
            TarantoolErrorCode::Identifier => 70u32,
            TarantoolErrorCode::DropFunction => 71u32,
            TarantoolErrorCode::IteratorType => 72u32,
            TarantoolErrorCode::ReplicaMax => 73u32,
            TarantoolErrorCode::InvalidXlog => 74u32,
            TarantoolErrorCode::InvalidXlogName => 75u32,
            TarantoolErrorCode::InvalidXlogOrder => 76u32,
            TarantoolErrorCode::NoConnection => 77u32,
            TarantoolErrorCode::Timeout => 78u32,
            TarantoolErrorCode::ActiveTransaction => 79u32,
            TarantoolErrorCode::CursorNoTransaction => 80u32,
            TarantoolErrorCode::CrossEngineTransaction => 81u32,
            TarantoolErrorCode::NoSuchRole => 82u32,
            TarantoolErrorCode::RoleExists => 83u32,
            TarantoolErrorCode::CreateRole => 84u32,
            TarantoolErrorCode::IndexExists => 85u32,
            TarantoolErrorCode::SessionClosed => 86u32,
            TarantoolErrorCode::RoleLoop => 87u32,
            TarantoolErrorCode::Grant => 88u32,
            TarantoolErrorCode::PrivGranted => 89u32,
            TarantoolErrorCode::RoleGranted => 90u32,
            TarantoolErrorCode::PrivNotGranted => 91u32,
            TarantoolErrorCode::RoleNotGranted => 92u32,
            TarantoolErrorCode::MissingSnapshot => 93u32,
            TarantoolErrorCode::CantUpdatePrimaryKey => 94u32,
            TarantoolErrorCode::UpdateIntegerOverflow => 95u32,
            TarantoolErrorCode::GuestUserPassword => 96u32,
            TarantoolErrorCode::TransactionConflict => 97u32,
            TarantoolErrorCode::UnsupportedPriv => 98u32,
            TarantoolErrorCode::LoadFunction => 99u32,
            TarantoolErrorCode::FunctionLanguage => 100u32,
            TarantoolErrorCode::RtreeRect => 101u32,
            TarantoolErrorCode::ProcC => 102u32,
            TarantoolErrorCode::UnknownRtreeIndexDistanceType => 103u32,
            TarantoolErrorCode::Protocol => 104u32,
            TarantoolErrorCode::UpsertUniqueSecondaryKey => 105u32,
            TarantoolErrorCode::WrongIndexRecord => 106u32,
            TarantoolErrorCode::WrongIndexParts => 107u32,
            TarantoolErrorCode::WrongIndexOptions => 108u32,
            TarantoolErrorCode::WrongSchemaVersion => 109u32,
            TarantoolErrorCode::MemtxMaxTupleSize => 110u32,
            TarantoolErrorCode::WrongSpaceOptions => 111u32,
            TarantoolErrorCode::UnsupportedIndexFeature => 112u32,
            TarantoolErrorCode::ViewIsRo => 113u32,
            TarantoolErrorCode::NoTransaction => 114u32,
            TarantoolErrorCode::System => 115u32,
            TarantoolErrorCode::Loading => 116u32,
            TarantoolErrorCode::ConnectionToSelf => 117u32,
            TarantoolErrorCode::KeyPartIsTooLong => 118u32,
            TarantoolErrorCode::Compression => 119u32,
            TarantoolErrorCode::CheckpointInProgress => 120u32,
            TarantoolErrorCode::SubStmtMax => 121u32,
            TarantoolErrorCode::CommitInSubStmt => 122u32,
            TarantoolErrorCode::RollbackInSubStmt => 123u32,
            TarantoolErrorCode::Decompression => 124u32,
            TarantoolErrorCode::InvalidXlogType => 125u32,
            TarantoolErrorCode::AlreadyRunning => 126u32,
            TarantoolErrorCode::IndexFieldCountLimit => 127u32,
            TarantoolErrorCode::LocalInstanceIDIsReadOnly => 128u32,
            TarantoolErrorCode::BackupInProgress => 129u32,
            TarantoolErrorCode::ReadViewAborted => 130u32,
            TarantoolErrorCode::InvalidIndexFile => 131u32,
            TarantoolErrorCode::InvalidRunFile => 132u32,
            TarantoolErrorCode::InvalidVylogFile => 133u32,
            TarantoolErrorCode::CheckpointRollback => 134u32,
            TarantoolErrorCode::VyQuotaTimeout => 135u32,
            TarantoolErrorCode::PartialKey => 136u32,
            TarantoolErrorCode::TruncateSystemSpace => 137u32,
            TarantoolErrorCode::LoadModule => 138u32,
            TarantoolErrorCode::VinylMaxTupleSize => 139u32,
            TarantoolErrorCode::WrongDdVersion => 140u32,
            TarantoolErrorCode::WrongSpaceFormat => 141u32,
            TarantoolErrorCode::CreateSequence => 142u32,
            TarantoolErrorCode::AlterSequence => 143u32,
            TarantoolErrorCode::DropSequence => 144u32,
            TarantoolErrorCode::NoSuchSequence => 145u32,
            TarantoolErrorCode::SequenceExists => 146u32,
            TarantoolErrorCode::SequenceOverflow => 147u32,
            TarantoolErrorCode::NoSuchIndexName => 148u32,
            TarantoolErrorCode::SpaceFieldIsDuplicate => 149u32,
            TarantoolErrorCode::CantCreateCollation => 150u32,
            TarantoolErrorCode::WrongCollationOptions => 151u32,
            TarantoolErrorCode::NullablePrimary => 152u32,
            TarantoolErrorCode::NoSuchFieldName => 153u32,
            TarantoolErrorCode::TransactionYield => 154u32,
            TarantoolErrorCode::NoSuchGroup => 155u32,
            TarantoolErrorCode::SqlBindValue => 156u32,
            TarantoolErrorCode::SqlBindType => 157u32,
            TarantoolErrorCode::SqlBindParameterMax => 158u32,
            TarantoolErrorCode::SqlExecute => 159u32,
            TarantoolErrorCode::Unused => 160u32,
            TarantoolErrorCode::SqlBindNotFound => 161u32,
            TarantoolErrorCode::ActionMismatch => 162u32,
            TarantoolErrorCode::ViewMissingSql => 163u32,
            TarantoolErrorCode::ForeignKeyConstraint => 164u32,
            TarantoolErrorCode::NoSuchModule => 165u32,
            TarantoolErrorCode::NoSuchCollation => 166u32,
            TarantoolErrorCode::CreateFkConstraint => 167u32,
            TarantoolErrorCode::DropFkConstraint => 168u32,
            TarantoolErrorCode::NoSuchConstraint => 169u32,
            TarantoolErrorCode::ConstraintExists => 170u32,
            TarantoolErrorCode::SqlTypeMismatch => 171u32,
            TarantoolErrorCode::RowidOverflow => 172u32,
            TarantoolErrorCode::DropCollation => 173u32,
            TarantoolErrorCode::IllegalCollationMix => 174u32,
            TarantoolErrorCode::SqlNoSuchPragma => 175u32,
            TarantoolErrorCode::SqlCantResolveField => 176u32,
            TarantoolErrorCode::IndexExistsInSpace => 177u32,
            TarantoolErrorCode::InconsistentTypes => 178u32,
            TarantoolErrorCode::SqlSyntax => 179u32,
            TarantoolErrorCode::SqlStackOverflow => 180u32,
            TarantoolErrorCode::SqlSelectWildcard => 181u32,
            TarantoolErrorCode::SqlStatementEmpty => 182u32,
            TarantoolErrorCode::SqlKeywordIsReserved => 183u32,
            TarantoolErrorCode::SqlUnrecognizedSyntax => 184u32,
            TarantoolErrorCode::SqlUnknownToken => 185u32,
            TarantoolErrorCode::SqlParserGeneric => 186u32,
            TarantoolErrorCode::SqlAnalyzeArgument => 187u32,
            TarantoolErrorCode::SqlColumnCountMax => 188u32,
            TarantoolErrorCode::HexLiteralMax => 189u32,
            TarantoolErrorCode::IntLiteralMax => 190u32,
            TarantoolErrorCode::SqlParserLimit => 191u32,
            TarantoolErrorCode::IndexDefUnsupported => 192u32,
            TarantoolErrorCode::CkDefUnsupported => 193u32,
            TarantoolErrorCode::MultikeyIndexMismatch => 194u32,
            TarantoolErrorCode::CreateCkConstraint => 195u32,
            TarantoolErrorCode::CkConstraintFailed => 196u32,
            TarantoolErrorCode::SqlColumnCount => 197u32,
            TarantoolErrorCode::FuncIndexFunc => 198u32,
            TarantoolErrorCode::FuncIndexFormat => 199u32,
            TarantoolErrorCode::FuncIndexParts => 200u32,
            TarantoolErrorCode::BootstrapReadonly => 201u32,
        }
    }

    /// The name of this code.
    pub open spec fn name_spec(self) -> Seq<char> {
        match self {
            TarantoolErrorCode::Unknown => "Unknown"@,
            TarantoolErrorCode::IllegalParams => "IllegalParams"@,
            TarantoolErrorCode::MemoryIssue => "MemoryIssue"@,
            TarantoolErrorCode::TupleFound => "TupleFound"@,
            TarantoolErrorCode::TupleNotFound => "TupleNotFound"@,
            TarantoolErrorCode::Unsupported => "Unsupported"@,
            TarantoolErrorCode::NonMaster => "NonMaster"@,
            TarantoolErrorCode::Readonly => "Readonly"@,
            TarantoolErrorCode::Injection => "Injection"@,
            TarantoolErrorCode::CreateSpace => "CreateSpace"@,
            TarantoolErrorCode::SpaceExists => "SpaceExists"@,
            TarantoolErrorCode::DropSpace => "DropSpace"@,
            TarantoolErrorCode::AlterSpace => "AlterSpace"@,
            TarantoolErrorCode::IndexType => "IndexType"@,
            TarantoolErrorCode::ModifyIndex => "ModifyIndex"@,
            TarantoolErrorCode::LastDrop => "LastDrop"@,
            TarantoolErrorCode::TupleFormatLimit => "TupleFormatLimit"@,
            TarantoolErrorCode::DropPrimaryKey => "DropPrimaryKey"@,
            TarantoolErrorCode::KeyPartType => "KeyPartType"@,
            TarantoolErrorCode::ExactMatch => "ExactMatch"@,
            TarantoolErrorCode::InvalidMsgpack => "InvalidMsgpack"@,
            TarantoolErrorCode::ProcRet => "ProcRet"@,
            TarantoolErrorCode::TupleNotArray => "TupleNotArray"@,
            TarantoolErrorCode::FieldType => "FieldType"@,
            TarantoolErrorCode::IndexPartTypeMismatch => "IndexPartTypeMismatch"@,
            TarantoolErrorCode::Splice => "Splice"@,
            TarantoolErrorCode::UpdateArgType => "UpdateArgType"@,
            TarantoolErrorCode::FormatMismatchIndexPart => "FormatMismatchIndexPart"@,
            TarantoolErrorCode::UnknownUpdateOp => "UnknownUpdateOp"@,
            TarantoolErrorCode::UpdateField => "UpdateField"@,
            TarantoolErrorCode::FunctionTxActive => "FunctionTxActive"@,
            TarantoolErrorCode::KeyPartCount => "KeyPartCount"@,
            TarantoolErrorCode::ProcLua => "ProcLua"@,
            TarantoolErrorCode::NoSuchProc => "NoSuchProc"@,
            TarantoolErrorCode::NoSuchTrigger => "NoSuchTrigger"@,
            TarantoolErrorCode::NoSuchIndexID => "NoSuchIndexID"@,
            TarantoolErrorCode::NoSuchSpace => "NoSuchSpace"@,
            TarantoolErrorCode::NoSuchFieldNo => "NoSuchFieldNo"@,
            TarantoolErrorCode::ExactFieldCount => "ExactFieldCount"@,
            TarantoolErrorCode::FieldMissing => "FieldMissing"@,
            TarantoolErrorCode::WalIo => "WalIo"@,
            TarantoolErrorCode::MoreThanOneTuple => "MoreThanOneTuple"@,
            TarantoolErrorCode::AccessDenied => "AccessDenied"@,
            TarantoolErrorCode::CreateUser => "CreateUser"@,
            TarantoolErrorCode::DropUser => "DropUser"@,
            TarantoolErrorCode::NoSuchUser => "NoSuchUser"@,
            TarantoolErrorCode::UserExists => "UserExists"@,
            TarantoolErrorCode::PasswordMismatch => "PasswordMismatch"@,
            TarantoolErrorCode::UnknownRequestType => "UnknownRequestType"@,
            TarantoolErrorCode::UnknownSchemaObject => "UnknownSchemaObject"@,
            TarantoolErrorCode::CreateFunction => "CreateFunction"@,
            TarantoolErrorCode::NoSuchFunction => "NoSuchFunction"@,
            TarantoolErrorCode::FunctionExists => "FunctionExists"@,
            TarantoolErrorCode::BeforeReplaceRet => "BeforeReplaceRet"@,
            TarantoolErrorCode::MultistatementTransaction => "MultistatementTransaction"@,
            TarantoolErrorCode::TriggerExists => "TriggerExists"@,
            TarantoolErrorCode::UserMax => "UserMax"@,
            TarantoolErrorCode::NoSuchEngine => "NoSuchEngine"@,
            TarantoolErrorCode::ReloadCfg => "ReloadCfg"@,
            TarantoolErrorCode::Cfg => "Cfg"@,
            TarantoolErrorCode::SavepointEmptyTx => "SavepointEmptyTx"@,
            TarantoolErrorCode::NoSuchSavepoint => "NoSuchSavepoint"@,
            TarantoolErrorCode::UnknownReplica => "UnknownReplica"@,
            TarantoolErrorCode::ReplicasetUuidMismatch => "ReplicasetUuidMismatch"@,
            TarantoolErrorCode::InvalidUuid => "InvalidUuid"@,
            TarantoolErrorCode::ReplicasetUuidIsRo => "ReplicasetUuidIsRo"@,
            TarantoolErrorCode::InstanceUuidMismatch => "InstanceUuidMismatch"@,
            TarantoolErrorCode::ReplicaIDIsReserved => "ReplicaIDIsReserved"@,
            TarantoolErrorCode::InvalidOrder => "InvalidOrder"@,
            TarantoolErrorCode::MissingRequestField => "MissingRequestField"@,
            TarantoolErrorCode::Identifier => "Identifier"@,
            TarantoolErrorCode::DropFunction => "DropFunction"@,
            TarantoolErrorCode::IteratorType => "IteratorType"@,
            TarantoolErrorCode::ReplicaMax => "ReplicaMax"@,
            TarantoolErrorCode::InvalidXlog => "InvalidXlog"@,
            TarantoolErrorCode::InvalidXlogName => "InvalidXlogName"@,
            TarantoolErrorCode::InvalidXlogOrder => "InvalidXlogOrder"@,
            TarantoolErrorCode::NoConnection => "NoConnection"@,
            TarantoolErrorCode::Timeout => "Timeout"@,
            TarantoolErrorCode::ActiveTransaction => "ActiveTransaction"@,
            TarantoolErrorCode::CursorNoTransaction => "CursorNoTransaction"@,
            TarantoolErrorCode::CrossEngineTransaction => "CrossEngineTransaction"@,
            TarantoolErrorCode::NoSuchRole => "NoSuchRole"@,
            TarantoolErrorCode::RoleExists => "RoleExists"@,
            TarantoolErrorCode::CreateRole => "CreateRole"@,
            TarantoolErrorCode::IndexExists => "IndexExists"@,
            TarantoolErrorCode::SessionClosed => "SessionClosed"@,
            TarantoolErrorCode::RoleLoop => "RoleLoop"@,
            TarantoolErrorCode::Grant => "Grant"@,
            TarantoolErrorCode::PrivGranted => "PrivGranted"@,
            TarantoolErrorCode::RoleGranted => "RoleGranted"@,
            TarantoolErrorCode::PrivNotGranted => "PrivNotGranted"@,
            TarantoolErrorCode::RoleNotGranted => "RoleNotGranted"@,
            TarantoolErrorCode::MissingSnapshot => "MissingSnapshot"@,
            TarantoolErrorCode::CantUpdatePrimaryKey => "CantUpdatePrimaryKey"@,
            TarantoolErrorCode::UpdateIntegerOverflow => "UpdateIntegerOverflow"@,
            TarantoolErrorCode::GuestUserPassword => "GuestUserPassword"@,
            TarantoolErrorCode::TransactionConflict => "TransactionConflict"@,
            TarantoolErrorCode::UnsupportedPriv => "UnsupportedPriv"@,
            TarantoolErrorCode::LoadFunction => "LoadFunction"@,
            TarantoolErrorCode::FunctionLanguage => "FunctionLanguage"@,
            TarantoolErrorCode::RtreeRect => "RtreeRect"@,
            TarantoolErrorCode::ProcC => "ProcC"@,
            TarantoolErrorCode::UnknownRtreeIndexDistanceType => "UnknownRtreeIndexDistanceType"@,
            TarantoolErrorCode::Protocol => "Protocol"@,
            TarantoolErrorCode::UpsertUniqueSecondaryKey => "UpsertUniqueSecondaryKey"@,
            TarantoolErrorCode::WrongIndexRecord => "WrongIndexRecord"@,
            TarantoolErrorCode::WrongIndexParts => "WrongIndexParts"@,
            TarantoolErrorCode::WrongIndexOptions => "WrongIndexOptions"@,
            TarantoolErrorCode::WrongSchemaVersion => "WrongSchemaVersion"@,
            TarantoolErrorCode::MemtxMaxTupleSize => "MemtxMaxTupleSize"@,
            TarantoolErrorCode::WrongSpaceOptions => "WrongSpaceOptions"@,
            TarantoolErrorCode::UnsupportedIndexFeature => "UnsupportedIndexFeature"@,
            TarantoolErrorCode::ViewIsRo => "ViewIsRo"@,
            TarantoolErrorCode::NoTransaction => "NoTransaction"@,
            TarantoolErrorCode::System => "System"@,
            TarantoolErrorCode::Loading => "Loading"@,
            TarantoolErrorCode::ConnectionToSelf => "ConnectionToSelf"@,
            TarantoolErrorCode::KeyPartIsTooLong => "KeyPartIsTooLong"@,
            TarantoolErrorCode::Compression => "Compression"@,
            TarantoolErrorCode::CheckpointInProgress => "CheckpointInProgress"@,
            TarantoolErrorCode::SubStmtMax => "SubStmtMax"@,
            TarantoolErrorCode::CommitInSubStmt => "CommitInSubStmt"@,
            TarantoolErrorCode::RollbackInSubStmt => "RollbackInSubStmt"@,
            TarantoolErrorCode::Decompression => "Decompression"@,
            TarantoolErrorCode::InvalidXlogType => "InvalidXlogType"@,
            TarantoolErrorCode::AlreadyRunning => "AlreadyRunning"@,
            TarantoolErrorCode::IndexFieldCountLimit => "IndexFieldCountLimit"@,
            TarantoolErrorCode::LocalInstanceIDIsReadOnly => "LocalInstanceIDIsReadOnly"@,
            TarantoolErrorCode::BackupInProgress => "BackupInProgress"@,
            TarantoolErrorCode::ReadViewAborted => "ReadViewAborted"@,
            TarantoolErrorCode::InvalidIndexFile => "InvalidIndexFile"@,
            TarantoolErrorCode::InvalidRunFile => "InvalidRunFile"@,
            TarantoolErrorCode::InvalidVylogFile => "InvalidVylogFile"@,
            TarantoolErrorCode::CheckpointRollback => "CheckpointRollback"@,
            TarantoolErrorCode::VyQuotaTimeout => "VyQuotaTimeout"@,
            TarantoolErrorCode::PartialKey => "PartialKey"@,
            TarantoolErrorCode::TruncateSystemSpace => "TruncateSystemSpace"@,
            TarantoolErrorCode::LoadModule => "LoadModule"@,
            TarantoolErrorCode::VinylMaxTupleSize => "VinylMaxTupleSize"@,
            TarantoolErrorCode::WrongDdVersion => "WrongDdVersion"@,
            TarantoolErrorCode::WrongSpaceFormat => "WrongSpaceFormat"@,
            TarantoolErrorCode::CreateSequence => "CreateSequence"@,
            TarantoolErrorCode::AlterSequence => "AlterSequence"@,
            TarantoolErrorCode::DropSequence => "DropSequence"@,
            TarantoolErrorCode::NoSuchSequence => "NoSuchSequence"@,
            TarantoolErrorCode::SequenceExists => "SequenceExists"@,
            TarantoolErrorCode::SequenceOverflow => "SequenceOverflow"@,
            TarantoolErrorCode::NoSuchIndexName => "NoSuchIndexName"@,
            TarantoolErrorCode::SpaceFieldIsDuplicate => "SpaceFieldIsDuplicate"@,
            TarantoolErrorCode::CantCreateCollation => "CantCreateCollation"@,
            TarantoolErrorCode::WrongCollationOptions => "WrongCollationOptions"@,
            TarantoolErrorCode::NullablePrimary => "NullablePrimary"@,
            TarantoolErrorCode::NoSuchFieldName => "NoSuchFieldName"@,
            TarantoolErrorCode::TransactionYield => "TransactionYield"@,
            TarantoolErrorCode::NoSuchGroup => "NoSuchGroup"@,
            TarantoolErrorCode::SqlBindValue => "SqlBindValue"@,
            TarantoolErrorCode::SqlBindType => "SqlBindType"@,
            TarantoolErrorCode::SqlBindParameterMax => "SqlBindParameterMax"@,
            TarantoolErrorCode::SqlExecute => "SqlExecute"@,
            TarantoolErrorCode::Unused => "Unused"@,
            TarantoolErrorCode::SqlBindNotFound => "SqlBindNotFound"@,
            TarantoolErrorCode::ActionMismatch => "ActionMismatch"@,
            TarantoolErrorCode::ViewMissingSql => "ViewMissingSql"@,
            TarantoolErrorCode::ForeignKeyConstraint => "ForeignKeyConstraint"@,
            TarantoolErrorCode::NoSuchModule => "NoSuchModule"@,
            TarantoolErrorCode::NoSuchCollation => "NoSuchCollation"@,
            TarantoolErrorCode::CreateFkConstraint => "CreateFkConstraint"@,
            TarantoolErrorCode::DropFkConstraint => "DropFkConstraint"@,
            TarantoolErrorCode::NoSuchConstraint => "NoSuchConstraint"@,
            TarantoolErrorCode::ConstraintExists => "ConstraintExists"@,
            TarantoolErrorCode::SqlTypeMismatch => "SqlTypeMismatch"@,
            TarantoolErrorCode::RowidOverflow => "RowidOverflow"@,
            TarantoolErrorCode::DropCollation => "DropCollation"@,
            TarantoolErrorCode::IllegalCollationMix => "IllegalCollationMix"@,
            TarantoolErrorCode::SqlNoSuchPragma => "SqlNoSuchPragma"@,
            TarantoolErrorCode::SqlCantResolveField => "SqlCantResolveField"@,
            TarantoolErrorCode::IndexExistsInSpace => "IndexExistsInSpace"@,
            TarantoolErrorCode::InconsistentTypes => "InconsistentTypes"@,
            TarantoolErrorCode::SqlSyntax => "SqlSyntax"@,
            TarantoolErrorCode::SqlStackOverflow => "SqlStackOverflow"@,
            TarantoolErrorCode::SqlSelectWildcard => "SqlSelectWildcard"@,
            TarantoolErrorCode::SqlStatementEmpty => "SqlStatementEmpty"@,
            TarantoolErrorCode::SqlKeywordIsReserved => "SqlKeywordIsReserved"@,
            TarantoolErrorCode::SqlUnrecognizedSyntax => "SqlUnrecognizedSyntax"@,
            TarantoolErrorCode::SqlUnknownToken => "SqlUnknownToken"@,
            TarantoolErrorCode::SqlParserGeneric => "SqlParserGeneric"@,
            TarantoolErrorCode::SqlAnalyzeArgument => "SqlAnalyzeArgument"@,
            TarantoolErrorCode::SqlColumnCountMax => "SqlColumnCountMax"@,
            TarantoolErrorCode::HexLiteralMax => "HexLiteralMax"@,
            TarantoolErrorCode::IntLiteralMax => "IntLiteralMax"@,
            TarantoolErrorCode::SqlParserLimit => "SqlParserLimit"@,
            TarantoolErrorCode::IndexDefUnsupported => "IndexDefUnsupported"@,
            TarantoolErrorCode::CkDefUnsupported => "CkDefUnsupported"@,
            TarantoolErrorCode::MultikeyIndexMismatch => "MultikeyIndexMismatch"@,
            TarantoolErrorCode::CreateCkConstraint => "CreateCkConstraint"@,
            TarantoolErrorCode::CkConstraintFailed => "CkConstraintFailed"@,
            TarantoolErrorCode::SqlColumnCount => "SqlColumnCount"@,
            TarantoolErrorCode::FuncIndexFunc => "FuncIndexFunc"@,
            TarantoolErrorCode::FuncIndexFormat => "FuncIndexFormat"@,
            TarantoolErrorCode::FuncIndexParts => "FuncIndexParts"@,
            TarantoolErrorCode::BootstrapReadonly => "BootstrapReadonly"@,
        }
    }

    /// The name of this code, as it is written in a message.
    pub fn name(&self) -> (s: &'static str)
        ensures
            s@ == self.name_spec(),
    {
        match self {
            TarantoolErrorCode::Unknown => "Unknown",
            TarantoolErrorCode::IllegalParams => "IllegalParams",
            TarantoolErrorCode::MemoryIssue => "MemoryIssue",
            TarantoolErrorCode::TupleFound => "TupleFound",
            TarantoolErrorCode::TupleNotFound => "TupleNotFound",
            TarantoolErrorCode::Unsupported => "Unsupported",
            TarantoolErrorCode::NonMaster => "NonMaster",
            TarantoolErrorCode::Readonly => "Readonly",
            TarantoolErrorCode::Injection => "Injection",
            TarantoolErrorCode::CreateSpace => "CreateSpace",
            TarantoolErrorCode::SpaceExists => "SpaceExists",
            TarantoolErrorCode::DropSpace => "DropSpace",
            TarantoolErrorCode::AlterSpace => "AlterSpace",
            TarantoolErrorCode::IndexType => "IndexType",
            TarantoolErrorCode::ModifyIndex => "ModifyIndex",
            TarantoolErrorCode::LastDrop => "LastDrop",
            TarantoolErrorCode::TupleFormatLimit => "TupleFormatLimit",
            TarantoolErrorCode::DropPrimaryKey => "DropPrimaryKey",
            TarantoolErrorCode::KeyPartType => "KeyPartType",
            TarantoolErrorCode::ExactMatch => "ExactMatch",
            TarantoolErrorCode::InvalidMsgpack => "InvalidMsgpack",
            TarantoolErrorCode::ProcRet => "ProcRet",
            TarantoolErrorCode::TupleNotArray => "TupleNotArray",
            TarantoolErrorCode::FieldType => "FieldType",
            TarantoolErrorCode::IndexPartTypeMismatch => "IndexPartTypeMismatch",
            TarantoolErrorCode::Splice => "Splice",
            TarantoolErrorCode::UpdateArgType => "UpdateArgType",
            TarantoolErrorCode::FormatMismatchIndexPart => "FormatMismatchIndexPart",
            TarantoolErrorCode::UnknownUpdateOp => "UnknownUpdateOp",
            TarantoolErrorCode::UpdateField => "UpdateField",
            TarantoolErrorCode::FunctionTxActive => "FunctionTxActive",
            TarantoolErrorCode::KeyPartCount => "KeyPartCount",
            TarantoolErrorCode::ProcLua => "ProcLua",
            TarantoolErrorCode::NoSuchProc => "NoSuchProc",
            TarantoolErrorCode::NoSuchTrigger => "NoSuchTrigger",
            TarantoolErrorCode::NoSuchIndexID => "NoSuchIndexID",
            TarantoolErrorCode::NoSuchSpace => "NoSuchSpace",
            TarantoolErrorCode::NoSuchFieldNo => "NoSuchFieldNo",
            TarantoolErrorCode::ExactFieldCount => "ExactFieldCount",
            TarantoolErrorCode::FieldMissing => "FieldMissing",
            TarantoolErrorCode::WalIo => "WalIo",
            TarantoolErrorCode::MoreThanOneTuple => "MoreThanOneTuple",
            TarantoolErrorCode::AccessDenied => "AccessDenied",
            TarantoolErrorCode::CreateUser => "CreateUser",
            TarantoolErrorCode::DropUser => "DropUser",
            TarantoolErrorCode::NoSuchUser => "NoSuchUser",
            TarantoolErrorCode::UserExists => "UserExists",
            TarantoolErrorCode::PasswordMismatch => "PasswordMismatch",
            TarantoolErrorCode::UnknownRequestType => "UnknownRequestType",
            TarantoolErrorCode::UnknownSchemaObject => "UnknownSchemaObject",
            TarantoolErrorCode::CreateFunction => "CreateFunction",
            TarantoolErrorCode::NoSuchFunction => "NoSuchFunction",
            TarantoolErrorCode::FunctionExists => "FunctionExists",
            TarantoolErrorCode::BeforeReplaceRet => "BeforeReplaceRet",
            TarantoolErrorCode::MultistatementTransaction => "MultistatementTransaction",
            TarantoolErrorCode::TriggerExists => "TriggerExists",
            TarantoolErrorCode::UserMax => "UserMax",
            TarantoolErrorCode::NoSuchEngine => "NoSuchEngine",
            TarantoolErrorCode::ReloadCfg => "ReloadCfg",
            TarantoolErrorCode::Cfg => "Cfg",
            TarantoolErrorCode::SavepointEmptyTx => "SavepointEmptyTx",
            TarantoolErrorCode::NoSuchSavepoint => "NoSuchSavepoint",
            TarantoolErrorCode::UnknownReplica => "UnknownReplica",
            TarantoolErrorCode::ReplicasetUuidMismatch => "ReplicasetUuidMismatch",
            TarantoolErrorCode::InvalidUuid => "InvalidUuid",
            TarantoolErrorCode::ReplicasetUuidIsRo => "ReplicasetUuidIsRo",
            TarantoolErrorCode::InstanceUuidMismatch => "InstanceUuidMismatch",
            TarantoolErrorCode::ReplicaIDIsReserved => "ReplicaIDIsReserved",
            TarantoolErrorCode::InvalidOrder => "InvalidOrder",
            TarantoolErrorCode::MissingRequestField => "MissingRequestField",
            TarantoolErrorCode::Identifier => "Identifier",
            TarantoolErrorCode::DropFunction => "DropFunction",
            TarantoolErrorCode::IteratorType => "IteratorType",
            TarantoolErrorCode::ReplicaMax => "ReplicaMax",
            TarantoolErrorCode::InvalidXlog => "InvalidXlog",
            TarantoolErrorCode::InvalidXlogName => "InvalidXlogName",
            TarantoolErrorCode::InvalidXlogOrder => "InvalidXlogOrder",
            TarantoolErrorCode::NoConnection => "NoConnection",
            TarantoolErrorCode::Timeout => "Timeout",
            TarantoolErrorCode::ActiveTransaction => "ActiveTransaction",
            TarantoolErrorCode::CursorNoTransaction => "CursorNoTransaction",
            TarantoolErrorCode::CrossEngineTransaction => "CrossEngineTransaction",
            TarantoolErrorCode::NoSuchRole => "NoSuchRole",
            TarantoolErrorCode::RoleExists => "RoleExists",
            TarantoolErrorCode::CreateRole => "CreateRole",
            TarantoolErrorCode::IndexExists => "IndexExists",
            TarantoolErrorCode::SessionClosed => "SessionClosed",
            TarantoolErrorCode::RoleLoop => "RoleLoop",
            TarantoolErrorCode::Grant => "Grant",
            TarantoolErrorCode::PrivGranted => "PrivGranted",
            TarantoolErrorCode::RoleGranted => "RoleGranted",
            TarantoolErrorCode::PrivNotGranted => "PrivNotGranted",
            TarantoolErrorCode::RoleNotGranted => "RoleNotGranted",
            TarantoolErrorCode::MissingSnapshot => "MissingSnapshot",
            TarantoolErrorCode::CantUpdatePrimaryKey => "CantUpdatePrimaryKey",
            TarantoolErrorCode::UpdateIntegerOverflow => "UpdateIntegerOverflow",
            TarantoolErrorCode::GuestUserPassword => "GuestUserPassword",
            TarantoolErrorCode::TransactionConflict => "TransactionConflict",
            TarantoolErrorCode::UnsupportedPriv => "UnsupportedPriv",
            TarantoolErrorCode::LoadFunction => "LoadFunction",
            TarantoolErrorCode::FunctionLanguage => "FunctionLanguage",
            TarantoolErrorCode::RtreeRect => "RtreeRect",
            TarantoolErrorCode::ProcC => "ProcC",
            TarantoolErrorCode::UnknownRtreeIndexDistanceType => "UnknownRtreeIndexDistanceType",
            TarantoolErrorCode::Protocol => "Protocol",
            TarantoolErrorCode::UpsertUniqueSecondaryKey => "UpsertUniqueSecondaryKey",
            TarantoolErrorCode::WrongIndexRecord => "WrongIndexRecord",
            TarantoolErrorCode::WrongIndexParts => "WrongIndexParts",
            TarantoolErrorCode::WrongIndexOptions => "WrongIndexOptions",
            TarantoolErrorCode::WrongSchemaVersion => "WrongSchemaVersion",
            TarantoolErrorCode::MemtxMaxTupleSize => "MemtxMaxTupleSize",
            TarantoolErrorCode::WrongSpaceOptions => "WrongSpaceOptions",
            TarantoolErrorCode::UnsupportedIndexFeature => "UnsupportedIndexFeature",
            TarantoolErrorCode::ViewIsRo => "ViewIsRo",
            TarantoolErrorCode::NoTransaction => "NoTransaction",
            TarantoolErrorCode::System => "System",
            TarantoolErrorCode::Loading => "Loading",
            TarantoolErrorCode::ConnectionToSelf => "ConnectionToSelf",
            TarantoolErrorCode::KeyPartIsTooLong => "KeyPartIsTooLong",
            TarantoolErrorCode::Compression => "Compression",
            TarantoolErrorCode::CheckpointInProgress => "CheckpointInProgress",
            TarantoolErrorCode::SubStmtMax => "SubStmtMax",
            TarantoolErrorCode::CommitInSubStmt => "CommitInSubStmt",
            TarantoolErrorCode::RollbackInSubStmt => "RollbackInSubStmt",
            TarantoolErrorCode::Decompression => "Decompression",
            TarantoolErrorCode::InvalidXlogType => "InvalidXlogType",
            TarantoolErrorCode::AlreadyRunning => "AlreadyRunning",
            TarantoolErrorCode::IndexFieldCountLimit => "IndexFieldCountLimit",
            TarantoolErrorCode::LocalInstanceIDIsReadOnly => "LocalInstanceIDIsReadOnly",
            TarantoolErrorCode::BackupInProgress => "BackupInProgress",
            TarantoolErrorCode::ReadViewAborted => "ReadViewAborted",
            TarantoolErrorCode::InvalidIndexFile => "InvalidIndexFile",
            TarantoolErrorCode::InvalidRunFile => "InvalidRunFile",
            TarantoolErrorCode::InvalidVylogFile => "InvalidVylogFile",
            TarantoolErrorCode::CheckpointRollback => "CheckpointRollback",
            TarantoolErrorCode::VyQuotaTimeout => "VyQuotaTimeout",
            TarantoolErrorCode::PartialKey => "PartialKey",
            TarantoolErrorCode::TruncateSystemSpace => "TruncateSystemSpace",
            TarantoolErrorCode::LoadModule => "LoadModule",
            TarantoolErrorCode::VinylMaxTupleSize => "VinylMaxTupleSize",
            TarantoolErrorCode::WrongDdVersion => "WrongDdVersion",
            TarantoolErrorCode::WrongSpaceFormat => "WrongSpaceFormat",
            TarantoolErrorCode::CreateSequence => "CreateSequence",
            TarantoolErrorCode::AlterSequence => "AlterSequence",
            TarantoolErrorCode::DropSequence => "DropSequence",
            TarantoolErrorCode::NoSuchSequence => "NoSuchSequence",
            TarantoolErrorCode::SequenceExists => "SequenceExists",
            TarantoolErrorCode::SequenceOverflow => "SequenceOverflow",
            TarantoolErrorCode::NoSuchIndexName => "NoSuchIndexName",
            TarantoolErrorCode::SpaceFieldIsDuplicate => "SpaceFieldIsDuplicate",
            TarantoolErrorCode::CantCreateCollation => "CantCreateCollation",
            TarantoolErrorCode::WrongCollationOptions => "WrongCollationOptions",
            TarantoolErrorCode::NullablePrimary => "NullablePrimary",
            TarantoolErrorCode::NoSuchFieldName => "NoSuchFieldName",
            TarantoolErrorCode::TransactionYield => "TransactionYield",
            TarantoolErrorCode::NoSuchGroup => "NoSuchGroup",
            TarantoolErrorCode::SqlBindValue => "SqlBindValue",
            TarantoolErrorCode::SqlBindType => "SqlBindType",
            TarantoolErrorCode::SqlBindParameterMax => "SqlBindParameterMax",
            TarantoolErrorCode::SqlExecute => "SqlExecute",
            TarantoolErrorCode::Unused => "Unused",
            TarantoolErrorCode::SqlBindNotFound => "SqlBindNotFound",
            TarantoolErrorCode::ActionMismatch => "ActionMismatch",
            TarantoolErrorCode::ViewMissingSql => "ViewMissingSql",
            TarantoolErrorCode::ForeignKeyConstraint => "ForeignKeyConstraint",
            TarantoolErrorCode::NoSuchModule => "NoSuchModule",
            TarantoolErrorCode::NoSuchCollation => "NoSuchCollation",
            TarantoolErrorCode::CreateFkConstraint => "CreateFkConstraint",
            TarantoolErrorCode::DropFkConstraint => "DropFkConstraint",
            TarantoolErrorCode::NoSuchConstraint => "NoSuchConstraint",
            TarantoolErrorCode::ConstraintExists => "ConstraintExists",
            TarantoolErrorCode::SqlTypeMismatch => "SqlTypeMismatch",
            TarantoolErrorCode::RowidOverflow => "RowidOverflow",
            TarantoolErrorCode::DropCollation => "DropCollation",
            TarantoolErrorCode::IllegalCollationMix => "IllegalCollationMix",
            TarantoolErrorCode::SqlNoSuchPragma => "SqlNoSuchPragma",
            TarantoolErrorCode::SqlCantResolveField => "SqlCantResolveField",
            TarantoolErrorCode::IndexExistsInSpace => "IndexExistsInSpace",
            TarantoolErrorCode::InconsistentTypes => "InconsistentTypes",
            TarantoolErrorCode::SqlSyntax => "SqlSyntax",
            TarantoolErrorCode::SqlStackOverflow => "SqlStackOverflow",
            TarantoolErrorCode::SqlSelectWildcard => "SqlSelectWildcard",
            TarantoolErrorCode::SqlStatementEmpty => "SqlStatementEmpty",
            TarantoolErrorCode::SqlKeywordIsReserved => "SqlKeywordIsReserved",
            TarantoolErrorCode::SqlUnrecognizedSyntax => "SqlUnrecognizedSyntax",
            TarantoolErrorCode::SqlUnknownToken => "SqlUnknownToken",
            TarantoolErrorCode::SqlParserGeneric => "SqlParserGeneric",
            TarantoolErrorCode::SqlAnalyzeArgument => "SqlAnalyzeArgument",
            TarantoolErrorCode::SqlColumnCountMax => "SqlColumnCountMax",
            TarantoolErrorCode::HexLiteralMax => "HexLiteralMax",
            TarantoolErrorCode::IntLiteralMax => "IntLiteralMax",
            TarantoolErrorCode::SqlParserLimit => "SqlParserLimit",
            TarantoolErrorCode::IndexDefUnsupported => "IndexDefUnsupported",
            TarantoolErrorCode::CkDefUnsupported => "CkDefUnsupported",
            TarantoolErrorCode::MultikeyIndexMismatch => "MultikeyIndexMismatch",
            TarantoolErrorCode::CreateCkConstraint => "CreateCkConstraint",
            TarantoolErrorCode::CkConstraintFailed => "CkConstraintFailed",
            TarantoolErrorCode::SqlColumnCount => "SqlColumnCount",
            TarantoolErrorCode::FuncIndexFunc => "FuncIndexFunc",
            TarantoolErrorCode::FuncIndexFormat => "FuncIndexFormat",
            TarantoolErrorCode::FuncIndexParts => "FuncIndexParts",
            TarantoolErrorCode::BootstrapReadonly => "BootstrapReadonly",
        }
    }

    /// The code that the number `n` stands for, if there is one.
    pub fn from_u32(n: u32) -> (r: Option<TarantoolErrorCode>)
        ensures
            r.is_some() <==> n < ERROR_CODE_COUNT,
            r matches Some(c) ==> c.code() == n,
    {
        match n {
            0u32 => Some(TarantoolErrorCode::Unknown),
            1u32 => Some(TarantoolErrorCode::IllegalParams),
            2u32 => Some(TarantoolErrorCode::MemoryIssue),
            3u32 => Some(TarantoolErrorCode::TupleFound),
            4u32 => Some(TarantoolErrorCode::TupleNotFound),
            5u32 => Some(TarantoolErrorCode::Unsupported),
            6u32 => Some(TarantoolErrorCode::NonMaster),
            7u32 => Some(TarantoolErrorCode::Readonly),
            8u32 => Some(TarantoolErrorCode::Injection),
            9u32 => Some(TarantoolErrorCode::CreateSpace),
            10u32 => Some(TarantoolErrorCode::SpaceExists),
            11u32 => Some(TarantoolErrorCode::DropSpace),
            12u32 => Some(TarantoolErrorCode::AlterSpace),
            13u32 => Some(TarantoolErrorCode::IndexType),
            14u32 => Some(TarantoolErrorCode::ModifyIndex),
            15u32 => Some(TarantoolErrorCode::LastDrop),
            16u32 => Some(TarantoolErrorCode::TupleFormatLimit),
            17u32 => Some(TarantoolErrorCode::DropPrimaryKey),
            18u32 => Some(TarantoolErrorCode::KeyPartType),
            19u32 => Some(TarantoolErrorCode::ExactMatch),
            20u32 => Some(TarantoolErrorCode::InvalidMsgpack),
            21u32 => Some(TarantoolErrorCode::ProcRet),
            22u32 => Some(TarantoolErrorCode::TupleNotArray),
            23u32 => Some(TarantoolErrorCode::FieldType),
            24u32 => Some(TarantoolErrorCode::IndexPartTypeMismatch),
            25u32 => Some(TarantoolErrorCode::Splice),
            26u32 => Some(TarantoolErrorCode::UpdateArgType),
            27u32 => Some(TarantoolErrorCode::FormatMismatchIndexPart),
            28u32 => Some(TarantoolErrorCode::UnknownUpdateOp),
            29u32 => Some(TarantoolErrorCode::UpdateField),
            30u32 => Some(TarantoolErrorCode::FunctionTxActive),
            31u32 => Some(TarantoolErrorCode::KeyPartCount),
            32u32 => Some(TarantoolErrorCode::ProcLua),
            33u32 => Some(TarantoolErrorCode::NoSuchProc),
            34u32 => Some(TarantoolErrorCode::NoSuchTrigger),
            35u32 => Some(TarantoolErrorCode::NoSuchIndexID),
            36u32 => Some(TarantoolErrorCode::NoSuchSpace),
            37u32 => Some(TarantoolErrorCode::NoSuchFieldNo),
            38u32 => Some(TarantoolErrorCode::ExactFieldCount),
            39u32 => Some(TarantoolErrorCode::FieldMissing),
            40u32 => Some(TarantoolErrorCode::WalIo),
            41u32 => Some(TarantoolErrorCode::MoreThanOneTuple),
            42u32 => Some(TarantoolErrorCode::AccessDenied),
            43u32 => Some(TarantoolErrorCode::CreateUser),
            44u32 => Some(TarantoolErrorCode::DropUser),
            45u32 => Some(TarantoolErrorCode::NoSuchUser),
            46u32 => Some(TarantoolErrorCode::UserExists),
            47u32 => Some(TarantoolErrorCode::PasswordMismatch),
            48u32 => Some(TarantoolErrorCode::UnknownRequestType),
            49u32 => Some(TarantoolErrorCode::UnknownSchemaObject),
            50u32 => Some(TarantoolErrorCode::CreateFunction),
            51u32 => Some(TarantoolErrorCode::NoSuchFunction),
            52u32 => Some(TarantoolErrorCode::FunctionExists),
            53u32 => Some(TarantoolErrorCode::BeforeReplaceRet),
            54u32 => Some(TarantoolErrorCode::MultistatementTransaction),
            55u32 => Some(TarantoolErrorCode::TriggerExists),
            56u32 => Some(TarantoolErrorCode::UserMax),
            57u32 => Some(TarantoolErrorCode::NoSuchEngine),
            58u32 => Some(TarantoolErrorCode::ReloadCfg),
            59u32 => Some(TarantoolErrorCode::Cfg),
            60u32 => Some(TarantoolErrorCode::SavepointEmptyTx),
            61u32 => Some(TarantoolErrorCode::NoSuchSavepoint),
            62u32 => Some(TarantoolErrorCode::UnknownReplica),
            63u32 => Some(TarantoolErrorCode::ReplicasetUuidMismatch),
            64u32 => Some(TarantoolErrorCode::InvalidUuid),
            65u32 => Some(TarantoolErrorCode::ReplicasetUuidIsRo),
            66u32 => Some(TarantoolErrorCode::InstanceUuidMismatch),
            67u32 => Some(TarantoolErrorCode::ReplicaIDIsReserved),
            68u32 => Some(TarantoolErrorCode::InvalidOrder),
            69u32 => Some(TarantoolErrorCode::MissingRequestField),
            70u32 => Some(TarantoolErrorCode::Identifier),
            71u32 => Some(TarantoolErrorCode::DropFunction),
            72u32 => Some(TarantoolErrorCode::IteratorType),
            73u32 => Some(TarantoolErrorCode::ReplicaMax),
            74u32 => Some(TarantoolErrorCode::InvalidXlog),
            75u32 => Some(TarantoolErrorCode::InvalidXlogName),
            76u32 => Some(TarantoolErrorCode::InvalidXlogOrder),
            77u32 => Some(TarantoolErrorCode::NoConnection),
            78u32 => Some(TarantoolErrorCode::Timeout),
            79u32 => Some(TarantoolErrorCode::ActiveTransaction),
            80u32 => Some(TarantoolErrorCode::CursorNoTransaction),
            81u32 => Some(TarantoolErrorCode::CrossEngineTransaction),
            82u32 => Some(TarantoolErrorCode::NoSuchRole),
            83u32 => Some(TarantoolErrorCode::RoleExists),
            84u32 => Some(TarantoolErrorCode::CreateRole),
            85u32 => Some(TarantoolErrorCode::IndexExists),
            86u32 => Some(TarantoolErrorCode::SessionClosed),
            87u32 => Some(TarantoolErrorCode::RoleLoop),
            88u32 => Some(TarantoolErrorCode::Grant),
            89u32 => Some(TarantoolErrorCode::PrivGranted),
            90u32 => Some(TarantoolErrorCode::RoleGranted),
            91u32 => Some(TarantoolErrorCode::PrivNotGranted),
            92u32 => Some(TarantoolErrorCode::RoleNotGranted),
            93u32 => Some(TarantoolErrorCode::MissingSnapshot),
            94u32 => Some(TarantoolErrorCode::CantUpdatePrimaryKey),
            95u32 => Some(TarantoolErrorCode::UpdateIntegerOverflow),
            96u32 => Some(TarantoolErrorCode::GuestUserPassword),
            97u32 => Some(TarantoolErrorCode::TransactionConflict),
            98u32 => Some(TarantoolErrorCode::UnsupportedPriv),
            99u32 => Some(TarantoolErrorCode::LoadFunction),
            100u32 => Some(TarantoolErrorCode::FunctionLanguage),
            101u32 => Some(TarantoolErrorCode::RtreeRect),
            102u32 => Some(TarantoolErrorCode::ProcC),
            103u32 => Some(TarantoolErrorCode::UnknownRtreeIndexDistanceType),
            104u32 => Some(TarantoolErrorCode::Protocol),
            105u32 => Some(TarantoolErrorCode::UpsertUniqueSecondaryKey),
            106u32 => Some(TarantoolErrorCode::WrongIndexRecord),
            107u32 => Some(TarantoolErrorCode::WrongIndexParts),
            108u32 => Some(TarantoolErrorCode::WrongIndexOptions),
            109u32 => Some(TarantoolErrorCode::WrongSchemaVersion),
            110u32 => Some(TarantoolErrorCode::MemtxMaxTupleSize),
            111u32 => Some(TarantoolErrorCode::WrongSpaceOptions),
            112u32 => Some(TarantoolErrorCode::UnsupportedIndexFeature),
            113u32 => Some(TarantoolErrorCode::ViewIsRo),
            114u32 => Some(TarantoolErrorCode::NoTransaction),
            115u32 => Some(TarantoolErrorCode::System),
            116u32 => Some(TarantoolErrorCode::Loading),
            117u32 => Some(TarantoolErrorCode::ConnectionToSelf),
            118u32 => Some(TarantoolErrorCode::KeyPartIsTooLong),
            119u32 => Some(TarantoolErrorCode::Compression),
            120u32 => Some(TarantoolErrorCode::CheckpointInProgress),
            121u32 => Some(TarantoolErrorCode::SubStmtMax),
            122u32 => Some(TarantoolErrorCode::CommitInSubStmt),
            123u32 => Some(TarantoolErrorCode::RollbackInSubStmt),
            124u32 => Some(TarantoolErrorCode::Decompression),
            125u32 => Some(TarantoolErrorCode::InvalidXlogType),
            126u32 => Some(TarantoolErrorCode::AlreadyRunning),
            127u32 => Some(TarantoolErrorCode::IndexFieldCountLimit),
            128u32 => Some(TarantoolErrorCode::LocalInstanceIDIsReadOnly),
            129u32 => Some(TarantoolErrorCode::BackupInProgress),
            130u32 => Some(TarantoolErrorCode::ReadViewAborted),
            131u32 => Some(TarantoolErrorCode::InvalidIndexFile),
            132u32 => Some(TarantoolErrorCode::InvalidRunFile),
            133u32 => Some(TarantoolErrorCode::InvalidVylogFile),
            134u32 => Some(TarantoolErrorCode::CheckpointRollback),
            135u32 => Some(TarantoolErrorCode::VyQuotaTimeout),
            136u32 => Some(TarantoolErrorCode::PartialKey),
            137u32 => Some(TarantoolErrorCode::TruncateSystemSpace),
            138u32 => Some(TarantoolErrorCode::LoadModule),
            139u32 => Some(TarantoolErrorCode::VinylMaxTupleSize),
            140u32 => Some(TarantoolErrorCode::WrongDdVersion),
            141u32 => Some(TarantoolErrorCode::WrongSpaceFormat),
            142u32 => Some(TarantoolErrorCode::CreateSequence),
            143u32 => Some(TarantoolErrorCode::AlterSequence),
            144u32 => Some(TarantoolErrorCode::DropSequence),
            145u32 => Some(TarantoolErrorCode::NoSuchSequence),
            146u32 => Some(TarantoolErrorCode::SequenceExists),
            147u32 => Some(TarantoolErrorCode::SequenceOverflow),
            148u32 => Some(TarantoolErrorCode::NoSuchIndexName),
            149u32 => Some(TarantoolErrorCode::SpaceFieldIsDuplicate),
            150u32 => Some(TarantoolErrorCode::CantCreateCollation),
            151u32 => Some(TarantoolErrorCode::WrongCollationOptions),
            152u32 => Some(TarantoolErrorCode::NullablePrimary),
            153u32 => Some(TarantoolErrorCode::NoSuchFieldName),
            154u32 => Some(TarantoolErrorCode::TransactionYield),
            155u32 => Some(TarantoolErrorCode::NoSuchGroup),
            156u32 => Some(TarantoolErrorCode::SqlBindValue),
            157u32 => Some(TarantoolErrorCode::SqlBindType),
            158u32 => Some(TarantoolErrorCode::SqlBindParameterMax),
            159u32 => Some(TarantoolErrorCode::SqlExecute),
            160u32 => Some(TarantoolErrorCode::Unused),
            161u32 => Some(TarantoolErrorCode::SqlBindNotFound),
            162u32 => Some(TarantoolErrorCode::ActionMismatch),
            163u32 => Some(TarantoolErrorCode::ViewMissingSql),
            164u32 => Some(TarantoolErrorCode::ForeignKeyConstraint),
            165u32 => Some(TarantoolErrorCode::NoSuchModule),
            166u32 => Some(TarantoolErrorCode::NoSuchCollation),
            167u32 => Some(TarantoolErrorCode::CreateFkConstraint),
            168u32 => Some(TarantoolErrorCode::DropFkConstraint),
            169u32 => Some(TarantoolErrorCode::NoSuchConstraint),
            170u32 => Some(TarantoolErrorCode::ConstraintExists),
            171u32 => Some(TarantoolErrorCode::SqlTypeMismatch),
            172u32 => Some(TarantoolErrorCode::RowidOverflow),
            173u32 => Some(TarantoolErrorCode::DropCollation),
            174u32 => Some(TarantoolErrorCode::IllegalCollationMix),
            175u32 => Some(TarantoolErrorCode::SqlNoSuchPragma),
            176u32 => Some(TarantoolErrorCode::SqlCantResolveField),
            177u32 => Some(TarantoolErrorCode::IndexExistsInSpace),
            178u32 => Some(TarantoolErrorCode::InconsistentTypes),
            179u32 => Some(TarantoolErrorCode::SqlSyntax),
            180u32 => Some(TarantoolErrorCode::SqlStackOverflow),
            181u32 => Some(TarantoolErrorCode::SqlSelectWildcard),
            182u32 => Some(TarantoolErrorCode::SqlStatementEmpty),
            183u32 => Some(TarantoolErrorCode::SqlKeywordIsReserved),
            184u32 => Some(TarantoolErrorCode::SqlUnrecognizedSyntax),
            185u32 => Some(TarantoolErrorCode::SqlUnknownToken),
            186u32 => Some(TarantoolErrorCode::SqlParserGeneric),
            187u32 => Some(TarantoolErrorCode::SqlAnalyzeArgument),
            188u32 => Some(TarantoolErrorCode::SqlColumnCountMax),
            189u32 => Some(TarantoolErrorCode::HexLiteralMax),
            190u32 => Some(TarantoolErrorCode::IntLiteralMax),
            191u32 => Some(TarantoolErrorCode::SqlParserLimit),
            192u32 => Some(TarantoolErrorCode::IndexDefUnsupported),
            193u32 => Some(TarantoolErrorCode::CkDefUnsupported),
            194u32 => Some(TarantoolErrorCode::MultikeyIndexMismatch),
            195u32 => Some(TarantoolErrorCode::CreateCkConstraint),
            196u32 => Some(TarantoolErrorCode::CkConstraintFailed),
            197u32 => Some(TarantoolErrorCode::SqlColumnCount),
            198u32 => Some(TarantoolErrorCode::FuncIndexFunc),
            199u32 => Some(TarantoolErrorCode::FuncIndexFormat),
            200u32 => Some(TarantoolErrorCode::FuncIndexParts),
            201u32 => Some(TarantoolErrorCode::BootstrapReadonly),
            _ => None,
        }
    }

    /// No two codes have the same number.
    pub proof fn lemma_code_is_one_to_one(a: TarantoolErrorCode, b: TarantoolErrorCode)
        requires
            a.code() == b.code(),
        ensures
            a == b,
    {
    }

    /// The code of the last error that the data store recorded, if it
    /// recorded one and its number is that of a known code.
    pub fn try_last(last: &Option<BoxError>) -> (r: Option<TarantoolErrorCode>)
        ensures
            r.is_some() <==> (last matches Some(e) && e.code < ERROR_CODE_COUNT),
            r matches Some(c) ==> last matches Some(e) && c.code() == e.code,
    {
        match last {
            None => None,
            Some(e) => TarantoolErrorCode::from_u32(e.code),
        }
    }

    /// The code of the last error that the data store recorded.
    ///
    /// There must be such an error, and its number must be that of a known
    /// code.
    pub fn last(last: &Option<BoxError>) -> (c: TarantoolErrorCode)
        requires
            last matches Some(e) && e.code < ERROR_CODE_COUNT,
        ensures
            last matches Some(e) && c.code() == e.code,
    {
        match TarantoolErrorCode::try_last(last) {
            Some(c) => c,
            None => {
                proof {
                    assert(false);
                }
                TarantoolErrorCode::Unknown
            },
        }
    }
}

/// An error that the data store set: its code, its message and the name of
/// its kind ("ClientError", "SocketError", ...).
#[derive(Debug)]
pub struct TarantoolError {
    code: TarantoolErrorCode,
    message: String,
    error_type: String,
}

impl TarantoolError {
    /// The code of this error, for use in contracts.
    pub closed spec fn code(&self) -> TarantoolErrorCode {
        self.code
    }

    /// The message of this error, for use in contracts.
    pub closed spec fn text(&self) -> Seq<char> {
        self.message@
    }

    /// The text of this error, for use in contracts: the name of the
    /// code, a colon and a blank, and the message.
    pub open spec fn message_spec(&self) -> Seq<char> {
        self.code().name_spec() + ": "@ + self.text()
    }

    /// The text of this error, for a reader.
    pub fn message(&self) -> (s: String)
        ensures
            s@ == self.message_spec(),
    {
        let mut s = String::from_str(self.code.name());
        s.append(": ");
        s.append(self.message.as_str());
        s
    }

    /// The name of the kind of this error, for use in contracts.
    pub closed spec fn kind(&self) -> Seq<char> {
        self.error_type@
    }

    /// `Ok` where the data store recorded no error. Otherwise the recorded
    /// error, with `Unknown` for a number that no code has.
    pub fn maybe_last(last: Option<BoxError>) -> (r: Result<(), TarantoolError>)
        ensures
            r.is_ok() <==> last.is_none(),
            r matches Err(e) ==> last matches Some(b) && {
                &&& b.code < ERROR_CODE_COUNT ==> e.code().code() == b.code
                &&& b.code >= ERROR_CODE_COUNT ==> e.code() == TarantoolErrorCode::Unknown
                &&& e.text() == b.message@
                &&& e.kind() == b.error_type@
            },
    {
        match last {
            None => Ok(()),
            Some(b) => {
                let code = match TarantoolErrorCode::from_u32(b.code) {
                    Some(code) => code,
                    None => TarantoolErrorCode::Unknown,
                };
                Err(TarantoolError { code, message: b.message, error_type: b.error_type })
            },
        }
    }

    /// The error that the data store recorded last. There must be one.
    pub fn last(last: Option<BoxError>) -> (e: TarantoolError)
        requires
            last.is_some(),
        ensures
            last matches Some(b) && {
                &&& b.code < ERROR_CODE_COUNT ==> e.code().code() == b.code
                &&& b.code >= ERROR_CODE_COUNT ==> e.code() == TarantoolErrorCode::Unknown
                &&& e.text() == b.message@
                &&& e.kind() == b.error_type@
            },
    {
        match TarantoolError::maybe_last(last) {
            Err(e) => e,
            Ok(_) => {
                proof {
                    assert(false);
                }
                TarantoolError {
                    code: TarantoolErrorCode::Unknown,
                    message: String::new(),
                    error_type: String::new(),
                }
            },
        }
    }

    /// The code of this error.
    pub fn error_code(&self) -> (c: TarantoolErrorCode)
        ensures
            c == self.code(),
    {
        self.code
    }

    /// The name of the kind of this error.
    pub fn error_type(&self) -> (s: String)
        ensures
            s@ == self.kind(),
    {
        self.error_type.clone()
    }

    /// The message of this error.
    pub fn error_message(&self) -> (s: String)
        ensures
            s@ == self.text(),
    {
        self.message.clone()
    }
}

/// Every way in which a call into the data store, or into the script
/// interpreter beside it, can fail.
///
/// A failure to encode or decode a tuple, or to read or write a value of
/// the wire format, is held as the text that the codec gave of it.
#[derive(Debug)]
pub enum Error {
    /// The data store set an error.
    Tarantool(TarantoolError),
    /// Input or output failed.
    IO(std::io::Error),
    /// A tuple could not be encoded.
    Encode(String),
    /// A tuple could not be decoded.
    Decode(String),
    /// A string is not Unicode.
    Unicode(std::str::Utf8Error),
    /// A number could not be read.
    NumValueRead(String),
    /// A value could not be read.
    ValueRead(String),
    /// A value could not be written.
    ValueWrite(String),
    /// A transaction went wrong.
    Transaction(TransactionError),
    /// The script interpreter reported an error.
    LuaError(LuaError),
}

impl Error {
    /// The words with which the text of the error begins: they tell its
    /// kind.
    pub open spec fn prefix(&self) -> Seq<char> {
        match self {
            Error::Tarantool(_) => "Tarantool error: "@,
            Error::IO(_) => "IO error: "@,
            Error::Encode(_) => "Failed to encode tuple: "@,
            Error::Decode(_) => "Failed to decode tuple: "@,
            Error::Unicode(_) => "Unicode string decode error: "@,
            Error::NumValueRead(_) => "Numeric value read error: "@,
            Error::ValueRead(_) => "Value read error: "@,
            Error::ValueWrite(_) => "Value write error: "@,
            Error::Transaction(_) => "Transaction issue: "@,
            Error::LuaError(_) => "Lua error: "@,
        }
    }

    /// The text of the failure inside the error, where the library itself
    /// determines it.
    pub open spec fn detail(&self) -> Option<Seq<char>> {
        match self {
            Error::Tarantool(e) => Some(e.message_spec()),
            Error::Encode(text) => Some(text@),
            Error::Decode(text) => Some(text@),
            Error::NumValueRead(text) => Some(text@),
            Error::ValueRead(text) => Some(text@),
            Error::ValueWrite(text) => Some(text@),
            Error::Transaction(e) => Some(e.message_spec()),
            Error::LuaError(e) => if e is ReadError {
                None
            } else {
                Some(e.message_spec())
            },
            _ => None,
        }
    }

    /// The text of the error, for a reader: the words that tell its kind,
    /// and then the text of the failure inside it.
    pub fn message(&self) -> (s: String)
        ensures
            match self.detail() {
                Some(detail) => s@ == self.prefix() + detail,
                None => exists|tail: Seq<char>| s@ == self.prefix() + tail,
            },
    {
        let (mut s, detail) = match self {
            Error::Tarantool(e) => (String::from_str("Tarantool error: "), e.message()),
            Error::IO(e) => (String::from_str("IO error: "), io_error_text(e)),
            Error::Encode(text) => (String::from_str("Failed to encode tuple: "), text.clone()),
            Error::Decode(text) => (String::from_str("Failed to decode tuple: "), text.clone()),
            Error::Unicode(e) => (
                String::from_str("Unicode string decode error: "),
                utf8_error_text(e),
            ),
            Error::NumValueRead(text) => (
                String::from_str("Numeric value read error: "),
                text.clone(),
            ),
            Error::ValueRead(text) => (String::from_str("Value read error: "), text.clone()),
            Error::ValueWrite(text) => (String::from_str("Value write error: "), text.clone()),
            Error::Transaction(e) => (String::from_str("Transaction issue: "), e.message()),
            Error::LuaError(e) => (String::from_str("Lua error: "), e.message()),
        };
        s.append(detail.as_str());
        proof {
            if self.detail() is None {
                if self is LuaError {
                    let inner = self->LuaError_0;
                    let tail = choose|tail: Seq<char>| detail@ == inner.message_spec() + tail;
                    assert(s@ =~= self.prefix() + (inner.message_spec() + tail));
                } else {
                    assert(s@ == self.prefix() + detail@);
                }
            }
        }
        s
    }
}

impl From<std::io::Error> for Error {
    fn from(error: std::io::Error) -> (r: Error) {
        Error::IO(error)
    }
}

impl FromSpecImpl<std::io::Error> for Error {
    open spec fn obeys_from_spec() -> bool {
        true
    }

    open spec fn from_spec(error: std::io::Error) -> Error {
        Error::IO(error)
    }
}

impl From<std::str::Utf8Error> for Error {
    fn from(error: std::str::Utf8Error) -> (r: Error) {
        Error::Unicode(error)
    }
}

impl FromSpecImpl<std::str::Utf8Error> for Error {
    open spec fn obeys_from_spec() -> bool {
        true
    }

    open spec fn from_spec(error: std::str::Utf8Error) -> Error {
        Error::Unicode(error)
    }
}

impl From<TransactionError> for Error {
    fn from(error: TransactionError) -> (r: Error) {
        Error::Transaction(error)
    }
}

impl FromSpecImpl<TransactionError> for Error {
    open spec fn obeys_from_spec() -> bool {
        true
    }

    open spec fn from_spec(error: TransactionError) -> Error {
        Error::Transaction(error)
    }
}

impl From<TarantoolError> for Error {
    fn from(error: TarantoolError) -> (r: Error) {
        Error::Tarantool(error)
    }
}

impl FromSpecImpl<TarantoolError> for Error {
    open spec fn obeys_from_spec() -> bool {
        true
    }

    open spec fn from_spec(error: TarantoolError) -> Error {
        Error::Tarantool(error)
    }
}

impl From<LuaError> for Error {
    fn from(error: LuaError) -> (r: Error) {
        Error::LuaError(error)
    }
}

impl FromSpecImpl<LuaError> for Error {
    open spec fn obeys_from_spec() -> bool {
        true
    }

    open spec fn from_spec(error: LuaError) -> Error {
        Error::LuaError(error)
    }
}

} // verus!
