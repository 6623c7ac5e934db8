use tarantool::c_api::{BoxError, CoioFlags, IteratorType, SayLevel};
use tarantool::error::{Error, TarantoolError, TarantoolErrorCode, TransactionError};
use tarantool::tlua::LuaError;

fn recorded(code: u32) -> Option<BoxError> {
    Some(BoxError {
        code,
        message: "Duplicate key exists".to_string(),
        error_type: "ClientError".to_string(),
    })
}

#[test]
fn code_numbers_round_trip() {
    assert_eq!(TarantoolErrorCode::from_u32(0), Some(TarantoolErrorCode::Unknown));
    assert_eq!(TarantoolErrorCode::from_u32(3), Some(TarantoolErrorCode::TupleFound));
    assert_eq!(TarantoolErrorCode::from_u32(201), Some(TarantoolErrorCode::BootstrapReadonly));
    assert_eq!(TarantoolErrorCode::from_u32(202), None);
    assert_eq!(TarantoolErrorCode::from_u32(u32::MAX), None);
    assert_eq!(TarantoolErrorCode::NoSuchSpace.to_u32(), 36);
    for n in 0..202 {
        assert_eq!(TarantoolErrorCode::from_u32(n).unwrap().to_u32(), n);
    }
}

#[test]
fn no_error_recorded() {
    assert!(TarantoolError::maybe_last(None).is_ok());
    assert_eq!(TarantoolErrorCode::try_last(&None), None);
}

#[test]
fn last_error() {
    let e = TarantoolError::maybe_last(recorded(3)).unwrap_err();
    assert_eq!(e.error_code(), TarantoolErrorCode::TupleFound);
    assert_eq!(e.error_message(), "Duplicate key exists");
    assert_eq!(e.error_type(), "ClientError");
    let e = TarantoolError::last(recorded(36));
    assert_eq!(e.error_code(), TarantoolErrorCode::NoSuchSpace);
    assert_eq!(TarantoolErrorCode::last(&recorded(36)), TarantoolErrorCode::NoSuchSpace);
    assert_eq!(TarantoolErrorCode::try_last(&recorded(7)), Some(TarantoolErrorCode::Readonly));
}

#[test]
fn unknown_code_number() {
    let e = TarantoolError::last(recorded(100_000));
    assert_eq!(e.error_code(), TarantoolErrorCode::Unknown);
    assert_eq!(TarantoolErrorCode::try_last(&recorded(100_000)), None);
}

#[test]
fn transaction_error_messages() {
    assert_eq!(TransactionError::AlreadyStarted.message(), "Transaction has already been started");
    assert_eq!(TransactionError::FailedToCommit.message(), "Failed to commit");
    assert_eq!(TransactionError::FailedToRollback.message(), "Failed to rollback");
}

#[test]
fn numbers_of_the_c_enums() {
    assert_eq!(SayLevel::Fatal.to_u32(), 0);
    assert_eq!(SayLevel::Debug.to_u32(), 6);
    assert_eq!(SayLevel::from_u32(4), Some(SayLevel::Warn));
    assert_eq!(SayLevel::from_u32(7), None);
    assert_eq!(CoioFlags::Read.to_u32(), 1);
    assert_eq!(CoioFlags::Write.to_u32(), 2);
    assert_eq!(IteratorType::Eq.to_i32(), 0);
    assert_eq!(IteratorType::GE.to_i32(), 5);
    assert_eq!(IteratorType::Neigbor.to_i32(), 11);
}

#[test]
fn code_names() {
    assert_eq!(TarantoolErrorCode::Unknown.name(), "Unknown");
    assert_eq!(TarantoolErrorCode::TupleFound.name(), "TupleFound");
    assert_eq!(TarantoolErrorCode::BootstrapReadonly.name(), "BootstrapReadonly");
}

#[test]
fn tarantool_error_message() {
    let e = TarantoolError::last(recorded(3));
    assert_eq!(e.message(), "TupleFound: Duplicate key exists");
}

#[test]
fn error_messages_begin_with_their_kind() {
    let e: Error = TarantoolError::last(recorded(3)).into();
    assert_eq!(e.message(), "Tarantool error: TupleFound: Duplicate key exists");
    let e: Error = std::io::Error::new(std::io::ErrorKind::Other, "oh no!").into();
    assert_eq!(e.message(), "IO error: oh no!");
    let e: Error = TransactionError::FailedToCommit.into();
    assert_eq!(e.message(), "Transaction issue: Failed to commit");
    let e: Error = LuaError::ExecutionError("oops".to_string()).into();
    assert_eq!(e.message(), "Lua error: Execution error: oops");
    let e: Error =
        LuaError::ReadError(std::io::Error::new(std::io::ErrorKind::Other, "gone")).into();
    assert_eq!(e.message(), "Lua error: Read error: gone");
    let invalid = vec![0xffu8, 0xfe];
    let utf8 = std::str::from_utf8(&invalid).unwrap_err();
    let text = utf8.to_string();
    let e: Error = utf8.into();
    assert_eq!(e.message(), format!("Unicode string decode error: {}", text));
    assert_eq!(Error::Encode("e".into()).message(), "Failed to encode tuple: e");
    assert_eq!(Error::Decode("d".into()).message(), "Failed to decode tuple: d");
    assert_eq!(Error::NumValueRead("n".into()).message(), "Numeric value read error: n");
    assert_eq!(Error::ValueRead("r".into()).message(), "Value read error: r");
    assert_eq!(Error::ValueWrite("w".into()).message(), "Value write error: w");
}
