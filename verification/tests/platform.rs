use std::mem::ManuallyDrop;

use async_bindgen::opaque::{drop_opaque_data, CopiedValue, OpaqueData, OpaqueSendable};
use async_bindgen::platform::{
    completion_status, extern_completes_async_call, CompletionMsg, ExternCompleter, PlatformError,
};

fn no_value() -> Box<ManuallyDrop<OpaqueSendable>> {
    Box::new(ManuallyDrop::new(OpaqueSendable::new()))
}

#[test]
fn extern_completer_answers_once() {
    let (mut completer, awaiter) = ExternCompleter::<u8>::new();
    assert_eq!(completer.complete(5), Ok(()));
    assert_eq!(completer.complete(6), Err(()));
    let mut receiver = awaiter.into_receiver();
    assert_eq!(receiver.try_recv(), Ok(Some(5)));
}

#[test]
fn extern_completer_fails_without_receiver() {
    let (mut completer, awaiter) = ExternCompleter::<u8>::new();
    drop(awaiter);
    assert_eq!(completer.complete(5), Err(()));
}

#[test]
fn extern_completes_async_call_reports_status() {
    let (mut completer, awaiter) = ExternCompleter::<u32>::new();
    assert_eq!(extern_completes_async_call(&mut completer, 41), 0);
    assert_eq!(awaiter.into_receiver().try_recv(), Ok(Some(41)));
    assert_eq!(extern_completes_async_call(&mut completer, 42), -1);

    let (mut completer, awaiter) = ExternCompleter::<u32>::new();
    drop(awaiter);
    assert_eq!(extern_completes_async_call(&mut completer, 41), -1);
}

#[test]
fn completion_status_codes() {
    assert_eq!(completion_status(Ok(())), 0);
    assert_eq!(completion_status(Err(())), -1);
}

#[test]
fn opaque_data_moves_and_drops_once() {
    let mut data = OpaqueData::new(no_value(), CopiedValue);
    assert!(data.holds_value());
    let mut moved = OpaqueData::move_out(&mut data);
    assert!(!data.holds_value());
    assert!(moved.holds_value());
    drop_opaque_data(&mut data);
    assert!(!data.holds_value());
    drop_opaque_data(&mut moved);
    assert!(!moved.holds_value());
    let again = OpaqueData::move_out(&mut moved);
    assert!(!again.holds_value());
}

#[test]
fn completion_message_and_error() {
    let msg = CompletionMsg { completer_id: 9, data: OpaqueData::new(no_value(), CopiedValue) };
    assert_eq!(msg.completer_id, 9);
    assert!(msg.data.holds_value());
    assert_eq!(PlatformError {}, PlatformError {});
}
