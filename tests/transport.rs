use binder_ipc::error::BinderError;
use binder_ipc::parcel::Parcel;
use binder_ipc::parcelable::Parcelable;
use binder_ipc::protocol::{
    BinderCommand, BinderDevice, BinderReturn, Transaction, TransactionFlag, BC_TRANSACTION,
    BR_REPLY, BR_TRANSACTION_COMPLETE, PING_TRANSACTION,
};
use binder_ipc::stability::Stability;
use binder_ipc::transaction_data::BinderTransactionData;
use binder_ipc::transport::{
    check_write_consumed, command_parcel, read_return, transaction_command, ParseStep,
    ReturnEvent, ReturnParser,
};

#[test]
fn command_codes_follow_the_ioctl_encoding() {
    assert_eq!(BinderCommand::Transaction.value(), 0x4040_6300);
    assert_eq!(BinderCommand::EnterLooper.value(), 0x630c);
    assert_eq!(BinderReturn::Reply.value(), 0x8040_7203);
    assert_eq!(BinderReturn::TransactionComplete.value(), 0x7206);
    assert_eq!(Transaction::Ping.value(), 0x5f50_4e47);
    for c in [BinderCommand::Reply, BinderCommand::ReplySG, BinderCommand::DeadBinderDone] {
        assert_eq!(BinderCommand::from_u32(c.value()), Some(c));
    }
    assert_eq!(BinderReturn::from_u32(0x1234), None);
    assert_eq!(u32::from(Transaction::FirstCall), 1);
}

#[test]
fn transaction_command_for_ping() {
    let tx = BinderTransactionData {
        target: 0,
        cookie: 0,
        code: PING_TRANSACTION,
        flags: 0,
        sender_pid: 0,
        sender_euid: 0,
        data_size: 0,
        offsets_size: 0,
        data: 0,
        offsets: 0,
    };
    let p = transaction_command(BinderCommand::Transaction, &tx);
    let mut expected = vec![0x00, 0x63, 0x40, 0x40];
    expected.extend_from_slice(&[0; 16]);
    expected.extend_from_slice(&[0x47, 0x4e, 0x50, 0x5f]);
    expected.extend_from_slice(&[0; 44]);
    assert_eq!(p.as_slice(), &expected[..]);
    assert_eq!(BC_TRANSACTION, 0x4040_6300);
    let built = BinderTransactionData::new_transaction(
        0,
        Transaction::Ping.value(),
        TransactionFlag::empty(),
        0,
        0,
        0,
        0,
    );
    assert_eq!(built, tx);
    let q = transaction_command(BinderCommand::Transaction, &built);
    assert_eq!(q.as_slice(), &expected[..]);
}

#[test]
fn driver_error_status_is_surfaced() {
    let mut p = Parcel::new();
    p.write_u32(BinderReturn::Error.value()).unwrap();
    p.write_i32(-32).unwrap();
    p.set_data_position(0);
    let mut parser = ReturnParser::new();
    assert_eq!(parser.next(&mut p), Err(BinderError::DriverError(-32)));
}

#[test]
fn transaction_envelope_keeps_flags() {
    let tx = BinderTransactionData::new_transaction(3, 9, TransactionFlag::one_way(), 12, 2, 0x1000, 0x2000);
    assert_eq!(tx.flags, 0x01);
    assert_eq!(tx.offsets_size, 16);
    assert_eq!(tx.handle(), 3);
    assert_eq!(tx.offsets_count(), 2);
    let r = BinderTransactionData::new_reply(TransactionFlag::empty(), 4, 0, 0x10, 0);
    assert_eq!(r.target, 0xffff_ffff);
    assert_eq!(r.code, 0);
    let bytes = tx.to_bytes();
    assert_eq!(bytes.len(), 64);
    assert_eq!(BinderTransactionData::from_bytes(&bytes, 0), tx);
}

#[test]
fn looper_commands() {
    let p = command_parcel(BinderCommand::EnterLooper);
    assert_eq!(p.as_slice(), &[0x0c, 0x63, 0, 0]);
    let mut q = Parcel::new();
    BinderCommand::ExitLooper.serialize(&mut q).unwrap();
    q.set_data_position(0);
    assert!(matches!(BinderCommand::deserialize(&mut q), Ok(BinderCommand::ExitLooper)));
}

fn reply_buffer(status_addr: u64) -> Parcel {
    let mut p = Parcel::new();
    p.write_u32(BR_TRANSACTION_COMPLETE).unwrap();
    p.write_u32(BR_REPLY).unwrap();
    let tx = BinderTransactionData {
        target: 0,
        cookie: 0,
        code: 0,
        flags: 0,
        sender_pid: 0,
        sender_euid: 0,
        data_size: 4,
        offsets_size: 0,
        data: status_addr,
        offsets: 0,
    };
    p.write_transaction_data(&tx).unwrap();
    p.set_data_position(0);
    p
}

#[test]
fn dispatch_skips_complete_and_delivers_reply() {
    let status_bytes = vec![0u8, 0, 0, 0];
    let status_addr = 0x7000u64;
    let mut p = reply_buffer(status_addr);
    let mut parser = ReturnParser::new();
    let mut statuses = Vec::new();
    loop {
        match parser.next(&mut p).unwrap() {
            ParseStep::Deliver(ReturnEvent::Reply(tx)) => {
                assert_eq!(tx.data, status_addr);
                assert_eq!(tx.data_size, 4);
                let mut reply = Parcel::from_vec(status_bytes.clone());
                statuses.push(reply.read_u32().unwrap());
                parser.record(true);
            }
            ParseStep::Handled(ev) => {
                assert_eq!(ev, ReturnEvent::Ack(BinderReturn::TransactionComplete));
            }
            ParseStep::Finished(progressed) => {
                assert!(progressed);
                break;
            }
            other => panic!("unexpected step {:?}", other),
        }
    }
    assert_eq!(statuses, vec![0]);
}

#[test]
fn fatal_returns_stop_the_loop() {
    let mut p = Parcel::new();
    p.write_u32(BinderReturn::DeadReply.value()).unwrap();
    p.set_data_position(0);
    assert_eq!(read_return(&mut p), Err(BinderError::DeadReply));
    let mut q = Parcel::new();
    q.write_u32(BinderReturn::FailedReply.value()).unwrap();
    q.set_data_position(0);
    assert_eq!(read_return(&mut q), Err(BinderError::FailedReply));
    let mut u = Parcel::new();
    u.write_u32(0x1234_5678).unwrap();
    u.set_data_position(0);
    let mut parser = ReturnParser::new();
    assert_eq!(parser.next(&mut u), Err(BinderError::UnknownReturn(0x1234_5678)));
}

#[test]
fn returns_with_payloads() {
    let mut p = Parcel::new();
    p.write_u32(BinderReturn::Error.value()).unwrap();
    p.write_i32(-22).unwrap();
    p.write_u32(BinderReturn::IncRefs.value()).unwrap();
    p.write_u64(0xabc).unwrap();
    p.write_u64(0xdef).unwrap();
    p.write_u32(BinderReturn::Release.value()).unwrap();
    p.write_u64(1).unwrap();
    p.write_u64(2).unwrap();
    p.write_u32(BinderReturn::DeadBinder.value()).unwrap();
    p.write_u64(0x99).unwrap();
    p.write_u32(BinderReturn::Noop.value()).unwrap();
    p.set_data_position(0);
    assert_eq!(read_return(&mut p), Ok(ReturnEvent::Error(-22)));
    assert_eq!(read_return(&mut p), Ok(ReturnEvent::IncRefs { ptr: 0xabc, cookie: 0xdef }));
    assert_eq!(read_return(&mut p), Ok(ReturnEvent::Ack(BinderReturn::Release)));
    assert_eq!(read_return(&mut p), Ok(ReturnEvent::DeadBinder(0x99)));
    assert_eq!(read_return(&mut p), Ok(ReturnEvent::Ack(BinderReturn::Noop)));
    assert!(!p.has_unread_data());
}

#[test]
fn truncated_return_is_not_enough_data() {
    let mut p = Parcel::new();
    p.write_u32(BinderReturn::Reply.value()).unwrap();
    p.write_u32(0).unwrap();
    p.set_data_position(0);
    assert_eq!(read_return(&mut p), Err(BinderError::NotEnoughData));
}

#[test]
fn write_consumption_contract() {
    assert_eq!(check_write_consumed(8, 8), Ok(true));
    assert_eq!(check_write_consumed(8, 0), Ok(false));
    assert_eq!(
        check_write_consumed(8, 4),
        Err(BinderError::PartialWrite { consumed: 4, size: 8 })
    );
}

#[test]
fn stability_words() {
    assert_eq!(i32::from(Stability::Vintf), 0b111111);
    assert_eq!(Stability::try_from_i32(0b001100), Ok(Stability::System));
    assert_eq!(Stability::try_from_i32(5), Err(BinderError::BadValue));
    assert_eq!(Stability::default(), Stability::System);
    assert_eq!(Stability::Vendor.value_for_version(12), 0x0c00_0003);
}

#[test]
fn device_paths_and_flags() {
    assert_eq!(BinderDevice::default().path(), "/dev/binder");
    assert_eq!(BinderDevice::HwBinder.path(), "/dev/hwbinder");
    assert_eq!(BinderDevice::VndBinder.path(), "/dev/vndbinder");
    let f = TransactionFlag::accept_fds().union(TransactionFlag::collect_noted_app_ops());
    assert_eq!(f.bits(), 0x12);
    assert!(f.contains(TransactionFlag::accept_fds()));
    assert!(!f.contains(TransactionFlag::one_way()));
}
