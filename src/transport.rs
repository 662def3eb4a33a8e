//! The transport's decisions: decoding the driver's return stream, the
//! receive loop's state, the write-consumption contract and the commands
//! that the transport sends.
use crate::error::BinderError;
use crate::parcel::Parcel;
use crate::protocol::{BinderCommand, BinderReturn};
use crate::transaction_data::{tx_bytes, tx_decode, BinderTransactionData};
use crate::wire::{le_bytes_u32, le_u32, le_u64, padded};
use vstd::prelude::*;

verus! {

/// One decoded event of the driver's return stream.
#[derive(Debug, Clone, Copy, PartialEq, Eq, Structural)]
pub enum ReturnEvent {
    /// The driver reports an error status.
    Error(i32),
    /// A return with nothing to act on; its fixed payload, if any, was skipped.
    Ack(BinderReturn),
    /// An incoming transaction.
    Transaction(BinderTransactionData),
    /// The reply to a transaction that this thread sent.
    Reply(BinderTransactionData),
    /// The status of an attempted acquire.
    AcquireResult(i32),
    /// A request to take a weak reference on a local object.
    IncRefs { ptr: u64, cookie: u64 },
    /// A request to take a strong reference on a local object.
    Acquire { ptr: u64, cookie: u64 },
    /// The remote object at this address died.
    DeadBinder(u64),
}

impl ReturnEvent {
    /// Whether the event goes to the caller's handler: transactions and replies.
    pub open spec fn delivered(self) -> bool {
        self is Transaction || self is Reply
    }

    /// Whether the event goes to the caller's handler: transactions and replies.
    pub fn is_delivered(&self) -> (r: bool)
        ensures
            r == self.delivered(),
    {
        match self {
            ReturnEvent::Transaction(_) | ReturnEvent::Reply(_) => true,
            _ => false,
        }
    }
}

/// The size of the fixed payload that follows a return code on the wire.
pub open spec fn payload_size(c: BinderReturn) -> nat {
    match c {
        BinderReturn::Error => 4,
        BinderReturn::Transaction => 64,
        BinderReturn::Reply => 64,
        BinderReturn::AcquireResult => 4,
        BinderReturn::IncRefs => 16,
        BinderReturn::Acquire => 16,
        BinderReturn::Release => 16,
        BinderReturn::DecRefs => 16,
        BinderReturn::AttemptAcquire => 12,
        BinderReturn::DeadBinder => 8,
        BinderReturn::ClearDeathNotification => 8,
        _ => 0,
    }
}

/// What decoding one return at `at` of `b` gives: the event and the position
/// after it, or the error. Dead and failed replies and unknown codes are
/// fatal.
pub open spec fn return_read(b: Seq<u8>, at: nat) -> Result<(ReturnEvent, nat), BinderError> {
    let pos = at as int;
    if pos + 4 > b.len() {
        Err(BinderError::NotEnoughData)
    } else {
        let v = le_u32(b.subrange(pos, pos + 4));
        let p = pos + 4;
        match BinderReturn::decode(v) {
            None => Err(BinderError::UnknownReturn(v)),
            Some(c) => if c == BinderReturn::DeadReply {
                Err(BinderError::DeadReply)
            } else if c == BinderReturn::FailedReply {
                Err(BinderError::FailedReply)
            } else if p + payload_size(c) > b.len() {
                Err(BinderError::NotEnoughData)
            } else {
                let next = (p + payload_size(c)) as nat;
                let ev = match c {
                    BinderReturn::Error => ReturnEvent::Error(le_u32(b.subrange(p, p + 4)) as i32),
                    BinderReturn::Transaction => ReturnEvent::Transaction(tx_decode(b.subrange(p, p + 64))),
                    BinderReturn::Reply => ReturnEvent::Reply(tx_decode(b.subrange(p, p + 64))),
                    BinderReturn::AcquireResult => ReturnEvent::AcquireResult(
                        le_u32(b.subrange(p, p + 4)) as i32,
                    ),
                    BinderReturn::IncRefs => ReturnEvent::IncRefs {
                        ptr: le_u64(b.subrange(p, p + 8)),
                        cookie: le_u64(b.subrange(p + 8, p + 16)),
                    },
                    BinderReturn::Acquire => ReturnEvent::Acquire {
                        ptr: le_u64(b.subrange(p, p + 8)),
                        cookie: le_u64(b.subrange(p + 8, p + 16)),
                    },
                    BinderReturn::DeadBinder => ReturnEvent::DeadBinder(le_u64(b.subrange(p, p + 8))),
                    _ => ReturnEvent::Ack(c),
                };
                Ok((ev, next))
            },
        }
    }
}

/// Decodes the return at the cursor of `parcel` and moves the cursor past
/// it and its payload.
pub fn read_return(parcel: &mut Parcel) -> (r: Result<ReturnEvent, BinderError>)
    ensures
        final(parcel).bytes() == old(parcel).bytes(),
        final(parcel).offsets_seq() == old(parcel).offsets_seq(),
        match return_read(old(parcel).bytes(), old(parcel).cursor()) {
            Ok((ev, next)) => r == Ok::<ReturnEvent, BinderError>(ev) && final(parcel).cursor() == next,
            Err(e) => r == Err::<ReturnEvent, BinderError>(e),
        },
{
    let ghost b = parcel.bytes();
    let ghost pos = parcel.cursor();
    let v = match parcel.read_u32() {
        Ok(v) => v,
        Err(e) => return Err(e),
    };
    let cmd = match BinderReturn::from_u32(v) {
        Some(c) => c,
        None => return Err(BinderError::UnknownReturn(v)),
    };
    let ghost p = (pos + 4) as int;
    match cmd {
        BinderReturn::DeadReply => Err(BinderError::DeadReply),
        BinderReturn::FailedReply => Err(BinderError::FailedReply),
        BinderReturn::Error => match parcel.read_i32() {
            Ok(s) => Ok(ReturnEvent::Error(s)),
            Err(e) => Err(e),
        },
        BinderReturn::AcquireResult => match parcel.read_i32() {
            Ok(s) => Ok(ReturnEvent::AcquireResult(s)),
            Err(e) => Err(e),
        },
        BinderReturn::Transaction => match parcel.read_transaction_data() {
            Ok(t) => Ok(ReturnEvent::Transaction(t)),
            Err(e) => Err(e),
        },
        BinderReturn::Reply => match parcel.read_transaction_data() {
            Ok(t) => Ok(ReturnEvent::Reply(t)),
            Err(e) => Err(e),
        },
        BinderReturn::IncRefs | BinderReturn::Acquire => {
            if parcel.data_avail() < 16 {
                return Err(BinderError::NotEnoughData);
            }
            let ptr = match parcel.read_u64() {
                Ok(x) => x,
                Err(e) => return Err(e),
            };
            let cookie = match parcel.read_u64() {
                Ok(x) => x,
                Err(e) => return Err(e),
            };
            assert(b.subrange(p + 8, p + 16) =~= parcel.bytes().subrange(p + 8, p + 16));
            if cmd == BinderReturn::IncRefs {
                Ok(ReturnEvent::IncRefs { ptr, cookie })
            } else {
                Ok(ReturnEvent::Acquire { ptr, cookie })
            }
        },
        BinderReturn::DeadBinder => match parcel.read_u64() {
            Ok(x) => Ok(ReturnEvent::DeadBinder(x)),
            Err(e) => Err(e),
        },
        BinderReturn::Release | BinderReturn::DecRefs | BinderReturn::AttemptAcquire
        | BinderReturn::ClearDeathNotification => {
            let n: usize = if cmd == BinderReturn::AttemptAcquire {
                12
            } else if cmd == BinderReturn::ClearDeathNotification {
                8
            } else {
                16
            };
            assert(padded(n as nat) == n);
            match parcel.read(n) {
                Ok(_) => Ok(ReturnEvent::Ack(cmd)),
                Err(e) => Err(e),
            }
        },
        _ => Ok(ReturnEvent::Ack(cmd)),
    }
}

/// What the receive loop does next.
#[derive(Debug, Clone, Copy, PartialEq, Eq, Structural)]
pub enum ParseStep {
    /// Hand the event to the caller's handler, then report what it returned.
    Deliver(ReturnEvent),
    /// The event was handled here.
    Handled(ReturnEvent),
    /// The buffer is consumed; whether the handler made progress.
    Finished(bool),
}

/// The state of the receive loop over one read buffer: whether the
/// caller's handler has made progress. Once it has, later events are
/// handled here.
#[derive(Debug, Clone, Copy, PartialEq, Eq, Structural)]
pub struct ReturnParser {
    pub progressed: bool,
}

impl ReturnParser {
    pub fn new() -> (r: Self)
        ensures
            !r.progressed,
    {
        ReturnParser { progressed: false }
    }

    /// The next step over `parcel`: finished where nothing is left unread,
    /// else the next return, decoded, for the handler if it is a transaction
    /// or reply and the handler has not made progress yet. A fatal return is
    /// the error, and so is an error status from the driver, as
    /// `DriverError`.
    pub fn next(&mut self, parcel: &mut Parcel) -> (r: Result<ParseStep, BinderError>)
        ensures
            *final(self) == *old(self),
            old(parcel).cursor() == old(parcel).size() ==> r == Ok::<ParseStep, BinderError>(
                ParseStep::Finished(old(self).progressed),
            ) && *final(parcel) == *old(parcel),
            old(parcel).cursor() != old(parcel).size() ==> {
                &&& final(parcel).bytes() == old(parcel).bytes()
                &&& match return_read(old(parcel).bytes(), old(parcel).cursor()) {
                    Ok((ev, next)) => final(parcel).cursor() == next && r == (match ev {
                        ReturnEvent::Error(status) => Err::<ParseStep, BinderError>(BinderError::DriverError(status)),
                        _ => Ok::<ParseStep, BinderError>(
                            if ev.delivered() && !old(self).progressed {
                                ParseStep::Deliver(ev)
                            } else {
                                ParseStep::Handled(ev)
                            },
                        ),
                    }),
                    Err(e) => r == Err::<ParseStep, BinderError>(e),
                }
            },
    {
        if !parcel.has_unread_data() {
            return Ok(ParseStep::Finished(self.progressed));
        }
        let ev = match read_return(parcel) {
            Ok(ReturnEvent::Error(status)) => return Err(BinderError::DriverError(status)),
            Ok(ev) => ev,
            Err(e) => return Err(e),
        };
        if ev.is_delivered() && !self.progressed {
            Ok(ParseStep::Deliver(ev))
        } else {
            Ok(ParseStep::Handled(ev))
        }
    }

    /// Records what the handler returned for a delivered event.
    pub fn record(&mut self, handler_progressed: bool)
        ensures
            final(self).progressed == (old(self).progressed || handler_progressed),
    {
        self.progressed = self.progressed || handler_progressed;
    }
}

/// The driver's answer to a write of `size` bytes of which it consumed
/// `consumed`: `Ok(true)` where it took the whole buffer, `Ok(false)` where
/// it took none, and `PartialWrite` where it took part of it, which breaks
/// the channel.
pub fn check_write_consumed(size: usize, consumed: usize) -> (r: Result<bool, BinderError>)
    ensures
        consumed == 0 ==> r == Ok::<bool, BinderError>(false),
        consumed >= size && consumed > 0 ==> r == Ok::<bool, BinderError>(true),
        0 < consumed < size ==> r == Err::<bool, BinderError>(BinderError::PartialWrite { consumed, size }),
{
    if consumed == 0 {
        Ok(false)
    } else if consumed < size {
        Err(BinderError::PartialWrite { consumed, size })
    } else {
        Ok(true)
    }
}

/// A parcel that holds the command `cmd` alone.
pub fn command_parcel(cmd: BinderCommand) -> (r: Parcel)
    ensures
        r.bytes() == le_bytes_u32(cmd.wire()),
        r.cursor() == 4,
        r.offsets_seq().len() == 0,
{
    let mut p = Parcel::new();
    let w = p.write_u32(cmd.value());
    proof {
        assert(w is Ok);
        assert(crate::parcel::pad_bytes(le_bytes_u32(cmd.wire())) =~= le_bytes_u32(cmd.wire()));
        assert(crate::parcel::overwrite(Seq::empty(), 0, le_bytes_u32(cmd.wire())) =~= le_bytes_u32(cmd.wire()));
    }
    p
}

/// A parcel that holds the command `cmd` followed by the envelope `tx`.
pub fn transaction_command(cmd: BinderCommand, tx: &BinderTransactionData) -> (r: Parcel)
    ensures
        r.bytes() == le_bytes_u32(cmd.wire()) + tx_bytes(*tx),
        r.cursor() == 68,
        r.offsets_seq().len() == 0,
{
    let mut p = command_parcel(cmd);
    let w = p.write_transaction_data(tx);
    proof {
        assert(w is Ok);
        assert(crate::parcel::pad_bytes(tx_bytes(*tx)) =~= tx_bytes(*tx));
        assert(crate::parcel::overwrite(le_bytes_u32(cmd.wire()), 4, tx_bytes(*tx)) =~= le_bytes_u32(cmd.wire())
            + tx_bytes(*tx));
    }
    p
}

} // verus!
