//! The closed vocabularies that both ends of the channel agree on: command
//! codes sent to the driver, return codes received from it, reserved
//! transaction codes and transaction flags.
use vstd::prelude::*;

verus! {

/// Direction write, argument size 0x40, group 'c', number 0.
pub const BC_TRANSACTION: u32 = 0x40406300;
/// Direction write, argument size 0x40, group 'c', number 1.
pub const BC_REPLY: u32 = 0x40406301;
/// Direction write, argument size 0x4, group 'c', number 2.
pub const BC_ACQUIRE_RESULT: u32 = 0x40046302;
/// Direction write, argument size 0x8, group 'c', number 3.
pub const BC_FREE_BUFFER: u32 = 0x40086303;
/// Direction write, argument size 0x4, group 'c', number 4.
pub const BC_INCREFS: u32 = 0x40046304;
/// Direction write, argument size 0x4, group 'c', number 5.
pub const BC_ACQUIRE: u32 = 0x40046305;
/// Direction write, argument size 0x4, group 'c', number 6.
pub const BC_RELEASE: u32 = 0x40046306;
/// Direction write, argument size 0x4, group 'c', number 7.
pub const BC_DECREFS: u32 = 0x40046307;
/// Direction write, argument size 0x10, group 'c', number 8.
pub const BC_INCREFS_DONE: u32 = 0x40106308;
/// Direction write, argument size 0x10, group 'c', number 9.
pub const BC_ACQUIRE_DONE: u32 = 0x40106309;
/// Direction write, argument size 0x10, group 'c', number 10.
pub const BC_ATTEMPT_ACQUIRE: u32 = 0x4010630a;
/// Direction none, argument size 0x0, group 'c', number 11.
pub const BC_REGISTER_LOOPER: u32 = 0x0000630b;
/// Direction none, argument size 0x0, group 'c', number 12.
pub const BC_ENTER_LOOPER: u32 = 0x0000630c;
/// Direction none, argument size 0x0, group 'c', number 13.
pub const BC_EXIT_LOOPER: u32 = 0x0000630d;
/// Direction write, argument size 0xc, group 'c', number 14.
pub const BC_REQUEST_DEATH_NOTIFICATION: u32 = 0x400c630e;
/// Direction write, argument size 0xc, group 'c', number 15.
pub const BC_CLEAR_DEATH_NOTIFICATION: u32 = 0x400c630f;
/// Direction write, argument size 0x8, group 'c', number 16.
pub const BC_DEAD_BINDER_DONE: u32 = 0x40086310;
/// Direction write, argument size 0x48, group 'c', number 17.
pub const BC_TRANSACTION_SG: u32 = 0x40486311;
/// Direction write, argument size 0x48, group 'c', number 18.
pub const BC_REPLY_SG: u32 = 0x40486312;

/// Direction read, argument size 0x4, group 'r', number 0.
pub const BR_ERROR: u32 = 0x80047200;
/// Direction read, argument size 0x0, group 'r', number 1.
pub const BR_OK: u32 = 0x80007201;
/// Direction read, argument size 0x40, group 'r', number 2.
pub const BR_TRANSACTION: u32 = 0x80407202;
/// Direction read, argument size 0x40, group 'r', number 3.
pub const BR_REPLY: u32 = 0x80407203;
/// Direction read, argument size 0x4, group 'r', number 4.
pub const BR_ACQUIRE_RESULT: u32 = 0x80047204;
/// Direction none, argument size 0x0, group 'r', number 5.
pub const BR_DEAD_REPLY: u32 = 0x00007205;
/// Direction none, argument size 0x0, group 'r', number 6.
pub const BR_TRANSACTION_COMPLETE: u32 = 0x00007206;
/// Direction read, argument size 0x10, group 'r', number 7.
pub const BR_INCREFS: u32 = 0x80107207;
/// Direction read, argument size 0x10, group 'r', number 8.
pub const BR_ACQUIRE: u32 = 0x80107208;
/// Direction read, argument size 0x10, group 'r', number 9.
pub const BR_RELEASE: u32 = 0x80107209;
/// Direction read, argument size 0x10, group 'r', number 10.
pub const BR_DECREFS: u32 = 0x8010720a;
/// Direction read, argument size 0xc, group 'r', number 11.
pub const BR_ATTEMPT_ACQUIRE: u32 = 0x800c720b;
/// Direction none, argument size 0x0, group 'r', number 12.
pub const BR_NOOP: u32 = 0x0000720c;
/// Direction none, argument size 0x0, group 'r', number 13.
pub const BR_SPAWN_LOOPER: u32 = 0x0000720d;
/// Direction none, argument size 0x0, group 'r', number 14.
pub const BR_FINISHED: u32 = 0x0000720e;
/// Direction read, argument size 0x8, group 'r', number 15.
pub const BR_DEAD_BINDER: u32 = 0x8008720f;
/// Direction read, argument size 0x8, group 'r', number 16.
pub const BR_CLEAR_DEATH_NOTIFICATION_DONE: u32 = 0x80087210;
/// Direction none, argument size 0x0, group 'r', number 17.
pub const BR_FAILED_REPLY: u32 = 0x00007211;
/// Direction none, argument size 0x0, group 'r', number 18.
pub const BR_FROZEN_REPLY: u32 = 0x00007212;
/// Direction none, argument size 0x0, group 'r', number 19.
pub const BR_ONEWAY_SPAM_SUSPECT: u32 = 0x00007213;

/// A verb sent to the driver.
#[derive(Debug, Clone, Copy, PartialEq, Eq, Structural)]
pub enum BinderCommand {
    Transaction,
    Reply,
    AcquireResult,
    FreeBuffer,
    IncRefs,
    Acquire,
    Release,
    DecRefs,
    IncRefsDone,
    AcquireDone,
    AttemptAcquire,
    RegisterLooper,
    EnterLooper,
    ExitLooper,
    RequestDeathNotification,
    ClearDeathNotification,
    DeadBinderDone,
    TransactionSG,
    ReplySG,
}

impl BinderCommand {
    /// The 32-bit code of this verb on the wire.
    pub open spec fn wire(self) -> u32 {
        match self {
            BinderCommand::Transaction => BC_TRANSACTION,
            BinderCommand::Reply => BC_REPLY,
            BinderCommand::AcquireResult => BC_ACQUIRE_RESULT,
            BinderCommand::FreeBuffer => BC_FREE_BUFFER,
            BinderCommand::IncRefs => BC_INCREFS,
            BinderCommand::Acquire => BC_ACQUIRE,
            BinderCommand::Release => BC_RELEASE,
            BinderCommand::DecRefs => BC_DECREFS,
            BinderCommand::IncRefsDone => BC_INCREFS_DONE,
            BinderCommand::AcquireDone => BC_ACQUIRE_DONE,
            BinderCommand::AttemptAcquire => BC_ATTEMPT_ACQUIRE,
            BinderCommand::RegisterLooper => BC_REGISTER_LOOPER,
            BinderCommand::EnterLooper => BC_ENTER_LOOPER,
            BinderCommand::ExitLooper => BC_EXIT_LOOPER,
            BinderCommand::RequestDeathNotification => BC_REQUEST_DEATH_NOTIFICATION,
            BinderCommand::ClearDeathNotification => BC_CLEAR_DEATH_NOTIFICATION,
            BinderCommand::DeadBinderDone => BC_DEAD_BINDER_DONE,
            BinderCommand::TransactionSG => BC_TRANSACTION_SG,
            BinderCommand::ReplySG => BC_REPLY_SG,
        }
    }

    /// The verb whose code is `v`, if there is one.
    pub open spec fn decode(v: u32) -> Option<Self> {
        if v == BC_TRANSACTION {
            Some(BinderCommand::Transaction)
        } else if v == BC_REPLY {
            Some(BinderCommand::Reply)
        } else if v == BC_ACQUIRE_RESULT {
            Some(BinderCommand::AcquireResult)
        } else if v == BC_FREE_BUFFER {
            Some(BinderCommand::FreeBuffer)
        } else if v == BC_INCREFS {
            Some(BinderCommand::IncRefs)
        } else if v == BC_ACQUIRE {
            Some(BinderCommand::Acquire)
        } else if v == BC_RELEASE {
            Some(BinderCommand::Release)
        } else if v == BC_DECREFS {
            Some(BinderCommand::DecRefs)
        } else if v == BC_INCREFS_DONE {
            Some(BinderCommand::IncRefsDone)
        } else if v == BC_ACQUIRE_DONE {
            Some(BinderCommand::AcquireDone)
        } else if v == BC_ATTEMPT_ACQUIRE {
            Some(BinderCommand::AttemptAcquire)
        } else if v == BC_REGISTER_LOOPER {
            Some(BinderCommand::RegisterLooper)
        } else if v == BC_ENTER_LOOPER {
            Some(BinderCommand::EnterLooper)
        } else if v == BC_EXIT_LOOPER {
            Some(BinderCommand::ExitLooper)
        } else if v == BC_REQUEST_DEATH_NOTIFICATION {
            Some(BinderCommand::RequestDeathNotification)
        } else if v == BC_CLEAR_DEATH_NOTIFICATION {
            Some(BinderCommand::ClearDeathNotification)
        } else if v == BC_DEAD_BINDER_DONE {
            Some(BinderCommand::DeadBinderDone)
        } else if v == BC_TRANSACTION_SG {
            Some(BinderCommand::TransactionSG)
        } else if v == BC_REPLY_SG {
            Some(BinderCommand::ReplySG)
        } else {
            None
        }
    }

    /// The 32-bit code of this verb on the wire.
    pub fn value(&self) -> (r: u32)
        ensures
            r == self.wire(),
    {
        match self {
            BinderCommand::Transaction => BC_TRANSACTION,
            BinderCommand::Reply => BC_REPLY,
            BinderCommand::AcquireResult => BC_ACQUIRE_RESULT,
            BinderCommand::FreeBuffer => BC_FREE_BUFFER,
            BinderCommand::IncRefs => BC_INCREFS,
            BinderCommand::Acquire => BC_ACQUIRE,
            BinderCommand::Release => BC_RELEASE,
            BinderCommand::DecRefs => BC_DECREFS,
            BinderCommand::IncRefsDone => BC_INCREFS_DONE,
            BinderCommand::AcquireDone => BC_ACQUIRE_DONE,
            BinderCommand::AttemptAcquire => BC_ATTEMPT_ACQUIRE,
            BinderCommand::RegisterLooper => BC_REGISTER_LOOPER,
            BinderCommand::EnterLooper => BC_ENTER_LOOPER,
            BinderCommand::ExitLooper => BC_EXIT_LOOPER,
            BinderCommand::RequestDeathNotification => BC_REQUEST_DEATH_NOTIFICATION,
            BinderCommand::ClearDeathNotification => BC_CLEAR_DEATH_NOTIFICATION,
            BinderCommand::DeadBinderDone => BC_DEAD_BINDER_DONE,
            BinderCommand::TransactionSG => BC_TRANSACTION_SG,
            BinderCommand::ReplySG => BC_REPLY_SG,
        }
    }

    /// The verb whose code is `v`; `None` for a code outside the protocol.
    pub fn from_u32(v: u32) -> (r: Option<Self>)
        ensures
            r == Self::decode(v),
    {
        if v == BC_TRANSACTION {
            Some(BinderCommand::Transaction)
        } else if v == BC_REPLY {
            Some(BinderCommand::Reply)
        } else if v == BC_ACQUIRE_RESULT {
            Some(BinderCommand::AcquireResult)
        } else if v == BC_FREE_BUFFER {
            Some(BinderCommand::FreeBuffer)
        } else if v == BC_INCREFS {
            Some(BinderCommand::IncRefs)
        } else if v == BC_ACQUIRE {
            Some(BinderCommand::Acquire)
        } else if v == BC_RELEASE {
            Some(BinderCommand::Release)
        } else if v == BC_DECREFS {
            Some(BinderCommand::DecRefs)
        } else if v == BC_INCREFS_DONE {
            Some(BinderCommand::IncRefsDone)
        } else if v == BC_ACQUIRE_DONE {
            Some(BinderCommand::AcquireDone)
        } else if v == BC_ATTEMPT_ACQUIRE {
            Some(BinderCommand::AttemptAcquire)
        } else if v == BC_REGISTER_LOOPER {
            Some(BinderCommand::RegisterLooper)
        } else if v == BC_ENTER_LOOPER {
            Some(BinderCommand::EnterLooper)
        } else if v == BC_EXIT_LOOPER {
            Some(BinderCommand::ExitLooper)
        } else if v == BC_REQUEST_DEATH_NOTIFICATION {
            Some(BinderCommand::RequestDeathNotification)
        } else if v == BC_CLEAR_DEATH_NOTIFICATION {
            Some(BinderCommand::ClearDeathNotification)
        } else if v == BC_DEAD_BINDER_DONE {
            Some(BinderCommand::DeadBinderDone)
        } else if v == BC_TRANSACTION_SG {
            Some(BinderCommand::TransactionSG)
        } else if v == BC_REPLY_SG {
            Some(BinderCommand::ReplySG)
        } else {
            None
        }
    }
}

/// A verb received from the driver.
#[derive(Debug, Clone, Copy, PartialEq, Eq, Structural)]
pub enum BinderReturn {
    Error,
    Okay,
    Transaction,
    Reply,
    AcquireResult,
    DeadReply,
    TransactionComplete,
    IncRefs,
    Acquire,
    Release,
    DecRefs,
    AttemptAcquire,
    Noop,
    SpawnLooper,
    Finished,
    DeadBinder,
    ClearDeathNotification,
    FailedReply,
    FrozenReply,
    OnwaySpamSuspect,
}

impl BinderReturn {
    /// The 32-bit code of this verb on the wire.
    pub open spec fn wire(self) -> u32 {
        match self {
            BinderReturn::Error => BR_ERROR,
            BinderReturn::Okay => BR_OK,
            BinderReturn::Transaction => BR_TRANSACTION,
            BinderReturn::Reply => BR_REPLY,
            BinderReturn::AcquireResult => BR_ACQUIRE_RESULT,
            BinderReturn::DeadReply => BR_DEAD_REPLY,
            BinderReturn::TransactionComplete => BR_TRANSACTION_COMPLETE,
            BinderReturn::IncRefs => BR_INCREFS,
            BinderReturn::Acquire => BR_ACQUIRE,
            BinderReturn::Release => BR_RELEASE,
            BinderReturn::DecRefs => BR_DECREFS,
            BinderReturn::AttemptAcquire => BR_ATTEMPT_ACQUIRE,
            BinderReturn::Noop => BR_NOOP,
            BinderReturn::SpawnLooper => BR_SPAWN_LOOPER,
            BinderReturn::Finished => BR_FINISHED,
            BinderReturn::DeadBinder => BR_DEAD_BINDER,
            BinderReturn::ClearDeathNotification => BR_CLEAR_DEATH_NOTIFICATION_DONE,
            BinderReturn::FailedReply => BR_FAILED_REPLY,
            BinderReturn::FrozenReply => BR_FROZEN_REPLY,
            BinderReturn::OnwaySpamSuspect => BR_ONEWAY_SPAM_SUSPECT,
        }
    }

    /// The verb whose code is `v`, if there is one.
    pub open spec fn decode(v: u32) -> Option<Self> {
        if v == BR_ERROR {
            Some(BinderReturn::Error)
        } else if v == BR_OK {
            Some(BinderReturn::Okay)
        } else if v == BR_TRANSACTION {
            Some(BinderReturn::Transaction)
        } else if v == BR_REPLY {
            Some(BinderReturn::Reply)
        } else if v == BR_ACQUIRE_RESULT {
            Some(BinderReturn::AcquireResult)
        } else if v == BR_DEAD_REPLY {
            Some(BinderReturn::DeadReply)
        } else if v == BR_TRANSACTION_COMPLETE {
            Some(BinderReturn::TransactionComplete)
        } else if v == BR_INCREFS {
            Some(BinderReturn::IncRefs)
        } else if v == BR_ACQUIRE {
            Some(BinderReturn::Acquire)
        } else if v == BR_RELEASE {
            Some(BinderReturn::Release)
        } else if v == BR_DECREFS {
            Some(BinderReturn::DecRefs)
        } else if v == BR_ATTEMPT_ACQUIRE {
            Some(BinderReturn::AttemptAcquire)
        } else if v == BR_NOOP {
            Some(BinderReturn::Noop)
        } else if v == BR_SPAWN_LOOPER {
            Some(BinderReturn::SpawnLooper)
        } else if v == BR_FINISHED {
            Some(BinderReturn::Finished)
        } else if v == BR_DEAD_BINDER {
            Some(BinderReturn::DeadBinder)
        } else if v == BR_CLEAR_DEATH_NOTIFICATION_DONE {
            Some(BinderReturn::ClearDeathNotification)
        } else if v == BR_FAILED_REPLY {
            Some(BinderReturn::FailedReply)
        } else if v == BR_FROZEN_REPLY {
            Some(BinderReturn::FrozenReply)
        } else if v == BR_ONEWAY_SPAM_SUSPECT {
            Some(BinderReturn::OnwaySpamSuspect)
        } else {
            None
        }
    }

    /// The 32-bit code of this verb on the wire.
    pub fn value(&self) -> (r: u32)
        ensures
            r == self.wire(),
    {
        match self {
            BinderReturn::Error => BR_ERROR,
            BinderReturn::Okay => BR_OK,
            BinderReturn::Transaction => BR_TRANSACTION,
            BinderReturn::Reply => BR_REPLY,
            BinderReturn::AcquireResult => BR_ACQUIRE_RESULT,
            BinderReturn::DeadReply => BR_DEAD_REPLY,
            BinderReturn::TransactionComplete => BR_TRANSACTION_COMPLETE,
            BinderReturn::IncRefs => BR_INCREFS,
            BinderReturn::Acquire => BR_ACQUIRE,
            BinderReturn::Release => BR_RELEASE,
            BinderReturn::DecRefs => BR_DECREFS,
            BinderReturn::AttemptAcquire => BR_ATTEMPT_ACQUIRE,
            BinderReturn::Noop => BR_NOOP,
            BinderReturn::SpawnLooper => BR_SPAWN_LOOPER,
            BinderReturn::Finished => BR_FINISHED,
            BinderReturn::DeadBinder => BR_DEAD_BINDER,
            BinderReturn::ClearDeathNotification => BR_CLEAR_DEATH_NOTIFICATION_DONE,
            BinderReturn::FailedReply => BR_FAILED_REPLY,
            BinderReturn::FrozenReply => BR_FROZEN_REPLY,
            BinderReturn::OnwaySpamSuspect => BR_ONEWAY_SPAM_SUSPECT,
        }
    }

    /// The verb whose code is `v`; `None` for a code outside the protocol.
    pub fn from_u32(v: u32) -> (r: Option<Self>)
        ensures
            r == Self::decode(v),
    {
        if v == BR_ERROR {
            Some(BinderReturn::Error)
        } else if v == BR_OK {
            Some(BinderReturn::Okay)
        } else if v == BR_TRANSACTION {
            Some(BinderReturn::Transaction)
        } else if v == BR_REPLY {
            Some(BinderReturn::Reply)
        } else if v == BR_ACQUIRE_RESULT {
            Some(BinderReturn::AcquireResult)
        } else if v == BR_DEAD_REPLY {
            Some(BinderReturn::DeadReply)
        } else if v == BR_TRANSACTION_COMPLETE {
            Some(BinderReturn::TransactionComplete)
        } else if v == BR_INCREFS {
            Some(BinderReturn::IncRefs)
        } else if v == BR_ACQUIRE {
            Some(BinderReturn::Acquire)
        } else if v == BR_RELEASE {
            Some(BinderReturn::Release)
        } else if v == BR_DECREFS {
            Some(BinderReturn::DecRefs)
        } else if v == BR_ATTEMPT_ACQUIRE {
            Some(BinderReturn::AttemptAcquire)
        } else if v == BR_NOOP {
            Some(BinderReturn::Noop)
        } else if v == BR_SPAWN_LOOPER {
            Some(BinderReturn::SpawnLooper)
        } else if v == BR_FINISHED {
            Some(BinderReturn::Finished)
        } else if v == BR_DEAD_BINDER {
            Some(BinderReturn::DeadBinder)
        } else if v == BR_CLEAR_DEATH_NOTIFICATION_DONE {
            Some(BinderReturn::ClearDeathNotification)
        } else if v == BR_FAILED_REPLY {
            Some(BinderReturn::FailedReply)
        } else if v == BR_FROZEN_REPLY {
            Some(BinderReturn::FrozenReply)
        } else if v == BR_ONEWAY_SPAM_SUSPECT {
            Some(BinderReturn::OnwaySpamSuspect)
        } else {
            None
        }
    }
}

pub const UNSET_TRANSACTION: u32 = 0;
pub const FIRST_CALL_TRANSACTION: u32 = 1;
pub const LAST_CALL_TRANSACTION: u32 = 0xff_ffff;
/// The characters "_PNG" packed most significant first.
pub const PING_TRANSACTION: u32 = 0x5f504e47;
/// The characters "_DMP" packed most significant first.
pub const DUMP_TRANSACTION: u32 = 0x5f444d50;
/// The characters "_CMD" packed most significant first.
pub const SHELL_COMMAND_TRANSACTION: u32 = 0x5f434d44;
/// The characters "_NTF" packed most significant first.
pub const INTERFACE_TRANSACTION: u32 = 0x5f4e5446;
/// The characters "_SPR" packed most significant first.
pub const SYSPROPS_TRANSACTION: u32 = 0x5f535052;
/// The characters "_EXT" packed most significant first.
pub const EXTENSION_TRANSACTION: u32 = 0x5f455854;
/// The characters "_PID" packed most significant first.
pub const DEBUG_PID_TRANSACTION: u32 = 0x5f504944;
/// The characters "_TWT" packed most significant first.
pub const TWEET_TRANSACTION: u32 = 0x5f545754;
/// The characters "_LIK" packed most significant first.
pub const LIKE_TRANSACTION: u32 = 0x5f4c494b;

/// A transaction code reserved by convention.
#[derive(Debug, Clone, Copy, PartialEq, Eq, Structural)]
pub enum Transaction {
    Unset,
    FirstCall,
    LastCall,
    Ping,
    Dump,
    ShellCommand,
    Interface,
    Sysprops,
    Extension,
    DebugPid,
    Tweet,
    Like,
}

impl Transaction {
    /// The 32-bit code of this transaction.
    pub open spec fn wire(self) -> u32 {
        match self {
            Transaction::Unset => UNSET_TRANSACTION,
            Transaction::FirstCall => FIRST_CALL_TRANSACTION,
            Transaction::LastCall => LAST_CALL_TRANSACTION,
            Transaction::Ping => PING_TRANSACTION,
            Transaction::Dump => DUMP_TRANSACTION,
            Transaction::ShellCommand => SHELL_COMMAND_TRANSACTION,
            Transaction::Interface => INTERFACE_TRANSACTION,
            Transaction::Sysprops => SYSPROPS_TRANSACTION,
            Transaction::Extension => EXTENSION_TRANSACTION,
            Transaction::DebugPid => DEBUG_PID_TRANSACTION,
            Transaction::Tweet => TWEET_TRANSACTION,
            Transaction::Like => LIKE_TRANSACTION,
        }
    }

    /// The reserved transaction whose code is `v`, if there is one.
    pub open spec fn decode(v: u32) -> Option<Self> {
        if v == UNSET_TRANSACTION {
            Some(Transaction::Unset)
        } else if v == FIRST_CALL_TRANSACTION {
            Some(Transaction::FirstCall)
        } else if v == LAST_CALL_TRANSACTION {
            Some(Transaction::LastCall)
        } else if v == PING_TRANSACTION {
            Some(Transaction::Ping)
        } else if v == DUMP_TRANSACTION {
            Some(Transaction::Dump)
        } else if v == SHELL_COMMAND_TRANSACTION {
            Some(Transaction::ShellCommand)
        } else if v == INTERFACE_TRANSACTION {
            Some(Transaction::Interface)
        } else if v == SYSPROPS_TRANSACTION {
            Some(Transaction::Sysprops)
        } else if v == EXTENSION_TRANSACTION {
            Some(Transaction::Extension)
        } else if v == DEBUG_PID_TRANSACTION {
            Some(Transaction::DebugPid)
        } else if v == TWEET_TRANSACTION {
            Some(Transaction::Tweet)
        } else if v == LIKE_TRANSACTION {
            Some(Transaction::Like)
        } else {
            None
        }
    }

    /// The 32-bit code of this transaction.
    pub fn value(&self) -> (r: u32)
        ensures
            r == self.wire(),
    {
        match self {
            Transaction::Unset => UNSET_TRANSACTION,
            Transaction::FirstCall => FIRST_CALL_TRANSACTION,
            Transaction::LastCall => LAST_CALL_TRANSACTION,
            Transaction::Ping => PING_TRANSACTION,
            Transaction::Dump => DUMP_TRANSACTION,
            Transaction::ShellCommand => SHELL_COMMAND_TRANSACTION,
            Transaction::Interface => INTERFACE_TRANSACTION,
            Transaction::Sysprops => SYSPROPS_TRANSACTION,
            Transaction::Extension => EXTENSION_TRANSACTION,
            Transaction::DebugPid => DEBUG_PID_TRANSACTION,
            Transaction::Tweet => TWEET_TRANSACTION,
            Transaction::Like => LIKE_TRANSACTION,
        }
    }

    /// The reserved transaction whose code is `v`; `None` for any other code.
    pub fn from_u32(v: u32) -> (r: Option<Self>)
        ensures
            r == Self::decode(v),
    {
        if v == UNSET_TRANSACTION {
            Some(Transaction::Unset)
        } else if v == FIRST_CALL_TRANSACTION {
            Some(Transaction::FirstCall)
        } else if v == LAST_CALL_TRANSACTION {
            Some(Transaction::LastCall)
        } else if v == PING_TRANSACTION {
            Some(Transaction::Ping)
        } else if v == DUMP_TRANSACTION {
            Some(Transaction::Dump)
        } else if v == SHELL_COMMAND_TRANSACTION {
            Some(Transaction::ShellCommand)
        } else if v == INTERFACE_TRANSACTION {
            Some(Transaction::Interface)
        } else if v == SYSPROPS_TRANSACTION {
            Some(Transaction::Sysprops)
        } else if v == EXTENSION_TRANSACTION {
            Some(Transaction::Extension)
        } else if v == DEBUG_PID_TRANSACTION {
            Some(Transaction::DebugPid)
        } else if v == TWEET_TRANSACTION {
            Some(Transaction::Tweet)
        } else if v == LIKE_TRANSACTION {
            Some(Transaction::Like)
        } else {
            None
        }
    }
}

impl From<Transaction> for u32 {
    fn from(t: Transaction) -> (r: u32) {
        t.value()
    }
}

impl vstd::std_specs::convert::FromSpecImpl<Transaction> for u32 {
    open spec fn obeys_from_spec() -> bool {
        true
    }

    open spec fn from_spec(t: Transaction) -> u32 {
        t.wire()
    }
}

/// Decoding the code of a command gives the command back.
pub proof fn lemma_command_code_round_trip(c: BinderCommand)
    ensures
        BinderCommand::decode(c.wire()) == Some(c),
{
}

/// Decoding the code of a return gives the return back.
pub proof fn lemma_return_code_round_trip(c: BinderReturn)
    ensures
        BinderReturn::decode(c.wire()) == Some(c),
{
}

/// Decoding the code of a reserved transaction gives it back.
pub proof fn lemma_transaction_code_round_trip(t: Transaction)
    ensures
        Transaction::decode(t.wire()) == Some(t),
{
}

/// Per-call behaviour bits of a transaction.
#[derive(Debug, Clone, Copy, PartialEq, Eq, Structural)]
pub struct TransactionFlag {
    pub bits: u32,
}

pub const FLAG_ONE_WAY: u32 = 1;
pub const FLAG_COLLECT_NOTED_APP_OPS: u32 = 2;
pub const FLAG_ROOT_OBJECT: u32 = 4;
pub const FLAG_STATUS_CODE: u32 = 8;
pub const FLAG_ACCEPT_FDS: u32 = 0x10;
pub const FLAG_CLEAR_BUF: u32 = 0x20;

/// The bits that name a flag.
pub const FLAG_ALL: u32 = 0x3f;

impl TransactionFlag {
    /// No flag set.
    pub fn empty() -> (r: Self)
        ensures
            r.bits == 0,
    {
        TransactionFlag { bits: 0 }
    }

    /// The flags whose bits are set in `bits`; bits that name no flag are dropped.
    pub fn from_bits_truncate(bits: u32) -> (r: Self)
        ensures
            r.bits == bits & FLAG_ALL,
    {
        TransactionFlag { bits: bits & FLAG_ALL }
    }

    pub fn one_way() -> (r: Self)
        ensures
            r.bits == FLAG_ONE_WAY,
    {
        TransactionFlag { bits: FLAG_ONE_WAY }
    }

    pub fn collect_noted_app_ops() -> (r: Self)
        ensures
            r.bits == FLAG_COLLECT_NOTED_APP_OPS,
    {
        TransactionFlag { bits: FLAG_COLLECT_NOTED_APP_OPS }
    }

    pub fn root_object() -> (r: Self)
        ensures
            r.bits == FLAG_ROOT_OBJECT,
    {
        TransactionFlag { bits: FLAG_ROOT_OBJECT }
    }

    pub fn status_code() -> (r: Self)
        ensures
            r.bits == FLAG_STATUS_CODE,
    {
        TransactionFlag { bits: FLAG_STATUS_CODE }
    }

    pub fn accept_fds() -> (r: Self)
        ensures
            r.bits == FLAG_ACCEPT_FDS,
    {
        TransactionFlag { bits: FLAG_ACCEPT_FDS }
    }

    pub fn clear_buf() -> (r: Self)
        ensures
            r.bits == FLAG_CLEAR_BUF,
    {
        TransactionFlag { bits: FLAG_CLEAR_BUF }
    }

    /// The flags set in either operand.
    pub fn union(self, other: Self) -> (r: Self)
        ensures
            r.bits == self.bits | other.bits,
    {
        TransactionFlag { bits: self.bits | other.bits }
    }

    /// Whether every flag of `other` is set in `self`.
    pub fn contains(self, other: Self) -> (r: bool)
        ensures
            r == (self.bits & other.bits == other.bits),
    {
        self.bits & other.bits == other.bits
    }

    pub fn bits(self) -> (r: u32)
        ensures
            r == self.bits,
    {
        self.bits
    }
}

/// The default maximum number of worker threads announced to the driver.
pub const DEFAULT_MAX_BINDER_THREADS: u32 = 15;

/// The size of a device page.
pub const PAGE_SIZE: usize = 0x1000;

/// The size of the receive region: one MiB minus two device pages.
pub const BINDER_VM_SIZE: usize = 1024 * 1024 - 2 * 0x1000;

/// The marker word of an interface token, the characters "SYST" packed
/// most significant first.
pub const INTERFACE_HEADER: u32 = 0x53595354;

/// The protocol version that the driver reports.
#[derive(Debug, Clone, Copy, PartialEq, Eq, Structural)]
pub struct BinderVersion(pub i32);

/// The character devices through which the driver is reached.
#[derive(Debug, Clone, Copy, PartialEq, Eq, Structural)]
pub enum BinderDevice {
    /// /dev/binder
    Binder,
    /// /dev/hwbinder
    HwBinder,
    /// /dev/vndbinder
    VndBinder,
}

impl BinderDevice {
    pub open spec fn spec_path(self) -> Seq<char> {
        match self {
            BinderDevice::Binder => "/dev/binder"@,
            BinderDevice::HwBinder => "/dev/hwbinder"@,
            BinderDevice::VndBinder => "/dev/vndbinder"@,
        }
    }

    /// The path of the device node.
    pub fn path(&self) -> (r: &'static str)
        ensures
            r@ == self.spec_path(),
    {
        match self {
            BinderDevice::Binder => "/dev/binder",
            BinderDevice::HwBinder => "/dev/hwbinder",
            BinderDevice::VndBinder => "/dev/vndbinder",
        }
    }
}

impl Default for BinderDevice {
    fn default() -> (r: Self)
        ensures
            r == BinderDevice::Binder,
    {
        BinderDevice::Binder
    }
}

} // verus!
