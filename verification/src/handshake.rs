//! The order of native calls that opens, configures and releases a device
//! whose line is set through its control block.
//!
//! The host makes the calls. After each call it reports what happened and
//! is told what to do next, so that the decisions are taken here. Reads and
//! writes of data need no decision: the host makes them while the
//! connection is open.

use vstd::prelude::*;
use crate::dcb::DCB;
use crate::error::Error;
use crate::line::{BaudRate, ByteSize, Parity, Setting, StopBits};

verus! {

/// Native code: the device name was not found.
pub const ERROR_FILE_NOT_FOUND: i32 = 2;

/// Native code: access to the device was denied.
pub const ERROR_ACCESS_DENIED: i32 = 5;

/// Native code: too many requests are in flight.
pub const ERROR_NOT_ENOUGH_MEMORY: i32 = 8;

/// Native code: the operation was cancelled.
pub const ERROR_OPERATION_ABORTED: i32 = 995;

/// Native code: the buffer was not acceptable.
pub const ERROR_INVALID_USER_BUFFER: i32 = 1784;

impl Setting {
    /// The block with this setting replaced and nothing else changed.
    pub open spec fn put(self, block: DCB) -> DCB {
        match self {
            Setting::Rate(baud_rate) => block.with_baud_rate(baud_rate),
            Setting::Size(byte_size) => block.with_byte_size(byte_size),
            Setting::Mode(parity) => block.with_parity(parity),
            Setting::Stop(stop_bits) => block.with_stop_bits(stop_bits),
        }
    }

    /// Replaces this setting in a block. No other field changes.
    pub fn apply(self, block: &mut DCB)
        ensures
            *final(block) == self.put(*old(block)),
    {
        match self {
            Setting::Rate(baud_rate) => block.set_baud_rate(baud_rate),
            Setting::Size(byte_size) => block.set_byte_size(byte_size),
            Setting::Mode(parity) => block.set_parity(parity),
            Setting::Stop(stop_bits) => block.set_stop_bits(stop_bits),
        }
    }
}

/// Where a connection is in its life.
#[derive(Debug, Clone, Copy, PartialEq, Eq)]
pub enum Phase {
    /// Nothing was asked of the operating system yet.
    Unopened,
    /// The device is being opened. There is no handle yet.
    Opening { baud_rate: BaudRate },
    /// The handle is held and the control block is being read.
    Reading { baud_rate: BaudRate },
    /// The handle is held and the control block is being written.
    Writing,
    /// The handle is held and the line is configured.
    Open,
    /// The connection is open and the control block is being read so that
    /// `setting` can be put into it.
    Changing { setting: Setting },
    /// The connection is open and the changed control block is being
    /// written.
    Committing,
    /// The connection is open and the control block is being read for the
    /// caller.
    Inspecting,
    /// The handle is held and is being closed; `outcome` waits to be
    /// reported.
    Closing { outcome: Result<(), Error> },
    /// The end. No handle is held.
    Closed { outcome: Result<(), Error> },
}

/// What the host reports.
#[derive(Debug, Clone, Copy, PartialEq, Eq, Structural)]
pub enum Event {
    /// The caller asks for a connection at this baud rate.
    Begin(BaudRate),
    /// The device was opened.
    Opened,
    /// The device could not be opened; the native code says why.
    OpenFailed(i32),
    /// The control block was read.
    BlockRead(DCB),
    /// The control block could not be read.
    ReadFailed(i32),
    /// The control block was written.
    BlockWritten,
    /// The control block could not be written.
    WriteFailed(i32),
    /// The caller asks for one setting of the open line to be changed.
    Change(Setting),
    /// The caller asks for the settings of the open line.
    Inspect,
    /// The caller is done with the connection.
    Release,
    /// The handle was closed.
    HandleClosed,
    /// The handle could not be closed.
    CloseFailed(i32),
}

/// What the host is to do next.
#[derive(Debug, Clone, Copy, PartialEq, Eq)]
pub enum Action {
    /// Open the device for exclusive use.
    OpenDevice,
    /// Hand this block, which is all zero, to the operating system to be
    /// filled with the state of the device.
    ReadBlock(DCB),
    /// Make this block the state of the device.
    WriteBlock(DCB),
    /// Close the handle.
    CloseHandle,
    /// Hand this outcome to the caller.
    Finish(Result<(), Error>),
    /// Hand this block, the state of the device, to the caller.
    Report(DCB),
    /// Stop the process: the handle is in an unknown state.
    Abort,
}

impl Phase {
    /// Whether a native handle is held in this phase.
    pub open spec fn holds_handle(self) -> bool {
        self is Reading || self is Writing || self.is_open() || self is Closing
    }

    /// Whether the connection is open in this phase: `open` has succeeded
    /// and the caller has not released the connection.
    pub open spec fn is_open(self) -> bool {
        self is Open || self is Changing || self is Committing || self is Inspecting
    }

    /// The phase and the action that follow `event`, where the event has a
    /// place in this phase.
    pub open spec fn next(self, event: Event) -> Option<(Phase, Action)> {
        match (self, event) {
            (Phase::Unopened, Event::Begin(baud_rate)) => Some(
                (Phase::Opening { baud_rate }, Action::OpenDevice),
            ),
            (Phase::Opening { baud_rate }, Event::Opened) => Some(
                (Phase::Reading { baud_rate }, Action::ReadBlock(DCB::zero())),
            ),
            (Phase::Opening { .. }, Event::OpenFailed(code)) => Some(
                (
                    Phase::Closed { outcome: Err(open_error_kind(code)) },
                    Action::Finish(Err(open_error_kind(code))),
                ),
            ),
            (Phase::Reading { baud_rate }, Event::BlockRead(block)) => Some(
                (Phase::Writing, Action::WriteBlock(block.with_baud_rate(baud_rate))),
            ),
            (Phase::Reading { .. }, Event::ReadFailed(_)) => Some(
                (Phase::Closing { outcome: Err(Error::ConfigurationFailed) }, Action::CloseHandle),
            ),
            (Phase::Writing, Event::BlockWritten) => Some((Phase::Open, Action::Finish(Ok(())))),
            (Phase::Writing, Event::WriteFailed(_)) => Some(
                (Phase::Closing { outcome: Err(Error::ConfigurationFailed) }, Action::CloseHandle),
            ),
            (Phase::Open, Event::Change(setting)) => Some(
                (Phase::Changing { setting }, Action::ReadBlock(DCB::zero())),
            ),
            (Phase::Changing { setting }, Event::BlockRead(block)) => Some(
                (Phase::Committing, Action::WriteBlock(setting.put(block))),
            ),
            (Phase::Changing { .. }, Event::ReadFailed(_)) => Some(
                (Phase::Open, Action::Finish(Err(Error::ConfigurationFailed))),
            ),
            (Phase::Committing, Event::BlockWritten) => Some((Phase::Open, Action::Finish(Ok(())))),
            (Phase::Committing, Event::WriteFailed(_)) => Some(
                (Phase::Open, Action::Finish(Err(Error::ConfigurationFailed))),
            ),
            (Phase::Open, Event::Inspect) => Some(
                (Phase::Inspecting, Action::ReadBlock(DCB::zero())),
            ),
            (Phase::Inspecting, Event::BlockRead(block)) => Some(
                (Phase::Open, Action::Report(block)),
            ),
            (Phase::Inspecting, Event::ReadFailed(_)) => Some(
                (Phase::Open, Action::Finish(Err(Error::ConfigurationFailed))),
            ),
            (Phase::Open, Event::Release) => Some(
                (Phase::Closing { outcome: Ok(()) }, Action::CloseHandle),
            ),
            (Phase::Closing { outcome }, Event::HandleClosed) => Some(
                (Phase::Closed { outcome }, Action::Finish(outcome)),
            ),
            (Phase::Closing { outcome }, Event::CloseFailed(_)) => Some(
                (Phase::Closing { outcome }, Action::Abort),
            ),
            _ => None,
        }
    }

    /// Takes one step: computes `next`.
    pub fn step(self, event: Event) -> (res: Option<(Phase, Action)>)
        ensures
            res == self.next(event),
    {
        match (self, event) {
            (Phase::Unopened, Event::Begin(baud_rate)) => Some(
                (Phase::Opening { baud_rate }, Action::OpenDevice),
            ),
            (Phase::Opening { baud_rate }, Event::Opened) => Some(
                (Phase::Reading { baud_rate }, Action::ReadBlock(DCB::zeroed())),
            ),
            (Phase::Opening { .. }, Event::OpenFailed(code)) => {
                let e = open_error(code);
                Some((Phase::Closed { outcome: Err(e) }, Action::Finish(Err(e))))
            },
            (Phase::Reading { baud_rate }, Event::BlockRead(block)) => {
                let mut block = block;
                block.set_baud_rate(baud_rate);
                Some((Phase::Writing, Action::WriteBlock(block)))
            },
            (Phase::Reading { .. }, Event::ReadFailed(_)) => Some(
                (Phase::Closing { outcome: Err(Error::ConfigurationFailed) }, Action::CloseHandle),
            ),
            (Phase::Writing, Event::BlockWritten) => Some((Phase::Open, Action::Finish(Ok(())))),
            (Phase::Writing, Event::WriteFailed(_)) => Some(
                (Phase::Closing { outcome: Err(Error::ConfigurationFailed) }, Action::CloseHandle),
            ),
            (Phase::Open, Event::Change(setting)) => Some(
                (Phase::Changing { setting }, Action::ReadBlock(DCB::zeroed())),
            ),
            (Phase::Changing { setting }, Event::BlockRead(block)) => {
                let mut block = block;
                setting.apply(&mut block);
                Some((Phase::Committing, Action::WriteBlock(block)))
            },
            (Phase::Changing { .. }, Event::ReadFailed(_)) => Some(
                (Phase::Open, Action::Finish(Err(Error::ConfigurationFailed))),
            ),
            (Phase::Committing, Event::BlockWritten) => Some((Phase::Open, Action::Finish(Ok(())))),
            (Phase::Committing, Event::WriteFailed(_)) => Some(
                (Phase::Open, Action::Finish(Err(Error::ConfigurationFailed))),
            ),
            (Phase::Open, Event::Inspect) => Some(
                (Phase::Inspecting, Action::ReadBlock(DCB::zeroed())),
            ),
            (Phase::Inspecting, Event::BlockRead(block)) => Some(
                (Phase::Open, Action::Report(block)),
            ),
            (Phase::Inspecting, Event::ReadFailed(_)) => Some(
                (Phase::Open, Action::Finish(Err(Error::ConfigurationFailed))),
            ),
            (Phase::Open, Event::Release) => Some(
                (Phase::Closing { outcome: Ok(()) }, Action::CloseHandle),
            ),
            (Phase::Closing { outcome }, Event::HandleClosed) => Some(
                (Phase::Closed { outcome }, Action::Finish(outcome)),
            ),
            (Phase::Closing { outcome }, Event::CloseFailed(_)) => Some(
                (Phase::Closing { outcome }, Action::Abort),
            ),
            _ => None,
        }
    }
}

/// The error kind of a failed open with the given native code.
pub open spec fn open_error_kind(code: i32) -> Error {
    if code == ERROR_ACCESS_DENIED {
        Error::AlreadyInUse
    } else if code == ERROR_FILE_NOT_FOUND {
        Error::NotFound
    } else {
        Error::OpenFailed
    }
}

/// The error kind of a failed read, write or flush with the given native
/// code.
pub open spec fn io_error_kind(code: i32) -> Error {
    if code == ERROR_INVALID_USER_BUFFER {
        Error::InvalidBuffer
    } else if code == ERROR_NOT_ENOUGH_MEMORY {
        Error::ResourceExhausted
    } else if code == ERROR_OPERATION_ABORTED {
        Error::Interrupted
    } else {
        Error::IoFailed(code)
    }
}

/// Folds the native code of a failed open into the portable error kinds.
pub fn open_error(code: i32) -> (e: Error)
    ensures
        e == open_error_kind(code),
        e is AlreadyInUse <==> code == ERROR_ACCESS_DENIED,
        e is NotFound <==> code == ERROR_FILE_NOT_FOUND,
        e is OpenFailed <==> code != ERROR_ACCESS_DENIED && code != ERROR_FILE_NOT_FOUND,
{
    if code == ERROR_ACCESS_DENIED {
        Error::AlreadyInUse
    } else if code == ERROR_FILE_NOT_FOUND {
        Error::NotFound
    } else {
        Error::OpenFailed
    }
}

/// Folds the native code of a failed read, write or flush into the
/// portable error kinds. The code is kept where it names none of them.
pub fn io_error(code: i32) -> (e: Error)
    ensures
        e == io_error_kind(code),
        e.is_io_error(),
        e is InvalidBuffer <==> code == ERROR_INVALID_USER_BUFFER,
        e is ResourceExhausted <==> code == ERROR_NOT_ENOUGH_MEMORY,
        e is Interrupted <==> code == ERROR_OPERATION_ABORTED,
        e is IoFailed ==> e == Error::IoFailed(code),
{
    if code == ERROR_INVALID_USER_BUFFER {
        Error::InvalidBuffer
    } else if code == ERROR_NOT_ENOUGH_MEMORY {
        Error::ResourceExhausted
    } else if code == ERROR_OPERATION_ABORTED {
        Error::Interrupted
    } else {
        Error::IoFailed(code)
    }
}

/// What a run of events has led to: the phase reached and the actions that
/// were asked for on the way, in order.
pub struct Trace {
    pub phase: Phase,
    pub actions: Seq<Action>,
}

/// Follows `events` from `phase`, one step for each. There is no trace for
/// events among which one has no place in the phase that it meets.
pub open spec fn run(phase: Phase, events: Seq<Event>) -> Option<Trace>
    decreases events.len(),
{
    if events.len() == 0 {
        Some(Trace { phase, actions: Seq::empty() })
    } else {
        match run(phase, events.drop_last()) {
            Some(before) => match before.phase.next(events.last()) {
                Some((after, action)) => Some(
                    Trace { phase: after, actions: before.actions.push(action) },
                ),
                None => None,
            },
            None => None,
        }
    }
}

/// How many of the actions are `what`.
pub open spec fn count(actions: Seq<Action>, what: Action) -> nat
    decreases actions.len(),
{
    if actions.len() == 0 {
        0
    } else {
        count(actions.drop_last(), what) + if actions.last() == what {
            1nat
        } else {
            0nat
        }
    }
}

/// Whether a handle was obtained on the way: the device was opened when
/// the first control block read was asked for.
pub open spec fn was_opened(actions: Seq<Action>) -> bool {
    exists|i: int| 0 <= i < actions.len() && #[trigger] actions[i] is ReadBlock
}

/// While a device is being opened, an error is handed to the caller only
/// when no handle is held. A control block that cannot be read or written
/// then leads to the close of the handle, and to nothing else, before
/// `ConfigurationFailed` is reported. Success is reported only for an open
/// connection or a closed one.
pub proof fn lemma_no_handle_left_behind(phase: Phase, event: Event)
    requires
        !phase.is_open(),
    ensures
        phase.next(event) matches Some((after, Action::Finish(Err(_)))) ==> !after.holds_handle(),
        phase.next(event) matches Some((after, Action::Finish(Ok(_)))) ==> after is Open || after
            is Closed,
        (event is ReadFailed || event is WriteFailed) && phase.next(event) is Some ==> phase.next(
            event,
        ) == Some(
            (Phase::Closing { outcome: Err(Error::ConfigurationFailed) }, Action::CloseHandle),
        ),
{
}

/// The handle is given up in one way only: a close is asked for once, on
/// the way into `Closing`, and the handle is gone when that close has
/// been reported. An open connection stays open whatever happens to a
/// change or an inspection of its settings, and what is written for a
/// change is the block that was read with the one setting replaced.
pub proof fn lemma_handle_kept_until_closed(phase: Phase, event: Event)
    requires
        phase.next(event) is Some,
    ensures
        ({
            let after = phase.next(event).unwrap().0;
            let action = phase.next(event).unwrap().1;
            &&& action is CloseHandle <==> !(phase is Closing) && after is Closing
            &&& phase.holds_handle() && !after.holds_handle() ==> phase is Closing && event
                is HandleClosed
            &&& phase.is_open() ==> after.is_open() || (event is Release && after is Closing)
            &&& action is ReadBlock ==> action->ReadBlock_0 == DCB::zero()
            &&& phase.is_open() && action is WriteBlock ==> phase is Changing && event is BlockRead
                && action->WriteBlock_0 == phase->setting.put(event->BlockRead_0)
        }),
{
}

/// On every run from `Unopened` the handle is closed at most once: not at
/// all while the connection is being opened or is open, once when it is
/// being closed, and at the end once if the device was opened and never
/// if it was not.
pub proof fn lemma_closed_exactly_once(events: Seq<Event>)
    requires
        run(Phase::Unopened, events) is Some,
    ensures
        ({
            let t = run(Phase::Unopened, events)->0;
            let closes = count(t.actions, Action::CloseHandle);
            &&& t.phase is Closing ==> closes == 1 && was_opened(t.actions)
            &&& t.phase is Closed && was_opened(t.actions) ==> closes == 1
            &&& t.phase is Closed && !was_opened(t.actions) ==> closes == 0
            &&& !(t.phase is Closing) && !(t.phase is Closed) ==> closes == 0
            &&& t.phase.holds_handle() ==> was_opened(t.actions)
            &&& (t.phase is Unopened || t.phase is Opening) ==> !was_opened(t.actions)
        }),
    decreases events.len(),
{
    if events.len() > 0 {
        let before = run(Phase::Unopened, events.drop_last())->0;
        lemma_closed_exactly_once(events.drop_last());
        let t = run(Phase::Unopened, events)->0;
        let step = before.phase.next(events.last())->0;
        assert(t.actions == before.actions.push(step.1));
        assert(t.actions.drop_last() =~= before.actions);
        assert(t.actions.last() == step.1);
        if was_opened(before.actions) {
            let i = choose|i: int| 0 <= i < before.actions.len() && #[trigger] before.actions[i] is ReadBlock;
            assert(t.actions[i] is ReadBlock);
        }
        if step.1 is ReadBlock {
            assert(t.actions[t.actions.len() - 1] is ReadBlock);
        }
        if was_opened(t.actions) && !was_opened(before.actions) {
            let i = choose|i: int| 0 <= i < t.actions.len() && #[trigger] t.actions[i] is ReadBlock;
            if i < before.actions.len() {
                assert(before.actions[i] is ReadBlock);
            }
            assert(step.1 is ReadBlock);
        }
    } else {
        assert(!was_opened(Seq::<Action>::empty()));
    }
}

/// A setting that was put into the line is the setting that an inspection
/// finds, if the device hands back the block that was written to it.
pub proof fn lemma_change_then_inspect(block: DCB, baud_rate: BaudRate, byte_size: ByteSize, parity: Parity, stop_bits: StopBits)
    ensures
        BaudRate::decode(Setting::Rate(baud_rate).put(block).BaudRate as int) == Ok::<BaudRate, Error>(baud_rate),
        ByteSize::decode(Setting::Size(byte_size).put(block).ByteSize as int) == Ok::<ByteSize, Error>(byte_size),
        Parity::decode(Setting::Mode(parity).put(block).Parity as int) == Ok::<Parity, Error>(parity),
        StopBits::decode(Setting::Stop(stop_bits).put(block).StopBits as int) == Ok::<StopBits, Error>(stop_bits),
{
    BaudRate::lemma_round_trip(baud_rate);
    ByteSize::lemma_round_trip(byte_size);
    Parity::lemma_round_trip(parity);
    StopBits::lemma_round_trip(stop_bits);
}

} // verus!
