//! The four relay pumps and the bridge supervisor.
//!
//! Each pump is a two-state machine per message cycle: await an event,
//! then forward or stop. A reading pump decodes frames from its stream
//! and forwards the raw bytes into its queue; a writing pump drains its
//! queue and writes each payload as one frame. A reading pump's end —
//! for any reason — closes its queue, and that closure is the only
//! signal its paired writing pump stops on.
//!
//! The supervisor races the four pumps and shuts the whole bridge down
//! the instant the first one finishes, whatever the reason: there is no
//! partial-bridge continuation and no reconnection.

use vstd::prelude::*;

verus! {

/// The four pumps of one bridge.
#[derive(Clone, Copy, Debug, PartialEq, Eq, Structural)]
pub enum PumpId {
    /// Decodes frames from the native channel (standard input).
    NativeRead,
    /// Writes frames to the IPC connection.
    IpcWrite,
    /// Decodes frames from the IPC connection.
    IpcRead,
    /// Writes frames to the native channel (standard output).
    NativeWrite,
}

/// How a pump finished.
#[derive(Clone, Copy, Debug, PartialEq, Eq, Structural)]
pub enum PumpOutcome {
    /// The stream or queue ended at a frame boundary: a success.
    CleanStop,
    /// A framing, transport, or queue-closed error.
    Failed,
}

/// What a reading pump's await yielded.
pub enum ReadEvent {
    /// A whole frame was decoded.
    Frame { payload: Vec<u8> },
    /// The stream closed at a frame boundary.
    CleanEof,
    /// A framing or transport error.
    ReadFailed,
}

/// What a reading pump does next.
pub enum ReadPumpAction {
    /// Forward the frame's raw bytes into the outbound queue.
    Forward { payload: Vec<u8> },
    /// Stop without error; dropping the queue's producer signals the
    /// paired writing pump.
    StopClean,
    /// Stop with an error; the producer is dropped all the same.
    StopError,
}

/// One cycle of a reading pump: forward each decoded frame unchanged,
/// stop cleanly on a clean disconnect, stop with an error otherwise.
pub fn read_pump_step(event: ReadEvent) -> (a: ReadPumpAction)
    ensures
        event matches ReadEvent::Frame { payload } ==> a matches ReadPumpAction::Forward {
            payload: p,
        } && p@ == payload@,
        event is CleanEof ==> a is StopClean,
        event is ReadFailed ==> a is StopError,
{
    match event {
        ReadEvent::Frame { payload } => ReadPumpAction::Forward { payload },
        ReadEvent::CleanEof => ReadPumpAction::StopClean,
        ReadEvent::ReadFailed => ReadPumpAction::StopError,
    }
}

/// After forwarding into the queue: keep pumping while the consumer is
/// there, stop with an error the moment the queue is closed.
pub fn read_pump_after_forward(delivered: bool) -> (keep_pumping: bool)
    ensures
        keep_pumping == delivered,
{
    delivered
}

/// What a writing pump's await on its queue yielded.
pub enum QueueEvent {
    /// The next payload, in arrival order.
    Item { payload: Vec<u8> },
    /// The producer is gone and the queue drained: the designed stop
    /// signal.
    Closed,
}

/// What a writing pump does next.
pub enum WritePumpAction {
    /// Encode the payload as one frame and write it out.
    WriteFrame { payload: Vec<u8> },
    /// The queue closed with nothing pending: stop without error.
    StopClean,
}

/// One cycle of a writing pump: write each queued payload unchanged as
/// one frame, stop cleanly exactly when the queue closes.
pub fn write_pump_step(event: QueueEvent) -> (a: WritePumpAction)
    ensures
        event matches QueueEvent::Item { payload } ==> a matches WritePumpAction::WriteFrame {
            payload: p,
        } && p@ == payload@,
        event is Closed ==> a is StopClean,
{
    match event {
        QueueEvent::Item { payload } => WritePumpAction::WriteFrame { payload },
        QueueEvent::Closed => WritePumpAction::StopClean,
    }
}

/// After one write: keep draining while the write succeeded, stop with
/// an error on the first write failure.
pub fn write_pump_after_write(write_ok: bool) -> (keep_pumping: bool)
    ensures
        keep_pumping == write_ok,
{
    write_ok
}

/// The supervisor's verdict on the bridge.
#[derive(Clone, Copy, Debug, PartialEq, Eq, Structural)]
pub enum BridgeVerdict {
    /// Tear the whole bridge down now, reporting which pump finished
    /// first; `failed` says whether it ended in an error, which the
    /// process exit status reflects.
    ShutdownAll { first: PumpId, failed: bool },
}

/// First to finish wins: whichever pump finishes first, for whatever
/// reason, the supervisor tears the whole bridge down — a half-open
/// bridge is never continued — and the verdict reports that pump and
/// whether its finish was an error.
pub fn supervisor_verdict(first_finished: PumpId, outcome: PumpOutcome) -> (v: BridgeVerdict)
    ensures
        v is ShutdownAll,
        v == (BridgeVerdict::ShutdownAll { first: first_finished, failed: outcome is Failed }),
{
    match outcome {
        PumpOutcome::CleanStop => BridgeVerdict::ShutdownAll {
            first: first_finished,
            failed: false,
        },
        PumpOutcome::Failed => BridgeVerdict::ShutdownAll { first: first_finished, failed: true },
    }
}

} // verus!
