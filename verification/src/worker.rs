//! The decision logic of the send and receive workers. The loops that own
//! the sockets live outside the library; each outcome they see is handed in
//! as an event, and the returned action says what the worker must do next,
//! so that the policy — bounded exponential backoff, per-destination skips,
//! fatal propagation, cooperative shutdown — is checked here once.
use vstd::prelude::*;

use crate::codec::{be_val, Reply, FULL_PACKET_SIZE, ICMP_DATA_OFFSET, IPV4_IP_OFFSET};
use crate::filter::{is_our_reply, reply_is_ours};
use crate::record::Record;
use crate::sys::{errno_eacces, errno_eagain, errno_enobufs, errno_eperm};
use crate::sys::{EACCES_CODE, EAGAIN_CODE, ENOBUFS_CODE, EPERM_CODE};

verus! {

/// The cap on the backoff exponent: the wait between retries doubles until
/// it reaches two to this power — sixteen milliseconds — and grows no
/// further.
pub const BACKOFF_CAP: u32 = 4;

/// The read timeout on the receive socket, in milliseconds: the longest the
/// receive worker goes between looks at the cancellation signal when no
/// traffic arrives, and so the bound on how long it outlives cancellation.
pub const READ_TIMEOUT_MILLIS: u64 = 1000;

/// The backoff state a send worker keeps for the packet it is currently
/// trying to transmit: how often in a row the kernel has refused to buffer
/// it, capped.
pub struct Backoff {
    /// The number of consecutive buffer-full failures, capped.
    pub exp: u32,
}

/// The exponent after one more buffer-full failure: one higher, until the
/// cap.
pub open spec fn next_exp(e: u32) -> u32 {
    if e < BACKOFF_CAP {
        (e + 1) as u32
    } else {
        BACKOFF_CAP
    }
}

/// The wait before the next retry at a given exponent: two to the exponent,
/// in milliseconds.
pub open spec fn backoff_delay(e: u32) -> u64
    recommends
        e <= BACKOFF_CAP,
{
    1u64 << (e as u64)
}

impl Backoff {
    /// A backoff that has seen no failure yet; a send worker starts from
    /// here for each fresh packet.
    pub fn new() -> (r: Backoff)
        ensures
            r.exp == 0,
    {
        Backoff { exp: 0 }
    }
}

/// What the kernel answered to one transmission attempt.
pub enum SendEvent {
    /// The packet was accepted for transmission.
    Sent,
    /// The kernel could not buffer the packet; it was not sent.
    BufferFull,
    /// The kernel refuses to address this destination at all.
    NotPermitted,
    /// Any other error, carrying its code.
    Fatal(i32),
}

/// What a send worker must do after one transmission attempt.
pub enum SendAction {
    /// The packet is out; take the next address from the queue.
    NextAddress,
    /// Wait this many milliseconds, then retry the same packet.
    RetryAfterMillis(u64),
    /// Give up on this one destination and take the next address.
    SkipAddress,
    /// Stop the worker and propagate the error code.
    Abort(i32),
}

/// Sorts the error code of a failed transmission into the worker's failure
/// taxonomy: transient buffer exhaustion, a destination the kernel refuses,
/// or a fatal error.
pub fn classify_send_error(code: i32) -> (ev: SendEvent)
    ensures
        ev == if code == ENOBUFS_CODE {
            SendEvent::BufferFull
        } else if code == EPERM_CODE || code == EACCES_CODE {
            SendEvent::NotPermitted
        } else {
            SendEvent::Fatal(code)
        },
{
    if code == errno_enobufs() {
        SendEvent::BufferFull
    } else if code == errno_eperm() || code == errno_eacces() {
        SendEvent::NotPermitted
    } else {
        SendEvent::Fatal(code)
    }
}

/// One decision of a send worker: a buffered packet moves on to the next
/// address; transient buffer exhaustion is always retried, never dropped,
/// after a wait that doubles up to its cap; a refused destination is
/// skipped; anything else aborts the worker.
pub fn send_step(state: &mut Backoff, event: &SendEvent) -> (action: SendAction)
    requires
        old(state).exp <= BACKOFF_CAP,
    ensures
        final(state).exp <= BACKOFF_CAP,
        *event is Sent ==> action == SendAction::NextAddress && *final(state) == *old(state),
        *event is BufferFull ==> final(state).exp == next_exp(old(state).exp),
        *event is BufferFull ==> action == SendAction::RetryAfterMillis(
            backoff_delay(next_exp(old(state).exp)),
        ),
        *event is NotPermitted ==> action == SendAction::SkipAddress && *final(state) == *old(state),
        *event matches SendEvent::Fatal(code) ==> action == SendAction::Abort(code)
            && *final(state) == *old(state),
{
    match event {
        SendEvent::Sent => SendAction::NextAddress,
        SendEvent::BufferFull => {
            if state.exp < BACKOFF_CAP {
                state.exp = state.exp + 1;
            }
            let delay = 1u64 << (state.exp as u64);
            SendAction::RetryAfterMillis(delay)
        },
        SendEvent::NotPermitted => SendAction::SkipAddress,
        SendEvent::Fatal(code) => SendAction::Abort(*code),
    }
}

/// The exponent after `k` consecutive buffer-full failures on one packet,
/// starting fresh.
pub open spec fn exp_after(k: nat) -> u32
    decreases k,
{
    if k == 0 {
        0
    } else {
        next_exp(exp_after((k - 1) as nat))
    }
}

/// After `k` consecutive failures the exponent is `k`, until it reaches its
/// cap and stays there.
proof fn lemma_exp_after(k: nat)
    ensures
        exp_after(k) == if k <= BACKOFF_CAP {
            k as u32
        } else {
            BACKOFF_CAP
        },
    decreases k,
{
    if k > 0 {
        lemma_exp_after((k - 1) as nat);
    }
}

/// Repeated transmit-buffer exhaustion for one packet is answered with
/// retries whose waits start at two milliseconds, strictly double while
/// below the cap, and stay at the cap — sixteen milliseconds — from the
/// fourth failure on. Every such failure is answered with a retry; no
/// sequence of buffer-full failures alone ever drops the packet.
pub proof fn lemma_backoff_schedule(k: nat)
    requires
        k >= 1,
    ensures
        backoff_delay(exp_after(1)) == 2,
        k < BACKOFF_CAP ==> backoff_delay(exp_after(k + 1)) == 2 * backoff_delay(exp_after(k)),
        k >= BACKOFF_CAP ==> backoff_delay(exp_after(k)) == 16,
{
    lemma_exp_after(k);
    lemma_exp_after((k + 1) as nat);
    lemma_exp_after(1);
    assert((1u64 << 1u64) == 2 && (1u64 << 2u64) == 4 && (1u64 << 3u64) == 8 && (1u64 << 4u64)
        == 16) by (bit_vector);
}

/// What one attempt to read a reply produced.
pub enum RecvEvent {
    /// A full envelope was read.
    Packet(Vec<u8>),
    /// The read timed out with no data.
    TimedOut,
    /// Any other error, carrying its code.
    Failed(i32),
}

/// What the receive worker must do after one read attempt.
pub enum RecvAction {
    /// A reply of this tool's own arrived: write this record to the sink.
    Store(Record),
    /// Nothing to act on; read again.
    Continue,
    /// Cancellation was observed: commit pending writes and stop.
    CommitAndStop,
    /// Stop the worker and propagate the error code.
    Abort(i32),
}

/// Sorts the error code of a failed read: a timeout is the receive worker's
/// cue to check for cancellation; anything else is fatal.
pub fn classify_recv_error(code: i32) -> (ev: RecvEvent)
    ensures
        ev == if code == EAGAIN_CODE {
            RecvEvent::TimedOut
        } else {
            RecvEvent::Failed(code)
        },
{
    if code == errno_eagain() {
        RecvEvent::TimedOut
    } else {
        RecvEvent::Failed(code)
    }
}

/// The reply a well-sized envelope decodes to.
pub open spec fn reply_of(s: Seq<u8>) -> Reply {
    Reply {
        from: be_val(s.subrange(IPV4_IP_OFFSET as int, IPV4_IP_OFFSET as int + 4)) as u32,
        sent: be_val(s.subrange(ICMP_DATA_OFFSET as int, ICMP_DATA_OFFSET as int + 8)) as u64,
    }
}

/// One decision of the receive worker: a well-sized envelope that carries
/// this tool's own identifier tag becomes a result record — the sender's
/// address, the round trip saturating at zero, and the seen mark — and any
/// other packet is discarded without ever producing a record; a timeout
/// continues the loop unless cancellation was signaled, in which case
/// pending writes are committed and the worker stops; any other read error
/// aborts.
pub fn recv_step(cancelled: bool, event: RecvEvent, now_millis: u64) -> (action: RecvAction)
    ensures
        event matches RecvEvent::Packet(buf) ==> if buf@.len() == FULL_PACKET_SIZE
            && is_our_reply(buf@) {
            action matches RecvAction::Store(rec) && rec.is_reply_record(reply_of(buf@), now_millis)
        } else {
            action == RecvAction::Continue
        },
        event is TimedOut && cancelled ==> action == RecvAction::CommitAndStop,
        event is TimedOut && !cancelled ==> action == RecvAction::Continue,
        event matches RecvEvent::Failed(code) ==> action == RecvAction::Abort(code),
{
    match event {
        RecvEvent::Packet(buf) => {
            if buf.len() == FULL_PACKET_SIZE && reply_is_ours(&buf) {
                let reply = Reply::from_bytes(&buf);
                RecvAction::Store(Record::from_reply(&reply, now_millis))
            } else {
                RecvAction::Continue
            }
        },
        RecvEvent::TimedOut => {
            if cancelled {
                RecvAction::CommitAndStop
            } else {
                RecvAction::Continue
            }
        },
        RecvEvent::Failed(code) => RecvAction::Abort(code),
    }
}

} // verus!
