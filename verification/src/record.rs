//! The result record: one row per probed address, keyed by its dotted-quad
//! text, carrying the round-trip time and whether a reply was seen.
use vstd::prelude::*;

use crate::codec::Reply;
use crate::text::{ipv4_str, ipv4_string};

verus! {

/// One result: the probed address as dotted-quad text, the round-trip time
/// in milliseconds where a reply arrived, and whether one did. A record is
/// made either as a placeholder before the sweep, or from a reply during it;
/// the store upserts by address, so the last reply wins.
pub struct Record {
    /// The address, as dotted-quad text.
    pub address: String,
    /// The round-trip time in milliseconds; absent until a reply is seen.
    pub time: Option<u64>,
    /// Whether a reply from this address was seen.
    pub seen: bool,
}

impl Record {
    /// Whether this record is exactly what a reply received at the given
    /// time must be stored as: keyed by the sender's address, marked seen,
    /// its time the round trip saturating at zero.
    pub open spec fn is_reply_record(&self, source: Reply, now_millis: u64) -> bool {
        &&& self.address@ == ipv4_str(source.from)
        &&& self.time == Some(
            if now_millis >= source.sent {
                (now_millis - source.sent) as u64
            } else {
                0u64
            },
        )
        &&& self.seen
    }

    /// The placeholder row inserted for an address during prefill: not seen,
    /// no time.
    pub fn placeholder(addr: u32) -> (r: Record)
        ensures
            r.address@ == ipv4_str(addr),
            r.time is None,
            !r.seen,
    {
        Record { address: ipv4_string(addr), time: None, seen: false }
    }

    /// The record a freshly received reply is stored as.
    pub fn from_reply(source: &Reply, now_millis: u64) -> (r: Record)
        ensures
            r.is_reply_record(*source, now_millis),
    {
        Record {
            address: ipv4_string(source.from),
            time: Some(source.roundtrip_time(now_millis)),
            seen: true,
        }
    }

    /// Rewrites this record in place from a received reply, as the receive
    /// worker does when a reply arrives for an address that already has a
    /// row: the address is rekeyed to the reply's sender, the time set to
    /// the round trip, and the row marked seen.
    pub fn overwrite(&mut self, source: &Reply, now_millis: u64)
        ensures
            final(self).is_reply_record(*source, now_millis),
    {
        self.address = ipv4_string(source.from);
        self.time = Some(source.roundtrip_time(now_millis));
        self.seen = true;
    }
}

} // verus!
