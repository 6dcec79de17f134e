//! The kernel-level packet filter: a small bytecode program attached to the
//! receive socket, which the kernel evaluates on each incoming packet before
//! copying it to user space. It accepts exactly the packets that are echo
//! replies carrying this tool's identifier tag. The same predicate exists as
//! a verified software check, for re-validation where no kernel filter can
//! be attached.
use vstd::prelude::*;

use crate::codec::{FULL_PACKET_SIZE, ICMP_ID_0, ICMP_ID_1, ICMP_ID_OFFSET, ICMP_TYPE_ECHO_REPLY, ICMP_TYPE_INDEX};

verus! {

/// The bytecode operation that loads the big-endian 16-bit word at a fixed
/// byte offset into the accumulator.
pub const OP_LOAD_HALF: u16 = 0x28;

/// The bytecode operation that compares the accumulator against a constant
/// and jumps forward by one of two offsets.
pub const OP_JUMP_EQ: u16 = 0x15;

/// The bytecode operation that ends evaluation, returning a constant: zero
/// drops the packet, anything else accepts it.
pub const OP_RETURN: u16 = 0x06;

/// The identifier tag as the 16-bit word the filter compares: both tag bytes
/// in big-endian order.
pub const ID_WORD: u32 = 0x5750;

/// One instruction of the filter program, in the classic packet-filter
/// encoding: an operation code, two forward jump offsets, and an immediate
/// constant.
pub struct FilterOp {
    /// The operation code.
    pub code: u16,
    /// The forward jump offset taken when a comparison holds.
    pub jt: u8,
    /// The forward jump offset taken when a comparison fails.
    pub jf: u8,
    /// The immediate constant: a byte offset, a comparison value, or a
    /// return value.
    pub k: u32,
}

/// The filter program: load the ICMP type/code word and drop the packet
/// unless it is an echo reply with code zero; load the identifier word and
/// drop the packet unless it is this tool's tag; otherwise accept the whole
/// packet.
pub open spec fn filter_program() -> Seq<FilterOp> {
    seq![
        (FilterOp { code: OP_LOAD_HALF, jt: 0, jf: 0, k: 20 }),
        (FilterOp { code: OP_JUMP_EQ, jt: 0, jf: 3, k: 0 }),
        (FilterOp { code: OP_LOAD_HALF, jt: 0, jf: 0, k: 24 }),
        (FilterOp { code: OP_JUMP_EQ, jt: 0, jf: 1, k: ID_WORD }),
        (FilterOp { code: OP_RETURN, jt: 0, jf: 0, k: 0xFFFFFFFF }),
        (FilterOp { code: OP_RETURN, jt: 0, jf: 0, k: 0 }),
    ]
}

/// Builds the filter program for attachment to the receive socket.
pub fn packet_filter() -> (prog: Vec<FilterOp>)
    ensures
        prog@ == filter_program(),
{
    let mut prog: Vec<FilterOp> = Vec::new();
    prog.push(FilterOp { code: OP_LOAD_HALF, jt: 0, jf: 0, k: 20 });
    prog.push(FilterOp { code: OP_JUMP_EQ, jt: 0, jf: 3, k: 0 });
    prog.push(FilterOp { code: OP_LOAD_HALF, jt: 0, jf: 0, k: 24 });
    prog.push(FilterOp { code: OP_JUMP_EQ, jt: 0, jf: 1, k: ID_WORD });
    prog.push(FilterOp { code: OP_RETURN, jt: 0, jf: 0, k: 0xFFFFFFFF });
    prog.push(FilterOp { code: OP_RETURN, jt: 0, jf: 0, k: 0 });
    proof {
        assert(prog@ =~= filter_program());
    }
    prog
}

/// The big-endian 16-bit word of a packet at a byte offset.
pub open spec fn word_at(pkt: Seq<u8>, k: int) -> u32 {
    (pkt[k] * 256 + pkt[k + 1]) as u32
}

/// What the kernel's evaluator returns for a program on a packet, from a
/// program counter and an accumulator: the return value of the first return
/// operation reached, zero — drop — on any fault (a counter or a load out of
/// range, an unknown operation).
pub open spec fn filter_eval(prog: Seq<FilterOp>, pkt: Seq<u8>, pc: int, acc: u32) -> u32
    decreases prog.len() - pc,
{
    if pc < 0 || pc >= prog.len() {
        0
    } else {
        let op = prog[pc];
        if op.code == OP_RETURN {
            op.k
        } else if op.code == OP_LOAD_HALF {
            if 0 <= op.k && op.k + 2 <= pkt.len() {
                filter_eval(prog, pkt, pc + 1, word_at(pkt, op.k as int))
            } else {
                0
            }
        } else if op.code == OP_JUMP_EQ {
            let target = pc + 1 + if acc == op.k {
                op.jt as int
            } else {
                op.jf as int
            };
            if target >= prog.len() {
                0
            } else {
                filter_eval(prog, pkt, target, acc)
            }
        } else {
            0
        }
    }
}

/// Whether an envelope is an echo reply of this tool's own: ICMP type and
/// code both zero, and the identifier field equal to the tag this tool
/// stamps on its probes.
pub open spec fn is_our_reply(s: Seq<u8>) -> bool {
    &&& s[ICMP_TYPE_INDEX as int] == ICMP_TYPE_ECHO_REPLY
    &&& s[ICMP_TYPE_INDEX as int + 1] == 0
    &&& s[ICMP_ID_OFFSET as int] == ICMP_ID_0
    &&& s[ICMP_ID_OFFSET as int + 1] == ICMP_ID_1
}

/// Checks an envelope against the same predicate the kernel filter applies,
/// for platforms where no filter can be attached and for defensive
/// re-validation before a record is made.
pub fn reply_is_ours(buf: &Vec<u8>) -> (r: bool)
    requires
        buf@.len() == FULL_PACKET_SIZE,
    ensures
        r == is_our_reply(buf@),
{
    buf[ICMP_TYPE_INDEX] == ICMP_TYPE_ECHO_REPLY && buf[ICMP_TYPE_INDEX + 1] == 0
        && buf[ICMP_ID_OFFSET] == ICMP_ID_0 && buf[ICMP_ID_OFFSET + 1] == ICMP_ID_1
}

/// The filter program accepts a full-sized envelope exactly when it is an
/// echo reply carrying this tool's identifier tag: what the kernel delivers
/// through it is exactly what the software check accepts.
pub proof fn lemma_filter_exact(pkt: Seq<u8>)
    requires
        pkt.len() == FULL_PACKET_SIZE,
    ensures
        filter_eval(filter_program(), pkt, 0, 0) != 0 <==> is_our_reply(pkt),
{
    reveal_with_fuel(filter_eval, 7);
    let prog = filter_program();
    assert(word_at(pkt, 20) == 0 <==> pkt[20] == 0 && pkt[21] == 0);
    assert(word_at(pkt, 24) == ID_WORD <==> pkt[24] == ICMP_ID_0 && pkt[25] == ICMP_ID_1);
}

} // verus!
