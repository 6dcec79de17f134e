//! The dispatcher's assignment rule: addresses go to the send workers'
//! queues round-robin, so that each queue receives an ascending subsequence
//! and every address goes to exactly one queue.
use vstd::prelude::*;

use vstd::arithmetic::div_mod::lemma_fundamental_div_mod_converse;

verus! {

/// The bound on each send worker's inbound queue: it decouples the producer
/// from socket speed while capping the memory held in queued addresses.
pub const QUEUE_CAPACITY: usize = 64;

/// How many of the first `len` addresses land in queue `q` of `n` under
/// round-robin assignment.
pub open spec fn queue_len(len: int, n: int, q: int) -> int {
    len / n + if q < len % n {
        1int
    } else {
        0int
    }
}

/// The default number of send workers for a machine with the given hardware
/// parallelism: a third of it, leaving headroom for the receive thread and
/// the operating system — but always at least one, so that every sweep has a
/// sender.
pub fn worker_threads(parallelism: usize) -> (r: usize)
    ensures
        r == if parallelism / 3 == 0 {
            1int
        } else {
            (parallelism / 3) as int
        },
{
    let workers = parallelism / 3;
    if workers == 0 {
        1
    } else {
        workers
    }
}

/// The queue that takes the next address, given the queue that took the
/// last: the successor, wrapping around to the first queue.
pub fn next_queue(q: usize, n: usize) -> (r: usize)
    requires
        0 < n,
        q < n,
    ensures
        r == if q + 1 == n {
            0int
        } else {
            q + 1
        },
{
    if q + 1 == n {
        0
    } else {
        q + 1
    }
}

/// Distributes addresses over `n` queues round-robin: address `i` goes to
/// queue `i mod n`, and each queue receives its addresses in the order they
/// came.
pub fn dispatch(n: usize, addrs: &Vec<u32>) -> (queues: Vec<Vec<u32>>)
    requires
        0 < n,
    ensures
        queues@.len() == n,
        forall|q: int| 0 <= q < n ==> (#[trigger] queues@[q])@.len() == queue_len(addrs@.len() as int, n as int, q),
        forall|q: int, j: int|
            0 <= q < n && 0 <= j < (queues@[q])@.len() ==> #[trigger] (queues@[q])@[j] == addrs@[q
                + j * n],
{
    let mut queues: Vec<Vec<u32>> = Vec::new();
    let mut k: usize = 0;
    while k < n
        invariant
            k <= n,
            queues@.len() == k,
            forall|p: int| 0 <= p < k ==> (#[trigger] queues@[p])@.len() == 0,
        decreases n - k,
    {
        queues.push(Vec::new());
        k = k + 1;
    }
    let ghost mut rounds: int = 0;
    let mut q: usize = 0;
    let mut i: usize = 0;
    while i < addrs.len()
        invariant
            0 < n,
            q < n,
            i <= addrs@.len(),
            i == rounds * n + q,
            0 <= rounds,
            queues@.len() == n,
            forall|p: int|
                0 <= p < n ==> (#[trigger] queues@[p])@.len() == rounds + if p < q {
                    1int
                } else {
                    0int
                },
            forall|p: int, j: int|
                0 <= p < n && 0 <= j < (queues@[p])@.len() ==> #[trigger] (queues@[p])@[j]
                    == addrs@[p + j * n],
        decreases addrs@.len() - i,
    {
        let addr = addrs[i];
        let mut queue = queues.remove(q);
        queue.push(addr);
        queues.insert(q, queue);
        proof {
            assert(q + rounds * n == i);
        }
        q = next_queue(q, n);
        proof {
            if q == 0 {
                assert((rounds + 1) * n == rounds * n + n) by (nonlinear_arith);
                rounds = rounds + 1;
            }
        }
        i = i + 1;
    }
    proof {
        lemma_fundamental_div_mod_converse(i as int, n as int, rounds, q as int);
    }
    queues
}

} // verus!
