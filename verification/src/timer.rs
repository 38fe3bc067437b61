//! The periodic timer that drives preemption, and the software-interrupt
//! wakeup.
//!
//! On every timer trap the kernel reads the real-time counter and arms the
//! firmware timer for one interval later. On a target where the 64-bit
//! counter is read as two 32-bit halves, the low half can roll over between
//! the reads; the protocol reads high, low, high again, and retries while
//! the two high reads differ. [`read_time`] performs that protocol over the
//! counter values the hardware held at each access, and its contract shows
//! the answer is the exact counter value at the moment of the low read —
//! which is why the values a hart reads never go backwards.

use vstd::prelude::*;

use crate::sbi;
use crate::sbi::SbiCall;

verus! {

/// Ticks between two timer interrupts.
pub const INTERVAL: u64 = 100_000;

/// Mask of the low 32 bits of a counter value.
pub const LOW_MASK: u64 = 0xFFFF_FFFF;

/// Whether the `i`-th read attempt succeeds: the counter's high half was
/// the same at the first and third access of the triple.
pub open spec fn attempt_ok(samples: Seq<u64>, i: int) -> bool {
    samples[3 * i] >> 32 == samples[3 * i + 2] >> 32
}

/// A sequence is nondecreasing — what a real-time counter guarantees
/// across consecutive accesses.
pub open spec fn nondecreasing(samples: Seq<u64>) -> bool {
    forall|i: int, j: int| 0 <= i <= j < samples.len() ==> samples[i] <= samples[j]
}

/// The rollover argument: if the counter moved monotonically from `t1`
/// through `t2` to `t3` and its high half is the same at `t1` and `t3`,
/// then the high half never moved, and pairing the first high read with
/// the middle low read reconstructs `t2` exactly.
pub proof fn lemma_rollover_read(t1: u64, t2: u64, t3: u64)
    requires
        t1 <= t2 <= t3,
        t1 >> 32 == t3 >> 32,
    ensures
        ((t1 >> 32) << 32) | (t2 & LOW_MASK) == t2,
{
    assert(t1 <= t2 <= t3 && t1 >> 32 == t3 >> 32 ==> ((t1 >> 32) << 32) | (t2 & 0xFFFF_FFFFu64)
        == t2) by (bit_vector);
}

/// Read the 64-bit counter through its two 32-bit halves, rollover-safely.
///
/// `samples[i]` is the value the counter held at the `i`-th register
/// access; the counter never decreases. Accesses come in triples — high,
/// low, high — and the protocol retries until a triple's two high reads
/// agree, then returns the first high read paired with the low read.
/// The result is then exactly the counter value at the middle access of
/// the first agreeing triple: the protocol never fabricates a value, and
/// successive reads of a nondecreasing counter are nondecreasing.
/// `None` means every complete triple saw the high half move.
pub fn read_time(samples: &Vec<u64>) -> (r: Option<u64>)
    requires
        nondecreasing(samples@),
    ensures
        r is Some <==> exists|i: int| 0 <= i && 3 * i + 2 < samples@.len() && attempt_ok(
            samples@,
            i,
        ),
        r matches Some(v) ==> exists|i: int|
            {
                &&& 0 <= i && 3 * i + 2 < samples@.len()
                &&& attempt_ok(samples@, i)
                &&& forall|j: int| 0 <= j < i ==> !attempt_ok(samples@, j)
                &&& v == samples@[3 * i + 1]
            },
{
    let n = samples.len();
    if n < 3 {
        return None;
    }
    // `base` is the index of the first access of the current triple.
    let mut base: usize = 0;
    while base < n - 2
        invariant
            nondecreasing(samples@),
            n == samples@.len(),
            3 <= n,
            base % 3 == 0,
            base <= n,
            forall|j: int| 0 <= j < base / 3 ==> !attempt_ok(samples@, j),
        decreases n - base,
    {
        let hi1 = samples[base] >> 32;
        let lo = samples[base + 1] & LOW_MASK;
        let hi2 = samples[base + 2] >> 32;
        if hi1 == hi2 {
            let v = (hi1 << 32) | lo;
            proof {
                let i = base as int / 3;
                assert(3 * i == base as int);
                assert(attempt_ok(samples@, i));
                assert(samples@[3 * i] <= samples@[3 * i + 1] <= samples@[3 * i + 2]);
                lemma_rollover_read(
                    samples@[3 * i],
                    samples@[3 * i + 1],
                    samples@[3 * i + 2],
                );
                assert(v == samples@[3 * i + 1]);
            }
            return Some(v);
        }
        proof {
            let i = base as int / 3;
            assert(3 * i == base as int);
            assert(!attempt_ok(samples@, i));
            assert forall|j: int| 0 <= j < (base + 3) / 3 implies !attempt_ok(samples@, j) by {
                assert(j < base / 3 || j == base / 3);
            }
        }
        base = base + 3;
    }
    proof {
        assert forall|i: int| 0 <= i && 3 * i + 2 < samples@.len() implies !attempt_ok(
            samples@,
            i,
        ) by {
            assert(3 * i < base as int);
            assert(i < base as int / 3);
        }
    }
    None
}

/// Arm the next preemption tick: a firmware timer call for one interval
/// past the counter value `now`.
pub fn schedule_next(now: u64) -> (c: SbiCall)
    requires
        now + INTERVAL <= u64::MAX,
    ensures
        c == sbi::set_timer_call((now + INTERVAL) as u64),
{
    sbi::set_timer(now + INTERVAL)
}

/// Marshal a software-interrupt wakeup of one hart: the firmware IPI call
/// whose mask holds exactly that hart's bit.
pub fn send(physical_hart_id: usize) -> (c: SbiCall)
    requires
        physical_hart_id < 64,
    ensures
        c == sbi::send_ipi_call((1u64 << physical_hart_id) as usize),
{
    let mask: u64 = 1u64 << physical_hart_id;
    sbi::send_ipi(mask as usize)
}

} // verus!
