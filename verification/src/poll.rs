//! Bounded busy-wait on a hardware status field.
//!
//! Hardware sets a status field some number of polls after the software
//! action that triggers it.  That latency is modelled by a countdown:
//! each poll of the register decrements the countdown, and once it has
//! run out the status field reads as the expected value.  The wait is
//! bounded: it gives up after `max_polls` polls instead of hanging, so
//! every wait site can surface a distinct timeout fault.

use vstd::prelude::*;

verus! {

/// Register value, remaining hardware latency, and success flag after a
/// bounded wait.
pub struct WaitResult {
    /// The register value as left by the last poll.
    pub reg: u32,
    /// Polls of hardware latency still outstanding.
    pub delay: u32,
    /// Whether the status field reached the expected value in time.
    pub ready: bool,
}

/// The wait succeeds exactly when the field already shows the expected
/// value or the hardware latency is below the poll bound.
pub open spec fn spec_wait_ready(reg: u32, mask: u32, expect: u32, delay: u32, max_polls: u32) -> bool {
    reg & mask == expect || delay < max_polls
}

/// Poll `reg` until its bits under `mask` read as `expect`, at most
/// `max_polls` times.  The modelled hardware sets the field `delay`
/// polls from now; on success the returned register holds the expected
/// field value and every bit outside `mask` unchanged.
pub fn wait_field(reg: u32, mask: u32, expect: u32, delay: u32, max_polls: u32) -> (r: WaitResult)
    requires
        expect & mask == expect,
    ensures
        r.ready == spec_wait_ready(reg, mask, expect, delay, max_polls),
        reg & mask == expect ==> r.reg == reg && r.delay == delay,
        reg & mask != expect && delay < max_polls ==> r.reg == ((reg & !mask) | expect)
            && r.delay == 0,
        !r.ready ==> r.reg == reg && r.delay == delay - max_polls,
        r.reg & !mask == reg & !mask,
        r.ready ==> r.reg & mask == expect,
        r.ready ==> r.reg == ((reg & !mask) | expect),
        r.delay <= delay,
{
    if reg & mask == expect {
        proof {
            lemma_field_after_set(reg, mask, expect);
        }
        return WaitResult { reg, delay, ready: true };
    }
    let mut cur: u32 = reg;
    let mut left: u32 = delay;
    let mut polls: u32 = 0;
    loop
        invariant
            expect & mask == expect,
            polls <= max_polls,
            reg & mask != expect,
            polls <= delay ==> cur == reg && left == delay - polls,
            polls > delay ==> cur == ((reg & !mask) | expect) && left == 0,
            cur & mask == expect ==> cur == ((reg & !mask) | expect) && left == 0,
        decreases max_polls - polls,
    {
        if cur & mask == expect {
            proof {
                lemma_field_after_set(reg, mask, expect);
            }
            return WaitResult { reg: cur, delay: left, ready: true };
        }
        if polls == max_polls {
            proof {
                lemma_field_after_set(reg, mask, expect);
            }
            return WaitResult { reg: cur, delay: left, ready: false };
        }
        if left > 0 {
            left = left - 1;
        } else {
            cur = (cur & !mask) | expect;
            proof {
                lemma_field_after_set(reg, mask, expect);
            }
        }
        polls = polls + 1;
    }
}

/// Forcing a field to its expected value makes the field read back as
/// that value and leaves the rest of the register alone.
proof fn lemma_field_after_set(reg: u32, mask: u32, expect: u32)
    by (bit_vector)
    requires
        expect & mask == expect,
    ensures
        ((reg & !mask) | expect) & mask == expect,
        ((reg & !mask) | expect) & !mask == reg & !mask,
        reg & mask == expect ==> ((reg & !mask) | expect) == reg,
{
}

} // verus!
