use vstd::prelude::*;

verus! {

/// Number of SysTick ticks that last at least `ns` nanoseconds, where
/// `scale` is the number of ticks per microsecond: `ns * scale / 1000`,
/// rounded up.
pub open spec fn spec_ticks_for_ns(ns: u32, scale: u32) -> int {
    (ns as int * scale as int + 999) / 1000
}

/// Ticks to wait for a delay of at least `ns` nanoseconds with `scale` ticks
/// per microsecond: `ns * scale / 1000`, rounded up, so that the ticks last
/// no less than the delay asked for.
pub fn ticks_for_ns(ns: u32, scale: u32) -> (ticks: u32)
    requires
        ns as int * scale as int <= u32::MAX,
    ensures
        ticks == spec_ticks_for_ns(ns, scale),
        ticks as int * 1000 >= ns as int * scale as int,
        ticks as int * 1000 < ns as int * scale as int + 1000,
{
    let product: u64 = ns as u64 * scale as u64;
    let ticks: u64 = (product + 999) / 1000;
    ticks as u32
}

/// A longer delay never waits fewer ticks, and a delay of `1000 * k`
/// nanoseconds waits exactly `k` microseconds' worth of ticks.
pub proof fn lemma_ticks_monotonic(ns1: u32, ns2: u32, scale: u32, k: u32)
    ensures
        ns1 <= ns2 ==> spec_ticks_for_ns(ns1, scale) <= spec_ticks_for_ns(ns2, scale),
        k as int * 1000 <= u32::MAX ==> spec_ticks_for_ns((k as int * 1000) as u32, scale) == k as int * scale as int,
{
    if ns1 <= ns2 {
        assert(ns1 as int * scale as int <= ns2 as int * scale as int) by (nonlinear_arith)
            requires
                ns1 <= ns2,
        ;
        vstd::arithmetic::div_mod::lemma_div_is_ordered(
            ns1 as int * scale as int + 999,
            ns2 as int * scale as int + 999,
            1000,
        );
    }
    if k as int * 1000 <= u32::MAX {
        assert(((k as int * 1000) * scale as int + 999) / 1000 == k as int * scale as int) by (nonlinear_arith);
    }
}

} // verus!
