use vstd::prelude::*;

verus! {

/// How many times the LED brightness sweeps from off to full.
pub const SWEEPS: u32 = 4;

/// One step of the LED brightness sweep.
#[derive(Clone, Copy, Debug, PartialEq, Eq, Structural)]
pub enum PwmAction {
    /// Set the duty cycle of the LED's PWM channel.
    SetDuty(u16),
    /// Enable the PWM channel.
    Enable,
    /// Wait one millisecond.
    WaitMs,
    /// The sweep is over.
    Finish,
}

/// Step `k` of the sweep for a channel with `max_duty`: half brightness,
/// enable, then `SWEEPS` times every duty from 0 up to `max_duty - 1`, each
/// held for a millisecond.
pub open spec fn sweep_step(max_duty: u16, k: nat) -> PwmAction {
    if k == 0 {
        PwmAction::SetDuty((max_duty / 2) as u16)
    } else if k == 1 {
        PwmAction::Enable
    } else {
        let j = k - 2;
        if j < 2 * SWEEPS * max_duty {
            if j % 2 == 0 {
                PwmAction::SetDuty(((j / 2) % (max_duty as int)) as u16)
            } else {
                PwmAction::WaitMs
            }
        } else {
            PwmAction::Finish
        }
    }
}

/// Step `k` of the LED brightness sweep.
pub fn test_pwm_step(max_duty: u16, k: u32) -> (a: PwmAction)
    ensures
        a == sweep_step(max_duty, k as nat),
{
    if k == 0 {
        PwmAction::SetDuty(max_duty / 2)
    } else if k == 1 {
        PwmAction::Enable
    } else {
        let j: u32 = k - 2;
        if j < 2 * SWEEPS * (max_duty as u32) {
            if j % 2 == 0 {
                let d = (j / 2) % (max_duty as u32);
                assert(d < max_duty) by (nonlinear_arith)
                    requires
                        d == (j / 2) % (max_duty as u32),
                        max_duty > 0,
                ;
                PwmAction::SetDuty(d as u16)
            } else {
                PwmAction::WaitMs
            }
        } else {
            PwmAction::Finish
        }
    }
}

/// The sweep never asks for more than `max_duty`; in sweep `r` it holds
/// duty `i` at step `2 + 2 * (r * max_duty + i)` and waits right after; it
/// finishes after `2 + 2 * SWEEPS * max_duty` steps.
pub proof fn lemma_sweep_shape(max_duty: u16, k: nat, r: nat, i: nat)
    ensures
        sweep_step(max_duty, k) matches PwmAction::SetDuty(d) ==> d <= max_duty,
        r < SWEEPS && i < max_duty ==> sweep_step(max_duty, (2 + 2 * (r * max_duty + i)) as nat)
            == PwmAction::SetDuty(i as u16),
        r < SWEEPS && i < max_duty ==> sweep_step(max_duty, (3 + 2 * (r * max_duty + i)) as nat)
            == PwmAction::WaitMs,
        k >= 2 + 2 * SWEEPS * max_duty ==> sweep_step(max_duty, k) == PwmAction::Finish,
{
    if k >= 2 && k - 2 < 2 * SWEEPS * max_duty {
        let j = k - 2;
        assert((j / 2) % (max_duty as int) < max_duty) by (nonlinear_arith)
            requires
                max_duty > 0,
        ;
    }
    if r < SWEEPS && i < max_duty {
        let n = r * max_duty + i;
        assert(n < SWEEPS * max_duty) by (nonlinear_arith)
            requires
                r < SWEEPS,
                i < max_duty,
                n == r * max_duty + i,
        ;
        assert((2 * n) % 2 == 0 && (2 * n) / 2 == n) by (nonlinear_arith);
        assert((2 * n + 1) % 2 == 1) by (nonlinear_arith);
        assert(n % (max_duty as int) == i) by (nonlinear_arith)
            requires
                n == r * max_duty + i,
                i < max_duty,
        ;
    }
}

} // verus!
