use vstd::prelude::*;
use crate::text::{decimal, decimal_value, lemma_decimal_round_trip, push_all, push_decimal};

verus! {

/// How many acquisitions the touch test makes.
pub const TOUCH_ROUNDS: u8 = 4;

/// The ASCII bytes of `"TOUCH: "`.
pub open spec fn touch_prefix() -> Seq<u8> {
    seq![84u8, 79, 85, 67, 72, 58, 32]
}

/// The ASCII bytes of `", "`.
pub open spec fn touch_separator() -> Seq<u8> {
    seq![44u8, 32]
}

/// `TOUCH: <first>, <second>` and a line feed, the counts in decimal.
pub open spec fn touch_line(first: u16, second: u16) -> Seq<u8> {
    touch_prefix() + decimal(first as nat) + touch_separator() + decimal(second as nat) + seq![10u8]
}

/// Whether every byte of `s` is an ASCII decimal digit.
pub open spec fn all_digits(s: Seq<u8>) -> bool {
    forall|i: int| 0 <= i < s.len() ==> 48 <= #[trigger] s[i] <= 57
}

/// The touch line shows both counts in full: it is `TOUCH: `, the digits of
/// the first count, `, `, the digits of the second count and a line feed,
/// and read back the digits give the two counts, for every pair of counts.
pub proof fn lemma_touch_line_shows_counts(first: u16, second: u16)
    ensures
        exists|d1: Seq<u8>, d2: Seq<u8>|
            {
                &&& touch_line(first, second) == seq![84u8, 79, 85, 67, 72, 58, 32] + d1 + seq![44u8, 32]
                    + d2 + seq![10u8]
                &&& d1.len() > 0 && all_digits(d1) && decimal_value(d1) == first
                &&& d2.len() > 0 && all_digits(d2) && decimal_value(d2) == second
            },
{
    let d1 = decimal(first as nat);
    let d2 = decimal(second as nat);
    lemma_decimal_round_trip(first as nat);
    lemma_decimal_round_trip(second as nat);
    lemma_decimal_nonempty(first as nat);
    lemma_decimal_nonempty(second as nat);
    assert(touch_prefix() =~= seq![84u8, 79, 85, 67, 72, 58, 32]);
    assert(touch_separator() =~= seq![44u8, 32]);
    assert(touch_line(first, second) == seq![84u8, 79, 85, 67, 72, 58, 32] + d1 + seq![44u8, 32] + d2
        + seq![10u8]);
}

proof fn lemma_decimal_nonempty(n: nat)
    ensures
        decimal(n).len() > 0,
    decreases n,
{
    if n >= 10 {
        lemma_decimal_nonempty(n / 10);
    }
}

/// The line that reports the counts of the two sensed channels.
pub fn touch_line_bytes(first: u16, second: u16) -> (v: Vec<u8>)
    ensures
        v@ == touch_line(first, second),
{
    let mut v = vec![84u8, 79, 85, 67, 72, 58, 32];
    assert(v@ =~= touch_prefix());
    push_decimal(&mut v, first as u32);
    let sep = vec![44u8, 32];
    assert(sep@ =~= touch_separator());
    push_all(&mut v, sep.as_slice());
    push_decimal(&mut v, second as u32);
    v.push(10u8);
    v
}

/// Where the touch test stands.
#[derive(Clone, Copy, Debug)]
pub enum TouchStage {
    /// Waiting for an acquisition of round `round`.
    Acquire { round: u8 },
    /// Waiting for the counts of round `round` to be printed.
    Print { round: u8, first: u16, second: u16 },
    /// All rounds are over.
    Done,
}

/// What the hardware side has to do next.
#[derive(Debug)]
pub enum TouchAction {
    /// Start an acquisition and report the counts of the two channels.
    Acquire,
    /// Print this line.
    Print(Vec<u8>),
    /// The test is over.
    Finish,
}

pub enum TouchActionView {
    Acquire,
    Print(Seq<u8>),
    Finish,
}

impl View for TouchAction {
    type V = TouchActionView;

    open spec fn view(&self) -> TouchActionView {
        match self {
            TouchAction::Acquire => TouchActionView::Acquire,
            TouchAction::Print(v) => TouchActionView::Print(v@),
            TouchAction::Finish => TouchActionView::Finish,
        }
    }
}

/// What the hardware side reports back.
#[derive(Clone, Copy, Debug)]
pub enum TouchEvent {
    /// The counts of both channels, or `None` when the acquisition failed.
    Acquired(Option<(u16, u16)>),
    /// The line was printed.
    Printed,
}

/// The round after `round`, or the end.
pub open spec fn after_round(round: u8) -> TouchStage {
    if round + 1 < TOUCH_ROUNDS {
        TouchStage::Acquire { round: (round + 1) as u8 }
    } else {
        TouchStage::Done
    }
}

/// The stage after `e` is reported; an event that does not answer the
/// pending action changes nothing.
pub open spec fn touch_next(s: TouchStage, e: TouchEvent) -> TouchStage {
    match s {
        TouchStage::Acquire { round } => match e {
            TouchEvent::Acquired(Some((first, second))) => TouchStage::Print { round, first, second },
            TouchEvent::Acquired(None) => after_round(round),
            TouchEvent::Printed => s,
        },
        TouchStage::Print { round, .. } => match e {
            TouchEvent::Printed => after_round(round),
            _ => s,
        },
        TouchStage::Done => s,
    }
}

/// The action the touch test waits on.
pub open spec fn touch_pending(s: TouchStage) -> TouchActionView {
    match s {
        TouchStage::Acquire { .. } => TouchActionView::Acquire,
        TouchStage::Print { first, second, .. } => TouchActionView::Print(touch_line(first, second)),
        TouchStage::Done => TouchActionView::Finish,
    }
}

fn next_round(round: u8) -> (s: TouchStage)
    requires
        round < TOUCH_ROUNDS,
    ensures
        s == after_round(round),
{
    if round + 1 < TOUCH_ROUNDS {
        TouchStage::Acquire { round: round + 1 }
    } else {
        TouchStage::Done
    }
}

/// The touch test: `TOUCH_ROUNDS` acquisitions, each successful one
/// followed by a line with the counts.
pub struct TouchTest {
    stage: TouchStage,
}

impl View for TouchTest {
    type V = TouchStage;

    closed spec fn view(&self) -> TouchStage {
        self.stage
    }
}

/// The stages the touch test passes through.
pub open spec fn touch_wf(s: TouchStage) -> bool {
    match s {
        TouchStage::Acquire { round } => round < TOUCH_ROUNDS,
        TouchStage::Print { round, .. } => round < TOUCH_ROUNDS,
        TouchStage::Done => true,
    }
}

/// Starts the touch test at its first acquisition.
pub fn test_touch() -> (t: TouchTest)
    ensures
        t@ == (TouchStage::Acquire { round: 0 }),
{
    TouchTest { stage: TouchStage::Acquire { round: 0 } }
}

impl TouchTest {
    pub open spec fn wf(&self) -> bool {
        touch_wf(self@)
    }

    /// The action the touch test waits on.
    pub fn pending(&self) -> (a: TouchAction)
        ensures
            a@ == touch_pending(self@),
    {
        match self.stage {
            TouchStage::Acquire { .. } => TouchAction::Acquire,
            TouchStage::Print { first, second, .. } => TouchAction::Print(touch_line_bytes(first, second)),
            TouchStage::Done => TouchAction::Finish,
        }
    }

    /// Reports what the hardware side did and returns the next action.
    pub fn step(&mut self, event: TouchEvent) -> (a: TouchAction)
        requires
            old(self).wf(),
        ensures
            final(self).wf(),
            final(self)@ == touch_next(old(self)@, event),
            a@ == touch_pending(final(self)@),
    {
        match self.stage {
            TouchStage::Acquire { round } => match event {
                TouchEvent::Acquired(Some((first, second))) => {
                    self.stage = TouchStage::Print { round, first, second };
                },
                TouchEvent::Acquired(None) => {
                    self.stage = next_round(round);
                },
                TouchEvent::Printed => {},
            },
            TouchStage::Print { round, .. } => {
                if let TouchEvent::Printed = event {
                    self.stage = next_round(round);
                }
            },
            TouchStage::Done => {},
        }
        self.pending()
    }
}

/// Where the test stands in its order of work: two slots per round.
pub open spec fn touch_rank(s: TouchStage) -> int {
    match s {
        TouchStage::Acquire { round } => 2 * round,
        TouchStage::Print { round, .. } => 2 * round + 1,
        TouchStage::Done => 2 * TOUCH_ROUNDS,
    }
}

/// Every answered acquisition or print moves the test forward, so it ends
/// after at most `2 * TOUCH_ROUNDS` answered events, having asked for
/// exactly one acquisition per round; a failed acquisition skips the print.
pub proof fn lemma_touch_progress(s: TouchStage, e: TouchEvent)
    requires
        touch_wf(s),
        !(s is Done),
        s is Acquire ==> e is Acquired,
        s is Print ==> e is Printed,
    ensures
        touch_rank(touch_next(s, e)) > touch_rank(s),
        touch_wf(touch_next(s, e)),
        touch_next(s, e) is Acquire ==> touch_next(s, e)->Acquire_round == match s {
            TouchStage::Acquire { round } => round + 1,
            TouchStage::Print { round, .. } => round + 1,
            TouchStage::Done => 0,
        },
        e == TouchEvent::Acquired(None) ==> !(touch_next(s, e) is Print),
{
}

} // verus!
