use vstd::prelude::*;
use usb_device::UsbError;

verus! {

/// A failed operation of the USB device stack.
#[verifier::external_type_specification]
#[verifier::external_body]
pub struct ExUsbError(UsbError);

/// Setting the serial port to this baud rate asks the board to jump to its
/// bootloader.
pub const BOOTLOADER_BAUD_RATE: u32 = 1200;

/// Vendor id the serial port enumerates with.
pub const USB_VID: u16 = 0x16c0;

/// Product id the serial port enumerates with.
pub const USB_PID: u16 = 0x27dd;

/// Size of the buffer that one read of the serial port fills at most.
pub const READ_BUFFER_LEN: usize = 64;

/// Whether `b` is an ASCII lower-case letter.
pub open spec fn is_lower(b: u8) -> bool {
    0x61 <= b <= 0x7a
}

/// `b` with an ASCII lower-case letter turned upper case (bit 5 cleared);
/// every other byte is left as it is.
pub open spec fn upper(b: u8) -> u8 {
    if is_lower(b) {
        b & !0x20u8
    } else {
        b
    }
}

/// Every byte of `s` passed through `upper`.
pub open spec fn upper_all(s: Seq<u8>) -> Seq<u8> {
    s.map_values(|b: u8| upper(b))
}

/// Turns the ASCII lower-case letters of `buf` upper case in place.
pub fn make_uppercase(buf: &mut Vec<u8>)
    ensures
        final(buf)@ == upper_all(old(buf)@),
{
    let mut i: usize = 0;
    while i < buf.len()
        invariant
            i <= buf@.len(),
            buf@.len() == old(buf)@.len(),
            forall|j: int| 0 <= j < i ==> #[trigger] buf@[j] == upper(old(buf)@[j]),
            forall|j: int| i <= j < buf@.len() ==> #[trigger] buf@[j] == old(buf)@[j],
        decreases buf@.len() - i,
    {
        let c = buf[i];
        if 0x61 <= c && c <= 0x7a {
            buf.set(i, c & !0x20u8);
        }
        i = i + 1;
    }
    assert(buf@ =~= upper_all(old(buf)@));
}

/// Whether a change of the line coding to `data_rate` asks for the
/// bootloader.
pub fn requests_bootloader(data_rate: u32) -> (b: bool)
    ensures
        b == (data_rate == BOOTLOADER_BAUD_RATE),
{
    data_rate == BOOTLOADER_BAUD_RATE
}

/// Upper-casing a lower-case letter subtracts 32, giving `'A'..='Z'`.
pub proof fn lemma_upper_of_lower(b: u8)
    requires
        is_lower(b),
    ensures
        upper(b) == b - 32,
        0x41 <= upper(b) <= 0x5a,
{
    assert(0x61 <= b <= 0x7a ==> b & !0x20u8 == b - 32) by (bit_vector);
}

/// Upper-casing twice changes nothing more, and leaves no lower-case letter.
pub proof fn lemma_upper_idempotent(s: Seq<u8>)
    ensures
        upper_all(upper_all(s)) == upper_all(s),
        forall|i: int| 0 <= i < s.len() ==> !is_lower(#[trigger] upper_all(s)[i]),
        upper_all(s).len() == s.len(),
{
    assert forall|i: int| 0 <= i < s.len() implies !is_lower(#[trigger] upper_all(s)[i]) by {
        if is_lower(s[i]) {
            lemma_upper_of_lower(s[i]);
        }
    }
    assert(upper_all(upper_all(s)) =~= upper_all(s));
}

/// Where the echo loop stands.
#[derive(Clone, Copy, Debug)]
pub enum EchoStage {
    /// Waiting for the current baud rate of the line coding.
    CheckRate,
    /// Waiting for the USB device to be polled.
    Poll,
    /// Waiting for a read of the serial port.
    Read,
    /// Waiting for the LED to go on.
    LedOn,
    /// Waiting for a write of the rest of the data.
    Write,
    /// Waiting for the LED to go off.
    LedOff,
    /// Jumping to the bootloader; nothing follows.
    Bootloader,
}

/// What the hardware side has to do next.
#[derive(Debug)]
pub enum EchoAction {
    ReadDataRate,
    EnterBootloader,
    Poll,
    Read,
    LedOn,
    /// Write these bytes to the serial port and report how many went out.
    Write(Vec<u8>),
    LedOff,
}

pub enum EchoActionView {
    ReadDataRate,
    EnterBootloader,
    Poll,
    Read,
    LedOn,
    Write(Seq<u8>),
    LedOff,
}

impl View for EchoAction {
    type V = EchoActionView;

    open spec fn view(&self) -> EchoActionView {
        match self {
            EchoAction::ReadDataRate => EchoActionView::ReadDataRate,
            EchoAction::EnterBootloader => EchoActionView::EnterBootloader,
            EchoAction::Poll => EchoActionView::Poll,
            EchoAction::Read => EchoActionView::Read,
            EchoAction::LedOn => EchoActionView::LedOn,
            EchoAction::Write(v) => EchoActionView::Write(v@),
            EchoAction::LedOff => EchoActionView::LedOff,
        }
    }
}

/// What the hardware side reports back.
#[derive(Debug)]
pub enum EchoEvent {
    /// The baud rate of the current line coding.
    DataRate(u32),
    /// Whether polling the device found something for the serial class.
    Polled(bool),
    /// The bytes a read returned, or its error.
    Received(Result<Vec<u8>, UsbError>),
    /// The LED was switched.
    LedSet,
    /// How many bytes a write took, or its error.
    Written(Result<usize, UsbError>),
}

pub enum EchoEventView {
    DataRate(u32),
    Polled(bool),
    Received(Result<Seq<u8>, UsbError>),
    LedSet,
    Written(Result<usize, UsbError>),
}

impl View for EchoEvent {
    type V = EchoEventView;

    open spec fn view(&self) -> EchoEventView {
        match self {
            EchoEvent::DataRate(r) => EchoEventView::DataRate(*r),
            EchoEvent::Polled(b) => EchoEventView::Polled(*b),
            EchoEvent::Received(Ok(v)) => EchoEventView::Received(Ok(v@)),
            EchoEvent::Received(Err(e)) => EchoEventView::Received(Err(*e)),
            EchoEvent::LedSet => EchoEventView::LedSet,
            EchoEvent::Written(r) => EchoEventView::Written(*r),
        }
    }
}

/// The USB serial echo: every received chunk is sent back upper-cased, with
/// the LED on meanwhile; a baud rate of `BOOTLOADER_BAUD_RATE` enters the
/// bootloader.
pub struct SerialEcho {
    stage: EchoStage,
    data: Vec<u8>,
    offset: usize,
}

pub struct EchoView {
    pub stage: EchoStage,
    pub data: Seq<u8>,
    pub offset: int,
}

impl View for SerialEcho {
    type V = EchoView;

    closed spec fn view(&self) -> EchoView {
        EchoView { stage: self.stage, data: self.data@, offset: self.offset as int }
    }
}

/// The shape the echo keeps: the offset of what was written stays within
/// the data, and short of its end while writing.
pub open spec fn echo_wf(s: EchoView) -> bool {
    &&& 0 <= s.offset <= s.data.len()
    &&& (s.stage is LedOn ==> s.offset == 0 && s.data.len() > 0)
    &&& (s.stage is Write ==> s.offset < s.data.len())
}

/// The action the echo waits on.
pub open spec fn echo_pending(s: EchoView) -> EchoActionView {
    match s.stage {
        EchoStage::CheckRate => EchoActionView::ReadDataRate,
        EchoStage::Poll => EchoActionView::Poll,
        EchoStage::Read => EchoActionView::Read,
        EchoStage::LedOn => EchoActionView::LedOn,
        EchoStage::Write => EchoActionView::Write(s.data.subrange(s.offset, s.data.len() as int)),
        EchoStage::LedOff => EchoActionView::LedOff,
        EchoStage::Bootloader => EchoActionView::EnterBootloader,
    }
}

/// The state after `e` is reported. An event that does not answer the
/// pending action leaves the state as it was; so does a write that took
/// nothing or failed, which is then tried again.
pub open spec fn echo_next(s: EchoView, e: EchoEventView) -> EchoView {
    match s.stage {
        EchoStage::CheckRate => match e {
            EchoEventView::DataRate(r) => EchoView {
                stage: if r == BOOTLOADER_BAUD_RATE {
                    EchoStage::Bootloader
                } else {
                    EchoStage::Poll
                },
                ..s
            },
            _ => s,
        },
        EchoStage::Poll => match e {
            EchoEventView::Polled(ready) => EchoView {
                stage: if ready {
                    EchoStage::Read
                } else {
                    EchoStage::CheckRate
                },
                ..s
            },
            _ => s,
        },
        EchoStage::Read => match e {
            EchoEventView::Received(Ok(bytes)) => if bytes.len() > 0 {
                EchoView { stage: EchoStage::LedOn, data: upper_all(bytes), offset: 0 }
            } else {
                EchoView { stage: EchoStage::LedOff, ..s }
            },
            EchoEventView::Received(Err(_)) => EchoView { stage: EchoStage::LedOff, ..s },
            _ => s,
        },
        EchoStage::LedOn => match e {
            EchoEventView::LedSet => EchoView { stage: EchoStage::Write, ..s },
            _ => s,
        },
        EchoStage::Write => match e {
            EchoEventView::Written(Ok(n)) => if n == 0 {
                s
            } else if n >= s.data.len() - s.offset {
                EchoView { stage: EchoStage::LedOff, offset: s.data.len() as int, ..s }
            } else {
                EchoView { offset: s.offset + n, ..s }
            },
            _ => s,
        },
        EchoStage::LedOff => match e {
            EchoEventView::LedSet => EchoView { stage: EchoStage::CheckRate, ..s },
            _ => s,
        },
        EchoStage::Bootloader => s,
    }
}

/// One step: the new state, and the action it waits on.
pub open spec fn echo_step(s: EchoView, e: EchoEventView) -> (EchoView, EchoActionView) {
    let s2 = echo_next(s, e);
    (s2, echo_pending(s2))
}

impl SerialEcho {
    pub open spec fn wf(&self) -> bool {
        echo_wf(self@)
    }

    /// The echo at the top of its loop; it first asks for the baud rate.
    pub fn new() -> (e: SerialEcho)
        ensures
            e.wf(),
            e@.stage is CheckRate,
    {
        SerialEcho { stage: EchoStage::CheckRate, data: Vec::new(), offset: 0 }
    }

    /// The action the echo waits on.
    pub fn pending(&self) -> (a: EchoAction)
        requires
            self.wf(),
        ensures
            a@ == echo_pending(self@),
    {
        match self.stage {
            EchoStage::CheckRate => EchoAction::ReadDataRate,
            EchoStage::Poll => EchoAction::Poll,
            EchoStage::Read => EchoAction::Read,
            EchoStage::LedOn => EchoAction::LedOn,
            EchoStage::Write => {
                let mut rest: Vec<u8> = Vec::new();
                let mut i = self.offset;
                while i < self.data.len()
                    invariant
                        self.offset <= i <= self.data@.len(),
                        rest@ == self.data@.subrange(self.offset as int, i as int),
                    decreases self.data@.len() - i,
                {
                    rest.push(self.data[i]);
                    i = i + 1;
                    assert(rest@ =~= self.data@.subrange(self.offset as int, i as int));
                }
                EchoAction::Write(rest)
            },
            EchoStage::LedOff => EchoAction::LedOff,
            EchoStage::Bootloader => EchoAction::EnterBootloader,
        }
    }

    /// Reports what the hardware side did and returns the next action.
    pub fn step(&mut self, event: EchoEvent) -> (a: EchoAction)
        requires
            old(self).wf(),
        ensures
            final(self).wf(),
            (final(self)@, a@) == echo_step(old(self)@, event@),
    {
        let ghost s0 = self@;
        match self.stage {
            EchoStage::CheckRate => {
                if let EchoEvent::DataRate(r) = event {
                    if requests_bootloader(r) {
                        self.stage = EchoStage::Bootloader;
                    } else {
                        self.stage = EchoStage::Poll;
                    }
                }
            },
            EchoStage::Poll => {
                if let EchoEvent::Polled(ready) = event {
                    if ready {
                        self.stage = EchoStage::Read;
                    } else {
                        self.stage = EchoStage::CheckRate;
                    }
                }
            },
            EchoStage::Read => match event {
                EchoEvent::Received(Ok(bytes)) => {
                    if bytes.len() > 0 {
                        let mut bytes = bytes;
                        make_uppercase(&mut bytes);
                        self.data = bytes;
                        self.offset = 0;
                        self.stage = EchoStage::LedOn;
                    } else {
                        self.stage = EchoStage::LedOff;
                    }
                },
                EchoEvent::Received(Err(_)) => {
                    self.stage = EchoStage::LedOff;
                },
                _ => {},
            },
            EchoStage::LedOn => {
                if let EchoEvent::LedSet = event {
                    self.stage = EchoStage::Write;
                }
            },
            EchoStage::Write => {
                if let EchoEvent::Written(Ok(n)) = event {
                    if n > 0 {
                        if n >= self.data.len() - self.offset {
                            self.offset = self.data.len();
                            self.stage = EchoStage::LedOff;
                        } else {
                            self.offset = self.offset + n;
                        }
                    }
                }
            },
            EchoStage::LedOff => {
                if let EchoEvent::LedSet = event {
                    self.stage = EchoStage::CheckRate;
                }
            },
            EchoStage::Bootloader => {},
        }
        assert(self@ == echo_next(s0, event@));
        self.pending()
    }
}

/// The actions answered to `events`, one per event, starting from `s`.
pub open spec fn echo_run(s: EchoView, events: Seq<EchoEventView>) -> (EchoView, Seq<EchoActionView>)
    decreases events.len(),
{
    if events.len() == 0 {
        (s, Seq::empty())
    } else {
        let (s1, a) = echo_step(s, events[0]);
        let (s2, rest) = echo_run(s1, events.drop_first());
        (s2, seq![a] + rest)
    }
}

/// The bytes the host took from the writes offered while `events` are
/// reported: of each write that took `n > 0` bytes, the first `n` bytes of
/// what it offered (all of them if `n` is larger).
pub open spec fn accepted(s: EchoView, events: Seq<EchoEventView>) -> Seq<u8>
    decreases events.len(),
{
    if events.len() == 0 {
        Seq::empty()
    } else {
        let s1 = echo_next(s, events[0]);
        let rest = s.data.subrange(s.offset, s.data.len() as int);
        let now = match events[0] {
            EchoEventView::Written(Ok(n)) => if !(s.stage is Write) {
                Seq::empty()
            } else if n >= rest.len() {
                rest
            } else {
                rest.take(n as int)
            },
            _ => Seq::empty(),
        };
        now + accepted(s1, events.drop_first())
    }
}

/// Whether every event is a write report.
pub open spec fn only_writes(events: Seq<EchoEventView>) -> bool {
    forall|i: int| 0 <= i < events.len() ==> #[trigger] events[i] is Written
}

/// While write results come in, the host gets exactly the next bytes of the
/// upper-cased input, in order and without gaps or repeats; the LED goes
/// off once, and only once, all of them went out.
pub proof fn lemma_echo_sends_data_in_order(s: EchoView, events: Seq<EchoEventView>)
    requires
        echo_wf(s),
        s.stage is Write || s.stage is LedOff,
        s.stage is LedOff ==> s.offset == s.data.len(),
        only_writes(events),
    ensures
        ({
            let f = echo_run(s, events).0;
            &&& f.data == s.data
            &&& s.offset <= f.offset <= s.data.len()
            &&& accepted(s, events) == s.data.subrange(s.offset, f.offset)
            &&& (f.stage is LedOff <==> f.offset == s.data.len())
            &&& (f.stage is Write || f.stage is LedOff)
        }),
    decreases events.len(),
{
    if events.len() == 0 {
        assert(s.data.subrange(s.offset, s.offset) =~= Seq::<u8>::empty());
    } else {
        let s1 = echo_next(s, events[0]);
        let rest = events.drop_first();
        assert(events[0] is Written);
        assert forall|i: int| 0 <= i < rest.len() implies #[trigger] rest[i] is Written by {
            assert(rest[i] == events[i + 1]);
        }
        lemma_echo_sends_data_in_order(s1, rest);
        let f = echo_run(s1, rest).0;
        assert(echo_run(s, events).0 == f);
        if s.stage is Write {
            if let EchoEventView::Written(Ok(n)) = events[0] {
                if n > 0 {
                    let r = s.data.subrange(s.offset, s.data.len() as int);
                    if n >= r.len() {
                        assert(s.data.subrange(s.offset, s1.offset) =~= r);
                    } else {
                        assert(s.data.subrange(s.offset, s1.offset) =~= r.take(n as int));
                    }
                } else {
                    assert(s.data.subrange(s.offset, s1.offset) =~= Seq::<u8>::empty());
                }
            } else {
                assert(s.data.subrange(s.offset, s1.offset) =~= Seq::<u8>::empty());
            }
        } else {
            assert(s.data.subrange(s.offset, s1.offset) =~= Seq::<u8>::empty());
        }
        assert(s.data.subrange(s.offset, s1.offset) + s.data.subrange(s1.offset, f.offset)
            =~= s.data.subrange(s.offset, f.offset));
    }
}

/// The echo asks for the bootloader only right after reading a baud rate of
/// `BOOTLOADER_BAUD_RATE`, and then stays there whatever is reported.
pub proof fn lemma_bootloader_only_on_request(s: EchoView, e: EchoEventView)
    requires
        echo_wf(s),
    ensures
        echo_step(s, e).1 is EnterBootloader ==> (s.stage is Bootloader || (s.stage is CheckRate
            && e == EchoEventView::DataRate(BOOTLOADER_BAUD_RATE))),
        s.stage is Bootloader ==> echo_step(s, e).1 is EnterBootloader,
{
}

} // verus!
