use vstd::prelude::*;
use core::convert::Infallible;
use embedded_hal::spi::ErrorKind;

verus! {

/// A failed write to a text sink.
#[verifier::external_type_specification]
#[verifier::external_body]
pub struct ExFmtError(core::fmt::Error);

/// Bit 7 of the first byte of a transfer: set to read, clear to write.
pub const READ_NOT_WRITE: u8 = 0x80;

/// Bit 6 of the first byte of a transfer: step the register address after
/// every data byte.
pub const ADDRESS_AUTO_INCREMENT: u8 = 0x40;

/// The register address occupies the low six bits of the first byte.
pub const ADDRESS_MASK: u8 = 0x3f;

/// Errors of the accelerometer driver and of its self test.
#[derive(Clone, Copy, Debug)]
pub enum Error {
    SpiError(ErrorKind),
    PinError(Infallible),
    FormatError(core::fmt::Error),
    WrongId,
}

impl From<ErrorKind> for Error {
    fn from(error: ErrorKind) -> (e: Self) {
        Error::SpiError(error)
    }
}

impl vstd::std_specs::convert::FromSpecImpl<ErrorKind> for Error {
    open spec fn obeys_from_spec() -> bool {
        true
    }

    open spec fn from_spec(error: ErrorKind) -> Self {
        Error::SpiError(error)
    }
}

impl From<core::fmt::Error> for Error {
    fn from(error: core::fmt::Error) -> (e: Self) {
        Error::FormatError(error)
    }
}

impl vstd::std_specs::convert::FromSpecImpl<core::fmt::Error> for Error {
    open spec fn obeys_from_spec() -> bool {
        true
    }

    open spec fn from_spec(error: core::fmt::Error) -> Self {
        Error::FormatError(error)
    }
}

/// First byte of a single-register read of `address`.
pub open spec fn read_header(address: u8) -> u8 {
    READ_NOT_WRITE | (address & ADDRESS_MASK)
}

/// First byte of a single-register write of `address`.
pub open spec fn write_header(address: u8) -> u8 {
    address & ADDRESS_MASK
}

/// First byte of a read of consecutive registers starting at `address`.
pub open spec fn read_auto_inc_header(address: u8) -> u8 {
    READ_NOT_WRITE | ADDRESS_AUTO_INCREMENT | (address & ADDRESS_MASK)
}

/// First byte of a write of consecutive registers starting at `address`.
pub open spec fn write_auto_inc_header(address: u8) -> u8 {
    ADDRESS_AUTO_INCREMENT | (address & ADDRESS_MASK)
}

/// What a finished transaction hands back on success.
#[derive(Clone, Copy, Debug)]
pub enum ReplyKind {
    /// The byte clocked in with the second byte of the only frame.
    Register,
    /// Nothing.
    Written,
    /// The bytes clocked in during the second frame.
    Block,
}

/// Where a transaction stands.
#[derive(Clone, Copy, Debug)]
pub enum Phase {
    /// Waiting for chip select to go low.
    Selecting,
    /// Waiting for the transfer of the next frame.
    Transferring,
    /// Waiting for chip select to go high.
    Deselecting,
    /// The outcome is known.
    Finished,
}

/// The reply of a successful transaction.
#[derive(Debug)]
pub enum Reply {
    Register(u8),
    Written,
    Block(Vec<u8>),
}

pub enum ReplyView {
    Register(u8),
    Written,
    Block(Seq<u8>),
}

impl View for Reply {
    type V = ReplyView;

    open spec fn view(&self) -> ReplyView {
        match self {
            Reply::Register(b) => ReplyView::Register(*b),
            Reply::Written => ReplyView::Written,
            Reply::Block(v) => ReplyView::Block(v@),
        }
    }
}

/// What the hardware has to do next for a transaction.
#[derive(Debug)]
pub enum Action {
    /// Drive chip select low.
    SelectChip,
    /// Clock these bytes out and report the bytes clocked in.
    Transfer(Vec<u8>),
    /// Drive chip select high.
    DeselectChip,
    /// The transaction is over, with this outcome.
    Finish(Result<Reply, Error>),
}

pub enum ActionView {
    SelectChip,
    Transfer(Seq<u8>),
    DeselectChip,
    Finish(Result<ReplyView, Error>),
}

impl View for Action {
    type V = ActionView;

    open spec fn view(&self) -> ActionView {
        match self {
            Action::SelectChip => ActionView::SelectChip,
            Action::Transfer(v) => ActionView::Transfer(v@),
            Action::DeselectChip => ActionView::DeselectChip,
            Action::Finish(Ok(r)) => ActionView::Finish(Ok(r@)),
            Action::Finish(Err(e)) => ActionView::Finish(Err(*e)),
        }
    }
}

/// What the hardware reports back after performing an action. Driving the
/// chip select pin cannot fail: its error type is `Infallible`.
#[derive(Debug)]
pub enum Event {
    /// Chip select was driven as asked.
    ChipSet,
    /// A transfer finished with the bytes clocked in, or failed.
    Transferred(Result<Vec<u8>, ErrorKind>),
}

pub enum EventView {
    ChipSet,
    Transferred(Result<Seq<u8>, ErrorKind>),
}

impl View for Event {
    type V = EventView;

    open spec fn view(&self) -> EventView {
        match self {
            Event::ChipSet => EventView::ChipSet,
            Event::Transferred(Ok(v)) => EventView::Transferred(Ok(v@)),
            Event::Transferred(Err(k)) => EventView::Transferred(Err(*k)),
        }
    }
}

/// One SPI transaction with the accelerometer: chip select low, one or two
/// frames transferred, chip select high.
#[derive(Debug)]
pub struct Transaction {
    kind: ReplyKind,
    frames: Vec<Vec<u8>>,
    received: Vec<Vec<u8>>,
    phase: Phase,
    failure: Option<ErrorKind>,
}

pub struct TransactionView {
    pub kind: ReplyKind,
    pub frames: Seq<Seq<u8>>,
    pub received: Seq<Seq<u8>>,
    pub phase: Phase,
    pub failure: Option<ErrorKind>,
}

impl View for Transaction {
    type V = TransactionView;

    closed spec fn view(&self) -> TransactionView {
        TransactionView {
            kind: self.kind,
            frames: self.frames@.map_values(|f: Vec<u8>| f@),
            received: self.received@.map_values(|f: Vec<u8>| f@),
            phase: self.phase,
            failure: self.failure,
        }
    }
}

/// Number of frames of a transaction that replies with `kind`.
pub open spec fn frame_count(kind: ReplyKind) -> nat {
    match kind {
        ReplyKind::Block => 2,
        _ => 1,
    }
}

/// The shape every transaction keeps.
pub open spec fn transaction_wf(t: TransactionView) -> bool {
    &&& t.frames.len() == frame_count(t.kind)
    &&& (t.kind is Register ==> t.frames[0].len() == 2)
    &&& t.received.len() <= t.frames.len()
    &&& forall|j: int| 0 <= j < t.received.len() ==> #[trigger] t.received[j].len() == t.frames[j].len()
    &&& (t.phase is Selecting ==> t.received.len() == 0 && t.failure is None)
    &&& (t.phase is Transferring ==> t.received.len() < t.frames.len() && t.failure is None)
    &&& ((t.phase is Deselecting || t.phase is Finished) && t.failure is None
        ==> t.received.len() == t.frames.len())
}

/// The outcome of a transaction whose frames have all been transferred, or
/// whose transfer failed.
pub open spec fn outcome(t: TransactionView) -> Result<ReplyView, Error> {
    match t.failure {
        Some(k) => Err(Error::SpiError(k)),
        None => Ok(decode(t.kind, t.received)),
    }
}

/// The action that a transaction waits on in its current phase.
pub open spec fn pending(t: TransactionView) -> ActionView {
    match t.phase {
        Phase::Selecting => ActionView::SelectChip,
        Phase::Transferring => ActionView::Transfer(t.frames[t.received.len() as int]),
        Phase::Deselecting => ActionView::DeselectChip,
        Phase::Finished => ActionView::Finish(outcome(t)),
    }
}

/// The state after `e` is reported. An event that does not answer the
/// pending action (a pin report while a transfer is pending, a transfer
/// report while a pin change is pending, or bytes of the wrong length)
/// leaves the transaction as it was.
pub open spec fn next_state(t: TransactionView, e: EventView) -> TransactionView {
    match t.phase {
        Phase::Selecting => if e is ChipSet {
            TransactionView { phase: Phase::Transferring, ..t }
        } else {
            t
        },
        Phase::Transferring => match e {
            EventView::Transferred(Ok(b)) => {
                if b.len() == t.frames[t.received.len() as int].len() {
                    let r = t.received.push(b);
                    if r.len() < t.frames.len() {
                        TransactionView { received: r, ..t }
                    } else {
                        TransactionView { received: r, phase: Phase::Deselecting, ..t }
                    }
                } else {
                    t
                }
            },
            EventView::Transferred(Err(k)) => TransactionView {
                failure: Some(k),
                phase: Phase::Deselecting,
                ..t
            },
            EventView::ChipSet => t,
        },
        Phase::Deselecting => if e is ChipSet {
            TransactionView { phase: Phase::Finished, ..t }
        } else {
            t
        },
        Phase::Finished => t,
    }
}

/// One step: the new state, and the action it waits on.
pub open spec fn step_spec(t: TransactionView, e: EventView) -> (TransactionView, ActionView) {
    let t2 = next_state(t, e);
    (t2, pending(t2))
}

/// A fresh transaction that sends `frames` and replies with `kind`.
pub open spec fn fresh(kind: ReplyKind, frames: Seq<Seq<u8>>) -> TransactionView {
    TransactionView {
        kind,
        frames,
        received: Seq::empty(),
        phase: Phase::Selecting,
        failure: None,
    }
}

/// The actions answered to `events`, one per event, starting from `t`.
pub open spec fn run(t: TransactionView, events: Seq<EventView>) -> (TransactionView, Seq<ActionView>)
    decreases events.len(),
{
    if events.len() == 0 {
        (t, Seq::empty())
    } else {
        let (t1, a) = step_spec(t, events[0]);
        let (t2, rest) = run(t1, events.drop_first());
        (t2, seq![a] + rest)
    }
}

/// The reply that a transaction of `kind` decodes from the bytes clocked in.
pub open spec fn decode(kind: ReplyKind, received: Seq<Seq<u8>>) -> ReplyView {
    match kind {
        ReplyKind::Register => ReplyView::Register(received[0][1]),
        ReplyKind::Written => ReplyView::Written,
        ReplyKind::Block => ReplyView::Block(received[1]),
    }
}

/// The events of a transaction where every pin change and transfer works.
pub open spec fn success_events(replies: Seq<Seq<u8>>) -> Seq<EventView> {
    seq![EventView::ChipSet] + replies.map_values(|r: Seq<u8>| EventView::Transferred(Ok(r)))
        + seq![EventView::ChipSet]
}

/// The header byte of every access carries the direction in bit 7, the
/// auto-increment flag in bit 6 and the register address in bits 0 to 5.
pub proof fn lemma_header_fields(address: u8)
    ensures
        read_header(address) & 0x80 == 0x80,
        read_header(address) & 0x40 == 0,
        read_header(address) & 0x3f == address & 0x3f,
        write_header(address) & 0x80 == 0,
        write_header(address) & 0x40 == 0,
        write_header(address) & 0x3f == address & 0x3f,
        read_auto_inc_header(address) & 0x80 == 0x80,
        read_auto_inc_header(address) & 0x40 == 0x40,
        read_auto_inc_header(address) & 0x3f == address & 0x3f,
        write_auto_inc_header(address) & 0x80 == 0,
        write_auto_inc_header(address) & 0x40 == 0x40,
        write_auto_inc_header(address) & 0x3f == address & 0x3f,
{
    assert((0x80u8 | (address & 0x3f)) & 0x80 == 0x80) by (bit_vector);
    assert((0x80u8 | (address & 0x3f)) & 0x40 == 0) by (bit_vector);
    assert((0x80u8 | (address & 0x3f)) & 0x3f == address & 0x3f) by (bit_vector);
    assert((address & 0x3f) & 0x80 == 0) by (bit_vector);
    assert((address & 0x3f) & 0x40 == 0) by (bit_vector);
    assert((address & 0x3f) & 0x3f == address & 0x3f) by (bit_vector);
    assert((0x80u8 | 0x40u8 | (address & 0x3f)) & 0x80 == 0x80) by (bit_vector);
    assert((0x80u8 | 0x40u8 | (address & 0x3f)) & 0x40 == 0x40) by (bit_vector);
    assert((0x80u8 | 0x40u8 | (address & 0x3f)) & 0x3f == address & 0x3f) by (bit_vector);
    assert((0x40u8 | (address & 0x3f)) & 0x80 == 0) by (bit_vector);
    assert((0x40u8 | (address & 0x3f)) & 0x40 == 0x40) by (bit_vector);
    assert((0x40u8 | (address & 0x3f)) & 0x3f == address & 0x3f) by (bit_vector);
}

/// A transaction hands out its outcome only in answer to chip select going
/// high: the chip is always released before the caller learns the result.
pub proof fn lemma_outcome_only_after_release(t: TransactionView, e: EventView)
    requires
        transaction_wf(t),
        !(t.phase is Finished),
        step_spec(t, e).1 is Finish,
    ensures
        t.phase is Deselecting,
        e is ChipSet,
{
}

/// Every step keeps the shape of a transaction.
pub proof fn lemma_step_keeps_wf(t: TransactionView, e: EventView)
    requires
        transaction_wf(t),
    ensures
        transaction_wf(step_spec(t, e).0),
{
    let t2 = next_state(t, e);
    if t.phase is Transferring {
        if let EventView::Transferred(Ok(b)) = e {
            if b.len() == t.frames[t.received.len() as int].len() {
                assert forall|j: int| 0 <= j < t2.received.len() implies #[trigger] t2.received[j].len()
                    == t2.frames[j].len() by {
                    if j < t.received.len() {
                        assert(t2.received[j] == t.received[j]);
                    }
                }
            }
        }
    }
}

/// A fresh transaction whose pin changes and transfers all succeed sends its
/// frames in order between selecting and releasing the chip, then finishes
/// with the reply decoded from the bytes clocked in.
pub proof fn lemma_successful_transaction(t: TransactionView, replies: Seq<Seq<u8>>)
    requires
        transaction_wf(t),
        t.phase is Selecting,
        replies.len() == t.frames.len(),
        forall|j: int| 0 <= j < replies.len() ==> #[trigger] replies[j].len() == t.frames[j].len(),
    ensures
        pending(t) == ActionView::SelectChip,
        run(t, success_events(replies)).1 == t.frames.map_values(|f: Seq<u8>| ActionView::Transfer(f))
            + seq![ActionView::DeselectChip, ActionView::Finish(Ok(decode(t.kind, replies)))],
        run(t, success_events(replies)).0.phase is Finished,
{
    reveal_with_fuel(run, 5);
    let ev = success_events(replies);
    let t1 = next_state(t, ev[0]);
    assert(t1.phase is Transferring);
    if t.frames.len() == 1 {
        assert(ev =~= seq![
            EventView::ChipSet,
            EventView::Transferred(Ok(replies[0])),
            EventView::ChipSet
        ]);
        let t2 = next_state(t1, ev[1]);
        assert(t2.received =~= seq![replies[0]]);
        let t3 = next_state(t2, ev[2]);
        assert(ev.drop_first().drop_first().drop_first() =~= Seq::<EventView>::empty());
        assert(ev.drop_first()[0] == ev[1]);
        assert(ev.drop_first().drop_first()[0] == ev[2]);
        assert(t3.received =~= replies);
        assert(run(t, ev).1 =~= t.frames.map_values(|f: Seq<u8>| ActionView::Transfer(f))
            + seq![ActionView::DeselectChip, ActionView::Finish(Ok(decode(t.kind, replies)))]);
    } else {
        assert(ev =~= seq![
            EventView::ChipSet,
            EventView::Transferred(Ok(replies[0])),
            EventView::Transferred(Ok(replies[1])),
            EventView::ChipSet
        ]);
        let t2 = next_state(t1, ev[1]);
        assert(t2.received =~= seq![replies[0]]);
        let t3 = next_state(t2, ev[2]);
        assert(t3.received =~= seq![replies[0], replies[1]]);
        let t4 = next_state(t3, ev[3]);
        assert(ev.drop_first()[0] == ev[1]);
        assert(ev.drop_first().drop_first()[0] == ev[2]);
        assert(ev.drop_first().drop_first().drop_first()[0] == ev[3]);
        assert(ev.drop_first().drop_first().drop_first().drop_first() =~= Seq::<EventView>::empty());
        assert(t4.received =~= replies);
        assert(run(t, ev).1 =~= t.frames.map_values(|f: Seq<u8>| ActionView::Transfer(f))
            + seq![ActionView::DeselectChip, ActionView::Finish(Ok(decode(t.kind, replies)))]);
    }
}

/// When a transfer fails, the transaction releases the chip and then
/// finishes with the SPI error.
pub proof fn lemma_failed_transfer(t: TransactionView, k: ErrorKind)
    requires
        transaction_wf(t),
        t.phase is Transferring,
    ensures
        run(t, seq![EventView::Transferred(Err(k)), EventView::ChipSet]).1
            == seq![ActionView::DeselectChip, ActionView::Finish(Err(Error::SpiError(k)))],
{
    reveal_with_fuel(run, 3);
    let ev = seq![EventView::Transferred(Err(k)), EventView::ChipSet];
    assert(ev.drop_first()[0] == ev[1]);
    assert(ev.drop_first().drop_first() =~= Seq::<EventView>::empty());
    assert(run(t, ev).1 =~= seq![ActionView::DeselectChip, ActionView::Finish(Err(Error::SpiError(k)))]);
}

/// After a transfer failed, no further frame is sent, whatever is reported.
pub proof fn lemma_no_transfer_after_failure(t: TransactionView, events: Seq<EventView>)
    requires
        transaction_wf(t),
        t.failure is Some,
    ensures
        forall|i: int| 0 <= i < run(t, events).1.len() ==> !(#[trigger] run(t, events).1[i] is Transfer),
    decreases events.len(),
{
    if events.len() > 0 {
        let t1 = next_state(t, events[0]);
        lemma_step_keeps_wf(t, events[0]);
        lemma_no_transfer_after_failure(t1, events.drop_first());
        let r = run(t, events).1;
        let rest = run(t1, events.drop_first()).1;
        assert forall|i: int| 0 <= i < r.len() implies !(#[trigger] r[i] is Transfer) by {
            if i > 0 {
                assert(r[i] == rest[i - 1]);
            }
        }
    }
}

/// The transaction that reads the register at `address`.
pub open spec fn read_transaction(address: u8) -> TransactionView {
    fresh(ReplyKind::Register, seq![seq![read_header(address), 0u8]])
}

/// The transaction that writes `value` to the register at `address`.
pub open spec fn write_transaction(address: u8, value: u8) -> TransactionView {
    fresh(ReplyKind::Written, seq![seq![write_header(address), value]])
}

/// The transaction that writes `values` to the registers from `address` on.
pub open spec fn write_auto_inc_transaction(address: u8, values: Seq<u8>) -> TransactionView {
    fresh(ReplyKind::Block, seq![seq![write_auto_inc_header(address)], values])
}

/// The transaction that reads `values.len()` registers from `address` on.
pub open spec fn read_auto_inc_transaction(address: u8, values: Seq<u8>) -> TransactionView {
    fresh(ReplyKind::Block, seq![seq![read_auto_inc_header(address)], values])
}

impl Transaction {
    pub open spec fn wf(&self) -> bool {
        transaction_wf(self@)
    }

    fn start(kind: ReplyKind, frames: Vec<Vec<u8>>) -> (t: Transaction)
        requires
            transaction_wf(fresh(kind, frames@.map_values(|f: Vec<u8>| f@))),
        ensures
            t.wf(),
            t@ == fresh(kind, frames@.map_values(|f: Vec<u8>| f@)),
    {
        let t = Transaction {
            kind,
            frames,
            received: Vec::new(),
            phase: Phase::Selecting,
            failure: None,
        };
        assert(t@.received =~= Seq::<Seq<u8>>::empty());
        t
    }

    /// The outcome once every frame went through or a transfer failed.
    fn outcome(&self) -> (r: Result<Reply, Error>)
        requires
            self.wf(),
            self.phase is Deselecting || self.phase is Finished,
        ensures
            (match r {
                Ok(reply) => outcome(self@) == Ok::<ReplyView, Error>(reply@),
                Err(e) => outcome(self@) == Err::<ReplyView, Error>(e),
            }),
    {
        match self.failure {
            Some(k) => Err(Error::SpiError(k)),
            None => {
                proof {
                    assert(self@.received[0] == self.received@[0]@);
                }
                match self.kind {
                    ReplyKind::Register => Ok(Reply::Register(self.received[0][1])),
                    ReplyKind::Written => Ok(Reply::Written),
                    ReplyKind::Block => {
                        proof {
                            assert(self@.received[1] == self.received@[1]@);
                        }
                        Ok(Reply::Block(self.received[1].clone()))
                    },
                }
            },
        }
    }

    /// The action that this transaction waits on.
    pub fn pending(&self) -> (a: Action)
        requires
            self.wf(),
        ensures
            a@ == pending(self@),
    {
        match self.phase {
            Phase::Selecting => Action::SelectChip,
            Phase::Transferring => {
                let i = self.received.len();
                proof {
                    assert(self@.frames[i as int] == self.frames@[i as int]@);
                }
                Action::Transfer(self.frames[i].clone())
            },
            Phase::Deselecting => Action::DeselectChip,
            Phase::Finished => {
                let r = self.outcome();
                match r {
                    Ok(reply) => Action::Finish(Ok(reply)),
                    Err(e) => Action::Finish(Err(e)),
                }
            },
        }
    }

    /// Reports what the hardware did and returns the next action.
    pub fn step(&mut self, event: Event) -> (a: Action)
        requires
            old(self).wf(),
        ensures
            final(self).wf(),
            (final(self)@, a@) == step_spec(old(self)@, event@),
    {
        let ghost t0 = self@;
        match self.phase {
            Phase::Selecting => {
                if let Event::ChipSet = event {
                    self.phase = Phase::Transferring;
                }
            },
            Phase::Transferring => {
                match event {
                    Event::Transferred(Ok(bytes)) => {
                        let i = self.received.len();
                        proof {
                            assert(t0.frames[i as int] == self.frames@[i as int]@);
                        }
                        if bytes.len() == self.frames[i].len() {
                            let ghost b = bytes@;
                            self.received.push(bytes);
                            proof {
                                assert(self@.received =~= t0.received.push(b));
                            }
                            if self.received.len() >= self.frames.len() {
                                self.phase = Phase::Deselecting;
                            }
                        }
                    },
                    Event::Transferred(Err(k)) => {
                        self.failure = Some(k);
                        self.phase = Phase::Deselecting;
                    },
                    Event::ChipSet => {},
                }
            },
            Phase::Deselecting => {
                if let Event::ChipSet = event {
                    self.phase = Phase::Finished;
                }
            },
            Phase::Finished => {},
        }
        assert(self@ == next_state(t0, event@));
        self.pending()
    }

    /// Whether the outcome is known.
    pub fn is_finished(&self) -> (b: bool)
        ensures
            b == (self@.phase is Finished),
    {
        match self.phase {
            Phase::Finished => true,
            _ => false,
        }
    }
}

/// The accelerometer (LIS2DH12) on the shared SPI bus. Each register access
/// is a `Transaction` that the hardware side carries out step by step.
#[derive(Debug)]
pub struct IMS {}

impl IMS {
    /// The accelerometer's protocol; it holds no state between accesses.
    pub fn new() -> (ims: IMS) {
        IMS {}
    }

    /// Reads the register at `address`: one frame of a read header and a
    /// dummy byte; the reply is the byte clocked in with the dummy byte.
    pub fn read(&self, address: u8) -> (t: Transaction)
        ensures
            t.wf(),
            t@ == read_transaction(address),
    {
        let frame = vec![READ_NOT_WRITE | (address & ADDRESS_MASK), 0u8];
        let frames = vec![frame];
        proof {
            assert(frames@.map_values(|f: Vec<u8>| f@) =~= seq![seq![read_header(address), 0u8]]);
        }
        Transaction::start(ReplyKind::Register, frames)
    }

    /// Writes `value` to the register at `address` in one frame.
    pub fn write(&self, address: u8, value: u8) -> (t: Transaction)
        ensures
            t.wf(),
            t@ == write_transaction(address, value),
    {
        let frame = vec![address & ADDRESS_MASK, value];
        let frames = vec![frame];
        proof {
            assert(frames@.map_values(|f: Vec<u8>| f@) =~= seq![seq![write_header(address), value]]);
        }
        Transaction::start(ReplyKind::Written, frames)
    }

    /// Writes `values` to consecutive registers from `address`: a header
    /// frame, then the values. The reply holds the bytes clocked in while
    /// the values went out.
    pub fn write_auto_inc(&self, address: u8, values: Vec<u8>) -> (t: Transaction)
        ensures
            t.wf(),
            t@ == write_auto_inc_transaction(address, values@),
    {
        let ghost vs = values@;
        let header = vec![ADDRESS_AUTO_INCREMENT | (address & ADDRESS_MASK)];
        let frames = vec![header, values];
        proof {
            assert(frames@[0]@ =~= seq![write_auto_inc_header(address)]);
            assert(frames@[1]@ =~= vs);
            assert(frames@.map_values(|f: Vec<u8>| f@) =~= seq![seq![write_auto_inc_header(address)], vs]);
        }
        Transaction::start(ReplyKind::Block, frames)
    }

    /// Reads consecutive registers from `address` into a block as long as
    /// `values`, whose bytes are clocked out meanwhile.
    pub fn read_auto_inc(&self, address: u8, values: Vec<u8>) -> (t: Transaction)
        ensures
            t.wf(),
            t@ == read_auto_inc_transaction(address, values@),
    {
        let ghost vs = values@;
        let header = vec![READ_NOT_WRITE | ADDRESS_AUTO_INCREMENT | (address & ADDRESS_MASK)];
        let frames = vec![header, values];
        proof {
            assert(frames@[0]@ =~= seq![read_auto_inc_header(address)]);
            assert(frames@[1]@ =~= vs);
            assert(frames@.map_values(|f: Vec<u8>| f@) =~= seq![seq![read_auto_inc_header(address)], vs]);
        }
        Transaction::start(ReplyKind::Block, frames)
    }
}

} // verus!
