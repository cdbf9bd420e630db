use vstd::prelude::*;
use crate::ims::{
    Error, IMS, Reply, ReplyView, Transaction, TransactionView, read_transaction,
    read_auto_inc_transaction, write_auto_inc_transaction,
};
use crate::text::{hex2, hex_min, push_all, push_hex, push_hex2};

verus! {

/// Register that identifies the accelerometer.
pub const WHO_AM_I: u8 = 0x0f;

/// What `WHO_AM_I` holds on a LIS2DH12.
pub const EXPECTED_ID: u8 = 0x33;

/// First of the eight control registers written by the self test.
pub const CTRL_REG0: u8 = 0x1e;

/// Register read after the control registers changed, as the datasheet
/// suggests when switching modes.
pub const REFERENCE: u8 = 0x26;

/// First of the two temperature registers.
pub const OUT_TEMP_L: u8 = 0x0c;

/// First of the nine registers from the status register to the FIFO
/// source register.
pub const STATUS_REG: u8 = 0x27;

/// How many times the self test samples temperature and acceleration.
pub const ROUNDS: u8 = 4;

/// The values written to `CTRL_REG0` .. `CTRL_REG6`: no pull-up on SDO,
/// temperature sensor on, 100 Hz low-power mode with all axes, no high-pass
/// filter, click and FIFO watermark interrupts, block data update, and the
/// defaults for the last two.
pub open spec fn configuration() -> Seq<u8> {
    seq![0x90u8, 0xc0u8, 0x5fu8, 0x00u8, 0x84u8, 0x80u8, 0x00u8, 0x00u8]
}

fn configuration_bytes() -> (v: Vec<u8>)
    ensures
        v@ == configuration(),
{
    let v = vec![0x90u8, 0xc0u8, 0x5fu8, 0x00u8, 0x84u8, 0x80u8, 0x00u8, 0x00u8];
    assert(v@ =~= configuration());
    v
}

/// Start of the line that reports the identity register. The ASCII bytes of `"IMS, WHO_AM_I: "`.
pub open spec fn id_prefix() -> Seq<u8> {
    seq![73u8, 77, 83, 44, 32, 87, 72, 79, 95, 65, 77, 95, 73, 58, 32]
}

/// What the identity line says when the register could not be read. The ASCII bytes of `"error"`.
pub open spec fn error_word() -> Seq<u8> {
    seq![101u8, 114, 114, 111, 114]
}

/// The line that reports an unexpected identity. The ASCII bytes of `"IMS: ERROR: ID is not as expected\r\n"`.
pub open spec fn wrong_id_text() -> Seq<u8> {
    seq![73u8, 77, 83, 58, 32, 69, 82, 82, 79, 82, 58, 32, 73, 68, 32, 105, 115, 32, 110, 111, 116, 32, 97, 115, 32, 101, 120, 112, 101, 99, 116, 101, 100, 13, 10]
}

/// Start of the temperature line. The ASCII bytes of `"TEMP: "`.
pub open spec fn temp_prefix() -> Seq<u8> {
    seq![84u8, 69, 77, 80, 58, 32]
}

/// Start of the status register line. The ASCII bytes of `"STATUS_REG: "`.
pub open spec fn status_prefix() -> Seq<u8> {
    seq![83u8, 84, 65, 84, 85, 83, 95, 82, 69, 71, 58, 32]
}

/// Start of the X acceleration line. The ASCII bytes of `"OUT_X: "`.
pub open spec fn out_x_prefix() -> Seq<u8> {
    seq![79u8, 85, 84, 95, 88, 58, 32]
}

/// Start of the Y acceleration line. The ASCII bytes of `"OUT_Y: "`.
pub open spec fn out_y_prefix() -> Seq<u8> {
    seq![79u8, 85, 84, 95, 89, 58, 32]
}

/// Start of the Z acceleration line. The ASCII bytes of `"OUT_Z: "`.
pub open spec fn out_z_prefix() -> Seq<u8> {
    seq![79u8, 85, 84, 95, 90, 58, 32]
}

/// Start of the FIFO registers line. The ASCII bytes of `"FIFO REGS: "`.
pub open spec fn fifo_prefix() -> Seq<u8> {
    seq![70u8, 73, 70, 79, 32, 82, 69, 71, 83, 58, 32]
}

/// Separator between the two FIFO registers. The ASCII bytes of `", "`.
pub open spec fn separator() -> Seq<u8> {
    seq![44u8, 32]
}

/// End of every console line. The ASCII bytes of `"\r\n"`.
pub open spec fn line_end() -> Seq<u8> {
    seq![13u8, 10]
}

/// `IMS, WHO_AM_I: <id in hex>`.
pub open spec fn id_line(id: u8) -> Seq<u8> {
    id_prefix() + hex_min(id) + line_end()
}

/// `IMS, WHO_AM_I: error`.
pub open spec fn id_error_line() -> Seq<u8> {
    id_prefix() + error_word() + line_end()
}

/// `TEMP: <high byte><low byte>` in two-digit hex.
pub open spec fn temp_line(t: Seq<u8>) -> Seq<u8> {
    temp_prefix() + hex2(t[1]) + hex2(t[0]) + line_end()
}

/// Line `k` (`0..=4`) of the report of the nine registers from `STATUS_REG`:
/// status, X, Y and Z (high byte first), and the two FIFO registers.
pub open spec fn data_line(k: u8, d: Seq<u8>) -> Seq<u8> {
    if k == 0 {
        status_prefix() + hex2(d[0]) + line_end()
    } else if k == 1 {
        out_x_prefix() + hex2(d[2]) + hex2(d[1]) + line_end()
    } else if k == 2 {
        out_y_prefix() + hex2(d[4]) + hex2(d[3]) + line_end()
    } else if k == 3 {
        out_z_prefix() + hex2(d[6]) + hex2(d[5]) + line_end()
    } else {
        fifo_prefix() + hex2(d[7]) + separator() + hex2(d[8]) + line_end()
    }
}

fn id_prefix_bytes() -> (v: Vec<u8>)
    ensures
        v@ == id_prefix(),
{
    let v = vec![73u8, 77, 83, 44, 32, 87, 72, 79, 95, 65, 77, 95, 73, 58, 32];
    assert(v@ =~= id_prefix());
    v
}

fn error_word_bytes() -> (v: Vec<u8>)
    ensures
        v@ == error_word(),
{
    let v = vec![101u8, 114, 114, 111, 114];
    assert(v@ =~= error_word());
    v
}

fn wrong_id_text_bytes() -> (v: Vec<u8>)
    ensures
        v@ == wrong_id_text(),
{
    let v = vec![73u8, 77, 83, 58, 32, 69, 82, 82, 79, 82, 58, 32, 73, 68, 32, 105, 115, 32, 110, 111, 116, 32, 97, 115, 32, 101, 120, 112, 101, 99, 116, 101, 100, 13, 10];
    assert(v@ =~= wrong_id_text());
    v
}

fn temp_prefix_bytes() -> (v: Vec<u8>)
    ensures
        v@ == temp_prefix(),
{
    let v = vec![84u8, 69, 77, 80, 58, 32];
    assert(v@ =~= temp_prefix());
    v
}

fn status_prefix_bytes() -> (v: Vec<u8>)
    ensures
        v@ == status_prefix(),
{
    let v = vec![83u8, 84, 65, 84, 85, 83, 95, 82, 69, 71, 58, 32];
    assert(v@ =~= status_prefix());
    v
}

fn out_x_prefix_bytes() -> (v: Vec<u8>)
    ensures
        v@ == out_x_prefix(),
{
    let v = vec![79u8, 85, 84, 95, 88, 58, 32];
    assert(v@ =~= out_x_prefix());
    v
}

fn out_y_prefix_bytes() -> (v: Vec<u8>)
    ensures
        v@ == out_y_prefix(),
{
    let v = vec![79u8, 85, 84, 95, 89, 58, 32];
    assert(v@ =~= out_y_prefix());
    v
}

fn out_z_prefix_bytes() -> (v: Vec<u8>)
    ensures
        v@ == out_z_prefix(),
{
    let v = vec![79u8, 85, 84, 95, 90, 58, 32];
    assert(v@ =~= out_z_prefix());
    v
}

fn fifo_prefix_bytes() -> (v: Vec<u8>)
    ensures
        v@ == fifo_prefix(),
{
    let v = vec![70u8, 73, 70, 79, 32, 82, 69, 71, 83, 58, 32];
    assert(v@ =~= fifo_prefix());
    v
}

fn separator_bytes() -> (v: Vec<u8>)
    ensures
        v@ == separator(),
{
    let v = vec![44u8, 32];
    assert(v@ =~= separator());
    v
}

fn line_end_bytes() -> (v: Vec<u8>)
    ensures
        v@ == line_end(),
{
    let v = vec![13u8, 10];
    assert(v@ =~= line_end());
    v
}

fn id_line_bytes(id: u8) -> (v: Vec<u8>)
    ensures
        v@ == id_line(id),
{
    let mut v = id_prefix_bytes();
    push_hex(&mut v, id);
    let e = line_end_bytes();
    push_all(&mut v, e.as_slice());
    v
}

fn id_error_line_bytes() -> (v: Vec<u8>)
    ensures
        v@ == id_error_line(),
{
    let mut v = id_prefix_bytes();
    let w = error_word_bytes();
    push_all(&mut v, w.as_slice());
    let e = line_end_bytes();
    push_all(&mut v, e.as_slice());
    v
}

fn temp_line_bytes(t: &Vec<u8>) -> (v: Vec<u8>)
    requires
        t@.len() == 2,
    ensures
        v@ == temp_line(t@),
{
    let mut v = temp_prefix_bytes();
    push_hex2(&mut v, t[1]);
    push_hex2(&mut v, t[0]);
    let e = line_end_bytes();
    push_all(&mut v, e.as_slice());
    v
}

fn data_line_bytes(k: u8, d: &Vec<u8>) -> (v: Vec<u8>)
    requires
        d@.len() == 9,
    ensures
        v@ == data_line(k, d@),
{
    let mut v;
    if k == 0 {
        v = status_prefix_bytes();
        push_hex2(&mut v, d[0]);
    } else if k == 1 {
        v = out_x_prefix_bytes();
        push_hex2(&mut v, d[2]);
        push_hex2(&mut v, d[1]);
    } else if k == 2 {
        v = out_y_prefix_bytes();
        push_hex2(&mut v, d[4]);
        push_hex2(&mut v, d[3]);
    } else if k == 3 {
        v = out_z_prefix_bytes();
        push_hex2(&mut v, d[6]);
        push_hex2(&mut v, d[5]);
    } else {
        v = fifo_prefix_bytes();
        push_hex2(&mut v, d[7]);
        let s = separator_bytes();
        push_all(&mut v, s.as_slice());
        push_hex2(&mut v, d[8]);
    }
    let e = line_end_bytes();
    push_all(&mut v, e.as_slice());
    v
}

/// Where the self test stands.
#[derive(Clone, Copy, Debug)]
pub enum Stage {
    /// Waiting for `WHO_AM_I`.
    Identify,
    /// Waiting for the identity line to be printed.
    ReportId { id: u8 },
    /// Waiting for the unexpected-identity line to be printed.
    ReportWrongId,
    /// Waiting for the line that says the identity could not be read.
    ReportIdError,
    /// Waiting for the control registers to be written.
    Configure,
    /// Waiting for `REFERENCE` to be read.
    ReadReference,
    /// Waiting for the temperature registers of a round.
    ReadTemperature { round: u8 },
    /// Waiting for the temperature line of a round to be printed.
    ReportTemperature { round: u8 },
    /// Waiting for the status, acceleration and FIFO registers of a round.
    ReadData { round: u8 },
    /// Waiting for one of the five lines of a round's register report.
    ReportData { round: u8, line: u8 },
    /// Over, with this result.
    Done { result: Result<(), Error> },
}

/// What the hardware side has to do next for the self test.
#[derive(Debug)]
pub enum TestAction {
    /// Carry out this transaction with the accelerometer.
    Access(Transaction),
    /// Print this line on the host console.
    Print(Vec<u8>),
    /// The self test is over, with this result.
    Finish(Result<(), Error>),
}

pub enum TestActionView {
    Access(TransactionView),
    Print(Seq<u8>),
    Finish(Result<(), Error>),
}

impl View for TestAction {
    type V = TestActionView;

    open spec fn view(&self) -> TestActionView {
        match self {
            TestAction::Access(t) => TestActionView::Access(t@),
            TestAction::Print(v) => TestActionView::Print(v@),
            TestAction::Finish(r) => TestActionView::Finish(*r),
        }
    }
}

/// What the hardware side reports back.
#[derive(Debug)]
pub enum TestEvent {
    /// The outcome of the transaction that was asked for.
    Accessed(Result<Reply, Error>),
    /// Whether the line could be printed.
    Printed(Result<(), core::fmt::Error>),
}

pub enum TestEventView {
    Accessed(Result<ReplyView, Error>),
    Printed(Result<(), core::fmt::Error>),
}

impl View for TestEvent {
    type V = TestEventView;

    open spec fn view(&self) -> TestEventView {
        match self {
            TestEvent::Accessed(Ok(r)) => TestEventView::Accessed(Ok(r@)),
            TestEvent::Accessed(Err(e)) => TestEventView::Accessed(Err(*e)),
            TestEvent::Printed(r) => TestEventView::Printed(*r),
        }
    }
}

/// The accelerometer self test: check the identity, configure the sensor,
/// then print temperature and acceleration registers for `ROUNDS` rounds.
pub struct ImsSelfTest {
    ims: IMS,
    stage: Stage,
    data: Vec<u8>,
}

pub struct SelfTestView {
    pub stage: Stage,
    pub data: Seq<u8>,
}

impl View for ImsSelfTest {
    type V = SelfTestView;

    closed spec fn view(&self) -> SelfTestView {
        SelfTestView { stage: self.stage, data: self.data@ }
    }
}

/// The shape the self test keeps.
pub open spec fn self_test_wf(s: SelfTestView) -> bool {
    match s.stage {
        Stage::ReadTemperature { round } => round < ROUNDS,
        Stage::ReportTemperature { round } => round < ROUNDS && s.data.len() == 2,
        Stage::ReadData { round } => round < ROUNDS,
        Stage::ReportData { round, line } => round < ROUNDS && line <= 4 && s.data.len() == 9,
        _ => true,
    }
}

/// The action the self test waits on in its current stage.
pub open spec fn test_pending(s: SelfTestView) -> TestActionView {
    match s.stage {
        Stage::Identify => TestActionView::Access(read_transaction(WHO_AM_I)),
        Stage::ReportId { id } => TestActionView::Print(id_line(id)),
        Stage::ReportWrongId => TestActionView::Print(wrong_id_text()),
        Stage::ReportIdError => TestActionView::Print(id_error_line()),
        Stage::Configure => TestActionView::Access(
            write_auto_inc_transaction(CTRL_REG0, configuration()),
        ),
        Stage::ReadReference => TestActionView::Access(read_transaction(REFERENCE)),
        Stage::ReadTemperature { .. } => TestActionView::Access(
            read_auto_inc_transaction(OUT_TEMP_L, seq![0u8, 0u8]),
        ),
        Stage::ReportTemperature { .. } => TestActionView::Print(temp_line(s.data)),
        Stage::ReadData { .. } => TestActionView::Access(
            read_auto_inc_transaction(STATUS_REG, Seq::new(9, |i: int| 0u8)),
        ),
        Stage::ReportData { line, .. } => TestActionView::Print(data_line(line, s.data)),
        Stage::Done { result } => TestActionView::Finish(result),
    }
}

/// After a line was printed: on to `next`, or over with the print error.
pub open spec fn after_print(s: SelfTestView, e: TestEventView, next: Stage) -> SelfTestView {
    match e {
        TestEventView::Printed(Ok(())) => SelfTestView { stage: next, ..s },
        TestEventView::Printed(Err(f)) => SelfTestView {
            stage: Stage::Done { result: Err(Error::FormatError(f)) },
            ..s
        },
        _ => s,
    }
}

/// After a register access that only has to succeed: on to `next`, or over
/// with the access error.
pub open spec fn after_access(s: SelfTestView, e: TestEventView, next: Stage) -> SelfTestView {
    match e {
        TestEventView::Accessed(Ok(_)) => SelfTestView { stage: next, ..s },
        TestEventView::Accessed(Err(err)) => SelfTestView {
            stage: Stage::Done { result: Err(err) },
            ..s
        },
        _ => s,
    }
}

/// The state after `e` is reported. An event that does not answer the
/// pending action (or a reply of the wrong shape) leaves the state as it was.
pub open spec fn test_next(s: SelfTestView, e: TestEventView) -> SelfTestView {
    match s.stage {
        Stage::Identify => match e {
            TestEventView::Accessed(Ok(ReplyView::Register(id))) => SelfTestView {
                stage: Stage::ReportId { id },
                ..s
            },
            TestEventView::Accessed(Err(_)) => SelfTestView { stage: Stage::ReportIdError, ..s },
            _ => s,
        },
        Stage::ReportId { id } => after_print(
            s,
            e,
            if id == EXPECTED_ID {
                Stage::Configure
            } else {
                Stage::ReportWrongId
            },
        ),
        Stage::ReportWrongId => after_print(s, e, Stage::Done { result: Err(Error::WrongId) }),
        Stage::ReportIdError => after_print(s, e, Stage::Done { result: Err(Error::WrongId) }),
        Stage::Configure => after_access(s, e, Stage::ReadReference),
        Stage::ReadReference => after_access(s, e, Stage::ReadTemperature { round: 0 }),
        Stage::ReadTemperature { round } => match e {
            TestEventView::Accessed(Ok(ReplyView::Block(t))) => if t.len() == 2 {
                SelfTestView { stage: Stage::ReportTemperature { round }, data: t }
            } else {
                s
            },
            TestEventView::Accessed(Err(err)) => SelfTestView {
                stage: Stage::Done { result: Err(err) },
                ..s
            },
            _ => s,
        },
        Stage::ReportTemperature { round } => after_print(s, e, Stage::ReadData { round }),
        Stage::ReadData { round } => match e {
            TestEventView::Accessed(Ok(ReplyView::Block(d))) => if d.len() == 9 {
                SelfTestView { stage: Stage::ReportData { round, line: 0 }, data: d }
            } else {
                s
            },
            TestEventView::Accessed(Err(err)) => SelfTestView {
                stage: Stage::Done { result: Err(err) },
                ..s
            },
            _ => s,
        },
        Stage::ReportData { round, line } => after_print(
            s,
            e,
            if line < 4 {
                Stage::ReportData { round, line: (line + 1) as u8 }
            } else if round + 1 < ROUNDS {
                Stage::ReadTemperature { round: (round + 1) as u8 }
            } else {
                Stage::Done { result: Ok(()) }
            },
        ),
        Stage::Done { .. } => s,
    }
}

/// One step: the new state, and the action it waits on.
pub open spec fn test_step(s: SelfTestView, e: TestEventView) -> (SelfTestView, TestActionView) {
    let s2 = test_next(s, e);
    (s2, test_pending(s2))
}

/// The actions answered to `events`, one per event, starting from `s`.
pub open spec fn test_run(s: SelfTestView, events: Seq<TestEventView>) -> (SelfTestView, Seq<TestActionView>)
    decreases events.len(),
{
    if events.len() == 0 {
        (s, Seq::empty())
    } else {
        let (s1, a) = test_step(s, events[0]);
        let (s2, rest) = test_run(s1, events.drop_first());
        (s2, seq![a] + rest)
    }
}

/// Whether the self test is on its way to success: the identity check has
/// passed (or its line is being printed) and nothing has failed.
pub open spec fn identified(stage: Stage) -> bool {
    match stage {
        Stage::Identify => false,
        Stage::ReportWrongId => false,
        Stage::ReportIdError => false,
        Stage::ReportId { id } => id == EXPECTED_ID,
        Stage::Done { result } => result is Ok,
        _ => true,
    }
}

/// The reply of an accelerometer that identifies itself as a LIS2DH12.
pub open spec fn expected_identity() -> TestEventView {
    TestEventView::Accessed(Ok(ReplyView::Register(EXPECTED_ID)))
}

/// The self test reports success only if the accelerometer answered the
/// identity read with `EXPECTED_ID`: from any stage before a passed
/// identity check, no sequence of events without that answer leads to a
/// successful finish.
pub proof fn lemma_success_needs_identity(s: SelfTestView, events: Seq<TestEventView>)
    requires
        !identified(s.stage),
        forall|i: int| 0 <= i < events.len() ==> #[trigger] events[i] != expected_identity(),
    ensures
        forall|i: int| 0 <= i < test_run(s, events).1.len()
            ==> #[trigger] test_run(s, events).1[i] != TestActionView::Finish(Ok(())),
    decreases events.len(),
{
    if events.len() > 0 {
        let s1 = test_next(s, events[0]);
        assert(events[0] != expected_identity());
        assert(!identified(s1.stage));
        let rest = events.drop_first();
        assert forall|i: int| 0 <= i < rest.len() implies #[trigger] rest[i] != expected_identity() by {
            assert(rest[i] == events[i + 1]);
        }
        lemma_success_needs_identity(s1, rest);
        let r = test_run(s, events).1;
        let tail = test_run(s1, rest).1;
        assert forall|i: int| 0 <= i < r.len() implies #[trigger] r[i] != TestActionView::Finish(Ok(())) by {
            if i > 0 {
                assert(r[i] == tail[i - 1]);
            }
        }
    }
}

/// Once the accelerometer has identified itself as a LIS2DH12 and the line
/// is printed, the self test writes, with one auto-incrementing access from
/// register `0x1e` (CTRL_REG0) on, the eight bytes `0x90 0xc0 0x5f 0x00 0x84
/// 0x80 0x00 0x00`: the SDO pull-up disconnected (CTRL_REG0 bit 7, with bit
/// 4 kept set), the temperature sensor on (TEMP_CFG_REG bits 7:6), 100 Hz
/// low-power mode with X, Y and Z on (CTRL_REG1: ODR `0101`, LPen, the three
/// axis bits), no high-pass filter (CTRL_REG2), click and FIFO watermark on
/// INT1 (CTRL_REG3 bits 7 and 2), block data update (CTRL_REG4 bit 7), and
/// CTRL_REG5 and CTRL_REG6 cleared.
pub proof fn lemma_configuration_written(data: Seq<u8>)
    ensures
        ({
            let s = SelfTestView { stage: Stage::ReportId { id: 0x33 }, data };
            let (s2, a) = test_step(s, TestEventView::Printed(Ok(())));
            &&& s2.stage is Configure
            &&& a == TestActionView::Access(
                write_auto_inc_transaction(
                    0x1eu8,
                    seq![0x90u8, 0xc0u8, 0x5fu8, 0x00u8, 0x84u8, 0x80u8, 0x00u8, 0x00u8],
                ),
            )
        }),
        configuration().len() == 8,
        configuration()[0] & 0x80 == 0x80,
        configuration()[0] & 0x10 == 0x10,
        configuration()[1] & 0xc0 == 0xc0,
        configuration()[2] >> 4u8 == 5,
        configuration()[2] & 0x08 == 0x08,
        configuration()[2] & 0x07 == 0x07,
        configuration()[3] == 0,
        configuration()[4] & 0x80 == 0x80,
        configuration()[4] & 0x04 == 0x04,
        configuration()[5] & 0x80 == 0x80,
        configuration()[6] == 0,
        configuration()[7] == 0,
{
    assert(configuration() =~= seq![0x90u8, 0xc0u8, 0x5fu8, 0x00u8, 0x84u8, 0x80u8, 0x00u8, 0x00u8]);
    assert(0x90u8 & 0x80 == 0x80 && 0x90u8 & 0x10 == 0x10 && 0xc0u8 & 0xc0 == 0xc0) by (bit_vector);
    assert(0x5fu8 >> 4u8 == 5 && 0x5fu8 & 0x08 == 0x08 && 0x5fu8 & 0x07 == 0x07) by (bit_vector);
    assert(0x84u8 & 0x80 == 0x80 && 0x84u8 & 0x04 == 0x04 && 0x80u8 & 0x80 == 0x80) by (bit_vector);
}

/// Starts the accelerometer self test; its first action reads `WHO_AM_I`.
pub fn test_ims(ims: IMS) -> (t: ImsSelfTest)
    ensures
        t.wf(),
        t@.stage is Identify,
        t@.data.len() == 0,
{
    ImsSelfTest { ims, stage: Stage::Identify, data: Vec::new() }
}

impl ImsSelfTest {
    pub open spec fn wf(&self) -> bool {
        self_test_wf(self@)
    }

    /// The action the self test waits on.
    pub fn pending(&self) -> (a: TestAction)
        requires
            self.wf(),
        ensures
            a@ == test_pending(self@),
    {
        match self.stage {
            Stage::Identify => TestAction::Access(self.ims.read(WHO_AM_I)),
            Stage::ReportId { id } => TestAction::Print(id_line_bytes(id)),
            Stage::ReportWrongId => TestAction::Print(wrong_id_text_bytes()),
            Stage::ReportIdError => TestAction::Print(id_error_line_bytes()),
            Stage::Configure => TestAction::Access(
                self.ims.write_auto_inc(CTRL_REG0, configuration_bytes()),
            ),
            Stage::ReadReference => TestAction::Access(self.ims.read(REFERENCE)),
            Stage::ReadTemperature { .. } => {
                let v = vec![0u8, 0u8];
                assert(v@ =~= seq![0u8, 0u8]);
                TestAction::Access(self.ims.read_auto_inc(OUT_TEMP_L, v))
            },
            Stage::ReportTemperature { .. } => TestAction::Print(temp_line_bytes(&self.data)),
            Stage::ReadData { .. } => {
                let v = vec![0u8; 9];
                assert(v@ =~= Seq::new(9, |i: int| 0u8));
                TestAction::Access(self.ims.read_auto_inc(STATUS_REG, v))
            },
            Stage::ReportData { line, .. } => TestAction::Print(data_line_bytes(line, &self.data)),
            Stage::Done { result } => TestAction::Finish(result),
        }
    }

    /// Reports what the hardware side did and returns the next action.
    pub fn step(&mut self, event: TestEvent) -> (a: TestAction)
        requires
            old(self).wf(),
        ensures
            final(self).wf(),
            (final(self)@, a@) == test_step(old(self)@, event@),
    {
        let ghost s0 = self@;
        match self.stage {
            Stage::Identify => match event {
                TestEvent::Accessed(Ok(Reply::Register(id))) => {
                    self.stage = Stage::ReportId { id };
                },
                TestEvent::Accessed(Err(_)) => {
                    self.stage = Stage::ReportIdError;
                },
                _ => {},
            },
            Stage::ReportId { id } => {
                let next = if id == EXPECTED_ID {
                    Stage::Configure
                } else {
                    Stage::ReportWrongId
                };
                self.after_print(event, next);
            },
            Stage::ReportWrongId => {
                self.after_print(event, Stage::Done { result: Err(Error::WrongId) });
            },
            Stage::ReportIdError => {
                self.after_print(event, Stage::Done { result: Err(Error::WrongId) });
            },
            Stage::Configure => {
                self.after_access(event, Stage::ReadReference);
            },
            Stage::ReadReference => {
                self.after_access(event, Stage::ReadTemperature { round: 0 });
            },
            Stage::ReadTemperature { round } => match event {
                TestEvent::Accessed(Ok(Reply::Block(t))) => {
                    if t.len() == 2 {
                        self.stage = Stage::ReportTemperature { round };
                        self.data = t;
                    }
                },
                TestEvent::Accessed(Err(err)) => {
                    self.stage = Stage::Done { result: Err(err) };
                },
                _ => {},
            },
            Stage::ReportTemperature { round } => {
                self.after_print(event, Stage::ReadData { round });
            },
            Stage::ReadData { round } => match event {
                TestEvent::Accessed(Ok(Reply::Block(d))) => {
                    if d.len() == 9 {
                        self.stage = Stage::ReportData { round, line: 0 };
                        self.data = d;
                    }
                },
                TestEvent::Accessed(Err(err)) => {
                    self.stage = Stage::Done { result: Err(err) };
                },
                _ => {},
            },
            Stage::ReportData { round, line } => {
                let next = if line < 4 {
                    Stage::ReportData { round, line: line + 1 }
                } else if round + 1 < ROUNDS {
                    Stage::ReadTemperature { round: round + 1 }
                } else {
                    Stage::Done { result: Ok(()) }
                };
                self.after_print(event, next);
            },
            Stage::Done { .. } => {},
        }
        assert(self@ == test_next(s0, event@));
        self.pending()
    }

    fn after_print(&mut self, event: TestEvent, next: Stage)
        requires
            self_test_wf(SelfTestView { stage: next, ..old(self)@ }),
        ensures
            final(self)@ == after_print(old(self)@, event@, next),
            final(self).ims == old(self).ims,
    {
        match event {
            TestEvent::Printed(Ok(())) => {
                self.stage = next;
            },
            TestEvent::Printed(Err(f)) => {
                self.stage = Stage::Done { result: Err(Error::FormatError(f)) };
            },
            _ => {},
        }
    }

    fn after_access(&mut self, event: TestEvent, next: Stage)
        requires
            self_test_wf(SelfTestView { stage: next, ..old(self)@ }),
        ensures
            final(self)@ == after_access(old(self)@, event@, next),
            final(self).ims == old(self).ims,
    {
        match event {
            TestEvent::Accessed(Ok(_)) => {
                self.stage = next;
            },
            TestEvent::Accessed(Err(err)) => {
                self.stage = Stage::Done { result: Err(err) };
            },
            _ => {},
        }
    }
}

} // verus!
