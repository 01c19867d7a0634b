//! The wire protocol: bus operations, the fixed initialization table, and
//! the plan builders for each protocol phase.
//!
//! A plan is a `Vec<BusOp>` that an unverified runner replays in order on
//! the panel's lines and serial bus. Each builder's contract pins the plan
//! down to an exact sequence, so the command ordering that the panel
//! requires is verified rather than replayed from convention.

use vstd::prelude::*;

use crate::DriverError;

verus! {

/// Panel setting register.
pub const CMD_PANEL_SETTING: u8 = 0x00;
/// Driver output control (power configuration block).
pub const CMD_DRIVER_OUTPUT: u8 = 0x01;
/// Power off, issued before entering deep sleep.
pub const CMD_POWER_OFF: u8 = 0x02;
/// Power on; the panel raises busy until its rails settle.
pub const CMD_POWER_ON: u8 = 0x04;
/// Booster soft-start configuration.
pub const CMD_BOOSTER_SOFT_START: u8 = 0x06;
/// Deep sleep; takes a fixed one-byte check value.
pub const CMD_DEEP_SLEEP: u8 = 0x07;
/// Start of black-plane RAM write.
pub const CMD_BLACK_RAM: u8 = 0x10;
/// Activate display refresh from RAM.
pub const CMD_REFRESH: u8 = 0x12;
/// Start of red-plane RAM write.
pub const CMD_RED_RAM: u8 = 0x13;
/// Dual SPI mode setting.
pub const CMD_DUAL_SPI: u8 = 0x15;
/// VCOM and data-interval setting.
pub const CMD_VCOM_INTERVAL: u8 = 0x50;
/// Gate/source driving strength (TCON) setting.
pub const CMD_TCON: u8 = 0x60;
/// Panel resolution setting.
pub const CMD_RESOLUTION: u8 = 0x61;
/// Status query; re-issued before every busy-line poll.
pub const CMD_STATUS_QUERY: u8 = 0x71;
/// Fixed check value that must accompany `CMD_DEEP_SLEEP`.
pub const DEEP_SLEEP_CHECK: u8 = 0xA5;

/// Blank (white) byte of the black plane.
pub const BLANK_BLACK_BYTE: u8 = 0xFF;
/// Blank (no ink) byte of the red plane; the red plane uses the inverted
/// polarity of the black plane.
pub const BLANK_RED_BYTE: u8 = 0x00;

/// One elementary operation on the panel's lines or serial bus.
///
/// `Command` is one byte written with the data/command select line low;
/// `Data` is one byte written with it high. `WaitReady` stands for the
/// bounded busy-line poll of [`crate::wait`]; it is a single operation here
/// because how many status queries it issues depends on the line, not on
/// the plan.
#[derive(Clone, Copy, Debug, PartialEq, Eq, Structural)]
pub enum BusOp {
    /// Drive the power-enable line high (`true`) or low (`false`).
    PowerLine(bool),
    /// Drive the reset line high (`true`) or low (`false`).
    ResetLine(bool),
    /// Drive the data/command select line high (`true`) or low (`false`).
    SelectLine(bool),
    /// Write one opcode byte with the select line low.
    Command(u8),
    /// Write one parameter or pixel byte with the select line high.
    Data(u8),
    /// Hold for the given number of milliseconds.
    SleepMs(u64),
    /// Run the bounded busy-line poll until the panel reports ready.
    WaitReady,
}

/// One entry of the fixed initialization table: an opcode, its parameter
/// bytes, and whether the panel must be busy-waited after the entry.
pub struct InitEntry {
    pub opcode: u8,
    pub params: Vec<u8>,
    pub wait_after: bool,
}

/// Mathematical form of an [`InitEntry`].
#[verifier::ext_equal]
pub struct InitEntryModel {
    pub opcode: u8,
    pub params: Seq<u8>,
    pub wait_after: bool,
}

impl View for InitEntry {
    type V = InitEntryModel;

    open spec fn view(&self) -> InitEntryModel {
        InitEntryModel { opcode: self.opcode, params: self.params@, wait_after: self.wait_after }
    }
}

/// The bus operations that transfer the bytes of one bitplane: each byte
/// goes out as data, with the select line high.
pub open spec fn plane_data_trace(plane: Seq<u8>) -> Seq<BusOp> {
    plane.map_values(|b: u8| BusOp::Data(b))
}

/// The bus operations of one initialization entry: the opcode as a command,
/// its parameters as data, and, where the entry asks for it, a settle delay
/// followed by the busy-wait.
pub open spec fn entry_trace(e: InitEntryModel) -> Seq<BusOp> {
    seq![BusOp::Command(e.opcode)] + plane_data_trace(e.params) + if e.wait_after {
        seq![BusOp::SleepMs(100), BusOp::WaitReady]
    } else {
        Seq::<BusOp>::empty()
    }
}

/// The bus operations of a whole initialization table, entry by entry.
pub open spec fn table_trace(t: Seq<InitEntryModel>) -> Seq<BusOp>
    decreases t.len(),
{
    if t.len() == 0 {
        Seq::<BusOp>::empty()
    } else {
        entry_trace(t[0]) + table_trace(t.drop_first())
    }
}

/// The fixed configuration table of this panel model. The byte values are
/// panel firmware configuration and are not derivable; they must match the
/// panel's data sheet exactly.
pub open spec fn init_table_model() -> Seq<InitEntryModel> {
    seq![
        InitEntryModel {
            opcode: CMD_DRIVER_OUTPUT,
            params: seq![0x07u8, 0x07u8, 0x3Fu8, 0x3Fu8],
            wait_after: false,
        },
        InitEntryModel {
            opcode: CMD_BOOSTER_SOFT_START,
            params: seq![0x17u8, 0x17u8, 0x28u8, 0x17u8],
            wait_after: false,
        },
        InitEntryModel { opcode: CMD_POWER_ON, params: Seq::<u8>::empty(), wait_after: true },
        InitEntryModel { opcode: CMD_PANEL_SETTING, params: seq![0x0Fu8], wait_after: false },
        InitEntryModel {
            opcode: CMD_RESOLUTION,
            params: seq![0x03u8, 0x20u8, 0x01u8, 0xE0u8],
            wait_after: false,
        },
        InitEntryModel { opcode: CMD_DUAL_SPI, params: seq![0x00u8], wait_after: false },
        InitEntryModel { opcode: CMD_VCOM_INTERVAL, params: seq![0x11u8, 0x07u8], wait_after: false },
        InitEntryModel { opcode: CMD_TCON, params: seq![0x22u8], wait_after: false },
    ]
}

/// The power-on and reset pulse: power high, then reset high for 200 ms,
/// low for 4 ms, high again for 200 ms. The durations are electrical
/// requirements of the panel.
pub open spec fn power_on_reset_trace() -> Seq<BusOp> {
    seq![
        BusOp::PowerLine(true),
        BusOp::ResetLine(true),
        BusOp::SleepMs(200),
        BusOp::ResetLine(false),
        BusOp::SleepMs(4),
        BusOp::ResetLine(true),
        BusOp::SleepMs(200),
    ]
}

/// The whole initialization phase: the fixed table, flattened.
pub open spec fn init_trace() -> Seq<BusOp> {
    table_trace(init_table_model())
}

/// The render phase for the given planes: the black plane streamed after
/// its RAM command, the red plane after its RAM command, then the refresh
/// command, a settle delay, and the busy-wait.
pub open spec fn render_trace(black: Seq<u8>, red: Seq<u8>) -> Seq<BusOp> {
    seq![BusOp::Command(CMD_BLACK_RAM)] + plane_data_trace(black)
        + seq![BusOp::Command(CMD_RED_RAM)] + plane_data_trace(red)
        + seq![BusOp::Command(CMD_REFRESH), BusOp::SleepMs(100), BusOp::WaitReady]
}

/// The shape of every render trace: exactly one black-RAM command first,
/// followed by exactly the black plane's bytes as data, then exactly one
/// red-RAM command followed by the red plane's bytes as data, then exactly
/// one refresh command, in that order; no other operation of the trace is
/// one of those three commands.
pub proof fn lemma_render_trace_shape(black: Seq<u8>, red: Seq<u8>)
    ensures
        ({
            let t = render_trace(black, red);
            let b = black.len() as int;
            let r = red.len() as int;
            &&& t.len() == b + r + 5
            &&& t[0] == BusOp::Command(CMD_BLACK_RAM)
            &&& forall|j: int| 1 <= j <= b ==> t[j] == BusOp::Data(black[j - 1])
            &&& t[b + 1] == BusOp::Command(CMD_RED_RAM)
            &&& forall|j: int| b + 2 <= j <= b + 1 + r ==> t[j] == BusOp::Data(red[j - b - 2])
            &&& t[b + r + 2] == BusOp::Command(CMD_REFRESH)
            &&& t[b + r + 3] == BusOp::SleepMs(100)
            &&& t[b + r + 4] == BusOp::WaitReady
            &&& forall|j: int|
                0 <= j < t.len() && t[j] == BusOp::Command(CMD_BLACK_RAM) ==> j == 0
            &&& forall|j: int| 0 <= j < t.len() && t[j] == BusOp::Command(CMD_RED_RAM) ==> j == b + 1
            &&& forall|j: int|
                0 <= j < t.len() && t[j] == BusOp::Command(CMD_REFRESH) ==> j == b + r + 2
        }),
{
    let t = render_trace(black, red);
    let b = black.len() as int;
    let r = red.len() as int;
    assert forall|j: int| 1 <= j <= b implies t[j] == BusOp::Data(black[j - 1]) by {
        assert(plane_data_trace(black)[j - 1] == BusOp::Data(black[j - 1]));
    }
    assert forall|j: int| b + 2 <= j <= b + 1 + r implies t[j] == BusOp::Data(red[j - b - 2]) by {
        assert(plane_data_trace(red)[j - b - 2] == BusOp::Data(red[j - b - 2]));
    }
}

/// A blank black plane of the given length.
pub open spec fn blank_black_model(n: nat) -> Seq<u8> {
    Seq::new(n, |i: int| BLANK_BLACK_BYTE)
}

/// A blank red plane of the given length.
pub open spec fn blank_red_model(n: nat) -> Seq<u8> {
    Seq::new(n, |i: int| BLANK_RED_BYTE)
}

/// The shutdown phase: power off, busy-wait, the deep-sleep command with
/// its check value, the settle delay, then every line dropped low.
pub open spec fn sleep_trace() -> Seq<BusOp> {
    seq![
        BusOp::Command(CMD_POWER_OFF),
        BusOp::WaitReady,
        BusOp::Command(CMD_DEEP_SLEEP),
        BusOp::Data(DEEP_SLEEP_CHECK),
        BusOp::SleepMs(2000),
        BusOp::ResetLine(false),
        BusOp::SelectLine(false),
        BusOp::PowerLine(false),
    ]
}

/// The mathematical form of an executable initialization table.
pub open spec fn table_view(t: Seq<InitEntry>) -> Seq<InitEntryModel> {
    t.map_values(|e: InitEntry| e@)
}

/// Splitting a table splits its trace at the matching point.
proof fn lemma_table_trace_split(t: Seq<InitEntryModel>, i: int)
    requires
        0 <= i <= t.len(),
    ensures
        table_trace(t) == table_trace(t.take(i)) + table_trace(t.skip(i)),
    decreases i,
{
    if i == 0 {
        assert(t.take(0) =~= Seq::<InitEntryModel>::empty());
        assert(t.skip(0) =~= t);
        assert(table_trace(t) =~= table_trace(t.take(0)) + table_trace(t.skip(0)));
    } else {
        lemma_table_trace_split(t.drop_first(), i - 1);
        assert(t.take(i)[0] == t[0]);
        assert(t.take(i).drop_first() =~= t.drop_first().take(i - 1));
        assert(t.skip(i) =~= t.drop_first().skip(i - 1));
        assert(table_trace(t) =~= table_trace(t.take(i)) + table_trace(t.skip(i)));
    }
}

/// Appends the data operations that stream one plane's bytes.
fn push_plane_data(out: &mut Vec<BusOp>, plane: &Vec<u8>)
    ensures
        final(out)@ == old(out)@ + plane_data_trace(plane@),
{
    let ghost base = out@;
    let mut j: usize = 0;
    while j < plane.len()
        invariant
            j <= plane@.len(),
            out@ == base + plane_data_trace(plane@.take(j as int)),
        decreases plane@.len() - j,
    {
        out.push(BusOp::Data(plane[j]));
        proof {
            assert(plane_data_trace(plane@.take(j + 1 as int)) =~= plane_data_trace(
                plane@.take(j as int),
            ).push(BusOp::Data(plane@[j as int])));
            assert(out@ =~= base + plane_data_trace(plane@.take(j + 1 as int)));
        }
        j = j + 1;
    }
    proof {
        assert(plane@.take(plane@.len() as int) =~= plane@);
    }
}

/// Appends the bus operations of one initialization entry.
fn push_entry_ops(out: &mut Vec<BusOp>, e: &InitEntry)
    ensures
        final(out)@ == old(out)@ + entry_trace(e@),
{
    let ghost base = out@;
    out.push(BusOp::Command(e.opcode));
    push_plane_data(out, &e.params);
    if e.wait_after {
        out.push(BusOp::SleepMs(100));
        out.push(BusOp::WaitReady);
    }
    proof {
        assert(out@ =~= base + entry_trace(e@));
    }
}

/// Flattens an initialization table into its plan, entry by entry.
pub fn table_plan(table: &Vec<InitEntry>) -> (ops: Vec<BusOp>)
    ensures
        ops@ == table_trace(table_view(table@)),
{
    let ghost v = table_view(table@);
    let mut ops: Vec<BusOp> = Vec::new();
    let mut i: usize = 0;
    while i < table.len()
        invariant
            i <= table@.len(),
            v == table_view(table@),
            v.len() == table@.len(),
            ops@ == table_trace(v.take(i as int)),
        decreases table@.len() - i,
    {
        let ghost before = ops@;
        push_entry_ops(&mut ops, &table[i]);
        proof {
            lemma_table_trace_split(v.take(i + 1 as int), i as int);
            assert(v.take(i + 1 as int).take(i as int) =~= v.take(i as int));
            assert(v.take(i + 1 as int).skip(i as int) =~= seq![v[i as int]]);
            let s = seq![v[i as int]];
            assert(s.drop_first() =~= Seq::<InitEntryModel>::empty());
            assert(table_trace(s) == entry_trace(s[0]) + table_trace(s.drop_first()));
            assert(table_trace(Seq::<InitEntryModel>::empty()) =~= Seq::<BusOp>::empty());
            assert(table_trace(s) =~= entry_trace(v[i as int]));
            assert(v[i as int] == table@[i as int]@);
            assert(ops@ =~= table_trace(v.take(i + 1 as int)));
        }
        i = i + 1;
    }
    proof {
        assert(v.take(v.len() as int) =~= v);
    }
    ops
}

/// Builds the fixed configuration table for this panel model.
pub fn init_table() -> (t: Vec<InitEntry>)
    ensures
        table_view(t@) == init_table_model(),
{
    let mut t: Vec<InitEntry> = Vec::new();
    t.push(InitEntry {
        opcode: CMD_DRIVER_OUTPUT,
        params: vec![0x07u8, 0x07u8, 0x3Fu8, 0x3Fu8],
        wait_after: false,
    });
    t.push(InitEntry {
        opcode: CMD_BOOSTER_SOFT_START,
        params: vec![0x17u8, 0x17u8, 0x28u8, 0x17u8],
        wait_after: false,
    });
    t.push(InitEntry { opcode: CMD_POWER_ON, params: Vec::new(), wait_after: true });
    t.push(InitEntry { opcode: CMD_PANEL_SETTING, params: vec![0x0Fu8], wait_after: false });
    t.push(InitEntry {
        opcode: CMD_RESOLUTION,
        params: vec![0x03u8, 0x20u8, 0x01u8, 0xE0u8],
        wait_after: false,
    });
    t.push(InitEntry { opcode: CMD_DUAL_SPI, params: vec![0x00u8], wait_after: false });
    t.push(InitEntry { opcode: CMD_VCOM_INTERVAL, params: vec![0x11u8, 0x07u8], wait_after: false });
    t.push(InitEntry { opcode: CMD_TCON, params: vec![0x22u8], wait_after: false });
    proof {
        assert(table_view(t@) =~~= init_table_model());
    }
    t
}

/// The plan of the power-on and reset phase.
pub fn power_on_reset_plan() -> (ops: Vec<BusOp>)
    ensures
        ops@ == power_on_reset_trace(),
{
    let mut ops: Vec<BusOp> = Vec::new();
    ops.push(BusOp::PowerLine(true));
    ops.push(BusOp::ResetLine(true));
    ops.push(BusOp::SleepMs(200));
    ops.push(BusOp::ResetLine(false));
    ops.push(BusOp::SleepMs(4));
    ops.push(BusOp::ResetLine(true));
    ops.push(BusOp::SleepMs(200));
    proof {
        assert(ops@ =~= power_on_reset_trace());
    }
    ops
}

/// The plan of the initialization phase: the fixed table, flattened.
pub fn init_plan() -> (ops: Vec<BusOp>)
    ensures
        ops@ == init_trace(),
{
    let table = init_table();
    table_plan(&table)
}

/// The plan of the render phase, or `SizeMismatch` without any bus
/// operation when either plane's length is not the plane size.
pub fn render_plan(plane_size: usize, black: &Vec<u8>, red: &Vec<u8>) -> (r: Result<
    Vec<BusOp>,
    DriverError,
>)
    ensures
        match r {
            Ok(ops) => black@.len() == plane_size && red@.len() == plane_size && ops@
                == render_trace(black@, red@),
            Err(e) => e == DriverError::SizeMismatch && !(black@.len() == plane_size && red@.len()
                == plane_size),
        },
{
    if black.len() != plane_size || red.len() != plane_size {
        return Err(DriverError::SizeMismatch);
    }
    let mut ops: Vec<BusOp> = Vec::new();
    ops.push(BusOp::Command(CMD_BLACK_RAM));
    push_plane_data(&mut ops, black);
    ops.push(BusOp::Command(CMD_RED_RAM));
    push_plane_data(&mut ops, red);
    ops.push(BusOp::Command(CMD_REFRESH));
    ops.push(BusOp::SleepMs(100));
    ops.push(BusOp::WaitReady);
    proof {
        assert(ops@ =~= render_trace(black@, red@));
    }
    Ok(ops)
}

/// A blank black plane of the given length.
pub fn blank_black_plane(plane_size: usize) -> (p: Vec<u8>)
    ensures
        p@ == blank_black_model(plane_size as nat),
{
    let mut p: Vec<u8> = Vec::new();
    let mut i: usize = 0;
    while i < plane_size
        invariant
            i <= plane_size,
            p@ == blank_black_model(i as nat),
        decreases plane_size - i,
    {
        p.push(BLANK_BLACK_BYTE);
        proof {
            assert(blank_black_model((i + 1) as nat) =~= blank_black_model(i as nat).push(
                BLANK_BLACK_BYTE,
            ));
        }
        i = i + 1;
    }
    p
}

/// A blank red plane of the given length.
pub fn blank_red_plane(plane_size: usize) -> (p: Vec<u8>)
    ensures
        p@ == blank_red_model(plane_size as nat),
{
    let mut p: Vec<u8> = Vec::new();
    let mut i: usize = 0;
    while i < plane_size
        invariant
            i <= plane_size,
            p@ == blank_red_model(i as nat),
        decreases plane_size - i,
    {
        p.push(BLANK_RED_BYTE);
        proof {
            assert(blank_red_model((i + 1) as nat) =~= blank_red_model(i as nat).push(
                BLANK_RED_BYTE,
            ));
        }
        i = i + 1;
    }
    p
}

/// The plan of the clear phase: a render of the two blank planes.
pub fn clear_plan(plane_size: usize) -> (ops: Vec<BusOp>)
    ensures
        ops@ == render_trace(
            blank_black_model(plane_size as nat),
            blank_red_model(plane_size as nat),
        ),
{
    let black = blank_black_plane(plane_size);
    let red = blank_red_plane(plane_size);
    match render_plan(plane_size, &black, &red) {
        Ok(ops) => ops,
        Err(_) => {
            proof {
                assert(false);
            }
            Vec::new()
        },
    }
}

/// The plan of the shutdown phase.
pub fn sleep_plan() -> (ops: Vec<BusOp>)
    ensures
        ops@ == sleep_trace(),
{
    let mut ops: Vec<BusOp> = Vec::new();
    ops.push(BusOp::Command(CMD_POWER_OFF));
    ops.push(BusOp::WaitReady);
    ops.push(BusOp::Command(CMD_DEEP_SLEEP));
    ops.push(BusOp::Data(DEEP_SLEEP_CHECK));
    ops.push(BusOp::SleepMs(2000));
    ops.push(BusOp::ResetLine(false));
    ops.push(BusOp::SelectLine(false));
    ops.push(BusOp::PowerLine(false));
    proof {
        assert(ops@ =~= sleep_trace());
    }
    ops
}

} // verus!
