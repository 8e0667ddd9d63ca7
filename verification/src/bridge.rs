//! The display bridge: packs draw operations into an 84x48 monochrome
//! framebuffer, coalesces bursts of draws into single published
//! snapshots, renders a snapshot as the line-oriented wire format, and
//! maps remote input bytes back to keypad events.

use vstd::prelude::*;

use crate::input::UserInput;

verus! {

/// The framebuffer's width in pixels: one `u64` column word per x.
pub const FRAME_WIDTH: usize = 84;

/// The framebuffer's height in pixels: bit y of a column word is row y.
pub const FRAME_HEIGHT: usize = 48;

/// One drawing operation: a pixel position and whether to set or clear
/// it.
#[derive(Clone, Copy, Debug, PartialEq, Eq, Structural)]
pub struct PixelOp {
    pub x: i32,
    pub y: i32,
    pub on: bool,
}

/// Whether bit `y` of a column word is set.
pub open spec fn col_bit(c: u64, y: u64) -> bool {
    c & (1u64 << y) != 0
}

/// A column word with bit `y` set or cleared.
pub open spec fn set_bit_col(c: u64, y: u64, on: bool) -> u64 {
    if on {
        c | (1u64 << y)
    } else {
        c & !(1u64 << y)
    }
}

/// The columns after one drawing operation: bit y of column x set or
/// cleared when the pixel is in range, untouched columns otherwise —
/// out-of-range pixels are silently dropped.
pub open spec fn apply_op(cols: Seq<u64>, op: PixelOp) -> Seq<u64> {
    if 0 <= op.x < FRAME_WIDTH && 0 <= op.y < FRAME_HEIGHT {
        cols.update(op.x as int, set_bit_col(cols[op.x as int], op.y as u64, op.on))
    } else {
        cols
    }
}

/// The columns after a whole batch of drawing operations, in order.
pub open spec fn apply_ops(cols: Seq<u64>, ops: Seq<PixelOp>) -> Seq<u64>
    decreases ops.len(),
{
    if ops.len() == 0 {
        cols
    } else {
        apply_op(apply_ops(cols, ops.drop_last()), ops.last())
    }
}

/// Law: a drawing operation outside the 84x48 surface leaves the
/// framebuffer untouched.
pub proof fn lemma_out_of_range_op_is_dropped(cols: Seq<u64>, op: PixelOp)
    requires
        !(0 <= op.x < FRAME_WIDTH && 0 <= op.y < FRAME_HEIGHT),
    ensures
        apply_op(cols, op) == cols,
{
}

/// The packed monochrome framebuffer: 84 column words, each holding 48
/// meaningful bits (bit y of column x is the pixel at (x, y)).
pub struct Framebuffer {
    pub columns: Vec<u64>,
}

impl Framebuffer {
    /// Exactly one word per column, with no bits above row 47 ever set.
    pub open spec fn wf(&self) -> bool {
        &&& self.columns@.len() == FRAME_WIDTH
        &&& forall|i: int| 0 <= i < FRAME_WIDTH ==> (#[trigger] self.columns@[i]) >> 48 == 0u64
    }

    /// Whether the pixel at (x, y) is set.
    pub open spec fn pixel(&self, x: int, y: int) -> bool {
        col_bit(self.columns@[x], y as u64)
    }

    /// A fresh, all-dark framebuffer.
    pub fn new() -> (r: Framebuffer)
        ensures
            r.wf(),
            forall|i: int| 0 <= i < FRAME_WIDTH ==> (#[trigger] r.columns@[i]) == 0u64,
    {
        let mut columns: Vec<u64> = Vec::new();
        let mut i: usize = 0;
        while i < FRAME_WIDTH
            invariant
                i <= FRAME_WIDTH,
                columns@.len() == i as int,
                forall|j: int| 0 <= j < i as int ==> (#[trigger] columns@[j]) == 0u64,
            decreases FRAME_WIDTH - i,
        {
            columns.push(0u64);
            i = i + 1;
        }
        proof {
            assert(0u64 >> 48 == 0u64) by (bit_vector);
        }
        Framebuffer { columns }
    }

    /// Draws one pixel: sets or clears bit y of column x when (x, y) is
    /// on the 84x48 surface; an out-of-range position changes nothing.
    pub fn set_pixel(&mut self, x: i32, y: i32, on: bool)
        requires
            old(self).wf(),
        ensures
            final(self).wf(),
            final(self).columns@ == apply_op(old(self).columns@, (PixelOp { x, y, on })),
    {
        if 0 <= x && x < FRAME_WIDTH as i32 && 0 <= y && y < FRAME_HEIGHT as i32 {
            let xi = x as usize;
            let col = self.columns[xi];
            let shifted: u64 = 1u64 << (y as u64);
            let new_col = if on {
                col | shifted
            } else {
                col & !shifted
            };
            proof {
                let c = col;
                let yy = y as u64;
                assert((c | (1u64 << yy)) >> 48 == 0u64 && (c & !(1u64 << yy)) >> 48
                    == 0u64) by (bit_vector)
                    requires
                        c >> 48 == 0u64,
                        yy < 48,
                ;
            }
            self.columns.set(xi, new_col);
        }
    }

    /// Draws a whole batch of pixels, in order.
    pub fn apply_batch(&mut self, ops: &Vec<PixelOp>)
        requires
            old(self).wf(),
        ensures
            final(self).wf(),
            final(self).columns@ == apply_ops(old(self).columns@, ops@),
    {
        let mut i: usize = 0;
        while i < ops.len()
            invariant
                old(self).wf(),
                self.wf(),
                i <= ops.len(),
                self.columns@ == apply_ops(old(self).columns@, ops@.take(i as int)),
            decreases ops.len() - i,
        {
            let op = ops[i];
            self.set_pixel(op.x, op.y, op.on);
            proof {
                assert(ops@.take(i + 1 as int).drop_last() =~= ops@.take(i as int));
            }
            i = i + 1;
        }
        proof {
            assert(ops@.take(ops@.len() as int) =~= ops@);
        }
    }

    /// The wire form of the framebuffer: 48 rows of 84 bytes, `X` (0x58)
    /// for a set pixel and `.` (0x2e) for a clear one, top row first.
    pub fn frame_lines(&self) -> (r: Vec<Vec<u8>>)
        requires
            self.wf(),
        ensures
            r@.len() == FRAME_HEIGHT,
            forall|row: int| 0 <= row < FRAME_HEIGHT ==> (#[trigger] r@[row])@.len() == FRAME_WIDTH,
            forall|row: int, c: int|
                0 <= row < FRAME_HEIGHT && 0 <= c < FRAME_WIDTH ==> r@[row]@[c] == (if self.pixel(
                    c,
                    row,
                ) {
                    88u8
                } else {
                    46u8
                }),
    {
        let mut lines: Vec<Vec<u8>> = Vec::new();
        let mut row: usize = 0;
        while row < FRAME_HEIGHT
            invariant
                self.wf(),
                row <= FRAME_HEIGHT,
                lines@.len() == row as int,
                forall|r2: int| 0 <= r2 < row as int ==> (#[trigger] lines@[r2])@.len()
                    == FRAME_WIDTH,
                forall|r2: int, c: int|
                    0 <= r2 < row as int && 0 <= c < FRAME_WIDTH ==> lines@[r2]@[c] == (
                    if self.pixel(c, r2) {
                        88u8
                    } else {
                        46u8
                    }),
            decreases FRAME_HEIGHT - row,
        {
            let mut line: Vec<u8> = Vec::new();
            let mut c: usize = 0;
            while c < FRAME_WIDTH
                invariant
                    self.wf(),
                    row < FRAME_HEIGHT,
                    c <= FRAME_WIDTH,
                    line@.len() == c as int,
                    forall|c2: int|
                        0 <= c2 < c as int ==> line@[c2] == (if self.pixel(c2, row as int) {
                            88u8
                        } else {
                            46u8
                        }),
                decreases FRAME_WIDTH - c,
            {
                let word = self.columns[c];
                let bit = word & (1u64 << (row as u64)) != 0;
                if bit {
                    line.push(88u8);  // 'X'
                } else {
                    line.push(46u8);  // '.'
                }
                c = c + 1;
            }
            lines.push(line);
            row = row + 1;
        }
        lines
    }
}

/// The control bytes sent before every fresh frame: clear the screen
/// and the scrollback (ESC [2J ESC [3J).
pub fn clear_screen_sequence() -> (r: Vec<u8>)
    ensures
        r@ == seq![27u8, 91u8, 50u8, 74u8, 27u8, 91u8, 51u8, 74u8],
{
    let r: Vec<u8> = vec![27u8, 91u8, 50u8, 74u8, 27u8, 91u8, 51u8, 74u8];
    proof {
        assert(r@ =~= seq![27u8, 91u8, 50u8, 74u8, 27u8, 91u8, 51u8, 74u8]);
    }
    r
}

/// What the frame assembler is told on each turn: a batch of drawing
/// operations arrived, or the short poll timed out with nothing pending.
pub enum AssemblerEvent {
    Batch(Vec<PixelOp>),
    IdleTimeout,
}

/// A spec-level assembler event, for stating runs of the assembler.
pub enum AssemblerEventModel {
    BatchArrived(Seq<PixelOp>),
    Idle,
}

impl View for AssemblerEvent {
    type V = AssemblerEventModel;

    open spec fn view(&self) -> AssemblerEventModel {
        match self {
            AssemblerEvent::Batch(ops) => AssemblerEventModel::BatchArrived(ops@),
            AssemblerEvent::IdleTimeout => AssemblerEventModel::Idle,
        }
    }
}

/// The assembler run over a sequence of events: the final columns, and
/// the snapshots published along the way. A batch only accumulates;
/// only an idle turn publishes, and it publishes the current frame.
pub open spec fn run_assembler(cols: Seq<u64>, events: Seq<AssemblerEventModel>) -> (Seq<u64>, Seq<
    Seq<u64>,
>)
    decreases events.len(),
{
    if events.len() == 0 {
        (cols, Seq::<Seq<u64>>::empty())
    } else {
        match events[0] {
            AssemblerEventModel::BatchArrived(ops) => run_assembler(
                apply_ops(cols, ops),
                events.drop_first(),
            ),
            AssemblerEventModel::Idle => {
                let rest = run_assembler(cols, events.drop_first());
                (rest.0, seq![cols] + rest.1)
            },
        }
    }
}

/// The columns after a sequence of whole batches.
pub open spec fn fold_batches(cols: Seq<u64>, batches: Seq<Seq<PixelOp>>) -> Seq<u64>
    decreases batches.len(),
{
    if batches.len() == 0 {
        cols
    } else {
        fold_batches(apply_ops(cols, batches[0]), batches.drop_first())
    }
}

/// The event sequence "these batches arrive, then the idle timeout
/// fires once".
pub open spec fn batches_then_idle(batches: Seq<Seq<PixelOp>>) -> Seq<AssemblerEventModel> {
    batches.map_values(|ops: Seq<PixelOp>| AssemblerEventModel::BatchArrived(ops)).push(
        AssemblerEventModel::Idle,
    )
}

/// Law: if any number of draw batches arrive before the idle timeout
/// fires once, exactly one snapshot is published, and it reflects the
/// cumulative effect of all the batches.
pub proof fn lemma_frame_coalescing(cols: Seq<u64>, batches: Seq<Seq<PixelOp>>)
    ensures
        run_assembler(cols, batches_then_idle(batches)).1 =~= seq![fold_batches(cols, batches)],
    decreases batches.len(),
{
    let events = batches_then_idle(batches);
    reveal_with_fuel(run_assembler, 3);
    if batches.len() == 0 {
        assert(events =~~= seq![AssemblerEventModel::Idle]);
        assert(events.drop_first() =~~= Seq::<AssemblerEventModel>::empty());
        assert(run_assembler(cols, events).1 =~= seq![cols] + Seq::<Seq<u64>>::empty());
        assert(seq![cols] + Seq::<Seq<u64>>::empty() =~= seq![cols]);
    } else {
        assert(events[0] == AssemblerEventModel::BatchArrived(batches[0]));
        assert(events.drop_first() =~~= batches_then_idle(batches.drop_first()));
        lemma_frame_coalescing(apply_ops(cols, batches[0]), batches.drop_first());
        assert(run_assembler(cols, events) == run_assembler(
            apply_ops(cols, batches[0]),
            batches_then_idle(batches.drop_first()),
        ));
        assert(fold_batches(cols, batches) == fold_batches(
            apply_ops(cols, batches[0]),
            batches.drop_first(),
        ));
    }
}

/// The assembler stage: exclusive owner of the framebuffer, fed draw
/// batches by the render pass and polled on a short timeout.
pub struct FrameAssembler {
    pub frame: Framebuffer,
}

impl FrameAssembler {
    pub open spec fn wf(&self) -> bool {
        self.frame.wf()
    }

    /// A fresh assembler over an all-dark framebuffer.
    pub fn new() -> (r: FrameAssembler)
        ensures
            r.wf(),
            forall|i: int| 0 <= i < FRAME_WIDTH ==> (#[trigger] r.frame.columns@[i]) == 0u64,
    {
        FrameAssembler { frame: Framebuffer::new() }
    }

    /// One turn of the assembler: a batch is drawn into the framebuffer
    /// and publishes nothing; an idle timeout publishes a snapshot of
    /// the current framebuffer and changes nothing. Bursts of batches
    /// thus coalesce into the single snapshot of the next idle turn.
    pub fn step(&mut self, event: &AssemblerEvent) -> (r: Option<Framebuffer>)
        requires
            old(self).wf(),
        ensures
            final(self).wf(),
            match event@ {
                AssemblerEventModel::BatchArrived(ops) => r is None && final(self).frame.columns@
                    == apply_ops(old(self).frame.columns@, ops),
                AssemblerEventModel::Idle => {
                    &&& final(self).frame.columns@ == old(self).frame.columns@
                    &&& r matches Some(snap) && snap.columns@ == old(self).frame.columns@
                },
            },
    {
        match event {
            AssemblerEvent::Batch(ops) => {
                self.frame.apply_batch(ops);
                None
            },
            AssemblerEvent::IdleTimeout => {
                let snapshot = Framebuffer { columns: self.frame.columns.clone() };
                proof {
                    assert(snapshot.columns@ =~= self.frame.columns@);
                }
                Some(snapshot)
            },
        }
    }
}

/// What one remote input byte means: a keypad event, the session-end
/// byte `q`, or an unrecognized byte (which aborts the read loop but is
/// not an error).
#[derive(Clone, Copy, Debug, PartialEq, Eq, Structural)]
pub enum RemoteByte {
    Key(UserInput),
    EndSession,
    Unrecognized,
}

/// The fixed byte table of the remote protocol: digits, space for
/// SoftKey, `#`, `*`, `c`/`C` for Call, `u`/`U` for Up, `d`/`D` for
/// Down, and `q` to end the session.
pub open spec fn spec_map_byte(b: u8) -> RemoteByte {
    if 48 <= b <= 57 {
        RemoteByte::Key(UserInput::Number((b - 48) as u8))
    } else if b == 32 {
        RemoteByte::Key(UserInput::SoftKey)
    } else if b == 35 {
        RemoteByte::Key(UserInput::Hash)
    } else if b == 42 {
        RemoteByte::Key(UserInput::Star)
    } else if b == 99 || b == 67 {
        RemoteByte::Key(UserInput::Call)
    } else if b == 117 || b == 85 {
        RemoteByte::Key(UserInput::Up)
    } else if b == 100 || b == 68 {
        RemoteByte::Key(UserInput::Down)
    } else if b == 113 {
        RemoteByte::EndSession
    } else {
        RemoteByte::Unrecognized
    }
}

/// Maps one raw byte read from the remote viewer to its meaning.
pub fn map_input_byte(b: u8) -> (r: RemoteByte)
    ensures
        r == spec_map_byte(b),
        r matches RemoteByte::Key(u) ==> u.valid(),
{
    if 48 <= b && b <= 57 {
        RemoteByte::Key(UserInput::Number(b - 48))
    } else if b == 32 {
        RemoteByte::Key(UserInput::SoftKey)
    } else if b == 35 {
        RemoteByte::Key(UserInput::Hash)
    } else if b == 42 {
        RemoteByte::Key(UserInput::Star)
    } else if b == 99 || b == 67 {
        RemoteByte::Key(UserInput::Call)
    } else if b == 117 || b == 85 {
        RemoteByte::Key(UserInput::Up)
    } else if b == 100 || b == 68 {
        RemoteByte::Key(UserInput::Down)
    } else if b == 113 {
        RemoteByte::EndSession
    } else {
        RemoteByte::Unrecognized
    }
}

#[verifier::external_type_specification]
#[verifier::external_body]
#[verifier::reject_recursive_types(T)]
pub struct ExReceiver<T>(std::sync::mpsc::Receiver<T>);

/// Relies on `std::sync::mpsc::Receiver::try_recv`: returns a queued
/// message if one is pending and returns at once otherwise; what comes
/// back depends on what other threads sent, so nothing more is claimed.
#[verifier::external_body]
fn try_recv_input(receiver: &std::sync::mpsc::Receiver<UserInput>) -> Option<UserInput> {
    match receiver.try_recv() {
        Ok(user_input) => Some(user_input),
        Err(_) => None,
    }
}

/// The keypad-event side of the remote display bridge: the receiving
/// end of the bounded input queue the transport stage feeds.
pub struct TelnetModuleInputInterface {
    pub input_receiver: std::sync::mpsc::Receiver<UserInput>,
}

impl crate::input::InputModule for TelnetModuleInputInterface {
    fn get_input(&mut self) -> Option<UserInput> {
        try_recv_input(&self.input_receiver)
    }
}

} // verus!
