//! The outline encoder: a pen that receives path-drawing operations and
//! appends one command code and one fixed-width coordinate record per
//! operation, coordinates scaled by the reciprocal of units-per-em.

use vstd::prelude::*;

use crate::scale::f32_is_positive_finite;
use crate::scale::mul_bits;
use crate::scale::mul_f32;
use crate::scale::recip_bits;
use crate::scale::recip_f32;

verus! {

/// Command code of a move-to operation.
pub const MOVE_TO: i32 = 1;
/// Command code of a line-to operation.
pub const LINE_TO: i32 = 2;
/// Command code of a quadratic-curve operation.
pub const QUAD_TO: i32 = 3;
/// Command code of a cubic-curve operation.
pub const CURVE_TO: i32 = 4;
/// Command code of a close operation.
pub const CLOSE: i32 = 5;
/// Command code of the terminal record appended by `finish`.
pub const END: i32 = 6;

/// One path-drawing operation, its coordinates given as IEEE-754
/// single-precision bit patterns in font design units (unscaled).
#[derive(Clone, Copy)]
pub enum PathOp {
    /// Start a new subpath at (x, y).
    MoveTo(u32, u32),
    /// Straight segment to (x, y).
    LineTo(u32, u32),
    /// Quadratic curve with control point (cx0, cy0), ending at (x, y).
    QuadTo(u32, u32, u32, u32),
    /// Cubic curve with control points (cx0, cy0) and (cx1, cy1), ending at
    /// (x, y).
    CurveTo(u32, u32, u32, u32, u32, u32),
    /// Close the current subpath.
    Close,
}

/// The command code that one operation contributes to the command buffer.
pub open spec fn op_code(op: PathOp) -> i32 {
    match op {
        PathOp::MoveTo(_, _) => MOVE_TO,
        PathOp::LineTo(_, _) => LINE_TO,
        PathOp::QuadTo(_, _, _, _) => QUAD_TO,
        PathOp::CurveTo(_, _, _, _, _, _) => CURVE_TO,
        PathOp::Close => CLOSE,
    }
}

/// The six-value record of an operation that uses no coordinates at all;
/// also the record of the terminal `End` entry.
pub open spec fn zero_record() -> Seq<u32> {
    seq![0u32, 0u32, 0u32, 0u32, 0u32, 0u32]
}

/// The six-value coordinate record that one operation contributes, in the
/// fixed slot layout [cx0, cy0, cx1, cy1, x, y]: the operation's arguments,
/// each multiplied by the scale factor `s`, stand in their designated slots
/// and every unused slot holds zero.
pub open spec fn op_record(s: u32, op: PathOp) -> Seq<u32> {
    match op {
        PathOp::MoveTo(x, y) => seq![
            0u32, 0u32, 0u32, 0u32, mul_bits(s, x), mul_bits(s, y),
        ],
        PathOp::LineTo(x, y) => seq![
            0u32, 0u32, 0u32, 0u32, mul_bits(s, x), mul_bits(s, y),
        ],
        PathOp::QuadTo(cx0, cy0, x, y) => seq![
            mul_bits(s, cx0), mul_bits(s, cy0), 0u32, 0u32, mul_bits(s, x), mul_bits(s, y),
        ],
        PathOp::CurveTo(cx0, cy0, cx1, cy1, x, y) => seq![
            mul_bits(s, cx0), mul_bits(s, cy0), mul_bits(s, cx1), mul_bits(s, cy1),
            mul_bits(s, x), mul_bits(s, y),
        ],
        PathOp::Close => zero_record(),
    }
}

/// The command buffer that a sequence of operations produces, before the
/// terminal `End` entry: one code per operation, in call order.
pub open spec fn commands_of_ops(ops: Seq<PathOp>) -> Seq<i32>
    decreases ops.len(),
{
    if ops.len() == 0 {
        Seq::empty()
    } else {
        commands_of_ops(ops.drop_last()).push(op_code(ops.last()))
    }
}

/// The coordinate buffer that a sequence of operations produces at scale
/// factor `s`, before the terminal zero record: one six-value record per
/// operation, in call order.
pub open spec fn coords_of_ops(s: u32, ops: Seq<PathOp>) -> Seq<u32>
    decreases ops.len(),
{
    if ops.len() == 0 {
        Seq::empty()
    } else {
        coords_of_ops(s, ops.drop_last()) + op_record(s, ops.last())
    }
}

/// Appending one operation appends its code to the command buffer and its
/// record to the coordinate buffer.
pub proof fn lemma_ops_push(s: u32, ops: Seq<PathOp>, op: PathOp)
    ensures
        commands_of_ops(ops.push(op)) == commands_of_ops(ops).push(op_code(op)),
        coords_of_ops(s, ops.push(op)) == coords_of_ops(s, ops) + op_record(s, op),
{
    assert(ops.push(op).drop_last() =~= ops);
    assert(ops.push(op).last() == op);
}

/// Every coordinate record is six values long.
pub proof fn lemma_record_len(s: u32, op: PathOp)
    ensures
        op_record(s, op).len() == 6,
{
}

/// A sequence of N operations yields N command entries and 6 N coordinate
/// values; with the terminal entry that `finish` appends, the buffers handed
/// out hold N + 1 commands and 6 (N + 1) coordinates.
pub proof fn lemma_encoded_lengths(s: u32, ops: Seq<PathOp>)
    ensures
        commands_of_ops(ops).len() == ops.len(),
        coords_of_ops(s, ops).len() == 6 * ops.len(),
    decreases ops.len(),
{
    if ops.len() > 0 {
        lemma_encoded_lengths(s, ops.drop_last());
        lemma_record_len(s, ops.last());
    }
}

/// The raw (unscaled) coordinate that an operation places in slot `j` of
/// its record, or nothing where the slot is zero-filled.
pub open spec fn slot_raw(op: PathOp, j: int) -> Option<u32> {
    match op {
        PathOp::MoveTo(x, y) => if j == 4 {
            Some(x)
        } else if j == 5 {
            Some(y)
        } else {
            None
        },
        PathOp::LineTo(x, y) => if j == 4 {
            Some(x)
        } else if j == 5 {
            Some(y)
        } else {
            None
        },
        PathOp::QuadTo(cx0, cy0, x, y) => if j == 0 {
            Some(cx0)
        } else if j == 1 {
            Some(cy0)
        } else if j == 4 {
            Some(x)
        } else if j == 5 {
            Some(y)
        } else {
            None
        },
        PathOp::CurveTo(cx0, cy0, cx1, cy1, x, y) => if j == 0 {
            Some(cx0)
        } else if j == 1 {
            Some(cy0)
        } else if j == 2 {
            Some(cx1)
        } else if j == 3 {
            Some(cy1)
        } else if j == 4 {
            Some(x)
        } else {
            Some(y)
        },
        PathOp::Close => None,
    }
}

/// Each slot of an operation's record holds the scaled raw coordinate of
/// that slot, or zero where the slot is unused.
pub proof fn lemma_record_slots(s: u32, op: PathOp, j: int)
    requires
        0 <= j < 6,
    ensures
        op_record(s, op)[j] == (match slot_raw(op, j) {
            Some(raw) => mul_bits(s, raw),
            None => 0u32,
        }),
{
}

/// Lock-step indexing: entry `i` of the command buffer is the code of the
/// i-th operation, and coordinate slots [6 i, 6 i + 6) are exactly that
/// operation's record.
pub proof fn lemma_record_at_index(s: u32, ops: Seq<PathOp>, i: int)
    requires
        0 <= i < ops.len(),
    ensures
        commands_of_ops(ops).len() == ops.len(),
        coords_of_ops(s, ops).len() == 6 * ops.len(),
        commands_of_ops(ops)[i] == op_code(ops[i]),
        coords_of_ops(s, ops).subrange(6 * i, 6 * i + 6) == op_record(s, ops[i]),
    decreases ops.len(),
{
    lemma_encoded_lengths(s, ops);
    lemma_record_len(s, ops.last());
    lemma_encoded_lengths(s, ops.drop_last());
    if i == ops.len() - 1 {
        assert(ops[i] == ops.last());
        assert(coords_of_ops(s, ops).subrange(6 * i, 6 * i + 6) =~= op_record(s, ops.last()));
    } else {
        lemma_record_at_index(s, ops.drop_last(), i);
        assert(ops.drop_last()[i] == ops[i]);
        assert(coords_of_ops(s, ops).subrange(6 * i, 6 * i + 6) =~= coords_of_ops(
            s,
            ops.drop_last(),
        ).subrange(6 * i, 6 * i + 6));
    }
}

/// Changing the scale factor changes only the used coordinate slots, and
/// each of those through the single multiplication of the same raw
/// coordinate: at two scale factors the same operation sequence yields the
/// same command buffer, buffers of one length, zero in the same slots, and
/// in each used slot the product of that slot's raw coordinate with the
/// respective scale factor. (How the two products relate numerically is a
/// property of the rounded arithmetic and is not stated here.)
pub proof fn lemma_rescale_pointwise(s1: u32, s2: u32, ops: Seq<PathOp>, i: int)
    requires
        0 <= i < 6 * ops.len(),
    ensures
        coords_of_ops(s1, ops).len() == coords_of_ops(s2, ops).len(),
        match slot_raw(ops[i / 6], i % 6) {
            Some(raw) => coords_of_ops(s1, ops)[i] == mul_bits(s1, raw) && coords_of_ops(
                s2,
                ops,
            )[i] == mul_bits(s2, raw),
            None => coords_of_ops(s1, ops)[i] == 0u32 && coords_of_ops(s2, ops)[i] == 0u32,
        },
{
    let k = i / 6;
    let j = i % 6;
    lemma_record_at_index(s1, ops, k);
    lemma_record_at_index(s2, ops, k);
    lemma_record_slots(s1, ops[k], j);
    lemma_record_slots(s2, ops[k], j);
    assert(coords_of_ops(s1, ops)[i] == coords_of_ops(s1, ops).subrange(6 * k, 6 * k + 6)[j]);
    assert(coords_of_ops(s2, ops)[i] == coords_of_ops(s2, ops).subrange(6 * k, 6 * k + 6)[j]);
}

/// Encoding a single move-to and finishing yields exactly the command buffer
/// [MoveTo, End] and a coordinate buffer holding the scaled endpoint in the
/// last two slots of the first record, zero everywhere else.
pub proof fn lemma_single_move_to(units_per_em: u32, x: u32, y: u32)
    ensures
        commands_of_ops(seq![PathOp::MoveTo(x, y)]).push(END) == seq![MOVE_TO, END],
        coords_of_ops(recip_bits(units_per_em), seq![PathOp::MoveTo(x, y)]) + zero_record()
            == seq![
                0u32, 0u32, 0u32, 0u32,
                mul_bits(recip_bits(units_per_em), x), mul_bits(recip_bits(units_per_em), y),
                0u32, 0u32, 0u32, 0u32, 0u32, 0u32,
            ],
{
    let ops = seq![PathOp::MoveTo(x, y)];
    assert(ops.last() == PathOp::MoveTo(x, y));
    assert(ops.drop_last() =~= Seq::<PathOp>::empty());
    assert(commands_of_ops(Seq::<PathOp>::empty()) == Seq::<i32>::empty());
    assert(commands_of_ops(ops) == commands_of_ops(ops.drop_last()).push(MOVE_TO));
    assert(commands_of_ops(ops).push(END) =~= seq![MOVE_TO, END]);
    let s = recip_bits(units_per_em);
    assert(coords_of_ops(s, Seq::<PathOp>::empty()) == Seq::<u32>::empty());
    assert(coords_of_ops(s, ops) == coords_of_ops(s, ops.drop_last()) + op_record(s, ops.last()));
    assert(coords_of_ops(s, ops) + zero_record() =~= seq![
        0u32, 0u32, 0u32, 0u32, mul_bits(s, x), mul_bits(s, y),
        0u32, 0u32, 0u32, 0u32, 0u32, 0u32,
    ]);
}

/// A close operation and the terminal entry contribute six zero coordinate
/// values, whatever the scale factor and whatever came before them.
pub proof fn lemma_close_and_end_records_zero(s: u32)
    ensures
        op_record(s, PathOp::Close) == zero_record(),
        forall|i: int| 0 <= i < zero_record().len() ==> zero_record()[i] == 0u32,
{
}

/// The outline encoder. It accumulates one command code and one six-value
/// coordinate record per operation; `finish` appends the terminal entry and
/// hands both buffers out.
pub struct SegmentPen {
    /// One command code per operation received so far, in call order.
    pub commands: Vec<i32>,
    /// Six coordinate values per operation received so far, each scaled.
    pub coords: Vec<u32>,
    /// Scale factor: the reciprocal of units-per-em, as an IEEE-754
    /// single-precision bit pattern.
    pub scale: u32,
    /// The operations received so far, in call order.
    pub ops: Ghost<Seq<PathOp>>,
}

impl SegmentPen {
    /// The buffers hold exactly the encoding of the operations received.
    pub open spec fn wf(self) -> bool {
        &&& self.commands@ == commands_of_ops(self.ops@)
        &&& self.coords@ == coords_of_ops(self.scale, self.ops@)
    }

    /// A fresh encoder for one glyph. `units_per_em` is the IEEE-754
    /// single-precision bit pattern of the font's units-per-em, which must
    /// denote a strictly positive finite value; the stored scale factor is
    /// its reciprocal.
    pub fn new(units_per_em: u32) -> (pen: SegmentPen)
        requires
            f32_is_positive_finite(units_per_em),
        ensures
            pen.wf(),
            pen.scale == recip_bits(units_per_em),
            pen.ops@ == Seq::<PathOp>::empty(),
            pen.commands@ == Seq::<i32>::empty(),
            pen.coords@ == Seq::<u32>::empty(),
    {
        let scale = recip_f32(units_per_em);
        SegmentPen {
            commands: Vec::new(),
            coords: Vec::new(),
            scale,
            ops: Ghost(Seq::empty()),
        }
    }

    /// Append one command code and one already-scaled six-value record.
    fn push_record(&mut self, code: i32, c0: u32, c1: u32, c2: u32, c3: u32, c4: u32, c5: u32)
        ensures
            final(self).commands@ == old(self).commands@.push(code),
            final(self).coords@ == old(self).coords@ + seq![c0, c1, c2, c3, c4, c5],
            final(self).scale == old(self).scale,
            final(self).ops@ == old(self).ops@,
    {
        self.commands.push(code);
        self.coords.push(c0);
        self.coords.push(c1);
        self.coords.push(c2);
        self.coords.push(c3);
        self.coords.push(c4);
        self.coords.push(c5);
        proof {
            assert(self.coords@ =~= old(self).coords@ + seq![c0, c1, c2, c3, c4, c5]);
        }
    }

    /// Record one operation: append its code and its scaled record.
    fn push_op(&mut self, op: PathOp, code: i32, c0: u32, c1: u32, c2: u32, c3: u32, c4: u32, c5: u32)
        requires
            old(self).wf(),
            code == op_code(op),
            seq![c0, c1, c2, c3, c4, c5] == op_record(old(self).scale, op),
        ensures
            final(self).wf(),
            final(self).scale == old(self).scale,
            final(self).ops@ == old(self).ops@.push(op),
            final(self).commands@ == old(self).commands@.push(code),
            final(self).coords@ == old(self).coords@ + op_record(old(self).scale, op),
    {
        self.push_record(code, c0, c1, c2, c3, c4, c5);
        proof {
            lemma_ops_push(self.scale, self.ops@, op);
        }
        self.ops = Ghost(self.ops@.push(op));
    }

    /// Start a new subpath at (x, y), given in unscaled design units.
    pub fn move_to(&mut self, x: u32, y: u32)
        requires
            old(self).wf(),
        ensures
            final(self).wf(),
            final(self).scale == old(self).scale,
            final(self).ops@ == old(self).ops@.push(PathOp::MoveTo(x, y)),
            final(self).commands@ == old(self).commands@.push(MOVE_TO),
            final(self).coords@ == old(self).coords@ + op_record(old(self).scale, PathOp::MoveTo(x, y)),
    {
        let sx = mul_f32(self.scale, x);
        let sy = mul_f32(self.scale, y);
        self.push_op(PathOp::MoveTo(x, y), MOVE_TO, 0, 0, 0, 0, sx, sy);
    }

    /// Straight segment to (x, y), given in unscaled design units.
    pub fn line_to(&mut self, x: u32, y: u32)
        requires
            old(self).wf(),
        ensures
            final(self).wf(),
            final(self).scale == old(self).scale,
            final(self).ops@ == old(self).ops@.push(PathOp::LineTo(x, y)),
            final(self).commands@ == old(self).commands@.push(LINE_TO),
            final(self).coords@ == old(self).coords@ + op_record(old(self).scale, PathOp::LineTo(x, y)),
    {
        let sx = mul_f32(self.scale, x);
        let sy = mul_f32(self.scale, y);
        self.push_op(PathOp::LineTo(x, y), LINE_TO, 0, 0, 0, 0, sx, sy);
    }

    /// Quadratic curve with control point (cx0, cy0) ending at (x, y), all
    /// given in unscaled design units.
    pub fn quad_to(&mut self, cx0: u32, cy0: u32, x: u32, y: u32)
        requires
            old(self).wf(),
        ensures
            final(self).wf(),
            final(self).scale == old(self).scale,
            final(self).ops@ == old(self).ops@.push(PathOp::QuadTo(cx0, cy0, x, y)),
            final(self).commands@ == old(self).commands@.push(QUAD_TO),
            final(self).coords@ == old(self).coords@
                + op_record(old(self).scale, PathOp::QuadTo(cx0, cy0, x, y)),
    {
        let sc0 = mul_f32(self.scale, cx0);
        let sc1 = mul_f32(self.scale, cy0);
        let sx = mul_f32(self.scale, x);
        let sy = mul_f32(self.scale, y);
        self.push_op(PathOp::QuadTo(cx0, cy0, x, y), QUAD_TO, sc0, sc1, 0, 0, sx, sy);
    }

    /// Cubic curve with control points (cx0, cy0) and (cx1, cy1) ending at
    /// (x, y), all given in unscaled design units.
    pub fn curve_to(&mut self, cx0: u32, cy0: u32, cx1: u32, cy1: u32, x: u32, y: u32)
        requires
            old(self).wf(),
        ensures
            final(self).wf(),
            final(self).scale == old(self).scale,
            final(self).ops@ == old(self).ops@.push(PathOp::CurveTo(cx0, cy0, cx1, cy1, x, y)),
            final(self).commands@ == old(self).commands@.push(CURVE_TO),
            final(self).coords@ == old(self).coords@
                + op_record(old(self).scale, PathOp::CurveTo(cx0, cy0, cx1, cy1, x, y)),
    {
        let sc0 = mul_f32(self.scale, cx0);
        let sc1 = mul_f32(self.scale, cy0);
        let sc2 = mul_f32(self.scale, cx1);
        let sc3 = mul_f32(self.scale, cy1);
        let sx = mul_f32(self.scale, x);
        let sy = mul_f32(self.scale, y);
        self.push_op(PathOp::CurveTo(cx0, cy0, cx1, cy1, x, y), CURVE_TO, sc0, sc1, sc2, sc3, sx, sy);
    }

    /// Close the current subpath: a command with six zero coordinate values.
    pub fn close(&mut self)
        requires
            old(self).wf(),
        ensures
            final(self).wf(),
            final(self).scale == old(self).scale,
            final(self).ops@ == old(self).ops@.push(PathOp::Close),
            final(self).commands@ == old(self).commands@.push(CLOSE),
            final(self).coords@ == old(self).coords@ + zero_record(),
    {
        self.push_op(PathOp::Close, CLOSE, 0, 0, 0, 0, 0, 0);
    }

    /// Append the terminal `End` entry (six zero coordinate values) and hand
    /// both buffers out. Consumes the encoder: a second call is rejected at
    /// compile time.
    pub fn finish(self) -> (r: (Vec<i32>, Vec<u32>))
        requires
            self.wf(),
        ensures
            r.0@ == commands_of_ops(self.ops@).push(END),
            r.1@ == coords_of_ops(self.scale, self.ops@) + zero_record(),
            r.0@ == self.commands@.push(END),
            r.1@ == self.coords@ + zero_record(),
            r.0@.len() == self.ops@.len() + 1,
            r.1@.len() == 6 * r.0@.len(),
    {
        proof {
            lemma_encoded_lengths(self.scale, self.ops@);
        }
        let SegmentPen { mut commands, mut coords, scale: _, ops: _ } = self;
        commands.push(END);
        coords.push(0);
        coords.push(0);
        coords.push(0);
        coords.push(0);
        coords.push(0);
        coords.push(0);
        proof {
            assert(coords@ =~= self.coords@ + zero_record());
        }
        (commands, coords)
    }
}

/// Encode a whole outline at once: feed every operation to a fresh encoder
/// in order and finish it. `units_per_em` is the IEEE-754 single-precision
/// bit pattern of the font's units-per-em, which must denote a strictly
/// positive finite value.
pub fn encode(units_per_em: u32, ops: &Vec<PathOp>) -> (r: (Vec<i32>, Vec<u32>))
    requires
        f32_is_positive_finite(units_per_em),
    ensures
        r.0@ == commands_of_ops(ops@).push(END),
        r.1@ == coords_of_ops(recip_bits(units_per_em), ops@) + zero_record(),
        r.0@.len() == ops@.len() + 1,
        r.1@.len() == 6 * r.0@.len(),
{
    let mut pen = SegmentPen::new(units_per_em);
    let mut i: usize = 0;
    proof {
        assert(ops@.take(0) =~= Seq::<PathOp>::empty());
    }
    while i < ops.len()
        invariant
            i <= ops@.len(),
            pen.wf(),
            pen.scale == recip_bits(units_per_em),
            pen.ops@ == ops@.take(i as int),
        decreases ops@.len() - i,
    {
        let op = ops[i];
        match op {
            PathOp::MoveTo(x, y) => pen.move_to(x, y),
            PathOp::LineTo(x, y) => pen.line_to(x, y),
            PathOp::QuadTo(cx0, cy0, x, y) => pen.quad_to(cx0, cy0, x, y),
            PathOp::CurveTo(cx0, cy0, cx1, cy1, x, y) => pen.curve_to(cx0, cy0, cx1, cy1, x, y),
            PathOp::Close => pen.close(),
        }
        proof {
            assert(ops@.take(i as int).push(ops@[i as int]) =~= ops@.take(i + 1 as int));
        }
        i = i + 1;
    }
    proof {
        assert(ops@.take(ops@.len() as int) =~= ops@);
    }
    pen.finish()
}

} // verus!
