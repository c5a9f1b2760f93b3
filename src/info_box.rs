use vstd::prelude::*;
use crate::canvas::Canvas;
use crate::draw::DrawOp;
use crate::glyph::{Gph, Glyph, digit_gph, draw_glyph, glyph_ops, GLYPH_WIDTH};
use crate::point::Point;

verus! {

/// Cells in one InfoBox row.
pub const MAX_INFO_BOX_GLYPHS: usize = 12;

/// `a` with its `d` least significant decimal digits dropped.
pub open spec fn shifted(a: int, d: nat) -> int
    decreases d,
{
    if d == 0 {
        a
    } else {
        shifted(a, (d - 1) as nat) / 10
    }
}

/// The glyph of decimal place `d` of the magnitude `a`: its digit, or a blank
/// where only leading zeros are left above the units place.
pub open spec fn digit_cell(a: int, d: nat) -> Gph {
    if d > 0 && shifted(a, d) == 0 {
        Gph::Space
    } else {
        digit_gph(shifted(a, d) % 10)
    }
}

pub open spec fn magnitude(v: i32) -> int {
    if v < 0 {
        -v
    } else {
        v as int
    }
}

/// A positioned row of glyph cells: what should be shown (`todo`) and what
/// was last drawn (`done`), with an optional number written into its cells.
/// Callers change the `todo` side through the methods; `done` is the
/// renderer's record.
#[derive(Clone, Copy)]
pub struct InfoBox {
    pub size: u8,
    pub position: Point,
    pub todo_value: i32,
    pub done_value: i32,
    pub value_position: u8,
    pub value_digits: u8,
    pub has_sign: bool,
    pub positive_gph: Gph,
    pub zero_gph: Gph,
    pub negative_gph: Gph,
    pub todo_bold: bool,
    pub done_bold: bool,
    pub todo: [Gph; 12],
    pub done: [Gph; 12],
}

impl InfoBox {
    /// The row's cells and its number's cells fit in the row.
    pub open spec fn wf(self) -> bool {
        &&& self.size <= 12
        &&& self.value_position + self.value_digits <= 12
        &&& self.has_sign ==> self.value_position >= 1
    }

    /// Every field at its default: no cells, no number, all cells empty.
    pub open spec fn is_cleared(self) -> bool {
        &&& self.size == 0
        &&& self.position == Point { x: 0, y: 0 }
        &&& self.is_cleared_but_layout()
    }

    /// Every field at its default but the size and position.
    pub open spec fn is_cleared_but_layout(self) -> bool {
        &&& self.todo_value == 0
        &&& self.done_value == 0
        &&& self.value_position == 0
        &&& self.value_digits == 0
        &&& !self.has_sign
        &&& self.positive_gph == Gph::NONE
        &&& self.zero_gph == Gph::NONE
        &&& self.negative_gph == Gph::NONE
        &&& !self.todo_bold
        &&& !self.done_bold
        &&& forall|i: int| 0 <= i < 12 ==> self.todo@[i] == Gph::NONE
        &&& forall|i: int| 0 <= i < 12 ==> self.done@[i] == Gph::NONE
    }

    /// Whether a render pass will write the number into the cells.
    pub open spec fn needs_apply(self) -> bool {
        self.value_digits > 0 && self.todo_value != self.done_value
    }

    pub open spec fn sign_gph(self) -> Gph {
        if self.todo_value > 0 {
            self.positive_gph
        } else if self.todo_value < 0 {
            self.negative_gph
        } else {
            self.zero_gph
        }
    }

    /// The glyph of number cell `k`; the units digit is the rightmost.
    pub open spec fn value_cell(self, k: int) -> Gph {
        digit_cell(
            magnitude(self.todo_value),
            (self.value_position + self.value_digits - 1 - k) as nat,
        )
    }

    /// The `todo` cells once the number is written into them.
    pub open spec fn applied_cells(self) -> Seq<Gph> {
        if !self.needs_apply() {
            self.todo@
        } else {
            Seq::new(
                12,
                |k: int|
                    if self.value_position <= k < self.value_position + self.value_digits {
                        self.value_cell(k)
                    } else if self.has_sign && k == self.value_position - 1 {
                        self.sign_gph()
                    } else {
                        self.todo@[k]
                    },
            )
        }
    }

    /// The number last written into the cells, once this one is.
    pub open spec fn applied_value(self) -> i32 {
        if self.needs_apply() {
            self.todo_value
        } else {
            self.done_value
        }
    }

    /// Cell `i` is drawn in a render pass: it is not empty, and its glyph
    /// or the row's bold state differs from what was last drawn.
    pub open spec fn cell_redrawn(self, i: int) -> bool {
        let t = self.applied_cells()[i];
        t != Gph::NONE && (self.done@[i] != t || self.done_bold != self.todo_bold)
    }

    pub open spec fn cell_x(self, i: int) -> i32 {
        (self.position.x + i * GLYPH_WIDTH) as i32
    }

    /// The draw calls of a render pass, from cell `i` on.
    pub open spec fn row_ops_from(self, c: Canvas, table: Seq<Glyph>, i: int) -> Seq<DrawOp>
        decreases self.size - i,
    {
        if i < 0 || i >= self.size {
            seq![]
        } else {
            let here = if self.cell_redrawn(i) {
                glyph_ops(
                    c,
                    table,
                    self.applied_cells()[i],
                    self.cell_x(i),
                    self.position.y as i32,
                    self.todo_bold,
                )
            } else {
                seq![]
            };
            here + self.row_ops_from(c, table, i + 1)
        }
    }

    /// The draw calls of a render pass, cells left to right.
    pub open spec fn row_ops(self, c: Canvas, table: Seq<Glyph>) -> Seq<DrawOp> {
        self.row_ops_from(c, table, 0)
    }

    /// The `done` cells after a render pass.
    pub open spec fn rendered_cells(self) -> Seq<Gph> {
        Seq::new(
            12,
            |i: int|
                if 0 <= i < self.size && self.cell_redrawn(i) {
                    self.applied_cells()[i]
                } else {
                    self.done@[i]
                },
        )
    }

    /// `r` is this box after a render pass.
    pub open spec fn render_result(self, r: InfoBox) -> bool {
        &&& r.todo@ == self.applied_cells()
        &&& r.done@ == self.rendered_cells()
        &&& r == (InfoBox {
            todo: r.todo,
            done: r.done,
            done_value: self.applied_value(),
            done_bold: self.todo_bold,
            ..self
        })
    }

    /// An empty box.
    pub fn new() -> (r: InfoBox)
        ensures
            r.is_cleared(),
            r.wf(),
    {
        InfoBox {
            size: 0,
            position: Point { x: 0, y: 0 },
            todo_value: 0,
            done_value: 0,
            value_position: 0,
            value_digits: 0,
            has_sign: false,
            positive_gph: Gph::NONE,
            zero_gph: Gph::NONE,
            negative_gph: Gph::NONE,
            todo_bold: false,
            done_bold: false,
            todo: [Gph::NONE; 12],
            done: [Gph::NONE; 12],
        }
    }

    /// Clears every field to its default.
    pub fn reset(&mut self)
        ensures
            final(self).is_cleared(),
            final(self).wf(),
    {
        *self = InfoBox::new();
    }

    /// The number to show.
    pub fn value(&self) -> (r: i32)
        ensures
            r == self.todo_value,
    {
        self.todo_value
    }

    /// Sets the number to show; the cells change at the next render pass.
    pub fn set_value(&mut self, value: i32)
        ensures
            *final(self) == (InfoBox { todo_value: value, ..*old(self) }),
    {
        self.todo_value = value;
    }

    /// Binds an unsigned, blank-padded number of `digits` cells starting at
    /// cell `position`.
    pub fn setup_value(&mut self, position: u8, digits: u8)
        requires
            position + digits <= 12,
            old(self).wf(),
        ensures
            *final(self) == (InfoBox {
                value_position: position,
                value_digits: digits,
                has_sign: false,
                positive_gph: Gph::NONE,
                zero_gph: Gph::NONE,
                negative_gph: Gph::NONE,
                todo_value: 0,
                done_value: 0,
                ..*old(self)
            }),
            final(self).wf(),
    {
        self.value_position = position;
        self.value_digits = digits;
        self.has_sign = false;
        self.positive_gph = Gph::NONE;
        self.zero_gph = Gph::NONE;
        self.negative_gph = Gph::NONE;
        self.todo_value = 0;
        self.done_value = 0;
    }

    /// Binds a signed number: a sign cell at `position`, chosen among the
    /// three glyphs by the sign of the value, then `digits` digit cells.
    pub fn setup_signed_value(
        &mut self,
        position: u8,
        digits: u8,
        positive: Gph,
        zero: Gph,
        negative: Gph,
    )
        requires
            position + 1 + digits <= 12,
            old(self).wf(),
        ensures
            *final(self) == (InfoBox {
                value_position: (position + 1) as u8,
                value_digits: digits,
                has_sign: true,
                positive_gph: positive,
                zero_gph: zero,
                negative_gph: negative,
                todo_value: 0,
                done_value: 0,
                ..*old(self)
            }),
            final(self).wf(),
    {
        self.value_position = position + 1;
        self.value_digits = digits;
        self.has_sign = true;
        self.positive_gph = positive;
        self.zero_gph = zero;
        self.negative_gph = negative;
        self.todo_value = 0;
        self.done_value = 0;
    }

    /// Writes `gphs` into the first cells to show.
    pub fn setup_glyphs(&mut self, gphs: &[Gph])
        requires
            gphs@.len() <= 12,
        ensures
            final(self).todo@ == gphs@ + old(self).todo@.skip(gphs@.len() as int),
            *final(self) == (InfoBox { todo: final(self).todo, ..*old(self) }),
    {
        let mut i: usize = 0;
        while i < gphs.len()
            invariant
                i <= gphs@.len() <= 12,
                *self == (InfoBox { todo: self.todo, ..*old(self) }),
                forall|k: int| 0 <= k < i ==> self.todo@[k] == gphs@[k],
                forall|k: int| i <= k < 12 ==> self.todo@[k] == old(self).todo@[k],
            decreases gphs@.len() - i,
        {
            self.todo[i] = gphs[i];
            i += 1;
        }
        assert(self.todo@ =~= gphs@ + old(self).todo@.skip(gphs@.len() as int));
    }

    /// The cells to show.
    pub fn todo_glyphs(&self) -> (r: [Gph; 12])
        ensures
            r@ == self.todo@,
    {
        self.todo
    }

    /// Writes the bound number into its cells, if it changed since it was
    /// last written.
    pub fn apply_value(&mut self)
        requires
            old(self).wf(),
        ensures
            final(self).todo@ == old(self).applied_cells(),
            *final(self) == (InfoBox {
                todo: final(self).todo,
                done_value: old(self).applied_value(),
                ..*old(self)
            }),
            final(self).wf(),
    {
        if self.value_digits == 0 || self.todo_value == self.done_value {
            return;
        }
        let ghost a = magnitude(self.todo_value);
        let vp = self.value_position;
        let digits = self.value_digits;
        let mut current: i64 = if self.todo_value < 0 {
            -(self.todo_value as i64)
        } else {
            self.todo_value as i64
        };
        let mut d: u8 = 0;
        while d < digits
            invariant
                self.wf(),
                old(self).wf(),
                old(self).needs_apply(),
                vp == old(self).value_position,
                digits == old(self).value_digits,
                a == magnitude(old(self).todo_value),
                d <= digits,
                a >= 0,
                current >= 0,
                current == shifted(a, d as nat),
                *self == (InfoBox { todo: self.todo, ..*old(self) }),
                forall|k: int|
                    vp + digits - d <= k < vp + digits ==> self.todo@[k] == old(self).value_cell(k),
                forall|k: int|
                    0 <= k < 12 && !(vp + digits - d <= k < vp + digits) ==> self.todo@[k]
                        == old(self).todo@[k],
            decreases digits - d,
        {
            let pos = vp + digits - (d + 1);
            let mut gph = Gph::digit((current % 10) as i32);
            if gph == Gph::V0 && current == 0 && d > 0 {
                gph = Gph::Space;
            }
            assert(old(self).value_cell(pos as int) == digit_cell(a, d as nat));
            self.todo[pos as usize] = gph;
            assert(shifted(a, (d + 1) as nat) == shifted(a, d as nat) / 10);
            current = current / 10;
            d += 1;
        }
        if self.has_sign {
            let sign = if self.todo_value > 0 {
                self.positive_gph
            } else if self.todo_value < 0 {
                self.negative_gph
            } else {
                self.zero_gph
            };
            self.todo[(vp - 1) as usize] = sign;
        }
        self.done_value = self.todo_value;
        assert(self.todo@ =~= old(self).applied_cells());
    }

    /// A render pass over this row: writes the number into its cells, then
    /// draws each cell whose glyph or bold state changed since it was last
    /// drawn, and records what was drawn.
    pub fn render(&mut self, c: &Canvas, table: &[Glyph; 57], ops: &mut Vec<DrawOp>)
        requires
            old(self).wf(),
        ensures
            old(self).render_result(*final(self)),
            final(ops)@ == old(ops)@ + old(self).row_ops(*c, table@),
            final(self).wf(),
    {
        let ghost b0 = *old(self);
        self.apply_value();
        let todo_bold = self.todo_bold;
        let done_bold = self.done_bold;
        let mut i: u8 = 0;
        while i < self.size
            invariant
                b0.wf(),
                self.wf(),
                i <= self.size,
                todo_bold == b0.todo_bold,
                done_bold == b0.done_bold,
                self.todo@ == b0.applied_cells(),
                *self == (InfoBox { todo: self.todo, done: self.done, done_value: b0.applied_value(), ..b0 }),
                forall|k: int|
                    0 <= k < i ==> #[trigger] self.done@[k] == if b0.cell_redrawn(k) {
                        b0.applied_cells()[k]
                    } else {
                        b0.done@[k]
                    },
                forall|k: int| i <= k < 12 ==> #[trigger] self.done@[k] == b0.done@[k],
                ops@ + b0.row_ops_from(*c, table@, i as int) == old(ops)@ + b0.row_ops(*c, table@),
            decreases self.size - i,
        {
            let wanted = self.todo[i as usize];
            let drawn = self.done[i as usize];
            let ghost before = ops@;
            let ghost rest = b0.row_ops_from(*c, table@, i + 1);
            assert(b0.cell_redrawn(i as int) == (wanted != Gph::NONE && (drawn != wanted
                || done_bold != todo_bold)));
            if wanted != Gph::NONE && (drawn != wanted || done_bold != todo_bold) {
                let x = (self.position.x as i32) + (i as i32 * GLYPH_WIDTH);
                let y = self.position.y as i32;
                draw_glyph(c, table, wanted, x, y, todo_bold, ops);
                self.done[i as usize] = wanted;
                assert(before + (glyph_ops(*c, table@, wanted, x, y, todo_bold) + rest) =~= ops@ + rest);
            } else {
                assert(before + (Seq::<DrawOp>::empty() + rest) =~= ops@ + rest);
            }
            i += 1;
        }
        self.done_bold = todo_bold;
        assert(self.done@ =~= b0.rendered_cells());
        assert(ops@ + Seq::<DrawOp>::empty() =~= ops@);
    }
}

/// A row none of whose cells from `i` on is redrawn emits nothing from there.
proof fn lemma_quiet_row(b: InfoBox, c: Canvas, table: Seq<Glyph>, i: int)
    requires
        0 <= i,
        forall|j: int| i <= j < b.size ==> !b.cell_redrawn(j),
    ensures
        b.row_ops_from(c, table, i) == Seq::<DrawOp>::empty(),
    decreases b.size - i,
{
    if i < b.size {
        lemma_quiet_row(b, c, table, i + 1);
        assert(b.row_ops_from(c, table, i) =~= Seq::<DrawOp>::empty() + Seq::<DrawOp>::empty());
    }
}

/// Rendering a row that was just rendered, with its cells, number and bold
/// state unchanged, draws nothing and changes nothing.
pub proof fn lemma_rerender_draws_nothing(b: InfoBox, r: InfoBox, c: Canvas, table: Seq<Glyph>)
    requires
        b.wf(),
        b.render_result(r),
    ensures
        r.row_ops(c, table) == Seq::<DrawOp>::empty(),
        r.render_result(r),
{
    assert(!r.needs_apply());
    assert forall|j: int| 0 <= j < r.size implies !r.cell_redrawn(j) by {
        if b.cell_redrawn(j) {
            assert(r.done@[j] == r.todo@[j]);
        }
    }
    lemma_quiet_row(r, c, table, 0);
    assert(r.rendered_cells() =~= r.done@);
}

/// Turning bold on or off on a row that was just rendered, with its cells
/// and number unchanged, makes the next render pass draw every non-empty
/// cell of the row and no other.
pub proof fn lemma_bold_toggle_redraws_row(b: InfoBox, r: InfoBox, c: Canvas, table: Seq<Glyph>)
    requires
        b.wf(),
        b.render_result(r),
    ensures
        ({
            let t = InfoBox { todo_bold: !r.todo_bold, ..r };
            &&& t.applied_cells() == t.todo@
            &&& forall|j: int|
                0 <= j < t.size ==> (#[trigger] t.cell_redrawn(j) <==> t.todo@[j] != Gph::NONE)
        }),
{
    let t = InfoBox { todo_bold: !r.todo_bold, ..r };
    assert(!t.needs_apply());
}

} // verus!
