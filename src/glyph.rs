use vstd::prelude::*;
use vstd::string::*;
use crate::canvas::Canvas;
use crate::draw::{Color, DrawOp};
use crate::point::{Point, last_point, none_point, wrap8};

verus! {

/// Identifier of a glyph of the font. `LAST` counts the drawable glyphs;
/// `NONE` marks an empty cell.
#[derive(Clone, Copy, PartialEq, Eq, Structural, Debug)]
pub enum Gph {
    V0,
    V1,
    V2,
    V3,
    V4,
    V5,
    V6,
    V7,
    V8,
    V9,
    A,
    B,
    C,
    D,
    E,
    F,
    G,
    H,
    I,
    J,
    K,
    L,
    M,
    N,
    O,
    P,
    Q,
    R,
    S,
    T,
    U,
    V,
    W,
    X,
    Y,
    Z,
    Up,
    Right,
    Down,
    Left,
    TurnRight,
    TurnLeft,
    UpDown,
    LeftRight,
    TurnLeftRight,
    Lt,
    Gt,
    Plus,
    Minus,
    Milli,
    Wait,
    StrategyForward,
    StrategyTurnLeft,
    StrategyTurnRight,
    StrategyTurnBackLeft,
    StrategyTurnBackRight,
    Space,
    LAST,
    NONE,
}

/// Position of a glyph identifier in the glyph table.
pub open spec fn gph_index(g: Gph) -> nat {
    match g {
        Gph::V0 => 0,
        Gph::V1 => 1,
        Gph::V2 => 2,
        Gph::V3 => 3,
        Gph::V4 => 4,
        Gph::V5 => 5,
        Gph::V6 => 6,
        Gph::V7 => 7,
        Gph::V8 => 8,
        Gph::V9 => 9,
        Gph::A => 10,
        Gph::B => 11,
        Gph::C => 12,
        Gph::D => 13,
        Gph::E => 14,
        Gph::F => 15,
        Gph::G => 16,
        Gph::H => 17,
        Gph::I => 18,
        Gph::J => 19,
        Gph::K => 20,
        Gph::L => 21,
        Gph::M => 22,
        Gph::N => 23,
        Gph::O => 24,
        Gph::P => 25,
        Gph::Q => 26,
        Gph::R => 27,
        Gph::S => 28,
        Gph::T => 29,
        Gph::U => 30,
        Gph::V => 31,
        Gph::W => 32,
        Gph::X => 33,
        Gph::Y => 34,
        Gph::Z => 35,
        Gph::Up => 36,
        Gph::Right => 37,
        Gph::Down => 38,
        Gph::Left => 39,
        Gph::TurnRight => 40,
        Gph::TurnLeft => 41,
        Gph::UpDown => 42,
        Gph::LeftRight => 43,
        Gph::TurnLeftRight => 44,
        Gph::Lt => 45,
        Gph::Gt => 46,
        Gph::Plus => 47,
        Gph::Minus => 48,
        Gph::Milli => 49,
        Gph::Wait => 50,
        Gph::StrategyForward => 51,
        Gph::StrategyTurnLeft => 52,
        Gph::StrategyTurnRight => 53,
        Gph::StrategyTurnBackLeft => 54,
        Gph::StrategyTurnBackRight => 55,
        Gph::Space => 56,
        Gph::LAST => 57,
        Gph::NONE => 255,
    }
}

/// Number of drawable glyphs: the table's length.
pub const GLYPH_COUNT: usize = 57;

pub open spec fn digit_gph(d: int) -> Gph {
    if d == 0 {
        Gph::V0
    } else if d == 1 {
        Gph::V1
    } else if d == 2 {
        Gph::V2
    } else if d == 3 {
        Gph::V3
    } else if d == 4 {
        Gph::V4
    } else if d == 5 {
        Gph::V5
    } else if d == 6 {
        Gph::V6
    } else if d == 7 {
        Gph::V7
    } else if d == 8 {
        Gph::V8
    } else if d == 9 {
        Gph::V9
    } else {
        Gph::NONE
    }
}

impl Gph {
    /// Position of this identifier in the glyph table.
    pub fn index(self) -> (r: u8)
        ensures
            r == gph_index(self),
    {
        match self {
            Gph::V0 => 0,
            Gph::V1 => 1,
            Gph::V2 => 2,
            Gph::V3 => 3,
            Gph::V4 => 4,
            Gph::V5 => 5,
            Gph::V6 => 6,
            Gph::V7 => 7,
            Gph::V8 => 8,
            Gph::V9 => 9,
            Gph::A => 10,
            Gph::B => 11,
            Gph::C => 12,
            Gph::D => 13,
            Gph::E => 14,
            Gph::F => 15,
            Gph::G => 16,
            Gph::H => 17,
            Gph::I => 18,
            Gph::J => 19,
            Gph::K => 20,
            Gph::L => 21,
            Gph::M => 22,
            Gph::N => 23,
            Gph::O => 24,
            Gph::P => 25,
            Gph::Q => 26,
            Gph::R => 27,
            Gph::S => 28,
            Gph::T => 29,
            Gph::U => 30,
            Gph::V => 31,
            Gph::W => 32,
            Gph::X => 33,
            Gph::Y => 34,
            Gph::Z => 35,
            Gph::Up => 36,
            Gph::Right => 37,
            Gph::Down => 38,
            Gph::Left => 39,
            Gph::TurnRight => 40,
            Gph::TurnLeft => 41,
            Gph::UpDown => 42,
            Gph::LeftRight => 43,
            Gph::TurnLeftRight => 44,
            Gph::Lt => 45,
            Gph::Gt => 46,
            Gph::Plus => 47,
            Gph::Minus => 48,
            Gph::Milli => 49,
            Gph::Wait => 50,
            Gph::StrategyForward => 51,
            Gph::StrategyTurnLeft => 52,
            Gph::StrategyTurnRight => 53,
            Gph::StrategyTurnBackLeft => 54,
            Gph::StrategyTurnBackRight => 55,
            Gph::Space => 56,
            Gph::LAST => 57,
            Gph::NONE => 255,
        }
    }

    /// The glyph of a decimal digit, `NONE` for anything else.
    pub fn digit(value: i32) -> (r: Gph)
        ensures
            r == digit_gph(value as int),
    {
        match value {
            0 => Gph::V0,
            1 => Gph::V1,
            2 => Gph::V2,
            3 => Gph::V3,
            4 => Gph::V4,
            5 => Gph::V5,
            6 => Gph::V6,
            7 => Gph::V7,
            8 => Gph::V8,
            9 => Gph::V9,
            _ => Gph::NONE,
        }
    }
}

/// Capacity of a glyph's point list.
pub const MAX_GLYPH_POINTS: usize = 32;

pub const GLYPH_WIDTH: i32 = 13;

pub const GLYPH_WIDTH_WIDE: i32 = 23;

pub const GLYPH_HEIGHT: i32 = 23;

/// One point of the font encoding: an x letter from `'a'` and a y letter
/// from `'A'`. A `'-'` in either place is a pen-up break; a coordinate
/// outside `0..32` ends the shape.
pub open spec fn decode_pair(xc: u8, yc: u8) -> Point {
    if xc == 45 || yc == 45 {
        none_point()
    } else if 97 <= xc < 97 + 32 && 65 <= yc < 65 + 32 {
        Point { x: (xc - 97) as u8, y: (yc - 65) as u8 }
    } else {
        last_point()
    }
}

/// How many points a source string yields before the list is full.
pub open spec fn decoded_count(s: Seq<u8>) -> int {
    if s.len() / 2 < 32 {
        (s.len() / 2) as int
    } else {
        32
    }
}

/// The point list of a source string: its decoded points, then `LAST` in
/// the next free slot if there is one; unused slots hold `NONE`.
pub open spec fn decode_points(s: Seq<u8>) -> Seq<Point> {
    Seq::new(
        32,
        |k: int|
            if k < decoded_count(s) {
                decode_pair(s[2 * k], s[2 * k + 1])
            } else if k == decoded_count(s) {
                last_point()
            } else {
                none_point()
            },
    )
}

/// Decoding depends on the source string alone: equal strings give equal
/// point lists.
pub proof fn lemma_decode_deterministic(a: Seq<u8>, b: Seq<u8>)
    requires
        a == b,
    ensures
        decode_points(a) == decode_points(b),
{
}

fn decode_byte_pair(xc: u8, yc: u8) -> (r: Point)
    ensures
        r == decode_pair(xc, yc),
{
    if xc == 45 || yc == 45 {
        Point::none()
    } else if 97 <= xc && xc < 97 + 32 && 65 <= yc && yc < 65 + 32 {
        Point { x: xc - 97, y: yc - 65 }
    } else {
        Point::last()
    }
}

/// An immutable vector shape of the font.
#[derive(Clone, Copy)]
pub struct Glyph {
    pub id: Gph,
    /// A wide glyph takes a cell of `GLYPH_WIDTH_WIDE` pixels.
    pub wide: bool,
    pub points: [Point; 32],
}

impl Glyph {
    /// Decodes `shape`, read two characters at a time.
    pub fn new(id: Gph, wide: bool, shape: &str) -> (r: Glyph)
        ensures
            r.id == id,
            r.wide == wide,
            r.points@ == decode_points(shape.spec_bytes()),
    {
        let bytes = shape.as_bytes();
        let mut points: [Point; 32] = [Point::none(); 32];
        let n: usize = if bytes.len() / 2 < MAX_GLYPH_POINTS {
            bytes.len() / 2
        } else {
            MAX_GLYPH_POINTS
        };
        let mut step: usize = 0;
        while step < n
            invariant
                n == decoded_count(bytes@),
                bytes@ == shape.spec_bytes(),
                step <= n,
                forall|k: int| 0 <= k < step ==> points@[k] == decode_points(bytes@)[k],
                forall|k: int| step <= k < 32 ==> points@[k] == none_point(),
            decreases n - step,
        {
            points[step] = decode_byte_pair(bytes[2 * step], bytes[2 * step + 1]);
            step += 1;
        }
        if step < MAX_GLYPH_POINTS {
            points[step] = Point::last();
        }
        assert(points@ =~= decode_points(bytes@));
        Glyph { id, wide, points }
    }
}

/// The lines of a glyph's strokes from slot `i` on, each point moved by
/// `base`; `cur` is the pen-down point that the next point connects to.
pub open spec fn stroke_ops(
    c: Canvas,
    pts: Seq<Point>,
    i: int,
    cur: Option<Point>,
    base: Point,
    bold: bool,
) -> Seq<DrawOp>
    decreases pts.len() - i,
{
    if i < 0 || i >= pts.len() || pts[i] == last_point() {
        seq![]
    } else if pts[i] == none_point() {
        stroke_ops(c, pts, i + 1, None, base, bold)
    } else {
        let next = base.plus_spec(pts[i]);
        let here = match cur {
            Some(p) => c.line_in_info_ops(p, next, bold),
            None => seq![],
        };
        here + stroke_ops(c, pts, i + 1, Some(next), base, bold)
    }
}

impl Glyph {
    pub open spec fn cell_width(self) -> i32 {
        if self.wide {
            GLYPH_WIDTH_WIDE
        } else {
            GLYPH_WIDTH
        }
    }

    /// What drawing the glyph at `(x, y)` emits: the clearing of its cell,
    /// then its strokes inside a one-pixel border.
    pub open spec fn draw_ops(self, c: Canvas, x: i32, y: i32, bold: bool) -> Seq<DrawOp> {
        let origin = Point { x: wrap8(x as int), y: wrap8(y as int) };
        seq![c.box_in_info_op(origin.x as i32, origin.y as i32, self.cell_width(), GLYPH_HEIGHT, Color::White)]
            + stroke_ops(c, self.points@, 0, None, origin.mov_spec(1, 1), bold)
    }

    /// Appends the draw calls of this glyph at info-area position `(x, y)`.
    pub fn draw(&self, c: &Canvas, x: i32, y: i32, bold: bool, ops: &mut Vec<DrawOp>)
        ensures
            final(ops)@ == old(ops)@ + self.draw_ops(*c, x, y, bold),
    {
        let origin = Point::new(x, y);
        let width = if self.wide {
            GLYPH_WIDTH_WIDE
        } else {
            GLYPH_WIDTH
        };
        ops.push(c.box_in_info(origin.x as i32, origin.y as i32, width, GLYPH_HEIGHT, Color::White));
        let base = origin.mov(1, 1);
        let ghost pts = self.points@;
        let ghost target = old(ops)@ + self.draw_ops(*c, x, y, bold);
        let mut current: Option<Point> = None;
        let mut i: usize = 0;
        assert(ops@ + stroke_ops(*c, pts, 0, None, base, bold) =~= target);
        while i < MAX_GLYPH_POINTS
            invariant
                i <= 32,
                pts == self.points@,
                pts.len() == 32,
                target == old(ops)@ + self.draw_ops(*c, x, y, bold),
                ops@ + stroke_ops(*c, pts, i as int, current, base, bold) == target,
            decreases 32 - i,
        {
            let p = self.points[i];
            if p == Point::last() {
                assert(stroke_ops(*c, pts, i as int, current, base, bold) == Seq::<DrawOp>::empty());
                assert(ops@ + Seq::<DrawOp>::empty() =~= ops@);
                return;
            } else if p == Point::none() {
                current = None;
            } else {
                let next = base.plus(p);
                let ghost before = ops@;
                if let Some(cp) = current {
                    c.line_in_info(cp, next, bold, ops);
                    assert(before + (c.line_in_info_ops(cp, next, bold) + stroke_ops(*c, pts, i + 1, Some(next), base, bold))
                        =~= ops@ + stroke_ops(*c, pts, i + 1, Some(next), base, bold));
                } else {
                    assert(seq![] + stroke_ops(*c, pts, i + 1, Some(next), base, bold)
                        =~= stroke_ops(*c, pts, i + 1, Some(next), base, bold));
                }
                current = Some(next);
            }
            i += 1;
        }
        assert(ops@ + seq![] =~= ops@);
    }
}

/// The table holds each drawable glyph at the position of its identifier.
pub open spec fn glyph_table_wf(table: Seq<Glyph>) -> bool {
    table.len() == GLYPH_COUNT && forall|i: int|
        0 <= i < GLYPH_COUNT ==> gph_index(#[trigger] table[i].id) == i
}

/// What drawing glyph `g` from `table` emits; identifiers from `LAST` on
/// draw nothing.
pub open spec fn glyph_ops(c: Canvas, table: Seq<Glyph>, g: Gph, x: i32, y: i32, bold: bool) -> Seq<
    DrawOp,
> {
    if gph_index(g) < GLYPH_COUNT {
        table[gph_index(g) as int].draw_ops(c, x, y, bold)
    } else {
        seq![]
    }
}

/// Appends the draw calls of glyph `g` of `table` at info-area position
/// `(x, y)`.
pub fn draw_glyph(
    c: &Canvas,
    table: &[Glyph; 57],
    g: Gph,
    x: i32,
    y: i32,
    bold: bool,
    ops: &mut Vec<DrawOp>,
)
    ensures
        final(ops)@ == old(ops)@ + glyph_ops(*c, table@, g, x, y, bold),
        gph_index(g) >= GLYPH_COUNT ==> final(ops)@ == old(ops)@,
{
    let idx = g.index();
    if idx as usize >= GLYPH_COUNT {
        assert(old(ops)@ + Seq::<DrawOp>::empty() =~= old(ops)@);
        return;
    }
    table[idx as usize].draw(c, x, y, bold, ops);
}

} // verus!
