use vstd::prelude::*;
use vstd::wrapping::i32_specs;
use crate::canvas::{Canvas, ScreenOrientation};
use crate::draw::{Color, DrawOp};
use crate::glyph::{Gph, Glyph, draw_glyph, glyph_ops, glyph_table_wf, GLYPH_HEIGHT, GLYPH_WIDTH};
use crate::info_box::{InfoBox, lemma_rerender_draws_nothing};
use crate::point::{Point, wrap8, wrap_i128_to_u8};
use crate::trig::{cos, cos_spec, sin, sin_spec, tdiv};

verus! {

/// Most InfoBoxes a screen holds.
pub const MAX_INFOS: usize = 10;

fn tdiv128(a: i128, b: i128) -> (r: i128)
    requires
        b > 0,
        -0x1_0000_0000_0000_0000 <= a <= 0x1_0000_0000_0000_0000,
    ensures
        r == tdiv(a as int, b as int),
        -0x1_0000_0000_0000_0000 <= r <= 0x1_0000_0000_0000_0000,
{
    if a >= 0 {
        a / b
    } else {
        -((-a) / b)
    }
}

/// An index outside the InfoBox array stands for the last slot.
pub open spec fn safe_index(index: usize) -> int {
    if index >= MAX_INFOS {
        MAX_INFOS - 1
    } else {
        index as int
    }
}

/// Where a span of `extent` pixels starts when centred in part `part`
/// (counted from 1) of `total` pixels split into `parts` equal parts.
pub open spec fn centred_in_part(total: int, parts: int, part: int, extent: int) -> int {
    let base = tdiv(total, parts);
    base * (part - 1) + tdiv(base, 2) - tdiv(extent, 2)
}

fn centred_in_part_exec(total: i32, parts: i32, part: i32, extent: i32) -> (r: u8)
    requires
        parts > 0,
    ensures
        r == wrap8(centred_in_part(total as int, parts as int, part as int, extent as int)),
{
    let base = tdiv128(total as i128, parts as i128);
    assert(-0x8000_0000 <= base <= 0x8000_0000) by {
        if total >= 0 {
            assert(base <= total) by (nonlinear_arith)
                requires
                    base == total as int / parts as int,
                    total >= 0,
                    parts >= 1,
            ;
        } else {
            assert(-base <= -total) by (nonlinear_arith)
                requires
                    -base == (-total) as int / parts as int,
                    -total >= 0,
                    parts >= 1,
            ;
        }
    }
    assert(-0x8000_0000_0000_0000 <= base * (part as int - 1) <= 0x8000_0000_0000_0000)
        by (nonlinear_arith)
        requires
            -0x8000_0000 <= base <= 0x8000_0000,
            -0x8000_0001 <= part as int - 1 <= 0x7fff_ffff,
    ;
    let offset = base * (part as i128 - 1);
    let v = offset + tdiv128(base, 2) - tdiv128(extent as i128, 2);
    wrap_i128_to_u8(v)
}

/// Where a graph arc's point at `angle` degrees and distance `length`
/// from `center` falls, on the 8-bit grid.
pub open spec fn move_pt(center: Point, length: int, angle: int) -> Point {
    Point {
        x: wrap8(center.x + tdiv(cos_spec(angle) * length, 1000)),
        y: wrap8(center.y + tdiv(sin_spec(angle) * length, 1000)),
    }
}

/// How many segments an arc of `arc` degrees is drawn with.
pub open spec fn arc_steps(arc: int) -> int {
    if arc > 0 {
        arc / 15 + 1
    } else if arc < 0 {
        (-arc) / 15 + 1
    } else {
        0
    }
}

/// The angle between two points of an arc, following the arc's direction.
pub open spec fn arc_step(arc: int) -> int {
    if arc > 0 {
        15
    } else if arc < 0 {
        -15
    } else {
        0
    }
}

/// The lines of an arc from segment `s` on; `from` is where the previous
/// segment ended.
pub open spec fn arc_ops_from(
    c: Canvas,
    center: Point,
    radius: int,
    start: int,
    step: int,
    s: int,
    steps: int,
    from: Point,
    bold: bool,
) -> Seq<DrawOp>
    decreases steps - s,
{
    if s < 0 || s >= steps {
        seq![]
    } else {
        let to = move_pt(center, radius, start + s * step);
        c.graph_line_ops(from.x as i32, from.y as i32, to.x as i32, to.y as i32, bold)
            + arc_ops_from(c, center, radius, start, step, s + 1, steps, to, bold)
    }
}

/// Each step of an arc is one graph line, drawn twice when bold.
proof fn lemma_arc_ops_len(
    c: Canvas,
    center: Point,
    radius: int,
    start: int,
    step: int,
    s: int,
    steps: int,
    from: Point,
    bold: bool,
)
    requires
        0 <= s <= steps,
    ensures
        arc_ops_from(c, center, radius, start, step, s, steps, from, bold).len() == (steps - s) * (
        if bold {
            2int
        } else {
            1int
        }),
    decreases steps - s,
{
    if s < steps {
        let to = move_pt(center, radius, start + s * step);
        lemma_arc_ops_len(c, center, radius, start, step, s + 1, steps, to, bold);
    }
}

fn move_point(from: Point, length: i32, angle: i32) -> (r: Point)
    requires
        angle + 90 <= i32::MAX,
    ensures
        r == move_pt(from, length as int, angle as int),
{
    let cv = cos(angle);
    let sv = sin(angle);
    assert(-0x400_0000_0000 <= cv * length <= 0x400_0000_0000) by (nonlinear_arith)
        requires
            -1000 <= cv <= 1000,
            -0x8000_0000 <= length <= 0x8000_0000,
    ;
    assert(-0x400_0000_0000 <= sv * length <= 0x400_0000_0000) by (nonlinear_arith)
        requires
            -1000 <= sv <= 1000,
            -0x8000_0000 <= length <= 0x8000_0000,
    ;
    let c = cv as i128 * length as i128;
    let s = sv as i128 * length as i128;
    let dx = tdiv128(c, 1000);
    let dy = tdiv128(s, 1000);
    Point {
        x: wrap_i128_to_u8(from.x as i128 + dx),
        y: wrap_i128_to_u8(from.y as i128 + dy),
    }
}

/// The draw calls of a render pass over boxes `k..n`.
pub open spec fn boxes_ops(c: Canvas, table: Seq<Glyph>, infos: Seq<InfoBox>, k: int, n: int) -> Seq<
    DrawOp,
>
    decreases n - k,
{
    if k < 0 || k >= n {
        seq![]
    } else {
        infos[k].row_ops(c, table) + boxes_ops(c, table, infos, k + 1, n)
    }
}

/// The panel: its orientation and layout, its InfoBoxes and the font.
pub struct Screen {
    pub canvas: Canvas,
    /// The next render pass starts by clearing the whole info area.
    pub must_refresh: bool,
    /// Logical width and height for the orientation.
    pub w: i32,
    pub h: i32,
    pub info_w: i32,
    pub info_h: i32,
    pub graph_ox: i32,
    pub graph_oy: i32,
    /// How many InfoBoxes are shown, from the first.
    pub info_count: i32,
    pub infos: [InfoBox; 10],
    pub glyphs: [Glyph; 57],
}

/// A glyph of the font; only its identifier matters to the table's layout.
fn font_glyph(id: Gph, wide: bool, shape: &str) -> (r: Glyph)
    ensures
        r.id == id,
{
    Glyph::new(id, wide, shape)
}

/// The font: every drawable glyph, at the position of its identifier.
#[verifier::rlimit(50)]
fn font() -> (r: [Glyph; 57])
    ensures
        glyph_table_wf(r@),
{
    let glyphs: [Glyph; 57] = [
        font_glyph(Gph::V0, false, "aDdAhAkDkRhUdUaRaD"),
        font_glyph(Gph::V1, false, "fAfU"),
        font_glyph(Gph::V2, false, "aDdAhAkDkHaUkU"),
        font_glyph(Gph::V3, false, "aDdAhAkDkHhKdK--hKkNkRhUdUaR"),
        font_glyph(Gph::V4, false, "kNaNhAhU"),
        font_glyph(Gph::V5, false, "kAaAaKhKkNkRhUdUaR"),
        font_glyph(Gph::V6, false, "hAdAaDaRdUhUkRkNhKdKaN"),
        font_glyph(Gph::V7, false, "aAkAkDaU"),
        font_glyph(Gph::V8, false, "dKaHaDdAhAkDkHhKdKaNaRdUhUkRkNhK"),
        font_glyph(Gph::V9, false, "dUhUkRkDhAdAaDaHdKhKkH"),
        font_glyph(Gph::A, false, "aUfAkU--dKhK"),
        font_glyph(Gph::B, false, "aAgAiCkEkGiIgK--aUgUiSkQkOiMgK--aAaU--aKgK"),
        font_glyph(Gph::C, false, "aEcCeAgAiCkE--aQcSeUgUiSkQ--aEaQ"),
        font_glyph(Gph::D, false, "aAgAiCkE--aUgUiSkQ--kEkQ--aAaU"),
        font_glyph(Gph::E, false, "aAkA--aUkU--aKkK--aAaU"),
        font_glyph(Gph::F, false, "aAkA--aKkK--aAaU"),
        font_glyph(Gph::G, false, "aEcCeAgAiCkE--aQcSeUgUiSkQ--aEaQ--kQkNhN"),
        font_glyph(Gph::H, false, "aAaU--kAkU--aKkK"),
        font_glyph(Gph::I, false, "fAfU--eAgA--eUgU"),
        font_glyph(Gph::J, false, "aQcSeUgUiSkQkA"),
        font_glyph(Gph::K, false, "aAaU--aKkA--aKkU"),
        font_glyph(Gph::L, false, "aAaUkU"),
        font_glyph(Gph::M, false, "aUaAfKkAkU"),
        font_glyph(Gph::N, false, "aUaAkUkA"),
        font_glyph(Gph::O, false, "aEcCeAgAiCkE--aQcSeUgUiSkQ--aEaQ--kEkQ"),
        font_glyph(Gph::P, false, "aAgAiCkEkGiIgK--aAaU--aKgK"),
        font_glyph(Gph::Q, false, "aEcCeAgAiCkE--aQcSeUgUiSkQ--aEaQ--kEkQ--kUhR"),
        font_glyph(Gph::R, false, "aAgAiCkEkGiIgK--aAaU--aKgKiMkOkU"),
        font_glyph(Gph::S, false, "aEcCeAgAiCkE--aQcSeUgUiSkQ--aEaGcIeKgKiMkOkQ"),
        font_glyph(Gph::T, false, "aAkA--fAfU"),
        font_glyph(Gph::U, false, "aAaQcSeUgUiSkQkA"),
        font_glyph(Gph::V, false, "aAfUkA"),
        font_glyph(Gph::W, false, "aAdUfKhUkA"),
        font_glyph(Gph::X, false, "aAkU--kAaU"),
        font_glyph(Gph::Y, false, "aAfKkA--fKfU"),
        font_glyph(Gph::Z, false, "aAkAaUkU"),
        font_glyph(Gph::Up, false, "fAfU--cDfAiD"),
        font_glyph(Gph::Right, false, "aKkK--hHkKhN"),
        font_glyph(Gph::Down, false, "fAfU--iRfUcR"),
        font_glyph(Gph::Left, false, "aKkK--dHaKdN"),
        font_glyph(Gph::TurnRight, false, "aNdKhKkN--gNkNkJ"),
        font_glyph(Gph::TurnLeft, false, "aNdKhKkN--eNaNaJ"),
        font_glyph(Gph::UpDown, false, "fAfU--cDfAiD--iRfUcR"),
        font_glyph(Gph::LeftRight, false, "aKkK--dHaKdN--hHkKhN"),
        font_glyph(Gph::TurnLeftRight, false, "aNdKhKkN--gNkNkJ--eNaNaJ"),
        font_glyph(Gph::Lt, false, "kAaKkU"),
        font_glyph(Gph::Gt, false, "aAkKaU"),
        font_glyph(Gph::Plus, false, "aKkK--fFfP"),
        font_glyph(Gph::Minus, false, "aKkK"),
        font_glyph(Gph::Milli, false, "aUaK--fUfM--kUkM--aMdKfMiKkM"),
        font_glyph(Gph::Wait, false, "cEaCaAkAkCiE--cQaSaUkUkSiQ--cEiQ--cQiE--cEiE--cQiQ--aSkS"),
        font_glyph(Gph::StrategyForward, true, "aKkAuK--aUkKuU--kAkU"),
        font_glyph(Gph::StrategyTurnLeft, true, "uUuRrNkKaK--kAaKkU"),
        font_glyph(Gph::StrategyTurnRight, true, "aUaRdNkKuK--kAuKkU"),
        font_glyph(Gph::StrategyTurnBackLeft, true, "uAuDrHkKaK--kAaKkU"),
        font_glyph(Gph::StrategyTurnBackRight, true, "aAaDdHkKuK--kAuKkU"),
        font_glyph(Gph::Space, false, ""),
    ];
    glyphs
}

impl Screen {
    pub open spec fn wf(self) -> bool {
        &&& 0 <= self.info_count <= MAX_INFOS
        &&& forall|i: int| 0 <= i < MAX_INFOS ==> (#[trigger] self.infos@[i]).wf()
        &&& glyph_table_wf(self.glyphs@)
    }

    pub open spec fn all_boxes_cleared(self) -> bool {
        forall|i: int| 0 <= i < MAX_INFOS ==> (#[trigger] self.infos@[i]).is_cleared()
    }

    /// `r` is this screen after a render pass: each shown InfoBox rendered,
    /// the others untouched, and no refresh pending.
    pub open spec fn render_result(self, r: Screen) -> bool {
        &&& forall|i: int|
            0 <= i < self.info_count ==> self.infos@[i].render_result(#[trigger] r.infos@[i])
        &&& forall|i: int| self.info_count <= i < MAX_INFOS ==> #[trigger] r.infos@[i] == self.infos@[i]
        &&& r == (Screen { infos: r.infos, must_refresh: false, ..self })
    }

    /// What a render pass emits.
    pub open spec fn render_ops(self) -> Seq<DrawOp> {
        let clear = if self.must_refresh {
            seq![self.canvas.box_in_info_op(0, 0, self.info_w, self.info_h, Color::White)]
        } else {
            seq![]
        };
        clear + boxes_ops(self.canvas, self.glyphs@, self.infos@, 0, self.info_count as int)
    }

    /// A screen facing up on a panel of the given native size, with no
    /// layout yet. Each glyph of the font stands at the position of its
    /// identifier, which is proved here rather than checked at run time.
    pub fn new(panel_w: i32, panel_h: i32) -> (r: Screen)
        ensures
            r.wf(),
            r.canvas == (Canvas {
                or: ScreenOrientation::Up,
                panel_w,
                panel_h,
                info_x: 0,
                info_y: 0,
                graph_x: 0,
                graph_y: 0,
            }),
            r.must_refresh,
            r.w == 0 && r.h == 0 && r.info_w == 0 && r.info_h == 0,
            r.graph_ox == 0 && r.graph_oy == 0,
            r.info_count == 0,
            r.all_boxes_cleared(),
    {
        let glyphs = font();
        assert(glyph_table_wf(glyphs@));
        let b = InfoBox::new();
        Screen {
            canvas: Canvas {
                or: ScreenOrientation::Up,
                panel_w,
                panel_h,
                info_x: 0,
                info_y: 0,
                graph_x: 0,
                graph_y: 0,
            },
            must_refresh: true,
            w: 0,
            h: 0,
            info_w: 0,
            info_h: 0,
            graph_ox: 0,
            graph_oy: 0,
            info_count: 0,
            infos: [b; 10],
            glyphs,
        }
    }
}

impl Screen {
    /// The lines of a graph arc.
    pub open spec fn arc_ops(
        self,
        center_x: i32,
        center_y: i32,
        start_angle: i32,
        arc_angle: i32,
        radius: i32,
        bold: bool,
    ) -> Seq<DrawOp> {
        let center = Point { x: wrap8(center_x as int), y: wrap8(center_y as int) };
        arc_ops_from(
            self.canvas,
            center,
            radius as int,
            start_angle as int,
            arc_step(arc_angle as int),
            0,
            arc_steps(arc_angle as int),
            move_pt(center, radius as int, start_angle as int),
            bold,
        )
    }

    pub fn orientation(&self) -> (r: ScreenOrientation)
        ensures
            r == self.canvas.or,
    {
        self.canvas.or
    }

    /// Mounts the screen in orientation `or`: the logical size follows the
    /// mounting, and all layout and InfoBoxes are cleared.
    pub fn setup(&mut self, or: ScreenOrientation)
        requires
            old(self).wf(),
        ensures
            final(self).wf(),
            final(self).canvas == (Canvas {
                or,
                info_x: 0,
                info_y: 0,
                graph_x: 0,
                graph_y: 0,
                ..old(self).canvas
            }),
            final(self).must_refresh,
            (or == ScreenOrientation::Up || or == ScreenOrientation::Down) ==> final(self).w
                == old(self).canvas.panel_w && final(self).h == old(self).canvas.panel_h,
            (or == ScreenOrientation::Left || or == ScreenOrientation::Right) ==> final(self).w
                == old(self).canvas.panel_h && final(self).h == old(self).canvas.panel_w,
            final(self).info_w == 0 && final(self).info_h == 0,
            final(self).graph_ox == 0 && final(self).graph_oy == 0,
            final(self).info_count == 0,
            final(self).all_boxes_cleared(),
            final(self).glyphs == old(self).glyphs,
    {
        self.canvas.or = or;
        self.must_refresh = true;
        match or {
            ScreenOrientation::Up | ScreenOrientation::Down => {
                self.w = self.canvas.panel_w;
                self.h = self.canvas.panel_h;
            },
            ScreenOrientation::Left | ScreenOrientation::Right => {
                self.w = self.canvas.panel_h;
                self.h = self.canvas.panel_w;
            },
        }
        self.canvas.info_x = 0;
        self.canvas.info_y = 0;
        self.info_w = 0;
        self.info_h = 0;
        self.canvas.graph_x = 0;
        self.canvas.graph_y = 0;
        self.graph_ox = 0;
        self.graph_oy = 0;
        self.info_count = 0;
        let b = InfoBox::new();
        self.infos = [b; 10];
    }

    /// Places the info area.
    pub fn setup_info_area(&mut self, x: i32, y: i32, w: i32, h: i32)
        ensures
            *final(self) == (Screen {
                canvas: Canvas { info_x: x, info_y: y, ..old(self).canvas },
                info_w: w,
                info_h: h,
                must_refresh: true,
                ..*old(self)
            }),
    {
        self.must_refresh = true;
        self.canvas.info_x = x;
        self.canvas.info_y = y;
        self.info_w = w;
        self.info_h = h;
    }

    /// Gives the whole screen to the info area and puts the graph origin at
    /// the screen's origin.
    pub fn setup_info_area_full(&mut self)
        ensures
            *final(self) == (Screen {
                canvas: Canvas {
                    info_x: 0,
                    info_y: 0,
                    graph_x: 0,
                    graph_y: 0,
                    ..old(self).canvas
                },
                info_w: old(self).w,
                info_h: old(self).h,
                graph_ox: 0,
                graph_oy: 0,
                must_refresh: true,
                ..*old(self)
            }),
    {
        self.must_refresh = true;
        self.canvas.info_x = 0;
        self.canvas.info_y = 0;
        self.info_w = self.w;
        self.info_h = self.h;
        self.canvas.graph_x = 0;
        self.canvas.graph_y = 0;
        self.graph_ox = 0;
        self.graph_oy = 0;
    }

    pub fn info_x(&self) -> (r: i32)
        ensures
            r == self.canvas.info_x,
    {
        self.canvas.info_x
    }

    pub fn info_y(&self) -> (r: i32)
        ensures
            r == self.canvas.info_y,
    {
        self.canvas.info_y
    }

    pub fn info_w(&self) -> (r: i32)
        ensures
            r == self.info_w,
    {
        self.info_w
    }

    pub fn info_h(&self) -> (r: i32)
        ensures
            r == self.info_h,
    {
        self.info_h
    }

    /// Shows the first `count` InfoBoxes, `count` clamped to `0..=10`, all
    /// of them cleared.
    pub fn set_info_count(&mut self, count: i32)
        requires
            old(self).wf(),
        ensures
            final(self).wf(),
            final(self).info_count == if count < 0 {
                0
            } else if count > MAX_INFOS {
                MAX_INFOS as i32
            } else {
                count
            },
            final(self).all_boxes_cleared(),
            *final(self) == (Screen {
                info_count: final(self).info_count,
                infos: final(self).infos,
                must_refresh: true,
                ..*old(self)
            }),
    {
        self.must_refresh = true;
        if count < 0 {
            self.info_count = 0;
        } else if count > MAX_INFOS as i32 {
            self.info_count = MAX_INFOS as i32;
        } else {
            self.info_count = count;
        }
        let b = InfoBox::new();
        self.infos = [b; 10];
    }

    fn safe_info_index(&self, index: usize) -> (r: usize)
        ensures
            r == safe_index(index),
    {
        if index >= MAX_INFOS {
            MAX_INFOS - 1
        } else {
            index
        }
    }

    /// Clears one InfoBox.
    pub fn reset_info(&mut self, index: usize)
        requires
            old(self).wf(),
        ensures
            final(self).wf(),
            final(self).infos@[safe_index(index)].is_cleared(),
            final(self).infos@ == old(self).infos@.update(
                safe_index(index),
                final(self).infos@[safe_index(index)],
            ),
            *final(self) == (Screen { infos: final(self).infos, ..*old(self) }),
    {
        let index = self.safe_info_index(index);
        self.infos[index] = InfoBox::new();
    }

    /// Clears InfoBox `index` and centres it, `size` cells wide and one
    /// glyph tall, in cell (`row`, `column`), counted from 1, of a grid of
    /// `rows` by `columns` over the info area.
    pub fn setup_info(
        &mut self,
        index: usize,
        size: u8,
        row: i32,
        rows: i32,
        column: i32,
        columns: i32,
    )
        requires
            old(self).wf(),
            size <= 12,
            rows > 0,
            columns > 0,
        ensures
            final(self).wf(),
            ({
                let b = final(self).infos@[safe_index(index)];
                &&& b.is_cleared_but_layout()
                &&& b.size == size
                &&& b.position == Point {
                    x: wrap8(
                        centred_in_part(
                            old(self).info_w as int,
                            columns as int,
                            column as int,
                            size * GLYPH_WIDTH,
                        ),
                    ),
                    y: wrap8(
                        centred_in_part(
                            old(self).info_h as int,
                            rows as int,
                            row as int,
                            GLYPH_HEIGHT as int,
                        ),
                    ),
                }
            }),
            final(self).infos@ == old(self).infos@.update(
                safe_index(index),
                final(self).infos@[safe_index(index)],
            ),
            *final(self) == (Screen { infos: final(self).infos, ..*old(self) }),
    {
        let index = self.safe_info_index(index);
        let mut b = InfoBox::new();
        b.size = size;
        let x = centred_in_part_exec(self.info_w, columns, column, size as i32 * GLYPH_WIDTH);
        let y = centred_in_part_exec(self.info_h, rows, row, GLYPH_HEIGHT);
        b.position = Point { x, y };
        self.infos[index] = b;
    }

    /// The number shown by InfoBox `index`.
    pub fn info_value(&self, index: usize) -> (r: i32)
        ensures
            r == self.infos@[safe_index(index)].todo_value,
    {
        let index = self.safe_info_index(index);
        self.infos[index].value()
    }

    /// Sets the number shown by InfoBox `index`.
    pub fn set_info_value(&mut self, index: usize, value: i32)
        requires
            old(self).wf(),
        ensures
            final(self).wf(),
            final(self).infos@ == old(self).infos@.update(
                safe_index(index),
                InfoBox { todo_value: value, ..old(self).infos@[safe_index(index)] },
            ),
            *final(self) == (Screen { infos: final(self).infos, ..*old(self) }),
    {
        let index = self.safe_info_index(index);
        let mut b = self.infos[index];
        b.set_value(value);
        self.infos[index] = b;
    }

    /// Sets whether InfoBox `index` is drawn bold.
    pub fn set_info_bold(&mut self, index: usize, bold: bool)
        requires
            old(self).wf(),
        ensures
            final(self).wf(),
            final(self).infos@ == old(self).infos@.update(
                safe_index(index),
                InfoBox { todo_bold: bold, ..old(self).infos@[safe_index(index)] },
            ),
            *final(self) == (Screen { infos: final(self).infos, ..*old(self) }),
    {
        let index = self.safe_info_index(index);
        let mut b = self.infos[index];
        b.todo_bold = bold;
        self.infos[index] = b;
    }

    /// No InfoBox is drawn bold.
    pub fn deselect_infos(&mut self)
        requires
            old(self).wf(),
        ensures
            final(self).wf(),
            forall|i: int|
                0 <= i < MAX_INFOS ==> #[trigger] final(self).infos@[i] == (InfoBox {
                    todo_bold: false,
                    ..old(self).infos@[i]
                }),
            *final(self) == (Screen { infos: final(self).infos, ..*old(self) }),
    {
        let mut i: usize = 0;
        while i < MAX_INFOS
            invariant
                i <= MAX_INFOS,
                self.wf(),
                *self == (Screen { infos: self.infos, ..*old(self) }),
                forall|k: int|
                    0 <= k < i ==> #[trigger] self.infos@[k] == (InfoBox {
                        todo_bold: false,
                        ..old(self).infos@[k]
                    }),
                forall|k: int| i <= k < MAX_INFOS ==> #[trigger] self.infos@[k] == old(self).infos@[k],
            decreases MAX_INFOS - i,
        {
            let mut b = self.infos[i];
            b.todo_bold = false;
            self.infos[i] = b;
            i += 1;
        }
    }

    /// Draws InfoBox `index` bold and no other.
    pub fn select_info(&mut self, index: usize)
        requires
            old(self).wf(),
        ensures
            final(self).wf(),
            forall|i: int|
                0 <= i < MAX_INFOS ==> #[trigger] final(self).infos@[i] == (InfoBox {
                    todo_bold: i == safe_index(index),
                    ..old(self).infos@[i]
                }),
            *final(self) == (Screen { infos: final(self).infos, ..*old(self) }),
    {
        self.deselect_infos();
        self.set_info_bold(index, true);
    }

    /// Binds an unsigned number to InfoBox `index`.
    pub fn setup_info_value(&mut self, index: usize, position: u8, digits: u8)
        requires
            old(self).wf(),
            position + digits <= 12,
        ensures
            final(self).wf(),
            final(self).infos@ == old(self).infos@.update(
                safe_index(index),
                InfoBox {
                    value_position: position,
                    value_digits: digits,
                    has_sign: false,
                    positive_gph: Gph::NONE,
                    zero_gph: Gph::NONE,
                    negative_gph: Gph::NONE,
                    todo_value: 0,
                    done_value: 0,
                    ..old(self).infos@[safe_index(index)]
                },
            ),
            *final(self) == (Screen { infos: final(self).infos, ..*old(self) }),
    {
        let index = self.safe_info_index(index);
        let mut b = self.infos[index];
        b.setup_value(position, digits);
        self.infos[index] = b;
    }

    /// Binds a signed number to InfoBox `index`.
    pub fn setup_info_signed_value(
        &mut self,
        index: usize,
        position: u8,
        digits: u8,
        positive: Gph,
        zero: Gph,
        negative: Gph,
    )
        requires
            old(self).wf(),
            position + 1 + digits <= 12,
        ensures
            final(self).wf(),
            final(self).infos@ == old(self).infos@.update(
                safe_index(index),
                InfoBox {
                    value_position: (position + 1) as u8,
                    value_digits: digits,
                    has_sign: true,
                    positive_gph: positive,
                    zero_gph: zero,
                    negative_gph: negative,
                    todo_value: 0,
                    done_value: 0,
                    ..old(self).infos@[safe_index(index)]
                },
            ),
            *final(self) == (Screen { infos: final(self).infos, ..*old(self) }),
    {
        let index = self.safe_info_index(index);
        let mut b = self.infos[index];
        b.setup_signed_value(position, digits, positive, zero, negative);
        self.infos[index] = b;
    }

    /// Writes `gphs` into the first cells of InfoBox `index`.
    pub fn setup_info_glyphs(&mut self, index: usize, gphs: &[Gph])
        requires
            old(self).wf(),
            gphs@.len() <= 12,
        ensures
            final(self).wf(),
            final(self).infos@[safe_index(index)].todo@ == gphs@ + old(self).infos@[safe_index(
                index,
            )].todo@.skip(gphs@.len() as int),
            final(self).infos@[safe_index(index)] == (InfoBox {
                todo: final(self).infos@[safe_index(index)].todo,
                ..old(self).infos@[safe_index(index)]
            }),
            final(self).infos@ == old(self).infos@.update(
                safe_index(index),
                final(self).infos@[safe_index(index)],
            ),
            *final(self) == (Screen { infos: final(self).infos, ..*old(self) }),
    {
        let index = self.safe_info_index(index);
        let mut b = self.infos[index];
        b.setup_glyphs(gphs);
        self.infos[index] = b;
    }

    /// A render pass over InfoBox `index`.
    fn render_info_box(&mut self, index: usize, ops: &mut Vec<DrawOp>)
        requires
            old(self).wf(),
        ensures
            final(self).wf(),
            old(self).infos@[safe_index(index)].render_result(final(self).infos@[safe_index(index)]),
            final(self).infos@ == old(self).infos@.update(
                safe_index(index),
                final(self).infos@[safe_index(index)],
            ),
            *final(self) == (Screen { infos: final(self).infos, ..*old(self) }),
            final(ops)@ == old(ops)@ + old(self).infos@[safe_index(index)].row_ops(
                old(self).canvas,
                old(self).glyphs@,
            ),
    {
        let index = self.safe_info_index(index);
        let mut b = self.infos[index];
        b.render(&self.canvas, &self.glyphs, ops);
        self.infos[index] = b;
    }

    /// The render pass: clears the info area if the layout changed, then
    /// redraws the changed cells of each shown InfoBox in order.
    pub fn render_info(&mut self, ops: &mut Vec<DrawOp>)
        requires
            old(self).wf(),
        ensures
            final(self).wf(),
            final(ops)@ == old(ops)@ + old(self).render_ops(),
            old(self).render_result(*final(self)),
    {
        let ghost s0 = *old(self);
        if self.must_refresh {
            let op = self.canvas.box_in_info(0, 0, self.info_w, self.info_h, Color::White);
            ops.push(op);
            self.must_refresh = false;
        }
        let ghost start = ops@;
        assert(start == old(ops)@ + (if s0.must_refresh {
            seq![s0.canvas.box_in_info_op(0, 0, s0.info_w, s0.info_h, Color::White)]
        } else {
            seq![]
        })) by {
            if !s0.must_refresh {
                assert(old(ops)@ + Seq::<DrawOp>::empty() =~= old(ops)@);
            }
        }
        let count = self.info_count;
        let mut index: i32 = 0;
        while index < count
            invariant
                s0 == *old(self),
                s0.wf(),
                self.wf(),
                count == s0.info_count,
                0 <= index <= count,
                *self == (Screen { infos: self.infos, must_refresh: false, ..s0 }),
                forall|i: int|
                    0 <= i < index ==> s0.infos@[i].render_result(#[trigger] self.infos@[i]),
                forall|i: int| index <= i < MAX_INFOS ==> #[trigger] self.infos@[i] == s0.infos@[i],
                ops@ + boxes_ops(s0.canvas, s0.glyphs@, s0.infos@, index as int, count as int)
                    == start + boxes_ops(s0.canvas, s0.glyphs@, s0.infos@, 0, count as int),
            decreases count - index,
        {
            let ghost before = ops@;
            let ghost rest = boxes_ops(s0.canvas, s0.glyphs@, s0.infos@, index + 1, count as int);
            self.render_info_box(index as usize, ops);
            assert(before + (s0.infos@[index as int].row_ops(s0.canvas, s0.glyphs@) + rest)
                =~= ops@ + rest);
            index += 1;
        }
        assert(ops@ + Seq::<DrawOp>::empty() =~= ops@);
        assert(old(ops)@ + s0.render_ops() =~= start + boxes_ops(
            s0.canvas,
            s0.glyphs@,
            s0.infos@,
            0,
            count as int,
        ));
    }

    /// Places the graph area: its origin on the screen and an offset.
    pub fn setup_graph(&mut self, x: i32, y: i32, ox: i32, oy: i32)
        ensures
            *final(self) == (Screen {
                canvas: Canvas { graph_x: x, graph_y: y, ..old(self).canvas },
                graph_ox: ox,
                graph_oy: oy,
                must_refresh: true,
                ..*old(self)
            }),
    {
        self.must_refresh = true;
        self.canvas.graph_x = x;
        self.canvas.graph_y = y;
        self.graph_ox = ox;
        self.graph_oy = oy;
    }

    pub fn info_base(&self) -> (r: (i32, i32))
        ensures
            r == (self.canvas.info_x, self.canvas.info_y),
    {
        (self.canvas.info_x, self.canvas.info_y)
    }

    pub fn graph_base(&self) -> (r: (i32, i32))
        ensures
            r == (self.canvas.graph_x, self.canvas.graph_y),
    {
        (self.canvas.graph_x, self.canvas.graph_y)
    }

    /// The graph base moved by the graph offset.
    pub fn graph_origin(&self) -> (r: (i32, i32))
        ensures
            r == (i32_specs::wrapping_add(self.canvas.graph_x, self.graph_ox), i32_specs::wrapping_add(
                self.canvas.graph_y,
                self.graph_oy,
            )),
    {
        (self.canvas.graph_x.wrapping_add(self.graph_ox), self.canvas.graph_y.wrapping_add(self.graph_oy))
    }

    pub fn info_origin(&self) -> (r: (i32, i32))
        ensures
            r == (self.canvas.info_x, self.canvas.info_y),
    {
        (self.canvas.info_x, self.canvas.info_y)
    }

    /// Screen coordinates (before orientation) to absolute panel pixels.
    pub fn screen_to_absolute(&self, x: i32, y: i32) -> (r: (i32, i32))
        ensures
            r == self.canvas.screen_to_abs(x, y),
    {
        self.canvas.screen_to_absolute(x, y)
    }

    /// Appends the fill of an info-area rectangle.
    pub fn box_in_info(&self, x: i32, y: i32, w: i32, h: i32, c: Color, ops: &mut Vec<DrawOp>)
        ensures
            final(ops)@ == old(ops)@.push(self.canvas.box_in_info_op(x, y, w, h, c)),
    {
        ops.push(self.canvas.box_in_info(x, y, w, h, c));
    }

    /// Appends a line between two graph points, with its bold copy.
    pub fn draw_graph_line(
        &self,
        x0: i32,
        y0: i32,
        x1: i32,
        y1: i32,
        bold: bool,
        ops: &mut Vec<DrawOp>,
    )
        ensures
            final(ops)@ == old(ops)@ + self.canvas.graph_line_ops(x0, y0, x1, y1, bold),
    {
        self.canvas.graph_line(x0, y0, x1, y1, bold, ops);
    }

    /// Appends an arc around `(center_x, center_y)` of `arc_angle` degrees
    /// from `start_angle`, as a polyline with a point every 15 degrees.
    pub fn draw_graph_arc(
        &self,
        center_x: i32,
        center_y: i32,
        start_angle: i32,
        arc_angle: i32,
        radius: i32,
        bold: bool,
        ops: &mut Vec<DrawOp>,
    )
        requires
            arc_angle > i32::MIN,
            start_angle + 90 <= i32::MAX,
            start_angle + arc_angle + 90 <= i32::MAX,
            start_angle + arc_angle >= i32::MIN,
        ensures
            final(ops)@ == old(ops)@ + self.arc_ops(
                center_x,
                center_y,
                start_angle,
                arc_angle,
                radius,
                bold,
            ),
            arc_angle == 0 ==> final(ops)@ == old(ops)@,
            final(ops)@.len() == old(ops)@.len() + arc_steps(arc_angle as int) * (if bold {
                2int
            } else {
                1int
            }),
    {
        let mut step: i32 = 0;
        let mut steps: i32 = 0;
        if arc_angle > 0 {
            step = 15;
            steps = (arc_angle / 15) + 1;
        } else if arc_angle < 0 {
            step = -15;
            steps = (-arc_angle / 15) + 1;
        }
        let ghost mag: int = if arc_angle < 0 {
            -arc_angle
        } else {
            arc_angle as int
        };
        let center = Point::new(center_x, center_y);
        let mut from = move_point(center, radius, start_angle);
        let ghost target = old(ops)@ + self.arc_ops(
            center_x,
            center_y,
            start_angle,
            arc_angle,
            radius,
            bold,
        );
        proof {
            lemma_arc_ops_len(
                self.canvas,
                center,
                radius as int,
                start_angle as int,
                step as int,
                0,
                steps as int,
                from,
                bold,
            );
        }
        let mut s: i32 = 0;
        while s < steps
            invariant
                steps == arc_steps(arc_angle as int),
                step == arc_step(arc_angle as int),
                mag >= 0,
                steps == 0 || steps == mag / 15 + 1,
                center == (Point { x: wrap8(center_x as int), y: wrap8(center_y as int) }),
                0 <= s <= steps,
                target == old(ops)@ + self.arc_ops(
                    center_x,
                    center_y,
                    start_angle,
                    arc_angle,
                    radius,
                    bold,
                ),
                ops@ + arc_ops_from(
                    self.canvas,
                    center,
                    radius as int,
                    start_angle as int,
                    step as int,
                    s as int,
                    steps as int,
                    from,
                    bold,
                ) == target,
                arc_angle > i32::MIN,
                start_angle + 90 <= i32::MAX,
                start_angle + arc_angle + 90 <= i32::MAX,
                start_angle + arc_angle >= i32::MIN,
                mag == if arc_angle < 0 { -arc_angle } else { arc_angle as int },
            decreases steps - s,
        {
            assert(0 <= s * 15 <= mag) by (nonlinear_arith)
                requires
                    0 <= s,
                    s + 1 <= mag / 15 + 1,
                    mag >= 0,
            ;
            let to_angle = start_angle + s * step;
            let to = move_point(center, radius, to_angle);
            let ghost before = ops@;
            let ghost rest = arc_ops_from(
                self.canvas,
                center,
                radius as int,
                start_angle as int,
                step as int,
                s + 1,
                steps as int,
                to,
                bold,
            );
            self.canvas.graph_line(from.x as i32, from.y as i32, to.x as i32, to.y as i32, bold, ops);
            assert(before + (self.canvas.graph_line_ops(
                from.x as i32,
                from.y as i32,
                to.x as i32,
                to.y as i32,
                bold,
            ) + rest) =~= ops@ + rest);
            from = to;
            s += 1;
        }
        assert(ops@ + Seq::<DrawOp>::empty() =~= ops@);
    }

    /// Appends the draw calls of glyph `g` at info-area position `(x, y)`;
    /// identifiers from `LAST` on draw nothing.
    pub fn draw_glyph(&self, g: Gph, x: i32, y: i32, bold: bool, ops: &mut Vec<DrawOp>)
        ensures
            final(ops)@ == old(ops)@ + glyph_ops(self.canvas, self.glyphs@, g, x, y, bold),
            crate::glyph::gph_index(g) >= crate::glyph::GLYPH_COUNT ==> final(ops)@ == old(ops)@,
    {
        draw_glyph(&self.canvas, &self.glyphs, g, x, y, bold, ops);
    }
}

proof fn lemma_quiet_boxes(c: Canvas, table: Seq<Glyph>, infos: Seq<InfoBox>, k: int, n: int)
    requires
        0 <= k,
        forall|i: int| k <= i < n ==> (#[trigger] infos[i]).row_ops(c, table) == Seq::<DrawOp>::empty(),
    ensures
        boxes_ops(c, table, infos, k, n) == Seq::<DrawOp>::empty(),
    decreases n - k,
{
    if k < n {
        lemma_quiet_boxes(c, table, infos, k + 1, n);
        assert(boxes_ops(c, table, infos, k, n) =~= Seq::<DrawOp>::empty() + Seq::<DrawOp>::empty());
    }
}

/// A render pass right after another, with nothing changed in between,
/// draws nothing.
pub proof fn lemma_screen_rerender_draws_nothing(s: Screen, r: Screen)
    requires
        s.wf(),
        s.render_result(r),
    ensures
        r.render_ops() == Seq::<DrawOp>::empty(),
{
    assert forall|i: int| 0 <= i < r.info_count implies (#[trigger] r.infos@[i]).row_ops(
        r.canvas,
        r.glyphs@,
    ) == Seq::<DrawOp>::empty() by {
        assert(s.infos@[i].wf());
        lemma_rerender_draws_nothing(s.infos@[i], r.infos@[i], r.canvas, r.glyphs@);
    }
    lemma_quiet_boxes(r.canvas, r.glyphs@, r.infos@, 0, r.info_count as int);
    assert(Seq::<DrawOp>::empty() + Seq::<DrawOp>::empty() =~= Seq::<DrawOp>::empty());
}

/// On a screen mounted facing up, screen coordinates are panel coordinates.
pub proof fn lemma_up_is_identity(c: Canvas, x: i32, y: i32)
    requires
        c.or == ScreenOrientation::Up,
        0 <= x <= c.panel_w,
        0 <= y <= c.panel_h,
    ensures
        c.screen_to_abs(x, y) == (x, y),
{
}

} // verus!
