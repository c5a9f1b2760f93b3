use vstd::prelude::*;
use vstd::wrapping::i32_specs;
use crate::draw::{Color, DrawOp};
use crate::point::{Point, wrap8};

verus! {

/// The four physical mountings of the panel.
#[derive(Clone, Copy, PartialEq, Eq, Structural, Debug)]
pub enum ScreenOrientation {
    Up,
    Right,
    Down,
    Left,
}

/// Where drawing lands on the panel: the mounting, the native panel size and
/// the origins of the info and graph areas. Coordinates that leave the `i32`
/// range wrap.
#[derive(Clone, Copy, PartialEq, Eq, Structural, Debug)]
pub struct Canvas {
    pub or: ScreenOrientation,
    pub panel_w: i32,
    pub panel_h: i32,
    pub info_x: i32,
    pub info_y: i32,
    pub graph_x: i32,
    pub graph_y: i32,
}

pub open spec fn wadd(a: i32, b: i32) -> i32 {
    i32_specs::wrapping_add(a, b)
}

pub open spec fn wsub(a: i32, b: i32) -> i32 {
    i32_specs::wrapping_sub(a, b)
}

pub open spec fn line_op(x0: i32, y0: i32, x1: i32, y1: i32) -> DrawOp {
    DrawOp::Line { x0, y0, x1, y1 }
}

impl Canvas {
    /// Screen coordinates (before orientation) to absolute panel pixels.
    pub open spec fn screen_to_abs(self, x: i32, y: i32) -> (i32, i32) {
        match self.or {
            ScreenOrientation::Up => (x, y),
            ScreenOrientation::Down => (wsub(self.panel_w, x), wsub(self.panel_h, y)),
            ScreenOrientation::Left => (y, wsub(self.panel_h, x)),
            ScreenOrientation::Right => (wsub(self.panel_w, y), x),
        }
    }

    /// Info-area coordinates to absolute panel pixels.
    pub open spec fn info_to_abs(self, x: i32, y: i32) -> (i32, i32) {
        self.screen_to_abs(wadd(x, self.info_x), wadd(y, self.info_y))
    }

    /// Graph coordinates to absolute panel pixels; this mapping has its own
    /// formula for each orientation.
    pub open spec fn graph_to_abs(self, x: i32, y: i32) -> (i32, i32) {
        match self.or {
            ScreenOrientation::Up => (wadd(x, self.graph_x), wsub(self.graph_y, y)),
            ScreenOrientation::Down => (wsub(self.graph_x, x), wadd(y, self.graph_y)),
            ScreenOrientation::Left => (wadd(y, self.graph_x), wadd(x, self.graph_y)),
            ScreenOrientation::Right => (wsub(self.graph_x, y), wsub(self.graph_y, x)),
        }
    }

    /// An info-area point mapped to the panel, on the 8-bit grid.
    pub open spec fn in_info(self, p: Point) -> Point {
        let (x, y) = self.info_to_abs(p.x as i32, p.y as i32);
        Point { x: wrap8(x as int), y: wrap8(y as int) }
    }

    /// The lines of a stroke between two info-area points; bold adds four
    /// copies offset by one pixel diagonally.
    pub open spec fn line_in_info_ops(self, p1: Point, p2: Point, bold: bool) -> Seq<DrawOp> {
        let a = self.in_info(p1);
        let b = self.in_info(p2);
        let (x0, y0, x1, y1) = (a.x as i32, a.y as i32, b.x as i32, b.y as i32);
        if bold {
            seq![
                line_op(x0, y0, x1, y1),
                line_op((x0 + 1) as i32, (y0 + 1) as i32, (x1 + 1) as i32, (y1 + 1) as i32),
                line_op((x0 + 1) as i32, (y0 - 1) as i32, (x1 + 1) as i32, (y1 - 1) as i32),
                line_op((x0 - 1) as i32, (y0 + 1) as i32, (x1 - 1) as i32, (y1 + 1) as i32),
                line_op((x0 - 1) as i32, (y0 - 1) as i32, (x1 - 1) as i32, (y1 - 1) as i32),
            ]
        } else {
            seq![line_op(x0, y0, x1, y1)]
        }
    }

    /// The fill of an info-area rectangle whose corner is `(x, y)`: the
    /// rectangle is turned with the panel, so its top-left corner moves.
    pub open spec fn box_in_info_op(self, x: i32, y: i32, w: i32, h: i32, c: Color) -> DrawOp {
        let (w, h) = match self.or {
            ScreenOrientation::Up | ScreenOrientation::Down => (w, h),
            ScreenOrientation::Left | ScreenOrientation::Right => (h, w),
        };
        let (ax, ay) = self.info_to_abs(x, y);
        let (ax, ay) = match self.or {
            ScreenOrientation::Up => (ax, ay),
            ScreenOrientation::Down => (wsub(ax, w), wsub(ay, h)),
            ScreenOrientation::Left => (ax, wsub(ay, h)),
            ScreenOrientation::Right => (wsub(ax, w), ay),
        };
        DrawOp::FillRect { x: ax, y: ay, w, h, color: c }
    }

    /// A line between two graph points.
    pub open spec fn graph_segment_op(self, x0: i32, y0: i32, x1: i32, y1: i32) -> DrawOp {
        let (ax0, ay0) = self.graph_to_abs(x0, y0);
        let (ax1, ay1) = self.graph_to_abs(x1, y1);
        line_op(ax0, ay0, ax1, ay1)
    }

    /// A graph line; bold adds one parallel copy, one pixel down for a
    /// horizontal line and one pixel right for any other.
    pub open spec fn graph_line_ops(self, x0: i32, y0: i32, x1: i32, y1: i32, bold: bool) -> Seq<
        DrawOp,
    > {
        if !bold {
            seq![self.graph_segment_op(x0, y0, x1, y1)]
        } else if y0 == y1 {
            seq![
                self.graph_segment_op(x0, y0, x1, y1),
                self.graph_segment_op(x0, wadd(y0, 1), x1, wadd(y1, 1)),
            ]
        } else {
            seq![
                self.graph_segment_op(x0, y0, x1, y1),
                self.graph_segment_op(wadd(x0, 1), y0, wadd(x1, 1), y1),
            ]
        }
    }

    /// Screen coordinates (before orientation) to absolute panel pixels.
    pub fn screen_to_absolute(&self, x: i32, y: i32) -> (r: (i32, i32))
        ensures
            r == self.screen_to_abs(x, y),
    {
        match self.or {
            ScreenOrientation::Up => (x, y),
            ScreenOrientation::Down => (self.panel_w.wrapping_sub(x), self.panel_h.wrapping_sub(y)),
            ScreenOrientation::Left => (y, self.panel_h.wrapping_sub(x)),
            ScreenOrientation::Right => (self.panel_w.wrapping_sub(y), x),
        }
    }

    pub fn info_to_absolute_pos(&self, x: i32, y: i32) -> (r: (i32, i32))
        ensures
            r == self.info_to_abs(x, y),
    {
        self.screen_to_absolute(x.wrapping_add(self.info_x), y.wrapping_add(self.info_y))
    }

    pub fn graph_to_absolute_pos(&self, x: i32, y: i32) -> (r: (i32, i32))
        ensures
            r == self.graph_to_abs(x, y),
    {
        match self.or {
            ScreenOrientation::Up => (x.wrapping_add(self.graph_x), self.graph_y.wrapping_sub(y)),
            ScreenOrientation::Down => (self.graph_x.wrapping_sub(x), y.wrapping_add(self.graph_y)),
            ScreenOrientation::Left => (y.wrapping_add(self.graph_x), x.wrapping_add(self.graph_y)),
            ScreenOrientation::Right => (
                self.graph_x.wrapping_sub(y),
                self.graph_y.wrapping_sub(x),
            ),
        }
    }

    fn in_info_point(&self, p: Point) -> (r: Point)
        ensures
            r == self.in_info(p),
    {
        let (x, y) = self.info_to_absolute_pos(p.x as i32, p.y as i32);
        Point::new(x, y)
    }

    /// Appends the lines of a stroke between two info-area points.
    pub fn line_in_info(&self, p1: Point, p2: Point, bold: bool, ops: &mut Vec<DrawOp>)
        ensures
            final(ops)@ == old(ops)@ + self.line_in_info_ops(p1, p2, bold),
    {
        let a = self.in_info_point(p1);
        let b = self.in_info_point(p2);
        let (x0, y0, x1, y1) = (a.x as i32, a.y as i32, b.x as i32, b.y as i32);
        ops.push(DrawOp::Line { x0, y0, x1, y1 });
        if bold {
            ops.push(DrawOp::Line { x0: x0 + 1, y0: y0 + 1, x1: x1 + 1, y1: y1 + 1 });
            ops.push(DrawOp::Line { x0: x0 + 1, y0: y0 - 1, x1: x1 + 1, y1: y1 - 1 });
            ops.push(DrawOp::Line { x0: x0 - 1, y0: y0 + 1, x1: x1 - 1, y1: y1 + 1 });
            ops.push(DrawOp::Line { x0: x0 - 1, y0: y0 - 1, x1: x1 - 1, y1: y1 - 1 });
        }
        assert(ops@ =~= old(ops)@ + self.line_in_info_ops(p1, p2, bold));
    }

    /// The fill of an info-area rectangle, turned with the panel.
    pub fn box_in_info(&self, x: i32, y: i32, w: i32, h: i32, c: Color) -> (r: DrawOp)
        ensures
            r == self.box_in_info_op(x, y, w, h, c),
    {
        let (w, h) = match self.or {
            ScreenOrientation::Up | ScreenOrientation::Down => (w, h),
            ScreenOrientation::Left | ScreenOrientation::Right => (h, w),
        };
        let (ax, ay) = self.info_to_absolute_pos(x, y);
        let (ax, ay) = match self.or {
            ScreenOrientation::Up => (ax, ay),
            ScreenOrientation::Down => (ax.wrapping_sub(w), ay.wrapping_sub(h)),
            ScreenOrientation::Left => (ax, ay.wrapping_sub(h)),
            ScreenOrientation::Right => (ax.wrapping_sub(w), ay),
        };
        DrawOp::FillRect { x: ax, y: ay, w, h, color: c }
    }

    fn graph_segment(&self, x0: i32, y0: i32, x1: i32, y1: i32) -> (r: DrawOp)
        ensures
            r == self.graph_segment_op(x0, y0, x1, y1),
    {
        let (ax0, ay0) = self.graph_to_absolute_pos(x0, y0);
        let (ax1, ay1) = self.graph_to_absolute_pos(x1, y1);
        DrawOp::Line { x0: ax0, y0: ay0, x1: ax1, y1: ay1 }
    }

    /// Appends a graph line, with its bold copy.
    pub fn graph_line(&self, x0: i32, y0: i32, x1: i32, y1: i32, bold: bool, ops: &mut Vec<DrawOp>)
        ensures
            final(ops)@ == old(ops)@ + self.graph_line_ops(x0, y0, x1, y1, bold),
    {
        ops.push(self.graph_segment(x0, y0, x1, y1));
        if bold {
            if y0 == y1 {
                ops.push(self.graph_segment(x0, y0.wrapping_add(1), x1, y1.wrapping_add(1)));
            } else {
                ops.push(self.graph_segment(x0.wrapping_add(1), y0, x1.wrapping_add(1), y1));
            }
        }
        assert(ops@ =~= old(ops)@ + self.graph_line_ops(x0, y0, x1, y1, bold));
    }
}

} // verus!
