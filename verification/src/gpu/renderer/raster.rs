//! Fixed-point interpolation along the edges and spans of primitives.
//!
//! Values carry 16 integer and 16 fraction bits. An edge from `a` to `b`
//! over `d` units steps by `(2^16 / d) * (b - a)` per unit.

use vstd::prelude::*;
use super::{Vertex, Color, TexCoord};
use crate::utils::bits::lemma_shr_is_div_i32;

verus! {

/// `x` fits in a signed word.
pub open spec fn fits_i32(x: int) -> bool {
    i32::MIN <= x <= i32::MAX
}

/// `x` fits in a signed halfword.
pub open spec fn fits_i16(x: int) -> bool {
    i16::MIN <= x <= i16::MAX
}

/// Division of a non-negative numerator rounding towards zero, as the
/// machine divides; 0 for a zero divisor.
pub open spec fn div_toward_zero(n: int, d: int) -> int {
    if d > 0 {
        n / d
    } else if d == 0 {
        0
    } else {
        -(n / -d)
    }
}

/// A fixed-point value rounded to the nearest whole unit (halves up).
pub open spec fn round_fixed(v: int) -> int {
    (v + 0x8000) / 0x10000
}

/// A value that advances by a fixed-point gradient.
#[derive(Clone, Copy, PartialEq, Eq, Structural, Debug)]
pub struct InterpolatedValue {
    pub gradient: i32,
    pub val: i32,
}

/// The value that starts at `a` (scaled up) and has advanced `i` steps
/// of `grad * (b - a)`.
pub open spec fn interp(grad: int, a: int, b: int, i: int) -> InterpolatedValue {
    InterpolatedValue {
        gradient: (grad * (b - a)) as i32,
        val: (a * 0x10000 + i * (grad * (b - a))) as i32,
    }
}

/// The arithmetic of `interp` stays within a word.
pub open spec fn interp_fits(grad: int, a: int, b: int, i: int) -> bool {
    &&& fits_i32(b - a)
    &&& fits_i32(grad * (b - a))
    &&& fits_i32(a * 0x10000)
    &&& fits_i32(i * (grad * (b - a)))
    &&& fits_i32(a * 0x10000 + i * (grad * (b - a)))
}

/// The value that starts at the fixed-point `a` and has advanced `i` steps
/// of `grad` times the whole part of `b - a`.
pub open spec fn interp_shifted(grad: int, a: int, b: int, i: int) -> InterpolatedValue {
    InterpolatedValue {
        gradient: (grad * ((b - a) / 0x10000)) as i32,
        val: (a + i * (grad * ((b - a) / 0x10000))) as i32,
    }
}

/// The arithmetic of `interp_shifted` stays within a word.
pub open spec fn interp_shifted_fits(grad: int, a: int, b: int, i: int) -> bool {
    &&& fits_i32(b - a)
    &&& fits_i32(grad * ((b - a) / 0x10000))
    &&& fits_i32(i * (grad * ((b - a) / 0x10000)))
    &&& fits_i32(a + i * (grad * ((b - a) / 0x10000)))
}

/// A value advanced `i` more steps.
pub open spec fn advanced(v: InterpolatedValue, i: int) -> InterpolatedValue {
    InterpolatedValue { gradient: v.gradient, val: (v.val + i * v.gradient) as i32 }
}

/// Advancing `i` more steps stays within a word.
pub open spec fn advance_fits(v: InterpolatedValue, i: int) -> bool {
    fits_i32(i * v.gradient) && fits_i32(v.val + i * v.gradient)
}

/// Rounding the value stays within a word.
pub open spec fn round_fits(v: InterpolatedValue) -> bool {
    fits_i32(v.val + 0x8000)
}

impl InterpolatedValue {
    pub fn new(gradient: i32, a: i32, b: i32, i: i32) -> (r: Self)
        requires
            interp_fits(gradient as int, a as int, b as int, i as int),
        ensures
            r == interp(gradient as int, a as int, b as int, i as int),
    {
        let gradient = gradient * (b - a);
        Self { gradient, val: a * 0x10000 + i * gradient }
    }

    /// As `new`, with `a` and `b` already in fixed point.
    pub fn new_shifted(gradient: i32, a: i32, b: i32, i: i32) -> (r: Self)
        requires
            interp_shifted_fits(gradient as int, a as int, b as int, i as int),
        ensures
            r == interp_shifted(gradient as int, a as int, b as int, i as int),
    {
        let d = b - a;
        proof {
            lemma_shr_is_div_i32(d);
        }
        let gradient = gradient * (d >> 16);
        Self { gradient, val: a + i * gradient }
    }

    /// Advance one step.
    pub fn inc(&mut self)
        requires
            advance_fits(*old(self), 1),
        ensures
            *final(self) == advanced(*old(self), 1),
    {
        self.val = self.val + self.gradient;
    }

    /// Advance `i` steps.
    pub fn mul(&mut self, i: i32)
        requires
            advance_fits(*old(self), i as int),
        ensures
            *final(self) == advanced(*old(self), i as int),
    {
        self.val = self.val + i * self.gradient;
    }

    /// The value rounded to a whole unit.
    fn round(&self) -> (r: i32)
        requires
            round_fits(*self),
        ensures
            r == round_fixed(self.val as int),
    {
        let v = self.val + 0x8000;
        proof {
            lemma_shr_is_div_i32(v);
        }
        v >> 16
    }
}

/// The fixed-point gradient for one unit of a span `d` units long.
pub open spec fn unit_gradient(d: int) -> int {
    div_toward_zero(0x10000, d)
}

/// The gradient for one unit of a span `d` long, rounding towards zero;
/// 0 for an empty span.
pub(crate) fn unit_gradient_exec(d: i32) -> (r: i32)
    requires
        d > i32::MIN,
    ensures
        r == unit_gradient(d as int),
        -0x10000 <= r <= 0x10000,
{
    if d > 0 {
        0x10000 / d
    } else if d == 0 {
        0
    } else {
        -(0x10000 / -d)
    }
}

/// An edge or span being stepped: position, colour and texture
/// coordinate.
#[derive(Clone, Copy, PartialEq, Eq, Structural, Debug)]
pub struct Line {
    pub x: InterpolatedValue,
    pub r: InterpolatedValue,
    pub g: InterpolatedValue,
    pub b: InterpolatedValue,
    pub tex_s: InterpolatedValue,
    pub tex_t: InterpolatedValue,
}

/// The edge from `top` to `bottom`, stepped down to scanline `line`.
pub open spec fn edge_at(top: Vertex, bottom: Vertex, line: int) -> Line {
    let g = unit_gradient(bottom.coord.y - top.coord.y);
    let i = line - top.coord.y;
    Line {
        x: interp(g, top.coord.x as int, bottom.coord.x as int, i),
        r: interp(g, top.col.r as int, bottom.col.r as int, i),
        g: interp(g, top.col.g as int, bottom.col.g as int, i),
        b: interp(g, top.col.b as int, bottom.col.b as int, i),
        tex_s: interp(g, top.tex.s as int, bottom.tex.s as int, i),
        tex_t: interp(g, top.tex.t as int, bottom.tex.t as int, i),
    }
}

/// The arithmetic of `edge_at` stays within its words.
pub open spec fn edge_fits(top: Vertex, bottom: Vertex, line: int) -> bool {
    let g = unit_gradient(bottom.coord.y - top.coord.y);
    let i = line - top.coord.y;
    &&& top.coord.y < bottom.coord.y
    &&& fits_i16(bottom.coord.y - top.coord.y)
    &&& fits_i16(i)
    &&& interp_fits(g, top.coord.x as int, bottom.coord.x as int, i)
    &&& interp_fits(g, top.col.r as int, bottom.col.r as int, i)
    &&& interp_fits(g, top.col.g as int, bottom.col.g as int, i)
    &&& interp_fits(g, top.col.b as int, bottom.col.b as int, i)
    &&& interp_fits(g, top.tex.s as int, bottom.tex.s as int, i)
    &&& interp_fits(g, top.tex.t as int, bottom.tex.t as int, i)
}

/// The span from the edge `left` to the edge `right`, stepped to column
/// `x`. Its own position is not stepped.
pub open spec fn span_at(left: Line, right: Line, x: int) -> Line {
    let lx = round_fixed(left.x.val as int);
    let rx = round_fixed(right.x.val as int);
    let g = unit_gradient(rx - lx);
    let i = x - lx;
    Line {
        x: InterpolatedValue { gradient: 0, val: 0 },
        r: interp_shifted(g, left.r.val as int, right.r.val as int, i),
        g: interp_shifted(g, left.g.val as int, right.g.val as int, i),
        b: interp_shifted(g, left.b.val as int, right.b.val as int, i),
        tex_s: interp_shifted(g, left.tex_s.val as int, right.tex_s.val as int, i),
        tex_t: interp_shifted(g, left.tex_t.val as int, right.tex_t.val as int, i),
    }
}

/// The arithmetic of `span_at` stays within its words.
pub open spec fn span_fits(left: Line, right: Line, x: int) -> bool {
    let lx = round_fixed(left.x.val as int);
    let rx = round_fixed(right.x.val as int);
    let g = unit_gradient(rx - lx);
    let i = x - lx;
    &&& round_fits(left.x)
    &&& round_fits(right.x)
    &&& lx != rx
    &&& fits_i16(rx - lx)
    &&& fits_i16(i)
    &&& interp_shifted_fits(g, left.r.val as int, right.r.val as int, i)
    &&& interp_shifted_fits(g, left.g.val as int, right.g.val as int, i)
    &&& interp_shifted_fits(g, left.b.val as int, right.b.val as int, i)
    &&& interp_shifted_fits(g, left.tex_s.val as int, right.tex_s.val as int, i)
    &&& interp_shifted_fits(g, left.tex_t.val as int, right.tex_t.val as int, i)
}

/// Every value of a line advanced `i` more steps.
pub open spec fn line_advanced(l: Line, i: int) -> Line {
    Line {
        x: advanced(l.x, i),
        r: advanced(l.r, i),
        g: advanced(l.g, i),
        b: advanced(l.b, i),
        tex_s: advanced(l.tex_s, i),
        tex_t: advanced(l.tex_t, i),
    }
}

/// Advancing every value of a line `i` steps stays within a word.
pub open spec fn line_advance_fits(l: Line, i: int) -> bool {
    &&& advance_fits(l.x, i)
    &&& advance_fits(l.r, i)
    &&& advance_fits(l.g, i)
    &&& advance_fits(l.b, i)
    &&& advance_fits(l.tex_s, i)
    &&& advance_fits(l.tex_t, i)
}

/// The colour a line carries: each channel rounded, cut to a byte.
pub open spec fn line_color(l: Line) -> Color {
    Color {
        r: round_fixed(l.r.val as int) as u8,
        g: round_fixed(l.g.val as int) as u8,
        b: round_fixed(l.b.val as int) as u8,
        mask: 0,
    }
}

/// The texture coordinate a line carries: each rounded, cut to a byte.
pub open spec fn line_tex(l: Line) -> TexCoord {
    TexCoord { s: round_fixed(l.tex_s.val as int) as u8, t: round_fixed(l.tex_t.val as int) as u8 }
}

impl Line {
    /// The edge from `top` to `bottom`, at scanline `line`.
    pub fn from_vertices(top: &Vertex, bottom: &Vertex, line: i16) -> (r: Self)
        requires
            edge_fits(*top, *bottom, line as int),
        ensures
            r == edge_at(*top, *bottom, line as int),
    {
        let d = bottom.coord.y - top.coord.y;
        let gradient = unit_gradient_exec(d as i32);
        let i = (line - top.coord.y) as i32;
        Self {
            x: InterpolatedValue::new(gradient, top.coord.x as i32, bottom.coord.x as i32, i),
            r: InterpolatedValue::new(gradient, top.col.r as i32, bottom.col.r as i32, i),
            g: InterpolatedValue::new(gradient, top.col.g as i32, bottom.col.g as i32, i),
            b: InterpolatedValue::new(gradient, top.col.b as i32, bottom.col.b as i32, i),
            tex_s: InterpolatedValue::new(gradient, top.tex.s as i32, bottom.tex.s as i32, i),
            tex_t: InterpolatedValue::new(gradient, top.tex.t as i32, bottom.tex.t as i32, i),
        }
    }

    /// The span between two edges, at column `x`.
    pub fn from_lines(left: &Line, right: &Line, x: i16) -> (r: Self)
        requires
            span_fits(*left, *right, x as int),
        ensures
            r == span_at(*left, *right, x as int),
    {
        let left_x = left.get_x();
        let right_x = right.get_x();
        let gradient = unit_gradient_exec((right_x - left_x) as i32);
        let i = (x - left_x) as i32;
        Self {
            x: InterpolatedValue { gradient: 0, val: 0 },
            r: InterpolatedValue::new_shifted(gradient, left.r.val, right.r.val, i),
            g: InterpolatedValue::new_shifted(gradient, left.g.val, right.g.val, i),
            b: InterpolatedValue::new_shifted(gradient, left.b.val, right.b.val, i),
            tex_s: InterpolatedValue::new_shifted(gradient, left.tex_s.val, right.tex_s.val, i),
            tex_t: InterpolatedValue::new_shifted(gradient, left.tex_t.val, right.tex_t.val, i),
        }
    }

    /// The position, rounded to a whole pixel.
    pub fn get_x(&self) -> (r: i16)
        requires
            round_fits(self.x),
        ensures
            r == round_fixed(self.x.val as int),
    {
        self.x.round() as i16
    }

    pub fn get_color(&self) -> (r: Color)
        requires
            round_fits(self.r),
            round_fits(self.g),
            round_fits(self.b),
        ensures
            r == line_color(*self),
    {
        Color { r: self.r.round() as u8, g: self.g.round() as u8, b: self.b.round() as u8, mask: 0 }
    }

    pub fn get_tex_coords(&self) -> (r: TexCoord)
        requires
            round_fits(self.tex_s),
            round_fits(self.tex_t),
        ensures
            r == line_tex(*self),
    {
        TexCoord { s: self.tex_s.round() as u8, t: self.tex_t.round() as u8 }
    }

    /// Advance every value one step.
    pub fn inc(&mut self)
        requires
            line_advance_fits(*old(self), 1),
        ensures
            *final(self) == line_advanced(*old(self), 1),
    {
        self.x.inc();
        self.r.inc();
        self.g.inc();
        self.b.inc();
        self.tex_s.inc();
        self.tex_t.inc();
    }

    /// Advance every value `i` steps.
    pub fn mul(&mut self, i: i32)
        requires
            line_advance_fits(*old(self), i as int),
        ensures
            *final(self) == line_advanced(*old(self), i as int),
    {
        self.x.mul(i);
        self.r.mul(i);
        self.g.mul(i);
        self.b.mul(i);
        self.tex_s.mul(i);
        self.tex_t.mul(i);
    }
}

/// The two edges of a triangle that span a scanline, and the scanline at
/// which the upper of them ends.
#[derive(Clone, Copy, PartialEq, Eq, Structural, Debug)]
pub struct Lines {
    pub left: Line,
    pub right: Line,
    pub max_y: i16,
}

/// Edge `i` of a triangle, from vertex `i` to the next, as (top, bottom):
/// the vertex with the larger Y is the bottom.
pub open spec fn tri_edge(v: Seq<Vertex>, i: int) -> (Vertex, Vertex) {
    let a = v[i];
    let b = v[(i + 1) % 3];
    if a.coord.y > b.coord.y { (b, a) } else { (a, b) }
}

/// An edge spans scanline `line`: it is not flat, starts at or above it
/// and ends below it.
pub open spec fn edge_spans(top: Vertex, bottom: Vertex, line: int) -> bool {
    top.coord.y != bottom.coord.y && top.coord.y <= line && line < bottom.coord.y
}

/// A new edge taken in among the edges found so far: the first becomes
/// the left one; a later one is ordered with the left one by position, then
/// by gradient, the smaller going left.
pub open spec fn take_edge(left: Option<Line>, right: Option<Line>, l: Line) -> (Option<Line>, Option<Line>) {
    match left {
        None => (Some(l), right),
        Some(o) => {
            if l.x.val < o.x.val {
                (Some(l), Some(o))
            } else if l.x.val > o.x.val {
                (Some(o), Some(l))
            } else if l.x.gradient < o.x.gradient {
                (Some(l), Some(o))
            } else {
                (Some(o), Some(l))
            }
        },
    }
}

/// The left and right edges and the end scanline after looking at the
/// first `n` edges of the triangle.
pub open spec fn edges_found(v: Seq<Vertex>, line: int, n: nat) -> (Option<Line>, Option<Line>, int)
    decreases n,
{
    if n == 0 {
        (None, None, i16::MAX as int)
    } else {
        let (left, right, max_y) = edges_found(v, line, (n - 1) as nat);
        let (top, bottom) = tri_edge(v, n - 1);
        if edge_spans(top, bottom, line) {
            let (l2, r2) = take_edge(left, right, edge_at(top, bottom, line));
            (l2, r2, if bottom.coord.y < max_y { bottom.coord.y as int } else { max_y })
        } else {
            (left, right, max_y)
        }
    }
}

/// The edges of a triangle that span scanline `line`, stepped to it, with
/// the scanline at which the first of them ends; none unless two are found.
pub open spec fn intersection(v: Seq<Vertex>, line: int) -> Option<Lines> {
    let (left, right, max_y) = edges_found(v, line, 3);
    if left is Some && right is Some {
        Some(Lines { left: left->0, right: right->0, max_y: max_y as i16 })
    } else {
        None
    }
}

/// Each edge that spans the scanline can be stepped to it.
pub open spec fn edges_fit(v: Seq<Vertex>, line: int) -> bool {
    forall|i: int| 0 <= i < 3 ==> {
        let (top, bottom) = #[trigger] tri_edge(v, i);
        edge_spans(top, bottom, line) ==> edge_fits(top, bottom, line)
    }
}

/// The edges of the triangle `vertices` that span scanline `line`.
pub fn get_intersection_points(vertices: &[Vertex], line: i16) -> (r: Option<Lines>)
    requires
        vertices@.len() >= 3,
        edges_fit(vertices@, line as int),
    ensures
        r == intersection(vertices@, line as int),
{
    let mut left: Option<Line> = None;
    let mut right: Option<Line> = None;
    let mut max_y: i16 = i16::MAX;
    let mut i: usize = 0;
    while i < 3
        invariant
            i <= 3,
            vertices@.len() >= 3,
            edges_fit(vertices@, line as int),
            (left, right, max_y as int) == edges_found(vertices@, line as int, i as nat),
        decreases 3 - i,
    {
        let vertex_a = &vertices[i];
        let vertex_b = &vertices[(i + 1) % 3];
        let (top, bottom) = if vertex_a.coord.y > vertex_b.coord.y {
            (vertex_b, vertex_a)
        } else {
            (vertex_a, vertex_b)
        };
        proof {
            let (t, b) = tri_edge(vertices@, i as int);
            assert(t == *top && b == *bottom);
        }
        if !(top.coord.y == bottom.coord.y || top.coord.y > line || bottom.coord.y <= line) {
            if bottom.coord.y < max_y {
                max_y = bottom.coord.y;
            }
            let l = Line::from_vertices(top, bottom, line);
            match left {
                None => {
                    left = Some(l);
                },
                Some(o) => {
                    if l.x.val < o.x.val {
                        right = Some(o);
                        left = Some(l);
                    } else if l.x.val > o.x.val {
                        left = Some(o);
                        right = Some(l);
                    } else if l.x.gradient < o.x.gradient {
                        right = Some(o);
                        left = Some(l);
                    } else {
                        left = Some(o);
                        right = Some(l);
                    }
                },
            }
        }
        i = i + 1;
    }
    match (left, right) {
        (Some(l), Some(r)) => Some(Lines { left: l, right: r, max_y }),
        _ => None,
    }
}

/// Advancing one more step from `k` steps in gives `k + 1` steps in.
pub proof fn lemma_line_step(l: Line, k: int)
    requires
        line_advance_fits(l, k),
        line_advance_fits(l, k + 1),
    ensures
        line_advance_fits(line_advanced(l, k), 1),
        line_advanced(line_advanced(l, k), 1) == line_advanced(l, k + 1),
{
    lemma_value_step(l.x, k);
    lemma_value_step(l.r, k);
    lemma_value_step(l.g, k);
    lemma_value_step(l.b, k);
    lemma_value_step(l.tex_s, k);
    lemma_value_step(l.tex_t, k);
}

proof fn lemma_value_step(v: InterpolatedValue, k: int)
    requires
        advance_fits(v, k),
        advance_fits(v, k + 1),
    ensures
        advance_fits(advanced(v, k), 1),
        advanced(advanced(v, k), 1) == advanced(v, k + 1),
{
    assert((k + 1) * v.gradient == k * v.gradient + v.gradient) by (nonlinear_arith);
}

/// A line advanced no steps is itself.
pub proof fn lemma_line_zero(l: Line)
    ensures
        line_advanced(l, 0) == l,
        line_advance_fits(l, 0),
{
}

/// A colour stepped along a line.
#[derive(Clone, Copy, PartialEq, Eq, Structural, Debug)]
pub struct InterpolatedColor {
    pub r: InterpolatedValue,
    pub g: InterpolatedValue,
    pub b: InterpolatedValue,
}

/// The colour from `a` to `b` over `d` steps, at its start.
pub open spec fn color_ramp(a: Color, b: Color, d: int) -> InterpolatedColor {
    let g = unit_gradient(d);
    InterpolatedColor {
        r: interp(g, a.r as int, b.r as int, 0),
        g: interp(g, a.g as int, b.g as int, 0),
        b: interp(g, a.b as int, b.b as int, 0),
    }
}

/// A colour ramp advanced `k` steps.
pub open spec fn ramp_advanced(c: InterpolatedColor, k: int) -> InterpolatedColor {
    InterpolatedColor { r: advanced(c.r, k), g: advanced(c.g, k), b: advanced(c.b, k) }
}

/// The colour a ramp carries.
pub open spec fn ramp_color(c: InterpolatedColor) -> Color {
    Color {
        r: round_fixed(c.r.val as int) as u8,
        g: round_fixed(c.g.val as int) as u8,
        b: round_fixed(c.b.val as int) as u8,
        mask: 0,
    }
}

/// The unit gradient is at most one whole unit either way.
pub proof fn lemma_unit_gradient_bound(d: int)
    ensures
        -0x10000 <= unit_gradient(d) <= 0x10000,
        d > 0 ==> 0 <= unit_gradient(d),
        d < 0 ==> unit_gradient(d) <= 0,
{
    if d > 0 {
        assert(0 <= 0x10000int / d <= 0x10000) by (nonlinear_arith)
            requires d > 0;
    } else if d < 0 {
        assert(0 <= 0x10000int / (-d) <= 0x10000) by (nonlinear_arith)
            requires -d > 0;
    }
}

/// A colour channel steps by less than 256 whole units over its span.
proof fn lemma_ramp_channel(a: int, b: int, d: int)
    requires
        0 <= a <= 255,
        0 <= b <= 255,
    ensures
        -0x100_0000 <= unit_gradient(d) * (b - a) <= 0x100_0000,
{
    let g = unit_gradient(d);
    lemma_unit_gradient_bound(d);
    assert(-0x100_0000 <= g * (b - a) <= 0x100_0000) by (nonlinear_arith)
        requires -0x10000 <= g <= 0x10000, -255 <= b - a <= 255;
}

/// A channel of a colour ramp over `d` steps: it starts at a byte value,
/// scaled up, and steps by at most 255 units over the ramp.
pub open spec fn ramp_channel_ok(v: InterpolatedValue, d: int) -> bool {
    &&& d >= 0
    &&& 0 <= v.val <= 0xFF_0000
    &&& -255 * unit_gradient(d) <= v.gradient <= 255 * unit_gradient(d)
}

/// Each channel of a colour is a ramp over `d` steps.
pub open spec fn ramp_ok(c: InterpolatedColor, d: int) -> bool {
    ramp_channel_ok(c.r, d) && ramp_channel_ok(c.g, d) && ramp_channel_ok(c.b, d)
}

/// A colour ramp between two colours over `d >= 0` steps is one.
pub proof fn lemma_ramp_start(a: Color, b: Color, d: int)
    requires
        d >= 0,
    ensures
        ramp_ok(color_ramp(a, b, d), d),
{
    lemma_ramp_channel_start(a.r as int, b.r as int, d);
    lemma_ramp_channel_start(a.g as int, b.g as int, d);
    lemma_ramp_channel_start(a.b as int, b.b as int, d);
}

proof fn lemma_ramp_channel_start(x: int, y: int, d: int)
    requires
        d >= 0,
        0 <= x <= 255,
        0 <= y <= 255,
    ensures
        ramp_channel_ok(interp(unit_gradient(d), x, y, 0), d),
{
    lemma_unit_gradient_bound(d);
    let g = unit_gradient(d);
    assert(-255 * g <= g * (y - x) <= 255 * g) by (nonlinear_arith)
        requires 0 <= g, -255 <= y - x <= 255;
}

/// A ramp over `d` steps can be advanced up to one step past its end and
/// its colour read anywhere along the way.
pub proof fn lemma_ramp_advance(c: InterpolatedColor, d: int, k: int)
    requires
        ramp_ok(c, d),
        0 <= k <= d + 1,
    ensures
        advance_fits(c.r, k) && advance_fits(c.g, k) && advance_fits(c.b, k),
        round_fits(advanced(c.r, k)) && round_fits(advanced(c.g, k)) && round_fits(advanced(c.b, k)),
        advance_fits(c.r, 1) && advance_fits(c.g, 1) && advance_fits(c.b, 1),
        k <= d ==> advance_fits(advanced(c.r, k), 1) && advance_fits(advanced(c.g, k), 1)
            && advance_fits(advanced(c.b, k), 1),
        k <= d ==> ramp_advanced(ramp_advanced(c, k), 1) == ramp_advanced(c, k + 1),
{
    if k <= d {
        lemma_channel_advance(c.r, d, k + 1);
        lemma_channel_advance(c.g, d, k + 1);
        lemma_channel_advance(c.b, d, k + 1);
    }
    lemma_channel_advance(c.r, d, k);
    lemma_channel_advance(c.g, d, k);
    lemma_channel_advance(c.b, d, k);
}

proof fn lemma_channel_advance(v: InterpolatedValue, d: int, k: int)
    requires
        ramp_channel_ok(v, d),
        0 <= k <= d + 1,
    ensures
        advance_fits(v, k),
        round_fits(advanced(v, k)),
        advance_fits(v, 1),
        (k + 1) * v.gradient == k * v.gradient + v.gradient,
{
    assert((k + 1) * v.gradient == k * v.gradient + v.gradient) by (nonlinear_arith);
    lemma_unit_gradient_bound(d);
    let g = unit_gradient(d);
    assert(k * g <= 0x20000) by {
        if d > 0 {
            assert(d * (0x10000int / d) <= 0x10000) by (nonlinear_arith)
                requires d > 0;
            assert(k * g <= 0x20000) by (nonlinear_arith)
                requires 0 <= k <= d + 1, d > 0, d * g <= 0x10000, 0 <= g <= 0x10000;
        }
    }
    assert(-255 * 0x20000 <= k * v.gradient <= 255 * 0x20000) by (nonlinear_arith)
        requires 0 <= k, k * g <= 0x20000, -255 * g <= v.gradient <= 255 * g, 0 <= g;
    assert(-255 * 0x10000 <= v.gradient <= 255 * 0x10000) by (nonlinear_arith)
        requires -255 * g <= v.gradient <= 255 * g, 0 <= g <= 0x10000;
}

impl InterpolatedColor {
    /// The colour from `left` to `right` over their horizontal distance.
    pub fn from_x_major(left: &Vertex, right: &Vertex) -> (r: Self)
        requires
            fits_i16(right.coord.x - left.coord.x),
        ensures
            r == color_ramp(left.col, right.col, right.coord.x - left.coord.x),
    {
        let d = right.coord.x - left.coord.x;
        let gradient = unit_gradient_exec(d as i32);
        proof {
            lemma_ramp_channel(left.col.r as int, right.col.r as int, d as int);
            lemma_ramp_channel(left.col.g as int, right.col.g as int, d as int);
            lemma_ramp_channel(left.col.b as int, right.col.b as int, d as int);
        }
        Self {
            r: InterpolatedValue::new(gradient, left.col.r as i32, right.col.r as i32, 0),
            g: InterpolatedValue::new(gradient, left.col.g as i32, right.col.g as i32, 0),
            b: InterpolatedValue::new(gradient, left.col.b as i32, right.col.b as i32, 0),
        }
    }

    /// The colour from `top` to `bottom` over their vertical distance.
    pub fn from_y_major(top: &Vertex, bottom: &Vertex) -> (r: Self)
        requires
            fits_i16(bottom.coord.y - top.coord.y),
        ensures
            r == color_ramp(top.col, bottom.col, bottom.coord.y - top.coord.y),
    {
        let d = bottom.coord.y - top.coord.y;
        let gradient = unit_gradient_exec(d as i32);
        proof {
            lemma_ramp_channel(top.col.r as int, bottom.col.r as int, d as int);
            lemma_ramp_channel(top.col.g as int, bottom.col.g as int, d as int);
            lemma_ramp_channel(top.col.b as int, bottom.col.b as int, d as int);
        }
        Self {
            r: InterpolatedValue::new(gradient, top.col.r as i32, bottom.col.r as i32, 0),
            g: InterpolatedValue::new(gradient, top.col.g as i32, bottom.col.g as i32, 0),
            b: InterpolatedValue::new(gradient, top.col.b as i32, bottom.col.b as i32, 0),
        }
    }

    /// The colour, each channel rounded and cut to a byte.
    pub fn get(&self) -> (r: Color)
        requires
            round_fits(self.r),
            round_fits(self.g),
            round_fits(self.b),
        ensures
            r == ramp_color(*self),
    {
        Color { r: self.r.round() as u8, g: self.g.round() as u8, b: self.b.round() as u8, mask: 0 }
    }

    /// Advance one step.
    pub fn inc(&mut self)
        requires
            advance_fits(old(self).r, 1),
            advance_fits(old(self).g, 1),
            advance_fits(old(self).b, 1),
        ensures
            *final(self) == ramp_advanced(*old(self), 1),
    {
        self.r.inc();
        self.g.inc();
        self.b.inc();
    }
}

/// Whether `x` fits in a signed word.
fn fits_i32_check(x: i64) -> (r: bool)
    ensures
        r == fits_i32(x as int),
{
    i32::MIN as i64 <= x && x <= i32::MAX as i64
}

/// Whether `x` fits in a signed halfword.
pub fn fits_i16_check(x: i64) -> (r: bool)
    ensures
        r == fits_i16(x as int),
{
    i16::MIN as i64 <= x && x <= i16::MAX as i64
}

/// Whether `interp(grad, a, b, i)` fits, for a unit gradient and values
/// and steps within halfwords.
fn interp_fits_check(grad: i32, a: i32, b: i32, i: i32) -> (r: bool)
    requires
        -0x10000 <= grad <= 0x10000,
        -0x8000 <= a <= 0xFFFF,
        -0x8000 <= b <= 0xFFFF,
        -0x10000 <= i <= 0x10000,
    ensures
        r == interp_fits(grad as int, a as int, b as int, i as int),
{
    let d = b as i64 - a as i64;
    assert(-0x10000 * 0x20000 <= grad * d <= 0x10000 * 0x20000) by (nonlinear_arith)
        requires -0x10000 <= grad <= 0x10000, -0x20000 <= d <= 0x20000;
    let p = grad as i64 * d;
    assert(-0x10000 * 0x10000 * 0x20000 <= i * p <= 0x10000 * 0x10000 * 0x20000) by (nonlinear_arith)
        requires -0x10000 <= i <= 0x10000, -0x10000 * 0x20000 <= p <= 0x10000 * 0x20000;
    let q = i as i64 * p;
    let base = a as i64 * 0x10000;
    fits_i32_check(d) && fits_i32_check(p) && fits_i32_check(base) && fits_i32_check(q) && fits_i32_check(base + q)
}

/// Whether `interp_shifted(grad, a, b, i)` fits, for a unit gradient and a
/// step within halfwords.
fn interp_shifted_fits_check(grad: i32, a: i32, b: i32, i: i32) -> (r: bool)
    requires
        -0x10000 <= grad <= 0x10000,
        -0x10000 <= i <= 0x10000,
    ensures
        r == interp_shifted_fits(grad as int, a as int, b as int, i as int),
{
    let d = b as i64 - a as i64;
    if !fits_i32_check(d) {
        return false;
    }
    let d32 = d as i32;
    proof {
        lemma_shr_is_div_i32(d32);
    }
    let w = (d32 >> 16) as i64;
    assert(-0x10000 * 0x8000 <= grad * w <= 0x10000 * 0x8000) by (nonlinear_arith)
        requires -0x10000 <= grad <= 0x10000, -0x8000 <= w <= 0x8000;
    let p = grad as i64 * w;
    assert(-0x10000 * 0x10000 * 0x8000 <= i * p <= 0x10000 * 0x10000 * 0x8000) by (nonlinear_arith)
        requires -0x10000 <= i <= 0x10000, -0x10000 * 0x8000 <= p <= 0x10000 * 0x8000;
    let q = i as i64 * p;
    fits_i32_check(p) && fits_i32_check(q) && fits_i32_check(a as i64 + q)
}

/// Whether advancing `v` by `i` steps fits.
pub fn advance_fits_check(v: InterpolatedValue, i: i64) -> (r: bool)
    requires
        -0x100000 <= i <= 0x100000,
    ensures
        r == advance_fits(v, i as int),
{
    let g = v.gradient as i64;
    assert(-0x100000 * 0x80000000 <= i * g <= 0x100000 * 0x80000000) by (nonlinear_arith)
        requires -0x100000 <= i <= 0x100000, -0x80000000 <= g <= 0x80000000;
    let p = i * g;
    fits_i32_check(p) && fits_i32_check(v.val as i64 + p)
}

/// Whether rounding `v` fits.
pub fn round_fits_check(v: InterpolatedValue) -> (r: bool)
    ensures
        r == round_fits(v),
{
    fits_i32_check(v.val as i64 + 0x8000)
}

/// Whether advancing every value of `l` by `i` steps fits.
pub fn line_advance_fits_check(l: &Line, i: i64) -> (r: bool)
    requires
        -0x100000 <= i <= 0x100000,
    ensures
        r == line_advance_fits(*l, i as int),
{
    advance_fits_check(l.x, i) && advance_fits_check(l.r, i) && advance_fits_check(l.g, i)
        && advance_fits_check(l.b, i) && advance_fits_check(l.tex_s, i) && advance_fits_check(l.tex_t, i)
}

/// Whether the edge from `top` to `bottom` can be stepped to scanline `line`.
pub fn edge_fits_check(top: &Vertex, bottom: &Vertex, line: i16) -> (r: bool)
    ensures
        r == edge_fits(*top, *bottom, line as int),
{
    if !(top.coord.y < bottom.coord.y) {
        return false;
    }
    let d = bottom.coord.y as i64 - top.coord.y as i64;
    let i = line as i64 - top.coord.y as i64;
    if !fits_i16_check(d) || !fits_i16_check(i) {
        return false;
    }
    let g = unit_gradient_exec(d as i32);
    let i = i as i32;
    interp_fits_check(g, top.coord.x as i32, bottom.coord.x as i32, i)
        && interp_fits_check(g, top.col.r as i32, bottom.col.r as i32, i)
        && interp_fits_check(g, top.col.g as i32, bottom.col.g as i32, i)
        && interp_fits_check(g, top.col.b as i32, bottom.col.b as i32, i)
        && interp_fits_check(g, top.tex.s as i32, bottom.tex.s as i32, i)
        && interp_fits_check(g, top.tex.t as i32, bottom.tex.t as i32, i)
}

/// Whether the span from `left` to `right` can be stepped to column `x`.
pub fn span_fits_check(left: &Line, right: &Line, x: i16) -> (r: bool)
    ensures
        r == span_fits(*left, *right, x as int),
{
    if !round_fits_check(left.x) || !round_fits_check(right.x) {
        return false;
    }
    let lx = left.get_x() as i64;
    let rx = right.get_x() as i64;
    if lx == rx {
        return false;
    }
    let d = rx - lx;
    let i = x as i64 - lx;
    if !fits_i16_check(d) || !fits_i16_check(i) {
        return false;
    }
    let g = unit_gradient_exec(d as i32);
    let i = i as i32;
    interp_shifted_fits_check(g, left.r.val, right.r.val, i)
        && interp_shifted_fits_check(g, left.g.val, right.g.val, i)
        && interp_shifted_fits_check(g, left.b.val, right.b.val, i)
        && interp_shifted_fits_check(g, left.tex_s.val, right.tex_s.val, i)
        && interp_shifted_fits_check(g, left.tex_t.val, right.tex_t.val, i)
}

/// Whether each edge of the triangle `vertices` that spans scanline `line`
/// can be stepped to it.
pub fn edges_fit_check(vertices: &[Vertex], line: i16) -> (r: bool)
    requires
        vertices@.len() == 3,
    ensures
        r == edges_fit(vertices@, line as int),
{
    let mut i: usize = 0;
    while i < 3
        invariant
            i <= 3,
            vertices@.len() == 3,
            forall|j: int| 0 <= j < i ==> {
                let (top, bottom) = #[trigger] tri_edge(vertices@, j);
                edge_spans(top, bottom, line as int) ==> edge_fits(top, bottom, line as int)
            },
        decreases 3 - i,
    {
        let vertex_a = &vertices[i];
        let vertex_b = &vertices[(i + 1) % 3];
        let (top, bottom) = if vertex_a.coord.y > vertex_b.coord.y {
            (vertex_b, vertex_a)
        } else {
            (vertex_a, vertex_b)
        };
        proof {
            let (t, b) = tri_edge(vertices@, i as int);
            assert(t == *top && b == *bottom);
        }
        if !(top.coord.y == bottom.coord.y || top.coord.y > line || bottom.coord.y <= line) {
            if !edge_fits_check(top, bottom, line) {
                return false;
            }
        }
        i = i + 1;
    }
    true
}

} // verus!
