//! A 2D canvas of circles, line segments, polygons and text labels.

use vstd::prelude::*;
use crate::bounds::{bounds_text, push_bounds, ItemBounds};
use crate::color::{hex_string, lemma_code_injective, push_color, Color};
use crate::groups::{group_block, grouped_extend, keys_distinct, GroupView, Groups, Keyed};
use crate::scalar::Scalar;
use crate::text::{
    decimal_digits,
    push_decimal,
    push_quoted,
    push_tagged,
    push_wire_all,
    quoted_token,
    tagged,
    wire_all,
    Block,
    Wire,
};

verus! {

/// A circle: center and radius.
#[derive(Debug)]
pub struct Circle {
    pub x: Scalar,
    pub y: Scalar,
    pub r: Scalar,
}

/// A line segment from `(ax, ay)` to `(bx, by)`.
#[derive(Debug)]
pub struct Line {
    pub ax: Scalar,
    pub ay: Scalar,
    pub bx: Scalar,
    pub by: Scalar,
}

/// A text label: where it stands and what it says.
#[derive(Debug)]
pub struct TextLabel {
    pub x: Scalar,
    pub y: Scalar,
    pub text: String,
}

/// A polygon. Polygons are never merged: each is written on a line of its
/// own.
#[derive(Debug)]
pub struct PolygonGroup {
    pub stroke_color: Color,
    pub fill_color: Color,
    pub vertices: Vec<(Scalar, Scalar)>,
}

/// The style that circles of one group share.
#[derive(Debug)]
pub struct CircleStyle {
    pub stroke_color: Color,
    pub fill_color: Color,
}

/// The style that line segments of one group share.
#[derive(Debug)]
pub struct LineStyle {
    pub color: Color,
    pub width: Scalar,
}

/// The style that text labels of one group share.
#[derive(Debug)]
pub struct TextStyle {
    pub color: Color,
    pub font_size: Scalar,
}

impl Wire for Circle {
    open spec fn wire(&self) -> Seq<char> {
        self.x.wire() + self.y.wire() + self.r.wire()
    }

    fn push_wire(&self, out: &mut String) {
        self.x.push_wire(out);
        self.y.push_wire(out);
        self.r.push_wire(out);
        assert(out@ =~= old(out)@ + self.wire());
    }
}

impl Wire for Line {
    open spec fn wire(&self) -> Seq<char> {
        self.ax.wire() + self.ay.wire() + self.bx.wire() + self.by.wire()
    }

    fn push_wire(&self, out: &mut String) {
        self.ax.push_wire(out);
        self.ay.push_wire(out);
        self.bx.push_wire(out);
        self.by.push_wire(out);
        assert(out@ =~= old(out)@ + self.wire());
    }
}

impl Wire for TextLabel {
    /// The position, then the text as a free-text token.
    open spec fn wire(&self) -> Seq<char> {
        self.x.wire() + self.y.wire() + " "@ + quoted_token(self.text@)
    }

    fn push_wire(&self, out: &mut String) {
        self.x.push_wire(out);
        self.y.push_wire(out);
        out.append(" ");
        push_quoted(out, self.text.as_str());
        assert(out@ =~= old(out)@ + self.wire());
    }
}

impl Wire for (Scalar, Scalar) {
    open spec fn wire(&self) -> Seq<char> {
        self.0.wire() + self.1.wire()
    }

    fn push_wire(&self, out: &mut String) {
        self.0.push_wire(out);
        self.1.push_wire(out);
        assert(out@ =~= old(out)@ + self.wire());
    }
}

impl Wire for PolygonGroup {
    /// A whole line: both colors, the number of vertices, the vertices.
    open spec fn wire(&self) -> Seq<char> {
        hex_string(self.stroke_color) + " "@ + hex_string(self.fill_color) + " "@ + decimal_digits(
            self.vertices@.len(),
        ) + wire_all(self.vertices@) + "\n"@
    }

    fn push_wire(&self, out: &mut String) {
        push_color(out, self.stroke_color);
        out.append(" ");
        push_color(out, self.fill_color);
        out.append(" ");
        push_decimal(out, self.vertices.len() as u64);
        push_wire_all(out, &self.vertices);
        out.append("\n");
        assert(out@ =~= old(out)@ + self.wire());
    }
}

impl Keyed for CircleStyle {
    /// Circles are grouped by the pair of their colors.
    open spec fn key(&self) -> (u64, u64) {
        (self.stroke_color.spec_code(), self.fill_color.spec_code())
    }

    fn key_of(&self) -> (k: (u64, u64)) {
        (self.stroke_color.code(), self.fill_color.code())
    }
}

impl Wire for CircleStyle {
    open spec fn wire(&self) -> Seq<char> {
        hex_string(self.stroke_color) + " "@ + hex_string(self.fill_color)
    }

    fn push_wire(&self, out: &mut String) {
        push_color(out, self.stroke_color);
        out.append(" ");
        push_color(out, self.fill_color);
        assert(out@ =~= old(out)@ + self.wire());
    }
}

impl Keyed for LineStyle {
    /// Line segments are grouped by their color and the bit pattern of their
    /// width.
    open spec fn key(&self) -> (u64, u64) {
        (self.color.spec_code(), self.width.bits)
    }

    fn key_of(&self) -> (k: (u64, u64)) {
        (self.color.code(), self.width.bits)
    }
}

impl Wire for LineStyle {
    open spec fn wire(&self) -> Seq<char> {
        hex_string(self.color) + self.width.wire()
    }

    fn push_wire(&self, out: &mut String) {
        push_color(out, self.color);
        self.width.push_wire(out);
        assert(out@ =~= old(out)@ + self.wire());
    }
}

impl Keyed for TextStyle {
    /// Text labels are grouped by their color and the bit pattern of their
    /// font size.
    open spec fn key(&self) -> (u64, u64) {
        (self.color.spec_code(), self.font_size.bits)
    }

    fn key_of(&self) -> (k: (u64, u64)) {
        (self.color.code(), self.font_size.bits)
    }
}

impl Wire for TextStyle {
    open spec fn wire(&self) -> Seq<char> {
        hex_string(self.color) + self.font_size.wire()
    }

    fn push_wire(&self, out: &mut String) {
        push_color(out, self.color);
        self.font_size.push_wire(out);
        assert(out@ =~= old(out)@ + self.wire());
    }
}

/// Two circle styles have the same key exactly when they have the same pair
/// of colors: circles share a group when, and only when, both colors agree.
pub proof fn lemma_circle_groups_by_color_pair(a: CircleStyle, b: CircleStyle)
    ensures
        a.key() == b.key() <==> a == b,
{
    if a.key() == b.key() {
        lemma_code_injective(a.stroke_color, b.stroke_color);
        lemma_code_injective(a.fill_color, b.fill_color);
    }
}

/// Two line styles have the same key exactly when they have the same color
/// and widths of the same bit pattern.
pub proof fn lemma_line_groups_by_color_and_width_bits(a: LineStyle, b: LineStyle)
    ensures
        a.key() == b.key() <==> a.color == b.color && a.width.bits == b.width.bits,
{
    if a.key() == b.key() {
        lemma_code_injective(a.color, b.color);
    }
}

/// Two text styles have the same key exactly when they have the same color
/// and font sizes of the same bit pattern.
pub proof fn lemma_text_groups_by_color_and_size_bits(a: TextStyle, b: TextStyle)
    ensures
        a.key() == b.key() <==> a.color == b.color && a.font_size.bits == b.font_size.bits,
{
    if a.key() == b.key() {
        lemma_code_injective(a.color, b.color);
    }
}

/// The segments that a list of points gives when it is read two points at a
/// time: the first with the second, the third with the fourth, and so on. A
/// last point without a partner gives nothing.
pub open spec fn paired(points: Seq<(Scalar, Scalar)>) -> Seq<Line> {
    Seq::new(
        (points.len() / 2) as nat,
        |i: int|
            Line {
                ax: points[2 * i].0,
                ay: points[2 * i].1,
                bx: points[2 * i + 1].0,
                by: points[2 * i + 1].1,
            },
    )
}

/// A section that is left out when it has nothing to show: else its title
/// on a line of its own, then its counted block.
pub open spec fn optional_section(title: Seq<char>, count: nat, block: Seq<char>) -> Seq<char> {
    if count == 0 {
        Seq::empty()
    } else {
        title + "\n"@ + block
    }
}

/// The counted block of the polygons: their number on a line of its own,
/// then one line for each.
pub open spec fn polygon_block(polygons: Seq<PolygonGroup>) -> Seq<char> {
    decimal_digits(polygons.len()) + "\n"@ + wire_all(polygons)
}

/// A 2D canvas of a given size that collects circles, line segments,
/// polygons and text labels, and writes them grouped by style.
pub struct Vis2DPlane {
    h: Scalar,
    w: Scalar,
    bounds: Option<ItemBounds>,
    circle_groups: Groups<CircleStyle, Circle>,
    line_groups: Groups<LineStyle, Line>,
    polygon_groups: Vec<PolygonGroup>,
    text_groups: Groups<TextStyle, TextLabel>,
}

impl Vis2DPlane {
    /// The height of the canvas.
    pub closed spec fn height(&self) -> Scalar {
        self.h
    }

    /// The width of the canvas.
    pub closed spec fn width(&self) -> Scalar {
        self.w
    }

    /// Where the canvas is placed, if that was said.
    pub closed spec fn bounds(&self) -> Option<ItemBounds> {
        self.bounds
    }

    /// The circles, grouped by color pair.
    pub closed spec fn circle_groups(&self) -> Seq<GroupView<CircleStyle, Circle>> {
        self.circle_groups@
    }

    /// The line segments, grouped by color and width.
    pub closed spec fn line_groups(&self) -> Seq<GroupView<LineStyle, Line>> {
        self.line_groups@
    }

    /// The polygons, in the order in which they were added.
    pub closed spec fn polygons(&self) -> Seq<PolygonGroup> {
        self.polygon_groups@
    }

    /// The text labels, grouped by color and font size.
    pub closed spec fn text_groups(&self) -> Seq<GroupView<TextStyle, TextLabel>> {
        self.text_groups@
    }

    /// The header line of the plane.
    pub open spec fn header_line(&self, mode: Seq<char>) -> Seq<char> {
        tagged(mode, "2D_PLANE"@) + bounds_text(self.bounds()) + self.height().wire()
            + self.width().wire() + "\n"@
    }

    /// The text of the plane on the wire: the header line, then the sections
    /// of circles, line segments, polygons and text labels, each left out
    /// when the plane has none of its kind.
    pub open spec fn spec_vis_string(&self, mode: Seq<char>) -> Seq<char> {
        self.header_line(mode) + optional_section(
            "CIRCLES"@,
            self.circle_groups().len(),
            group_block(self.circle_groups()),
        ) + optional_section("LINES"@, self.line_groups().len(), group_block(self.line_groups()))
            + optional_section("POLYGONS"@, self.polygons().len(), polygon_block(self.polygons()))
            + optional_section("TEXT"@, self.text_groups().len(), group_block(self.text_groups()))
    }

    /// An empty canvas of the given size.
    pub fn new(h: Scalar, w: Scalar, bounds: Option<ItemBounds>) -> (p: Self)
        ensures
            p.height() == h,
            p.width() == w,
            p.bounds() == bounds,
            p.circle_groups() == Seq::<GroupView<CircleStyle, Circle>>::empty(),
            p.line_groups() == Seq::<GroupView<LineStyle, Line>>::empty(),
            p.polygons() == Seq::<PolygonGroup>::empty(),
            p.text_groups() == Seq::<GroupView<TextStyle, TextLabel>>::empty(),
    {
        Vis2DPlane {
            h,
            w,
            bounds,
            circle_groups: Groups::new(),
            line_groups: Groups::new(),
            polygon_groups: Vec::new(),
            text_groups: Groups::new(),
        }
    }

    /// Says where the canvas is placed.
    pub fn set_bounds(self, bounds: ItemBounds) -> (p: Self)
        ensures
            p.bounds() == Some(bounds),
            p.height() == self.height(),
            p.width() == self.width(),
            p.circle_groups() == self.circle_groups(),
            p.line_groups() == self.line_groups(),
            p.polygons() == self.polygons(),
            p.text_groups() == self.text_groups(),
    {
        let mut p = self;
        p.bounds = Some(bounds);
        p
    }

    /// Adds circles that share a color pair.
    pub fn add_circle_group(self, stroke_color: Color, fill_color: Color, circles: Vec<Circle>) -> (p:
        Self)
        ensures
            p.circle_groups() == grouped_extend(
                self.circle_groups(),
                CircleStyle { stroke_color, fill_color },
                circles@,
            ),
            keys_distinct(p.circle_groups()),
            p.height() == self.height(),
            p.width() == self.width(),
            p.bounds() == self.bounds(),
            p.line_groups() == self.line_groups(),
            p.polygons() == self.polygons(),
            p.text_groups() == self.text_groups(),
    {
        let Vis2DPlane { h, w, bounds, circle_groups, line_groups, polygon_groups, text_groups } =
            self;
        let circle_groups = circle_groups.extend(CircleStyle { stroke_color, fill_color }, circles);
        Vis2DPlane { h, w, bounds, circle_groups, line_groups, polygon_groups, text_groups }
    }

    /// Adds one circle.
    pub fn add_circle(self, stroke_color: Color, fill_color: Color, x: Scalar, y: Scalar, r: Scalar) -> (p:
        Self)
        ensures
            p.circle_groups() == grouped_extend(
                self.circle_groups(),
                CircleStyle { stroke_color, fill_color },
                seq![Circle { x, y, r }],
            ),
            keys_distinct(p.circle_groups()),
            p.height() == self.height(),
            p.width() == self.width(),
            p.bounds() == self.bounds(),
            p.line_groups() == self.line_groups(),
            p.polygons() == self.polygons(),
            p.text_groups() == self.text_groups(),
    {
        let Vis2DPlane { h, w, bounds, circle_groups, line_groups, polygon_groups, text_groups } =
            self;
        let circle_groups = circle_groups.push(
            CircleStyle { stroke_color, fill_color },
            Circle { x, y, r },
        );
        Vis2DPlane { h, w, bounds, circle_groups, line_groups, polygon_groups, text_groups }
    }

    /// Adds the line segments that `points` gives when read two at a time.
    pub fn add_line_group(self, color: Color, width: Scalar, points: Vec<(Scalar, Scalar)>) -> (p:
        Self)
        ensures
            p.line_groups() == grouped_extend(
                self.line_groups(),
                LineStyle { color, width },
                paired(points@),
            ),
            keys_distinct(p.line_groups()),
            p.height() == self.height(),
            p.width() == self.width(),
            p.bounds() == self.bounds(),
            p.circle_groups() == self.circle_groups(),
            p.polygons() == self.polygons(),
            p.text_groups() == self.text_groups(),
    {
        let lines = pair_up(&points);
        let Vis2DPlane { h, w, bounds, circle_groups, line_groups, polygon_groups, text_groups } =
            self;
        let line_groups = line_groups.extend(LineStyle { color, width }, lines);
        Vis2DPlane { h, w, bounds, circle_groups, line_groups, polygon_groups, text_groups }
    }

    /// Adds one line segment.
    pub fn add_line(
        self,
        color: Color,
        width: Scalar,
        ax: Scalar,
        ay: Scalar,
        bx: Scalar,
        by: Scalar,
    ) -> (p: Self)
        ensures
            p.line_groups() == grouped_extend(
                self.line_groups(),
                LineStyle { color, width },
                seq![Line { ax, ay, bx, by }],
            ),
            keys_distinct(p.line_groups()),
            p.height() == self.height(),
            p.width() == self.width(),
            p.bounds() == self.bounds(),
            p.circle_groups() == self.circle_groups(),
            p.polygons() == self.polygons(),
            p.text_groups() == self.text_groups(),
    {
        let Vis2DPlane { h, w, bounds, circle_groups, line_groups, polygon_groups, text_groups } =
            self;
        let line_groups = line_groups.push(LineStyle { color, width }, Line { ax, ay, bx, by });
        Vis2DPlane { h, w, bounds, circle_groups, line_groups, polygon_groups, text_groups }
    }

    /// Adds one polygon.
    pub fn add_polygon(self, stroke_color: Color, fill_color: Color, vertices: Vec<(Scalar, Scalar)>) -> (p:
        Self)
        ensures
            p.polygons() == self.polygons().push(
                PolygonGroup { stroke_color, fill_color, vertices },
            ),
            p.height() == self.height(),
            p.width() == self.width(),
            p.bounds() == self.bounds(),
            p.circle_groups() == self.circle_groups(),
            p.line_groups() == self.line_groups(),
            p.text_groups() == self.text_groups(),
    {
        let mut p = self;
        p.polygon_groups.push(PolygonGroup { stroke_color, fill_color, vertices });
        p
    }

    /// Adds one text label.
    pub fn add_text(self, color: Color, font_size: Scalar, x: Scalar, y: Scalar, text: String) -> (p:
        Self)
        ensures
            p.text_groups() == grouped_extend(
                self.text_groups(),
                TextStyle { color, font_size },
                seq![TextLabel { x, y, text }],
            ),
            keys_distinct(p.text_groups()),
            p.height() == self.height(),
            p.width() == self.width(),
            p.bounds() == self.bounds(),
            p.circle_groups() == self.circle_groups(),
            p.line_groups() == self.line_groups(),
            p.polygons() == self.polygons(),
    {
        let Vis2DPlane { h, w, bounds, circle_groups, line_groups, polygon_groups, text_groups } =
            self;
        let text_groups = text_groups.push(TextStyle { color, font_size }, TextLabel { x, y, text });
        Vis2DPlane { h, w, bounds, circle_groups, line_groups, polygon_groups, text_groups }
    }

    /// Appends the header line of the plane to `out`.
    fn push_header(&self, out: &mut String, mode: &str)
        ensures
            final(out)@ == old(out)@ + self.header_line(mode@),
    {
        push_tagged(out, mode, "2D_PLANE");
        push_bounds(out, &self.bounds);
        self.h.push_wire(out);
        self.w.push_wire(out);
        out.append("\n");
        assert(out@ =~= old(out)@ + self.header_line(mode@));
    }

    /// Appends the section of the polygons to `out`.
    fn push_polygons(&self, out: &mut String)
        ensures
            final(out)@ == old(out)@ + optional_section(
                "POLYGONS"@,
                self.polygons().len(),
                polygon_block(self.polygons()),
            ),
    {
        if self.polygon_groups.len() > 0 {
            out.append("POLYGONS");
            out.append("\n");
            push_decimal(out, self.polygon_groups.len() as u64);
            out.append("\n");
            push_wire_all(out, &self.polygon_groups);
        }
        assert(out@ =~= old(out)@ + optional_section(
            "POLYGONS"@,
            self.polygons().len(),
            polygon_block(self.polygons()),
        ));
    }

    /// Writes the plane for the given mode.
    pub fn to_vis_string(&self, mode: &str) -> (s: String)
        ensures
            s@ == self.spec_vis_string(mode@),
    {
        let mut out = String::new();
        let ghost header = self.header_line(mode@);
        self.push_header(&mut out, mode);
        assert(Seq::<char>::empty() + header =~= header);
        push_group_section(&mut out, "CIRCLES", &self.circle_groups);
        push_group_section(&mut out, "LINES", &self.line_groups);
        self.push_polygons(&mut out);
        push_group_section(&mut out, "TEXT", &self.text_groups);
        out
    }
}

impl Block for Vis2DPlane {
    open spec fn block(&self, mode: Seq<char>) -> Seq<char> {
        self.spec_vis_string(mode)
    }

    fn push_block(&self, out: &mut String, mode: &str) {
        let s = self.to_vis_string(mode);
        out.append(s.as_str());
    }
}

/// Appends a section of groups to `out`, unless there are no groups.
fn push_group_section<H: Keyed + Wire, T: Wire>(out: &mut String, title: &str, groups: &Groups<H, T>)
    ensures
        final(out)@ == old(out)@ + optional_section(title@, groups@.len(), group_block(groups@)),
{
    if groups.len() > 0 {
        out.append(title);
        out.append("\n");
        groups.push_block(out);
    }
    assert(out@ =~= old(out)@ + optional_section(title@, groups@.len(), group_block(groups@)));
}

/// Reads `points` two at a time into line segments.
fn pair_up(points: &Vec<(Scalar, Scalar)>) -> (lines: Vec<Line>)
    ensures
        lines@ == paired(points@),
{
    let mut lines: Vec<Line> = Vec::new();
    let n = points.len() / 2;
    let mut i: usize = 0;
    while i < n
        invariant
            n == points@.len() / 2,
            0 <= i <= n,
            2 * n <= points@.len() <= usize::MAX,
            lines@.len() == i,
            forall|j: int| 0 <= j < i ==> lines@[j] == paired(points@)[j],
        decreases n - i,
    {
        let a = &points[2 * i];
        let b = &points[2 * i + 1];
        lines.push(Line { ax: a.0.clone(), ay: a.1.clone(), bx: b.0.clone(), by: b.1.clone() });
        i += 1;
    }
    assert(lines@ =~= paired(points@));
    lines
}

} // verus!
