//! Frames: one snapshot each, made of items, a score, notes and bar graphs.

use vstd::prelude::*;
use vstd::string::StringExecFns;
use crate::color::{hex_string, push_color, Color};
use crate::grid::VisGrid;
use crate::plane::Vis2DPlane;
use crate::scalar::Scalar;
use crate::text::{
    block_all,
    decimal_digits,
    push_block_all,
    push_decimal,
    push_quoted,
    push_tagged,
    push_wire_all,
    quoted_token,
    tagged,
    wire_all,
    Block,
    Wire,
};

verus! {

/// The size of the whole drawing area.
#[derive(Debug)]
pub struct VisCanvas {
    pub h: Scalar,
    pub w: Scalar,
}

impl VisCanvas {
    pub fn new(h: Scalar, w: Scalar) -> (c: VisCanvas)
        ensures
            c == (VisCanvas { h, w }),
    {
        VisCanvas { h, w }
    }

    /// The line of the canvas on the wire.
    pub open spec fn spec_vis_string(&self, mode: Seq<char>) -> Seq<char> {
        tagged(mode, "CANVAS"@) + self.h.wire() + self.w.wire() + "\n"@
    }

    /// Writes the canvas for the given mode.
    pub fn to_vis_string(&self, mode: &str) -> (s: String)
        ensures
            s@ == self.spec_vis_string(mode@),
    {
        let mut out = String::new();
        push_tagged(&mut out, mode, "CANVAS");
        self.h.push_wire(&mut out);
        self.w.push_wire(&mut out);
        out.append("\n");
        assert(out@ =~= self.spec_vis_string(mode@));
        out
    }
}

impl Default for VisCanvas {
    /// A canvas of 800 by 800.
    fn default() -> (c: VisCanvas)
        ensures
            c.h.bits == 0x4089_0000_0000_0000u64,
            c.h.token() == "800"@,
            c.w.bits == 0x4089_0000_0000_0000u64,
            c.w.token() == "800"@,
    {
        VisCanvas {
            h: Scalar::new(0x4089_0000_0000_0000u64, String::from_str("800")),
            w: Scalar::new(0x4089_0000_0000_0000u64, String::from_str("800")),
        }
    }
}

/// What a frame can show on its stage.
pub enum VisItem {
    Grid(VisGrid),
    Plane(Vis2DPlane),
}

impl VisItem {
    /// The text of the item on the wire: that of the grid or plane it holds.
    pub open spec fn spec_vis_string(&self, mode: Seq<char>) -> Seq<char> {
        match self {
            VisItem::Grid(grid) => grid.spec_vis_string(mode),
            VisItem::Plane(plane) => plane.spec_vis_string(mode),
        }
    }

    /// Writes the item for the given mode.
    pub fn to_vis_string(&self, mode: &str) -> (s: String)
        ensures
            s@ == self.spec_vis_string(mode@),
    {
        match self {
            VisItem::Grid(grid) => grid.to_vis_string(mode),
            VisItem::Plane(plane) => plane.to_vis_string(mode),
        }
    }
}

impl Block for VisItem {
    open spec fn block(&self, mode: Seq<char>) -> Seq<char> {
        self.spec_vis_string(mode)
    }

    fn push_block(&self, out: &mut String, mode: &str) {
        let s = self.to_vis_string(mode);
        out.append(s.as_str());
    }
}

/// A titled note beside the stage.
#[derive(Debug)]
pub struct VisTextArea {
    pub title: String,
    pub height: u32,
    pub text_color: String,
    pub fill_color: String,
    pub text: String,
}

impl VisTextArea {
    /// A note 200 high, black on white.
    pub fn new(title: String, text: String) -> (t: VisTextArea)
        ensures
            t.title == title,
            t.text == text,
            t.height == 200,
            t.text_color@ == "#000000"@,
            t.fill_color@ == "#ffffff"@,
    {
        VisTextArea {
            title,
            height: 200,
            text_color: String::from_str("#000000"),
            fill_color: String::from_str("#ffffff"),
            text,
        }
    }

    /// Sets the height.
    pub fn height(self, height: u32) -> (t: VisTextArea)
        ensures
            t == (VisTextArea { height, ..self }),
    {
        let mut t = self;
        t.height = height;
        t
    }

    /// Sets the color of the text.
    pub fn text_color(self, color: String) -> (t: VisTextArea)
        ensures
            t == (VisTextArea { text_color: color, ..self }),
    {
        let mut t = self;
        t.text_color = color;
        t
    }

    /// Sets the color of the background.
    pub fn fill_color(self, color: String) -> (t: VisTextArea)
        ensures
            t == (VisTextArea { fill_color: color, ..self }),
    {
        let mut t = self;
        t.fill_color = color;
        t
    }
}

impl Block for VisTextArea {
    /// One line: title, height, both colors, and the text, for which `""`
    /// stands where it is empty.
    open spec fn block(&self, mode: Seq<char>) -> Seq<char> {
        tagged(mode, "TEXTAREA"@) + " "@ + self.title@ + " "@ + decimal_digits(self.height as nat)
            + " "@ + self.text_color@ + " "@ + self.fill_color@ + " "@ + (if self.text@.len() == 0 {
            "\"\""@
        } else {
            self.text@
        }) + "\n"@
    }

    fn push_block(&self, out: &mut String, mode: &str) {
        push_tagged(out, mode, "TEXTAREA");
        out.append(" ");
        out.append(self.title.as_str());
        out.append(" ");
        push_decimal(out, self.height as u64);
        out.append(" ");
        out.append(self.text_color.as_str());
        out.append(" ");
        out.append(self.fill_color.as_str());
        out.append(" ");
        if self.text.as_str().is_empty() {
            out.append("\"\"");
        } else {
            out.append(self.text.as_str());
        }
        out.append("\n");
        assert(out@ =~= old(out)@ + self.block(mode@));
    }
}

/// One bar of a bar graph.
#[derive(Debug)]
pub struct BarGraphItem {
    pub label: String,
    pub value: Scalar,
}

impl BarGraphItem {
    pub fn new(label: String, value: Scalar) -> (item: BarGraphItem)
        ensures
            item == (BarGraphItem { label, value }),
    {
        BarGraphItem { label, value }
    }
}

impl Wire for BarGraphItem {
    /// A space, the label, then the value.
    open spec fn wire(&self) -> Seq<char> {
        " "@ + self.label@ + self.value.wire()
    }

    fn push_wire(&self, out: &mut String) {
        out.append(" ");
        out.append(self.label.as_str());
        self.value.push_wire(out);
        assert(out@ =~= old(out)@ + self.wire());
    }
}

/// A bar graph: a title, the color of the bars, the range of the value axis,
/// and the bars.
pub struct VisBarGraph {
    title: String,
    fill_color: Color,
    y_min: Scalar,
    y_max: Scalar,
    items: Vec<BarGraphItem>,
}

impl VisBarGraph {
    /// The title.
    pub closed spec fn title(&self) -> Seq<char> {
        self.title@
    }

    /// The color of the bars.
    pub closed spec fn fill_color(&self) -> Color {
        self.fill_color
    }

    /// The lower end of the value axis.
    pub closed spec fn y_min(&self) -> Scalar {
        self.y_min
    }

    /// The upper end of the value axis.
    pub closed spec fn y_max(&self) -> Scalar {
        self.y_max
    }

    /// The bars, in the order in which they were added.
    pub closed spec fn items(&self) -> Seq<BarGraphItem> {
        self.items@
    }

    /// The text of the bar graph on the wire: a header line with the title as
    /// a free-text token, the color and the range; then one line with the
    /// number of bars and each bar's label and value.
    pub open spec fn spec_vis_string(&self, mode: Seq<char>) -> Seq<char> {
        tagged(mode, "BAR_GRAPH"@) + " "@ + quoted_token(self.title()) + " "@ + hex_string(
            self.fill_color(),
        ) + self.y_min().wire() + self.y_max().wire() + "\n"@ + decimal_digits(self.items().len())
            + wire_all(self.items()) + "\n"@
    }

    /// A bar graph without bars.
    pub fn new(title: String, fill_color: Color, y_min: Scalar, y_max: Scalar) -> (g: VisBarGraph)
        ensures
            g.title() == title@,
            g.fill_color() == fill_color,
            g.y_min() == y_min,
            g.y_max() == y_max,
            g.items() == Seq::<BarGraphItem>::empty(),
    {
        VisBarGraph { title, fill_color, y_min, y_max, items: Vec::new() }
    }

    /// Adds one bar.
    pub fn add_item(self, label: String, value: Scalar) -> (g: VisBarGraph)
        ensures
            g.items() == self.items().push(BarGraphItem { label, value }),
            g.title() == self.title(),
            g.fill_color() == self.fill_color(),
            g.y_min() == self.y_min(),
            g.y_max() == self.y_max(),
    {
        let mut g = self;
        g.items.push(BarGraphItem::new(label, value));
        g
    }

    /// Adds bars.
    pub fn add_items(self, items: Vec<BarGraphItem>) -> (g: VisBarGraph)
        ensures
            g.items() == self.items() + items@,
            g.title() == self.title(),
            g.fill_color() == self.fill_color(),
            g.y_min() == self.y_min(),
            g.y_max() == self.y_max(),
    {
        let mut g = self;
        let mut items = items;
        g.items.append(&mut items);
        g
    }

    /// Writes the bar graph for the given mode.
    pub fn to_vis_string(&self, mode: &str) -> (s: String)
        ensures
            s@ == self.spec_vis_string(mode@),
    {
        let mut out = String::new();
        push_tagged(&mut out, mode, "BAR_GRAPH");
        out.append(" ");
        push_quoted(&mut out, self.title.as_str());
        out.append(" ");
        push_color(&mut out, self.fill_color);
        self.y_min.push_wire(&mut out);
        self.y_max.push_wire(&mut out);
        out.append("\n");
        push_decimal(&mut out, self.items.len() as u64);
        push_wire_all(&mut out, &self.items);
        out.append("\n");
        assert(out@ =~= self.spec_vis_string(mode@));
        out
    }
}

impl Block for VisBarGraph {
    open spec fn block(&self, mode: Seq<char>) -> Seq<char> {
        self.spec_vis_string(mode)
    }

    fn push_block(&self, out: &mut String, mode: &str) {
        let s = self.to_vis_string(mode);
        out.append(s.as_str());
    }
}

/// The line of the canvas, if the frame has one.
pub open spec fn canvas_text(canvas: Option<VisCanvas>, mode: Seq<char>) -> Seq<char> {
    match canvas {
        Some(c) => c.spec_vis_string(mode),
        None => Seq::empty(),
    }
}

/// The line of the score: left out when the score is empty.
pub open spec fn score_line(score: Seq<char>, mode: Seq<char>) -> Seq<char> {
    if score.len() == 0 {
        Seq::empty()
    } else {
        tagged(mode, "SCORE"@) + " "@ + score + "\n"@
    }
}

/// The line that asks for debugging: left out unless the flag is set.
pub open spec fn debug_line(debug: bool, mode: Seq<char>) -> Seq<char> {
    if debug {
        tagged(mode, "DEBUG"@) + "\n"@
    } else {
        Seq::empty()
    }
}

/// The line that ends a frame.
pub open spec fn commit_line(mode: Seq<char>) -> Seq<char> {
    tagged(mode, "COMMIT"@) + "\n"@
}

/// Whether `text` ends with `suffix`.
pub open spec fn ends_with(text: Seq<char>, suffix: Seq<char>) -> bool {
    text.len() >= suffix.len() && text.subrange(text.len() - suffix.len(), text.len() as int)
        == suffix
}

/// One snapshot: what is on the stage, the score, notes, bar graphs, and
/// whether debugging is asked for.
pub struct VisFrame {
    vis_canvas: Option<VisCanvas>,
    items: Vec<VisItem>,
    score: String,
    textarea: Vec<VisTextArea>,
    bar_graphs: Vec<VisBarGraph>,
    with_debug: bool,
}

impl VisFrame {
    /// The canvas, if one was set.
    pub closed spec fn canvas(&self) -> Option<VisCanvas> {
        self.vis_canvas
    }

    /// The grids and planes on the stage, in the order in which they were
    /// added.
    pub closed spec fn items(&self) -> Seq<VisItem> {
        self.items@
    }

    /// The score.
    pub closed spec fn score(&self) -> Seq<char> {
        self.score@
    }

    /// The notes, in the order in which they were added.
    pub closed spec fn textareas(&self) -> Seq<VisTextArea> {
        self.textarea@
    }

    /// The bar graphs, in the order in which they were added.
    pub closed spec fn bar_graphs(&self) -> Seq<VisBarGraph> {
        self.bar_graphs@
    }

    /// Whether debugging is asked for.
    pub closed spec fn debug(&self) -> bool {
        self.with_debug
    }

    /// What stands before the score line: the canvas, then the items.
    pub open spec fn stage_text(&self, mode: Seq<char>) -> Seq<char> {
        canvas_text(self.canvas(), mode) + block_all(self.items(), mode)
    }

    /// What stands between the score line and the closing line: the notes,
    /// the bar graphs, and the debug line.
    pub open spec fn notes_text(&self, mode: Seq<char>) -> Seq<char> {
        block_all(self.textareas(), mode) + block_all(self.bar_graphs(), mode) + debug_line(
            self.debug(),
            mode,
        )
    }

    /// The text of the frame on the wire: canvas, items, score, notes, bar
    /// graphs, debug line, and the closing `COMMIT` line.
    pub open spec fn spec_vis_string(&self, mode: Seq<char>) -> Seq<char> {
        self.stage_text(mode) + score_line(self.score(), mode) + self.notes_text(mode)
            + commit_line(mode)
    }

    /// Whether `other` agrees with this frame in every part whose flag is
    /// `false`.
    pub open spec fn same_but(
        &self,
        other: &VisFrame,
        canvas: bool,
        items: bool,
        score: bool,
        textareas: bool,
        bar_graphs: bool,
        debug: bool,
    ) -> bool {
        &&& canvas || other.canvas() == self.canvas()
        &&& items || other.items() == self.items()
        &&& score || other.score() == self.score()
        &&& textareas || other.textareas() == self.textareas()
        &&& bar_graphs || other.bar_graphs() == self.bar_graphs()
        &&& debug || other.debug() == self.debug()
    }

    /// An empty frame.
    pub fn new() -> (f: VisFrame)
        ensures
            f.canvas() is None,
            f.items() == Seq::<VisItem>::empty(),
            f.score() == Seq::<char>::empty(),
            f.textareas() == Seq::<VisTextArea>::empty(),
            f.bar_graphs() == Seq::<VisBarGraph>::empty(),
            !f.debug(),
    {
        VisFrame {
            vis_canvas: None,
            items: Vec::new(),
            score: String::new(),
            textarea: Vec::new(),
            bar_graphs: Vec::new(),
            with_debug: false,
        }
    }

    /// Sets the canvas.
    pub fn set_canvas(self, canvas: VisCanvas) -> (f: VisFrame)
        ensures
            f.canvas() == Some(canvas),
            self.same_but(&f, true, false, false, false, false, false),
    {
        let mut f = self;
        f.vis_canvas = Some(canvas);
        f
    }

    /// Puts a grid on the stage.
    pub fn add_grid(self, grid: VisGrid) -> (f: VisFrame)
        ensures
            f.items() == self.items().push(VisItem::Grid(grid)),
            self.same_but(&f, false, true, false, false, false, false),
    {
        let mut f = self;
        f.items.push(VisItem::Grid(grid));
        f
    }

    /// Puts a plane on the stage.
    pub fn add_2d_plane(self, plane: Vis2DPlane) -> (f: VisFrame)
        ensures
            f.items() == self.items().push(VisItem::Plane(plane)),
            self.same_but(&f, false, true, false, false, false, false),
    {
        let mut f = self;
        f.items.push(VisItem::Plane(plane));
        f
    }

    /// Puts an item on the stage.
    pub fn add_item(self, item: VisItem) -> (f: VisFrame)
        ensures
            f.items() == self.items().push(item),
            self.same_but(&f, false, true, false, false, false, false),
    {
        let mut f = self;
        f.items.push(item);
        f
    }

    /// Sets the score.
    pub fn set_score(self, score: String) -> (f: VisFrame)
        ensures
            f.score() == score@,
            self.same_but(&f, false, false, true, false, false, false),
    {
        let mut f = self;
        f.score = score;
        f
    }

    /// Adds a note.
    pub fn add_textarea(self, textarea: VisTextArea) -> (f: VisFrame)
        ensures
            f.textareas() == self.textareas().push(textarea),
            self.same_but(&f, false, false, false, true, false, false),
    {
        let mut f = self;
        f.textarea.push(textarea);
        f
    }

    /// Adds a bar graph.
    pub fn add_bar_graph(self, bar_graph: VisBarGraph) -> (f: VisFrame)
        ensures
            f.bar_graphs() == self.bar_graphs().push(bar_graph),
            self.same_but(&f, false, false, false, false, true, false),
    {
        let mut f = self;
        f.bar_graphs.push(bar_graph);
        f
    }

    /// Asks for debugging.
    pub fn enable_debug(self) -> (f: VisFrame)
        ensures
            f.debug(),
            self.same_but(&f, false, false, false, false, false, true),
    {
        let mut f = self;
        f.with_debug = true;
        f
    }

    /// No longer asks for debugging.
    pub fn disable_debug(self) -> (f: VisFrame)
        ensures
            !f.debug(),
            self.same_but(&f, false, false, false, false, false, true),
    {
        let mut f = self;
        f.with_debug = false;
        f
    }

    /// Appends what stands before the score line to `out`.
    fn push_stage(&self, out: &mut String, mode: &str)
        ensures
            final(out)@ == old(out)@ + self.stage_text(mode@),
    {
        match &self.vis_canvas {
            Some(canvas) => {
                let s = canvas.to_vis_string(mode);
                out.append(s.as_str());
            },
            None => {
                assert(out@ =~= old(out)@ + canvas_text(self.canvas(), mode@));
            },
        }
        push_block_all(out, &self.items, mode);
        assert(out@ =~= old(out)@ + self.stage_text(mode@));
    }

    /// Appends the score line to `out`.
    fn push_score(&self, out: &mut String, mode: &str)
        ensures
            final(out)@ == old(out)@ + score_line(self.score(), mode@),
    {
        if !self.score.as_str().is_empty() {
            push_tagged(out, mode, "SCORE");
            out.append(" ");
            out.append(self.score.as_str());
            out.append("\n");
        }
        assert(out@ =~= old(out)@ + score_line(self.score(), mode@));
    }

    /// Appends what stands between the score line and the closing line to
    /// `out`.
    fn push_notes(&self, out: &mut String, mode: &str)
        ensures
            final(out)@ == old(out)@ + self.notes_text(mode@),
    {
        push_block_all(out, &self.textarea, mode);
        push_block_all(out, &self.bar_graphs, mode);
        if self.with_debug {
            push_tagged(out, mode, "DEBUG");
            out.append("\n");
        }
        assert(out@ =~= old(out)@ + self.notes_text(mode@));
    }

    /// Writes the frame for the given mode.
    pub fn to_vis_string(&self, mode: &str) -> (s: String)
        ensures
            s@ == self.spec_vis_string(mode@),
    {
        let mut out = String::new();
        let ghost stage = self.stage_text(mode@);
        self.push_stage(&mut out, mode);
        assert(Seq::<char>::empty() + stage =~= stage);
        self.push_score(&mut out, mode);
        self.push_notes(&mut out, mode);
        push_commit(&mut out, mode);
        out
    }
}

/// Appends the line that ends a frame to `out`.
fn push_commit(out: &mut String, mode: &str)
    ensures
        final(out)@ == old(out)@ + commit_line(mode@),
{
    push_tagged(out, mode, "COMMIT");
    out.append("\n");
    assert(out@ =~= old(out)@ + commit_line(mode@));
}

impl Default for VisFrame {
    fn default() -> (f: VisFrame)
        ensures
            f.canvas() is None,
            f.items() == Seq::<VisItem>::empty(),
            f.score() == Seq::<char>::empty(),
            f.textareas() == Seq::<VisTextArea>::empty(),
            f.bar_graphs() == Seq::<VisBarGraph>::empty(),
            !f.debug(),
    {
        VisFrame::new()
    }
}

impl Block for VisFrame {
    open spec fn block(&self, mode: Seq<char>) -> Seq<char> {
        self.spec_vis_string(mode)
    }

    fn push_block(&self, out: &mut String, mode: &str) {
        let s = self.to_vis_string(mode);
        out.append(s.as_str());
    }
}

/// Every frame ends with the closing line. Between what stands before the
/// score and what stands after it, a frame without a score has nothing, and
/// a frame with a score has its one score line.
pub proof fn lemma_frame_layout(frame: VisFrame, mode: Seq<char>)
    ensures
        ends_with(frame.spec_vis_string(mode), commit_line(mode)),
        frame.score().len() == 0 ==> frame.spec_vis_string(mode) == frame.stage_text(mode)
            + frame.notes_text(mode) + commit_line(mode),
        frame.score().len() > 0 ==> frame.spec_vis_string(mode) == frame.stage_text(mode) + (tagged(
            mode,
            "SCORE"@,
        ) + " "@ + frame.score() + "\n"@) + frame.notes_text(mode) + commit_line(mode),
{
    let text = frame.spec_vis_string(mode);
    let last = commit_line(mode);
    assert(text.subrange(text.len() - last.len(), text.len() as int) =~= last);
    assert(frame.stage_text(mode) + Seq::<char>::empty() =~= frame.stage_text(mode));
}

} // verus!
