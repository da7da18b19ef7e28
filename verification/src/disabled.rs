//! The same builders with visualization switched off.
//!
//! Every type here is a marker without data, and every builder hands it back
//! unchanged: a program that imports its builders from this module instead
//! of the crate root keeps its calls as they are and writes nothing.

use vstd::prelude::*;
use std::path::PathBuf;

verus! {

/// Where the text of a run would be written.
pub enum OutputDestination {
    Stderr,
    File(PathBuf),
}

/// A real number. Holds nothing.
#[derive(Clone, Copy, Debug)]
pub struct Scalar;

impl Scalar {
    pub fn new(_bits: u64, _text: String) -> Scalar {
        Scalar
    }
}

/// A color. Holds nothing.
#[derive(Clone, Copy, PartialEq, Eq, Hash, Debug, Structural)]
pub struct Color;

impl Color {
    pub fn new(_r: u8, _g: u8, _b: u8) -> Color {
        Color
    }

    /// The empty text.
    pub fn to_hex_string(&self) -> (s: String)
        ensures
            s@.len() == 0,
    {
        String::new()
    }
}

impl From<&String> for Color {
    fn from(_hex: &String) -> (c: Color) {
        Color
    }
}

impl vstd::std_specs::convert::FromSpecImpl<&String> for Color {
    open spec fn obeys_from_spec() -> bool {
        true
    }

    open spec fn from_spec(_hex: &String) -> Color {
        Color
    }
}

#[allow(non_snake_case)]
pub fn WHITE() -> Color {
    Color
}

#[allow(non_snake_case)]
pub fn BLACK() -> Color {
    Color
}

#[allow(non_snake_case)]
pub fn GRAY() -> Color {
    Color
}

#[allow(non_snake_case)]
pub fn RED() -> Color {
    Color
}

#[allow(non_snake_case)]
pub fn BLUE() -> Color {
    Color
}

#[allow(non_snake_case)]
pub fn GREEN() -> Color {
    Color
}

#[allow(non_snake_case)]
pub fn YELLOW() -> Color {
    Color
}

#[allow(non_snake_case)]
pub fn CYAN() -> Color {
    Color
}

#[allow(non_snake_case)]
pub fn MAGENTA() -> Color {
    Color
}

/// A placement rectangle. Holds nothing.
pub struct ItemBounds;

impl ItemBounds {
    pub fn new(_left: Scalar, _top: Scalar, _right: Scalar, _bottom: Scalar) -> ItemBounds {
        ItemBounds
    }
}

pub struct CircleGroup;

pub struct Circle;

pub struct LineGroup;

pub struct Line;

pub struct PolygonGroup;

/// The colors of a grid. Holds nothing.
pub struct VisGridConf;

impl VisGridConf {
    pub fn new(_border_color: Color, _text_color: Color, _default_cell_color: Color) -> VisGridConf {
        VisGridConf
    }
}

impl Default for VisGridConf {
    fn default() -> VisGridConf {
        VisGridConf
    }
}

/// A note. Holds nothing.
pub struct VisTextArea;

impl VisTextArea {
    pub fn new(_title: String, _text: String) -> VisTextArea {
        VisTextArea
    }

    pub fn height(self, _height: u32) -> (t: VisTextArea)
        ensures
            t == self,
    {
        self
    }

    pub fn text_color(self, _color: String) -> (t: VisTextArea)
        ensures
            t == self,
    {
        self
    }

    pub fn fill_color(self, _color: String) -> (t: VisTextArea)
        ensures
            t == self,
    {
        self
    }
}

/// A canvas. Holds nothing.
pub struct VisCanvas;

impl VisCanvas {
    pub fn new(_h: Scalar, _w: Scalar) -> VisCanvas {
        VisCanvas
    }

    /// The empty text.
    pub fn to_vis_string(&self, _mode: &str) -> (s: String)
        ensures
            s@.len() == 0,
    {
        String::new()
    }
}

impl Default for VisCanvas {
    fn default() -> VisCanvas {
        VisCanvas
    }
}

/// A 2D canvas. Holds nothing.
pub struct Vis2DPlane;

impl Vis2DPlane {
    pub fn new(_h: Scalar, _w: Scalar, _bounds: Option<ItemBounds>) -> Vis2DPlane {
        Vis2DPlane
    }

    pub fn with_bounds(_h: Scalar, _w: Scalar, _bounds: ItemBounds) -> Vis2DPlane {
        Vis2DPlane
    }

    pub fn set_bounds(self, _bounds: ItemBounds) -> (p: Vis2DPlane)
        ensures
            p == self,
    {
        self
    }

    pub fn add_circle_group(self, _stroke_color: Color, _fill_color: Color, _circles: Vec<Circle>) -> (p:
        Vis2DPlane)
        ensures
            p == self,
    {
        self
    }

    pub fn add_circle(
        self,
        _stroke_color: Color,
        _fill_color: Color,
        _x: Scalar,
        _y: Scalar,
        _r: Scalar,
    ) -> (p: Vis2DPlane)
        ensures
            p == self,
    {
        self
    }

    pub fn add_line_group(self, _color: Color, _width: Scalar, _points: Vec<(Scalar, Scalar)>) -> (p:
        Vis2DPlane)
        ensures
            p == self,
    {
        self
    }

    pub fn add_line(
        self,
        _color: Color,
        _width: Scalar,
        _ax: Scalar,
        _ay: Scalar,
        _bx: Scalar,
        _by: Scalar,
    ) -> (p: Vis2DPlane)
        ensures
            p == self,
    {
        self
    }

    pub fn add_polygon(
        self,
        _stroke_color: Color,
        _fill_color: Color,
        _vertices: Vec<(Scalar, Scalar)>,
    ) -> (p: Vis2DPlane)
        ensures
            p == self,
    {
        self
    }

    pub fn add_text(
        self,
        _color: Color,
        _font_size: Scalar,
        _x: Scalar,
        _y: Scalar,
        _text: String,
    ) -> (p: Vis2DPlane)
        ensures
            p == self,
    {
        self
    }

    /// The empty text.
    pub fn to_vis_string(&self, _mode: &str) -> (s: String)
        ensures
            s@.len() == 0,
    {
        String::new()
    }
}

/// A grid. Holds nothing.
pub struct VisGrid;

impl VisGrid {
    pub fn new(_h: usize, _w: usize, _bounds: Option<ItemBounds>) -> VisGrid {
        VisGrid
    }

    pub fn with_bounds(_h: usize, _w: usize, _bounds: ItemBounds) -> VisGrid {
        VisGrid
    }

    pub fn from_cells<T: ToString>(_cell_texts: &[Vec<T>]) -> VisGrid {
        VisGrid
    }

    pub fn set_bounds(self, _bounds: ItemBounds) -> (g: VisGrid)
        ensures
            g == self,
    {
        self
    }

    pub fn update_cell_color(self, _p: (usize, usize), _color: Color) -> (g: VisGrid)
        ensures
            g == self,
    {
        self
    }

    pub fn update_text(self, _p: (usize, usize), _text: String) -> (g: VisGrid)
        ensures
            g == self,
    {
        self
    }

    pub fn add_line(self, _line: Vec<(usize, usize)>, _color: Color) -> (g: VisGrid)
        ensures
            g == self,
    {
        self
    }

    pub fn remove_wall_vertical(self, _p: (usize, usize)) -> (g: VisGrid)
        ensures
            g == self,
    {
        self
    }

    pub fn add_wall_vertical(self, _p: (usize, usize)) -> (g: VisGrid)
        ensures
            g == self,
    {
        self
    }

    pub fn remove_wall_horizontal(self, _p: (usize, usize)) -> (g: VisGrid)
        ensures
            g == self,
    {
        self
    }

    pub fn add_wall_horizontal(self, _p: (usize, usize)) -> (g: VisGrid)
        ensures
            g == self,
    {
        self
    }

    /// The empty text.
    pub fn to_vis_string(&self, _mode_name: &str) -> (s: String)
        ensures
            s@.len() == 0,
    {
        String::new()
    }
}

/// What a frame could show on its stage.
pub enum VisItem {
    Grid(VisGrid),
    Plane(Vis2DPlane),
}

impl VisItem {
    /// The empty text.
    pub fn to_vis_string(&self, _mode: &str) -> (s: String)
        ensures
            s@.len() == 0,
    {
        String::new()
    }
}

/// One bar of a bar graph. Holds nothing.
pub struct BarGraphItem;

impl BarGraphItem {
    pub fn new(_label: String, _value: Scalar) -> BarGraphItem {
        BarGraphItem
    }
}

/// A bar graph. Holds nothing.
pub struct VisBarGraph;

impl VisBarGraph {
    pub fn new(_title: String, _fill_color: Color, _y_min: Scalar, _y_max: Scalar) -> VisBarGraph {
        VisBarGraph
    }

    pub fn add_item(self, _label: String, _value: Scalar) -> (g: VisBarGraph)
        ensures
            g == self,
    {
        self
    }

    pub fn add_items(self, _items: Vec<BarGraphItem>) -> (g: VisBarGraph)
        ensures
            g == self,
    {
        self
    }

    /// The empty text.
    pub fn to_vis_string(&self, _mode: &str) -> (s: String)
        ensures
            s@.len() == 0,
    {
        String::new()
    }
}

/// A frame. Holds nothing.
pub struct VisFrame;

impl VisFrame {
    pub fn new() -> VisFrame {
        VisFrame
    }

    pub fn new_grid<T: ToString>(_grid: VisGrid, _score: T) -> VisFrame {
        VisFrame
    }

    pub fn new_2d_plane<T: ToString>(_plane: Vis2DPlane, _score: T) -> VisFrame {
        VisFrame
    }

    pub fn set_canvas(self, _canvas: VisCanvas) -> (f: VisFrame)
        ensures
            f == self,
    {
        self
    }

    pub fn add_grid(self, _grid: VisGrid) -> (f: VisFrame)
        ensures
            f == self,
    {
        self
    }

    pub fn add_2d_plane(self, _plane: Vis2DPlane) -> (f: VisFrame)
        ensures
            f == self,
    {
        self
    }

    pub fn add_item(self, _item: VisItem) -> (f: VisFrame)
        ensures
            f == self,
    {
        self
    }

    pub fn set_score(self, _score: String) -> (f: VisFrame)
        ensures
            f == self,
    {
        self
    }

    pub fn add_textarea(self, _textarea: VisTextArea) -> (f: VisFrame)
        ensures
            f == self,
    {
        self
    }

    pub fn add_bar_graph(self, _bar_graph: VisBarGraph) -> (f: VisFrame)
        ensures
            f == self,
    {
        self
    }

    pub fn enable_debug(self) -> (f: VisFrame)
        ensures
            f == self,
    {
        self
    }

    pub fn disable_debug(self) -> (f: VisFrame)
        ensures
            f == self,
    {
        self
    }

    /// The empty text.
    pub fn to_vis_string(&self, _mode: &str) -> (s: String)
        ensures
            s@.len() == 0,
    {
        String::new()
    }
}

impl Default for VisFrame {
    fn default() -> VisFrame {
        VisFrame
    }
}

/// The root. Holds nothing and writes nothing.
pub struct VisRoot;

impl VisRoot {
    pub fn new() -> VisRoot {
        VisRoot
    }

    pub fn new_with_file<P: Into<PathBuf>>(_path: P) -> VisRoot {
        VisRoot
    }

    /// Drops the frame.
    pub fn add_frame(&mut self, _mode: &str, _frame: VisFrame) -> (root: &mut Self)
        ensures
            *final(self) == *final(root),
    {
        self
    }

    /// Drops the frames.
    pub fn add_frames(&mut self, _mode: &str, _frames: Vec<VisFrame>) -> (root: &mut Self)
        ensures
            *final(self) == *final(root),
    {
        self
    }

    /// No mode has frames.
    pub fn get_frames(&self, _mode: &str) -> (r: Option<&Vec<VisFrame>>)
        ensures
            r is None,
    {
        None
    }

    /// The empty text.
    pub fn render_all(&self) -> (s: String)
        ensures
            s@.len() == 0,
    {
        String::new()
    }
}

impl Default for VisRoot {
    fn default() -> VisRoot {
        VisRoot
    }
}

} // verus!
