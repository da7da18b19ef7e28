//! A grid of cells with colors, texts, drawn paths and removable walls.

use vstd::prelude::*;
use rustc_hash::FxHashSet;
use crate::bounds::{bounds_text, push_bounds, ItemBounds};
use crate::color::{hex_string, push_color, Color, BLACK, WHITE};
use crate::fx::{points_contains, points_insert, points_remove};
use crate::groups::{group_block, grouped_extend, GroupView, Groups, Keyed};
use crate::text::{
    decimal_digits,
    push_decimal,
    push_tagged,
    push_wire_all,
    tagged,
    wire_all,
    Block,
    Wire,
};

verus! {

/// The three colors that a grid is drawn with.
#[derive(Clone, Copy, Debug)]
pub struct VisGridConf {
    pub border_color: Color,
    pub text_color: Color,
    pub default_cell_color: Color,
}

impl VisGridConf {
    pub fn new(border_color: Color, text_color: Color, default_cell_color: Color) -> (c: VisGridConf)
        ensures
            c == (VisGridConf { border_color, text_color, default_cell_color }),
    {
        VisGridConf { border_color, text_color, default_cell_color }
    }
}

impl Default for VisGridConf {
    /// Black borders and texts on white cells.
    fn default() -> (c: VisGridConf)
        ensures
            c == (VisGridConf {
                border_color: Color { r: 0, g: 0, b: 0 },
                text_color: Color { r: 0, g: 0, b: 0 },
                default_cell_color: Color { r: 255, g: 255, b: 255 },
            }),
    {
        VisGridConf::new(BLACK(), BLACK(), WHITE())
    }
}

/// A path drawn over the grid: the cells it visits, in order, and its color.
#[derive(Debug)]
pub struct GridPath {
    pub points: Vec<(usize, usize)>,
    pub color: Color,
}

impl Wire for (usize, usize) {
    /// Column, then row.
    open spec fn wire(&self) -> Seq<char> {
        " "@ + decimal_digits(self.0 as nat) + " "@ + decimal_digits(self.1 as nat)
    }

    fn push_wire(&self, out: &mut String) {
        out.append(" ");
        push_decimal(out, self.0 as u64);
        out.append(" ");
        push_decimal(out, self.1 as u64);
        assert(out@ =~= old(out)@ + self.wire());
    }
}

impl Wire for GridPath {
    /// A whole line: the color, the number of points, the points.
    open spec fn wire(&self) -> Seq<char> {
        hex_string(self.color) + " "@ + decimal_digits(self.points@.len()) + wire_all(self.points@)
            + "\n"@
    }

    fn push_wire(&self, out: &mut String) {
        push_color(out, self.color);
        out.append(" ");
        push_decimal(out, self.points.len() as u64);
        push_wire_all(out, &self.points);
        out.append("\n");
        assert(out@ =~= old(out)@ + self.wire());
    }
}

impl Keyed for Color {
    /// Cells are grouped by their color.
    open spec fn key(&self) -> (u64, u64) {
        (self.spec_code(), 0)
    }

    fn key_of(&self) -> (k: (u64, u64)) {
        (self.code(), 0)
    }
}

impl Wire for Color {
    open spec fn wire(&self) -> Seq<char> {
        hex_string(*self)
    }

    fn push_wire(&self, out: &mut String) {
        push_color(out, *self);
    }
}

/// The header line of a grid.
pub open spec fn grid_header(
    mode: Seq<char>,
    bounds: Option<ItemBounds>,
    rows: nat,
    cols: nat,
    conf: VisGridConf,
) -> Seq<char> {
    tagged(mode, "GRID"@) + bounds_text(bounds) + " "@ + decimal_digits(rows) + " "@
        + decimal_digits(cols) + " "@ + hex_string(conf.border_color) + " "@ + hex_string(
        conf.text_color,
    ) + " "@ + hex_string(conf.default_cell_color) + "\n"@
}

/// The groups `acc` after the first `n` cells of row `y` were looked at, from
/// the left: each cell whose color is not `skip` joins the group of its
/// color, as column and row.
pub open spec fn row_color_groups(
    acc: Seq<GroupView<Color, (usize, usize)>>,
    row: Seq<Color>,
    y: nat,
    skip: Color,
    n: nat,
) -> Seq<GroupView<Color, (usize, usize)>>
    decreases n,
{
    if n == 0 {
        acc
    } else {
        let before = row_color_groups(acc, row, y, skip, (n - 1) as nat);
        if row[n - 1] == skip {
            before
        } else {
            grouped_extend(before, row[n - 1], seq![((n - 1) as usize, y as usize)])
        }
    }
}

/// The cells of the first `n` rows whose color is not `skip`, grouped by
/// color. The cells are looked at row by row, each row from the left; the
/// groups stand in the order in which their first cells are met.
pub open spec fn color_groups(colors: Seq<Seq<Color>>, skip: Color, n: nat) -> Seq<
    GroupView<Color, (usize, usize)>,
>
    decreases n,
{
    if n == 0 {
        Seq::empty()
    } else {
        row_color_groups(
            color_groups(colors, skip, (n - 1) as nat),
            colors[n - 1],
            (n - 1) as nat,
            skip,
            colors[n - 1].len(),
        )
    }
}

/// What is written for the text of a cell: the text, or `""` where the cell
/// has none.
pub open spec fn cell_token(text: Seq<char>) -> Seq<char> {
    if text.len() == 0 {
        "\"\""@
    } else {
        text
    }
}

/// How many of the first `n` cells of a row are written: all up to the last
/// one that has a text.
pub open spec fn trimmed_len(cells: Seq<Seq<char>>, n: nat) -> nat
    decreases n,
{
    if n == 0 {
        0
    } else if cells[n - 1].len() > 0 {
        n
    } else {
        trimmed_len(cells, (n - 1) as nat)
    }
}

/// The first `n` cells of a row, with single spaces between them.
pub open spec fn joined_cells(cells: Seq<Seq<char>>, n: nat) -> Seq<char>
    decreases n,
{
    if n == 0 {
        Seq::empty()
    } else if n == 1 {
        cell_token(cells[0])
    } else {
        joined_cells(cells, (n - 1) as nat) + " "@ + cell_token(cells[n - 1])
    }
}

/// The line of one row of texts: the cells up to the last one that has a
/// text. A row without any text gives an empty line.
pub open spec fn text_row(cells: Seq<Seq<char>>) -> Seq<char> {
    joined_cells(cells, trimmed_len(cells, cells.len())) + "\n"@
}

/// The lines of the first `n` rows of texts.
pub open spec fn text_rows(texts: Seq<Seq<Seq<char>>>, n: nat) -> Seq<char>
    decreases n,
{
    if n == 0 {
        Seq::empty()
    } else {
        text_rows(texts, (n - 1) as nat) + text_row(texts[n - 1])
    }
}

/// No cell has a text.
pub open spec fn all_texts_empty(texts: Seq<Seq<Seq<char>>>) -> bool {
    forall|y: int, x: int|
        0 <= y < texts.len() && 0 <= x < texts[y].len() ==> (#[trigger] texts[y][x]).len() == 0
}

/// The section of the cell texts: left out when no cell has a text, else the
/// title and one line for each row.
pub open spec fn text_section(texts: Seq<Seq<Seq<char>>>) -> Seq<char> {
    if all_texts_empty(texts) {
        Seq::empty()
    } else {
        "CELL_TEXT\n"@ + text_rows(texts, texts.len())
    }
}

/// The section of the paths: the title, their number, one line for each.
pub open spec fn path_section(paths: Seq<GridPath>) -> Seq<char> {
    "LINES\n"@ + decimal_digits(paths.len()) + "\n"@ + wire_all(paths)
}

/// The mark of one wall: `N` where it was removed, `Y` where it stands. The
/// wall in line `r` at place `c` is looked up as `(r, c)` when `by_line` is
/// set, and as `(c, r)` otherwise.
pub open spec fn wall_mark(removed: Set<(usize, usize)>, r: nat, c: nat, by_line: bool) -> Seq<
    char,
> {
    let p = if by_line {
        (r as usize, c as usize)
    } else {
        (c as usize, r as usize)
    };
    if removed.contains(p) {
        "N"@
    } else {
        "Y"@
    }
}

/// The first `n` marks of line `r`.
pub open spec fn wall_marks(removed: Set<(usize, usize)>, r: nat, n: nat, by_line: bool) -> Seq<
    char,
>
    decreases n,
{
    if n == 0 {
        Seq::empty()
    } else {
        wall_marks(removed, r, (n - 1) as nat, by_line) + wall_mark(
            removed,
            r,
            (n - 1) as nat,
            by_line,
        )
    }
}

/// The first `n` lines of marks, `width` marks on each.
pub open spec fn wall_lines(removed: Set<(usize, usize)>, n: nat, width: nat, by_line: bool) -> Seq<
    char,
>
    decreases n,
{
    if n == 0 {
        Seq::empty()
    } else {
        wall_lines(removed, (n - 1) as nat, width, by_line) + wall_marks(
            removed,
            (n - 1) as nat,
            width,
            by_line,
        ) + "\n"@
    }
}

/// A section of walls: left out when no wall was removed, else the title
/// and `lines` lines of `width` marks.
pub open spec fn wall_section(
    title: Seq<char>,
    removed: Set<(usize, usize)>,
    lines: nat,
    width: nat,
    by_line: bool,
) -> Seq<char> {
    if removed.is_empty() {
        Seq::empty()
    } else {
        title + "\n"@ + wall_lines(removed, lines, width, by_line)
    }
}

/// Cells that all have the skipped color form no group.
pub proof fn lemma_plain_cells_form_no_group(colors: Seq<Seq<Color>>, skip: Color, n: nat)
    requires
        n <= colors.len(),
        forall|y: int, x: int|
            0 <= y < colors.len() && 0 <= x < colors[y].len() ==> (#[trigger] colors[y][x]) == skip,
    ensures
        color_groups(colors, skip, n) == Seq::<GroupView<Color, (usize, usize)>>::empty(),
    decreases n,
{
    if n > 0 {
        lemma_plain_cells_form_no_group(colors, skip, (n - 1) as nat);
        lemma_plain_row_adds_no_group(
            Seq::empty(),
            colors[n - 1],
            (n - 1) as nat,
            skip,
            colors[n - 1].len(),
        );
    }
}

/// A row whose cells all have the skipped color adds nothing to the groups.
pub proof fn lemma_plain_row_adds_no_group(
    acc: Seq<GroupView<Color, (usize, usize)>>,
    row: Seq<Color>,
    y: nat,
    skip: Color,
    n: nat,
)
    requires
        n <= row.len(),
        forall|x: int| 0 <= x < row.len() ==> row[x] == skip,
    ensures
        row_color_groups(acc, row, y, skip, n) == acc,
    decreases n,
{
    if n > 0 {
        lemma_plain_row_adds_no_group(acc, row, y, skip, (n - 1) as nat);
    }
}

/// A grid whose cells all have the default color and no text writes a count
/// of zero color groups and no text section.
pub proof fn lemma_plain_grid_sections(grid: VisGrid)
    requires
        forall|y: int, x: int|
            0 <= y < grid.colors().len() && 0 <= x < grid.colors()[y].len() ==> (
            #[trigger] grid.colors()[y][x]) == grid.conf().default_cell_color,
        all_texts_empty(grid.texts()),
    ensures
        group_block(
            color_groups(grid.colors(), grid.conf().default_cell_color, grid.colors().len()),
        ) == decimal_digits(0) + "\n"@,
        text_section(grid.texts()) == Seq::<char>::empty(),
{
    lemma_plain_cells_form_no_group(
        grid.colors(),
        grid.conf().default_cell_color,
        grid.colors().len(),
    );
    assert(decimal_digits(0) + "\n"@ + Seq::<char>::empty() =~= decimal_digits(0) + "\n"@);
}

/// A wall that is removed and then put back is no longer among the removed
/// walls; if it stood before, the removed walls are what they were. Where no
/// wall is removed, the section of the walls is left out.
pub proof fn lemma_wall_put_back(
    removed: Set<(usize, usize)>,
    p: (usize, usize),
    title: Seq<char>,
    lines: nat,
    width: nat,
    by_line: bool,
)
    ensures
        removed.insert(p).remove(p) == removed.remove(p),
        !removed.contains(p) ==> removed.insert(p).remove(p) == removed,
        removed.insert(p).remove(p).is_empty() ==> wall_section(
            title,
            removed.insert(p).remove(p),
            lines,
            width,
            by_line,
        ) == Seq::<char>::empty(),
{
    assert(removed.insert(p).remove(p) =~= removed.remove(p));
    if !removed.contains(p) {
        assert(removed.remove(p) =~= removed);
    }
}

/// The texts that the strings of a row hold.
pub open spec fn row_texts(row: Seq<String>) -> Seq<Seq<char>> {
    Seq::new(row.len(), |x: int| row[x]@)
}

/// A grid of `rows` by `cols` cells. Each cell has a color and a text; paths
/// may be drawn over the cells; the walls between cells stand unless they
/// were removed.
pub struct VisGrid {
    h: usize,
    w: usize,
    conf: VisGridConf,
    cell_colors: Vec<Vec<Color>>,
    cell_texts: Vec<Vec<String>>,
    no_wall_vertical_pos: FxHashSet<(usize, usize)>,
    no_wall_horizontal_pos: FxHashSet<(usize, usize)>,
    lines: Vec<GridPath>,
    bounds: Option<ItemBounds>,
}

impl VisGrid {
    #[verifier::type_invariant]
    spec fn well_formed(self) -> bool {
        &&& self.cell_colors@.len() == self.h
        &&& self.cell_texts@.len() == self.h
        &&& forall|y: int| 0 <= y < self.h ==> (#[trigger] self.cell_colors@[y])@.len() == self.w
        &&& forall|y: int| 0 <= y < self.h ==> (#[trigger] self.cell_texts@[y])@.len() == self.w
    }

    /// The number of rows.
    pub closed spec fn rows(&self) -> nat {
        self.h as nat
    }

    /// The number of columns.
    pub closed spec fn cols(&self) -> nat {
        self.w as nat
    }

    /// The colors that the grid is drawn with.
    pub closed spec fn conf(&self) -> VisGridConf {
        self.conf
    }

    /// Where the grid is placed, if that was said.
    pub closed spec fn bounds(&self) -> Option<ItemBounds> {
        self.bounds
    }

    /// The colors of the cells, row by row.
    pub closed spec fn colors(&self) -> Seq<Seq<Color>> {
        Seq::new(self.cell_colors@.len(), |y: int| self.cell_colors@[y]@)
    }

    /// The texts of the cells, row by row.
    pub closed spec fn texts(&self) -> Seq<Seq<Seq<char>>> {
        Seq::new(
            self.cell_texts@.len(),
            |y: int| Seq::new(self.cell_texts@[y]@.len(), |x: int| self.cell_texts@[y]@[x]@),
        )
    }

    /// The paths, in the order in which they were added.
    pub closed spec fn paths(&self) -> Seq<GridPath> {
        self.lines@
    }

    /// Where a vertical wall was removed.
    pub closed spec fn no_wall_vertical(&self) -> Set<(usize, usize)> {
        self.no_wall_vertical_pos@
    }

    /// Where a horizontal wall was removed.
    pub closed spec fn no_wall_horizontal(&self) -> Set<(usize, usize)> {
        self.no_wall_horizontal_pos@
    }

    /// Whether `other` agrees with this grid in its size, in the colors it is
    /// drawn with, and in every part whose flag is `false`.
    pub open spec fn same_but(
        &self,
        other: &VisGrid,
        colors: bool,
        texts: bool,
        paths: bool,
        vertical: bool,
        horizontal: bool,
        bounds: bool,
    ) -> bool {
        &&& other.rows() == self.rows()
        &&& other.cols() == self.cols()
        &&& other.conf() == self.conf()
        &&& colors || other.colors() == self.colors()
        &&& texts || other.texts() == self.texts()
        &&& paths || other.paths() == self.paths()
        &&& vertical || other.no_wall_vertical() == self.no_wall_vertical()
        &&& horizontal || other.no_wall_horizontal() == self.no_wall_horizontal()
        &&& bounds || other.bounds() == self.bounds()
    }

    /// A grid of `h` rows and `w` columns with the default colors, no text,
    /// no paths and every wall in place.
    pub fn new(h: usize, w: usize, bounds: Option<ItemBounds>) -> (g: Self)
        ensures
            g.rows() == h,
            g.cols() == w,
            g.conf() == (VisGridConf {
                border_color: Color { r: 0, g: 0, b: 0 },
                text_color: Color { r: 0, g: 0, b: 0 },
                default_cell_color: Color { r: 255, g: 255, b: 255 },
            }),
            g.bounds() == bounds,
            g.colors() == Seq::new(
                h as nat,
                |y: int| Seq::new(w as nat, |x: int| Color { r: 255, g: 255, b: 255 }),
            ),
            g.texts() == Seq::new(
                h as nat,
                |y: int| Seq::new(w as nat, |x: int| Seq::<char>::empty()),
            ),
            g.paths() == Seq::<GridPath>::empty(),
            g.no_wall_vertical() == Set::<(usize, usize)>::empty(),
            g.no_wall_horizontal() == Set::<(usize, usize)>::empty(),
    {
        let mut cell_colors: Vec<Vec<Color>> = Vec::new();
        let mut cell_texts: Vec<Vec<String>> = Vec::new();
        let mut y: usize = 0;
        while y < h
            invariant
                0 <= y <= h,
                cell_colors@.len() == y,
                cell_texts@.len() == y,
                forall|j: int|
                    0 <= j < y ==> (#[trigger] cell_colors@[j])@ =~= Seq::new(
                        w as nat,
                        |x: int| Color { r: 255, g: 255, b: 255 },
                    ),
                forall|j: int|
                    0 <= j < y ==> {
                        &&& (#[trigger] cell_texts@[j])@.len() == w
                        &&& forall|x: int| 0 <= x < w ==> (#[trigger] cell_texts@[j]@[x])@.len() == 0
                    },
            decreases h - y,
        {
            let mut colors: Vec<Color> = Vec::new();
            let mut texts: Vec<String> = Vec::new();
            let mut x: usize = 0;
            while x < w
                invariant
                    0 <= x <= w,
                    colors@.len() == x,
                    texts@.len() == x,
                    forall|i: int| 0 <= i < x ==> colors@[i] == (Color { r: 255, g: 255, b: 255 }),
                    forall|i: int| 0 <= i < x ==> (#[trigger] texts@[i])@.len() == 0,
                decreases w - x,
            {
                colors.push(WHITE());
                texts.push(String::new());
                x += 1;
            }
            cell_colors.push(colors);
            cell_texts.push(texts);
            y += 1;
        }
        let g = VisGrid {
            h,
            w,
            conf: VisGridConf::default(),
            cell_colors,
            cell_texts,
            no_wall_vertical_pos: FxHashSet::default(),
            no_wall_horizontal_pos: FxHashSet::default(),
            lines: Vec::new(),
            bounds,
        };
        assert(g.colors() =~= Seq::new(
            h as nat,
            |y: int| Seq::new(w as nat, |x: int| Color { r: 255, g: 255, b: 255 }),
        ));
        assert(g.texts() =~~= Seq::new(
            h as nat,
            |y: int| Seq::new(w as nat, |x: int| Seq::<char>::empty()),
        ));
        g
    }

    /// Says where the grid is placed.
    pub fn set_bounds(self, bounds: ItemBounds) -> (g: Self)
        ensures
            g.bounds() == Some(bounds),
            self.same_but(&g, false, false, false, false, false, true),
    {
        let mut g = self;
        proof {
            use_type_invariant(&g);
        }
        g.bounds = Some(bounds);
        g
    }

    /// Sets the color of the cell in column `p.0` and row `p.1`.
    pub fn update_cell_color(self, p: (usize, usize), color: Color) -> (g: Self)
        requires
            p.0 < self.cols(),
            p.1 < self.rows(),
        ensures
            g.colors() == self.colors().update(
                p.1 as int,
                self.colors()[p.1 as int].update(p.0 as int, color),
            ),
            self.same_but(&g, true, false, false, false, false, false),
    {
        proof {
            use_type_invariant(&self);
        }
        let ghost before = self.colors();
        let VisGrid {
            h,
            w,
            conf,
            mut cell_colors,
            cell_texts,
            no_wall_vertical_pos,
            no_wall_horizontal_pos,
            lines,
            bounds,
        } = self;
        cell_colors[p.1][p.0] = color;
        let g = VisGrid {
            h,
            w,
            conf,
            cell_colors,
            cell_texts,
            no_wall_vertical_pos,
            no_wall_horizontal_pos,
            lines,
            bounds,
        };
        assert(g.colors() =~~= before.update(
            p.1 as int,
            before[p.1 as int].update(p.0 as int, color),
        ));
        g
    }

    /// Sets the text of the cell in column `p.0` and row `p.1`.
    pub fn update_text(self, p: (usize, usize), text: String) -> (g: Self)
        requires
            p.0 < self.cols(),
            p.1 < self.rows(),
        ensures
            g.texts() == self.texts().update(
                p.1 as int,
                self.texts()[p.1 as int].update(p.0 as int, text@),
            ),
            self.same_but(&g, false, true, false, false, false, false),
    {
        proof {
            use_type_invariant(&self);
        }
        let ghost before = self.texts();
        let VisGrid {
            h,
            w,
            conf,
            cell_colors,
            mut cell_texts,
            no_wall_vertical_pos,
            no_wall_horizontal_pos,
            lines,
            bounds,
        } = self;
        cell_texts[p.1][p.0] = text;
        let g = VisGrid {
            h,
            w,
            conf,
            cell_colors,
            cell_texts,
            no_wall_vertical_pos,
            no_wall_horizontal_pos,
            lines,
            bounds,
        };
        assert(g.texts() =~~= before.update(
            p.1 as int,
            before[p.1 as int].update(p.0 as int, text@),
        ));
        g
    }

    /// Draws a path through the given cells.
    pub fn add_line(self, line: Vec<(usize, usize)>, color: Color) -> (g: Self)
        ensures
            g.paths() == self.paths().push(GridPath { points: line, color }),
            self.same_but(&g, false, false, true, false, false, false),
    {
        proof {
            use_type_invariant(&self);
        }
        let VisGrid {
            h,
            w,
            conf,
            cell_colors,
            cell_texts,
            no_wall_vertical_pos,
            no_wall_horizontal_pos,
            mut lines,
            bounds,
        } = self;
        lines.push(GridPath { points: line, color });
        VisGrid {
            h,
            w,
            conf,
            cell_colors,
            cell_texts,
            no_wall_vertical_pos,
            no_wall_horizontal_pos,
            lines,
            bounds,
        }
    }

    /// Removes the vertical wall at `p`.
    pub fn remove_wall_vertical(self, p: (usize, usize)) -> (g: Self)
        ensures
            g.no_wall_vertical() == self.no_wall_vertical().insert(p),
            self.same_but(&g, false, false, false, true, false, false),
    {
        proof {
            use_type_invariant(&self);
        }
        let VisGrid {
            h,
            w,
            conf,
            cell_colors,
            cell_texts,
            mut no_wall_vertical_pos,
            no_wall_horizontal_pos,
            lines,
            bounds,
        } = self;
        points_insert(&mut no_wall_vertical_pos, p);
        VisGrid {
            h,
            w,
            conf,
            cell_colors,
            cell_texts,
            no_wall_vertical_pos,
            no_wall_horizontal_pos,
            lines,
            bounds,
        }
    }

    /// Puts the vertical wall at `p` back.
    pub fn add_wall_vertical(self, p: (usize, usize)) -> (g: Self)
        ensures
            g.no_wall_vertical() == self.no_wall_vertical().remove(p),
            self.same_but(&g, false, false, false, true, false, false),
    {
        proof {
            use_type_invariant(&self);
        }
        let VisGrid {
            h,
            w,
            conf,
            cell_colors,
            cell_texts,
            mut no_wall_vertical_pos,
            no_wall_horizontal_pos,
            lines,
            bounds,
        } = self;
        points_remove(&mut no_wall_vertical_pos, p);
        VisGrid {
            h,
            w,
            conf,
            cell_colors,
            cell_texts,
            no_wall_vertical_pos,
            no_wall_horizontal_pos,
            lines,
            bounds,
        }
    }

    /// Removes the horizontal wall at `p`.
    pub fn remove_wall_horizontal(self, p: (usize, usize)) -> (g: Self)
        ensures
            g.no_wall_horizontal() == self.no_wall_horizontal().insert(p),
            self.same_but(&g, false, false, false, false, true, false),
    {
        proof {
            use_type_invariant(&self);
        }
        let VisGrid {
            h,
            w,
            conf,
            cell_colors,
            cell_texts,
            no_wall_vertical_pos,
            mut no_wall_horizontal_pos,
            lines,
            bounds,
        } = self;
        points_insert(&mut no_wall_horizontal_pos, p);
        VisGrid {
            h,
            w,
            conf,
            cell_colors,
            cell_texts,
            no_wall_vertical_pos,
            no_wall_horizontal_pos,
            lines,
            bounds,
        }
    }

    /// Puts the horizontal wall at `p` back.
    pub fn add_wall_horizontal(self, p: (usize, usize)) -> (g: Self)
        ensures
            g.no_wall_horizontal() == self.no_wall_horizontal().remove(p),
            self.same_but(&g, false, false, false, false, true, false),
    {
        proof {
            use_type_invariant(&self);
        }
        let VisGrid {
            h,
            w,
            conf,
            cell_colors,
            cell_texts,
            no_wall_vertical_pos,
            mut no_wall_horizontal_pos,
            lines,
            bounds,
        } = self;
        points_remove(&mut no_wall_horizontal_pos, p);
        VisGrid {
            h,
            w,
            conf,
            cell_colors,
            cell_texts,
            no_wall_vertical_pos,
            no_wall_horizontal_pos,
            lines,
            bounds,
        }
    }

    /// The text of the grid on the wire: the header line; the cells that do
    /// not have the default color, grouped by color; the texts of the cells,
    /// if any; the paths; and the horizontal and the vertical walls, each if
    /// one of them was removed. The horizontal walls are `rows + 1` lines of
    /// `cols` marks, looked up by column and line; the vertical walls are
    /// `rows` lines of `cols + 1` marks, looked up by line and place.
    pub open spec fn spec_vis_string(&self, mode: Seq<char>) -> Seq<char> {
        grid_header(mode, self.bounds(), self.rows(), self.cols(), self.conf())
            + "CELL_COLORS_POS\n"@ + group_block(
            color_groups(self.colors(), self.conf().default_cell_color, self.colors().len()),
        ) + text_section(self.texts()) + path_section(self.paths()) + wall_section(
            "WALL_HORIZONTAL"@,
            self.no_wall_horizontal(),
            self.rows() + 1,
            self.cols(),
            false,
        ) + wall_section(
            "WALL_VERTICAL"@,
            self.no_wall_vertical(),
            self.rows(),
            self.cols() + 1,
            true,
        )
    }

    /// Appends the header line of the grid to `out`.
    fn push_header(&self, out: &mut String, mode: &str)
        ensures
            final(out)@ == old(out)@ + grid_header(
                mode@,
                self.bounds(),
                self.rows(),
                self.cols(),
                self.conf(),
            ),
    {
        push_tagged(out, mode, "GRID");
        push_bounds(out, &self.bounds);
        out.append(" ");
        push_decimal(out, self.h as u64);
        out.append(" ");
        push_decimal(out, self.w as u64);
        out.append(" ");
        push_color(out, self.conf.border_color);
        out.append(" ");
        push_color(out, self.conf.text_color);
        out.append(" ");
        push_color(out, self.conf.default_cell_color);
        out.append("\n");
        assert(out@ =~= old(out)@ + grid_header(
            mode@,
            self.bounds(),
            self.rows(),
            self.cols(),
            self.conf(),
        ));
    }

    /// Groups the cells that do not have the default color by their color.
    fn group_cells(&self) -> (groups: Groups<Color, (usize, usize)>)
        ensures
            groups@ == color_groups(
                self.colors(),
                self.conf().default_cell_color,
                self.colors().len(),
            ),
    {
        proof {
            use_type_invariant(self);
        }
        let skip = self.conf.default_cell_color;
        let ghost colors = self.colors();
        let mut groups: Groups<Color, (usize, usize)> = Groups::new();
        let mut y: usize = 0;
        while y < self.h
            invariant
                0 <= y <= self.h,
                self.well_formed(),
                colors == self.colors(),
                skip == self.conf.default_cell_color,
                groups@ == color_groups(colors, skip, y as nat),
            decreases self.h - y,
        {
            let ghost start = groups@;
            let mut x: usize = 0;
            while x < self.w
                invariant
                    0 <= x <= self.w,
                    0 <= y < self.h,
                    self.well_formed(),
                    colors == self.colors(),
                    skip == self.conf.default_cell_color,
                    groups@ == row_color_groups(start, colors[y as int], y as nat, skip, x as nat),
                decreases self.w - x,
            {
                let color = self.cell_colors[y][x];
                assert(color == colors[y as int][x as int]);
                if color != skip {
                    groups = groups.push(color, (x, y));
                }
                x += 1;
            }
            assert(colors[y as int].len() == self.w);
            y += 1;
        }
        groups
    }

    /// Writes the grid for the given mode.
    pub fn to_vis_string(&self, mode_name: &str) -> (s: String)
        ensures
            s@ == self.spec_vis_string(mode_name@),
    {
        proof {
            use_type_invariant(self);
        }
        let mut out = String::new();
        let ghost header = grid_header(
            mode_name@,
            self.bounds(),
            self.rows(),
            self.cols(),
            self.conf(),
        );
        self.push_header(&mut out, mode_name);
        assert(Seq::<char>::empty() + header =~= header);
        out.append("CELL_COLORS_POS\n");
        let groups = self.group_cells();
        groups.push_block(&mut out);
        push_text_section(&mut out, &self.cell_texts, Ghost(self.texts()));
        push_path_section(&mut out, &self.lines);
        push_wall_section(
            &mut out,
            "WALL_HORIZONTAL",
            &self.no_wall_horizontal_pos,
            self.h,
            self.w,
            true,
            false,
            false,
        );
        push_wall_section(
            &mut out,
            "WALL_VERTICAL",
            &self.no_wall_vertical_pos,
            self.h,
            self.w,
            false,
            true,
            true,
        );
        out
    }
}

impl Block for VisGrid {
    open spec fn block(&self, mode: Seq<char>) -> Seq<char> {
        self.spec_vis_string(mode)
    }

    fn push_block(&self, out: &mut String, mode: &str) {
        let s = self.to_vis_string(mode);
        out.append(s.as_str());
    }
}

/// Appends the section of the paths to `out`.
fn push_path_section(out: &mut String, paths: &Vec<GridPath>)
    ensures
        final(out)@ == old(out)@ + path_section(paths@),
{
    out.append("LINES\n");
    push_decimal(out, paths.len() as u64);
    out.append("\n");
    push_wire_all(out, paths);
    assert(out@ =~= old(out)@ + path_section(paths@));
}

/// Appends the mark of one wall to `out`.
fn push_wall_mark(
    out: &mut String,
    removed: &FxHashSet<(usize, usize)>,
    r: usize,
    c: usize,
    by_line: bool,
)
    ensures
        final(out)@ == old(out)@ + wall_mark(removed@, r as nat, c as nat, by_line),
{
    let p = if by_line {
        (r, c)
    } else {
        (c, r)
    };
    if points_contains(removed, p) {
        out.append("N");
    } else {
        out.append("Y");
    }
}

/// Appends one line of wall marks to `out`: `width` marks, and one more if
/// `one_more` is set.
fn push_wall_line(
    out: &mut String,
    removed: &FxHashSet<(usize, usize)>,
    r: usize,
    width: usize,
    one_more: bool,
    by_line: bool,
)
    ensures
        final(out)@ == old(out)@ + wall_marks(
            removed@,
            r as nat,
            if one_more {
                (width + 1) as nat
            } else {
                width as nat
            },
            by_line,
        ) + "\n"@,
{
    let mut c: usize = 0;
    assert(out@ =~= old(out)@ + wall_marks(removed@, r as nat, 0, by_line));
    while c < width
        invariant
            0 <= c <= width,
            out@ == old(out)@ + wall_marks(removed@, r as nat, c as nat, by_line),
        decreases width - c,
    {
        push_wall_mark(out, removed, r, c, by_line);
        assert(out@ =~= old(out)@ + wall_marks(removed@, r as nat, (c + 1) as nat, by_line));
        c += 1;
    }
    if one_more {
        push_wall_mark(out, removed, r, width, by_line);
        assert(out@ =~= old(out)@ + wall_marks(removed@, r as nat, (width + 1) as nat, by_line));
    }
    out.append("\n");
}

/// Appends a section of walls to `out`: `lines` lines of `width` marks, with
/// one more line or one more mark on each line where that is asked for.
fn push_wall_section(
    out: &mut String,
    title: &str,
    removed: &FxHashSet<(usize, usize)>,
    lines: usize,
    width: usize,
    one_more_line: bool,
    one_more_mark: bool,
    by_line: bool,
)
    ensures
        final(out)@ == old(out)@ + wall_section(
            title@,
            removed@,
            if one_more_line {
                (lines + 1) as nat
            } else {
                lines as nat
            },
            if one_more_mark {
                (width + 1) as nat
            } else {
                width as nat
            },
            by_line,
        ),
{
    let ghost full: nat = if one_more_mark {
        (width + 1) as nat
    } else {
        width as nat
    };
    if removed.is_empty() {
        assert(out@ =~= old(out)@ + Seq::<char>::empty());
        return ;
    }
    out.append(title);
    out.append("\n");
    let ghost start = out@;
    let mut r: usize = 0;
    assert(out@ =~= start + wall_lines(removed@, 0, full, by_line));
    while r < lines
        invariant
            0 <= r <= lines,
            full == if one_more_mark {
                (width + 1) as nat
            } else {
                width as nat
            },
            out@ == start + wall_lines(removed@, r as nat, full, by_line),
        decreases lines - r,
    {
        push_wall_line(out, removed, r, width, one_more_mark, by_line);
        assert(out@ =~= start + wall_lines(removed@, (r + 1) as nat, full, by_line));
        r += 1;
    }
    if one_more_line {
        push_wall_line(out, removed, lines, width, one_more_mark, by_line);
        assert(out@ =~= start + wall_lines(removed@, (lines + 1) as nat, full, by_line));
    }
    assert(out@ =~= old(out)@ + (title@ + "\n"@ + wall_lines(
        removed@,
        if one_more_line {
            (lines + 1) as nat
        } else {
            lines as nat
        },
        full,
        by_line,
    )));
}

/// Decides whether no string of `rows` has any character.
fn no_text(rows: &Vec<Vec<String>>, Ghost(texts): Ghost<Seq<Seq<Seq<char>>>>) -> (r: bool)
    requires
        texts.len() == rows@.len(),
        forall|y: int| 0 <= y < rows@.len() ==> #[trigger] texts[y] == row_texts(rows@[y]@),
    ensures
        r == all_texts_empty(texts),
{
    let mut y: usize = 0;
    while y < rows.len()
        invariant
            0 <= y <= rows@.len(),
            texts.len() == rows@.len(),
            forall|y: int| 0 <= y < rows@.len() ==> #[trigger] texts[y] == row_texts(rows@[y]@),
            forall|j: int, x: int|
                0 <= j < y && 0 <= x < texts[j].len() ==> (#[trigger] texts[j][x]).len() == 0,
        decreases rows@.len() - y,
    {
        let row = &rows[y];
        let mut x: usize = 0;
        while x < row.len()
            invariant
                0 <= x <= row@.len(),
                0 <= y < rows@.len(),
                texts.len() == rows@.len(),
                row@ == rows@[y as int]@,
                texts[y as int] == row_texts(row@),
                forall|i: int| 0 <= i < x ==> (#[trigger] texts[y as int][i]).len() == 0,
            decreases row@.len() - x,
        {
            if !row[x].as_str().is_empty() {
                assert(texts[y as int][x as int] == row@[x as int]@);
                assert(0 <= x < texts[y as int].len() && texts[y as int][x as int].len() > 0);
                return false;
            }
            x += 1;
        }
        y += 1;
    }
    true
}

/// Appends the line of one row of texts to `out`.
fn push_text_row(out: &mut String, row: &Vec<String>)
    ensures
        final(out)@ == old(out)@ + text_row(row_texts(row@)),
{
    let ghost cells = row_texts(row@);
    let mut k: usize = row.len();
    while k > 0 && row[k - 1].as_str().is_empty()
        invariant
            0 <= k <= row@.len(),
            cells == row_texts(row@),
            trimmed_len(cells, cells.len()) == trimmed_len(cells, k as nat),
        decreases k,
    {
        k -= 1;
    }
    assert(trimmed_len(cells, cells.len()) == k);
    let mut x: usize = 0;
    assert(out@ =~= old(out)@ + joined_cells(cells, 0));
    while x < k
        invariant
            0 <= x <= k <= row@.len(),
            cells == row_texts(row@),
            out@ == old(out)@ + joined_cells(cells, x as nat),
        decreases k - x,
    {
        if x > 0 {
            out.append(" ");
        }
        if row[x].as_str().is_empty() {
            out.append("\"\"");
        } else {
            out.append(row[x].as_str());
        }
        assert(out@ =~= old(out)@ + joined_cells(cells, (x + 1) as nat));
        x += 1;
    }
    out.append("\n");
}

/// Appends the section of the cell texts to `out`.
fn push_text_section(
    out: &mut String,
    rows: &Vec<Vec<String>>,
    Ghost(texts): Ghost<Seq<Seq<Seq<char>>>>,
)
    requires
        texts.len() == rows@.len(),
        forall|y: int| 0 <= y < rows@.len() ==> #[trigger] texts[y] == row_texts(rows@[y]@),
    ensures
        final(out)@ == old(out)@ + text_section(texts),
{
    if no_text(rows, Ghost(texts)) {
        assert(out@ =~= old(out)@ + Seq::<char>::empty());
        return ;
    }
    out.append("CELL_TEXT\n");
    let ghost start = out@;
    let mut y: usize = 0;
    assert(out@ =~= start + text_rows(texts, 0));
    while y < rows.len()
        invariant
            0 <= y <= rows@.len(),
            texts.len() == rows@.len(),
            forall|y: int| 0 <= y < rows@.len() ==> #[trigger] texts[y] == row_texts(rows@[y]@),
            out@ == start + text_rows(texts, y as nat),
        decreases rows@.len() - y,
    {
        push_text_row(out, &rows[y]);
        assert(out@ =~= start + text_rows(texts, (y + 1) as nat));
        y += 1;
    }
    assert(out@ =~= old(out)@ + ("CELL_TEXT\n"@ + text_rows(texts, texts.len())));
}

} // verus!
