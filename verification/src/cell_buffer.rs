//! The rectangular grid of cells: row-major addressing, bounds policy,
//! drawing primitives and composition.
//!
//! Reads of a single cell demand an in-bounds position; single-cell writes
//! clip silently. The multi-cell primitives (`write_text`, `repeat_cell`,
//! `blit`) instead stop at the first out-of-bounds position, as described
//! on each of them.

use vstd::prelude::*;
use vstd::arithmetic::div_mod::lemma_fundamental_div_mod_converse;
use vstd::pervasive::VecAdditionalExecFns;
use crate::cell::Cell;
use crate::geometry::Point2d;
use crate::geometry::Size2d;

verus! {

/// A rectangular grid of cells stored row by row: the cell at `(x, y)`
/// lives at index `x + width * y` of the underlying sequence.
pub struct CellBuffer {
    pub size: Size2d,
    pub cells: Vec<Cell>,
}

impl View for CellBuffer {
    type V = Seq<Cell>;

    closed spec fn view(&self) -> Seq<Cell> {
        self.cells@
    }
}

impl CellBuffer {
    /// The grid invariant: the sequence holds exactly one cell per grid
    /// position, and that count fits the machine.
    pub open spec fn wf(self) -> bool {
        &&& self@.len() == self.size.width * self.size.height
        &&& self@.len() <= usize::MAX
    }

    /// Whether a position lies on the grid.
    pub open spec fn spec_in_bounds(self, position: Point2d) -> bool {
        position.x < self.size.width && position.y < self.size.height
    }

    /// The row-major index of the position `(x, y)`.
    pub open spec fn spec_index_at(self, x: int, y: int) -> int {
        x + self.size.width * y
    }

    /// The row-major index of a position.
    pub open spec fn spec_index_of(self, position: Point2d) -> int {
        self.spec_index_at(position.x as int, position.y as int)
    }

    /// The cell stored at the position `(x, y)`.
    pub open spec fn spec_cell_at(self, x: int, y: int) -> Cell {
        self@[self.spec_index_at(x, y)]
    }

    /// The position a row-major index denotes, or the origin when the grid
    /// is degenerate.
    pub open spec fn spec_coordinates_of(self, index: int) -> Point2d {
        if self.size.spec_is_empty() {
            Point2d { x: 0, y: 0 }
        } else {
            Point2d {
                x: (index % (self.size.width as int)) as usize,
                y: (index / (self.size.width as int)) as usize,
            }
        }
    }

    /// Builds a buffer of the given size with every cell equal to
    /// `default_cell`.
    pub fn new(default_cell: Cell, size: Size2d) -> (r: CellBuffer)
        requires
            size.width * size.height <= usize::MAX,
        ensures
            r.wf(),
            r.size == size,
            r@.len() == size.width * size.height,
            forall|i: int| 0 <= i < r@.len() ==> r@[i] == default_cell,
    {
        let count: usize = size.width * size.height;
        let mut cells: Vec<Cell> = Vec::new();
        let mut i: usize = 0;
        while i < count
            invariant
                i <= count,
                cells@.len() == i,
                forall|j: int| 0 <= j < i ==> cells@[j] == default_cell,
            decreases count - i,
        {
            cells.push(default_cell);
            i = i + 1;
        }
        CellBuffer { size, cells }
    }

    /// Builds a buffer of the given size filled with the blank cell.
    pub fn new_default(size: Size2d) -> (r: CellBuffer)
        requires
            size.width * size.height <= usize::MAX,
        ensures
            r.wf(),
            r.size == size,
            forall|i: int| 0 <= i < r@.len() ==> r@[i] == Cell::new_default(' '),
    {
        CellBuffer::new(Cell::new_default(' '), size)
    }

    /// The number of cells the grid holds.
    pub fn len(&self) -> (r: usize)
        ensures
            r == self@.len(),
    {
        self.cells.len()
    }

    /// The grid extent.
    pub fn get_size(&self) -> (r: Size2d)
        ensures
            r == self.size,
    {
        self.size
    }

    /// The cells in row-major order.
    pub fn get_cells(&self) -> (r: &Vec<Cell>)
        ensures
            r@ == self@,
    {
        &self.cells
    }

    /// The row-major index of an in-bounds position.
    pub fn index_of(&self, position: Point2d) -> (r: usize)
        requires
            self.wf(),
            self.spec_in_bounds(position),
        ensures
            r == self.spec_index_of(position),
            r < self@.len(),
    {
        proof {
            lemma_grid_index_in_range(
                self.size.width as int,
                self.size.height as int,
                position.x as int,
                position.y as int,
            );
        }
        position.x + self.size.width * position.y
    }

    /// The position a row-major index denotes; on a degenerate grid every
    /// index falls back to the origin.
    pub fn coordinates_of(&self, index: usize) -> (r: Point2d)
        ensures
            r == self.spec_coordinates_of(index as int),
    {
        if self.size.is_empty() {
            return Point2d::empty();
        }
        Point2d::new(index % self.size.width, index / self.size.width)
    }

    /// Reads the cell at an in-bounds position. Reading out of bounds is a
    /// contract violation, so callers must validate the position first.
    pub fn get(&self, position: Point2d) -> (r: Cell)
        requires
            self.wf(),
            self.spec_in_bounds(position),
        ensures
            r == self@[self.spec_index_of(position)],
            r == self.spec_cell_at(position.x as int, position.y as int),
    {
        let index = self.index_of(position);
        self.cells[index]
    }

    /// Writes a cell at a position if it is in bounds, and silently does
    /// nothing otherwise: callers may draw past any edge and rely on the
    /// write being clipped.
    pub fn set(&mut self, position: Point2d, cell: Cell)
        requires
            old(self).wf(),
        ensures
            final(self).wf(),
            final(self).size == old(self).size,
            old(self).spec_in_bounds(position) ==> final(self)@ == old(self)@.update(
                old(self).spec_index_of(position),
                cell,
            ),
            !old(self).spec_in_bounds(position) ==> final(self)@ == old(self)@,
            old(self).spec_in_bounds(position) ==> final(self).spec_cell_at(
                position.x as int,
                position.y as int,
            ) == cell,
            forall|x: int, y: int|
                0 <= x < old(self).size.width && 0 <= y < old(self).size.height && !(x == position.x
                    && y == position.y) ==> final(self).spec_cell_at(x, y) == old(
                    self,
                ).spec_cell_at(x, y),
    {
        if position.x < self.size.width && position.y < self.size.height {
            let index = self.index_of(position);
            self.cells.set(index, cell);
            proof {
                assert forall|x: int, y: int|
                    0 <= x < old(self).size.width && 0 <= y < old(self).size.height && !(x
                        == position.x && y == position.y) implies final(self).spec_cell_at(x, y)
                    == old(self).spec_cell_at(x, y) by {
                    lemma_grid_index_in_range(
                        old(self).size.width as int,
                        old(self).size.height as int,
                        x,
                        y,
                    );
                    if old(self).spec_index_at(x, y) == old(self).spec_index_of(position) {
                        lemma_grid_index_injective(
                            old(self).size.width as int,
                            x,
                            y,
                            position.x as int,
                            position.y as int,
                        );
                    }
                }
            }
        }
    }

    /// Replaces the whole grid: the new buffer has extent `new_size` and
    /// every cell equal to `default_cell`, whatever the prior contents
    /// were. No content is migrated.
    pub fn resize(&mut self, default_cell: Cell, new_size: Size2d)
        requires
            new_size.width * new_size.height <= usize::MAX,
        ensures
            final(self).wf(),
            final(self).size == new_size,
            final(self)@.len() == new_size.width * new_size.height,
            forall|i: int| 0 <= i < final(self)@.len() ==> final(self)@[i] == default_cell,
    {
        *self = CellBuffer::new(default_cell, new_size);
    }
}

/// How many cells a horizontal run of `n` cells starting at `position`
/// writes before it stops: zero when the start is already out of bounds,
/// and otherwise at most up to the right edge of the row.
pub open spec fn spec_run_length(size: Size2d, position: Point2d, n: int) -> int {
    if position.y >= size.height || position.x >= size.width {
        0
    } else if n <= size.width - position.x {
        n
    } else {
        size.width - position.x
    }
}

/// Collects the characters of a string slice in order.
fn collect_chars(text: &str) -> (r: Vec<char>)
    ensures
        r@ == text@,
{
    let mut chars: Vec<char> = Vec::new();
    for c in it: text.chars()
        invariant
            it.seq() == text@,
            chars@ == it.seq().take(it.index() as int),
    {
        proof {
            assert(it.seq().take(it.index() as int + 1) =~= it.seq().take(it.index() as int).push(
                it.seq()[it.index() as int],
            ));
        }
        chars.push(c);
    }
    proof {
        assert(chars@ =~= text@);
    }
    chars
}

impl CellBuffer {
    /// Writes the characters of `text` from `position` rightwards, one
    /// column per character, giving each the template cell's colors. The
    /// run stops entirely at the first character whose position would be
    /// out of bounds; nothing past that point is written.
    pub fn write_text(&mut self, text: &str, position: Point2d, cell: Cell)
        requires
            old(self).wf(),
        ensures
            final(self).wf(),
            final(self).size == old(self).size,
            final(self)@.len() == old(self)@.len(),
            forall|x: int|
                position.x <= x < position.x + spec_run_length(
                    old(self).size,
                    position,
                    text@.len() as int,
                ) ==> final(self).spec_cell_at(x, position.y as int) == (Cell {
                    character: text@[x - position.x],
                    foreground: cell.foreground,
                    background: cell.background,
                }),
            forall|x: int, y: int|
                0 <= x < old(self).size.width && 0 <= y < old(self).size.height && !(y == position.y
                    && position.x <= x < position.x + spec_run_length(
                    old(self).size,
                    position,
                    text@.len() as int,
                )) ==> final(self).spec_cell_at(x, y) == old(self).spec_cell_at(x, y),
    {
        let chars = collect_chars(text);
        if position.y >= self.size.height || position.x >= self.size.width {
            return ;
        }
        let room = self.size.width - position.x;
        let mut i: usize = 0;
        while i < chars.len() && i < room
            invariant
                self.wf(),
                self.size == old(self).size,
                self@.len() == old(self)@.len(),
                chars@ == text@,
                room == self.size.width - position.x,
                position.y < self.size.height,
                position.x < self.size.width,
                i <= spec_run_length(old(self).size, position, text@.len() as int),
                forall|x: int|
                    position.x <= x < position.x + i ==> self.spec_cell_at(x, position.y as int)
                        == (Cell {
                        character: text@[x - position.x],
                        foreground: cell.foreground,
                        background: cell.background,
                    }),
                forall|x: int, y: int|
                    0 <= x < old(self).size.width && 0 <= y < old(self).size.height && !(y
                        == position.y && position.x <= x < position.x + i) ==> self.spec_cell_at(
                        x,
                        y,
                    ) == old(self).spec_cell_at(x, y),
            decreases chars.len() - i,
        {
            self.set(
                Point2d { x: position.x + i, y: position.y },
                Cell { character: chars[i], foreground: cell.foreground, background: cell.background },
            );
            i = i + 1;
        }
    }

    /// Writes `cell` at `length` successive columns from `position`. Like
    /// `write_text`, the run stops entirely at the first position that
    /// would fall out of bounds.
    pub fn repeat_cell(&mut self, cell: Cell, position: Point2d, length: usize)
        requires
            old(self).wf(),
        ensures
            final(self).wf(),
            final(self).size == old(self).size,
            final(self)@.len() == old(self)@.len(),
            forall|x: int|
                position.x <= x < position.x + spec_run_length(
                    old(self).size,
                    position,
                    length as int,
                ) ==> final(self).spec_cell_at(x, position.y as int) == cell,
            forall|x: int, y: int|
                0 <= x < old(self).size.width && 0 <= y < old(self).size.height && !(y == position.y
                    && position.x <= x < position.x + spec_run_length(
                    old(self).size,
                    position,
                    length as int,
                )) ==> final(self).spec_cell_at(x, y) == old(self).spec_cell_at(x, y),
    {
        if position.y >= self.size.height || position.x >= self.size.width {
            return ;
        }
        let room = self.size.width - position.x;
        let mut i: usize = 0;
        while i < length && i < room
            invariant
                self.wf(),
                self.size == old(self).size,
                self@.len() == old(self)@.len(),
                room == self.size.width - position.x,
                position.y < self.size.height,
                position.x < self.size.width,
                i <= spec_run_length(old(self).size, position, length as int),
                forall|x: int|
                    position.x <= x < position.x + i ==> self.spec_cell_at(x, position.y as int)
                        == cell,
                forall|x: int, y: int|
                    0 <= x < old(self).size.width && 0 <= y < old(self).size.height && !(y
                        == position.y && position.x <= x < position.x + i) ==> self.spec_cell_at(
                        x,
                        y,
                    ) == old(self).spec_cell_at(x, y),
            decreases length - i,
        {
            self.set(Point2d { x: position.x + i, y: position.y }, cell);
            i = i + 1;
        }
    }
}

/// How many source rows a blit onto a destination of extent `dest` at
/// `position` copies: none when the first destination row is already out
/// of bounds, and otherwise at most down to the bottom edge.
pub open spec fn spec_blit_rows(dest: Size2d, src: Size2d, position: Point2d) -> int {
    if position.y >= dest.height {
        0
    } else if src.height <= dest.height - position.y {
        src.height as int
    } else {
        dest.height - position.y
    }
}

/// How many cells of each copied source row a blit copies: none when the
/// first destination column is out of bounds, and otherwise at most up to
/// the right edge.
pub open spec fn spec_blit_cols(dest: Size2d, src: Size2d, position: Point2d) -> int {
    if position.x >= dest.width {
        0
    } else if src.width <= dest.width - position.x {
        src.width as int
    } else {
        dest.width - position.x
    }
}

impl CellBuffer {
    /// Composes `source` onto this buffer with its top-left corner at
    /// `position`. Rows are copied top-down until the first destination
    /// row out of vertical bounds, which stops the whole blit; within a
    /// row, cells are copied until the first destination column out of
    /// horizontal bounds, which stops that row but not the rows below it.
    /// Cells the copy never reaches keep their prior value.
    pub fn blit(&mut self, source: &CellBuffer, position: Point2d)
        requires
            old(self).wf(),
            source.wf(),
        ensures
            final(self).wf(),
            final(self).size == old(self).size,
            final(self)@.len() == old(self)@.len(),
            forall|x: int, y: int|
                position.x <= x < position.x + spec_blit_cols(old(self).size, source.size, position)
                    && position.y <= y < position.y + spec_blit_rows(
                    old(self).size,
                    source.size,
                    position,
                ) ==> final(self).spec_cell_at(x, y) == source.spec_cell_at(
                    x - position.x,
                    y - position.y,
                ),
            forall|x: int, y: int|
                0 <= x < old(self).size.width && 0 <= y < old(self).size.height && !(position.x <= x
                    < position.x + spec_blit_cols(old(self).size, source.size, position)
                    && position.y <= y < position.y + spec_blit_rows(
                    old(self).size,
                    source.size,
                    position,
                )) ==> final(self).spec_cell_at(x, y) == old(self).spec_cell_at(x, y),
    {
        let ghost rows = spec_blit_rows(old(self).size, source.size, position);
        let ghost cols = spec_blit_cols(old(self).size, source.size, position);
        let mut cby: usize = 0;
        while cby < source.size.height && position.y < self.size.height && cby < self.size.height
            - position.y
            invariant
                self.wf(),
                self.size == old(self).size,
                self@.len() == old(self)@.len(),
                source.wf(),
                rows == spec_blit_rows(old(self).size, source.size, position),
                cols == spec_blit_cols(old(self).size, source.size, position),
                cby <= source.size.height,
                cby <= rows,
                forall|x: int, y: int|
                    position.x <= x < position.x + cols && position.y <= y < position.y + cby
                        ==> self.spec_cell_at(x, y) == source.spec_cell_at(
                        x - position.x,
                        y - position.y,
                    ),
                forall|x: int, y: int|
                    0 <= x < old(self).size.width && 0 <= y < old(self).size.height && !(position.x
                        <= x < position.x + cols && position.y <= y < position.y + cby)
                        ==> self.spec_cell_at(x, y) == old(self).spec_cell_at(x, y),
            decreases source.size.height - cby,
        {
            let mut cbx: usize = 0;
            while cbx < source.size.width && position.x < self.size.width && cbx < self.size.width
                - position.x
                invariant
                    self.wf(),
                    self.size == old(self).size,
                    self@.len() == old(self)@.len(),
                    source.wf(),
                    rows == spec_blit_rows(old(self).size, source.size, position),
                    cols == spec_blit_cols(old(self).size, source.size, position),
                    cby < source.size.height,
                    cby <= rows,
                    position.y + cby < self.size.height,
                    cbx <= source.size.width,
                    cbx <= cols,
                    forall|x: int, y: int|
                        position.x <= x < position.x + cols && position.y <= y < position.y + cby
                            ==> self.spec_cell_at(x, y) == source.spec_cell_at(
                            x - position.x,
                            y - position.y,
                        ),
                    forall|x: int, y: int|
                        y == position.y + cby && position.x <= x < position.x + cbx
                            ==> self.spec_cell_at(x, y) == source.spec_cell_at(
                            x - position.x,
                            y - position.y,
                        ),
                    forall|x: int, y: int|
                        0 <= x < old(self).size.width && 0 <= y < old(self).size.height && !(
                        position.x <= x < position.x + cols && position.y <= y < position.y + cby)
                            && !(y == position.y + cby && position.x <= x < position.x + cbx)
                            ==> self.spec_cell_at(x, y) == old(self).spec_cell_at(x, y),
                decreases source.size.width - cbx,
            {
                let copied = source.get(Point2d { x: cbx, y: cby });
                self.set(Point2d { x: position.x + cbx, y: position.y + cby }, copied);
                cbx = cbx + 1;
            }
            proof {
                assert(cbx == cols);
            }
            cby = cby + 1;
        }
        proof {
            assert(cby == rows);
        }
    }
}

/// An in-bounds position has an in-range row-major index: for
/// `0 <= x < w` and `0 <= y < h`, the index `x + w * y` lies below `w * h`.
pub proof fn lemma_grid_index_in_range(w: int, h: int, x: int, y: int)
    requires
        0 <= x < w,
        0 <= y < h,
    ensures
        0 <= x + w * y,
        x + w * y < w * h,
{
    assert(x + w * y < w * h) by (nonlinear_arith)
        requires
            0 <= x < w,
            0 <= y < h,
    ;
}

/// Row-major addressing is injective over positions with an in-range
/// column: two positions with the same index are the same position.
pub proof fn lemma_grid_index_injective(w: int, x1: int, y1: int, x2: int, y2: int)
    requires
        0 <= x1 < w,
        0 <= x2 < w,
        0 <= y1,
        0 <= y2,
        x1 + w * y1 == x2 + w * y2,
    ensures
        x1 == x2,
        y1 == y2,
{
    assert(y1 == y2) by (nonlinear_arith)
        requires
            0 <= x1 < w,
            0 <= x2 < w,
            0 <= y1,
            0 <= y2,
            x1 + w * y1 == x2 + w * y2,
    ;
}

/// Every in-range row-major index decomposes into an in-bounds position:
/// on a grid of positive width, index `k < w * h` denotes the position
/// `(k % w, k / w)`.
pub proof fn lemma_grid_index_decomposition(w: int, h: int, k: int)
    requires
        0 < w,
        0 <= k < w * h,
    ensures
        0 <= k % w < w,
        0 <= k / w < h,
        k == (k % w) + w * (k / w),
{
    vstd::arithmetic::div_mod::lemma_fundamental_div_mod(k, w);
    vstd::arithmetic::div_mod::lemma_mod_pos_bound(k, w);
    assert(k / w < h) by (nonlinear_arith)
        requires
            0 < w,
            0 <= k < w * h,
            k == w * (k / w) + k % w,
            0 <= k % w < w,
    ;
}

/// Coordinate addressing round-trips: on a grid of positive width, an
/// in-bounds position is recovered from its own row-major index.
pub proof fn lemma_coordinates_of_index_of(buffer: CellBuffer, position: Point2d)
    requires
        buffer.size.width > 0,
        buffer.spec_in_bounds(position),
    ensures
        buffer.spec_coordinates_of(buffer.spec_index_of(position)) == position,
{
    let w = buffer.size.width as int;
    let x = position.x as int;
    let y = position.y as int;
    assert(x + w * y == y * w + x) by (nonlinear_arith);
    lemma_fundamental_div_mod_converse(x + w * y, w, y, x);
}

/// The converse round trip: on a well-formed grid of positive width, an
/// in-range row-major index is recovered from its own position.
pub proof fn lemma_index_of_coordinates_of(buffer: CellBuffer, index: int)
    requires
        buffer.wf(),
        buffer.size.width > 0,
        0 <= index < buffer@.len(),
    ensures
        buffer.spec_in_bounds(buffer.spec_coordinates_of(index)),
        buffer.spec_index_of(buffer.spec_coordinates_of(index)) == index,
{
    lemma_grid_index_decomposition(
        buffer.size.width as int,
        buffer.size.height as int,
        index,
    );
}

/// Writing then reading the same position returns the written cell: a
/// buffer `post` that `set` produced from `pre` by writing `cell` at an
/// in-bounds `position` holds `cell` there, which is what `get` returns;
/// and after an out-of-bounds write, `post` equals `pre` everywhere.
pub proof fn lemma_set_then_get(pre: CellBuffer, post: CellBuffer, position: Point2d, cell: Cell)
    requires
        pre.wf(),
        post.size == pre.size,
        pre.spec_in_bounds(position) ==> post@ == pre@.update(pre.spec_index_of(position), cell),
        !pre.spec_in_bounds(position) ==> post@ == pre@,
    ensures
        pre.spec_in_bounds(position) ==> post@[post.spec_index_of(position)] == cell,
        !pre.spec_in_bounds(position) ==> post@ == pre@,
{
    if pre.spec_in_bounds(position) {
        lemma_grid_index_in_range(
            pre.size.width as int,
            pre.size.height as int,
            position.x as int,
            position.y as int,
        );
    }
}

} // verus!
