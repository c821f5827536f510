//! Geometry of the thumbnail grid.
//!
//! Cells are squares of `CELL_SIZE` pixels laid out row by row, `CELL_SPACING`
//! pixels apart, in as many columns as fit the window width. Drawing, click
//! hit-testing and the visible-range hint for the thumbnail worker all go
//! through the functions of this module, so that they cannot disagree.
//!
//! Positions are whole pixels. The scroll offset is zero or negative: it is
//! added to the content position of a cell to get its position on screen.
//!
//! The formulas below are written with the numbers themselves: 250 for the
//! size of a cell, 20 for the spacing, 270 for the two together.

use vstd::prelude::*;

verus! {

/// Edge of a square grid cell, in pixels.
pub const CELL_SIZE: u32 = 250;

/// Gap between neighbouring cells, and between the grid and the window edge.
pub const CELL_SPACING: u32 = 20;

/// Distance from the origin of one cell to the origin of the next.
pub const CELL_PITCH: u32 = 270;

/// Number of columns shown in a window of the given width: as many whole
/// cell pitches as fit, and never fewer than one.
pub open spec fn spec_columns(window_width: int) -> int {
    if window_width / 270 >= 1 {
        window_width / 270
    } else {
        1
    }
}

/// Row of the cell with the given logical index.
pub open spec fn spec_row(index: int, window_width: int) -> int {
    index / spec_columns(window_width)
}

/// Column of the cell with the given logical index.
pub open spec fn spec_column(index: int, window_width: int) -> int {
    index % spec_columns(window_width)
}

/// Number of rows needed for `count` cells.
pub open spec fn spec_row_count(count: int, window_width: int) -> int {
    (count + spec_columns(window_width) - 1) / spec_columns(window_width)
}

/// Height of the whole grid: every row plus the spacing below the last one.
pub open spec fn spec_content_height(count: int, window_width: int) -> int {
    spec_row_count(count, window_width) * 270 + 20
}

/// How far the grid can be scrolled: the part of the content that does not
/// fit the window, or zero when all of it fits.
pub open spec fn spec_max_scroll(count: int, window_width: int, window_height: int) -> int {
    if spec_content_height(count, window_width) - window_height > 0 {
        spec_content_height(count, window_width) - window_height
    } else {
        0
    }
}

/// `scroll` limited to the interval from `-max_scroll` to zero.
pub open spec fn spec_clamp_scroll(
    scroll: int,
    count: int,
    window_width: int,
    window_height: int,
) -> int {
    if scroll < -spec_max_scroll(count, window_width, window_height) {
        -spec_max_scroll(count, window_width, window_height)
    } else if scroll > 0 {
        0
    } else {
        scroll
    }
}

/// Left edge of a cell on screen.
pub open spec fn spec_cell_left(index: int, window_width: int) -> int {
    20 + spec_column(index, window_width) * 270
}

/// Top edge of a cell in content coordinates, before scrolling.
pub open spec fn spec_cell_content_top(index: int, window_width: int) -> int {
    20 + spec_row(index, window_width) * 270
}

/// Top edge of a cell on screen.
pub open spec fn spec_cell_top(index: int, window_width: int, scroll: int) -> int {
    spec_cell_content_top(index, window_width) + scroll
}

/// Whether a cell whose top edge is at `top` on screen is drawn: it is
/// skipped only when it lies wholly above or wholly below the window.
pub open spec fn spec_cell_visible(top: int, window_height: int) -> bool {
    !(top + 250 < 0 || top > window_height)
}

/// The cell under a point of the window, if any. The pitch box of a cell
/// (the cell and the spacing to its right and below) counts as the cell.
/// Points left of the first column, right of the last, or above the first
/// row hit nothing.
pub open spec fn spec_hit_index(x: int, y: int, scroll: int, window_width: int) -> Option<int> {
    let col = (x - 20) / 270;
    let row = (y - scroll - 20) / 270;
    if 0 <= col < spec_columns(window_width) && row >= 0 {
        Some(row * spec_columns(window_width) + col)
    } else {
        None
    }
}

/// First row that reaches into the window.
pub open spec fn spec_first_visible_row(scroll: int) -> int {
    if (-scroll - 20) / 270 >= 0 {
        (-scroll - 20) / 270
    } else {
        0
    }
}

/// One past the last row that reaches into the window.
pub open spec fn spec_end_visible_row(scroll: int, window_height: int) -> int {
    (-scroll + window_height + 20 + 269) / 270
}

/// First logical index of the visible range that is hinted to the thumbnail
/// worker.
pub open spec fn spec_visible_start(scroll: int, window_width: int) -> int {
    spec_first_visible_row(scroll) * spec_columns(window_width)
}

/// One past the last logical index of the hinted visible range.
pub open spec fn spec_visible_end(scroll: int, window_width: int, window_height: int) -> int {
    spec_end_visible_row(scroll, window_height) * spec_columns(window_width)
}

/// Scroll offset after bringing the row of `index` into view: unchanged if
/// the row is inside the window, else moved by the least amount that puts the
/// row inside, which puts it at the window edge that it was beyond, and then
/// clamped.
pub open spec fn spec_scroll_to_item(
    scroll: int,
    index: int,
    count: int,
    window_width: int,
    window_height: int,
) -> int {
    let top = spec_cell_content_top(index, window_width);
    let bottom = top + 250;
    let moved = if top < -scroll {
        -top
    } else if bottom > -scroll + window_height {
        window_height - bottom
    } else {
        scroll
    };
    spec_clamp_scroll(moved, count, window_width, window_height)
}

/// Number of columns in a window of the given width.
pub fn columns(window_width: u32) -> (c: u32)
    ensures
        c == spec_columns(window_width as int),
        1 <= c <= 15907286,
{
    let fit: u32 = window_width / CELL_PITCH;
    if fit >= 1 {
        fit
    } else {
        1
    }
}

/// Row of the cell with logical index `index`.
pub fn row_of(index: usize, window_width: u32) -> (row: usize)
    ensures
        row == spec_row(index as int, window_width as int),
{
    let cols: u32 = columns(window_width);
    index / (cols as usize)
}

/// Column of the cell with logical index `index`.
pub fn column_of(index: usize, window_width: u32) -> (col: u32)
    ensures
        col == spec_column(index as int, window_width as int),
        col < spec_columns(window_width as int),
{
    let cols: u32 = columns(window_width);
    (index % (cols as usize)) as u32
}

/// Number of rows that `count` cells take.
pub fn row_count(count: usize, window_width: u32) -> (rows: usize)
    ensures
        rows == spec_row_count(count as int, window_width as int),
        rows <= count,
{
    let cols: u128 = columns(window_width) as u128;
    let padded: u128 = count as u128 + cols - 1;
    proof {
        lemma_rows_bounded(count as int, cols as int);
    }
    (padded / cols) as usize
}

/// Height of the whole grid in pixels.
pub fn content_height(count: usize, window_width: u32) -> (height: i128)
    ensures
        height == spec_content_height(count as int, window_width as int),
        20 <= height <= 270 * count + 20,
{
    let rows: i128 = row_count(count, window_width) as i128;
    rows * 270 + 20
}

/// The farthest the grid can be scrolled.
pub fn max_scroll(count: usize, window_width: u32, window_height: u32) -> (limit: i128)
    ensures
        limit == spec_max_scroll(count as int, window_width as int, window_height as int),
        0 <= limit <= 270 * count + 20,
{
    let excess: i128 = content_height(count, window_width) - window_height as i128;
    if excess > 0 {
        excess
    } else {
        0
    }
}

/// Limits a scroll offset to what the grid allows.
pub fn clamp_scroll(scroll: i128, count: usize, window_width: u32, window_height: u32) -> (clamped:
    i128)
    ensures
        clamped == spec_clamp_scroll(
            scroll as int,
            count as int,
            window_width as int,
            window_height as int,
        ),
        -spec_max_scroll(count as int, window_width as int, window_height as int) <= clamped <= 0,
        -(270 * count + 20) <= clamped,
{
    let limit: i128 = max_scroll(count, window_width, window_height);
    if scroll < -limit {
        -limit
    } else if scroll > 0 {
        0
    } else {
        scroll
    }
}

/// The cell under the point (`x`, `y`) of the window, among `count` cells.
/// Returns nothing where the point lies outside every column or above the
/// first row, or where the cell it falls on does not exist.
pub fn hit_test(x: i32, y: i32, scroll: i128, window_width: u32, count: usize) -> (hit: Option<
    usize,
>)
    ensures
        hit == match spec_hit_index(x as int, y as int, scroll as int, window_width as int) {
            Some(index) => if index < count {
                Some(index as usize)
            } else {
                None
            },
            None => None,
        },
{
    let cols: u128 = columns(window_width) as u128;
    if scroll < -0x8000_0000_0000_0000_0000 || scroll > 0x8000_0000_0000_0000_0000 {
        // So far from the top that the point lies above the first row or
        // below any row that a grid can have.
        proof {
            lemma_floor_sign((x - 20) as int, 270);
            lemma_floor_sign((y - scroll - 20) as int, 270);
            if scroll < 0 {
                let row = (y - scroll - 20) / 270;
                let col = (x - 20) / 270;
                assert(row >= 0x1_0000_0000_0000_0000) by (nonlinear_arith)
                    requires
                        row == (y - scroll - 20) / 270,
                        y - scroll - 20 >= 0x1_0000_0000_0000_0000 * 270,
                ;
                if 0 <= col < cols {
                    assert(row * cols + col >= row) by (nonlinear_arith)
                        requires
                            row >= 0,
                            cols >= 1,
                            col >= 0,
                    ;
                }
            }
        }
        return None;
    }
    let dx: i128 = x as i128 - 20;
    let dy: i128 = y as i128 - scroll - 20;
    if dx < 0 || dy < 0 {
        proof {
            lemma_floor_sign((x - 20) as int, 270);
            lemma_floor_sign((y - scroll - 20) as int, 270);
        }
        return None;
    }
    let col: u128 = (dx as u128) / 270;
    let row: u128 = (dy as u128) / 270;
    proof {
        lemma_floor_sign((x - 20) as int, 270);
        lemma_floor_sign((y - scroll - 20) as int, 270);
        assert(row * cols <= 0x1_0000_0000_0000_0000_0000 * 0x1_0000_0000) by (nonlinear_arith)
            requires
                row <= 0x1_0000_0000_0000_0000_0000,
                cols <= 0x1_0000_0000,
        ;
    }
    if col >= cols {
        return None;
    }
    let index: u128 = row * cols + col;
    if index < count as u128 {
        Some(index as usize)
    } else {
        None
    }
}

/// Scroll offset that brings the row of cell `index` into view.
pub fn scroll_to_item(
    scroll: i128,
    index: usize,
    count: usize,
    window_width: u32,
    window_height: u32,
) -> (target: i128)
    ensures
        target == spec_scroll_to_item(
            scroll as int,
            index as int,
            count as int,
            window_width as int,
            window_height as int,
        ),
        -spec_max_scroll(count as int, window_width as int, window_height as int) <= target <= 0,
        -(270 * count + 20) <= target,
{
    let limit: i128 = max_scroll(count, window_width, window_height);
    let row: i128 = row_of(index, window_width) as i128;
    let top: i128 = 20 + row * 270;
    let bottom: i128 = top + 250;
    let moved: i128 = if scroll < -top {
        -top
    } else if scroll > window_height as i128 - bottom {
        window_height as i128 - bottom
    } else {
        scroll
    };
    if moved < -limit {
        -limit
    } else if moved > 0 {
        0
    } else {
        moved
    }
}

/// Drawing and hit-testing agree on where a cell is: every point of the
/// square that cell `index` is drawn in (and of the spacing to its right and
/// below) hits `index`, for any window width and scroll offset.
pub proof fn hit_test_agrees_with_layout(
    index: int,
    window_width: int,
    scroll: int,
    dx: int,
    dy: int,
)
    requires
        index >= 0,
        0 <= dx < 270,
        0 <= dy < 270,
    ensures
        spec_hit_index(
            spec_cell_left(index, window_width) + dx,
            spec_cell_top(index, window_width, scroll) + dy,
            scroll,
            window_width,
        ) == Some(index),
        ((spec_cell_left(index, window_width) + dx) - 20) / 270 == spec_column(
            index,
            window_width,
        ),
        ((spec_cell_top(index, window_width, scroll) + dy) - scroll - 20) / 270 == spec_row(
            index,
            window_width,
        ),
{
    let cols = spec_columns(window_width);
    let col = index % cols;
    let row = index / cols;
    vstd::arithmetic::div_mod::lemma_fundamental_div_mod(index, cols);
    vstd::arithmetic::div_mod::lemma_mod_bound(index, cols);
    lemma_floor_sign(index, cols);
    vstd::arithmetic::div_mod::lemma_fundamental_div_mod_converse(col * 270 + dx, 270, col, dx);
    vstd::arithmetic::div_mod::lemma_fundamental_div_mod_converse(row * 270 + dy, 270, row, dy);
    assert(cols * row == row * cols) by (nonlinear_arith);
}

/// A hit names the cell whose pitch box holds the point: the point is at or
/// past the cell's left and top edge and less than one pitch away from them.
pub proof fn hit_test_lands_in_cell(x: int, y: int, scroll: int, window_width: int)
    requires
        spec_hit_index(x, y, scroll, window_width) is Some,
    ensures
        ({
            let index = spec_hit_index(x, y, scroll, window_width)->0;
            &&& index >= 0
            &&& spec_cell_left(index, window_width) <= x < spec_cell_left(index, window_width)
                + 270
            &&& spec_cell_top(index, window_width, scroll) <= y < spec_cell_top(
                index,
                window_width,
                scroll,
            ) + 270
        }),
{
    let cols = spec_columns(window_width);
    let col = (x - 20) / 270;
    let row = (y - scroll - 20) / 270;
    let index = row * cols + col;
    vstd::arithmetic::div_mod::lemma_fundamental_div_mod(x - 20, 270);
    vstd::arithmetic::div_mod::lemma_mod_bound(x - 20, 270);
    vstd::arithmetic::div_mod::lemma_fundamental_div_mod(y - scroll - 20, 270);
    vstd::arithmetic::div_mod::lemma_mod_bound(y - scroll - 20, 270);
    assert(row * cols >= 0) by (nonlinear_arith)
        requires
            row >= 0,
            cols >= 1,
    ;
    assert(cols * row == row * cols) by (nonlinear_arith);
    vstd::arithmetic::div_mod::lemma_fundamental_div_mod_converse(index, cols, row, col);
}

/// Every cell that is drawn lies in the range that is hinted as visible, so
/// the thumbnails on screen are among those the worker puts first.
pub proof fn drawn_cells_are_hinted(
    index: int,
    scroll: int,
    window_width: int,
    window_height: int,
)
    requires
        index >= 0,
        scroll <= 0,
        window_height >= 0,
        spec_cell_visible(spec_cell_top(index, window_width, scroll), window_height),
    ensures
        spec_visible_start(scroll, window_width) <= index < spec_visible_end(
            scroll,
            window_width,
            window_height,
        ),
{
    let cols = spec_columns(window_width);
    let row = index / cols;
    let first = spec_first_visible_row(scroll);
    let end = spec_end_visible_row(scroll, window_height);
    vstd::arithmetic::div_mod::lemma_fundamental_div_mod(index, cols);
    vstd::arithmetic::div_mod::lemma_mod_bound(index, cols);
    lemma_floor_sign(index, cols);
    vstd::arithmetic::div_mod::lemma_fundamental_div_mod(-scroll - 20, 270);
    vstd::arithmetic::div_mod::lemma_mod_bound(-scroll - 20, 270);
    vstd::arithmetic::div_mod::lemma_fundamental_div_mod(-scroll + window_height + 289, 270);
    vstd::arithmetic::div_mod::lemma_mod_bound(-scroll + window_height + 289, 270);
    assert(first <= row);
    assert(row + 1 <= end);
    assert(first * cols <= row * cols) by (nonlinear_arith)
        requires
            first <= row,
            cols >= 1,
    ;
    assert((row + 1) * cols <= end * cols) by (nonlinear_arith)
        requires
            row + 1 <= end,
            cols >= 1,
    ;
    assert(cols * row == row * cols) by (nonlinear_arith);
    assert((row + 1) * cols == row * cols + cols) by (nonlinear_arith);
}

/// Whether the row of cell `index` lies wholly inside the window at the given
/// scroll offset.
pub open spec fn spec_row_in_view(
    scroll: int,
    index: int,
    window_width: int,
    window_height: int,
) -> bool {
    &&& 0 <= spec_cell_top(index, window_width, scroll)
    &&& spec_cell_top(index, window_width, scroll) + 250 <= window_height
}

/// Scrolling to an item leaves its row wholly inside the window, and the
/// offset within the allowed interval. This holds for every existing row when
/// the window is at least as high as a cell; in a lower window it holds for
/// the rows that were already inside.
pub proof fn scroll_to_item_reveals_row(
    scroll: int,
    index: int,
    count: int,
    window_width: int,
    window_height: int,
)
    requires
        index >= 0,
        count >= 0,
        window_height >= 0,
        scroll <= 0,
        spec_row(index, window_width) < spec_row_count(count, window_width),
        window_height >= 250 || spec_row_in_view(scroll, index, window_width, window_height),
    ensures
        spec_row_in_view(
            spec_scroll_to_item(scroll, index, count, window_width, window_height),
            index,
            window_width,
            window_height,
        ),
        -spec_max_scroll(count, window_width, window_height) <= spec_scroll_to_item(
            scroll,
            index,
            count,
            window_width,
            window_height,
        ) <= 0,
{
    let cols = spec_columns(window_width);
    let row = spec_row(index, window_width);
    let rows = spec_row_count(count, window_width);
    lemma_floor_sign(index, cols);
    assert(row * 270 + 270 <= rows * 270) by (nonlinear_arith)
        requires
            row < rows,
    ;
    assert(row * 270 >= 0) by (nonlinear_arith)
        requires
            row >= 0,
    ;
}

/// A quotient by a positive divisor is negative exactly when the dividend is.
proof fn lemma_floor_sign(a: int, d: int)
    requires
        d > 0,
    ensures
        (a / d >= 0) <==> (a >= 0),
        a >= 0 ==> a / d <= a,
{
    vstd::arithmetic::div_mod::lemma_fundamental_div_mod(a, d);
    vstd::arithmetic::div_mod::lemma_mod_bound(a, d);
    if a >= 0 {
        vstd::arithmetic::div_mod::lemma_div_pos_is_pos(a, d);
        vstd::arithmetic::div_mod::lemma_div_is_ordered_by_denominator(a, 1, d);
    } else {
        assert(d * (a / d) < 0);
        assert(a / d < 0) by (nonlinear_arith)
            requires
                d * (a / d) < 0,
                d > 0,
        ;
    }
}

/// Rounding a count up to whole rows never gives more rows than cells.
proof fn lemma_rows_bounded(count: int, cols: int)
    requires
        count >= 0,
        cols >= 1,
    ensures
        0 <= (count + cols - 1) / cols <= count,
{
    let q = (count + cols - 1) / cols;
    vstd::arithmetic::div_mod::lemma_fundamental_div_mod(count + cols - 1, cols);
    vstd::arithmetic::div_mod::lemma_mod_bound(count + cols - 1, cols);
    lemma_floor_sign(count + cols - 1, cols);
    if q > count {
        assert(cols * q >= cols * (count + 1)) by (nonlinear_arith)
            requires
                q >= count + 1,
                cols >= 1,
        ;
        assert(cols * (count + 1) >= count + cols) by (nonlinear_arith)
            requires
                count >= 0,
                cols >= 1,
        ;
    }
}

} // verus!
