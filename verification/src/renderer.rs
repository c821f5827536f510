//! Presentation state: what the renderer shows, apart from the GPU objects.
//!
//! `Renderer` holds the transform of the single-image view (image size,
//! window size, pan, zoom and sampling mode) and the grid of thumbnail cells
//! with its scroll offset. The program pairs every cell and the single view
//! with its textures and buffers and draws what `render` lists.
//!
//! Lengths are whole pixels. Zoom factors are counted in units of a
//! millionth of a millionth, so that `ZOOM_ONE` shows an image at its native
//! size and any image of the size of a window can be fitted to any window.

use vstd::prelude::*;
use crate::layout::{
    clamp_scroll, columns, spec_cell_left, spec_cell_top, spec_cell_visible, spec_clamp_scroll,
    spec_columns, spec_scroll_to_item, spec_visible_end, spec_visible_start,
};
use crate::pixels::PixelBuffer;

verus! {

/// Zoom factor of an image shown at native size.
pub const ZOOM_ONE: u64 = 1000000000000;

/// Smallest zoom factor that stepping can reach: a tenth.
pub const ZOOM_MIN: u64 = 100000000000;

/// Largest zoom factor that stepping can reach: fifty.
pub const ZOOM_MAX: u64 = 50000000000000;

/// Zoom value of a grid cell's transform: the cell size, in the units of zoom.
pub const CELL_ZOOM: u64 = 250000000000000;

/// The values handed to the shader for one draw call.
#[derive(Clone, Copy, Debug, PartialEq, Eq)]
pub struct Params {
    /// Natural size of the image drawn.
    pub image_size: (u32, u32),
    /// Size of the window.
    pub window_size: (u32, u32),
    /// Single view: offset of the image from the centre. Grid: position of
    /// the cell's top left corner in the window.
    pub pan: (i64, i64),
    /// Single view: zoom factor in the units of `ZOOM_ONE`. Grid:
    /// `CELL_ZOOM`.
    pub zoom: u64,
    /// Whether this draws a grid cell.
    pub is_grid_item: bool,
    /// Whether the cell is highlighted as the selection.
    pub is_selected: bool,
}

/// One cell of the grid.
#[derive(Debug, PartialEq, Eq)]
pub struct GridItem {
    pub path: String,
    pub is_directory: bool,
    /// Natural size of the thumbnail shown in the cell.
    pub image_size: (u32, u32),
}

/// A grid cell as a mathematical value.
pub struct GridItemView {
    pub path: Seq<char>,
    pub is_directory: bool,
    pub image_size: (u32, u32),
}

impl View for GridItem {
    type V = GridItemView;

    open spec fn view(&self) -> GridItemView {
        GridItemView {
            path: self.path@,
            is_directory: self.is_directory,
            image_size: self.image_size,
        }
    }
}

impl Clone for GridItem {
    fn clone(&self) -> (copy: Self)
        ensures
            copy@ == self@,
    {
        GridItem {
            path: self.path.clone(),
            is_directory: self.is_directory,
            image_size: self.image_size,
        }
    }
}

/// One draw call: which cell it draws (none for the single view) and with
/// which values.
#[derive(Clone, Copy, Debug, PartialEq, Eq)]
pub struct DrawCall {
    pub cell: Option<usize>,
    pub params: Params,
}

/// The presentation state as a mathematical value.
pub struct RendererView {
    pub params: Params,
    pub cells: Seq<GridItemView>,
    pub scroll: int,
    pub nearest: bool,
}

/// The presentation state.
pub struct Renderer {
    params: Params,
    grid_items: Vec<GridItem>,
    grid_scroll: i128,
    is_nearest: bool,
}

/// Zoom factor after one step in: a tenth more, at most `ZOOM_MAX`.
pub open spec fn spec_zoom_in(zoom: int) -> int {
    spec_clamp_zoom(zoom * 11 / 10)
}

/// Zoom factor after one step out: divided by one and a tenth, at least
/// `ZOOM_MIN`.
pub open spec fn spec_zoom_out(zoom: int) -> int {
    spec_clamp_zoom(zoom * 10 / 11)
}

/// A zoom factor limited to the interval from a tenth to fifty.
pub open spec fn spec_clamp_zoom(zoom: int) -> int {
    if zoom < 100000000000 {
        100000000000
    } else if zoom > 50000000000000 {
        50000000000000
    } else {
        zoom
    }
}

/// Whether the height of the window, not its width, limits how large an
/// image of the given size can be shown: the window is wider in proportion
/// than the image.
pub open spec fn spec_height_bound(image: (u32, u32), window: (u32, u32)) -> bool {
    window.0 * image.1 > image.0 * window.1
}

/// Zoom factor that fits an image to the window: the ratio of window to image
/// along the axis that limits it, rounded down to a unit of zoom, and never
/// more than native size. An image without pixels is shown at native size;
/// in a window without a size the factor is zero.
pub open spec fn spec_fit_zoom(image: (u32, u32), window: (u32, u32)) -> int {
    if image.0 == 0 || image.1 == 0 {
        1000000000000
    } else {
        let limit = if spec_height_bound(image, window) {
            window.1 as int
        } else {
            window.0 as int
        };
        let side = if spec_height_bound(image, window) {
            image.1 as int
        } else {
            image.0 as int
        };
        let ratio = limit * 1000000000000 / side;
        if ratio < 1000000000000 {
            ratio
        } else {
            1000000000000
        }
    }
}

/// `a + b`, kept within the range of `i64`.
pub open spec fn spec_saturating_add(a: int, b: int) -> int {
    if a + b > i64::MAX {
        i64::MAX as int
    } else if a + b < i64::MIN {
        i64::MIN as int
    } else {
        a + b
    }
}

/// The transform of grid cell `index`.
pub open spec fn spec_cell_params(
    cell: GridItemView,
    index: int,
    window_size: (u32, u32),
    scroll: int,
    selected: Option<usize>,
) -> Params {
    Params {
        image_size: cell.image_size,
        window_size: window_size,
        pan: (
            spec_cell_left(index, window_size.0 as int) as i64,
            spec_cell_top(index, window_size.0 as int, scroll) as i64,
        ),
        zoom: 250000000000000,
        is_grid_item: true,
        is_selected: selected == Some(index as usize),
    }
}

/// The draw calls for the first `upto` cells of a grid: one for each cell
/// that is not wholly outside the window, in index order.
pub open spec fn spec_grid_draws(
    cells: Seq<GridItemView>,
    upto: int,
    window_size: (u32, u32),
    scroll: int,
    selected: Option<usize>,
) -> Seq<DrawCall>
    decreases upto,
{
    if upto <= 0 {
        Seq::empty()
    } else {
        let before = spec_grid_draws(cells, upto - 1, window_size, scroll, selected);
        let index = upto - 1;
        if spec_cell_visible(
            spec_cell_top(index, window_size.0 as int, scroll),
            window_size.1 as int,
        ) {
            before.push(
                DrawCall {
                    cell: Some(index as usize),
                    params: spec_cell_params(cells[index], index, window_size, scroll, selected),
                },
            )
        } else {
            before
        }
    }
}

impl RendererView {
    /// What holds of every presentation state: the scroll offset is zero or
    /// negative, and no farther from zero than the grid would be high with
    /// one cell to the row.
    pub open spec fn valid(self) -> bool {
        -(270 * self.cells.len() + 20) <= self.scroll <= 0
    }

    /// The state of a new window.
    pub open spec fn initial(width: u32, height: u32) -> RendererView {
        RendererView {
            params: Params {
                image_size: (1u32, 1u32),
                window_size: (width, height),
                pan: (0i64, 0i64),
                zoom: ZOOM_ONE,
                is_grid_item: false,
                is_selected: false,
            },
            cells: Seq::empty(),
            scroll: 0,
            nearest: false,
        }
    }

    /// The state after the window took a new size. A size with a zero side
    /// is ignored.
    pub open spec fn resized(self, width: u32, height: u32) -> RendererView {
        if width == 0 || height == 0 {
            self
        } else {
            RendererView { params: Params { window_size: (width, height), ..self.params }, ..self }
        }
    }

    /// The state after an image of the given size was put into the single
    /// view: the view takes its size and centres it.
    pub open spec fn with_texture(self, size: (u32, u32)) -> RendererView {
        RendererView {
            params: Params { image_size: size, pan: (0i64, 0i64), ..self.params },
            ..self
        }
    }

    /// The state after the sampling mode was chosen and, if `size` is given,
    /// an image of that size was put into the single view.
    pub open spec fn with_filtering(self, nearest: bool, size: Option<(u32, u32)>) -> RendererView {
        let chosen = RendererView { nearest: nearest, ..self };
        match size {
            Some(size) => chosen.with_texture(size),
            None => chosen,
        }
    }

    /// The state after a cell was appended to the grid.
    pub open spec fn with_cell(self, cell: GridItemView) -> RendererView {
        RendererView { cells: self.cells.push(cell), ..self }
    }

    /// The state after the grid was emptied: no cells, scrolled to the top.
    pub open spec fn cleared(self) -> RendererView {
        RendererView { cells: Seq::empty(), scroll: 0, ..self }
    }

    /// The state after the grid was scrolled by `dy` pixels, as far as the
    /// content allows.
    pub open spec fn scrolled(self, dy: int) -> RendererView {
        RendererView {
            scroll: spec_clamp_scroll(
                self.scroll + dy,
                self.cells.len() as int,
                self.params.window_size.0 as int,
                self.params.window_size.1 as int,
            ),
            ..self
        }
    }

    /// The state after the wheel moved by `amount`: in the grid it scrolls
    /// by that many pixels; in the single view it zooms one step in if
    /// `amount` is positive and one step out if not.
    pub open spec fn zoomed(self, amount: int) -> RendererView {
        if self.params.is_grid_item {
            self.scrolled(amount)
        } else {
            RendererView {
                params: Params {
                    zoom: (if amount > 0 {
                        spec_zoom_in(self.params.zoom as int)
                    } else {
                        spec_zoom_out(self.params.zoom as int)
                    }) as u64,
                    ..self.params
                },
                ..self
            }
        }
    }

    /// The state after the image of the single view was dragged by
    /// (`dx`, `dy`). In the grid nothing moves.
    pub open spec fn panned(self, dx: int, dy: int) -> RendererView {
        if self.params.is_grid_item {
            self
        } else {
            RendererView {
                params: Params {
                    pan: (
                        spec_saturating_add(self.params.pan.0 as int, dx) as i64,
                        spec_saturating_add(self.params.pan.1 as int, dy) as i64,
                    ),
                    ..self.params
                },
                ..self
            }
        }
    }

    /// The state with the zoom factor of the single view set as given.
    pub open spec fn with_zoom(self, zoom: u64) -> RendererView {
        RendererView { params: Params { zoom: zoom, ..self.params }, ..self }
    }

    /// The state with the zoom factor that fits the image of the single view
    /// to the window.
    pub open spec fn fitted(self) -> RendererView {
        self.with_zoom(spec_fit_zoom(self.params.image_size, self.params.window_size) as u64)
    }

    /// The state after a thumbnail of the given size was put into cell
    /// `index`. An index past the end of the grid changes nothing.
    pub open spec fn with_thumbnail(self, index: int, size: (u32, u32)) -> RendererView {
        if 0 <= index < self.cells.len() {
            RendererView {
                cells: self.cells.update(
                    index,
                    GridItemView { image_size: size, ..self.cells[index] },
                ),
                ..self
            }
        } else {
            self
        }
    }

    /// The state switched to the grid (`true`) or the single view.
    pub open spec fn with_view_mode(self, is_grid: bool) -> RendererView {
        RendererView { params: Params { is_grid_item: is_grid, ..self.params }, ..self }
    }

    /// The state after the grid was scrolled to bring the row of cell
    /// `index` into the window.
    pub open spec fn scrolled_to(self, index: int) -> RendererView {
        RendererView {
            scroll: spec_scroll_to_item(
                self.scroll,
                index,
                self.cells.len() as int,
                self.params.window_size.0 as int,
                self.params.window_size.1 as int,
            ),
            ..self
        }
    }

    /// The state after a frame was drawn: drawing the single view switches
    /// the transform to the single view; drawing the grid changes nothing.
    pub open spec fn rendered(self, is_grid: bool) -> RendererView {
        if is_grid {
            self
        } else {
            RendererView {
                params: Params { is_grid_item: false, is_selected: false, ..self.params },
                ..self
            }
        }
    }

    /// The draw calls of one frame. For the single view this is one call
    /// with the single view's transform. For the grid it is one call for
    /// each cell that is not wholly outside the window, in index order, with
    /// the selected cell highlighted.
    pub open spec fn draws(self, is_grid: bool, selected: Option<usize>) -> Seq<DrawCall> {
        if is_grid {
            spec_grid_draws(
                self.cells,
                self.cells.len() as int,
                self.params.window_size,
                self.scroll,
                selected,
            )
        } else {
            seq![DrawCall { cell: None, params: self.rendered(false).params }]
        }
    }

    /// The range of logical indices that is hinted as visible.
    pub open spec fn visible_range(self) -> (u128, u128) {
        (
            spec_visible_start(self.scroll, self.params.window_size.0 as int) as u128,
            spec_visible_end(
                self.scroll,
                self.params.window_size.0 as int,
                self.params.window_size.1 as int,
            ) as u128,
        )
    }
}

impl View for Renderer {
    type V = RendererView;

    closed spec fn view(&self) -> RendererView {
        RendererView {
            params: self.params,
            cells: self.grid_items@.map_values(|cell: GridItem| cell@),
            scroll: self.grid_scroll as int,
            nearest: self.is_nearest,
        }
    }
}

impl Renderer {
    /// The state for a new window of the given size: single view of a
    /// one-pixel image at native size, empty grid, smooth sampling.
    pub fn new(width: u32, height: u32) -> (renderer: Self)
        ensures
            renderer@ == RendererView::initial(width, height),
            renderer@.valid(),
    {
        let renderer = Renderer {
            params: Params {
                image_size: (1, 1),
                window_size: (width, height),
                pan: (0, 0),
                zoom: ZOOM_ONE,
                is_grid_item: false,
                is_selected: false,
            },
            grid_items: Vec::new(),
            grid_scroll: 0,
            is_nearest: false,
        };
        assert(renderer@.cells =~= Seq::<GridItemView>::empty());
        renderer
    }

    /// Takes a new window size. A size with a zero side is ignored.
    pub fn resize(&mut self, width: u32, height: u32)
        requires
            old(self)@.valid(),
        ensures
            final(self)@.valid(),
            final(self)@ == old(self)@.resized(width, height),
    {
        if width == 0 || height == 0 {
            return ;
        }
        self.params.window_size = (width, height);
    }

    /// Shows `img` in the single view: takes its size and centres it.
    pub fn update_texture(&mut self, img: &PixelBuffer)
        requires
            old(self)@.valid(),
        ensures
            final(self)@.valid(),
            final(self)@ == old(self)@.with_texture((img.width, img.height)),
    {
        self.params.image_size = img.dimensions();
        self.params.pan = (0, 0);
    }

    /// Chooses nearest-neighbour (`true`) or smooth sampling for the single
    /// view, and shows `img` with it if one is given.
    pub fn set_filtering(&mut self, nearest: bool, img: Option<&PixelBuffer>)
        requires
            old(self)@.valid(),
        ensures
            final(self)@.valid(),
            final(self)@ == old(self)@.with_filtering(
                nearest,
                match img {
                    Some(image) => Some((image.width, image.height)),
                    None => None,
                },
            ),
    {
        self.is_nearest = nearest;
        if let Some(image) = img {
            self.update_texture(image);
        }
    }

    /// Appends a cell to the grid, with the size of `img` or of a one-pixel
    /// stand-in.
    pub fn add_grid_item(&mut self, path: String, is_directory: bool, img: Option<&PixelBuffer>)
        requires
            old(self)@.valid(),
        ensures
            final(self)@.valid(),
            final(self)@ == old(self)@.with_cell(
                GridItemView {
                    path: path@,
                    is_directory: is_directory,
                    image_size: match img {
                        Some(image) => (image.width, image.height),
                        None => (1u32, 1u32),
                    },
                },
            ),
    {
        let image_size: (u32, u32) = match img {
            Some(image) => image.dimensions(),
            None => (1, 1),
        };
        let ghost before = self.grid_items@;
        let cell = GridItem { path, is_directory, image_size };
        self.grid_items.push(cell);
        assert(self.grid_items@.map_values(|cell: GridItem| cell@) =~= before.map_values(
            |cell: GridItem| cell@,
        ).push(cell@));
    }

    /// Empties the grid and scrolls back to the top.
    pub fn clear_grid(&mut self)
        requires
            old(self)@.valid(),
        ensures
            final(self)@.valid(),
            final(self)@ == old(self)@.cleared(),
    {
        self.grid_items.clear();
        self.grid_scroll = 0;
        assert(self.grid_items@.map_values(|cell: GridItem| cell@) =~= Seq::<
            GridItemView,
        >::empty());
    }

    /// Scrolls the grid by `dy` pixels, as far as the content allows.
    pub fn scroll_grid(&mut self, dy: i32)
        requires
            old(self)@.valid(),
        ensures
            final(self)@.valid(),
            final(self)@ == old(self)@.scrolled(dy as int),
    {
        let count: usize = self.grid_items.len();
        let moved: i128 = self.grid_scroll + dy as i128;
        self.grid_scroll = clamp_scroll(
            moved,
            count,
            self.params.window_size.0,
            self.params.window_size.1,
        );
    }

    /// One wheel movement of `amount` hundredths of a notch. In the grid it
    /// scrolls by that many pixels. In the single view it zooms one step in
    /// if `amount` is positive and one step out if not.
    pub fn zoom(&mut self, amount: i32)
        requires
            old(self)@.valid(),
        ensures
            final(self)@.valid(),
            final(self)@ == old(self)@.zoomed(amount as int),
            !old(self)@.params.is_grid_item ==> ZOOM_MIN <= final(self)@.params.zoom <= ZOOM_MAX,
    {
        if self.params.is_grid_item {
            self.scroll_grid(amount);
            return ;
        }
        let current: u128 = self.params.zoom as u128;
        let stepped: u128 = if amount > 0 {
            current * 11 / 10
        } else {
            current * 10 / 11
        };
        self.params.zoom = if stepped < ZOOM_MIN as u128 {
            ZOOM_MIN
        } else if stepped > ZOOM_MAX as u128 {
            ZOOM_MAX
        } else {
            stepped as u64
        };
    }

    /// Moves the image of the single view by (`dx`, `dy`) pixels. The offset
    /// is not limited to the window; it stops only at the range of `i64`.
    /// In the grid nothing moves.
    pub fn pan(&mut self, dx: i32, dy: i32)
        requires
            old(self)@.valid(),
        ensures
            final(self)@.valid(),
            final(self)@ == old(self)@.panned(dx as int, dy as int),
    {
        if self.params.is_grid_item {
            return ;
        }
        let x: i64 = saturating_add(self.params.pan.0, dx as i64);
        let y: i64 = saturating_add(self.params.pan.1, dy as i64);
        self.params.pan = (x, y);
    }

    /// The zoom factor of the single view, in the units of `ZOOM_ONE`.
    pub fn get_zoom(&self) -> (zoom: u64)
        ensures
            zoom == self@.params.zoom,
    {
        self.params.zoom
    }

    /// Sets the zoom factor of the single view as given.
    pub fn set_zoom(&mut self, zoom: u64)
        requires
            old(self)@.valid(),
        ensures
            final(self)@.valid(),
            final(self)@ == old(self)@.with_zoom(zoom),
    {
        self.params.zoom = zoom;
    }

    /// Size of the image in the single view.
    pub fn get_image_size(&self) -> (size: (u32, u32))
        ensures
            size == self@.params.image_size,
    {
        self.params.image_size
    }

    /// Size of the window.
    pub fn get_window_size(&self) -> (size: (u32, u32))
        ensures
            size == self@.params.window_size,
    {
        self.params.window_size
    }

    /// Scroll offset of the grid.
    pub fn get_grid_scroll(&self) -> (scroll: i128)
        ensures
            scroll == self@.scroll,
    {
        self.grid_scroll
    }

    /// Whether the single view samples by nearest neighbour.
    pub fn get_is_nearest(&self) -> (nearest: bool)
        ensures
            nearest == self@.nearest,
    {
        self.is_nearest
    }

    /// Whether the transform is that of the grid.
    pub fn get_view_mode(&self) -> (is_grid: bool)
        ensures
            is_grid == self@.params.is_grid_item,
    {
        self.params.is_grid_item
    }

    /// Number of cells in the grid.
    pub fn get_grid_len(&self) -> (count: usize)
        ensures
            count == self@.cells.len(),
    {
        self.grid_items.len()
    }

    /// The cells of the grid.
    pub fn get_grid_items(&self) -> (cells: &Vec<GridItem>)
        ensures
            cells@.map_values(|cell: GridItem| cell@) == self@.cells,
    {
        &self.grid_items
    }

    /// Puts a finished thumbnail into cell `index`. An index past the end of
    /// the grid, as from a response that outlived its directory, changes
    /// nothing.
    pub fn update_grid_item_texture(&mut self, index: usize, img: &PixelBuffer)
        requires
            old(self)@.valid(),
        ensures
            final(self)@.valid(),
            final(self)@ == old(self)@.with_thumbnail(index as int, (img.width, img.height)),
    {
        if index < self.grid_items.len() {
            let ghost before = self.grid_items@;
            let cell = GridItem {
                path: self.grid_items[index].path.clone(),
                is_directory: self.grid_items[index].is_directory,
                image_size: img.dimensions(),
            };
            self.grid_items.set(index, cell);
            assert(self.grid_items@.map_values(|cell: GridItem| cell@) =~= before.map_values(
                |cell: GridItem| cell@,
            ).update(index as int, cell@));
        }
    }

    /// Switches between the grid (`true`) and the single view.
    pub fn set_view_mode(&mut self, is_grid: bool)
        requires
            old(self)@.valid(),
        ensures
            final(self)@.valid(),
            final(self)@ == old(self)@.with_view_mode(is_grid),
    {
        self.params.is_grid_item = is_grid;
    }

    /// The range of logical indices whose cells reach into the window: from
    /// the first of the pair up to, and without, the second. It is computed
    /// from whole rows and may run past the end of the grid.
    pub fn visible_range(&self) -> (range: (u128, u128))
        requires
            self@.valid(),
        ensures
            range == self@.visible_range(),
            range.0 == spec_visible_start(self@.scroll, self@.params.window_size.0 as int),
            range.1 == spec_visible_end(
                self@.scroll,
                self@.params.window_size.0 as int,
                self@.params.window_size.1 as int,
            ),
            range.0 <= range.1,
    {
        let cols: u128 = columns(self.params.window_size.0) as u128;
        let count: usize = self.grid_items.len();
        assert(-(270 * count + 20) <= self.grid_scroll);
        let above: i128 = -self.grid_scroll - 20;
        let first_row: u128 = if above >= 0 {
            (above as u128) / 270
        } else {
            0
        };
        let below: u128 = (-self.grid_scroll) as u128 + self.params.window_size.1 as u128 + 289;
        let end_row: u128 = below / 270;
        proof {
            vstd::arithmetic::div_mod::lemma_fundamental_div_mod(above as int, 270);
            vstd::arithmetic::div_mod::lemma_mod_bound(above as int, 270);
            vstd::arithmetic::div_mod::lemma_fundamental_div_mod(below as int, 270);
            vstd::arithmetic::div_mod::lemma_mod_bound(below as int, 270);
            assert(first_row <= end_row);
            assert(0 <= first_row * cols <= end_row * cols <= 0x2_0000_0000_0000_0000 * 15907286)
                by (nonlinear_arith)
                requires
                    first_row <= end_row,
                    end_row <= 0x2_0000_0000_0000_0000,
                    1 <= cols <= 15907286,
            ;
        }
        (first_row * cols, end_row * cols)
    }

    /// What to draw for one frame, in order. For the single view (`is_grid`
    /// false) this is one call with the single view's transform, which is
    /// switched to the single view first. For the grid it is one call for
    /// each cell that is not wholly outside the window, with the cell at
    /// `selected_index` highlighted.
    pub fn render(&mut self, is_grid: bool, selected_index: Option<usize>) -> (calls: Vec<
        DrawCall,
    >)
        requires
            old(self)@.valid(),
        ensures
            final(self)@.valid(),
            final(self)@ == old(self)@.rendered(is_grid),
            calls@ == old(self)@.draws(is_grid, selected_index),
    {
        let mut calls: Vec<DrawCall> = Vec::new();
        if !is_grid {
            self.params.is_grid_item = false;
            self.params.is_selected = false;
            calls.push(DrawCall { cell: None, params: self.params });
            assert(calls@ =~= seq![DrawCall { cell: None, params: self.params }]);
            return calls;
        }
        let cols: usize = columns(self.params.window_size.0) as usize;
        let window_size: (u32, u32) = self.params.window_size;
        let scroll: i128 = self.grid_scroll;
        let count: usize = self.grid_items.len();
        let mut index: usize = 0;
        while index < count
            invariant
                index <= count,
                count == self.grid_items@.len(),
                cols == spec_columns(window_size.0 as int),
                window_size == self@.params.window_size,
                scroll == self@.scroll,
                -(270 * count + 20) <= scroll <= 0,
                self@ == old(self)@,
                calls@ == spec_grid_draws(
                    self@.cells,
                    index as int,
                    window_size,
                    scroll as int,
                    selected_index,
                ),
            decreases count - index,
        {
            let col: i64 = (index % cols) as i64;
            let row: i128 = (index / cols) as i128;
            proof {
                vstd::arithmetic::div_mod::lemma_fundamental_div_mod(index as int, cols as int);
                vstd::arithmetic::div_mod::lemma_mod_bound(index as int, cols as int);
                assert(0 <= row <= index) by {
                    vstd::arithmetic::div_mod::lemma_div_pos_is_pos(index as int, cols as int);
                    vstd::arithmetic::div_mod::lemma_div_is_ordered_by_denominator(
                        index as int,
                        1,
                        cols as int,
                    );
                }
            }
            let x: i64 = 20 + col * 270;
            let y: i128 = 20 + row * 270 + scroll;
            if !(y + 250 < 0 || y > window_size.1 as i128) {
                let selected: bool = match selected_index {
                    Some(chosen) => chosen == index,
                    None => false,
                };
                calls.push(
                    DrawCall {
                        cell: Some(index),
                        params: Params {
                            image_size: self.grid_items[index].image_size,
                            window_size,
                            pan: (x, y as i64),
                            zoom: CELL_ZOOM,
                            is_grid_item: true,
                            is_selected: selected,
                        },
                    },
                );
            }
            index = index + 1;
        }
        calls
    }

    /// Scrolls the grid so that the row of cell `index` is inside the window.
    pub fn scroll_to_item(&mut self, index: usize)
        requires
            old(self)@.valid(),
        ensures
            final(self)@.valid(),
            final(self)@ == old(self)@.scrolled_to(index as int),
    {
        let count: usize = self.grid_items.len();
        self.grid_scroll = crate::layout::scroll_to_item(
            self.grid_scroll,
            index,
            count,
            self.params.window_size.0,
            self.params.window_size.1,
        );
    }
}

/// `a + b`, kept within the range of `i64`.
fn saturating_add(a: i64, b: i64) -> (sum: i64)
    ensures
        sum == spec_saturating_add(a as int, b as int),
{
    let wide: i128 = a as i128 + b as i128;
    if wide > i64::MAX as i128 {
        i64::MAX
    } else if wide < i64::MIN as i128 {
        i64::MIN
    } else {
        wide as i64
    }
}

/// Zoom factor that fits an image of size `image` into a window of size
/// `window` without enlarging it.
pub fn fit_zoom(image: (u32, u32), window: (u32, u32)) -> (zoom: u64)
    ensures
        zoom == spec_fit_zoom(image, window),
        zoom <= ZOOM_ONE,
        window.0 > 0 && window.1 > 0 ==> 1 <= zoom,
{
    if image.0 == 0 || image.1 == 0 {
        return ZOOM_ONE;
    }
    proof {
        lemma_product_fits(window.0, image.1);
        lemma_product_fits(image.0, window.1);
    }
    let height_bound: bool = window.0 as u64 * image.1 as u64 > image.0 as u64 * window.1 as u64;
    let limit: u128 = if height_bound {
        window.1 as u128
    } else {
        window.0 as u128
    };
    let side: u128 = if height_bound {
        image.1 as u128
    } else {
        image.0 as u128
    };
    let ratio: u128 = limit * 1000000000000 / side;
    proof {
        if limit >= 1 {
            vstd::arithmetic::div_mod::lemma_div_is_ordered(
                0xFFFF_FFFF,
                limit * 1000000000000,
                side as int,
            );
            vstd::arithmetic::div_mod::lemma_div_is_ordered_by_denominator(
                0xFFFF_FFFF,
                side as int,
                0xFFFF_FFFF,
            );
        }
    }
    if ratio < 1000000000000 {
        ratio as u64
    } else {
        ZOOM_ONE
    }
}

/// Fitting an image to the window shows it as large as the window allows
/// and no larger than it is. An image that fits the window is shown at
/// native size. One that does not is shown so that, along the axis that
/// limits it, it reaches the edge of the window to within the resolution of
/// the zoom factor (one unit more would pass the edge), and along the other
/// axis it stays inside the window.
pub proof fn fit_zoom_fills_window(image: (u32, u32), window: (u32, u32))
    requires
        image.0 > 0,
        image.1 > 0,
    ensures
        spec_fit_zoom(image, window) <= 1000000000000,
        image.0 <= window.0 && image.1 <= window.1 ==> spec_fit_zoom(image, window)
            == 1000000000000,
        (image.0 > window.0 || image.1 > window.1) && spec_height_bound(image, window) ==> {
            let zoom = spec_fit_zoom(image, window);
            &&& image.1 * zoom <= window.1 * 1000000000000 < image.1 * (zoom + 1)
            &&& image.0 * zoom <= window.0 * 1000000000000
        },
        (image.0 > window.0 || image.1 > window.1) && !spec_height_bound(image, window) ==> {
            let zoom = spec_fit_zoom(image, window);
            &&& image.0 * zoom <= window.0 * 1000000000000 < image.0 * (zoom + 1)
            &&& image.1 * zoom <= window.1 * 1000000000000
        },
{
    if spec_height_bound(image, window) {
        lemma_fit_along(
            image.1 as int,
            window.1 as int,
            image.0 as int,
            window.0 as int,
            spec_fit_zoom(image, window),
        );
    } else {
        lemma_fit_along(
            image.0 as int,
            window.0 as int,
            image.1 as int,
            window.1 as int,
            spec_fit_zoom(image, window),
        );
    }
}

/// The fit factor along the limiting axis, on which the image has `side`
/// pixels and the window `limit`; `other` and `room` are the same for the
/// other axis, along which the window leaves at least as much room in
/// proportion.
proof fn lemma_fit_along(side: int, limit: int, other: int, room: int, zoom: int)
    requires
        side > 0,
        other > 0,
        limit >= 0,
        room >= 0,
        room * side >= other * limit,
        zoom == if limit * 1000000000000 / side < 1000000000000 {
            limit * 1000000000000 / side
        } else {
            1000000000000
        },
    ensures
        zoom <= 1000000000000,
        side <= limit && other <= room ==> zoom == 1000000000000,
        side > limit || other > room ==> side * zoom <= limit * 1000000000000 < side * (zoom + 1)
            && other * zoom <= room * 1000000000000,
{
    let unit: int = 1000000000000;
    let ratio = limit * unit / side;
    vstd::arithmetic::div_mod::lemma_fundamental_div_mod(limit * unit, side);
    vstd::arithmetic::div_mod::lemma_mod_bound(limit * unit, side);
    assert(side * (ratio + 1) == side * ratio + side) by (nonlinear_arith);
    assert(side * ratio <= limit * unit < side * (ratio + 1));
    if side <= limit {
        // The image is no longer than the window along the limiting axis,
        // and so along the other.
        assert(side * unit <= limit * unit) by (nonlinear_arith)
            requires
                side <= limit,
                unit >= 0,
        ;
        assert(ratio >= unit) by (nonlinear_arith)
            requires
                side * unit <= limit * unit < side * (ratio + 1),
                side > 0,
        ;
        assert(other <= room) by (nonlinear_arith)
            requires
                room * side >= other * limit,
                side <= limit,
                side > 0,
                other > 0,
                room >= 0,
        ;
    } else {
        assert(limit * unit < side * unit) by (nonlinear_arith)
            requires
                limit < side,
                unit > 0,
        ;
        assert(ratio < unit) by (nonlinear_arith)
            requires
                side * ratio <= limit * unit < side * unit,
                side > 0,
        ;
        assert(zoom == ratio);
        assert(other * zoom <= room * unit) by (nonlinear_arith)
            requires
                side * zoom <= limit * unit,
                room * side >= other * limit,
                side > 0,
                other > 0,
                zoom >= 0,
                unit > 0,
                limit >= 0,
                room >= 0,
        ;
    }
}

/// The product of two 32-bit numbers fits in 64 bits.
proof fn lemma_product_fits(a: u32, b: u32)
    ensures
        0 <= a * b <= 0xFFFF_FFFE_0000_0001,
{
    assert(0 <= a * b <= 0xFFFF_FFFF * 0xFFFF_FFFF) by (nonlinear_arith)
        requires
            0 <= a <= 0xFFFF_FFFF,
            0 <= b <= 0xFFFF_FFFF,
    ;
}

} // verus!
