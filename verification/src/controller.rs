//! The view controller: which view is shown, what is selected, and what each
//! input leads to.
//!
//! The controller owns the catalog and the presentation state. It never
//! reads a file or a directory itself. Where an input needs that, the
//! controller answers with a `Command`; the program carries it out and
//! reports back through `directory_scanned` or `image_decoded`. Whatever
//! else has to happen after a step (drawing a new frame, telling the
//! thumbnail worker what is on screen, asking it for thumbnails) is said in
//! the `Outcome` of the step.

use vstd::prelude::*;
use crate::image_loader::{
    sorted_listing_order, spec_catalog_of, spec_item_of, spec_item_path, spec_position,
    spec_views, FileItem, FileItemView, ImageLoader, ImageLoaderView, ScanEntry,
};
use crate::input_handler::InputAction;
use crate::layout::{columns, hit_test, spec_columns, spec_hit_index};
use crate::paths::{str_eq, PathRules};
use crate::text::{decimal, spec_decimal};
use crate::pixels::PixelBuffer;
use crate::renderer::{
    fit_zoom, DrawCall, GridItemView, Renderer, RendererView, ZOOM_ONE,
};
use crate::worker::{spec_request_views, LoaderRequest, LoaderRequestView};

verus! {

/// The two views of the browser.
#[derive(Clone, Copy, Debug, PartialEq, Eq, Structural)]
pub enum ViewMode {
    /// The grid of thumbnails.
    Grid,
    /// One image, zoomed and panned.
    Single,
}

/// Why an image is decoded, which decides what is done with it.
#[derive(Clone, Copy, Debug, PartialEq, Eq, Structural)]
pub enum LoadPurpose {
    /// An item of the grid was activated: show the image in the single view.
    Show,
    /// A file was opened by its path: select its item and show the image.
    ShowAndSelect,
    /// The user stepped to a neighbouring image with the arrow keys.
    Step,
    /// The user stepped to a neighbouring image with the media keys, which
    /// also leaves actual size.
    StepReset,
    /// Actual size was switched: show the same image with the other sampling.
    Refilter,
}

/// What the program has to do for the controller after a step.
#[derive(Debug, PartialEq, Eq)]
pub enum Command {
    /// Nothing.
    Nothing,
    /// Read the directory with this path and report with
    /// `directory_scanned`.
    ScanDirectory(String),
    /// Read the parent of the current directory, if it has one, and report
    /// with `directory_scanned`.
    ScanParent,
    /// Decode the image with this path and report with `image_decoded`,
    /// handing back the purpose.
    LoadImage(String, LoadPurpose),
}

/// A command as a mathematical value.
pub enum CommandView {
    Nothing,
    ScanDirectory(Seq<char>),
    ScanParent,
    LoadImage(Seq<char>, LoadPurpose),
}

impl View for Command {
    type V = CommandView;

    open spec fn view(&self) -> CommandView {
        match self {
            Command::Nothing => CommandView::Nothing,
            Command::ScanDirectory(path) => CommandView::ScanDirectory(path@),
            Command::ScanParent => CommandView::ScanParent,
            Command::LoadImage(path, purpose) => CommandView::LoadImage(path@, *purpose),
        }
    }
}

/// What follows from a step.
#[derive(Debug, PartialEq, Eq)]
pub struct Outcome {
    /// What the program has to do for the controller.
    pub command: Command,
    /// Whether a new frame has to be drawn.
    pub redraw: bool,
    /// The range of logical indices now on screen, to be passed to the
    /// thumbnail worker, if the step may have changed it.
    pub hint: Option<(u128, u128)>,
    /// Requests to be passed to the thumbnail worker, if the grid was
    /// loaded.
    pub requests: Option<Vec<LoaderRequest>>,
}

/// An outcome as a mathematical value.
pub struct OutcomeView {
    pub command: CommandView,
    pub redraw: bool,
    pub hint: Option<(u128, u128)>,
    pub requests: Option<Seq<LoaderRequestView>>,
}

impl View for Outcome {
    type V = OutcomeView;

    open spec fn view(&self) -> OutcomeView {
        OutcomeView {
            command: self.command@,
            redraw: self.redraw,
            hint: self.hint,
            requests: match self.requests {
                Some(requests) => Some(spec_request_views(requests@)),
                None => None,
            },
        }
    }
}

impl OutcomeView {
    /// Nothing follows.
    pub open spec fn idle() -> OutcomeView {
        OutcomeView { command: CommandView::Nothing, redraw: false, hint: None, requests: None }
    }

    /// A new frame has to be drawn, and nothing else.
    pub open spec fn repaint() -> OutcomeView {
        OutcomeView { command: CommandView::Nothing, redraw: true, hint: None, requests: None }
    }
}

/// The cells of a grid that shows the given items: one for each item, in
/// their order, each with a one-pixel stand-in for its thumbnail.
pub open spec fn spec_grid_cells(items: Seq<FileItemView>) -> Seq<GridItemView> {
    Seq::new(
        items.len(),
        |i: int|
            GridItemView {
                path: spec_item_path(items[i]),
                is_directory: items[i] is Directory,
                image_size: (1u32, 1u32),
            },
    )
}

/// The thumbnail requests for the given items: one for each item, with its
/// position as logical index.
pub open spec fn spec_requests(items: Seq<FileItemView>) -> Seq<LoaderRequestView> {
    Seq::new(
        items.len(),
        |i: int|
            LoaderRequestView {
                path: spec_item_path(items[i]),
                index: i as usize,
                is_directory: items[i] is Directory,
            },
    )
}

/// Position of the first item that is the image with path `target`, if
/// there is one.
pub open spec fn spec_image_item_position(items: Seq<FileItemView>, target: Seq<char>) -> Option<
    int,
>
    decreases items.len(),
{
    if items.len() == 0 {
        None
    } else {
        match spec_image_item_position(items.drop_last(), target) {
            Some(index) => Some(index),
            None => if items.last() == FileItemView::Image(target) {
                Some(items.len() - 1)
            } else {
                None
            },
        }
    }
}

/// The title of the window. While the grid is shown it names the directory;
/// while the single view is shown it gives the position of the current
/// image, counted from one, and the number of images.
pub open spec fn spec_window_title(state: ControllerView) -> Seq<char> {
    if state.mode == ViewMode::Grid {
        "FastView"@ + " - Browsing: "@ + state.loader.folder
    } else {
        "FastView"@ + " - ["@ + spec_decimal((state.loader.current + 1) as nat) + "/"@
            + spec_decimal(state.loader.images().len()) + "]"@
    }
}

/// The state of the controller as a mathematical value.
pub struct ControllerView {
    pub renderer: RendererView,
    pub loader: ImageLoaderView,
    pub mode: ViewMode,
    /// The zoom factor to go back to when actual size is left.
    pub saved_zoom: u64,
    /// Whether the single view shows the image at actual size.
    pub actual_size: bool,
    /// Logical index of the selected item of the grid.
    pub selected: int,
}

/// Whether a grid shows the given items: it has one cell for each item, and
/// each cell carries the path and the kind of its item.
pub open spec fn spec_grid_shows(cells: Seq<GridItemView>, items: Seq<FileItemView>) -> bool {
    &&& cells.len() == items.len()
    &&& forall|i: int|
        0 <= i < cells.len() ==> (#[trigger] cells[i]).path == spec_item_path(items[i])
            && cells[i].is_directory == (items[i] is Directory)
}

impl ControllerView {
    /// What holds of every state of the controller: the catalog and the
    /// presentation state are valid, the transform of the presentation state
    /// is that of the view that is shown, the grid shows the items of the
    /// catalog, and the selection points at an item or, in an empty catalog,
    /// is zero.
    pub open spec fn valid(self) -> bool {
        &&& self.renderer.valid()
        &&& self.loader.valid()
        &&& self.renderer.params.is_grid_item == (self.mode == ViewMode::Grid)
        &&& spec_grid_shows(self.renderer.cells, self.loader.items())
        &&& 0 <= self.selected
        &&& self.selected < self.loader.listing.len() || self.selected == 0
    }

    /// The hint for the thumbnail worker: the visible range while the grid
    /// is shown, nothing while the single view is.
    pub open spec fn hint(self) -> Option<(u128, u128)> {
        if self.mode == ViewMode::Grid {
            Some(self.renderer.visible_range())
        } else {
            None
        }
    }

    /// A step that changes nothing.
    pub open spec fn quiet(self) -> (ControllerView, OutcomeView) {
        (self, OutcomeView::idle())
    }

    /// The selection moves to `target`, and the grid scrolls to show it.
    pub open spec fn selecting(self, target: int) -> (ControllerView, OutcomeView) {
        let next = ControllerView {
            selected: target,
            renderer: self.renderer.scrolled_to(target),
            ..self
        };
        (
            next,
            OutcomeView {
                command: CommandView::Nothing,
                redraw: true,
                hint: next.hint(),
                requests: None,
            },
        )
    }

    /// The selection moves by `dx` items and `dy` rows, if that stays inside
    /// the catalog.
    pub open spec fn move_selection(self, dx: int, dy: int) -> (ControllerView, OutcomeView) {
        let total = self.loader.listing.len() as int;
        let target = self.selected + dx + dy * spec_columns(
            self.renderer.params.window_size.0 as int,
        );
        if 0 <= target < total {
            self.selecting(target)
        } else {
            self.quiet()
        }
    }

    /// Number of items on one page: as many whole rows as fit the window,
    /// and at least one.
    pub open spec fn page_size(self) -> int {
        let rows = if self.renderer.params.window_size.1 / 270 >= 1 {
            self.renderer.params.window_size.1 as int / 270
        } else {
            1
        };
        rows * spec_columns(self.renderer.params.window_size.0 as int)
    }

    /// The selection moves by one page forward (`dir` one) or back (`dir`
    /// minus one), stopping at the first and the last item.
    pub open spec fn move_selection_by_page(self, dir: int) -> (ControllerView, OutcomeView) {
        let total = self.loader.listing.len() as int;
        let raw = self.selected + dir * self.page_size();
        let target = if raw < 0 {
            0
        } else if raw > total - 1 {
            total - 1
        } else {
            raw
        };
        if total > 0 && target != self.selected {
            self.selecting(target)
        } else {
            self.quiet()
        }
    }

    /// The grid is loaded from the catalog: one cell and one thumbnail
    /// request for each item, nothing scrolled, the first item selected.
    pub open spec fn loaded_grid(self) -> (ControllerView, OutcomeView) {
        let next = ControllerView {
            selected: 0,
            renderer: RendererView {
                cells: spec_grid_cells(self.loader.items()),
                scroll: 0,
                ..self.renderer
            },
            ..self
        };
        (
            next,
            OutcomeView {
                command: CommandView::Nothing,
                redraw: true,
                hint: next.hint(),
                requests: Some(spec_requests(self.loader.items())),
            },
        )
    }

    /// A step to the next (`forward`) or the previous image of the
    /// navigation list, going round. The image has to be decoded. Without
    /// images nothing happens.
    pub open spec fn step(self, forward: bool, purpose: LoadPurpose) -> (
        ControllerView,
        OutcomeView,
    ) {
        let loader = if forward {
            self.loader.after_next()
        } else {
            self.loader.after_prev()
        };
        if self.loader.images().len() == 0 {
            self.quiet()
        } else {
            (
                ControllerView { loader: loader, ..self },
                OutcomeView {
                    command: CommandView::LoadImage(loader.images()[loader.current], purpose),
                    redraw: false,
                    hint: None,
                    requests: None,
                },
            )
        }
    }

    /// The item at `index`, which exists, is activated: a directory has to
    /// be scanned; an image becomes the current one and has to be decoded.
    pub open spec fn activate(self, index: int) -> (ControllerView, OutcomeView) {
        match self.loader.items()[index] {
            FileItemView::Directory(path) => (
                self,
                OutcomeView {
                    command: CommandView::ScanDirectory(path),
                    redraw: true,
                    hint: None,
                    requests: None,
                },
            ),
            FileItemView::Image(path) => (
                ControllerView { loader: self.loader.after_open(path), ..self },
                OutcomeView {
                    command: if spec_position(self.loader.images(), path) is Some {
                        CommandView::LoadImage(path, LoadPurpose::Show)
                    } else {
                        CommandView::Nothing
                    },
                    redraw: true,
                    hint: None,
                    requests: None,
                },
            ),
        }
    }

    /// A click at (`x`, `y`) in the grid: the item under the point, if
    /// there is one, is selected and activated.
    pub open spec fn click(self, x: int, y: int) -> (ControllerView, OutcomeView) {
        match spec_hit_index(
            x,
            y,
            self.renderer.scroll,
            self.renderer.params.window_size.0 as int,
        ) {
            Some(index) => if index < self.loader.listing.len() {
                (ControllerView { selected: index, ..self }).activate(index)
            } else {
                self.quiet()
            },
            None => self.quiet(),
        }
    }

    /// The selected item is activated, if the selection points at an item.
    pub open spec fn open_selected(self) -> (ControllerView, OutcomeView) {
        if 0 <= self.selected < self.loader.listing.len() {
            self.activate(self.selected)
        } else {
            self.quiet()
        }
    }

    /// Going back: from the single view to the grid, with zoom and sampling
    /// back at their defaults; from the grid to the parent directory.
    pub open spec fn back(self) -> (ControllerView, OutcomeView) {
        if self.mode == ViewMode::Single {
            (
                ControllerView {
                    actual_size: false,
                    mode: ViewMode::Grid,
                    renderer: self.renderer.with_filtering(false, None).with_zoom(
                        ZOOM_ONE,
                    ).with_view_mode(true),
                    ..self
                },
                OutcomeView::repaint(),
            )
        } else {
            (
                self,
                OutcomeView {
                    command: CommandView::ScanParent,
                    redraw: true,
                    hint: None,
                    requests: None,
                },
            )
        }
    }

    /// Actual size is switched on, remembering the zoom factor, or off,
    /// going back to it. The current image has to be decoded again to be
    /// shown with the other sampling.
    pub open spec fn toggle_actual_size(self) -> (ControllerView, OutcomeView) {
        let next = if !self.actual_size {
            ControllerView {
                saved_zoom: self.renderer.params.zoom,
                actual_size: true,
                renderer: self.renderer.with_zoom(ZOOM_ONE),
                ..self
            }
        } else {
            ControllerView {
                actual_size: false,
                renderer: self.renderer.with_zoom(self.saved_zoom),
                ..self
            }
        };
        (
            next,
            OutcomeView {
                command: match self.loader.current_path() {
                    Some(path) => CommandView::LoadImage(path, LoadPurpose::Refilter),
                    None => CommandView::Nothing,
                },
                redraw: true,
                hint: None,
                requests: None,
            },
        )
    }

    /// The wheel moved.
    pub open spec fn wheel(self, amount: int) -> (ControllerView, OutcomeView) {
        let next = ControllerView { renderer: self.renderer.zoomed(amount), ..self };
        (
            next,
            OutcomeView {
                command: CommandView::Nothing,
                redraw: true,
                hint: next.hint(),
                requests: None,
            },
        )
    }

    /// What an input leads to.
    pub open spec fn handle_action(self, action: InputAction) -> (ControllerView, OutcomeView) {
        match action {
            InputAction::Idle => self.quiet(),
            InputAction::NextImage => if self.mode == ViewMode::Single {
                self.step(true, LoadPurpose::StepReset)
            } else {
                self.move_selection(1, 0)
            },
            InputAction::PrevImage => if self.mode == ViewMode::Single {
                self.step(false, LoadPurpose::StepReset)
            } else {
                self.move_selection(-1, 0)
            },
            InputAction::Zoom(amount) => self.wheel(amount as int),
            InputAction::Pan(dx, dy) => (
                ControllerView { renderer: self.renderer.panned(dx as int, dy as int), ..self },
                OutcomeView::repaint(),
            ),
            InputAction::Click(x, y) => if self.mode == ViewMode::Grid {
                self.click(x as int, y as int)
            } else {
                self.quiet()
            },
            InputAction::Back => self.back(),
            InputAction::ActualSize => if self.mode == ViewMode::Single {
                self.toggle_actual_size()
            } else {
                self.quiet()
            },
            InputAction::SelectUp => if self.mode == ViewMode::Grid {
                self.move_selection(0, -1)
            } else {
                self.quiet()
            },
            InputAction::SelectDown => if self.mode == ViewMode::Grid {
                self.move_selection(0, 1)
            } else {
                self.quiet()
            },
            InputAction::SelectLeft => if self.mode == ViewMode::Grid {
                self.move_selection(-1, 0)
            } else {
                self.step(false, LoadPurpose::Step)
            },
            InputAction::SelectRight => if self.mode == ViewMode::Grid {
                self.move_selection(1, 0)
            } else {
                self.step(true, LoadPurpose::Step)
            },
            InputAction::OpenSelected => if self.mode == ViewMode::Grid {
                self.open_selected()
            } else {
                self.quiet()
            },
            InputAction::PageUp => if self.mode == ViewMode::Grid {
                self.move_selection_by_page(-1)
            } else {
                self.quiet()
            },
            InputAction::PageDown => if self.mode == ViewMode::Grid {
                self.move_selection_by_page(1)
            } else {
                self.quiet()
            },
        }
    }

    /// The index that opening a file by its path selects: that of the first
    /// item that is the current image, or zero.
    pub open spec fn selection_of_current(self) -> int {
        match self.loader.current_path() {
            Some(path) => match spec_image_item_position(self.loader.items(), path) {
                Some(index) => index,
                None => 0,
            },
            None => 0,
        }
    }

    /// What a decoded image leads to, or an image that could not be decoded
    /// (`size` is nothing), depending on why it was decoded.
    pub open spec fn image_decoded(self, purpose: LoadPurpose, size: Option<(u32, u32)>) -> (
        ControllerView,
        OutcomeView,
    ) {
        match size {
            None => (
                self,
                if purpose == LoadPurpose::Step || purpose == LoadPurpose::StepReset {
                    OutcomeView::idle()
                } else {
                    OutcomeView::repaint()
                },
            ),
            Some(size) => (
                match purpose {
                    LoadPurpose::Show => ControllerView {
                        mode: ViewMode::Single,
                        renderer: self.renderer.with_texture(size).fitted().with_view_mode(false),
                        ..self
                    },
                    LoadPurpose::ShowAndSelect => ControllerView {
                        selected: self.selection_of_current(),
                        mode: ViewMode::Single,
                        renderer: self.renderer.with_texture(size).fitted().with_view_mode(false),
                        ..self
                    },
                    LoadPurpose::Step => ControllerView {
                        renderer: self.renderer.with_texture(size).fitted(),
                        ..self
                    },
                    LoadPurpose::StepReset => ControllerView {
                        actual_size: false,
                        renderer: self.renderer.with_filtering(false, None).with_texture(
                            size,
                        ).fitted(),
                        ..self
                    },
                    LoadPurpose::Refilter => ControllerView {
                        renderer: self.renderer.with_filtering(self.actual_size, Some(size)),
                        ..self
                    },
                },
                OutcomeView::repaint(),
            ),
        }
    }
}

/// The view controller.
pub struct ViewController {
    renderer: Renderer,
    image_loader: ImageLoader,
    mode: ViewMode,
    saved_zoom: u64,
    is_actual_size: bool,
    selected_index: usize,
}

impl View for ViewController {
    type V = ControllerView;

    closed spec fn view(&self) -> ControllerView {
        ControllerView {
            renderer: self.renderer@,
            loader: self.image_loader@,
            mode: self.mode,
            saved_zoom: self.saved_zoom,
            actual_size: self.is_actual_size,
            selected: self.selected_index as int,
        }
    }
}

impl ViewController {
    /// Well-formedness: established by `new`, kept by every method.
    pub closed spec fn wf(&self) -> bool {
        &&& self.sound()
        &&& self@.valid()
    }

    /// Whether the catalog and the presentation state are well-formed each
    /// for itself, as they are also while the grid is being loaded.
    spec fn sound(&self) -> bool {
        &&& self.image_loader.wf()
        &&& self.renderer@.valid()
    }

    /// The state of a well-formed controller is valid.
    pub proof fn wf_is_valid(&self)
        requires
            self.wf(),
        ensures
            self@.valid(),
    {
    }

    /// The controller for a new window of the given size that shows the
    /// directory `folder`, in which `entries` were found: the grid, loaded
    /// from the catalog of the directory. The rules say how the extension of
    /// a path is found.
    pub fn new(
        width: u32,
        height: u32,
        folder: String,
        entries: Vec<ScanEntry>,
        rules: PathRules,
    ) -> (made: (Self, Outcome))
        ensures
            made.0.wf(),
            made.0@.loader.folder == folder@,
            made.0@.loader.rules == rules,
            spec_catalog_of(made.0@.loader.listing, spec_views(entries@), rules),
            made.0@.loader.current == 0,
            (made.0@, made.1@) == (ControllerView {
                renderer: RendererView::initial(width, height).with_view_mode(true),
                loader: made.0@.loader,
                mode: ViewMode::Grid,
                saved_zoom: ZOOM_ONE,
                actual_size: false,
                selected: 0,
            }).loaded_grid(),
    {
        let mut renderer = Renderer::new(width, height);
        renderer.set_view_mode(true);
        let mut controller = ViewController {
            renderer,
            image_loader: ImageLoader::new(folder, entries, rules),
            mode: ViewMode::Grid,
            saved_zoom: ZOOM_ONE,
            is_actual_size: false,
            selected_index: 0,
        };
        let outcome = controller.load_grid();
        (controller, outcome)
    }

    /// Which view is shown.
    pub fn mode(&self) -> (mode: ViewMode)
        ensures
            mode == self@.mode,
    {
        self.mode
    }

    /// Logical index of the selected item of the grid.
    pub fn selected_index(&self) -> (index: usize)
        ensures
            index == self@.selected,
    {
        self.selected_index
    }

    /// Whether the single view shows the image at actual size.
    pub fn is_actual_size(&self) -> (actual: bool)
        ensures
            actual == self@.actual_size,
    {
        self.is_actual_size
    }

    /// The presentation state.
    pub fn renderer(&self) -> (renderer: &Renderer)
        ensures
            renderer@ == self@.renderer,
            self.wf() ==> renderer@.valid(),
    {
        &self.renderer
    }

    /// The catalog.
    pub fn image_loader(&self) -> (loader: &ImageLoader)
        ensures
            loader@ == self@.loader,
            self.wf() ==> loader.wf(),
    {
        &self.image_loader
    }

    /// The hint for the thumbnail worker: the visible range while the grid
    /// is shown.
    fn update_viewport(&self) -> (hint: Option<(u128, u128)>)
        requires
            self.sound(),
        ensures
            hint == self@.hint(),
    {
        match self.mode {
            ViewMode::Grid => Some(self.renderer.visible_range()),
            ViewMode::Single => None,
        }
    }

    /// Loads the grid from the catalog.
    fn load_grid(&mut self) -> (outcome: Outcome)
        requires
            old(self).sound(),
        ensures
            final(self).sound(),
            old(self)@.renderer.params.is_grid_item == (old(self)@.mode == ViewMode::Grid)
                ==> final(self).wf(),
            (final(self)@, outcome@) == old(self)@.loaded_grid(),
    {
        self.selected_index = 0;
        self.renderer.clear_grid();
        let count: usize = self.image_loader.get_item_count();
        let ghost items = self@.loader.items();
        let mut requests: Vec<LoaderRequest> = Vec::new();
        let mut i: usize = 0;
        proof {
            assert(spec_grid_cells(items.take(0)) =~= Seq::<GridItemView>::empty());
            assert(spec_request_views(requests@) =~= spec_requests(items).take(0));
        }
        while i < count
            invariant
                i <= count,
                count == items.len(),
                items == self@.loader.items(),
                self.sound(),
                self.image_loader == old(self).image_loader,
                self.mode == old(self).mode,
                self.saved_zoom == old(self).saved_zoom,
                self.is_actual_size == old(self).is_actual_size,
                self.selected_index == 0,
                self.renderer@ == (RendererView {
                    cells: spec_grid_cells(items.take(i as int)),
                    scroll: 0,
                    ..old(self).renderer@
                }),
                spec_request_views(requests@) == spec_requests(items).take(i as int),
            decreases count - i,
        {
            match self.image_loader.get_item(i) {
                Some(item) => {
                    let ghost cells = self.renderer@.cells;
                    let ghost asked = requests@;
                    let is_directory: bool = item.is_directory();
                    self.renderer.add_grid_item(item.path().clone(), is_directory, None);
                    let request = LoaderRequest {
                        path: item.path().clone(),
                        index: i,
                        is_directory,
                    };
                    requests.push(request);
                    proof {
                        let cell = GridItemView {
                            path: spec_item_path(items[i as int]),
                            is_directory: items[i as int] is Directory,
                            image_size: (1u32, 1u32),
                        };
                        assert(spec_grid_cells(items.take(i + 1)) =~= cells.push(cell));
                        assert(spec_request_views(requests@) =~= spec_request_views(asked).push(
                            request@,
                        ));
                        assert(spec_requests(items).take(i + 1) =~= spec_requests(items).take(
                            i as int,
                        ).push(request@));
                    }
                },
                None => {},
            }
            i = i + 1;
        }
        proof {
            assert(items.take(count as int) =~= items);
            assert(spec_requests(items).take(count as int) =~= spec_requests(items));
        }
        let hint = self.update_viewport();
        Outcome { command: Command::Nothing, redraw: true, hint, requests: Some(requests) }
    }

    /// Takes the entries of a directory that was scanned for the controller:
    /// the catalog moves to the directory `path`, and the grid is loaded
    /// from it.
    pub fn directory_scanned(&mut self, path: String, entries: Vec<ScanEntry>) -> (outcome:
        Outcome)
        requires
            old(self).wf(),
        ensures
            final(self).wf(),
            final(self)@.loader.folder == path@,
            final(self)@.loader.rules == old(self)@.loader.rules,
            spec_catalog_of(
                final(self)@.loader.listing,
                spec_views(entries@),
                old(self)@.loader.rules,
            ),
            final(self)@.loader.current == 0,
            (final(self)@, outcome@) == (ControllerView {
                loader: final(self)@.loader,
                ..old(self)@
            }).loaded_grid(),
    {
        self.image_loader.set_path(path, entries);
        self.load_grid()
    }

    /// Opens the directory `path`, in which `entries` were found, at the
    /// request of the user or of another instance of the program: the
    /// catalog moves there, the grid is loaded from it and shown.
    pub fn open_directory(&mut self, path: String, entries: Vec<ScanEntry>) -> (outcome: Outcome)
        requires
            old(self).wf(),
        ensures
            final(self).wf(),
            final(self)@.loader.folder == path@,
            final(self)@.loader.rules == old(self)@.loader.rules,
            spec_catalog_of(
                final(self)@.loader.listing,
                spec_views(entries@),
                old(self)@.loader.rules,
            ),
            final(self)@.loader.current == 0,
            ({
                let loaded = (ControllerView {
                    loader: final(self)@.loader,
                    ..old(self)@
                }).loaded_grid();
                &&& outcome@ == loaded.1
                &&& final(self)@ == (ControllerView {
                    mode: ViewMode::Grid,
                    renderer: loaded.0.renderer.with_view_mode(true),
                    ..loaded.0
                })
            }),
    {
        self.image_loader.set_path(path, entries);
        let outcome = self.load_grid();
        self.mode = ViewMode::Grid;
        self.renderer.set_view_mode(true);
        outcome
    }

    /// Opens the image with path `file`, which is expected in the current
    /// directory: if the catalog has it, it becomes the current image and
    /// has to be decoded; if not, nothing changes.
    pub fn open_image(&mut self, file: &str) -> (outcome: Outcome)
        requires
            old(self).wf(),
        ensures
            final(self).wf(),
            final(self)@ == (ControllerView {
                loader: old(self)@.loader.after_open(file@),
                ..old(self)@
            }),
            outcome@ == (OutcomeView {
                command: if spec_position(old(self)@.loader.images(), file@) is Some {
                    CommandView::LoadImage(file@, LoadPurpose::ShowAndSelect)
                } else {
                    CommandView::Nothing
                },
                ..OutcomeView::repaint()
            }),
    {
        let command = match self.image_loader.open_image(file) {
            Some(_) => Command::LoadImage(file.to_owned(), LoadPurpose::ShowAndSelect),
            None => Command::Nothing,
        };
        Outcome { command, redraw: true, hint: None, requests: None }
    }

    /// Moves the selection to `target` and scrolls the grid to show it.
    fn select(&mut self, target: usize) -> (outcome: Outcome)
        requires
            old(self).wf(),
            target < old(self)@.loader.listing.len(),
        ensures
            final(self).wf(),
            (final(self)@, outcome@) == old(self)@.selecting(target as int),
    {
        self.selected_index = target;
        self.renderer.scroll_to_item(target);
        let hint = self.update_viewport();
        Outcome { command: Command::Nothing, redraw: true, hint, requests: None }
    }

    /// Moves the selection by `dx` items and `dy` rows, if that stays inside
    /// the catalog.
    fn move_selection(&mut self, dx: i32, dy: i32) -> (outcome: Outcome)
        requires
            old(self).wf(),
        ensures
            final(self).wf(),
            (final(self)@, outcome@) == old(self)@.move_selection(dx as int, dy as int),
    {
        let total: i128 = self.image_loader.get_item_count() as i128;
        let cols: i128 = columns(self.renderer.get_window_size().0) as i128;
        assert(-0x8000_0000 * 15907286 <= dy * cols <= 0x8000_0000 * 15907286)
            by (nonlinear_arith)
            requires
                -0x8000_0000 <= dy <= 0x8000_0000,
                1 <= cols <= 15907286,
        ;
        let target: i128 = self.selected_index as i128 + dx as i128 + dy as i128 * cols;
        if 0 <= target && target < total {
            self.select(target as usize)
        } else {
            Outcome { command: Command::Nothing, redraw: false, hint: None, requests: None }
        }
    }

    /// Moves the selection by one page forward (`dir` one) or back (`dir`
    /// minus one), stopping at the first and the last item.
    fn move_selection_by_page(&mut self, dir: i32) -> (outcome: Outcome)
        requires
            old(self).wf(),
        ensures
            final(self).wf(),
            (final(self)@, outcome@) == old(self)@.move_selection_by_page(dir as int),
    {
        let total: i128 = self.image_loader.get_item_count() as i128;
        let size: (u32, u32) = self.renderer.get_window_size();
        let cols: i128 = columns(size.0) as i128;
        let fit: u32 = size.1 / 270;
        let rows: i128 = if fit >= 1 {
            fit as i128
        } else {
            1
        };
        assert(1 <= rows * cols <= 15907286 * 15907286) by (nonlinear_arith)
            requires
                1 <= rows <= 15907286,
                1 <= cols <= 15907286,
        ;
        let page: i128 = rows * cols;
        assert(-0x8000_0000 * (15907286 * 15907286) <= dir * page <= 0x8000_0000 * (15907286
            * 15907286)) by (nonlinear_arith)
            requires
                -0x8000_0000 <= dir <= 0x8000_0000,
                1 <= page <= 15907286 * 15907286,
        ;
        let raw: i128 = self.selected_index as i128 + dir as i128 * page;
        let target: i128 = if raw < 0 {
            0
        } else if raw > total - 1 {
            total - 1
        } else {
            raw
        };
        if total > 0 && target != self.selected_index as i128 {
            self.select(target as usize)
        } else {
            Outcome { command: Command::Nothing, redraw: false, hint: None, requests: None }
        }
    }

    /// Steps to the next (`forward`) or the previous image.
    fn step(&mut self, forward: bool, purpose: LoadPurpose) -> (outcome: Outcome)
        requires
            old(self).wf(),
        ensures
            final(self).wf(),
            (final(self)@, outcome@) == old(self)@.step(forward, purpose),
    {
        let moved = if forward {
            self.image_loader.next_image()
        } else {
            self.image_loader.prev_image()
        };
        match moved {
            Some(_) => {
                match self.image_loader.get_current_path() {
                    Some(path) => Outcome {
                        command: Command::LoadImage(path.clone(), purpose),
                        redraw: false,
                        hint: None,
                        requests: None,
                    },
                    None => Outcome {
                        command: Command::Nothing,
                        redraw: false,
                        hint: None,
                        requests: None,
                    },
                }
            },
            None => Outcome { command: Command::Nothing, redraw: false, hint: None, requests: None },
        }
    }

    /// Activates the item at `index`, which exists.
    fn activate(&mut self, index: usize) -> (outcome: Outcome)
        requires
            old(self).wf(),
            index < old(self)@.loader.listing.len(),
        ensures
            final(self).wf(),
            (final(self)@, outcome@) == old(self)@.activate(index as int),
    {
        let (path, is_directory): (String, bool) = match self.image_loader.get_item(index) {
            Some(item) => (item.path().clone(), item.is_directory()),
            None => (String::new(), true),
        };
        if is_directory {
            Outcome {
                command: Command::ScanDirectory(path),
                redraw: true,
                hint: None,
                requests: None,
            }
        } else {
            let command = match self.image_loader.open_image(path.as_str()) {
                Some(_) => Command::LoadImage(path, LoadPurpose::Show),
                None => Command::Nothing,
            };
            Outcome { command, redraw: true, hint: None, requests: None }
        }
    }

    /// Switches actual size on or off.
    fn toggle_actual_size(&mut self) -> (outcome: Outcome)
        requires
            old(self).wf(),
        ensures
            final(self).wf(),
            (final(self)@, outcome@) == old(self)@.toggle_actual_size(),
    {
        if !self.is_actual_size {
            self.saved_zoom = self.renderer.get_zoom();
            self.is_actual_size = true;
            self.renderer.set_zoom(ZOOM_ONE);
        } else {
            self.is_actual_size = false;
            self.renderer.set_zoom(self.saved_zoom);
        }
        let command = match self.image_loader.get_current_path() {
            Some(path) => Command::LoadImage(path.clone(), LoadPurpose::Refilter),
            None => Command::Nothing,
        };
        Outcome { command, redraw: true, hint: None, requests: None }
    }

    /// Takes an input and says what follows from it.
    pub fn handle_action(&mut self, action: InputAction) -> (outcome: Outcome)
        requires
            old(self).wf(),
        ensures
            final(self).wf(),
            (final(self)@, outcome@) == old(self)@.handle_action(action),
    {
        let grid: bool = match self.mode {
            ViewMode::Grid => true,
            ViewMode::Single => false,
        };
        let idle = Outcome { command: Command::Nothing, redraw: false, hint: None, requests: None };
        match action {
            InputAction::Idle => idle,
            InputAction::NextImage => if grid {
                self.move_selection(1, 0)
            } else {
                self.step(true, LoadPurpose::StepReset)
            },
            InputAction::PrevImage => if grid {
                self.move_selection(-1, 0)
            } else {
                self.step(false, LoadPurpose::StepReset)
            },
            InputAction::Zoom(amount) => {
                self.renderer.zoom(amount);
                let hint = self.update_viewport();
                Outcome { command: Command::Nothing, redraw: true, hint, requests: None }
            },
            InputAction::Pan(dx, dy) => {
                self.renderer.pan(dx, dy);
                Outcome { command: Command::Nothing, redraw: true, hint: None, requests: None }
            },
            InputAction::Click(x, y) => if grid {
                let hit = hit_test(
                    x,
                    y,
                    self.renderer.get_grid_scroll(),
                    self.renderer.get_window_size().0,
                    self.image_loader.get_item_count(),
                );
                match hit {
                    Some(index) => {
                        self.selected_index = index;
                        self.activate(index)
                    },
                    None => idle,
                }
            } else {
                idle
            },
            InputAction::Back => if grid {
                Outcome { command: Command::ScanParent, redraw: true, hint: None, requests: None }
            } else {
                self.is_actual_size = false;
                self.renderer.set_filtering(false, None);
                self.renderer.set_zoom(ZOOM_ONE);
                self.mode = ViewMode::Grid;
                self.renderer.set_view_mode(true);
                Outcome { command: Command::Nothing, redraw: true, hint: None, requests: None }
            },
            InputAction::ActualSize => if grid {
                idle
            } else {
                self.toggle_actual_size()
            },
            InputAction::SelectUp => if grid {
                self.move_selection(0, -1)
            } else {
                idle
            },
            InputAction::SelectDown => if grid {
                self.move_selection(0, 1)
            } else {
                idle
            },
            InputAction::SelectLeft => if grid {
                self.move_selection(-1, 0)
            } else {
                self.step(false, LoadPurpose::Step)
            },
            InputAction::SelectRight => if grid {
                self.move_selection(1, 0)
            } else {
                self.step(true, LoadPurpose::Step)
            },
            InputAction::OpenSelected => if grid && self.selected_index
                < self.image_loader.get_item_count() {
                self.activate(self.selected_index)
            } else {
                idle
            },
            InputAction::PageUp => if grid {
                self.move_selection_by_page(-1)
            } else {
                idle
            },
            InputAction::PageDown => if grid {
                self.move_selection_by_page(1)
            } else {
                idle
            },
        }
    }

    /// Sets the zoom factor that fits the image of the single view to the
    /// window.
    fn set_zoom_to_fit(&mut self)
        requires
            old(self).wf(),
        ensures
            final(self).wf(),
            final(self)@ == (ControllerView {
                renderer: old(self)@.renderer.fitted(),
                ..old(self)@
            }),
    {
        let zoom: u64 = fit_zoom(self.renderer.get_image_size(), self.renderer.get_window_size());
        self.renderer.set_zoom(zoom);
    }

    /// The index that opening a file by its path selects.
    fn selection_of_current(&self) -> (index: usize)
        requires
            self.wf(),
        ensures
            index == self@.selection_of_current(),
    {
        let target: &String = match self.image_loader.get_current_path() {
            Some(path) => path,
            None => {
                return 0;
            },
        };
        let items = self.image_loader.get_items();
        let ghost views = self@.loader.items();
        let mut i: usize = 0;
        proof {
            assert(views.take(0) =~= Seq::<FileItemView>::empty());
        }
        while i < items.len()
            invariant
                i <= items@.len(),
                views == items@.map_values(|item: FileItem| item@),
                views == self@.loader.items(),
                self@.loader.current_path() == Some(target@),
                spec_image_item_position(views.take(i as int), target@) is None,
            decreases items@.len() - i,
        {
            proof {
                assert(views.take(i + 1).drop_last() =~= views.take(i as int));
                assert(views.take(i + 1).last() == items@[i as int]@);
            }
            let found: bool = match &items[i] {
                FileItem::Image(path) => str_eq(path.as_str(), target.as_str()),
                FileItem::Directory(_) => false,
            };
            if found {
                proof {
                    assert(views.take(i + 1).last() == FileItemView::Image(target@));
                    assert(spec_image_item_position(views.take(i + 1), target@) == Some(
                        i as int,
                    ));
                    lemma_item_position_extends(views, i + 1, target@);
                }
                return i;
            }
            proof {
                assert(views.take(i + 1).last() != FileItemView::Image(target@));
            }
            i = i + 1;
        }
        proof {
            assert(views.take(i as int) =~= views);
        }
        0
    }

    /// Takes an image that was decoded for the controller, or the news that
    /// it could not be decoded (`img` is nothing), with the purpose that the
    /// command gave.
    pub fn image_decoded(&mut self, purpose: LoadPurpose, img: Option<&PixelBuffer>) -> (outcome:
        Outcome)
        requires
            old(self).wf(),
        ensures
            final(self).wf(),
            (final(self)@, outcome@) == old(self)@.image_decoded(
                purpose,
                match img {
                    Some(image) => Some((image.width, image.height)),
                    None => None,
                },
            ),
    {
        let image: &PixelBuffer = match img {
            Some(image) => image,
            None => {
                let redraw: bool = match purpose {
                    LoadPurpose::Step => false,
                    LoadPurpose::StepReset => false,
                    _ => true,
                };
                return Outcome { command: Command::Nothing, redraw, hint: None, requests: None };
            },
        };
        match purpose {
            LoadPurpose::Show => {
                self.renderer.update_texture(image);
                self.set_zoom_to_fit();
                self.renderer.set_view_mode(false);
                self.mode = ViewMode::Single;
            },
            LoadPurpose::ShowAndSelect => {
                proof {
                    if self@.loader.current_path() is Some {
                        lemma_item_position_bound(
                            self@.loader.items(),
                            self@.loader.current_path()->0,
                        );
                    }
                }
                self.selected_index = self.selection_of_current();
                self.renderer.update_texture(image);
                self.set_zoom_to_fit();
                self.renderer.set_view_mode(false);
                self.mode = ViewMode::Single;
            },
            LoadPurpose::Step => {
                self.renderer.update_texture(image);
                self.set_zoom_to_fit();
            },
            LoadPurpose::StepReset => {
                self.is_actual_size = false;
                self.renderer.set_filtering(false, None);
                self.renderer.update_texture(image);
                self.set_zoom_to_fit();
            },
            LoadPurpose::Refilter => {
                self.renderer.set_filtering(self.is_actual_size, Some(image));
            },
        }
        Outcome { command: Command::Nothing, redraw: true, hint: None, requests: None }
    }

    /// Takes a thumbnail that the worker made for the item with logical
    /// index `index`. A thumbnail for an index past the end of the grid,
    /// as from a request that outlived its directory, is dropped.
    pub fn thumbnail_ready(&mut self, index: usize, img: &PixelBuffer) -> (outcome: Outcome)
        requires
            old(self).wf(),
        ensures
            final(self).wf(),
            final(self)@ == (ControllerView {
                renderer: old(self)@.renderer.with_thumbnail(
                    index as int,
                    (img.width, img.height),
                ),
                ..old(self)@
            }),
            outcome@ == OutcomeView::repaint(),
    {
        self.renderer.update_grid_item_texture(index, img);
        Outcome { command: Command::Nothing, redraw: true, hint: None, requests: None }
    }

    /// Takes a new size of the window.
    pub fn resized(&mut self, width: u32, height: u32) -> (outcome: Outcome)
        requires
            old(self).wf(),
        ensures
            final(self).wf(),
            final(self)@ == (ControllerView {
                renderer: old(self)@.renderer.resized(width, height),
                ..old(self)@
            }),
            outcome@ == (OutcomeView { hint: final(self)@.hint(), ..OutcomeView::repaint() }),
    {
        self.renderer.resize(width, height);
        let hint = self.update_viewport();
        Outcome { command: Command::Nothing, redraw: true, hint, requests: None }
    }

    /// What to draw for one frame: the grid with the selected cell
    /// highlighted, or the single view.
    pub fn render(&mut self) -> (calls: Vec<DrawCall>)
        requires
            old(self).wf(),
        ensures
            final(self).wf(),
            final(self)@ == (ControllerView {
                renderer: old(self)@.renderer.rendered(old(self)@.mode == ViewMode::Grid),
                ..old(self)@
            }),
            calls@ == old(self)@.renderer.draws(
                old(self)@.mode == ViewMode::Grid,
                if old(self)@.mode == ViewMode::Grid {
                    Some(old(self)@.selected as usize)
                } else {
                    None
                },
            ),
    {
        match self.mode {
            ViewMode::Grid => self.renderer.render(true, Some(self.selected_index)),
            ViewMode::Single => self.renderer.render(false, None),
        }
    }

    /// The title of the window: the directory that is browsed, or the
    /// position of the image that is shown among the images.
    pub fn window_title(&self) -> (title: String)
        requires
            self.wf(),
        ensures
            title@ == spec_window_title(self@),
    {
        match self.mode {
            ViewMode::Grid => "FastView".to_owned().concat(" - Browsing: ").concat(
                self.image_loader.get_path(),
            ),
            ViewMode::Single => {
                let count: usize = self.image_loader.get_image_count();
                let position: usize = self.image_loader.get_current_index() + 1;
                "FastView".to_owned().concat(" - [").concat(decimal(position).as_str()).concat(
                    "/",
                ).concat(decimal(count).as_str()).concat("]")
            },
        }
    }
}

/// The grid shows the catalog, however many items it has: there is one cell
/// for each entry of the listing, in the order of the listing, with the path
/// and the kind of the entry, so that the cells of directories stand before
/// those of images. A grid that has just been loaded is not scrolled, and
/// its first cell is selected.
pub proof fn grid_shows_catalog(state: ControllerView)
    requires
        state.valid(),
    ensures
        state.renderer.cells.len() == state.loader.listing.len(),
        forall|i: int|
            0 <= i < state.loader.listing.len() ==> (#[trigger] state.renderer.cells[i]).path
                == state.loader.listing[i].path && state.renderer.cells[i].is_directory
                == state.loader.listing[i].is_dir,
        forall|i: int, j: int|
            0 <= i < j < state.renderer.cells.len() && (#[trigger] state.renderer.cells[j]).is_directory
                ==> (#[trigger] state.renderer.cells[i]).is_directory,
        state.loaded_grid().0.renderer.cells.len() == state.loader.listing.len(),
        state.loaded_grid().0.renderer.scroll == 0,
        state.loaded_grid().0.selected == 0,
{
    let cells = state.renderer.cells;
    let listing = state.loader.listing;
    assert forall|i: int| 0 <= i < listing.len() implies (#[trigger] cells[i]).path
        == listing[i].path && cells[i].is_directory == listing[i].is_dir by {
        assert(state.loader.items()[i] == spec_item_of(listing[i]));
    }
    assert forall|i: int, j: int|
        0 <= i < j < cells.len() && (#[trigger] cells[j]).is_directory implies (#[trigger] cells[i]).is_directory by {
        sorted_listing_order(listing, i, j);
    }
}

/// An input changes the view in one case only: going back from the single
/// view shows the grid. The single view is entered only when an image that
/// was to be shown has been decoded.
pub proof fn view_changes(state: ControllerView, action: InputAction, purpose: LoadPurpose, size: Option<
    (u32, u32),
>)
    ensures
        state.handle_action(action).0.mode != state.mode ==> action == InputAction::Back
            && state.mode == ViewMode::Single,
        state.image_decoded(purpose, size).0.mode != state.mode ==> size is Some && (purpose
            == LoadPurpose::Show || purpose == LoadPurpose::ShowAndSelect) && state.mode
            == ViewMode::Grid,
{
}

/// Whatever the input, the catalog stays as it is but for its current image:
/// an input never changes the directory or its listing. Only a scan that the
/// program reports does.
pub proof fn input_keeps_catalog(state: ControllerView, action: InputAction)
    ensures
        spec_same_catalog(state, state.handle_action(action)),
{
    let grid = state.mode == ViewMode::Grid;
    match action {
        InputAction::Idle => {},
        InputAction::NextImage => {
            lemma_moves_keep_catalog(state, 1, 0, 0);
            lemma_steps_keep_catalog(state, LoadPurpose::StepReset);
        },
        InputAction::PrevImage => {
            lemma_moves_keep_catalog(state, -1, 0, 0);
            lemma_steps_keep_catalog(state, LoadPurpose::StepReset);
        },
        InputAction::Zoom(amount) => {
            assert(spec_same_catalog(state, state.wheel(amount as int)));
        },
        InputAction::Pan(dx, dy) => {},
        InputAction::Click(x, y) => {
            lemma_click_keeps_catalog(state, x as int, y as int);
        },
        InputAction::Back => {
            assert(spec_same_catalog(state, state.back()));
        },
        InputAction::ActualSize => {
            assert(spec_same_catalog(state, state.toggle_actual_size()));
        },
        InputAction::SelectUp => {
            lemma_moves_keep_catalog(state, 0, -1, 0);
        },
        InputAction::SelectDown => {
            lemma_moves_keep_catalog(state, 0, 1, 0);
        },
        InputAction::SelectLeft => {
            lemma_moves_keep_catalog(state, -1, 0, 0);
            lemma_steps_keep_catalog(state, LoadPurpose::Step);
        },
        InputAction::SelectRight => {
            lemma_moves_keep_catalog(state, 1, 0, 0);
            lemma_steps_keep_catalog(state, LoadPurpose::Step);
        },
        InputAction::OpenSelected => {
            if 0 <= state.selected < state.loader.listing.len() {
                lemma_activate_keeps_catalog(state, state.selected);
            }
        },
        InputAction::PageUp => {
            lemma_moves_keep_catalog(state, 0, 0, -1);
        },
        InputAction::PageDown => {
            lemma_moves_keep_catalog(state, 0, 0, 1);
        },
    }
}

/// Whether a step left the directory and its listing as they were and asks
/// for no thumbnails.
pub open spec fn spec_same_catalog(before: ControllerView, after: (ControllerView, OutcomeView)) -> bool {
    &&& after.0.loader.folder == before.loader.folder
    &&& after.0.loader.listing == before.loader.listing
    &&& after.1.requests is None
}

/// Moving the selection keeps the catalog.
proof fn lemma_moves_keep_catalog(state: ControllerView, dx: int, dy: int, dir: int)
    ensures
        spec_same_catalog(state, state.move_selection(dx, dy)),
        spec_same_catalog(state, state.move_selection_by_page(dir)),
{
}

/// Stepping through the images keeps the catalog.
proof fn lemma_steps_keep_catalog(state: ControllerView, purpose: LoadPurpose)
    ensures
        spec_same_catalog(state, state.step(true, purpose)),
        spec_same_catalog(state, state.step(false, purpose)),
{
}

/// Activating an item keeps the catalog.
proof fn lemma_activate_keeps_catalog(state: ControllerView, index: int)
    ensures
        spec_same_catalog(state, state.activate(index)),
{
}

/// A click keeps the catalog.
proof fn lemma_click_keeps_catalog(state: ControllerView, x: int, y: int)
    ensures
        spec_same_catalog(state, state.click(x, y)),
{
    let hit = spec_hit_index(
        x,
        y,
        state.renderer.scroll,
        state.renderer.params.window_size.0 as int,
    );
    if hit is Some && hit->0 < state.loader.listing.len() {
        lemma_activate_keeps_catalog(ControllerView { selected: hit->0, ..state }, hit->0);
    }
}

/// A position that is found lies inside the items.
proof fn lemma_item_position_bound(items: Seq<FileItemView>, target: Seq<char>)
    ensures
        spec_image_item_position(items, target) matches Some(index) ==> 0 <= index < items.len(),
    decreases items.len(),
{
    if items.len() > 0 {
        lemma_item_position_bound(items.drop_last(), target);
    }
}

/// A position found among the first items is the position among all.
proof fn lemma_item_position_extends(items: Seq<FileItemView>, upto: int, target: Seq<char>)
    requires
        0 <= upto <= items.len(),
        spec_image_item_position(items.take(upto), target) is Some,
    ensures
        spec_image_item_position(items, target) == spec_image_item_position(
            items.take(upto),
            target,
        ),
    decreases items.len() - upto,
{
    if upto < items.len() {
        assert(items.take(upto + 1).drop_last() =~= items.take(upto));
        lemma_item_position_extends(items, upto + 1, target);
    } else {
        assert(items.take(upto) =~= items);
    }
}

} // verus!
