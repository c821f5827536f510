use fastview::pixels::PixelBuffer;
use fastview::renderer::{
    fit_zoom, DrawCall, Params, Renderer, CELL_ZOOM, ZOOM_MAX, ZOOM_MIN, ZOOM_ONE,
};

fn image(width: u32, height: u32) -> PixelBuffer {
    PixelBuffer { width, height, data: vec![0; (4 * width * height) as usize] }
}

fn grid(cells: usize, width: u32, height: u32) -> Renderer {
    let mut renderer = Renderer::new(width, height);
    renderer.set_view_mode(true);
    for index in 0..cells {
        renderer.add_grid_item(format!("/p/{}.png", index), false, None);
    }
    renderer
}

#[test]
fn new_renderer_shows_single_view_at_native_size() {
    let mut renderer = Renderer::new(1280, 720);
    assert_eq!(renderer.get_zoom(), ZOOM_ONE);
    assert_eq!(renderer.get_window_size(), (1280, 720));
    assert_eq!(renderer.get_image_size(), (1, 1));
    assert_eq!(renderer.get_grid_scroll(), 0);
    assert_eq!(renderer.get_grid_len(), 0);
    assert!(!renderer.get_is_nearest());
    assert!(!renderer.get_view_mode());
    let calls = renderer.render(false, None);
    assert_eq!(
        calls,
        vec![DrawCall {
            cell: None,
            params: Params {
                image_size: (1, 1),
                window_size: (1280, 720),
                pan: (0, 0),
                zoom: ZOOM_ONE,
                is_grid_item: false,
                is_selected: false,
            },
        }]
    );
}

#[test]
fn zoom_steps_by_a_tenth() {
    let mut renderer = Renderer::new(1280, 720);
    renderer.zoom(100);
    assert_eq!(renderer.get_zoom(), 1_100_000_000_000);
    renderer.zoom(1);
    assert_eq!(renderer.get_zoom(), 1_210_000_000_000);
    renderer.set_zoom(ZOOM_ONE);
    renderer.zoom(-100);
    assert_eq!(renderer.get_zoom(), 909_090_909_090);
    renderer.set_zoom(ZOOM_ONE);
    renderer.zoom(0);
    assert_eq!(renderer.get_zoom(), 909_090_909_090);
}

#[test]
fn zoom_is_clamped_between_a_tenth_and_fifty() {
    let mut renderer = Renderer::new(1280, 720);
    renderer.set_zoom(49_000_000_000_000);
    renderer.zoom(1);
    assert_eq!(renderer.get_zoom(), ZOOM_MAX);
    renderer.zoom(1);
    assert_eq!(renderer.get_zoom(), 50_000_000_000_000);
    renderer.set_zoom(ZOOM_MIN);
    renderer.zoom(-1);
    assert_eq!(renderer.get_zoom(), 100_000_000_000);
    renderer.set_zoom(u64::MAX);
    renderer.zoom(1);
    assert_eq!(renderer.get_zoom(), ZOOM_MAX);
    renderer.set_zoom(0);
    renderer.zoom(1);
    assert_eq!(renderer.get_zoom(), ZOOM_MIN);
}

#[test]
fn set_zoom_is_not_clamped() {
    let mut renderer = Renderer::new(1280, 720);
    renderer.set_zoom(5);
    assert_eq!(renderer.get_zoom(), 5);
}

#[test]
fn wheel_scrolls_the_grid() {
    let mut renderer = grid(10, 1280, 720);
    renderer.zoom(-100);
    assert_eq!(renderer.get_grid_scroll(), -100);
    assert_eq!(renderer.get_zoom(), ZOOM_ONE);
    renderer.zoom(-100);
    assert_eq!(renderer.get_grid_scroll(), -110);
    renderer.zoom(500);
    assert_eq!(renderer.get_grid_scroll(), 0);
}

#[test]
fn scroll_grid_is_clamped() {
    let mut renderer = grid(40, 1280, 720);
    renderer.scroll_grid(-1500);
    assert_eq!(renderer.get_grid_scroll(), -1500);
    renderer.scroll_grid(-1500);
    assert_eq!(renderer.get_grid_scroll(), -2000);
    renderer.scroll_grid(i32::MIN);
    assert_eq!(renderer.get_grid_scroll(), -2000);
    renderer.scroll_grid(i32::MAX);
    assert_eq!(renderer.get_grid_scroll(), 0);
    let mut fits = grid(4, 1280, 720);
    fits.scroll_grid(-10);
    assert_eq!(fits.get_grid_scroll(), 0);
}

#[test]
fn pan_accumulates_in_single_view_only() {
    let mut renderer = Renderer::new(1280, 720);
    renderer.pan(5, -3);
    renderer.pan(10, 10);
    let calls = renderer.render(false, None);
    assert_eq!(calls[0].params.pan, (15, 7));
    renderer.pan(-100000, 0);
    let calls = renderer.render(false, None);
    assert_eq!(calls[0].params.pan, (-99985, 7));
    renderer.set_view_mode(true);
    renderer.pan(1, 1);
    let calls = renderer.render(false, None);
    assert_eq!(calls[0].params.pan, (-99985, 7));
}

#[test]
fn update_texture_takes_size_and_centres() {
    let mut renderer = Renderer::new(1280, 720);
    renderer.pan(5, 5);
    renderer.update_texture(&image(30, 20));
    assert_eq!(renderer.get_image_size(), (30, 20));
    let calls = renderer.render(false, None);
    assert_eq!(calls[0].params.pan, (0, 0));
}

#[test]
fn set_filtering_switches_sampling() {
    let mut renderer = Renderer::new(1280, 720);
    renderer.set_filtering(true, None);
    assert!(renderer.get_is_nearest());
    assert_eq!(renderer.get_image_size(), (1, 1));
    renderer.set_filtering(false, Some(&image(8, 9)));
    assert!(!renderer.get_is_nearest());
    assert_eq!(renderer.get_image_size(), (8, 9));
}

#[test]
fn resize_ignores_empty_sizes() {
    let mut renderer = Renderer::new(1280, 720);
    renderer.resize(0, 500);
    assert_eq!(renderer.get_window_size(), (1280, 720));
    renderer.resize(500, 0);
    assert_eq!(renderer.get_window_size(), (1280, 720));
    renderer.resize(800, 600);
    assert_eq!(renderer.get_window_size(), (800, 600));
}

#[test]
fn fit_zoom_follows_the_limiting_axis() {
    assert_eq!(fit_zoom((2000, 1000), (1000, 800)), 500_000_000_000);
    assert_eq!(fit_zoom((1000, 2000), (1000, 800)), 400_000_000_000);
    assert_eq!(fit_zoom((3000, 1000), (1000, 1000)), 333_333_333_333);
    assert_eq!(fit_zoom((1280, 720), (1280, 720)), ZOOM_ONE);
}

#[test]
fn fit_zoom_never_enlarges() {
    assert_eq!(fit_zoom((100, 100), (800, 600)), ZOOM_ONE);
    assert_eq!(fit_zoom((1, 1), (u32::MAX, u32::MAX)), ZOOM_ONE);
    for image in [(1u32, 1u32), (640, 480), (5000, 10), (10, 5000), (u32::MAX, 1)] {
        for window in [(0u32, 0u32), (1, 1), (800, 600), (600, 800), (u32::MAX, u32::MAX)] {
            assert!(fit_zoom(image, window) <= ZOOM_ONE);
        }
    }
}

#[test]
fn fit_zoom_is_positive_in_a_window_with_pixels() {
    assert_eq!(fit_zoom((4_000_000, 1), (1, 1)), 250_000);
    assert_eq!(fit_zoom((1, 4_000_000), (1, 1)), 250_000);
    assert_eq!(fit_zoom((u32::MAX, u32::MAX), (1, 1)), 232);
    assert_eq!(fit_zoom((u32::MAX, 1), (1, u32::MAX)), 232);
    assert_eq!(fit_zoom((1_000_000, 1_000_000), (1, 1)), 1_000_000);
    assert_eq!(fit_zoom((500_000, 500_000), (1, 1)), 2_000_000);
    assert_eq!(fit_zoom((1_000_001, 1), (1, 1)), 999_999);
    for image in [(1, 1), (7, 3), (5000, 1), (1, 5000), (u32::MAX, 2), (3, u32::MAX)] {
        for window in [(1, 1), (1, 900), (900, 1), (640, 480), (u32::MAX, 1)] {
            let zoom = fit_zoom(image, window);
            assert!(1 <= zoom && zoom <= ZOOM_ONE);
        }
    }
}

#[test]
fn image_far_larger_than_the_window_is_fitted_too() {
    // Two million and one pixels wide in a window of one pixel: the image
    // is shown no wider than the window, and one unit of zoom more would
    // pass it.
    let zoom = fit_zoom((2_000_001, 1), (1, 1)) as u128;
    assert_eq!(zoom, 499_999);
    assert!(2_000_001 * zoom <= 1_000_000_000_000);
    assert!(1_000_000_000_000 < 2_000_001 * (zoom + 1));
    let sizes = [1u32, 2, 3, 719, 720, 1280, 65_536, 2_000_001, u32::MAX - 1, u32::MAX];
    let unit = ZOOM_ONE as u128;
    for iw in sizes {
        for ih in sizes {
            for ww in sizes {
                for wh in sizes {
                    let zoom = fit_zoom((iw, ih), (ww, wh)) as u128;
                    let (iw, ih, ww, wh) = (iw as u128, ih as u128, ww as u128, wh as u128);
                    if iw <= ww && ih <= wh {
                        assert_eq!(zoom, unit);
                        continue;
                    }
                    assert!(iw * zoom <= ww * unit && ih * zoom <= wh * unit);
                    assert!(ww * unit < iw * (zoom + 1) || wh * unit < ih * (zoom + 1));
                }
            }
        }
    }
}

#[test]
fn fit_zoom_of_empty_image_or_window() {
    assert_eq!(fit_zoom((0, 10), (800, 600)), ZOOM_ONE);
    assert_eq!(fit_zoom((10, 0), (800, 600)), ZOOM_ONE);
    assert_eq!(fit_zoom((10, 10), (0, 0)), 0);
    assert_eq!(fit_zoom((10, 10), (800, 0)), 0);
    assert_eq!(fit_zoom((10, 10), (0, 600)), 0);
}

#[test]
fn fitted_image_reaches_the_window_edge() {
    // 2000 wide at zoom 0.5 is 1000 wide: the width of the window.
    let zoom = fit_zoom((2000, 1000), (1000, 800));
    assert_eq!(2000 * zoom, 1000 * ZOOM_ONE);
    assert!(1000 * zoom <= 800 * ZOOM_ONE);
    // Where the ratio is not a whole number of units, it is rounded down.
    let zoom = fit_zoom((3000, 1000), (1000, 1000));
    assert!(3000 * zoom <= 1000 * ZOOM_ONE);
    assert!(1000 * ZOOM_ONE < 3000 * (zoom + 1));
}

#[test]
fn grid_cells_carry_what_was_added() {
    let mut renderer = Renderer::new(1280, 720);
    renderer.add_grid_item("/p/sub".to_string(), true, None);
    renderer.add_grid_item("/p/a.png".to_string(), false, Some(&image(256, 256)));
    let cells = renderer.get_grid_items();
    assert_eq!(cells.len(), 2);
    assert_eq!(cells[0].path, "/p/sub");
    assert!(cells[0].is_directory);
    assert_eq!(cells[0].image_size, (1, 1));
    assert_eq!(cells[1].path, "/p/a.png");
    assert!(!cells[1].is_directory);
    assert_eq!(cells[1].image_size, (256, 256));
}

#[test]
fn clear_grid_empties_and_scrolls_to_top() {
    let mut renderer = grid(40, 1280, 720);
    renderer.scroll_grid(-500);
    renderer.clear_grid();
    assert_eq!(renderer.get_grid_len(), 0);
    assert_eq!(renderer.get_grid_scroll(), 0);
}

#[test]
fn stale_thumbnail_is_dropped() {
    let mut renderer = grid(3, 1280, 720);
    renderer.update_grid_item_texture(1, &image(256, 256));
    renderer.update_grid_item_texture(3, &image(256, 256));
    renderer.update_grid_item_texture(usize::MAX, &image(256, 256));
    let cells = renderer.get_grid_items();
    assert_eq!(cells.len(), 3);
    assert_eq!(cells[0].image_size, (1, 1));
    assert_eq!(cells[1].image_size, (256, 256));
    assert_eq!(cells[1].path, "/p/1.png");
    assert_eq!(cells[2].image_size, (1, 1));
}

#[test]
fn renderer_scrolls_to_item() {
    let mut renderer = grid(40, 1280, 720);
    renderer.scroll_to_item(39);
    assert_eq!(renderer.get_grid_scroll(), -1980);
    renderer.scroll_to_item(0);
    assert_eq!(renderer.get_grid_scroll(), -20);
    renderer.scroll_to_item(12);
    assert_eq!(renderer.get_grid_scroll(), -360);
}

#[test]
fn render_draws_only_cells_in_the_window() {
    let mut renderer = grid(40, 1280, 720);
    renderer.scroll_grid(-2000);
    let calls = renderer.render(true, Some(30));
    // Rows 7, 8 and 9 reach into the window: cells 28 to 39.
    assert_eq!(calls.len(), 12);
    assert_eq!(calls[0].cell, Some(28));
    assert_eq!(calls[11].cell, Some(39));
    assert_eq!(
        calls[0].params,
        Params {
            image_size: (1, 1),
            window_size: (1280, 720),
            pan: (20, -90),
            zoom: CELL_ZOOM,
            is_grid_item: true,
            is_selected: false,
        }
    );
    assert_eq!(calls[2].cell, Some(30));
    assert_eq!(calls[2].params.pan, (560, -90));
    assert!(calls[2].params.is_selected);
    for (at, call) in calls.iter().enumerate() {
        assert_eq!(call.params.is_selected, at == 2);
    }
}

#[test]
fn render_keeps_cells_that_touch_the_window_edge() {
    let mut renderer = grid(40, 1280, 720);
    // At offset -270 the first row ends exactly at the top edge.
    renderer.scroll_grid(-270);
    let calls = renderer.render(true, None);
    assert_eq!(calls[0].cell, Some(0));
    assert_eq!(calls[0].params.pan, (20, -250));
    renderer.scroll_grid(-1);
    let calls = renderer.render(true, None);
    assert_eq!(calls[0].cell, Some(4));
}

#[test]
fn render_of_single_view_leaves_the_grid_transform() {
    let mut renderer = grid(4, 1280, 720);
    assert!(renderer.get_view_mode());
    let calls = renderer.render(false, Some(1));
    assert_eq!(calls.len(), 1);
    assert_eq!(calls[0].cell, None);
    assert!(!calls[0].params.is_grid_item);
    assert!(!renderer.get_view_mode());
}

#[test]
fn visible_range_covers_whole_rows() {
    let mut renderer = grid(40, 1280, 720);
    assert_eq!(renderer.visible_range(), (0, 12));
    renderer.scroll_grid(-2000);
    assert_eq!(renderer.visible_range(), (28, 44));
    renderer.scroll_grid(1980);
    assert_eq!(renderer.get_grid_scroll(), -20);
    assert_eq!(renderer.visible_range(), (0, 12));
}

#[test]
fn every_drawn_cell_is_in_the_visible_range() {
    let mut renderer = grid(40, 1280, 720);
    for step in 0..25 {
        let (start, end) = renderer.visible_range();
        for call in renderer.render(true, None) {
            let cell = call.cell.unwrap() as u128;
            assert!(start <= cell && cell < end);
        }
        renderer.scroll_grid(-97 - step);
    }
}
