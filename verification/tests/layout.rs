use fastview::layout::{
    clamp_scroll, column_of, columns, content_height, hit_test, max_scroll, row_count, row_of,
    scroll_to_item,
};

#[test]
fn columns_follow_window_width() {
    assert_eq!(columns(1280), 4);
    assert_eq!(columns(270), 1);
    assert_eq!(columns(269), 1);
    assert_eq!(columns(0), 1);
    assert_eq!(columns(540), 2);
    assert_eq!(columns(u32::MAX), 15907286);
}

#[test]
fn row_and_column_of_index() {
    assert_eq!(row_of(0, 1280), 0);
    assert_eq!(column_of(0, 1280), 0);
    assert_eq!(row_of(5, 1280), 1);
    assert_eq!(column_of(5, 1280), 1);
    assert_eq!(row_of(7, 100), 7);
    assert_eq!(column_of(7, 100), 0);
}

#[test]
fn rows_are_rounded_up() {
    assert_eq!(row_count(0, 1280), 0);
    assert_eq!(row_count(1, 1280), 1);
    assert_eq!(row_count(4, 1280), 1);
    assert_eq!(row_count(5, 1280), 2);
    assert_eq!(row_count(10, 100), 10);
}

#[test]
fn content_height_counts_rows_and_spacing() {
    assert_eq!(content_height(0, 1280), 20);
    assert_eq!(content_height(10, 1280), 830);
    assert_eq!(content_height(40, 1280), 2720);
    assert_eq!(content_height(4294967295, 0), 1159641169670);
    if usize::BITS == 64 {
        assert_eq!(content_height(usize::MAX, 0), 4980620899901578936070);
        assert_eq!(content_height(usize::MAX, 540), 2490310449950789468180);
        assert_eq!(row_count(usize::MAX, 0), usize::MAX);
        assert_eq!(row_count(usize::MAX, 540), 9223372036854775808);
        assert_eq!(max_scroll(usize::MAX, 0, 70), 4980620899901578936000);
    }
}

#[test]
fn hit_test_finds_drawn_cell() {
    // Cell 5 in a 1280 wide window: row 1, column 1, drawn at (290, 290).
    assert_eq!(hit_test(290, 290, 0, 1280, 10), Some(5));
    assert_eq!(hit_test(539, 539, 0, 1280, 10), Some(5));
    assert_eq!(hit_test(559, 559, 0, 1280, 10), Some(5));
    assert_eq!(hit_test(560, 290, 0, 1280, 10), Some(6));
    assert_eq!(hit_test(290, 20, -270, 1280, 10), Some(5));
}

#[test]
fn hit_test_misses_outside_the_grid() {
    assert_eq!(hit_test(19, 290, 0, 1280, 10), None);
    assert_eq!(hit_test(290, 19, 0, 1280, 10), None);
    assert_eq!(hit_test(-5, -5, 0, 1280, 10), None);
    // Right of the fourth column.
    assert_eq!(hit_test(1100, 20, 0, 1280, 10), None);
    // A cell that does not exist.
    assert_eq!(hit_test(290, 290, 0, 1280, 5), None);
    assert_eq!(hit_test(30, 30, 0, 1280, 0), None);
    assert_eq!(hit_test(i32::MAX, i32::MAX, i128::MIN, u32::MAX, usize::MAX), None);
    assert_eq!(hit_test(30, 30, i128::MIN, 1280, usize::MAX), None);
    assert_eq!(hit_test(30, 30, i128::MAX, 1280, usize::MAX), None);
    assert_eq!(hit_test(30, i32::MIN, i128::MAX, 1280, usize::MAX), None);
}

#[test]
fn hit_test_reaches_the_last_cell_of_a_very_long_grid() {
    if usize::BITS == 64 {
        // One column: cell k lies 270 * k below the first.
        let last = usize::MAX - 1;
        let scroll = -270 * (last as i128);
        assert_eq!(hit_test(30, 30, scroll, 0, usize::MAX), Some(last));
        assert_eq!(hit_test(30, 30, scroll - 270, 0, usize::MAX), None);
        assert_eq!(hit_test(30, 30, scroll + 270, 0, usize::MAX), Some(last - 1));
        assert_eq!(scroll_to_item(0, last, usize::MAX, 0, 270), scroll);
        assert_eq!(clamp_scroll(i128::MIN, usize::MAX, 0, 70), -4980620899901578936000);
    }
}

#[test]
fn hit_test_agrees_with_row_and_column_for_every_cell() {
    for width in [0u32, 270, 800, 1280, 1920] {
        for index in 0usize..50 {
            let left = 20 + 270 * column_of(index, width) as i32;
            let top = 20 + 270 * row_of(index, width) as i32 - 400;
            assert_eq!(hit_test(left, top, -400, width, 50), Some(index));
            assert_eq!(hit_test(left + 249, top + 249, -400, width, 50), Some(index));
        }
    }
}

#[test]
fn scroll_is_clamped_to_content() {
    // 10 cells in 4 columns: 3 rows, content height 830.
    assert_eq!(max_scroll(10, 1280, 720), 110);
    assert_eq!(max_scroll(10, 1280, 900), 0);
    assert_eq!(max_scroll(10, 1280, 830), 0);
    assert_eq!(clamp_scroll(-500, 10, 1280, 720), -110);
    assert_eq!(clamp_scroll(30, 10, 1280, 720), 0);
    assert_eq!(clamp_scroll(-50, 10, 1280, 720), -50);
    assert_eq!(clamp_scroll(i128::MIN, 10, 1280, 720), -110);
    assert_eq!(clamp_scroll(i128::MAX, 10, 1280, 720), 0);
}

#[test]
fn scroll_to_item_moves_least() {
    // 40 cells in 4 columns: 10 rows, content height 2720, scroll limit 2000.
    // Row 9 spans 2450 to 2700: it is put at the lower edge.
    assert_eq!(scroll_to_item(0, 39, 40, 1280, 720), -1980);
    // Row 0 spans 20 to 270: it is put at the upper edge.
    assert_eq!(scroll_to_item(-2000, 0, 40, 1280, 720), -20);
    assert_eq!(scroll_to_item(0, 4, 40, 1280, 720), 0);
    // Row 3 spans 830 to 1080: below the window, it is put at the lower edge.
    assert_eq!(scroll_to_item(0, 12, 40, 1280, 720), -360);
    // Row 1 spans 290 to 540: above the window at offset -600, it is put at the top.
    assert_eq!(scroll_to_item(-600, 4, 40, 1280, 720), -290);
    // A row that is inside stays where it is.
    assert_eq!(scroll_to_item(-290, 4, 40, 1280, 720), -290);
    assert_eq!(scroll_to_item(-100, 4, 40, 1280, 720), -100);
}

#[test]
fn scroll_to_item_leaves_row_inside_window() {
    for index in 0usize..40 {
        for start in [0i128, -100, -1000, -2000] {
            for height in [250u32, 720] {
                let scroll = scroll_to_item(start, index, 40, 1280, height);
                let top = 20 + 270 * row_of(index, 1280) as i128 + scroll;
                assert!(-max_scroll(40, 1280, height) <= scroll && scroll <= 0);
                assert!(0 <= top && top + 250 <= height as i128);
            }
        }
    }
}

#[test]
fn scroll_to_item_past_the_end_goes_to_the_bottom() {
    assert_eq!(scroll_to_item(0, 1000, 40, 1280, 720), -2000);
    assert_eq!(scroll_to_item(0, usize::MAX, 40, 1280, 720), -2000);
    assert_eq!(scroll_to_item(0, 1000, 4, 1280, 720), 0);
}
