use fastview::image_loader::{precedes, FileItem, ImageLoader, ScanEntry};
use fastview::paths::{
    bytes_lt, extension_range, image_kind, is_image_file, is_separator, path_lt, str_eq,
    ImageKind, PathRules,
};

fn slash_only() -> PathRules {
    PathRules { slash: true, backslash: false }
}

fn both_slashes() -> PathRules {
    PathRules { slash: true, backslash: true }
}

fn entry(path: &str, is_dir: bool, modified: Option<u64>) -> ScanEntry {
    ScanEntry { path: path.to_string(), is_dir, modified }
}

fn sample() -> Vec<ScanEntry> {
    vec![
        entry("/p/x.png", false, Some(5)),
        entry("/p/t.txt", false, Some(100)),
        entry("/p/b", true, Some(1)),
        entry("/p/n.jpeg", false, None),
        entry("/p/z.webp", false, Some(5)),
        entry("/p/a", true, Some(7)),
        entry("/p/y.jpg", false, Some(9)),
    ]
}

fn paths(loader: &ImageLoader) -> Vec<String> {
    loader.get_items().iter().map(|item| item.path().clone()).collect()
}

#[test]
fn catalog_puts_directories_first_then_images_newest_first() {
    let loader = ImageLoader::new("/p".to_string(), sample(), slash_only());
    assert_eq!(
        loader.get_items().to_vec(),
        vec![
            FileItem::Directory("/p/a".to_string()),
            FileItem::Directory("/p/b".to_string()),
            FileItem::Image("/p/y.jpg".to_string()),
            FileItem::Image("/p/x.png".to_string()),
            FileItem::Image("/p/z.webp".to_string()),
            FileItem::Image("/p/n.jpeg".to_string()),
        ]
    );
    assert_eq!(loader.get_path(), "/p");
    assert_eq!(loader.get_item_count(), 6);
    assert_eq!(loader.get_image_count(), 4);
    assert_eq!(loader.get_current_index(), 0);
    assert_eq!(loader.get_current_path(), Some(&"/p/y.jpg".to_string()));
}

#[test]
fn catalog_order_does_not_depend_on_scan_order() {
    let mut reversed = sample();
    reversed.reverse();
    let one = ImageLoader::new("/p".to_string(), sample(), slash_only());
    let other = ImageLoader::new("/p".to_string(), reversed, slash_only());
    assert_eq!(paths(&one), paths(&other));
}

#[test]
fn catalog_breaks_time_ties_by_path() {
    let loader = ImageLoader::new(
        "/p".to_string(),
        vec![
            entry("/p/c.png", false, Some(3)),
            entry("/p/a.png", false, Some(3)),
            entry("/p/b.png", false, Some(3)),
            entry("/p/B.png", false, Some(3)),
        ],
        slash_only(),
    );
    assert_eq!(paths(&loader), vec!["/p/B.png", "/p/a.png", "/p/b.png", "/p/c.png"]);
}

#[test]
fn catalog_puts_images_of_unknown_age_last() {
    let loader = ImageLoader::new(
        "/p".to_string(),
        vec![
            entry("/p/b.png", false, None),
            entry("/p/a.png", false, None),
            entry("/p/z.png", false, Some(0)),
        ],
        slash_only(),
    );
    assert_eq!(paths(&loader), vec!["/p/z.png", "/p/a.png", "/p/b.png"]);
}

#[test]
fn catalog_of_nothing_is_empty() {
    let mut loader = ImageLoader::new("/gone".to_string(), Vec::new(), slash_only());
    assert!(loader.get_items().is_empty());
    assert_eq!(loader.get_image_count(), 0);
    assert_eq!(loader.get_current_index(), 0);
    assert_eq!(loader.get_current_path(), None);
    assert_eq!(loader.next_image(), None);
    assert_eq!(loader.prev_image(), None);
    assert_eq!(loader.open_image("/gone/a.png"), None);
    assert_eq!(loader.get_current_index(), 0);
    assert_eq!(loader.get_item(0), None);
}

#[test]
fn catalog_keeps_directories_whatever_their_name() {
    let loader = ImageLoader::new(
        "/p".to_string(),
        vec![entry("/p/album.png", true, None), entry("/p/notes.txt", true, None)],
        slash_only(),
    );
    assert_eq!(
        loader.get_items().to_vec(),
        vec![
            FileItem::Directory("/p/album.png".to_string()),
            FileItem::Directory("/p/notes.txt".to_string()),
        ]
    );
    assert_eq!(loader.get_image_count(), 0);
}

#[test]
fn refresh_rescans_and_resets_the_current_image() {
    let mut loader = ImageLoader::new("/p".to_string(), sample(), slash_only());
    assert_eq!(loader.next_image(), Some(1));
    loader.refresh(vec![entry("/p/new.png", false, Some(1)), entry("/p/old.png", false, Some(0))]);
    assert_eq!(loader.get_path(), "/p");
    assert_eq!(paths(&loader), vec!["/p/new.png", "/p/old.png"]);
    assert_eq!(loader.get_current_index(), 0);
}

#[test]
fn set_path_moves_the_catalog() {
    let mut loader = ImageLoader::new("/p".to_string(), sample(), slash_only());
    loader.next_image();
    loader.set_path("/p/a".to_string(), vec![entry("/p/a/q.png", false, Some(1))]);
    assert_eq!(loader.get_path(), "/p/a");
    assert_eq!(paths(&loader), vec!["/p/a/q.png"]);
    assert_eq!(loader.get_current_index(), 0);
}

#[test]
fn next_and_prev_wrap_around() {
    let mut loader = ImageLoader::new("/p".to_string(), sample(), slash_only());
    assert_eq!(loader.prev_image(), Some(3));
    assert_eq!(loader.get_current_path(), Some(&"/p/n.jpeg".to_string()));
    assert_eq!(loader.next_image(), Some(0));
    assert_eq!(loader.get_current_path(), Some(&"/p/y.jpg".to_string()));
    assert_eq!(loader.next_image(), Some(1));
    assert_eq!(loader.next_image(), Some(2));
    assert_eq!(loader.next_image(), Some(3));
    assert_eq!(loader.next_image(), Some(0));
    assert_eq!(loader.prev_image(), Some(3));
    assert_eq!(loader.prev_image(), Some(2));
    assert_eq!(loader.get_current_index(), 2);
}

#[test]
fn single_image_is_its_own_neighbour() {
    let mut loader =
        ImageLoader::new("/p".to_string(), vec![entry("/p/a.png", false, None)], slash_only());
    assert_eq!(loader.next_image(), Some(0));
    assert_eq!(loader.prev_image(), Some(0));
}

#[test]
fn open_image_makes_the_path_current() {
    let mut loader = ImageLoader::new("/p".to_string(), sample(), slash_only());
    assert_eq!(loader.open_image("/p/z.webp"), Some(2));
    assert_eq!(loader.get_current_index(), 2);
    assert_eq!(loader.get_current_path(), Some(&"/p/z.webp".to_string()));
    for path in ["/p/y.jpg", "/p/x.png", "/p/z.webp", "/p/n.jpeg"] {
        assert!(loader.open_image(path).is_some());
        assert_eq!(loader.get_current_path().unwrap(), path);
    }
}

#[test]
fn open_image_of_unknown_path_changes_nothing() {
    let mut loader = ImageLoader::new("/p".to_string(), sample(), slash_only());
    loader.open_image("/p/x.png");
    assert_eq!(loader.open_image("/p/missing.png"), None);
    assert_eq!(loader.open_image("/p/a"), None);
    assert_eq!(loader.open_image("/p/t.txt"), None);
    assert_eq!(loader.open_image(""), None);
    assert_eq!(loader.get_current_index(), 1);
}

#[test]
fn items_are_found_by_index() {
    let loader = ImageLoader::new("/p".to_string(), sample(), slash_only());
    assert_eq!(loader.get_item(0), Some(&FileItem::Directory("/p/a".to_string())));
    assert_eq!(loader.get_item(5), Some(&FileItem::Image("/p/n.jpeg".to_string())));
    assert_eq!(loader.get_item(6), None);
    assert!(loader.get_item(0).unwrap().is_directory());
    assert!(!loader.get_item(5).unwrap().is_directory());
    assert_eq!(loader.get_item(5).unwrap().path(), "/p/n.jpeg");
}

#[test]
fn entries_are_compared_by_kind_time_and_path() {
    let dir_a = entry("/p/a", true, None);
    let dir_b = entry("/p/b", true, Some(99));
    let new = entry("/p/z.png", false, Some(9));
    let old = entry("/p/a.png", false, Some(1));
    let old_too = entry("/p/b.png", false, Some(1));
    let unknown = entry("/p/0.png", false, None);
    assert!(precedes(&dir_a, &dir_b));
    assert!(!precedes(&dir_b, &dir_a));
    assert!(precedes(&dir_b, &new));
    assert!(!precedes(&new, &dir_b));
    assert!(precedes(&new, &old));
    assert!(!precedes(&old, &new));
    assert!(precedes(&old, &old_too));
    assert!(!precedes(&old_too, &old));
    assert!(precedes(&old, &unknown));
    assert!(!precedes(&unknown, &old));
    assert!(!precedes(&old, &old));
}

#[test]
fn image_files_are_known_by_extension() {
    for rules in [slash_only(), both_slashes()] {
        assert!(is_image_file("a.jpg", rules));
        assert!(is_image_file("a.jpeg", rules));
        assert!(is_image_file("a.png", rules));
        assert!(is_image_file("a.webp", rules));
        assert!(is_image_file("A.PNG", rules));
        assert!(is_image_file("a.JpEg", rules));
        assert!(is_image_file("/home/me/archive.tar.webp", rules));
        assert!(is_image_file("C:\\pictures\\y.JPEG", rules));
        assert!(is_image_file("/p/bl\u{e4}tter.png", rules));
        assert!(!is_image_file("a.gif", rules));
        assert!(!is_image_file("a.pn", rules));
        assert!(!is_image_file("a.pngx", rules));
        assert!(!is_image_file("a.jpg.txt", rules));
        assert!(!is_image_file("png", rules));
        assert!(!is_image_file("a.", rules));
        assert!(!is_image_file("", rules));
        assert!(!is_image_file("a.p\u{f1}g", rules));
    }
}

#[test]
fn hidden_files_and_directories_have_no_extension() {
    for rules in [slash_only(), both_slashes()] {
        assert!(!is_image_file(".png", rules));
        assert!(!is_image_file("/p/.png", rules));
        assert!(is_image_file("/p/.hidden.png", rules));
        assert!(!is_image_file("/p/album.png/cover", rules));
        assert!(!is_image_file("/p/album.png/..", rules));
        assert!(!is_image_file("..", rules));
        assert!(!is_image_file(".", rules));
        assert!(!is_image_file("/", rules));
        assert!(!is_image_file("/.", rules));
    }
    assert_eq!(extension_range(b"/p/a.png", slash_only()), Some((5, 8)));
    assert_eq!(extension_range(b"a.", slash_only()), Some((2, 2)));
    assert_eq!(extension_range(b".a", slash_only()), None);
    assert_eq!(extension_range(b"/p.d/a", slash_only()), None);
    assert_eq!(extension_range(b"", slash_only()), None);
}

#[test]
fn extension_is_that_of_the_last_component() {
    for rules in [slash_only(), both_slashes()] {
        assert!(is_image_file("a.png/", rules));
        assert!(is_image_file("/p/album.png/", rules));
        assert!(is_image_file("/p/album.png///", rules));
        assert!(is_image_file("/p/album.png/.", rules));
        assert!(is_image_file("/p/album.png/./", rules));
        assert!(is_image_file("/p/album.png/././/.", rules));
        assert!(is_image_file("./a.png", rules));
        assert!(!is_image_file("/p/album.png/x.", rules));
        assert!(!is_image_file("/p/album.png/.x", rules));
    }
    assert_eq!(extension_range(b"a.png/", slash_only()), Some((2, 5)));
    assert_eq!(extension_range(b"/p/a.png/./", slash_only()), Some((5, 8)));
    assert_eq!(extension_range(b"/p/a.png/x", slash_only()), None);
}

#[test]
fn backslash_separates_only_where_the_rules_say_so() {
    assert!(is_image_file("a\\.png", slash_only()));
    assert!(!is_image_file("a\\.png", both_slashes()));
    assert!(is_image_file("C:\\p\\.jpg", slash_only()));
    assert!(!is_image_file("C:\\p\\.jpg", both_slashes()));
    assert!(!is_image_file("a.png\\", slash_only()));
    assert!(is_image_file("a.png\\", both_slashes()));
    assert!(!is_image_file("a.png\\cover", slash_only()));
    assert!(!is_image_file("a.png\\cover", both_slashes()));
    assert!(is_image_file("p.d\\x.webp", slash_only()));
    assert!(is_image_file("p.d\\x.webp", both_slashes()));
    assert_eq!(extension_range(b"a\\.png", slash_only()), Some((3, 6)));
    assert_eq!(extension_range(b"a\\.png", both_slashes()), None);
    let backslash_only = PathRules { slash: false, backslash: true };
    assert!(!is_image_file("a.png/", backslash_only));
    assert!(is_image_file("a.png\\", backslash_only));
    let neither = PathRules { slash: false, backslash: false };
    assert!(!is_image_file("a.png/", neither));
    assert!(is_image_file("/p/.png", neither));
    assert!(is_separator(b'/', slash_only()));
    assert!(!is_separator(b'\\', slash_only()));
    assert!(is_separator(b'\\', both_slashes()));
    assert!(!is_separator(b'.', both_slashes()));
}

#[test]
fn native_rules_agree_with_the_platform() {
    let rules = PathRules::native();
    assert_eq!(rules.slash, std::path::is_separator('/'));
    assert_eq!(rules.backslash, std::path::is_separator('\\'));
    let samples = [
        "a.png", "a.png/", "a.png/.", "a.png//./", "a\\.png", "a.png\\", ".png", "/p/.png",
        "/p/.x.jpg", "..", "a.png/..", "/", "", "./a.webp", "p.d/a", "p.d\\a", "a.JPEG", "a.",
        "/p/a.jpg/b.txt", "a\\b.png/", "x/.", "x.png/./.", ".", "./", "a..png", "a.png.",
    ];
    for path in samples {
        let extension = std::path::Path::new(path)
            .extension()
            .and_then(|found| found.to_str())
            .map(|found| found.to_lowercase());
        let image = match extension.as_deref() {
            Some("jpg") | Some("jpeg") | Some("png") | Some("webp") => true,
            _ => false,
        };
        assert_eq!(is_image_file(path, rules), image, "{path:?}");
    }
}

#[test]
fn image_kind_follows_extension() {
    assert_eq!(image_kind("a.jpg", slash_only()), Some(ImageKind::Jpeg));
    assert_eq!(image_kind("a.JPEG", slash_only()), Some(ImageKind::Jpeg));
    assert_eq!(image_kind("a.png", slash_only()), Some(ImageKind::Png));
    assert_eq!(image_kind("a.WebP", slash_only()), Some(ImageKind::WebP));
    assert_eq!(image_kind("a.bmp", slash_only()), None);
    assert_eq!(image_kind("a", slash_only()), None);
    assert_eq!(image_kind("a.webp/", slash_only()), Some(ImageKind::WebP));
    assert_eq!(image_kind("a\\.jpg", both_slashes()), None);
}

#[test]
fn paths_are_ordered_by_bytes() {
    assert!(path_lt("/p/a", "/p/b"));
    assert!(!path_lt("/p/b", "/p/a"));
    assert!(!path_lt("/p/a", "/p/a"));
    assert!(path_lt("/p/a", "/p/ab"));
    assert!(!path_lt("/p/ab", "/p/a"));
    assert!(path_lt("", "a"));
    assert!(!path_lt("", ""));
    assert!(path_lt("/p/Z", "/p/a"));
    assert!(path_lt("/p/z", "/p/\u{e4}"));
    assert!(bytes_lt(&[1, 2], &[1, 3]));
    assert!(bytes_lt(&[1, 255], &[2]));
    assert!(!bytes_lt(&[2], &[1, 255]));
    assert!(bytes_lt(&[], &[0]));
}

#[test]
fn strings_are_equal_when_their_text_is() {
    assert!(str_eq("", ""));
    assert!(str_eq("/p/a.png", "/p/a.png"));
    assert!(!str_eq("/p/a.png", "/p/a.pnG"));
    assert!(!str_eq("/p/a.png", "/p/a.pn"));
    assert!(!str_eq("a", ""));
    assert!(str_eq("bl\u{e4}tter", "bl\u{e4}tter"));
}

#[test]
fn catalog_is_the_kept_entries_sorted_by_kind_time_and_path() {
    let mut seed: u64 = 2024;
    let mut next = move || {
        seed = seed.wrapping_mul(6364136223846793005).wrapping_add(1442695040888963407);
        (seed >> 33) as usize
    };
    let extensions = ["png", "jpg", "txt", "webp", "JPEG", "gif", ""];
    let mut entries = Vec::new();
    for k in 0..300 {
        let is_dir = next() % 5 == 0;
        let name = format!("/p/{}{}.{}", ["a", "B", "c", "\u{e4}"][next() % 4], k, extensions[next() % 7]);
        let modified = if next() % 4 == 0 { None } else { Some((next() % 6) as u64) };
        entries.push(entry(&name, is_dir, modified));
    }
    let mut expected: Vec<(bool, std::cmp::Reverse<Option<u64>>, String)> = entries
        .iter()
        .filter(|e| e.is_dir || is_image_file(&e.path, slash_only()))
        .map(|e| {
            let time = if e.is_dir { None } else { e.modified.map(|m| m + 1) };
            (!e.is_dir, std::cmp::Reverse(time), e.path.clone())
        })
        .collect();
    expected.sort();
    let loader = ImageLoader::new("/p".to_string(), entries, slash_only());
    let listed: Vec<(bool, String)> =
        loader.get_items().iter().map(|item| (!item.is_directory(), item.path().clone())).collect();
    let wanted: Vec<(bool, String)> =
        expected.iter().map(|(image, _, path)| (*image, path.clone())).collect();
    assert_eq!(listed, wanted);
    assert_eq!(loader.get_image_count(), wanted.iter().filter(|(image, _)| *image).count());
}
