use fastview::cache::{
    cache_key, stored_thumbnail, thumbnail_record, window_settings_key, CacheEntry, WindowSettings,
};
use fastview::pixels::PixelBuffer;

fn thumbnail() -> PixelBuffer {
    let data: Vec<u8> = (0..262144u32).map(|k| (k % 251) as u8).collect();
    PixelBuffer { width: 256, height: 256, data }
}

#[test]
fn cache_entry_is_written_field_by_field() {
    let entry = CacheEntry { mtime: 1, size: 0x0102, thumbnail_data: vec![9, 8] };
    assert_eq!(
        entry.to_bytes(),
        Some(vec![1, 0, 0, 0, 0, 0, 0, 0, 2, 1, 0, 0, 0, 0, 0, 0, 2, 0, 0, 0, 0, 0, 0, 0, 9, 8])
    );
    let empty = CacheEntry { mtime: u64::MAX, size: 0, thumbnail_data: Vec::new() };
    let mut expected = vec![255u8; 8];
    expected.extend(vec![0u8; 16]);
    assert_eq!(empty.to_bytes(), Some(expected));
}

#[test]
fn cache_entry_round_trip() {
    let entry = CacheEntry { mtime: 77, size: 1 << 40, thumbnail_data: vec![0, 255, 1, 2, 3] };
    let bytes = entry.to_bytes().unwrap();
    assert_eq!(CacheEntry::from_bytes(&bytes), Some(entry));
}

#[test]
fn cache_entry_ignores_trailing_bytes() {
    let mut bytes =
        CacheEntry { mtime: 1, size: 2, thumbnail_data: vec![5, 6, 7] }.to_bytes().unwrap();
    bytes.extend([1, 2, 3]);
    assert_eq!(
        CacheEntry::from_bytes(&bytes),
        Some(CacheEntry { mtime: 1, size: 2, thumbnail_data: vec![5, 6, 7] })
    );
}

#[test]
fn damaged_cache_entry_is_a_miss() {
    let bytes = CacheEntry { mtime: 1, size: 2, thumbnail_data: vec![5, 6, 7] }.to_bytes().unwrap();
    for length in 0..bytes.len() {
        assert_eq!(CacheEntry::from_bytes(&bytes[..length]), None);
    }
    let mut long = bytes.clone();
    long[16] = 4;
    assert_eq!(CacheEntry::from_bytes(&long), None);
    let mut huge = bytes.clone();
    huge[23] = 255;
    assert_eq!(CacheEntry::from_bytes(&huge), None);
    assert_eq!(CacheEntry::from_bytes(b"not a cache entry"), None);
}

#[test]
fn thumbnail_entry_holds_the_pixels_and_zero_markers() {
    let img = PixelBuffer { width: 1, height: 2, data: vec![1, 2, 3, 4, 5, 6, 7, 8] };
    assert_eq!(
        CacheEntry::from_thumbnail(&img),
        CacheEntry { mtime: 0, size: 0, thumbnail_data: vec![1, 2, 3, 4, 5, 6, 7, 8] }
    );
}

#[test]
fn thumbnail_round_trip_is_byte_identical() {
    let img = thumbnail();
    let stored = thumbnail_record(&img).unwrap();
    assert_eq!(stored.len(), 24 + 262144);
    assert_eq!(stored_thumbnail(&stored), Some(img));
}

#[test]
fn entry_of_other_size_holds_no_thumbnail() {
    let small = CacheEntry { mtime: 0, size: 0, thumbnail_data: vec![0; 262143] };
    assert_eq!(small.thumbnail(), None);
    let large = CacheEntry { mtime: 0, size: 0, thumbnail_data: vec![0; 262145] };
    assert_eq!(large.thumbnail(), None);
    let exact = CacheEntry { mtime: 5, size: 6, thumbnail_data: vec![7; 262144] };
    assert_eq!(
        exact.thumbnail(),
        Some(PixelBuffer { width: 256, height: 256, data: vec![7; 262144] })
    );
    let stored = small.to_bytes().unwrap();
    assert_eq!(stored_thumbnail(&stored), None);
    assert_eq!(stored_thumbnail(&[]), None);
}

#[test]
fn window_settings_are_written_as_four_numbers() {
    let settings = WindowSettings { x: -1, y: 2, width: 3, height: 0x01020304 };
    assert_eq!(
        settings.to_bytes(),
        Some(vec![255, 255, 255, 255, 2, 0, 0, 0, 3, 0, 0, 0, 4, 3, 2, 1])
    );
}

#[test]
fn window_settings_round_trip() {
    for settings in [
        WindowSettings { x: 0, y: 0, width: 0, height: 0 },
        WindowSettings { x: -1920, y: 40, width: 1280, height: 720 },
        WindowSettings { x: i32::MIN, y: i32::MAX, width: u32::MAX, height: 1 },
    ] {
        let bytes = settings.to_bytes().unwrap();
        assert_eq!(bytes.len(), 16);
        assert_eq!(WindowSettings::from_bytes(&bytes), Some(settings));
    }
}

#[test]
fn short_window_settings_are_absent() {
    assert_eq!(WindowSettings::from_bytes(&[0; 15]), None);
    assert_eq!(WindowSettings::from_bytes(&[]), None);
    assert_eq!(
        WindowSettings::from_bytes(&[1, 0, 0, 0, 254, 255, 255, 255, 3, 0, 0, 0, 4, 0, 0, 0, 9]),
        Some(WindowSettings { x: 1, y: -2, width: 3, height: 4 })
    );
}

#[test]
fn cache_keys() {
    assert_eq!(cache_key("/p/a.png"), "/p/a.png");
    assert_eq!(cache_key(""), "");
    assert_eq!(window_settings_key(), "window_settings");
}

#[test]
fn thumbnail_survives_the_store() {
    let db = sled::Config::new().temporary(true).open().unwrap();
    let img = thumbnail();
    let key = cache_key("/p/a.png");
    db.insert(key.as_str(), thumbnail_record(&img).unwrap()).unwrap();
    db.flush().unwrap();
    let stored = db.get(key.as_str()).unwrap().unwrap();
    assert_eq!(stored_thumbnail(&stored), Some(img));
    assert!(db.get(cache_key("/p/b.png")).unwrap().is_none());
    let settings = WindowSettings { x: 10, y: -20, width: 1280, height: 720 };
    db.insert(window_settings_key(), settings.to_bytes().unwrap()).unwrap();
    let stored = db.get(window_settings_key()).unwrap().unwrap();
    assert_eq!(WindowSettings::from_bytes(&stored), Some(settings));
}

#[test]
fn every_record_can_be_written() {
    for length in [0usize, 1, 23, 24, 1000, 262144] {
        let entry = CacheEntry { mtime: u64::MAX, size: u64::MAX, thumbnail_data: vec![255; length] };
        let bytes = entry.to_bytes();
        assert_eq!(bytes.as_ref().map(|b| b.len()), Some(24 + length));
        assert_eq!(CacheEntry::from_bytes(&bytes.unwrap()), Some(entry));
    }
    let empty = PixelBuffer { width: 0, height: 0, data: Vec::new() };
    assert_eq!(thumbnail_record(&empty), Some(vec![0; 24]));
}
