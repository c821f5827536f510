//! The records of the persistent cache and their byte format.
//!
//! The cache is a key-value store that the program keeps on disk. Under the
//! path of an image it holds a `CacheEntry` with the image's thumbnail; under
//! the key `window_settings` it holds the `WindowSettings` of the last
//! session.
//! This module turns both records into the bytes that are stored and back.
//! Bytes that do not parse stand for a record that is not there.

use vstd::prelude::*;
use vstd::bytes::{
    spec_u32_from_le_bytes, spec_u32_to_le_bytes, spec_u64_from_le_bytes, spec_u64_to_le_bytes,
};
use crate::pixels::{PixelBuffer, THUMBNAIL_BYTES, THUMBNAIL_SIZE};

verus! {

/// What the cache holds for one image.
#[derive(Debug, PartialEq, Eq)]
pub struct CacheEntry {
    /// Marker for the modification time of the image. Thumbnail entries hold
    /// zero.
    pub mtime: u64,
    /// Marker for the size of the image file. Thumbnail entries hold zero.
    pub size: u64,
    /// The pixel data of the thumbnail.
    pub thumbnail_data: Vec<u8>,
}

/// A cache entry as a mathematical value.
pub struct CacheEntryView {
    pub mtime: u64,
    pub size: u64,
    pub thumbnail_data: Seq<u8>,
}

impl View for CacheEntry {
    type V = CacheEntryView;

    open spec fn view(&self) -> CacheEntryView {
        CacheEntryView {
            mtime: self.mtime,
            size: self.size,
            thumbnail_data: self.thumbnail_data@,
        }
    }
}

/// Position and size of the window.
#[derive(Clone, Copy, Debug, PartialEq, Eq)]
pub struct WindowSettings {
    pub x: i32,
    pub y: i32,
    pub width: u32,
    pub height: u32,
}

/// The stored form of a cache entry: the two markers and the length of the
/// data as 64-bit numbers, least significant byte first, then the data.
pub open spec fn spec_entry_bytes(entry: CacheEntryView) -> Seq<u8> {
    spec_u64_to_le_bytes(entry.mtime) + spec_u64_to_le_bytes(entry.size) + spec_u64_to_le_bytes(
        entry.thumbnail_data.len() as u64,
    ) + entry.thumbnail_data
}

/// The cache entry that stored bytes stand for. They stand for one if they
/// hold the three numbers and at least as much data as the third announces;
/// what follows the data is ignored.
pub open spec fn spec_entry_parse(bytes: Seq<u8>) -> Option<CacheEntryView> {
    if bytes.len() >= 24 && spec_u64_from_le_bytes(bytes.subrange(16, 24)) <= bytes.len() - 24 {
        Some(
            CacheEntryView {
                mtime: spec_u64_from_le_bytes(bytes.subrange(0, 8)),
                size: spec_u64_from_le_bytes(bytes.subrange(8, 16)),
                thumbnail_data: bytes.subrange(
                    24,
                    24 + spec_u64_from_le_bytes(bytes.subrange(16, 24)),
                ),
            },
        )
    } else {
        None
    }
}

/// The stored form of the window settings: the four numbers in 32 bits each,
/// least significant byte first, negative positions in two's complement.
pub open spec fn spec_settings_bytes(settings: WindowSettings) -> Seq<u8> {
    spec_u32_to_le_bytes(settings.x as u32) + spec_u32_to_le_bytes(settings.y as u32)
        + spec_u32_to_le_bytes(settings.width) + spec_u32_to_le_bytes(settings.height)
}

/// The window settings that stored bytes stand for: any sixteen bytes or
/// more do, and what follows the first sixteen is ignored.
pub open spec fn spec_settings_parse(bytes: Seq<u8>) -> Option<WindowSettings> {
    if bytes.len() >= 16 {
        Some(
            WindowSettings {
                x: spec_u32_from_le_bytes(bytes.subrange(0, 4)) as i32,
                y: spec_u32_from_le_bytes(bytes.subrange(4, 8)) as i32,
                width: spec_u32_from_le_bytes(bytes.subrange(8, 12)),
                height: spec_u32_from_le_bytes(bytes.subrange(12, 16)),
            },
        )
    } else {
        None
    }
}

/// Calls `bincode::serialize` on the two markers and the data of a cache
/// entry, which bincode writes like the record itself: the three 64-bit
/// numbers (markers and data length) in little-endian order, followed by
/// the data. bincode returns an error only where its size limit is passed
/// or its writer fails; this call has no size limit and writes into a
/// vector, so it always returns bytes.
#[verifier::external_body]
fn bincode_write_entry(mtime: u64, size: u64, data: &Vec<u8>) -> (bytes: Option<Vec<u8>>)
    ensures
        bytes is Some,
        bytes matches Some(written) ==> written@ == spec_entry_bytes(
            CacheEntryView { mtime: mtime, size: size, thumbnail_data: data@ },
        ),
{
    bincode::serialize(&(mtime, size, data)).ok()
}

/// Calls `bincode::deserialize` for two 64-bit numbers and a byte string.
/// bincode reads the numbers and a 64-bit length in little-endian order,
/// then as many bytes as the length says; it fails where the input ends
/// before that, and ignores what follows.
#[verifier::external_body]
fn bincode_read_entry(bytes: &[u8]) -> (entry: Option<(u64, u64, Vec<u8>)>)
    ensures
        match entry {
            Some(read) => spec_entry_parse(bytes@) == Some(
                CacheEntryView { mtime: read.0, size: read.1, thumbnail_data: read.2@ },
            ),
            None => spec_entry_parse(bytes@) is None,
        },
{
    bincode::deserialize::<(u64, u64, Vec<u8>)>(bytes).ok()
}

/// Calls `bincode::serialize` on the four numbers of the window settings,
/// which bincode writes in 32 bits each, in little-endian order. bincode
/// returns an error only where its size limit is passed or its writer
/// fails; this call has no size limit and writes into a vector, so it
/// always returns bytes.
#[verifier::external_body]
fn bincode_write_settings(x: i32, y: i32, width: u32, height: u32) -> (bytes: Option<Vec<u8>>)
    ensures
        bytes is Some,
        bytes matches Some(written) ==> written@ == spec_settings_bytes(
            WindowSettings { x: x, y: y, width: width, height: height },
        ),
{
    bincode::serialize(&(x, y, width, height)).ok()
}

/// Calls `bincode::deserialize` for four 32-bit numbers, two signed and two
/// unsigned. bincode reads them in little-endian order; it fails where the
/// input is shorter than sixteen bytes, and ignores what follows.
#[verifier::external_body]
fn bincode_read_settings(bytes: &[u8]) -> (settings: Option<(i32, i32, u32, u32)>)
    ensures
        match settings {
            Some(read) => spec_settings_parse(bytes@) == Some(
                WindowSettings { x: read.0, y: read.1, width: read.2, height: read.3 },
            ),
            None => spec_settings_parse(bytes@) is None,
        },
{
    bincode::deserialize::<(i32, i32, u32, u32)>(bytes).ok()
}

impl CacheEntry {
    /// The bytes to store for this entry. Every entry can be written, so
    /// there always are bytes.
    pub fn to_bytes(&self) -> (bytes: Option<Vec<u8>>)
        ensures
            bytes matches Some(written) && written@ == spec_entry_bytes(self@),
    {
        bincode_write_entry(self.mtime, self.size, &self.thumbnail_data)
    }

    /// The entry that stored bytes stand for, or nothing if they stand for
    /// none.
    pub fn from_bytes(bytes: &[u8]) -> (entry: Option<CacheEntry>)
        ensures
            match entry {
                Some(read) => spec_entry_parse(bytes@) == Some(read@),
                None => spec_entry_parse(bytes@) is None,
            },
    {
        match bincode_read_entry(bytes) {
            Some((mtime, size, thumbnail_data)) => Some(CacheEntry { mtime, size, thumbnail_data }),
            None => None,
        }
    }

    /// The entry that holds a thumbnail: its pixel data as it is, with both
    /// markers zero.
    pub fn from_thumbnail(img: &PixelBuffer) -> (entry: CacheEntry)
        ensures
            entry@ == (CacheEntryView { mtime: 0, size: 0, thumbnail_data: img.data@ }),
    {
        CacheEntry { mtime: 0, size: 0, thumbnail_data: img.data.clone() }
    }

    /// The thumbnail that the entry holds: its data as the pixels of a
    /// thumbnail-sized square, if it has exactly that many bytes.
    pub fn thumbnail(&self) -> (img: Option<PixelBuffer>)
        ensures
            match img {
                Some(found) => self@.thumbnail_data.len() == THUMBNAIL_BYTES && found@ == (
                crate::pixels::ImageView {
                    width: THUMBNAIL_SIZE,
                    height: THUMBNAIL_SIZE,
                    data: self@.thumbnail_data,
                }) && found@.wf(),
                None => self@.thumbnail_data.len() != THUMBNAIL_BYTES,
            },
    {
        if self.thumbnail_data.len() == THUMBNAIL_BYTES {
            Some(
                PixelBuffer {
                    width: THUMBNAIL_SIZE,
                    height: THUMBNAIL_SIZE,
                    data: self.thumbnail_data.clone(),
                },
            )
        } else {
            None
        }
    }
}

impl WindowSettings {
    /// The bytes to store for these settings. All settings can be written,
    /// so there always are bytes.
    pub fn to_bytes(&self) -> (bytes: Option<Vec<u8>>)
        ensures
            bytes matches Some(written) && written@ == spec_settings_bytes(*self),
    {
        bincode_write_settings(self.x, self.y, self.width, self.height)
    }

    /// The settings that stored bytes stand for, or nothing if they stand
    /// for none.
    pub fn from_bytes(bytes: &[u8]) -> (settings: Option<WindowSettings>)
        ensures
            settings == spec_settings_parse(bytes@),
    {
        match bincode_read_settings(bytes) {
            Some((x, y, width, height)) => Some(WindowSettings { x, y, width, height }),
            None => None,
        }
    }
}

/// The bytes to store for a thumbnail: those of the cache entry that holds
/// it.
pub open spec fn spec_thumbnail_record(img: crate::pixels::ImageView) -> Seq<u8> {
    spec_entry_bytes(CacheEntryView { mtime: 0, size: 0, thumbnail_data: img.data })
}

/// The thumbnail that stored bytes stand for: they stand for a cache entry,
/// and its data has the size of a thumbnail.
pub open spec fn spec_stored_thumbnail(bytes: Seq<u8>) -> Option<crate::pixels::ImageView> {
    match spec_entry_parse(bytes) {
        Some(entry) => if entry.thumbnail_data.len() == THUMBNAIL_BYTES {
            Some(
                crate::pixels::ImageView {
                    width: THUMBNAIL_SIZE,
                    height: THUMBNAIL_SIZE,
                    data: entry.thumbnail_data,
                },
            )
        } else {
            None
        },
        None => None,
    }
}

/// The key under which the cache holds the entry of the file at `path`: the
/// path itself.
pub fn cache_key(path: &str) -> (key: String)
    ensures
        key@ == path@,
{
    path.to_owned()
}

/// The key under which the cache holds the window settings.
pub fn window_settings_key() -> (key: &'static str)
    ensures
        key@ == "window_settings"@,
{
    "window_settings"
}

/// The bytes to store for the thumbnail `img`: those of the cache entry
/// that holds it. There always are bytes.
pub fn thumbnail_record(img: &PixelBuffer) -> (bytes: Option<Vec<u8>>)
    ensures
        bytes matches Some(written) && written@ == spec_thumbnail_record(img@),
{
    CacheEntry::from_thumbnail(img).to_bytes()
}

/// The thumbnail that the bytes found in the cache stand for, or nothing if
/// they stand for none: the thumbnail then has to be made anew.
pub fn stored_thumbnail(bytes: &[u8]) -> (img: Option<PixelBuffer>)
    ensures
        match img {
            Some(found) => spec_stored_thumbnail(bytes@) == Some(found@) && found@.wf(),
            None => spec_stored_thumbnail(bytes@) is None,
        },
{
    match CacheEntry::from_bytes(bytes) {
        Some(entry) => entry.thumbnail(),
        None => None,
    }
}

/// A stored cache entry is read back as it was written: both markers and
/// every byte of the thumbnail data.
pub proof fn entry_round_trip(entry: CacheEntryView)
    requires
        entry.thumbnail_data.len() <= u64::MAX,
    ensures
        spec_entry_parse(spec_entry_bytes(entry)) == Some(entry),
{
    vstd::bytes::lemma_auto_spec_u64_to_from_le_bytes();
    let length = entry.thumbnail_data.len() as u64;
    let bytes = spec_entry_bytes(entry);
    assert(bytes.subrange(0, 8) =~= spec_u64_to_le_bytes(entry.mtime));
    assert(bytes.subrange(8, 16) =~= spec_u64_to_le_bytes(entry.size));
    assert(bytes.subrange(16, 24) =~= spec_u64_to_le_bytes(length));
    assert(bytes.subrange(24, 24 + length) =~= entry.thumbnail_data);
}

/// A thumbnail that is stored and read back comes out with the same size
/// and the same bytes.
pub proof fn thumbnail_round_trip(img: crate::pixels::ImageView)
    requires
        img.wf(),
        img.width == THUMBNAIL_SIZE,
        img.height == THUMBNAIL_SIZE,
    ensures
        spec_stored_thumbnail(spec_thumbnail_record(img)) == Some(img),
{
    assert(4 * img.width * img.height == 262144) by (nonlinear_arith)
        requires
            img.width == 256,
            img.height == 256,
    ;
    entry_round_trip(CacheEntryView { mtime: 0, size: 0, thumbnail_data: img.data });
}

/// Stored window settings are read back as they were written.
pub proof fn settings_round_trip(settings: WindowSettings)
    ensures
        spec_settings_parse(spec_settings_bytes(settings)) == Some(settings),
{
    vstd::bytes::lemma_auto_spec_u32_to_from_le_bytes();
    let bytes = spec_settings_bytes(settings);
    assert(bytes.subrange(0, 4) =~= spec_u32_to_le_bytes(settings.x as u32));
    assert(bytes.subrange(4, 8) =~= spec_u32_to_le_bytes(settings.y as u32));
    assert(bytes.subrange(8, 12) =~= spec_u32_to_le_bytes(settings.width));
    assert(bytes.subrange(12, 16) =~= spec_u32_to_le_bytes(settings.height));
    let x = settings.x;
    let y = settings.y;
    assert((x as u32) as i32 == x) by (bit_vector);
    assert((y as u32) as i32 == y) by (bit_vector);
}

} // verus!
