//! The catalog of one directory: its subdirectories and images in display
//! order, and the list of its images with the one currently shown.
//!
//! The catalog does not read the file system. It is handed the entries that
//! were found in the directory and keeps the subdirectories and the files
//! with an image extension. Directories come first, ordered by path; images
//! follow, newest first, and in path order where modification times are
//! equal. An image whose modification time is unknown counts as older than
//! any whose time is known.

use vstd::prelude::*;
use crate::paths::{
    is_image_file, path_lt, spec_is_image_file, spec_path_lt, str_eq, PathRules,
};

verus! {

/// One entry found in a directory.
#[derive(Debug, PartialEq, Eq)]
pub struct ScanEntry {
    /// Full path of the entry.
    pub path: String,
    /// Whether the entry is a directory.
    pub is_dir: bool,
    /// Time of the last modification, if known, on any scale that grows
    /// with time.
    pub modified: Option<u64>,
}

/// A directory entry as a mathematical value.
pub struct ScanEntryView {
    pub path: Seq<char>,
    pub is_dir: bool,
    pub modified: Option<u64>,
}

impl View for ScanEntry {
    type V = ScanEntryView;

    open spec fn view(&self) -> ScanEntryView {
        ScanEntryView { path: self.path@, is_dir: self.is_dir, modified: self.modified }
    }
}

/// An item of the catalog.
#[derive(Debug, PartialEq, Eq)]
pub enum FileItem {
    Image(String),
    Directory(String),
}

/// A catalog item as a mathematical value.
pub enum FileItemView {
    Image(Seq<char>),
    Directory(Seq<char>),
}

impl View for FileItem {
    type V = FileItemView;

    open spec fn view(&self) -> FileItemView {
        match self {
            FileItem::Image(path) => FileItemView::Image(path@),
            FileItem::Directory(path) => FileItemView::Directory(path@),
        }
    }
}

impl Clone for FileItem {
    fn clone(&self) -> (copy: Self)
        ensures
            copy@ == self@,
    {
        match self {
            FileItem::Image(path) => FileItem::Image(path.clone()),
            FileItem::Directory(path) => FileItem::Directory(path.clone()),
        }
    }
}

impl FileItem {
    /// The path of the item.
    pub fn path(&self) -> (path: &String)
        ensures
            path@ == spec_item_path(self@),
    {
        match self {
            FileItem::Image(path) => path,
            FileItem::Directory(path) => path,
        }
    }

    /// Whether the item is a directory.
    pub fn is_directory(&self) -> (directory: bool)
        ensures
            directory == (self@ is Directory),
    {
        match self {
            FileItem::Image(_) => false,
            FileItem::Directory(_) => true,
        }
    }
}

/// The path of a catalog item.
pub open spec fn spec_item_path(item: FileItemView) -> Seq<char> {
    match item {
        FileItemView::Image(path) => path,
        FileItemView::Directory(path) => path,
    }
}

/// The catalog item that a directory entry becomes.
pub open spec fn spec_item_of(entry: ScanEntryView) -> FileItemView {
    if entry.is_dir {
        FileItemView::Directory(entry.path)
    } else {
        FileItemView::Image(entry.path)
    }
}

/// Whether the catalog keeps an entry: directories, and files with an image
/// extension.
pub open spec fn spec_kept(entry: ScanEntryView, rules: PathRules) -> bool {
    entry.is_dir || spec_is_image_file(entry.path, rules)
}

/// An entry as the catalog lists it: the modification time of a directory
/// plays no part and is left out.
pub open spec fn spec_listed(entry: ScanEntryView) -> ScanEntryView {
    if entry.is_dir {
        ScanEntryView { modified: None, ..entry }
    } else {
        entry
    }
}

/// The entries that the catalog keeps, as it lists them, in the order they
/// were given.
pub open spec fn spec_kept_entries(entries: Seq<ScanEntryView>, rules: PathRules) -> Seq<
    ScanEntryView,
>
    decreases entries.len(),
{
    if entries.len() == 0 {
        Seq::empty()
    } else if spec_kept(entries.last(), rules) {
        spec_kept_entries(entries.drop_last(), rules).push(spec_listed(entries.last()))
    } else {
        spec_kept_entries(entries.drop_last(), rules)
    }
}

/// The paths of the images among the entries, in the same order.
pub open spec fn spec_image_paths(listing: Seq<ScanEntryView>) -> Seq<Seq<char>>
    decreases listing.len(),
{
    if listing.len() == 0 {
        Seq::empty()
    } else if listing.last().is_dir {
        spec_image_paths(listing.drop_last())
    } else {
        spec_image_paths(listing.drop_last()).push(listing.last().path)
    }
}

/// Whether modification time `a` puts an image strictly before one with
/// time `b`: it is later, or it is known and `b` is not.
pub open spec fn spec_newer(a: Option<u64>, b: Option<u64>) -> bool {
    match (a, b) {
        (Some(x), Some(y)) => x > y,
        (Some(_), None) => true,
        _ => false,
    }
}

/// The display order: whether `a` must come strictly before `b`.
pub open spec fn spec_precedes(a: ScanEntryView, b: ScanEntryView) -> bool {
    if a.is_dir != b.is_dir {
        a.is_dir
    } else if a.is_dir {
        spec_path_lt(a.path, b.path)
    } else {
        spec_newer(a.modified, b.modified) || (a.modified == b.modified && spec_path_lt(
            a.path,
            b.path,
        ))
    }
}

/// Whether a listing is in display order: no entry has to come before one
/// that stands in front of it.
pub open spec fn spec_sorted(listing: Seq<ScanEntryView>) -> bool {
    forall|i: int, j: int|
        0 <= i < j < listing.len() ==> !spec_precedes(#[trigger] listing[j], #[trigger] listing[i])
}

/// Whether `listing` is the catalog of the directory entries `entries`: it
/// holds exactly the entries that are kept, each as often as it was given,
/// in display order.
pub open spec fn spec_catalog_of(
    listing: Seq<ScanEntryView>,
    entries: Seq<ScanEntryView>,
    rules: PathRules,
) -> bool {
    &&& spec_sorted(listing)
    &&& listing.to_multiset() == spec_kept_entries(entries, rules).to_multiset()
}

/// Index of the image after `current` among `count` images, going round.
pub open spec fn spec_next_index(current: int, count: int) -> int {
    (current + 1) % count
}

/// Index of the image before `current` among `count` images, going round.
pub open spec fn spec_prev_index(current: int, count: int) -> int {
    if current == 0 {
        count - 1
    } else {
        current - 1
    }
}

/// Position of the first path equal to `target`, if there is one.
pub open spec fn spec_position(paths: Seq<Seq<char>>, target: Seq<char>) -> Option<int>
    decreases paths.len(),
{
    if paths.len() == 0 {
        None
    } else {
        match spec_position(paths.drop_last(), target) {
            Some(index) => Some(index),
            None => if paths.last() == target {
                Some(paths.len() - 1)
            } else {
                None
            },
        }
    }
}

/// The display order is transitive.
pub proof fn precedes_transitive(a: ScanEntryView, b: ScanEntryView, c: ScanEntryView)
    requires
        spec_precedes(a, b),
        spec_precedes(b, c),
    ensures
        spec_precedes(a, c),
{
    crate::paths::path_lt_is_total_order(a.path, b.path, c.path);
}

/// The display order decides every pair: of two different entries of one
/// kind, one comes before the other.
pub proof fn precedes_total(a: ScanEntryView, b: ScanEntryView)
    requires
        a.is_dir == b.is_dir,
        !spec_precedes(a, b),
        !spec_precedes(b, a),
    ensures
        a.path == b.path,
        !a.is_dir ==> a.modified == b.modified,
{
    crate::paths::path_lt_is_total_order(a.path, b.path, a.path);
}

/// In a listing that is in display order, directories stand before images,
/// directories stand in ascending path order, and images stand newest first,
/// in ascending path order where their modification times are equal.
pub proof fn sorted_listing_order(listing: Seq<ScanEntryView>, i: int, j: int)
    requires
        spec_sorted(listing),
        0 <= i < j < listing.len(),
    ensures
        listing[j].is_dir ==> listing[i].is_dir,
        listing[i].is_dir && listing[j].is_dir ==> !spec_path_lt(listing[j].path, listing[i].path),
        !listing[i].is_dir && !listing[j].is_dir ==> !spec_newer(
            listing[j].modified,
            listing[i].modified,
        ),
        !listing[i].is_dir && !listing[j].is_dir && listing[i].modified == listing[j].modified
            ==> !spec_path_lt(listing[j].path, listing[i].path),
{
    assert(!spec_precedes(listing[j], listing[i]));
}

/// A path is found in the navigation list exactly when the list holds it,
/// and the position found is the first that holds it.
pub proof fn position_finds_first(paths: Seq<Seq<char>>, target: Seq<char>)
    ensures
        spec_position(paths, target) is Some <==> paths.contains(target),
        spec_position(paths, target) matches Some(index) ==> 0 <= index < paths.len()
            && paths[index] == target && forall|k: int| 0 <= k < index ==> paths[k] != target,
    decreases paths.len(),
{
    if paths.len() > 0 {
        let front = paths.drop_last();
        position_finds_first(front, target);
        match spec_position(front, target) {
            Some(index) => {
                assert(front[index] == paths[index]);
                assert forall|k: int| 0 <= k < index implies paths[k] != target by {
                    assert(front[k] == paths[k]);
                }
            },
            None => {
                assert forall|k: int| 0 <= k < paths.len() - 1 implies paths[k] != target by {
                    assert(front[k] == paths[k]);
                    assert(front.contains(front[k]));
                }
                if paths.contains(target) {
                    let at = choose|at: int| 0 <= at < paths.len() && paths[at] == target;
                    assert(at == paths.len() - 1);
                }
            },
        }
    }
}

/// Going to the next image and then to the previous one, or the other way
/// round, comes back to where it started; and the steps wrap: after the last
/// image comes the first, before the first the last.
pub proof fn navigation_wraps(current: int, count: int)
    requires
        0 <= current < count,
    ensures
        0 <= spec_next_index(current, count) < count,
        0 <= spec_prev_index(current, count) < count,
        spec_prev_index(spec_next_index(current, count), count) == current,
        spec_next_index(spec_prev_index(current, count), count) == current,
        spec_next_index(count - 1, count) == 0,
        spec_prev_index(0, count) == count - 1,
{
    if current + 1 < count {
        vstd::arithmetic::div_mod::lemma_small_mod((current + 1) as nat, count as nat);
    }
    if current > 0 {
        vstd::arithmetic::div_mod::lemma_small_mod(current as nat, count as nat);
    }
    assert(count % count == 0) by (nonlinear_arith)
        requires
            count > 0,
    ;
}

/// A listing is determined by what it holds: two listings in display order
/// that hold the same entries, each as often as the other, are the same
/// listing. So the entries found in a directory have one catalog only.
pub proof fn sorted_listing_is_unique(one: Seq<ScanEntryView>, other: Seq<ScanEntryView>)
    requires
        spec_sorted(one),
        spec_sorted(other),
        one.to_multiset() == other.to_multiset(),
        forall|i: int| 0 <= i < one.len() ==> spec_listed(#[trigger] one[i]) == one[i],
    ensures
        one == other,
    decreases one.len(),
{
    broadcast use vstd::seq_lib::group_to_multiset_ensures;

    vstd::seq_lib::to_multiset_len(one);
    vstd::seq_lib::to_multiset_len(other);
    assert(one.len() == other.len());
    if one.len() == 0 {
        assert(one =~= other);
    } else {
        let x = one[0];
        let y = other[0];
        assert(one.contains(x));
        assert(other.to_multiset().count(x) > 0);
        assert(other.contains(x));
        let j = choose|j: int| 0 <= j < other.len() && other[j] == x;
        assert(other.contains(y));
        assert(one.to_multiset().count(y) > 0);
        assert(one.contains(y));
        let i = choose|i: int| 0 <= i < one.len() && one[i] == y;
        if i > 0 {
            assert(!spec_precedes(one[i], one[0]));
        } else {
            precedes_irreflexive(x);
        }
        if j > 0 {
            assert(!spec_precedes(other[j], other[0]));
        } else {
            precedes_irreflexive(y);
        }
        assert(spec_listed(one[i]) == one[i]);
        assert(x.is_dir == y.is_dir);
        precedes_total(x, y);
        assert(x == y);
        let rest_one = one.drop_first();
        let rest_other = other.drop_first();
        assert(rest_one =~= one.remove(0));
        assert(rest_other =~= other.remove(0));
        assert(rest_one.to_multiset() =~= rest_other.to_multiset());
        assert forall|a: int, b: int| 0 <= a < b < rest_one.len() implies !spec_precedes(
            #[trigger] rest_one[b],
            #[trigger] rest_one[a],
        ) by {
            assert(rest_one[a] == one[a + 1] && rest_one[b] == one[b + 1]);
        }
        assert forall|a: int, b: int| 0 <= a < b < rest_other.len() implies !spec_precedes(
            #[trigger] rest_other[b],
            #[trigger] rest_other[a],
        ) by {
            assert(rest_other[a] == other[a + 1] && rest_other[b] == other[b + 1]);
        }
        assert forall|k: int| 0 <= k < rest_one.len() implies spec_listed(
            #[trigger] rest_one[k],
        ) == rest_one[k] by {
            assert(rest_one[k] == one[k + 1]);
        }
        sorted_listing_is_unique(rest_one, rest_other);
        assert(one =~= seq![x] + rest_one);
        assert(other =~= seq![y] + rest_other);
    }
}

/// The catalog as a mathematical value.
pub struct ImageLoaderView {
    /// Path of the directory.
    pub folder: Seq<char>,
    /// The kept entries in display order.
    pub listing: Seq<ScanEntryView>,
    /// Index of the current image in the list of images.
    pub current: int,
    /// The rules by which the extension of a path is found.
    pub rules: PathRules,
}

impl ImageLoaderView {
    /// The items of the catalog, in display order.
    pub open spec fn items(self) -> Seq<FileItemView> {
        self.listing.map_values(|entry: ScanEntryView| spec_item_of(entry))
    }

    /// The navigation list: the paths of the images, in display order.
    pub open spec fn images(self) -> Seq<Seq<char>> {
        spec_image_paths(self.listing)
    }

    /// The path of the current image, if the directory has images.
    pub open spec fn current_path(self) -> Option<Seq<char>> {
        if self.images().len() == 0 {
            None
        } else {
            Some(self.images()[self.current])
        }
    }

    /// The catalog after a step to the next image, going round. Without
    /// images nothing changes.
    pub open spec fn after_next(self) -> ImageLoaderView {
        if self.images().len() == 0 {
            self
        } else {
            ImageLoaderView {
                current: spec_next_index(self.current, self.images().len() as int),
                ..self
            }
        }
    }

    /// The catalog after a step to the previous image, going round. Without
    /// images nothing changes.
    pub open spec fn after_prev(self) -> ImageLoaderView {
        if self.images().len() == 0 {
            self
        } else {
            ImageLoaderView {
                current: spec_prev_index(self.current, self.images().len() as int),
                ..self
            }
        }
    }

    /// The catalog after the image with path `target` was made the current
    /// one. Without such an image nothing changes.
    pub open spec fn after_open(self, target: Seq<char>) -> ImageLoaderView {
        match spec_position(self.images(), target) {
            Some(index) => ImageLoaderView { current: index, ..self },
            None => self,
        }
    }

    /// What holds of every catalog: it is in display order, holds only
    /// directories and image files, as the catalog lists them, and its
    /// current index points at an image or, without images, is zero.
    pub open spec fn valid(self) -> bool {
        &&& spec_sorted(self.listing)
        &&& forall|i: int|
            0 <= i < self.listing.len() ==> spec_normal(#[trigger] self.listing[i], self.rules)
        &&& 0 <= self.current
        &&& self.current < self.images().len() || self.current == 0
    }
}

/// The catalog of a directory.
pub struct ImageLoader {
    rules: PathRules,
    folder_path: String,
    items: Vec<FileItem>,
    stamps: Vec<Option<u64>>,
    image_files: Vec<String>,
    current_index: usize,
}

impl View for ImageLoader {
    type V = ImageLoaderView;

    closed spec fn view(&self) -> ImageLoaderView {
        ImageLoaderView {
            folder: self.folder_path@,
            listing: Seq::new(
                self.items@.len(),
                |i: int|
                    ScanEntryView {
                        path: spec_item_path(self.items@[i]@),
                        is_dir: self.items@[i]@ is Directory,
                        modified: self.stamps@[i],
                    },
            ),
            current: self.current_index as int,
            rules: self.rules,
        }
    }
}

impl ImageLoader {
    /// Whether the parts of the catalog agree with one another.
    pub closed spec fn consistent(&self) -> bool {
        &&& self.stamps@.len() == self.items@.len()
        &&& self.image_files@.map_values(|path: String| path@) == self@.images()
    }

    /// Well-formedness: established by `new`, kept by every method.
    pub open spec fn wf(&self) -> bool {
        &&& self.consistent()
        &&& self@.valid()
    }

    /// The catalog of the directory `folder_path`, in which `entries` were
    /// found, with the rules by which extensions are found.
    pub fn new(folder_path: String, entries: Vec<ScanEntry>, rules: PathRules) -> (loader: Self)
        ensures
            loader.wf(),
            loader@.folder == folder_path@,
            loader@.rules == rules,
            spec_catalog_of(loader@.listing, spec_views(entries@), rules),
            loader@.current == 0,
    {
        let mut loader = ImageLoader {
            rules,
            folder_path,
            items: Vec::new(),
            stamps: Vec::new(),
            image_files: Vec::new(),
            current_index: 0,
        };
        loader.refresh(entries);
        loader
    }

    /// Rebuilds the catalog from the entries now found in the directory and
    /// makes its first image the current one.
    pub fn refresh(&mut self, entries: Vec<ScanEntry>)
        ensures
            final(self).wf(),
            final(self)@.folder == old(self)@.folder,
            final(self)@.rules == old(self)@.rules,
            spec_catalog_of(final(self)@.listing, spec_views(entries@), old(self)@.rules),
            final(self)@.current == 0,
    {
        let sorted: Vec<ScanEntry> = sort_kept(&entries, self.rules);
        let mut items: Vec<FileItem> = Vec::new();
        let mut stamps: Vec<Option<u64>> = Vec::new();
        let mut image_files: Vec<String> = Vec::new();
        let mut i: usize = 0;
        while i < sorted.len()
            invariant
                i <= sorted.len(),
                items@.len() == i,
                stamps@.len() == i,
                forall|k: int|
                    0 <= k < i ==> (#[trigger] items@[k])@ == spec_item_of(sorted@[k]@)
                        && stamps@[k] == sorted@[k].modified,
                image_files@.map_values(|path: String| path@) == spec_image_paths(
                    spec_views(sorted@).take(i as int),
                ),
            decreases sorted.len() - i,
        {
            let entry = &sorted[i];
            proof {
                let prefix = spec_views(sorted@).take(i + 1);
                assert(prefix.drop_last() =~= spec_views(sorted@).take(i as int));
                assert(prefix.last() == entry@);
            }
            if entry.is_dir {
                items.push(FileItem::Directory(entry.path.clone()));
            } else {
                let ghost before = image_files@;
                items.push(FileItem::Image(entry.path.clone()));
                image_files.push(entry.path.clone());
                assert(image_files@.map_values(|path: String| path@) =~= before.map_values(
                    |path: String| path@,
                ).push(entry.path@));
            }
            stamps.push(entry.modified);
            i = i + 1;
        }
        self.items = items;
        self.stamps = stamps;
        self.image_files = image_files;
        self.current_index = 0;
        proof {
            assert(spec_views(sorted@).take(sorted@.len() as int) =~= spec_views(sorted@));
            assert(self@.listing =~= spec_views(sorted@));
        }
    }

    /// Moves the catalog to the directory `new_path`, in which `entries`
    /// were found.
    pub fn set_path(&mut self, new_path: String, entries: Vec<ScanEntry>)
        ensures
            final(self).wf(),
            final(self)@.folder == new_path@,
            final(self)@.rules == old(self)@.rules,
            spec_catalog_of(final(self)@.listing, spec_views(entries@), old(self)@.rules),
            final(self)@.current == 0,
    {
        self.folder_path = new_path;
        self.refresh(entries);
    }

    /// Path of the directory.
    pub fn get_path(&self) -> (path: &str)
        ensures
            path@ == self@.folder,
    {
        self.folder_path.as_str()
    }

    /// The items of the catalog, in display order.
    pub fn get_items(&self) -> (items: &[FileItem])
        ensures
            items@.map_values(|item: FileItem| item@) == self@.items(),
    {
        proof {
            assert(self.items@.map_values(|item: FileItem| item@) =~= self@.items()) by {
                assert forall|i: int| 0 <= i < self.items@.len() implies self.items@[i]@
                    == spec_item_of(#[trigger] self@.listing[i]) by {}
            }
        }
        self.items.as_slice()
    }

    /// Number of items in the catalog.
    pub fn get_item_count(&self) -> (count: usize)
        ensures
            count == self@.listing.len(),
            count == self@.items().len(),
    {
        self.items.len()
    }

    /// The item at `index`, if there is one.
    pub fn get_item(&self, index: usize) -> (item: Option<&FileItem>)
        ensures
            match item {
                Some(found) => index < self@.listing.len() && found@ == self@.items()[index as int],
                None => index >= self@.listing.len(),
            },
    {
        if index < self.items.len() {
            Some(&self.items[index])
        } else {
            None
        }
    }

    /// Number of images in the directory.
    pub fn get_image_count(&self) -> (count: usize)
        requires
            self.wf(),
        ensures
            count == self@.images().len(),
    {
        proof {
            assert(self.image_files@.map_values(|path: String| path@).len()
                == self.image_files@.len());
        }
        self.image_files.len()
    }

    /// Index of the current image in the navigation list.
    pub fn get_current_index(&self) -> (index: usize)
        ensures
            index == self@.current,
    {
        self.current_index
    }

    /// Path of the current image, or nothing if the directory has no images.
    pub fn get_current_path(&self) -> (path: Option<&String>)
        requires
            self.wf(),
        ensures
            match path {
                Some(current) => self@.current_path() == Some(current@),
                None => self@.current_path() is None,
            },
    {
        proof {
            assert(self.image_files@.map_values(|path: String| path@).len()
                == self.image_files@.len());
        }
        if self.image_files.len() == 0 {
            return None;
        }
        let current = &self.image_files[self.current_index];
        proof {
            assert(self.image_files@.map_values(|path: String| path@)[self.current_index as int]
                == current@);
        }
        Some(current)
    }

    /// Makes the image after the current one the current one, going from the
    /// last to the first. Returns the new index, or nothing if the directory
    /// has no images.
    pub fn next_image(&mut self) -> (moved: Option<usize>)
        requires
            old(self).wf(),
        ensures
            final(self).wf(),
            final(self)@.folder == old(self)@.folder,
            final(self)@.listing == old(self)@.listing,
            old(self)@.images().len() == 0 ==> moved is None && final(self)@.current == old(
                self,
            )@.current,
            old(self)@.images().len() > 0 ==> moved == Some(final(self)@.current as usize)
                && final(self)@.current == spec_next_index(
                old(self)@.current,
                old(self)@.images().len() as int,
            ),
            old(self)@.images().len() > 0 && old(self)@.current == old(self)@.images().len() - 1
                ==> final(self)@.current == 0,
            final(self)@ == old(self)@.after_next(),
            moved is Some <==> old(self)@.images().len() > 0,
    {
        proof {
            assert(self.image_files@.map_values(|path: String| path@).len()
                == self.image_files@.len());
        }
        let count: usize = self.image_files.len();
        if count == 0 {
            return None;
        }
        let next: usize = if self.current_index + 1 == count {
            0
        } else {
            self.current_index + 1
        };
        proof {
            if self.current_index + 1 == count {
                assert((self.current_index + 1) % (count as int) == 0) by (nonlinear_arith)
                    requires
                        self.current_index + 1 == count,
                        count > 0,
                ;
            } else {
                vstd::arithmetic::div_mod::lemma_small_mod(
                    (self.current_index + 1) as nat,
                    count as nat,
                );
            }
        }
        self.current_index = next;
        assert(self@.listing =~= old(self)@.listing);
        Some(next)
    }

    /// Makes the image before the current one the current one, going from
    /// the first to the last. Returns the new index, or nothing if the
    /// directory has no images.
    pub fn prev_image(&mut self) -> (moved: Option<usize>)
        requires
            old(self).wf(),
        ensures
            final(self).wf(),
            final(self)@.folder == old(self)@.folder,
            final(self)@.listing == old(self)@.listing,
            old(self)@.images().len() == 0 ==> moved is None && final(self)@.current == old(
                self,
            )@.current,
            old(self)@.images().len() > 0 ==> moved == Some(final(self)@.current as usize)
                && final(self)@.current == spec_prev_index(
                old(self)@.current,
                old(self)@.images().len() as int,
            ),
            old(self)@.images().len() > 0 && old(self)@.current == 0 ==> final(self)@.current
                == old(self)@.images().len() - 1,
            final(self)@ == old(self)@.after_prev(),
            moved is Some <==> old(self)@.images().len() > 0,
    {
        proof {
            assert(self.image_files@.map_values(|path: String| path@).len()
                == self.image_files@.len());
        }
        let count: usize = self.image_files.len();
        if count == 0 {
            return None;
        }
        let previous: usize = if self.current_index == 0 {
            count - 1
        } else {
            self.current_index - 1
        };
        self.current_index = previous;
        assert(self@.listing =~= old(self)@.listing);
        Some(previous)
    }

    /// Makes the image with path `target` the current one. Returns its index
    /// in the navigation list, or nothing, with the catalog unchanged, if the
    /// directory has no such image.
    pub fn open_image(&mut self, target: &str) -> (found: Option<usize>)
        requires
            old(self).wf(),
        ensures
            final(self).wf(),
            final(self)@.folder == old(self)@.folder,
            final(self)@.listing == old(self)@.listing,
            match spec_position(old(self)@.images(), target@) {
                Some(index) => found == Some(index as usize) && final(self)@.current == index
                    && final(self)@.current_path() == Some(target@),
                None => found is None && final(self)@.current == old(self)@.current,
            },
            final(self)@ == old(self)@.after_open(target@),
            found is Some <==> spec_position(old(self)@.images(), target@) is Some,
    {
        let ghost paths = self.image_files@.map_values(|path: String| path@);
        let mut i: usize = 0;
        proof {
            assert(paths.take(0) =~= Seq::<Seq<char>>::empty());
        }
        while i < self.image_files.len()
            invariant
                i <= self.image_files@.len(),
                paths == self.image_files@.map_values(|path: String| path@),
                paths == self@.images(),
                spec_position(paths.take(i as int), target@) is None,
                self == old(self),
                self.wf(),
            decreases self.image_files@.len() - i,
        {
            proof {
                assert(paths.take(i + 1).drop_last() =~= paths.take(i as int));
                assert(paths.take(i + 1).last() == paths[i as int]);
            }
            if str_eq(self.image_files[i].as_str(), target) {
                proof {
                    lemma_position_extends(paths, i + 1, target@);
                    lemma_position_found(paths, target@);
                }
                self.current_index = i;
                assert(self@.listing =~= old(self)@.listing);
                return Some(i);
            }
            i = i + 1;
        }
        proof {
            assert(paths.take(i as int) =~= paths);
        }
        None
    }
}

/// A position found in a prefix of the paths is the position in all of them.
proof fn lemma_position_extends(paths: Seq<Seq<char>>, upto: int, target: Seq<char>)
    requires
        0 <= upto <= paths.len(),
        spec_position(paths.take(upto), target) is Some,
    ensures
        spec_position(paths, target) == spec_position(paths.take(upto), target),
    decreases paths.len() - upto,
{
    if upto < paths.len() {
        assert(paths.take(upto + 1).drop_last() =~= paths.take(upto));
        lemma_position_extends(paths, upto + 1, target);
    } else {
        assert(paths.take(upto) =~= paths);
    }
}

/// A position that is found holds the target.
proof fn lemma_position_found(paths: Seq<Seq<char>>, target: Seq<char>)
    ensures
        match spec_position(paths, target) {
            Some(index) => 0 <= index < paths.len() && paths[index] == target,
            None => forall|i: int| 0 <= i < paths.len() ==> paths[i] != target,
        },
    decreases paths.len(),
{
    if paths.len() > 0 {
        let front = paths.drop_last();
        lemma_position_found(front, target);
        match spec_position(front, target) {
            Some(index) => {
                assert(front[index] == paths[index]);
            },
            None => {
                assert forall|i: int| 0 <= i < paths.len() - 1 implies paths[i] != target by {
                    assert(front[i] == paths[i]);
                }
            },
        }
    }
}

/// The kept entries among `entries`, in display order.
fn sort_kept(entries: &Vec<ScanEntry>, rules: PathRules) -> (sorted: Vec<ScanEntry>)
    ensures
        spec_catalog_of(spec_views(sorted@), spec_views(entries@), rules),
        forall|i: int| 0 <= i < sorted@.len() ==> spec_normal(#[trigger] sorted@[i]@, rules),
{
    let mut sorted: Vec<ScanEntry> = Vec::new();
    let mut i: usize = 0;
    proof {
        assert(spec_views(entries@).take(0) =~= Seq::<ScanEntryView>::empty());
        assert(spec_views(sorted@) =~= Seq::<ScanEntryView>::empty());
    }
    while i < entries.len()
        invariant
            i <= entries.len(),
            spec_sorted(spec_views(sorted@)),
            spec_views(sorted@).to_multiset() == spec_kept_entries(
                spec_views(entries@).take(i as int),
                rules,
            ).to_multiset(),
            forall|k: int| 0 <= k < sorted@.len() ==> spec_normal(#[trigger] sorted@[k]@, rules),
        decreases entries.len() - i,
    {
        let entry = &entries[i];
        proof {
            let prefix = spec_views(entries@).take(i + 1);
            assert(prefix.drop_last() =~= spec_views(entries@).take(i as int));
            assert(prefix.last() == entry@);
        }
        if entry.is_dir || is_image_file(entry.path.as_str(), rules) {
            let ghost before = sorted@;
            let kept = ScanEntry {
                path: entry.path.clone(),
                is_dir: entry.is_dir,
                modified: if entry.is_dir {
                    None
                } else {
                    entry.modified
                },
            };
            let ghost listed = kept@;
            assert(listed == spec_listed(entry@));
            insert_sorted(&mut sorted, kept);
            proof {
                vstd::seq_lib::to_multiset_build(
                    spec_kept_entries(spec_views(entries@).take(i as int), rules),
                    listed,
                );
                assert forall|k: int| 0 <= k < spec_views(before).len() implies spec_normal(
                    #[trigger] spec_views(before)[k],
                    rules,
                ) by {
                    assert(spec_views(before)[k] == before[k]@);
                }
                lemma_kept_after_insert(spec_views(before), spec_views(sorted@), listed, rules);
                assert forall|k: int| 0 <= k < sorted@.len() implies spec_normal(
                    #[trigger] sorted@[k]@,
                    rules,
                ) by {
                    assert(spec_views(sorted@)[k] == sorted@[k]@);
                }
            }
        }
        i = i + 1;
    }
    proof {
        assert(spec_views(entries@).take(i as int) =~= spec_views(entries@));
    }
    sorted
}

/// Whether an entry is one that the catalog keeps, as the catalog lists it.
pub open spec fn spec_normal(entry: ScanEntryView, rules: PathRules) -> bool {
    spec_kept(entry, rules) && spec_listed(entry) == entry
}

/// Adding a kept entry to a listing of kept entries leaves only kept entries.
proof fn lemma_kept_after_insert(
    before: Seq<ScanEntryView>,
    after: Seq<ScanEntryView>,
    entry: ScanEntryView,
    rules: PathRules,
)
    requires
        forall|k: int| 0 <= k < before.len() ==> spec_normal(#[trigger] before[k], rules),
        spec_normal(entry, rules),
        after.to_multiset() == before.to_multiset().insert(entry),
    ensures
        forall|k: int| 0 <= k < after.len() ==> spec_normal(#[trigger] after[k], rules),
{
    broadcast use vstd::seq_lib::group_to_multiset_ensures;

    assert forall|k: int| 0 <= k < after.len() implies spec_normal(#[trigger] after[k], rules) by {
        assert(after.contains(after[k]));
        assert(after.to_multiset().count(after[k]) > 0);
        if after[k] != entry {
            assert(before.to_multiset().count(after[k]) > 0);
            assert(before.contains(after[k]));
        }
    }
}

/// The views of a vector of entries.
pub open spec fn spec_views(entries: Seq<ScanEntry>) -> Seq<ScanEntryView> {
    entries.map_values(|entry: ScanEntry| entry@)
}

/// Whether entry `a` must come strictly before entry `b` in display order.
pub fn precedes(a: &ScanEntry, b: &ScanEntry) -> (before: bool)
    ensures
        before == spec_precedes(a@, b@),
{
    if a.is_dir != b.is_dir {
        a.is_dir
    } else if a.is_dir {
        path_lt(a.path.as_str(), b.path.as_str())
    } else {
        match (a.modified, b.modified) {
            (Some(x), Some(y)) => x > y || (x == y && path_lt(a.path.as_str(), b.path.as_str())),
            (Some(_), None) => true,
            (None, Some(_)) => false,
            (None, None) => path_lt(a.path.as_str(), b.path.as_str()),
        }
    }
}

/// Puts `entry` into a listing that is in display order, at the place that
/// keeps it so.
fn insert_sorted(sorted: &mut Vec<ScanEntry>, entry: ScanEntry)
    requires
        spec_sorted(spec_views(old(sorted)@)),
    ensures
        spec_sorted(spec_views(final(sorted)@)),
        spec_views(final(sorted)@).to_multiset() == spec_views(old(sorted)@).to_multiset().insert(
            entry@,
        ),
{
    let mut at: usize = 0;
    while at < sorted.len() && !precedes(&entry, &sorted[at])
        invariant
            at <= sorted.len(),
            sorted@ == old(sorted)@,
            forall|k: int| 0 <= k < at ==> !spec_precedes(entry@, #[trigger] sorted@[k]@),
        decreases sorted.len() - at,
    {
        at = at + 1;
    }
    let ghost before = spec_views(sorted@);
    sorted.insert(at, entry);
    proof {
        let after = spec_views(sorted@);
        assert(after =~= before.insert(at as int, entry@));
        vstd::seq_lib::to_multiset_insert(before, at as int, entry@);
        assert forall|i: int, j: int| 0 <= i < j < after.len() implies !spec_precedes(
            #[trigger] after[j],
            #[trigger] after[i],
        ) by {
            if j == at {
                assert(after[i] == before[i]);
            } else if i == at {
                assert(after[j] == before[j - 1]);
                assert(spec_precedes(entry@, before[at as int]));
                if j - 1 > at {
                    assert(!spec_precedes(before[j - 1], before[at as int]));
                }
                if spec_precedes(after[j], entry@) {
                    precedes_transitive(after[j], entry@, before[at as int]);
                    precedes_irreflexive(before[at as int]);
                }
            } else {
                let from_i = if i < at { i } else { i - 1 };
                let from_j = if j < at { j } else { j - 1 };
                assert(after[i] == before[from_i]);
                assert(after[j] == before[from_j]);
            }
        }
    }
}

/// No entry comes before itself.
pub proof fn precedes_irreflexive(a: ScanEntryView)
    ensures
        !spec_precedes(a, a),
{
    crate::paths::path_lt_is_total_order(a.path, a.path, a.path);
}

} // verus!
