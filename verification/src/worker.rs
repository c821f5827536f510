//! The work queue of the thumbnail worker.
//!
//! The worker makes one thumbnail at a time. Requests arrive in batches and
//! wait in the queue; a hint tells which logical indices are on screen. Of
//! the waiting requests the worker takes one whose index is on screen if
//! there is any, and among those, or among the others if none is on screen,
//! the one with the lowest index. Where several agree in both, the one that
//! arrived first is taken. This is the head of the queue sorted by priority,
//! with requests of equal priority left in their order of arrival.
//!
//! Nothing is cancelled and nothing is merged: a request that was made twice
//! is served twice, and a request that was made for a directory that is no
//! longer shown is still served.
//!
//! A request for a directory is answered with a stand-in and never touches
//! the cache. A request for an image is answered from the cache if the cache
//! holds a thumbnail for its path; if not, the thumbnail is made from the
//! file and handed back together with the record to put into the cache.

use vstd::prelude::*;
use crate::cache::{
    spec_stored_thumbnail, spec_thumbnail_record, stored_thumbnail, thumbnail_record,
};
use crate::paths::PathRules;
use crate::pixels::{
    directory_thumbnail, spec_decodes_to, spec_directory_thumbnail, spec_file_size,
    spec_font_contents, spec_scalable_size, spec_thumbnail_of, thumbnail_from_file, Font,
    ImageView, PixelBuffer, THUMBNAIL_SIZE,
};

verus! {

/// A request for the thumbnail of one catalog item.
#[derive(Debug, PartialEq, Eq)]
pub struct LoaderRequest {
    /// Path of the item.
    pub path: String,
    /// Logical index of the item in the grid.
    pub index: usize,
    /// Whether the item is a directory.
    pub is_directory: bool,
}

/// A request as a mathematical value.
pub struct LoaderRequestView {
    pub path: Seq<char>,
    pub index: usize,
    pub is_directory: bool,
}

impl View for LoaderRequest {
    type V = LoaderRequestView;

    open spec fn view(&self) -> LoaderRequestView {
        LoaderRequestView { path: self.path@, index: self.index, is_directory: self.is_directory }
    }
}

/// The thumbnail made for one request.
#[derive(Debug, PartialEq, Eq)]
pub struct LoaderResponse {
    /// Logical index of the item, as given in the request.
    pub index: usize,
    /// The thumbnail.
    pub image: PixelBuffer,
}

/// The views of a sequence of requests.
pub open spec fn spec_request_views(requests: Seq<LoaderRequest>) -> Seq<LoaderRequestView> {
    requests.map_values(|request: LoaderRequest| request@)
}

/// Whether the hint `visible` says that `index` is on screen: the hint is
/// the range from its first number up to, and without, its second.
pub open spec fn spec_on_screen(visible: (u128, u128), index: usize) -> bool {
    visible.0 <= index < visible.1
}

/// Whether request `a` has priority over request `b`: it is on screen and
/// `b` is not, or both are alike in that and `a` has the lower index.
pub open spec fn spec_outranks(
    a: LoaderRequestView,
    b: LoaderRequestView,
    visible: (u128, u128),
) -> bool {
    if spec_on_screen(visible, a.index) != spec_on_screen(visible, b.index) {
        spec_on_screen(visible, a.index)
    } else {
        a.index < b.index
    }
}

/// Position in the queue of the request that is served next: the first one
/// that no other request outranks. Zero for an empty queue.
pub open spec fn spec_next_position(pending: Seq<LoaderRequestView>, visible: (u128, u128)) -> int
    decreases pending.len(),
{
    if pending.len() <= 1 {
        0
    } else {
        let best = spec_next_position(pending.drop_last(), visible);
        if spec_outranks(pending.last(), pending[best], visible) {
            pending.len() - 1
        } else {
            best
        }
    }
}

/// The order in which the waiting requests are served if nothing arrives and
/// the hint stays as it is: the request that is served next, then what
/// follows in the same way from the rest.
pub open spec fn spec_service_order(pending: Seq<LoaderRequestView>, visible: (u128, u128)) -> Seq<
    LoaderRequestView,
>
    decreases pending.len(),
{
    if pending.len() == 0 {
        Seq::empty()
    } else {
        let next = spec_next_position(pending, visible);
        if 0 <= next < pending.len() {
            seq![pending[next]] + spec_service_order(pending.remove(next), visible)
        } else {
            Seq::empty()
        }
    }
}

/// The state of the worker: the requests that wait, and the latest hint.
pub struct ThumbnailQueue {
    pending: Vec<LoaderRequest>,
    visible: (u128, u128),
}

/// The state of the worker as a mathematical value.
pub struct ThumbnailQueueView {
    /// The waiting requests, in their order of arrival.
    pub pending: Seq<LoaderRequestView>,
    /// The latest hint.
    pub visible: (u128, u128),
}

impl View for ThumbnailQueue {
    type V = ThumbnailQueueView;

    closed spec fn view(&self) -> ThumbnailQueueView {
        ThumbnailQueueView { pending: spec_request_views(self.pending@), visible: self.visible }
    }
}

/// Whether request `a` has priority over request `b`.
fn outranks(a: &LoaderRequest, b: &LoaderRequest, visible: (u128, u128)) -> (higher: bool)
    ensures
        higher == spec_outranks(a@, b@, visible),
{
    let a_seen: bool = visible.0 <= a.index as u128 && (a.index as u128) < visible.1;
    let b_seen: bool = visible.0 <= b.index as u128 && (b.index as u128) < visible.1;
    if a_seen != b_seen {
        a_seen
    } else {
        a.index < b.index
    }
}

impl ThumbnailQueue {
    /// A worker with nothing to do and nothing on screen.
    pub fn new() -> (queue: Self)
        ensures
            queue@.pending == Seq::<LoaderRequestView>::empty(),
            queue@.visible == (0u128, 0u128),
    {
        let queue = ThumbnailQueue { pending: Vec::new(), visible: (0, 0) };
        assert(queue@.pending =~= Seq::<LoaderRequestView>::empty());
        queue
    }

    /// Takes a batch of requests: they wait behind those that wait already.
    pub fn submit(&mut self, batch: Vec<LoaderRequest>)
        ensures
            final(self)@.pending == old(self)@.pending + spec_request_views(batch@),
            final(self)@.visible == old(self)@.visible,
    {
        let ghost arrived = batch@;
        let mut batch = batch;
        self.pending.append(&mut batch);
        assert(spec_request_views(self.pending@) =~= spec_request_views(old(self).pending@)
            + spec_request_views(arrived));
    }

    /// Takes a new hint, which replaces the one before.
    pub fn set_visible(&mut self, visible: (u128, u128))
        ensures
            final(self)@.pending == old(self)@.pending,
            final(self)@.visible == visible,
    {
        self.visible = visible;
    }

    /// Number of requests that wait.
    pub fn pending_len(&self) -> (count: usize)
        ensures
            count == self@.pending.len(),
    {
        self.pending.len()
    }

    /// Takes the request to serve next out of the queue. Returns nothing,
    /// and changes nothing, if no request waits: the worker then rests for
    /// a moment and looks again.
    pub fn next_request(&mut self) -> (request: Option<LoaderRequest>)
        ensures
            final(self)@.visible == old(self)@.visible,
            match request {
                Some(taken) => old(self)@.pending.len() > 0 && taken@ == old(self)@.pending[spec_next_position(
                    old(self)@.pending,
                    old(self)@.visible,
                )] && final(self)@.pending == old(self)@.pending.remove(
                    spec_next_position(old(self)@.pending, old(self)@.visible),
                ),
                None => old(self)@.pending.len() == 0 && final(self)@.pending == old(
                    self,
                )@.pending,
            },
            request is Some ==> 0 <= spec_next_position(old(self)@.pending, old(self)@.visible)
                < old(self)@.pending.len(),
            request is Some ==> spec_service_order(old(self)@.pending, old(self)@.visible)
                == seq![request->0@] + spec_service_order(
                final(self)@.pending,
                final(self)@.visible,
            ),
            forall|other: int|
                request is Some && 0 <= other < old(self)@.pending.len() ==> !spec_outranks(
                    #[trigger] old(self)@.pending[other],
                    request->0@,
                    old(self)@.visible,
                ),
            forall|other: int|
                request is Some && 0 <= other < spec_next_position(
                    old(self)@.pending,
                    old(self)@.visible,
                ) ==> spec_outranks(
                    request->0@,
                    #[trigger] old(self)@.pending[other],
                    old(self)@.visible,
                ),
    {
        if self.pending.len() == 0 {
            return None;
        }
        proof {
            let pending = self@.pending;
            let visible = self@.visible;
            assert forall|other: int| 0 <= other < pending.len() implies !spec_outranks(
                #[trigger] pending[other],
                pending[spec_next_position(pending, visible)],
                visible,
            ) && (other < spec_next_position(pending, visible) ==> spec_outranks(
                pending[spec_next_position(pending, visible)],
                pending[other],
                visible,
            )) by {
                next_request_is_first_of_highest_rank(pending, visible, other);
            }
            next_request_is_first_of_highest_rank(pending, visible, 0);
        }
        let ghost views = spec_request_views(self.pending@);
        let mut best: usize = 0;
        let mut i: usize = 1;
        proof {
            assert(views.take(1).len() == 1);
        }
        while i < self.pending.len()
            invariant
                1 <= i <= self.pending@.len(),
                best < i,
                views == spec_request_views(self.pending@),
                best == spec_next_position(views.take(i as int), self.visible),
                self == old(self),
            decreases self.pending@.len() - i,
        {
            proof {
                assert(views.take(i + 1).drop_last() =~= views.take(i as int));
                assert(views.take(i + 1).last() == self.pending@[i as int]@);
                assert(views.take(i + 1)[best as int] == self.pending@[best as int]@);
            }
            if outranks(&self.pending[i], &self.pending[best], self.visible) {
                best = i;
            }
            i = i + 1;
        }
        proof {
            assert(views.take(i as int) =~= views);
        }
        let taken = self.pending.remove(best);
        assert(spec_request_views(self.pending@) =~= views.remove(best as int));
        Some(taken)
    }
}

/// What the worker does next.
#[derive(Debug, PartialEq, Eq)]
pub enum Job {
    /// No request waits: rest for a moment and look again.
    Rest,
    /// Answer this request for a directory with its stand-in, without
    /// looking into the cache.
    StandIn(LoaderRequest),
    /// Answer this request for an image from the cache or, if the cache has
    /// nothing for it, from the file.
    Thumbnail(LoaderRequest),
}

impl ThumbnailQueue {
    /// Takes the request to serve next out of the queue and says what is to
    /// be done for it.
    pub fn next_job(&mut self) -> (job: Job)
        ensures
            final(self)@.visible == old(self)@.visible,
            match job {
                Job::Rest => old(self)@.pending.len() == 0 && final(self)@ == old(self)@,
                Job::StandIn(request) => request.is_directory && spec_takes(
                    old(self)@,
                    request@,
                    final(self)@,
                ),
                Job::Thumbnail(request) => !request.is_directory && spec_takes(
                    old(self)@,
                    request@,
                    final(self)@,
                ),
            },
    {
        match self.next_request() {
            Some(request) => if request.is_directory {
                Job::StandIn(request)
            } else {
                Job::Thumbnail(request)
            },
            None => Job::Rest,
        }
    }
}

/// Whether taking the request that is served next out of the queue `before`
/// gives `request` and leaves the queue `after`.
pub open spec fn spec_takes(
    before: ThumbnailQueueView,
    request: LoaderRequestView,
    after: ThumbnailQueueView,
) -> bool {
    &&& before.pending.len() > 0
    &&& request == before.pending[spec_next_position(before.pending, before.visible)]
    &&& after.pending == before.pending.remove(
        spec_next_position(before.pending, before.visible),
    )
    &&& after.visible == before.visible
}

/// A thumbnail that was made from a file, with what is to be stored for it.
#[derive(Debug, PartialEq, Eq)]
pub struct FreshThumbnail {
    /// The answer to the request.
    pub response: LoaderResponse,
    /// The bytes to put into the cache under the path of the request.
    pub record: Option<Vec<u8>>,
}

/// The answer to a request for a directory: under the index of the
/// request, its stand-in, with the label written on it if a font is at
/// hand.
pub fn directory_response(request: &LoaderRequest, label: &str, font: Option<&Font>) -> (response:
    LoaderResponse)
    ensures
        response.index == request.index,
        response.image@ == spec_directory_thumbnail(label@, spec_font_contents(font)),
        response.image.width == THUMBNAIL_SIZE,
        response.image.height == THUMBNAIL_SIZE,
        response.image@.wf(),
{
    LoaderResponse { index: request.index, image: directory_thumbnail(label, font) }
}

/// The answer to a request for an image for whose path the cache holds the
/// bytes `stored`: the thumbnail that they stand for, or nothing if they
/// stand for none, in which case the thumbnail has to be made.
pub fn cached_response(request: &LoaderRequest, stored: &[u8]) -> (response: Option<
    LoaderResponse,
>)
    ensures
        match response {
            Some(hit) => hit.index == request.index && spec_stored_thumbnail(stored@) == Some(
                hit.image@,
            ) && hit.image@.wf(),
            None => spec_stored_thumbnail(stored@) is None,
        },
{
    match stored_thumbnail(stored) {
        Some(image) => Some(LoaderResponse { index: request.index, image }),
        None => None,
    }
}

/// What the worker does for a request for an image once it has looked into
/// the cache.
#[derive(Debug, PartialEq, Eq)]
pub enum CacheStep {
    /// The cache held the thumbnail: answer with it, and leave the file
    /// alone.
    Answer(LoaderResponse),
    /// The cache held nothing for the path, or nothing that stands for a
    /// thumbnail: read the file, make the thumbnail and store it.
    ReadFile,
}

/// The step that follows the look into the cache, which held `stored` for
/// the path of the request, or nothing: the cache comes first, and the file
/// is read only on a miss.
pub fn cache_step(request: &LoaderRequest, stored: Option<Vec<u8>>) -> (step: CacheStep)
    ensures
        match step {
            CacheStep::Answer(hit) => hit.index == request.index && hit.image@.wf() && (
            stored matches Some(bytes) && spec_stored_thumbnail(bytes@) == Some(hit.image@)),
            CacheStep::ReadFile => stored matches Some(bytes) ==> spec_stored_thumbnail(bytes@)
                is None,
        },
{
    match stored {
        Some(bytes) => match cached_response(request, bytes.as_slice()) {
            Some(hit) => CacheStep::Answer(hit),
            None => CacheStep::ReadFile,
        },
        None => CacheStep::ReadFile,
    }
}

/// The answer to a request for an image that the cache does not hold, made
/// from the contents `file` of the image file: the thumbnail of the image
/// that the contents decode to, under the index of the request, and the
/// record to put into the cache. Nothing if the file does not give a
/// thumbnail, because its extension names no format, its contents do not
/// decode or its image cannot be scaled; the request then goes unanswered.
pub fn fresh_response(request: &LoaderRequest, file: &[u8], rules: PathRules) -> (made: Option<
    FreshThumbnail,
>)
    ensures
        made is Some <==> (spec_file_size(file@, request.path@, rules) matches Some(size)
            && spec_scalable_size(size.0, size.1)),
        made matches Some(fresh) ==> fresh.response.index == request.index
            && fresh.response.image.width == THUMBNAIL_SIZE && fresh.response.image.height
            == THUMBNAIL_SIZE && fresh.response.image@.wf() && (fresh.record matches Some(bytes)
            && bytes@ == spec_thumbnail_record(fresh.response.image@)) && exists|
            decoded: ImageView,
        |
            #[trigger] spec_decodes_to(file@, request.path@, rules, decoded) && spec_thumbnail_of(
                decoded,
            ) == Some(fresh.response.image@),
{
    match thumbnail_from_file(file, request.path.as_str(), rules) {
        Some(image) => {
            let record = thumbnail_record(&image);
            Some(FreshThumbnail { response: LoaderResponse { index: request.index, image }, record })
        },
        None => None,
    }
}

/// A thumbnail that was made and stored is found in the cache the next
/// time, with the same pixels: what `fresh_response` hands out as record,
/// `cached_response` takes as a hit.
pub proof fn stored_thumbnail_is_a_hit(thumbnail: ImageView)
    requires
        thumbnail.width == THUMBNAIL_SIZE,
        thumbnail.height == THUMBNAIL_SIZE,
        thumbnail.wf(),
    ensures
        spec_stored_thumbnail(spec_thumbnail_record(thumbnail)) == Some(thumbnail),
{
    crate::cache::thumbnail_round_trip(thumbnail);
}

/// The request that is served next is one that no waiting request outranks,
/// and it outranks every such request that arrived before it.
pub proof fn next_request_is_first_of_highest_rank(
    pending: Seq<LoaderRequestView>,
    visible: (u128, u128),
    other: int,
)
    requires
        0 <= other < pending.len(),
    ensures
        0 <= spec_next_position(pending, visible) < pending.len(),
        !spec_outranks(pending[other], pending[spec_next_position(pending, visible)], visible),
        other < spec_next_position(pending, visible) ==> spec_outranks(
            pending[spec_next_position(pending, visible)],
            pending[other],
            visible,
        ),
    decreases pending.len(),
{
    if pending.len() > 1 {
        let front = pending.drop_last();
        let best = spec_next_position(front, visible);
        next_request_is_first_of_highest_rank(front, visible, 0);
        assert(front[best] == pending[best]);
        if other < pending.len() - 1 {
            next_request_is_first_of_highest_rank(front, visible, other);
            assert(front[other] == pending[other]);
        }
    }
}

/// Every waiting request is served, and served once: the order of service
/// holds the waiting requests, each as often as it waits.
pub proof fn service_order_is_permutation(pending: Seq<LoaderRequestView>, visible: (u128, u128))
    ensures
        spec_service_order(pending, visible).to_multiset() == pending.to_multiset(),
        spec_service_order(pending, visible).len() == pending.len(),
    decreases pending.len(),
{
    broadcast use vstd::seq_lib::group_to_multiset_ensures;

    let order = spec_service_order(pending, visible);
    if pending.len() == 0 {
        assert(order =~= pending);
    } else {
        next_request_is_first_of_highest_rank(pending, visible, 0);
        let next = spec_next_position(pending, visible);
        let rest = pending.remove(next);
        service_order_is_permutation(rest, visible);
        let tail = spec_service_order(rest, visible);
        assert(order == seq![pending[next]] + tail);
        assert(order =~= tail.insert(0, pending[next]));
        vstd::seq_lib::to_multiset_insert(tail, 0, pending[next]);
        vstd::seq_lib::to_multiset_remove(pending, next);
        assert(order.to_multiset() =~= pending.to_multiset());
    }
    vstd::seq_lib::to_multiset_len(order);
    vstd::seq_lib::to_multiset_len(pending);
}

/// Requests are served in the order of their rank: no request is served
/// before one that outranks it. So every request that is on screen is
/// served before every request that is not, whichever arrived first, and
/// among the requests of either kind those with lower index come first.
pub proof fn service_order_follows_rank(
    pending: Seq<LoaderRequestView>,
    visible: (u128, u128),
    earlier: int,
    later: int,
)
    requires
        0 <= earlier < later < pending.len(),
    ensures
        !spec_outranks(
            spec_service_order(pending, visible)[later],
            spec_service_order(pending, visible)[earlier],
            visible,
        ),
        !(spec_on_screen(visible, spec_service_order(pending, visible)[later].index)
            && !spec_on_screen(visible, spec_service_order(pending, visible)[earlier].index)),
    decreases pending.len(),
{
    broadcast use vstd::seq_lib::group_to_multiset_ensures;

    next_request_is_first_of_highest_rank(pending, visible, 0);
    let next = spec_next_position(pending, visible);
    let rest = pending.remove(next);
    let tail = spec_service_order(rest, visible);
    let order = spec_service_order(pending, visible);
    service_order_is_permutation(rest, visible);
    assert(order == seq![pending[next]] + tail);
    assert(order[later] == tail[later - 1]);
    if earlier == 0 {
        let served = tail[later - 1];
        assert(tail.contains(served));
        assert(tail.to_multiset().count(served) > 0);
        assert(rest.contains(served));
        let at = choose|at: int| 0 <= at < rest.len() && rest[at] == served;
        let from = if at < next {
            at
        } else {
            at + 1
        };
        assert(rest[at] == pending[from]);
        next_request_is_first_of_highest_rank(pending, visible, from);
    } else {
        assert(order[earlier] == tail[earlier - 1]);
        service_order_follows_rank(rest, visible, earlier - 1, later - 1);
    }
}

/// A request that is on screen is served before one that is not, whichever
/// arrived first: while a request that is on screen waits, no request that
/// is off screen is the next to be served.
pub proof fn on_screen_is_served_first(
    pending: Seq<LoaderRequestView>,
    visible: (u128, u128),
    seen: int,
    unseen: int,
)
    requires
        0 <= seen < pending.len(),
        0 <= unseen < pending.len(),
        spec_on_screen(visible, pending[seen].index),
        !spec_on_screen(visible, pending[unseen].index),
    ensures
        spec_next_position(pending, visible) != unseen,
        spec_on_screen(visible, pending[spec_next_position(pending, visible)].index),
{
    next_request_is_first_of_highest_rank(pending, visible, seen);
}

} // verus!
