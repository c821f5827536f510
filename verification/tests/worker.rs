use fastview::paths::PathRules;
use fastview::pixels::{placeholder, PixelBuffer};
use fastview::worker::{
    cache_step, cached_response, directory_response, fresh_response, CacheStep, Job,
    LoaderRequest, ThumbnailQueue,
};

fn request(index: usize) -> LoaderRequest {
    LoaderRequest { path: format!("/p/{}.png", index), index, is_directory: false }
}

fn drain(queue: &mut ThumbnailQueue) -> Vec<usize> {
    let mut served = Vec::new();
    while let Some(request) = queue.next_request() {
        served.push(request.index);
    }
    served
}

#[test]
fn empty_queue_has_nothing_to_serve() {
    let mut queue = ThumbnailQueue::new();
    assert_eq!(queue.pending_len(), 0);
    assert_eq!(queue.next_request(), None);
    queue.submit(Vec::new());
    assert_eq!(queue.next_request(), None);
}

#[test]
fn visible_request_is_served_before_invisible_one() {
    let mut queue = ThumbnailQueue::new();
    queue.set_visible((10, 20));
    queue.submit(vec![request(15), request(3)]);
    assert_eq!(queue.next_request(), Some(request(15)));
    assert_eq!(queue.next_request(), Some(request(3)));
    assert_eq!(queue.next_request(), None);
}

#[test]
fn visible_request_is_served_first_when_submitted_last() {
    let mut queue = ThumbnailQueue::new();
    queue.set_visible((10, 20));
    queue.submit(vec![request(3)]);
    queue.submit(vec![request(15)]);
    assert_eq!(queue.next_request().unwrap().index, 15);
    assert_eq!(queue.next_request().unwrap().index, 3);
}

#[test]
fn requests_are_served_by_index_within_each_group() {
    let mut queue = ThumbnailQueue::new();
    queue.set_visible((4, 8));
    queue.submit(vec![request(9), request(7), request(0), request(5), request(2), request(4)]);
    assert_eq!(drain(&mut queue), vec![4, 5, 7, 0, 2, 9]);
}

#[test]
fn without_hint_requests_are_served_by_index() {
    let mut queue = ThumbnailQueue::new();
    queue.submit(vec![request(2), request(0), request(1)]);
    assert_eq!(drain(&mut queue), vec![0, 1, 2]);
}

#[test]
fn hint_bounds_are_first_included_and_last_excluded() {
    let mut queue = ThumbnailQueue::new();
    queue.set_visible((5, 6));
    queue.submit(vec![request(4), request(6), request(5)]);
    assert_eq!(drain(&mut queue), vec![5, 4, 6]);
}

#[test]
fn latest_hint_replaces_earlier_ones() {
    let mut queue = ThumbnailQueue::new();
    queue.submit(vec![request(1), request(30), request(50)]);
    queue.set_visible((25, 35));
    queue.set_visible((45, 55));
    assert_eq!(queue.next_request().unwrap().index, 50);
    queue.set_visible((0, 0));
    assert_eq!(queue.next_request().unwrap().index, 1);
    assert_eq!(queue.next_request().unwrap().index, 30);
}

#[test]
fn duplicate_requests_are_served_twice_in_arrival_order() {
    let mut queue = ThumbnailQueue::new();
    let first = LoaderRequest { path: "/old/a.png".to_string(), index: 1, is_directory: false };
    let second = LoaderRequest { path: "/new/sub".to_string(), index: 1, is_directory: true };
    queue.submit(vec![request(2), first]);
    queue.submit(vec![second, request(0)]);
    assert_eq!(queue.pending_len(), 4);
    assert_eq!(queue.next_request().unwrap().index, 0);
    assert_eq!(queue.next_request().unwrap().path, "/old/a.png");
    let again = queue.next_request().unwrap();
    assert_eq!(again.path, "/new/sub");
    assert!(again.is_directory);
    assert_eq!(queue.next_request().unwrap().index, 2);
    assert_eq!(queue.pending_len(), 0);
}

#[test]
fn requests_arriving_later_join_the_ranking() {
    let mut queue = ThumbnailQueue::new();
    queue.set_visible((100, 200));
    queue.submit(vec![request(7), request(9)]);
    assert_eq!(queue.next_request().unwrap().index, 7);
    queue.submit(vec![request(150), request(1)]);
    assert_eq!(drain(&mut queue), vec![150, 1, 9]);
}

fn slash() -> PathRules {
    PathRules { slash: true, backslash: false }
}

fn png(width: u32, height: u32, color: [u8; 4]) -> Vec<u8> {
    let buffer = image::RgbaImage::from_pixel(width, height, image::Rgba(color));
    let mut bytes = Vec::new();
    image::DynamicImage::ImageRgba8(buffer)
        .write_to(&mut std::io::Cursor::new(&mut bytes), image::ImageFormat::Png)
        .unwrap();
    bytes
}

#[test]
fn directory_request_gets_the_stand_in() {
    let request = LoaderRequest { path: "/p/sub".to_string(), index: 7, is_directory: true };
    let response = directory_response(&request, "sub", None);
    assert_eq!(response.index, 7);
    assert_eq!(response.image, placeholder());
}

#[test]
fn fresh_thumbnail_comes_with_its_record() {
    let fresh = fresh_response(&request(3), &png(40, 20, [9, 8, 7, 255]), slash()).unwrap();
    assert_eq!(fresh.response.index, 3);
    assert_eq!(fresh.response.image.dimensions(), (256, 256));
    assert_eq!(&fresh.response.image.data[..4], &[9, 8, 7, 255]);
    let record = fresh.record.unwrap();
    assert_eq!(record.len(), 24 + 262144);
    assert_eq!(&record[..24], &[0, 0, 0, 0, 0, 0, 0, 0, 0, 0, 0, 0, 0, 0, 0, 0, 0, 0, 4, 0, 0, 0, 0, 0]);
    assert_eq!(&record[24..], &fresh.response.image.data[..]);
}

#[test]
fn stored_record_is_a_cache_hit_with_the_same_pixels() {
    let fresh = fresh_response(&request(3), &png(40, 20, [9, 8, 7, 255]), slash()).unwrap();
    let record = fresh.record.unwrap();
    let hit = cached_response(&request(5), &record).unwrap();
    assert_eq!(hit.index, 5);
    assert_eq!(hit.image, fresh.response.image);
}

#[test]
fn unreadable_cache_bytes_are_a_miss() {
    assert_eq!(cached_response(&request(1), &[]), None);
    assert_eq!(cached_response(&request(1), b"something else entirely"), None);
    let short = fastview::cache::CacheEntry { mtime: 0, size: 0, thumbnail_data: vec![1, 2, 3, 4] };
    assert_eq!(cached_response(&request(1), &short.to_bytes().unwrap()), None);
}

#[test]
fn cache_comes_first_and_the_file_on_a_miss() {
    assert_eq!(cache_step(&request(2), None), CacheStep::ReadFile);
    assert_eq!(cache_step(&request(2), Some(Vec::new())), CacheStep::ReadFile);
    assert_eq!(cache_step(&request(2), Some(b"something else".to_vec())), CacheStep::ReadFile);
    let short = fastview::cache::CacheEntry { mtime: 0, size: 0, thumbnail_data: vec![1, 2, 3, 4] };
    assert_eq!(cache_step(&request(2), short.to_bytes()), CacheStep::ReadFile);
    let fresh = fresh_response(&request(3), &png(40, 20, [9, 8, 7, 255]), slash()).unwrap();
    match cache_step(&request(8), fresh.record) {
        CacheStep::Answer(hit) => {
            assert_eq!(hit.index, 8);
            assert_eq!(hit.image, fresh.response.image);
        }
        CacheStep::ReadFile => panic!("a stored thumbnail is a hit"),
    }
}

#[test]
fn file_that_is_no_image_gets_no_answer() {
    assert_eq!(fresh_response(&request(1), b"not a png", slash()), None);
    assert_eq!(fresh_response(&request(1), &[], slash()), None);
    let other = LoaderRequest { path: "/p/notes.txt".to_string(), index: 1, is_directory: false };
    assert_eq!(fresh_response(&other, &png(4, 4, [0, 0, 0, 255]), slash()), None);
    let hidden = LoaderRequest { path: "/p/.png".to_string(), index: 1, is_directory: false };
    assert_eq!(fresh_response(&hidden, &png(4, 4, [0, 0, 0, 255]), slash()), None);
}

#[test]
fn elongated_image_gets_a_thumbnail() {
    let strip = PixelBuffer::filled(300, 1, (4, 5, 6, 255)).unwrap();
    let buffer = image::RgbaImage::from_raw(300, 1, strip.data).unwrap();
    let mut bytes = Vec::new();
    image::DynamicImage::ImageRgba8(buffer)
        .write_to(&mut std::io::Cursor::new(&mut bytes), image::ImageFormat::Png)
        .unwrap();
    let fresh = fresh_response(&request(1), &bytes, slash()).unwrap();
    assert_eq!(fresh.response.index, 1);
    assert_eq!(fresh.response.image.dimensions(), (256, 256));
    assert_eq!(&fresh.response.image.data[..4], &[4, 5, 6, 255]);
    assert_eq!(fresh.record.unwrap().len(), 24 + 262144);
}

#[test]
fn service_order_is_that_of_a_stable_sort_by_rank() {
    let mut seed: u64 = 12345;
    let mut next = move || {
        seed = seed.wrapping_mul(6364136223846793005).wrapping_add(1442695040888963407);
        (seed >> 33) as usize
    };
    let mut queue = ThumbnailQueue::new();
    queue.set_visible((10, 30));
    let mut all = Vec::new();
    for batch in 0..10 {
        let requests: Vec<LoaderRequest> = (0..20)
            .map(|k| LoaderRequest {
                path: format!("/p/{}-{}", batch, k),
                index: next() % 50,
                is_directory: false,
            })
            .collect();
        all.extend(requests.iter().map(|r| (r.index, r.path.clone())));
        queue.submit(requests);
    }
    let mut expected = all.clone();
    expected.sort_by_key(|(index, _)| (!(10..30).contains(index), *index));
    let mut served = Vec::new();
    while let Some(request) = queue.next_request() {
        served.push((request.index, request.path));
    }
    assert_eq!(served, expected);
}

#[test]
fn jobs_tell_directories_from_images() {
    let mut queue = ThumbnailQueue::new();
    assert_eq!(queue.next_job(), Job::Rest);
    let folder = LoaderRequest { path: "/p/sub".to_string(), index: 0, is_directory: true };
    queue.submit(vec![request(1), folder]);
    assert_eq!(
        queue.next_job(),
        Job::StandIn(LoaderRequest { path: "/p/sub".to_string(), index: 0, is_directory: true })
    );
    assert_eq!(queue.next_job(), Job::Thumbnail(request(1)));
    assert_eq!(queue.next_job(), Job::Rest);
    assert_eq!(queue.pending_len(), 0);
}
