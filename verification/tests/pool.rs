use b2_client::models::B2UploadUrl;
use b2_client::pool::Acquired;
use b2_client::pool::Pool;
use b2_client::pool::MAX_POOL_SIZE;
use b2_client::upload_url::RawUploadUrl;
use b2_client::UploadUrl;

fn url(n: usize) -> UploadUrl {
    UploadUrl(RawUploadUrl::new(
        B2UploadUrl {
            bucket_id: Some("bucket-1".to_owned()),
            file_id: None,
            upload_url: format!("https://pod.example/upload/{n}"),
            authorization_token: format!("token-{n}"),
        },
        false,
    ))
}

fn name(url: &UploadUrl) -> String {
    url.0.url().upload_url.clone()
}

#[test]
fn new_pool_is_empty() {
    let pool = Pool::new(Some("bucket-1"), 3);
    assert_eq!(pool.capacity(), 3);
    assert_eq!(pool.outstanding(), 0);
    assert_eq!(pool.bucket_id().as_deref(), Some("bucket-1"));
    assert_eq!(Pool::new(None, 0).bucket_id(), &None);
}

#[test]
fn pool_hands_out_no_more_than_its_capacity() {
    let mut pool = Pool::new(None, 2);
    assert!(matches!(pool.get_pooled_upload_url(), Acquired::Fetch));
    assert!(matches!(pool.get_pooled_upload_url(), Acquired::Fetch));
    assert_eq!(pool.outstanding(), 2);
    assert!(!pool.has_room());
    assert!(matches!(pool.get_pooled_upload_url(), Acquired::Wait));
    assert!(matches!(pool.get_pooled_upload_url(), Acquired::Wait));
    assert_eq!(pool.outstanding(), 2);
    pool.forfeit();
    assert!(pool.has_room());
}

#[test]
fn pool_of_no_capacity_always_waits() {
    let mut pool = Pool::new(None, 0);
    assert!(matches!(pool.get_pooled_upload_url(), Acquired::Wait));
    assert_eq!(pool.outstanding(), 0);
}

#[test]
fn returned_urls_are_reused_first_come_first_out() {
    let mut pool = Pool::new(None, 3);
    for _ in 0..3 {
        assert!(matches!(pool.get_pooled_upload_url(), Acquired::Fetch));
    }
    pool.release(url(1));
    pool.release(url(2));
    assert_eq!(pool.outstanding(), 1);
    match pool.get_pooled_upload_url() {
        Acquired::Reuse(got) => assert_eq!(name(&got), name(&url(1))),
        _ => panic!("an idle URL must be reused"),
    }
    match pool.get_pooled_upload_url() {
        Acquired::Reuse(got) => assert_eq!(name(&got), name(&url(2))),
        _ => panic!("an idle URL must be reused"),
    }
    assert_eq!(pool.outstanding(), 3);
    assert!(matches!(pool.get_pooled_upload_url(), Acquired::Wait));
}

#[test]
fn release_without_a_url_out_changes_nothing() {
    let mut pool = Pool::new(None, 1);
    pool.release(url(1));
    assert_eq!(pool.outstanding(), 0);
    assert!(matches!(pool.get_pooled_upload_url(), Acquired::Fetch));
}

#[test]
fn forfeit_frees_a_place_without_a_url() {
    let mut pool = Pool::new(None, 1);
    assert!(matches!(pool.get_pooled_upload_url(), Acquired::Fetch));
    assert!(matches!(pool.get_pooled_upload_url(), Acquired::Wait));
    pool.forfeit();
    assert_eq!(pool.outstanding(), 0);
    assert!(matches!(pool.get_pooled_upload_url(), Acquired::Fetch));
    pool.forfeit();
    pool.forfeit();
    assert_eq!(pool.outstanding(), 0);
}

#[test]
fn larger_pool_hands_out_more() {
    let mut pool = Pool::new(None, 1);
    assert!(matches!(pool.get_pooled_upload_url(), Acquired::Fetch));
    assert!(matches!(pool.get_pooled_upload_url(), Acquired::Wait));
    pool.increase_pool_size(2);
    assert_eq!(pool.capacity(), 3);
    assert!(matches!(pool.get_pooled_upload_url(), Acquired::Fetch));
    assert!(matches!(pool.get_pooled_upload_url(), Acquired::Fetch));
    assert!(matches!(pool.get_pooled_upload_url(), Acquired::Wait));
    pool.increase_pool_size(MAX_POOL_SIZE - 3);
    assert_eq!(pool.capacity(), MAX_POOL_SIZE);
}

#[test]
fn outstanding_urls_never_exceed_capacity_under_load() {
    let capacity = 4usize;
    let mut pool = Pool::new(None, capacity as u8);
    let mut held: Vec<UploadUrl> = Vec::new();
    let mut fetched = 0usize;
    let mut acquired = 0usize;
    let mut released = 0usize;
    let mut seed = 12345u32;
    for _ in 0..2000 {
        seed = seed.wrapping_mul(1664525).wrapping_add(1013904223);
        if (seed >> 16) % 3 != 0 {
            match pool.get_pooled_upload_url() {
                Acquired::Wait => assert_eq!(held.len(), capacity),
                Acquired::Reuse(url) => {
                    acquired += 1;
                    held.push(url);
                }
                Acquired::Fetch => {
                    acquired += 1;
                    fetched += 1;
                    held.push(url(fetched));
                }
            }
        } else if let Some(url) = held.pop() {
            released += 1;
            pool.release(url);
        }
        assert_eq!(pool.outstanding(), held.len());
        assert_eq!(acquired - released, held.len());
        assert!(pool.outstanding() <= pool.capacity());
    }
    assert!(fetched <= capacity);
}
