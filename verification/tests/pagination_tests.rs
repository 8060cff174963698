use dnguyen_blog::datefmt::{date_repr, monthify, u64_to_dec};
use dnguyen_blog::pagination::{aggregate_blog_posts, make_preview, paginate};
use dnguyen_blog::posts::{BlogPost, PostStore};

fn store_with_public_posts(n: u32) -> PostStore {
    let mut store = PostStore::new();
    for i in 0..n {
        store.insert_row(
            format!("post {}", i),
            Some(format!("body of post {}", i)),
            None,
            true,
            1_000 + i as i64,
            Some(1_000 + i as i64),
        );
    }
    store
}

#[test]
fn paginate_first_page_of_twelve() {
    let store = store_with_public_posts(12);
    let page = paginate(&store, 1, 5);
    assert_eq!(page.posts.len(), 5);
    assert!(page.has_next);
    assert!(!page.has_prev);
    assert_eq!(page.current, 1);
    assert_eq!(page.total_pages, 2);
}

#[test]
fn paginate_beyond_last_page_is_empty() {
    // Ten posts fill exactly two windows of five: page three is past the
    // end and shows nothing, with no fetch error.
    let store = store_with_public_posts(10);
    let page = paginate(&store, 3, 5);
    assert!(page.posts.is_empty());
    assert!(page.has_prev);
    assert!(!page.has_next);
    assert_eq!(page.total_pages, 2);
}

#[test]
fn paginate_third_page_of_twelve_shows_remainder() {
    // With twelve posts the offset of page three is ten, so the two
    // oldest posts remain in the window; page count stays floor(12 / 5).
    let store = store_with_public_posts(12);
    let page = paginate(&store, 3, 5);
    assert_eq!(page.posts.len(), 2);
    assert!(page.has_prev);
    assert!(!page.has_next);
    assert_eq!(page.total_pages, 2);
}

#[test]
fn paginate_empty_blog_first_page() {
    let store = PostStore::new();
    let page = paginate(&store, 1, 5);
    assert!(page.posts.is_empty());
    assert!(!page.has_prev);
    assert!(!page.has_next);
    assert_eq!(page.total_pages, 1);
    assert_eq!(page.current, 1);
}

#[test]
fn paginate_orders_most_recent_first() {
    let store = store_with_public_posts(12);
    let page = paginate(&store, 1, 5);
    assert_eq!(page.posts[0].title, "post 11");
    assert_eq!(page.posts[4].title, "post 7");
    let second = paginate(&store, 2, 5);
    assert_eq!(second.posts[0].title, "post 6");
}

#[test]
fn aggregate_maps_window_to_previews() {
    let store = store_with_public_posts(3);
    let previews = aggregate_blog_posts(&store, 2, 1);
    assert_eq!(previews.len(), 2);
    assert_eq!(previews[0].title, "post 1");
    assert_eq!(previews[0].preview, "body of post 1");
    assert_eq!(previews[1].title, "post 0");
}

fn post_with_content(markdown: Option<String>, published_at: Option<i64>) -> BlogPost {
    BlogPost {
        uuid: 0,
        created_at: 947_638_923_004,
        updated_at: None,
        published_at,
        is_public: true,
        delta: None,
        title: "a post".to_string(),
        markdown,
    }
}

#[test]
fn long_content_is_truncated_with_ellipsis() {
    let body: String = "x".repeat(301);
    let preview = make_preview(&post_with_content(Some(body.clone()), None));
    assert_eq!(preview.preview.len(), 303);
    assert!(preview.preview.ends_with("..."));
    let visible = &preview.preview[..300];
    assert!(body.starts_with(visible));
}

#[test]
fn short_content_is_shown_verbatim() {
    let preview = make_preview(&post_with_content(Some("short body".to_string()), None));
    assert_eq!(preview.preview, "short body");
    let exactly_300: String = "y".repeat(300);
    let preview = make_preview(&post_with_content(Some(exactly_300.clone()), None));
    assert_eq!(preview.preview, exactly_300);
}

#[test]
fn missing_content_previews_empty() {
    let preview = make_preview(&post_with_content(None, None));
    assert_eq!(preview.preview, "");
}

#[test]
fn preview_dates_by_published_then_created() {
    // 947638923004 ms is 2000-01-12 UTC; 0 ms is 1970-01-01 UTC.
    let published = make_preview(&post_with_content(None, Some(947_638_923_004)));
    assert_eq!(published.date_repr, "12, January 2000");
    let unpublished = make_preview(&post_with_content(None, None));
    assert_eq!(unpublished.date_repr, "12, January 2000");
    let mut epoch_post = post_with_content(None, None);
    epoch_post.created_at = 0;
    let epoch = make_preview(&epoch_post);
    assert_eq!(epoch.date_repr, "01, January 1970");
}

#[test]
fn preview_carries_hyphenated_uuid() {
    let preview = make_preview(&post_with_content(None, None));
    assert_eq!(preview.uuid_repr, "00000000-0000-0000-0000-000000000000");
}

#[test]
fn date_formatting_exact() {
    assert_eq!(u64_to_dec(0), "0");
    assert_eq!(u64_to_dec(12345), "12345");
    assert_eq!(monthify(1).as_deref(), Some("January"));
    assert_eq!(monthify(12).as_deref(), Some("December"));
    assert_eq!(monthify(0), None);
    assert_eq!(monthify(13), None);
    assert_eq!(date_repr(2024, 2, 9), "09, February 2024");
    assert_eq!(date_repr(1999, 12, 31), "31, December 1999");
}
