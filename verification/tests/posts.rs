//! The per-user post store on its own: isolation between partitions, lookup,
//! and the listing cap.

use authpost::errors::UserPostError;
use authpost::post_store::{PostDb, POST_LIST_LIMIT};

#[test]
fn created_post_is_found_identical() {
    let mut db = PostDb::new();
    let pid = db.create_post("user-a", "hi", "world").expect("stored");
    let post = db.get_post("user-a", &pid).expect("found");
    assert_eq!(post.uuid, pid);
    assert_eq!(post.title, "hi");
    assert_eq!(post.body, "world");
}

#[test]
fn unknown_identifiers_are_not_found() {
    let mut db = PostDb::new();
    let pid = db.create_post("user-a", "hi", "world").expect("stored");
    assert_eq!(
        db.get_post("user-a", "no-such-post").unwrap_err(),
        UserPostError::PostNotFound
    );
    assert_eq!(
        db.get_post("user-b", &pid).unwrap_err(),
        UserPostError::PostNotFound
    );
}

#[test]
fn partitions_are_isolated() {
    let mut db = PostDb::new();
    let pa = db.create_post("user-a", "a-title", "a-body").expect("stored");
    let pb = db.create_post("user-b", "b-title", "b-body").expect("stored");

    let listed_a = db.list_posts("user-a").expect("partition exists");
    assert_eq!(listed_a.len(), 1);
    assert_eq!(listed_a[0].uuid, pa);
    assert_eq!(listed_a[0].title, "a-title");

    let listed_b = db.list_posts("user-b").expect("partition exists");
    assert_eq!(listed_b.len(), 1);
    assert_eq!(listed_b[0].uuid, pb);
    assert_eq!(listed_b[0].title, "b-title");

    assert_eq!(
        db.get_post("user-a", &pb).unwrap_err(),
        UserPostError::PostNotFound
    );
}

#[test]
fn listing_without_a_partition_is_not_found() {
    let db = PostDb::new();
    assert_eq!(
        db.list_posts("user-a").unwrap_err(),
        UserPostError::PostNotFound
    );
}

#[test]
fn listing_is_capped_and_keeps_insertion_order() {
    let mut db = PostDb::new();
    let mut ids = Vec::new();
    for i in 0..(POST_LIST_LIMIT + 5) {
        let title = format!("title-{}", i);
        let pid = db.create_post("user-a", &title, "body").expect("stored");
        ids.push(pid);
    }
    let listed = db.list_posts("user-a").expect("partition exists");
    assert_eq!(listed.len(), POST_LIST_LIMIT);
    for i in 0..POST_LIST_LIMIT {
        assert_eq!(listed[i].uuid, ids[i]);
        assert_eq!(listed[i].title, format!("title-{}", i));
    }
}
