use std::collections::BTreeSet;

use blog::fixtures::{
    blog_locking_event_failure, blog_unlocking_event_failure, create_post, create_reply, edit_post,
    get_post, get_reply, post_creation_event_failure, post_editing_event_failure,
    post_locking_event_failure, post_storage_unchanged, post_unlocking_event_failure, PostType,
    FIRST_OWNER_ORIGIN, FISRT_ID, SECOND_ID, SECOND_OWNER_ORIGIN,
};
use blog::mock::{generate_text, ExtBuilder};
use blog::types::{
    ensure_signed, Origin, RawEvent, BLOG_LOCKED_ERROR, BLOG_OWNERSHIP_ERROR, BLOG_OWNER_NOT_FOUND,
    POSTS_LIMIT_REACHED, POST_BODY_TOO_LONG, POST_LOCKED_ERROR, POST_NOT_FOUND, POST_TITLE_TOO_LONG,
};

// Blogs
#[test]
fn blog_creation() {
    let mut m = ExtBuilder::default().build();
    assert_eq!(m.blogs_count(), 0);
    assert_eq!(m.create_blog(Origin::signed(FIRST_OWNER_ORIGIN)), Ok(()));
    assert_eq!(m.blogs_count(), 1);
    let owner_id = ensure_signed(Origin::signed(FIRST_OWNER_ORIGIN)).unwrap();
    // Check up for new blog id entry
    let mut set = BTreeSet::new();
    set.insert(FISRT_ID);
    let blog_id = m.blog_ids_by_owner(owner_id).unwrap();
    assert_eq!(blog_id, set);
    // Event checked
    let blog_created_event = RawEvent::BlogCreated(owner_id, FISRT_ID);
    assert!(m.events().iter().any(|a| *a == blog_created_event));
}

#[test]
fn blog_locking_success() {
    let mut m = ExtBuilder::default().build();
    let _ = m.create_blog(Origin::signed(FIRST_OWNER_ORIGIN));
    let is_locked = m.blog_locked(FISRT_ID);
    // Default Locking status
    assert_eq!(is_locked, false);
    assert_eq!(m.lock_blog(Origin::signed(FIRST_OWNER_ORIGIN), FISRT_ID), Ok(()));
    let is_locked = m.blog_locked(FISRT_ID);
    assert_eq!(is_locked, true);
    let owner_id = ensure_signed(Origin::signed(FIRST_OWNER_ORIGIN)).unwrap();
    let blog_locked_event = RawEvent::BlogLocked(owner_id, FISRT_ID);
    // Event checked
    assert!(m.events().iter().any(|a| *a == blog_locked_event));
}

#[test]
fn blog_locking_owner_not_found() {
    let mut m = ExtBuilder::default().build();
    let _ = m.create_blog(Origin::signed(FIRST_OWNER_ORIGIN));
    // Non owner attemt to lock blog
    let lock_result = m.lock_blog(Origin::signed(SECOND_OWNER_ORIGIN), FISRT_ID);
    assert!(matches!(lock_result, Err(lock_err) if lock_err == BLOG_OWNER_NOT_FOUND));
    // Remain unlocked
    let is_locked = m.blog_locked(FISRT_ID);
    assert_eq!(is_locked, false);
    assert!(blog_locking_event_failure(&m, SECOND_OWNER_ORIGIN));
}

#[test]
fn blog_locking_ownership_error() {
    let mut m = ExtBuilder::default().build();
    let _ = m.create_blog(Origin::signed(FIRST_OWNER_ORIGIN));
    // Create another blog, using second owner origin
    let _ = m.create_blog(Origin::signed(SECOND_OWNER_ORIGIN));
    // Non owner attemt to lock blog
    let lock_result = m.lock_blog(Origin::signed(SECOND_OWNER_ORIGIN), FISRT_ID);
    assert!(matches!(lock_result, Err(lock_err) if lock_err == BLOG_OWNERSHIP_ERROR));
    // Remain unlocked
    let is_locked = m.blog_locked(FISRT_ID);
    assert_eq!(is_locked, false);
    assert!(blog_locking_event_failure(&m, SECOND_OWNER_ORIGIN));
}

#[test]
fn blog_unlocking_success() {
    let mut m = ExtBuilder::default().build();
    let _ = m.create_blog(Origin::signed(FIRST_OWNER_ORIGIN));
    // Lock blog firstly, as default state after creation is unlocked
    let _ = m.lock_blog(Origin::signed(FIRST_OWNER_ORIGIN), FISRT_ID);
    assert_eq!(m.unlock_blog(Origin::signed(FIRST_OWNER_ORIGIN), FISRT_ID), Ok(()));
    let is_locked = m.blog_locked(FISRT_ID);
    assert_eq!(is_locked, false);
    let owner_id = ensure_signed(Origin::signed(FIRST_OWNER_ORIGIN)).unwrap();
    let blog_unlocked_event = RawEvent::BlogUnlocked(owner_id, FISRT_ID);
    assert!(m.events().iter().any(|a| *a == blog_unlocked_event));
}

#[test]
fn blog_unlocking_owner_not_found() {
    let mut m = ExtBuilder::default().build();
    let _ = m.create_blog(Origin::signed(FIRST_OWNER_ORIGIN));
    // Lock blog firstly, as default state after creation is unlocked
    let _ = m.lock_blog(Origin::signed(FIRST_OWNER_ORIGIN), FISRT_ID);
    // Non owner attemt to unlock blog
    let unlock_result = m.unlock_blog(Origin::signed(SECOND_OWNER_ORIGIN), FISRT_ID);
    assert!(matches!(unlock_result, Err(unlock_err) if unlock_err == BLOG_OWNER_NOT_FOUND));
    // Remain locked
    let is_locked = m.blog_locked(FISRT_ID);
    assert_eq!(is_locked, true);
    // Event absence checked
    assert!(blog_unlocking_event_failure(&m, SECOND_OWNER_ORIGIN));
}

#[test]
fn blog_unlocking_ownership_error() {
    let mut m = ExtBuilder::default().build();
    let _ = m.create_blog(Origin::signed(FIRST_OWNER_ORIGIN));
    // Create another blog, using second owner origin
    let _ = m.create_blog(Origin::signed(SECOND_OWNER_ORIGIN));
    // Lock blog firstly, as default state after creation is unlocked
    let _ = m.lock_blog(Origin::signed(FIRST_OWNER_ORIGIN), FISRT_ID);
    // Non owner attemt to unlock blog
    let unlock_result = m.unlock_blog(Origin::signed(SECOND_OWNER_ORIGIN), FISRT_ID);
    assert!(matches!(unlock_result, Err(unlock_err) if unlock_err == BLOG_OWNERSHIP_ERROR));
    // Remain locked
    let is_locked = m.blog_locked(FISRT_ID);
    assert_eq!(is_locked, true);
    // Event absence checked
    assert!(blog_unlocking_event_failure(&m, SECOND_OWNER_ORIGIN));
}

//Posts
#[test]
fn post_creation_success() {
    let mut m = ExtBuilder::default().build();
    // Create blog for future posts
    let _ = m.create_blog(Origin::signed(FIRST_OWNER_ORIGIN));
    assert_eq!(m.posts_count(FISRT_ID), 0);
    assert_eq!(create_post(&mut m, FIRST_OWNER_ORIGIN, FISRT_ID, PostType::Valid), Ok(()));
    // Posts storage updated succesfully
    let post = m.post_by_id((FISRT_ID, FISRT_ID));
    assert!(matches!(post, Some(post) if post == get_post(&m, PostType::Valid, false)));
    // Check up all changes, related to given post id
    let mut set = BTreeSet::new();
    set.insert(FISRT_ID);
    assert!(matches!(m.post_ids_by_blog_id(FISRT_ID), Some(post_ids) if post_ids == set));
    // Post counter updated succesfully
    assert_eq!(m.posts_count(FISRT_ID), 1);
    // Event checked
    let post_created_event = RawEvent::PostCreated(FISRT_ID, FISRT_ID);
    assert!(m.events().iter().any(|a| *a == post_created_event));
}

#[test]
fn post_creation_blog_owner_not_found() {
    let mut m = ExtBuilder::default().build();
    let create_result = create_post(&mut m, FIRST_OWNER_ORIGIN, FISRT_ID, PostType::Valid);
    assert!(matches!(create_result, Err(create_err) if create_err == BLOG_OWNER_NOT_FOUND));
    // Check if related runtime storage left unchanged
    assert!(post_storage_unchanged(&m, FISRT_ID, FISRT_ID));
    // Event absence checked
    assert!(post_creation_event_failure(&m, FISRT_ID, FISRT_ID))
}

#[test]
fn post_creation_blog_ownership_error() {
    let mut m = ExtBuilder::default().build();
    // Create blog for future posts
    let _ = m.create_blog(Origin::signed(FIRST_OWNER_ORIGIN));
    // Create another blog, using second owner origin
    let _ = m.create_blog(Origin::signed(SECOND_OWNER_ORIGIN));
    let create_result = create_post(&mut m, SECOND_OWNER_ORIGIN, FISRT_ID, PostType::Valid);
    assert!(matches!(create_result, Err(create_err) if create_err == BLOG_OWNERSHIP_ERROR));
    // Check if related runtime storage left unchanged
    assert!(post_storage_unchanged(&m, FISRT_ID, FISRT_ID));
    // Event absence checked
    assert!(post_creation_event_failure(&m, FISRT_ID, FISRT_ID))
}

#[test]
fn post_creation_blog_locked_error() {
    let mut m = ExtBuilder::default().build();
    // Create blog for future posts
    let _ = m.create_blog(Origin::signed(FIRST_OWNER_ORIGIN));
    let _ = m.lock_blog(Origin::signed(FIRST_OWNER_ORIGIN), FISRT_ID);
    let create_result = create_post(&mut m, FIRST_OWNER_ORIGIN, FISRT_ID, PostType::Valid);
    assert!(matches!(create_result, Err(create_err) if create_err == BLOG_LOCKED_ERROR));
    // Check if related runtime storage left unchanged
    assert!(post_storage_unchanged(&m, FISRT_ID, FISRT_ID));
    // Event absence checked
    assert!(post_creation_event_failure(&m, FISRT_ID, FISRT_ID))
}

#[test]
fn post_creation_title_too_long() {
    let mut m = ExtBuilder::default().build();
    // Create blog for future posts
    let _ = m.create_blog(Origin::signed(FIRST_OWNER_ORIGIN));
    let create_result =
        create_post(&mut m, FIRST_OWNER_ORIGIN, FISRT_ID, PostType::PostTitleInvalid);
    assert!(matches!(create_result, Err(create_err) if create_err == POST_TITLE_TOO_LONG));
    // Check if related runtime storage left unchanged
    assert!(post_storage_unchanged(&m, FISRT_ID, FISRT_ID));
    // Event absence checked
    assert!(post_creation_event_failure(&m, FISRT_ID, FISRT_ID))
}

#[test]
fn post_creation_body_too_long() {
    let mut m = ExtBuilder::default().build();
    // Create blog for future posts
    let _ = m.create_blog(Origin::signed(FIRST_OWNER_ORIGIN));
    let create_result = create_post(&mut m, FIRST_OWNER_ORIGIN, FISRT_ID, PostType::PostBodyInvalid);
    assert!(matches!(create_result, Err(create_err) if create_err == POST_BODY_TOO_LONG));
    // Check if related runtime storage left unchanged
    assert!(post_storage_unchanged(&m, FISRT_ID, FISRT_ID));
    // Event absence checked
    assert!(post_creation_event_failure(&m, FISRT_ID, FISRT_ID))
}

#[test]
fn post_creation_limit_reached() {
    let mut m = ExtBuilder::default().build();
    // Create blog for future posts
    let _ = m.create_blog(Origin::signed(FIRST_OWNER_ORIGIN));
    loop {
        if let Err(create_post_err) = create_post(&mut m, FIRST_OWNER_ORIGIN, FISRT_ID, PostType::Valid) {
            assert_eq!(create_post_err, POSTS_LIMIT_REACHED);
            let posts_count = m.posts_count(FISRT_ID);
            // Post counter & post max number contraint equality checked
            assert_eq!(posts_count, m.config().posts_max_number);
            // Last post creation, before limit reached, event absence checked
            assert!(post_creation_event_failure(&m, FISRT_ID, posts_count));
            break;
        }
    }
}

#[test]
fn post_locking_success() {
    let mut m = ExtBuilder::default().build();
    // Create blog for future posts
    let _ = m.create_blog(Origin::signed(FIRST_OWNER_ORIGIN));
    let _ = create_post(&mut m, FIRST_OWNER_ORIGIN, FISRT_ID, PostType::Valid);
    // Check default post locking status right after creation
    assert_eq!(m.post_locked((FISRT_ID, FISRT_ID)), false);
    assert_eq!(m.lock_post(Origin::signed(FIRST_OWNER_ORIGIN), FISRT_ID, FISRT_ID), Ok(()));
    assert_eq!(m.post_locked((FISRT_ID, FISRT_ID)), true);
    let post_locked_event = RawEvent::PostLocked(FISRT_ID, FISRT_ID);
    // Event checked
    assert!(m.events().iter().any(|a| *a == post_locked_event));
}

#[test]
fn post_locking_owner_not_found() {
    let mut m = ExtBuilder::default().build();
    // Create blog for future posts
    let _ = m.create_blog(Origin::signed(FIRST_OWNER_ORIGIN));
    let _ = create_post(&mut m, FIRST_OWNER_ORIGIN, FISRT_ID, PostType::Valid);
    let lock_result = m.lock_post(Origin::signed(SECOND_OWNER_ORIGIN), FISRT_ID, FISRT_ID);
    // Remain unlocked
    assert_eq!(m.post_locked((FISRT_ID, FISRT_ID)), false);
    assert!(matches!(lock_result, Err(create_err) if create_err == BLOG_OWNER_NOT_FOUND));
    // Event absence checked
    assert!(post_locking_event_failure(&m, FISRT_ID, FISRT_ID))
}

#[test]
fn post_locking_post_not_found() {
    let mut m = ExtBuilder::default().build();
    // Create blog for future posts
    let _ = m.create_blog(Origin::signed(FIRST_OWNER_ORIGIN));
    let lock_result = m.lock_post(Origin::signed(FIRST_OWNER_ORIGIN), FISRT_ID, FISRT_ID);
    assert!(matches!(lock_result, Err(create_err) if create_err == POST_NOT_FOUND));
    // Event absence checked
    assert!(post_locking_event_failure(&m, FISRT_ID, FISRT_ID))
}

#[test]
fn post_locking_ownership_error() {
    let mut m = ExtBuilder::default().build();
    // Create blog for future posts
    let _ = m.create_blog(Origin::signed(FIRST_OWNER_ORIGIN));
    let _ = m.create_blog(Origin::signed(SECOND_OWNER_ORIGIN));
    let _ = create_post(&mut m, FIRST_OWNER_ORIGIN, FISRT_ID, PostType::Valid);
    let lock_result = m.lock_post(Origin::signed(SECOND_OWNER_ORIGIN), FISRT_ID, FISRT_ID);
    // Remain unlocked
    assert_eq!(m.post_locked((FISRT_ID, FISRT_ID)), false);
    assert!(matches!(lock_result, Err(create_err) if create_err == BLOG_OWNERSHIP_ERROR));
    // Event absence checked
    assert!(post_locking_event_failure(&m, FISRT_ID, FISRT_ID))
}

#[test]
fn post_unlocking_success() {
    let mut m = ExtBuilder::default().build();
    // Create blog for future posts
    let _ = m.create_blog(Origin::signed(FIRST_OWNER_ORIGIN));
    let _ = create_post(&mut m, FIRST_OWNER_ORIGIN, FISRT_ID, PostType::Valid);
    // Lock post firstly
    let _ = m.lock_post(Origin::signed(FIRST_OWNER_ORIGIN), FISRT_ID, FISRT_ID);
    assert_eq!(m.post_locked((FISRT_ID, FISRT_ID)), true);
    assert_eq!(m.unlock_post(Origin::signed(FIRST_OWNER_ORIGIN), FISRT_ID, FISRT_ID), Ok(()));
    assert_eq!(m.post_locked((FISRT_ID, FISRT_ID)), false);
    let post_unlocked_event = RawEvent::PostUnlocked(FISRT_ID, FISRT_ID);
    // Event checked
    assert!(m.events().iter().any(|a| *a == post_unlocked_event));
}

#[test]
fn post_unlocking_owner_not_found() {
    let mut m = ExtBuilder::default().build();
    // Create blog for future posts
    let _ = m.create_blog(Origin::signed(FIRST_OWNER_ORIGIN));
    let _ = create_post(&mut m, FIRST_OWNER_ORIGIN, FISRT_ID, PostType::Valid);
    // Lock post firstly
    let _ = m.lock_post(Origin::signed(FIRST_OWNER_ORIGIN), FISRT_ID, FISRT_ID);
    let unlock_result = m.unlock_post(Origin::signed(SECOND_OWNER_ORIGIN), FISRT_ID, FISRT_ID);
    // Remain locked
    assert_eq!(m.post_locked((FISRT_ID, FISRT_ID)), true);
    assert!(matches!(unlock_result, Err(create_err) if create_err == BLOG_OWNER_NOT_FOUND));
    // Event absence checked
    assert!(post_unlocking_event_failure(&m, FISRT_ID, FISRT_ID))
}

#[test]
fn post_unlocking_post_not_found() {
    let mut m = ExtBuilder::default().build();
    // Create blog for future posts
    let _ = m.create_blog(Origin::signed(FIRST_OWNER_ORIGIN));
    // Try to unlock not existing post
    let unlock_result = m.unlock_post(Origin::signed(FIRST_OWNER_ORIGIN), FISRT_ID, FISRT_ID);
    assert!(matches!(unlock_result, Err(unlock_err) if unlock_err == POST_NOT_FOUND));
    // Event absence checked
    assert!(post_unlocking_event_failure(&m, FISRT_ID, FISRT_ID))
}

#[test]
fn post_unlocking_ownership_error() {
    let mut m = ExtBuilder::default().build();
    // Create blog for future posts
    let _ = m.create_blog(Origin::signed(FIRST_OWNER_ORIGIN));
    let _ = m.create_blog(Origin::signed(SECOND_OWNER_ORIGIN));
    let _ = create_post(&mut m, FIRST_OWNER_ORIGIN, FISRT_ID, PostType::Valid);
    let lock_result = m.lock_post(Origin::signed(SECOND_OWNER_ORIGIN), FISRT_ID, FISRT_ID);
    // Remain unlocked
    assert_eq!(m.post_locked((FISRT_ID, FISRT_ID)), false);
    assert!(matches!(lock_result, Err(create_err) if create_err == BLOG_OWNERSHIP_ERROR));
    // Event absence checked
    assert!(post_unlocking_event_failure(&m, FISRT_ID, FISRT_ID))
}

#[test]
fn post_editing_success() {
    let mut m = ExtBuilder::default()
        .post_title_max_length(5)
        .post_body_max_length(10)
        .build();
    // Create blog for future posts
    let _ = m.create_blog(Origin::signed(FIRST_OWNER_ORIGIN));
    let _ = create_post(&mut m, FIRST_OWNER_ORIGIN, FISRT_ID, PostType::Valid);
    let valid_title = generate_text((m.config().post_title_max_length - 1) as usize);
    let valid_body = generate_text((m.config().post_body_max_length - 1) as usize);
    assert_eq!(
        m.edit_post(
            Origin::signed(FIRST_OWNER_ORIGIN),
            FISRT_ID,
            FISRT_ID,
            Some(valid_title.clone()),
            Some(valid_body.clone()),
        ),
        Ok(())
    );
    // Post after editing checked
    let post = m.post_by_id((FISRT_ID, FISRT_ID));
    assert!(matches!(post, Some(post) if (post.title == valid_title) && (post.body == valid_body)));
    // Event checked
    let post_edited_event = RawEvent::PostEdited(FISRT_ID, FISRT_ID);
    assert!(m.events().iter().any(|a| *a == post_edited_event));
}

#[test]
fn post_editing_owner_not_found() {
    let mut m = ExtBuilder::default().build();
    // Create blog for future posts
    let _ = m.create_blog(Origin::signed(FIRST_OWNER_ORIGIN));
    let _ = create_post(&mut m, FIRST_OWNER_ORIGIN, FISRT_ID, PostType::Valid);
    let edit_result = edit_post(&mut m, SECOND_OWNER_ORIGIN, FISRT_ID, FISRT_ID, PostType::Valid);
    // Remain unedited
    let post = m.post_by_id((FISRT_ID, FISRT_ID));
    assert!(matches!(edit_result, Err(create_err) if create_err == BLOG_OWNER_NOT_FOUND));
    // Compare with default unedited post
    assert!(matches!(post, Some(post) if post == get_post(&m, PostType::Valid, false)));
    // Event absence checked
    assert!(post_editing_event_failure(&m, FISRT_ID, FISRT_ID))
}

#[test]
fn post_editing_post_not_found() {
    let mut m = ExtBuilder::default().build();
    // Create blog for future posts
    let _ = m.create_blog(Origin::signed(FIRST_OWNER_ORIGIN));
    // Try to unlock not existing post
    let edit_result = edit_post(&mut m, FIRST_OWNER_ORIGIN, FISRT_ID, FISRT_ID, PostType::Valid);
    assert!(matches!(edit_result, Err(edit_err) if edit_err == POST_NOT_FOUND));
    // Event absence checked
    assert!(post_editing_event_failure(&m, FISRT_ID, FISRT_ID))
}

#[test]
fn post_editing_blog_locked_error() {
    let mut m = ExtBuilder::default().build();
    // Create blog for future posts
    let _ = m.create_blog(Origin::signed(FIRST_OWNER_ORIGIN));
    let _ = create_post(&mut m, FIRST_OWNER_ORIGIN, FISRT_ID, PostType::Valid);
    let _ = m.lock_blog(Origin::signed(FIRST_OWNER_ORIGIN), FISRT_ID);
    let edit_result = edit_post(&mut m, FIRST_OWNER_ORIGIN, FISRT_ID, FISRT_ID, PostType::Valid);
    // Remain unedited
    let post = m.post_by_id((FISRT_ID, FISRT_ID));
    assert!(matches!(edit_result, Err(create_err) if create_err == BLOG_LOCKED_ERROR));
    // Compare with default unedited post
    assert!(matches!(post, Some(post) if post == get_post(&m, PostType::Valid, false)));
    // Event absence checked
    assert!(post_editing_event_failure(&m, FISRT_ID, FISRT_ID))
}

#[test]
fn post_editing_post_locked_error() {
    let mut m = ExtBuilder::default().build();
    // Create blog for future posts
    let _ = m.create_blog(Origin::signed(FIRST_OWNER_ORIGIN));
    let _ = create_post(&mut m, FIRST_OWNER_ORIGIN, FISRT_ID, PostType::Valid);
    let _ = m.lock_post(Origin::signed(FIRST_OWNER_ORIGIN), FISRT_ID, FISRT_ID);
    let edit_result = edit_post(&mut m, FIRST_OWNER_ORIGIN, FISRT_ID, FISRT_ID, PostType::Valid);
    // Remain unedited
    let post = m.post_by_id((FISRT_ID, FISRT_ID));
    assert!(matches!(edit_result, Err(create_err) if create_err == POST_LOCKED_ERROR));
    // Compare with default unedited post
    assert!(matches!(post, Some(post) if post == get_post(&m, PostType::Valid, false)));
    // Event absence checked
    assert!(post_editing_event_failure(&m, FISRT_ID, FISRT_ID))
}

#[test]
fn post_editing_title_invalid_error() {
    let mut m = ExtBuilder::default().build();
    // Create blog for future posts
    let _ = m.create_blog(Origin::signed(FIRST_OWNER_ORIGIN));
    let _ = create_post(&mut m, FIRST_OWNER_ORIGIN, FISRT_ID, PostType::Valid);
    let edit_result = edit_post(
        &mut m,
        FIRST_OWNER_ORIGIN,
        FISRT_ID,
        FISRT_ID,
        PostType::PostTitleInvalid,
    );
    // Remain unedited
    let post = m.post_by_id((FISRT_ID, FISRT_ID));
    assert!(matches!(edit_result, Err(create_err) if create_err == POST_TITLE_TOO_LONG));
    // Compare with default unedited post
    assert!(matches!(post, Some(post) if post == get_post(&m, PostType::Valid, false)));
    // Event absence checked
    assert!(post_editing_event_failure(&m, FISRT_ID, FISRT_ID))
}

#[test]
fn post_editing_body_invalid_error() {
    let mut m = ExtBuilder::default().build();
    // Create blog for future posts
    let _ = m.create_blog(Origin::signed(FIRST_OWNER_ORIGIN));
    let _ = create_post(&mut m, FIRST_OWNER_ORIGIN, FISRT_ID, PostType::Valid);
    let edit_result = edit_post(
        &mut m,
        FIRST_OWNER_ORIGIN,
        FISRT_ID,
        FISRT_ID,
        PostType::PostBodyInvalid,
    );
    // Remain unedited
    let post = m.post_by_id((FISRT_ID, FISRT_ID));
    assert!(matches!(edit_result, Err(create_err) if create_err == POST_BODY_TOO_LONG));
    // Compare with default unedited post
    assert!(matches!(post, Some(post) if post == get_post(&m, PostType::Valid, false)));
    // Event absence checked
    assert!(post_editing_event_failure(&m, FISRT_ID, FISRT_ID))
}

#[test]
fn post_editing_ownership_error() {
    let mut m = ExtBuilder::default().build();
    // Create blog for future posts
    let _ = m.create_blog(Origin::signed(FIRST_OWNER_ORIGIN));
    let _ = m.create_blog(Origin::signed(SECOND_OWNER_ORIGIN));
    let _ = create_post(&mut m, FIRST_OWNER_ORIGIN, FISRT_ID, PostType::Valid);
    let edit_result = edit_post(&mut m, SECOND_OWNER_ORIGIN, FISRT_ID, FISRT_ID, PostType::Valid);
    // Remain unedited
    let post = m.post_by_id((FISRT_ID, FISRT_ID));
    assert!(matches!(edit_result, Err(create_err) if create_err == BLOG_OWNERSHIP_ERROR));
    // Compare with default unedited post
    assert!(matches!(post, Some(post) if post == get_post(&m, PostType::Valid, false)));
    // Event absence checked
    assert!(post_editing_event_failure(&m, FISRT_ID, FISRT_ID))
}

// Replies
#[test]
fn reply_creation_success() {
    let mut m = ExtBuilder::default().build();
    // Create blog for future posts
    let _ = m.create_blog(Origin::signed(FIRST_OWNER_ORIGIN));
    let _ = create_post(&mut m, FIRST_OWNER_ORIGIN, FISRT_ID, PostType::Valid);
    let reply_owner_id = ensure_signed(Origin::signed(SECOND_OWNER_ORIGIN)).unwrap();
    assert_eq!(m.replies_count((FISRT_ID, FISRT_ID)), 0);
    assert_eq!(m.post_root_reply_ids((FISRT_ID, FISRT_ID)), None);
    assert_eq!(m.reply_ids_by_owner(reply_owner_id), None);
    assert_eq!(create_reply(&mut m, SECOND_OWNER_ORIGIN, FISRT_ID, FISRT_ID, None, true), Ok(()));
    // Replies storage updated succesfully
    let reply = m.reply_by_id((FISRT_ID, FISRT_ID, FISRT_ID));
    assert!(matches!(reply, Some(reply) if reply == get_reply(&m, true)));
    assert_eq!(m.replies_count((FISRT_ID, FISRT_ID)), 1);
    // Check up all changes, related to given post id
    let mut root_reply_ids_set = BTreeSet::new();
    root_reply_ids_set.insert(FISRT_ID);
    let mut reply_ids_by_owner_set = BTreeSet::new();
    reply_ids_by_owner_set.insert((FISRT_ID, FISRT_ID, FISRT_ID));
    let root_reply_ids = m.post_root_reply_ids((FISRT_ID, FISRT_ID));
    let reply_ids_by_owner = m.reply_ids_by_owner(reply_owner_id);
    assert!(matches!(root_reply_ids, Some(root_reply_ids) if root_reply_ids == root_reply_ids_set));
    assert!(matches!(reply_ids_by_owner, Some(reply_ids_by_owner) if reply_ids_by_owner == reply_ids_by_owner_set));
    // Event checked
    let reply_created_event = RawEvent::ReplyCreated(reply_owner_id, FISRT_ID, FISRT_ID, FISRT_ID);
    assert!(m.events().iter().any(|a| *a == reply_created_event));
}

#[test]
fn direct_reply_creation_success() {
    let mut m = ExtBuilder::default().build();
    // Create blog for future posts
    let _ = m.create_blog(Origin::signed(FIRST_OWNER_ORIGIN));
    let _ = create_post(&mut m, FIRST_OWNER_ORIGIN, FISRT_ID, PostType::Valid);
    let direct_reply_owner_id = ensure_signed(Origin::signed(SECOND_OWNER_ORIGIN)).unwrap();
    assert_eq!(m.replies_count((FISRT_ID, FISRT_ID)), 0);
    assert_eq!(m.post_child_reply_ids((FISRT_ID, FISRT_ID, FISRT_ID)), None);
    assert_eq!(m.reply_ids_by_owner(direct_reply_owner_id), None);
    // Create reply for direct replying
    assert_eq!(create_reply(&mut m, FIRST_OWNER_ORIGIN, FISRT_ID, FISRT_ID, None, true), Ok(()));
    assert_eq!(
        create_reply(&mut m, SECOND_OWNER_ORIGIN, FISRT_ID, FISRT_ID, Some(FISRT_ID), true),
        Ok(())
    );
    // Replies storage updated succesfully
    let reply = m.reply_by_id((FISRT_ID, FISRT_ID, SECOND_ID));
    assert!(matches!(reply, Some(reply) if reply == get_reply(&m, true)));
    assert_eq!(m.replies_count((FISRT_ID, FISRT_ID)), 2);
    // Check up all changes, related to given post id
    let mut child_reply_ids_set = BTreeSet::new();
    child_reply_ids_set.insert(SECOND_ID);
    let mut reply_ids_by_owner_set = BTreeSet::new();
    let child_reply_ids = m.post_child_reply_ids((FISRT_ID, FISRT_ID, FISRT_ID));
    let reply_ids_by_owner = m.reply_ids_by_owner(direct_reply_owner_id);
    // Direct reply id
    reply_ids_by_owner_set.insert((FISRT_ID, FISRT_ID, SECOND_ID));
    assert!(matches!(child_reply_ids, Some(child_reply_ids) if child_reply_ids == child_reply_ids_set));
    assert!(matches!(reply_ids_by_owner, Some(reply_ids_by_owner) if reply_ids_by_owner == reply_ids_by_owner_set));
    // Event checked
    let direct_reply_created_event = RawEvent::DirectReplyCreated(
        direct_reply_owner_id,
        FISRT_ID,
        FISRT_ID,
        FISRT_ID,
        SECOND_ID,
    );
    assert!(m.events().iter().any(|a| *a == direct_reply_created_event));
}
