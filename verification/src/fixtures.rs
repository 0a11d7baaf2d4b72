//! Ready-made requests against a module: posts and replies that are valid or
//! that break one limit, the calls that send them, and checks on the storage
//! and on the event log.

use vstd::prelude::*;

use crate::mock::{generate_text, text_of};
use crate::module::{follows, BlogConfig, BlogModule, BlogState};
use crate::types::{AccountId, BlogError, BlogId, Origin, Post, PostId, RawEvent, ReplyId};

verus! {

/// The first blog, post or reply identifier.
pub const FISRT_ID: u32 = 0;

/// The second blog, post or reply identifier.
pub const SECOND_ID: u32 = 1;

/// The account that creates the first blog.
pub const FIRST_OWNER_ORIGIN: AccountId = 1;

/// Another account.
pub const SECOND_OWNER_ORIGIN: AccountId = 2;

/// Which post to make: a valid one, or one whose title or body is one byte too long.
#[derive(Clone, Copy, Debug, PartialEq, Eq, Structural)]
pub enum PostType {
    Valid,
    PostTitleInvalid,
    PostBodyInvalid,
}

/// The lengths of title and body of the post `get_post` makes: a valid post
/// is as long as allowed, one byte shorter when it is meant for editing, so
/// that it differs from the created one.
pub open spec fn post_lengths(config: BlogConfig, post_type: PostType, editing: bool) -> (nat, nat) {
    match post_type {
        PostType::Valid => if editing {
            (
                (config.post_title_max_length - 1) as nat,
                (config.post_body_max_length - 1) as nat,
            )
        } else {
            (config.post_title_max_length as nat, config.post_body_max_length as nat)
        },
        PostType::PostTitleInvalid => (
            (config.post_title_max_length + 1) as nat,
            config.post_body_max_length as nat,
        ),
        PostType::PostBodyInvalid => (
            config.post_title_max_length as nat,
            (config.post_body_max_length + 1) as nat,
        ),
    }
}

/// The lengths that `post_lengths` computes fit a `u32`.
pub open spec fn post_lengths_fit(config: BlogConfig, post_type: PostType, editing: bool) -> bool {
    match post_type {
        PostType::Valid => editing ==> config.post_title_max_length >= 1
            && config.post_body_max_length >= 1,
        PostType::PostTitleInvalid => config.post_title_max_length < u32::MAX,
        PostType::PostBodyInvalid => config.post_body_max_length < u32::MAX,
    }
}

/// The posts `get_post` makes relate to the limits as their kind says: a
/// valid post fits, and when not meant for editing it is as long as allowed
/// while the one meant for editing is one byte shorter in both parts; an
/// invalid post overruns exactly the limit its kind names, by one byte, and
/// keeps the other part at its limit.
pub proof fn lemma_post_kinds(config: BlogConfig, post_type: PostType, editing: bool)
    requires
        post_lengths_fit(config, post_type, editing),
    ensures
        ({
            let (t, b) = post_lengths(config, post_type, editing);
            let tm = config.post_title_max_length as nat;
            let bm = config.post_body_max_length as nat;
            &&& post_type is Valid ==> t <= tm && b <= bm
            &&& post_type is Valid && !editing ==> t == tm && b == bm
            &&& post_type is Valid && editing ==> t + 1 == tm && b + 1 == bm
            &&& post_type is PostTitleInvalid ==> t == tm + 1 && b == bm
            &&& post_type is PostBodyInvalid ==> t == tm && b == bm + 1
        }),
{
}

/// A valid reply is as long as allowed, an invalid one a byte longer.
pub proof fn lemma_reply_kinds(config: BlogConfig, is_valid: bool)
    requires
        !is_valid ==> config.reply_max_length < u32::MAX,
    ensures
        is_valid ==> reply_length(config, is_valid) == config.reply_max_length,
        !is_valid ==> reply_length(config, is_valid) == config.reply_max_length + 1,
{
}

/// The length of the reply `get_reply` makes: as long as allowed, or one byte longer.
pub open spec fn reply_length(config: BlogConfig, is_valid: bool) -> nat {
    if is_valid {
        config.reply_max_length as nat
    } else {
        (config.reply_max_length + 1) as nat
    }
}

/// A post of the given kind, built from generated texts.
pub fn get_post(module: &BlogModule, post_type: PostType, editing: bool) -> (post: Post)
    requires
        post_lengths_fit(module@.config, post_type, editing),
    ensures
        post.title@ == text_of(post_lengths(module@.config, post_type, editing).0),
        post.body@ == text_of(post_lengths(module@.config, post_type, editing).1),
{
    let config = module.config();
    let title_max = config.post_title_max_length;
    let body_max = config.post_body_max_length;
    let (title, body) = match post_type {
        PostType::Valid => if editing {
            (generate_text((title_max - 1) as usize), generate_text((body_max - 1) as usize))
        } else {
            (generate_text(title_max as usize), generate_text(body_max as usize))
        },
        PostType::PostTitleInvalid => (
            generate_text((title_max + 1) as usize),
            generate_text(body_max as usize),
        ),
        PostType::PostBodyInvalid => (
            generate_text(title_max as usize),
            generate_text((body_max + 1) as usize),
        ),
    };
    Post::new(title, body)
}

/// A reply text as long as allowed when `is_valid`, else one byte longer.
pub fn get_reply(module: &BlogModule, is_valid: bool) -> (text: Vec<u8>)
    requires
        !is_valid ==> module@.config.reply_max_length < u32::MAX,
    ensures
        text@ == text_of(reply_length(module@.config, is_valid)),
{
    let max = module.config().reply_max_length;
    if is_valid {
        generate_text(max as usize)
    } else {
        generate_text((max + 1) as usize)
    }
}

/// `origin_id` creates a post of the given kind in blog `blog_id`.
pub fn create_post(module: &mut BlogModule, origin_id: AccountId, blog_id: BlogId, post_type: PostType) -> (r:
    Result<(), BlogError>)
    requires
        post_lengths_fit(old(module)@.config, post_type, false),
    ensures
        follows(
            old(module)@,
            final(module)@,
            r,
            old(module)@.create_post_outcome(
                Origin::Signed(origin_id),
                blog_id,
                text_of(post_lengths(old(module)@.config, post_type, false).0),
                text_of(post_lengths(old(module)@.config, post_type, false).1),
            ),
        ),
{
    let post = get_post(module, post_type, false);
    module.create_post(Origin::signed(origin_id), blog_id, post.title, post.body)
}

/// `origin_id` replaces title and body of a post with those of a post of the given kind,
/// made for editing.
pub fn edit_post(
    module: &mut BlogModule,
    origin_id: AccountId,
    blog_id: BlogId,
    post_id: PostId,
    post_type: PostType,
) -> (r: Result<(), BlogError>)
    requires
        post_lengths_fit(old(module)@.config, post_type, true),
    ensures
        follows(
            old(module)@,
            final(module)@,
            r,
            old(module)@.edit_post_outcome(
                Origin::Signed(origin_id),
                blog_id,
                post_id,
                Some(text_of(post_lengths(old(module)@.config, post_type, true).0)),
                Some(text_of(post_lengths(old(module)@.config, post_type, true).1)),
            ),
        ),
{
    let post = get_post(module, post_type, true);
    module.edit_post(Origin::signed(origin_id), blog_id, post_id, Some(post.title), Some(post.body))
}

/// `origin_id` replies to a post, or to the reply `reply_id` of it, with a
/// valid or an over-long text.
pub fn create_reply(
    module: &mut BlogModule,
    origin_id: AccountId,
    blog_id: BlogId,
    post_id: PostId,
    reply_id: Option<ReplyId>,
    is_valid: bool,
) -> (r: Result<(), BlogError>)
    requires
        !is_valid ==> old(module)@.config.reply_max_length < u32::MAX,
    ensures
        follows(
            old(module)@,
            final(module)@,
            r,
            old(module)@.create_reply_outcome(
                Origin::Signed(origin_id),
                blog_id,
                post_id,
                reply_id,
                text_of(reply_length(old(module)@.config, is_valid)),
            ),
        ),
{
    let reply = get_reply(module, is_valid);
    module.create_reply(Origin::signed(origin_id), blog_id, post_id, reply_id, reply)
}

/// Whether `event` is absent from `events`.
fn event_absent(events: &Vec<RawEvent>, event: RawEvent) -> (absent: bool)
    ensures
        absent == !events@.contains(event),
{
    let mut i: usize = 0;
    while i < events.len()
        invariant
            i <= events.len(),
            forall|j: int| 0 <= j < i ==> events@[j] != event,
        decreases events.len() - i,
    {
        if events[i] == event {
            return false;
        }
        i = i + 1;
    }
    true
}

/// Whether no `BlogLocked` event names `invalid_owner_origin` and the first blog.
pub fn blog_locking_event_failure(module: &BlogModule, invalid_owner_origin: AccountId) -> (absent: bool)
    ensures
        absent == !module@.events.contains(RawEvent::BlogLocked(invalid_owner_origin, FISRT_ID)),
{
    event_absent(module.events(), RawEvent::BlogLocked(invalid_owner_origin, FISRT_ID))
}

/// Whether no `BlogUnlocked` event names `invalid_owner_origin` and the first blog.
pub fn blog_unlocking_event_failure(module: &BlogModule, invalid_owner_origin: AccountId) -> (absent:
    bool)
    ensures
        absent == !module@.events.contains(RawEvent::BlogUnlocked(invalid_owner_origin, FISRT_ID)),
{
    event_absent(module.events(), RawEvent::BlogUnlocked(invalid_owner_origin, FISRT_ID))
}

/// Whether blog `blog_id` has no post identifiers, no post `post_id` and a post count of zero.
pub open spec fn posts_untouched(s: BlogState, blog_id: BlogId, post_id: PostId) -> bool {
    &&& !s.post_ids_by_blog_id.contains_key(blog_id)
    &&& !s.post_by_id.contains_key((blog_id, post_id))
    &&& s.posts_count_of(blog_id) == 0
}

/// Whether the post storage of blog `blog_id` is as before any post was created.
pub fn post_storage_unchanged(module: &BlogModule, blog_id: BlogId, post_id: PostId) -> (r: bool)
    ensures
        r == posts_untouched(module@, blog_id, post_id),
{
    module.post_ids_by_blog_id(blog_id).is_none() && module.post_by_id((blog_id, post_id)).is_none()
        && module.posts_count(blog_id) == 0
}

/// Whether no `PostCreated` event names the post.
pub fn post_creation_event_failure(module: &BlogModule, blog_id: BlogId, post_id: PostId) -> (absent:
    bool)
    ensures
        absent == !module@.events.contains(RawEvent::PostCreated(blog_id, post_id)),
{
    event_absent(module.events(), RawEvent::PostCreated(blog_id, post_id))
}

/// Whether no `PostLocked` event names the post.
pub fn post_locking_event_failure(module: &BlogModule, blog_id: BlogId, post_id: PostId) -> (absent:
    bool)
    ensures
        absent == !module@.events.contains(RawEvent::PostLocked(blog_id, post_id)),
{
    event_absent(module.events(), RawEvent::PostLocked(blog_id, post_id))
}

/// Whether no `PostUnlocked` event names the post.
pub fn post_unlocking_event_failure(module: &BlogModule, blog_id: BlogId, post_id: PostId) -> (absent:
    bool)
    ensures
        absent == !module@.events.contains(RawEvent::PostUnlocked(blog_id, post_id)),
{
    event_absent(module.events(), RawEvent::PostUnlocked(blog_id, post_id))
}

/// Whether no `PostEdited` event names the post.
pub fn post_editing_event_failure(module: &BlogModule, blog_id: BlogId, post_id: PostId) -> (absent:
    bool)
    ensures
        absent == !module@.events.contains(RawEvent::PostEdited(blog_id, post_id)),
{
    event_absent(module.events(), RawEvent::PostEdited(blog_id, post_id))
}

} // verus!
