//! What each call does, stated call by call: when it is accepted, what its
//! error means when it is refused, what it changes, and what it leaves alone.

use vstd::prelude::*;

use crate::laws::{blog_of, Call};
use crate::module::BlogState;
use crate::types::{signer, AccountId, BlogError, BlogId, Origin, PostId, PostView, RawEvent, ReplyId};

verus! {

/// The set stored under `k`, or the empty set where none is stored.
pub open spec fn listing<K, T>(m: Map<K, Set<T>>, k: K) -> Set<T> {
    if m.contains_key(k) {
        m[k]
    } else {
        Set::empty()
    }
}

/// The post a call names, if it names one.
pub open spec fn post_of(call: Call) -> Option<(BlogId, PostId)> {
    match call {
        Call::LockPost(b, p) => Some((b, p)),
        Call::UnlockPost(b, p) => Some((b, p)),
        Call::EditPost(b, p, _, _) => Some((b, p)),
        Call::CreateReply(b, p, _, _) => Some((b, p)),
        _ => None,
    }
}

/// Whether `origin` is signed by the owner of blog `b`.
pub open spec fn signed_by_owner(s: BlogState, origin: Origin, b: BlogId) -> bool {
    signer(origin) matches Ok(who) && s.owns(who, b)
}

/// Whether an optional text is given and longer than `max`.
pub open spec fn given_and_longer(t: Option<Seq<u8>>, max: u32) -> bool {
    t matches Some(v) && v.len() > max
}

/// The conditions under which a call must be accepted, all at once.
pub open spec fn accepts(s: BlogState, origin: Origin, call: Call) -> bool {
    match call {
        Call::CreateBlog => signer(origin) is Ok,
        Call::LockBlog(b) => signed_by_owner(s, origin, b),
        Call::UnlockBlog(b) => signed_by_owner(s, origin, b),
        Call::CreatePost(b, title, body) => {
            &&& signed_by_owner(s, origin, b)
            &&& !s.locked_blogs.contains(b)
            &&& title.len() <= s.config.post_title_max_length
            &&& body.len() <= s.config.post_body_max_length
            &&& s.posts_count_of(b) < s.config.posts_max_number
        },
        Call::LockPost(b, p) => signed_by_owner(s, origin, b) && s.post_by_id.contains_key((b, p)),
        Call::UnlockPost(b, p) => signed_by_owner(s, origin, b) && s.post_by_id.contains_key((b, p)),
        Call::EditPost(b, p, title, body) => {
            &&& signed_by_owner(s, origin, b)
            &&& s.post_by_id.contains_key((b, p))
            &&& !s.locked_blogs.contains(b)
            &&& !s.locked_posts.contains((b, p))
            &&& !given_and_longer(title, s.config.post_title_max_length)
            &&& !given_and_longer(body, s.config.post_body_max_length)
        },
        Call::CreateReply(b, p, parent, text) => {
            &&& signer(origin) is Ok
            &&& text.len() <= s.config.reply_max_length
            &&& s.post_by_id.contains_key((b, p))
            &&& !s.locked_blogs.contains(b)
            &&& !s.locked_posts.contains((b, p))
            &&& (parent matches Some(q) ==> s.reply_by_id.contains_key((b, p, q)))
            &&& s.replies_count_of((b, p)) < s.config.replies_max_number
        },
    }
}

/// What an error means: the condition it names fails for this call.
pub open spec fn refusal_explained(s: BlogState, origin: Origin, call: Call, e: BlogError) -> bool {
    match e {
        BlogError::BadOrigin => signer(origin) is Err,
        BlogError::BlogOwnerNotFound => signer(origin) matches Ok(who) && !s.blog_ids_by_owner.contains_key(
            who,
        ),
        BlogError::BlogOwnershipError => signer(origin) matches Ok(who) && blog_of(call) matches Some(b)
            && s.blog_ids_by_owner.contains_key(who) && !s.blog_ids_by_owner[who].contains(b),
        BlogError::BlogLockedError => blog_of(call) matches Some(b) && s.locked_blogs.contains(b),
        BlogError::PostTitleTooLong => (call matches Call::CreatePost(_, t, _) && t.len()
            > s.config.post_title_max_length) || (call matches Call::EditPost(_, _, t, _)
            && given_and_longer(t, s.config.post_title_max_length)),
        BlogError::PostBodyTooLong => (call matches Call::CreatePost(_, _, t) && t.len()
            > s.config.post_body_max_length) || (call matches Call::EditPost(_, _, _, t)
            && given_and_longer(t, s.config.post_body_max_length)),
        BlogError::PostsLimitReached => call matches Call::CreatePost(b, _, _) && s.posts_count_of(b)
            >= s.config.posts_max_number,
        BlogError::PostNotFound => post_of(call) matches Some(k) && !s.post_by_id.contains_key(k),
        BlogError::PostLockedError => post_of(call) matches Some(k) && s.locked_posts.contains(k),
        BlogError::ReplyTooLong => call matches Call::CreateReply(_, _, _, t) && t.len()
            > s.config.reply_max_length,
        BlogError::ReplyNotFound => call matches Call::CreateReply(b, p, Some(q), _)
            && !s.reply_by_id.contains_key((b, p, q)),
        BlogError::RepliesLimitReached => call matches Call::CreateReply(b, p, _, _) && s.replies_count_of(
            (b, p),
        ) >= s.config.replies_max_number,
    }
}

/// A call is accepted exactly when all the conditions of `accepts` hold:
/// every such call succeeds, and every other is refused.
pub proof fn lemma_success_is_owed(s: BlogState, origin: Origin, call: Call)
    ensures
        s.dispatch(origin, call) is Ok <==> accepts(s, origin, call),
{
}

/// Every refusal names a condition that really fails for the call.
pub proof fn lemma_refusal_explained(s: BlogState, origin: Origin, call: Call)
    ensures
        s.dispatch(origin, call) matches Err(e) ==> refusal_explained(s, origin, call, e),
{
}

/// A title, body or reply text longer than its limit is refused in every
/// state, whatever the other arguments are.
pub proof fn lemma_too_long_texts_refused(s: BlogState, origin: Origin, call: Call)
    requires
        (call matches Call::CreatePost(_, title, body) && (title.len() > s.config.post_title_max_length
            || body.len() > s.config.post_body_max_length)) || (call matches Call::EditPost(
            _,
            _,
            title,
            body,
        ) && (given_and_longer(title, s.config.post_title_max_length) || given_and_longer(
            body,
            s.config.post_body_max_length,
        ))) || (call matches Call::CreateReply(_, _, _, text) && text.len()
            > s.config.reply_max_length),
    ensures
        s.dispatch(origin, call) is Err,
{
}

/// Each part of the storage is changed only by the calls that are about it;
/// every other accepted call leaves it exactly as it was.
pub proof fn lemma_call_frame(s: BlogState, origin: Origin, call: Call)
    ensures
        s.dispatch(origin, call) matches Ok(next) ==> {
            &&& next.config == s.config
            &&& !(call is CreateBlog) ==> next.blogs_count == s.blogs_count && next.blog_ids_by_owner
                == s.blog_ids_by_owner
            &&& !(call is LockBlog || call is UnlockBlog) ==> next.locked_blogs == s.locked_blogs
            &&& !(call is CreatePost) ==> next.posts_count == s.posts_count && next.post_ids_by_blog_id
                == s.post_ids_by_blog_id
            &&& !(call is CreatePost || call is EditPost) ==> next.post_by_id == s.post_by_id
            &&& !(call is LockPost || call is UnlockPost) ==> next.locked_posts == s.locked_posts
            &&& !(call is CreateReply) ==> {
                &&& next.replies_count == s.replies_count
                &&& next.reply_by_id == s.reply_by_id
                &&& next.reply_ids_by_owner == s.reply_ids_by_owner
            }
            &&& !(call matches Call::CreateReply(_, _, None, _)) ==> next.post_root_reply_ids
                == s.post_root_reply_ids
            &&& !(call matches Call::CreateReply(_, _, Some(_), _)) ==> next.post_child_reply_ids
                == s.post_child_reply_ids
        },
{
}

/// Listings only grow: every blog, post or reply listed under a key before
/// an accepted call is still listed under that key after it.
pub proof fn lemma_listings_only_grow(s: BlogState, origin: Origin, call: Call)
    ensures
        s.dispatch(origin, call) matches Ok(next) ==> {
            &&& forall|o: AccountId| #[trigger]
                listing(s.blog_ids_by_owner, o).subset_of(listing(next.blog_ids_by_owner, o))
            &&& forall|b: BlogId| #[trigger]
                listing(s.post_ids_by_blog_id, b).subset_of(listing(next.post_ids_by_blog_id, b))
            &&& forall|k: (BlogId, PostId)| #[trigger]
                listing(s.post_root_reply_ids, k).subset_of(listing(next.post_root_reply_ids, k))
            &&& forall|k: (BlogId, PostId, ReplyId)| #[trigger]
                listing(s.post_child_reply_ids, k).subset_of(listing(next.post_child_reply_ids, k))
            &&& forall|o: AccountId| #[trigger]
                listing(s.reply_ids_by_owner, o).subset_of(listing(next.reply_ids_by_owner, o))
        },
{
}

/// An accepted `create_blog` gives the signer the former blog count as the
/// new blog's identifier, lists it beside the signer's other blogs, lists
/// nothing new for anyone else, and reports `BlogCreated` with both.
pub proof fn lemma_create_blog_effect(s: BlogState, origin: Origin)
    ensures
        s.create_blog_outcome(origin) matches Ok(next) ==> {
            let who = signer(origin)->Ok_0;
            &&& next.blogs_count == s.blogs_count + 1 || s.blogs_count == u32::MAX
            &&& listing(next.blog_ids_by_owner, who) == listing(s.blog_ids_by_owner, who).insert(s.blogs_count)
            &&& forall|o: AccountId| o != who ==> #[trigger] listing(next.blog_ids_by_owner, o) == listing(
                s.blog_ids_by_owner,
                o,
            )
            &&& next.events.last() == RawEvent::BlogCreated(who, s.blogs_count)
        },
{
}

/// An accepted `lock_blog` leaves blog `b` locked, every other blog as it
/// was, and reports `BlogLocked` with the owner and the blog.
pub proof fn lemma_lock_blog_effect(s: BlogState, origin: Origin, b: BlogId)
    ensures
        s.lock_blog_outcome(origin, b) matches Ok(next) ==> {
            &&& next.locked_blogs.contains(b)
            &&& forall|c: BlogId| c != b ==> #[trigger] next.locked_blogs.contains(c) == s.locked_blogs.contains(c)
            &&& next.events.last() == RawEvent::BlogLocked(signer(origin)->Ok_0, b)
        },
{
}

/// An accepted `unlock_blog` leaves blog `b` unlocked, whether or not it was
/// locked before, every other blog as it was, and reports `BlogUnlocked`.
pub proof fn lemma_unlock_blog_effect(s: BlogState, origin: Origin, b: BlogId)
    ensures
        s.unlock_blog_outcome(origin, b) matches Ok(next) ==> {
            &&& !next.locked_blogs.contains(b)
            &&& forall|c: BlogId| c != b ==> #[trigger] next.locked_blogs.contains(c) == s.locked_blogs.contains(c)
            &&& next.events.last() == RawEvent::BlogUnlocked(signer(origin)->Ok_0, b)
        },
{
}

/// An accepted `lock_post` leaves post `(b, p)` locked, every other post as
/// it was, and reports `PostLocked`.
pub proof fn lemma_lock_post_effect(s: BlogState, origin: Origin, b: BlogId, p: PostId)
    ensures
        s.lock_post_outcome(origin, b, p) matches Ok(next) ==> {
            &&& next.locked_posts.contains((b, p))
            &&& forall|k: (BlogId, PostId)| k != (b, p) ==> #[trigger] next.locked_posts.contains(k)
                == s.locked_posts.contains(k)
            &&& next.events.last() == RawEvent::PostLocked(b, p)
        },
{
}

/// An accepted `unlock_post` leaves post `(b, p)` unlocked, whether or not
/// it was locked before, every other post as it was, and reports `PostUnlocked`.
pub proof fn lemma_unlock_post_effect(s: BlogState, origin: Origin, b: BlogId, p: PostId)
    ensures
        s.unlock_post_outcome(origin, b, p) matches Ok(next) ==> {
            &&& !next.locked_posts.contains((b, p))
            &&& forall|k: (BlogId, PostId)| k != (b, p) ==> #[trigger] next.locked_posts.contains(k)
                == s.locked_posts.contains(k)
            &&& next.events.last() == RawEvent::PostUnlocked(b, p)
        },
{
}

/// An accepted `create_post` stores the post under the blog's former post
/// count, which was free, lists it beside the blog's other posts, raises the
/// blog's count by one, touches no other blog and no other post, and
/// reports `PostCreated`.
pub proof fn lemma_create_post_effect(s: BlogState, origin: Origin, b: BlogId, title: Seq<u8>, body: Seq<u8>)
    requires
        s.inv(),
    ensures
        s.create_post_outcome(origin, b, title, body) matches Ok(next) ==> {
            let c = s.posts_count_of(b);
            &&& !s.post_by_id.contains_key((b, c))
            &&& next.post_by_id.contains_key((b, c))
            &&& next.post_by_id[(b, c)] == PostView { title, body }
            &&& title.len() <= s.config.post_title_max_length
            &&& body.len() <= s.config.post_body_max_length
            &&& forall|k: (BlogId, PostId)| k != (b, c) ==> #[trigger] next.post_by_id.contains_key(k)
                == s.post_by_id.contains_key(k) && next.post_by_id[k] == s.post_by_id[k]
            &&& next.posts_count_of(b) == c + 1
            &&& forall|d: BlogId| d != b ==> #[trigger] next.posts_count_of(d) == s.posts_count_of(d)
            &&& listing(next.post_ids_by_blog_id, b) == listing(s.post_ids_by_blog_id, b).insert(c)
            &&& forall|d: BlogId| d != b ==> #[trigger] listing(next.post_ids_by_blog_id, d) == listing(
                s.post_ids_by_blog_id,
                d,
            )
            &&& next.events.last() == RawEvent::PostCreated(b, c)
        },
{
}

/// An accepted `edit_post` keeps the post within its length limits and
/// reports `PostEdited`.
pub proof fn lemma_edit_post_effect(
    s: BlogState,
    origin: Origin,
    b: BlogId,
    p: PostId,
    title: Option<Seq<u8>>,
    body: Option<Seq<u8>>,
)
    requires
        s.inv(),
    ensures
        s.edit_post_outcome(origin, b, p, title, body) matches Ok(next) ==> {
            &&& next.post_by_id[(b, p)].title.len() <= s.config.post_title_max_length
            &&& next.post_by_id[(b, p)].body.len() <= s.config.post_body_max_length
            &&& next.events.last() == RawEvent::PostEdited(b, p)
        },
{
}

/// An accepted `create_reply` stores the text under the post's former reply
/// count, which was free, raises that count by one, and lists the new reply
/// beside the writer's earlier replies and, for a direct reply, beside every
/// reply already listed under the post, or, for a reply to reply `q`, beside
/// every reply already listed under `q`. No other reply, count or listing
/// changes, and the event names the writer, the post, the parent and the reply.
pub proof fn lemma_create_reply_effect(
    s: BlogState,
    origin: Origin,
    b: BlogId,
    p: PostId,
    parent: Option<ReplyId>,
    text: Seq<u8>,
)
    requires
        s.inv(),
    ensures
        s.create_reply_outcome(origin, b, p, parent, text) matches Ok(next) ==> {
            let r = s.replies_count_of((b, p));
            let who = signer(origin)->Ok_0;
            &&& !s.reply_by_id.contains_key((b, p, r))
            &&& next.reply_by_id.contains_key((b, p, r))
            &&& next.reply_by_id[(b, p, r)] == text
            &&& text.len() <= s.config.reply_max_length
            &&& forall|k: (BlogId, PostId, ReplyId)| k != (b, p, r) ==> #[trigger] next.reply_by_id.contains_key(k)
                == s.reply_by_id.contains_key(k) && next.reply_by_id[k] == s.reply_by_id[k]
            &&& next.replies_count_of((b, p)) == r + 1
            &&& forall|k: (BlogId, PostId)| k != (b, p) ==> #[trigger] next.replies_count_of(k)
                == s.replies_count_of(k)
            &&& listing(next.reply_ids_by_owner, who) == listing(s.reply_ids_by_owner, who).insert((b, p, r))
            &&& forall|o: AccountId| o != who ==> #[trigger] listing(next.reply_ids_by_owner, o) == listing(
                s.reply_ids_by_owner,
                o,
            )
            &&& match parent {
                None => {
                    &&& listing(next.post_root_reply_ids, (b, p)) == listing(s.post_root_reply_ids, (b, p)).insert(r)
                    &&& forall|k: (BlogId, PostId)| k != (b, p) ==> #[trigger] listing(next.post_root_reply_ids, k)
                        == listing(s.post_root_reply_ids, k)
                    &&& next.post_child_reply_ids == s.post_child_reply_ids
                    &&& next.events.last() == RawEvent::ReplyCreated(who, b, p, r)
                },
                Some(q) => {
                    &&& listing(next.post_child_reply_ids, (b, p, q)) == listing(
                        s.post_child_reply_ids,
                        (b, p, q),
                    ).insert(r)
                    &&& forall|k: (BlogId, PostId, ReplyId)| k != (b, p, q) ==> #[trigger] listing(
                        next.post_child_reply_ids,
                        k,
                    ) == listing(s.post_child_reply_ids, k)
                    &&& next.post_root_reply_ids == s.post_root_reply_ids
                    &&& next.events.last() == RawEvent::DirectReplyCreated(who, b, p, q, r)
                },
            }
        },
{
}

} // verus!
