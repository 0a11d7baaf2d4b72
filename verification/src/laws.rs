//! What holds of the module across calls: the storage stays consistent,
//! every accepted call deposits exactly one event, nothing created is ever
//! removed, only owners write to their blogs, locks keep writes out, and
//! locking then unlocking gives back the state that locking found.

use vstd::prelude::*;

use crate::module::{count_or_zero, BlogConfig, BlogState};
use crate::types::{signer, AccountId, BlogError, BlogId, Origin, PostId, PostView, RawEvent, ReplyId};

verus! {

/// A dispatchable call with its arguments, texts taken by their views.
pub enum Call {
    CreateBlog,
    LockBlog(BlogId),
    UnlockBlog(BlogId),
    CreatePost(BlogId, Seq<u8>, Seq<u8>),
    LockPost(BlogId, PostId),
    UnlockPost(BlogId, PostId),
    EditPost(BlogId, PostId, Option<Seq<u8>>, Option<Seq<u8>>),
    CreateReply(BlogId, PostId, Option<ReplyId>, Seq<u8>),
}

impl BlogState {
    /// What `call`, dispatched by `origin`, does to this state.
    pub open spec fn dispatch(self, origin: Origin, call: Call) -> Result<BlogState, BlogError> {
        match call {
            Call::CreateBlog => self.create_blog_outcome(origin),
            Call::LockBlog(b) => self.lock_blog_outcome(origin, b),
            Call::UnlockBlog(b) => self.unlock_blog_outcome(origin, b),
            Call::CreatePost(b, title, body) => self.create_post_outcome(origin, b, title, body),
            Call::LockPost(b, p) => self.lock_post_outcome(origin, b, p),
            Call::UnlockPost(b, p) => self.unlock_post_outcome(origin, b, p),
            Call::EditPost(b, p, title, body) => self.edit_post_outcome(origin, b, p, title, body),
            Call::CreateReply(b, p, parent, text) => self.create_reply_outcome(origin, b, p, parent, text),
        }
    }

    /// The storage is consistent: identifiers are given out in order and
    /// never twice, every blog has one owner, every post, lock and reply
    /// belongs to something that exists, the indexes agree with what they
    /// index, no blog or post holds more than its limit, and every stored
    /// title, body and reply text is within its length limit.
    pub open spec fn inv(self) -> bool {
        &&& forall|o: AccountId, b: BlogId|
            self.blog_ids_by_owner.contains_key(o) && #[trigger] self.blog_ids_by_owner[o].contains(b)
                ==> b < self.blogs_count
        &&& forall|o1: AccountId, o2: AccountId, b: BlogId|
            self.blog_ids_by_owner.contains_key(o1) && self.blog_ids_by_owner.contains_key(o2)
                && #[trigger] self.blog_ids_by_owner[o1].contains(b)
                && #[trigger] self.blog_ids_by_owner[o2].contains(b) ==> o1 == o2
        &&& forall|b: BlogId| #[trigger] self.locked_blogs.contains(b) ==> b < self.blogs_count
        &&& forall|b: BlogId| #[trigger]
            self.posts_count.contains_key(b) ==> b < self.blogs_count && self.posts_count[b]
                <= self.config.posts_max_number
        &&& forall|b: BlogId, p: PostId| #[trigger]
            self.post_by_id.contains_key((b, p)) <==> p < self.posts_count_of(b)
        &&& forall|b: BlogId| #[trigger]
            self.post_ids_by_blog_id.contains_key(b) <==> self.posts_count.contains_key(b)
        &&& forall|b: BlogId, p: PostId|
            self.post_ids_by_blog_id.contains_key(b) ==> (#[trigger] self.post_ids_by_blog_id[b].contains(p)
                <==> p < self.posts_count_of(b))
        &&& forall|k: (BlogId, PostId)| #[trigger]
            self.locked_posts.contains(k) ==> self.post_by_id.contains_key(k)
        &&& forall|k: (BlogId, PostId)| #[trigger]
            self.replies_count.contains_key(k) ==> self.post_by_id.contains_key(k)
                && self.replies_count[k] <= self.config.replies_max_number
        &&& forall|b: BlogId, p: PostId, r: ReplyId| #[trigger]
            self.reply_by_id.contains_key((b, p, r)) <==> r < self.replies_count_of((b, p))
        &&& forall|k: (BlogId, PostId), r: ReplyId|
            self.post_root_reply_ids.contains_key(k) && #[trigger] self.post_root_reply_ids[k].contains(r)
                ==> self.reply_by_id.contains_key((k.0, k.1, r))
        &&& forall|k: (BlogId, PostId, ReplyId), r: ReplyId|
            self.post_child_reply_ids.contains_key(k) && #[trigger] self.post_child_reply_ids[k].contains(r)
                ==> k.2 < r && self.reply_by_id.contains_key((k.0, k.1, r))
        &&& forall|o: AccountId, k: (BlogId, PostId, ReplyId)|
            self.reply_ids_by_owner.contains_key(o) && #[trigger] self.reply_ids_by_owner[o].contains(k)
                ==> self.reply_by_id.contains_key(k)
        &&& forall|k: (BlogId, PostId)| #[trigger]
            self.post_by_id.contains_key(k) ==> self.post_by_id[k].title.len() <= self.config.post_title_max_length
                && self.post_by_id[k].body.len() <= self.config.post_body_max_length
        &&& forall|k: (BlogId, PostId, ReplyId)| #[trigger]
            self.reply_by_id.contains_key(k) ==> self.reply_by_id[k].len() <= self.config.reply_max_length
    }
}

/// A freshly built module is consistent.
pub proof fn lemma_genesis_consistent(config: BlogConfig)
    ensures
        BlogState::genesis(config).inv(),
{
}

/// A freshly built module holds nothing: no blog, lock, post, reply or event.
pub proof fn lemma_genesis_is_empty(config: BlogConfig)
    ensures
        ({
            let g = BlogState::genesis(config);
            &&& g.config == config
            &&& g.blogs_count == 0
            &&& g.blog_ids_by_owner.dom().is_empty()
            &&& g.locked_blogs.is_empty()
            &&& g.posts_count.dom().is_empty()
            &&& g.post_by_id.dom().is_empty()
            &&& g.post_ids_by_blog_id.dom().is_empty()
            &&& g.locked_posts.is_empty()
            &&& g.replies_count.dom().is_empty()
            &&& g.reply_by_id.dom().is_empty()
            &&& g.post_root_reply_ids.dom().is_empty()
            &&& g.post_child_reply_ids.dom().is_empty()
            &&& g.reply_ids_by_owner.dom().is_empty()
            &&& g.events.len() == 0
        }),
{
}

/// Every accepted call keeps the storage consistent (a blog can be created
/// only while the blog counter has room).
pub proof fn lemma_call_keeps_consistency(s: BlogState, origin: Origin, call: Call)
    requires
        s.inv(),
        call is CreateBlog ==> s.blogs_count < u32::MAX,
    ensures
        s.dispatch(origin, call) matches Ok(next) ==> next.inv(),
{
}

/// The blog a call names, if it names one.
pub open spec fn blog_of(call: Call) -> Option<BlogId> {
    match call {
        Call::CreateBlog => None,
        Call::LockBlog(b) => Some(b),
        Call::UnlockBlog(b) => Some(b),
        Call::CreatePost(b, _, _) => Some(b),
        Call::LockPost(b, _) => Some(b),
        Call::UnlockPost(b, _) => Some(b),
        Call::EditPost(b, _, _, _) => Some(b),
        Call::CreateReply(b, _, _, _) => Some(b),
    }
}

/// Every accepted call deposits exactly one event, after all earlier ones.
pub proof fn lemma_accepted_call_deposits_one_event(s: BlogState, origin: Origin, call: Call)
    ensures
        s.dispatch(origin, call) matches Ok(next) ==> {
            &&& next.events.len() == s.events.len() + 1
            &&& next.events.drop_last() == s.events
        },
{
    if let Ok(next) = s.dispatch(origin, call) {
        assert(next.events.drop_last() =~= s.events);
    }
}

/// No accepted call removes anything: blogs keep their owners, posts and
/// replies stay, reply texts never change, counters never go down and the
/// configuration stays as it was.
pub proof fn lemma_nothing_created_is_removed(s: BlogState, origin: Origin, call: Call)
    requires
        s.inv(),
        call is CreateBlog ==> s.blogs_count < u32::MAX,
    ensures
        s.dispatch(origin, call) matches Ok(next) ==> {
            &&& next.config == s.config
            &&& s.blogs_count <= next.blogs_count
            &&& forall|o: AccountId, b: BlogId| #[trigger] s.owns(o, b) ==> next.owns(o, b)
            &&& forall|b: BlogId| s.posts_count_of(b) <= #[trigger] next.posts_count_of(b)
            &&& forall|k: (BlogId, PostId)| #[trigger]
                s.post_by_id.contains_key(k) ==> next.post_by_id.contains_key(k)
            &&& forall|k: (BlogId, PostId)| s.replies_count_of(k) <= #[trigger] next.replies_count_of(k)
            &&& forall|k: (BlogId, PostId, ReplyId)| #[trigger]
                s.reply_by_id.contains_key(k) ==> next.reply_by_id.contains_key(k)
                    && next.reply_by_id[k] == s.reply_by_id[k]
        },
{
    if let Ok(next) = s.dispatch(origin, call) {
        if let Call::CreateReply(b, p, parent, text) = call {
            let r = s.replies_count_of((b, p));
            assert(!s.reply_by_id.contains_key((b, p, r)));
        }
    }
}

/// Only the owner of a blog can change it or its posts: an accepted call that
/// names a blog, other than a reply, was signed by that blog's owner.
pub proof fn lemma_only_owner_writes(s: BlogState, origin: Origin, call: Call)
    requires
        !(call is CreateReply),
    ensures
        s.dispatch(origin, call) is Ok ==> (blog_of(call) matches Some(b) ==> (signer(origin) matches Ok(
            who,
        ) && s.owns(who, b))),
{
}

/// A locked blog takes no new post, no edit and no reply.
pub proof fn lemma_locked_blog_refuses_writes(s: BlogState, origin: Origin, call: Call)
    requires
        call is CreatePost || call is EditPost || call is CreateReply,
        blog_of(call) matches Some(b) && s.locked_blogs.contains(b),
    ensures
        s.dispatch(origin, call) is Err,
{
}

/// A locked post takes no edit and no reply.
pub proof fn lemma_locked_post_refuses_writes(s: BlogState, origin: Origin, b: BlogId, p: PostId, call: Call)
    requires
        s.locked_posts.contains((b, p)),
        (call matches Call::EditPost(cb, cp, _, _) && cb == b && cp == p) || (call matches Call::CreateReply(
            cb,
            cp,
            _,
            _,
        ) && cb == b && cp == p),
    ensures
        s.dispatch(origin, call) is Err,
{
}

/// Locking a blog and then unlocking it, by the same origin, either is
/// refused at the first step with nothing changed, or succeeds twice and
/// leaves the blog unlocked; a blog that was unlocked before is then locked
/// exactly as before.
pub proof fn lemma_lock_then_unlock_blog(s: BlogState, origin: Origin, b: BlogId)
    ensures
        match s.lock_blog_outcome(origin, b) {
            Err(e) => s.blog_owner_check(origin, b) == Err::<AccountId, BlogError>(e),
            Ok(locked) => locked.locked_blogs.contains(b) && match locked.unlock_blog_outcome(origin, b) {
                Ok(unlocked) => {
                    &&& unlocked.locked_blogs == s.locked_blogs.remove(b)
                    &&& !s.locked_blogs.contains(b) ==> unlocked.locked_blogs == s.locked_blogs
                    &&& unlocked.events.len() == s.events.len() + 2
                },
                Err(_) => false,
            },
        },
{
    if let Ok(locked) = s.lock_blog_outcome(origin, b) {
        if let Ok(unlocked) = locked.unlock_blog_outcome(origin, b) {
            assert(unlocked.locked_blogs =~= s.locked_blogs.remove(b));
        }
    }
}

/// Locking a post and then unlocking it, by the same origin, either is
/// refused at the first step, or succeeds twice and leaves the post
/// unlocked; a post that was unlocked before is then locked exactly as before.
pub proof fn lemma_lock_then_unlock_post(s: BlogState, origin: Origin, b: BlogId, p: PostId)
    ensures
        match s.lock_post_outcome(origin, b, p) {
            Err(_) => true,
            Ok(locked) => locked.locked_posts.contains((b, p)) && match locked.unlock_post_outcome(origin, b, p) {
                Ok(unlocked) => {
                    &&& unlocked.locked_posts == s.locked_posts.remove((b, p))
                    &&& !s.locked_posts.contains((b, p)) ==> unlocked.locked_posts == s.locked_posts
                    &&& unlocked.events.len() == s.events.len() + 2
                },
                Err(_) => false,
            },
        },
{
    if let Ok(locked) = s.lock_post_outcome(origin, b, p) {
        if let Ok(unlocked) = locked.unlock_post_outcome(origin, b, p) {
            assert(unlocked.locked_posts =~= s.locked_posts.remove((b, p)));
        }
    }
}

/// What a created post is read back as: the title and body it was created
/// with, under the blog's former post count, which grows by one; the post
/// starts unlocked.
pub proof fn lemma_created_post_reads_back(s: BlogState, origin: Origin, b: BlogId, title: Seq<u8>, body: Seq<u8>)
    requires
        s.inv(),
    ensures
        s.create_post_outcome(origin, b, title, body) matches Ok(next) ==> {
            &&& next.post_by_id.contains_key((b, s.posts_count_of(b)))
            &&& next.post_by_id[(b, s.posts_count_of(b))] == PostView { title, body }
            &&& next.posts_count_of(b) == s.posts_count_of(b) + 1
            &&& next.post_ids_by_blog_id[b].contains(s.posts_count_of(b))
            &&& next.events.last() == RawEvent::PostCreated(b, s.posts_count_of(b))
            &&& !next.locked_posts.contains((b, s.posts_count_of(b)))
        },
{
}

/// What an edited post is read back as: each part that was given, and the
/// former text of each part that was not; no other post changes.
pub proof fn lemma_edited_post_reads_back(
    s: BlogState,
    origin: Origin,
    b: BlogId,
    p: PostId,
    title: Option<Seq<u8>>,
    body: Option<Seq<u8>>,
)
    ensures
        s.edit_post_outcome(origin, b, p, title, body) matches Ok(next) ==> {
            &&& next.post_by_id.contains_key((b, p))
            &&& next.post_by_id[(b, p)].title == (match title {
                Some(t) => t,
                None => s.post_by_id[(b, p)].title,
            })
            &&& next.post_by_id[(b, p)].body == (match body {
                Some(t) => t,
                None => s.post_by_id[(b, p)].body,
            })
            &&& forall|k: (BlogId, PostId)| k != (b, p) ==> #[trigger] next.post_by_id.contains_key(k)
                == s.post_by_id.contains_key(k) && next.post_by_id[k] == s.post_by_id[k]
        },
{
}

/// What a created reply is read back as: its text under the post's former
/// reply count, listed among its writer's replies and under its parent, or
/// among the post's direct replies when it has none.
pub proof fn lemma_created_reply_reads_back(
    s: BlogState,
    origin: Origin,
    b: BlogId,
    p: PostId,
    parent: Option<ReplyId>,
    text: Seq<u8>,
)
    ensures
        s.create_reply_outcome(origin, b, p, parent, text) matches Ok(next) ==> {
            let r = s.replies_count_of((b, p));
            let who = signer(origin)->Ok_0;
            &&& next.reply_by_id.contains_key((b, p, r))
            &&& next.reply_by_id[(b, p, r)] == text
            &&& next.replies_count_of((b, p)) == r + 1
            &&& next.reply_ids_by_owner[who].contains((b, p, r))
            &&& match parent {
                None => next.post_root_reply_ids[(b, p)].contains(r),
                Some(q) => next.post_child_reply_ids[(b, p, q)].contains(r),
            }
        },
{
}

/// A created blog is read back among its creator's blogs, under the former
/// blog count, and starts unlocked.
pub proof fn lemma_created_blog_reads_back(s: BlogState, origin: Origin)
    requires
        s.inv(),
        s.blogs_count < u32::MAX,
    ensures
        s.create_blog_outcome(origin) matches Ok(next) ==> {
            &&& next.owns(signer(origin)->Ok_0, s.blogs_count)
            &&& next.blogs_count == s.blogs_count + 1
            &&& !next.locked_blogs.contains(s.blogs_count)
        },
{
}

} // verus!
