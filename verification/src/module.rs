//! The blog module's storage, its abstract state, and its dispatchable calls.
//!
//! Each call is specified by an outcome function on the abstract state
//! (`BlogState`): either the next state, or the error that refuses the call.
//! The executable calls are proved to follow their outcome exactly, and to
//! leave the module untouched when they refuse.

use std::collections::{BTreeMap, BTreeSet};
use vstd::laws_cmp::obeys_cmp;
use vstd::prelude::*;

use crate::types::{
    copy_bytes, ensure_signed, signer, AccountId, BlogError, BlogId, Origin, Post, PostId, PostView, RawEvent, ReplyId,
};

verus! {

/// The limits the module is configured with.
#[derive(Clone, Copy, Debug, PartialEq, Eq, Structural)]
pub struct BlogConfig {
    /// The longest post title, in bytes.
    pub post_title_max_length: u32,
    /// The longest post body, in bytes.
    pub post_body_max_length: u32,
    /// The longest reply text, in bytes.
    pub reply_max_length: u32,
    /// How many posts one blog may hold.
    pub posts_max_number: u32,
    /// How many replies one post may hold.
    pub replies_max_number: u32,
}

// ---------------------------------------------------------------------------
// Abstract state
// ---------------------------------------------------------------------------

/// The module's storage as mathematical maps and sets.
#[verifier::ext_equal]
pub struct BlogState {
    pub config: BlogConfig,
    /// The next blog identifier; also the number of blogs created.
    pub blogs_count: u32,
    /// The blogs each owner created.
    pub blog_ids_by_owner: Map<AccountId, Set<BlogId>>,
    /// The blogs that are locked.
    pub locked_blogs: Set<BlogId>,
    /// The next post identifier of each blog that has posts.
    pub posts_count: Map<BlogId, PostId>,
    /// The posts, by blog and post identifier.
    pub post_by_id: Map<(BlogId, PostId), PostView>,
    /// The post identifiers of each blog that has posts.
    pub post_ids_by_blog_id: Map<BlogId, Set<PostId>>,
    /// The posts that are locked.
    pub locked_posts: Set<(BlogId, PostId)>,
    /// The next reply identifier of each post that has replies.
    pub replies_count: Map<(BlogId, PostId), ReplyId>,
    /// The reply texts, by blog, post and reply identifier.
    pub reply_by_id: Map<(BlogId, PostId, ReplyId), Seq<u8>>,
    /// The replies made to each post directly.
    pub post_root_reply_ids: Map<(BlogId, PostId), Set<ReplyId>>,
    /// The replies made to each reply.
    pub post_child_reply_ids: Map<(BlogId, PostId, ReplyId), Set<ReplyId>>,
    /// The replies each account wrote.
    pub reply_ids_by_owner: Map<AccountId, Set<(BlogId, PostId, ReplyId)>>,
    /// The events deposited so far, oldest first.
    pub events: Seq<RawEvent>,
}

/// The value stored under `k`, or zero where nothing is stored.
pub open spec fn count_or_zero<K>(m: Map<K, u32>, k: K) -> u32 {
    if m.contains_key(k) {
        m[k]
    } else {
        0
    }
}

/// `m` with `x` added to the set stored under `k` (a new singleton where none is stored).
pub open spec fn with_member<K, T>(m: Map<K, Set<T>>, k: K, x: T) -> Map<K, Set<T>> {
    if m.contains_key(k) {
        m.insert(k, m[k].insert(x))
    } else {
        m.insert(k, Set::empty().insert(x))
    }
}

/// The views of the sets stored in `m`.
pub open spec fn set_views<K, T>(m: Map<K, BTreeSet<T>>) -> Map<K, Set<T>> {
    m.map_values(|s: BTreeSet<T>| s@)
}

/// The views of the posts stored in `m`.
pub open spec fn post_views<K>(m: Map<K, Post>) -> Map<K, PostView> {
    m.map_values(|p: Post| p@)
}

/// The views of the byte strings stored in `m`.
pub open spec fn byte_views<K>(m: Map<K, Vec<u8>>) -> Map<K, Seq<u8>> {
    m.map_values(|v: Vec<u8>| v@)
}

/// A call answered `r` and took the module from `before` to `after`, as
/// `outcome` says: on success the state is the outcome's next state, and on
/// refusal the call gives the outcome's error and changes nothing.
pub open spec fn follows(
    before: BlogState,
    after: BlogState,
    r: Result<(), BlogError>,
    outcome: Result<BlogState, BlogError>,
) -> bool {
    match outcome {
        Ok(next) => r is Ok && after == next,
        Err(e) => r == Err::<(), BlogError>(e) && after == before,
    }
}

/// `t` when it is given, else `current`.
pub open spec fn replace_if_given(current: Seq<u8>, t: Option<Seq<u8>>) -> Seq<u8> {
    match t {
        Some(v) => v,
        None => current,
    }
}

/// The view of an optional byte string.
pub open spec fn opt_bytes_view(t: Option<Vec<u8>>) -> Option<Seq<u8>> {
    match t {
        Some(v) => Some(v@),
        None => None,
    }
}

/// Whether an optional new text is longer than `max`.
pub open spec fn too_long(t: Option<Seq<u8>>, max: u32) -> bool {
    match t {
        Some(v) => v.len() > max,
        None => false,
    }
}

impl BlogState {
    /// The state of a freshly built module: nothing stored, no events.
    pub open spec fn genesis(config: BlogConfig) -> BlogState {
        BlogState {
            config,
            blogs_count: 0,
            blog_ids_by_owner: Map::empty(),
            locked_blogs: Set::empty(),
            posts_count: Map::empty(),
            post_by_id: Map::empty(),
            post_ids_by_blog_id: Map::empty(),
            locked_posts: Set::empty(),
            replies_count: Map::empty(),
            reply_by_id: Map::empty(),
            post_root_reply_ids: Map::empty(),
            post_child_reply_ids: Map::empty(),
            reply_ids_by_owner: Map::empty(),
            events: Seq::empty(),
        }
    }

    /// How many posts blog `b` holds.
    pub open spec fn posts_count_of(self, b: BlogId) -> u32 {
        count_or_zero(self.posts_count, b)
    }

    /// How many replies post `k` holds.
    pub open spec fn replies_count_of(self, k: (BlogId, PostId)) -> u32 {
        count_or_zero(self.replies_count, k)
    }

    /// Whether `who` created blog `b`.
    pub open spec fn owns(self, who: AccountId, b: BlogId) -> bool {
        self.blog_ids_by_owner.contains_key(who) && self.blog_ids_by_owner[who].contains(b)
    }

    /// The signer of `origin`, when that signer owns blog `b`; else why not.
    pub open spec fn blog_owner_check(self, origin: Origin, b: BlogId) -> Result<AccountId, BlogError> {
        match signer(origin) {
            Err(e) => Err(e),
            Ok(who) => if !self.blog_ids_by_owner.contains_key(who) {
                Err(BlogError::BlogOwnerNotFound)
            } else if !self.blog_ids_by_owner[who].contains(b) {
                Err(BlogError::BlogOwnershipError)
            } else {
                Ok(who)
            },
        }
    }

    /// `create_blog`: the signer gets the next blog identifier.
    pub open spec fn create_blog_outcome(self, origin: Origin) -> Result<BlogState, BlogError> {
        match signer(origin) {
            Err(e) => Err(e),
            Ok(who) => Ok(
                BlogState {
                    blogs_count: (self.blogs_count + 1) as u32,
                    blog_ids_by_owner: with_member(self.blog_ids_by_owner, who, self.blogs_count),
                    events: self.events.push(RawEvent::BlogCreated(who, self.blogs_count)),
                    ..self
                },
            ),
        }
    }

    /// `lock_blog`: the owner locks blog `b`.
    pub open spec fn lock_blog_outcome(self, origin: Origin, b: BlogId) -> Result<BlogState, BlogError> {
        match self.blog_owner_check(origin, b) {
            Err(e) => Err(e),
            Ok(who) => Ok(
                BlogState {
                    locked_blogs: self.locked_blogs.insert(b),
                    events: self.events.push(RawEvent::BlogLocked(who, b)),
                    ..self
                },
            ),
        }
    }

    /// `unlock_blog`: the owner unlocks blog `b`.
    pub open spec fn unlock_blog_outcome(self, origin: Origin, b: BlogId) -> Result<BlogState, BlogError> {
        match self.blog_owner_check(origin, b) {
            Err(e) => Err(e),
            Ok(who) => Ok(
                BlogState {
                    locked_blogs: self.locked_blogs.remove(b),
                    events: self.events.push(RawEvent::BlogUnlocked(who, b)),
                    ..self
                },
            ),
        }
    }

    /// `create_post`: the owner adds a post to an unlocked blog with room for it.
    pub open spec fn create_post_outcome(
        self,
        origin: Origin,
        b: BlogId,
        title: Seq<u8>,
        body: Seq<u8>,
    ) -> Result<BlogState, BlogError> {
        match self.blog_owner_check(origin, b) {
            Err(e) => Err(e),
            Ok(_who) => if self.locked_blogs.contains(b) {
                Err(BlogError::BlogLockedError)
            } else if title.len() > self.config.post_title_max_length {
                Err(BlogError::PostTitleTooLong)
            } else if body.len() > self.config.post_body_max_length {
                Err(BlogError::PostBodyTooLong)
            } else if self.posts_count_of(b) >= self.config.posts_max_number {
                Err(BlogError::PostsLimitReached)
            } else {
                let p = self.posts_count_of(b);
                Ok(
                    BlogState {
                        posts_count: self.posts_count.insert(b, (p + 1) as u32),
                        post_by_id: self.post_by_id.insert((b, p), PostView { title, body }),
                        post_ids_by_blog_id: with_member(self.post_ids_by_blog_id, b, p),
                        events: self.events.push(RawEvent::PostCreated(b, p)),
                        ..self
                    },
                )
            },
        }
    }

    /// `lock_post`: the owner of blog `b` locks one of its posts.
    pub open spec fn lock_post_outcome(self, origin: Origin, b: BlogId, p: PostId) -> Result<BlogState, BlogError> {
        match self.blog_owner_check(origin, b) {
            Err(e) => Err(e),
            Ok(_who) => if !self.post_by_id.contains_key((b, p)) {
                Err(BlogError::PostNotFound)
            } else {
                Ok(
                    BlogState {
                        locked_posts: self.locked_posts.insert((b, p)),
                        events: self.events.push(RawEvent::PostLocked(b, p)),
                        ..self
                    },
                )
            },
        }
    }

    /// `unlock_post`: the owner of blog `b` unlocks one of its posts.
    pub open spec fn unlock_post_outcome(self, origin: Origin, b: BlogId, p: PostId) -> Result<BlogState, BlogError> {
        match self.blog_owner_check(origin, b) {
            Err(e) => Err(e),
            Ok(_who) => if !self.post_by_id.contains_key((b, p)) {
                Err(BlogError::PostNotFound)
            } else {
                Ok(
                    BlogState {
                        locked_posts: self.locked_posts.remove((b, p)),
                        events: self.events.push(RawEvent::PostUnlocked(b, p)),
                        ..self
                    },
                )
            },
        }
    }

    /// `edit_post`: the owner replaces the given parts of an unlocked post in an unlocked blog.
    pub open spec fn edit_post_outcome(
        self,
        origin: Origin,
        b: BlogId,
        p: PostId,
        title: Option<Seq<u8>>,
        body: Option<Seq<u8>>,
    ) -> Result<BlogState, BlogError> {
        match self.blog_owner_check(origin, b) {
            Err(e) => Err(e),
            Ok(_who) => if !self.post_by_id.contains_key((b, p)) {
                Err(BlogError::PostNotFound)
            } else if self.locked_blogs.contains(b) {
                Err(BlogError::BlogLockedError)
            } else if self.locked_posts.contains((b, p)) {
                Err(BlogError::PostLockedError)
            } else if too_long(title, self.config.post_title_max_length) {
                Err(BlogError::PostTitleTooLong)
            } else if too_long(body, self.config.post_body_max_length) {
                Err(BlogError::PostBodyTooLong)
            } else {
                let old_post = self.post_by_id[(b, p)];
                Ok(
                    BlogState {
                        post_by_id: self.post_by_id.insert(
                            (b, p),
                            PostView {
                                title: replace_if_given(old_post.title, title),
                                body: replace_if_given(old_post.body, body),
                            },
                        ),
                        events: self.events.push(RawEvent::PostEdited(b, p)),
                        ..self
                    },
                )
            },
        }
    }

    /// `create_reply`: any signer replies to an unlocked post of an unlocked blog,
    /// either directly (`parent` is `None`) or to one of the post's replies.
    pub open spec fn create_reply_outcome(
        self,
        origin: Origin,
        b: BlogId,
        p: PostId,
        parent: Option<ReplyId>,
        text: Seq<u8>,
    ) -> Result<BlogState, BlogError> {
        match signer(origin) {
            Err(e) => Err(e),
            Ok(who) => if text.len() > self.config.reply_max_length {
                Err(BlogError::ReplyTooLong)
            } else if !self.post_by_id.contains_key((b, p)) {
                Err(BlogError::PostNotFound)
            } else if self.locked_blogs.contains(b) {
                Err(BlogError::BlogLockedError)
            } else if self.locked_posts.contains((b, p)) {
                Err(BlogError::PostLockedError)
            } else if parent matches Some(q) && !self.reply_by_id.contains_key((b, p, q)) {
                Err(BlogError::ReplyNotFound)
            } else if self.replies_count_of((b, p)) >= self.config.replies_max_number {
                Err(BlogError::RepliesLimitReached)
            } else {
                let r = self.replies_count_of((b, p));
                let common = BlogState {
                    replies_count: self.replies_count.insert((b, p), (r + 1) as u32),
                    reply_by_id: self.reply_by_id.insert((b, p, r), text),
                    reply_ids_by_owner: with_member(self.reply_ids_by_owner, who, (b, p, r)),
                    ..self
                };
                match parent {
                    None => Ok(
                        BlogState {
                            post_root_reply_ids: with_member(self.post_root_reply_ids, (b, p), r),
                            events: self.events.push(RawEvent::ReplyCreated(who, b, p, r)),
                            ..common
                        },
                    ),
                    Some(q) => Ok(
                        BlogState {
                            post_child_reply_ids: with_member(self.post_child_reply_ids, (b, p, q), r),
                            events: self.events.push(RawEvent::DirectReplyCreated(who, b, p, q, r)),
                            ..common
                        },
                    ),
                }
            },
        }
    }
}

// ---------------------------------------------------------------------------
// Storage
// ---------------------------------------------------------------------------

/// The blog module: its configuration, its storage and its event log.
pub struct BlogModule {
    config: BlogConfig,
    blogs_count: BlogId,
    blog_ids_by_owner: BTreeMap<AccountId, BTreeSet<BlogId>>,
    locked_blogs: BTreeSet<BlogId>,
    posts_count: BTreeMap<BlogId, PostId>,
    post_by_id: BTreeMap<(BlogId, PostId), Post>,
    post_ids_by_blog_id: BTreeMap<BlogId, BTreeSet<PostId>>,
    locked_posts: BTreeSet<(BlogId, PostId)>,
    replies_count: BTreeMap<(BlogId, PostId), ReplyId>,
    reply_by_id: BTreeMap<(BlogId, PostId, ReplyId), Vec<u8>>,
    post_root_reply_ids: BTreeMap<(BlogId, PostId), BTreeSet<ReplyId>>,
    post_child_reply_ids: BTreeMap<(BlogId, PostId, ReplyId), BTreeSet<ReplyId>>,
    reply_ids_by_owner: BTreeMap<AccountId, BTreeSet<(BlogId, PostId, ReplyId)>>,
    events: Vec<RawEvent>,
}

impl View for BlogModule {
    type V = BlogState;

    closed spec fn view(&self) -> BlogState {
        BlogState {
            config: self.config,
            blogs_count: self.blogs_count,
            blog_ids_by_owner: set_views(self.blog_ids_by_owner@),
            locked_blogs: self.locked_blogs@,
            posts_count: self.posts_count@,
            post_by_id: post_views(self.post_by_id@),
            post_ids_by_blog_id: set_views(self.post_ids_by_blog_id@),
            locked_posts: self.locked_posts@,
            replies_count: self.replies_count@,
            reply_by_id: byte_views(self.reply_by_id@),
            post_root_reply_ids: set_views(self.post_root_reply_ids@),
            post_child_reply_ids: set_views(self.post_child_reply_ids@),
            reply_ids_by_owner: set_views(self.reply_ids_by_owner@),
            events: self.events@,
        }
    }
}

/// Whether a new text is given and longer than `max`.
fn exceeds(t: &Option<Vec<u8>>, max: u32) -> (r: bool)
    ensures
        r == too_long(opt_bytes_view(*t), max),
{
    match t {
        Some(v) => v.len() as u64 > max as u64,
        None => false,
    }
}

/// Adds `x` to the set stored under `k`, storing a new set where none is.
fn insert_member<K: Ord + Copy, T: Ord>(m: &mut BTreeMap<K, BTreeSet<T>>, k: K, x: T)
    requires
        obeys_cmp::<K>(),
        obeys_cmp::<T>(),
    ensures
        set_views(final(m)@) == with_member(set_views(old(m)@), k, x),
{
    let mut s = match m.remove(&k) {
        Some(s) => s,
        None => BTreeSet::new(),
    };
    s.insert(x);
    m.insert(k, s);
    assert(set_views(m@) =~= with_member(set_views(old(m)@), k, x));
}

/// A copy of the set stored under `k`, if any.
fn copy_member_set<K: Ord, T: Ord + Clone>(m: &BTreeMap<K, BTreeSet<T>>, k: &K) -> (r: Option<BTreeSet<T>>)
    requires
        obeys_cmp::<K>(),
    ensures
        match r {
            Some(s) => set_views(m@).contains_key(*k) && s@ == set_views(m@)[*k],
            None => !set_views(m@).contains_key(*k),
        },
{
    match m.get(k) {
        Some(s) => Some(s.clone()),
        None => None,
    }
}

/// The value stored under `k`, or zero.
fn stored_count<K: Ord>(m: &BTreeMap<K, u32>, k: &K) -> (r: u32)
    requires
        obeys_cmp::<K>(),
    ensures
        r == count_or_zero(m@, *k),
{
    match m.get(k) {
        Some(c) => *c,
        None => 0,
    }
}

impl BlogModule {
    /// A module with the given limits and empty storage.
    pub fn new(config: BlogConfig) -> (m: BlogModule)
        ensures
            m@ == BlogState::genesis(config),
    {
        let m = BlogModule {
            config,
            blogs_count: 0,
            blog_ids_by_owner: BTreeMap::new(),
            locked_blogs: BTreeSet::new(),
            posts_count: BTreeMap::new(),
            post_by_id: BTreeMap::new(),
            post_ids_by_blog_id: BTreeMap::new(),
            locked_posts: BTreeSet::new(),
            replies_count: BTreeMap::new(),
            reply_by_id: BTreeMap::new(),
            post_root_reply_ids: BTreeMap::new(),
            post_child_reply_ids: BTreeMap::new(),
            reply_ids_by_owner: BTreeMap::new(),
            events: Vec::new(),
        };
        assert(m@ =~= BlogState::genesis(config));
        m
    }

    /// The signer of `origin` when it owns blog `b`; else why not.
    fn check_blog_owner(&self, origin: Origin, b: BlogId) -> (r: Result<AccountId, BlogError>)
        ensures
            r == self@.blog_owner_check(origin, b),
    {
        let who = match ensure_signed(origin) {
            Ok(who) => who,
            Err(e) => return Err(e),
        };
        match self.blog_ids_by_owner.get(&who) {
            None => Err(BlogError::BlogOwnerNotFound),
            Some(s) => if s.contains(&b) {
                Ok(who)
            } else {
                Err(BlogError::BlogOwnershipError)
            },
        }
    }

    /// Creates a blog owned by the signer, under the next blog identifier,
    /// and deposits `BlogCreated`.
    pub fn create_blog(&mut self, origin: Origin) -> (r: Result<(), BlogError>)
        requires
            old(self)@.blogs_count < u32::MAX,
        ensures
            follows(old(self)@, final(self)@, r, old(self)@.create_blog_outcome(origin)),
    {
        let who = match ensure_signed(origin) {
            Ok(who) => who,
            Err(e) => return Err(e),
        };
        let ghost pre = self@;
        let id = self.blogs_count;
        insert_member(&mut self.blog_ids_by_owner, who, id);
        self.blogs_count = id + 1;
        self.events.push(RawEvent::BlogCreated(who, id));
        assert(self@ =~= pre.create_blog_outcome(origin).unwrap());
        Ok(())
    }

    /// Locks blog `b`; only its owner may. Deposits `BlogLocked`.
    pub fn lock_blog(&mut self, origin: Origin, b: BlogId) -> (r: Result<(), BlogError>)
        ensures
            follows(old(self)@, final(self)@, r, old(self)@.lock_blog_outcome(origin, b)),
    {
        let who = match self.check_blog_owner(origin, b) {
            Ok(who) => who,
            Err(e) => return Err(e),
        };
        let ghost pre = self@;
        self.locked_blogs.insert(b);
        self.events.push(RawEvent::BlogLocked(who, b));
        assert(self@ =~= pre.lock_blog_outcome(origin, b).unwrap());
        Ok(())
    }

    /// Unlocks blog `b`; only its owner may. Deposits `BlogUnlocked`.
    pub fn unlock_blog(&mut self, origin: Origin, b: BlogId) -> (r: Result<(), BlogError>)
        ensures
            follows(old(self)@, final(self)@, r, old(self)@.unlock_blog_outcome(origin, b)),
    {
        let who = match self.check_blog_owner(origin, b) {
            Ok(who) => who,
            Err(e) => return Err(e),
        };
        let ghost pre = self@;
        self.locked_blogs.remove(&b);
        self.events.push(RawEvent::BlogUnlocked(who, b));
        assert(self@ =~= pre.unlock_blog_outcome(origin, b).unwrap());
        Ok(())
    }

    /// Adds a post to blog `b` under the blog's next post identifier; only the
    /// owner of an unlocked blog may, with a title and a body within their
    /// limits, while the blog holds fewer posts than allowed. Deposits `PostCreated`.
    pub fn create_post(&mut self, origin: Origin, b: BlogId, title: Vec<u8>, body: Vec<u8>) -> (r:
        Result<(), BlogError>)
        ensures
            follows(old(self)@, final(self)@, r, old(self)@.create_post_outcome(origin, b, title@, body@)),
    {
        match self.check_blog_owner(origin, b) {
            Ok(_) => {},
            Err(e) => return Err(e),
        }
        if self.locked_blogs.contains(&b) {
            return Err(BlogError::BlogLockedError);
        }
        if title.len() as u64 > self.config.post_title_max_length as u64 {
            return Err(BlogError::PostTitleTooLong);
        }
        if body.len() as u64 > self.config.post_body_max_length as u64 {
            return Err(BlogError::PostBodyTooLong);
        }
        let p = stored_count(&self.posts_count, &b);
        if p >= self.config.posts_max_number {
            return Err(BlogError::PostsLimitReached);
        }
        let ghost pre = self@;
        let ghost post_view = PostView { title: title@, body: body@ };
        self.posts_count.insert(b, p + 1);
        self.post_by_id.insert((b, p), Post { title, body });
        insert_member(&mut self.post_ids_by_blog_id, b, p);
        self.events.push(RawEvent::PostCreated(b, p));
        assert(post_views(self.post_by_id@) =~= pre.post_by_id.insert((b, p), post_view));
        assert(self@ =~= pre.create_post_outcome(origin, b, post_view.title, post_view.body).unwrap());
        Ok(())
    }

    /// Locks post `p` of blog `b`; only the blog's owner may. Deposits `PostLocked`.
    pub fn lock_post(&mut self, origin: Origin, b: BlogId, p: PostId) -> (r: Result<(), BlogError>)
        ensures
            follows(old(self)@, final(self)@, r, old(self)@.lock_post_outcome(origin, b, p)),
    {
        match self.check_blog_owner(origin, b) {
            Ok(_) => {},
            Err(e) => return Err(e),
        }
        if !self.post_by_id.contains_key(&(b, p)) {
            return Err(BlogError::PostNotFound);
        }
        let ghost pre = self@;
        self.locked_posts.insert((b, p));
        self.events.push(RawEvent::PostLocked(b, p));
        assert(self@ =~= pre.lock_post_outcome(origin, b, p).unwrap());
        Ok(())
    }

    /// Unlocks post `p` of blog `b`; only the blog's owner may. Deposits `PostUnlocked`.
    pub fn unlock_post(&mut self, origin: Origin, b: BlogId, p: PostId) -> (r: Result<(), BlogError>)
        ensures
            follows(old(self)@, final(self)@, r, old(self)@.unlock_post_outcome(origin, b, p)),
    {
        match self.check_blog_owner(origin, b) {
            Ok(_) => {},
            Err(e) => return Err(e),
        }
        if !self.post_by_id.contains_key(&(b, p)) {
            return Err(BlogError::PostNotFound);
        }
        let ghost pre = self@;
        self.locked_posts.remove(&(b, p));
        self.events.push(RawEvent::PostUnlocked(b, p));
        assert(self@ =~= pre.unlock_post_outcome(origin, b, p).unwrap());
        Ok(())
    }


    /// Replaces the title and/or the body of post `p` in blog `b` with those
    /// given; only the owner may, while neither the blog nor the post is
    /// locked, and the new texts must be within their limits. Deposits `PostEdited`.
    pub fn edit_post(
        &mut self,
        origin: Origin,
        b: BlogId,
        p: PostId,
        new_title: Option<Vec<u8>>,
        new_body: Option<Vec<u8>>,
    ) -> (r: Result<(), BlogError>)
        ensures
            follows(
                old(self)@,
                final(self)@,
                r,
                old(self)@.edit_post_outcome(origin, b, p, opt_bytes_view(new_title), opt_bytes_view(new_body)),
            ),
    {
        match self.check_blog_owner(origin, b) {
            Ok(_) => {},
            Err(e) => return Err(e),
        }
        if !self.post_by_id.contains_key(&(b, p)) {
            return Err(BlogError::PostNotFound);
        }
        if self.locked_blogs.contains(&b) {
            return Err(BlogError::BlogLockedError);
        }
        if self.locked_posts.contains(&(b, p)) {
            return Err(BlogError::PostLockedError);
        }
        if exceeds(&new_title, self.config.post_title_max_length) {
            return Err(BlogError::PostTitleTooLong);
        }
        if exceeds(&new_body, self.config.post_body_max_length) {
            return Err(BlogError::PostBodyTooLong);
        }
        let ghost pre = self@;
        let ghost title_view = opt_bytes_view(new_title);
        let ghost body_view = opt_bytes_view(new_body);
        let current = match self.post_by_id.remove(&(b, p)) {
            Some(current) => current,
            None => return Err(BlogError::PostNotFound),
        };
        let edited = Post {
            title: match new_title {
                Some(t) => t,
                None => current.title,
            },
            body: match new_body {
                Some(t) => t,
                None => current.body,
            },
        };
        self.post_by_id.insert((b, p), edited);
        self.events.push(RawEvent::PostEdited(b, p));
        assert(post_views(self.post_by_id@) =~= pre.post_by_id.insert(
            (b, p),
            PostView {
                title: replace_if_given(pre.post_by_id[(b, p)].title, title_view),
                body: replace_if_given(pre.post_by_id[(b, p)].body, body_view),
            },
        ));
        assert(self@ =~= pre.edit_post_outcome(origin, b, p, title_view, body_view).unwrap());
        Ok(())
    }

    /// Adds a reply to post `p` of blog `b` under the post's next reply
    /// identifier, written by the signer, either to the post itself
    /// (`parent` is `None`) or to an existing reply of it. The text must be
    /// within its limit, neither the blog nor the post may be locked, and the
    /// post must hold fewer replies than allowed. Deposits `ReplyCreated` or
    /// `DirectReplyCreated`.
    pub fn create_reply(
        &mut self,
        origin: Origin,
        b: BlogId,
        p: PostId,
        parent: Option<ReplyId>,
        text: Vec<u8>,
    ) -> (r: Result<(), BlogError>)
        ensures
            follows(old(self)@, final(self)@, r, old(self)@.create_reply_outcome(origin, b, p, parent, text@)),
    {
        let who = match ensure_signed(origin) {
            Ok(who) => who,
            Err(e) => return Err(e),
        };
        if text.len() as u64 > self.config.reply_max_length as u64 {
            return Err(BlogError::ReplyTooLong);
        }
        if !self.post_by_id.contains_key(&(b, p)) {
            return Err(BlogError::PostNotFound);
        }
        if self.locked_blogs.contains(&b) {
            return Err(BlogError::BlogLockedError);
        }
        if self.locked_posts.contains(&(b, p)) {
            return Err(BlogError::PostLockedError);
        }
        match parent {
            Some(q) => if !self.reply_by_id.contains_key(&(b, p, q)) {
                return Err(BlogError::ReplyNotFound);
            },
            None => {},
        }
        let r = stored_count(&self.replies_count, &(b, p));
        if r >= self.config.replies_max_number {
            return Err(BlogError::RepliesLimitReached);
        }
        let ghost pre = self@;
        let ghost text_view = text@;
        self.replies_count.insert((b, p), r + 1);
        self.reply_by_id.insert((b, p, r), text);
        insert_member(&mut self.reply_ids_by_owner, who, (b, p, r));
        match parent {
            None => {
                insert_member(&mut self.post_root_reply_ids, (b, p), r);
                self.events.push(RawEvent::ReplyCreated(who, b, p, r));
            },
            Some(q) => {
                insert_member(&mut self.post_child_reply_ids, (b, p, q), r);
                self.events.push(RawEvent::DirectReplyCreated(who, b, p, q, r));
            },
        }
        assert(byte_views(self.reply_by_id@) =~= pre.reply_by_id.insert((b, p, r), text_view));
        assert(self@ =~= pre.create_reply_outcome(origin, b, p, parent, text_view).unwrap());
        Ok(())
    }


    /// The limits the module was built with.
    pub fn config(&self) -> (c: BlogConfig)
        ensures
            c == self@.config,
    {
        self.config
    }

    /// How many blogs were created; the next blog identifier.
    pub fn blogs_count(&self) -> (n: BlogId)
        ensures
            n == self@.blogs_count,
    {
        self.blogs_count
    }

    /// The blogs `owner` created, if any.
    pub fn blog_ids_by_owner(&self, owner: AccountId) -> (r: Option<BTreeSet<BlogId>>)
        ensures
            match r {
                Some(s) => self@.blog_ids_by_owner.contains_key(owner) && s@ == self@.blog_ids_by_owner[owner],
                None => !self@.blog_ids_by_owner.contains_key(owner),
            },
    {
        copy_member_set(&self.blog_ids_by_owner, &owner)
    }

    /// Whether blog `b` is locked.
    pub fn blog_locked(&self, b: BlogId) -> (l: bool)
        ensures
            l == self@.locked_blogs.contains(b),
    {
        self.locked_blogs.contains(&b)
    }

    /// How many posts blog `b` holds; the blog's next post identifier.
    pub fn posts_count(&self, b: BlogId) -> (n: PostId)
        ensures
            n == self@.posts_count_of(b),
    {
        stored_count(&self.posts_count, &b)
    }

    /// The post stored under `key` (blog, post), if any.
    pub fn post_by_id(&self, key: (BlogId, PostId)) -> (r: Option<Post>)
        ensures
            match r {
                Some(post) => self@.post_by_id.contains_key(key) && post@ == self@.post_by_id[key],
                None => !self@.post_by_id.contains_key(key),
            },
    {
        match self.post_by_id.get(&key) {
            Some(post) => Some(post.duplicate()),
            None => None,
        }
    }

    /// The post identifiers of blog `b`, if it has posts.
    pub fn post_ids_by_blog_id(&self, b: BlogId) -> (r: Option<BTreeSet<PostId>>)
        ensures
            match r {
                Some(s) => self@.post_ids_by_blog_id.contains_key(b) && s@ == self@.post_ids_by_blog_id[b],
                None => !self@.post_ids_by_blog_id.contains_key(b),
            },
    {
        copy_member_set(&self.post_ids_by_blog_id, &b)
    }

    /// Whether the post under `key` (blog, post) is locked.
    pub fn post_locked(&self, key: (BlogId, PostId)) -> (l: bool)
        ensures
            l == self@.locked_posts.contains(key),
    {
        self.locked_posts.contains(&key)
    }

    /// How many replies the post under `key` holds; its next reply identifier.
    pub fn replies_count(&self, key: (BlogId, PostId)) -> (n: ReplyId)
        ensures
            n == self@.replies_count_of(key),
    {
        stored_count(&self.replies_count, &key)
    }

    /// The text of the reply under `key` (blog, post, reply), if any.
    pub fn reply_by_id(&self, key: (BlogId, PostId, ReplyId)) -> (r: Option<Vec<u8>>)
        ensures
            match r {
                Some(t) => self@.reply_by_id.contains_key(key) && t@ == self@.reply_by_id[key],
                None => !self@.reply_by_id.contains_key(key),
            },
    {
        match self.reply_by_id.get(&key) {
            Some(t) => Some(copy_bytes(t)),
            None => None,
        }
    }

    /// The replies made directly to the post under `key`, if any.
    pub fn post_root_reply_ids(&self, key: (BlogId, PostId)) -> (r: Option<BTreeSet<ReplyId>>)
        ensures
            match r {
                Some(s) => self@.post_root_reply_ids.contains_key(key) && s@ == self@.post_root_reply_ids[key],
                None => !self@.post_root_reply_ids.contains_key(key),
            },
    {
        copy_member_set(&self.post_root_reply_ids, &key)
    }

    /// The replies made to the reply under `key` (blog, post, reply), if any.
    pub fn post_child_reply_ids(&self, key: (BlogId, PostId, ReplyId)) -> (r: Option<BTreeSet<ReplyId>>)
        ensures
            match r {
                Some(s) => self@.post_child_reply_ids.contains_key(key) && s@ == self@.post_child_reply_ids[key],
                None => !self@.post_child_reply_ids.contains_key(key),
            },
    {
        copy_member_set(&self.post_child_reply_ids, &key)
    }

    /// The replies `owner` wrote, as (blog, post, reply), if any.
    pub fn reply_ids_by_owner(&self, owner: AccountId) -> (r: Option<BTreeSet<(BlogId, PostId, ReplyId)>>)
        ensures
            match r {
                Some(s) => self@.reply_ids_by_owner.contains_key(owner) && s@ == self@.reply_ids_by_owner[owner],
                None => !self@.reply_ids_by_owner.contains_key(owner),
            },
    {
        copy_member_set(&self.reply_ids_by_owner, &owner)
    }

    /// The events deposited so far, oldest first.
    pub fn events(&self) -> (e: &Vec<RawEvent>)
        ensures
            e@ == self@.events,
    {
        &self.events
    }

}

} // verus!
