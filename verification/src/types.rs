//! Identifiers, origins, errors, events and the post record.

use vstd::prelude::*;

verus! {

/// An account of the chain; blogs and replies are owned by accounts.
pub type AccountId = u64;

/// Identifier of a blog, given out in creation order from zero.
pub type BlogId = u32;

/// Identifier of a post within its blog, given out in creation order from zero.
pub type PostId = u32;

/// Identifier of a reply within its post, given out in creation order from zero.
pub type ReplyId = u32;

/// Who dispatches a call.
#[derive(Clone, Copy, Debug, PartialEq, Eq, Structural)]
pub enum Origin {
    /// An account that signed the call.
    Signed(AccountId),
    /// The privileged root origin.
    Root,
    /// An unsigned call.
    Unsigned,
}

impl Origin {
    /// The origin of a call signed by `who`.
    pub fn signed(who: AccountId) -> (o: Origin)
        ensures
            o == Origin::Signed(who),
    {
        Origin::Signed(who)
    }
}

/// Why a call was refused.
#[derive(Clone, Copy, Debug, PartialEq, Eq, Structural)]
pub enum BlogError {
    /// The call was not signed by an account.
    BadOrigin,
    /// The signer owns no blog at all.
    BlogOwnerNotFound,
    /// The signer owns blogs, but not the one named in the call.
    BlogOwnershipError,
    /// The blog is locked.
    BlogLockedError,
    /// The post title is longer than the configured maximum.
    PostTitleTooLong,
    /// The post body is longer than the configured maximum.
    PostBodyTooLong,
    /// The blog already holds the configured maximum number of posts.
    PostsLimitReached,
    /// No post with the given identifiers exists.
    PostNotFound,
    /// The post is locked.
    PostLockedError,
    /// The reply text is longer than the configured maximum.
    ReplyTooLong,
    /// No reply with the given identifiers exists.
    ReplyNotFound,
    /// The post already holds the configured maximum number of replies.
    RepliesLimitReached,
}

/// Refused: the call was not signed.
pub const BAD_ORIGIN: BlogError = BlogError::BadOrigin;

/// Refused: the signer owns no blog.
pub const BLOG_OWNER_NOT_FOUND: BlogError = BlogError::BlogOwnerNotFound;

/// Refused: the signer does not own the blog.
pub const BLOG_OWNERSHIP_ERROR: BlogError = BlogError::BlogOwnershipError;

/// Refused: the blog is locked.
pub const BLOG_LOCKED_ERROR: BlogError = BlogError::BlogLockedError;

/// Refused: the post title is too long.
pub const POST_TITLE_TOO_LONG: BlogError = BlogError::PostTitleTooLong;

/// Refused: the post body is too long.
pub const POST_BODY_TOO_LONG: BlogError = BlogError::PostBodyTooLong;

/// Refused: the blog holds the maximum number of posts.
pub const POSTS_LIMIT_REACHED: BlogError = BlogError::PostsLimitReached;

/// Refused: the post does not exist.
pub const POST_NOT_FOUND: BlogError = BlogError::PostNotFound;

/// Refused: the post is locked.
pub const POST_LOCKED_ERROR: BlogError = BlogError::PostLockedError;

/// Refused: the reply text is too long.
pub const REPLY_TOO_LONG: BlogError = BlogError::ReplyTooLong;

/// Refused: the parent reply does not exist.
pub const REPLY_NOT_FOUND: BlogError = BlogError::ReplyNotFound;

/// Refused: the post holds the maximum number of replies.
pub const REPLIES_LIMIT_REACHED: BlogError = BlogError::RepliesLimitReached;

/// The account that signed `origin`, or `BadOrigin` when it is not signed.
pub open spec fn signer(origin: Origin) -> Result<AccountId, BlogError> {
    match origin {
        Origin::Signed(who) => Ok(who),
        _ => Err(BlogError::BadOrigin),
    }
}

/// Gives the account that signed the call, and refuses any other origin.
pub fn ensure_signed(origin: Origin) -> (r: Result<AccountId, BlogError>)
    ensures
        r == signer(origin),
{
    match origin {
        Origin::Signed(who) => Ok(who),
        _ => Err(BlogError::BadOrigin),
    }
}

/// What the module deposits when a call succeeds.
#[derive(Clone, Copy, Debug, PartialEq, Eq, Structural)]
pub enum RawEvent {
    /// An owner created a blog.
    BlogCreated(AccountId, BlogId),
    /// An owner locked a blog.
    BlogLocked(AccountId, BlogId),
    /// An owner unlocked a blog.
    BlogUnlocked(AccountId, BlogId),
    /// A post was created in a blog.
    PostCreated(BlogId, PostId),
    /// A post was locked.
    PostLocked(BlogId, PostId),
    /// A post was unlocked.
    PostUnlocked(BlogId, PostId),
    /// A post was edited.
    PostEdited(BlogId, PostId),
    /// An account replied to a post.
    ReplyCreated(AccountId, BlogId, PostId, ReplyId),
    /// An account replied to a reply: the last two fields are the parent reply and the new one.
    DirectReplyCreated(AccountId, BlogId, PostId, ReplyId, ReplyId),
}

/// The abstract content of a post.
pub struct PostView {
    pub title: Seq<u8>,
    pub body: Seq<u8>,
}

/// A post: its title and its body, as raw bytes.
#[derive(Debug, PartialEq, Eq)]
pub struct Post {
    pub title: Vec<u8>,
    pub body: Vec<u8>,
}

impl View for Post {
    type V = PostView;

    open spec fn view(&self) -> PostView {
        PostView { title: self.title@, body: self.body@ }
    }
}

/// Copies `v` byte for byte.
pub fn copy_bytes(v: &Vec<u8>) -> (r: Vec<u8>)
    ensures
        r@ == v@,
{
    let r = v.clone();
    assert(r@ =~= v@);
    r
}

impl Post {
    /// A post with the given title and body.
    pub fn new(title: Vec<u8>, body: Vec<u8>) -> (p: Post)
        ensures
            p.title == title,
            p.body == body,
    {
        Post { title, body }
    }

    /// A copy of this post with the same title and body.
    pub fn duplicate(&self) -> (p: Post)
        ensures
            p@ == self@,
    {
        Post { title: copy_bytes(&self.title), body: copy_bytes(&self.body) }
    }
}

} // verus!
