//! Building a module with chosen limits, and generating texts of a given length.

use vstd::prelude::*;

use crate::module::{BlogConfig, BlogModule, BlogState};

verus! {

/// The longest post title a module is built with unless told otherwise.
pub const DEFAULT_POST_TITLE_MAX_LENGTH: u32 = 200;

/// The longest post body a module is built with unless told otherwise.
pub const DEFAULT_POST_BODY_MAX_LENGTH: u32 = 10_000;

/// The longest reply a module is built with unless told otherwise.
pub const DEFAULT_REPLY_MAX_LENGTH: u32 = 2_000;

/// How many posts a blog may hold unless told otherwise.
pub const DEFAULT_POSTS_MAX_NUMBER: u32 = 20;

/// How many replies a post may hold unless told otherwise.
pub const DEFAULT_REPLIES_MAX_NUMBER: u32 = 100;

/// The byte every generated text is made of.
pub const TEXT_FILL_BYTE: u8 = 0x78;

/// Collects the limits of a module before building it.
pub struct ExtBuilder {
    pub post_title_max_length: u32,
    pub post_body_max_length: u32,
    pub reply_max_length: u32,
    pub posts_max_number: u32,
    pub replies_max_number: u32,
}

impl Default for ExtBuilder {
    /// The default limits.
    fn default() -> (b: ExtBuilder)
        ensures
            b.post_title_max_length == DEFAULT_POST_TITLE_MAX_LENGTH,
            b.post_body_max_length == DEFAULT_POST_BODY_MAX_LENGTH,
            b.reply_max_length == DEFAULT_REPLY_MAX_LENGTH,
            b.posts_max_number == DEFAULT_POSTS_MAX_NUMBER,
            b.replies_max_number == DEFAULT_REPLIES_MAX_NUMBER,
    {
        ExtBuilder {
            post_title_max_length: DEFAULT_POST_TITLE_MAX_LENGTH,
            post_body_max_length: DEFAULT_POST_BODY_MAX_LENGTH,
            reply_max_length: DEFAULT_REPLY_MAX_LENGTH,
            posts_max_number: DEFAULT_POSTS_MAX_NUMBER,
            replies_max_number: DEFAULT_REPLIES_MAX_NUMBER,
        }
    }
}

impl ExtBuilder {
    /// The same limits, with the longest post title set to `n`.
    pub fn post_title_max_length(self, n: u32) -> (b: ExtBuilder)
        ensures
            b == (ExtBuilder { post_title_max_length: n, ..self }),
    {
        ExtBuilder { post_title_max_length: n, ..self }
    }

    /// The same limits, with the longest post body set to `n`.
    pub fn post_body_max_length(self, n: u32) -> (b: ExtBuilder)
        ensures
            b == (ExtBuilder { post_body_max_length: n, ..self }),
    {
        ExtBuilder { post_body_max_length: n, ..self }
    }

    /// The same limits, with the longest reply set to `n`.
    pub fn reply_max_length(self, n: u32) -> (b: ExtBuilder)
        ensures
            b == (ExtBuilder { reply_max_length: n, ..self }),
    {
        ExtBuilder { reply_max_length: n, ..self }
    }

    /// The same limits, with the number of posts per blog set to `n`.
    pub fn posts_max_number(self, n: u32) -> (b: ExtBuilder)
        ensures
            b == (ExtBuilder { posts_max_number: n, ..self }),
    {
        ExtBuilder { posts_max_number: n, ..self }
    }

    /// The same limits, with the number of replies per post set to `n`.
    pub fn replies_max_number(self, n: u32) -> (b: ExtBuilder)
        ensures
            b == (ExtBuilder { replies_max_number: n, ..self }),
    {
        ExtBuilder { replies_max_number: n, ..self }
    }

    /// The limits collected so far.
    pub open spec fn spec_config(self) -> BlogConfig {
        BlogConfig {
            post_title_max_length: self.post_title_max_length,
            post_body_max_length: self.post_body_max_length,
            reply_max_length: self.reply_max_length,
            posts_max_number: self.posts_max_number,
            replies_max_number: self.replies_max_number,
        }
    }

    /// A module with these limits and empty storage.
    pub fn build(self) -> (m: BlogModule)
        ensures
            m@ == BlogState::genesis(self.spec_config()),
            m@.config.post_title_max_length == self.post_title_max_length,
            m@.config.post_body_max_length == self.post_body_max_length,
            m@.config.reply_max_length == self.reply_max_length,
            m@.config.posts_max_number == self.posts_max_number,
            m@.config.replies_max_number == self.replies_max_number,
    {
        BlogModule::new(
            BlogConfig {
                post_title_max_length: self.post_title_max_length,
                post_body_max_length: self.post_body_max_length,
                reply_max_length: self.reply_max_length,
                posts_max_number: self.posts_max_number,
                replies_max_number: self.replies_max_number,
            },
        )
    }
}

/// The generated text of `len` bytes.
pub open spec fn text_of(len: nat) -> Seq<u8> {
    Seq::new(len, |i: int| TEXT_FILL_BYTE)
}

/// A generated text has exactly the asked length and holds only `TEXT_FILL_BYTE`.
pub proof fn lemma_text_of_shape(len: nat)
    ensures
        text_of(len).len() == len,
        forall|i: int| 0 <= i < len ==> #[trigger] text_of(len)[i] == TEXT_FILL_BYTE,
{
}

/// A text of `len` bytes, each `TEXT_FILL_BYTE`.
pub fn generate_text(len: usize) -> (t: Vec<u8>)
    ensures
        t@ == text_of(len as nat),
{
    let mut t: Vec<u8> = Vec::new();
    let mut i: usize = 0;
    while i < len
        invariant
            i <= len,
            t@ == Seq::new(i as nat, |j: int| TEXT_FILL_BYTE),
        decreases len - i,
    {
        t.push(TEXT_FILL_BYTE);
        i = i + 1;
        assert(t@ =~= Seq::new(i as nat, |j: int| TEXT_FILL_BYTE));
    }
    t
}

} // verus!
