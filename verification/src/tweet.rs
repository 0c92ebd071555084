//! The record data model and the creation operation.
//!
//! A record is created exactly once and never mutated afterwards. Creation
//! validates the topic and the content against character limits, then — and
//! only then — writes the author's identity, the current time and the two
//! texts into the pre-allocated slot. On a validation failure the slot is
//! left exactly as it was.

use vstd::prelude::*;

use crate::layout::{
    BYTES_PER_CHAR, DISCRIMINATOR_LENGTH, MAX_CONTENT_CHARS, MAX_RECORD_SIZE, MAX_TOPIC_CHARS,
    PUBLIC_KEY_LENGTH, STRING_LENGTH_PREFIX, TIMESTAMP_LENGTH,
};

verus! {

/// A persisted record: who wrote it, when, and what.
///
/// `author` is the 32-byte cryptographic identity of the submitter, asserted
/// by the hosting runtime; `timestamp` is seconds since the epoch, taken from
/// a trusted clock. Both texts are measured in characters (Unicode scalars),
/// not bytes.
pub struct Tweet {
    pub author: [u8; 32],
    pub timestamp: i64,
    pub topic: String,
    pub content: String,
}

impl Tweet {
    /// A well-formed record keeps both texts within their character limits;
    /// creation never lets a record that violates either bound exist.
    pub open spec fn wf(self) -> bool {
        self.topic@.len() <= MAX_TOPIC_CHARS && self.content@.len() <= MAX_CONTENT_CHARS
    }
}

/// The most bytes a record's encoding can occupy: the discriminator tag,
/// the identity, the timestamp, and each text behind its length prefix at
/// the worst case of four bytes per character.
pub open spec fn encoded_size_bound(t: Tweet) -> int {
    DISCRIMINATOR_LENGTH + PUBLIC_KEY_LENGTH + TIMESTAMP_LENGTH + STRING_LENGTH_PREFIX
        + BYTES_PER_CHAR * t.topic@.len() + STRING_LENGTH_PREFIX + BYTES_PER_CHAR
        * t.content@.len()
}

/// A well-formed record always fits in a slot of `MAX_RECORD_SIZE` bytes,
/// even when its fields are shorter than the maximum: a slot sized once at
/// allocation never overflows.
pub proof fn lemma_record_fits(t: Tweet)
    requires
        t.wf(),
    ensures
        encoded_size_bound(t) <= MAX_RECORD_SIZE,
{
}

impl Default for Tweet {
    /// The zeroed state of a freshly allocated slot.
    fn default() -> (t: Tweet)
        ensures
            t.author@ =~= Seq::<u8>::new(32, |i: int| 0u8),
            t.timestamp == 0,
            t.topic@ =~= Seq::<char>::empty(),
            t.content@ =~= Seq::<char>::empty(),
            t.wf(),
    {
        proof {
            reveal_strlit("");
        }
        Tweet {
            author: [0u8; 32],
            timestamp: 0,
            topic: String::from_str(""),
            content: String::from_str(""),
        }
    }
}

/// A creation request's context: the pre-allocated slot the record will be
/// written into, and the identity that authorized the request.
pub struct SendTweet {
    pub tweet: Tweet,
    pub author: [u8; 32],
}

/// The only failures creation can report; both are terminal.
#[derive(Clone, Copy, Debug, PartialEq, Eq, Structural)]
pub enum ErrorCode {
    /// The topic exceeds `MAX_TOPIC_CHARS` characters.
    TopicTooLong,
    /// The content exceeds `MAX_CONTENT_CHARS` characters.
    ContentTooLong,
}

impl ErrorCode {
    /// The message shown to the end caller for this failure.
    pub open spec fn message_spec(self) -> Seq<char> {
        match self {
            ErrorCode::TopicTooLong => "The provided topic should be 50 characters long maximum."@,
            ErrorCode::ContentTooLong => "The provided content should be 280 characters long maximum."@,
        }
    }

    /// The message shown to the end caller for this failure.
    pub fn message(&self) -> (m: String)
        ensures
            m@ == self.message_spec(),
    {
        match self {
            ErrorCode::TopicTooLong => {
                String::from_str("The provided topic should be 50 characters long maximum.")
            },
            ErrorCode::ContentTooLong => {
                String::from_str("The provided content should be 280 characters long maximum.")
            },
        }
    }
}

/// Validates a creation request and, on success, writes the record.
///
/// The topic is checked first: a topic over `MAX_TOPIC_CHARS` characters is
/// rejected as `TopicTooLong` whatever the content holds; otherwise a content
/// over `MAX_CONTENT_CHARS` characters is rejected as `ContentTooLong`. On
/// either failure the context — the slot included — is left untouched. Only
/// when both texts pass are the author's identity, the clock reading `now`
/// and the two texts written, each verbatim.
pub fn send_tweet(ctx: &mut SendTweet, topic: String, content: String, now: i64) -> (r: Result<
    (),
    ErrorCode,
>)
    ensures
        topic@.len() > MAX_TOPIC_CHARS ==> r == Err::<(), ErrorCode>(ErrorCode::TopicTooLong)
            && *final(ctx) == *old(ctx),
        topic@.len() <= MAX_TOPIC_CHARS && content@.len() > MAX_CONTENT_CHARS ==> r == Err::<
            (),
            ErrorCode,
        >(ErrorCode::ContentTooLong) && *final(ctx) == *old(ctx),
        topic@.len() <= MAX_TOPIC_CHARS && content@.len() <= MAX_CONTENT_CHARS ==> {
            &&& r == Ok::<(), ErrorCode>(())
            &&& final(ctx).author == old(ctx).author
            &&& final(ctx).tweet.author == old(ctx).author
            &&& final(ctx).tweet.timestamp == now
            &&& final(ctx).tweet.topic@ == topic@
            &&& final(ctx).tweet.content@ == content@
            &&& final(ctx).tweet.wf()
        },
{
    if topic.as_str().unicode_len() > MAX_TOPIC_CHARS {
        return Err(ErrorCode::TopicTooLong);
    }

    if content.as_str().unicode_len() > MAX_CONTENT_CHARS {
        return Err(ErrorCode::ContentTooLong);
    }

    ctx.tweet.author = ctx.author;
    ctx.tweet.timestamp = now;
    ctx.tweet.topic = topic;
    ctx.tweet.content = content;

    Ok(())
}

} // verus!
