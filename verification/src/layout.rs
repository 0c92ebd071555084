//! Deterministic sizing of a record's storage slot.
//!
//! Whoever allocates a slot for a record and whoever later decodes it must
//! agree on its capacity, so the maximum size is a pure function of the
//! schema: a fixed discriminator tag, the author identity, the timestamp,
//! and two length-prefixed text fields, each reserved at four bytes per
//! character (the worst case for UTF-8).

use vstd::prelude::*;

verus! {

/// Bytes reserved for the schema discriminator tag.
pub const DISCRIMINATOR_LENGTH: usize = 8;

/// Bytes of the author's identity.
pub const PUBLIC_KEY_LENGTH: usize = 32;

/// Bytes of the creation timestamp.
pub const TIMESTAMP_LENGTH: usize = 8;

/// Bytes of the length prefix stored before each text field.
pub const STRING_LENGTH_PREFIX: usize = 4;

/// Maximum number of characters (Unicode scalars) in a topic.
pub const MAX_TOPIC_CHARS: usize = 50;

/// Maximum number of characters (Unicode scalars) in a content field.
pub const MAX_CONTENT_CHARS: usize = 280;

/// Worst-case bytes a single character can occupy in UTF-8.
pub const BYTES_PER_CHAR: usize = 4;

/// Bytes reserved for the topic text itself.
pub const MAX_TOPIC_LENGTH: usize = MAX_TOPIC_CHARS * BYTES_PER_CHAR;

/// Bytes reserved for the content text itself.
pub const MAX_CONTENT_LENGTH: usize = MAX_CONTENT_CHARS * BYTES_PER_CHAR;

/// Capacity a slot must have so that every valid record fits.
pub const MAX_RECORD_SIZE: usize = DISCRIMINATOR_LENGTH + PUBLIC_KEY_LENGTH + TIMESTAMP_LENGTH
    + STRING_LENGTH_PREFIX + MAX_TOPIC_LENGTH + STRING_LENGTH_PREFIX + MAX_CONTENT_LENGTH;

/// Maximum number of bytes a stored record can occupy.
///
/// The result is a constant: it depends on nothing but the schema, so every
/// call — by the allocator of a slot or by a later decoder — yields the same
/// value.
pub fn max_record_size() -> (n: usize)
    ensures
        n == MAX_RECORD_SIZE,
        n == DISCRIMINATOR_LENGTH + PUBLIC_KEY_LENGTH + TIMESTAMP_LENGTH
            + (STRING_LENGTH_PREFIX + MAX_TOPIC_CHARS * BYTES_PER_CHAR)
            + (STRING_LENGTH_PREFIX + MAX_CONTENT_CHARS * BYTES_PER_CHAR),
        n == 1376,
{
    MAX_RECORD_SIZE
}

} // verus!
