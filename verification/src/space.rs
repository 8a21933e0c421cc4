//! The byte budget of a stored record.
//!
//! A record is stored in a slot whose size is fixed when the record is
//! created. The slot starts with a header, followed by the fields in
//! declaration order: an identity takes 32 bytes, an integer its width, and
//! a text field or a roster a 4-byte length prefix followed by its content.

use vstd::prelude::*;
use vstd::utf8::encode_utf8;
use crate::pubkey::PUBKEY_BYTES;

verus! {

/// Bytes reserved at the start of every slot for the record's header.
pub const HEADER_LEN: usize = 8;

/// Bytes of the length prefix that precedes a text field or a roster.
pub const LENGTH_PREFIX_LEN: usize = 4;

/// Most bytes a title may hold.
pub const MAX_TITLE_LEN: usize = 50;

/// Most bytes a description may hold.
pub const MAX_DESCRIPTION_LEN: usize = 200;

/// Most bytes a country may hold.
pub const MAX_COUNTRY_LEN: usize = 50;

/// Most bytes a city may hold.
pub const MAX_CITY_LEN: usize = 50;

/// Most bytes a location may hold.
pub const MAX_LOCATION_LEN: usize = 100;

/// Most bytes a category may hold.
pub const MAX_CATEGORY_LEN: usize = 30;

/// Most bytes an image URL may hold.
pub const MAX_IMAGE_URL_LEN: usize = 200;

/// Most identities a roster may hold.
pub const MAX_ROSTER_LEN: usize = 255;

/// Number of bytes of `text` in UTF-8.
pub open spec fn utf8_len(text: Seq<char>) -> nat {
    encode_utf8(text).len()
}

/// Bytes a text field takes in a stored record: the length prefix and the
/// UTF-8 content.
pub open spec fn text_len(text: Seq<char>) -> nat {
    4 + utf8_len(text)
}

/// Bytes a roster of `count` identities takes in a stored record: the length
/// prefix and 32 bytes for each identity.
pub open spec fn roster_len(count: nat) -> nat {
    4 + 32 * count
}

/// Bytes of a stored record whose text fields hold the given numbers of bytes
/// and whose participant state takes `state` bytes: the header, the
/// organizer, the text fields with their prefixes, one byte for the capacity,
/// the participant state, and eight bytes each for the price and the date.
pub open spec fn record_len(
    title: nat,
    description: nat,
    country: nat,
    city: nat,
    location: nat,
    category: nat,
    image_url: nat,
    state: nat,
) -> nat {
    8 + 32 + (4 + title) + (4 + description) + 1 + state + (4 + country) + (4 + city) + (4
        + location) + 8 + 8 + (4 + category) + (4 + image_url)
}

/// No text field is longer than its maximum.
pub open spec fn texts_within_limits(
    title: Seq<char>,
    description: Seq<char>,
    country: Seq<char>,
    city: Seq<char>,
    location: Seq<char>,
    category: Seq<char>,
    image_url: Seq<char>,
) -> bool {
    &&& utf8_len(title) <= MAX_TITLE_LEN
    &&& utf8_len(description) <= MAX_DESCRIPTION_LEN
    &&& utf8_len(country) <= MAX_COUNTRY_LEN
    &&& utf8_len(city) <= MAX_CITY_LEN
    &&& utf8_len(location) <= MAX_LOCATION_LEN
    &&& utf8_len(category) <= MAX_CATEGORY_LEN
    &&& utf8_len(image_url) <= MAX_IMAGE_URL_LEN
}

/// Every text field is exactly as long as its maximum.
pub open spec fn texts_at_limits(
    title: Seq<char>,
    description: Seq<char>,
    country: Seq<char>,
    city: Seq<char>,
    location: Seq<char>,
    category: Seq<char>,
    image_url: Seq<char>,
) -> bool {
    &&& utf8_len(title) == MAX_TITLE_LEN
    &&& utf8_len(description) == MAX_DESCRIPTION_LEN
    &&& utf8_len(country) == MAX_COUNTRY_LEN
    &&& utf8_len(city) == MAX_CITY_LEN
    &&& utf8_len(location) == MAX_LOCATION_LEN
    &&& utf8_len(category) == MAX_CATEGORY_LEN
    &&& utf8_len(image_url) == MAX_IMAGE_URL_LEN
}

/// Bytes of the slot for a record whose participant state takes at most
/// `state` bytes: the size of a record with every text field at its maximum.
pub open spec fn slot_len(state: nat) -> nat {
    record_len(
        MAX_TITLE_LEN as nat,
        MAX_DESCRIPTION_LEN as nat,
        MAX_COUNTRY_LEN as nat,
        MAX_CITY_LEN as nat,
        MAX_LOCATION_LEN as nat,
        MAX_CATEGORY_LEN as nat,
        MAX_IMAGE_URL_LEN as nat,
        state,
    )
}

/// `n` as a `usize`, where it fits.
pub open spec fn checked_usize(n: int) -> Option<usize> {
    if 0 <= n <= usize::MAX {
        Some(n as usize)
    } else {
        None
    }
}

/// Number of bytes of `text` in UTF-8.
fn text_bytes(text: &String) -> (n: usize)
    ensures
        n == utf8_len(text@),
{
    text.as_str().as_bytes().len()
}

/// Adds `extra` bytes to a running total that is `None` once it has left the
/// range of `usize`.
fn grow(total: Option<usize>, extra: usize) -> (sum: Option<usize>)
    ensures
        sum == match total {
            Some(t) => checked_usize(t + extra),
            None => None,
        },
{
    match total {
        Some(t) => t.checked_add(extra),
        None => None,
    }
}

/// Adds the bytes of a text field, prefix and content, to a running total.
fn grow_by_text(total: Option<usize>, text: &String) -> (sum: Option<usize>)
    ensures
        sum == match total {
            Some(t) => checked_usize(t + text_len(text@)),
            None => None,
        },
{
    grow(grow(total, LENGTH_PREFIX_LEN), text_bytes(text))
}

/// Bytes a roster of `count` identities takes in a stored record.
pub fn roster_bytes(count: usize) -> (n: Option<usize>)
    ensures
        n == checked_usize(roster_len(count as nat) as int),
{
    match count.checked_mul(PUBKEY_BYTES) {
        Some(content) => grow(Some(LENGTH_PREFIX_LEN), content),
        None => None,
    }
}

/// Bytes of a stored record with the given text fields whose participant
/// state takes `state` bytes, or `None` where the size leaves the range of
/// `usize`.
pub fn record_bytes(
    title: &String,
    description: &String,
    country: &String,
    city: &String,
    location: &String,
    category: &String,
    image_url: &String,
    state: usize,
) -> (n: Option<usize>)
    ensures
        n == checked_usize(
            record_len(
                utf8_len(title@),
                utf8_len(description@),
                utf8_len(country@),
                utf8_len(city@),
                utf8_len(location@),
                utf8_len(category@),
                utf8_len(image_url@),
                state as nat,
            ) as int,
        ),
{
    let mut total: Option<usize> = grow(Some(HEADER_LEN + PUBKEY_BYTES + 1 + 8 + 8), state);
    total = grow_by_text(total, title);
    total = grow_by_text(total, description);
    total = grow_by_text(total, country);
    total = grow_by_text(total, city);
    total = grow_by_text(total, location);
    total = grow_by_text(total, category);
    total = grow_by_text(total, image_url);
    total
}

} // verus!
