//! The counter record: an event that keeps only a count of its participants.

use vstd::prelude::*;
use crate::contract::table::ErrorCode;
use crate::pubkey::{Pubkey, PUBKEY_BYTES};
use crate::space::{
    checked_usize, record_bytes, record_len, slot_len, texts_at_limits, texts_within_limits,
    utf8_len, HEADER_LEN, LENGTH_PREFIX_LEN, MAX_CATEGORY_LEN, MAX_CITY_LEN, MAX_COUNTRY_LEN,
    MAX_DESCRIPTION_LEN, MAX_IMAGE_URL_LEN, MAX_LOCATION_LEN, MAX_TITLE_LEN,
};

verus! {

/// An event with a count of participants.
#[derive(Clone, Debug, PartialEq, Eq)]
pub struct Meetup {
    pub organizer: Pubkey,
    pub title: String,
    pub description: String,
    pub max_participants: u8,
    pub current_participants: u8,
    pub country: String,
    pub city: String,
    pub location: String,
    pub price: u64,
    pub date: i64,
    pub category: String,
    pub image_url: String,
}

/// What a [`Meetup`] holds, as mathematical values.
pub struct MeetupView {
    pub organizer: Pubkey,
    pub title: Seq<char>,
    pub description: Seq<char>,
    pub max_participants: u8,
    pub current_participants: u8,
    pub country: Seq<char>,
    pub city: Seq<char>,
    pub location: Seq<char>,
    pub price: u64,
    pub date: i64,
    pub category: Seq<char>,
    pub image_url: Seq<char>,
}

impl View for Meetup {
    type V = MeetupView;

    open spec fn view(&self) -> MeetupView {
        MeetupView {
            organizer: self.organizer,
            title: self.title@,
            description: self.description@,
            max_participants: self.max_participants,
            current_participants: self.current_participants,
            country: self.country@,
            city: self.city@,
            location: self.location@,
            price: self.price,
            date: self.date,
            category: self.category@,
            image_url: self.image_url@,
        }
    }
}

impl MeetupView {
    /// The invariant of a count: it stays within the meetup's capacity.
    pub open spec fn wf(self) -> bool {
        self.current_participants <= self.max_participants
    }

    /// Bytes that the meetup takes when it is stored.
    pub open spec fn serialized_len(self) -> nat {
        record_len(
            utf8_len(self.title),
            utf8_len(self.description),
            utf8_len(self.country),
            utf8_len(self.city),
            utf8_len(self.location),
            utf8_len(self.category),
            utf8_len(self.image_url),
            1,
        )
    }

    /// No text field is longer than its maximum.
    pub open spec fn text_within_limits(self) -> bool {
        texts_within_limits(
            self.title,
            self.description,
            self.country,
            self.city,
            self.location,
            self.category,
            self.image_url,
        )
    }

    /// Every text field is exactly as long as its maximum.
    pub open spec fn text_at_limits(self) -> bool {
        texts_at_limits(
            self.title,
            self.description,
            self.country,
            self.city,
            self.location,
            self.category,
            self.image_url,
        )
    }
}

impl Meetup {
    /// Bytes of the slot that stores a meetup, whatever the meetup holds.
    pub const LEN: usize = HEADER_LEN
        + PUBKEY_BYTES
        + LENGTH_PREFIX_LEN + MAX_TITLE_LEN
        + LENGTH_PREFIX_LEN + MAX_DESCRIPTION_LEN
        + 1
        + 1
        + LENGTH_PREFIX_LEN + MAX_COUNTRY_LEN
        + LENGTH_PREFIX_LEN + MAX_CITY_LEN
        + LENGTH_PREFIX_LEN + MAX_LOCATION_LEN
        + 8
        + 8
        + LENGTH_PREFIX_LEN + MAX_CATEGORY_LEN
        + LENGTH_PREFIX_LEN + MAX_IMAGE_URL_LEN;

    /// The slot has room for every text field at its maximum and for the
    /// one-byte count, and for nothing more.
    pub proof fn lemma_len_is_slot_len()
        ensures
            Meetup::LEN == 766,
            Meetup::LEN == slot_len(1),
    {
    }

    /// Bytes that the meetup takes when it is stored, or `None` where their
    /// number leaves the range of `usize`.
    pub fn serialized_len(&self) -> (n: Option<usize>)
        ensures
            n == checked_usize(self@.serialized_len() as int),
    {
        record_bytes(
            &self.title,
            &self.description,
            &self.country,
            &self.city,
            &self.location,
            &self.category,
            &self.image_url,
            1,
        )
    }
}

/// The accounts of a creation: the blank slot and the creator.
#[derive(Clone, Debug, PartialEq, Eq)]
pub struct CreateMeetup {
    pub meetup: Meetup,
    pub organizer: Pubkey,
}

/// Fills the slot of `ctx` with a new meetup organized by the creator, with
/// nobody counted. Nothing is asked of the fields: a meetup may be created
/// past its date, with no capacity, or with a text that is longer than its
/// slot has room for.
pub fn create_meetup(
    ctx: &mut CreateMeetup,
    title: String,
    description: String,
    max_participants: u8,
    country: String,
    city: String,
    location: String,
    price: u64,
    date: i64,
    category: String,
    image_url: String,
) -> (r: Result<(), ErrorCode>)
    ensures
        r == Ok::<(), ErrorCode>(()),
        final(ctx).organizer == old(ctx).organizer,
        final(ctx).meetup@ == (MeetupView {
            organizer: old(ctx).organizer,
            title: title@,
            description: description@,
            max_participants,
            current_participants: 0,
            country: country@,
            city: city@,
            location: location@,
            price,
            date,
            category: category@,
            image_url: image_url@,
        }),
        final(ctx).meetup@.wf(),
{
    ctx.meetup.organizer = ctx.organizer;
    ctx.meetup.title = title;
    ctx.meetup.description = description;
    ctx.meetup.max_participants = max_participants;
    ctx.meetup.country = country;
    ctx.meetup.city = city;
    ctx.meetup.location = location;
    ctx.meetup.price = price;
    ctx.meetup.date = date;
    ctx.meetup.category = category;
    ctx.meetup.image_url = image_url;
    ctx.meetup.current_participants = 0;
    Ok(())
}

} // verus!
