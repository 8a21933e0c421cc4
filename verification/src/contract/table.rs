//! The roster record: an event that lists the identities of its participants.

use anchor_lang::prelude::ProgramError;
use vstd::prelude::*;
use crate::clock::unix_timestamp;
use crate::pubkey::{Pubkey, PUBKEY_BYTES};
use crate::space::{
    checked_usize, record_bytes, record_len, roster_bytes, roster_len, slot_len,
    texts_at_limits, texts_within_limits, utf8_len,
    HEADER_LEN, LENGTH_PREFIX_LEN, MAX_CATEGORY_LEN, MAX_CITY_LEN, MAX_COUNTRY_LEN,
    MAX_DESCRIPTION_LEN, MAX_IMAGE_URL_LEN, MAX_LOCATION_LEN, MAX_ROSTER_LEN, MAX_TITLE_LEN,
};

verus! {

/// Why a join was turned down.
#[derive(Clone, Copy, Debug, PartialEq, Eq)]
pub enum ErrorCode {
    /// The roster already holds as many participants as the table admits.
    TableFull,
    /// The table's date lies in the past.
    TableExpired,
    /// The caller is on the roster already.
    AlreadyJoined,
    /// The caller organizes the table.
    OrganizerCannotJoin,
}

impl ErrorCode {
    /// The text that tells a caller why the join was turned down.
    pub open spec fn message_text(self) -> Seq<char> {
        match self {
            ErrorCode::TableFull => "The table is full"@,
            ErrorCode::TableExpired => "The table date has passed"@,
            ErrorCode::AlreadyJoined => "Already joined this table"@,
            ErrorCode::OrganizerCannotJoin => "Organizer cannot join their own table"@,
        }
    }

    /// The text that tells a caller why the join was turned down.
    pub fn message(&self) -> (text: String)
        ensures
            text@ == self.message_text(),
    {
        match self {
            ErrorCode::TableFull => String::from_str("The table is full"),
            ErrorCode::TableExpired => String::from_str("The table date has passed"),
            ErrorCode::AlreadyJoined => String::from_str("Already joined this table"),
            ErrorCode::OrganizerCannotJoin => String::from_str(
                "Organizer cannot join their own table",
            ),
        }
    }
}

/// Why a join did not go through.
#[derive(Debug, PartialEq, Eq)]
pub enum JoinError {
    /// A guard turned the caller down.
    Rejected(ErrorCode),
    /// The clock could not be read, so the table's date was never looked at.
    ClockUnavailable(ProgramError),
}

/// An event with a roster of participants.
#[derive(Clone, Debug, PartialEq, Eq)]
pub struct Table {
    pub organizer: Pubkey,
    pub title: String,
    pub description: String,
    pub max_participants: u8,
    pub participants: Vec<Pubkey>,
    pub country: String,
    pub city: String,
    pub location: String,
    pub price: u64,
    pub date: i64,
    pub category: String,
    pub image_url: String,
}

/// What a [`Table`] holds, as mathematical values.
pub struct TableView {
    pub organizer: Pubkey,
    pub title: Seq<char>,
    pub description: Seq<char>,
    pub max_participants: u8,
    pub participants: Seq<Pubkey>,
    pub country: Seq<char>,
    pub city: Seq<char>,
    pub location: Seq<char>,
    pub price: u64,
    pub date: i64,
    pub category: Seq<char>,
    pub image_url: Seq<char>,
}

impl View for Table {
    type V = TableView;

    open spec fn view(&self) -> TableView {
        TableView {
            organizer: self.organizer,
            title: self.title@,
            description: self.description@,
            max_participants: self.max_participants,
            participants: self.participants@,
            country: self.country@,
            city: self.city@,
            location: self.location@,
            price: self.price,
            date: self.date,
            category: self.category@,
            image_url: self.image_url@,
        }
    }
}

impl TableView {
    /// The invariant of a roster: it stays within the table's capacity, lists
    /// nobody twice, and never lists the organizer.
    pub open spec fn wf(self) -> bool {
        &&& self.participants.len() <= self.max_participants
        &&& self.participants.no_duplicates()
        &&& !self.participants.contains(self.organizer)
    }

    /// Bytes that the table takes when it is stored.
    pub open spec fn serialized_len(self) -> nat {
        record_len(
            utf8_len(self.title),
            utf8_len(self.description),
            utf8_len(self.country),
            utf8_len(self.city),
            utf8_len(self.location),
            utf8_len(self.category),
            utf8_len(self.image_url),
            roster_len(self.participants.len()),
        )
    }

    /// No text field is longer than its maximum.
    pub open spec fn text_within_limits(self) -> bool {
        texts_within_limits(
            self.title,
            self.description,
            self.country,
            self.city,
            self.location,
            self.category,
            self.image_url,
        )
    }

    /// Every text field is exactly as long as its maximum.
    pub open spec fn text_at_limits(self) -> bool {
        texts_at_limits(
            self.title,
            self.description,
            self.country,
            self.city,
            self.location,
            self.category,
            self.image_url,
        )
    }

    /// The roster has reached the table's capacity. A roster that has
    /// somehow grown beyond it counts as full too.
    pub open spec fn is_full(self) -> bool {
        self.participants.len() >= self.max_participants
    }

    /// The table's date lies before `now`.
    pub open spec fn is_expired(self, now: i64) -> bool {
        now > self.date
    }

    /// The table still takes participants at `now`.
    pub open spec fn is_open(self, now: i64) -> bool {
        !self.is_expired(now) && !self.is_full()
    }

    /// The guard that turns `who` down whatever the time is, if there is one:
    /// capacity first, then the organizer, then the roster.
    pub open spec fn admission_error(self, who: Pubkey) -> Option<ErrorCode> {
        if self.is_full() {
            Some(ErrorCode::TableFull)
        } else if who == self.organizer {
            Some(ErrorCode::OrganizerCannotJoin)
        } else if self.participants.contains(who) {
            Some(ErrorCode::AlreadyJoined)
        } else {
            None
        }
    }

    /// The first guard that turns `who` down at `now`, if there is one. The
    /// date is looked at only when the other guards let `who` pass.
    pub open spec fn rejection(self, who: Pubkey, now: i64) -> Option<ErrorCode> {
        match self.admission_error(who) {
            Some(code) => Some(code),
            None => if self.is_expired(now) {
                Some(ErrorCode::TableExpired)
            } else {
                None
            },
        }
    }

    /// The table with `who` at the end of its roster.
    pub open spec fn seat(self, who: Pubkey) -> TableView {
        TableView { participants: self.participants.push(who), ..self }
    }

    /// What a join of `who` at `now` answers.
    pub open spec fn join_result(self, who: Pubkey, now: i64) -> Result<(), ErrorCode> {
        match self.rejection(who, now) {
            Some(code) => Err(code),
            None => Ok(()),
        }
    }

    /// The table after a join of `who` at `now`: a join that is turned down
    /// leaves the table as it was.
    pub open spec fn after_join(self, who: Pubkey, now: i64) -> TableView {
        if self.rejection(who, now) is None {
            self.seat(who)
        } else {
            self
        }
    }

    /// Seating somebody whom no guard turns down keeps the roster's
    /// invariant.
    pub proof fn lemma_seat_keeps_wf(self, who: Pubkey)
        requires
            self.wf(),
            self.admission_error(who) is None,
        ensures
            self.seat(who).wf(),
    {
        let before = self.participants;
        let after = self.seat(who).participants;
        assert forall|i: int, j: int|
            0 <= i < after.len() && 0 <= j < after.len() && i != j implies after[i] != after[j] by {
            if i < before.len() {
                assert(before.contains(before[i]));
            }
            if j < before.len() {
                assert(before.contains(before[j]));
            }
        }
        assert forall|i: int| 0 <= i < after.len() implies after[i] != self.organizer by {
            if i < before.len() {
                assert(before.contains(before[i]));
            }
        }
    }
}

impl Table {
    /// Bytes of the slot that stores a table, whatever the table holds.
    pub const LEN: usize = HEADER_LEN
        + PUBKEY_BYTES
        + LENGTH_PREFIX_LEN + MAX_TITLE_LEN
        + LENGTH_PREFIX_LEN + MAX_DESCRIPTION_LEN
        + 1
        + LENGTH_PREFIX_LEN + (PUBKEY_BYTES * MAX_ROSTER_LEN)
        + LENGTH_PREFIX_LEN + MAX_COUNTRY_LEN
        + LENGTH_PREFIX_LEN + MAX_CITY_LEN
        + LENGTH_PREFIX_LEN + MAX_LOCATION_LEN
        + 8
        + 8
        + LENGTH_PREFIX_LEN + MAX_CATEGORY_LEN
        + LENGTH_PREFIX_LEN + MAX_IMAGE_URL_LEN;

    /// The slot has room for every text field at its maximum and for a roster
    /// of 255 identities, and for nothing more.
    pub proof fn lemma_len_is_slot_len()
        ensures
            Table::LEN == 8929,
            Table::LEN == slot_len(roster_len(MAX_ROSTER_LEN as nat)),
    {
    }

    /// Bytes that the table takes when it is stored, or `None` where their
    /// number leaves the range of `usize`.
    pub fn serialized_len(&self) -> (n: Option<usize>)
        ensures
            n == checked_usize(self@.serialized_len() as int),
    {
        match roster_bytes(self.participants.len()) {
            Some(roster) => record_bytes(
                &self.title,
                &self.description,
                &self.country,
                &self.city,
                &self.location,
                &self.category,
                &self.image_url,
                roster,
            ),
            None => None,
        }
    }

    /// Whether `who` is on the roster.
    pub fn has_joined(&self, who: &Pubkey) -> (found: bool)
        ensures
            found == self@.participants.contains(*who),
    {
        let mut i: usize = 0;
        while i < self.participants.len()
            invariant
                i <= self.participants.len(),
                forall|j: int| 0 <= j < i ==> self.participants@[j] != *who,
            decreases self.participants.len() - i,
        {
            if self.participants[i] == *who {
                return true;
            }
            i += 1;
        }
        false
    }

    /// The guard that turns `who` down whatever the time is, if there is one.
    pub fn admission_error(&self, who: &Pubkey) -> (code: Option<ErrorCode>)
        ensures
            code == self@.admission_error(*who),
    {
        if self.participants.len() >= self.max_participants as usize {
            Some(ErrorCode::TableFull)
        } else if *who == self.organizer {
            Some(ErrorCode::OrganizerCannotJoin)
        } else if self.has_joined(who) {
            Some(ErrorCode::AlreadyJoined)
        } else {
            None
        }
    }
}

/// The accounts of a creation: the blank slot and the creator.
#[derive(Clone, Debug, PartialEq, Eq)]
pub struct CreateTable {
    pub table: Table,
    pub organizer: Pubkey,
}

/// Fills the slot of `ctx` with a new table organized by the creator, with
/// nobody on its roster. Nothing is asked of the fields: a table may be
/// created past its date, with no capacity, or with a text that is longer
/// than its slot has room for.
pub fn create_table(
    ctx: &mut CreateTable,
    title: String,
    description: String,
    max_participants: u8,
    country: String,
    city: String,
    location: String,
    price: u64,
    date: i64,
    category: String,
    image_url: String,
) -> (r: Result<(), ErrorCode>)
    ensures
        r == Ok::<(), ErrorCode>(()),
        final(ctx).organizer == old(ctx).organizer,
        final(ctx).table@ == (TableView {
            organizer: old(ctx).organizer,
            title: title@,
            description: description@,
            max_participants,
            participants: Seq::empty(),
            country: country@,
            city: city@,
            location: location@,
            price,
            date,
            category: category@,
            image_url: image_url@,
        }),
        final(ctx).table@.wf(),
{
    ctx.table.organizer = ctx.organizer;
    ctx.table.title = title;
    ctx.table.description = description;
    ctx.table.max_participants = max_participants;
    ctx.table.participants = Vec::new();
    ctx.table.country = country;
    ctx.table.city = city;
    ctx.table.location = location;
    ctx.table.price = price;
    ctx.table.date = date;
    ctx.table.category = category;
    ctx.table.image_url = image_url;
    Ok(())
}

/// The accounts of a join: the table and the caller.
#[derive(Clone, Debug, PartialEq, Eq)]
pub struct JoinTable {
    pub table: Table,
    pub participant: Pubkey,
}

/// Lets the caller of `ctx` join the table at `current_time`, unless a guard
/// turns the caller down. The guards are tried in a fixed order, and the first
/// that fails names the error: capacity, organizer, roster, date.
pub fn join_table_at(ctx: &mut JoinTable, current_time: i64) -> (r: Result<(), ErrorCode>)
    ensures
        final(ctx).participant == old(ctx).participant,
        r == old(ctx).table@.join_result(old(ctx).participant, current_time),
        final(ctx).table@ == old(ctx).table@.after_join(old(ctx).participant, current_time),
        old(ctx).table@.participants.len() <= old(ctx).table@.max_participants
            ==> final(ctx).table@.participants.len() <= final(ctx).table@.max_participants,
        old(ctx).table@.wf() ==> final(ctx).table@.wf(),
{
    if let Some(code) = ctx.table.admission_error(&ctx.participant) {
        return Err(code);
    }
    if current_time > ctx.table.date {
        return Err(ErrorCode::TableExpired);
    }
    proof {
        if ctx.table@.wf() {
            ctx.table@.lemma_seat_keeps_wf(ctx.participant);
        }
    }
    ctx.table.participants.push(ctx.participant);
    Ok(())
}

/// Lets the caller of `ctx` join the table, going by a reading of the clock
/// that may have failed. The guards that do not look at the time come first,
/// so a failed reading matters only to a caller whom they let pass.
pub fn join_table_with_clock(ctx: &mut JoinTable, clock: Result<i64, ProgramError>) -> (r: Result<
    (),
    JoinError,
>)
    ensures
        final(ctx).participant == old(ctx).participant,
        r == match clock {
            Ok(now) => match old(ctx).table@.join_result(old(ctx).participant, now) {
                Ok(()) => Ok(()),
                Err(code) => Err(JoinError::Rejected(code)),
            },
            Err(error) => match old(ctx).table@.admission_error(old(ctx).participant) {
                Some(code) => Err(JoinError::Rejected(code)),
                None => Err(JoinError::ClockUnavailable(error)),
            },
        },
        final(ctx).table@ == match clock {
            Ok(now) => old(ctx).table@.after_join(old(ctx).participant, now),
            Err(_) => old(ctx).table@,
        },
        old(ctx).table@.participants.len() <= old(ctx).table@.max_participants
            ==> final(ctx).table@.participants.len() <= final(ctx).table@.max_participants,
        old(ctx).table@.wf() ==> final(ctx).table@.wf(),
{
    match clock {
        Ok(now) => match join_table_at(ctx, now) {
            Ok(()) => Ok(()),
            Err(code) => Err(JoinError::Rejected(code)),
        },
        Err(error) => match ctx.table.admission_error(&ctx.participant) {
            Some(code) => Err(JoinError::Rejected(code)),
            None => Err(JoinError::ClockUnavailable(error)),
        },
    }
}

/// Lets the caller of `ctx` join the table now. The clock is read once, and
/// only for a caller whom the guards that do not look at the time let pass.
pub fn join_table(ctx: &mut JoinTable) -> (r: Result<(), JoinError>)
    ensures
        final(ctx).participant == old(ctx).participant,
        old(ctx).table@.participants.len() <= old(ctx).table@.max_participants
            ==> final(ctx).table@.participants.len() <= final(ctx).table@.max_participants,
        old(ctx).table@.wf() ==> final(ctx).table@.wf(),
        match old(ctx).table@.admission_error(old(ctx).participant) {
            Some(code) => {
                &&& r == Err::<(), JoinError>(JoinError::Rejected(code))
                &&& final(ctx).table@ == old(ctx).table@
            },
            None => match r {
                Ok(()) => final(ctx).table@ == old(ctx).table@.seat(old(ctx).participant),
                Err(JoinError::Rejected(code)) => {
                    &&& code == ErrorCode::TableExpired
                    &&& final(ctx).table@ == old(ctx).table@
                },
                Err(JoinError::ClockUnavailable(_)) => final(ctx).table@ == old(ctx).table@,
            },
        },
{
    match ctx.table.admission_error(&ctx.participant) {
        Some(code) => Err(JoinError::Rejected(code)),
        None => {
            let clock = unix_timestamp();
            join_table_with_clock(ctx, clock)
        },
    }
}

} // verus!
