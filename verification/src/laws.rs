//! What holds of every record, whatever joins are tried on it.

use vstd::array::spec_array_update;
use vstd::prelude::*;
use vstd::utf8::{is_ascii_chars, is_ascii_chars_encode_utf8};
use crate::contract::meetup::{Meetup, MeetupView};
use crate::contract::table::{ErrorCode, Table, TableView};
use crate::pubkey::Pubkey;
use crate::space::utf8_len;

verus! {

/// The table after each identity of `ids` has tried in turn to join at `now`.
pub open spec fn after_joins(table: TableView, ids: Seq<Pubkey>, now: i64) -> TableView
    decreases ids.len(),
{
    if ids.len() == 0 {
        table
    } else {
        after_joins(table, ids.drop_last(), now).after_join(ids.last(), now)
    }
}

/// A join either seats the caller at the end of the roster or leaves the
/// table untouched, and in neither case does it change any other field.
pub proof fn lemma_join_is_all_or_nothing(table: TableView, who: Pubkey, now: i64)
    ensures
        table.join_result(who, now) is Ok ==> table.after_join(who, now).participants
            == table.participants.push(who),
        table.join_result(who, now) is Err ==> table.after_join(who, now) == table,
        table.after_join(who, now) == (TableView {
            participants: table.after_join(who, now).participants,
            ..table
        }),
{
}

/// A roster within the table's capacity is still within it after a join,
/// whether the join went through or not; and so is the whole invariant of a
/// roster kept.
pub proof fn lemma_join_keeps_capacity(table: TableView, who: Pubkey, now: i64)
    ensures
        table.participants.len() <= table.max_participants ==> table.after_join(
            who,
            now,
        ).participants.len() <= table.after_join(who, now).max_participants,
        table.wf() ==> table.after_join(who, now).wf(),
{
    if table.wf() && table.rejection(who, now) is None {
        table.lemma_seat_keeps_wf(who);
    }
}

/// Somebody on the roster of a table that is not full is told so each time
/// they try again, and the table stays as it is.
pub proof fn lemma_rejoin_is_rejected_again(table: TableView, who: Pubkey, first: i64, second: i64)
    requires
        table.wf(),
        table.participants.contains(who),
        !table.is_full(),
    ensures
        table.join_result(who, first) == Err::<(), ErrorCode>(ErrorCode::AlreadyJoined),
        table.after_join(who, first) == table,
        table.after_join(who, first).join_result(who, second) == Err::<(), ErrorCode>(
            ErrorCode::AlreadyJoined,
        ),
        table.after_join(who, first).after_join(who, second) == table,
{
}

/// While the table is not past its date, as many newcomers get in as it has
/// seats left, in the order in which they come, and the one after them finds
/// the table full.
pub proof fn lemma_capacity_boundary(table: TableView, ids: Seq<Pubkey>, now: i64)
    requires
        table.wf(),
        ids.no_duplicates(),
        !ids.contains(table.organizer),
        forall|i: int| 0 <= i < ids.len() ==> !table.participants.contains(#[trigger] ids[i]),
        ids.len() == table.max_participants - table.participants.len() + 1,
        now <= table.date,
    ensures
        forall|k: int|
            0 <= k < ids.len() - 1 ==> #[trigger] after_joins(table, ids.take(k), now).join_result(
                ids[k],
                now,
            ) == Ok::<(), ErrorCode>(()),
        after_joins(table, ids.take(ids.len() - 1), now).join_result(ids.last(), now) == Err::<
            (),
            ErrorCode,
        >(ErrorCode::TableFull),
        after_joins(table, ids, now).participants == table.participants + ids.drop_last(),
{
    let seats = ids.len() - 1;
    assert forall|k: int| 0 <= k < seats implies #[trigger] after_joins(
        table,
        ids.take(k),
        now,
    ).join_result(ids[k], now) == Ok::<(), ErrorCode>(()) by {
        lemma_newcomers_are_seated(table, ids, now, k);
    }
    lemma_newcomers_are_seated(table, ids, now, seats);
    let filled = after_joins(table, ids.take(seats), now);
    assert(ids.take(seats) == ids.drop_last());
    assert(ids.drop_last().len() == seats);
    assert(filled.is_full());
    assert(after_joins(table, ids, now) == filled.after_join(ids.last(), now));
}

/// The first `k` of the newcomers of `lemma_capacity_boundary` are all
/// seated, and where a seat is left the next one gets it.
proof fn lemma_newcomers_are_seated(table: TableView, ids: Seq<Pubkey>, now: i64, k: int)
    requires
        table.wf(),
        ids.no_duplicates(),
        !ids.contains(table.organizer),
        forall|i: int| 0 <= i < ids.len() ==> !table.participants.contains(#[trigger] ids[i]),
        ids.len() == table.max_participants - table.participants.len() + 1,
        now <= table.date,
        0 <= k < ids.len(),
    ensures
        after_joins(table, ids.take(k), now) == (TableView {
            participants: table.participants + ids.take(k),
            ..table
        }),
        k < ids.len() - 1 ==> after_joins(table, ids.take(k), now).join_result(ids[k], now)
            == Ok::<(), ErrorCode>(()),
    decreases k,
{
    let seated = ids.take(k);
    if k == 0 {
        assert(table.participants + seated == table.participants);
    } else {
        lemma_newcomers_are_seated(table, ids, now, k - 1);
        assert(seated.drop_last() == ids.take(k - 1));
        assert(seated.last() == ids[k - 1]);
        assert((table.participants + ids.take(k - 1)).push(ids[k - 1]) == table.participants
            + seated);
    }
    let roster = table.participants + seated;
    assert(!roster.contains(ids[k])) by {
        if roster.contains(ids[k]) {
            let i = choose|i: int| 0 <= i < roster.len() && roster[i] == ids[k];
            if i < table.participants.len() {
                assert(table.participants.contains(ids[k]));
            } else {
                assert(ids[i - table.participants.len()] == ids[k]);
            }
        }
    }
    assert(ids.contains(ids[k]));
}

/// Somebody whom the other guards let pass gets in up to and at the table's
/// date, and is told that the table has expired from the second after it.
pub proof fn lemma_expiry_boundary(table: TableView, who: Pubkey, now: i64)
    requires
        table.admission_error(who) is None,
    ensures
        table.join_result(who, table.date) == Ok::<(), ErrorCode>(()),
        table.date < i64::MAX ==> table.join_result(who, (table.date + 1) as i64) == Err::<
            (),
            ErrorCode,
        >(ErrorCode::TableExpired),
        table.join_result(who, now) == if now <= table.date {
            Ok::<(), ErrorCode>(())
        } else {
            Err::<(), ErrorCode>(ErrorCode::TableExpired)
        },
{
}

/// The organizer of a table that is not full is turned down as the
/// organizer, whatever the time is and whoever is on the roster.
pub proof fn lemma_organizer_cannot_join(table: TableView, now: i64)
    requires
        !table.is_full(),
    ensures
        table.join_result(table.organizer, now) == Err::<(), ErrorCode>(
            ErrorCode::OrganizerCannotJoin,
        ),
        table.after_join(table.organizer, now) == table,
{
}

/// A full table turns everybody down as full: the organizer too, and after
/// its date too.
pub proof fn lemma_full_table_rejects_everybody(table: TableView, who: Pubkey, now: i64)
    requires
        table.is_full(),
    ensures
        table.join_result(who, now) == Err::<(), ErrorCode>(ErrorCode::TableFull),
        table.after_join(who, now) == table,
{
}

/// A table that is closed stays closed: no join opens it again, and time
/// only moves past its date.
pub proof fn lemma_closed_stays_closed(table: TableView, who: Pubkey, now: i64, later: i64)
    requires
        !table.is_open(now),
        now <= later,
    ensures
        table.join_result(who, now) is Err,
        !table.after_join(who, now).is_open(later),
{
}

/// A table whose text fields are within their maxima and whose roster is
/// within its capacity fits its slot, before and after any join, and fills
/// the slot only with every text field at its maximum and 255 participants.
pub proof fn lemma_table_fits_slot(table: TableView, who: Pubkey, now: i64)
    requires
        table.text_within_limits(),
        table.participants.len() <= table.max_participants,
    ensures
        table.serialized_len() <= Table::LEN,
        table.after_join(who, now).serialized_len() <= Table::LEN,
        table.serialized_len() == Table::LEN <==> table.text_at_limits()
            && table.participants.len() == 255,
{
    Table::lemma_len_is_slot_len();
    lemma_join_keeps_capacity(table, who, now);
}

/// A meetup whose text fields are within their maxima fits its slot, and
/// fills the slot only with every text field at its maximum.
pub proof fn lemma_meetup_fits_slot(meetup: MeetupView)
    requires
        meetup.text_within_limits(),
    ensures
        meetup.serialized_len() <= Meetup::LEN,
        meetup.serialized_len() == Meetup::LEN <==> meetup.text_at_limits(),
{
    Meetup::lemma_len_is_slot_len();
}

/// A text of `len` bytes.
spec fn filler(len: nat) -> Seq<char> {
    Seq::new(len, |i: int| 'a')
}

/// `filler(len)` takes `len` bytes.
proof fn lemma_filler_len(len: nat)
    ensures
        utf8_len(filler(len)) == len,
{
    assert(is_ascii_chars(filler(len)));
    is_ascii_chars_encode_utf8(filler(len));
}

/// `base` with its first byte replaced by `first`.
spec fn numbered(base: Pubkey, first: u8) -> Pubkey {
    Pubkey(spec_array_update(base.0, 0, first))
}

/// No smaller slot would do for a table: some table that keeps the roster's
/// invariant and whose text fields are within their maxima takes every byte
/// of it.
pub proof fn lemma_table_slot_is_exact()
    ensures
        exists|table: TableView|
            table.wf() && table.text_within_limits() && #[trigger] table.serialized_len()
                == Table::LEN,
{
    let base: Pubkey = arbitrary();
    let table = TableView {
        organizer: numbered(base, 255),
        title: filler(50),
        description: filler(200),
        max_participants: 255,
        participants: Seq::new(255, |i: int| numbered(base, i as u8)),
        country: filler(50),
        city: filler(50),
        location: filler(100),
        price: 0,
        date: 0,
        category: filler(30),
        image_url: filler(200),
    };
    lemma_filler_len(50);
    lemma_filler_len(200);
    lemma_filler_len(100);
    lemma_filler_len(30);
    assert forall|i: int| 0 <= i < 256 implies (#[trigger] numbered(base, i as u8)).0@[0] == i by {}
    assert(table.participants.no_duplicates());
    assert(!table.participants.contains(table.organizer));
    Table::lemma_len_is_slot_len();
    assert(table.serialized_len() == Table::LEN);
}

/// No smaller slot would do for a meetup: some meetup whose text fields are
/// within their maxima takes every byte of it.
pub proof fn lemma_meetup_slot_is_exact()
    ensures
        exists|meetup: MeetupView|
            meetup.wf() && meetup.text_within_limits() && #[trigger] meetup.serialized_len()
                == Meetup::LEN,
{
    let meetup = MeetupView {
        organizer: arbitrary(),
        title: filler(50),
        description: filler(200),
        max_participants: 0,
        current_participants: 0,
        country: filler(50),
        city: filler(50),
        location: filler(100),
        price: 0,
        date: 0,
        category: filler(30),
        image_url: filler(200),
    };
    lemma_filler_len(50);
    lemma_filler_len(200);
    lemma_filler_len(100);
    lemma_filler_len(30);
    Meetup::lemma_len_is_slot_len();
    assert(meetup.serialized_len() == Meetup::LEN);
}

} // verus!
