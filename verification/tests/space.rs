use anchor_lang::prelude::borsh;
use sola_table::contract::meetup::Meetup;
use sola_table::contract::table::Table;
use sola_table::pubkey::{Pubkey, PUBKEY_BYTES};
use sola_table::space::{
    record_bytes, roster_bytes, HEADER_LEN, LENGTH_PREFIX_LEN, MAX_CATEGORY_LEN, MAX_CITY_LEN,
    MAX_COUNTRY_LEN, MAX_DESCRIPTION_LEN, MAX_IMAGE_URL_LEN, MAX_LOCATION_LEN, MAX_ROSTER_LEN,
    MAX_TITLE_LEN,
};

fn table_with(texts: [&str; 7], roster: usize) -> Table {
    let mut participants = Vec::new();
    for n in 0..roster {
        let mut bytes = [0u8; 32];
        bytes[0] = (n % 256) as u8;
        bytes[1] = (n / 256) as u8;
        bytes[2] = 1;
        participants.push(Pubkey(bytes));
    }
    Table {
        organizer: Pubkey([9; 32]),
        title: texts[0].to_string(),
        description: texts[1].to_string(),
        max_participants: 255,
        participants,
        country: texts[2].to_string(),
        city: texts[3].to_string(),
        location: texts[4].to_string(),
        price: 77,
        date: -3,
        category: texts[5].to_string(),
        image_url: texts[6].to_string(),
    }
}

fn meetup_with(texts: [&str; 7]) -> Meetup {
    Meetup {
        organizer: Pubkey([9; 32]),
        title: texts[0].to_string(),
        description: texts[1].to_string(),
        max_participants: 10,
        current_participants: 4,
        country: texts[2].to_string(),
        city: texts[3].to_string(),
        location: texts[4].to_string(),
        price: 77,
        date: -3,
        category: texts[5].to_string(),
        image_url: texts[6].to_string(),
    }
}

fn borsh_len_of_table(t: &Table) -> usize {
    let roster: Vec<[u8; 32]> = t.participants.iter().map(|p| p.to_bytes()).collect();
    let fields = (
        t.organizer.to_bytes(),
        t.title.clone(),
        t.description.clone(),
        t.max_participants,
        roster,
        t.country.clone(),
        t.city.clone(),
        t.location.clone(),
        t.price,
        t.date,
        t.category.clone(),
        t.image_url.clone(),
    );
    HEADER_LEN + borsh::to_vec(&fields).unwrap().len()
}

fn borsh_len_of_meetup(m: &Meetup) -> usize {
    let fields = (
        m.organizer.to_bytes(),
        m.title.clone(),
        m.description.clone(),
        m.max_participants,
        m.current_participants,
        m.country.clone(),
        m.city.clone(),
        m.location.clone(),
        m.price,
        m.date,
        m.category.clone(),
        m.image_url.clone(),
    );
    HEADER_LEN + borsh::to_vec(&fields).unwrap().len()
}

#[test]
fn slot_sizes() {
    assert_eq!(Table::LEN, 8929);
    assert_eq!(Meetup::LEN, 766);
    assert_eq!(Table::LEN - Meetup::LEN, 4 + 32 * 255 - 1);
}

#[test]
fn layout_constants() {
    assert_eq!(HEADER_LEN, 8);
    assert_eq!(PUBKEY_BYTES, 32);
    assert_eq!(LENGTH_PREFIX_LEN, 4);
    assert_eq!(MAX_TITLE_LEN, 50);
    assert_eq!(MAX_DESCRIPTION_LEN, 200);
    assert_eq!(MAX_COUNTRY_LEN, 50);
    assert_eq!(MAX_CITY_LEN, 50);
    assert_eq!(MAX_LOCATION_LEN, 100);
    assert_eq!(MAX_CATEGORY_LEN, 30);
    assert_eq!(MAX_IMAGE_URL_LEN, 200);
    assert_eq!(MAX_ROSTER_LEN, 255);
}

#[test]
fn empty_records_take_their_fixed_parts_only() {
    let table = table_with([""; 7], 0);
    assert_eq!(table.serialized_len(), Some(8 + 32 + 7 * 4 + 1 + 4 + 8 + 8));
    assert_eq!(table.serialized_len(), Some(89));
    let meetup = meetup_with([""; 7]);
    assert_eq!(meetup.serialized_len(), Some(86));
}

#[test]
fn records_at_their_limits_fill_their_slots() {
    let title = "t".repeat(50);
    let description = "d".repeat(200);
    let country = "c".repeat(50);
    let city = "y".repeat(50);
    let location = "l".repeat(100);
    let category = "g".repeat(30);
    let image_url = "u".repeat(200);
    let texts = [
        title.as_str(),
        description.as_str(),
        country.as_str(),
        city.as_str(),
        location.as_str(),
        category.as_str(),
        image_url.as_str(),
    ];
    let table = table_with(texts, 255);
    assert_eq!(table.serialized_len(), Some(Table::LEN));
    assert_eq!(borsh_len_of_table(&table), Table::LEN);
    let meetup = meetup_with(texts);
    assert_eq!(meetup.serialized_len(), Some(Meetup::LEN));
    assert_eq!(borsh_len_of_meetup(&meetup), Meetup::LEN);
}

#[test]
fn shorter_records_stay_inside_their_slots() {
    let texts = ["Dinner", "Eight courses", "KR", "Seoul", "Mapo", "food", "https://example.org"];
    let table = table_with(texts, 3);
    let text_bytes: usize = texts.iter().map(|t| t.len()).sum();
    assert_eq!(text_bytes, 53);
    assert_eq!(table.serialized_len(), Some(89 + 53 + 3 * 32));
    assert_eq!(table.serialized_len(), Some(238));
    assert!(table.serialized_len().unwrap() < Table::LEN);
    let meetup = meetup_with(texts);
    assert_eq!(meetup.serialized_len(), Some(139));
    assert!(meetup.serialized_len().unwrap() < Meetup::LEN);
}

#[test]
fn one_byte_over_the_limit_leaves_the_slot() {
    let title = "t".repeat(51);
    let description = "d".repeat(200);
    let country = "c".repeat(50);
    let city = "y".repeat(50);
    let location = "l".repeat(100);
    let category = "g".repeat(30);
    let image_url = "u".repeat(200);
    let texts = [
        title.as_str(),
        description.as_str(),
        country.as_str(),
        city.as_str(),
        location.as_str(),
        category.as_str(),
        image_url.as_str(),
    ];
    assert_eq!(table_with(texts, 255).serialized_len(), Some(Table::LEN + 1));
    assert_eq!(meetup_with(texts).serialized_len(), Some(Meetup::LEN + 1));
}

#[test]
fn text_is_measured_in_bytes() {
    assert_eq!("서울".chars().count(), 2);
    let table = table_with(["서울", "", "", "", "", "", ""], 0);
    assert_eq!(table.serialized_len(), Some(89 + 6));
    let meetup = meetup_with(["", "", "", "", "", "", "héllo"]);
    assert_eq!(meetup.serialized_len(), Some(86 + 6));
}

#[test]
fn serialized_len_is_the_length_of_the_borsh_form() {
    let cases: [([&str; 7], usize); 4] = [
        ([""; 7], 0),
        (["Dinner", "Eight courses", "KR", "Seoul", "Mapo", "food", "https://example.org"], 1),
        (["서울 저녁", "여덟 가지 코스", "대한민국", "서울", "마포구", "음식", ""], 17),
        (["a", "bb", "ccc", "dddd", "eeeee", "ffffff", "ggggggg"], 255),
    ];
    for (texts, roster) in cases {
        let table = table_with(texts, roster);
        assert_eq!(table.serialized_len(), Some(borsh_len_of_table(&table)));
        let meetup = meetup_with(texts);
        assert_eq!(meetup.serialized_len(), Some(borsh_len_of_meetup(&meetup)));
    }
}

#[test]
fn roster_sizes() {
    assert_eq!(roster_bytes(0), Some(4));
    assert_eq!(roster_bytes(1), Some(36));
    assert_eq!(roster_bytes(255), Some(8164));
    assert_eq!(roster_bytes(usize::MAX / 32), Some(usize::MAX - 27));
    assert_eq!(roster_bytes(usize::MAX / 32 + 1), None);
    assert_eq!(roster_bytes(usize::MAX), None);
}

#[test]
fn record_sizes() {
    let e = String::new();
    assert_eq!(record_bytes(&e, &e, &e, &e, &e, &e, &e, 0), Some(85));
    assert_eq!(record_bytes(&e, &e, &e, &e, &e, &e, &e, 1), Some(86));
    let a = "abc".to_string();
    assert_eq!(record_bytes(&a, &e, &a, &e, &a, &e, &a, 10), Some(85 + 12 + 10));
    assert_eq!(record_bytes(&e, &e, &e, &e, &e, &e, &e, usize::MAX - 85), Some(usize::MAX));
    assert_eq!(record_bytes(&e, &e, &e, &e, &e, &e, &e, usize::MAX - 84), None);
    assert_eq!(record_bytes(&a, &e, &e, &e, &e, &e, &e, usize::MAX - 88), Some(usize::MAX));
    assert_eq!(record_bytes(&a, &e, &e, &e, &e, &e, &e, usize::MAX - 87), None);
    assert_eq!(record_bytes(&e, &e, &e, &e, &e, &e, &a, usize::MAX - 87), None);
    assert_eq!(record_bytes(&e, &e, &e, &e, &e, &e, &e, usize::MAX), None);
}
