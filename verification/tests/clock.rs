use anchor_lang::prelude::ProgramError;
use sola_table::contract::table::{
    create_table, join_table, join_table_with_clock, CreateTable, ErrorCode, JoinError,
    JoinTable, Table,
};
use sola_table::pubkey::Pubkey;

fn id(n: u8) -> Pubkey {
    Pubkey([n; 32])
}

fn table_for(organizer: Pubkey, max_participants: u8, date: i64) -> Table {
    let slot = Table {
        organizer: Pubkey([0; 32]),
        title: String::new(),
        description: String::new(),
        max_participants: 0,
        participants: Vec::new(),
        country: String::new(),
        city: String::new(),
        location: String::new(),
        price: 0,
        date: 0,
        category: String::new(),
        image_url: String::new(),
    };
    let mut ctx = CreateTable { table: slot, organizer };
    let made = create_table(
        &mut ctx,
        "Hike".to_string(),
        "Up and down".to_string(),
        max_participants,
        "KR".to_string(),
        "Busan".to_string(),
        "Trailhead".to_string(),
        0,
        date,
        "outdoors".to_string(),
        String::new(),
    );
    assert_eq!(made, Ok(()));
    ctx.table
}

#[test]
fn with_clock_seats_up_to_the_date() {
    let mut ctx = JoinTable { table: table_for(id(1), 2, 1_000), participant: id(2) };
    assert_eq!(join_table_with_clock(&mut ctx, Ok(1_000)), Ok(()));
    assert_eq!(ctx.table.participants, vec![id(2)]);
    assert_eq!(ctx.participant, id(2));
}

#[test]
fn with_clock_rejects_after_the_date() {
    let mut ctx = JoinTable { table: table_for(id(1), 2, 1_000), participant: id(2) };
    let before = ctx.table.clone();
    assert_eq!(
        join_table_with_clock(&mut ctx, Ok(1_001)),
        Err(JoinError::Rejected(ErrorCode::TableExpired))
    );
    assert_eq!(ctx.table, before);
}

#[test]
fn with_clock_hands_on_a_failed_reading() {
    let mut ctx = JoinTable { table: table_for(id(1), 2, 1_000), participant: id(2) };
    let before = ctx.table.clone();
    assert_eq!(
        join_table_with_clock(&mut ctx, Err(ProgramError::Custom(17))),
        Err(JoinError::ClockUnavailable(ProgramError::Custom(17)))
    );
    assert_eq!(ctx.table, before);
}

#[test]
fn with_clock_names_the_earlier_guard_whatever_the_reading() {
    let mut table = table_for(id(1), 2, 1_000);
    table.participants.push(id(2));

    let mut organizer = JoinTable { table: table.clone(), participant: id(1) };
    assert_eq!(
        join_table_with_clock(&mut organizer, Err(ProgramError::UnsupportedSysvar)),
        Err(JoinError::Rejected(ErrorCode::OrganizerCannotJoin))
    );
    assert_eq!(
        join_table_with_clock(&mut organizer, Ok(5_000)),
        Err(JoinError::Rejected(ErrorCode::OrganizerCannotJoin))
    );

    let mut again = JoinTable { table: table.clone(), participant: id(2) };
    assert_eq!(
        join_table_with_clock(&mut again, Err(ProgramError::UnsupportedSysvar)),
        Err(JoinError::Rejected(ErrorCode::AlreadyJoined))
    );
    assert_eq!(
        join_table_with_clock(&mut again, Ok(5_000)),
        Err(JoinError::Rejected(ErrorCode::AlreadyJoined))
    );

    table.participants.push(id(3));
    let mut late = JoinTable { table: table.clone(), participant: id(4) };
    assert_eq!(
        join_table_with_clock(&mut late, Err(ProgramError::UnsupportedSysvar)),
        Err(JoinError::Rejected(ErrorCode::TableFull))
    );
    assert_eq!(
        join_table_with_clock(&mut late, Ok(0)),
        Err(JoinError::Rejected(ErrorCode::TableFull))
    );
    assert_eq!(late.table, table);
}

#[test]
fn join_table_names_the_guards_that_need_no_clock() {
    let mut table = table_for(id(1), 2, i64::MAX);
    table.participants.push(id(2));

    let mut organizer = JoinTable { table: table.clone(), participant: id(1) };
    assert_eq!(
        join_table(&mut organizer),
        Err(JoinError::Rejected(ErrorCode::OrganizerCannotJoin))
    );
    assert_eq!(organizer.table, table);

    let mut again = JoinTable { table: table.clone(), participant: id(2) };
    assert_eq!(join_table(&mut again), Err(JoinError::Rejected(ErrorCode::AlreadyJoined)));
    assert_eq!(again.table, table);

    table.participants.push(id(3));
    let mut late = JoinTable { table: table.clone(), participant: id(1) };
    assert_eq!(join_table(&mut late), Err(JoinError::Rejected(ErrorCode::TableFull)));
    assert_eq!(late.table, table);
}

#[test]
fn join_table_without_a_runtime_cannot_read_the_clock() {
    let table = table_for(id(1), 2, i64::MAX);
    let mut ctx = JoinTable { table: table.clone(), participant: id(2) };
    assert_eq!(
        join_table(&mut ctx),
        Err(JoinError::ClockUnavailable(ProgramError::UnsupportedSysvar))
    );
    assert_eq!(ctx.table, table);
    assert_eq!(ctx.participant, id(2));
}
