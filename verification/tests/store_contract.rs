use availability::api;
use availability::error::{MyError, StoreError};
use availability::memory::MemoryStore;
use availability::model::{
    AvailableBlock, IdentifiableAvailableBlock, IdentifiablePlayer, IdentifiableTeam,
    IdentifiableUser, Player, Team, User,
};
use availability::store::AvailablityStore;

fn team(name: &str) -> Team {
    Team { name: name.to_string() }
}

fn user(name: &str) -> User {
    User { name: name.to_string() }
}

fn block(start: &str, end: &str, rule: &str, player_id: i32) -> AvailableBlock {
    AvailableBlock::from_wire(start, end, false, rule, player_id).unwrap()
}

#[test]
fn scenario_create_one_of_each() {
    let mut store = MemoryStore::new();
    let falcons = api::create_team(&mut store, team("Falcons")).unwrap();
    assert_eq!(falcons, IdentifiableTeam { id: 1, name: "Falcons".to_string() });
    let alice = api::create_user(&mut store, user("Alice")).unwrap();
    assert_eq!(alice, IdentifiableUser { id: 1, name: "Alice".to_string() });
    let player = api::create_player(&mut store, Player { user_id: 1 }).unwrap();
    assert_eq!(player, IdentifiablePlayer { id: 1, user_id: 1 });
    let input = block("09:00:00", "10:00:00", "FREQ=WEEKLY;COUNT=5", 1);
    let made = api::create_available_block(&mut store, input.clone()).unwrap();
    assert_eq!(made.id, 1);
    assert_eq!(made.inner_block, input);
    assert_eq!(made.inner_block.start_time.encode(), "09:00:00");
    assert_eq!(made.inner_block.end_time.encode(), "10:00:00");
    assert!(!made.inner_block.need_warning);
    assert_eq!(made.inner_block.repeats.encode(), "FREQ=WEEKLY;COUNT=5");
    assert_eq!(made.inner_block.player_id, 1);
    let listed = api::get_available_blocks_by_player(&store, 1).unwrap();
    assert_eq!(listed, vec![made]);
}

#[test]
fn add_keeps_the_fields_and_gives_a_fresh_id() {
    let mut store = MemoryStore::new();
    let a = store.add_team(team("a")).unwrap();
    let b = store.add_team(team("b")).unwrap();
    let c = store.add_team(team("a")).unwrap();
    assert_eq!((a.id, b.id, c.id), (1, 2, 3));
    assert_eq!((a.name.as_str(), b.name.as_str(), c.name.as_str()), ("a", "b", "a"));
    store.delete_team(3).unwrap();
    let d = store.add_team(team("d")).unwrap();
    assert_eq!(d.id, 4);
}

#[test]
fn ids_are_counted_per_table() {
    let mut store = MemoryStore::new();
    assert_eq!(store.add_team(team("t")).unwrap().id, 1);
    assert_eq!(store.add_team(team("u")).unwrap().id, 2);
    assert_eq!(store.add_user(user("u")).unwrap().id, 1);
    assert_eq!(store.add_player(Player { user_id: 1 }).unwrap().id, 1);
    assert_eq!(store.add_available_block(block("01:00:00", "02:00:00", "FREQ=DAILY", 1)).unwrap().id, 1);
}

#[test]
fn lookup_of_an_id_never_given_finds_nothing() {
    let mut store = MemoryStore::new();
    assert_eq!(store.get_team_by_id(1), Ok(None));
    assert_eq!(store.get_user_by_id(1), Ok(None));
    assert_eq!(store.get_player_by_id(1), Ok(None));
    assert_eq!(store.get_available_block_by_id(1), Ok(None));
    store.add_team(team("t")).unwrap();
    assert_eq!(store.get_team_by_id(2), Ok(None));
    assert_eq!(store.get_team_by_id(0), Ok(None));
    assert_eq!(store.get_team_by_id(-1), Ok(None));
    assert_eq!(store.get_user_by_id(1), Ok(None));
}

#[test]
fn update_replaces_the_row() {
    let mut store = MemoryStore::new();
    store.add_user(user("Alice")).unwrap();
    store.add_user(user("Bob")).unwrap();
    let changed = IdentifiableUser { id: 1, name: "Alicia".to_string() };
    assert_eq!(store.update_user(changed.clone()), Ok(changed.clone()));
    assert_eq!(store.get_user_by_id(1), Ok(Some(changed)));
    assert_eq!(store.get_user_by_id(2), Ok(Some(IdentifiableUser { id: 2, name: "Bob".to_string() })));
    assert_eq!(store.get_user_by_name("Alice".to_string()), Ok(None));
}

#[test]
fn update_of_a_block_replaces_every_field() {
    let mut store = MemoryStore::new();
    store.add_available_block(block("09:00:00", "10:00:00", "FREQ=WEEKLY;COUNT=5", 1)).unwrap();
    let changed = IdentifiableAvailableBlock {
        id: 1,
        inner_block: AvailableBlock::from_wire("11:30:00", "12:45:10", true, "FREQ=DAILY;INTERVAL=2", 2).unwrap(),
    };
    assert_eq!(store.update_available_block(changed.clone()), Ok(changed.clone()));
    assert_eq!(store.get_available_block_by_id(1), Ok(Some(changed.clone())));
    assert_eq!(store.get_available_blocks_by_player_id(1), Ok(vec![]));
    assert_eq!(store.get_available_blocks_by_player_id(2), Ok(vec![changed]));
}

#[test]
fn update_of_a_missing_id_fails_and_changes_nothing() {
    let mut store = MemoryStore::new();
    store.add_team(team("t")).unwrap();
    let ghost = IdentifiableTeam { id: 9, name: "x".to_string() };
    assert_eq!(store.update_team(ghost.clone()), Err(StoreError::RowNotFound));
    assert_eq!(store.get_team_by_id(9), Ok(None));
    assert_eq!(store.get_team_by_id(1), Ok(Some(IdentifiableTeam { id: 1, name: "t".to_string() })));
    assert_eq!(api::update_team(&mut store, ghost), Err(MyError::No));
    assert_eq!(store.update_player(IdentifiablePlayer { id: 1, user_id: 1 }), Err(StoreError::RowNotFound));
}

#[test]
fn delete_then_lookup_finds_nothing() {
    let mut store = MemoryStore::new();
    store.add_player(Player { user_id: 5 }).unwrap();
    store.add_player(Player { user_id: 6 }).unwrap();
    assert_eq!(store.delete_player(1), Ok(()));
    assert_eq!(store.get_player_by_id(1), Ok(None));
    assert_eq!(store.get_player_by_user_id(5), Ok(None));
    assert_eq!(store.get_player_by_id(2), Ok(Some(IdentifiablePlayer { id: 2, user_id: 6 })));
}

#[test]
fn delete_of_a_missing_id_succeeds() {
    let mut store = MemoryStore::new();
    assert_eq!(store.delete_team(1), Ok(()));
    assert_eq!(store.delete_user(1), Ok(()));
    assert_eq!(store.delete_player(1), Ok(()));
    assert_eq!(store.delete_available_block(1), Ok(()));
    store.add_team(team("t")).unwrap();
    assert_eq!(store.delete_team(1), Ok(()));
    assert_eq!(store.delete_team(1), Ok(()));
    assert_eq!(api::delete_team(&mut store, 1), Ok(()));
}

#[test]
fn lookup_by_name_finds_the_earliest_of_that_name() {
    let mut store = MemoryStore::new();
    store.add_team(team("Falcons")).unwrap();
    store.add_team(team("Hawks")).unwrap();
    store.add_team(team("Hawks")).unwrap();
    assert_eq!(
        store.get_team_by_name("Hawks".to_string()),
        Ok(Some(IdentifiableTeam { id: 2, name: "Hawks".to_string() }))
    );
    assert_eq!(store.get_team_by_name("Eagles".to_string()), Ok(None));
    store.delete_team(2).unwrap();
    assert_eq!(
        store.get_team_by_name("Hawks".to_string()),
        Ok(Some(IdentifiableTeam { id: 3, name: "Hawks".to_string() }))
    );
}

#[test]
fn blocks_of_a_player_come_in_the_order_added() {
    let mut store = MemoryStore::new();
    let a = store.add_available_block(block("09:00:00", "10:00:00", "FREQ=WEEKLY", 1)).unwrap();
    let _ = store.add_available_block(block("09:00:00", "10:00:00", "FREQ=WEEKLY", 2)).unwrap();
    let c = store.add_available_block(block("13:00:00", "14:00:00", "FREQ=DAILY", 1)).unwrap();
    assert_eq!(store.get_available_blocks_by_player_id(1), Ok(vec![a.clone(), c]));
    assert_eq!(store.get_available_blocks_by_player_id(3), Ok(vec![]));
    store.delete_available_block(3).unwrap();
    assert_eq!(store.get_available_blocks_by_player_id(1), Ok(vec![a]));
}

#[test]
fn handlers_tell_missing_from_found() {
    let mut store = MemoryStore::new();
    assert_eq!(api::get_team(&store, team("Falcons")), Err(MyError::No));
    assert_eq!(api::get_team_by_id(&store, 1), Err(MyError::No));
    assert_eq!(api::get_user(&store, user("Alice")), Err(MyError::No));
    assert_eq!(api::get_user_by_id(&store, 1), Err(MyError::No));
    assert_eq!(api::get_player_by_user_id(&store, Player { user_id: 1 }), Err(MyError::No));
    assert_eq!(api::get_player_by_id(&store, 1), Err(MyError::No));
    assert_eq!(api::get_available_block_by_id(&store, 1), Err(MyError::No));
    assert_eq!(api::get_available_blocks_by_player(&store, 1), Ok(vec![]));
    api::create_team(&mut store, team("Falcons")).unwrap();
    api::create_user(&mut store, user("Alice")).unwrap();
    api::create_player(&mut store, Player { user_id: 1 }).unwrap();
    let made = api::create_available_block(&mut store, block("09:00:00", "10:00:00", "FREQ=DAILY", 1)).unwrap();
    assert_eq!(api::get_team(&store, team("Falcons")), Ok(IdentifiableTeam { id: 1, name: "Falcons".to_string() }));
    assert_eq!(api::get_team_by_id(&store, 1), Ok(IdentifiableTeam { id: 1, name: "Falcons".to_string() }));
    assert_eq!(api::get_user(&store, user("Alice")), Ok(IdentifiableUser { id: 1, name: "Alice".to_string() }));
    assert_eq!(api::get_user_by_id(&store, 1), Ok(IdentifiableUser { id: 1, name: "Alice".to_string() }));
    assert_eq!(api::get_player_by_user_id(&store, Player { user_id: 1 }), Ok(IdentifiablePlayer { id: 1, user_id: 1 }));
    assert_eq!(api::get_player_by_id(&store, 1), Ok(IdentifiablePlayer { id: 1, user_id: 1 }));
    assert_eq!(api::get_available_block_by_id(&store, 1), Ok(made));
}

#[test]
fn handlers_update_and_delete() {
    let mut store = MemoryStore::new();
    api::create_user(&mut store, user("Alice")).unwrap();
    api::create_player(&mut store, Player { user_id: 1 }).unwrap();
    let made = api::create_available_block(&mut store, block("09:00:00", "10:00:00", "FREQ=DAILY", 1)).unwrap();
    let renamed = IdentifiableUser { id: 1, name: "Bob".to_string() };
    assert_eq!(api::update_user(&mut store, renamed.clone()), Ok(renamed.clone()));
    assert_eq!(api::get_user_by_id(&store, 1), Ok(renamed));
    let moved = IdentifiablePlayer { id: 1, user_id: 2 };
    assert_eq!(api::update_player(&mut store, moved), Ok(moved));
    assert_eq!(api::get_player_by_id(&store, 1), Ok(moved));
    let later = IdentifiableAvailableBlock { id: made.id, inner_block: block("10:00:00", "11:00:00", "FREQ=DAILY", 1) };
    assert_eq!(api::update_available_block(&mut store, later.clone()), Ok(later.clone()));
    assert_eq!(api::get_available_block_by_id(&store, 1), Ok(later));
    assert_eq!(api::delete_user(&mut store, 1), Ok(()));
    assert_eq!(api::delete_player(&mut store, 1), Ok(()));
    assert_eq!(api::delete_available_block(&mut store, 1), Ok(()));
    assert_eq!(api::get_user_by_id(&store, 1), Err(MyError::No));
    assert_eq!(api::get_player_by_id(&store, 1), Err(MyError::No));
    assert_eq!(api::get_available_block_by_id(&store, 1), Err(MyError::No));
    assert_eq!(api::update_available_block(&mut store, IdentifiableAvailableBlock { id: 1, inner_block: block("10:00:00", "11:00:00", "FREQ=DAILY", 1) }), Err(MyError::No));
}

#[test]
fn answers_follow_the_outcome_of_the_store() {
    assert_eq!(api::found_or_missing(Ok(Some(3))), Ok(3));
    assert_eq!(api::found_or_missing::<i32>(Ok(None)), Err(MyError::No));
    assert_eq!(api::found_or_missing::<i32>(Err(StoreError::Backend("down".to_string()))), Err(MyError::Yes));
    assert_eq!(api::found_or_missing::<i32>(Err(StoreError::RowNotFound)), Err(MyError::No));
    assert_eq!(api::done_or_failed(Ok(3)), Ok(3));
    assert_eq!(api::done_or_failed::<i32>(Err(StoreError::RowNotFound)), Err(MyError::No));
    assert_eq!(api::done_or_failed::<i32>(Err(StoreError::IdsExhausted)), Err(MyError::Yes));
    assert_eq!(
        api::done_or_failed::<i32>(Err(StoreError::CorruptRow(availability::error::ValidationError::MalformedTime))),
        Err(MyError::Yes)
    );
}

#[test]
fn a_resumed_store_goes_on_after_the_last_ids() {
    let mut store = MemoryStore::resumed(10, 20, 30, 40);
    assert_eq!(store.get_user_by_id(10), Ok(None));
    assert_eq!(store.add_user(user("u")).unwrap().id, 11);
    assert_eq!(store.add_team(team("t")).unwrap().id, 21);
    assert_eq!(store.add_player(Player { user_id: 11 }).unwrap().id, 31);
    assert_eq!(store.add_available_block(block("09:00:00", "10:00:00", "FREQ=DAILY", 31)).unwrap().id, 41);
}

#[test]
fn add_fails_when_the_ids_have_run_out() {
    let last = i32::MAX as u32;
    let mut store = MemoryStore::resumed(last - 1, last, last, last + 5);
    assert_eq!(store.add_user(user("last")), Ok(IdentifiableUser { id: i32::MAX, name: "last".to_string() }));
    assert_eq!(store.add_user(user("late")), Err(StoreError::IdsExhausted));
    assert_eq!(store.get_user_by_name("late".to_string()), Ok(None));
    assert_eq!(store.get_user_by_id(i32::MAX), Ok(Some(IdentifiableUser { id: i32::MAX, name: "last".to_string() })));
    assert_eq!(store.add_team(team("late")), Err(StoreError::IdsExhausted));
    assert_eq!(store.add_player(Player { user_id: 1 }), Err(StoreError::IdsExhausted));
    assert_eq!(
        store.add_available_block(block("09:00:00", "10:00:00", "FREQ=DAILY", 1)),
        Err(StoreError::IdsExhausted)
    );
    assert_eq!(api::create_team(&mut store, team("late")), Err(MyError::Yes));
}

#[test]
fn only_a_missed_deadline_is_retryable() {
    assert!(StoreError::TimedOut.is_retryable());
    assert!(!StoreError::RowNotFound.is_retryable());
    assert!(!StoreError::IdsExhausted.is_retryable());
    assert!(!StoreError::Backend("x".to_string()).is_retryable());
    assert!(!StoreError::CorruptRow(availability::error::ValidationError::EmptyWindow).is_retryable());
    assert_eq!(MyError::from(StoreError::TimedOut), MyError::Yes);
}

#[test]
fn errors_map_to_statuses() {
    assert_eq!(MyError::No.status(), 404);
    assert_eq!(MyError::Yes.status(), 500);
    assert_eq!(MyError::from(StoreError::RowNotFound), MyError::No);
    assert_eq!(MyError::from(StoreError::IdsExhausted), MyError::Yes);
    assert_eq!(MyError::from(StoreError::Backend("x".to_string())), MyError::Yes);
}
