//! What the handlers of the HTTP surface do with a store, and what they
//! answer.
//!
//! A handler makes one call to the store and turns the outcome into the
//! answer for the transport: the record, "no such record", or "the store
//! failed".

use crate::error::{reported, MyError, StoreError};
use crate::model::{
    AvailableBlock, IdentifiableAvailableBlock, IdentifiablePlayer, IdentifiableTeam,
    IdentifiableUser, Player, Team, User,
};
use crate::store::{
    added, block_of, deleted, found_by_id, found_where, played_by, rows_of, rows_where,
    team_named, updated, user_named, AvailablityStore,
};
use vstd::prelude::*;

verus! {

/// The answer to a lookup: the record, `No` where there is none, and for a
/// failure of the store what `MyError::from` makes of it.
pub open spec fn answered<T>(looked_up: Result<Option<T>, StoreError>) -> Result<T, MyError> {
    match looked_up {
        Ok(Some(record)) => Ok(record),
        Ok(None) => Err(MyError::No),
        Err(e) => Err(reported(e)),
    }
}

/// The answer to a change or a listing: what the store returned, or for a
/// failure of the store what `MyError::from` makes of it.
pub open spec fn passed_on<T>(outcome: Result<T, StoreError>) -> Result<T, MyError> {
    match outcome {
        Ok(value) => Ok(value),
        Err(e) => Err(reported(e)),
    }
}

/// Turns the outcome of a lookup into the handler's answer.
pub fn found_or_missing<T>(looked_up: Result<Option<T>, StoreError>) -> (r: Result<T, MyError>)
    ensures
        r == answered(looked_up),
{
    match looked_up {
        Ok(Some(record)) => Ok(record),
        Ok(None) => Err(MyError::No),
        Err(e) => Err(MyError::from(e)),
    }
}

/// Turns the outcome of a change or a listing into the handler's answer.
pub fn done_or_failed<T>(outcome: Result<T, StoreError>) -> (r: Result<T, MyError>)
    ensures
        r == passed_on(outcome),
{
    match outcome {
        Ok(value) => Ok(value),
        Err(e) => Err(MyError::from(e)),
    }
}

/// Answers with a team of the given name.
pub fn get_team<S: AvailablityStore>(
    store: &S,
    data: Team,
) -> (r: Result<IdentifiableTeam, MyError>)
    requires
        store.state().wf(),
    ensures
        r matches Ok(record) ==> found_where(
            store.state().teams,
            team_named(data@.name),
            Some(record@),
        ),
        r matches Err(MyError::No) ==> found_where(
            store.state().teams,
            team_named(data@.name),
            None,
        ),
{
    found_or_missing(store.get_team_by_name(data.name))
}

/// Answers with the team of the given id.
pub fn get_team_by_id<S: AvailablityStore>(
    store: &S,
    id: i32,
) -> (r: Result<IdentifiableTeam, MyError>)
    requires
        store.state().wf(),
    ensures
        r matches Ok(record) ==> found_by_id(store.state().teams, id, Some(record@)),
        r matches Err(MyError::No) ==> found_by_id(store.state().teams, id, None),
{
    found_or_missing(store.get_team_by_id(id))
}

/// Makes a team and answers with it and its new id.
pub fn create_team<S: AvailablityStore>(
    store: &mut S,
    data: Team,
) -> (r: Result<IdentifiableTeam, MyError>)
    requires
        old(store).state().wf(),
    ensures
        final(store).state().wf(),
        match r {
            Ok(record) => {
                &&& added(
                    old(store).state().teams,
                    data@,
                    final(store).state().teams,
                    record@,
                )
                &&& final(store).state() == old(store).state().with_teams(
                    final(store).state().teams,
                )
            },
            Err(e) => e == MyError::Yes && final(store).state() == old(store).state(),
        },
{
    done_or_failed(store.add_team(data))
}

/// Replaces the team that has the id given with the data, and answers with it.
pub fn update_team<S: AvailablityStore>(
    store: &mut S,
    data: IdentifiableTeam,
) -> (r: Result<IdentifiableTeam, MyError>)
    requires
        old(store).state().wf(),
    ensures
        final(store).state().wf(),
        match r {
            Ok(record) => {
                &&& record@ == data@
                &&& updated(old(store).state().teams, data@, final(store).state().teams)
                &&& final(store).state() == old(store).state().with_teams(
                    final(store).state().teams,
                )
            },
            Err(e) => {
                &&& e == MyError::No ==> !old(store).state().teams.holds(data.id)
                &&& final(store).state() == old(store).state()
            },
        },
{
    done_or_failed(store.update_team(data))
}

/// Deletes the team of the given id, if there is one.
pub fn delete_team<S: AvailablityStore>(store: &mut S, id: i32) -> (r: Result<(), MyError>)
    requires
        old(store).state().wf(),
    ensures
        final(store).state().wf(),
        match r {
            Ok(_) => {
                &&& deleted(old(store).state().teams, id, final(store).state().teams)
                &&& final(store).state() == old(store).state().with_teams(
                    final(store).state().teams,
                )
            },
            Err(e) => e == MyError::Yes && final(store).state() == old(store).state(),
        },
{
    done_or_failed(store.delete_team(id))
}

/// Answers with a user of the given name.
pub fn get_user<S: AvailablityStore>(
    store: &S,
    data: User,
) -> (r: Result<IdentifiableUser, MyError>)
    requires
        store.state().wf(),
    ensures
        r matches Ok(record) ==> found_where(
            store.state().users,
            user_named(data@.name),
            Some(record@),
        ),
        r matches Err(MyError::No) ==> found_where(
            store.state().users,
            user_named(data@.name),
            None,
        ),
{
    found_or_missing(store.get_user_by_name(data.name))
}

/// Answers with the user of the given id.
pub fn get_user_by_id<S: AvailablityStore>(
    store: &S,
    id: i32,
) -> (r: Result<IdentifiableUser, MyError>)
    requires
        store.state().wf(),
    ensures
        r matches Ok(record) ==> found_by_id(store.state().users, id, Some(record@)),
        r matches Err(MyError::No) ==> found_by_id(store.state().users, id, None),
{
    found_or_missing(store.get_user_by_id(id))
}

/// Makes a user and answers with it and its new id.
pub fn create_user<S: AvailablityStore>(
    store: &mut S,
    data: User,
) -> (r: Result<IdentifiableUser, MyError>)
    requires
        old(store).state().wf(),
    ensures
        final(store).state().wf(),
        match r {
            Ok(record) => {
                &&& added(
                    old(store).state().users,
                    data@,
                    final(store).state().users,
                    record@,
                )
                &&& final(store).state() == old(store).state().with_users(
                    final(store).state().users,
                )
            },
            Err(e) => e == MyError::Yes && final(store).state() == old(store).state(),
        },
{
    done_or_failed(store.add_user(data))
}

/// Replaces the user that has the id given with the data, and answers with it.
pub fn update_user<S: AvailablityStore>(
    store: &mut S,
    data: IdentifiableUser,
) -> (r: Result<IdentifiableUser, MyError>)
    requires
        old(store).state().wf(),
    ensures
        final(store).state().wf(),
        match r {
            Ok(record) => {
                &&& record@ == data@
                &&& updated(old(store).state().users, data@, final(store).state().users)
                &&& final(store).state() == old(store).state().with_users(
                    final(store).state().users,
                )
            },
            Err(e) => {
                &&& e == MyError::No ==> !old(store).state().users.holds(data.id)
                &&& final(store).state() == old(store).state()
            },
        },
{
    done_or_failed(store.update_user(data))
}

/// Deletes the user of the given id, if there is one.
pub fn delete_user<S: AvailablityStore>(store: &mut S, id: i32) -> (r: Result<(), MyError>)
    requires
        old(store).state().wf(),
    ensures
        final(store).state().wf(),
        match r {
            Ok(_) => {
                &&& deleted(old(store).state().users, id, final(store).state().users)
                &&& final(store).state() == old(store).state().with_users(
                    final(store).state().users,
                )
            },
            Err(e) => e == MyError::Yes && final(store).state() == old(store).state(),
        },
{
    done_or_failed(store.delete_user(id))
}

/// Answers with a player whose user is the one given.
pub fn get_player_by_user_id<S: AvailablityStore>(store: &S, data: Player) -> (r: Result<
    IdentifiablePlayer,
    MyError,
>)
    requires
        store.state().wf(),
    ensures
        r matches Ok(record) ==> found_where(
            store.state().players,
            played_by(data.user_id),
            Some(record@),
        ),
        r matches Err(MyError::No) ==> found_where(
            store.state().players,
            played_by(data.user_id),
            None,
        ),
{
    found_or_missing(store.get_player_by_user_id(data.user_id))
}

/// Answers with the player of the given id.
pub fn get_player_by_id<S: AvailablityStore>(
    store: &S,
    id: i32,
) -> (r: Result<IdentifiablePlayer, MyError>)
    requires
        store.state().wf(),
    ensures
        r matches Ok(record) ==> found_by_id(store.state().players, id, Some(record@)),
        r matches Err(MyError::No) ==> found_by_id(store.state().players, id, None),
{
    found_or_missing(store.get_player_by_id(id))
}

/// Makes a player and answers with it and its new id.
pub fn create_player<S: AvailablityStore>(
    store: &mut S,
    data: Player,
) -> (r: Result<IdentifiablePlayer, MyError>)
    requires
        old(store).state().wf(),
    ensures
        final(store).state().wf(),
        match r {
            Ok(record) => {
                &&& added(
                    old(store).state().players,
                    data@,
                    final(store).state().players,
                    record@,
                )
                &&& final(store).state() == old(store).state().with_players(
                    final(store).state().players,
                )
            },
            Err(e) => e == MyError::Yes && final(store).state() == old(store).state(),
        },
{
    done_or_failed(store.add_player(data))
}

/// Replaces the player that has the id given with the data, and answers with it.
pub fn update_player<S: AvailablityStore>(
    store: &mut S,
    data: IdentifiablePlayer,
) -> (r: Result<IdentifiablePlayer, MyError>)
    requires
        old(store).state().wf(),
    ensures
        final(store).state().wf(),
        match r {
            Ok(record) => {
                &&& record@ == data@
                &&& updated(old(store).state().players, data@, final(store).state().players)
                &&& final(store).state() == old(store).state().with_players(
                    final(store).state().players,
                )
            },
            Err(e) => {
                &&& e == MyError::No ==> !old(store).state().players.holds(data.id)
                &&& final(store).state() == old(store).state()
            },
        },
{
    done_or_failed(store.update_player(data))
}

/// Deletes the player of the given id, if there is one.
pub fn delete_player<S: AvailablityStore>(store: &mut S, id: i32) -> (r: Result<(), MyError>)
    requires
        old(store).state().wf(),
    ensures
        final(store).state().wf(),
        match r {
            Ok(_) => {
                &&& deleted(old(store).state().players, id, final(store).state().players)
                &&& final(store).state() == old(store).state().with_players(
                    final(store).state().players,
                )
            },
            Err(e) => e == MyError::Yes && final(store).state() == old(store).state(),
        },
{
    done_or_failed(store.delete_player(id))
}

/// Answers with the availability blocks of a player. The list may be empty.
pub fn get_available_blocks_by_player<S: AvailablityStore>(store: &S, id: i32) -> (r: Result<
    Vec<IdentifiableAvailableBlock>,
    MyError,
>)
    requires
        store.state().wf(),
    ensures
        r matches Ok(found) ==> rows_of(found@).to_multiset() == rows_where(
            store.state().blocks,
            block_of(id),
        ).to_multiset(),
        r matches Err(e) ==> e == MyError::Yes,
{
    done_or_failed(store.get_available_blocks_by_player_id(id))
}

/// Answers with the availability block of the given id.
pub fn get_available_block_by_id<S: AvailablityStore>(
    store: &S,
    id: i32,
) -> (r: Result<IdentifiableAvailableBlock, MyError>)
    requires
        store.state().wf(),
    ensures
        r matches Ok(record) ==> found_by_id(store.state().blocks, id, Some(record@)),
        r matches Err(MyError::No) ==> found_by_id(store.state().blocks, id, None),
{
    found_or_missing(store.get_available_block_by_id(id))
}

/// Makes an availability block and answers with it and its new id.
pub fn create_available_block<S: AvailablityStore>(
    store: &mut S,
    data: AvailableBlock,
) -> (r: Result<IdentifiableAvailableBlock, MyError>)
    requires
        old(store).state().wf(),
        data.wf(),
    ensures
        final(store).state().wf(),
        match r {
            Ok(record) => {
                &&& added(
                    old(store).state().blocks,
                    data@,
                    final(store).state().blocks,
                    record@,
                )
                &&& final(store).state() == old(store).state().with_blocks(
                    final(store).state().blocks,
                )
            },
            Err(e) => e == MyError::Yes && final(store).state() == old(store).state(),
        },
{
    done_or_failed(store.add_available_block(data))
}

/// Replaces the availability block that has the id given with the data, and
/// answers with it.
pub fn update_available_block<S: AvailablityStore>(
    store: &mut S,
    data: IdentifiableAvailableBlock,
) -> (r: Result<IdentifiableAvailableBlock, MyError>)
    requires
        old(store).state().wf(),
        data.inner_block.wf(),
    ensures
        final(store).state().wf(),
        match r {
            Ok(record) => {
                &&& record@ == data@
                &&& updated(old(store).state().blocks, data@, final(store).state().blocks)
                &&& final(store).state() == old(store).state().with_blocks(
                    final(store).state().blocks,
                )
            },
            Err(e) => {
                &&& e == MyError::No ==> !old(store).state().blocks.holds(data.id)
                &&& final(store).state() == old(store).state()
            },
        },
{
    done_or_failed(store.update_available_block(data))
}

/// Deletes the availability block of the given id, if there is one.
pub fn delete_available_block<S: AvailablityStore>(
    store: &mut S,
    id: i32,
) -> (r: Result<(), MyError>)
    requires
        old(store).state().wf(),
    ensures
        final(store).state().wf(),
        match r {
            Ok(_) => {
                &&& deleted(old(store).state().blocks, id, final(store).state().blocks)
                &&& final(store).state() == old(store).state().with_blocks(
                    final(store).state().blocks,
                )
            },
            Err(e) => e == MyError::Yes && final(store).state() == old(store).state(),
        },
{
    done_or_failed(store.delete_available_block(id))
}

} // verus!
