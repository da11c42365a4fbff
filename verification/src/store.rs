//! The storage interface: what a store of the four kinds of records holds,
//! and what each of its operations returns and changes.
//!
//! A table is a sequence of rows in the order in which they were added,
//! together with the set of ids that were ever given out.

use crate::error::StoreError;
use crate::model::{
    block_wf, AvailableBlock, BlockView, IdentifiableAvailableBlock, IdentifiablePlayer,
    IdentifiableTeam, IdentifiableUser, Player, Row, Team, TeamView, User, UserView,
};
use vstd::prelude::*;

verus! {

/// The rows of one kind of record, and the ids given out so far.
pub struct TableState<F> {
    pub rows: Seq<Row<F>>,
    pub issued: Set<i32>,
}

impl<F> TableState<F> {
    /// No id occurs twice, and every id in the table was given out.
    pub open spec fn wf(self) -> bool {
        &&& forall|i: int, j: int|
            0 <= i < j < self.rows.len() ==> #[trigger] self.rows[i].id != #[trigger] self.rows[j].id
        &&& forall|i: int|
            0 <= i < self.rows.len() ==> self.issued.contains(#[trigger] self.rows[i].id)
    }

    /// Some row has the id.
    pub open spec fn holds(self, id: i32) -> bool {
        exists|i: int| 0 <= i < self.rows.len() && #[trigger] self.rows[i].id == id
    }

    /// The table with no row and no id given out.
    pub open spec fn empty() -> Self {
        TableState { rows: Seq::empty(), issued: Set::empty() }
    }
}

/// `found` answers a lookup by id: the row with the id, or nothing where no
/// row has it.
pub open spec fn found_by_id<F>(table: TableState<F>, id: i32, found: Option<Row<F>>) -> bool {
    match found {
        Some(row) => row.id == id && table.rows.contains(row),
        None => !table.holds(id),
    }
}

/// `found` answers a lookup by a property of the fields: some row that has
/// it, or nothing where no row has it.
pub open spec fn found_where<F>(
    table: TableState<F>,
    wanted: spec_fn(F) -> bool,
    found: Option<Row<F>>,
) -> bool {
    match found {
        Some(row) => wanted(row.fields) && table.rows.contains(row),
        None => forall|i: int|
            0 <= i < table.rows.len() ==> !wanted(#[trigger] table.rows[i].fields),
    }
}

/// The rows of the table whose fields have a property, in the table's order.
pub open spec fn rows_where<F>(table: TableState<F>, wanted: spec_fn(F) -> bool) -> Seq<Row<F>> {
    table.rows.filter(|row: Row<F>| wanted(row.fields))
}

/// `row` was added with the given fields: it got an id never given out
/// before and stands last.
pub open spec fn added<F>(before: TableState<F>, fields: F, after: TableState<F>, row: Row<F>) -> bool {
    &&& row.fields == fields
    &&& !before.issued.contains(row.id)
    &&& after.rows == before.rows.push(row)
    &&& after.issued == before.issued.insert(row.id)
}

/// The row with `row`'s id was replaced by `row`, in its place.
pub open spec fn updated<F>(before: TableState<F>, row: Row<F>, after: TableState<F>) -> bool {
    &&& after.issued == before.issued
    &&& exists|i: int|
        0 <= i < before.rows.len() && #[trigger] before.rows[i].id == row.id && after.rows
            == before.rows.update(i, row)
}

/// The row with the id, if there was one, was taken out.
pub open spec fn deleted<F>(before: TableState<F>, id: i32, after: TableState<F>) -> bool {
    &&& after.issued == before.issued
    &&& if before.holds(id) {
        exists|i: int|
            0 <= i < before.rows.len() && #[trigger] before.rows[i].id == id && after.rows
                == before.rows.remove(i)
    } else {
        after.rows == before.rows
    }
}

/// Adding a row keeps the table well formed.
pub proof fn lemma_added_wf<F>(before: TableState<F>, fields: F, after: TableState<F>, row: Row<F>)
    requires
        before.wf(),
        added(before, fields, after, row),
    ensures
        after.wf(),
{
}

/// Replacing a row keeps the table well formed.
pub proof fn lemma_updated_wf<F>(before: TableState<F>, row: Row<F>, after: TableState<F>)
    requires
        before.wf(),
        updated(before, row, after),
    ensures
        after.wf(),
{
}

/// Taking a row out keeps the table well formed.
pub proof fn lemma_deleted_wf<F>(before: TableState<F>, id: i32, after: TableState<F>)
    requires
        before.wf(),
        deleted(before, id, after),
    ensures
        after.wf(),
{
}

/// A row that was added carries the fields it was made of, its id was not in
/// use and had never been given out, and a lookup by that id finds it.
pub proof fn lemma_add_assigns_identity<F>(
    before: TableState<F>,
    fields: F,
    after: TableState<F>,
    row: Row<F>,
    found: Option<Row<F>>,
)
    requires
        before.wf(),
        added(before, fields, after, row),
        found_by_id(after, row.id, found),
    ensures
        row.fields == fields,
        !before.issued.contains(row.id),
        !before.holds(row.id),
        found == Some(row),
{
    let last = before.rows.len() as int;
    assert(after.rows[last] == row);
}

/// A lookup by an id that was never given out finds nothing.
pub proof fn lemma_lookup_miss<F>(table: TableState<F>, id: i32, found: Option<Row<F>>)
    requires
        table.wf(),
        !table.issued.contains(id),
        found_by_id(table, id, found),
    ensures
        found is None,
{
}

/// After a row was replaced, a lookup by its id finds the replacement.
pub proof fn lemma_update_then_lookup<F>(
    before: TableState<F>,
    row: Row<F>,
    after: TableState<F>,
    found: Option<Row<F>>,
)
    requires
        before.wf(),
        updated(before, row, after),
        found_by_id(after, row.id, found),
    ensures
        found == Some(row),
{
    let i = choose|i: int|
        0 <= i < before.rows.len() && #[trigger] before.rows[i].id == row.id && after.rows
            == before.rows.update(i, row);
    assert(after.rows[i] == row);
}

/// After a delete, a lookup by the id finds nothing.
pub proof fn lemma_delete_then_lookup<F>(
    before: TableState<F>,
    id: i32,
    after: TableState<F>,
    found: Option<Row<F>>,
)
    requires
        before.wf(),
        deleted(before, id, after),
        found_by_id(after, id, found),
    ensures
        found is None,
{
}

/// What a store holds.
pub struct StoreState {
    pub users: TableState<UserView>,
    pub teams: TableState<TeamView>,
    pub players: TableState<Player>,
    pub blocks: TableState<BlockView>,
}

impl StoreState {
    /// Every table is well formed and every block in the store is valid.
    pub open spec fn wf(self) -> bool {
        &&& self.users.wf()
        &&& self.teams.wf()
        &&& self.players.wf()
        &&& self.blocks.wf()
        &&& forall|i: int|
            0 <= i < self.blocks.rows.len() ==> block_wf(#[trigger] self.blocks.rows[i].fields)
    }

    /// The store with nothing in it.
    pub open spec fn empty() -> Self {
        StoreState {
            users: TableState::empty(),
            teams: TableState::empty(),
            players: TableState::empty(),
            blocks: TableState::empty(),
        }
    }

    /// The store with another table of users.
    pub open spec fn with_users(self, users: TableState<UserView>) -> Self {
        StoreState { users, ..self }
    }

    /// The store with another table of teams.
    pub open spec fn with_teams(self, teams: TableState<TeamView>) -> Self {
        StoreState { teams, ..self }
    }

    /// The store with another table of players.
    pub open spec fn with_players(self, players: TableState<Player>) -> Self {
        StoreState { players, ..self }
    }

    /// The store with another table of availability blocks.
    pub open spec fn with_blocks(self, blocks: TableState<BlockView>) -> Self {
        StoreState { blocks, ..self }
    }
}

/// The view of what a lookup found.
pub open spec fn row_of<T: View>(found: Option<T>) -> Option<T::V> {
    match found {
        Some(record) => Some(record@),
        None => None,
    }
}

/// The views of the records in a list.
pub open spec fn rows_of<T: View>(found: Seq<T>) -> Seq<T::V> {
    Seq::new(found.len(), |i: int| found[i]@)
}

/// The user has the name.
pub open spec fn user_named(name: Seq<char>) -> spec_fn(UserView) -> bool {
    |user: UserView| user.name == name
}

/// The team has the name.
pub open spec fn team_named(name: Seq<char>) -> spec_fn(TeamView) -> bool {
    |team: TeamView| team.name == name
}

/// The player is the user with the id.
pub open spec fn played_by(user_id: i32) -> spec_fn(Player) -> bool {
    |player: Player| player.user_id == user_id
}

/// The block belongs to the player with the id.
pub open spec fn block_of(player_id: i32) -> spec_fn(BlockView) -> bool {
    |block: BlockView| block.player_id == player_id
}

/// A store of users, teams, players and availability blocks.
///
/// A lookup that succeeds tells what the store holds. A change that succeeds
/// is the one asked for, on the one table, and a change that fails leaves the
/// store as it was. When an operation fails is for the store to say, but
/// `RowNotFound` is reported by an update alone, and only for an id that no
/// row has: a lookup that finds nothing succeeds with nothing, and a delete
/// of a row that is not there succeeds.
pub trait AvailablityStore {
    /// What the store holds.
    spec fn state(&self) -> StoreState;

    /// The user with the id, if there is one.
    fn get_user_by_id(&self, user_id: i32) -> (r: Result<Option<IdentifiableUser>, StoreError>)
        requires
            self.state().wf(),
        ensures
            r matches Ok(found) ==> found_by_id(self.state().users, user_id, row_of(found)),
            r matches Err(e) ==> !(e is RowNotFound),
    ;

    /// A user with the name, if there is one.
    fn get_user_by_name(&self, user_name: String) -> (r: Result<
        Option<IdentifiableUser>,
        StoreError,
    >)
        requires
            self.state().wf(),
        ensures
            r matches Ok(found) ==> found_where(
                self.state().users,
                user_named(user_name@),
                row_of(found),
            ),
            r matches Err(e) ==> !(e is RowNotFound),
    ;

    /// Adds a user under a new id.
    fn add_user(&mut self, user: User) -> (r: Result<IdentifiableUser, StoreError>)
        requires
            old(self).state().wf(),
        ensures
            final(self).state().wf(),
            match r {
                Ok(row) => {
                    &&& added(old(self).state().users, user@, final(self).state().users, row@)
                    &&& final(self).state() == old(self).state().with_users(
                        final(self).state().users,
                    )
                },
                Err(e) => !(e is RowNotFound) && final(self).state() == old(self).state(),
            },
    ;

    /// Replaces the fields of the user that has the given id.
    fn update_user(&mut self, user: IdentifiableUser) -> (r: Result<IdentifiableUser, StoreError>)
        requires
            old(self).state().wf(),
        ensures
            final(self).state().wf(),
            match r {
                Ok(row) => {
                    &&& row@ == user@
                    &&& updated(old(self).state().users, user@, final(self).state().users)
                    &&& final(self).state() == old(self).state().with_users(
                        final(self).state().users,
                    )
                },
                Err(e) => {
                    &&& e is RowNotFound ==> !old(self).state().users.holds(user.id)
                    &&& final(self).state() == old(self).state()
                },
            },
    ;

    /// Removes the user with the id, if there is one.
    fn delete_user(&mut self, user_id: i32) -> (r: Result<(), StoreError>)
        requires
            old(self).state().wf(),
        ensures
            final(self).state().wf(),
            match r {
                Ok(_) => {
                    &&& deleted(old(self).state().users, user_id, final(self).state().users)
                    &&& final(self).state() == old(self).state().with_users(
                        final(self).state().users,
                    )
                },
                Err(e) => !(e is RowNotFound) && final(self).state() == old(self).state(),
            },
    ;

    /// The team with the id, if there is one.
    fn get_team_by_id(&self, team_id: i32) -> (r: Result<Option<IdentifiableTeam>, StoreError>)
        requires
            self.state().wf(),
        ensures
            r matches Ok(found) ==> found_by_id(self.state().teams, team_id, row_of(found)),
            r matches Err(e) ==> !(e is RowNotFound),
    ;

    /// A team with the name, if there is one.
    fn get_team_by_name(&self, team_name: String) -> (r: Result<
        Option<IdentifiableTeam>,
        StoreError,
    >)
        requires
            self.state().wf(),
        ensures
            r matches Ok(found) ==> found_where(
                self.state().teams,
                team_named(team_name@),
                row_of(found),
            ),
            r matches Err(e) ==> !(e is RowNotFound),
    ;

    /// Adds a team under a new id.
    fn add_team(&mut self, team: Team) -> (r: Result<IdentifiableTeam, StoreError>)
        requires
            old(self).state().wf(),
        ensures
            final(self).state().wf(),
            match r {
                Ok(row) => {
                    &&& added(old(self).state().teams, team@, final(self).state().teams, row@)
                    &&& final(self).state() == old(self).state().with_teams(
                        final(self).state().teams,
                    )
                },
                Err(e) => !(e is RowNotFound) && final(self).state() == old(self).state(),
            },
    ;

    /// Replaces the fields of the team that has the given id.
    fn update_team(&mut self, team: IdentifiableTeam) -> (r: Result<IdentifiableTeam, StoreError>)
        requires
            old(self).state().wf(),
        ensures
            final(self).state().wf(),
            match r {
                Ok(row) => {
                    &&& row@ == team@
                    &&& updated(old(self).state().teams, team@, final(self).state().teams)
                    &&& final(self).state() == old(self).state().with_teams(
                        final(self).state().teams,
                    )
                },
                Err(e) => {
                    &&& e is RowNotFound ==> !old(self).state().teams.holds(team.id)
                    &&& final(self).state() == old(self).state()
                },
            },
    ;

    /// Removes the team with the id, if there is one.
    fn delete_team(&mut self, team_id: i32) -> (r: Result<(), StoreError>)
        requires
            old(self).state().wf(),
        ensures
            final(self).state().wf(),
            match r {
                Ok(_) => {
                    &&& deleted(old(self).state().teams, team_id, final(self).state().teams)
                    &&& final(self).state() == old(self).state().with_teams(
                        final(self).state().teams,
                    )
                },
                Err(e) => !(e is RowNotFound) && final(self).state() == old(self).state(),
            },
    ;

    /// The player with the id, if there is one.
    fn get_player_by_id(&self, player_id: i32) -> (r: Result<
        Option<IdentifiablePlayer>,
        StoreError,
    >)
        requires
            self.state().wf(),
        ensures
            r matches Ok(found) ==> found_by_id(self.state().players, player_id, row_of(found)),
            r matches Err(e) ==> !(e is RowNotFound),
    ;

    /// A player whose user has the id, if there is one.
    fn get_player_by_user_id(&self, user_id: i32) -> (r: Result<
        Option<IdentifiablePlayer>,
        StoreError,
    >)
        requires
            self.state().wf(),
        ensures
            r matches Ok(found) ==> found_where(
                self.state().players,
                played_by(user_id),
                row_of(found),
            ),
            r matches Err(e) ==> !(e is RowNotFound),
    ;

    /// Adds a player under a new id.
    fn add_player(&mut self, player: Player) -> (r: Result<IdentifiablePlayer, StoreError>)
        requires
            old(self).state().wf(),
        ensures
            final(self).state().wf(),
            match r {
                Ok(row) => {
                    &&& added(old(self).state().players, player@, final(self).state().players, row@)
                    &&& final(self).state() == old(self).state().with_players(
                        final(self).state().players,
                    )
                },
                Err(e) => !(e is RowNotFound) && final(self).state() == old(self).state(),
            },
    ;

    /// Replaces the fields of the player that has the given id.
    fn update_player(&mut self, player: IdentifiablePlayer) -> (r: Result<
        IdentifiablePlayer,
        StoreError,
    >)
        requires
            old(self).state().wf(),
        ensures
            final(self).state().wf(),
            match r {
                Ok(row) => {
                    &&& row@ == player@
                    &&& updated(old(self).state().players, player@, final(self).state().players)
                    &&& final(self).state() == old(self).state().with_players(
                        final(self).state().players,
                    )
                },
                Err(e) => {
                    &&& e is RowNotFound ==> !old(self).state().players.holds(player.id)
                    &&& final(self).state() == old(self).state()
                },
            },
    ;

    /// Removes the player with the id, if there is one.
    fn delete_player(&mut self, player_id: i32) -> (r: Result<(), StoreError>)
        requires
            old(self).state().wf(),
        ensures
            final(self).state().wf(),
            match r {
                Ok(_) => {
                    &&& deleted(old(self).state().players, player_id, final(self).state().players)
                    &&& final(self).state() == old(self).state().with_players(
                        final(self).state().players,
                    )
                },
                Err(e) => !(e is RowNotFound) && final(self).state() == old(self).state(),
            },
    ;

    /// The availability block with the id, if there is one.
    fn get_available_block_by_id(&self, block_id: i32) -> (r: Result<
        Option<IdentifiableAvailableBlock>,
        StoreError,
    >)
        requires
            self.state().wf(),
        ensures
            r matches Ok(found) ==> found_by_id(self.state().blocks, block_id, row_of(found)),
            r matches Err(e) ==> !(e is RowNotFound),
    ;

    /// All availability blocks of the player with the id, in any order.
    fn get_available_blocks_by_player_id(&self, player_id: i32) -> (r: Result<
        Vec<IdentifiableAvailableBlock>,
        StoreError,
    >)
        requires
            self.state().wf(),
        ensures
            r matches Ok(found) ==> rows_of(found@).to_multiset() == rows_where(
                self.state().blocks,
                block_of(player_id),
            ).to_multiset(),
            r matches Err(e) ==> !(e is RowNotFound),
    ;

    /// Adds an availability block under a new id.
    fn add_available_block(&mut self, block: AvailableBlock) -> (r: Result<
        IdentifiableAvailableBlock,
        StoreError,
    >)
        requires
            old(self).state().wf(),
            block.wf(),
        ensures
            final(self).state().wf(),
            match r {
                Ok(row) => {
                    &&& added(old(self).state().blocks, block@, final(self).state().blocks, row@)
                    &&& final(self).state() == old(self).state().with_blocks(
                        final(self).state().blocks,
                    )
                },
                Err(e) => !(e is RowNotFound) && final(self).state() == old(self).state(),
            },
    ;

    /// Replaces the fields of the availability block that has the given id.
    fn update_available_block(&mut self, block: IdentifiableAvailableBlock) -> (r: Result<
        IdentifiableAvailableBlock,
        StoreError,
    >)
        requires
            old(self).state().wf(),
            block.inner_block.wf(),
        ensures
            final(self).state().wf(),
            match r {
                Ok(row) => {
                    &&& row@ == block@
                    &&& updated(old(self).state().blocks, block@, final(self).state().blocks)
                    &&& final(self).state() == old(self).state().with_blocks(
                        final(self).state().blocks,
                    )
                },
                Err(e) => {
                    &&& e is RowNotFound ==> !old(self).state().blocks.holds(block.id)
                    &&& final(self).state() == old(self).state()
                },
            },
    ;

    /// Removes the availability block with the id, if there is one.
    fn delete_available_block(&mut self, block_id: i32) -> (r: Result<(), StoreError>)
        requires
            old(self).state().wf(),
        ensures
            final(self).state().wf(),
            match r {
                Ok(_) => {
                    &&& deleted(old(self).state().blocks, block_id, final(self).state().blocks)
                    &&& final(self).state() == old(self).state().with_blocks(
                        final(self).state().blocks,
                    )
                },
                Err(e) => !(e is RowNotFound) && final(self).state() == old(self).state(),
            },
    ;
}

} // verus!
