//! A store that keeps its records in memory.
//!
//! Ids are given out from 1 upwards, one table at a time, and never twice.
//! A lookup finds the earliest row that fits.

use crate::error::StoreError;
use crate::model::{
    AvailableBlock, BlockView, IdentifiableAvailableBlock, IdentifiablePlayer, IdentifiableTeam,
    IdentifiableUser, Player, Row, Team, TeamView, User, UserView,
};
use crate::store::{
    added, block_of, deleted, found_by_id, played_by, row_of, rows_of, rows_where, team_named,
    updated, user_named, AvailablityStore, StoreState, TableState,
};
use vstd::prelude::*;

verus! {

/// A record that a table can hold: it can be copied with its view kept.
trait Record: Sized + View {
    fn duplicate(&self) -> (r: Self)
        ensures
            r@ == self@,
    ;
}

impl Record for User {
    fn duplicate(&self) -> (r: Self) {
        self.clone()
    }
}

impl Record for Team {
    fn duplicate(&self) -> (r: Self) {
        self.clone()
    }
}

impl Record for Player {
    fn duplicate(&self) -> (r: Self) {
        *self
    }
}

impl Record for AvailableBlock {
    fn duplicate(&self) -> (r: Self) {
        self.clone()
    }
}

/// The rows of one kind of record, oldest first, and the last id given out.
struct Table<T> {
    rows: Vec<(i32, T)>,
    last_id: u32,
}

/// `id` is the least id from 1 upwards that the table never gave out.
pub open spec fn least_unissued<F>(table: TableState<F>, id: i32) -> bool {
    &&& 1 <= id
    &&& !table.issued.contains(id)
    &&& forall|earlier: i32| 1 <= earlier < id ==> table.issued.contains(earlier)
}

/// The table with no row in which exactly the ids from 1 to `last_id` were
/// given out.
pub open spec fn ids_up_to<F>(last_id: u32) -> TableState<F> {
    TableState { rows: Seq::empty(), issued: Set::new(|id: i32| 1 <= id <= last_id) }
}

/// `found` is the earliest row of the table whose fields have the property,
/// or nothing where no row has it.
pub open spec fn first_where<F>(
    table: TableState<F>,
    wanted: spec_fn(F) -> bool,
    found: Option<Row<F>>,
) -> bool {
    match found {
        Some(row) => exists|i: int|
            {
                &&& 0 <= i < table.rows.len()
                &&& #[trigger] table.rows[i] == row
                &&& wanted(row.fields)
                &&& forall|j: int| 0 <= j < i ==> !wanted(#[trigger] table.rows[j].fields)
            },
        None => forall|i: int|
            0 <= i < table.rows.len() ==> !wanted(#[trigger] table.rows[i].fields),
    }
}

impl<T: Record> Table<T> {
    /// What the table holds.
    closed spec fn state(&self) -> TableState<T::V> {
        TableState {
            rows: Seq::new(
                self.rows@.len(),
                |i: int| Row { id: self.rows@[i].0, fields: self.rows@[i].1@ },
            ),
            issued: Set::new(|id: i32| 1 <= id <= self.last_id),
        }
    }

    /// A table with no row and no id given out.
    fn new() -> (r: Self)
        ensures
            r.state() == TableState::<T::V>::empty(),
    {
        let r = Table { rows: Vec::new(), last_id: 0 };
        assert(r.state().rows =~= Seq::empty());
        assert(r.state().issued =~= Set::empty());
        r
    }

    /// A table with no row in which the ids up to `last_id` count as given
    /// out.
    fn resumed(last_id: u32) -> (r: Self)
        ensures
            r.state().rows == Seq::<Row<T::V>>::empty(),
            r.state().issued == Set::new(|id: i32| 1 <= id <= last_id),
    {
        let r = Table { rows: Vec::new(), last_id };
        assert(r.state().rows =~= Seq::empty());
        r
    }

    /// The number of rows.
    fn len(&self) -> (r: usize)
        ensures
            r == self.state().rows.len(),
    {
        self.rows.len()
    }

    /// The id of the row at a position.
    fn id_at(&self, i: usize) -> (r: i32)
        requires
            i < self.state().rows.len(),
        ensures
            r == self.state().rows[i as int].id,
    {
        self.rows[i].0
    }

    /// The fields of the row at a position.
    fn fields_at(&self, i: usize) -> (r: &T)
        requires
            i < self.state().rows.len(),
        ensures
            r@ == self.state().rows[i as int].fields,
    {
        &self.rows[i].1
    }

    /// The position of the earliest row with the id.
    fn position(&self, id: i32) -> (r: Option<usize>)
        ensures
            match r {
                Some(i) => {
                    &&& i < self.state().rows.len()
                    &&& self.state().rows[i as int].id == id
                    &&& forall|k: int| 0 <= k < i ==> self.state().rows[k].id != id
                },
                None => !self.state().holds(id),
            },
    {
        let mut i: usize = 0;
        while i < self.rows.len()
            invariant
                i <= self.rows.len(),
                forall|k: int| 0 <= k < i ==> self.state().rows[k].id != id,
            decreases self.rows.len() - i,
        {
            if self.rows[i].0 == id {
                return Some(i);
            }
            i += 1;
        }
        None
    }

    /// A copy of the fields of the row with the id.
    fn get(&self, id: i32) -> (r: Option<T>)
        ensures
            found_by_id(
                self.state(),
                id,
                match r {
                    Some(fields) => Some(Row { id, fields: fields@ }),
                    None => None,
                },
            ),
    {
        match self.position(id) {
            Some(i) => {
                let fields = self.rows[i].1.duplicate();
                Some(fields)
            },
            None => None,
        }
    }

    /// Adds a row with the next id, unless the ids have run out.
    fn insert(&mut self, fields: T) -> (r: Option<i32>)
        requires
            old(self).state().wf(),
        ensures
            final(self).state().wf(),
            r is Some <==> !old(self).state().issued.contains(i32::MAX),
            match r {
                Some(id) => {
                    &&& least_unissued(old(self).state(), id)
                    &&& added(
                        old(self).state(),
                        fields@,
                        final(self).state(),
                        Row { id, fields: fields@ },
                    )
                },
                None => final(self).state() == old(self).state(),
            },
    {
        if self.last_id >= i32::MAX as u32 {
            return None;
        }
        let ghost before = self.state();
        let id = (self.last_id + 1) as i32;
        self.last_id = self.last_id + 1;
        self.rows.push((id, fields));
        proof {
            let row = Row { id, fields: fields@ };
            assert(self.state().rows =~= before.rows.push(row));
            assert(self.state().issued =~= before.issued.insert(id));
        }
        Some(id)
    }

    /// Puts new fields in the row with the id, if there is one.
    fn replace(&mut self, id: i32, fields: T) -> (r: bool)
        requires
            old(self).state().wf(),
        ensures
            final(self).state().wf(),
            r == old(self).state().holds(id),
            if r {
                updated(old(self).state(), Row { id, fields: fields@ }, final(self).state())
            } else {
                final(self).state() == old(self).state()
            },
    {
        match self.position(id) {
            Some(i) => {
                let ghost before = self.state();
                let ghost view = fields@;
                self.rows[i] = (id, fields);
                proof {
                    let row = Row { id, fields: view };
                    assert(self.state().rows =~= before.rows.update(i as int, row));
                }
                true
            },
            None => false,
        }
    }

    /// Takes out the row with the id, if there is one.
    fn remove(&mut self, id: i32)
        requires
            old(self).state().wf(),
        ensures
            final(self).state().wf(),
            deleted(old(self).state(), id, final(self).state()),
    {
        match self.position(id) {
            Some(i) => {
                let ghost before = self.state();
                let _ = self.rows.remove(i);
                proof {
                    assert(self.state().rows =~= before.rows.remove(i as int));
                }
            },
            None => {},
        }
    }
}

/// A store that keeps its four tables in memory.
pub struct MemoryStore {
    users: Table<User>,
    teams: Table<Team>,
    players: Table<Player>,
    blocks: Table<AvailableBlock>,
}

impl MemoryStore {
    /// A store with nothing in it.
    pub fn new() -> (r: Self)
        ensures
            r.state() == StoreState::empty(),
            r.state().wf(),
    {
        MemoryStore {
            users: Table::new(),
            teams: Table::new(),
            players: Table::new(),
            blocks: Table::new(),
        }
    }

    /// A store with nothing in it, in which the ids up to the given ones
    /// count as given out already: the next user gets `last_user_id + 1`,
    /// and so on for each table.
    pub fn resumed(
        last_user_id: u32,
        last_team_id: u32,
        last_player_id: u32,
        last_block_id: u32,
    ) -> (r: Self)
        ensures
            r.state().wf(),
            r.state().users == ids_up_to::<UserView>(last_user_id),
            r.state().teams == ids_up_to::<TeamView>(last_team_id),
            r.state().players == ids_up_to::<Player>(last_player_id),
            r.state().blocks == ids_up_to::<BlockView>(last_block_id),
    {
        MemoryStore {
            users: Table::resumed(last_user_id),
            teams: Table::resumed(last_team_id),
            players: Table::resumed(last_player_id),
            blocks: Table::resumed(last_block_id),
        }
    }
}

impl AvailablityStore for MemoryStore {
    closed spec fn state(&self) -> StoreState {
        StoreState {
            users: self.users.state(),
            teams: self.teams.state(),
            players: self.players.state(),
            blocks: self.blocks.state(),
        }
    }

    fn get_user_by_id(&self, user_id: i32) -> (r: Result<Option<IdentifiableUser>, StoreError>)
        ensures
            r is Ok,
            !self.state().users.issued.contains(user_id) ==> r matches Ok(None),
    {
        match self.users.get(user_id) {
            Some(user) => Ok(Some(IdentifiableUser { id: user_id, name: user.name })),
            None => Ok(None),
        }
    }

    fn get_user_by_name(&self, user_name: String) -> (r: Result<
        Option<IdentifiableUser>,
        StoreError,
    >)
        ensures
            r matches Ok(found) && first_where(
                self.state().users,
                user_named(user_name@),
                row_of(found),
            ),
    {
        let mut i: usize = 0;
        while i < self.users.len()
            invariant
                i <= self.users.state().rows.len(),
                forall|k: int|
                    0 <= k < i ==> !user_named(user_name@)(
                        #[trigger] self.users.state().rows[k].fields,
                    ),
            decreases self.users.state().rows.len() - i,
        {
            let user = self.users.fields_at(i);
            if user.name == user_name {
                let found = IdentifiableUser { id: self.users.id_at(i), name: user.name.clone() };
                return Ok(Some(found));
            }
            i += 1;
        }
        Ok(None)
    }

    fn add_user(&mut self, user: User) -> (r: Result<IdentifiableUser, StoreError>)
        ensures
            r is Ok <==> !old(self).state().users.issued.contains(i32::MAX),
            r matches Ok(row) ==> least_unissued(old(self).state().users, row.id),
            r matches Err(e) ==> e == StoreError::IdsExhausted,
    {
        let name = user.name.clone();
        match self.users.insert(user) {
            Some(id) => Ok(IdentifiableUser { id, name }),
            None => Err(StoreError::IdsExhausted),
        }
    }

    fn update_user(&mut self, user: IdentifiableUser) -> (r: Result<IdentifiableUser, StoreError>)
        ensures
            r is Ok <==> old(self).state().users.holds(user.id),
            r matches Err(e) ==> e == StoreError::RowNotFound,
    {
        if self.users.replace(user.id, User { name: user.name.clone() }) {
            Ok(user)
        } else {
            Err(StoreError::RowNotFound)
        }
    }

    fn delete_user(&mut self, user_id: i32) -> (r: Result<(), StoreError>)
        ensures
            r is Ok,
    {
        self.users.remove(user_id);
        Ok(())
    }

    fn get_team_by_id(&self, team_id: i32) -> (r: Result<Option<IdentifiableTeam>, StoreError>)
        ensures
            r is Ok,
            !self.state().teams.issued.contains(team_id) ==> r matches Ok(None),
    {
        match self.teams.get(team_id) {
            Some(team) => Ok(Some(IdentifiableTeam { id: team_id, name: team.name })),
            None => Ok(None),
        }
    }

    fn get_team_by_name(&self, team_name: String) -> (r: Result<
        Option<IdentifiableTeam>,
        StoreError,
    >)
        ensures
            r matches Ok(found) && first_where(
                self.state().teams,
                team_named(team_name@),
                row_of(found),
            ),
    {
        let mut i: usize = 0;
        while i < self.teams.len()
            invariant
                i <= self.teams.state().rows.len(),
                forall|k: int|
                    0 <= k < i ==> !team_named(team_name@)(
                        #[trigger] self.teams.state().rows[k].fields,
                    ),
            decreases self.teams.state().rows.len() - i,
        {
            let team = self.teams.fields_at(i);
            if team.name == team_name {
                let found = IdentifiableTeam { id: self.teams.id_at(i), name: team.name.clone() };
                return Ok(Some(found));
            }
            i += 1;
        }
        Ok(None)
    }

    fn add_team(&mut self, team: Team) -> (r: Result<IdentifiableTeam, StoreError>)
        ensures
            r is Ok <==> !old(self).state().teams.issued.contains(i32::MAX),
            r matches Ok(row) ==> least_unissued(old(self).state().teams, row.id),
            r matches Err(e) ==> e == StoreError::IdsExhausted,
    {
        let name = team.name.clone();
        match self.teams.insert(team) {
            Some(id) => Ok(IdentifiableTeam { id, name }),
            None => Err(StoreError::IdsExhausted),
        }
    }

    fn update_team(&mut self, team: IdentifiableTeam) -> (r: Result<IdentifiableTeam, StoreError>)
        ensures
            r is Ok <==> old(self).state().teams.holds(team.id),
            r matches Err(e) ==> e == StoreError::RowNotFound,
    {
        if self.teams.replace(team.id, Team { name: team.name.clone() }) {
            Ok(team)
        } else {
            Err(StoreError::RowNotFound)
        }
    }

    fn delete_team(&mut self, team_id: i32) -> (r: Result<(), StoreError>)
        ensures
            r is Ok,
    {
        self.teams.remove(team_id);
        Ok(())
    }

    fn get_player_by_id(&self, player_id: i32) -> (r: Result<
        Option<IdentifiablePlayer>,
        StoreError,
    >)
        ensures
            r is Ok,
            !self.state().players.issued.contains(player_id) ==> r matches Ok(None),
    {
        match self.players.get(player_id) {
            Some(player) => Ok(Some(IdentifiablePlayer { id: player_id, user_id: player.user_id })),
            None => Ok(None),
        }
    }

    fn get_player_by_user_id(&self, user_id: i32) -> (r: Result<
        Option<IdentifiablePlayer>,
        StoreError,
    >)
        ensures
            r matches Ok(found) && first_where(
                self.state().players,
                played_by(user_id),
                row_of(found),
            ),
    {
        let mut i: usize = 0;
        while i < self.players.len()
            invariant
                i <= self.players.state().rows.len(),
                forall|k: int|
                    0 <= k < i ==> !played_by(user_id)(
                        #[trigger] self.players.state().rows[k].fields,
                    ),
            decreases self.players.state().rows.len() - i,
        {
            let player = self.players.fields_at(i);
            if player.user_id == user_id {
                let found = IdentifiablePlayer { id: self.players.id_at(i), user_id };
                return Ok(Some(found));
            }
            i += 1;
        }
        Ok(None)
    }

    fn add_player(&mut self, player: Player) -> (r: Result<IdentifiablePlayer, StoreError>)
        ensures
            r is Ok <==> !old(self).state().players.issued.contains(i32::MAX),
            r matches Ok(row) ==> least_unissued(old(self).state().players, row.id),
            r matches Err(e) ==> e == StoreError::IdsExhausted,
    {
        match self.players.insert(player) {
            Some(id) => Ok(IdentifiablePlayer { id, user_id: player.user_id }),
            None => Err(StoreError::IdsExhausted),
        }
    }

    fn update_player(&mut self, player: IdentifiablePlayer) -> (r: Result<
        IdentifiablePlayer,
        StoreError,
    >)
        ensures
            r is Ok <==> old(self).state().players.holds(player.id),
            r matches Err(e) ==> e == StoreError::RowNotFound,
    {
        if self.players.replace(player.id, Player { user_id: player.user_id }) {
            Ok(player)
        } else {
            Err(StoreError::RowNotFound)
        }
    }

    fn delete_player(&mut self, player_id: i32) -> (r: Result<(), StoreError>)
        ensures
            r is Ok,
    {
        self.players.remove(player_id);
        Ok(())
    }

    fn get_available_block_by_id(&self, block_id: i32) -> (r: Result<
        Option<IdentifiableAvailableBlock>,
        StoreError,
    >)
        ensures
            r is Ok,
            !self.state().blocks.issued.contains(block_id) ==> r matches Ok(None),
    {
        match self.blocks.get(block_id) {
            Some(block) => Ok(Some(IdentifiableAvailableBlock { id: block_id, inner_block: block })),
            None => Ok(None),
        }
    }

    fn get_available_blocks_by_player_id(&self, player_id: i32) -> (r: Result<
        Vec<IdentifiableAvailableBlock>,
        StoreError,
    >)
        ensures
            r matches Ok(found) && rows_of(found@) == rows_where(
                self.state().blocks,
                block_of(player_id),
            ),
    {
        let ghost rows = self.blocks.state().rows;
        let ghost wanted = |row: Row<BlockView>| block_of(player_id)(row.fields);
        let mut found: Vec<IdentifiableAvailableBlock> = Vec::new();
        let mut i: usize = 0;
        while i < self.blocks.len()
            invariant
                rows == self.blocks.state().rows,
                wanted == |row: Row<BlockView>| block_of(player_id)(row.fields),
                i <= rows.len(),
                rows_of(found@) =~= rows.take(i as int).filter(wanted),
            decreases rows.len() - i,
        {
            let block = self.blocks.fields_at(i);
            if block.player_id == player_id {
                let copy = IdentifiableAvailableBlock {
                    id: self.blocks.id_at(i),
                    inner_block: block.clone(),
                };
                found.push(copy);
            }
            proof {
                reveal(Seq::filter);
                let next = rows.take(i + 1);
                assert(next.drop_last() =~= rows.take(i as int));
            }
            i += 1;
        }
        assert(rows.take(rows.len() as int) =~= rows);
        Ok(found)
    }

    fn add_available_block(&mut self, block: AvailableBlock) -> (r: Result<
        IdentifiableAvailableBlock,
        StoreError,
    >)
        ensures
            r is Ok <==> !old(self).state().blocks.issued.contains(i32::MAX),
            r matches Ok(row) ==> least_unissued(old(self).state().blocks, row.id),
            r matches Err(e) ==> e == StoreError::IdsExhausted,
    {
        let copy = block.clone();
        match self.blocks.insert(block) {
            Some(id) => Ok(IdentifiableAvailableBlock { id, inner_block: copy }),
            None => Err(StoreError::IdsExhausted),
        }
    }

    fn update_available_block(&mut self, block: IdentifiableAvailableBlock) -> (r: Result<
        IdentifiableAvailableBlock,
        StoreError,
    >)
        ensures
            r is Ok <==> old(self).state().blocks.holds(block.id),
            r matches Err(e) ==> e == StoreError::RowNotFound,
    {
        if self.blocks.replace(block.id, block.inner_block.clone()) {
            Ok(block)
        } else {
            Err(StoreError::RowNotFound)
        }
    }

    fn delete_available_block(&mut self, block_id: i32) -> (r: Result<(), StoreError>)
        ensures
            r is Ok,
    {
        self.blocks.remove(block_id);
        Ok(())
    }
}

} // verus!
