//! The statements that a relational store runs for the storage interface.
//!
//! Every operation is one statement with a fixed text. What the caller
//! supplies travels as parameters beside the text and never becomes part of
//! it. Times of day and recurrence rules are bound and read back as text, in
//! the form their codecs write.

use crate::error::StoreError;
use crate::model::{
    reads_as, AvailableBlock, IdentifiableAvailableBlock, IdentifiablePlayer, IdentifiableTeam,
    IdentifiableUser, Player, Team, User,
};
use crate::time_of_day::time_text;
use vstd::prelude::*;

verus! {

/// A value bound to a placeholder of a statement.
#[derive(Debug, PartialEq, Eq)]
pub enum SqlValue {
    Int(i32),
    Text(String),
    Bool(bool),
}

/// A bound value as contracts see it.
pub enum SqlValueView {
    Int(i32),
    Text(Seq<char>),
    Bool(bool),
}

/// How the rows that a statement returns are taken.
#[derive(Clone, Copy, Debug, PartialEq, Eq, Structural)]
pub enum Fetch {
    /// At most one row is expected; none is no failure.
    Optional,
    /// The one row that the statement made is expected.
    Inserted,
    /// The one row that the statement changed is expected; none means that
    /// no row has the id.
    Updated,
    /// All rows are taken.
    All,
    /// No row is expected.
    Execute,
}

/// A statement with the values for its placeholders `$1`, `$2`, ... in order.
#[derive(Debug, PartialEq, Eq)]
pub struct Statement {
    pub sql: &'static str,
    pub params: Vec<SqlValue>,
    pub fetch: Fetch,
}

/// A statement as contracts see it.
pub struct StatementView {
    pub sql: Seq<char>,
    pub params: Seq<SqlValueView>,
    pub fetch: Fetch,
}

impl View for SqlValue {
    type V = SqlValueView;

    open spec fn view(&self) -> SqlValueView {
        match self {
            SqlValue::Int(v) => SqlValueView::Int(*v),
            SqlValue::Text(v) => SqlValueView::Text(v@),
            SqlValue::Bool(v) => SqlValueView::Bool(*v),
        }
    }
}

impl View for Statement {
    type V = StatementView;

    open spec fn view(&self) -> StatementView {
        StatementView {
            sql: self.sql@,
            params: Seq::new(self.params@.len(), |i: int| self.params@[i]@),
            fetch: self.fetch,
        }
    }
}

pub const SELECT_USER_BY_ID: &'static str = "SELECT * FROM users WHERE id=$1";

pub const SELECT_USER_BY_NAME: &'static str = "SELECT * FROM users WHERE name=$1";

pub const INSERT_USER: &'static str = "INSERT INTO users(name) VALUES ($1) RETURNING id, name";

pub const UPDATE_USER: &'static str = "UPDATE users SET name=$1 WHERE id=$2 RETURNING id, name";

pub const DELETE_USER: &'static str = "DELETE FROM users WHERE id=$1";

pub const SELECT_TEAM_BY_ID: &'static str = "SELECT * FROM teams WHERE id=$1";

pub const SELECT_TEAM_BY_NAME: &'static str = "SELECT * FROM teams WHERE name=$1";

pub const INSERT_TEAM: &'static str = "INSERT INTO teams(name) VALUES ($1) RETURNING id, name";

pub const UPDATE_TEAM: &'static str = "UPDATE teams SET name=$1 WHERE id=$2 RETURNING id, name";

pub const DELETE_TEAM: &'static str = "DELETE FROM teams WHERE id=$1";

pub const SELECT_PLAYER_BY_ID: &'static str = "SELECT * FROM players WHERE id=$1";

pub const SELECT_PLAYER_BY_USER_ID: &'static str = "SELECT * FROM players WHERE user_id=$1";

pub const INSERT_PLAYER: &'static str =
    "INSERT INTO players(user_id) VALUES ($1) RETURNING id, user_id";

pub const UPDATE_PLAYER: &'static str =
    "UPDATE players SET user_id=$1 WHERE id=$2 RETURNING id, user_id";

pub const DELETE_PLAYER: &'static str = "DELETE FROM players WHERE id=$1";

pub const SELECT_BLOCK_BY_ID: &'static str =
    "SELECT id, start_time::text, end_time::text, need_warning, repeats, player_id FROM available_blocks WHERE id=$1";

pub const SELECT_BLOCKS_BY_PLAYER_ID: &'static str =
    "SELECT id, start_time::text, end_time::text, need_warning, repeats, player_id FROM available_blocks WHERE player_id=$1 ORDER BY id";

pub const INSERT_BLOCK: &'static str =
    "INSERT INTO available_blocks (start_time, end_time, need_warning, repeats, player_id) VALUES ($1::time, $2::time, $3, $4, $5) RETURNING id, start_time::text, end_time::text, need_warning, repeats, player_id";

pub const UPDATE_BLOCK: &'static str =
    "UPDATE available_blocks SET start_time=$1::time, end_time=$2::time, need_warning=$3, repeats=$4, player_id=$5 WHERE id=$6 RETURNING id, start_time::text, end_time::text, need_warning, repeats, player_id";

pub const DELETE_BLOCK: &'static str = "DELETE FROM available_blocks WHERE id=$1";

/// The statement with the given text, values and way of taking rows.
fn statement(sql: &'static str, params: Vec<SqlValue>, fetch: Fetch) -> (s: Statement)
    ensures
        s@.sql == sql@,
        s@.params == Seq::new(params@.len(), |i: int| params@[i]@),
        s@.fetch == fetch,
{
    Statement { sql, params, fetch }
}

/// A list of one value.
fn one(first: SqlValue) -> (r: Vec<SqlValue>)
    ensures
        r@ == seq![first],
{
    let mut r: Vec<SqlValue> = Vec::new();
    r.push(first);
    r
}

/// A list of two values.
fn two(first: SqlValue, second: SqlValue) -> (r: Vec<SqlValue>)
    ensures
        r@ == seq![first, second],
{
    let mut r: Vec<SqlValue> = Vec::new();
    r.push(first);
    r.push(second);
    r
}

/// Looks a user up by id.
pub fn get_user_by_id(user_id: i32) -> (s: Statement)
    ensures
        s@.sql == SELECT_USER_BY_ID@,
        s@.params == seq![SqlValueView::Int(user_id)],
        s@.fetch == Fetch::Optional,
{
    statement(SELECT_USER_BY_ID, one(SqlValue::Int(user_id)), Fetch::Optional)
}

/// Looks a user up by name.
pub fn get_user_by_name(user_name: String) -> (s: Statement)
    ensures
        s@.sql == SELECT_USER_BY_NAME@,
        s@.params == seq![SqlValueView::Text(user_name@)],
        s@.fetch == Fetch::Optional,
{
    statement(SELECT_USER_BY_NAME, one(SqlValue::Text(user_name)), Fetch::Optional)
}

/// Adds a user and returns the row with its new id.
pub fn add_user(user: User) -> (s: Statement)
    ensures
        s@.sql == INSERT_USER@,
        s@.params == seq![SqlValueView::Text(user@.name)],
        s@.fetch == Fetch::Inserted,
{
    statement(INSERT_USER, one(SqlValue::Text(user.name)), Fetch::Inserted)
}

/// Replaces the name of the user with the given id and returns the row.
pub fn update_user(user: IdentifiableUser) -> (s: Statement)
    ensures
        s@.sql == UPDATE_USER@,
        s@.params == seq![SqlValueView::Text(user@.fields.name), SqlValueView::Int(user.id)],
        s@.fetch == Fetch::Updated,
{
    let id = user.id;
    statement(UPDATE_USER, two(SqlValue::Text(user.name), SqlValue::Int(id)), Fetch::Updated)
}

/// Deletes the user with the id.
pub fn delete_user(user_id: i32) -> (s: Statement)
    ensures
        s@.sql == DELETE_USER@,
        s@.params == seq![SqlValueView::Int(user_id)],
        s@.fetch == Fetch::Execute,
{
    statement(DELETE_USER, one(SqlValue::Int(user_id)), Fetch::Execute)
}

/// Looks a team up by id.
pub fn get_team_by_id(team_id: i32) -> (s: Statement)
    ensures
        s@.sql == SELECT_TEAM_BY_ID@,
        s@.params == seq![SqlValueView::Int(team_id)],
        s@.fetch == Fetch::Optional,
{
    statement(SELECT_TEAM_BY_ID, one(SqlValue::Int(team_id)), Fetch::Optional)
}

/// Looks a team up by name.
pub fn get_team_by_name(team_name: String) -> (s: Statement)
    ensures
        s@.sql == SELECT_TEAM_BY_NAME@,
        s@.params == seq![SqlValueView::Text(team_name@)],
        s@.fetch == Fetch::Optional,
{
    statement(SELECT_TEAM_BY_NAME, one(SqlValue::Text(team_name)), Fetch::Optional)
}

/// Adds a team and returns the row with its new id.
pub fn add_team(team: Team) -> (s: Statement)
    ensures
        s@.sql == INSERT_TEAM@,
        s@.params == seq![SqlValueView::Text(team@.name)],
        s@.fetch == Fetch::Inserted,
{
    statement(INSERT_TEAM, one(SqlValue::Text(team.name)), Fetch::Inserted)
}

/// Replaces the name of the team with the given id and returns the row.
pub fn update_team(team: IdentifiableTeam) -> (s: Statement)
    ensures
        s@.sql == UPDATE_TEAM@,
        s@.params == seq![SqlValueView::Text(team@.fields.name), SqlValueView::Int(team.id)],
        s@.fetch == Fetch::Updated,
{
    let id = team.id;
    statement(UPDATE_TEAM, two(SqlValue::Text(team.name), SqlValue::Int(id)), Fetch::Updated)
}

/// Deletes the team with the id.
pub fn delete_team(team_id: i32) -> (s: Statement)
    ensures
        s@.sql == DELETE_TEAM@,
        s@.params == seq![SqlValueView::Int(team_id)],
        s@.fetch == Fetch::Execute,
{
    statement(DELETE_TEAM, one(SqlValue::Int(team_id)), Fetch::Execute)
}

/// Looks a player up by id.
pub fn get_player_by_id(player_id: i32) -> (s: Statement)
    ensures
        s@.sql == SELECT_PLAYER_BY_ID@,
        s@.params == seq![SqlValueView::Int(player_id)],
        s@.fetch == Fetch::Optional,
{
    statement(SELECT_PLAYER_BY_ID, one(SqlValue::Int(player_id)), Fetch::Optional)
}

/// Looks a player up by the id of its user.
pub fn get_player_by_user_id(user_id: i32) -> (s: Statement)
    ensures
        s@.sql == SELECT_PLAYER_BY_USER_ID@,
        s@.params == seq![SqlValueView::Int(user_id)],
        s@.fetch == Fetch::Optional,
{
    statement(SELECT_PLAYER_BY_USER_ID, one(SqlValue::Int(user_id)), Fetch::Optional)
}

/// Adds a player and returns the row with its new id.
pub fn add_player(player: Player) -> (s: Statement)
    ensures
        s@.sql == INSERT_PLAYER@,
        s@.params == seq![SqlValueView::Int(player.user_id)],
        s@.fetch == Fetch::Inserted,
{
    statement(INSERT_PLAYER, one(SqlValue::Int(player.user_id)), Fetch::Inserted)
}

/// Replaces the user of the player with the given id and returns the row.
pub fn update_player(player: IdentifiablePlayer) -> (s: Statement)
    ensures
        s@.sql == UPDATE_PLAYER@,
        s@.params == seq![SqlValueView::Int(player.user_id), SqlValueView::Int(player.id)],
        s@.fetch == Fetch::Updated,
{
    statement(
        UPDATE_PLAYER,
        two(SqlValue::Int(player.user_id), SqlValue::Int(player.id)),
        Fetch::Updated,
    )
}

/// Deletes the player with the id.
pub fn delete_player(player_id: i32) -> (s: Statement)
    ensures
        s@.sql == DELETE_PLAYER@,
        s@.params == seq![SqlValueView::Int(player_id)],
        s@.fetch == Fetch::Execute,
{
    statement(DELETE_PLAYER, one(SqlValue::Int(player_id)), Fetch::Execute)
}

/// Looks an availability block up by id.
pub fn get_available_block_by_id(block_id: i32) -> (s: Statement)
    ensures
        s@.sql == SELECT_BLOCK_BY_ID@,
        s@.params == seq![SqlValueView::Int(block_id)],
        s@.fetch == Fetch::Optional,
{
    statement(SELECT_BLOCK_BY_ID, one(SqlValue::Int(block_id)), Fetch::Optional)
}

/// Lists the availability blocks of a player, oldest first.
pub fn get_available_blocks_by_player_id(player_id: i32) -> (s: Statement)
    ensures
        s@.sql == SELECT_BLOCKS_BY_PLAYER_ID@,
        s@.params == seq![SqlValueView::Int(player_id)],
        s@.fetch == Fetch::All,
{
    statement(SELECT_BLOCKS_BY_PLAYER_ID, one(SqlValue::Int(player_id)), Fetch::All)
}

/// The values of a block's fields in the order of its columns: the two
/// times and the rule as their codecs write them.
pub open spec fn block_values(block: crate::model::BlockView) -> Seq<SqlValueView> {
    seq![
        SqlValueView::Text(time_text(block.start_time)),
        SqlValueView::Text(time_text(block.end_time)),
        SqlValueView::Bool(block.need_warning),
        SqlValueView::Text(block.repeats.text),
        SqlValueView::Int(block.player_id),
    ]
}

/// Encodes a block's fields as values to bind.
fn values_of(block: &AvailableBlock) -> (r: Vec<SqlValue>)
    requires
        block.wf(),
    ensures
        Seq::new(r@.len(), |i: int| r@[i]@) == block_values(block@),
{
    let mut r: Vec<SqlValue> = Vec::new();
    r.push(SqlValue::Text(block.start_time.encode()));
    r.push(SqlValue::Text(block.end_time.encode()));
    r.push(SqlValue::Bool(block.need_warning));
    r.push(SqlValue::Text(block.repeats.encode()));
    r.push(SqlValue::Int(block.player_id));
    r
}

/// Adds an availability block and returns the row with its new id.
pub fn add_available_block(block: AvailableBlock) -> (s: Statement)
    requires
        block.wf(),
    ensures
        s@.sql == INSERT_BLOCK@,
        s@.params == block_values(block@),
        s@.fetch == Fetch::Inserted,
{
    statement(INSERT_BLOCK, values_of(&block), Fetch::Inserted)
}

/// Replaces every field of the availability block with the given id and
/// returns the row.
pub fn update_available_block(block: IdentifiableAvailableBlock) -> (s: Statement)
    requires
        block.inner_block.wf(),
    ensures
        s@.sql == UPDATE_BLOCK@,
        s@.params == block_values(block@.fields).push(SqlValueView::Int(block.id)),
        s@.fetch == Fetch::Updated,
{
    let mut params = values_of(&block.inner_block);
    params.push(SqlValue::Int(block.id));
    statement(UPDATE_BLOCK, params, Fetch::Updated)
}

/// Deletes the availability block with the id.
pub fn delete_available_block(block_id: i32) -> (s: Statement)
    ensures
        s@.sql == DELETE_BLOCK@,
        s@.params == seq![SqlValueView::Int(block_id)],
        s@.fetch == Fetch::Execute,
{
    statement(DELETE_BLOCK, one(SqlValue::Int(block_id)), Fetch::Execute)
}

/// What the failure of a statement amounts to: `RowNotFound` where an update
/// got no row back, else `Backend` with the store's own words.
pub fn failure(fetch: Fetch, no_row: bool, cause: String) -> (r: StoreError)
    ensures
        r == if no_row && fetch == Fetch::Updated {
            StoreError::RowNotFound
        } else {
            StoreError::Backend(cause)
        },
{
    match fetch {
        Fetch::Updated => if no_row {
            StoreError::RowNotFound
        } else {
            StoreError::Backend(cause)
        },
        _ => StoreError::Backend(cause),
    }
}

/// Reads an availability block from the columns of a row.
///
/// The times and the rule are decoded as on the wire. A column that its
/// codec refuses makes the row corrupt.
pub fn block_from_row(
    id: i32,
    start_time: &str,
    end_time: &str,
    need_warning: bool,
    repeats: &str,
    player_id: i32,
) -> (r: Result<IdentifiableAvailableBlock, StoreError>)
    ensures
        match r {
            Ok(row) => {
                &&& row.id == id
                &&& row.inner_block.wf()
                &&& reads_as(
                    start_time@,
                    end_time@,
                    need_warning,
                    repeats@,
                    player_id,
                    Ok(row@.fields),
                )
            },
            Err(e) => e matches StoreError::CorruptRow(cause) && reads_as(
                start_time@,
                end_time@,
                need_warning,
                repeats@,
                player_id,
                Err(cause),
            ),
        },
{
    match AvailableBlock::from_wire(start_time, end_time, need_warning, repeats, player_id) {
        Ok(inner_block) => Ok(IdentifiableAvailableBlock { id, inner_block }),
        Err(cause) => Err(StoreError::CorruptRow(cause)),
    }
}

} // verus!
