//! The records that the service keeps: teams, users, players and the
//! recurring windows in which a player is available.
//!
//! Each kind of record comes in two shapes: the bare one that a client sends
//! to have a record made, and the identifiable one that carries the id the
//! store gave it.

use crate::error::ValidationError;
use crate::recurrence::{outcome_view, read_rule, rule_wf, zone_decides, MyRRuleSet, RuleView};
use crate::time_of_day::{decoded_time, lemma_time_round_trip, time_text, TimeOfDay};
use vstd::prelude::*;

verus! {

/// A record as the store holds it: the id it was given, and its fields.
pub struct Row<F> {
    pub id: i32,
    pub fields: F,
}

/// A team as contracts see it.
pub struct TeamView {
    pub name: Seq<char>,
}

/// A user as contracts see it.
pub struct UserView {
    pub name: Seq<char>,
}

/// An availability block as contracts see it.
pub struct BlockView {
    pub start_time: TimeOfDay,
    pub end_time: TimeOfDay,
    pub need_warning: bool,
    pub repeats: RuleView,
    pub player_id: i32,
}

/// A team to be made.
#[derive(Debug, PartialEq, Eq)]
pub struct Team {
    pub name: String,
}

/// A team that the store holds.
#[derive(Debug, PartialEq, Eq)]
pub struct IdentifiableTeam {
    pub id: i32,
    pub name: String,
}

/// A user to be made.
#[derive(Debug, PartialEq, Eq)]
pub struct User {
    pub name: String,
}

/// A user that the store holds.
#[derive(Debug, PartialEq, Eq)]
pub struct IdentifiableUser {
    pub id: i32,
    pub name: String,
}

/// A player to be made: the user who plays.
#[derive(Clone, Copy, Debug, PartialEq, Eq, Structural)]
pub struct Player {
    pub user_id: i32,
}

/// A player that the store holds.
#[derive(Clone, Copy, Debug, PartialEq, Eq, Structural)]
pub struct IdentifiablePlayer {
    pub id: i32,
    pub user_id: i32,
}

/// The membership of a player in a team.
#[derive(Clone, Copy, Debug, PartialEq, Eq, Structural)]
pub struct PlayerToTeam {
    pub player_id: i32,
    pub team_id: i32,
}

/// A recurring window of the day in which a player is available.
///
/// The rule is well formed by its type. The window is valid where `wf`
/// holds, which `is_valid` tests.
#[derive(Debug, PartialEq, Eq)]
pub struct AvailableBlock {
    pub start_time: TimeOfDay,
    pub end_time: TimeOfDay,
    pub need_warning: bool,
    pub repeats: MyRRuleSet,
    pub player_id: i32,
}

/// An availability block that the store holds.
#[derive(Debug, PartialEq, Eq)]
pub struct IdentifiableAvailableBlock {
    pub id: i32,
    pub inner_block: AvailableBlock,
}

impl View for Team {
    type V = TeamView;

    open spec fn view(&self) -> TeamView {
        TeamView { name: self.name@ }
    }
}

impl View for IdentifiableTeam {
    type V = Row<TeamView>;

    open spec fn view(&self) -> Row<TeamView> {
        Row { id: self.id, fields: TeamView { name: self.name@ } }
    }
}

impl View for User {
    type V = UserView;

    open spec fn view(&self) -> UserView {
        UserView { name: self.name@ }
    }
}

impl View for IdentifiableUser {
    type V = Row<UserView>;

    open spec fn view(&self) -> Row<UserView> {
        Row { id: self.id, fields: UserView { name: self.name@ } }
    }
}

impl View for Player {
    type V = Player;

    open spec fn view(&self) -> Player {
        *self
    }
}

impl View for IdentifiablePlayer {
    type V = Row<Player>;

    open spec fn view(&self) -> Row<Player> {
        Row { id: self.id, fields: Player { user_id: self.user_id } }
    }
}

impl View for AvailableBlock {
    type V = BlockView;

    open spec fn view(&self) -> BlockView {
        BlockView {
            start_time: self.start_time,
            end_time: self.end_time,
            need_warning: self.need_warning,
            repeats: self.repeats@,
            player_id: self.player_id,
        }
    }
}

impl View for IdentifiableAvailableBlock {
    type V = Row<BlockView>;

    open spec fn view(&self) -> Row<BlockView> {
        Row { id: self.id, fields: self.inner_block@ }
    }
}

/// The block's times exist on the clock and it starts strictly before it
/// ends.
pub open spec fn block_wf(block: BlockView) -> bool {
    &&& block.start_time.wf()
    &&& block.end_time.wf()
    &&& block.start_time.seconds_of_day() < block.end_time.seconds_of_day()
}

/// What `AvailableBlock::assemble` returns: the first failure among start
/// time, end time and rule, in that order, where a time that is not on the
/// clock counts as malformed, then an empty window, else the block.
pub open spec fn assembled(
    start_time: Result<TimeOfDay, ValidationError>,
    end_time: Result<TimeOfDay, ValidationError>,
    need_warning: bool,
    repeats: Result<RuleView, ValidationError>,
    player_id: i32,
) -> Result<BlockView, ValidationError> {
    match (start_time, end_time, repeats) {
        (Err(e), _, _) => Err(e),
        (Ok(_), Err(e), _) => Err(e),
        (Ok(_), Ok(_), Err(e)) => Err(e),
        (Ok(start_time), Ok(end_time), Ok(repeats)) => if !start_time.wf() || !end_time.wf() {
            Err(ValidationError::MalformedTime)
        } else if start_time.seconds_of_day() < end_time.seconds_of_day() {
            Ok(BlockView { start_time, end_time, need_warning, repeats, player_id })
        } else {
            Err(ValidationError::EmptyWindow)
        },
    }
}

/// What reading a block from the texts of its fields may give: the block or
/// failure that the texts stand for, or, where the machine's time zone has a
/// say in the rule, what follows from the rule being refused.
pub open spec fn reads_as(
    start_time: Seq<char>,
    end_time: Seq<char>,
    need_warning: bool,
    repeats: Seq<char>,
    player_id: i32,
    outcome: Result<BlockView, ValidationError>,
) -> bool {
    ||| outcome == assembled(
        decoded_time(start_time),
        decoded_time(end_time),
        need_warning,
        read_rule(repeats),
        player_id,
    )
    ||| zone_decides(repeats) && outcome == assembled(
        decoded_time(start_time),
        decoded_time(end_time),
        need_warning,
        Err(ValidationError::MalformedRecurrence),
        player_id,
    )
}

/// A valid block with a well-formed rule is read back from the texts that
/// the codecs write for its times and its rule.
pub proof fn lemma_block_round_trip(block: BlockView)
    requires
        block_wf(block),
        rule_wf(block.repeats),
    ensures
        reads_as(
            time_text(block.start_time),
            time_text(block.end_time),
            block.need_warning,
            block.repeats.text,
            block.player_id,
            Ok(block),
        ),
{
    lemma_time_round_trip(block.start_time);
    lemma_time_round_trip(block.end_time);
}

/// The view of a block or of the failure to make one.
pub open spec fn block_outcome(r: Result<AvailableBlock, ValidationError>) -> Result<
    BlockView,
    ValidationError,
> {
    match r {
        Ok(block) => Ok(block@),
        Err(e) => Err(e),
    }
}

impl Clone for Team {
    fn clone(&self) -> (r: Self)
        ensures
            r@ == self@,
    {
        Team { name: self.name.clone() }
    }
}

impl Clone for IdentifiableTeam {
    fn clone(&self) -> (r: Self)
        ensures
            r@ == self@,
    {
        IdentifiableTeam { id: self.id, name: self.name.clone() }
    }
}

impl Clone for User {
    fn clone(&self) -> (r: Self)
        ensures
            r@ == self@,
    {
        User { name: self.name.clone() }
    }
}

impl Clone for IdentifiableUser {
    fn clone(&self) -> (r: Self)
        ensures
            r@ == self@,
    {
        IdentifiableUser { id: self.id, name: self.name.clone() }
    }
}

impl Clone for AvailableBlock {
    fn clone(&self) -> (r: Self)
        ensures
            r@ == self@,
    {
        AvailableBlock {
            start_time: self.start_time,
            end_time: self.end_time,
            need_warning: self.need_warning,
            repeats: self.repeats.clone(),
            player_id: self.player_id,
        }
    }
}

impl Clone for IdentifiableAvailableBlock {
    fn clone(&self) -> (r: Self)
        ensures
            r@ == self@,
    {
        IdentifiableAvailableBlock { id: self.id, inner_block: self.inner_block.clone() }
    }
}

impl AvailableBlock {
    /// The block is one that the model accepts.
    pub open spec fn wf(&self) -> bool {
        block_wf(self@)
    }

    /// Whether the block is one that the model accepts.
    pub fn is_valid(&self) -> (r: bool)
        ensures
            r == self.wf(),
    {
        self.start_time.is_valid() && self.end_time.is_valid() && self.start_time.is_before(
            &self.end_time,
        )
    }

    /// Makes a block of fields that were read already.
    pub fn new(
        start_time: TimeOfDay,
        end_time: TimeOfDay,
        need_warning: bool,
        repeats: MyRRuleSet,
        player_id: i32,
    ) -> (r: Result<AvailableBlock, ValidationError>)
        ensures
            block_outcome(r) == assembled(
                Ok(start_time),
                Ok(end_time),
                need_warning,
                Ok(repeats@),
                player_id,
            ),
            r matches Ok(block) ==> block.wf(),
    {
        if !start_time.is_valid() || !end_time.is_valid() {
            Err(ValidationError::MalformedTime)
        } else if start_time.is_before(&end_time) {
            Ok(AvailableBlock { start_time, end_time, need_warning, repeats, player_id })
        } else {
            Err(ValidationError::EmptyWindow)
        }
    }

    /// Makes a block of what the codecs gave for its fields.
    pub fn assemble(
        start_time: Result<TimeOfDay, ValidationError>,
        end_time: Result<TimeOfDay, ValidationError>,
        need_warning: bool,
        repeats: Result<MyRRuleSet, ValidationError>,
        player_id: i32,
    ) -> (r: Result<AvailableBlock, ValidationError>)
        ensures
            block_outcome(r) == assembled(
                start_time,
                end_time,
                need_warning,
                outcome_view(repeats),
                player_id,
            ),
            r matches Ok(block) ==> block.wf(),
    {
        let start_time = match start_time {
            Ok(t) => t,
            Err(e) => {
                return Err(e);
            },
        };
        let end_time = match end_time {
            Ok(t) => t,
            Err(e) => {
                return Err(e);
            },
        };
        let repeats = match repeats {
            Ok(rule) => rule,
            Err(e) => {
                return Err(e);
            },
        };
        Self::new(start_time, end_time, need_warning, repeats, player_id)
    }

    /// Reads a block from the fields of its wire form.
    ///
    /// Every field is decoded, then the first failure is reported: start
    /// time, end time, rule, empty window.
    pub fn from_wire(
        start_time: &str,
        end_time: &str,
        need_warning: bool,
        repeats: &str,
        player_id: i32,
    ) -> (r: Result<AvailableBlock, ValidationError>)
        ensures
            r matches Ok(block) ==> block.wf(),
            reads_as(start_time@, end_time@, need_warning, repeats@, player_id, block_outcome(r)),
    {
        let start = TimeOfDay::decode(start_time);
        let end = TimeOfDay::decode(end_time);
        let rule = MyRRuleSet::decode(repeats);
        Self::assemble(start, end, need_warning, rule, player_id)
    }
}

} // verus!
