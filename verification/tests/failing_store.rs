use availability::api;
use availability::error::{MyError, StoreError};
use availability::model::{
    AvailableBlock, IdentifiableAvailableBlock, IdentifiablePlayer, IdentifiableTeam,
    IdentifiableUser, Player, Team, User,
};
use availability::store::{AvailablityStore, StoreState};

/// A store that is down: every operation fails.
struct Down;

fn down<T>() -> Result<T, StoreError> {
    Err(StoreError::Backend("connection refused".to_string()))
}

impl AvailablityStore for Down {
    fn state(&self) -> StoreState {
        unreachable!("what a store holds is a notion of the contracts; nothing calls it")
    }
    fn get_user_by_id(&self, _: i32) -> Result<Option<IdentifiableUser>, StoreError> {
        down()
    }
    fn get_user_by_name(&self, _: String) -> Result<Option<IdentifiableUser>, StoreError> {
        down()
    }
    fn add_user(&mut self, _: User) -> Result<IdentifiableUser, StoreError> {
        down()
    }
    fn update_user(&mut self, _: IdentifiableUser) -> Result<IdentifiableUser, StoreError> {
        down()
    }
    fn delete_user(&mut self, _: i32) -> Result<(), StoreError> {
        down()
    }
    fn get_team_by_id(&self, _: i32) -> Result<Option<IdentifiableTeam>, StoreError> {
        down()
    }
    fn get_team_by_name(&self, _: String) -> Result<Option<IdentifiableTeam>, StoreError> {
        down()
    }
    fn add_team(&mut self, _: Team) -> Result<IdentifiableTeam, StoreError> {
        down()
    }
    fn update_team(&mut self, _: IdentifiableTeam) -> Result<IdentifiableTeam, StoreError> {
        down()
    }
    fn delete_team(&mut self, _: i32) -> Result<(), StoreError> {
        down()
    }
    fn get_player_by_id(&self, _: i32) -> Result<Option<IdentifiablePlayer>, StoreError> {
        down()
    }
    fn get_player_by_user_id(&self, _: i32) -> Result<Option<IdentifiablePlayer>, StoreError> {
        down()
    }
    fn add_player(&mut self, _: Player) -> Result<IdentifiablePlayer, StoreError> {
        down()
    }
    fn update_player(&mut self, _: IdentifiablePlayer) -> Result<IdentifiablePlayer, StoreError> {
        down()
    }
    fn delete_player(&mut self, _: i32) -> Result<(), StoreError> {
        down()
    }
    fn get_available_block_by_id(&self, _: i32) -> Result<Option<IdentifiableAvailableBlock>, StoreError> {
        down()
    }
    fn get_available_blocks_by_player_id(&self, _: i32) -> Result<Vec<IdentifiableAvailableBlock>, StoreError> {
        down()
    }
    fn add_available_block(&mut self, _: AvailableBlock) -> Result<IdentifiableAvailableBlock, StoreError> {
        down()
    }
    fn update_available_block(&mut self, _: IdentifiableAvailableBlock) -> Result<IdentifiableAvailableBlock, StoreError> {
        down()
    }
    fn delete_available_block(&mut self, _: i32) -> Result<(), StoreError> {
        down()
    }
}

#[test]
fn handlers_report_a_store_that_is_down() {
    let mut store = Down;
    let block = AvailableBlock::from_wire("09:00:00", "10:00:00", false, "FREQ=DAILY", 1).unwrap();
    assert_eq!(api::get_team(&store, Team { name: "t".to_string() }), Err(MyError::Yes));
    assert_eq!(api::get_team_by_id(&store, 1), Err(MyError::Yes));
    assert_eq!(api::create_team(&mut store, Team { name: "t".to_string() }), Err(MyError::Yes));
    assert_eq!(api::update_team(&mut store, IdentifiableTeam { id: 1, name: "t".to_string() }), Err(MyError::Yes));
    assert_eq!(api::delete_team(&mut store, 1), Err(MyError::Yes));
    assert_eq!(api::get_user(&store, User { name: "u".to_string() }), Err(MyError::Yes));
    assert_eq!(api::get_user_by_id(&store, 1), Err(MyError::Yes));
    assert_eq!(api::create_user(&mut store, User { name: "u".to_string() }), Err(MyError::Yes));
    assert_eq!(api::update_user(&mut store, IdentifiableUser { id: 1, name: "u".to_string() }), Err(MyError::Yes));
    assert_eq!(api::delete_user(&mut store, 1), Err(MyError::Yes));
    assert_eq!(api::get_player_by_user_id(&store, Player { user_id: 1 }), Err(MyError::Yes));
    assert_eq!(api::get_player_by_id(&store, 1), Err(MyError::Yes));
    assert_eq!(api::create_player(&mut store, Player { user_id: 1 }), Err(MyError::Yes));
    assert_eq!(api::update_player(&mut store, IdentifiablePlayer { id: 1, user_id: 1 }), Err(MyError::Yes));
    assert_eq!(api::delete_player(&mut store, 1), Err(MyError::Yes));
    assert_eq!(api::get_available_blocks_by_player(&store, 1), Err(MyError::Yes));
    assert_eq!(api::get_available_block_by_id(&store, 1), Err(MyError::Yes));
    assert_eq!(api::create_available_block(&mut store, block.clone()), Err(MyError::Yes));
    assert_eq!(
        api::update_available_block(&mut store, IdentifiableAvailableBlock { id: 1, inner_block: block }),
        Err(MyError::Yes)
    );
    assert_eq!(api::delete_available_block(&mut store, 1), Err(MyError::Yes));
}
