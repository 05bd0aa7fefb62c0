use pha::game_flow::{
    grounded_change, level_load_plan, local_player_update, next_game_state, postprocess,
    welcomed_level, GameEvent, GameState, GroundedChange, Level, LevelState, LoadingAssets,
    SystemMenuState,
};
use pha::replication::{
    camera_holder_replication, characters_of_client, player_replication, players_to_spawn,
    view_direction_replication, AuthorityPeer, Lifetime, NetworkTarget,
};

#[test]
fn level_change() {
    assert_eq!(level_load_plan(false, Level::Example), None);
    let p = level_load_plan(true, Level::Example).unwrap();
    assert_eq!(
        p.scenes,
        vec!["scenes/example_character.glb#Scene0", "scenes/example_map.glb#Scene0"]
    );
    assert_eq!(p.next_state, LevelState::Loading);
    let v = level_load_plan(true, Level::Void).unwrap();
    assert_eq!(v.scenes, vec!["scenes/example_character.glb#Scene0"]);
    assert_eq!(v.next_state, LevelState::Loading);
    assert_eq!(LevelState::default(), LevelState::Unloaded);
}

#[test]
fn loading_check_waits_for_every_queued_scene() {
    let mut assets = LoadingAssets::default();
    assert!(assets.handles.is_empty());
    assets.queue(10);
    assets.queue(11);
    let meshes = vec![(7, true), (8, false)];
    assert_eq!(assets.check(&vec![10], Level::Example, Some(&meshes)), None);
    assert_eq!(assets.handles, vec![10, 11]);
    let done = assets.check(&vec![11, 3, 10], Level::Example, Some(&meshes)).unwrap();
    assert_eq!(done.next_state, LevelState::Loaded);
    assert_eq!(done.collider_entities, vec![7]);
    assert!(assets.handles.is_empty());
    let empty = LoadingAssets::new().check(&vec![], Level::Void, None).unwrap();
    assert_eq!(empty.next_state, LevelState::Loaded);
    assert_eq!(empty.collider_entities, Vec::<u64>::new());
}

#[test]
fn postprocess_picks_loaded_meshes_then_loads() {
    let entities = vec![(1, true), (2, false), (3, true)];
    let e = postprocess(Level::Example, Some(&entities));
    assert_eq!(e.collider_entities, vec![1, 3]);
    assert_eq!(e.next_state, LevelState::Loaded);
    let v = postprocess(Level::Void, Some(&entities));
    assert_eq!(v.collider_entities, Vec::<u64>::new());
    assert_eq!(v.next_state, LevelState::Loaded);
    let absent = postprocess(Level::Example, None);
    assert_eq!(absent.collider_entities, Vec::<u64>::new());
    assert_eq!(absent.next_state, LevelState::Loaded);
}

#[test]
fn client_game_states() {
    assert_eq!(next_game_state(GameState::Hosting, GameEvent::HostingStarted), Some(GameState::ConnectingSelf));
    assert_eq!(next_game_state(GameState::MainMenu, GameEvent::HostingStarted), None);
    assert_eq!(next_game_state(GameState::ConnectingRemote, GameEvent::Welcomed), Some(GameState::Loading));
    assert_eq!(next_game_state(GameState::ConnectingSelf, GameEvent::Welcomed), Some(GameState::Loading));
    assert_eq!(next_game_state(GameState::Playing, GameEvent::Welcomed), None);
    assert_eq!(next_game_state(GameState::Loading, GameEvent::LevelLoaded), Some(GameState::Spawning));
    assert_eq!(next_game_state(GameState::Spawning, GameEvent::LocalPlayerSpawned), Some(GameState::Playing));
    assert_eq!(next_game_state(GameState::Loading, GameEvent::LocalPlayerSpawned), None);
    assert_eq!(next_game_state(GameState::Playing, GameEvent::Disconnected), Some(GameState::MainMenu));
}

#[test]
fn last_welcome_wins() {
    assert_eq!(welcomed_level(&vec![]), None);
    assert_eq!(welcomed_level(&vec![Level::Void, Level::Example]), Some(Level::Example));
    assert_eq!(welcomed_level(&vec![Level::Example, Level::Void]), Some(Level::Void));
}

#[test]
fn only_a_single_new_player_is_local() {
    let none = local_player_update(&vec![4], &vec![]);
    assert_eq!(none.unmark, vec![4]);
    assert_eq!(none.mark, None);
    assert!(!none.enter_playing);
    let one = local_player_update(&vec![], &vec![5]);
    assert_eq!(one.unmark, Vec::<u64>::new());
    assert_eq!(one.mark, Some(5));
    assert!(one.enter_playing);
    let two = local_player_update(&vec![1, 2], &vec![5, 6]);
    assert_eq!(two.unmark, vec![1, 2]);
    assert_eq!(two.mark, None);
    assert!(!two.enter_playing);
}

#[test]
fn earlier_local_player_loses_its_mark() {
    let u = local_player_update(&vec![3], &vec![9]);
    assert_eq!(u.unmark, vec![3]);
    assert_eq!(u.mark, Some(9));
    assert!(u.enter_playing);
}

#[test]
fn system_menu_toggles() {
    assert_eq!(SystemMenuState::default(), SystemMenuState::Closed);
    assert_eq!(SystemMenuState::Closed.toggled(), SystemMenuState::Open);
    assert_eq!(SystemMenuState::Open.toggled().toggled(), SystemMenuState::Open);
    assert_eq!(SystemMenuState::Closed.after_presses(&vec![false, true, true]), Some(SystemMenuState::Open));
    assert_eq!(SystemMenuState::Open.after_presses(&vec![true]), Some(SystemMenuState::Closed));
    assert_eq!(SystemMenuState::Open.after_presses(&vec![false, false]), None);
}

#[test]
fn player_replication_targets() {
    let r = player_replication(8);
    assert_eq!(r.prediction, Some(NetworkTarget::Single(8)));
    assert_eq!(r.interpolation, Some(NetworkTarget::AllExceptSingle(8)));
    assert_eq!(r.controlled_by, Some(NetworkTarget::Single(8)));
    assert_eq!(r.control_lifetime, Some(Lifetime::SessionBased));
    assert_eq!(r.hierarchy_enabled, Some(false));
    assert_eq!(r.group, Some(42));
}

#[test]
fn camera_holder_replication_targets() {
    let r = camera_holder_replication(3);
    assert_eq!(r.target, Some(NetworkTarget::AllExceptSingle(3)));
    assert_eq!(r.authority, Some(AuthorityPeer::Server));
    assert_eq!(r.prediction, Some(NetworkTarget::Single(3)));
    assert_eq!(r.control_lifetime, Some(Lifetime::Persistent));
    assert_eq!(r.hierarchy_recursive, Some(true));
}

#[test]
fn view_direction_passed_on_only_for_clients() {
    let r = view_direction_replication(AuthorityPeer::Client(5)).unwrap();
    assert_eq!(r.target, Some(NetworkTarget::AllExceptSingle(5)));
    assert_eq!(r.authority, Some(AuthorityPeer::Client(5)));
    assert_eq!(view_direction_replication(AuthorityPeer::Server), None);
    assert_eq!(view_direction_replication(AuthorityPeer::Nobody), None);
}

#[test]
fn spawn_only_new_players() {
    assert_eq!(players_to_spawn(&vec![1, 2], &vec![2, 3, 3, 1, 4]), vec![3, 3, 4]);
    assert_eq!(players_to_spawn(&vec![], &vec![9]), vec![9]);
}

#[test]
fn characters_owned_by_client() {
    let players = vec![(100, 1), (101, 2), (102, 1)];
    assert_eq!(characters_of_client(&players, 1), vec![100, 102]);
    assert_eq!(characters_of_client(&players, 3), Vec::<u64>::new());
}

#[test]
fn grounded_marker_follows_floor() {
    assert_eq!(grounded_change(true, false), Some(GroundedChange::Mark));
    assert_eq!(grounded_change(false, true), Some(GroundedChange::Unmark));
    assert_eq!(grounded_change(true, true), None);
    assert_eq!(grounded_change(false, false), None);
}
