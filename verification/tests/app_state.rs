use coin_in_the_sky::app_state::{remove_entities, AppState, Lifecycle, Signal, StateOwner, Tagged};

fn tagged(entity: u64, state: AppState) -> Tagged {
    Tagged { entity, owner: StateOwner(state) }
}

#[test]
fn the_game_starts_loading() {
    assert_eq!(AppState::default(), AppState::Loading);
}

#[test]
fn loading_ends_when_the_assets_are_ready() {
    assert_eq!(AppState::Loading.next(Signal::AssetsReady), AppState::MainMenu);
    assert_eq!(AppState::Loading.next(Signal::Confirm), AppState::Loading);
    assert_eq!(AppState::Loading.next(Signal::CoinLost), AppState::Loading);
}

#[test]
fn confirm_starts_launches_and_restarts() {
    assert_eq!(AppState::MainMenu.next(Signal::Confirm), AppState::CoinLaunch);
    assert_eq!(AppState::CoinLaunch.next(Signal::Confirm), AppState::Ingame);
    assert_eq!(AppState::End.next(Signal::Confirm), AppState::CoinLaunch);
}

#[test]
fn a_flight_ends_only_when_the_coin_is_lost() {
    assert_eq!(AppState::Ingame.next(Signal::CoinLost), AppState::End);
    assert_eq!(AppState::Ingame.next(Signal::Confirm), AppState::Ingame);
    assert_eq!(AppState::Ingame.next(Signal::AssetsReady), AppState::Ingame);
}

#[test]
fn signals_without_meaning_change_nothing() {
    assert_eq!(AppState::MainMenu.next(Signal::AssetsReady), AppState::MainMenu);
    assert_eq!(AppState::MainMenu.next(Signal::CoinLost), AppState::MainMenu);
    assert_eq!(AppState::CoinLaunch.next(Signal::AssetsReady), AppState::CoinLaunch);
    assert_eq!(AppState::CoinLaunch.next(Signal::CoinLost), AppState::CoinLaunch);
    assert_eq!(AppState::End.next(Signal::AssetsReady), AppState::End);
    assert_eq!(AppState::End.next(Signal::CoinLost), AppState::End);
}

#[test]
fn no_state_is_terminal() {
    let states = [
        AppState::Loading,
        AppState::MainMenu,
        AppState::CoinLaunch,
        AppState::Ingame,
        AppState::End,
    ];
    let signals = [Signal::AssetsReady, Signal::Confirm, Signal::CoinLost];
    for state in states.iter() {
        assert!(signals.iter().any(|signal| state.next(*signal) != *state));
    }
}

#[test]
fn sweep_removes_all_and_only_the_entities_of_the_state() {
    let mut entities = vec![
        tagged(1, AppState::Ingame),
        tagged(2, AppState::MainMenu),
        tagged(3, AppState::Ingame),
        tagged(4, AppState::End),
        tagged(5, AppState::Ingame),
    ];
    let removed = remove_entities(&mut entities, AppState::Ingame);
    assert_eq!(removed, vec![1, 3, 5]);
    assert_eq!(entities, vec![tagged(2, AppState::MainMenu), tagged(4, AppState::End)]);
}

#[test]
fn sweep_of_a_state_without_entities_changes_nothing() {
    let mut entities = vec![tagged(1, AppState::Ingame), tagged(2, AppState::Ingame)];
    let removed = remove_entities(&mut entities, AppState::CoinLaunch);
    assert!(removed.is_empty());
    assert_eq!(entities, vec![tagged(1, AppState::Ingame), tagged(2, AppState::Ingame)]);
}

#[test]
fn sweep_of_an_empty_list() {
    let mut entities: Vec<Tagged> = Vec::new();
    let removed = remove_entities(&mut entities, AppState::Loading);
    assert!(removed.is_empty());
    assert!(entities.is_empty());
}

#[test]
fn sweep_removes_each_entry_exactly_once() {
    let mut entities = vec![tagged(7, AppState::End), tagged(7, AppState::End), tagged(8, AppState::End)];
    let removed = remove_entities(&mut entities, AppState::End);
    assert_eq!(removed, vec![7, 7, 8]);
    assert!(entities.is_empty());
    let again = remove_entities(&mut entities, AppState::End);
    assert!(again.is_empty());
}

#[test]
fn lifecycle_starts_loading_and_empty() {
    let lifecycle = Lifecycle::new();
    assert_eq!(lifecycle.state, AppState::Loading);
    assert!(lifecycle.entities.is_empty());
}

#[test]
fn lifecycle_tags_spawns_with_the_present_state() {
    let mut lifecycle = Lifecycle::new();
    lifecycle.spawn(10);
    lifecycle.spawn(11);
    assert_eq!(
        lifecycle.entities,
        vec![tagged(10, AppState::Loading), tagged(11, AppState::Loading)]
    );
}

#[test]
fn lifecycle_ignores_a_signal_that_changes_nothing() {
    let mut lifecycle = Lifecycle::new();
    lifecycle.spawn(10);
    let removed = lifecycle.handle(Signal::Confirm);
    assert!(removed.is_empty());
    assert_eq!(lifecycle.state, AppState::Loading);
    assert_eq!(lifecycle.entities, vec![tagged(10, AppState::Loading)]);
}

#[test]
fn lifecycle_sweeps_before_the_new_state_is_set_up() {
    let mut lifecycle = Lifecycle::new();
    lifecycle.spawn(1);
    lifecycle.spawn(2);
    let removed = lifecycle.handle(Signal::AssetsReady);
    assert_eq!(removed, vec![1, 2]);
    assert_eq!(lifecycle.state, AppState::MainMenu);
    assert!(lifecycle.entities.is_empty());
    lifecycle.spawn(3);
    assert_eq!(lifecycle.entities, vec![tagged(3, AppState::MainMenu)]);
}

#[test]
fn nothing_leaks_through_many_rounds() {
    let mut lifecycle = Lifecycle::new();
    let mut next_entity: u64 = 0;
    lifecycle.handle(Signal::AssetsReady);
    lifecycle.handle(Signal::Confirm);
    assert_eq!(lifecycle.state, AppState::CoinLaunch);
    for round in 0..25u64 {
        let signals = [Signal::Confirm, Signal::CoinLost, Signal::Confirm];
        let states = [AppState::Ingame, AppState::End, AppState::CoinLaunch];
        for step in 0..3 {
            let mut spawned: Vec<u64> = Vec::new();
            for _ in 0..(round % 4 + 1) {
                lifecycle.spawn(next_entity);
                spawned.push(next_entity);
                next_entity += 1;
            }
            let before = lifecycle.state;
            assert!(lifecycle.entities.iter().all(|t| t.owner == StateOwner(before)));
            let removed = lifecycle.handle(signals[step]);
            assert_eq!(removed, spawned);
            assert_eq!(lifecycle.state, states[step]);
            assert!(lifecycle.entities.is_empty());
        }
    }
}

#[test]
fn foreign_tags_survive_a_sweep() {
    let mut lifecycle = Lifecycle::new();
    lifecycle.entities.push(tagged(99, AppState::End));
    lifecycle.spawn(1);
    let removed = lifecycle.handle(Signal::AssetsReady);
    assert_eq!(removed, vec![1]);
    assert_eq!(lifecycle.entities, vec![tagged(99, AppState::End)]);
}
