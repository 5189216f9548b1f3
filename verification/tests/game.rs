use coin_in_the_sky::app_state::{AppState, StateOwner, Tagged};
use coin_in_the_sky::coin::Controls;
use coin_in_the_sky::coin_launch_ui::CoinLaunchSpeedPercentage;
use coin_in_the_sky::game::{Game, Input};
use coin_in_the_sky::scores::Scores;
use rand::rngs::StdRng;
use rand::SeedableRng;

const IDLE: Controls = Controls { left: false, right: false, boost: false };
const NOTHING: Input = Input { controls: IDLE, confirm: false, assets_ready: false };
const CONFIRM: Input = Input { controls: IDLE, confirm: true, assets_ready: false };
const READY: Input = Input { controls: IDLE, confirm: false, assets_ready: true };

fn at_launch(rng: &mut StdRng) -> Game {
    let mut game = Game::new();
    game.update(&READY, 16, rng);
    game.update(&CONFIRM, 16, rng);
    assert_eq!(game.lifecycle.state, AppState::CoinLaunch);
    game
}

#[test]
fn a_new_game_is_loading() {
    let game = Game::new();
    assert_eq!(game.lifecycle.state, AppState::Loading);
    assert!(game.lifecycle.entities.is_empty());
    assert_eq!(game.scores, Scores::default());
    assert_eq!(game.launch_speed_percentage, CoinLaunchSpeedPercentage(0));
    assert!(game.world.is_none());
    assert!(game.can_update(16));
}

#[test]
fn loading_waits_for_the_assets() {
    let mut rng = StdRng::seed_from_u64(1);
    let mut game = Game::new();
    assert!(game.update(&NOTHING, 16, &mut rng).is_empty());
    assert!(game.update(&CONFIRM, 16, &mut rng).is_empty());
    assert_eq!(game.lifecycle.state, AppState::Loading);
    game.update(&READY, 16, &mut rng);
    assert_eq!(game.lifecycle.state, AppState::MainMenu);
}

#[test]
fn the_main_menu_waits_for_confirm() {
    let mut rng = StdRng::seed_from_u64(1);
    let mut game = Game::new();
    game.update(&READY, 16, &mut rng);
    game.update(&READY, 16, &mut rng);
    game.update(&NOTHING, 16, &mut rng);
    assert_eq!(game.lifecycle.state, AppState::MainMenu);
    assert_eq!(game.launch_speed_percentage, CoinLaunchSpeedPercentage(0));
    game.update(&CONFIRM, 16, &mut rng);
    assert_eq!(game.lifecycle.state, AppState::CoinLaunch);
    assert!(game.world.is_none());
}

#[test]
fn the_meter_sweeps_while_the_coin_waits() {
    let mut rng = StdRng::seed_from_u64(1);
    let mut game = at_launch(&mut rng);
    assert_eq!(game.launch_speed_percentage, CoinLaunchSpeedPercentage(0));
    game.update(&NOTHING, 250, &mut rng);
    assert_eq!(game.launch_speed_percentage, CoinLaunchSpeedPercentage(250_000));
    game.update(&NOTHING, 900, &mut rng);
    assert_eq!(game.launch_speed_percentage, CoinLaunchSpeedPercentage(150_000));
    assert_eq!(game.lifecycle.state, AppState::CoinLaunch);
}

#[test]
fn the_coin_is_launched_at_the_speed_of_the_meter() {
    let mut rng = StdRng::seed_from_u64(1);
    let mut game = at_launch(&mut rng);
    game.update(&NOTHING, 300, &mut rng);
    game.update(&CONFIRM, 50, &mut rng);
    assert_eq!(game.lifecycle.state, AppState::Ingame);
    let world = game.world.as_ref().unwrap();
    assert_eq!(world.coin.speed, 400_000 + 350_000);
    assert_eq!(world.coin.additional_boosts, 3);
    assert_eq!(world.coin.altitude, 0);
    assert!(world.clouds.is_empty());
    assert_eq!(game.launch_speed_percentage, CoinLaunchSpeedPercentage(350_000));
}

#[test]
fn the_first_tick_of_a_flight_is_the_update_after_the_launch() {
    let mut rng = StdRng::seed_from_u64(1);
    let mut game = at_launch(&mut rng);
    game.update(&CONFIRM, 1_000, &mut rng);
    assert_eq!(game.world.as_ref().unwrap().coin.speed, 1_400_000);
    game.update(&CONFIRM, 10, &mut rng);
    assert_eq!(game.lifecycle.state, AppState::Ingame);
    assert_eq!(game.world.as_ref().unwrap().coin.speed, 1_400_000 - 980);
    assert_eq!(game.world.as_ref().unwrap().coin.altitude, (1_400_000 - 980) * 10);
}

#[test]
fn a_flight_ends_when_the_coin_is_lost_and_is_scored_once() {
    let mut rng = StdRng::seed_from_u64(4);
    let mut game = at_launch(&mut rng);
    game.update(&CONFIRM, 16, &mut rng);
    let mut ticks = 0;
    let mut highest = 0;
    while game.lifecycle.state == AppState::Ingame {
        assert!(game.can_update(16));
        highest = game.world.as_ref().unwrap().coin.highest_altitude_recorded;
        game.update(&NOTHING, 16, &mut rng);
        ticks += 1;
        assert!(ticks < 200_000);
    }
    assert_eq!(game.lifecycle.state, AppState::End);
    assert!(game.world.is_none());
    assert!(highest > 0);
    let score = game.scores;
    assert!(score.end_score > 0);
    assert!((score.end_score as i64 - highest / 10_000_000).abs() <= 1);
    assert_eq!(score.best_score, score.end_score);
    assert!(score.new_record);
    for _ in 0..10 {
        game.update(&NOTHING, 16, &mut rng);
        assert_eq!(game.scores, score);
        assert_eq!(game.lifecycle.state, AppState::End);
    }
}

#[test]
fn a_restart_puts_the_meter_back_and_keeps_the_scores() {
    let mut rng = StdRng::seed_from_u64(4);
    let mut game = at_launch(&mut rng);
    game.update(&NOTHING, 700, &mut rng);
    game.update(&CONFIRM, 16, &mut rng);
    while game.lifecycle.state == AppState::Ingame {
        game.update(&NOTHING, 16, &mut rng);
    }
    let first = game.scores;
    assert_eq!(game.launch_speed_percentage, CoinLaunchSpeedPercentage(716_000));
    game.update(&CONFIRM, 16, &mut rng);
    assert_eq!(game.lifecycle.state, AppState::CoinLaunch);
    assert_eq!(game.launch_speed_percentage, CoinLaunchSpeedPercentage(0));
    assert_eq!(game.scores, first);
    game.update(&CONFIRM, 16, &mut rng);
    assert_eq!(game.lifecycle.state, AppState::Ingame);
    assert_eq!(game.world.as_ref().unwrap().coin.speed, 416_000);
    while game.lifecycle.state == AppState::Ingame {
        game.update(&NOTHING, 16, &mut rng);
    }
    assert_eq!(game.scores.best_score, first.best_score);
    assert!(game.scores.end_score < first.end_score);
    assert!(!game.scores.new_record);
}

#[test]
fn leaving_a_state_sweeps_its_entities_and_no_others() {
    let mut rng = StdRng::seed_from_u64(4);
    let mut game = Game::new();
    game.lifecycle.spawn(1);
    game.lifecycle.spawn(2);
    assert!(game.update(&NOTHING, 16, &mut rng).is_empty());
    assert_eq!(game.update(&READY, 16, &mut rng), vec![1, 2]);
    assert!(game.lifecycle.entities.is_empty());
    game.lifecycle.spawn(3);
    game.lifecycle.entities.push(Tagged { entity: 99, owner: StateOwner(AppState::End) });
    assert_eq!(game.update(&CONFIRM, 16, &mut rng), vec![3]);
    assert_eq!(
        game.lifecycle.entities,
        vec![Tagged { entity: 99, owner: StateOwner(AppState::End) }]
    );
}

#[test]
fn nothing_leaks_through_many_flights() {
    let mut rng = StdRng::seed_from_u64(8);
    let mut game = at_launch(&mut rng);
    let mut next_entity: u64 = 0;
    let mut best = 0;
    for _ in 0..6 {
        for expected in [AppState::Ingame, AppState::End, AppState::CoinLaunch] {
            let mut spawned: Vec<u64> = Vec::new();
            for _ in 0..3 {
                game.lifecycle.spawn(next_entity);
                spawned.push(next_entity);
                next_entity += 1;
            }
            let before = game.lifecycle.state;
            let mut removed: Vec<u64> = Vec::new();
            let mut updates = 0;
            while game.lifecycle.state == before {
                assert!(game.can_update(16));
                let input = if before == AppState::Ingame { NOTHING } else { CONFIRM };
                removed = game.update(&input, 16, &mut rng);
                assert_eq!(game.world.is_some(), game.lifecycle.state == AppState::Ingame);
                updates += 1;
                assert!(updates < 200_000);
            }
            assert_eq!(game.lifecycle.state, expected);
            assert_eq!(removed, spawned);
            assert!(game.lifecycle.entities.is_empty());
        }
        assert!(game.scores.best_score >= best);
        best = game.scores.best_score;
    }
}

#[test]
fn a_game_without_its_world_cannot_be_updated() {
    let mut rng = StdRng::seed_from_u64(1);
    let mut game = at_launch(&mut rng);
    game.update(&CONFIRM, 16, &mut rng);
    assert!(game.can_update(16));
    assert!(!game.can_update(10_001));
    let world = game.world.take();
    assert!(!game.can_update(16));
    game.world = world;
    game.lifecycle.state = AppState::End;
    assert!(!game.can_update(16));
}

#[test]
fn a_meter_out_of_range_is_told_apart() {
    let mut game = Game::new();
    game.launch_speed_percentage = CoinLaunchSpeedPercentage(1_000_001);
    assert!(!game.can_update(16));
    game.launch_speed_percentage = CoinLaunchSpeedPercentage(-1);
    assert!(!game.can_update(16));
    game.launch_speed_percentage = CoinLaunchSpeedPercentage(1_000_000);
    assert!(game.can_update(16));
}

#[test]
fn only_a_flight_draws_from_the_random_source() {
    let mut used = StdRng::seed_from_u64(25);
    let mut fresh = StdRng::seed_from_u64(25);
    let mut game = Game::new();
    game.update(&NOTHING, 16, &mut used);
    game.update(&READY, 16, &mut used);
    game.update(&NOTHING, 16, &mut used);
    game.update(&CONFIRM, 16, &mut used);
    game.update(&NOTHING, 300, &mut used);
    game.update(&CONFIRM, 16, &mut used);
    assert_eq!(game.lifecycle.state, AppState::Ingame);
    let mut other = at_launch(&mut fresh);
    other.update(&NOTHING, 300, &mut fresh);
    other.update(&CONFIRM, 16, &mut fresh);
    let mut ticks = 0;
    while game.lifecycle.state == AppState::Ingame {
        game.update(&NOTHING, 16, &mut used);
        other.update(&NOTHING, 16, &mut fresh);
        ticks += 1;
        assert!(ticks < 200_000);
    }
    assert_eq!(other.lifecycle.state, AppState::End);
    assert_eq!(game.scores, other.scores);
    assert!(game.scores.end_score > 0);
}
