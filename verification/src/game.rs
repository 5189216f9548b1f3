//! The game as a whole: which systems run in which state, and what is torn
//! down and set up when the state changes.
//!
//! In every update the systems of the present state run. If they raise a
//! signal that changes the state, the entities of the state that is left are
//! swept, and then the state that is entered is set up; the systems of the
//! new state first run in the next update.

use vstd::prelude::*;
use rand::rngs::StdRng;
use crate::app_state::{entities_of, owned_by, AppState, Lifecycle, LifecycleModel, Signal};
use crate::coin::{Controls, COIN_MAX_START_SPEED, COIN_MIN_START_SPEED};
use crate::coin_launch_ui::{reset_launch_speed, update_speed, CoinLaunchSpeedPercentage};
use crate::math::{fits_i64, lerp_spec, UNIT};
use crate::scores::Scores;
use crate::world::{tick, World, WorldModel};

verus! {

/// What reaches the game from outside during one update.
#[derive(Debug, Clone, Copy, PartialEq, Eq, Structural)]
pub struct Input {
    /// The steering keys and the boost key.
    pub controls: Controls,
    /// The confirm key went down in this update.
    pub confirm: bool,
    /// Every asset has been loaded.
    pub assets_ready: bool,
}

/// The whole game: its state with the tagged entities of the presentation,
/// the scores, the launch meter, and, while a flight lasts, its world.
#[derive(Debug)]
pub struct Game {
    pub lifecycle: Lifecycle,
    pub scores: Scores,
    pub launch_speed_percentage: CoinLaunchSpeedPercentage,
    pub world: Option<World>,
}

/// A [`Game`] as a mathematical value.
pub struct GameModel {
    pub lifecycle: LifecycleModel,
    pub scores: Scores,
    pub launch_speed_percentage: CoinLaunchSpeedPercentage,
    pub world: Option<WorldModel>,
}

impl View for Game {
    type V = GameModel;

    open spec fn view(&self) -> GameModel {
        GameModel {
            lifecycle: self.lifecycle@,
            scores: self.scores,
            launch_speed_percentage: self.launch_speed_percentage,
            world: match self.world {
                Some(world) => Some(world@),
                None => None,
            },
        }
    }
}

impl GameModel {
    /// The present state.
    pub open spec fn state(self) -> AppState {
        self.lifecycle.state
    }

    /// There is a world, and so a coin, exactly while a flight lasts.
    pub open spec fn wf(self) -> bool {
        (self.state() == AppState::Ingame) <==> (self.world is Some)
    }

    /// The launch meter after the systems of this update have run: it sweeps
    /// on while the coin waits to be launched, and rests otherwise.
    pub open spec fn meter(self, dt: int) -> int {
        if self.state() == AppState::CoinLaunch {
            self.launch_speed_percentage.advanced(dt)
        } else {
            self.launch_speed_percentage.0 as int
        }
    }

    /// The signal that the systems of the present state raise in an update.
    pub open spec fn signal(self, input: Input, dt: int) -> Option<Signal> {
        match self.state() {
            AppState::Loading => if input.assets_ready {
                Some(Signal::AssetsReady)
            } else {
                None
            },
            AppState::MainMenu | AppState::CoinLaunch | AppState::End => if input.confirm {
                Some(Signal::Confirm)
            } else {
                None
            },
            AppState::Ingame => if self.world is Some && self.world->0.lost(input.controls, dt) {
                Some(Signal::CoinLost)
            } else {
                None
            },
        }
    }

    /// The state after an update.
    pub open spec fn next_state(self, input: Input, dt: int) -> AppState {
        match self.signal(input, dt) {
            Some(signal) => self.state().after(signal),
            None => self.state(),
        }
    }

    /// The tagged entities after an update: swept where the state changes.
    pub open spec fn next_lifecycle(self, input: Input, dt: int) -> LifecycleModel {
        match self.signal(input, dt) {
            Some(signal) => self.lifecycle.signalled(signal),
            None => self.lifecycle,
        }
    }

    /// Every number that an update computes on the way can be held in the
    /// machine type that has to hold it.
    pub open spec fn updatable(self, input: Input, dt: int) -> bool {
        &&& self.state() == AppState::Ingame ==> self.world is Some && self.world->0.tickable(
            input.controls,
            dt,
        )
        &&& self.next_state(input, dt) == AppState::Ingame && self.state() != AppState::Ingame
            ==> fits_i64(
            lerp_spec(COIN_MIN_START_SPEED as int, COIN_MAX_START_SPEED as int, self.meter(dt)),
        )
    }

    /// The game is in order and far enough from the ends of the machine
    /// types for an update of `dt` milliseconds: while a flight lasts there
    /// is a world, and it is within its limits; otherwise there is none, and
    /// the launch meter shows a fraction.
    pub open spec fn limited(self, dt: int) -> bool {
        match self.world {
            Some(world) => self.state() == AppState::Ingame && world.limited(dt),
            None => self.state() != AppState::Ingame && self.launch_speed_percentage.wf(),
        }
    }

    /// `self` is what an update may have made of the game `before`.
    ///
    /// The state follows the signal of the update, and the entities of a
    /// state that is left are swept. The launch meter sweeps while the coin
    /// waits, and is put back to zero when that wait begins. While a flight
    /// goes on, its world is ticked. A flight that ends is scored exactly
    /// once, and its world is gone; a flight that begins gets a new world,
    /// launched at the speed of the meter. Nothing else changes.
    pub open spec fn follows(self, before: GameModel, input: Input, dt: int) -> bool {
        let next = before.next_state(input, dt);
        &&& self.lifecycle == before.next_lifecycle(input, dt)
        &&& self.launch_speed_percentage.0 == if next == AppState::CoinLaunch && before.state()
            != AppState::CoinLaunch {
            0
        } else {
            before.meter(dt)
        }
        &&& self.scores == if before.state() == AppState::Ingame && next == AppState::End
            && before.world is Some {
            before.scores.registered(
                before.world->0.coin.ticked(input.controls, dt).score() as i32,
            )
        } else {
            before.scores
        }
        &&& if next != AppState::Ingame {
            self.world is None
        } else if before.state() == AppState::Ingame {
            &&& self.world is Some
            &&& before.world is Some
            &&& self.world->0.grown_from(before.world->0.stepped(input.controls, dt))
        } else {
            self.world == Some(
                World::launched(CoinLaunchSpeedPercentage(before.meter(dt) as i64)),
            )
        }
    }
}

impl Game {
    /// The game before anything has happened: loading, nothing scored, the
    /// meter at zero, and no flight.
    pub fn new() -> (game: Game)
        ensures
            game@.lifecycle == LifecycleModel::initial(),
            game@.scores == (Scores { end_score: 0, best_score: 0, new_record: false }),
            game@.launch_speed_percentage.0 == 0,
            game@.world is None,
            game@.wf(),
    {
        Game {
            lifecycle: Lifecycle::new(),
            scores: Scores::default(),
            launch_speed_percentage: CoinLaunchSpeedPercentage(0),
            world: None,
        }
    }

    /// Tells whether the game is in order and within the limits inside which
    /// an update of `dt` milliseconds is sure to have room for its results,
    /// whatever reaches the game from outside.
    pub fn can_update(&self, dt: u32) -> (ok: bool)
        ensures
            ok == self@.limited(dt as int),
            ok ==> self@.wf() && forall|input: Input| #[trigger] self@.updatable(input, dt as int),
    {
        let meter_ok = 0 <= self.launch_speed_percentage.0 && self.launch_speed_percentage.0 <= UNIT;
        let ok = match &self.world {
            Some(world) => self.lifecycle.state == AppState::Ingame && world.within_limits(dt),
            None => self.lifecycle.state != AppState::Ingame && meter_ok,
        };
        proof {
            if ok {
                assert forall|input: Input| #[trigger] self@.updatable(input, dt as int) by {
                    if self@.state() != AppState::Ingame {
                        lemma_meter_launches(self.launch_speed_percentage, dt as int);
                    }
                }
            }
        }
        ok
    }

    /// Runs one update of `dt` milliseconds: the systems of the present
    /// state, and then, if they changed the state, teardown and setup. The
    /// identifiers of the entities that were swept are handed back so that
    /// the presentation can destroy what it drew for them. The random source
    /// is consulted only by the level generator of a flight, and only when a
    /// batch is due.
    pub fn update(&mut self, input: &Input, dt: u32, rng: &mut StdRng) -> (removed: Vec<u64>)
        requires
            old(self)@.wf(),
            old(self)@.updatable(*input, dt as int),
        ensures
            final(self)@.wf(),
            final(self)@.follows(old(self)@, *input, dt as int),
            final(self)@.state() == old(self)@.state() ==> removed@.len() == 0,
            final(self)@.state() != old(self)@.state() ==> removed@ == entities_of(
                old(self).lifecycle.entities@.filter(owned_by(old(self).lifecycle.state)),
            ),
            old(self)@.lifecycle.clean() ==> final(self)@.lifecycle.clean(),
            old(self)@.state() != AppState::Ingame ==> *final(rng) == *old(rng),
            old(self)@.world is Some && !old(self)@.world->0.stepped(
                input.controls,
                dt as int,
            ).batch_due() ==> *final(rng) == *old(rng),
    {
        let state = self.lifecycle.state;
        let mut world = self.world.take();
        let signal = match state {
            AppState::Loading => if input.assets_ready {
                Some(Signal::AssetsReady)
            } else {
                None
            },
            AppState::MainMenu => if input.confirm {
                Some(Signal::Confirm)
            } else {
                None
            },
            AppState::CoinLaunch => {
                update_speed(&mut self.launch_speed_percentage, dt);
                if input.confirm {
                    Some(Signal::Confirm)
                } else {
                    None
                }
            },
            AppState::Ingame => {
                let mut flight = world.unwrap();
                let signal = tick(&mut flight, &mut self.scores, &input.controls, dt, rng);
                world = Some(flight);
                signal
            },
            AppState::End => if input.confirm {
                Some(Signal::Confirm)
            } else {
                None
            },
        };
        assert(signal == old(self)@.signal(*input, dt as int));
        let removed = match signal {
            None => Vec::new(),
            Some(raised) => {
                let removed = self.lifecycle.handle(raised);
                match self.lifecycle.state {
                    AppState::CoinLaunch => {
                        world = None;
                        reset_launch_speed(&mut self.launch_speed_percentage);
                    },
                    AppState::Ingame => {
                        world = Some(World::new(&self.launch_speed_percentage));
                    },
                    _ => {
                        world = None;
                    },
                }
                removed
            },
        };
        self.world = world;
        removed
    }
}

/// A launch meter that shows a fraction keeps showing one as it sweeps, and
/// the launch speed it gives lies between the two start speeds.
pub proof fn lemma_meter_launches(meter: CoinLaunchSpeedPercentage, dt: int)
    requires
        meter.wf(),
        dt >= 0,
    ensures
        0 <= meter.advanced(dt) <= UNIT,
        COIN_MIN_START_SPEED <= lerp_spec(
            COIN_MIN_START_SPEED as int,
            COIN_MAX_START_SPEED as int,
            meter.advanced(dt),
        ) <= COIN_MAX_START_SPEED,
        COIN_MIN_START_SPEED <= lerp_spec(
            COIN_MIN_START_SPEED as int,
            COIN_MAX_START_SPEED as int,
            meter.0 as int,
        ) <= COIN_MAX_START_SPEED,
{
    let swept = meter.advanced(dt);
    assert(dt * 1_000 >= 0);
    assert(0 <= swept <= 1_000_000);
    assert((1_000_000 * swept) / 1_000_000 == swept) by (nonlinear_arith);
    assert((1_000_000 * (meter.0 as int)) / 1_000_000 == meter.0) by (nonlinear_arith);
}

} // verus!
