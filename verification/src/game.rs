//! The match: two clients, their skaters and goalies, the puck, the score
//! and the state that the match is in.

use crate::body::{resolve_collision, struck, Body, CollisionType};
use crate::field::{
    AFTER_GOAL_DELAY_MILLISECONDS, AFTER_GOT_STOLEN_COUNTER, AFTER_SHOOTING_COUNTER,
    CHARGE_DAMPING_PER_CENT, ENDING_DELAY_MILLISECONDS, GAME_DURATION_MILLISECONDS,
    GOALIE_HEAD_OFFSET, MINIMUM_DELTATIME_MILLISECONDS, SHOOTING_POWER, SKATE_TRACE_LENGTH,
    STARTING_DELAY_MILLISECONDS,
};
use crate::goalie::Goalie;
use crate::input::KeyCode;
use crate::orientation::{Orientation, Palette};
use crate::player::{lemma_skater_speed_capped, Player};
use crate::puck::{lemma_puck_speed_capped, lemma_skater_slower_than_puck, Puck};
use crate::types::{multiplied, GameSide, SystemTimeTick, Tick, Vector};
use crate::units::{scale, scaled, speed_sq, squared_length};
use vstd::prelude::*;

verus! {

/// `uuid::Uuid`, the identifier of a match. The library hands such a value
/// on and never looks into it.
#[verifier::external_type_specification]
#[verifier::external_body]
pub struct ExUuid(uuid::Uuid);

/// `uuid::Uuid::new_v4` makes an identifier from random bits: nothing is
/// claimed of the one it returns.
pub assume_specification[ uuid::Uuid::new_v4 ]() -> uuid::Uuid
;

/// What can go wrong around a step of the engine. The step itself has no
/// way to fail.
#[derive(Clone, Copy, PartialEq, Eq, Debug, Structural)]
pub enum EngineError {
    /// The frame of a client could not be drawn.
    Rendering,
}

/// The state that a match is in.
#[derive(Clone, Copy, PartialEq, Eq, Debug, Structural)]
pub enum GameState {
    /// The countdown before play, since `time`.
    Starting { time: Tick },
    /// Play.
    Running,
    /// The pause after the goal that `scored` shot at `time`.
    AfterGoal { time: Tick, scored: GameSide },
    /// The pause after the end of play at `time`.
    Ending { time: Tick },
}

/// One participant of a match, as the match knows it.
#[derive(Clone, Copy, Debug)]
pub struct Client {
    pub(crate) id: usize,
    pub(crate) is_connected: bool,
    pub(crate) palette: Palette,
}

impl Client {
    /// A client as it joins: connected, with the dark palette.
    pub open(crate) spec fn joined(id: usize) -> Client {
        Client { id, is_connected: true, palette: Palette::Dark }
    }

    pub open(crate) spec fn id_of(self) -> usize {
        self.id
    }

    pub open(crate) spec fn connected(self) -> bool {
        self.is_connected
    }

    pub open(crate) spec fn palette_of(self) -> Palette {
        self.palette
    }

    /// The client after it left.
    pub open(crate) spec fn gone(self) -> Client {
        Client { is_connected: false, ..self }
    }

    /// The client with the next palette.
    pub open(crate) spec fn repainted(self) -> Client {
        Client { palette: self.palette.following(), ..self }
    }

    pub fn new(id: usize) -> (r: Client)
        ensures
            r == Client::joined(id),
    {
        Client { id, is_connected: true, palette: Palette::Dark }
    }

    pub fn id(&self) -> (r: usize)
        ensures
            r == self.id_of(),
    {
        self.id
    }

    pub fn is_connected(&self) -> (r: bool)
        ensures
            r == self.connected(),
    {
        self.is_connected
    }

    pub fn palette(&self) -> (r: Palette)
        ensures
            r == self.palette_of(),
    {
        self.palette
    }
}

/// A match.
pub struct Game {
    pub(crate) red_client: Client,
    pub(crate) blue_client: Client,
    pub(crate) red_player: Player,
    pub(crate) blue_player: Player,
    pub(crate) red_goalie: Goalie,
    pub(crate) blue_goalie: Goalie,
    pub(crate) red_score: u8,
    pub(crate) blue_score: u8,
    pub(crate) puck: Puck,
    /// The head positions that the skaters passed most recently, oldest
    /// first.
    pub(crate) skate_traces: Vec<Vector>,
    pub(crate) id: uuid::Uuid,
    /// Milliseconds of play so far.
    pub(crate) timer: u128,
    /// When the last tick was processed.
    pub(crate) last_tick: Tick,
    /// Ticks per second, as the last tick gave it.
    pub(crate) fps: u32,
    pub(crate) state: GameState,
}

/// What a match is, with its trail as a sequence.
pub struct Match {
    pub red_client: Client,
    pub blue_client: Client,
    pub red_player: Player,
    pub blue_player: Player,
    pub red_goalie: Goalie,
    pub blue_goalie: Goalie,
    pub red_score: u8,
    pub blue_score: u8,
    pub puck: Puck,
    pub skate_traces: Seq<Vector>,
    pub id: uuid::Uuid,
    pub timer: u128,
    pub last_tick: Tick,
    pub fps: u32,
    pub state: GameState,
}

impl View for Game {
    type V = Match;

    open(crate) spec fn view(&self) -> Match {
        Match {
            red_client: self.red_client,
            blue_client: self.blue_client,
            red_player: self.red_player,
            blue_player: self.blue_player,
            red_goalie: self.red_goalie,
            blue_goalie: self.blue_goalie,
            red_score: self.red_score,
            blue_score: self.blue_score,
            puck: self.puck,
            skate_traces: self.skate_traces@,
            id: self.id,
            timer: self.timer,
            last_tick: self.last_tick,
            fps: self.fps,
            state: self.state,
        }
    }
}

/// Milliseconds from `since` to `now`; none where `now` is the earlier.
pub open spec fn elapsed(now: Tick, since: Tick) -> u128 {
    if now >= since {
        (now - since) as u128
    } else {
        0
    }
}

/// A score with one goal more; it stays at the largest number that it can
/// hold.
pub open spec fn one_more(score: u8) -> u8 {
    if score < u8::MAX {
        (score + 1) as u8
    } else {
        score
    }
}

impl Match {
    /// A match between the clients `red` and `blue` that is created at `now`
    /// with the identifier `id` and the puck `puck`.
    pub open(crate) spec fn opening(
        red: usize,
        blue: usize,
        id: uuid::Uuid,
        puck: Puck,
        now: Tick,
    ) -> Match {
        Match {
            red_client: Client::joined(red),
            blue_client: Client::joined(blue),
            red_player: Player::initial(GameSide::Red),
            blue_player: Player::initial(GameSide::Blue),
            red_goalie: Goalie::initial(GameSide::Red),
            blue_goalie: Goalie::initial(GameSide::Blue),
            red_score: 0,
            blue_score: 0,
            puck,
            skate_traces: Seq::empty(),
            id,
            timer: 0,
            last_tick: now,
            fps: 0,
            state: GameState::Starting { time: now },
        }
    }

    /// The skater of `side`.
    pub open spec fn player(self, side: GameSide) -> Player {
        match side {
            GameSide::Red => self.red_player,
            GameSide::Blue => self.blue_player,
        }
    }

    /// The side that the client `client_id` plays: Red for the red client,
    /// Blue for anyone else.
    pub open(crate) spec fn side_of(self, client_id: usize) -> GameSide {
        if self.red_client.id == client_id {
            GameSide::Red
        } else {
            GameSide::Blue
        }
    }

    /// The match with `player` as the skater of its side.
    pub open(crate) spec fn with_player(self, player: Player) -> Match {
        match player.side {
            GameSide::Red => Match { red_player: player, ..self },
            GameSide::Blue => Match { blue_player: player, ..self },
        }
    }

    /// Only the skater that holds the puck charges a shot.
    pub open(crate) spec fn charge_needs_puck(self) -> bool {
        &&& self.red_player.shooting_counter > 0 ==> self.puck.possession == Some(GameSide::Red)
        &&& self.blue_player.shooting_counter > 0 ==> self.puck.possession == Some(GameSide::Blue)
    }

    /// The invariant of a match.
    pub open(crate) spec fn wf(self) -> bool {
        &&& self.sound()
        &&& self.charge_needs_puck()
    }

    /// Every body of the match is valid and on its side, and the trail is
    /// within its length.
    pub open(crate) spec fn sound(self) -> bool {
        &&& self.red_player.wf()
        &&& self.red_player.side == GameSide::Red
        &&& self.blue_player.wf()
        &&& self.blue_player.side == GameSide::Blue
        &&& self.red_goalie.wf()
        &&& self.red_goalie.side == GameSide::Red
        &&& self.blue_goalie.wf()
        &&& self.blue_goalie.side == GameSide::Blue
        &&& self.puck.wf()
        &&& self.skate_traces.len() <= SKATE_TRACE_LENGTH
    }

    /// Both clients have left.
    pub open(crate) spec fn over(self) -> bool {
        !self.red_client.is_connected && !self.blue_client.is_connected
    }

    /// Both clients are connected.
    pub open(crate) spec fn running(self) -> bool {
        self.red_client.is_connected && self.blue_client.is_connected
    }

    /// The match after the client of `side` left.
    pub open(crate) spec fn without(self, side: GameSide) -> Match {
        match side {
            GameSide::Red => Match { red_client: self.red_client.gone(), ..self },
            GameSide::Blue => Match { blue_client: self.blue_client.gone(), ..self },
        }
    }

    /// The match after the client of `side` asked for the next palette.
    pub open(crate) spec fn repainted(self, side: GameSide) -> Match {
        match side {
            GameSide::Red => Match { red_client: self.red_client.repainted(), ..self },
            GameSide::Blue => Match { blue_client: self.blue_client.repainted(), ..self },
        }
    }

    /// The match after the skater of `side` got the key `key` during play.
    /// While it charges a shot, the key moves the aim. Else the space bar
    /// starts a charge where the skater holds the puck and is not cooling
    /// down from a shot, which slows skater and puck; any other key, and the
    /// space bar during the cooldown, steers.
    pub open(crate) spec fn played(self, side: GameSide, key: KeyCode) -> Match {
        let player = self.player(side);
        if player.shooting_counter > 0 {
            self.with_player(player.aimed(key))
        } else if key == KeyCode::Char(' ') && player.after_shooting_counter == 0 {
            if self.puck.possession == Some(player.side) {
                let v = self.puck.velocity;
                Match {
                    puck: self.puck.launched(
                        (
                            scaled(v.0 as int, CHARGE_DAMPING_PER_CENT as int, 100),
                            scaled(v.1 as int, CHARGE_DAMPING_PER_CENT as int, 100),
                        ),
                    ),
                    ..self.with_player(player.charging())
                }
            } else {
                self
            }
        } else {
            self.with_player(player.steered(key))
        }
    }

    /// The match after the client `client_id` pressed `key`. Escape
    /// disconnects the client and `p` changes its palette, in any state;
    /// other keys count only during play.
    pub open(crate) spec fn after_input(self, client_id: usize, key: KeyCode) -> Match {
        let side = self.side_of(client_id);
        if key == KeyCode::Esc {
            self.without(side)
        } else if key == KeyCode::Char('p') {
            self.repainted(side)
        } else if self.state != GameState::Running {
            self
        } else {
            self.played(side, key)
        }
    }

    /// Whole seconds of play that are left.
    pub open(crate) spec fn seconds_left(self) -> u128 {
        if self.timer > GAME_DURATION_MILLISECONDS {
            0
        } else {
            ((GAME_DURATION_MILLISECONDS - self.timer) / 1000) as u128
        }
    }
}

/// The last `SKATE_TRACE_LENGTH` points of a trail.
pub open spec fn latest(trail: Seq<Vector>) -> Seq<Vector> {
    if trail.len() > SKATE_TRACE_LENGTH {
        trail.subrange(trail.len() - SKATE_TRACE_LENGTH, trail.len() as int)
    } else {
        trail
    }
}

/// The goalie after it followed its skater: its top is a fixed offset above
/// the skater's head, as far as its band allows, and it has the skater's
/// vertical velocity.
pub open(crate) spec fn following(goalie: Goalie, player: Player) -> Goalie {
    goalie.placed_at(
        (goalie.position.0, (player.head().1 - GOALIE_HEAD_OFFSET) as i64),
    ).moving_at(player.velocity)
}

/// What the collision tests between a skater and the two goalies make of
/// them. The skater's tight hitbox is tested against the loose one of its own
/// goalie, then its loose hitbox against the tight one of that goalie, then
/// the same with the other goalie; the first test that finds an overlap
/// applies the collision rule, and no further test is made.
pub open(crate) spec fn met_goalies(player: Player, own: Goalie, other: Goalie) -> (
    bool,
    Player,
    Goalie,
    Goalie,
) {
    let first = struck(player, own, CollisionType::Minimal, CollisionType::Full);
    let second = struck(player, own, CollisionType::Full, CollisionType::Minimal);
    let third = struck(player, other, CollisionType::Minimal, CollisionType::Full);
    let fourth = struck(player, other, CollisionType::Full, CollisionType::Minimal);
    if first.0 {
        (true, first.1, first.2, other)
    } else if second.0 {
        (true, second.1, second.2, other)
    } else if third.0 {
        (true, third.1, own, third.2)
    } else if fourth.0 {
        (true, fourth.1, own, fourth.2)
    } else {
        (false, player, own, other)
    }
}

/// The duration `deltatime` as the bodies take it: at most what 64 bits
/// hold.
pub open spec fn motion_millis(deltatime: u128) -> u64 {
    if deltatime > u64::MAX {
        u64::MAX
    } else {
        deltatime as u64
    }
}

impl Match {
    /// The match after every body moved for `millis` milliseconds on its
    /// own and the goalies followed their skaters.
    #[verifier::opaque]
    pub open(crate) spec fn moved(self, millis: u64) -> Match {
        let red = self.red_player.stepped(millis);
        let blue = self.blue_player.stepped(millis);
        Match {
            red_player: red,
            red_goalie: following(self.red_goalie, red),
            blue_player: blue,
            blue_goalie: following(self.blue_goalie, blue),
            puck: self.puck.stepped(millis),
            ..self
        }
    }

    /// The match after the collision test between the skaters. Where they
    /// collide, both get their new velocities and are put back to where
    /// `before` has them.
    #[verifier::opaque]
    pub open(crate) spec fn skaters_met(self, before: Match) -> Match {
        let met = struck(
            self.red_player,
            self.blue_player,
            CollisionType::Minimal,
            CollisionType::Minimal,
        );
        if met.0 {
            Match {
                red_player: met.1.sent_back(
                    before.red_player.orientation,
                    before.red_player.position,
                ),
                blue_player: met.2.sent_back(
                    before.blue_player.orientation,
                    before.blue_player.position,
                ),
                ..self
            }
        } else {
            self
        }
    }

    /// The match after the collision tests between the skater of `side` and
    /// the goalies. Where it collides with one, it is put back to where
    /// `before` has it, and stands still.
    #[verifier::opaque]
    pub open(crate) spec fn skater_met_goalies(self, side: GameSide, before: Match) -> Match {
        match side {
            GameSide::Red => {
                let met = met_goalies(self.red_player, self.red_goalie, self.blue_goalie);
                if met.0 {
                    Match {
                        red_player: met.1.sent_back(
                            before.red_player.orientation,
                            before.red_player.position,
                        ).moving((0, 0)),
                        red_goalie: met.2,
                        blue_goalie: met.3,
                        ..self
                    }
                } else {
                    self
                }
            },
            GameSide::Blue => {
                let met = met_goalies(self.blue_player, self.blue_goalie, self.red_goalie);
                if met.0 {
                    Match {
                        blue_player: met.1.sent_back(
                            before.blue_player.orientation,
                            before.blue_player.position,
                        ).moving((0, 0)),
                        blue_goalie: met.2,
                        red_goalie: met.3,
                        ..self
                    }
                } else {
                    self
                }
            },
        }
    }

    /// The match after the trail took the head of each skater that is not
    /// where `before` has it, Red's first, and dropped its oldest points
    /// beyond its length.
    #[verifier::opaque]
    pub open(crate) spec fn traced(self, before: Match) -> Match {
        let first = if self.red_player.position != before.red_player.position {
            self.skate_traces.push(self.red_player.head_point())
        } else {
            self.skate_traces
        };
        let second = if self.blue_player.position != before.blue_player.position {
            first.push(self.blue_player.head_point())
        } else {
            first
        };
        Match { skate_traces: latest(second), ..self }
    }

    /// The match after the collision tests between the puck and the goalies,
    /// the red one first. The goalie that the puck meets counts a save, and
    /// the puck, with its new velocity, is put back to where `before` has
    /// it.
    #[verifier::opaque]
    pub open(crate) spec fn puck_met_goalies(self, before: Match) -> Match {
        let red = struck(
            self.puck,
            self.red_goalie,
            CollisionType::Minimal,
            CollisionType::Minimal,
        );
        let blue = struck(
            self.puck,
            self.blue_goalie,
            CollisionType::Minimal,
            CollisionType::Minimal,
        );
        if red.0 {
            Match {
                puck: red.1.placed(before.puck.position),
                red_goalie: red.2.with_save(),
                ..self
            }
        } else if blue.0 {
            Match {
                puck: blue.1.placed(before.puck.position),
                blue_goalie: blue.2.with_save(),
                ..self
            }
        } else {
            self
        }
    }

    /// The match after the collision tests between the puck and the skaters,
    /// the red one first: where the puck meets one, no further test is made,
    /// and the puck, with its new velocity, is put back to where `before`
    /// has it.
    #[verifier::opaque]
    pub open(crate) spec fn puck_met_skaters(self, before: Match) -> Match {
        let red = struck(
            self.puck,
            self.red_player,
            CollisionType::Minimal,
            CollisionType::Minimal,
        );
        let blue = struck(
            self.puck,
            self.blue_player,
            CollisionType::Minimal,
            CollisionType::Minimal,
        );
        if red.0 {
            Match { puck: red.1.placed(before.puck.position), red_player: red.2, ..self }
        } else if blue.0 {
            Match { puck: blue.1.placed(before.puck.position), blue_player: blue.2, ..self }
        } else {
            self
        }
    }

    /// The match after the goal that `side` shot at `now`.
    pub open(crate) spec fn goal(self, side: GameSide, now: Tick) -> Match {
        match side {
            GameSide::Red => Match {
                red_score: one_more(self.red_score),
                state: GameState::AfterGoal { time: now, scored: GameSide::Red },
                ..self
            },
            GameSide::Blue => Match {
                blue_score: one_more(self.blue_score),
                state: GameState::AfterGoal { time: now, scored: GameSide::Blue },
                ..self
            },
        }
    }

    /// The side that holds the puck after the rules of possession are
    /// applied. A held puck goes to the other side where its skater can
    /// steal it. A free puck goes to the skater that can catch it; where
    /// both can, to the faster one, and to nobody where they are equally
    /// fast.
    pub open(crate) spec fn next_holder(self) -> Option<GameSide> {
        match self.puck.possession {
            Some(GameSide::Red) => if self.puck.stealable_by(self.blue_player) {
                Some(GameSide::Blue)
            } else {
                Some(GameSide::Red)
            },
            Some(GameSide::Blue) => if self.puck.stealable_by(self.red_player) {
                Some(GameSide::Red)
            } else {
                Some(GameSide::Blue)
            },
            None => {
                let red = self.puck.catchable_by(self.red_player);
                let blue = self.puck.catchable_by(self.blue_player);
                if red && blue {
                    if speed_sq(self.red_player.velocity) > speed_sq(self.blue_player.velocity) {
                        Some(GameSide::Red)
                    } else if speed_sq(self.blue_player.velocity) > speed_sq(
                        self.red_player.velocity,
                    ) {
                        Some(GameSide::Blue)
                    } else {
                        None
                    }
                } else if red {
                    Some(GameSide::Red)
                } else if blue {
                    Some(GameSide::Blue)
                } else {
                    None
                }
            },
        }
    }

    /// The match after the rules of possession are applied: the puck has its
    /// next holder, and a skater that lost the puck has to wait before it
    /// can steal.
    #[verifier::opaque]
    pub open(crate) spec fn possession_settled(self) -> Match {
        let next = self.next_holder();
        let stolen = self.puck.possession is Some && next != self.puck.possession;
        Match {
            puck: self.puck.held_by(next),
            red_player: if stolen && next == Some(GameSide::Blue) {
                self.red_player.robbed()
            } else {
                self.red_player
            },
            blue_player: if stolen && next == Some(GameSide::Red) {
                self.blue_player.robbed()
            } else {
                self.blue_player
            },
            ..self
        }
    }

    /// The match after the puck followed its holder for `deltatime`
    /// milliseconds. A holder that charges a shot charges on; when the
    /// charge is over the shot leaves: the puck is free and has the velocity
    /// of the shot. A holder that does not charge has the puck on its stick.
    /// The other skater charges no shot.
    #[verifier::opaque]
    pub open(crate) spec fn puck_carried(self, deltatime: u128) -> Match {
        match self.puck.possession {
            None => self,
            Some(side) => {
                let holder = self.player(side);
                let other = self.player(side.opponent());
                if holder.shooting_counter > 0 {
                    if deltatime >= holder.shooting_counter {
                        Match {
                            puck: self.puck.held_by(None).launched(holder.shot_velocity()),
                            ..self.with_player(holder.released()).with_player(other.disarmed())
                        }
                    } else {
                        self.with_player(holder.charged_on(deltatime)).with_player(
                            other.disarmed(),
                        )
                    }
                } else {
                    Match {
                        puck: self.puck.attached(holder),
                        ..self.with_player(other.disarmed())
                    }
                }
            },
        }
    }

    /// The match as it is when the collisions of a tick of play are
    /// resolved, before goals and possession are looked at.
    pub open(crate) spec fn collided(self, deltatime: u128) -> Match {
        self.moved(motion_millis(deltatime)).skaters_met(self).skater_met_goalies(
            GameSide::Red,
            self,
        ).skater_met_goalies(GameSide::Blue, self).traced(self).puck_met_goalies(
            self,
        ).puck_met_skaters(self)
    }

    /// The match after one tick of play of `deltatime` milliseconds that
    /// ends at `now`.
    pub open(crate) spec fn after_tick(self, deltatime: u128, now: Tick) -> Match {
        let collided = self.collided(deltatime);
        match collided.puck.scorer() {
            Some(side) => collided.goal(side, now),
            None => collided.possession_settled().puck_carried(deltatime),
        }
    }

    /// A shot leaves the stick in the tick of play of `deltatime`
    /// milliseconds.
    pub open(crate) spec fn shot_leaves(self, deltatime: u128) -> bool {
        let settled = self.collided(deltatime).possession_settled();
        &&& self.collided(deltatime).puck.scorer() is None
        &&& settled.puck.possession matches Some(side)
        &&& settled.player(side).shooting_counter > 0
        &&& deltatime >= settled.player(side).shooting_counter
    }

    /// The play time after `deltatime` more milliseconds; it stays at the
    /// largest number that it can hold.
    pub open(crate) spec fn timer_after(self, deltatime: u128) -> u128 {
        if self.timer + deltatime > u128::MAX {
            u128::MAX
        } else {
            (self.timer + deltatime) as u128
        }
    }

    /// The match after play resumes at `now` with the puck `entering`: the
    /// skaters are what new skaters of their sides are, the trail is empty,
    /// and the countdown starts.
    pub open(crate) spec fn restarted(self, now: Tick, entering: Puck) -> Match {
        Match {
            red_player: Player::initial(self.red_player.side),
            blue_player: Player::initial(self.blue_player.side),
            puck: entering,
            state: GameState::Starting { time: now },
            skate_traces: Seq::empty(),
            ..self
        }
    }

    /// The match with both sessions closed.
    pub open(crate) spec fn closed(self) -> Match {
        Match { red_client: self.red_client.gone(), blue_client: self.blue_client.gone(), ..self }
    }

    /// The match after the step that its state asks for, `deltatime`
    /// milliseconds after the last one, at `now`.
    pub open(crate) spec fn stepped(self, deltatime: u128, now: Tick, entering: Puck) -> Match {
        match self.state {
            GameState::Starting { time } => if elapsed(now, time) >= STARTING_DELAY_MILLISECONDS {
                Match { state: GameState::Running, ..self }
            } else {
                self
            },
            GameState::Running => {
                let played = self.after_tick(deltatime, now);
                let timer = played.timer_after(deltatime);
                Match {
                    timer,
                    state: if timer > GAME_DURATION_MILLISECONDS {
                        GameState::Ending { time: now }
                    } else {
                        played.state
                    },
                    ..played
                }
            },
            GameState::AfterGoal { time, scored } => if elapsed(now, time)
                >= AFTER_GOAL_DELAY_MILLISECONDS {
                self.restarted(now, entering)
            } else {
                self
            },
            GameState::Ending { time } => if elapsed(now, time) >= ENDING_DELAY_MILLISECONDS {
                self.closed()
            } else {
                self
            },
        }
    }

    /// The match after an update at `now`. Less than the minimum interval
    /// after the last processed tick nothing changes. Else the match takes
    /// the step that its state asks for, and notes the tick and its rate.
    /// `entering` is the puck that play resumes with if it resumes.
    pub open(crate) spec fn after_update(self, now: Tick, entering: Puck) -> Match {
        let deltatime = elapsed(now, self.last_tick);
        if deltatime < MINIMUM_DELTATIME_MILLISECONDS {
            self
        } else {
            Match {
                fps: (1000int / (deltatime as int)) as u32,
                last_tick: now,
                ..self.stepped(deltatime, now, entering)
            }
        }
    }

    /// An update at `now`, with `entering` as the puck that play resumes
    /// with, makes `next` of the match. After a tick of play both skaters
    /// are within the rink and within their speed limit, and the puck is
    /// within the rink; it is within its speed limit too, unless a shot
    /// leaves in this tick.
    pub open(crate) spec fn updates_to(self, next: Match, now: Tick, entering: Puck) -> bool {
        &&& next == self.after_update(now, entering)
        &&& next.wf()
        &&& self.ticks(now) ==> next.skaters_tidy() && next.puck.in_field()
        &&& self.ticks(now) && !self.shot_leaves(elapsed(now, self.last_tick))
            ==> next.puck.within_speed_limit()
    }

    /// An update at `now` plays a tick: the match is in play, and the
    /// minimum interval since the last processed tick is over.
    pub open(crate) spec fn ticks(self, now: Tick) -> bool {
        &&& self.state == GameState::Running
        &&& elapsed(now, self.last_tick) >= MINIMUM_DELTATIME_MILLISECONDS
    }

    /// Both skaters and the puck are within the rink.
    pub open(crate) spec fn all_in_field(self) -> bool {
        &&& self.red_player.in_field()
        &&& self.blue_player.in_field()
        &&& self.puck.in_field()
    }

    /// Both skaters are within the rink and within their speed limit.
    pub open(crate) spec fn skaters_tidy(self) -> bool {
        &&& self.red_player.in_field()
        &&& self.blue_player.in_field()
        &&& self.red_player.within_speed_limit()
        &&& self.blue_player.within_speed_limit()
    }

    /// The puck is within the rink and within its speed limit.
    pub open(crate) spec fn puck_tidy(self) -> bool {
        &&& self.puck.in_field()
        &&& self.puck.within_speed_limit()
    }

    /// Who charges a shot for how long, and who holds the puck.
    pub open(crate) spec fn charges(self) -> (u128, u128, Option<GameSide>) {
        (self.red_player.shooting_counter, self.blue_player.shooting_counter, self.puck.possession)
    }

    /// Nobody charges a shot while the puck is free.
    pub open(crate) spec fn free_puck_uncharged(self) -> bool {
        self.puck.possession is None ==> self.red_player.shooting_counter == 0
            && self.blue_player.shooting_counter == 0
    }

    /// What a tick of play does not touch but by a goal: the clients, the
    /// identifier, the play time, the time of the last tick and the state.
    pub open(crate) spec fn frame(self) -> (Client, Client, uuid::Uuid, u128, Tick, GameState) {
        (self.red_client, self.blue_client, self.id, self.timer, self.last_tick, self.state)
    }

    /// What the collisions of a tick of play do not touch: the sides of the
    /// skaters, how much of a charge each has left, who holds the puck, and
    /// the score.
    pub open(crate) spec fn standing(self) -> (
        GameSide,
        GameSide,
        u128,
        u128,
        Option<GameSide>,
        u8,
        u8,
    ) {
        (
            self.red_player.side,
            self.blue_player.side,
            self.red_player.shooting_counter,
            self.blue_player.shooting_counter,
            self.puck.possession,
            self.red_score,
            self.blue_score,
        )
    }

    /// The score of `side`.
    pub open spec fn score_of(self, side: GameSide) -> u8 {
        match side {
            GameSide::Red => self.red_score,
            GameSide::Blue => self.blue_score,
        }
    }

    /// The side that catches a free puck: the skater that can catch it;
    /// of two that can, the faster one, and nobody where they are equally
    /// fast.
    pub open(crate) spec fn catcher(self) -> Option<GameSide> {
        let red = self.puck.catchable_by(self.red_player);
        let blue = self.puck.catchable_by(self.blue_player);
        let red_speed = speed_sq(self.red_player.velocity);
        let blue_speed = speed_sq(self.blue_player.velocity);
        if red && blue {
            if red_speed > blue_speed {
                Some(GameSide::Red)
            } else if blue_speed > red_speed {
                Some(GameSide::Blue)
            } else {
                None
            }
        } else if red {
            Some(GameSide::Red)
        } else if blue {
            Some(GameSide::Blue)
        } else {
            None
        }
    }

    /// The match with the skaters `red` and `blue` and the puck `puck` in
    /// place of its own.
    pub open(crate) spec fn with_bodies(self, red: Player, blue: Player, puck: Puck) -> Match {
        Match { red_player: red, blue_player: blue, puck, ..self }
    }
}

/// The puck changes hands only between opponents: when the rules of
/// possession are applied to a held puck, either its holder keeps it, or it
/// goes to the other side, whose skater could steal it.
pub proof fn lemma_steal_takes_from_the_opponent(game: Match)
    requires
        game.puck.holder() is Some,
    ensures
        ({
            let holder = game.puck.holder()->0;
            let next = game.possession_settled().puck.holder();
            next == Some(holder) || (next == Some(holder.opponent()) && game.puck.stealable_by(
                game.player(holder.opponent()),
            ))
        }),
{
    reveal(Match::possession_settled);
}

/// A free puck goes to a skater that could catch it, or stays free.
pub proof fn lemma_catch_needs_reach(game: Match)
    requires
        game.puck.holder() is None,
    ensures
        game.possession_settled().puck.holder() matches Some(side) ==> game.puck.catchable_by(
            game.player(side),
        ),
{
    reveal(Match::possession_settled);
}

/// An update that follows a processed one by less than the minimum interval
/// changes nothing.
pub proof fn lemma_early_update_changes_nothing(
    game: Match,
    now: Tick,
    entering: Puck,
    again: Tick,
    other: Puck,
)
    requires
        elapsed(now, game.last_tick) >= MINIMUM_DELTATIME_MILLISECONDS,
        elapsed(again, now) < MINIMUM_DELTATIME_MILLISECONDS,
    ensures
        game.after_update(now, entering).after_update(again, other) == game.after_update(
            now,
            entering,
        ),
{
}

/// An update within the minimum interval after the last processed tick
/// changes nothing, whatever the state.
pub proof fn lemma_throttled_update(game: Match, now: Tick, entering: Puck)
    requires
        elapsed(now, game.last_tick) < MINIMUM_DELTATIME_MILLISECONDS,
    ensures
        game.after_update(now, entering) == game,
{
}

/// The countdown ends at the first processed update that comes the
/// starting delay after its begin, and not before.
pub proof fn lemma_countdown_ends(game: Match, now: Tick, entering: Puck)
    requires
        game.state matches GameState::Starting { .. },
        elapsed(now, game.last_tick) >= MINIMUM_DELTATIME_MILLISECONDS,
    ensures
        ({
            let since = game.state->Starting_time;
            game.after_update(now, entering).state == if elapsed(now, since)
                >= STARTING_DELAY_MILLISECONDS {
                GameState::Running
            } else {
                game.state
            }
        }),
{
}

/// No part of a tick of play touches the clients, the identifier, the play
/// time, the time of the last tick or the state.
proof fn lemma_parts_keep_the_frame(game: Match, before: Match, millis: u64, deltatime: u128)
    ensures
        game.moved(millis).frame() == game.frame(),
        game.skaters_met(before).frame() == game.frame(),
        game.skater_met_goalies(GameSide::Red, before).frame() == game.frame(),
        game.skater_met_goalies(GameSide::Blue, before).frame() == game.frame(),
        game.traced(before).frame() == game.frame(),
        game.puck_met_goalies(before).frame() == game.frame(),
        game.puck_met_skaters(before).frame() == game.frame(),
        game.possession_settled().frame() == game.frame(),
        game.puck_carried(deltatime).frame() == game.frame(),
{
    assert(game.moved(millis).frame() == game.frame()) by {
        reveal(Match::moved);
    }
    assert(game.skaters_met(before).frame() == game.frame()) by {
        reveal(Match::skaters_met);
    }
    assert(game.skater_met_goalies(GameSide::Red, before).frame() == game.frame()) by {
        reveal(Match::skater_met_goalies);
    }
    assert(game.skater_met_goalies(GameSide::Blue, before).frame() == game.frame()) by {
        reveal(Match::skater_met_goalies);
    }
    assert(game.traced(before).frame() == game.frame()) by {
        reveal(Match::traced);
    }
    assert(game.puck_met_goalies(before).frame() == game.frame()) by {
        reveal(Match::puck_met_goalies);
    }
    assert(game.puck_met_skaters(before).frame() == game.frame()) by {
        reveal(Match::puck_met_skaters);
    }
    assert(game.possession_settled().frame() == game.frame()) by {
        reveal(Match::possession_settled);
    }
    assert(game.puck_carried(deltatime).frame() == game.frame()) by {
        reveal(Match::puck_carried);
    }
}

/// A tick of play leaves the clients, the identifier, the play time and the
/// time of the last tick as they are, and changes the state only by a goal.
pub proof fn lemma_tick_keeps_the_frame(game: Match, deltatime: u128, now: Tick)
    ensures
        ({
            let next = game.after_tick(deltatime, now);
            &&& next.red_client == game.red_client
            &&& next.blue_client == game.blue_client
            &&& next.id == game.id
            &&& next.timer == game.timer
            &&& next.last_tick == game.last_tick
            &&& next.state == game.state || next.state matches GameState::AfterGoal { .. }
        }),
{
    let millis = motion_millis(deltatime);
    let a = game.moved(millis);
    let b = a.skaters_met(game);
    let c = b.skater_met_goalies(GameSide::Red, game);
    let d = c.skater_met_goalies(GameSide::Blue, game);
    let e = d.traced(game);
    let f = e.puck_met_goalies(game);
    let g = f.puck_met_skaters(game);
    let h = g.possession_settled();
    lemma_parts_keep_the_frame(game, game, millis, deltatime);
    lemma_parts_keep_the_frame(a, game, millis, deltatime);
    lemma_parts_keep_the_frame(b, game, millis, deltatime);
    lemma_parts_keep_the_frame(c, game, millis, deltatime);
    lemma_parts_keep_the_frame(d, game, millis, deltatime);
    lemma_parts_keep_the_frame(e, game, millis, deltatime);
    lemma_parts_keep_the_frame(f, game, millis, deltatime);
    lemma_parts_keep_the_frame(g, game, millis, deltatime);
    lemma_parts_keep_the_frame(h, game, millis, deltatime);
    assert(g == game.collided(deltatime));
}

/// Play ends with the first tick that brings the play time beyond the
/// duration of a match, whatever else happens in that tick.
pub proof fn lemma_play_ends_when_time_is_up(game: Match, now: Tick, entering: Puck)
    requires
        game.ticks(now),
    ensures
        ({
            let next = game.after_update(now, entering);
            let timer = game.timer_after(elapsed(now, game.last_tick));
            &&& next.timer == timer
            &&& timer > GAME_DURATION_MILLISECONDS ==> next.state == (GameState::Ending {
                time: now,
            })
            &&& timer <= GAME_DURATION_MILLISECONDS ==> !(next.state matches GameState::Ending {
                ..
            })
        }),
{
    lemma_tick_keeps_the_frame(game, elapsed(now, game.last_tick), now);
}

/// The bodies' own motion touches neither the sides of the skaters, nor
/// their charges, nor the holder of the puck, nor the score.
proof fn lemma_motion_keeps_the_standing(game: Match, millis: u64)
    ensures
        game.moved(millis).standing() == game.standing(),
{
    reveal(Match::moved);
}

/// Nor does the collision test between the skaters.
proof fn lemma_skaters_keep_the_standing(game: Match, before: Match)
    ensures
        game.skaters_met(before).standing() == game.standing(),
{
    reveal(Match::skaters_met);
}

/// Nor do the collision tests between a skater and the goalies.
proof fn lemma_goalies_keep_the_standing(game: Match, side: GameSide, before: Match)
    ensures
        game.skater_met_goalies(side, before).standing() == game.standing(),
{
    reveal(Match::skater_met_goalies);
}

/// Nor does the trail.
proof fn lemma_trail_keeps_the_standing(game: Match, before: Match)
    ensures
        game.traced(before).standing() == game.standing(),
{
    reveal(Match::traced);
}

/// Nor do the collision tests between the puck and the goalies.
proof fn lemma_saves_keep_the_standing(game: Match, before: Match)
    ensures
        game.puck_met_goalies(before).standing() == game.standing(),
{
    reveal(Match::puck_met_goalies);
}

/// Nor do the collision tests between the puck and the skaters.
proof fn lemma_puck_keeps_the_standing(game: Match, before: Match)
    ensures
        game.puck_met_skaters(before).standing() == game.standing(),
{
    reveal(Match::puck_met_skaters);
}

/// The motion and the collisions of a tick of play leave each skater on its
/// side, and change neither how much of a charge a skater has left, nor who
/// holds the puck, nor the score.
pub proof fn lemma_collisions_keep_the_standing(game: Match, deltatime: u128)
    ensures
        ({
            let collided = game.collided(deltatime);
            &&& collided.red_player.side_of() == game.red_player.side_of()
            &&& collided.blue_player.side_of() == game.blue_player.side_of()
            &&& collided.red_player.charge_left() == game.red_player.charge_left()
            &&& collided.blue_player.charge_left() == game.blue_player.charge_left()
            &&& collided.puck.holder() == game.puck.holder()
            &&& collided.red_score == game.red_score
            &&& collided.blue_score == game.blue_score
        }),
{
    let millis = motion_millis(deltatime);
    let a = game.moved(millis);
    let b = a.skaters_met(game);
    let c = b.skater_met_goalies(GameSide::Red, game);
    let d = c.skater_met_goalies(GameSide::Blue, game);
    let e = d.traced(game);
    let f = e.puck_met_goalies(game);
    let g = f.puck_met_skaters(game);
    lemma_motion_keeps_the_standing(game, millis);
    lemma_skaters_keep_the_standing(a, game);
    lemma_goalies_keep_the_standing(b, GameSide::Red, game);
    lemma_goalies_keep_the_standing(c, GameSide::Blue, game);
    lemma_trail_keeps_the_standing(d, game);
    lemma_saves_keep_the_standing(e, game);
    lemma_puck_keeps_the_standing(f, game);
    assert(g == game.collided(deltatime));
    assert(g.standing() == game.standing());
}

/// A goal in a tick of play: where the puck, after the motion and the
/// collisions of the tick, is in a goal, the side that scored has one goal
/// more and the other side as many as before, the match pauses, and
/// skaters, goalies and puck stay as the collisions left them: who holds the
/// puck is not looked at in this tick.
pub proof fn lemma_goal_in_a_tick(game: Match, deltatime: u128, now: Tick)
    requires
        game.collided(deltatime).puck.scorer() is Some,
    ensures
        ({
            let collided = game.collided(deltatime);
            let side = collided.puck.scorer()->0;
            let next = game.after_tick(deltatime, now);
            &&& next.state == (GameState::AfterGoal { time: now, scored: side })
            &&& next.score_of(side) == one_more(game.score_of(side))
            &&& next.score_of(side.opponent()) == game.score_of(side.opponent())
            &&& next.red_player == collided.red_player
            &&& next.blue_player == collided.blue_player
            &&& next.red_goalie == collided.red_goalie
            &&& next.blue_goalie == collided.blue_goalie
            &&& next.puck == collided.puck
            &&& next.skate_traces == collided.skate_traces
        }),
{
    lemma_collisions_keep_the_standing(game, deltatime);
}

/// A steal in a tick of play without a goal. A puck that is held at the
/// begin of the tick goes to the other side if and only if the skater of
/// that side can steal it after the motion and the collisions of the tick.
/// The skater that lost it then has to wait before it can steal, and
/// charges no shot. Where nobody steals, the holder keeps the puck, unless
/// its charge runs out in this tick and the shot leaves.
pub proof fn lemma_steal_in_a_tick(game: Match, deltatime: u128, now: Tick)
    requires
        game.wf(),
        game.puck.holder() is Some,
        game.collided(deltatime).puck.scorer() is None,
    ensures
        ({
            let holder = game.puck.holder()->0;
            let thief = holder.opponent();
            let collided = game.collided(deltatime);
            let next = game.after_tick(deltatime, now);
            let steals = collided.puck.stealable_by(collided.player(thief));
            let shoots = 0 < collided.player(holder).charge_left() <= deltatime;
            &&& steals <==> next.puck.holder() == Some(thief)
            &&& steals ==> next.player(holder).steal_cooldown() == AFTER_GOT_STOLEN_COUNTER
            &&& steals ==> next.player(holder).charge_left() == 0
            &&& !steals && shoots ==> next.puck.holder() is None
            &&& !steals && !shoots ==> next.puck.holder() == Some(holder)
        }),
{
    lemma_collisions_keep_the_standing(game, deltatime);
    reveal(Match::possession_settled);
    reveal(Match::puck_carried);
}

/// A catch in a tick of play without a goal. A puck that is free at the
/// begin of the tick goes to the skater that can catch it after the motion
/// and the collisions of the tick; where both can, to the faster one, and
/// to nobody where they are equally fast. The puck that is caught is on the
/// stick of the skater that caught it: at its catcher point, as far as the
/// rink allows, and with its velocity. A puck that nobody catches stays as
/// the collisions left it.
pub proof fn lemma_catch_in_a_tick(game: Match, deltatime: u128, now: Tick)
    requires
        game.wf(),
        game.puck.holder() is None,
        game.collided(deltatime).puck.scorer() is None,
    ensures
        ({
            let collided = game.collided(deltatime);
            let next = game.after_tick(deltatime, now);
            &&& next.puck.holder() == collided.catcher()
            &&& collided.catcher() matches Some(side) ==> next.puck == collided.puck.held_by(
                Some(side),
            ).attached(collided.player(side))
            &&& collided.catcher() matches Some(side) ==> next.puck.velocity_of()
                == collided.player(side).velocity_of()
            &&& collided.catcher() is None ==> next.puck == collided.puck
            &&& next.red_player == collided.red_player
            &&& next.blue_player == collided.blue_player
        }),
{
    lemma_collisions_keep_the_standing(game, deltatime);
    reveal(Match::possession_settled);
    reveal(Match::puck_carried);
}

/// A charge in a tick of play without a goal and without a steal. While the
/// charge of the holder lasts longer than the tick, the charge is shorter
/// by the tick, and the puck stays as the collisions left it. In the tick
/// in which the charge runs out the shot leaves: the puck is free, stays
/// where it is, and has the aim of the shot, or the velocity of the skater
/// where it has no aim, times the power of a shot; the skater charges no
/// shot, has no aim, starts the cooldown after a shot, so that it cannot
/// catch the puck, and is to step forward one orientation. The other skater
/// stays as the collisions left it.
pub proof fn lemma_charge_in_a_tick(game: Match, side: GameSide, deltatime: u128, now: Tick)
    requires
        game.wf(),
        game.puck.holder() == Some(side),
        game.player(side).charge_left() > 0,
        game.collided(deltatime).puck.scorer() is None,
        !game.collided(deltatime).puck.stealable_by(
            game.collided(deltatime).player(side.opponent()),
        ),
    ensures
        ({
            let collided = game.collided(deltatime);
            let shooter = collided.player(side);
            let next = game.after_tick(deltatime, now);
            let aim = match shooter.aim() {
                Some(direction) => direction,
                None => shooter.velocity_of(),
            };
            &&& next.player(side.opponent()) == collided.player(side.opponent())
            &&& next.puck.position_of() == collided.puck.position_of()
            &&& deltatime < shooter.charge_left() ==> {
                &&& next.puck == collided.puck
                &&& next.player(side) == shooter.charged_on(deltatime)
                &&& next.player(side).charge_left() == shooter.charge_left() - deltatime
            }
            &&& deltatime >= shooter.charge_left() ==> {
                &&& next.puck.holder() is None
                &&& next.puck.velocity_of() == multiplied(aim, SHOOTING_POWER)
                &&& next.player(side) == shooter.released()
                &&& next.player(side).charge_left() == 0
                &&& next.player(side).aim() is None
                &&& next.player(side).shot_cooldown() == AFTER_SHOOTING_COUNTER
                &&& next.player(side).pending_orientation() == Some(
                    shooter.orientation_of().following(),
                )
                &&& !next.puck.catchable_by(next.player(side))
            }
        }),
{
    lemma_collisions_keep_the_standing(game, deltatime);
    reveal(Match::possession_settled);
    reveal(Match::puck_carried);
}

/// An update that plays a tick leaves skaters, goalies, puck, trail and
/// score as the tick of play leaves them, and the state too, unless play
/// ends with this tick.
pub proof fn lemma_update_plays_the_tick(game: Match, now: Tick, entering: Puck)
    requires
        game.ticks(now),
    ensures
        ({
            let played = game.after_tick(elapsed(now, game.last_tick), now);
            let next = game.after_update(now, entering);
            &&& next.red_player == played.red_player
            &&& next.blue_player == played.blue_player
            &&& next.red_goalie == played.red_goalie
            &&& next.blue_goalie == played.blue_goalie
            &&& next.puck == played.puck
            &&& next.skate_traces == played.skate_traces
            &&& next.red_score == played.red_score
            &&& next.blue_score == played.blue_score
            &&& next.state == played.state || next.state == (GameState::Ending { time: now })
        }),
{
}

impl Game {
    /// A new match between two clients: it starts its countdown now, with a
    /// fresh identifier and a puck that enters from either wall.
    pub fn new(red_client: usize, blue_client: usize) -> (r: Game)
        ensures
            r@ == Match::opening(red_client, blue_client, r@.id, r@.puck, r@.last_tick),
            r@.puck == Puck::entry(true) || r@.puck == Puck::entry(false),
            r@.wf(),
    {
        let now: Tick = <Tick as SystemTimeTick>::now();
        Game::starting_at(red_client, blue_client, uuid::Uuid::new_v4(), Puck::new(), now)
    }

    /// A new match between two clients, with the identifier `id` and the
    /// puck `puck`, that starts its countdown at `now`.
    pub fn starting_at(
        red_client: usize,
        blue_client: usize,
        id: uuid::Uuid,
        puck: Puck,
        now: Tick,
    ) -> (r: Game)
        requires
            puck.wf(),
        ensures
            r@ == Match::opening(red_client, blue_client, id, puck, now),
            r@.wf(),
    {
        Game {
            red_client: Client::new(red_client),
            blue_client: Client::new(blue_client),
            red_player: Player::new(GameSide::Red),
            blue_player: Player::new(GameSide::Blue),
            red_goalie: Goalie::new(GameSide::Red),
            blue_goalie: Goalie::new(GameSide::Blue),
            red_score: 0,
            blue_score: 0,
            puck,
            skate_traces: Vec::new(),
            id,
            timer: 0,
            last_tick: now,
            fps: 0,
            state: GameState::Starting { time: now },
        }
    }

    /// A match between two clients that starts its countdown at `now` with
    /// the skaters and the puck that it is given: `None` where a skater is
    /// not of its side, or charges a shot without the puck.
    pub fn with_bodies(
        red_client: usize,
        blue_client: usize,
        id: uuid::Uuid,
        red_player: Player,
        blue_player: Player,
        puck: Puck,
        now: Tick,
    ) -> (r: Option<Game>)
        requires
            red_player.wf(),
            blue_player.wf(),
            puck.wf(),
        ensures
            r is Some <==> Match::opening(red_client, blue_client, id, puck, now).with_bodies(
                red_player,
                blue_player,
                puck,
            ).wf(),
            r matches Some(game) ==> game@ == Match::opening(
                red_client,
                blue_client,
                id,
                puck,
                now,
            ).with_bodies(red_player, blue_player, puck),
    {
        let sides: bool = red_player.side == GameSide::Red && blue_player.side == GameSide::Blue;
        let red_charge: bool = red_player.shooting_counter == 0 || puck.possession == Some(
            GameSide::Red,
        );
        let blue_charge: bool = blue_player.shooting_counter == 0 || puck.possession == Some(
            GameSide::Blue,
        );
        if !sides || !red_charge || !blue_charge {
            return None;
        }
        let mut game = Game::starting_at(red_client, blue_client, id, puck, now);
        game.red_player = red_player;
        game.blue_player = blue_player;
        Some(game)
    }

    /// The identifier of the match.
    pub fn id(&self) -> (r: uuid::Uuid)
        ensures
            r == self@.id,
    {
        self.id
    }

    pub fn red_client(&self) -> (r: Client)
        ensures
            r == self@.red_client,
    {
        self.red_client
    }

    pub fn blue_client(&self) -> (r: Client)
        ensures
            r == self@.blue_client,
    {
        self.blue_client
    }

    pub fn red_player(&self) -> (r: Player)
        ensures
            r == self@.red_player,
    {
        self.red_player
    }

    pub fn blue_player(&self) -> (r: Player)
        ensures
            r == self@.blue_player,
    {
        self.blue_player
    }

    pub fn red_goalie(&self) -> (r: Goalie)
        ensures
            r == self@.red_goalie,
    {
        self.red_goalie
    }

    pub fn blue_goalie(&self) -> (r: Goalie)
        ensures
            r == self@.blue_goalie,
    {
        self.blue_goalie
    }

    pub fn puck(&self) -> (r: Puck)
        ensures
            r == self@.puck,
    {
        self.puck
    }

    /// The goals of Red and of Blue.
    pub fn score(&self) -> (r: (u8, u8))
        ensures
            r == (self@.red_score, self@.blue_score),
    {
        (self.red_score, self.blue_score)
    }

    /// The head positions that the skaters passed most recently, oldest
    /// first.
    pub fn skate_traces(&self) -> (r: &Vec<Vector>)
        ensures
            r@ == self@.skate_traces,
    {
        &self.skate_traces
    }

    pub fn state(&self) -> (r: GameState)
        ensures
            r == self@.state,
    {
        self.state
    }

    /// Milliseconds of play so far.
    pub fn timer(&self) -> (r: u128)
        ensures
            r == self@.timer,
    {
        self.timer
    }

    /// Whole seconds of play that are left.
    pub fn seconds_left(&self) -> (r: u128)
        ensures
            r == self@.seconds_left(),
    {
        if self.timer > GAME_DURATION_MILLISECONDS {
            0
        } else {
            (GAME_DURATION_MILLISECONDS - self.timer) / 1000
        }
    }

    /// When the last tick was processed.
    pub fn last_tick(&self) -> (r: Tick)
        ensures
            r == self@.last_tick,
    {
        self.last_tick
    }

    /// Ticks per second, as the last processed tick gave it.
    pub fn fps(&self) -> (r: u32)
        ensures
            r == self@.fps,
    {
        self.fps
    }

    /// Notes that the client of `side` has left.
    pub fn mark_disconnected(&mut self, side: GameSide)
        ensures
            final(self)@ == old(self)@.without(side),
            old(self)@.wf() ==> final(self)@.wf(),
    {
        match side {
            GameSide::Red => {
                self.red_client.is_connected = false;
            },
            GameSide::Blue => {
                self.blue_client.is_connected = false;
            },
        }
    }

    /// Tells whether both clients have left.
    pub fn is_over(&self) -> (r: bool)
        ensures
            r == self@.over(),
    {
        !self.red_client.is_connected && !self.blue_client.is_connected
    }

    /// Tells whether both clients are connected.
    pub fn is_running(&self) -> (r: bool)
        ensures
            r == self@.running(),
    {
        self.red_client.is_connected && self.blue_client.is_connected
    }

    /// The identifiers of the red and of the blue client.
    pub fn client_ids(&self) -> (r: (usize, usize))
        ensures
            r == (self@.red_client.id_of(), self@.blue_client.id_of()),
    {
        (self.red_client.id, self.blue_client.id)
    }

    /// Whether the red and the blue client are connected.
    pub fn connections_state(&self) -> (r: (bool, bool))
        ensures
            r == (self@.red_client.connected(), self@.blue_client.connected()),
    {
        (self.red_client.is_connected, self.blue_client.is_connected)
    }

    /// Takes a key press of the client `client_id`.
    pub fn handle_input(&mut self, client_id: usize, key_code: KeyCode)
        requires
            old(self)@.wf(),
        ensures
            final(self)@ == old(self)@.after_input(client_id, key_code),
            final(self)@.wf(),
    {
        let red: bool = self.red_client.id == client_id;
        if key_code == KeyCode::Esc {
            if red {
                self.red_client.is_connected = false;
            } else {
                self.blue_client.is_connected = false;
            }
            return ;
        }
        if key_code == KeyCode::Char('p') {
            if red {
                self.red_client.palette = self.red_client.palette.next();
            } else {
                self.blue_client.palette = self.blue_client.palette.next();
            }
            return ;
        }
        if self.state != GameState::Running {
            return ;
        }
        let mut player: Player = if red {
            self.red_player
        } else {
            self.blue_player
        };
        if player.shooting_counter > 0 {
            player.adjust_aim(key_code);
        } else if key_code == KeyCode::Char(' ') && player.after_shooting_counter == 0 {
            if let Some(side) = self.puck.possession {
                if side == player.side {
                    player.start_charge();
                    self.puck.velocity = (
                        scale(self.puck.velocity.0, CHARGE_DAMPING_PER_CENT, 100),
                        scale(self.puck.velocity.1, CHARGE_DAMPING_PER_CENT, 100),
                    );
                }
            }
        } else {
            player.steer(key_code);
        }
        if red {
            self.red_player = player;
        } else {
            self.blue_player = player;
        }
    }

    /// Plays one tick of `deltatime` milliseconds that ends at `now`: the
    /// bodies move, collisions are resolved, a goal is counted, and else
    /// possession and the carried puck are brought up to date.
    fn update_running(&mut self, deltatime: u128, now: Tick)
        requires
            old(self)@.wf(),
        ensures
            final(self)@ == old(self)@.after_tick(deltatime, now),
            final(self)@.wf(),
            final(self)@.skaters_tidy(),
            final(self)@.puck.in_field(),
            !old(self)@.shot_leaves(deltatime) ==> final(self)@.puck.within_speed_limit(),
    {
        let ghost before = self@;
        let red_previous = (self.red_player.orientation, self.red_player.position);
        let blue_previous = (self.blue_player.orientation, self.blue_player.position);
        let puck_previous_position = self.puck.position;
        let millis: u64 = if deltatime > u64::MAX as u128 {
            u64::MAX
        } else {
            deltatime as u64
        };
        self.move_bodies(millis);
        self.collide_skaters(Ghost(before), red_previous, blue_previous);
        self.collide_red_with_goalies(Ghost(before), red_previous);
        self.collide_blue_with_goalies(Ghost(before), blue_previous);
        self.trace_skaters(Ghost(before), red_previous.1, blue_previous.1);
        self.collide_puck_with_goalies(Ghost(before), puck_previous_position);
        self.collide_puck_with_skaters(Ghost(before), puck_previous_position);
        match self.puck.has_scored() {
            Some(GameSide::Red) => {
                if self.red_score < u8::MAX {
                    self.red_score = self.red_score + 1;
                }
                self.state = GameState::AfterGoal { time: now, scored: GameSide::Red };
                return ;
            },
            Some(GameSide::Blue) => {
                if self.blue_score < u8::MAX {
                    self.blue_score = self.blue_score + 1;
                }
                self.state = GameState::AfterGoal { time: now, scored: GameSide::Blue };
                return ;
            },
            None => {},
        }
        self.settle_possession();
        self.carry_puck(deltatime);
    }

    /// Puts skaters and puck back for the next face-off, and starts the
    /// countdown at `now`.
    fn reset(&mut self, now: Tick, entering: Puck)
        requires
            old(self)@.wf(),
            entering.wf(),
        ensures
            final(self)@ == old(self)@.restarted(now, entering),
            final(self)@.wf(),
    {
        self.red_player.reset();
        self.blue_player.reset();
        self.puck = entering;
        self.state = GameState::Starting { time: now };
        self.skate_traces.clear();
    }

    /// Closes both sessions.
    fn close(&mut self)
        ensures
            final(self)@ == old(self)@.closed(),
    {
        self.red_client.is_connected = false;
        self.blue_client.is_connected = false;
    }

    /// Brings the match up to date at the time `now`. Less than the minimum
    /// interval after the last processed tick, nothing changes. `entering`
    /// is the puck that play resumes with if it resumes in this step.
    pub fn update_at(&mut self, now: Tick, entering: Puck) -> (r: Result<(), EngineError>)
        requires
            old(self)@.wf(),
            entering.wf(),
        ensures
            r is Ok,
            final(self)@ == old(self)@.after_update(now, entering),
            final(self)@.wf(),
            elapsed(now, old(self)@.last_tick) < MINIMUM_DELTATIME_MILLISECONDS ==> final(self)@
                == old(self)@,
            old(self)@.ticks(now) ==> final(self)@.skaters_tidy() && final(self)@.puck.in_field(),
            old(self)@.ticks(now) && !old(self)@.shot_leaves(elapsed(now, old(self)@.last_tick))
                ==> final(self)@.puck.within_speed_limit(),
    {
        let deltatime: u128 = if now >= self.last_tick {
            now - self.last_tick
        } else {
            0
        };
        if deltatime < MINIMUM_DELTATIME_MILLISECONDS {
            return Ok(());
        }
        match self.state {
            GameState::Starting { time } => {
                if now >= time && now - time >= STARTING_DELAY_MILLISECONDS {
                    self.state = GameState::Running;
                }
            },
            GameState::Running => {
                self.update_running(deltatime, now);
                self.timer = if deltatime > u128::MAX - self.timer {
                    u128::MAX
                } else {
                    self.timer + deltatime
                };
                if self.timer > GAME_DURATION_MILLISECONDS {
                    self.state = GameState::Ending { time: now };
                }
            },
            GameState::AfterGoal { time, scored: _ } => {
                if now >= time && now - time >= AFTER_GOAL_DELAY_MILLISECONDS {
                    self.reset(now, entering);
                }
            },
            GameState::Ending { time } => {
                if now >= time && now - time >= ENDING_DELAY_MILLISECONDS {
                    self.close();
                }
            },
        }
        self.fps = (1000 / deltatime) as u32;
        self.last_tick = now;
        Ok(())
    }

    /// Brings the match up to date at the time that the system clock shows.
    /// If play resumes in this step, it resumes with a puck that enters from
    /// either wall.
    pub fn update(&mut self) -> (r: Result<(), EngineError>)
        requires
            old(self)@.wf(),
        ensures
            r is Ok,
            final(self)@.wf(),
            exists|now: Tick, entering: Puck|
                (entering == Puck::entry(true) || entering == Puck::entry(false))
                    && #[trigger] old(self)@.updates_to(final(self)@, now, entering),
    {
        let now: Tick = <Tick as SystemTimeTick>::now();
        let entering: Puck = Puck::new();
        let ghost before = self@;
        let result = self.update_at(now, entering);
        assert(before.updates_to(self@, now, entering));
        result
    }

    /// Lets every body move for `millis` milliseconds on its own, and the
    /// goalies follow their skaters.
    fn move_bodies(&mut self, millis: u64)
        requires
            old(self)@.sound(),
        ensures
            final(self)@ == old(self)@.moved(millis),
            final(self)@.sound(),
            final(self)@.skaters_tidy(),
            final(self)@.puck_tidy(),
            final(self)@.charges() == old(self)@.charges(),
            final(self)@.all_in_field(),
            final(self)@.red_player.within_speed_limit(),
            final(self)@.blue_player.within_speed_limit(),
            final(self)@.puck.within_speed_limit(),
    {
        proof {
            reveal(Match::moved);
        }
        self.red_player.update(millis);
        let red_head = self.red_player.head_position();
        self.red_goalie.set_position((self.red_goalie.position.0, red_head.1 - GOALIE_HEAD_OFFSET));
        self.red_goalie.set_velocity(self.red_player.velocity);
        self.blue_player.update(millis);
        let blue_head = self.blue_player.head_position();
        self.blue_goalie.set_position(
            (self.blue_goalie.position.0, blue_head.1 - GOALIE_HEAD_OFFSET),
        );
        self.blue_goalie.set_velocity(self.blue_player.velocity);
        self.puck.update(millis);
    }

    /// Tests the skaters for a collision with one another.
    fn collide_skaters(
        &mut self,
        before: Ghost<Match>,
        red: (Orientation, Vector),
        blue: (Orientation, Vector),
    )
        requires
            old(self)@.sound(),
            red == (before@.red_player.orientation, before@.red_player.position),
            blue == (before@.blue_player.orientation, before@.blue_player.position),
        ensures
            final(self)@ == old(self)@.skaters_met(before@),
            final(self)@.sound(),
            old(self)@.skaters_tidy() ==> final(self)@.skaters_tidy(),
            old(self)@.puck_tidy() ==> final(self)@.puck_tidy(),
            final(self)@.charges() == old(self)@.charges(),
    {
        proof {
            reveal(Match::skaters_met);
            lemma_skater_speed_capped();
            lemma_puck_speed_capped();
        }
        if resolve_collision(
            &mut self.red_player,
            &mut self.blue_player,
            CollisionType::Minimal,
            CollisionType::Minimal,
        ) {
            self.red_player.send_back(red.0, red.1);
            self.blue_player.send_back(blue.0, blue.1);
        }
    }

    /// Tests the red skater for a collision with the goalies.
    fn collide_red_with_goalies(&mut self, before: Ghost<Match>, red: (Orientation, Vector))
        requires
            old(self)@.sound(),
            red == (before@.red_player.orientation, before@.red_player.position),
        ensures
            final(self)@ == old(self)@.skater_met_goalies(GameSide::Red, before@),
            final(self)@.sound(),
            old(self)@.skaters_tidy() ==> final(self)@.skaters_tidy(),
            old(self)@.puck_tidy() ==> final(self)@.puck_tidy(),
            final(self)@.charges() == old(self)@.charges(),
    {
        proof {
            reveal(Match::skater_met_goalies);
            lemma_skater_speed_capped();
            lemma_puck_speed_capped();
        }
        if skater_meets_goalies(&mut self.red_player, &mut self.red_goalie, &mut self.blue_goalie) {
            self.red_player.send_back(red.0, red.1);
            self.red_player.set_velocity((0, 0));
        }
    }

    /// Tests the blue skater for a collision with the goalies.
    fn collide_blue_with_goalies(&mut self, before: Ghost<Match>, blue: (Orientation, Vector))
        requires
            old(self)@.sound(),
            blue == (before@.blue_player.orientation, before@.blue_player.position),
        ensures
            final(self)@ == old(self)@.skater_met_goalies(GameSide::Blue, before@),
            final(self)@.sound(),
            old(self)@.skaters_tidy() ==> final(self)@.skaters_tidy(),
            old(self)@.puck_tidy() ==> final(self)@.puck_tidy(),
            final(self)@.charges() == old(self)@.charges(),
    {
        proof {
            reveal(Match::skater_met_goalies);
            lemma_skater_speed_capped();
            lemma_puck_speed_capped();
        }
        if skater_meets_goalies(
            &mut self.blue_player,
            &mut self.blue_goalie,
            &mut self.red_goalie,
        ) {
            self.blue_player.send_back(blue.0, blue.1);
            self.blue_player.set_velocity((0, 0));
        }
    }

    /// Adds to the trail the head of each skater that has moved, and drops
    /// the oldest points beyond the trail's length.
    fn trace_skaters(&mut self, before: Ghost<Match>, red: Vector, blue: Vector)
        requires
            old(self)@.sound(),
            red == before@.red_player.position,
            blue == before@.blue_player.position,
        ensures
            final(self)@ == old(self)@.traced(before@),
            final(self)@.sound(),
            old(self)@.skaters_tidy() ==> final(self)@.skaters_tidy(),
            old(self)@.puck_tidy() ==> final(self)@.puck_tidy(),
            final(self)@.charges() == old(self)@.charges(),
    {
        proof {
            reveal(Match::traced);
        }
        if self.red_player.position.0 != red.0 || self.red_player.position.1 != red.1 {
            let head_position = self.red_player.head_position();
            self.skate_traces.push(head_position);
        }
        if self.blue_player.position.0 != blue.0 || self.blue_player.position.1 != blue.1 {
            let head_position = self.blue_player.head_position();
            self.skate_traces.push(head_position);
        }
        let ghost full = self.skate_traces@;
        while self.skate_traces.len() > SKATE_TRACE_LENGTH
            invariant
                self.skate_traces@.len() <= full.len(),
                self.skate_traces@.len() >= SKATE_TRACE_LENGTH || self.skate_traces@.len()
                    == full.len(),
                self.skate_traces@ == full.subrange(
                    full.len() - self.skate_traces@.len(),
                    full.len() as int,
                ),
                self.red_client == old(self).red_client,
                self.blue_client == old(self).blue_client,
                self.red_player == old(self).red_player,
                self.blue_player == old(self).blue_player,
                self.red_goalie == old(self).red_goalie,
                self.blue_goalie == old(self).blue_goalie,
                self.red_score == old(self).red_score,
                self.blue_score == old(self).blue_score,
                self.puck == old(self).puck,
                self.id == old(self).id,
                self.timer == old(self).timer,
                self.last_tick == old(self).last_tick,
                self.fps == old(self).fps,
                self.state == old(self).state,
            decreases self.skate_traces@.len(),
        {
            self.skate_traces.remove(0);
            assert(self.skate_traces@ =~= full.subrange(
                full.len() - self.skate_traces@.len(),
                full.len() as int,
            ));
        }
        assert(self.skate_traces@ =~= latest(full));
    }

    /// Tests the puck for a collision with the goalies.
    fn collide_puck_with_goalies(&mut self, before: Ghost<Match>, puck_previous_position: Vector)
        requires
            old(self)@.sound(),
            puck_previous_position == before@.puck.position,
        ensures
            final(self)@ == old(self)@.puck_met_goalies(before@),
            final(self)@.sound(),
            old(self)@.skaters_tidy() ==> final(self)@.skaters_tidy(),
            old(self)@.puck_tidy() ==> final(self)@.puck_tidy(),
            final(self)@.charges() == old(self)@.charges(),
    {
        proof {
            reveal(Match::puck_met_goalies);
            lemma_skater_speed_capped();
            lemma_puck_speed_capped();
        }
        if resolve_collision(
            &mut self.puck,
            &mut self.red_goalie,
            CollisionType::Minimal,
            CollisionType::Minimal,
        ) {
            self.puck.set_position(puck_previous_position);
            self.red_goalie.count_save();
        } else if resolve_collision(
            &mut self.puck,
            &mut self.blue_goalie,
            CollisionType::Minimal,
            CollisionType::Minimal,
        ) {
            self.puck.set_position(puck_previous_position);
            self.blue_goalie.count_save();
        }
    }

    /// Tests the puck for a collision with the skaters.
    fn collide_puck_with_skaters(&mut self, before: Ghost<Match>, puck_previous_position: Vector)
        requires
            old(self)@.sound(),
            puck_previous_position == before@.puck.position,
        ensures
            final(self)@ == old(self)@.puck_met_skaters(before@),
            final(self)@.sound(),
            old(self)@.skaters_tidy() ==> final(self)@.skaters_tidy(),
            old(self)@.puck_tidy() ==> final(self)@.puck_tidy(),
            final(self)@.charges() == old(self)@.charges(),
    {
        proof {
            reveal(Match::puck_met_skaters);
            lemma_skater_speed_capped();
            lemma_puck_speed_capped();
        }
        if resolve_collision(
            &mut self.puck,
            &mut self.red_player,
            CollisionType::Minimal,
            CollisionType::Minimal,
        ) {
            self.puck.set_position(puck_previous_position);
        } else if resolve_collision(
            &mut self.puck,
            &mut self.blue_player,
            CollisionType::Minimal,
            CollisionType::Minimal,
        ) {
            self.puck.set_position(puck_previous_position);
        }
    }

    /// Applies the rules of possession.
    fn settle_possession(&mut self)
        requires
            old(self)@.sound(),
        ensures
            final(self)@ == old(self)@.possession_settled(),
            final(self)@.sound(),
            old(self)@.skaters_tidy() ==> final(self)@.skaters_tidy(),
            old(self)@.puck_tidy() ==> final(self)@.puck_tidy(),
            old(self)@.charge_needs_puck() ==> final(self)@.free_puck_uncharged(),
    {
        proof {
            reveal(Match::possession_settled);
        }
        match self.puck.possession {
            Some(GameSide::Red) => {
                if self.puck.can_be_stolen_by_player(&self.blue_player) {
                    self.puck.possession = Some(GameSide::Blue);
                    self.red_player.rob();
                }
            },
            Some(GameSide::Blue) => {
                if self.puck.can_be_stolen_by_player(&self.red_player) {
                    self.puck.possession = Some(GameSide::Red);
                    self.blue_player.rob();
                }
            },
            None => {
                let red: bool = self.puck.can_be_catched_by_player(&self.red_player);
                let blue: bool = self.puck.can_be_catched_by_player(&self.blue_player);
                if red && blue {
                    let red_speed: u128 = squared_length(
                        self.red_player.velocity.0,
                        self.red_player.velocity.1,
                    );
                    let blue_speed: u128 = squared_length(
                        self.blue_player.velocity.0,
                        self.blue_player.velocity.1,
                    );
                    if red_speed > blue_speed {
                        self.puck.possession = Some(GameSide::Red);
                    } else if blue_speed > red_speed {
                        self.puck.possession = Some(GameSide::Blue);
                    }
                } else if red {
                    self.puck.possession = Some(GameSide::Red);
                } else if blue {
                    self.puck.possession = Some(GameSide::Blue);
                }
            },
        }
    }

    /// Lets the puck follow its holder, or leave it as a shot.
    fn carry_puck(&mut self, deltatime: u128)
        requires
            old(self)@.sound(),
        ensures
            final(self)@ == old(self)@.puck_carried(deltatime),
            final(self)@.sound(),
            old(self)@.skaters_tidy() ==> final(self)@.skaters_tidy(),
            old(self)@.free_puck_uncharged() ==> final(self)@.charge_needs_puck(),
            old(self)@.skaters_tidy() && old(self)@.puck_tidy() ==> final(self)@.puck.in_field(),
            old(self)@.skaters_tidy() && old(self)@.puck_tidy() && !(old(self)@.puck.possession
                matches Some(side) && old(self)@.player(side).shooting_counter > 0 && deltatime
                >= old(self)@.player(side).shooting_counter)
                ==> final(self)@.puck.within_speed_limit(),
    {
        proof {
            reveal(Match::puck_carried);
            lemma_skater_slower_than_puck(self.red_player);
            lemma_skater_slower_than_puck(self.blue_player);
        }
        if let Some(side) = self.puck.possession {
            let mut player: Player = match side {
                GameSide::Red => self.red_player,
                GameSide::Blue => self.blue_player,
            };
            let mut other: Player = match side {
                GameSide::Red => self.blue_player,
                GameSide::Blue => self.red_player,
            };
            if player.shooting_counter > 0 {
                if deltatime >= player.shooting_counter {
                    let velocity = player.release_shot();
                    self.puck.possession = None;
                    self.puck.velocity = velocity;
                } else {
                    player.shooting_counter = player.shooting_counter - deltatime;
                }
            } else {
                self.puck.attach_to_player(&player);
            }
            other.disarm();
            match side {
                GameSide::Red => {
                    self.red_player = player;
                    self.blue_player = other;
                },
                GameSide::Blue => {
                    self.blue_player = player;
                    self.red_player = other;
                },
            }
        }
    }
}

/// Tests a skater for a collision with its own goalie and then with the
/// other one, with both pairings of hitboxes each, up to the first overlap.
fn skater_meets_goalies(player: &mut Player, own: &mut Goalie, other: &mut Goalie) -> (hit: bool)
    requires
        old(player).wf(),
        old(own).wf(),
        old(other).wf(),
    ensures
        (hit, *final(player), *final(own), *final(other)) == met_goalies(
            *old(player),
            *old(own),
            *old(other),
        ),
        final(player).wf(),
        final(own).wf(),
        final(other).wf(),
{
    if resolve_collision(player, own, CollisionType::Minimal, CollisionType::Full) {
        true
    } else if resolve_collision(player, own, CollisionType::Full, CollisionType::Minimal) {
        true
    } else if resolve_collision(player, other, CollisionType::Minimal, CollisionType::Full) {
        true
    } else {
        resolve_collision(player, other, CollisionType::Full, CollisionType::Minimal)
    }
}

} // verus!
