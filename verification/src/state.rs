//! The game session: the player, two obstacles, the score and high score,
//! and the three-mode flow (menu, active play, end screen). Each frame the
//! session is advanced by one of the handlers here, depending on its mode.

use crate::obstacle::{gap_size, Obstacle};
use crate::player::{Player, FLAP_VELOCITY};
use crate::{FRAME_DURATION, PLAYER_OFFSET, SCREEN_HEIGHT, SCREEN_WIDTH};
use vstd::prelude::*;

verus! {

/// World column the player starts a play session at.
pub const PLAYER_START_X: i32 = 20;
/// Row the player starts a play session at.
pub const PLAYER_START_ROW: i32 = 25;

#[derive(Clone, Copy, Debug, PartialEq, Eq, Structural)]
pub enum GameMode {
    Menu,
    Play,
    End,
}

/// The one key event a frame may carry, already mapped from whatever the
/// presentation layer reports: the flap key, the play key, the quit key, or
/// any other key.
#[derive(Clone, Copy, Debug, PartialEq, Eq, Structural)]
pub enum Key {
    Space,
    P,
    Q,
    Other,
}

pub struct State {
    pub player: Player,
    /// Milliseconds of real time accumulated toward the next physics tick.
    pub frame_time: u32,
    pub obstacle_one: Obstacle,
    pub obstacle_two: Obstacle,
    pub mode: GameMode,
    /// Obstacles passed in the current play session.
    pub score: i32,
    /// Greatest score banked by any restart during this process run.
    pub high_score: i32,
}

/// How a restart relates the session before it to the session after it: the
/// high score banks `max(high_score, score)`, the player is recreated at the
/// fixed start position, both obstacles are recreated at their staggered
/// starting columns with the gap sizes of scores zero and one, the score
/// returns to zero and the session enters play.
pub open spec fn restarted(pre: State, post: State) -> bool {
    &&& post.high_score == if pre.score > pre.high_score {
        pre.score as int
    } else {
        pre.high_score as int
    }
    &&& post.player == (Player { x: PLAYER_START_X, y: PLAYER_START_ROW, velocity: 0 })
    &&& post.frame_time == 0
    &&& post.obstacle_one.x == SCREEN_WIDTH + PLAYER_OFFSET
    &&& post.obstacle_one.size == gap_size(0)
    &&& post.obstacle_one.wf()
    &&& post.obstacle_two.x == post.obstacle_one.x + SCREEN_WIDTH / 2
    &&& post.obstacle_two.size == gap_size(1)
    &&& post.obstacle_two.wf()
    &&& post.score == 0
    &&& post.mode == GameMode::Play
}

/// How a menu or end-screen frame relates the session before it to the
/// session after it, given the frame's key event: the play key restarts the
/// session, the quit key asks the driver to stop, and anything else leaves
/// the session as it was.
pub open spec fn menu_rel(pre: State, post: State, key: Option<Key>, quit: bool) -> bool {
    if key == Some(Key::P) {
        restarted(pre, post) && !quit
    } else if key == Some(Key::Q) {
        post == pre && quit
    } else {
        post == pre && !quit
    }
}

/// How the input-and-physics half of a play frame relates the session before
/// it to the session after it: the elapsed time joins the accumulator, and
/// once the accumulator exceeds `FRAME_DURATION` it resets and the player
/// takes exactly one gravity tick; after that, a flap key sets the velocity
/// to the flap impulse. Nothing else changes.
pub open spec fn play_tick_rel(pre: State, post: State, elapsed_ms: u32, key: Option<Key>) -> bool {
    let ticked = pre.frame_time + elapsed_ms > FRAME_DURATION;
    let moved = if ticked {
        pre.player.after_gravity()
    } else {
        pre.player
    };
    let flapped = if key == Some(Key::Space) {
        Player { velocity: FLAP_VELOCITY, ..moved }
    } else {
        moved
    };
    &&& post.player == flapped
    &&& post.frame_time == if ticked {
        0int
    } else {
        pre.frame_time + elapsed_ms
    }
    &&& post.obstacle_one == pre.obstacle_one
    &&& post.obstacle_two == pre.obstacle_two
    &&& post.mode == pre.mode
    &&& post.score == pre.score
    &&& post.high_score == pre.high_score
}

/// How the obstacle-and-scoring half of a play frame relates the session
/// before it to the session after it. If the player's world column has
/// passed obstacle one's, the score goes up by one and obstacle one is
/// recreated a full screen width ahead of the player with the new score's
/// gap size; otherwise, the same check applies to obstacle two; at most one
/// obstacle is replaced per frame. The session then ends exactly when the
/// player has fallen below the screen or collides with either obstacle.
pub open spec fn advance_rel(pre: State, post: State) -> bool {
    &&& post.player == pre.player
    &&& post.frame_time == pre.frame_time
    &&& post.high_score == pre.high_score
    &&& if pre.player.x > pre.obstacle_one.x {
        &&& post.score == pre.score + 1
        &&& post.obstacle_one.x == pre.player.x + SCREEN_WIDTH
        &&& post.obstacle_one.size == gap_size(pre.score + 1)
        &&& post.obstacle_one.wf()
        &&& post.obstacle_two == pre.obstacle_two
    } else if pre.player.x > pre.obstacle_two.x {
        &&& post.score == pre.score + 1
        &&& post.obstacle_two.x == pre.player.x + SCREEN_WIDTH
        &&& post.obstacle_two.size == gap_size(pre.score + 1)
        &&& post.obstacle_two.wf()
        &&& post.obstacle_one == pre.obstacle_one
    } else {
        &&& post.score == pre.score
        &&& post.obstacle_one == pre.obstacle_one
        &&& post.obstacle_two == pre.obstacle_two
    }
    &&& post.mode == if post.player.y > SCREEN_HEIGHT || post.obstacle_one.hits(post.player)
        || post.obstacle_two.hits(post.player) {
        GameMode::End
    } else {
        pre.mode
    }
}

/// How a whole play frame relates the session before it to the session after
/// it: the input-and-physics half followed by the obstacle-and-scoring half.
pub open spec fn play_frame_rel(pre: State, post: State, elapsed_ms: u32, key: Option<Key>) -> bool {
    exists|mid: State| play_tick_rel(pre, mid, elapsed_ms, key) && advance_rel(mid, post)
}

impl State {
    /// Every reachable session keeps its entities well formed and its scores
    /// non-negative.
    pub open spec fn wf(self) -> bool {
        &&& self.player.wf()
        &&& self.obstacle_one.wf()
        &&& self.obstacle_two.wf()
        &&& 0 <= self.score
        &&& 0 <= self.high_score
    }

    /// A fresh session carrying over a high score: menu mode, score zero,
    /// the player at the origin, and both obstacles one screen width out
    /// with the gap sizes of scores zero and one.
    pub fn new(high_score: i32) -> (state: State)
        requires
            0 <= high_score,
        ensures
            state.mode == GameMode::Menu,
            state.score == 0,
            state.high_score == high_score,
            state.frame_time == 0,
            state.player == (Player { x: 0, y: PLAYER_START_ROW, velocity: 0 }),
            state.obstacle_one.x == SCREEN_WIDTH,
            state.obstacle_one.size == gap_size(0),
            state.obstacle_two.x == SCREEN_WIDTH,
            state.obstacle_two.size == gap_size(1),
            state.wf(),
    {
        State {
            player: Player::new(0, PLAYER_START_ROW),
            frame_time: 0,
            obstacle_one: Obstacle::new(SCREEN_WIDTH, 0),
            obstacle_two: Obstacle::new(SCREEN_WIDTH, 1),
            mode: GameMode::Menu,
            score: 0,
            high_score,
        }
    }

    /// Begin a fresh play session: bank the high score, recreate the player
    /// and both obstacles, and reset the score and the tick accumulator.
    pub fn restart(&mut self)
        requires
            old(self).wf(),
        ensures
            restarted(*old(self), *final(self)),
            final(self).wf(),
    {
        if self.score > self.high_score {
            self.high_score = self.score;
        }
        self.player = Player::new(PLAYER_START_X, PLAYER_START_ROW);
        self.frame_time = 0;
        self.obstacle_one = Obstacle::new(SCREEN_WIDTH + PLAYER_OFFSET, 0);
        self.obstacle_two = Obstacle::new(self.obstacle_one.x + SCREEN_WIDTH / 2, 1);
        self.score = 0;
        self.mode = GameMode::Play;
    }

    /// One menu or end-screen frame, given the frame's key event: play
    /// restarts the session, quit reports that the driver should stop, and
    /// any other event leaves the session unchanged.
    pub fn menu_input(&mut self, key: Option<Key>) -> (quit: bool)
        requires
            old(self).wf(),
        ensures
            menu_rel(*old(self), *final(self), key, quit),
            final(self).wf(),
    {
        match key {
            Some(Key::P) => {
                self.restart();
                false
            },
            Some(Key::Q) => true,
            _ => false,
        }
    }

    /// The input-and-physics half of a play frame: accumulate the elapsed
    /// time, run one gravity tick once the accumulator exceeds the tick
    /// duration, and apply a flap if the flap key was pressed.
    pub fn play_tick(&mut self, elapsed_ms: u32, key: Option<Key>)
        requires
            old(self).wf(),
            old(self).frame_time + elapsed_ms <= u32::MAX,
            old(self).player.x < i32::MAX,
            old(self).player.y + crate::player::GRAVITY_STEP <= i32::MAX,
        ensures
            play_tick_rel(*old(self), *final(self), elapsed_ms, key),
            final(self).wf(),
    {
        self.frame_time = self.frame_time + elapsed_ms;
        if self.frame_time > FRAME_DURATION {
            self.frame_time = 0;
            self.player.gravity_and_move();
        }
        match key {
            Some(Key::Space) => self.player.flap(),
            _ => {},
        }
    }

    /// The obstacle-and-scoring half of a play frame: replace at most one
    /// overtaken obstacle (scoring a point for it), then end the session if
    /// the player has fallen below the screen or collides with an obstacle.
    pub fn advance_obstacles(&mut self)
        requires
            old(self).wf(),
            old(self).player.x + SCREEN_WIDTH <= i32::MAX,
            old(self).score < i32::MAX,
        ensures
            advance_rel(*old(self), *final(self)),
            final(self).wf(),
    {
        if self.player.x > self.obstacle_one.x {
            self.score = self.score + 1;
            self.obstacle_one = Obstacle::new(self.player.x + SCREEN_WIDTH, self.score);
        } else if self.player.x > self.obstacle_two.x {
            self.score = self.score + 1;
            self.obstacle_two = Obstacle::new(self.player.x + SCREEN_WIDTH, self.score);
        }
        if self.player.y > SCREEN_HEIGHT || self.obstacle_one.hit_obstacle(&self.player)
            || self.obstacle_two.hit_obstacle(&self.player) {
            self.mode = GameMode::End;
        }
    }

    /// One whole frame: dispatch on the mode. Menu and end-screen frames
    /// take the menu transitions; a play frame takes the input-and-physics
    /// half followed by the obstacle-and-scoring half and never quits.
    pub fn tick(&mut self, elapsed_ms: u32, key: Option<Key>) -> (quit: bool)
        requires
            old(self).wf(),
            old(self).frame_time + elapsed_ms <= u32::MAX,
            old(self).player.x + 1 + SCREEN_WIDTH <= i32::MAX,
            old(self).player.y + crate::player::GRAVITY_STEP <= i32::MAX,
            old(self).score < i32::MAX,
        ensures
            old(self).mode == GameMode::Menu || old(self).mode == GameMode::End ==> menu_rel(
                *old(self),
                *final(self),
                key,
                quit,
            ),
            old(self).mode == GameMode::Play ==> play_frame_rel(
                *old(self),
                *final(self),
                elapsed_ms,
                key,
            ) && !quit,
            final(self).wf(),
    {
        match self.mode {
            GameMode::Menu => self.menu_input(key),
            GameMode::End => self.menu_input(key),
            GameMode::Play => {
                self.play_tick(elapsed_ms, key);
                let ghost mid: State = *self;
                self.advance_obstacles();
                proof {
                    assert(play_tick_rel(*old(self), mid, elapsed_ms, key) && advance_rel(
                        mid,
                        *self,
                    ));
                }
                false
            },
        }
    }
}

} // verus!
