use flappy_dragon::obstacle::Obstacle;
use flappy_dragon::player::Player;
use flappy_dragon::state::{GameMode, Key, State};

fn play_state(player: Player, one: Obstacle, two: Obstacle, score: i32) -> State {
    State {
        player,
        frame_time: 0,
        obstacle_one: one,
        obstacle_two: two,
        mode: GameMode::Play,
        score,
        high_score: 0,
    }
}

#[test]
fn new_session_starts_in_menu() {
    let s = State::new(5);
    assert_eq!(s.mode, GameMode::Menu);
    assert_eq!(s.score, 0);
    assert_eq!(s.high_score, 5);
    assert_eq!(s.frame_time, 0);
    assert_eq!(s.player.x, 0);
    assert_eq!(s.player.y, 25);
    assert_eq!(s.player.velocity, 0);
    assert_eq!(s.obstacle_one.x, 80);
    assert_eq!(s.obstacle_one.size, 20);
    assert_eq!(s.obstacle_two.x, 80);
    assert_eq!(s.obstacle_two.size, 19);
}

#[test]
fn restart_banks_high_score_and_resets() {
    let mut s = State::new(3);
    s.score = 7;
    s.restart();
    assert_eq!(s.high_score, 7);
    assert_eq!(s.score, 0);
    assert_eq!(s.mode, GameMode::Play);
    assert_eq!(s.frame_time, 0);
    assert_eq!(s.player.x, 20);
    assert_eq!(s.player.y, 25);
    assert_eq!(s.player.velocity, 0);
    assert_eq!(s.obstacle_one.x, 100);
    assert_eq!(s.obstacle_one.size, 20);
    assert_eq!(s.obstacle_two.x, 140);
    assert_eq!(s.obstacle_two.size, 19);
}

#[test]
fn restart_keeps_higher_previous_high_score() {
    let mut s = State::new(9);
    s.score = 2;
    s.restart();
    assert_eq!(s.high_score, 9);
    assert_eq!(s.score, 0);
}

#[test]
fn menu_play_key_restarts_session() {
    let mut s = State::new(0);
    let quit = s.menu_input(Some(Key::P));
    assert!(!quit);
    assert_eq!(s.mode, GameMode::Play);
    assert_eq!(s.player.x, 20);
}

#[test]
fn menu_quit_key_requests_quit_and_changes_nothing() {
    let mut s = State::new(0);
    let quit = s.menu_input(Some(Key::Q));
    assert!(quit);
    assert_eq!(s.mode, GameMode::Menu);
    assert_eq!(s.player.x, 0);
}

#[test]
fn menu_other_keys_do_nothing() {
    let mut s = State::new(0);
    assert!(!s.menu_input(None));
    assert!(!s.menu_input(Some(Key::Other)));
    assert!(!s.menu_input(Some(Key::Space)));
    assert_eq!(s.mode, GameMode::Menu);
}

#[test]
fn frame_time_accumulates_until_tick() {
    let mut s = State::new(0);
    s.menu_input(Some(Key::P));
    s.play_tick(75, None);
    // 75 is not strictly greater than the tick duration: no physics yet.
    assert_eq!(s.frame_time, 75);
    assert_eq!(s.player.x, 20);
    assert_eq!(s.player.velocity, 0);
    s.play_tick(1, None);
    // 76 exceeds it: the accumulator resets and one tick runs.
    assert_eq!(s.frame_time, 0);
    assert_eq!(s.player.x, 21);
    assert_eq!(s.player.velocity, 2);
}

#[test]
fn flap_key_overrides_velocity_in_play() {
    let mut s = State::new(0);
    s.menu_input(Some(Key::P));
    s.play_tick(0, Some(Key::Space));
    assert_eq!(s.player.velocity, -21);
    assert_eq!(s.player.x, 20);
}

#[test]
fn overtaking_first_obstacle_scores_and_respawns_it() {
    let player = Player {
        x: 101,
        y: 25,
        velocity: 0,
    };
    let one = Obstacle::with_gap_center(100, 25, 0);
    let two = Obstacle::with_gap_center(140, 30, 1);
    let mut s = play_state(player, one, two, 0);
    s.advance_obstacles();
    assert_eq!(s.score, 1);
    assert_eq!(s.obstacle_one.x, 181);
    assert_eq!(s.obstacle_one.size, 19);
    // Obstacle two is untouched that frame.
    assert_eq!(s.obstacle_two.x, 140);
    assert_eq!(s.obstacle_two.gap_y, 30);
    assert_eq!(s.obstacle_two.size, 19);
    assert_eq!(s.mode, GameMode::Play);
}

#[test]
fn only_one_obstacle_is_replaced_per_frame() {
    let player = Player {
        x: 200,
        y: 25,
        velocity: 0,
    };
    let one = Obstacle::with_gap_center(100, 25, 0);
    let two = Obstacle::with_gap_center(140, 25, 1);
    let mut s = play_state(player, one, two, 0);
    s.advance_obstacles();
    // The first match wins: only obstacle one respawns this frame.
    assert_eq!(s.score, 1);
    assert_eq!(s.obstacle_one.x, 280);
    assert_eq!(s.obstacle_two.x, 140);
    s.advance_obstacles();
    // The next frame catches obstacle two.
    assert_eq!(s.score, 2);
    assert_eq!(s.obstacle_two.x, 280);
    assert_eq!(s.obstacle_one.x, 280);
}

#[test]
fn second_obstacle_is_checked_when_first_is_ahead() {
    let player = Player {
        x: 141,
        y: 25,
        velocity: 0,
    };
    let one = Obstacle::with_gap_center(221, 25, 1);
    let two = Obstacle::with_gap_center(140, 25, 1);
    let mut s = play_state(player, one, two, 1);
    s.advance_obstacles();
    assert_eq!(s.score, 2);
    assert_eq!(s.obstacle_two.x, 221);
    assert_eq!(s.obstacle_two.size, 18);
    assert_eq!(s.obstacle_one.x, 221);
    assert_eq!(s.obstacle_one.size, 19);
}

#[test]
fn falling_below_screen_ends_session() {
    let player = Player {
        x: 10,
        y: 51,
        velocity: 20,
    };
    let one = Obstacle::with_gap_center(100, 25, 0);
    let two = Obstacle::with_gap_center(140, 25, 1);
    let mut s = play_state(player, one, two, 0);
    s.advance_obstacles();
    assert_eq!(s.mode, GameMode::End);
}

#[test]
fn collision_with_obstacle_ends_session() {
    let player = Player {
        x: 80,
        y: 10,
        velocity: 0,
    };
    // Minimum gap at center 25: row 10 is well outside the band.
    let one = Obstacle::with_gap_center(100, 25, 18);
    let two = Obstacle::with_gap_center(140, 25, 1);
    let mut s = play_state(player, one, two, 0);
    s.advance_obstacles();
    assert_eq!(s.mode, GameMode::End);
}

#[test]
fn passing_through_gap_keeps_playing() {
    let player = Player {
        x: 80,
        y: 25,
        velocity: 0,
    };
    let one = Obstacle::with_gap_center(100, 25, 18);
    let two = Obstacle::with_gap_center(140, 25, 1);
    let mut s = play_state(player, one, two, 0);
    s.advance_obstacles();
    assert_eq!(s.mode, GameMode::Play);
    assert_eq!(s.score, 0);
}

#[test]
fn gravity_only_session_falls_to_its_end() {
    let mut s = State::new(0);
    let quit = s.tick(0, Some(Key::P));
    assert!(!quit);
    assert_eq!(s.mode, GameMode::Play);
    assert_eq!(s.score, 0);
    assert_eq!(s.high_score, 0);

    // Eleven physics ticks with no flap: velocity reaches its cap and the
    // player has fallen nine rows in a capped-then-linear sequence.
    for _ in 0..11 {
        let quit = s.tick(76, None);
        assert!(!quit);
    }
    assert_eq!(s.player.velocity, 20);
    assert_eq!(s.player.y, 34);
    assert_eq!(s.player.x, 31);
    assert_eq!(s.mode, GameMode::Play);

    // Falling on: the session ends once the row exceeds the screen height.
    let mut guard: i32 = 0;
    while s.mode == GameMode::Play {
        s.tick(76, None);
        guard += 1;
        assert!(guard < 100);
    }
    assert_eq!(s.mode, GameMode::End);
    assert!(s.player.y > 50);
    assert_eq!(s.score, 0);

    // The end screen takes the same transitions as the menu.
    let quit = s.tick(0, Some(Key::Q));
    assert!(quit);
    assert_eq!(s.mode, GameMode::End);
    let quit = s.tick(0, Some(Key::P));
    assert!(!quit);
    assert_eq!(s.mode, GameMode::Play);
}
