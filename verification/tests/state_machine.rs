use grid_universe::{
    Cell, Config, ConfigError, Direction, GameState, Player, PlayerState, QueueDiscipline,
    Universe,
};

fn no_lava_five() -> Config {
    Config {
        width: 5,
        height: 5,
        discipline: QueueDiscipline::Fifo,
        has_goal: true,
        hazard_num: 0,
        hazard_den: 1,
    }
}

fn all_lava_five() -> Config {
    Config {
        width: 5,
        height: 5,
        discipline: QueueDiscipline::Fifo,
        has_goal: true,
        hazard_num: 1,
        hazard_den: 1,
    }
}

fn must_build(config: Config) -> Universe {
    match Universe::new_with_config(config) {
        Ok(u) => u,
        Err(_) => panic!("valid configuration was rejected"),
    }
}

#[test]
fn player_moves_by_delta() {
    let mut p = Player::new(3, 4);
    assert_eq!((p.x, p.y, p.alive), (3, 4, true));
    p.move_player(Direction::Up);
    assert_eq!((p.x, p.y), (3, 3));
    p.move_player(Direction::Right);
    assert_eq!((p.x, p.y), (4, 3));
    p.move_player(Direction::Down);
    assert_eq!((p.x, p.y), (4, 4));
    p.move_player(Direction::Left);
    assert_eq!((p.x, p.y), (3, 4));
    assert!(p.alive);
}

#[test]
fn floor_step_changes_position_only() {
    let mut u = must_build(Config::nine_by_nine());
    let cells_before = u.cells().clone();
    assert_eq!((u.player_x(), u.player_y()), (4, 8));
    assert_eq!(u.tick(Direction::Up), GameState::Playing);
    assert_eq!((u.player_x(), u.player_y()), (4, 7));
    assert_eq!(u.tick(Direction::Right), GameState::Playing);
    assert_eq!((u.player_x(), u.player_y()), (5, 7));
    assert_eq!(u.tick(Direction::Down), GameState::Playing);
    assert_eq!((u.player_x(), u.player_y()), (5, 8));
    assert_eq!(u.tick(Direction::Left), GameState::Playing);
    assert_eq!((u.player_x(), u.player_y()), (4, 8));
    assert!(u.is_player_alive());
    assert_eq!(u.pending_moves(), 0);
    assert_eq!(u.cells(), &cells_before);
}

#[test]
fn goal_walk_and_boundary_noop() {
    let mut u = must_build(no_lava_five());
    assert_eq!(u.state(), GameState::Initial);
    assert_eq!((u.player_x(), u.player_y()), (2, 4));
    assert_eq!(u.tick(Direction::Up), GameState::Playing);
    assert_eq!(u.tick(Direction::Up), GameState::Playing);
    assert_eq!(u.tick(Direction::Up), GameState::Playing);
    // The fourth step reaches (2, 0), the goal cell at linear index 2: the
    // game finishes on the same tick and the player stays alive.
    assert_eq!(u.tick(Direction::Up), GameState::Finished);
    assert_eq!((u.player_x(), u.player_y()), (2, 0));
    assert!(u.is_player_alive());
    assert!(u.is_player_on_goal());
    // A fifth step up would leave the grid: the move is rejected as a no-op
    // and the tick reports Playing rather than crashing or wrapping.
    assert_eq!(u.tick(Direction::Up), GameState::Playing);
    assert_eq!((u.player_x(), u.player_y()), (2, 0));
}

#[test]
fn lava_step_reports_playing_then_finished() {
    let mut u = must_build(all_lava_five());
    assert_eq!(u.tick(Direction::Right), GameState::Playing);
    assert_eq!((u.player_x(), u.player_y()), (3, 4));
    assert!(u.is_player_alive());
    // (3, 3) is linear index 18: an even, non-start, non-goal cell, so lava
    // under this configuration. The killing tick still reports Playing.
    assert_eq!(u.tick(Direction::Up), GameState::Playing);
    assert_eq!((u.player_x(), u.player_y()), (3, 3));
    assert!(!u.is_player_alive());
    // Only the following tick observes the death.
    assert_eq!(u.tick(Direction::Left), GameState::Finished);
    assert_eq!((u.player_x(), u.player_y()), (3, 3));
}

#[test]
fn dead_player_finishes_and_queue_is_untouched() {
    let mut u = must_build(all_lava_five());
    u.tick(Direction::Right);
    u.tick(Direction::Up);
    assert!(!u.is_player_alive());
    u.queue_move(Direction::Down);
    u.queue_move(Direction::Left);
    assert_eq!(u.pending_moves(), 2);
    // Death wins over pause, and over any queued plan.
    u.pause();
    assert_eq!(u.tick(Direction::Down), GameState::Finished);
    assert_eq!(u.pending_moves(), 2);
    assert_eq!(u.tick_queued(), GameState::Finished);
    assert_eq!(u.pending_moves(), 2);
    assert_eq!((u.player_x(), u.player_y()), (3, 3));
}

#[test]
fn paused_tick_is_a_noop() {
    let mut u = must_build(Config::nine_by_nine());
    let cells_before = u.cells().clone();
    u.queue_move(Direction::Up);
    u.pause();
    assert_eq!(u.tick_queued(), GameState::Paused);
    assert_eq!(u.tick(Direction::Down), GameState::Paused);
    assert_eq!((u.player_x(), u.player_y()), (4, 8));
    assert_eq!(u.pending_moves(), 1);
    assert_eq!(u.cells(), &cells_before);
    // Resuming consumes the preserved queue as if never interrupted.
    u.play();
    assert_eq!(u.state(), GameState::Playing);
    assert_eq!(u.tick_queued(), GameState::Playing);
    assert_eq!((u.player_x(), u.player_y()), (4, 7));
    assert_eq!(u.pending_moves(), 0);
}

#[test]
fn queued_plan_moves_then_exhaustion_finishes() {
    let mut u = must_build(Config::nine_by_nine());
    assert_eq!((u.player_x(), u.player_y()), (4, 8));
    u.queue_move(Direction::Up);
    assert_eq!(u.tick_queued(), GameState::Playing);
    assert_eq!((u.player_x(), u.player_y()), (4, 7));
    // Exhausting the queue is itself terminal: Finished, position unchanged.
    assert_eq!(u.tick_queued(), GameState::Finished);
    assert_eq!((u.player_x(), u.player_y()), (4, 7));
    assert!(u.is_player_alive());
}

#[test]
fn fifo_replays_oldest_first() {
    let mut cfg = Config::nine_by_nine();
    cfg.discipline = QueueDiscipline::Fifo;
    let mut u = must_build(cfg);
    u.queue_move(Direction::Up);
    u.queue_move(Direction::Right);
    assert_eq!(u.tick_queued(), GameState::Playing);
    assert_eq!((u.player_x(), u.player_y()), (4, 7));
    assert_eq!(u.tick_queued(), GameState::Playing);
    assert_eq!((u.player_x(), u.player_y()), (5, 7));
}

#[test]
fn lifo_consumes_newest_first() {
    let mut u = must_build(Config::nine_by_nine());
    u.queue_move(Direction::Up);
    u.queue_move(Direction::Right);
    assert_eq!(u.tick_queued(), GameState::Playing);
    assert_eq!((u.player_x(), u.player_y()), (5, 8));
    assert_eq!(u.tick_queued(), GameState::Playing);
    assert_eq!((u.player_x(), u.player_y()), (5, 7));
}

#[test]
fn empty_fifo_finishes_without_moving() {
    let mut cfg = Config::nine_by_nine();
    cfg.discipline = QueueDiscipline::Fifo;
    let mut u = must_build(cfg);
    assert_eq!(u.tick_queued(), GameState::Finished);
    assert_eq!((u.player_x(), u.player_y()), (4, 8));
    assert_eq!(u.pending_moves(), 0);
}

#[test]
fn play_can_resume_a_finished_game() {
    let mut u = must_build(no_lava_five());
    for _ in 0..4 {
        u.tick(Direction::Up);
    }
    assert_eq!(u.state(), GameState::Finished);
    // play() is a bare state setter: it never touches player or grid, and a
    // finished-but-alive game resumes.
    u.play();
    assert_eq!(u.state(), GameState::Playing);
    assert_eq!(u.tick(Direction::Down), GameState::Playing);
    assert_eq!((u.player_x(), u.player_y()), (2, 1));
}

#[test]
fn player_index_and_goal_query() {
    let u = must_build(no_lava_five());
    assert_eq!(u.player_index(), 22);
    assert!(!u.is_player_on_goal());
    assert_eq!(u.width(), 5);
    assert_eq!(u.height(), 5);
}

#[test]
fn player_state_names_liveness() {
    assert_eq!(PlayerState::Alive, PlayerState::Alive);
    assert_ne!(PlayerState::Alive, PlayerState::Dead);
}

#[test]
fn invalid_configurations_are_rejected() {
    let good = Config::nine_by_nine();
    assert!(Universe::new_with_config(good).is_ok());
    let zero_width = Config { width: 0, ..good };
    match Universe::new_with_config(zero_width) {
        Err(e) => assert_eq!(e, ConfigError::InvalidConfiguration),
        Ok(_) => panic!("zero width was accepted"),
    }
    let zero_height = Config { height: 0, ..good };
    assert!(Universe::new_with_config(zero_height).is_err());
    let zero_den = Config { hazard_den: 0, ..good };
    assert!(Universe::new_with_config(zero_den).is_err());
    let over_unit = Config { hazard_num: 2, hazard_den: 1, ..good };
    assert!(Universe::new_with_config(over_unit).is_err());
    let too_large = Config { width: 70000, height: 70000, ..good };
    assert!(Universe::new_with_config(too_large).is_err());
}

#[test]
fn default_universe_matches_the_preset() {
    let u = Universe::new();
    assert_eq!(u.width(), 5);
    assert_eq!(u.height(), 5);
    assert_eq!(u.state(), GameState::Initial);
    assert_eq!((u.player_x(), u.player_y()), (2, 4));
    assert!(u.is_player_alive());
    assert_eq!(u.pending_moves(), 0);
    let cells = u.cells();
    assert_eq!(cells.len(), 25);
    for (i, cell) in cells.iter().enumerate() {
        if i == 2 {
            assert_eq!(*cell, Cell::Goal);
        } else if i == 22 || i % 2 == 1 {
            assert_eq!(*cell, Cell::Floor);
        } else {
            assert!(*cell == Cell::Floor || *cell == Cell::Lava);
        }
    }
}
