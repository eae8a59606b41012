use tetris_core::cell::TetrisCell;
use tetris_core::session::GameInfo;
use tetris_core::session::GameOption;
use tetris_core::session::GameState;

fn option_10_20(bag_mode: bool, seed: u32) -> GameOption {
    GameOption {
        column_count: 10,
        row_count: 20,
        board_width: 300,
        board_height: 600,
        bag_mode,
        seed,
    }
}

#[test]
fn a_new_session_is_idle_and_clear() {
    let game = GameInfo::new();
    assert_eq!(game.game_state(), GameState::Idle);
    assert_eq!(game.game_score, 0);
    assert!(game.current_mino.is_none());
    assert!(game.current_bag.is_empty());
    assert!(game.next_bag.is_empty());
    assert_eq!(game.tetris_board.column_count, 10);
    assert_eq!(game.tetris_board.row_count, 20);
    for cell in &game.tetris_board.cells {
        assert_eq!(*cell, TetrisCell::Empty);
    }
}

#[test]
fn start_enters_playing_and_first_tick_spawns() {
    let mut game = GameInfo::with_option(option_10_20(true, 21));
    assert!(game.start_game().is_some());
    assert_eq!(game.game_state(), GameState::Playing);
    assert!(game.current_mino.is_none());
    for cell in &game.tetris_board.cells {
        assert_eq!(*cell, TetrisCell::Empty);
    }

    game.tick();
    let mino = game.current_mino.expect("first tick draws a piece");
    let point = game.current_position;
    assert_eq!(point.x, 3);
    assert_eq!(point.y, 0);
    assert_eq!(game.game_state(), GameState::Playing);

    // The board under the footprint shows the footprint's occupied cells;
    // every other cell is still empty.
    let footprint = mino.cells();
    for r in 0..20usize {
        for c in 0..10usize {
            let in_footprint = r < footprint.len()
                && (c as i64 - point.x as i64) >= 0
                && ((c as i64 - point.x as i64) as usize) < footprint[r].len()
                && footprint[r][(c as i64 - point.x as i64) as usize] != TetrisCell::Empty;
            let expected = if in_footprint {
                footprint[r][c - point.x as usize]
            } else {
                TetrisCell::Empty
            };
            assert_eq!(game.tetris_board.cells[r * 10 + c], expected);
        }
    }
}

#[test]
fn tick_with_an_active_piece_changes_nothing() {
    let mut game = GameInfo::with_option(option_10_20(true, 21));
    game.start_game();
    game.tick();
    let board_before = game.tetris_board.flatten();
    let mino_before = game.current_mino;
    let score_before = game.game_score;
    game.tick();
    assert_eq!(game.tetris_board.flatten(), board_before);
    assert_eq!(game.current_mino, mino_before);
    assert_eq!(game.game_score, score_before);
    assert_eq!(game.game_state(), GameState::Playing);
}

#[test]
fn blocked_spawn_loses_without_touching_the_board() {
    let mut game = GameInfo::with_option(option_10_20(true, 5));
    for c in 0..10usize {
        game.tetris_board.cells[c] = TetrisCell::Red;
    }
    game.on_play = true;
    assert!(game.current_mino.is_none());

    let position_before = game.current_position;
    game.tick();
    assert_eq!(game.game_state(), GameState::Lost);
    assert!(game.lose);
    assert!(!game.on_play);
    // The piece and its anchor stay untouched along with the board.
    assert!(game.current_mino.is_none());
    assert_eq!(game.current_position, position_before);
    for c in 0..10usize {
        assert_eq!(game.tetris_board.cells[c], TetrisCell::Red);
    }
    for i in 10..200usize {
        assert_eq!(game.tetris_board.cells[i], TetrisCell::Empty);
    }
}

#[test]
fn a_tick_taken_while_lost_draws_again() {
    let mut game = GameInfo::with_option(option_10_20(true, 5));
    for c in 0..10usize {
        game.tetris_board.cells[c] = TetrisCell::Red;
    }
    game.on_play = true;
    game.tick();
    assert_eq!(game.game_state(), GameState::Lost);
    assert!(game.current_mino.is_none());
    let bag_before = game.current_bag.len();
    game.tick();
    // The spawn is still blocked, so the session stays Lost, but the
    // absent piece means the step drew from the bag again.
    assert_eq!(game.game_state(), GameState::Lost);
    assert!(game.current_mino.is_none());
    assert_eq!(game.current_bag.len(), bag_before - 1);
}

#[test]
fn start_while_playing_is_refused() {
    let mut game = GameInfo::with_option(option_10_20(true, 2));
    assert!(game.start_game().is_some());
    assert!(game.start_game().is_none());
    assert_eq!(game.game_state(), GameState::Playing);
}

#[test]
fn start_after_losing_begins_a_fresh_game() {
    let mut game = GameInfo::with_option(option_10_20(true, 5));
    for c in 0..10usize {
        game.tetris_board.cells[c] = TetrisCell::Red;
    }
    game.on_play = true;
    game.tick();
    assert_eq!(game.game_state(), GameState::Lost);

    assert!(game.start_game().is_some());
    assert_eq!(game.game_state(), GameState::Playing);
    assert_eq!(game.game_score, 0);
    assert!(game.current_bag.is_empty());
    assert!(game.next_bag.is_empty());
    for cell in &game.tetris_board.cells {
        assert_eq!(*cell, TetrisCell::Empty);
    }
}

#[test]
fn end_game_leaves_playing_and_keeps_the_rest() {
    let mut game = GameInfo::with_option(option_10_20(true, 8));
    game.start_game();
    game.tick();
    let board_before = game.tetris_board.flatten();
    assert!(game.end_game().is_some());
    assert_eq!(game.game_state(), GameState::Idle);
    assert!(!game.on_play);
    assert!(!game.lose);
    assert_eq!(game.tetris_board.flatten(), board_before);
}

#[test]
fn init_game_resets_bag_board_and_score() {
    let mut game = GameInfo::with_option(option_10_20(true, 8));
    game.start_game();
    game.tick();
    game.game_score = 1700;
    assert!(game.init_game().is_some());
    assert_eq!(game.game_score, 0);
    assert!(game.current_bag.is_empty());
    assert!(game.next_bag.is_empty());
    for cell in &game.tetris_board.cells {
        assert_eq!(*cell, TetrisCell::Empty);
    }
}

#[test]
fn render_frame_is_given_only_while_playing() {
    let mut game = GameInfo::with_option(option_10_20(true, 9));
    assert!(game.render_frame().is_none());
    game.start_game();
    let frame = game.render_frame().expect("playing sessions render");
    assert_eq!(frame.cells, game.tetris_board.flatten());
    assert_eq!(frame.board_width, 300);
    assert_eq!(frame.board_height, 600);
    assert_eq!(frame.column_count, 10);
    assert_eq!(frame.row_count, 20);
    game.end_game();
    assert!(game.render_frame().is_none());
}

#[test]
fn render_frame_tracks_the_board_snapshot() {
    let mut game = GameInfo::with_option(option_10_20(true, 10));
    game.start_game();
    game.tick();
    let frame = game.render_frame().expect("playing sessions render");
    assert_eq!(frame.cells, game.tetris_board.flatten());
    assert!(frame.cells.iter().any(|code| *code != 0));
}
