//! The game session: the aggregate of score, board, bags, flags and timer
//! intervals, with the state machine the periodic tick and render tasks
//! drive. The two tasks themselves live outside this crate; each one calls
//! a single bounded step here under the session's exclusive lock.

use vstd::prelude::*;

use crate::bag::is_fresh_bag;
use crate::bag::refill_bag;
use crate::board::TetrisBoard;
use crate::mino::MinoShape;
use crate::mino::catalog;
use crate::mino::catalog_seq;
use crate::point::Point;
use crate::rng::GameRng;
use crate::valid::spec_valid_mino;
use crate::valid::valid_mino;

verus! {

/// Construction-time configuration of a session.
#[derive(Clone, Copy, Debug, PartialEq, Eq, Structural)]
pub struct GameOption {
    /// Grid width in cells.
    pub column_count: u32,
    /// Grid height in cells.
    pub row_count: u32,
    /// Pixel canvas width, used only for the render hand-off.
    pub board_width: u32,
    /// Pixel canvas height, used only for the render hand-off.
    pub board_height: u32,
    /// True for seven-bag sequencing, false for unrestricted random draws.
    pub bag_mode: bool,
    /// Seed of the piece-supply generator.
    pub seed: u32,
}

impl Default for GameOption {
    /// A ten-by-twenty grid on a 300 by 600 canvas, with seven-bag
    /// sequencing.
    fn default() -> (r: Self)
        ensures
            r == (GameOption {
                column_count: 10,
                row_count: 20,
                board_width: 300,
                board_height: 600,
                bag_mode: true,
                seed: 1,
            }),
    {
        GameOption {
            column_count: 10,
            row_count: 20,
            board_width: 300,
            board_height: 600,
            bag_mode: true,
            seed: 1,
        }
    }
}

/// The three observable session states.
#[derive(Clone, Copy, Debug, PartialEq, Eq, Structural)]
pub enum GameState {
    Idle,
    Playing,
    Lost,
}

/// One board snapshot handed to the external drawing collaborator.
#[derive(Clone, Debug, PartialEq, Eq)]
pub struct RenderFrame {
    /// Flat row-major integer cell codes.
    pub cells: Vec<i32>,
    pub board_width: u32,
    pub board_height: u32,
    pub column_count: u32,
    pub row_count: u32,
}

/// The shared mutable aggregate of one game session. The two periodic
/// tasks each take the session's exclusive lock and run one bounded step:
/// `tick` for game logic, `render_frame` for the snapshot read.
pub struct GameInfo {
    pub game_score: u64,
    pub render_interval: u32,
    pub tick_interval: u32,
    pub current_position: Point,
    pub current_mino: Option<MinoShape>,
    pub freezed: bool,
    pub current_bag: Vec<MinoShape>,
    pub next_bag: Vec<MinoShape>,
    pub tetris_board: TetrisBoard,
    pub on_play: bool,
    pub lose: bool,
    pub bag_mode: bool,
    pub mino_list: Vec<MinoShape>,
    pub rng: GameRng,
}

/// What one piece draw does to the session at the tick step, given the
/// drawn shape `m`. A valid placement at the canonical spawn position
/// records the piece and its anchor and writes the footprint onto the
/// board; an invalid one transitions to `Lost`, leaving board, piece and
/// position exactly as they were.
pub open spec fn spec_tick_outcome(pre: GameInfo, post: GameInfo, m: MinoShape) -> bool {
    let start = Point::spec_start_point(pre.tetris_board.column_count);
    if spec_valid_mino(pre.tetris_board, m, start) {
        &&& post.current_mino == Some(m)
        &&& post.current_position == start
        &&& post.on_play == pre.on_play
        &&& post.lose == pre.lose
        &&& forall|r: int, c: int|
            0 <= r < pre.tetris_board.row_count as int && 0 <= c
                < pre.tetris_board.column_count as int ==> #[trigger] post.tetris_board.spec_cell(
                r,
                c,
            ) == pre.tetris_board.spec_spawn_cell(m, start, r, c)
    } else {
        &&& post.current_mino == pre.current_mino
        &&& post.current_position == pre.current_position
        &&& !post.on_play
        &&& post.lose
        &&& post.tetris_board == pre.tetris_board
    }
}

impl GameInfo {
    /// The session invariant: a well-formed board, the full catalog, and a
    /// lost session is never playing.
    pub open spec fn wf(self) -> bool {
        &&& self.tetris_board.wf()
        &&& self.mino_list@ == catalog_seq()
        &&& (self.lose ==> !self.on_play)
    }

    /// The observable state: `Playing` while `on_play` is set, `Lost` after
    /// a failed spawn, `Idle` otherwise.
    pub open spec fn spec_state(self) -> GameState {
        if self.on_play {
            GameState::Playing
        } else if self.lose {
            GameState::Lost
        } else {
            GameState::Idle
        }
    }

    /// Reads the observable state.
    pub fn game_state(&self) -> (r: GameState)
        ensures
            r == self.spec_state(),
    {
        if self.on_play {
            GameState::Playing
        } else if self.lose {
            GameState::Lost
        } else {
            GameState::Idle
        }
    }

    /// Builds an idle session from the given configuration: empty board,
    /// empty bags, zero score, no active piece.
    pub fn with_option(option: GameOption) -> (r: GameInfo)
        requires
            option.column_count >= 1,
            option.row_count >= 1,
            option.row_count as int * option.column_count as int <= usize::MAX as int,
        ensures
            r.wf(),
            r.game_score == 0,
            r.render_interval == 100,
            r.tick_interval == 1000,
            r.current_position == (Point { x: 0, y: 0 }),
            r.current_mino is None,
            !r.freezed,
            r.current_bag@.len() == 0,
            r.next_bag@.len() == 0,
            r.tetris_board.all_empty(),
            r.tetris_board.column_count == option.column_count,
            r.tetris_board.row_count == option.row_count,
            r.tetris_board.board_width == option.board_width,
            r.tetris_board.board_height == option.board_height,
            !r.on_play,
            !r.lose,
            r.bag_mode == option.bag_mode,
            r.rng.state == option.seed,
    {
        let tetris_board = TetrisBoard::create(
            option.column_count,
            option.row_count,
            option.board_width,
            option.board_height,
        );
        GameInfo {
            game_score: 0,
            render_interval: 100,
            tick_interval: 1000,
            current_position: Point { x: 0, y: 0 },
            current_mino: None,
            freezed: false,
            current_bag: Vec::new(),
            next_bag: Vec::new(),
            tetris_board,
            on_play: false,
            lose: false,
            bag_mode: option.bag_mode,
            mino_list: catalog(),
            rng: GameRng::new(option.seed),
        }
    }

    /// Builds an idle session with the default configuration: the same
    /// state as construction from the default option.
    pub fn new() -> (r: GameInfo)
        ensures
            r.wf(),
            r.game_score == 0,
            r.render_interval == 100,
            r.tick_interval == 1000,
            r.current_position == (Point { x: 0, y: 0 }),
            r.current_mino is None,
            !r.freezed,
            r.current_bag@.len() == 0,
            r.next_bag@.len() == 0,
            r.tetris_board.all_empty(),
            r.tetris_board.column_count == 10,
            r.tetris_board.row_count == 20,
            r.tetris_board.board_width == 300,
            r.tetris_board.board_height == 600,
            !r.on_play,
            !r.lose,
            r.bag_mode,
            r.rng.state == 1,
    {
        Self::with_option(Default::default())
    }

    /// Clears both supply queues.
    pub fn init_bag(&mut self) -> (r: Option<()>)
        requires
            old(self).wf(),
        ensures
            r is Some,
            final(self).wf(),
            final(self).current_bag@.len() == 0,
            final(self).next_bag@.len() == 0,
            final(self).game_score == old(self).game_score,
            final(self).tetris_board == old(self).tetris_board,
            final(self).current_mino == old(self).current_mino,
            final(self).current_position == old(self).current_position,
            final(self).freezed == old(self).freezed,
            final(self).on_play == old(self).on_play,
            final(self).lose == old(self).lose,
            final(self).bag_mode == old(self).bag_mode,
            final(self).mino_list == old(self).mino_list,
            final(self).rng == old(self).rng,
            final(self).tick_interval == old(self).tick_interval,
            final(self).render_interval == old(self).render_interval,
    {
        self.current_bag = Vec::new();
        self.next_bag = Vec::new();
        Some(())
    }

    /// Resets every board cell to `Empty`, keeping the dimensions fixed at
    /// construction.
    pub fn init_board(&mut self) -> (r: Option<()>)
        requires
            old(self).wf(),
            old(self).tetris_board.row_count as int * old(self).tetris_board.column_count as int
                <= usize::MAX as int,
        ensures
            r is Some,
            final(self).wf(),
            final(self).tetris_board.all_empty(),
            final(self).tetris_board.column_count == old(self).tetris_board.column_count,
            final(self).tetris_board.row_count == old(self).tetris_board.row_count,
            final(self).tetris_board.board_width == old(self).tetris_board.board_width,
            final(self).tetris_board.board_height == old(self).tetris_board.board_height,
            final(self).game_score == old(self).game_score,
            final(self).current_bag == old(self).current_bag,
            final(self).next_bag == old(self).next_bag,
            final(self).current_mino == old(self).current_mino,
            final(self).current_position == old(self).current_position,
            final(self).freezed == old(self).freezed,
            final(self).on_play == old(self).on_play,
            final(self).lose == old(self).lose,
            final(self).bag_mode == old(self).bag_mode,
            final(self).mino_list == old(self).mino_list,
            final(self).rng == old(self).rng,
            final(self).tick_interval == old(self).tick_interval,
            final(self).render_interval == old(self).render_interval,
    {
        let column_count = self.tetris_board.column_count;
        let row_count = self.tetris_board.row_count;
        self.tetris_board = TetrisBoard::create(
            column_count,
            row_count,
            self.tetris_board.board_width,
            self.tetris_board.board_height,
        );
        Some(())
    }

    /// Resets the score to zero.
    pub fn init_score(&mut self) -> (r: Option<()>)
        requires
            old(self).wf(),
        ensures
            r is Some,
            final(self).wf(),
            final(self).game_score == 0,
            final(self).tetris_board == old(self).tetris_board,
            final(self).current_bag == old(self).current_bag,
            final(self).next_bag == old(self).next_bag,
            final(self).current_mino == old(self).current_mino,
            final(self).current_position == old(self).current_position,
            final(self).freezed == old(self).freezed,
            final(self).on_play == old(self).on_play,
            final(self).lose == old(self).lose,
            final(self).bag_mode == old(self).bag_mode,
            final(self).mino_list == old(self).mino_list,
            final(self).rng == old(self).rng,
            final(self).tick_interval == old(self).tick_interval,
            final(self).render_interval == old(self).render_interval,
    {
        self.game_score = 0;
        Some(())
    }

    /// Reinitializes bag, board and score for a fresh game.
    pub fn init_game(&mut self) -> (r: Option<()>)
        requires
            old(self).wf(),
            old(self).tetris_board.row_count as int * old(self).tetris_board.column_count as int
                <= usize::MAX as int,
        ensures
            r is Some,
            final(self).wf(),
            final(self).current_bag@.len() == 0,
            final(self).next_bag@.len() == 0,
            final(self).tetris_board.all_empty(),
            final(self).tetris_board.column_count == old(self).tetris_board.column_count,
            final(self).tetris_board.row_count == old(self).tetris_board.row_count,
            final(self).tetris_board.board_width == old(self).tetris_board.board_width,
            final(self).tetris_board.board_height == old(self).tetris_board.board_height,
            final(self).game_score == 0,
            final(self).current_mino == old(self).current_mino,
            final(self).current_position == old(self).current_position,
            final(self).freezed == old(self).freezed,
            final(self).on_play == old(self).on_play,
            final(self).lose == old(self).lose,
            final(self).bag_mode == old(self).bag_mode,
            final(self).mino_list == old(self).mino_list,
            final(self).rng == old(self).rng,
            final(self).tick_interval == old(self).tick_interval,
            final(self).render_interval == old(self).render_interval,
    {
        self.init_bag()?;
        self.init_board()?;
        self.init_score()?;
        Some(())
    }

    /// Starts a game: only from `Idle` or `Lost`. Reinitializes bag, board
    /// and score, then enters `Playing`. Returns `None`, changing nothing,
    /// if a game is already running.
    pub fn start_game(&mut self) -> (r: Option<()>)
        requires
            old(self).wf(),
            old(self).tetris_board.row_count as int * old(self).tetris_board.column_count as int
                <= usize::MAX as int,
        ensures
            final(self).wf(),
            old(self).on_play ==> r is None && *final(self) == *old(self),
            !old(self).on_play ==> r is Some && final(self).spec_state() == GameState::Playing
                && final(self).on_play && !final(self).lose && final(self).game_score == 0
                && final(self).current_bag@.len() == 0 && final(self).next_bag@.len() == 0
                && final(self).tetris_board.all_empty() && final(self).tetris_board.column_count
                == old(self).tetris_board.column_count && final(self).tetris_board.row_count
                == old(self).tetris_board.row_count && final(self).tetris_board.board_width
                == old(self).tetris_board.board_width && final(self).tetris_board.board_height
                == old(self).tetris_board.board_height && final(self).current_mino == old(self).current_mino && final(self).bag_mode == old(self).bag_mode && final(self).rng
                == old(self).rng && final(self).current_position == old(self).current_position
                && final(self).freezed == old(self).freezed && final(self).mino_list == old(self).mino_list
                && final(self).tick_interval == old(self).tick_interval
                && final(self).render_interval == old(self).render_interval,
    {
        if self.on_play {
            return None;
        }
        self.init_game()?;
        self.on_play = true;
        self.lose = false;
        Some(())
    }

    /// Stops rendering by leaving `Playing`; the `lose` flag is not
    /// cleared.
    pub fn end_game(&mut self) -> (r: Option<()>)
        requires
            old(self).wf(),
        ensures
            r is Some,
            final(self).wf(),
            !final(self).on_play,
            old(self).spec_state() == GameState::Playing ==> final(self).spec_state()
                == GameState::Idle,
            final(self).lose == old(self).lose,
            final(self).game_score == old(self).game_score,
            final(self).tetris_board == old(self).tetris_board,
            final(self).current_bag == old(self).current_bag,
            final(self).next_bag == old(self).next_bag,
            final(self).current_mino == old(self).current_mino,
            final(self).current_position == old(self).current_position,
            final(self).freezed == old(self).freezed,
            final(self).bag_mode == old(self).bag_mode,
            final(self).mino_list == old(self).mino_list,
            final(self).rng == old(self).rng,
            final(self).tick_interval == old(self).tick_interval,
            final(self).render_interval == old(self).render_interval,
    {
        self.on_play = false;
        Some(())
    }

    /// Removes and returns the next piece from the current supply queue.
    /// A draw never blocks: when the current queue is empty the next queue
    /// moves in (itself refilled first if both were empty), and a fresh
    /// next queue is filled for future use.
    pub fn get_mino(&mut self) -> (m: MinoShape)
        requires
            old(self).wf(),
        ensures
            final(self).wf(),
            final(self).game_score == old(self).game_score,
            final(self).tetris_board == old(self).tetris_board,
            final(self).current_mino == old(self).current_mino,
            final(self).current_position == old(self).current_position,
            final(self).freezed == old(self).freezed,
            final(self).on_play == old(self).on_play,
            final(self).lose == old(self).lose,
            final(self).bag_mode == old(self).bag_mode,
            final(self).mino_list == old(self).mino_list,
            final(self).tick_interval == old(self).tick_interval,
            final(self).render_interval == old(self).render_interval,
            old(self).current_bag@.len() > 0 ==> m == old(self).current_bag@[0] && final(self).current_bag@ == old(self).current_bag@.drop_first() && final(self).next_bag == old(self).next_bag && final(self).rng == old(self).rng,
            old(self).current_bag@.len() == 0 && old(self).next_bag@.len() > 0 ==> m == old(self).next_bag@[0] && final(self).current_bag@ == old(self).next_bag@.drop_first()
                && is_fresh_bag(final(self).next_bag@, old(self).bag_mode),
            old(self).current_bag@.len() == 0 && old(self).next_bag@.len() == 0 ==> is_fresh_bag(
                seq![m] + final(self).current_bag@,
                old(self).bag_mode,
            ) && is_fresh_bag(final(self).next_bag@, old(self).bag_mode),
    {
        if self.current_bag.len() == 0 {
            if self.next_bag.len() == 0 {
                let fresh = refill_bag(&mut self.rng, &self.mino_list, self.bag_mode);
                self.next_bag = fresh;
            }
            core::mem::swap(&mut self.current_bag, &mut self.next_bag);
            let fresh = refill_bag(&mut self.rng, &self.mino_list, self.bag_mode);
            self.next_bag = fresh;
        }
        let ghost drawn_from = self.current_bag@;
        let m = self.current_bag.remove(0);
        proof {
            assert(seq![m] + self.current_bag@ =~= drawn_from);
        }
        m
    }

    /// One step of the logic task. With an active piece the step does
    /// nothing further at this layer. With none, it draws a piece and
    /// validates it at the canonical spawn position: a valid spawn records
    /// the piece and its anchor and writes the footprint onto the board;
    /// an invalid one transitions to `Lost`, leaving board, piece and
    /// position untouched. Since the piece then stays absent, a later tick
    /// taken in the `Lost` state draws again.
    pub fn tick(&mut self)
        requires
            old(self).wf(),
        ensures
            final(self).wf(),
            old(self).current_mino is Some ==> *final(self) == *old(self),
            old(self).current_mino is None ==> final(self).game_score == old(self).game_score
                && final(self).freezed == old(self).freezed && final(self).bag_mode == old(self).bag_mode && final(self).mino_list == old(self).mino_list && final(self).tick_interval == old(self).tick_interval && final(self).render_interval == old(self).render_interval && final(self).tetris_board.column_count == old(self).tetris_board.column_count && final(self).tetris_board.row_count == old(self).tetris_board.row_count && final(self).tetris_board.board_width == old(self).tetris_board.board_width && final(self).tetris_board.board_height == old(self).tetris_board.board_height,
            old(self).current_mino is None && old(self).current_bag@.len() > 0
                ==> spec_tick_outcome(*old(self), *final(self), old(self).current_bag@[0])
                && final(self).current_bag@ == old(self).current_bag@.drop_first() && final(self).next_bag == old(self).next_bag,
            old(self).current_mino is None && old(self).current_bag@.len() == 0 && old(self).next_bag@.len() > 0 ==> spec_tick_outcome(
                *old(self),
                *final(self),
                old(self).next_bag@[0],
            ) && final(self).current_bag@ == old(self).next_bag@.drop_first() && is_fresh_bag(
                final(self).next_bag@,
                old(self).bag_mode,
            ),
            old(self).current_mino is None && old(self).current_bag@.len() == 0 && old(self).next_bag@.len() == 0 ==> (exists|m: MinoShape|
                #[trigger] spec_tick_outcome(*old(self), *final(self), m) && is_fresh_bag(
                    seq![m] + final(self).current_bag@,
                    old(self).bag_mode,
                )) && is_fresh_bag(final(self).next_bag@, old(self).bag_mode),
    {
        match self.current_mino {
            Some(_) => {},
            None => {
                let mino = self.get_mino();
                let point = Point::start_point(self.tetris_board.column_count);
                if !valid_mino(&self.tetris_board, &mino, point) {
                    self.on_play = false;
                    self.lose = true;
                } else {
                    self.current_mino = Some(mino);
                    self.current_position = point;
                    self.tetris_board.spawn_mino(mino, point);
                }
                proof {
                    assert(spec_tick_outcome(*old(self), *self, mino));
                }
            },
        }
    }

    /// One step of the render task: the board snapshot to draw, or nothing
    /// while the session is not playing.
    pub fn render_frame(&self) -> (r: Option<RenderFrame>)
        requires
            self.wf(),
        ensures
            r is Some <==> self.on_play,
            r is Some ==> (r->0).cells@ == self.tetris_board.spec_flat() && (r->0).board_width
                == self.tetris_board.board_width && (r->0).board_height
                == self.tetris_board.board_height && (r->0).column_count
                == self.tetris_board.column_count && (r->0).row_count
                == self.tetris_board.row_count,
    {
        if self.on_play {
            Some(
                RenderFrame {
                    cells: self.tetris_board.flatten(),
                    board_width: self.tetris_board.board_width,
                    board_height: self.tetris_board.board_height,
                    column_count: self.tetris_board.column_count,
                    row_count: self.tetris_board.row_count,
                },
            )
        } else {
            None
        }
    }
}

impl Default for GameInfo {
    /// An idle session with the default configuration: the same state as
    /// construction from the default option.
    fn default() -> (r: Self)
        ensures
            r.wf(),
            r.game_score == 0,
            r.render_interval == 100,
            r.tick_interval == 1000,
            r.current_position == (Point { x: 0, y: 0 }),
            r.current_mino is None,
            !r.freezed,
            r.current_bag@.len() == 0,
            r.next_bag@.len() == 0,
            r.tetris_board.all_empty(),
            r.tetris_board.column_count == 10,
            r.tetris_board.row_count == 20,
            r.tetris_board.board_width == 300,
            r.tetris_board.board_height == 600,
            !r.on_play,
            !r.lose,
            r.bag_mode,
            r.rng.state == 1,
    {
        Self::new()
    }
}

} // verus!


