use tetris_core::bag::refill_bag;
use tetris_core::mino::MinoShape;
use tetris_core::mino::catalog;
use tetris_core::rng::GameRng;
use tetris_core::session::GameInfo;
use tetris_core::session::GameOption;

fn shape_index(m: MinoShape) -> usize {
    match m {
        MinoShape::I => 0,
        MinoShape::J => 1,
        MinoShape::L => 2,
        MinoShape::O => 3,
        MinoShape::S => 4,
        MinoShape::T => 5,
        MinoShape::Z => 6,
    }
}

fn option_10_20(bag_mode: bool, seed: u32) -> GameOption {
    GameOption {
        column_count: 10,
        row_count: 20,
        board_width: 300,
        board_height: 600,
        bag_mode,
        seed,
    }
}

#[test]
fn seven_bag_refill_is_a_permutation_of_the_catalog() {
    let mut rng = GameRng::new(99);
    for _ in 0..20 {
        let bag = refill_bag(&mut rng, &catalog(), true);
        assert_eq!(bag.len(), 7);
        let mut counts = [0usize; 7];
        for m in &bag {
            counts[shape_index(*m)] += 1;
        }
        assert_eq!(counts, [1, 1, 1, 1, 1, 1, 1]);
    }
}

#[test]
fn unrestricted_refill_yields_seven_shapes() {
    let mut rng = GameRng::new(5);
    let bag = refill_bag(&mut rng, &catalog(), false);
    assert_eq!(bag.len(), 7);
}

#[test]
fn seven_draws_exhaust_one_bag_exactly() {
    let mut game = GameInfo::with_option(option_10_20(true, 7));
    let mut counts = [0usize; 7];
    for _ in 0..7 {
        counts[shape_index(game.get_mino())] += 1;
    }
    assert_eq!(counts, [1, 1, 1, 1, 1, 1, 1]);
    assert_eq!(game.current_bag.len(), 0);
}

#[test]
fn eighth_draw_triggers_a_fresh_refill() {
    let mut game = GameInfo::with_option(option_10_20(true, 7));
    for _ in 0..7 {
        game.get_mino();
    }
    assert_eq!(game.current_bag.len(), 0);
    game.get_mino();
    assert_eq!(game.current_bag.len(), 6);
    assert_eq!(game.next_bag.len(), 7);
}

#[test]
fn a_draw_never_blocks_on_empty_queues() {
    let mut game = GameInfo::with_option(option_10_20(true, 3));
    assert_eq!(game.current_bag.len(), 0);
    assert_eq!(game.next_bag.len(), 0);
    game.get_mino();
    assert_eq!(game.current_bag.len(), 6);
    assert_eq!(game.next_bag.len(), 7);
}

#[test]
fn draws_pop_the_front_of_the_current_queue() {
    let mut game = GameInfo::with_option(option_10_20(true, 11));
    game.get_mino();
    let upcoming: Vec<MinoShape> = game.current_bag.clone();
    for expected in upcoming {
        assert_eq!(game.get_mino(), expected);
    }
}

#[test]
fn equal_seeds_draw_equal_sequences() {
    let mut a = GameInfo::with_option(option_10_20(true, 1234));
    let mut b = GameInfo::with_option(option_10_20(true, 1234));
    for _ in 0..21 {
        assert_eq!(a.get_mino(), b.get_mino());
    }
}

#[test]
fn shape_codes_round_trip() {
    for code in 0..=6 {
        let shape = MinoShape::from_code(code).expect("codes 0..=6 decode");
        assert_eq!(shape.into_code(), code);
    }
    assert!(MinoShape::from_code(-1).is_none());
    assert!(MinoShape::from_code(7).is_none());
}

#[test]
fn every_footprint_uses_one_color_and_fits_four_by_two() {
    for m in catalog() {
        let footprint = m.cells();
        assert!(!footprint.is_empty() && footprint.len() <= 2);
        let mut occupied = 0usize;
        for row in &footprint {
            assert!(!row.is_empty() && row.len() <= 4);
            for cell in row {
                if !cell.is_empty() {
                    occupied += 1;
                }
            }
        }
        // Every shape covers exactly four cells.
        assert_eq!(occupied, 4);
    }
}
