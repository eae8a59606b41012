use tetris_core::cell::TetrisCell;

#[test]
fn round_trip_all_recognized_codes() {
    for code in 0..=8 {
        let cell = TetrisCell::from_code(code).expect("codes 0..=8 decode");
        assert_eq!(cell.into_code(), code);
    }
}

#[test]
fn out_of_range_codes_are_rejected() {
    assert!(TetrisCell::from_code(-1).is_none());
    assert!(TetrisCell::from_code(9).is_none());
    assert!(TetrisCell::from_code(100).is_none());
    assert!(TetrisCell::from_code(i32::MIN).is_none());
    assert!(TetrisCell::from_code(i32::MAX).is_none());
}

#[test]
fn encode_then_decode_returns_same_cell() {
    let cells = [
        TetrisCell::Empty,
        TetrisCell::Shadow,
        TetrisCell::Red,
        TetrisCell::Green,
        TetrisCell::Blue,
        TetrisCell::Purple,
        TetrisCell::Cyan,
        TetrisCell::Orange,
        TetrisCell::Yellow,
    ];
    for cell in cells {
        assert_eq!(TetrisCell::from_code(cell.into_code()), Some(cell));
    }
}

#[test]
fn distinct_variants_have_distinct_codes() {
    let cells = [
        TetrisCell::Empty,
        TetrisCell::Shadow,
        TetrisCell::Red,
        TetrisCell::Green,
        TetrisCell::Blue,
        TetrisCell::Purple,
        TetrisCell::Cyan,
        TetrisCell::Orange,
        TetrisCell::Yellow,
    ];
    for (i, a) in cells.iter().enumerate() {
        for (j, b) in cells.iter().enumerate() {
            if i != j {
                assert_ne!(a.into_code(), b.into_code());
            }
        }
    }
}

#[test]
fn default_cell_is_empty() {
    assert_eq!(TetrisCell::default(), TetrisCell::Empty);
    assert_eq!(TetrisCell::default().into_code(), 0);
}

#[test]
fn is_empty_holds_only_for_empty() {
    assert!(TetrisCell::Empty.is_empty());
    assert!(!TetrisCell::Red.is_empty());
    assert!(!TetrisCell::Shadow.is_empty());
    assert!(!TetrisCell::Yellow.is_empty());
}

#[test]
fn colors_are_total_over_all_variants() {
    assert_eq!(TetrisCell::Empty.to_color(), "white");
    assert_eq!(TetrisCell::Red.to_color(), "#f44336");
    assert_eq!(TetrisCell::Green.to_color(), "#53c858");
    assert_eq!(TetrisCell::Blue.to_color(), "#2157f3");
    assert_eq!(TetrisCell::Purple.to_color(), "#673ab7");
    assert_eq!(TetrisCell::Cyan.to_color(), "#32f6de");
    assert_eq!(TetrisCell::Orange.to_color(), "#ff9800");
    assert_eq!(TetrisCell::Yellow.to_color(), "#ffeb3b");
    assert_eq!(TetrisCell::Shadow.to_color(), "#697994");
}
