use snake_core::constant::{BOARD_COLS, BOARD_ROWS};
use snake_core::grid::{Position, Towards, WorldPoint};

#[test]
fn delta_of_each_direction() {
    assert_eq!(Towards::Down.delta(), Position { row: 1, col: 0 });
    assert_eq!(Towards::Up.delta(), Position { row: -1, col: 0 });
    assert_eq!(Towards::Left.delta(), Position { row: 0, col: -1 });
    assert_eq!(Towards::Right.delta(), Position { row: 0, col: 1 });
}

#[test]
fn oppose_pairs() {
    assert!(Towards::Left.oppose(Towards::Right));
    assert!(Towards::Right.oppose(Towards::Left));
    assert!(Towards::Up.oppose(Towards::Down));
    assert!(Towards::Down.oppose(Towards::Up));
    assert!(!Towards::Left.oppose(Towards::Left));
    assert!(!Towards::Left.oppose(Towards::Up));
    assert!(!Towards::Down.oppose(Towards::Right));
}

#[test]
fn plus_is_component_wise() {
    let a = Position { row: 3, col: -2 };
    let b = Position { row: -1, col: 7 };
    assert_eq!(a.plus(b), Position { row: 2, col: 5 });
}

#[test]
fn translation_of_origin_cell() {
    let w = Position { row: 0, col: 0 }.translation();
    assert_eq!(w, WorldPoint { x: -390, y: 290 });
}

#[test]
fn translation_of_far_corner_cell() {
    let w = Position { row: 29, col: 39 }.translation();
    assert_eq!(w, WorldPoint { x: 390, y: -290 });
}

#[test]
fn from_translation_inverts_translation_on_every_board_cell() {
    for row in 0..BOARD_ROWS {
        for col in 0..BOARD_COLS {
            let p = Position { row, col };
            let back = Position::from_translation(p.translation());
            assert_eq!(back, p);
        }
    }
}

#[test]
fn random_cells_stay_on_the_board() {
    for _ in 0..200 {
        let p = Position::random();
        assert!(0 <= p.row && p.row < BOARD_ROWS);
        assert!(0 <= p.col && p.col < BOARD_COLS);
    }
}
