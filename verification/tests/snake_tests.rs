use std::collections::VecDeque;

use snake_core::constant::SNAKE_DEFAULT_LEN;
use snake_core::grid::{Position, Towards};
use snake_core::snake::{Snake, SnakeManager, SNAKE_DEFAULT_TOWARDS};

fn straight_snake(len: u64) -> Snake {
    // Entities numbered from the tail: the front (head) carries the largest.
    let mut body: VecDeque<(Towards, u64)> = VecDeque::new();
    for e in 0..len {
        body.push_front((Towards::Right, e));
    }
    Snake { head: Towards::Right, body, grow: 0 }
}

#[test]
fn fresh_manager_defaults() {
    let m = SnakeManager::new();
    assert_eq!(m.snake.grow, SNAKE_DEFAULT_LEN);
    assert!(matches!(m.snake.head, Towards::Right));
    assert!(matches!(SNAKE_DEFAULT_TOWARDS, Towards::Right));
    assert!(m.snake.body.is_empty());
    assert_eq!(m.head_position, Position { row: 0, col: 0 });
    assert_eq!(m.tail_position, Position { row: 0, col: 0 });
    assert!(m.reward.is_none());
}

#[test]
fn advance_with_pending_growth_keeps_tail() {
    let mut s = straight_snake(2);
    s.grow = 3;
    let removed = s.advance(10);
    assert!(removed.is_none());
    assert_eq!(s.body.len(), 3);
    assert_eq!(s.grow, 2);
    assert_eq!(*s.body.front().unwrap(), (Towards::Right, 10));
    assert_eq!(*s.body.back().unwrap(), (Towards::Right, 0));
}

#[test]
fn advance_without_growth_returns_the_tail() {
    // Scenario: body length 6, heading Right, no growth pending.
    let mut s = straight_snake(6);
    let removed = s.advance(6);
    assert_eq!(removed, Some((Towards::Right, 0)));
    assert_eq!(s.body.len(), 6);
    assert_eq!(*s.body.front().unwrap(), (Towards::Right, 6));
    assert_eq!(*s.body.back().unwrap(), (Towards::Right, 1));
    assert_eq!(s.grow, 0);
}

#[test]
fn steady_state_length_after_growth_is_consumed() {
    // Pending growth 2 and one pickup of 1: three advances lengthen the
    // body, every later advance keeps it at its steady-state length.
    let mut s = straight_snake(4);
    s.grow = 2;
    s.grow(1);
    assert_eq!(s.grow, 3);
    for k in 0..3 {
        assert!(s.advance(100 + k).is_none());
        assert_eq!(s.body.len(), 5 + k as usize);
    }
    assert_eq!(s.grow, 0);
    for k in 0..4 {
        assert!(s.advance(200 + k).is_some());
        assert_eq!(s.body.len(), 7);
    }
}

#[test]
fn grow_is_additive_across_pickups() {
    let mut s = straight_snake(1);
    s.grow(1);
    s.grow(2);
    assert_eq!(s.grow, 3);
}

#[test]
fn change_towards_rejects_reversal_into_neck() {
    // Scenario: the segment behind the head was reached via Right; a Left
    // request is rejected and the heading stays unchanged.
    let mut s = straight_snake(3);
    s.change_towards(Towards::Left);
    assert!(matches!(s.head, Towards::Right));
}

#[test]
fn change_towards_takes_non_reversing_request() {
    let mut s = straight_snake(3);
    s.change_towards(Towards::Up);
    assert!(matches!(s.head, Towards::Up));
    // Buffered changes guard against the committed body, not the pending
    // heading: Left still opposes the neck and stays rejected, while Down,
    // though opposite the pending Up, is allowed.
    s.change_towards(Towards::Left);
    assert!(matches!(s.head, Towards::Up));
    s.change_towards(Towards::Down);
    assert!(matches!(s.head, Towards::Down));
}

#[test]
fn guarded_change_then_advance_never_reverses_into_neck() {
    // Every request in turn, against every straight neck: after the change
    // and an advance the new head segment never opposes its neighbour.
    let dirs = [Towards::Left, Towards::Right, Towards::Up, Towards::Down];
    for &neck in &dirs {
        for &req in &dirs {
            let mut body: VecDeque<(Towards, u64)> = VecDeque::new();
            body.push_front((neck, 0));
            let mut s = Snake { head: neck, body, grow: 1 };
            s.change_towards(req);
            s.advance(1);
            let front = s.body[0].0;
            let behind = s.body[1].0;
            assert!(!front.oppose(behind));
        }
    }
}

#[test]
fn head_position_tracks_the_vector_sum_of_headings() {
    // Headings Right, Right, Down, Left applied from (0, 0) land on (1, 1):
    // the sum of the unit steps, applied in order.
    let mut m = SnakeManager::new();
    let path = [Towards::Right, Towards::Right, Towards::Down, Towards::Left];
    for &t in &path {
        m.snake.head = t;
        m.update_head_position();
    }
    assert_eq!(m.head_position, Position { row: 1, col: 1 });
}

#[test]
fn update_tail_position_applies_the_direction() {
    let mut m = SnakeManager::new();
    let p = m.update_tail_position(Towards::Down);
    assert_eq!(p, Position { row: 1, col: 0 });
    assert_eq!(m.tail_position, Position { row: 1, col: 0 });
    assert_eq!(m.head_position, Position { row: 0, col: 0 });
}
