//! The snake's positional state machine: the ordered body, the heading, the
//! pending-growth counter, and the incrementally tracked head and tail cells.
//!
//! Body segments carry the opaque entity handle the renderer knows them by;
//! the core never looks inside a handle, it only stores and returns it.

use std::collections::VecDeque;

use vstd::prelude::*;

use crate::constant::SNAKE_DEFAULT_LEN;
use crate::grid::{is_opposite, Position, Towards};

verus! {

/// The direction the snake starts out heading.
pub const SNAKE_DEFAULT_TOWARDS: Towards = Towards::Right;

/// The snake proper: an ordered body, front = most recently added (head),
/// back = oldest (tail).  Each element pairs the direction taken to reach
/// that segment with the renderer's handle for it.  `head` is the direction
/// the next advance will take; `grow` counts future advances that must not
/// shrink the tail.
#[derive(Debug)]
pub struct Snake {
    pub head: Towards,
    pub body: VecDeque<(Towards, u64)>,
    pub grow: usize,
}

/// No adjacent pair of body segments points opposite ways, and the pending
/// heading does not point straight back into the segment the head is
/// attached to.  Guarded heading changes and advances preserve this.
pub open spec fn neck_safe(body: Seq<(Towards, u64)>) -> bool {
    forall|i: int|
        0 <= i && i + 1 < body.len() ==> !is_opposite((#[trigger] body[i]).0, body[i + 1].0)
}

/// The heading left behind by a change request: the request is taken unless
/// it points straight back into the segment the head is attached to.
pub open spec fn guarded_heading(current: Towards, front: Towards, requested: Towards) -> Towards {
    if is_opposite(requested, front) {
        current
    } else {
        requested
    }
}

/// Net effect of one advance on body length and pending growth: a pending
/// growth is consumed to lengthen the body, otherwise both stay as they are
/// (the new head segment is paid for by the dropped tail).
pub open spec fn advance_step(len: nat, grow: nat) -> (nat, nat) {
    if grow > 0 {
        ((len + 1) as nat, (grow - 1) as nat)
    } else {
        (len, grow)
    }
}

/// Body length and pending growth after `k` advances with no pickups.
pub open spec fn advance_iter(len: nat, grow: nat, k: nat) -> (nat, nat)
    decreases k,
{
    if k == 0 {
        (len, grow)
    } else {
        let s = advance_step(len, grow);
        advance_iter(s.0, s.1, (k - 1) as nat)
    }
}

/// Law: advancing never changes body length plus pending growth; growth
/// added by reward pickups is therefore exactly the eventual length gain.
pub proof fn lemma_advance_preserves_sum(len: nat, grow: nat, k: nat)
    ensures
        advance_iter(len, grow, k).0 + advance_iter(len, grow, k).1 == len + grow,
    decreases k,
{
    if k > 0 {
        let s = advance_step(len, grow);
        lemma_advance_preserves_sum(s.0, s.1, (k - 1) as nat);
    }
}

/// Law (steady state): once at least `grow` advances have happened, the body
/// has its steady-state length `len + grow`, no growth is pending, and both
/// stay that way for every later advance.
pub proof fn lemma_steady_state_length(len: nat, grow: nat, k: nat)
    requires
        k >= grow,
    ensures
        advance_iter(len, grow, k).0 == len + grow,
        advance_iter(len, grow, k).1 == 0,
    decreases k,
{
    if k > 0 {
        let s = advance_step(len, grow);
        lemma_steady_state_length(s.0, s.1, (k - 1) as nat);
    }
}

/// Law (reversal guard): if the current heading does not point back into the
/// front segment, no guarded change request can make it do so; the next
/// advance therefore never attaches a head segment opposite its neighbour.
pub proof fn lemma_reversal_guard(current: Towards, front: Towards, requested: Towards)
    requires
        !is_opposite(current, front),
    ensures
        !is_opposite(guarded_heading(current, front, requested), front),
{
}

impl Snake {
    /// The snake's invariant: the body's neck chain never reverses and the
    /// pending heading cannot reverse into the front segment.
    pub open spec fn wf(self) -> bool {
        &&& neck_safe(self.body@)
        &&& self.body@.len() > 0 ==> !is_opposite(self.head, self.body@[0].0)
    }

    /// One advance: the new head segment joins at the front under the current
    /// heading; a pending growth keeps the tail, otherwise the tail segment
    /// leaves and is returned for the caller to destroy.
    pub fn advance(&mut self, entity: u64) -> (removed: Option<(Towards, u64)>)
        ensures
            final(self).head == old(self).head,
            ({
                let pushed = seq![(old(self).head, entity)] + old(self).body@;
                if old(self).grow > 0 {
                    &&& final(self).body@ == pushed
                    &&& final(self).grow == old(self).grow - 1
                    &&& removed is None
                } else {
                    &&& final(self).body@ == pushed.drop_last()
                    &&& final(self).grow == old(self).grow
                    &&& removed == Some(pushed.last())
                }
            }),
            (final(self).body@.len() as nat, final(self).grow as nat) == advance_step(
                old(self).body@.len() as nat,
                old(self).grow as nat,
            ),
            old(self).wf() ==> final(self).wf(),
    {
        self.body.push_front((self.head, entity));
        if self.grow > 0 {
            self.grow = self.grow - 1;
            None
        } else {
            self.body.pop_back()
        }
    }

    /// A guarded heading change: the request is ignored when it points
    /// straight back into the segment the head is attached to, so buffered
    /// direction changes can never make the snake reverse into its neck.
    pub fn change_towards(&mut self, towards: Towards)
        requires
            old(self).body@.len() > 0,
        ensures
            final(self).body@ == old(self).body@,
            final(self).grow == old(self).grow,
            final(self).head == guarded_heading(old(self).head, old(self).body@[0].0, towards),
            old(self).wf() ==> final(self).wf(),
    {
        let next_towards = self.body[0].0;
        if !towards.oppose(next_towards) {
            self.head = towards;
        }
    }

    /// Adds `len` to the pending growth; pickups before the next advance
    /// compound.
    pub fn grow(&mut self, len: usize)
        requires
            old(self).grow + len <= usize::MAX,
        ensures
            final(self).head == old(self).head,
            final(self).body@ == old(self).body@,
            final(self).grow == old(self).grow + len,
    {
        self.grow = self.grow + len;
    }
}

/// Owns the snake plus the incrementally tracked head and tail cells and the
/// at-most-one active reward: its cell and the renderer's handle for it.
#[derive(Debug)]
pub struct SnakeManager {
    pub snake: Snake,
    pub tail_position: Position,
    pub head_position: Position,
    pub reward: Option<(Position, u64)>,
}

impl Default for SnakeManager {
    /// A fresh simulation: an empty body about to grow to the default
    /// length, heading right, head and tail caches on the origin cell, and
    /// no reward yet.
    fn default() -> (m: Self)
        ensures
            m.snake.head == SNAKE_DEFAULT_TOWARDS,
            m.snake.body@ == Seq::<(Towards, u64)>::empty(),
            m.snake.grow == SNAKE_DEFAULT_LEN,
            m.head_position == (Position { row: 0, col: 0 }),
            m.tail_position == (Position { row: 0, col: 0 }),
            m.reward is None,
            m.snake.wf(),
    {
        Self {
            snake: Snake {
                grow: SNAKE_DEFAULT_LEN,
                head: SNAKE_DEFAULT_TOWARDS,
                body: VecDeque::new(),
            },
            head_position: Position { row: 0, col: 0 },
            tail_position: Position { row: 0, col: 0 },
            reward: None,
        }
    }
}

impl SnakeManager {
    /// Same as `Default::default`: a fresh simulation.
    pub fn new() -> (m: Self)
        ensures
            m.snake.head == SNAKE_DEFAULT_TOWARDS,
            m.snake.body@ == Seq::<(Towards, u64)>::empty(),
            m.snake.grow == SNAKE_DEFAULT_LEN,
            m.head_position == (Position { row: 0, col: 0 }),
            m.tail_position == (Position { row: 0, col: 0 }),
            m.reward is None,
            m.snake.wf(),
    {
        Self::default()
    }

    /// Moves the tail cache one step along `towards`, the direction carried
    /// by the tail segment that has just been dropped.
    pub fn update_tail_position(&mut self, towards: Towards) -> (p: Position)
        requires
            i64::MIN <= old(self).tail_position.row + towards.delta_row() <= i64::MAX,
            i64::MIN <= old(self).tail_position.col + towards.delta_col() <= i64::MAX,
        ensures
            final(self).tail_position.row == old(self).tail_position.row + towards.delta_row(),
            final(self).tail_position.col == old(self).tail_position.col + towards.delta_col(),
            p == final(self).tail_position,
            final(self).head_position == old(self).head_position,
            final(self).snake == old(self).snake,
            final(self).reward == old(self).reward,
    {
        let new_snake_posit = self.tail_position.plus(towards.delta());
        self.tail_position = new_snake_posit;
        new_snake_posit
    }

    /// Moves the head cache one step along the current heading; every
    /// advance must be paired with exactly one such update.
    pub fn update_head_position(&mut self) -> (p: Position)
        requires
            i64::MIN <= old(self).head_position.row + old(self).snake.head.delta_row()
                <= i64::MAX,
            i64::MIN <= old(self).head_position.col + old(self).snake.head.delta_col()
                <= i64::MAX,
        ensures
            final(self).head_position.row == old(self).head_position.row
                + old(self).snake.head.delta_row(),
            final(self).head_position.col == old(self).head_position.col
                + old(self).snake.head.delta_col(),
            p == final(self).head_position,
            final(self).tail_position == old(self).tail_position,
            final(self).snake == old(self).snake,
            final(self).reward == old(self).reward,
    {
        let new_snake_posit = self.head_position.plus(self.snake.head.delta());
        self.head_position = new_snake_posit;
        new_snake_posit
    }
}

} // verus!
