//! Per-tick orchestration: advance the head, detect collision with the body,
//! consume and respawn the reward, trim the tail, and report what the
//! renderer must create or destroy.
//!
//! A tick is atomic: nothing else mutates the snake or the reward while one
//! runs.  A detected collision is reported, not acted on; whether it ends the
//! simulation is the caller's decision.

use vstd::prelude::*;

use crate::grid::{Position, Towards};
use crate::snake::SnakeManager;

verus! {

/// The score: one per reward consumed, monotonically increasing.
#[derive(Debug)]
pub struct ScoreBoard {
    pub score: u32,
}

/// What a board cell holds, the coarse visual kind the renderer keys its
/// colours by.
#[derive(Clone, Copy, Debug, PartialEq, Eq, Structural)]
pub enum CellState {
    Empty,
    Wall,
    Occupied,
    Reward,
}

/// Everything one tick asks of the outside world: the cell the head moved
/// to, whether it landed on the body, the visual handles to destroy (a
/// consumed reward, a trimmed tail segment), and where a fresh reward was
/// placed, if one was.
#[derive(Clone, Copy, Debug)]
pub struct TickOutcome {
    pub new_head_position: Position,
    pub collision: bool,
    pub consumed_reward: Option<u64>,
    pub removed_tail: Option<(Towards, u64)>,
    pub spawned_reward: Option<Position>,
}

/// Whether the active reward sits exactly on the cell `(row, col)`.
pub open spec fn reward_hit(reward: Option<(Position, u64)>, row: int, col: int) -> bool {
    match reward {
        Some(pe) => pe.0.row == row && pe.0.col == col,
        None => false,
    }
}

impl SnakeManager {
    /// Row of the cell the head will enter on the next advance.
    pub open spec fn candidate_row(self) -> int {
        self.head_position.row + self.snake.head.delta_row()
    }

    /// Column of the cell the head will enter on the next advance.
    pub open spec fn candidate_col(self) -> int {
        self.head_position.col + self.snake.head.delta_col()
    }

    /// Row of body segment `i`, with segment 0 the head at the cached head
    /// position: each later segment sits one step back along the direction
    /// carried by the segment in front of it.
    pub open spec fn segment_row(self, i: int) -> int
        decreases i,
    {
        if i <= 0 {
            self.head_position.row as int
        } else {
            self.segment_row(i - 1) - self.snake.body@[i - 1].0.delta_row()
        }
    }

    /// Column of body segment `i`; see `segment_row`.
    pub open spec fn segment_col(self, i: int) -> int
        decreases i,
    {
        if i <= 0 {
            self.head_position.col as int
        } else {
            self.segment_col(i - 1) - self.snake.body@[i - 1].0.delta_col()
        }
    }

    /// Whether some body segment occupies the cell `(row, col)`.
    pub open spec fn occupies(self, row: int, col: int) -> bool {
        exists|i: int|
            0 <= i < self.snake.body@.len() && self.segment_row(i) == row && self.segment_col(i)
                == col
    }

    /// Whether `candidate` lands on any existing body segment, walking the
    /// body back from the cached head position.
    pub fn detects_collision(&self, candidate: Position) -> (r: bool)
        requires
            i64::MIN + self.snake.body@.len() <= self.head_position.row <= i64::MAX
                - self.snake.body@.len(),
            i64::MIN + self.snake.body@.len() <= self.head_position.col <= i64::MAX
                - self.snake.body@.len(),
        ensures
            r == self.occupies(candidate.row as int, candidate.col as int),
    {
        let n = self.snake.body.len();
        let mut i: usize = 0;
        let mut row: i64 = self.head_position.row;
        let mut col: i64 = self.head_position.col;
        let mut found = false;
        while i < n
            invariant
                0 <= i <= n,
                n == self.snake.body@.len(),
                i64::MIN + n <= self.head_position.row <= i64::MAX - n,
                i64::MIN + n <= self.head_position.col <= i64::MAX - n,
                self.head_position.row - i <= row <= self.head_position.row + i,
                self.head_position.col - i <= col <= self.head_position.col + i,
                row == self.segment_row(i as int),
                col == self.segment_col(i as int),
                found == exists|j: int|
                    0 <= j < i && self.segment_row(j) == candidate.row && self.segment_col(j)
                        == candidate.col,
            decreases n - i,
        {
            if row == candidate.row && col == candidate.col {
                found = true;
            }
            let d = self.snake.body[i].0.delta();
            row = row - d.row;
            col = col - d.col;
            i = i + 1;
        }
        found
    }
}

/// Full account of one tick: how the state and the score after it relate to
/// those before it, what the outcome reports, and where the reward draw went
/// if a reward was placed.  `new_head` and `new_reward` are the renderer's
/// handles for the head segment created this tick and for a fresh reward.
pub open spec fn tick_rel(
    pre: SnakeManager,
    post: SnakeManager,
    pre_score: ScoreBoard,
    post_score: ScoreBoard,
    out: TickOutcome,
    new_head: u64,
    reward_position: Position,
    new_reward: u64,
) -> bool {
    let cr = pre.candidate_row();
    let cc = pre.candidate_col();
    let pushed = seq![(pre.snake.head, new_head)] + pre.snake.body@;
    let hit = reward_hit(pre.reward, cr, cc);
    &&& out.new_head_position.row == cr
    &&& out.new_head_position.col == cc
    &&& post.head_position == out.new_head_position
    &&& out.collision == pre.occupies(cr, cc)
    &&& post.snake.head == pre.snake.head
    &&& if pre.snake.grow > 0 {
        &&& post.snake.body@ == pushed
        &&& out.removed_tail is None
        &&& post.tail_position == pre.tail_position
    } else {
        &&& post.snake.body@ == pushed.drop_last()
        &&& out.removed_tail == Some(pushed.last())
        &&& post.tail_position.row == pre.tail_position.row + pushed.last().0.delta_row()
        &&& post.tail_position.col == pre.tail_position.col + pushed.last().0.delta_col()
    }
    &&& post.snake.grow == (if pre.snake.grow > 0 {
        pre.snake.grow - 1
    } else {
        0int
    }) + (if hit {
        1int
    } else {
        0int
    })
    &&& match pre.reward {
        Some(pe) => {
            if pe.0.row == cr && pe.0.col == cc {
                &&& post_score.score == pre_score.score + 1
                &&& out.consumed_reward == Some(pe.1)
                &&& post.reward == Some((reward_position, new_reward))
                &&& out.spawned_reward == Some(reward_position)
            } else {
                &&& post_score.score == pre_score.score
                &&& out.consumed_reward is None
                &&& post.reward == pre.reward
                &&& out.spawned_reward is None
            }
        },
        None => {
            &&& post_score.score == pre_score.score
            &&& out.consumed_reward is None
            &&& post.reward == Some((reward_position, new_reward))
            &&& out.spawned_reward == Some(reward_position)
        },
    }
}

/// Orchestrates one discrete simulation step.
pub struct TickController;

impl TickController {
    /// One tick with the reward draw supplied by the caller: advance the
    /// head, report a collision, trim or keep the tail, consume a reward the
    /// head landed on, and place `reward_position` whenever no reward is
    /// left.  Verified for every value of the draw; `step` feeds it a random
    /// one.
    pub fn step_at(
        m: &mut SnakeManager,
        score: &mut ScoreBoard,
        new_head: u64,
        reward_position: Position,
        new_reward: u64,
    ) -> (out: TickOutcome)
        requires
            i64::MIN + old(m).snake.body@.len() + 1 <= old(m).head_position.row <= i64::MAX
                - old(m).snake.body@.len() - 1,
            i64::MIN + old(m).snake.body@.len() + 1 <= old(m).head_position.col <= i64::MAX
                - old(m).snake.body@.len() - 1,
            i64::MIN < old(m).tail_position.row < i64::MAX,
            i64::MIN < old(m).tail_position.col < i64::MAX,
            reward_hit(old(m).reward, old(m).candidate_row(), old(m).candidate_col()) ==> old(
                score,
            ).score < u32::MAX,
        ensures
            tick_rel(
                *old(m),
                *final(m),
                *old(score),
                *final(score),
                out,
                new_head,
                reward_position,
                new_reward,
            ),
            final(m).reward is Some,
            old(m).snake.wf() ==> final(m).snake.wf(),
    {
        let ghost pre = *m;
        let cand = m.head_position.plus(m.snake.head.delta());
        let collision = m.detects_collision(cand);
        let new_posit = m.update_head_position();
        let removed = m.snake.advance(new_head);
        if let Some((towards, _entity)) = removed {
            m.update_tail_position(towards);
        }
        let mut consumed: Option<u64> = None;
        if let Some((p, e)) = m.reward {
            if p == cand {
                m.snake.grow(1);
                m.reward = None;
                score.score = score.score + 1;
                consumed = Some(e);
            }
        }
        let mut spawned: Option<Position> = None;
        if m.reward.is_none() {
            m.reward = Some((reward_position, new_reward));
            spawned = Some(reward_position);
        }
        TickOutcome {
            new_head_position: new_posit,
            collision,
            consumed_reward: consumed,
            removed_tail: removed,
            spawned_reward: spawned,
        }
    }

    /// One full tick as the simulation runs it: like `step_at`, with the
    /// fresh reward, when one is needed, drawn uniformly from the board.
    pub fn step(m: &mut SnakeManager, score: &mut ScoreBoard, new_head: u64, new_reward: u64) -> (out:
        TickOutcome)
        requires
            i64::MIN + old(m).snake.body@.len() + 1 <= old(m).head_position.row <= i64::MAX
                - old(m).snake.body@.len() - 1,
            i64::MIN + old(m).snake.body@.len() + 1 <= old(m).head_position.col <= i64::MAX
                - old(m).snake.body@.len() - 1,
            i64::MIN < old(m).tail_position.row < i64::MAX,
            i64::MIN < old(m).tail_position.col < i64::MAX,
            reward_hit(old(m).reward, old(m).candidate_row(), old(m).candidate_col()) ==> old(
                score,
            ).score < u32::MAX,
        ensures
            exists|drawn: Position|
                #[trigger] drawn.in_board() && tick_rel(
                    *old(m),
                    *final(m),
                    *old(score),
                    *final(score),
                    out,
                    new_head,
                    drawn,
                    new_reward,
                ),
            final(m).reward is Some,
            old(m).snake.wf() ==> final(m).snake.wf(),
    {
        let drawn = Position::random();
        let out = Self::step_at(m, score, new_head, drawn, new_reward);
        out
    }
}

} // verus!
