//! The snake itself and the per-tick update that drives the game.

use vstd::prelude::*;
use vstd::slice::slice_subrange;
use crate::geometry::{Vector, in_bounds};
use crate::direction::Direction;
use crate::apple::Apple;

verus! {

/// One occupied grid cell of the snake's body.
#[derive(Clone, Copy, PartialEq, Eq, Structural, Debug)]
pub struct Segment {
    pub pos: Vector,
}

impl Segment {
    pub fn new(pos: Vector) -> (s: Self)
        ensures
            s.pos == pos,
    {
        Self { pos }
    }
}

/// How one tick of the game ended the session, when it did.
#[derive(Clone, Copy, PartialEq, Eq, Structural, Debug)]
pub enum GameOverReason {
    /// The head left the play area.
    OutOfBounds,
    /// The head ran into the snake's own body.
    SelfCollision,
}

/// The outcome of one tick of the game.
#[derive(Clone, Copy, PartialEq, Eq, Structural, Debug)]
pub enum AdvanceResult {
    /// The snake moved on; nothing else happened.
    Continue,
    /// The snake's head landed on the apple and the snake grew:
    /// the caller should spawn a fresh apple.
    AteApple,
    /// A terminal outcome: the session is over.
    GameOver(GameOverReason),
}

/// The snake's cells after one tick: the head steps forward and is
/// prepended; the tail is dropped unless the new head landed on the
/// apple, in which case the snake keeps it and grows by one.
pub open spec fn next_positions(ps: Seq<Vector>, d: Direction, apple: Vector) -> Seq<Vector> {
    let nh = d.step_spec(ps[0]);
    if nh == apple {
        seq![nh] + ps
    } else {
        (seq![nh] + ps).take(ps.len() as int)
    }
}

/// Whether the head occupies the same cell as some body segment.
/// The head itself, at index 0, is never compared against itself.
pub open spec fn hits_body(ps: Seq<Vector>) -> bool {
    exists|i: int| 1 <= i < ps.len() && #[trigger] ps[i] == ps[0]
}

/// The outcome one tick reports, given the snake's cells before the
/// tick, its direction, and the apple's cell. The terminal checks are
/// applied to the already-updated cells, and take precedence over
/// reporting a meal.
pub open spec fn advance_result_spec(ps: Seq<Vector>, d: Direction, apple: Vector) -> AdvanceResult {
    let nps = next_positions(ps, d, apple);
    if !in_bounds(nps[0]) {
        AdvanceResult::GameOver(GameOverReason::OutOfBounds)
    } else if hits_body(nps) {
        AdvanceResult::GameOver(GameOverReason::SelfCollision)
    } else if d.step_spec(ps[0]) == apple {
        AdvanceResult::AteApple
    } else {
        AdvanceResult::Continue
    }
}

/// The snake: its current direction and its segments, head first.
pub struct Snake {
    pub direction: Direction,
    segments: Vec<Segment>,
}

impl Snake {
    /// The cells the snake occupies, head first.
    pub closed spec fn positions(&self) -> Seq<Vector> {
        Seq::new(self.segments@.len(), |i: int| self.segments@[i].pos)
    }

    /// The direction the snake is currently moving in.
    pub closed spec fn dir(&self) -> Direction {
        self.direction
    }

    /// A snake always has at least its head segment.
    pub open spec fn wf(&self) -> bool {
        self.positions().len() >= 1
    }

    /// Builds a snake of `length` segments: the head at `head_pos` and
    /// each further segment one step behind the previous one, along the
    /// inverse of the initial direction.
    pub fn new(head_pos: &Vector, direction: Direction, length: u32) -> (s: Self)
        requires
            length >= 1,
            i32::MIN <= head_pos.x - length && head_pos.x + length <= i32::MAX,
            i32::MIN <= head_pos.y - length && head_pos.y + length <= i32::MAX,
        ensures
            s.wf(),
            s.dir() == direction,
            s.positions().len() == length,
            s.positions()[0] == *head_pos,
            forall|i: int|
                1 <= i < length ==> #[trigger] s.positions()[i]
                    == direction.invert_spec().step_spec(s.positions()[i - 1]),
    {
        let mut cur_pos = *head_pos;
        let back = direction.invert();
        let mut segments: Vec<Segment> = Vec::with_capacity(length as usize);
        let mut i: u32 = 0;
        while i < length
            invariant
                i <= length,
                segments@.len() == i,
                back == direction.invert_spec(),
                i32::MIN <= head_pos.x - length && head_pos.x + length <= i32::MAX,
                i32::MIN <= head_pos.y - length && head_pos.y + length <= i32::MAX,
                head_pos.x - i <= cur_pos.x <= head_pos.x + i,
                head_pos.y - i <= cur_pos.y <= head_pos.y + i,
                i == 0 ==> cur_pos == *head_pos,
                i > 0 ==> segments@[0].pos == *head_pos,
                i > 0 ==> cur_pos == back.step_spec(segments@[i - 1].pos),
                forall|j: int|
                    1 <= j < i ==> (#[trigger] segments@[j]).pos == back.step_spec(
                        segments@[j - 1].pos,
                    ),
            decreases length - i,
        {
            segments.push(Segment::new(cur_pos));
            cur_pos = back.step(&cur_pos);
            i = i + 1;
        }
        let s = Self { direction, segments };
        proof {
            assert(forall|j: int| 0 <= j < length ==> s.positions()[j] == s.segments@[j].pos);
        }
        s
    }

    /// The head segment.
    pub fn head(&self) -> (s: &Segment)
        requires
            self.wf(),
        ensures
            s.pos == self.positions()[0],
    {
        &self.segments[0]
    }

    /// The body: every segment behind the head, in order.
    pub fn body(&self) -> (b: &[Segment])
        requires
            self.wf(),
        ensures
            b@.len() == self.positions().len() - 1,
            forall|i: int| 0 <= i < b@.len() ==> b@[i].pos == self.positions()[i + 1],
    {
        slice_subrange(self.segments.as_slice(), 1, self.segments.len())
    }

    /// Turns the snake, unless the requested direction is the exact
    /// inverse of the current one, which is silently ignored: the snake
    /// must never reverse into its own neck.
    pub fn set_direction(&mut self, requested: Direction)
        ensures
            final(self).positions() == old(self).positions(),
            requested == old(self).dir().invert_spec() ==> final(self).dir() == old(self).dir(),
            requested != old(self).dir().invert_spec() ==> final(self).dir() == requested,
    {
        let inverse = requested.invert();
        if !(self.direction == inverse) {
            self.direction = requested;
        }
    }

    /// One tick of the game: the head steps in the current direction,
    /// the snake grows by one if it landed on the apple and otherwise
    /// drops its tail, and the updated snake is checked against the
    /// play area's bounds and against its own body.
    #[verifier::loop_isolation(false)]
    pub fn advance(&mut self, apple: &Apple) -> (result: AdvanceResult)
        requires
            old(self).wf(),
            i32::MIN <= old(self).positions()[0].x + old(self).dir().scallar_spec().x
                <= i32::MAX,
            i32::MIN <= old(self).positions()[0].y + old(self).dir().scallar_spec().y
                <= i32::MAX,
        ensures
            final(self).wf(),
            final(self).dir() == old(self).dir(),
            final(self).positions() == next_positions(
                old(self).positions(),
                old(self).dir(),
                apple.pos,
            ),
            result == advance_result_spec(old(self).positions(), old(self).dir(), apple.pos),
            old(self).dir().step_spec(old(self).positions()[0]) == apple.pos
                ==> final(self).positions().len() == old(self).positions().len() + 1,
            old(self).dir().step_spec(old(self).positions()[0]) != apple.pos
                ==> final(self).positions().len() == old(self).positions().len(),
    {
        let ghost old_ps = self.positions();
        let ghost d = self.direction;
        let new_head = self.direction.step(&self.segments[0].pos);
        self.segments.insert(0, Segment::new(new_head));
        let ate = new_head == apple.pos;
        if !ate {
            self.segments.pop();
        }
        proof {
            assert(self.positions() =~= next_positions(old_ps, d, apple.pos));
        }
        if !crate::geometry::is_in_bounds(&new_head) {
            return AdvanceResult::GameOver(GameOverReason::OutOfBounds);
        }
        let n = self.segments.len();
        let mut i: usize = 1;
        while i < n
            invariant
                1 <= i <= n,
                n == self.positions().len(),
                self.positions() == next_positions(old_ps, d, apple.pos),
                self.positions()[0] == new_head,
                in_bounds(new_head),
                forall|j: int| 1 <= j < i ==> self.positions()[j] != new_head,
            decreases n - i,
        {
            if self.segments[i].pos == new_head {
                proof {
                    assert(self.positions()[i as int] == self.positions()[0]);
                    assert(hits_body(self.positions()));
                }
                return AdvanceResult::GameOver(GameOverReason::SelfCollision);
            }
            i = i + 1;
        }
        if ate {
            AdvanceResult::AteApple
        } else {
            AdvanceResult::Continue
        }
    }
}

/// One tick reports a single outcome: a meal is reported only when
/// neither terminal check fires, and the growth a meal brings happens
/// regardless of how the tick ends.
pub proof fn lemma_meal_and_game_over_exclusive(ps: Seq<Vector>, d: Direction, apple: Vector)
    requires
        ps.len() >= 1,
    ensures
        advance_result_spec(ps, d, apple) == AdvanceResult::AteApple ==> in_bounds(
            next_positions(ps, d, apple)[0],
        ) && !hits_body(next_positions(ps, d, apple)),
        d.step_spec(ps[0]) == apple ==> next_positions(ps, d, apple).len() == ps.len() + 1,
{
}

/// The self-collision check never compares the new head against
/// itself: a snake of a single segment can never collide with its own
/// body, whichever way it moves and wherever the apple lies.
pub proof fn lemma_len_one_no_self_collision(ps: Seq<Vector>, d: Direction, apple: Vector)
    requires
        ps.len() == 1,
        i32::MIN <= ps[0].x + d.scallar_spec().x <= i32::MAX,
        i32::MIN <= ps[0].y + d.scallar_spec().y <= i32::MAX,
    ensures
        !hits_body(next_positions(ps, d, apple)),
        advance_result_spec(ps, d, apple) != AdvanceResult::GameOver(
            GameOverReason::SelfCollision,
        ),
{
    let nh = d.step_spec(ps[0]);
    assert(nh.x != ps[0].x || nh.y != ps[0].y);
    let nps = next_positions(ps, d, apple);
    if nh == apple {
        assert(nps == seq![nh] + ps);
        assert(nps.len() == 2 && nps[1] == ps[0]);
    } else {
        assert(nps.len() == 1);
    }
}

} // verus!
