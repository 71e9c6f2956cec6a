use vstd::prelude::*;

use crate::direction::{dir_of_key, opposite_of, Direction, Key};
use crate::grid::{Grid, Pos};
use crate::snake::{collides, Snake};

verus! {

/// Milliseconds between two simulation steps: the fixed polling cadence.
pub const POLL_MS: u64 = 200;

/// A directional key press stamped with the monotonic time it arrived, in
/// milliseconds.
#[derive(Clone, Copy, PartialEq, Eq, Structural, Debug)]
pub struct InputEvent {
    pub time_ms: u64,
    pub key: Key,
}

/// An event still counts at time `now`: anything older than three polling
/// intervals is stale and is discarded unread.
pub open spec fn is_fresh(e: InputEvent, now: u64) -> bool {
    now - e.time_ms <= 3 * POLL_MS
}

/// The resolver takes `cand` as the snake's new facing only if it differs
/// from the current one, and is not its exact reverse while the snake is
/// longer than one cell (a one-cell snake may reverse freely, since
/// reversing is indistinguishable from continuing).
pub open spec fn accepts(cur: Direction, len: nat, cand: Direction) -> bool {
    cand != cur && !(len > 1 && cand == opposite_of(cur))
}

/// What one resolution pass leaves behind: the snake's facing and the
/// events still buffered. Events are scanned oldest-first (from the back);
/// stale and non-directional ones are dropped; the first acceptable
/// direction is taken. If moving that way from the pre-tick head is
/// collision-safe the scan stops there and newer events stay buffered for
/// the next tick; otherwise the direction is still recorded, but no later
/// candidate may replace it this tick and the rest of the buffer is
/// consumed.
pub open spec fn resolve_spec(
    events: Seq<InputEvent>,
    cur: Direction,
    body: Seq<Pos>,
    g: Grid,
    now: u64,
) -> (Direction, Seq<InputEvent>)
    decreases events.len(),
{
    if events.len() == 0 {
        (cur, events)
    } else {
        let e = events.last();
        let rest = events.drop_last();
        if !is_fresh(e, now) {
            resolve_spec(rest, cur, body, g, now)
        } else {
            match dir_of_key(e.key) {
                Some(d) => if accepts(cur, body.len(), d) {
                    if collides(body, body[0].moved(d, g)) {
                        (d, Seq::<InputEvent>::empty())
                    } else {
                        (d, rest)
                    }
                } else {
                    resolve_spec(rest, cur, body, g, now)
                },
                None => resolve_spec(rest, cur, body, g, now),
            }
        }
    }
}

/// Buffered key presses, newest at the front, oldest at the back.
pub struct InputBuffer {
    pub events: Vec<InputEvent>,
}

impl InputBuffer {
    pub fn new() -> (b: InputBuffer)
        ensures
            b.events@.len() == 0,
    {
        InputBuffer { events: Vec::new() }
    }

    /// Record a key pressed this frame at monotonic time `now_ms`; the
    /// newest press sits at the front.
    pub fn push(&mut self, key: Key, now_ms: u64)
        ensures
            final(self).events@ == seq![(InputEvent { time_ms: now_ms, key })] + old(
                self,
            ).events@,
    {
        self.events.insert(0, InputEvent { time_ms: now_ms, key });
        proof {
            assert(self.events@ =~= seq![(InputEvent { time_ms: now_ms, key })] + old(
                self,
            ).events@);
        }
    }

    /// Drop every buffered press, as a restart does.
    pub fn clear(&mut self)
        ensures
            final(self).events@.len() == 0,
    {
        self.events.clear();
    }

    /// One resolution pass at time `now_ms`: scan the buffered presses
    /// oldest-first and set the snake's facing to whatever `resolve_spec`
    /// says, leaving the rest of the buffer as it says. Nothing of the
    /// snake but the facing changes.
    pub fn resolve(&mut self, snake: &mut Snake, g: &Grid, now_ms: u64)
        requires
            g.wf(),
            old(snake).wf(*g),
            forall|i: int|
                0 <= i < old(self).events@.len() ==> old(self).events@[i].time_ms <= now_ms,
        ensures
            final(snake).body@ == old(snake).body@,
            final(snake).health == old(snake).health,
            final(snake).needs_to_grow == old(snake).needs_to_grow,
            final(snake).wf(*g),
            (final(snake).direction, final(self).events@) == resolve_spec(
                old(self).events@,
                old(snake).direction,
                old(snake).body@,
                *g,
                now_ms,
            ),
    {
        let ghost orig = self.events@;
        let cur = snake.direction;
        let len = snake.len();
        let head = snake.head();
        let mut done = false;
        let mut new_dir = cur;
        let mut remaining = self.events.len();
        while !done && remaining > 0
            invariant
                g.wf(),
                *snake == *old(snake),
                old(snake).wf(*g),
                cur == old(snake).direction,
                len == old(snake).body@.len(),
                head == old(snake).body@[0],
                remaining == self.events@.len(),
                forall|i: int| 0 <= i < self.events@.len() ==> self.events@[i].time_ms <= now_ms,
                !done ==> new_dir == cur && resolve_spec(
                    self.events@,
                    cur,
                    old(snake).body@,
                    *g,
                    now_ms,
                ) == resolve_spec(orig, cur, old(snake).body@, *g, now_ms),
                done ==> (new_dir, self.events@) == resolve_spec(
                    orig,
                    cur,
                    old(snake).body@,
                    *g,
                    now_ms,
                ),
            decreases remaining,
        {
            let ghost before = self.events@;
            let e = self.events.pop().unwrap();
            remaining = remaining - 1;
            proof {
                assert(self.events@ =~= before.drop_last());
                assert(e == before.last());
            }
            if now_ms - e.time_ms <= 3 * POLL_MS {
                match Direction::from_key(e.key) {
                    Some(d) => {
                        let opp = cur.opposite();
                        if d != cur && !(len > 1 && d == opp) {
                            new_dir = d;
                            let cand = head.stepped(d, g);
                            if snake.will_collide(cand) {
                                self.events.clear();
                                remaining = 0;
                                proof {
                                    assert(self.events@ =~= Seq::<InputEvent>::empty());
                                }
                            }
                            done = true;
                        }
                    },
                    None => {},
                }
            }
        }
        snake.direction = new_dir;
    }
}

/// The driver advances the simulation one discrete step per polling
/// interval: true when strictly more than `POLL_MS` has passed since the
/// last step, measured on a monotonic clock.
pub fn poll_due(last_ms: u64, now_ms: u64) -> (r: bool)
    requires
        last_ms <= now_ms,
    ensures
        r == (now_ms - last_ms > POLL_MS),
{
    now_ms - last_ms > POLL_MS
}

/// Law: a one-cell snake may take the exact reverse of its current facing;
/// a longer snake may not. Stated for a snake that is already moving: one
/// that is still has no reverse to take, and a repeat of the current facing
/// is rejected anyway.
pub proof fn lemma_reversal_only_at_length_one(cur: Direction, len: nat)
    requires
        cur != Direction::Still,
    ensures
        len == 1 ==> accepts(cur, len, opposite_of(cur)),
        len > 1 ==> !accepts(cur, len, opposite_of(cur)),
{
}

} // verus!
