//! The pig economy: an edge-triggered, funds-gated spawner, and the
//! per-frame lifecycle of every live pig — lifetime countdown, periodic
//! random wander re-rolls, constant-speed movement, and a payout
//! notification on expiry.

use vstd::prelude::*;
use crate::direction::Direction;
use crate::direction::direction_of_roll;
use crate::direction::direction_from_roll;
use crate::direction::roll_direction_index;
use crate::geometry::Position;
use crate::money::Money;
use crate::money::MoneyEarnedEvent;
use crate::timer::OnceTimer;
use crate::timer::RepeatingTimer;
use crate::timer::once_after;
use crate::timer::once_is_finished;
use crate::timer::repeat_after;
use crate::timer::repeat_completions;

verus! {

/// What one pig costs to spawn, in cents.
pub const SPAWN_COST: u64 = 1000;

/// What a pig pays out when its lifetime runs out, in cents.
pub const PIG_REWARD: u64 = 1500;

/// How long a pig lives, in milliseconds.
pub const PIG_LIFETIME_MS: u64 = 10_000;

/// How fast a pig wanders, in world units per second.
pub const PIG_SPEED: u64 = 25;

/// How often a pig re-rolls its wander direction, in milliseconds.
pub const WANDER_INTERVAL_MS: u64 = 2000;

/// One live pig: a one-shot lifetime, a wander speed, the direction it
/// currently wanders toward, and the repeating timer that re-rolls it.
#[derive(Clone, Copy, Debug, PartialEq, Eq, Structural)]
pub struct Pig {
    pub lifetime: OnceTimer,
    pub speed: u64,
    pub current_direction: Direction,
    pub direction_timer: RepeatingTimer,
}

impl Pig {
    /// Both of the pig's timers are well-formed.
    pub open spec fn wf(self) -> bool {
        self.lifetime.wf() && self.direction_timer.wf()
    }
}

/// One record of the pig arena: a stable identifier, the pig's state, and
/// where it stands.
#[derive(Clone, Copy, Debug, PartialEq, Eq, Structural)]
pub struct PigEntry {
    pub id: u64,
    pub pig: Pig,
    pub pos: Position,
}

/// The arena that owns every live pig. Records keep their order; removing
/// a record drops everything the pig owned.
pub struct PigParent {
    pub next_id: u64,
    pub pigs: Vec<PigEntry>,
}

/// Every pig in the sequence is well-formed.
pub open spec fn entries_wf(s: Seq<PigEntry>) -> bool {
    forall|i: int| 0 <= i < s.len() ==> (#[trigger] s[i]).pig.wf()
}

/// Every identifier in the sequence is below the arena's next fresh one.
pub open spec fn ids_bounded(s: Seq<PigEntry>, next_id: u64) -> bool {
    forall|i: int| 0 <= i < s.len() ==> (#[trigger] s[i]).id < next_id
}

/// No two records share an identifier.
pub open spec fn ids_distinct(s: Seq<PigEntry>) -> bool {
    forall|i: int, j: int|
        0 <= i < j < s.len() ==> (#[trigger] s[i]).id != (#[trigger] s[j]).id
}

/// Some record in the sequence carries this identifier.
pub open spec fn has_id(s: Seq<PigEntry>, id: u64) -> bool {
    exists|j: int| 0 <= j < s.len() && (#[trigger] s[j]).id == id
}

impl PigParent {
    /// Arena invariant: well-formed pigs, and stable identifiers that are
    /// pairwise distinct and below the next fresh one.
    pub open spec fn wf(self) -> bool {
        entries_wf(self.pigs@) && ids_bounded(self.pigs@, self.next_id) && ids_distinct(self.pigs@)
    }
}

/// An empty arena, handing out identifiers from zero.
pub fn spawn_pig_parent() -> (p: PigParent)
    ensures
        p.next_id == 0,
        p.pigs@.len() == 0,
        p.wf(),
{
    PigParent { next_id: 0, pigs: Vec::new() }
}

/// The record a successful purchase appends: a full lifetime, the fixed
/// wander speed, the direction the given draw selects, a fresh wander
/// timer, and the buyer's position.
pub open spec fn new_pig_entry(id: u64, pos: Position, roll: u64) -> PigEntry {
    PigEntry {
        id: id,
        pig: Pig {
            lifetime: OnceTimer { elapsed_ms: 0, duration_ms: PIG_LIFETIME_MS },
            speed: PIG_SPEED,
            current_direction: direction_of_roll(roll),
            direction_timer: RepeatingTimer { elapsed_ms: 0, interval_ms: WANDER_INTERVAL_MS },
        },
        pos: pos,
    }
}

/// Whether a tick of `dt` milliseconds completes at least one wander
/// cycle, so the pig re-rolls its direction.
pub open spec fn wander_completes(p: Pig, dt: u64) -> bool {
    repeat_completions(p.direction_timer, dt) >= 1
}

/// The direction a pig wanders toward after a tick: re-rolled to what the
/// draw selects when the wander timer completed, otherwise unchanged.
pub open spec fn direction_after(p: Pig, dt: u64, roll: u64) -> Direction {
    if wander_completes(p, dt) {
        direction_of_roll(roll)
    } else {
        p.current_direction
    }
}

/// A pig's state after a tick: lifetime and wander timer advanced, the
/// direction possibly re-rolled, the speed untouched.
pub open spec fn pig_after(p: Pig, dt: u64, roll: u64) -> Pig {
    Pig {
        lifetime: once_after(p.lifetime, dt),
        speed: p.speed,
        current_direction: direction_after(p, dt, roll),
        direction_timer: repeat_after(p.direction_timer, dt),
    }
}

/// A position shifted by `delta` thousandths of a unit along a direction.
pub open spec fn pig_moved(pos: Position, dir: Direction, delta: int) -> Position {
    match dir {
        Direction::Up => Position { x: pos.x, y: (pos.y + delta) as i64 },
        Direction::Down => Position { x: pos.x, y: (pos.y - delta) as i64 },
        Direction::Right => Position { x: (pos.x + delta) as i64, y: pos.y },
        Direction::Left => Position { x: (pos.x - delta) as i64, y: pos.y },
    }
}

/// Whether a tick of `dt` milliseconds runs out a pig's lifetime, so the
/// record leaves the arena and pays out.
pub open spec fn entry_expires(e: PigEntry, dt: u64) -> bool {
    once_is_finished(once_after(e.pig.lifetime, dt))
}

/// A record after a tick: the pig stepped, and the position moved by
/// `speed * dt` along the direction the pig wanders toward after any
/// re-roll. The identifier is stable.
pub open spec fn entry_after(e: PigEntry, dt: u64, roll: u64) -> PigEntry {
    PigEntry {
        id: e.id,
        pig: pig_after(e.pig, dt, roll),
        pos: pig_moved(e.pos, direction_after(e.pig, dt, roll), e.pig.speed * dt),
    }
}

/// The machine-limit bound a tick must respect: the displacement and the
/// shifted coordinates all fit in the position's integer type, whichever
/// direction the pig ends up wandering.
pub open spec fn step_fits(e: PigEntry, dt: u64) -> bool {
    e.pig.speed * dt <= i64::MAX && e.pos.x - e.pig.speed * dt >= i64::MIN && e.pos.x
        + e.pig.speed * dt <= i64::MAX && e.pos.y - e.pig.speed * dt >= i64::MIN && e.pos.y
        + e.pig.speed * dt <= i64::MAX
}

/// The arena's records after one tick: expired records leave, surviving
/// records are stepped with their own draw, and order is kept.
pub open spec fn farm_after(s: Seq<PigEntry>, dt: u64, rolls: Seq<u64>) -> Seq<PigEntry>
    decreases s.len(),
{
    if s.len() == 0 {
        Seq::empty()
    } else {
        farm_after(s.drop_last(), dt, rolls.drop_last()) + (
        if entry_expires(s.last(), dt) {
            Seq::empty()
        } else {
            seq![entry_after(s.last(), dt, rolls.last())]
        })
    }
}

/// How many records of the sequence a tick of `dt` milliseconds expires.
pub open spec fn expired_count(s: Seq<PigEntry>, dt: u64) -> int
    decreases s.len(),
{
    if s.len() == 0 {
        0
    } else {
        expired_count(s.drop_last(), dt) + (
        if entry_expires(s.last(), dt) {
            1int
        } else {
            0int
        })
    }
}

/// `n` payout notifications, each carrying the fixed reward.
pub open spec fn reward_events(n: int) -> Seq<MoneyEarnedEvent> {
    Seq::new(n as nat, |i: int| MoneyEarnedEvent(PIG_REWARD))
}

/// A tick expires between none and all of the sequence's records.
pub proof fn lemma_expired_count_bounds(s: Seq<PigEntry>, dt: u64)
    ensures
        0 <= expired_count(s, dt) <= s.len(),
    decreases s.len(),
{
    if s.len() > 0 {
        lemma_expired_count_bounds(s.drop_last(), dt);
    }
}

/// One pig's tick, with the direction draw handed in: advances both
/// timers, re-rolls the direction when the wander timer completed, moves
/// the pig by `speed * dt` along the resulting direction, and reports
/// whether the lifetime ran out.
pub fn pig_step(e: &mut PigEntry, dt: u64, roll: u64) -> (expired: bool)
    requires
        old(e).pig.wf(),
        step_fits(*old(e), dt),
    ensures
        final(e).pig.wf(),
        *final(e) == entry_after(*old(e), dt, roll),
        expired == entry_expires(*old(e), dt),
{
    e.pig.lifetime.tick(dt);
    let completions = e.pig.direction_timer.tick(dt);
    if completions > 0 {
        e.pig.current_direction = direction_from_roll(roll);
    }
    let delta_wide: u64 = e.pig.speed * dt;
    let delta: i64 = delta_wide as i64;
    match e.pig.current_direction {
        Direction::Up => {
            e.pos.y = e.pos.y + delta;
        },
        Direction::Down => {
            e.pos.y = e.pos.y - delta;
        },
        Direction::Right => {
            e.pos.x = e.pos.x + delta;
        },
        Direction::Left => {
            e.pos.x = e.pos.x - delta;
        },
    }
    e.pig.lifetime.is_finished()
}

/// The spawn gate, with the direction draw handed in. On a trigger edge
/// with sufficient funds it debits the cost and appends a fresh pig at the
/// player's position; on an insufficient balance it is a silent no-op, and
/// without the edge nothing happens at all.
pub fn spawn_pig_with_roll(
    parent: &mut PigParent,
    money: &mut Money,
    just_pressed: bool,
    player_pos: Position,
    roll: u64,
) -> (spawned: bool)
    requires
        old(parent).wf(),
        old(parent).next_id < u64::MAX,
    ensures
        final(parent).wf(),
        spawned == (just_pressed && old(money).0 >= SPAWN_COST),
        spawned ==> final(money).0 == old(money).0 - SPAWN_COST,
        spawned ==> final(parent).next_id == old(parent).next_id + 1 && final(parent).pigs@ == old(
            parent,
        ).pigs@.push(new_pig_entry(old(parent).next_id, player_pos, roll)),
        !spawned ==> *final(money) == *old(money) && final(parent).next_id == old(parent).next_id
            && final(parent).pigs@ == old(parent).pigs@,
{
    if !just_pressed {
        return false;
    }
    if money.0 >= SPAWN_COST {
        money.debit(SPAWN_COST);
        let id = parent.next_id;
        parent.next_id = id + 1;
        let entry = PigEntry {
            id: id,
            pig: Pig {
                lifetime: OnceTimer::new(PIG_LIFETIME_MS),
                speed: PIG_SPEED,
                current_direction: direction_from_roll(roll),
                direction_timer: RepeatingTimer::new(WANDER_INTERVAL_MS),
            },
            pos: player_pos,
        };
        parent.pigs.push(entry);
        proof {
            let s = parent.pigs@;
            let olds = old(parent).pigs@;
            assert(entries_wf(s)) by {
                assert forall|i: int| 0 <= i < s.len() implies (#[trigger] s[i]).pig.wf() by {
                    if i < olds.len() {
                        assert(s[i] == olds[i]);
                    }
                }
            };
            assert(ids_bounded(s, parent.next_id)) by {
                assert forall|i: int| 0 <= i < s.len() implies (#[trigger] s[i]).id
                    < parent.next_id by {
                    if i < olds.len() {
                        assert(s[i] == olds[i]);
                    }
                }
            };
            assert(ids_distinct(s)) by {
                assert forall|i: int, j: int| 0 <= i < j < s.len() implies (#[trigger] s[i]).id != (
                #[trigger] s[j]).id by {
                    if j < olds.len() {
                        assert(s[i] == olds[i] && s[j] == olds[j]);
                    } else {
                        assert(s[i] == olds[i] && s[j].id == old(parent).next_id);
                    }
                }
            };
        }
        true
    } else {
        false
    }
}

/// The spawn gate as the trigger key fires it: the fresh pig's wander
/// direction comes from an independent uniform draw.
pub fn spawn_pig(
    parent: &mut PigParent,
    money: &mut Money,
    just_pressed: bool,
    player_pos: Position,
) -> (spawned: bool)
    requires
        old(parent).wf(),
        old(parent).next_id < u64::MAX,
    ensures
        final(parent).wf(),
        spawned == (just_pressed && old(money).0 >= SPAWN_COST),
        spawned ==> final(money).0 == old(money).0 - SPAWN_COST,
        spawned ==> final(parent).next_id == old(parent).next_id + 1 && (exists|r: u64|
            r < 4 && final(parent).pigs@ == old(parent).pigs@.push(
                new_pig_entry(old(parent).next_id, player_pos, r),
            )),
        !spawned ==> *final(money) == *old(money) && final(parent).next_id == old(parent).next_id
            && final(parent).pigs@ == old(parent).pigs@,
{
    let roll = roll_direction_index();
    let spawned = spawn_pig_with_roll(parent, money, just_pressed, player_pos, roll);
    proof {
        if spawned {
            assert(roll < 4 && parent.pigs@ == old(parent).pigs@.push(
                new_pig_entry(old(parent).next_id, player_pos, roll),
            ));
        }
    }
    spawned
}

/// Stepping an arena touches each record by itself: every identifier that
/// comes out went in, well-formedness and the identifier bounds survive,
/// and distinct records stay distinct.
proof fn lemma_farm_after_preserves_wf(s: Seq<PigEntry>, dt: u64, rolls: Seq<u64>, next_id: u64)
    requires
        rolls.len() == s.len(),
        entries_wf(s),
        ids_bounded(s, next_id),
        ids_distinct(s),
    ensures
        entries_wf(farm_after(s, dt, rolls)),
        ids_bounded(farm_after(s, dt, rolls), next_id),
        ids_distinct(farm_after(s, dt, rolls)),
        forall|k: int|
            0 <= k < farm_after(s, dt, rolls).len() ==> has_id(
                s,
                (#[trigger] farm_after(s, dt, rolls)[k]).id,
            ),
    decreases s.len(),
{
    if s.len() == 0 {
    } else {
        let s0 = s.drop_last();
        let r0 = rolls.drop_last();
        assert(entries_wf(s0)) by {
            assert forall|i: int| 0 <= i < s0.len() implies (#[trigger] s0[i]).pig.wf() by {
                assert(s0[i] == s[i]);
            }
        };
        assert(ids_bounded(s0, next_id)) by {
            assert forall|i: int| 0 <= i < s0.len() implies (#[trigger] s0[i]).id < next_id by {
                assert(s0[i] == s[i]);
            }
        };
        assert(ids_distinct(s0)) by {
            assert forall|i: int, j: int| 0 <= i < j < s0.len() implies (#[trigger] s0[i]).id != (
            #[trigger] s0[j]).id by {
                assert(s0[i] == s[i] && s0[j] == s[j]);
            }
        };
        lemma_farm_after_preserves_wf(s0, dt, r0, next_id);
        let out = farm_after(s, dt, rolls);
        let tail = farm_after(s0, dt, r0);
        if entry_expires(s.last(), dt) {
            assert(out =~= tail);
        } else {
            let stepped = entry_after(s.last(), dt, rolls.last());
            assert(out == tail + seq![stepped]);
            assert(stepped.pig.wf());
            assert(s.last().id < next_id);
            assert forall|k: int| 0 <= k < out.len() implies has_id(s, (#[trigger] out[k]).id) by {
                if k < tail.len() {
                    assert(out[k] == tail[k]);
                    let j = choose|j: int| 0 <= j < s0.len() && (#[trigger] s0[j]).id == tail[k].id;
                    assert(s[j] == s0[j]);
                    assert(s[j].id == out[k].id);
                } else {
                    assert(out[k] == stepped);
                    assert(s[s.len() - 1].id == stepped.id);
                }
            };
            assert(ids_distinct(out)) by {
                assert forall|i: int, j: int| 0 <= i < j < out.len() implies (#[trigger] out[i]).id
                    != (#[trigger] out[j]).id by {
                    if j < tail.len() {
                        assert(out[i] == tail[i] && out[j] == tail[j]);
                    } else {
                        assert(out[j] == stepped);
                        assert(out[i] == tail[i]);
                        assert(has_id(s0, tail[i].id));
                        let m = choose|m: int|
                            0 <= m < s0.len() && (#[trigger] s0[m]).id == tail[i].id;
                        assert(s[m] == s0[m]);
                        assert(s[m].id != s.last().id);
                    }
                }
            };
        }
        assert forall|k: int| 0 <= k < out.len() implies has_id(s, (#[trigger] out[k]).id) by {
            if entry_expires(s.last(), dt) {
                assert(out[k] == tail[k]);
                let j = choose|j: int| 0 <= j < s0.len() && (#[trigger] s0[j]).id == tail[k].id;
                assert(s[j] == s0[j]);
                assert(s[j].id == out[k].id);
            }
        };
    }
}

/// One tick of the whole arena, with every record's direction draw handed
/// in as one sequence. Expired pigs leave the arena and append exactly one
/// payout notification each; surviving pigs are stepped in place, in
/// order; the next fresh identifier does not move.
pub fn pig_lifetime_with_rolls(
    parent: &mut PigParent,
    dt: u64,
    rolls: &Vec<u64>,
    events: &mut Vec<MoneyEarnedEvent>,
)
    requires
        old(parent).wf(),
        rolls@.len() == old(parent).pigs@.len(),
        forall|i: int|
            0 <= i < old(parent).pigs@.len() ==> #[trigger] step_fits(old(parent).pigs@[i], dt),
    ensures
        final(parent).wf(),
        final(parent).next_id == old(parent).next_id,
        final(parent).pigs@ == farm_after(old(parent).pigs@, dt, rolls@),
        final(events)@ == old(events)@ + reward_events(expired_count(old(parent).pigs@, dt)),
{
    let ghost old_pigs = parent.pigs@;
    let ghost old_events = events@;
    let n = parent.pigs.len();
    let mut kept: Vec<PigEntry> = Vec::new();
    let mut i: usize = 0;
    while i < n
        invariant
            i <= n,
            n == old_pigs.len(),
            parent.pigs@ == old_pigs,
            parent.next_id == old(parent).next_id,
            rolls@.len() == old_pigs.len(),
            entries_wf(old_pigs),
            forall|k: int| 0 <= k < old_pigs.len() ==> #[trigger] step_fits(old_pigs[k], dt),
            kept@ == farm_after(old_pigs.take(i as int), dt, rolls@.take(i as int)),
            events@ == old_events + reward_events(expired_count(old_pigs.take(i as int), dt)),
        decreases n - i,
    {
        let mut e = parent.pigs[i];
        assert(e == old_pigs[i as int]);
        let expired = pig_step(&mut e, dt, rolls[i]);
        let ghost prev_take = old_pigs.take(i as int);
        let ghost next_take = old_pigs.take(i as int + 1);
        proof {
            assert(next_take.drop_last() =~= prev_take);
            assert(rolls@.take(i as int + 1).drop_last() =~= rolls@.take(i as int));
            assert(next_take.last() == old_pigs[i as int]);
            assert(rolls@.take(i as int + 1).last() == rolls@[i as int]);
        }
        if expired {
            events.push(MoneyEarnedEvent(PIG_REWARD));
            proof {
                let c = expired_count(prev_take, dt);
                lemma_expired_count_bounds(prev_take, dt);
                assert(expired_count(next_take, dt) == c + 1);
                assert(reward_events(c + 1) =~= reward_events(c).push(
                    MoneyEarnedEvent(PIG_REWARD),
                ));
                assert(events@ =~= old_events + reward_events(expired_count(next_take, dt)));
                assert(kept@ =~= farm_after(next_take, dt, rolls@.take(i as int + 1)));
            }
        } else {
            kept.push(e);
            proof {
                assert(farm_after(next_take, dt, rolls@.take(i as int + 1)) == farm_after(
                    prev_take,
                    dt,
                    rolls@.take(i as int),
                ) + seq![entry_after(old_pigs[i as int], dt, rolls@[i as int])]);
                assert(kept@ =~= farm_after(next_take, dt, rolls@.take(i as int + 1)));
                assert(expired_count(next_take, dt) == expired_count(prev_take, dt));
            }
        }
        i = i + 1;
    }
    proof {
        assert(old_pigs.take(n as int) =~= old_pigs);
        assert(rolls@.take(n as int) =~= rolls@);
    }
    parent.pigs = kept;
    proof {
        lemma_farm_after_preserves_wf(old_pigs, dt, rolls@, parent.next_id);
    }
}

/// One tick of the whole arena as the frame clock drives it: each pig that
/// needs a direction gets its own independent uniform draw. Which pigs
/// expire, what they pay out, and every other field of every survivor are
/// fixed by the elapsed time alone; only the re-rolled directions vary
/// with the draws.
pub fn pig_lifetime(parent: &mut PigParent, dt: u64, events: &mut Vec<MoneyEarnedEvent>)
    requires
        old(parent).wf(),
        forall|i: int|
            0 <= i < old(parent).pigs@.len() ==> #[trigger] step_fits(old(parent).pigs@[i], dt),
    ensures
        final(parent).wf(),
        final(parent).next_id == old(parent).next_id,
        final(events)@ == old(events)@ + reward_events(expired_count(old(parent).pigs@, dt)),
        exists|rolls: Seq<u64>|
            rolls.len() == old(parent).pigs@.len() && (forall|i: int|
                0 <= i < rolls.len() ==> #[trigger] rolls[i] < 4) && final(parent).pigs@
                == farm_after(old(parent).pigs@, dt, rolls),
{
    let n = parent.pigs.len();
    let mut rolls: Vec<u64> = Vec::new();
    let mut i: usize = 0;
    while i < n
        invariant
            i <= n,
            rolls@.len() == i,
            forall|j: int| 0 <= j < i ==> #[trigger] rolls@[j] < 4,
        decreases n - i,
    {
        let roll = roll_direction_index();
        rolls.push(roll);
        i = i + 1;
    }
    pig_lifetime_with_rolls(parent, dt, &rolls, events);
    proof {
        assert(rolls@.len() == old(parent).pigs@.len() && (forall|j: int|
            0 <= j < rolls@.len() ==> #[trigger] rolls@[j] < 4) && parent.pigs@ == farm_after(
            old(parent).pigs@,
            dt,
            rolls@,
        ));
    }
}

/// A pig bought this frame expires exactly when the accumulated elapsed
/// time reaches its fixed lifetime, however that time splits across
/// frames: a first tick of `a` milliseconds leaves it alive exactly while
/// `a` is short of the lifetime, and a second tick of `b` milliseconds
/// then expires it exactly when `a + b` reaches the lifetime.
pub proof fn lemma_pig_expiry_accumulates(
    id: u64,
    pos: Position,
    roll: u64,
    a: u64,
    b: u64,
    first_reroll: u64,
)
    requires
        a + b <= u64::MAX,
    ensures
        entry_expires(new_pig_entry(id, pos, roll), a) <==> a >= PIG_LIFETIME_MS,
        !entry_expires(new_pig_entry(id, pos, roll), a) ==> (entry_expires(
            entry_after(new_pig_entry(id, pos, roll), a, first_reroll),
            b,
        ) <==> a + b >= PIG_LIFETIME_MS),
{
}

/// Wander independence: stepping a two-pig arena steps each record with
/// its own draw alone — one pig's re-roll never reaches the other's state.
/// Whether each record survives depends only on the elapsed time.
pub proof fn lemma_wander_independence(e1: PigEntry, e2: PigEntry, dt: u64, r1: u64, r2: u64)
    ensures
        farm_after(seq![e1, e2], dt, seq![r1, r2]) == (
        if entry_expires(e1, dt) {
            Seq::<PigEntry>::empty()
        } else {
            seq![entry_after(e1, dt, r1)]
        }) + (
        if entry_expires(e2, dt) {
            Seq::<PigEntry>::empty()
        } else {
            seq![entry_after(e2, dt, r2)]
        }),
{
    reveal_with_fuel(farm_after, 4);
    let s = seq![e1, e2];
    let rolls = seq![r1, r2];
    assert(s.drop_last() =~= seq![e1]);
    assert(rolls.drop_last() =~= seq![r1]);
    assert(seq![e1].drop_last() =~= Seq::<PigEntry>::empty());
    assert(seq![r1].drop_last() =~= Seq::<u64>::empty());
    assert(farm_after(Seq::<PigEntry>::empty(), dt, Seq::<u64>::empty()) =~= Seq::<
        PigEntry,
    >::empty());
    assert(farm_after(s, dt, rolls) =~= (
    if entry_expires(e1, dt) {
        Seq::<PigEntry>::empty()
    } else {
        seq![entry_after(e1, dt, r1)]
    }) + (
    if entry_expires(e2, dt) {
        Seq::<PigEntry>::empty()
    } else {
        seq![entry_after(e2, dt, r2)]
    }));
}

} // verus!
