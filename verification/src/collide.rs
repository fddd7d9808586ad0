//! Who hits whom: bullets and asteroids, asteroids and the ship, asteroids
//! and each other.

use crate::entity::{Asteroid, Bullet};
use crate::fixed::Fixed;
use crate::rules::PLAYER_RADIUS;
use crate::vec2::Vec2;
use vstd::prelude::*;

verus! {

/// Whether `bullet` hits `asteroid`: their squared distance is at most the
/// square of the asteroid's radius.
pub open spec fn spec_struck(asteroid: Asteroid, bullet: Bullet) -> bool {
    asteroid.pos.within(bullet.pos, asteroid.radius)
}

/// Whether `bullet` hits `asteroid`.
#[verifier::when_used_as_spec(spec_struck)]
pub fn struck(asteroid: Asteroid, bullet: Bullet) -> (r: bool)
    ensures
        r == spec_struck(asteroid, bullet),
{
    asteroid.pos.within(bullet.pos, asteroid.radius)
}

/// The first bullet at or after index `from` that hits `asteroid`.
pub open spec fn first_hit_from(asteroid: Asteroid, bullets: Seq<Bullet>, from: int) -> Option<int>
    decreases bullets.len() - from,
{
    if from >= bullets.len() {
        None
    } else if struck(asteroid, bullets[from]) {
        Some(from)
    } else {
        first_hit_from(asteroid, bullets, from + 1)
    }
}

/// The first bullet, in list order, that hits `asteroid`.
pub open spec fn spec_first_hit(asteroid: Asteroid, bullets: Seq<Bullet>) -> Option<int> {
    first_hit_from(asteroid, bullets, 0)
}

/// The first hit is a hit, nothing before it is, and there is one whenever
/// any bullet hits.
pub proof fn first_hit_is_first(asteroid: Asteroid, bullets: Seq<Bullet>, from: int)
    requires
        0 <= from,
    ensures
        match first_hit_from(asteroid, bullets, from) {
            Some(j) => {
                &&& from <= j < bullets.len()
                &&& struck(asteroid, bullets[j])
                &&& forall|k: int| from <= k < j ==> !struck(asteroid, bullets[k])
            },
            None => forall|k: int| from <= k < bullets.len() ==> !struck(asteroid, bullets[k]),
        },
    decreases bullets.len() - from,
{
    if from < bullets.len() && !struck(asteroid, bullets[from]) {
        first_hit_is_first(asteroid, bullets, from + 1);
    }
}

/// The index of the first bullet, in list order, that hits `asteroid`, if
/// any does.
pub fn first_hit(asteroid: Asteroid, bullets: &Vec<Bullet>) -> (r: Option<usize>)
    ensures
        match r {
            Some(j) => {
                &&& spec_first_hit(asteroid, bullets@) == Some(j as int)
                &&& j < bullets.len()
                &&& struck(asteroid, bullets[j as int])
                &&& forall|k: int| 0 <= k < j ==> !struck(asteroid, bullets[k])
            },
            None => {
                &&& spec_first_hit(asteroid, bullets@) is None
                &&& forall|k: int| 0 <= k < bullets.len() ==> !struck(asteroid, bullets[k])
            },
        },
{
    let mut i: usize = 0;
    while i < bullets.len()
        invariant
            i <= bullets.len(),
            spec_first_hit(asteroid, bullets@) == first_hit_from(asteroid, bullets@, i as int),
        decreases bullets.len() - i,
    {
        if struck(asteroid, bullets[i]) {
            proof {
                first_hit_is_first(asteroid, bullets@, 0);
            }
            return Some(i);
        }
        i += 1;
    }
    proof {
        first_hit_is_first(asteroid, bullets@, 0);
    }
    None
}

/// The outcome of matching bullets against asteroids.
pub struct Sweep {
    /// The asteroids that no bullet hit, in their old order.
    pub survivors: Seq<Asteroid>,
    /// The asteroids that a bullet hit, in their old order.
    pub casualties: Seq<Asteroid>,
    /// The bullets that hit nothing, in their old order.
    pub bullets: Seq<Bullet>,
}

/// The outcome after the first `count` asteroids have been matched, in
/// order, against the bullets that were left at their turn. An asteroid is
/// destroyed by the first remaining bullet that hits it, and that bullet is
/// used up.
pub open spec fn sweep(asteroids: Seq<Asteroid>, bullets: Seq<Bullet>, count: int) -> Sweep
    decreases count,
{
    if count <= 0 {
        Sweep { survivors: Seq::empty(), casualties: Seq::empty(), bullets }
    } else {
        let before = sweep(asteroids, bullets, count - 1);
        let asteroid = asteroids[count - 1];
        match spec_first_hit(asteroid, before.bullets) {
            Some(j) => Sweep {
                survivors: before.survivors,
                casualties: before.casualties.push(asteroid),
                bullets: before.bullets.remove(j),
            },
            None => Sweep { survivors: before.survivors.push(asteroid), ..before },
        }
    }
}

/// Every asteroid ends up as survivor or casualty, and each casualty has
/// used up exactly one bullet.
pub proof fn sweep_accounts(asteroids: Seq<Asteroid>, bullets: Seq<Bullet>, count: int)
    requires
        0 <= count <= asteroids.len(),
    ensures
        sweep(asteroids, bullets, count).survivors.len() + sweep(
            asteroids,
            bullets,
            count,
        ).casualties.len() == count,
        sweep(asteroids, bullets, count).bullets.len() + sweep(
            asteroids,
            bullets,
            count,
        ).casualties.len() == bullets.len(),
    decreases count,
{
    if count > 0 {
        sweep_accounts(asteroids, bullets, count - 1);
        let before = sweep(asteroids, bullets, count - 1);
        first_hit_is_first(asteroids[count - 1], before.bullets, 0);
    }
}

/// An asteroid that one of the remaining bullets hits at its turn is
/// removed together with the first such bullet, and with no other; an
/// asteroid that none of them hits stays, and so do all bullets.
pub proof fn sweep_step(asteroids: Seq<Asteroid>, bullets: Seq<Bullet>, count: int)
    requires
        0 < count <= asteroids.len(),
    ensures
        ({
            let before = sweep(asteroids, bullets, count - 1);
            let after = sweep(asteroids, bullets, count);
            let asteroid = asteroids[count - 1];
            if exists|k: int| 0 <= k < before.bullets.len() && struck(asteroid, before.bullets[k]) {
                &&& after.casualties == before.casualties.push(asteroid)
                &&& after.survivors == before.survivors
                &&& after.bullets.len() == before.bullets.len() - 1
                &&& exists|j: int|
                    0 <= j < before.bullets.len() && struck(asteroid, before.bullets[j])
                        && after.bullets == before.bullets.remove(j)
            } else {
                &&& after.casualties == before.casualties
                &&& after.survivors == before.survivors.push(asteroid)
                &&& after.bullets == before.bullets
            }
        }),
{
    let before = sweep(asteroids, bullets, count - 1);
    first_hit_is_first(asteroids[count - 1], before.bullets, 0);
}

/// Whether `asteroid` is one of the first `count` of `asteroids`.
pub open spec fn among_asteroids(asteroids: Seq<Asteroid>, count: int, asteroid: Asteroid) -> bool {
    exists|j: int| 0 <= j < count && j < asteroids.len() && asteroids[j] == asteroid
}

/// Whether `bullet` is one of `bullets`.
pub open spec fn among_bullets(bullets: Seq<Bullet>, bullet: Bullet) -> bool {
    exists|j: int| 0 <= j < bullets.len() && bullets[j] == bullet
}

/// Matching invents nothing: every survivor and every casualty is one of
/// the asteroids that were matched, and every bullet left is one of the
/// bullets that went in.
#[verifier::rlimit(40)]
pub proof fn sweep_members(asteroids: Seq<Asteroid>, bullets: Seq<Bullet>, count: int)
    requires
        0 <= count <= asteroids.len(),
    ensures
        forall|i: int|
            0 <= i < sweep(asteroids, bullets, count).survivors.len() ==> among_asteroids(
                asteroids,
                count,
                #[trigger] sweep(asteroids, bullets, count).survivors[i],
            ),
        forall|i: int|
            0 <= i < sweep(asteroids, bullets, count).casualties.len() ==> among_asteroids(
                asteroids,
                count,
                #[trigger] sweep(asteroids, bullets, count).casualties[i],
            ),
        forall|i: int|
            0 <= i < sweep(asteroids, bullets, count).bullets.len() ==> among_bullets(
                bullets,
                #[trigger] sweep(asteroids, bullets, count).bullets[i],
            ),
    decreases count,
{
    let after = sweep(asteroids, bullets, count);
    if count > 0 {
        sweep_members(asteroids, bullets, count - 1);
        let before = sweep(asteroids, bullets, count - 1);
        let last = asteroids[count - 1];
        first_hit_is_first(last, before.bullets, 0);
        assert(among_asteroids(asteroids, count, last));
        assert forall|i: int| 0 <= i < after.survivors.len() implies among_asteroids(
            asteroids,
            count,
            #[trigger] after.survivors[i],
        ) by {
            if i < before.survivors.len() {
                assert(after.survivors[i] == before.survivors[i]);
                assert(among_asteroids(asteroids, count - 1, before.survivors[i]));
            }
        }
        assert forall|i: int| 0 <= i < after.casualties.len() implies among_asteroids(
            asteroids,
            count,
            #[trigger] after.casualties[i],
        ) by {
            if i < before.casualties.len() {
                assert(after.casualties[i] == before.casualties[i]);
                assert(among_asteroids(asteroids, count - 1, before.casualties[i]));
            }
        }
        assert forall|i: int| 0 <= i < after.bullets.len() implies among_bullets(
            bullets,
            #[trigger] after.bullets[i],
        ) by {
            match spec_first_hit(last, before.bullets) {
                Some(h) => {
                    let src = if i < h {
                        i
                    } else {
                        i + 1
                    };
                    assert(after.bullets[i] == before.bullets[src]);
                    assert(among_bullets(bullets, before.bullets[src]));
                },
                None => {
                    assert(after.bullets[i] == before.bullets[i]);
                    assert(among_bullets(bullets, before.bullets[i]));
                },
            }
        }
    } else {
        assert forall|i: int| 0 <= i < after.bullets.len() implies among_bullets(
            bullets,
            #[trigger] after.bullets[i],
        ) by {
            assert(after.bullets[i] == bullets[i]);
        }
    }
}

/// Matches the bullets against the asteroids: returns survivors and
/// casualties and leaves the bullets that hit nothing.
pub fn run_sweep(asteroids: &Vec<Asteroid>, bullets: &mut Vec<Bullet>) -> (r: (
    Vec<Asteroid>,
    Vec<Asteroid>,
))
    ensures
        r.0@ == sweep(asteroids@, old(bullets)@, asteroids.len() as int).survivors,
        r.1@ == sweep(asteroids@, old(bullets)@, asteroids.len() as int).casualties,
        final(bullets)@ == sweep(asteroids@, old(bullets)@, asteroids.len() as int).bullets,
        r.0.len() + r.1.len() == asteroids.len(),
        final(bullets).len() + r.1.len() == old(bullets).len(),
{
    let mut survivors: Vec<Asteroid> = Vec::new();
    let mut casualties: Vec<Asteroid> = Vec::new();
    let ghost start = bullets@;
    let mut i: usize = 0;
    while i < asteroids.len()
        invariant
            i <= asteroids.len(),
            sweep(asteroids@, start, i as int) == (Sweep {
                survivors: survivors@,
                casualties: casualties@,
                bullets: bullets@,
            }),
        decreases asteroids.len() - i,
    {
        let asteroid = asteroids[i];
        match first_hit(asteroid, bullets) {
            Some(j) => {
                bullets.remove(j);
                casualties.push(asteroid);
            },
            None => {
                survivors.push(asteroid);
            },
        }
        i += 1;
    }
    proof {
        sweep_accounts(asteroids@, start, asteroids.len() as int);
    }
    (survivors, casualties)
}

/// Whether `asteroid` touches a ship at `ship`: their squared distance is
/// at most the square of the sum of their radii.
pub open spec fn spec_touches(asteroid: Asteroid, ship: Vec2) -> bool {
    asteroid.pos.within(ship, asteroid.radius.plus(Fixed::from_int(PLAYER_RADIUS)))
}

/// Whether `asteroid` touches a ship at `ship`.
#[verifier::when_used_as_spec(spec_touches)]
pub fn touches(asteroid: Asteroid, ship: Vec2) -> (r: bool)
    ensures
        r == spec_touches(asteroid, ship),
{
    asteroid.pos.within(ship, asteroid.radius.plus(Fixed::from_int(PLAYER_RADIUS)))
}

/// Whether any of the asteroids touches a ship at `ship`.
pub open spec fn spec_any_touches(asteroids: Seq<Asteroid>, ship: Vec2) -> bool {
    exists|i: int| 0 <= i < asteroids.len() && touches(#[trigger] asteroids[i], ship)
}

/// Whether any of the asteroids touches a ship at `ship`.
pub fn any_touches(asteroids: &Vec<Asteroid>, ship: Vec2) -> (r: bool)
    ensures
        r == spec_any_touches(asteroids@, ship),
{
    let mut i: usize = 0;
    while i < asteroids.len()
        invariant
            i <= asteroids.len(),
            forall|k: int| 0 <= k < i ==> !touches(#[trigger] asteroids@[k], ship),
        decreases asteroids.len() - i,
    {
        if touches(asteroids[i], ship) {
            return true;
        }
        i += 1;
    }
    false
}

/// Whether two asteroids overlap: the distance from the first to the second
/// is at most the sum of their radii.
pub open spec fn spec_overlapping(a: Asteroid, b: Asteroid) -> bool {
    a.pos.distance(b.pos).raw <= a.radius.plus(b.radius).raw
}

/// Whether two asteroids overlap.
#[verifier::when_used_as_spec(spec_overlapping)]
pub fn overlapping(a: Asteroid, b: Asteroid) -> (r: bool)
    ensures
        r == spec_overlapping(a, b),
{
    a.pos.distance(b.pos).raw <= a.radius.plus(b.radius).raw
}

/// A correction to one asteroid: an angle by which its velocity turns and a
/// displacement of its position.
#[derive(Clone, Copy, Debug, PartialEq, Eq, Structural)]
pub struct Nudge {
    pub turn: Fixed,
    pub shift: Vec2,
}

/// The share of `part`'s squared radius in the sum of both squared radii.
pub open spec fn spec_weight(part: Asteroid, other: Asteroid) -> Fixed {
    let own = part.radius.times(part.radius);
    own.over(own.plus(other.radius.times(other.radius)))
}

/// The share of `part`'s squared radius in the sum of both squared radii.
#[verifier::when_used_as_spec(spec_weight)]
pub fn weight(part: Asteroid, other: Asteroid) -> (r: Fixed)
    ensures
        r == spec_weight(part, other),
{
    let own = part.radius.times(part.radius);
    own.over(own.plus(other.radius.times(other.radius)))
}

/// The displacement of the second asteroid of the pair `(a, b)`: the unit
/// vector from `b` to `a`, times the distance less the sum of the radii.
/// For overlapping asteroids that factor is not positive, so `b` moves
/// away from `a` by the depth of the overlap.
pub open spec fn spec_push(a: Asteroid, b: Asteroid) -> Vec2 {
    let depth = a.pos.distance(b.pos).minus(a.radius.plus(b.radius));
    a.pos.minus(b.pos).normalized().scaled(depth)
}

/// The correction to the first asteroid of the overlapping pair `(a, b)`:
/// it turns clockwise by the angle between the two velocities weighted by
/// the second's share of the squared radii, and moves along the unit vector
/// from `a` to `b` by the distance less the sum of the radii, that is, away
/// from `b` by the depth of the overlap.
pub open spec fn spec_nudge_first(a: Asteroid, b: Asteroid) -> Nudge {
    let depth = a.pos.distance(b.pos).minus(a.radius.plus(b.radius));
    Nudge {
        turn: a.vel.angle_between(b.vel).times(weight(b, a)).negated(),
        shift: a.pos.minus(b.pos).normalized().negated().scaled(depth),
    }
}

/// The correction to the first asteroid of the overlapping pair `(a, b)`.
#[verifier::when_used_as_spec(spec_nudge_first)]
pub fn nudge_first(a: Asteroid, b: Asteroid) -> (r: Nudge)
    ensures
        r == spec_nudge_first(a, b),
{
    let depth = a.pos.distance(b.pos).minus(a.radius.plus(b.radius));
    Nudge {
        turn: a.vel.angle_between(b.vel).times(weight(b, a)).negated(),
        shift: a.pos.minus(b.pos).normalized().negated().scaled(depth),
    }
}

/// The correction to the second asteroid of the overlapping pair `(a, b)`:
/// it turns counter-clockwise by the angle between the two velocities
/// weighted by the first's share of the squared radii, and moves by its
/// displacement.
pub open spec fn spec_nudge_second(a: Asteroid, b: Asteroid) -> Nudge {
    Nudge { turn: a.vel.angle_between(b.vel).times(weight(a, b)), shift: spec_push(a, b) }
}

/// The correction to the second asteroid of the overlapping pair `(a, b)`.
#[verifier::when_used_as_spec(spec_nudge_second)]
pub fn nudge_second(a: Asteroid, b: Asteroid) -> (r: Nudge)
    ensures
        r == spec_nudge_second(a, b),
{
    let depth = a.pos.distance(b.pos).minus(a.radius.plus(b.radius));
    Nudge {
        turn: a.vel.angle_between(b.vel).times(weight(a, b)),
        shift: a.pos.minus(b.pos).normalized().scaled(depth),
    }
}

impl Asteroid {
    /// The asteroid with a correction applied: velocity turned, position
    /// displaced.
    pub open spec fn spec_nudged(self, nudge: Nudge) -> Asteroid {
        Asteroid { pos: self.pos.plus(nudge.shift), vel: self.vel.rotated(nudge.turn), ..self }
    }

    /// The asteroid with a correction applied.
    #[verifier::when_used_as_spec(spec_nudged)]
    pub fn nudged(self, nudge: Nudge) -> (r: Asteroid)
        ensures
            r == self.spec_nudged(nudge),
    {
        Asteroid { pos: self.pos.plus(nudge.shift), vel: self.vel.rotated(nudge.turn), ..self }
    }
}

/// Whether the ordered pair of asteroids `(first, second)` is a pair of two
/// different asteroids that overlap.
pub open spec fn meets(asteroids: Seq<Asteroid>, first: int, second: int) -> bool {
    &&& 0 <= first < asteroids.len()
    &&& 0 <= second < asteroids.len()
    &&& first != second
    &&& overlapping(asteroids[first], asteroids[second])
}

/// The highest index below `below` of an asteroid that forms an overlapping
/// pair with asteroid `me`; `me` is the first of the pair if `leading`, the
/// second otherwise.
pub open spec fn last_partner(
    asteroids: Seq<Asteroid>,
    me: int,
    leading: bool,
    below: int,
) -> Option<int>
    decreases below,
{
    if below <= 0 {
        None
    } else if (if leading {
        meets(asteroids, me, below - 1)
    } else {
        meets(asteroids, below - 1, me)
    }) {
        Some(below - 1)
    } else {
        last_partner(asteroids, me, leading, below - 1)
    }
}

/// The correction that asteroid `me` receives when every ordered pair of
/// overlapping asteroids, taken in the order of their index pairs, writes a
/// correction for both of its members and a later correction replaces an
/// earlier one.
///
/// The last pair that writes for `me` is `(j, me)` with the highest
/// `j > me`, if there is one; else `(me, j)` with the highest `j`; else
/// `(j, me)` with the highest `j`.
pub open spec fn last_nudge(asteroids: Seq<Asteroid>, me: int) -> Option<Nudge> {
    let n = asteroids.len() as int;
    let trailing = last_partner(asteroids, me, false, n);
    let leading = last_partner(asteroids, me, true, n);
    if trailing is Some && trailing->0 > me {
        Some(spec_nudge_second(asteroids[trailing->0], asteroids[me]))
    } else if leading is Some {
        Some(spec_nudge_first(asteroids[me], asteroids[leading->0]))
    } else if trailing is Some {
        Some(spec_nudge_second(asteroids[trailing->0], asteroids[me]))
    } else {
        None
    }
}

/// The asteroids after the corrections for their overlaps. Every correction
/// is computed from positions and velocities as they were before any was
/// applied.
pub open spec fn separated(asteroids: Seq<Asteroid>) -> Seq<Asteroid> {
    Seq::new(
        asteroids.len(),
        |i: int|
            match last_nudge(asteroids, i) {
                Some(nudge) => asteroids[i].nudged(nudge),
                None => asteroids[i],
            },
    )
}

/// An asteroid receives a correction exactly when it is a member of some
/// overlapping pair.
pub proof fn nudged_iff_overlapping(asteroids: Seq<Asteroid>, me: int)
    requires
        0 <= me < asteroids.len(),
    ensures
        last_nudge(asteroids, me) is Some <==> exists|j: int|
            meets(asteroids, me, j) || meets(asteroids, j, me),
{
    let n = asteroids.len() as int;
    partner_exists(asteroids, me, true, n);
    partner_exists(asteroids, me, false, n);
    if last_nudge(asteroids, me) is Some {
        let trailing = last_partner(asteroids, me, false, n);
        let leading = last_partner(asteroids, me, true, n);
        if leading is Some {
            assert(meets(asteroids, me, leading->0));
        } else {
            assert(meets(asteroids, trailing->0, me));
        }
    }
    if exists|j: int| meets(asteroids, me, j) || meets(asteroids, j, me) {
        let j = choose|j: int| meets(asteroids, me, j) || meets(asteroids, j, me);
        if meets(asteroids, me, j) {
            assert(last_partner(asteroids, me, true, n) is Some);
        } else {
            assert(last_partner(asteroids, me, false, n) is Some);
        }
    }
}

/// The last partner is a partner, no later asteroid is one, and there is
/// one whenever any asteroid below the bound is a partner.
pub proof fn partner_exists(asteroids: Seq<Asteroid>, me: int, leading: bool, below: int)
    requires
        below <= asteroids.len(),
    ensures
        match last_partner(asteroids, me, leading, below) {
            Some(j) => {
                &&& 0 <= j < below
                &&& if leading {
                    meets(asteroids, me, j)
                } else {
                    meets(asteroids, j, me)
                }
                &&& forall|k: int|
                    j < k < below ==> !(if leading {
                        meets(asteroids, me, k)
                    } else {
                        meets(asteroids, k, me)
                    })
            },
            None => forall|k: int|
                0 <= k < below ==> !(if leading {
                    meets(asteroids, me, k)
                } else {
                    meets(asteroids, k, me)
                }),
        },
    decreases below,
{
    if below > 0 {
        partner_exists(asteroids, me, leading, below - 1);
    }
}

/// The corrections on record when the ordered pairs of asteroids are
/// visited row by row and every overlapping pair writes a correction for
/// both of its members over whatever was on record for them.
///
/// The record covers the pairs `(first, second)` with `first < rows`, and
/// those with `first == rows` and `second < cells`.
pub open spec fn ledger(asteroids: Seq<Asteroid>, rows: int, cells: int) -> Seq<Option<Nudge>>
    decreases rows, cells,
{
    if cells <= 0 {
        if rows <= 0 {
            Seq::new(asteroids.len(), |i: int| None)
        } else {
            ledger(asteroids, rows - 1, asteroids.len() as int)
        }
    } else {
        let before = ledger(asteroids, rows, cells - 1);
        if meets(asteroids, rows, cells - 1) {
            before.update(
                rows,
                Some(spec_nudge_first(asteroids[rows], asteroids[cells - 1])),
            ).update(cells - 1, Some(spec_nudge_second(asteroids[rows], asteroids[cells - 1])))
        } else {
            before
        }
    }
}

/// What is on record for asteroid `me` once all pairs with a first member
/// below `rows` have been visited.
pub open spec fn record_after_rows(asteroids: Seq<Asteroid>, me: int, rows: int) -> Option<Nudge> {
    let trailing = last_partner(asteroids, me, false, rows);
    let leading = if me < rows {
        last_partner(asteroids, me, true, asteroids.len() as int)
    } else {
        None
    };
    if trailing is Some && trailing->0 > me {
        Some(spec_nudge_second(asteroids[trailing->0], asteroids[me]))
    } else if leading is Some {
        Some(spec_nudge_first(asteroids[me], asteroids[leading->0]))
    } else if trailing is Some {
        Some(spec_nudge_second(asteroids[trailing->0], asteroids[me]))
    } else {
        None
    }
}

/// What is on record for asteroid `me` once all pairs with a first member
/// below `rows` have been visited, and of those with first member `rows`
/// the ones with a second member below `cells`.
pub open spec fn record_within_row(
    asteroids: Seq<Asteroid>,
    me: int,
    rows: int,
    cells: int,
) -> Option<Nudge> {
    if me == rows {
        let leading = last_partner(asteroids, me, true, cells);
        if leading is Some {
            Some(spec_nudge_first(asteroids[me], asteroids[leading->0]))
        } else {
            record_after_rows(asteroids, me, rows)
        }
    } else if me < cells && meets(asteroids, rows, me) {
        Some(spec_nudge_second(asteroids[rows], asteroids[me]))
    } else {
        record_after_rows(asteroids, me, rows)
    }
}

/// Starting a row changes nothing: what is on record for `me` after the
/// whole row before `rows` is what is on record before the first cell of row
/// `rows`.
#[verifier::rlimit(40)]
proof fn record_carries_over(asteroids: Seq<Asteroid>, me: int, rows: int)
    requires
        0 < rows <= asteroids.len(),
        0 <= me < asteroids.len(),
    ensures
        record_within_row(asteroids, me, rows - 1, asteroids.len() as int) == record_within_row(
            asteroids,
            me,
            rows,
            0,
        ),
{
    let n = asteroids.len() as int;
    partner_exists(asteroids, me, false, rows - 1);
    partner_exists(asteroids, me, false, rows);
    partner_exists(asteroids, me, true, n);
    assert(last_partner(asteroids, me, true, 0) is None);
    assert(record_within_row(asteroids, me, rows, 0) == record_after_rows(asteroids, me, rows));
    if me == rows - 1 {
        assert(!meets(asteroids, rows - 1, me));
        assert(last_partner(asteroids, me, false, rows) == last_partner(
            asteroids,
            me,
            false,
            rows - 1,
        ));
    } else if meets(asteroids, rows - 1, me) {
        assert(last_partner(asteroids, me, false, rows) == Some(rows - 1));
    } else {
        assert(last_partner(asteroids, me, false, rows) == last_partner(
            asteroids,
            me,
            false,
            rows - 1,
        ));
    }
}

/// Visiting one more cell writes what `record_within_row` says.
proof fn record_after_cell(asteroids: Seq<Asteroid>, me: int, rows: int, cells: int)
    requires
        0 <= rows < asteroids.len(),
        0 < cells <= asteroids.len(),
        0 <= me < asteroids.len(),
    ensures
        record_within_row(asteroids, me, rows, cells) == if meets(asteroids, rows, cells - 1) && me
            == cells - 1 {
            Some(spec_nudge_second(asteroids[rows], asteroids[cells - 1]))
        } else if meets(asteroids, rows, cells - 1) && me == rows {
            Some(spec_nudge_first(asteroids[rows], asteroids[cells - 1]))
        } else {
            record_within_row(asteroids, me, rows, cells - 1)
        },
{
    if me == rows {
        if meets(asteroids, rows, cells - 1) {
            assert(last_partner(asteroids, me, true, cells) == Some(cells - 1));
        } else {
            assert(last_partner(asteroids, me, true, cells) == last_partner(
                asteroids,
                me,
                true,
                cells - 1,
            ));
        }
    }
}

/// The record at any point of the visit is what `record_within_row` says.
#[verifier::rlimit(40)]
pub proof fn ledger_holds_last_writes(asteroids: Seq<Asteroid>, rows: int, cells: int)
    requires
        0 <= rows <= asteroids.len(),
        0 <= cells <= asteroids.len(),
        rows == asteroids.len() ==> cells == 0,
    ensures
        ledger(asteroids, rows, cells).len() == asteroids.len(),
        forall|me: int|
            0 <= me < asteroids.len() ==> #[trigger] ledger(asteroids, rows, cells)[me]
                == record_within_row(asteroids, me, rows, cells),
    decreases rows, cells,
{
    let n = asteroids.len() as int;
    let now = ledger(asteroids, rows, cells);
    if cells <= 0 {
        if rows > 0 {
            ledger_holds_last_writes(asteroids, rows - 1, n);
            assert forall|me: int| 0 <= me < n implies #[trigger] now[me] == record_within_row(
                asteroids,
                me,
                rows,
                cells,
            ) by {
                assert(now[me] == record_within_row(asteroids, me, rows - 1, n));
                record_carries_over(asteroids, me, rows);
            }
        } else {
            assert forall|me: int| 0 <= me < n implies #[trigger] now[me] == record_within_row(
                asteroids,
                me,
                rows,
                cells,
            ) by {
                assert(last_partner(asteroids, me, true, 0) is None);
                assert(last_partner(asteroids, me, false, 0) is None);
            }
        }
    } else {
        ledger_holds_last_writes(asteroids, rows, cells - 1);
        let before = ledger(asteroids, rows, cells - 1);
        assert forall|me: int| 0 <= me < n implies #[trigger] now[me] == record_within_row(
            asteroids,
            me,
            rows,
            cells,
        ) by {
            assert(before[me] == record_within_row(asteroids, me, rows, cells - 1));
            record_after_cell(asteroids, me, rows, cells);
        }
    }
}

/// Later pairs overwrite earlier ones: when all ordered pairs have been
/// visited, the record holds for every asteroid the correction that
/// `last_nudge` names.
pub proof fn last_pair_wins(asteroids: Seq<Asteroid>, me: int)
    requires
        0 <= me < asteroids.len(),
    ensures
        ledger(asteroids, asteroids.len() as int, 0)[me] == last_nudge(asteroids, me),
{
    ledger_holds_last_writes(asteroids, asteroids.len() as int, 0);
}

/// The highest index of an asteroid that forms an overlapping pair with
/// asteroid `me`.
fn find_partner(asteroids: &Vec<Asteroid>, me: usize, leading: bool) -> (r: Option<usize>)
    requires
        me < asteroids.len(),
    ensures
        match r {
            Some(j) => last_partner(asteroids@, me as int, leading, asteroids.len() as int)
                == Some(j as int) && j < asteroids.len() && j != me,
            None => last_partner(asteroids@, me as int, leading, asteroids.len() as int) is None,
        },
{
    let mut below: usize = asteroids.len();
    while below > 0
        invariant
            below <= asteroids.len(),
            me < asteroids.len(),
            last_partner(asteroids@, me as int, leading, asteroids.len() as int) == last_partner(
                asteroids@,
                me as int,
                leading,
                below as int,
            ),
        decreases below,
    {
        let j = below - 1;
        if j != me {
            let hit = if leading {
                overlapping(asteroids[me], asteroids[j])
            } else {
                overlapping(asteroids[j], asteroids[me])
            };
            if hit {
                return Some(j);
            }
        }
        below = j;
    }
    None
}

/// Applies to every asteroid the correction for its overlaps.
pub fn separate(asteroids: &Vec<Asteroid>) -> (r: Vec<Asteroid>)
    ensures
        r@ == separated(asteroids@),
        r.len() == asteroids.len(),
        forall|i: int|
            0 <= i < r.len() ==> (#[trigger] r[i]).model_index == asteroids[i].model_index
                && r[i].radius == asteroids[i].radius,
{
    let mut out: Vec<Asteroid> = Vec::new();
    let mut i: usize = 0;
    while i < asteroids.len()
        invariant
            i <= asteroids.len(),
            out.len() == i,
            forall|k: int| 0 <= k < i ==> out[k] == separated(asteroids@)[k],
        decreases asteroids.len() - i,
    {
        let me = asteroids[i];
        let trailing = find_partner(asteroids, i, false);
        let leading = find_partner(asteroids, i, true);
        let next = match (trailing, leading) {
            (Some(j), _) if j > i => me.nudged(nudge_second(asteroids[j], me)),
            (_, Some(j)) => me.nudged(nudge_first(me, asteroids[j])),
            (Some(j), None) => me.nudged(nudge_second(asteroids[j], me)),
            (None, None) => me,
        };
        out.push(next);
        i += 1;
    }
    assert(out@ =~= separated(asteroids@));
    out
}

} // verus!
