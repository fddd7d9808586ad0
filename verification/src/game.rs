//! The game: its state, one frame of simulation, and starting over.

use crate::collide::{
    among_asteroids, any_touches, last_nudge, run_sweep, separate, separated, spec_any_touches,
    sweep, sweep_accounts, sweep_members, Sweep,
};
use crate::entity::{inside, Asteroid, Buttons, Bullet, Player};
use crate::fixed::Fixed;
use crate::rules::MAX_ASTEROIDS;
use crate::spawn::{
    breaks_up, draw_placement, litter_ok, litter_shape, offspring, placement_draw_ok, produce,
    Litter, PlacementDraw,
};
use crate::vec2::Vec2;
use crate::world::{shapes_cover, shapes_ok, ShapeLibrary, World};
use rand::rngs::StdRng;
use vstd::prelude::*;

verus! {

/// A sound that the caller is asked to play.
#[derive(Clone, Copy, Debug, PartialEq, Eq, Structural)]
pub enum Cue {
    /// The ship fired.
    Shoot,
    /// A bullet destroyed an asteroid.
    Collision,
    /// An asteroid hit the ship.
    GameOver,
}

/// What one frame reports back.
pub struct TickReport {
    /// Whether the game is still running after the frame.
    pub running: bool,
    /// The sounds of the frame, in the order in which they arose.
    pub cues: Vec<Cue>,
}

/// The asteroids after `dt` seconds of free motion.
pub open spec fn drifted_asteroids(asteroids: Seq<Asteroid>, dt: Fixed, size: Vec2) -> Seq<
    Asteroid,
> {
    Seq::new(asteroids.len(), |i: int| asteroids[i].advanced(dt, size))
}

/// The bullets after `dt` seconds of free motion.
pub open spec fn drifted_bullets(bullets: Seq<Bullet>, dt: Fixed, size: Vec2) -> Seq<Bullet> {
    Seq::new(bullets.len(), |i: int| bullets[i].advanced(dt, size))
}

/// The point in the middle of a world of extent `size`.
pub open spec fn spec_center(size: Vec2) -> Vec2 {
    size.shrunk(Fixed::from_int(2))
}

/// The point in the middle of a world of extent `size`.
#[verifier::when_used_as_spec(spec_center)]
pub fn center(size: Vec2) -> (r: Vec2)
    ensures
        r == spec_center(size),
{
    size.shrunk(Fixed::from_int(2))
}

/// The deterministic part of a frame: where the ship ends up, whether it
/// fired, and which asteroids and bullets destroyed each other.
pub struct Engagement {
    /// The ship after steering and firing.
    pub ship: Player,
    /// Whether the ship fired.
    pub fired: bool,
    /// The asteroids after their motion, before any is removed.
    pub field: Seq<Asteroid>,
    /// The outcome of matching the bullets, the new one included, against
    /// the asteroids.
    pub matched: Sweep,
}

/// The deterministic part of the frame that takes `world` through `dt`
/// seconds with the given controls at time `now`.
pub open spec fn engagement(world: World, buttons: Buttons, dt: Fixed, now: u64) -> Engagement {
    let steered = world.player.steered(buttons, dt, world.size);
    let fired = steered.fires(buttons, now);
    let flying = drifted_bullets(world.bullets, dt, world.size);
    let loaded = if fired {
        flying.push(steered.shot())
    } else {
        flying
    };
    let ship = if fired {
        Player { last_shoot: now, ..steered }
    } else {
        steered
    };
    let field = drifted_asteroids(world.asteroids, dt, world.size);
    Engagement { ship, fired, field, matched: sweep(field, loaded, field.len() as int) }
}

/// How many asteroids a litter holds.
pub open spec fn litter_size(litter: Litter) -> nat {
    match litter {
        Litter::Nothing => 0,
        Litter::Fragments(draws) => draws.len(),
        Litter::Replacement(_) => 1,
    }
}

/// The number of asteroids in the field when the first `handled` casualties
/// have been removed and have left their litters, starting from `start`.
pub open spec fn population(start: int, litters: Seq<Litter>, handled: int) -> int
    decreases handled,
{
    if handled <= 0 {
        start
    } else {
        population(start, litters, handled - 1) - 1 + litter_size(litters[handled - 1])
    }
}

/// The asteroids that the first `handled` casualties left behind, in order.
pub open spec fn brood(casualties: Seq<Asteroid>, litters: Seq<Litter>, handled: int) -> Seq<
    Asteroid,
>
    decreases handled,
{
    if handled <= 0 {
        Seq::empty()
    } else {
        brood(casualties, litters, handled - 1) + offspring(
            casualties[handled - 1],
            litters[handled - 1],
        )
    }
}

/// Whether `litters` are litters that the casualties may leave, one each
/// and in order, in a field of `start` asteroids: each is decided by the
/// number of asteroids that remain once its parent is removed.
pub open spec fn litters_ok(
    casualties: Seq<Asteroid>,
    litters: Seq<Litter>,
    start: int,
    ship: Vec2,
    shapes: usize,
) -> bool {
    &&& litters.len() == casualties.len()
    &&& forall|k: int|
        0 <= k < casualties.len() ==> litter_ok(
            casualties[k],
            population(start, litters, k) - 1,
            ship,
            shapes,
            #[trigger] litters[k],
        )
}

/// The score after `hits` more asteroids are destroyed; it stops at the
/// largest number that fits.
pub open spec fn bumped(score: u64, hits: nat) -> u64 {
    if score + hits > u64::MAX {
        u64::MAX
    } else {
        (score + hits) as u64
    }
}

/// The sounds of a frame: the shot if one was fired, one collision per
/// destroyed asteroid, and the end of the game if the ship was hit.
pub open spec fn cue_list(fired: bool, hits: nat, lost: bool) -> Seq<Cue> {
    let shots = if fired {
        seq![Cue::Shoot]
    } else {
        Seq::<Cue>::empty()
    };
    let ends = if lost {
        seq![Cue::GameOver]
    } else {
        Seq::<Cue>::empty()
    };
    shots + Seq::new(hits, |i: int| Cue::Collision) + ends
}

/// Whether a running game in state `before` may be in state `after` one
/// frame later, with `litters` left by the destroyed asteroids.
///
/// Asteroids, bullets and ship move and wrap; the ship turns, accelerates
/// and fires; each asteroid is destroyed by the first bullet left that hits
/// it; the game is over if a surviving asteroid touches the ship; the
/// litters join the survivors, and overlapping asteroids are pushed apart.
pub open spec fn frame_outcome(
    before: World,
    buttons: Buttons,
    dt: Fixed,
    now: u64,
    litters: Seq<Litter>,
    after: World,
) -> bool {
    let e = engagement(before, buttons, dt, now);
    let hits = e.matched.casualties.len();
    &&& litters_ok(
        e.matched.casualties,
        litters,
        before.asteroids.len() as int,
        e.ship.pos,
        before.shapes.len() as usize,
    )
    &&& after.asteroids == separated(
        e.matched.survivors + brood(e.matched.casualties, litters, hits as int),
    )
    &&& after.bullets == e.matched.bullets
    &&& after.player == e.ship
    &&& after.score == bumped(before.score, hits)
    &&& after.game_over == spec_any_touches(e.matched.survivors, e.ship.pos)
    &&& after.size == before.size
    &&& after.shapes == before.shapes
}

/// Whether `world` is a game at its start at time `now`: the ship at rest
/// in the middle, no bullets, no score, and one asteroid placed by `draw`.
pub open spec fn opening(
    world: World,
    size: Vec2,
    shapes: Seq<Seq<Vec2>>,
    now: u64,
    draw: PlacementDraw,
) -> bool {
    &&& placement_draw_ok(draw, center(size), shapes.len() as usize)
    &&& world.asteroids == seq![Asteroid::placed(draw)]
    &&& world.bullets == Seq::<Bullet>::empty()
    &&& world.player == Player::at_rest(center(size), now)
    &&& !world.game_over
    &&& world.score == 0
    &&& world.size == size
    &&& world.shapes == shapes
}

/// The state of a game. Every value of this type has a usable outline
/// library that covers all asteroids.
struct State {
    asteroids: Vec<Asteroid>,
    bullets: Vec<Bullet>,
    player: Player,
    game_over: bool,
    score: u64,
    size: Vec2,
    shapes: ShapeLibrary,
}

impl View for State {
    type V = World;

    closed spec fn view(&self) -> World {
        World {
            asteroids: self.asteroids@,
            bullets: self.bullets@,
            player: self.player,
            game_over: self.game_over,
            score: self.score,
            size: self.size,
            shapes: self.shapes@,
        }
    }
}

impl State {
    #[verifier::type_invariant]
    spec fn sound(self) -> bool {
        self@.wf()
    }
}

/// A game in progress: its state and the random source it draws from.
pub struct Game {
    state: State,
    rng: StdRng,
}

impl View for Game {
    type V = World;

    closed spec fn view(&self) -> World {
        self.state@
    }
}

/// Moves every asteroid by `dt` seconds.
fn drift_asteroids(asteroids: &Vec<Asteroid>, dt: Fixed, size: Vec2) -> (r: Vec<Asteroid>)
    ensures
        r@ == drifted_asteroids(asteroids@, dt, size),
{
    let mut out: Vec<Asteroid> = Vec::new();
    let mut i: usize = 0;
    while i < asteroids.len()
        invariant
            i <= asteroids.len(),
            out.len() == i,
            forall|k: int| 0 <= k < i ==> out[k] == asteroids[k].advanced(dt, size),
        decreases asteroids.len() - i,
    {
        out.push(asteroids[i].advanced(dt, size));
        i += 1;
    }
    assert(out@ =~= drifted_asteroids(asteroids@, dt, size));
    out
}

/// Moves every bullet by `dt` seconds.
fn drift_bullets(bullets: &Vec<Bullet>, dt: Fixed, size: Vec2) -> (r: Vec<Bullet>)
    ensures
        r@ == drifted_bullets(bullets@, dt, size),
{
    let mut out: Vec<Bullet> = Vec::new();
    let mut i: usize = 0;
    while i < bullets.len()
        invariant
            i <= bullets.len(),
            out.len() == i,
            forall|k: int| 0 <= k < i ==> out[k] == bullets[k].advanced(dt, size),
        decreases bullets.len() - i,
    {
        out.push(bullets[i].advanced(dt, size));
        i += 1;
    }
    assert(out@ =~= drifted_bullets(bullets@, dt, size));
    out
}

/// While casualties remain to be handled, the field holds at least as many
/// asteroids as remain, and never more than it started with or than the cap
/// and one full litter allow.
proof fn population_bounds(
    casualties: Seq<Asteroid>,
    litters: Seq<Litter>,
    start: int,
    ship: Vec2,
    shapes: usize,
    handled: int,
)
    requires
        0 <= handled <= litters.len(),
        litters.len() <= casualties.len() <= start,
        forall|k: int|
            0 <= k < litters.len() ==> litter_ok(
                casualties[k],
                population(start, litters, k) - 1,
                ship,
                shapes,
                #[trigger] litters[k],
            ),
    ensures
        start - handled <= population(start, litters, handled),
        population(start, litters, handled) <= start || population(start, litters, handled)
            <= MAX_ASTEROIDS + 3,
    decreases handled,
{
    if handled > 0 {
        population_bounds(casualties, litters, start, ship, shapes, handled - 1);
        assert(litter_ok(
            casualties[handled - 1],
            population(start, litters, handled - 1) - 1,
            ship,
            shapes,
            litters[handled - 1],
        ));
    }
}

/// The population up to a point does not depend on later litters.
proof fn population_prefix(start: int, litters: Seq<Litter>, more: Litter, handled: int)
    requires
        0 <= handled <= litters.len(),
    ensures
        population(start, litters.push(more), handled) == population(start, litters, handled),
    decreases handled,
{
    if handled > 0 {
        population_prefix(start, litters, more, handled - 1);
        assert(litters.push(more)[handled - 1] == litters[handled - 1]);
    }
}

/// The brood up to a point does not depend on later litters.
proof fn brood_prefix(casualties: Seq<Asteroid>, litters: Seq<Litter>, more: Litter, handled: int)
    requires
        0 <= handled <= litters.len(),
    ensures
        brood(casualties, litters.push(more), handled) == brood(casualties, litters, handled),
    decreases handled,
{
    if handled > 0 {
        brood_prefix(casualties, litters, more, handled - 1);
        assert(litters.push(more)[handled - 1] == litters[handled - 1]);
    }
}

/// Lets every casualty leave its litter, in order.
#[verifier::rlimit(40)]
fn repopulate(
    rng: &mut StdRng,
    casualties: &Vec<Asteroid>,
    start: usize,
    ship: Vec2,
    shapes: usize,
) -> (r: (Vec<Asteroid>, Ghost<Seq<Litter>>))
    requires
        shapes > 0,
        casualties.len() <= start,
    ensures
        litters_ok(casualties@, r.1@, start as int, ship, shapes),
        r.0@ == brood(casualties@, r.1@, casualties.len() as int),
        shapes_cover(r.0@, shapes as int),
{
    let mut newborn: Vec<Asteroid> = Vec::new();
    let ghost mut litters: Seq<Litter> = Seq::empty();
    let mut count: usize = start;
    let mut k: usize = 0;
    while k < casualties.len()
        invariant
            k <= casualties.len(),
            casualties.len() <= start,
            shapes > 0,
            litters.len() == k,
            count == population(start as int, litters, k as int),
            forall|j: int|
                0 <= j < k ==> litter_ok(
                    casualties@[j],
                    population(start as int, litters, j) - 1,
                    ship,
                    shapes,
                    #[trigger] litters[j],
                ),
            newborn@ == brood(casualties@, litters, k as int),
            shapes_cover(newborn@, shapes as int),
        decreases casualties.len() - k,
    {
        proof {
            population_bounds(casualties@, litters, start as int, ship, shapes, k as int);
        }
        let parent = casualties[k];
        let remaining = count - 1;
        let (mut children, litter) = produce(rng, parent, remaining, ship, shapes);
        proof {
            let longer = litters.push(litter@);
            assert forall|j: int| 0 <= j < k + 1 implies litter_ok(
                casualties@[j],
                population(start as int, longer, j) - 1,
                ship,
                shapes,
                #[trigger] longer[j],
            ) by {
                population_prefix(start as int, litters, litter@, j);
                if j < k {
                    assert(longer[j] == litters[j]);
                }
            }
            population_prefix(start as int, litters, litter@, k as int);
            brood_prefix(casualties@, litters, litter@, k as int);
            assert(longer[k as int] == litter@);
            litter_shape(parent, remaining as int, ship, shapes, litter@);
            assert(children@.len() == litter_size(litter@));
            let grown = newborn@ + children@;
            assert forall|i: int| 0 <= i < grown.len() implies (#[trigger] grown[i]).model_index
                < shapes by {
                if i >= newborn@.len() {
                    assert(grown[i] == children@[i - newborn@.len()]);
                }
            }
            litters = longer;
        }
        count = remaining + children.len();
        newborn.append(&mut children);
        k += 1;
    }
    (newborn, Ghost(litters))
}

/// Adds `hits` to the score; the score stops at the largest number that
/// fits.
fn bump(score: u64, hits: usize) -> (r: u64)
    ensures
        r == bumped(score, hits as nat),
{
    let wide: u128 = score as u128 + hits as u128;
    if wide > u64::MAX as u128 {
        u64::MAX
    } else {
        wide as u64
    }
}

/// Lists the sounds of a frame.
fn list_cues(fired: bool, hits: usize, lost: bool) -> (r: Vec<Cue>)
    ensures
        r@ == cue_list(fired, hits as nat, lost),
{
    let mut cues: Vec<Cue> = Vec::new();
    if fired {
        cues.push(Cue::Shoot);
    }
    let ghost shots = cues@;
    let mut i: usize = 0;
    while i < hits
        invariant
            i <= hits,
            cues@ == shots + Seq::new(i as nat, |j: int| Cue::Collision),
        decreases hits - i,
    {
        cues.push(Cue::Collision);
        i += 1;
        assert(cues@ =~= shots + Seq::new(i as nat, |j: int| Cue::Collision));
    }
    let ghost middle = cues@;
    if lost {
        cues.push(Cue::GameOver);
        assert(cues@ =~= middle + seq![Cue::GameOver]);
    } else {
        assert(cues@ =~= middle + Seq::<Cue>::empty());
    }
    cues
}

/// After the deterministic part of a frame the ship and all bullets lie in
/// the world, and survivors and casualties refer to outlines that exist.
proof fn engagement_keeps_order(world: World, buttons: Buttons, dt: Fixed, now: u64)
    requires
        world.wf(),
    ensures
        ({
            let e = engagement(world, buttons, dt, now);
            &&& shapes_cover(e.matched.survivors, world.shapes.len() as int)
            &&& shapes_cover(e.matched.casualties, world.shapes.len() as int)
            &&& e.matched.casualties.len() <= world.asteroids.len()
            &&& world.size.x.raw >= 0 && world.size.y.raw >= 0 ==> {
                &&& inside(e.ship.pos, world.size)
                &&& forall|i: int|
                    0 <= i < e.matched.bullets.len() ==> inside(
                        (#[trigger] e.matched.bullets[i]).pos,
                        world.size,
                    )
            }
        }),
{
    let e = engagement(world, buttons, dt, now);
    let steered = world.player.steered(buttons, dt, world.size);
    let flying = drifted_bullets(world.bullets, dt, world.size);
    let loaded = if e.fired {
        flying.push(steered.shot())
    } else {
        flying
    };
    sweep_members(e.field, loaded, e.field.len() as int);
    sweep_accounts(e.field, loaded, e.field.len() as int);
    assert forall|i: int| 0 <= i < e.matched.survivors.len() implies (
    #[trigger] e.matched.survivors[i]).model_index < world.shapes.len() by {
        let a = e.matched.survivors[i];
        let j = choose|j: int| 0 <= j < e.field.len() && e.field[j] == a;
        assert(e.field[j].model_index == world.asteroids[j].model_index);
    }
    assert forall|i: int| 0 <= i < e.matched.casualties.len() implies (
    #[trigger] e.matched.casualties[i]).model_index < world.shapes.len() by {
        let a = e.matched.casualties[i];
        let j = choose|j: int| 0 <= j < e.field.len() && e.field[j] == a;
        assert(e.field[j].model_index == world.asteroids[j].model_index);
    }
    if world.size.x.raw >= 0 && world.size.y.raw >= 0 {
        assert forall|i: int| 0 <= i < e.matched.bullets.len() implies inside(
            (#[trigger] e.matched.bullets[i]).pos,
            world.size,
        ) by {
            let b = e.matched.bullets[i];
            let j = choose|j: int| 0 <= j < loaded.len() && loaded[j] == b;
            if j < flying.len() {
                assert(loaded[j] == world.bullets[j].advanced(dt, world.size));
            }
        }
    }
}

/// After a frame every asteroid that survived it and was not pushed by
/// another lies inside the world.
pub proof fn unpushed_survivors_stay_inside(
    before: World,
    buttons: Buttons,
    dt: Fixed,
    now: u64,
    litters: Seq<Litter>,
    after: World,
    which: int,
)
    requires
        frame_outcome(before, buttons, dt, now, litters, after),
        before.size.x.raw >= 0,
        before.size.y.raw >= 0,
        0 <= which < engagement(before, buttons, dt, now).matched.survivors.len(),
        last_nudge(
            engagement(before, buttons, dt, now).matched.survivors + brood(
                engagement(before, buttons, dt, now).matched.casualties,
                litters,
                engagement(before, buttons, dt, now).matched.casualties.len() as int,
            ),
            which,
        ) is None,
    ensures
        which < after.asteroids.len(),
        after.asteroids[which] == engagement(before, buttons, dt, now).matched.survivors[which],
        inside(after.asteroids[which].pos, before.size),
{
    let e = engagement(before, buttons, dt, now);
    let steered = before.player.steered(buttons, dt, before.size);
    let flying = drifted_bullets(before.bullets, dt, before.size);
    let loaded = if e.fired {
        flying.push(steered.shot())
    } else {
        flying
    };
    sweep_members(e.field, loaded, e.field.len() as int);
    let survivor = e.matched.survivors[which];
    assert(among_asteroids(e.field, e.field.len() as int, survivor));
    let j = choose|j: int| 0 <= j < e.field.len() && e.field[j] == survivor;
    assert(e.field[j] == before.asteroids[j].advanced(dt, before.size));
}

/// Every hit is paid for: in a frame each destroyed asteroid uses up one
/// bullet and adds one to the score, and while the field is below its cap
/// an asteroid above the threshold leaves two to four fragments, each with
/// the parent's radius divided by their number.
pub proof fn hits_are_paid_for(
    before: World,
    buttons: Buttons,
    dt: Fixed,
    now: u64,
    litters: Seq<Litter>,
    after: World,
)
    requires
        frame_outcome(before, buttons, dt, now, litters, after),
    ensures
        ({
            let e = engagement(before, buttons, dt, now);
            let hits = e.matched.casualties.len();
            &&& e.matched.survivors.len() + hits == before.asteroids.len()
            &&& after.bullets.len() + hits == before.bullets.len() + if e.fired {
                1int
            } else {
                0int
            }
            &&& before.score + hits <= u64::MAX ==> after.score == before.score + hits
            &&& forall|k: int|
                #![trigger litters[k]]
                0 <= k < hits && population(before.asteroids.len() as int, litters, k) - 1
                    < MAX_ASTEROIDS && breaks_up(e.matched.casualties[k]) ==> {
                    let parent = e.matched.casualties[k];
                    let children = offspring(parent, litters[k]);
                    &&& 2 <= children.len() <= 4
                    &&& forall|i: int|
                        0 <= i < children.len() ==> (#[trigger] children[i]).radius
                            == parent.radius.over(Fixed::from_count(children.len() as usize))
                }
        }),
{
    let e = engagement(before, buttons, dt, now);
    let steered = before.player.steered(buttons, dt, before.size);
    let flying = drifted_bullets(before.bullets, dt, before.size);
    let loaded = if e.fired {
        flying.push(steered.shot())
    } else {
        flying
    };
    sweep_accounts(e.field, loaded, e.field.len() as int);
    let hits = e.matched.casualties.len();
    assert forall|k: int|
        #![trigger litters[k]]
        0 <= k < hits && population(before.asteroids.len() as int, litters, k) - 1 < MAX_ASTEROIDS
            && breaks_up(e.matched.casualties[k]) implies {
        let parent = e.matched.casualties[k];
        let children = offspring(parent, litters[k]);
        &&& 2 <= children.len() <= 4
        &&& forall|i: int|
            0 <= i < children.len() ==> (#[trigger] children[i]).radius == parent.radius.over(
                Fixed::from_count(children.len() as usize),
            )
    } by {
        litter_shape(
            e.matched.casualties[k],
            population(before.asteroids.len() as int, litters, k) - 1,
            e.ship.pos,
            before.shapes.len() as usize,
            litters[k],
        );
    }
}

impl Game {
    /// A new game in a world of extent `size`, started at time `now`: the
    /// ship rests in the middle and one asteroid is placed at random,
    /// beyond the clearance from the ship.
    pub fn new(size: Vec2, shapes: ShapeLibrary, rng: StdRng, now: u64) -> (game: Game)
        ensures
            game@.wf(),
            exists|draw: PlacementDraw| opening(game@, size, shapes@, now, draw),
    {
        let mut rng = rng;
        let middle = center(size);
        let count = shapes.len();
        let draw = draw_placement(&mut rng, middle, count);
        let mut asteroids: Vec<Asteroid> = Vec::new();
        asteroids.push(Asteroid::placed(draw));
        let state = State {
            asteroids,
            bullets: Vec::new(),
            player: Player::at_rest(middle, now),
            game_over: false,
            score: 0,
            size,
            shapes,
        };
        let game = Game { state, rng };
        assert(game@.asteroids =~= seq![Asteroid::placed(draw)]);
        assert(game@.bullets =~= Seq::<Bullet>::empty());
        assert(opening(game@, size, shapes@, now, draw));
        game
    }

    /// A game with the given entities, for a caller that has a state of
    /// its own to continue from. There is none to make when an asteroid
    /// refers to an outline that the library does not hold.
    pub fn with_entities(
        size: Vec2,
        shapes: ShapeLibrary,
        rng: StdRng,
        player: Player,
        asteroids: Vec<Asteroid>,
        bullets: Vec<Bullet>,
        score: u64,
    ) -> (r: Option<Game>)
        ensures
            r is Some <==> shapes_cover(asteroids@, shapes@.len() as int),
            r matches Some(game) ==> game@.wf() && game@ == (World {
                asteroids: asteroids@,
                bullets: bullets@,
                player,
                game_over: false,
                score,
                size,
                shapes: shapes@,
            }),
    {
        let count = shapes.len();
        let mut i: usize = 0;
        while i < asteroids.len()
            invariant
                i <= asteroids.len(),
                count == shapes@.len(),
                forall|k: int|
                    0 <= k < i ==> (#[trigger] asteroids@[k]).model_index < shapes@.len(),
            decreases asteroids.len() - i,
        {
            if asteroids[i].model_index >= count {
                return None;
            }
            i += 1;
        }
        let state = State { asteroids, bullets, player, game_over: false, score, size, shapes };
        Some(Game { state, rng })
    }

    /// Starts over at time `now`: the ship rests in the middle, the bullets
    /// and the score are gone, one asteroid is placed at random beyond the
    /// clearance from the ship, and the game runs again.
    pub fn reset(&mut self, now: u64)
        ensures
            final(self)@.wf(),
            exists|draw: PlacementDraw|
                opening(final(self)@, old(self)@.size, old(self)@.shapes, now, draw),
    {
        let middle = center(self.state.size);
        let count = self.state.shapes.len();
        let draw = draw_placement(&mut self.rng, middle, count);
        let mut asteroids: Vec<Asteroid> = Vec::new();
        asteroids.push(Asteroid::placed(draw));
        self.state.asteroids = asteroids;
        self.state.bullets = Vec::new();
        self.state.player = Player::at_rest(middle, now);
        self.state.game_over = false;
        self.state.score = 0;
        assert(self@.asteroids =~= seq![Asteroid::placed(draw)]);
        assert(self@.bullets =~= Seq::<Bullet>::empty());
        assert(opening(self@, old(self)@.size, old(self)@.shapes, now, draw));
    }

    /// Whether an asteroid has hit the ship.
    pub fn is_game_over(&self) -> (r: bool)
        ensures
            r == self@.game_over,
    {
        self.state.game_over
    }

    /// The number of asteroids destroyed since the game started.
    pub fn score(&self) -> (r: u64)
        ensures
            r == self@.score,
    {
        self.state.score
    }

    /// The ship.
    pub fn player(&self) -> (r: Player)
        ensures
            r == self@.player,
    {
        self.state.player
    }

    /// The asteroids.
    pub fn asteroids(&self) -> (r: &Vec<Asteroid>)
        ensures
            r@ == self@.asteroids,
    {
        &self.state.asteroids
    }

    /// The bullets in flight.
    pub fn bullets(&self) -> (r: &Vec<Bullet>)
        ensures
            r@ == self@.bullets,
    {
        &self.state.bullets
    }

    /// The extent of the world.
    pub fn size(&self) -> (r: Vec2)
        ensures
            r == self@.size,
    {
        self.state.size
    }

    /// The outline library. It is usable and covers all asteroids.
    pub fn shapes(&self) -> (r: &ShapeLibrary)
        ensures
            r@ == self@.shapes,
            self@.wf(),
    {
        proof {
            use_type_invariant(&self.state);
        }
        &self.state.shapes
    }

    /// Simulates one frame of `dt` seconds with the given controls, at time
    /// `now` in milliseconds on a clock that does not run backwards.
    ///
    /// A game that is over stays as it is and reports that it is not
    /// running. A running game changes as [`frame_outcome`] says; whatever
    /// is drawn at random, the ship and all bullets end up inside the world.
    #[verifier::rlimit(40)]
    pub fn tick(&mut self, buttons: Buttons, dt: Fixed, now: u64) -> (report: TickReport)
        ensures
            final(self)@.wf(),
            report.running == !final(self)@.game_over,
            old(self)@.game_over ==> final(self)@ == old(self)@ && report.cues@
                == Seq::<Cue>::empty(),
            !old(self)@.game_over ==> {
                &&& exists|litters: Seq<Litter>|
                    frame_outcome(old(self)@, buttons, dt, now, litters, final(self)@)
                &&& report.cues@ == cue_list(
                    engagement(old(self)@, buttons, dt, now).fired,
                    engagement(old(self)@, buttons, dt, now).matched.casualties.len(),
                    final(self)@.game_over,
                )
                &&& old(self)@.size.x.raw >= 0 && old(self)@.size.y.raw >= 0 ==> {
                    &&& inside(final(self)@.player.pos, old(self)@.size)
                    &&& forall|i: int|
                        0 <= i < final(self)@.bullets.len() ==> inside(
                            (#[trigger] final(self)@.bullets[i]).pos,
                            old(self)@.size,
                        )
                }
            },
    {
        proof {
            use_type_invariant(&self.state);
        }
        if self.state.game_over {
            return TickReport { running: false, cues: Vec::new() };
        }
        let ghost before = self@;
        proof {
            engagement_keeps_order(before, buttons, dt, now);
        }
        let field = drift_asteroids(&self.state.asteroids, dt, self.state.size);
        let mut bullets = drift_bullets(&self.state.bullets, dt, self.state.size);
        let mut ship = self.state.player.steered(buttons, dt, self.state.size);
        let fired = ship.fires(buttons, now);
        if fired {
            bullets.push(ship.shot());
            ship.last_shoot = now;
        }
        let (mut survivors, casualties) = run_sweep(&field, &mut bullets);
        let ghost e = engagement(before, buttons, dt, now);
        assert(e.ship == ship);
        assert(e.matched.survivors == survivors@);
        assert(e.matched.casualties == casualties@);
        assert(e.matched.bullets == bullets@);
        let count = self.state.shapes.len();
        let (mut newborn, litters) = repopulate(
            &mut self.rng,
            &casualties,
            field.len(),
            ship.pos,
            count,
        );
        let lost = any_touches(&survivors, ship.pos);
        let ghost stayed = survivors@;
        let ghost born = newborn@;
        survivors.append(&mut newborn);
        proof {
            assert forall|i: int| 0 <= i < survivors@.len() implies (
            #[trigger] survivors@[i]).model_index < before.shapes.len() by {
                if i < stayed.len() {
                    assert(survivors@[i] == stayed[i]);
                } else {
                    assert(survivors@[i] == born[i - stayed.len()]);
                }
            }
        }
        self.state.asteroids = separate(&survivors);
        self.state.bullets = bullets;
        self.state.player = ship;
        self.state.score = bump(self.state.score, casualties.len());
        self.state.game_over = lost;
        let cues = list_cues(fired, casualties.len(), lost);
        proof {
            assert(frame_outcome(before, buttons, dt, now, litters@, self@));
        }
        TickReport { running: !lost, cues }
    }
}

} // verus!
