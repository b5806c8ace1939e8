//! Collision and combat resolution over integer world state.
//!
//! Each pass mirrors one per-frame system: player bullets against
//! asteroids (with piercing and explosive variants), queued area
//! explosions, laser beams, hazards against the player, bullets against
//! enemies and bosses, and bullet-against-bullet annihilation. No entity
//! is removed mid-pass: destructions are collected as events and the
//! caller despawns afterwards, which is what the first-hit-wins and
//! skip-destroyed rules below encode.

use vstd::prelude::*;
use crate::asteroid::Asteroid;
use crate::asteroid::AsteroidType;
use crate::asteroid::spec_points_value;
use crate::geom::Vec2i;
use crate::geom::spec_within;
use crate::geom::within;
use crate::health::Health;
use crate::powerups::ExplosiveBullet;
use crate::powerups::PiercingBullet;

verus! {

/// An asteroid in the collision world.
pub struct AsteroidEntity {
    pub id: u64,
    pub pos: Vec2i,
    pub asteroid: Asteroid,
    pub health: Health,
}

impl AsteroidEntity {
    pub open spec fn wf(self) -> bool {
        self.asteroid.wf() && self.pos.in_bounds()
    }
}

/// A player bullet in the collision world, with its optional variant
/// behaviours.
pub struct BulletEntity {
    pub id: u64,
    pub pos: Vec2i,
    pub piercing: Option<PiercingBullet>,
    pub explosive: Option<ExplosiveBullet>,
}

/// One asteroid destruction recorded by a pass: where it happened, what
/// died, and the points it was worth.
pub struct DestructionEvent {
    /// Index of the destroyed asteroid in the pass's asteroid list.
    pub index: usize,
    pub id: u64,
    pub pos: Vec2i,
    pub size: u32,
    pub asteroid_type: AsteroidType,
    pub points: u32,
}

/// An area explosion queued by an explosive bullet, applied in a second
/// pass.
pub struct ExplosionRequest {
    pub pos: Vec2i,
    pub radius: u32,
    pub damage: u32,
}

/// Everything one bullets-against-asteroids pass produced.
pub struct BulletAsteroidOutcome {
    /// Indices of bullets spent in the pass.
    pub removed_bullets: Vec<usize>,
    /// One event per asteroid destroyed in the pass.
    pub destroyed: Vec<DestructionEvent>,
    /// Explosions queued by explosive bullets, to be applied afterwards.
    pub explosions: Vec<ExplosionRequest>,
    /// Hits that damaged without destroying (5 points each).
    pub nonlethal_hits: u32,
    /// Total points awarded by the pass.
    pub score_delta: u32,
}

/// The collision footprint of an asteroid: five units per size step plus
/// five.
pub open spec fn spec_asteroid_radius(size: u32) -> int {
    size * 5 + 5
}

/// Whether a bullet's position lies inside an asteroid's footprint.
pub open spec fn spec_hits(b: BulletEntity, a: AsteroidEntity) -> bool {
    spec_within(b.pos, a.pos, spec_asteroid_radius(a.asteroid.size))
}

/// Some bullet of `bs` overlaps some asteroid of `asts`.
pub open spec fn spec_any_hit(bs: Seq<BulletEntity>, asts: Seq<AsteroidEntity>) -> bool {
    exists|b: int, k: int|
        0 <= b < bs.len() && 0 <= k < asts.len() && spec_hits(bs[b], asts[k])
}

/// Points carried by a list of destruction events.
pub open spec fn spec_points_total(events: Seq<DestructionEvent>) -> int
    decreases events.len(),
{
    if events.len() == 0 {
        0
    } else {
        spec_points_total(events.drop_last()) + events.last().points
    }
}

/// The asteroid lists agree on everything but health: same length, ids,
/// positions, archetypes, and health ceilings.
pub open spec fn spec_ast_static_eq(a: Seq<AsteroidEntity>, b: Seq<AsteroidEntity>) -> bool {
    &&& a.len() == b.len()
    &&& forall|k: int|
        0 <= k < a.len() ==> {
            &&& (#[trigger] a[k]).id == b[k].id
            &&& a[k].pos == b[k].pos
            &&& a[k].asteroid == b[k].asteroid
            &&& a[k].health.max == b[k].health.max
        }
}

/// The destruction flags record exactly the asteroids that went from live
/// to dead relative to the pass's starting healths.
pub open spec fn spec_flags_exact(
    a0: Seq<AsteroidEntity>,
    cur: Seq<AsteroidEntity>,
    flags: Seq<bool>,
) -> bool {
    &&& flags.len() == a0.len()
    &&& cur.len() == a0.len()
    &&& forall|k: int|
        0 <= k < a0.len() ==> (#[trigger] flags[k]) == (a0[k].health.current > 0
            && cur[k].health.current == 0)
}

/// Every event describes a flagged asteroid faithfully, no two events
/// claim the same asteroid, and every flagged asteroid has its event.
pub open spec fn spec_events_exact(
    a0: Seq<AsteroidEntity>,
    flags: Seq<bool>,
    events: Seq<DestructionEvent>,
) -> bool {
    &&& forall|p: int|
        0 <= p < events.len() ==> {
            &&& 0 <= (#[trigger] events[p]).index < a0.len()
            &&& events[p].id == a0[events[p].index as int].id
            &&& events[p].pos == a0[events[p].index as int].pos
            &&& events[p].size == a0[events[p].index as int].asteroid.size
            &&& events[p].asteroid_type == a0[events[p].index as int].asteroid.asteroid_type
            &&& events[p].points == spec_points_value(events[p].size, events[p].asteroid_type)
            &&& a0[events[p].index as int].health.current > 0
            &&& flags[events[p].index as int]
        }
    &&& forall|p: int, q: int|
        0 <= p < q < events.len() ==> (#[trigger] events[p]).index != (#[trigger] events[
        q]).index
    &&& forall|k: int|
        0 <= k < flags.len() && #[trigger] flags[k] ==> exists|p: int|
            0 <= p < events.len() && (#[trigger] events[p]).index == k
}

/// Asteroids that no bullet reaches keep their health.
pub open spec fn spec_untouched_kept(
    b0: Seq<BulletEntity>,
    a0: Seq<AsteroidEntity>,
    cur: Seq<AsteroidEntity>,
) -> bool {
    forall|k: int|
        0 <= k < a0.len() && (forall|b: int| 0 <= b < b0.len() ==> !spec_hits(#[trigger] b0[b],
            a0[k])) ==> (#[trigger] cur[k]).health.current == a0[k].health.current
}

/// The bullet lists agree on everything but piercing wear: same length,
/// ids, positions and explosive payloads; piercing present on the same
/// bullets, with the same cap and a hit count that only grew.
pub open spec fn spec_bullets_worn(b0: Seq<BulletEntity>, cur: Seq<BulletEntity>) -> bool {
    &&& cur.len() == b0.len()
    &&& forall|b: int|
        0 <= b < b0.len() ==> {
            &&& (#[trigger] cur[b]).id == b0[b].id
            &&& cur[b].pos == b0[b].pos
            &&& cur[b].explosive == b0[b].explosive
            &&& match (cur[b].piercing, b0[b].piercing) {
                (Some(p), Some(q)) => p.max_pierces == q.max_pierces && p.pierced_count
                    >= q.pierced_count,
                (None, None) => true,
                _ => false,
            }
        }
}


/// The evolving state of one bullets-against-asteroids pass: the asteroid
/// list (healths evolve), the destroyed-this-pass marks, and the
/// accumulated events.
#[verifier::ext_equal]
pub ghost struct CombatState {
    pub asteroids: Seq<AsteroidEntity>,
    pub flags: Seq<bool>,
    pub destroyed: Seq<DestructionEvent>,
    pub explosions: Seq<ExplosionRequest>,
    pub nonlethal: int,
}

/// One bullet mid-scan: the pass state, the bullet's piercing wear, and
/// whether the bullet has been spent.
#[verifier::ext_equal]
pub ghost struct ScanState {
    pub state: CombatState,
    pub pierce: Option<PiercingBullet>,
    pub removed: bool,
}

/// One bullet's scan from asteroid `j` on: it skips asteroids already
/// destroyed this pass, deals one damage inside a footprint (recording
/// the kill or the non-lethal hit, and queueing an explosion when the
/// bullet is explosive), and stops at its first hit unless piercing wear
/// remains.
pub open spec fn spec_scan(
    bullet: BulletEntity,
    pierce: Option<PiercingBullet>,
    s: CombatState,
    j: int,
) -> ScanState
    decreases s.asteroids.len() - j,
{
    if j < 0 || j >= s.asteroids.len() {
        ScanState { state: s, pierce, removed: false }
    } else if !s.flags[j] && spec_within(
        bullet.pos,
        s.asteroids[j].pos,
        spec_asteroid_radius(s.asteroids[j].asteroid.size),
    ) {
        let a = s.asteroids[j];
        let explosions2 = match bullet.explosive {
            Some(x) => s.explosions.push(
                ExplosionRequest {
                    pos: a.pos,
                    radius: x.explosion_radius,
                    damage: x.explosion_damage,
                },
            ),
            None => s.explosions,
        };
        let h = a.health.current;
        let h2: u32 = if h >= 1 {
            (h - 1) as u32
        } else {
            0u32
        };
        let a2 = AsteroidEntity { health: Health { current: h2, max: a.health.max }, ..a };
        let s2 = if h > 0 && h2 == 0 {
            CombatState {
                asteroids: s.asteroids.update(j, a2),
                flags: s.flags.update(j, true),
                destroyed: s.destroyed.push(
                    DestructionEvent {
                        index: j as usize,
                        id: a.id,
                        pos: a.pos,
                        size: a.asteroid.size,
                        asteroid_type: a.asteroid.asteroid_type,
                        points: spec_points_value(a.asteroid.size, a.asteroid.asteroid_type),
                    },
                ),
                explosions: explosions2,
                nonlethal: s.nonlethal,
            }
        } else {
            CombatState {
                asteroids: s.asteroids.update(j, a2),
                explosions: explosions2,
                nonlethal: s.nonlethal + 1,
                ..s
            }
        };
        match pierce {
            None => ScanState { state: s2, pierce: None::<PiercingBullet>, removed: true },
            Some(p) => {
                let c2: u32 = if p.pierced_count < u32::MAX {
                    (p.pierced_count + 1) as u32
                } else {
                    p.pierced_count
                };
                let p2 = PiercingBullet { pierced_count: c2, max_pierces: p.max_pierces };
                if c2 >= p.max_pierces {
                    ScanState { state: s2, pierce: Some(p2), removed: true }
                } else {
                    spec_scan(bullet, Some(p2), s2, j + 1)
                }
            },
        }
    } else {
        spec_scan(bullet, pierce, s, j + 1)
    }
}

/// The pass after its first `i` bullets: the shared state, the bullet
/// list with its piercing wear, and the spent bullets.
#[verifier::ext_equal]
pub ghost struct PassModel {
    pub state: CombatState,
    pub bullets: Seq<BulletEntity>,
    pub removed: Seq<usize>,
}

/// The state after the first `i` bullets of the pass: each bullet scans
/// the asteroids left by its predecessors.
pub open spec fn spec_pass_upto(
    bullets0: Seq<BulletEntity>,
    init: CombatState,
    i: int,
) -> PassModel
    decreases i,
{
    if i <= 0 {
        PassModel { state: init, bullets: bullets0, removed: Seq::empty() }
    } else {
        let prev = spec_pass_upto(bullets0, init, i - 1);
        let scan = spec_scan(bullets0[i - 1], bullets0[i - 1].piercing, prev.state, 0);
        PassModel {
            state: scan.state,
            bullets: prev.bullets.update(
                i - 1,
                BulletEntity { piercing: scan.pierce, ..bullets0[i - 1] },
            ),
            removed: if scan.removed {
                prev.removed.push((i - 1) as usize)
            } else {
                prev.removed
            },
        }
    }
}

/// Resolves one frame of player bullets against asteroids. Each bullet
/// scans the asteroids in order, skipping any already destroyed this pass;
/// inside an asteroid's footprint it deals one damage, awards the
/// asteroid's point value on a kill and 5 points otherwise, queues an
/// explosion if the bullet is explosive, and is spent on its first hit
/// unless it pierces, in which case it flies on until its pierce cap.
pub fn bullet_asteroid_pass(bullets: &mut Vec<BulletEntity>, asteroids: &mut Vec<AsteroidEntity>)
    -> (r: BulletAsteroidOutcome)
    requires
        old(bullets)@.len() <= 1000,
        old(asteroids)@.len() <= 1000,
        forall|k: int| 0 <= k < old(asteroids)@.len() ==> (#[trigger] old(asteroids)@[k]).wf(),
        forall|b: int| 0 <= b < old(bullets)@.len() ==> (#[trigger] old(bullets)@[b]).pos.in_bounds(),
    ensures
        spec_ast_static_eq(final(asteroids)@, old(asteroids)@),
        forall|k: int|
            0 <= k < old(asteroids)@.len() ==> (#[trigger] final(asteroids)@[k]).health.current
                <= old(asteroids)@[k].health.current,
        // destroyed events name exactly the asteroids this pass took from live to dead
        forall|k: int|
            0 <= k < old(asteroids)@.len() ==> ((old(asteroids)@[k].health.current > 0
                && (#[trigger] final(asteroids)@[k]).health.current == 0) == exists|p: int|
                0 <= p < r.destroyed@.len() && (#[trigger] r.destroyed@[p]).index == k),
        forall|p: int|
            0 <= p < r.destroyed@.len() ==> {
                &&& 0 <= (#[trigger] r.destroyed@[p]).index < old(asteroids)@.len()
                &&& r.destroyed@[p].id == old(asteroids)@[r.destroyed@[p].index as int].id
                &&& r.destroyed@[p].pos == old(asteroids)@[r.destroyed@[p].index as int].pos
                &&& r.destroyed@[p].size == old(asteroids)@[r.destroyed@[p].index as int].asteroid.size
                &&& r.destroyed@[p].asteroid_type == old(asteroids)@[r.destroyed@[
                    p].index as int].asteroid.asteroid_type
                &&& r.destroyed@[p].points == spec_points_value(r.destroyed@[p].size,
                    r.destroyed@[p].asteroid_type)
                &&& old(asteroids)@[r.destroyed@[p].index as int].health.current > 0
                &&& final(asteroids)@[r.destroyed@[p].index as int].health.current == 0
            },
        forall|p: int, q: int|
            0 <= p < q < r.destroyed@.len() ==> (#[trigger] r.destroyed@[p]).index != (
            #[trigger] r.destroyed@[q]).index,
        // the score is exactly the destroyed asteroids' points plus 5 per non-lethal hit
        r.score_delta == spec_points_total(r.destroyed@) + 5 * r.nonlethal_hits,
        // asteroids out of every bullet's reach keep their health
        spec_untouched_kept(old(bullets)@, old(asteroids)@, final(asteroids)@),
        // no overlap anywhere: the pass is a no-op
        !spec_any_hit(old(bullets)@, old(asteroids)@) ==> (r.score_delta == 0
            && r.nonlethal_hits == 0 && r.destroyed@.len() == 0 && r.removed_bullets@.len() == 0
            && r.explosions@.len() == 0),
        // some overlap: the pass awards something
        spec_any_hit(old(bullets)@, old(asteroids)@) ==> r.score_delta > 0,
        spec_bullets_worn(old(bullets)@, final(bullets)@),
        // explosions come only from explosive bullets
        (forall|b: int|
            0 <= b < old(bullets)@.len() ==> (#[trigger] old(bullets)@[b]).explosive is None)
            ==> r.explosions@.len() == 0,
        forall|x: int|
            0 <= x < r.removed_bullets@.len() ==> (#[trigger] r.removed_bullets@[x]) < old(bullets)@.len(),
        forall|x: int, y: int|
            0 <= x < y < r.removed_bullets@.len() ==> (#[trigger] r.removed_bullets@[x]) < (
            #[trigger] r.removed_bullets@[y]),
        // the pass is exactly the fold of per-bullet scans: each bullet
        // deals one damage per contact, stops per its piercing wear, and
        // every event is accounted for
        ({
            let fin = spec_pass_upto(
                old(bullets)@,
                CombatState {
                    asteroids: old(asteroids)@,
                    flags: Seq::new(old(asteroids)@.len(), |k: int| false),
                    destroyed: Seq::empty(),
                    explosions: Seq::empty(),
                    nonlethal: 0,
                },
                old(bullets)@.len() as int,
            );
            &&& final(asteroids)@ == fin.state.asteroids
            &&& final(bullets)@ == fin.bullets
            &&& r.destroyed@ == fin.state.destroyed
            &&& r.explosions@ == fin.state.explosions
            &&& r.removed_bullets@ == fin.removed
            &&& r.nonlethal_hits == fin.state.nonlethal
        }),
{
    let ghost b0 = old(bullets)@;
    let ghost a0 = old(asteroids)@;
    let ghost init_cs = CombatState {
        asteroids: old(asteroids)@,
        flags: Seq::new(old(asteroids)@.len(), |k: int| false),
        destroyed: Seq::empty(),
        explosions: Seq::empty(),
        nonlethal: 0,
    };
    let n: usize = asteroids.len();
    let m: usize = bullets.len();

    let mut flags: Vec<bool> = Vec::new();
    let mut f: usize = 0;
    while f < n
        invariant
            0 <= f <= n,
            flags@.len() == f,
            forall|k: int| 0 <= k < f ==> !(#[trigger] flags@[k]),
        decreases n - f,
    {
        flags.push(false);
        f += 1;
    }
    proof {
        assert(flags@ =~= init_cs.flags);
        assert(init_cs =~= CombatState {
            asteroids: asteroids@,
            flags: flags@,
            destroyed: Seq::empty(),
            explosions: Seq::empty(),
            nonlethal: 0,
        });
    }

    let mut removed_bullets: Vec<usize> = Vec::new();
    let mut destroyed: Vec<DestructionEvent> = Vec::new();
    let mut explosions: Vec<ExplosionRequest> = Vec::new();
    let mut nonlethal_hits: u32 = 0;
    let mut score_delta: u32 = 0;

    let mut i: usize = 0;
    while i < m
        invariant
            0 <= i <= m,
            m == b0.len(),
            n == a0.len(),
            m <= 1000,
            n <= 1000,
            asteroids@.len() == n,
            bullets@.len() == m,
            forall|k: int| 0 <= k < n ==> (#[trigger] a0[k]).wf(),
            forall|b: int| 0 <= b < m ==> (#[trigger] b0[b]).pos.in_bounds(),
            spec_ast_static_eq(asteroids@, a0),
            forall|k: int|
                0 <= k < n ==> (#[trigger] asteroids@[k]).health.current
                    <= a0[k].health.current,
            spec_flags_exact(a0, asteroids@, flags@),
            spec_events_exact(a0, flags@, destroyed@),
            score_delta == spec_points_total(destroyed@) + 5 * nonlethal_hits,
            score_delta <= i as int * n as int * 305,
            nonlethal_hits <= i as int * n as int,
            spec_untouched_kept(b0, a0, asteroids@),
            score_delta == 0 ==> (forall|b: int, k: int|
                0 <= b < i && 0 <= k < n ==> !spec_hits(#[trigger] b0[b], #[trigger] a0[k])),
            score_delta == 0 ==> (forall|k: int|
                0 <= k < n ==> (#[trigger] asteroids@[k]).health.current
                    == a0[k].health.current),
            !spec_any_hit(b0, a0) ==> (score_delta == 0 && nonlethal_hits == 0
                && destroyed@.len() == 0 && removed_bullets@.len() == 0 && explosions@.len()
                == 0),
            spec_bullets_worn(b0, bullets@),
            forall|b: int| i <= b < m ==> #[trigger] bullets@[b] == b0[b],
            (forall|b: int| 0 <= b < m ==> (#[trigger] b0[b]).explosive is None)
                ==> explosions@.len() == 0,
            forall|x: int| 0 <= x < removed_bullets@.len() ==> (#[trigger] removed_bullets@[x]) < i,
            forall|x: int, y: int|
                0 <= x < y < removed_bullets@.len() ==> (#[trigger] removed_bullets@[x]) < (
                #[trigger] removed_bullets@[y]),
            ({
                let cur = spec_pass_upto(b0, init_cs, i as int);
                &&& cur.state == (CombatState {
                    asteroids: asteroids@,
                    flags: flags@,
                    destroyed: destroyed@,
                    explosions: explosions@,
                    nonlethal: nonlethal_hits as int,
                })
                &&& bullets@ == cur.bullets
                &&& removed_bullets@ == cur.removed
            }),
        decreases m - i,
    {
        let bpos = bullets[i].pos;
        let explosive = bullets[i].explosive;
        let mut pierce = bullets[i].piercing;
        let mut remove_bullet = false;
        let ghost entry_model = spec_pass_upto(b0, init_cs, i as int);
        let ghost target = spec_scan(b0[i as int], b0[i as int].piercing, entry_model.state, 0);
        let ghost removed_entry = removed_bullets@;

        let mut j: usize = 0;
        while j < n && !remove_bullet
            invariant
                0 <= j <= n,
                0 <= i < m,
                m == b0.len(),
                n == a0.len(),
                m <= 1000,
                n <= 1000,
                asteroids@.len() == n,
                bullets@.len() == m,
                forall|k: int| 0 <= k < n ==> (#[trigger] a0[k]).wf(),
                forall|b: int| 0 <= b < m ==> (#[trigger] b0[b]).pos.in_bounds(),
                bpos == b0[i as int].pos,
                explosive == b0[i as int].explosive,
                match (pierce, b0[i as int].piercing) {
                    (Some(p), Some(q)) => p.max_pierces == q.max_pierces && p.pierced_count
                        >= q.pierced_count,
                    (None, None) => true,
                    _ => false,
                },
                spec_ast_static_eq(asteroids@, a0),
                forall|k: int|
                    0 <= k < n ==> (#[trigger] asteroids@[k]).health.current
                        <= a0[k].health.current,
                spec_flags_exact(a0, asteroids@, flags@),
                spec_events_exact(a0, flags@, destroyed@),
                score_delta == spec_points_total(destroyed@) + 5 * nonlethal_hits,
                score_delta <= (i as int * n as int + j as int) * 305,
                nonlethal_hits <= i as int * n as int + j as int,
                spec_untouched_kept(b0, a0, asteroids@),
                score_delta == 0 ==> (forall|b: int, k: int|
                    0 <= b < i && 0 <= k < n ==> !spec_hits(#[trigger] b0[b],
                    #[trigger] a0[k])),
                score_delta == 0 ==> (forall|k: int|
                    0 <= k < j ==> !spec_hits(b0[i as int], #[trigger] a0[k])),
                score_delta == 0 ==> (forall|k: int|
                    0 <= k < n ==> (#[trigger] asteroids@[k]).health.current
                        == a0[k].health.current),
                score_delta == 0 ==> !remove_bullet,
                !spec_any_hit(b0, a0) ==> (score_delta == 0 && nonlethal_hits == 0
                    && destroyed@.len() == 0 && removed_bullets@.len() == 0
                    && explosions@.len() == 0),
                spec_bullets_worn(b0, bullets@),
                forall|b: int| i <= b < m ==> #[trigger] bullets@[b] == b0[b],
                (forall|b: int| 0 <= b < m ==> (#[trigger] b0[b]).explosive is None)
                    ==> explosions@.len() == 0,
                forall|x: int| 0 <= x < removed_bullets@.len() ==> (#[trigger] removed_bullets@[x]) < i,
                forall|x: int, y: int|
                    0 <= x < y < removed_bullets@.len() ==> (#[trigger] removed_bullets@[x])
                        < (#[trigger] removed_bullets@[y]),
                removed_bullets@ == removed_entry,
                bullets@ == entry_model.bullets,
                target == spec_scan(b0[i as int], b0[i as int].piercing, entry_model.state,
                    0),
                ({
                    let cur = CombatState {
                        asteroids: asteroids@,
                        flags: flags@,
                        destroyed: destroyed@,
                        explosions: explosions@,
                        nonlethal: nonlethal_hits as int,
                    };
                    if remove_bullet {
                        target == (ScanState { state: cur, pierce, removed: true })
                    } else {
                        spec_scan(b0[i as int], pierce, cur, j as int) == target
                    }
                }),
            decreases n - j,
        {
            let ghost cur0 = CombatState {
                asteroids: asteroids@,
                flags: flags@,
                destroyed: destroyed@,
                explosions: explosions@,
                nonlethal: nonlethal_hits as int,
            };
            let ghost pierce0 = pierce;
            let mut did_hit = false;
            if !flags[j] {
                let apos = asteroids[j].pos;
                let size = asteroids[j].asteroid.size;
                let radius: u32 = size * 5 + 5;
                if within(bpos, apos, radius) {
                    did_hit = true;
                    proof {
                        assert(i as int * n as int <= 1000000) by (nonlinear_arith)
                            requires
                                0 <= i <= 1000,
                                0 <= n <= 1000,
                        ;
                        assert(spec_hits(b0[i as int], a0[j as int]));
                        assert(spec_any_hit(b0, a0));
                    }
                    if let Some(x) = &explosive {
                        explosions.push(ExplosionRequest {
                            pos: apos,
                            radius: x.explosion_radius,
                            damage: x.explosion_damage,
                        });
                    }
                    let ghost before_flags = flags@;
                    let was_destroyed = asteroids[j].health.take_damage(1);
                    if was_destroyed {
                        flags[j] = true;
                        let points = asteroids[j].asteroid.points_value();
                        let ghost before_events = destroyed@;
                        destroyed.push(DestructionEvent {
                            index: j,
                            id: asteroids[j].id,
                            pos: apos,
                            size,
                            asteroid_type: asteroids[j].asteroid.asteroid_type,
                            points,
                        });
                        proof {
                            assert(destroyed@.drop_last() =~= before_events);
                            assert(points <= 300);
                            assert(!before_flags[j as int]);
                            assert forall|p: int|
                                0 <= p < before_events.len() implies (#[trigger] before_events[
                            p]).index != j by {
                                assert(before_flags[before_events[p].index as int]);
                            }
                            assert forall|k: int|
                                0 <= k < flags@.len() && #[trigger] flags@[k] implies exists|
                            p: int|
                                0 <= p < destroyed@.len() && (#[trigger] destroyed@[p]).index
                                    == k by {
                                if k == j as int {
                                    assert(destroyed@[destroyed@.len() - 1].index == k);
                                } else {
                                    assert(before_flags[k]);
                                    let p = choose|p: int|
                                        0 <= p < before_events.len() && (
                                        #[trigger] before_events[p]).index == k;
                                    assert(destroyed@[p].index == k);
                                }
                            }
                        }
                        score_delta = score_delta + points;
                    } else {
                        nonlethal_hits = nonlethal_hits + 1;
                        score_delta = score_delta + 5;
                    }
                    match &mut pierce {
                        Some(p) => {
                            if p.pierced_count < u32::MAX {
                                p.pierced_count = p.pierced_count + 1;
                            }
                            if p.pierced_count >= p.max_pierces {
                                remove_bullet = true;
                            }
                        },
                        None => {
                            remove_bullet = true;
                        },
                    }
                }
            }
            proof {
                let cur1 = CombatState {
                    asteroids: asteroids@,
                    flags: flags@,
                    destroyed: destroyed@,
                    explosions: explosions@,
                    nonlethal: nonlethal_hits as int,
                };
                if !did_hit {
                    assert(cur1 =~= cur0);
                    assert(spec_scan(b0[i as int], pierce, cur0, j as int) == spec_scan(
                        b0[i as int], pierce, cur0, j + 1));
                } else {
                    let a_j = cur0.asteroids[j as int];
                    let h = a_j.health.current;
                    let h2: u32 = if h >= 1 {
                        (h - 1) as u32
                    } else {
                        0u32
                    };
                    let lethal = h > 0 && h2 == 0;
                    assert(asteroids@ =~= cur0.asteroids.update(j as int, AsteroidEntity {
                        health: Health { current: h2, max: a_j.health.max },
                        ..a_j
                    }));
                    assert(flags@ =~= if lethal {
                        cur0.flags.update(j as int, true)
                    } else {
                        cur0.flags
                    });
                    assert(destroyed@ =~= if lethal {
                        cur0.destroyed.push(DestructionEvent {
                            index: j as usize,
                            id: a_j.id,
                            pos: a_j.pos,
                            size: a_j.asteroid.size,
                            asteroid_type: a_j.asteroid.asteroid_type,
                            points: spec_points_value(a_j.asteroid.size,
                                a_j.asteroid.asteroid_type),
                        })
                    } else {
                        cur0.destroyed
                    });
                    assert(explosions@ =~= match b0[i as int].explosive {
                        Some(x) => cur0.explosions.push(ExplosionRequest {
                            pos: a_j.pos,
                            radius: x.explosion_radius,
                            damage: x.explosion_damage,
                        }),
                        None => cur0.explosions,
                    });
                    assert(nonlethal_hits as int == cur0.nonlethal + if lethal {
                        0int
                    } else {
                        1int
                    });
                    assert(spec_scan(b0[i as int], pierce0, cur0, j as int)
                        == if remove_bullet {
                        ScanState { state: cur1, pierce, removed: true }
                    } else {
                        spec_scan(b0[i as int], pierce, cur1, j + 1)
                    });
                }
            }
            j += 1;
        }
        proof {
            let cur = CombatState {
                asteroids: asteroids@,
                flags: flags@,
                destroyed: destroyed@,
                explosions: explosions@,
                nonlethal: nonlethal_hits as int,
            };
            if !remove_bullet {
                assert(j >= n);
                assert(spec_scan(b0[i as int], pierce, cur, j as int) == (ScanState {
                    state: cur,
                    pierce,
                    removed: false,
                }));
            }
            assert(target == (ScanState { state: cur, pierce, removed: remove_bullet }));
            assert(spec_pass_upto(b0, init_cs, i + 1) =~= (PassModel {
                state: cur,
                bullets: entry_model.bullets.update(i as int, BulletEntity {
                    piercing: pierce,
                    ..b0[i as int]
                }),
                removed: if remove_bullet {
                    entry_model.removed.push(i)
                } else {
                    entry_model.removed
                },
            }));
        }
        if remove_bullet {
            removed_bullets.push(i);
            proof {
                assert(removed_bullets@ =~= removed_entry.push(i));
            }
        }
        bullets[i].piercing = pierce;
        proof {
            assert(entry_model.bullets[i as int] == b0[i as int]);
            assert(bullets@ =~= entry_model.bullets.update(i as int, BulletEntity {
                piercing: pierce,
                ..b0[i as int]
            }));
        }
        proof {
            assert((i as int + 1) * (n as int) == i as int * n as int + n as int)
                by (nonlinear_arith);
        }
        i += 1;
    }
    proof {
        assert forall|k: int|
            0 <= k < n implies ((a0[k].health.current > 0 && asteroids@[k].health.current
            == 0) == exists|p: int|
            0 <= p < destroyed@.len() && (#[trigger] destroyed@[p]).index == k) by {
            assert(flags@[k] == (a0[k].health.current > 0 && asteroids@[k].health.current
                == 0));
            if exists|p: int| 0 <= p < destroyed@.len() && (#[trigger] destroyed@[p]).index
                == k {
                let p = choose|p: int|
                    0 <= p < destroyed@.len() && (#[trigger] destroyed@[p]).index == k;
                assert(flags@[destroyed@[p].index as int]);
            }
        }
    }
    BulletAsteroidOutcome { removed_bullets, destroyed, explosions, nonlethal_hits, score_delta }
}

/// Applies one queued area explosion: every asteroid whose centre lies
/// within the blast radius (boundary included) takes the blast damage, and
/// each damaged asteroid is worth a flat 5 points. Nothing is despawned
/// here; a later bullet pass collects any kills.
pub fn apply_explosion(asteroids: &mut Vec<AsteroidEntity>, explosion: &ExplosionRequest) -> (
    score_delta: u32)
    requires
        old(asteroids)@.len() <= 1000,
        forall|k: int| 0 <= k < old(asteroids)@.len() ==> (#[trigger] old(asteroids)@[k]).wf(),
        explosion.pos.in_bounds(),
        explosion.radius <= 2000000,
    ensures
        spec_ast_static_eq(final(asteroids)@, old(asteroids)@),
        forall|k: int|
            0 <= k < old(asteroids)@.len() ==> (#[trigger] final(asteroids)@[k]).health.current
                == if spec_blasted(*explosion, old(asteroids)@[k]) {
                if old(asteroids)@[k].health.current >= explosion.damage {
                    old(asteroids)@[k].health.current - explosion.damage
                } else {
                    0int
                }
            } else {
                old(asteroids)@[k].health.current as int
            },
        score_delta == 5 * spec_blast_count(*explosion, old(asteroids)@, old(asteroids)@.len() as int),
{
    let ghost a0 = asteroids@;
    let n = asteroids.len();
    let mut hit_count: u32 = 0;
    let mut k: usize = 0;
    while k < n
        invariant
            0 <= k <= n,
            n == a0.len(),
            n <= 1000,
            asteroids@.len() == n,
            forall|q: int| 0 <= q < n ==> (#[trigger] a0[q]).wf(),
            explosion.pos.in_bounds(),
            explosion.radius <= 2000000,
            spec_ast_static_eq(asteroids@, a0),
            forall|q: int|
                k <= q < n ==> (#[trigger] asteroids@[q]).health.current
                    == a0[q].health.current,
            forall|q: int|
                0 <= q < k ==> (#[trigger] asteroids@[q]).health.current == (
                if spec_blasted(*explosion, a0[q]) {
                    if a0[q].health.current >= explosion.damage {
                        a0[q].health.current - explosion.damage
                    } else {
                        0int
                    }
                } else {
                    a0[q].health.current as int
                }),
            hit_count == spec_blast_count(*explosion, a0, k as int),
            hit_count <= k,
        decreases n - k,
    {
        // the blast test includes its boundary (distance <= radius)
        let inside = !within_strictly_outside(explosion.pos, asteroids[k].pos, explosion.radius);
        if inside {
            let _ = asteroids[k].health.take_damage(explosion.damage);
            hit_count = hit_count + 1;
        }
        k += 1;
    }
    5 * hit_count
}

/// Whether an asteroid's centre lies within the blast (boundary included).
pub open spec fn spec_blasted(e: ExplosionRequest, a: AsteroidEntity) -> bool {
    crate::geom::spec_dist2(e.pos, a.pos) <= e.radius * e.radius
}

/// How many of the first `upto` asteroids the blast reaches.
pub open spec fn spec_blast_count(e: ExplosionRequest, asts: Seq<AsteroidEntity>, upto: int) -> int
    decreases upto,
{
    if upto <= 0 {
        0
    } else {
        spec_blast_count(e, asts, upto - 1) + if spec_blasted(e, asts[upto - 1]) {
            1int
        } else {
            0int
        }
    }
}

/// The complement of the blast test: strictly outside the radius.
fn within_strictly_outside(center: Vec2i, p: Vec2i, radius: u32) -> (r: bool)
    requires
        center.in_bounds(),
        p.in_bounds(),
        radius <= 2000000,
    ensures
        r == (crate::geom::spec_dist2(center, p) > radius * radius),
{
    let dx: i64 = center.x - p.x;
    let dy: i64 = center.y - p.y;
    proof {
        assert(dx * dx <= 4000000000000i64 && dx * dx >= 0) by (nonlinear_arith)
            requires
                -2000000 <= dx <= 2000000,
        ;
        assert(dy * dy <= 4000000000000i64 && dy * dy >= 0) by (nonlinear_arith)
            requires
                -2000000 <= dy <= 2000000,
        ;
        assert((radius as i64) * (radius as i64) <= 4000000000000i64) by (nonlinear_arith)
            requires
                0 <= radius <= 2000000,
        ;
    }
    let d2: i64 = dx * dx + dy * dy;
    let r2: i64 = radius as i64 * radius as i64;
    d2 > r2
}


/// The side effects a destruction of each subtype owes: ice shatters in a
/// particle burst, crystal bursts and rolls for a power-up drop with the
/// elevated 90% chance of its special path.
pub struct DestructionEffects {
    pub ice_shatter: bool,
    pub crystal_burst: bool,
    /// Chance of a power-up drop at the wreck, in thousandths.
    pub powerup_chance_permille: u32,
}

/// The type-specific effects owed for one destruction event.
pub fn destruction_effects(asteroid_type: AsteroidType) -> (r: DestructionEffects)
    ensures
        r.ice_shatter == (asteroid_type == AsteroidType::Ice),
        r.crystal_burst == (asteroid_type == AsteroidType::Crystal),
        r.powerup_chance_permille == if asteroid_type == AsteroidType::Crystal {
            900u32
        } else {
            0u32
        },
{
    match asteroid_type {
        AsteroidType::Ice => DestructionEffects {
            ice_shatter: true,
            crystal_burst: false,
            powerup_chance_permille: 0,
        },
        AsteroidType::Crystal => DestructionEffects {
            ice_shatter: false,
            crystal_burst: true,
            powerup_chance_permille: 900,
        },
        _ => DestructionEffects {
            ice_shatter: false,
            crystal_burst: false,
            powerup_chance_permille: 0,
        },
    }
}

/// The damage one laser tick deals: `damage_per_second` scaled by the
/// frame time, never less than 1.
pub fn laser_tick_damage(damage_per_second: u32, delta_ms: u32) -> (r: u32)
    requires
        damage_per_second <= 1000000,
        delta_ms <= 1000000,
    ensures
        r == if damage_per_second * delta_ms / 1000 >= 1 {
            damage_per_second * delta_ms / 1000
        } else {
            1int
        },
{
    proof {
        assert((damage_per_second as int) * (delta_ms as int) <= 1000000000000int)
            by (nonlinear_arith)
            requires
                damage_per_second <= 1000000,
                delta_ms <= 1000000,
        ;
    }
    let raw: u64 = damage_per_second as u64 * delta_ms as u64 / 1000;
    if raw >= 1 {
        raw as u32
    } else {
        1
    }
}

/// Whether the beam from `start` to `end` touches the asteroid's footprint.
pub open spec fn spec_beam_hits(start: Vec2i, end: Vec2i, a: AsteroidEntity) -> bool {
    crate::geom::spec_segment_within(start, end, a.pos, spec_asteroid_radius(a.asteroid.size))
}

/// What one laser tick produced.
pub struct LaserOutcome {
    /// One event per asteroid the tick destroyed.
    pub destroyed: Vec<DestructionEvent>,
    /// Touched asteroids that survived the tick (1 point each).
    pub nonlethal_ticks: u32,
    /// Total points awarded by the tick.
    pub score_delta: u32,
}

/// Resolves one frame of one laser beam against the asteroids: every
/// asteroid touched by the segment takes the tick damage; a kill awards
/// the asteroid's point value, any other touch a single point.
pub fn laser_asteroid_pass(
    start: Vec2i,
    end: Vec2i,
    damage: u32,
    asteroids: &mut Vec<AsteroidEntity>,
) -> (r: LaserOutcome)
    requires
        old(asteroids)@.len() <= 1000,
        forall|k: int| 0 <= k < old(asteroids)@.len() ==> (#[trigger] old(asteroids)@[k]).wf(),
        start.in_bounds(),
        end.in_bounds(),
    ensures
        spec_ast_static_eq(final(asteroids)@, old(asteroids)@),
        // per-asteroid health is an exact function of the touch test
        forall|k: int|
            0 <= k < old(asteroids)@.len() ==> (#[trigger] final(asteroids)@[k]).health.current
                == if spec_beam_hits(start, end, old(asteroids)@[k]) {
                if old(asteroids)@[k].health.current >= damage {
                    old(asteroids)@[k].health.current - damage
                } else {
                    0int
                }
            } else {
                old(asteroids)@[k].health.current as int
            },
        // destroyed events name exactly the asteroids taken from live to dead
        forall|k: int|
            0 <= k < old(asteroids)@.len() ==> ((old(asteroids)@[k].health.current > 0
                && (#[trigger] final(asteroids)@[k]).health.current == 0) == exists|p: int|
                0 <= p < r.destroyed@.len() && (#[trigger] r.destroyed@[p]).index == k),
        forall|p: int|
            0 <= p < r.destroyed@.len() ==> {
                &&& 0 <= (#[trigger] r.destroyed@[p]).index < old(asteroids)@.len()
                &&& r.destroyed@[p].id == old(asteroids)@[r.destroyed@[p].index as int].id
                &&& r.destroyed@[p].pos == old(asteroids)@[r.destroyed@[p].index as int].pos
                &&& r.destroyed@[p].size == old(asteroids)@[r.destroyed@[
                    p].index as int].asteroid.size
                &&& r.destroyed@[p].asteroid_type == old(asteroids)@[r.destroyed@[
                    p].index as int].asteroid.asteroid_type
                &&& r.destroyed@[p].points == spec_points_value(r.destroyed@[p].size,
                    r.destroyed@[p].asteroid_type)
            },
        forall|p: int, q: int|
            0 <= p < q < r.destroyed@.len() ==> (#[trigger] r.destroyed@[p]).index != (
            #[trigger] r.destroyed@[q]).index,
        r.score_delta == spec_points_total(r.destroyed@) + r.nonlethal_ticks,
{
    let ghost a0 = asteroids@;
    let n = asteroids.len();
    let mut destroyed: Vec<DestructionEvent> = Vec::new();
    let mut nonlethal_ticks: u32 = 0;
    let mut score_delta: u32 = 0;
    let mut k: usize = 0;
    while k < n
        invariant
            0 <= k <= n,
            n == a0.len(),
            n <= 1000,
            asteroids@.len() == n,
            forall|q: int| 0 <= q < n ==> (#[trigger] a0[q]).wf(),
            start.in_bounds(),
            end.in_bounds(),
            spec_ast_static_eq(asteroids@, a0),
            forall|q: int|
                k <= q < n ==> (#[trigger] asteroids@[q]).health.current
                    == a0[q].health.current,
            forall|q: int|
                0 <= q < k ==> (#[trigger] asteroids@[q]).health.current == if spec_beam_hits(
                    start, end, a0[q]) {
                    if a0[q].health.current >= damage {
                        a0[q].health.current - damage
                    } else {
                        0int
                    }
                } else {
                    a0[q].health.current as int
                },
            forall|p: int|
                0 <= p < destroyed@.len() ==> {
                    &&& 0 <= (#[trigger] destroyed@[p]).index < k
                    &&& destroyed@[p].id == a0[destroyed@[p].index as int].id
                    &&& destroyed@[p].pos == a0[destroyed@[p].index as int].pos
                    &&& destroyed@[p].size == a0[destroyed@[p].index as int].asteroid.size
                    &&& destroyed@[p].asteroid_type == a0[destroyed@[
                        p].index as int].asteroid.asteroid_type
                    &&& destroyed@[p].points == spec_points_value(destroyed@[p].size,
                        destroyed@[p].asteroid_type)
                },
            forall|q: int|
                0 <= q < k ==> ((a0[q].health.current > 0 && (
                #[trigger] asteroids@[q]).health.current == 0) == exists|p: int|
                    0 <= p < destroyed@.len() && (#[trigger] destroyed@[p]).index == q),
            forall|p: int, q: int|
                0 <= p < q < destroyed@.len() ==> (#[trigger] destroyed@[p]).index != (
                #[trigger] destroyed@[q]).index,
            score_delta == spec_points_total(destroyed@) + nonlethal_ticks,
            nonlethal_ticks <= k,
            destroyed@.len() <= k,
            score_delta <= k * 300,
        decreases n - k,
    {
        let apos = asteroids[k].pos;
        let size = asteroids[k].asteroid.size;
        let radius: u32 = size * 5 + 5;
        if crate::geom::segment_within(start, end, apos, radius) {
            let was_destroyed = asteroids[k].health.take_damage(damage);
            if was_destroyed {
                let points = asteroids[k].asteroid.points_value();
                let ghost before_events = destroyed@;
                destroyed.push(DestructionEvent {
                    index: k,
                    id: asteroids[k].id,
                    pos: apos,
                    size,
                    asteroid_type: asteroids[k].asteroid.asteroid_type,
                    points,
                });
                proof {
                    assert(destroyed@.drop_last() =~= before_events);
                    assert(points <= 300);
                    assert(destroyed@[destroyed@.len() - 1].index == k);
                    assert(forall|p: int|
                        0 <= p < before_events.len() ==> #[trigger] destroyed@[p]
                            == before_events[p]);
                }
                score_delta = score_delta + points;
            } else {
                nonlethal_ticks = nonlethal_ticks + 1;
                score_delta = score_delta + 1;
            }
        }
        k += 1;
    }
    LaserOutcome { destroyed, nonlethal_ticks, score_delta }
}

/// An enemy bullet in the collision world.
pub struct EnemyBulletEntity {
    pub id: u64,
    pub pos: Vec2i,
    pub bullet: crate::enemy::EnemyBullet,
}

/// An enemy ship in the collision world.
pub struct EnemyEntity {
    pub id: u64,
    pub pos: Vec2i,
    pub enemy: crate::enemy::Enemy,
    pub health: Health,
}

/// The collision footprint of the player against asteroids: the
/// asteroid's radius plus a 10-unit player buffer.
pub open spec fn spec_player_asteroid_radius(size: u32) -> int {
    size * 5 + 15
}

/// A hazard contact resolved against the player, with what it hit.
pub struct PlayerContact {
    /// Index of the hazard that hit the player.
    pub index: usize,
    pub outcome: crate::lives::PlayerHitOutcome,
}

/// Resolves the player against the asteroid field: under an active
/// invincibility window nothing is checked; otherwise the first asteroid
/// whose buffered footprint covers the player costs a life (see
/// `spec_resolve_hit`), and only that one is processed this frame.
pub fn player_asteroid_collision(
    player_pos: Vec2i,
    asteroids: &Vec<AsteroidEntity>,
    lives: &mut crate::lives::PlayerLives,
    invincibility: &Option<crate::lives::Invincibility>,
) -> (r: Option<PlayerContact>)
    requires
        player_pos.in_bounds(),
        forall|k: int| 0 <= k < asteroids@.len() ==> (#[trigger] asteroids@[k]).wf(),
        *invincibility matches Some(inv) ==> !inv.timer.repeating,
    ensures
        crate::lives::spec_shielded(*invincibility) ==> (r is None && *final(lives) == *old(lives)),
        !crate::lives::spec_shielded(*invincibility) ==> match r {
            Some(contact) => {
                &&& 0 <= contact.index < asteroids@.len()
                &&& spec_within(player_pos, asteroids@[contact.index as int].pos,
                    spec_player_asteroid_radius(asteroids@[contact.index as int].asteroid.size))
                &&& forall|j: int|
                    0 <= j < contact.index ==> !spec_within(player_pos,
                        (#[trigger] asteroids@[j]).pos, spec_player_asteroid_radius(
                        asteroids@[j].asteroid.size))
                &&& (*final(lives), contact.outcome) == crate::lives::spec_resolve_hit(
                    *old(lives), None::<crate::lives::Invincibility>)
            },
            None => {
                &&& *final(lives) == *old(lives)
                &&& forall|j: int|
                    0 <= j < asteroids@.len() ==> !spec_within(player_pos,
                        (#[trigger] asteroids@[j]).pos, spec_player_asteroid_radius(
                        asteroids@[j].asteroid.size))
            },
        },
{
    let shielded = match invincibility {
        Some(inv) => inv.is_active(),
        None => false,
    };
    if shielded {
        return None;
    }
    let mut k: usize = 0;
    while k < asteroids.len()
        invariant
            0 <= k <= asteroids@.len(),
            player_pos.in_bounds(),
            !crate::lives::spec_shielded(*invincibility),
            *lives == *old(lives),
            forall|q: int| 0 <= q < asteroids@.len() ==> (#[trigger] asteroids@[q]).wf(),
            forall|j: int|
                0 <= j < k ==> !spec_within(player_pos, (#[trigger] asteroids@[j]).pos,
                    spec_player_asteroid_radius(asteroids@[j].asteroid.size)),
        decreases asteroids@.len() - k,
    {
        let radius: u32 = asteroids[k].asteroid.size * 5 + 15;
        if within(player_pos, asteroids[k].pos, radius) {
            let outcome = crate::lives::resolve_player_hit(lives, &None);
            return Some(PlayerContact { index: k, outcome });
        }
        k += 1;
    }
    None
}

/// Resolves the player against the enemy bullets: under an active
/// invincibility window nothing is checked; otherwise the first bullet
/// within the 20-unit player radius costs a life, and only that one is
/// processed this frame.
pub fn player_enemy_bullet_collision(
    player_pos: Vec2i,
    bullets: &Vec<EnemyBulletEntity>,
    lives: &mut crate::lives::PlayerLives,
    invincibility: &Option<crate::lives::Invincibility>,
) -> (r: Option<PlayerContact>)
    requires
        player_pos.in_bounds(),
        forall|k: int| 0 <= k < bullets@.len() ==> (#[trigger] bullets@[k]).pos.in_bounds(),
        *invincibility matches Some(inv) ==> !inv.timer.repeating,
    ensures
        crate::lives::spec_shielded(*invincibility) ==> (r is None && *final(lives) == *old(lives)),
        !crate::lives::spec_shielded(*invincibility) ==> match r {
            Some(contact) => {
                &&& 0 <= contact.index < bullets@.len()
                &&& spec_within(player_pos, bullets@[contact.index as int].pos, 20)
                &&& forall|j: int|
                    0 <= j < contact.index ==> !spec_within(player_pos,
                        (#[trigger] bullets@[j]).pos, 20)
                &&& (*final(lives), contact.outcome) == crate::lives::spec_resolve_hit(
                    *old(lives), None::<crate::lives::Invincibility>)
            },
            None => {
                &&& *final(lives) == *old(lives)
                &&& forall|j: int|
                    0 <= j < bullets@.len() ==> !spec_within(player_pos,
                        (#[trigger] bullets@[j]).pos, 20)
            },
        },
{
    let shielded = match invincibility {
        Some(inv) => inv.is_active(),
        None => false,
    };
    if shielded {
        return None;
    }
    let mut k: usize = 0;
    while k < bullets.len()
        invariant
            0 <= k <= bullets@.len(),
            player_pos.in_bounds(),
            !crate::lives::spec_shielded(*invincibility),
            *lives == *old(lives),
            forall|q: int| 0 <= q < bullets@.len() ==> (#[trigger] bullets@[q]).pos.in_bounds(),
            forall|j: int|
                0 <= j < k ==> !spec_within(player_pos, (#[trigger] bullets@[j]).pos, 20),
        decreases bullets@.len() - k,
    {
        if within(player_pos, bullets[k].pos, 20) {
            let outcome = crate::lives::resolve_player_hit(lives, &None);
            return Some(PlayerContact { index: k, outcome });
        }
        k += 1;
    }
    None
}

/// One enemy destruction recorded by the bullet pass.
pub struct EnemyDestructionEvent {
    /// Index of the destroyed enemy in the pass's enemy list.
    pub index: usize,
    pub id: u64,
    pub points: u32,
}

/// What one bullets-against-enemies pass produced.
pub struct BulletEnemyOutcome {
    /// Indices of bullets spent in the pass.
    pub removed_bullets: Vec<usize>,
    /// One event per enemy destroyed in the pass.
    pub destroyed: Vec<EnemyDestructionEvent>,
    /// Total points awarded by the pass.
    pub score_delta: u32,
}

/// Points carried by a list of enemy destruction events.
pub open spec fn spec_enemy_points_total(events: Seq<EnemyDestructionEvent>) -> int
    decreases events.len(),
{
    if events.len() == 0 {
        0
    } else {
        spec_enemy_points_total(events.drop_last()) + events.last().points
    }
}

/// The first enemy whose 25-unit footprint holds the bullet, as an index
/// (the list length when there is none).
pub open spec fn spec_first_enemy_hit(b: BulletEntity, enemies: Seq<EnemyEntity>, j: int) -> int
    decreases enemies.len() - j,
{
    if j < 0 || j >= enemies.len() {
        enemies.len() as int
    } else if spec_within(b.pos, enemies[j].pos, 25) {
        j
    } else {
        spec_first_enemy_hit(b, enemies, j + 1)
    }
}

/// How many of the first `upto` bullets land on enemy `k` (each bullet
/// lands on the first enemy whose footprint holds it).
pub open spec fn spec_enemy_hits_on(
    bullets: Seq<BulletEntity>,
    enemies: Seq<EnemyEntity>,
    k: int,
    upto: int,
) -> int
    decreases upto,
{
    if upto <= 0 {
        0
    } else {
        spec_enemy_hits_on(bullets, enemies, k, upto - 1) + if spec_first_enemy_hit(
            bullets[upto - 1],
            enemies,
            0,
        ) == k {
            1int
        } else {
            0int
        }
    }
}

/// Whether a bullet lies within an enemy's 25-unit footprint.
pub open spec fn spec_hits_enemy(b: BulletEntity, e: EnemyEntity) -> bool {
    spec_within(b.pos, e.pos, 25)
}

/// The enemy lists agree on everything but health.
pub open spec fn spec_enemy_static_eq(a: Seq<EnemyEntity>, b: Seq<EnemyEntity>) -> bool {
    &&& a.len() == b.len()
    &&& forall|k: int|
        0 <= k < a.len() ==> {
            &&& (#[trigger] a[k]).id == b[k].id
            &&& a[k].pos == b[k].pos
            &&& a[k].enemy == b[k].enemy
            &&& a[k].health.max == b[k].health.max
        }
}

/// Resolves one frame of player bullets against enemy ships: each bullet
/// deals one damage to the first enemy whose footprint it lies in and is
/// spent there; a kill awards the enemy's point value.
#[verifier::rlimit(80)]
pub fn bullet_enemy_pass(bullets: &Vec<BulletEntity>, enemies: &mut Vec<EnemyEntity>) -> (
    r: BulletEnemyOutcome)
    requires
        bullets@.len() <= 1000,
        old(enemies)@.len() <= 1000,
        forall|k: int| 0 <= k < old(enemies)@.len() ==> (#[trigger] old(enemies)@[k]).pos.in_bounds(),
        forall|b: int| 0 <= b < bullets@.len() ==> (#[trigger] bullets@[b]).pos.in_bounds(),
    ensures
        spec_enemy_static_eq(final(enemies)@, old(enemies)@),
        // each enemy's final health is its old health less one damage per
        // bullet whose first contact it was, saturating at zero
        forall|k: int|
            0 <= k < old(enemies)@.len() ==> (#[trigger] final(enemies)@[k]).health.current
                == if old(enemies)@[k].health.current >= spec_enemy_hits_on(bullets@,
                old(enemies)@, k, bullets@.len() as int) {
                old(enemies)@[k].health.current - spec_enemy_hits_on(bullets@, old(enemies)@,
                k, bullets@.len() as int)
            } else {
                0int
            },
        forall|k: int|
            0 <= k < old(enemies)@.len() ==> (#[trigger] final(enemies)@[k]).health.current
                <= old(enemies)@[k].health.current,
        // destroyed events name exactly the enemies taken from live to dead
        forall|k: int|
            0 <= k < old(enemies)@.len() ==> ((old(enemies)@[k].health.current > 0 && (
            #[trigger] final(enemies)@[k]).health.current == 0) == exists|p: int|
                0 <= p < r.destroyed@.len() && (#[trigger] r.destroyed@[p]).index == k),
        forall|p: int|
            0 <= p < r.destroyed@.len() ==> {
                &&& 0 <= (#[trigger] r.destroyed@[p]).index < old(enemies)@.len()
                &&& r.destroyed@[p].id == old(enemies)@[r.destroyed@[p].index as int].id
                &&& r.destroyed@[p].points == match old(enemies)@[r.destroyed@[
                    p].index as int].enemy.enemy_type {
                    crate::enemy::EnemyType::Hunter => 150u32,
                    crate::enemy::EnemyType::Bomber => 250u32,
                    crate::enemy::EnemyType::Interceptor => 200u32,
                }
            },
        forall|p: int, q: int|
            0 <= p < q < r.destroyed@.len() ==> (#[trigger] r.destroyed@[p]).index != (
            #[trigger] r.destroyed@[q]).index,
        r.score_delta == spec_enemy_points_total(r.destroyed@),
        // enemies out of every bullet's reach keep their health
        forall|k: int|
            0 <= k < old(enemies)@.len() && (forall|b: int|
                0 <= b < bullets@.len() ==> !spec_hits_enemy(#[trigger] bullets@[b],
                old(enemies)@[k])) ==> (#[trigger] final(enemies)@[k]).health.current == old(enemies)@[
                k].health.current,
        forall|x: int| 0 <= x < r.removed_bullets@.len() ==> (#[trigger] r.removed_bullets@[x]) < bullets@.len(),
        forall|x: int, y: int|
            0 <= x < y < r.removed_bullets@.len() ==> (#[trigger] r.removed_bullets@[x]) < (
            #[trigger] r.removed_bullets@[y]),
        // a bullet is spent exactly when it lies in some enemy's footprint
        forall|b: int| #![trigger bullets@[b]]
            0 <= b < bullets@.len() ==> ((exists|k: int|
                0 <= k < old(enemies)@.len() && spec_hits_enemy(bullets@[b],
                #[trigger] old(enemies)@[k])) == exists|x: int|
                0 <= x < r.removed_bullets@.len() && (#[trigger] r.removed_bullets@[x]) == b),
{
    let ghost b0 = bullets@;
    let ghost e0 = enemies@;
    let n = enemies.len();
    let m = bullets.len();
    let mut removed_bullets: Vec<usize> = Vec::new();
    let mut destroyed: Vec<EnemyDestructionEvent> = Vec::new();
    let mut score_delta: u32 = 0;
    let mut i: usize = 0;
    while i < m
        invariant
            0 <= i <= m,
            m == b0.len(),
            n == e0.len(),
            m <= 1000,
            n <= 1000,
            enemies@.len() == n,
            bullets@ == b0,
            forall|k: int| 0 <= k < n ==> (#[trigger] e0[k]).pos.in_bounds(),
            forall|b: int| 0 <= b < m ==> (#[trigger] b0[b]).pos.in_bounds(),
            spec_enemy_static_eq(enemies@, e0),
            forall|k: int|
                0 <= k < n ==> (#[trigger] enemies@[k]).health.current
                    == if e0[k].health.current >= spec_enemy_hits_on(b0, e0, k, i as int) {
                    e0[k].health.current - spec_enemy_hits_on(b0, e0, k, i as int)
                } else {
                    0int
                },
            forall|k: int|
                0 <= k < n ==> (#[trigger] enemies@[k]).health.current
                    <= e0[k].health.current,
            forall|k: int|
                0 <= k < n ==> ((e0[k].health.current > 0 && (
                #[trigger] enemies@[k]).health.current == 0) == exists|p: int|
                    0 <= p < destroyed@.len() && (#[trigger] destroyed@[p]).index == k),
            forall|p: int|
                0 <= p < destroyed@.len() ==> {
                    &&& 0 <= (#[trigger] destroyed@[p]).index < n
                    &&& destroyed@[p].id == e0[destroyed@[p].index as int].id
                    &&& destroyed@[p].points == match e0[destroyed@[
                        p].index as int].enemy.enemy_type {
                        crate::enemy::EnemyType::Hunter => 150u32,
                        crate::enemy::EnemyType::Bomber => 250u32,
                        crate::enemy::EnemyType::Interceptor => 200u32,
                    }
                },
            forall|p: int, q: int|
                0 <= p < q < destroyed@.len() ==> (#[trigger] destroyed@[p]).index != (
                #[trigger] destroyed@[q]).index,
            score_delta == spec_enemy_points_total(destroyed@),
            score_delta <= i as int * 250,
            forall|k: int|
                0 <= k < n && (forall|b: int|
                    0 <= b < m ==> !spec_hits_enemy(#[trigger] b0[b], e0[k])) ==> (
                #[trigger] enemies@[k]).health.current == e0[k].health.current,
            forall|x: int| 0 <= x < removed_bullets@.len() ==> (#[trigger] removed_bullets@[x]) < i,
            forall|x: int, y: int|
                0 <= x < y < removed_bullets@.len() ==> (#[trigger] removed_bullets@[x]) < (
                #[trigger] removed_bullets@[y]),
            forall|b: int| #![trigger b0[b]]
                0 <= b < i ==> ((exists|k: int|
                    0 <= k < n && spec_hits_enemy(b0[b], #[trigger] e0[k])) == exists|x: int|
                    0 <= x < removed_bullets@.len() && (#[trigger] removed_bullets@[x]) == b),
        decreases m - i,
    {
        let bpos = bullets[i].pos;
        let ghost removed_entry = removed_bullets@;
        let ghost entry_enemies = enemies@;
        let mut hit = false;
        let mut j: usize = 0;
        while j < n && !hit
            invariant
                0 <= j <= n,
                0 <= i < m,
                m == b0.len(),
                n == e0.len(),
                m <= 1000,
                n <= 1000,
                enemies@.len() == n,
                bullets@ == b0,
                bpos == b0[i as int].pos,
                removed_bullets@ == removed_entry,
                forall|k: int| 0 <= k < n ==> (#[trigger] e0[k]).pos.in_bounds(),
                forall|b: int| 0 <= b < m ==> (#[trigger] b0[b]).pos.in_bounds(),
                spec_enemy_static_eq(enemies@, e0),
                forall|k: int|
                    0 <= k < n ==> (#[trigger] enemies@[k]).health.current
                        <= e0[k].health.current,
                forall|k: int|
                    0 <= k < n ==> ((e0[k].health.current > 0 && (
                    #[trigger] enemies@[k]).health.current == 0) == exists|p: int|
                        0 <= p < destroyed@.len() && (#[trigger] destroyed@[p]).index == k),
                forall|p: int|
                    0 <= p < destroyed@.len() ==> {
                        &&& 0 <= (#[trigger] destroyed@[p]).index < n
                        &&& destroyed@[p].id == e0[destroyed@[p].index as int].id
                        &&& destroyed@[p].points == match e0[destroyed@[
                            p].index as int].enemy.enemy_type {
                            crate::enemy::EnemyType::Hunter => 150u32,
                            crate::enemy::EnemyType::Bomber => 250u32,
                            crate::enemy::EnemyType::Interceptor => 200u32,
                        }
                    },
                forall|p: int, q: int|
                    0 <= p < q < destroyed@.len() ==> (#[trigger] destroyed@[p]).index != (
                    #[trigger] destroyed@[q]).index,
                score_delta == spec_enemy_points_total(destroyed@),
                score_delta <= i as int * 250 + if hit { 250int } else { 0int },
                forall|k: int|
                    0 <= k < n && (forall|b: int|
                        0 <= b < m ==> !spec_hits_enemy(#[trigger] b0[b], e0[k])) ==> (
                    #[trigger] enemies@[k]).health.current == e0[k].health.current,
                forall|x: int| 0 <= x < removed_bullets@.len() ==> (#[trigger] removed_bullets@[x]) < i,
                forall|x: int, y: int|
                    0 <= x < y < removed_bullets@.len() ==> (#[trigger] removed_bullets@[x])
                        < (#[trigger] removed_bullets@[y]),
                forall|b: int| #![trigger b0[b]]
                    0 <= b < i ==> ((exists|k: int|
                        0 <= k < n && spec_hits_enemy(b0[b], #[trigger] e0[k])) == exists|
                    x: int|
                        0 <= x < removed_bullets@.len() && (#[trigger] removed_bullets@[x])
                            == b),
                !hit ==> forall|k: int|
                    0 <= k < j ==> !spec_hits_enemy(b0[i as int], #[trigger] e0[k]),
                hit ==> exists|k: int| 0 <= k < n && spec_hits_enemy(b0[i as int], #[trigger] e0[k]),
                !hit ==> enemies@ == entry_enemies,
                !hit ==> spec_first_enemy_hit(b0[i as int], e0, 0) == spec_first_enemy_hit(
                    b0[i as int], e0, j as int),
                hit ==> ({
                    let t = spec_first_enemy_hit(b0[i as int], e0, 0);
                    &&& 0 <= t < n
                    &&& enemies@ == entry_enemies.update(t, EnemyEntity {
                        health: Health {
                            current: (if entry_enemies[t].health.current >= 1 {
                                entry_enemies[t].health.current - 1
                            } else {
                                0int
                            }) as u32,
                            max: entry_enemies[t].health.max,
                        },
                        ..entry_enemies[t]
                    })
                }),
            decreases n - j,
        {
            if within(bpos, enemies[j].pos, 25) {
                hit = true;
                proof {
                    assert(spec_first_enemy_hit(b0[i as int], e0, j as int) == j as int);
                }
                let ghost before_events = destroyed@;
                let was_destroyed = enemies[j].health.take_damage(1);
                proof {
                    assert(enemies@ =~= entry_enemies.update(j as int, EnemyEntity {
                        health: Health {
                            current: (if entry_enemies[j as int].health.current >= 1 {
                                entry_enemies[j as int].health.current - 1
                            } else {
                                0int
                            }) as u32,
                            max: entry_enemies[j as int].health.max,
                        },
                        ..entry_enemies[j as int]
                    }));
                }
                if was_destroyed {
                    let points = enemies[j].enemy.points_value();
                    destroyed.push(EnemyDestructionEvent { index: j, id: enemies[j].id, points });
                    proof {
                        assert(destroyed@.drop_last() =~= before_events);
                        assert(points <= 250);
                        assert(destroyed@[destroyed@.len() - 1].index == j);
                        assert(forall|p: int|
                            0 <= p < before_events.len() ==> #[trigger] destroyed@[p]
                                == before_events[p]);
                    }
                    score_delta = score_delta + points;
                }
            }
            j += 1;
        }
        if hit {
            removed_bullets.push(i);
            proof {
                assert(removed_bullets@[removed_bullets@.len() - 1] == i);
                assert(forall|x: int|
                    0 <= x < removed_entry.len() ==> #[trigger] removed_bullets@[x]
                        == removed_entry[x]);
            }
        }
        proof {
            if !hit {
                assert(forall|k: int|
                    0 <= k < n ==> !spec_hits_enemy(b0[i as int], #[trigger] e0[k]));
            }
            let t = spec_first_enemy_hit(b0[i as int], e0, 0);
            if !hit {
                assert(t == n as int);
            }
            assert forall|k: int|
                0 <= k < n implies (#[trigger] enemies@[k]).health.current == (
            if e0[k].health.current >= spec_enemy_hits_on(b0, e0, k, i + 1) {
                e0[k].health.current - spec_enemy_hits_on(b0, e0, k, i + 1)
            } else {
                0int
            }) by {
                assert(spec_enemy_hits_on(b0, e0, k, i + 1) == spec_enemy_hits_on(b0, e0, k,
                    i as int) + if t == k {
                    1int
                } else {
                    0int
                });
                if hit {
                    if k == t {
                        assert(enemies@[k] == entry_enemies.update(t, enemies@[t as int])[k]);
                    } else {
                        assert(enemies@[k] == entry_enemies[k]);
                    }
                }
            }
            assert forall|b: int| #![trigger b0[b]]
                0 <= b < i + 1 implies ((exists|k: int|
                0 <= k < n && spec_hits_enemy(b0[b], #[trigger] e0[k])) == exists|x: int|
                0 <= x < removed_bullets@.len() && (#[trigger] removed_bullets@[x]) == b) by {
                if b == i as int {
                    if hit {
                        assert(removed_bullets@[removed_bullets@.len() - 1] == i);
                    } else {
                        if exists|x: int|
                            0 <= x < removed_bullets@.len() && (#[trigger] removed_bullets@[
                            x]) == b {
                            let x = choose|x: int|
                                0 <= x < removed_bullets@.len() && (
                                #[trigger] removed_bullets@[x]) == b;
                            assert(removed_entry[x] < i);
                        }
                    }
                } else {
                    if exists|x: int|
                        0 <= x < removed_entry.len() && (#[trigger] removed_entry[x]) == b {
                        let x = choose|x: int|
                            0 <= x < removed_entry.len() && (#[trigger] removed_entry[x])
                                == b;
                        assert(removed_bullets@[x] == b);
                    }
                    if exists|x: int|
                        0 <= x < removed_bullets@.len() && (#[trigger] removed_bullets@[x])
                            == b {
                        let x = choose|x: int|
                            0 <= x < removed_bullets@.len() && (#[trigger] removed_bullets@[
                            x]) == b;
                        if x < removed_entry.len() {
                            assert(removed_entry[x] == b);
                        }
                    }
                }
            }
        }
        i += 1;
    }
    let result = BulletEnemyOutcome { removed_bullets, destroyed, score_delta };
    proof {
        assert(e0 == old(enemies)@);
        assert forall|b: int| #![trigger bullets@[b]]
            0 <= b < bullets@.len() implies ((exists|k: int|
            0 <= k < old(enemies)@.len() && spec_hits_enemy(bullets@[b], #[trigger] old(
            enemies)@[k])) == exists|x: int|
            0 <= x < result.removed_bullets@.len() && (#[trigger] result.removed_bullets@[x])
                == b) by {
            assert(bullets@[b] == b0[b]);
            assert(0 <= b < b0.len());
            if exists|k: int| 0 <= k < e0.len() && spec_hits_enemy(b0[b], #[trigger] e0[k]) {
                let k = choose|k: int|
                    0 <= k < e0.len() && spec_hits_enemy(b0[b], #[trigger] e0[k]);
                assert(old(enemies)@[k] == e0[k]);
                assert(spec_hits_enemy(bullets@[b], old(enemies)@[k]));
            }
            if exists|k: int|
                0 <= k < old(enemies)@.len() && spec_hits_enemy(bullets@[b], #[trigger] old(
                enemies)@[k]) {
                let k = choose|k: int|
                    0 <= k < old(enemies)@.len() && spec_hits_enemy(bullets@[b],
                    #[trigger] old(enemies)@[k]);
                assert(e0[k] == old(enemies)@[k]);
                assert(spec_hits_enemy(b0[b], e0[k]));
            }
            if exists|x: int|
                0 <= x < result.removed_bullets@.len() && (#[trigger] result.removed_bullets@[
                x]) == b {
                let x = choose|x: int|
                    0 <= x < result.removed_bullets@.len() && (
                    #[trigger] result.removed_bullets@[x]) == b;
                assert(result.removed_bullets@[x] == b);
            }
        }
    }
    result
}

/// The collision footprint of a boss: 60 units scaled by its size
/// multiplier (in thousandths).
pub open spec fn spec_boss_radius(b: crate::boss::Boss) -> int {
    60 * b.size_multiplier_permille / 1000
}

/// One phase-pool depletion recorded by the bullets-against-boss pass,
/// with the points it awarded.
#[derive(Clone, Copy, Debug, PartialEq, Eq, Structural)]
pub enum BossDepletion {
    /// The pool was emptied below the last phase: the boss advanced.
    Advanced { score: u32 },
    /// The pool was emptied at the last phase: the boss is defeated.
    Defeated { score: u32 },
}

/// The points one phase depletion awards.
pub open spec fn spec_boss_points(b: crate::boss::Boss) -> u32 {
    (b.phase * match b.boss_type {
        crate::boss::BossType::GiantAsteroid => 1500int,
        crate::boss::BossType::AlienMothership => 2000int,
    }) as u32
}

/// The boss after a phase advance (mirrors `Boss::advance_phase` on the
/// advancing branch): phase up one, pool refilled, cadence quickened,
/// fresh 2.5 s pause.
pub open spec fn spec_advance(b: crate::boss::Boss) -> crate::boss::Boss {
    crate::boss::Boss {
        phase: (b.phase + 1) as u32,
        phase_health: (b.max_phase_health + (b.phase + 1) * 5) as u32,
        attack_timer: crate::timer::spec_new_timer(
            crate::boss::spec_attack_interval_ms((b.phase + 1) as u32),
            true,
        ),
        phase_transition_timer: Some(crate::timer::spec_new_timer(2500, false)),
        ..b
    }
}

/// The evolving state of one bullets-against-boss pass. The spawn
/// manager appears as its contents: the spawned-boss list and the
/// active-boss handle.
#[verifier::ext_equal]
pub ghost struct BossPassState {
    pub boss: crate::boss::Boss,
    pub health: Health,
    pub spawned: Seq<crate::boss::BossType>,
    pub active: Option<u64>,
    pub events: Seq<BossDepletion>,
}

/// One bullet resolved against the boss: outside the footprint nothing
/// happens; inside, one damage lands (the transition pause does not shield
/// the boss), and emptying the pool awards the phase's points and either
/// advances the boss or, at the last phase, defeats it and clears the
/// active-boss tracking.
pub open spec fn spec_boss_step(s: BossPassState, hit: bool) -> BossPassState {
    if !hit {
        s
    } else {
        let h = s.health.current;
        let h2: u32 = if h >= 1 {
            (h - 1) as u32
        } else {
            0u32
        };
        if h > 0 && h2 == 0 {
            let score = spec_boss_points(s.boss);
            if s.boss.phase < s.boss.max_phases {
                let boss2 = spec_advance(s.boss);
                BossPassState {
                    boss: boss2,
                    health: Health { current: boss2.phase_health, max: boss2.phase_health },
                    events: s.events.push(BossDepletion::Advanced { score }),
                    ..s
                }
            } else {
                BossPassState {
                    health: Health { current: 0, max: s.health.max },
                    active: None,
                    events: s.events.push(BossDepletion::Defeated { score }),
                    ..s
                }
            }
        } else {
            BossPassState { health: Health { current: h2, max: s.health.max }, ..s }
        }
    }
}

/// The state after the first `i` bullets of the pass.
pub open spec fn spec_boss_pass_upto(
    bullets: Seq<BulletEntity>,
    boss_pos: Vec2i,
    radius: int,
    init: BossPassState,
    i: int,
) -> BossPassState
    decreases i,
{
    if i <= 0 {
        init
    } else {
        spec_boss_step(
            spec_boss_pass_upto(bullets, boss_pos, radius, init, i - 1),
            spec_within(bullets[i - 1].pos, boss_pos, radius),
        )
    }
}

/// Resolves one frame of player bullets against the active boss. Each
/// bullet inside the boss's footprint is spent and deals one damage —
/// also during the post-transition pause, which suspends the boss's own
/// movement and attacks but never shields it. Emptying the phase pool
/// awards the phase's points and either advances the boss (healing it to
/// the new pool and starting a fresh pause) or, at the last phase,
/// defeats it and clears the active-boss tracking; with enough bullets
/// several pools can empty in one pass.
pub fn bullet_boss_pass(
    bullets: &Vec<BulletEntity>,
    boss: &mut crate::boss::Boss,
    boss_health: &mut Health,
    boss_pos: Vec2i,
    manager: &mut crate::spawn::BossSpawnManager,
) -> (r: (Vec<usize>, Vec<BossDepletion>))
    requires
        bullets@.len() <= 1000,
        forall|b: int| 0 <= b < bullets@.len() ==> (#[trigger] bullets@[b]).pos.in_bounds(),
        boss_pos.in_bounds(),
        old(boss).wf(),
    ensures
        final(boss).wf(),
        // a bullet is spent exactly when it lies inside the footprint
        forall|b: int|
            0 <= b < bullets@.len() ==> (spec_within((#[trigger] bullets@[b]).pos, boss_pos,
                spec_boss_radius(*old(boss))) == exists|x: int|
                0 <= x < r.0@.len() && (#[trigger] r.0@[x]) == b),
        forall|x: int|
            0 <= x < r.0@.len() ==> 0 <= (#[trigger] r.0@[x]) < bullets@.len(),
        forall|x: int, y: int|
            0 <= x < y < r.0@.len() ==> (#[trigger] r.0@[x]) < (#[trigger] r.0@[y]),
        // boss, pool, tracking and depletion events are exactly the fold of
        // one damage per spent bullet
        ({
            let fin = spec_boss_pass_upto(
                bullets@,
                boss_pos,
                spec_boss_radius(*old(boss)),
                BossPassState {
                    boss: *old(boss),
                    health: *old(boss_health),
                    spawned: old(manager).bosses_spawned@,
                    active: old(manager).active_boss,
                    events: Seq::empty(),
                },
                bullets@.len() as int,
            );
            &&& *final(boss) == fin.boss
            &&& *final(boss_health) == fin.health
            &&& final(manager).bosses_spawned@ == fin.spawned
            &&& final(manager).active_boss == fin.active
            &&& r.1@ == fin.events
        }),
{
    let ghost b0 = bullets@;
    let ghost init = BossPassState {
        boss: *boss,
        health: *boss_health,
        spawned: manager.bosses_spawned@,
        active: manager.active_boss,
        events: Seq::empty(),
    };
    let m = bullets.len();
    let radius: u32 = 60 * boss.size_multiplier_permille / 1000;
    let mut removed: Vec<usize> = Vec::new();
    let mut events: Vec<BossDepletion> = Vec::new();
    let mut i: usize = 0;
    while i < m
        invariant
            0 <= i <= m,
            m == b0.len(),
            m <= 1000,
            bullets@ == b0,
            forall|b: int| 0 <= b < m ==> (#[trigger] b0[b]).pos.in_bounds(),
            boss_pos.in_bounds(),
            init.boss.wf(),
            boss.wf(),
            radius == spec_boss_radius(init.boss),
            boss.size_multiplier_permille == init.boss.size_multiplier_permille,
            ({
                let cur = spec_boss_pass_upto(b0, boss_pos, radius as int, init, i as int);
                &&& *boss == cur.boss
                &&& *boss_health == cur.health
                &&& manager.bosses_spawned@ == cur.spawned
                &&& manager.active_boss == cur.active
                &&& events@ == cur.events
            }),
            forall|b: int|
                0 <= b < i ==> (spec_within((#[trigger] b0[b]).pos, boss_pos, radius as int)
                    == exists|x: int|
                    0 <= x < removed@.len() && (#[trigger] removed@[x]) == b),
            forall|x: int| 0 <= x < removed@.len() ==> 0 <= (#[trigger] removed@[x]) < i,
            forall|x: int, y: int|
                0 <= x < y < removed@.len() ==> (#[trigger] removed@[x]) < (
                #[trigger] removed@[y]),
        decreases m - i,
    {
        let ghost pre = spec_boss_pass_upto(b0, boss_pos, radius as int, init, i as int);
        let ghost removed_entry = removed@;
        let hit = within(bullets[i].pos, boss_pos, radius);
        if hit {
            let depleted = boss_health.take_damage(1);
            if depleted {
                let score = boss.points_value();
                if boss.advance_phase() {
                    *boss_health = Health::new(boss.phase_health);
                    events.push(BossDepletion::Advanced { score });
                } else {
                    manager.clear_active_boss();
                    events.push(BossDepletion::Defeated { score });
                }
            }
            removed.push(i);
        }
        proof {
            assert(spec_boss_pass_upto(b0, boss_pos, radius as int, init, i + 1)
                == spec_boss_step(pre, spec_within(b0[i as int].pos, boss_pos,
                radius as int)));
            assert(*boss_health =~= spec_boss_step(pre, hit).health);
            assert(manager.bosses_spawned@ =~= spec_boss_step(pre, hit).spawned);
            assert(manager.active_boss == spec_boss_step(pre, hit).active);
            assert(*boss =~= spec_boss_step(pre, hit).boss);
            assert(events@ =~= spec_boss_step(pre, hit).events);
            if hit {
                assert(removed@[removed@.len() - 1] == i);
                assert(forall|x: int|
                    0 <= x < removed_entry.len() ==> #[trigger] removed@[x]
                        == removed_entry[x]);
            }
            assert forall|b: int|
                0 <= b < i + 1 implies (spec_within((#[trigger] b0[b]).pos, boss_pos,
                radius as int) == exists|x: int|
                0 <= x < removed@.len() && (#[trigger] removed@[x]) == b) by {
                if b < i as int {
                    if exists|x: int|
                        0 <= x < removed_entry.len() && (#[trigger] removed_entry[x]) == b {
                        let x = choose|x: int|
                            0 <= x < removed_entry.len() && (#[trigger] removed_entry[x])
                                == b;
                        assert(removed@[x] == b);
                    }
                    if exists|x: int|
                        0 <= x < removed@.len() && (#[trigger] removed@[x]) == b {
                        let x = choose|x: int|
                            0 <= x < removed@.len() && (#[trigger] removed@[x]) == b;
                        if x < removed_entry.len() {
                            assert(removed_entry[x] == b);
                        }
                    }
                }
            }
        }
        i += 1;
    }
    (removed, events)
}


/// One mutual annihilation: the player bullet and the enemy bullet that
/// destroyed each other.
pub struct BulletClash {
    pub player_index: usize,
    pub enemy_index: usize,
}

/// Resolves player bullets against enemy bullets: any pair within 8 units
/// destroys both. Each bullet takes part in at most one clash (first
/// collision wins; already-matched bullets are skipped within the pass).
pub fn bullet_bullet_pass(
    player_bullets: &Vec<BulletEntity>,
    enemy_bullets: &Vec<EnemyBulletEntity>,
) -> (r: Vec<BulletClash>)
    requires
        player_bullets@.len() <= 1000,
        enemy_bullets@.len() <= 1000,
        forall|b: int|
            0 <= b < player_bullets@.len() ==> (#[trigger] player_bullets@[b]).pos.in_bounds(),
        forall|k: int|
            0 <= k < enemy_bullets@.len() ==> (#[trigger] enemy_bullets@[k]).pos.in_bounds(),
    ensures
        // each clash is a genuine contact
        forall|p: int|
            0 <= p < r@.len() ==> {
                &&& 0 <= (#[trigger] r@[p]).player_index < player_bullets@.len()
                &&& 0 <= r@[p].enemy_index < enemy_bullets@.len()
                &&& spec_within(player_bullets@[r@[p].player_index as int].pos,
                    enemy_bullets@[r@[p].enemy_index as int].pos, 8)
            },
        // no bullet appears in two clashes
        forall|p: int, q: int|
            0 <= p < q < r@.len() ==> (#[trigger] r@[p]).player_index != (#[trigger] r@[
            q]).player_index && r@[p].enemy_index != r@[q].enemy_index,
        // no contact anywhere: no clashes; some contact: at least one clash
        (forall|b: int, k: int|
            0 <= b < player_bullets@.len() && 0 <= k < enemy_bullets@.len() ==> !spec_within(
                (#[trigger] player_bullets@[b]).pos, (#[trigger] enemy_bullets@[k]).pos,
                8)) ==> r@.len() == 0,
        (exists|b: int, k: int|
            0 <= b < player_bullets@.len() && 0 <= k < enemy_bullets@.len() && spec_within(
                (#[trigger] player_bullets@[b]).pos, (#[trigger] enemy_bullets@[k]).pos, 8))
            ==> r@.len() > 0,
{
    let ghost p0 = player_bullets@;
    let ghost e0 = enemy_bullets@;
    let m = player_bullets.len();
    let n = enemy_bullets.len();
    let mut matched: Vec<bool> = Vec::new();
    let mut f: usize = 0;
    while f < n
        invariant
            0 <= f <= n,
            matched@.len() == f,
            forall|k: int| 0 <= k < f ==> !(#[trigger] matched@[k]),
        decreases n - f,
    {
        matched.push(false);
        f += 1;
    }
    let mut clashes: Vec<BulletClash> = Vec::new();
    let mut i: usize = 0;
    while i < m
        invariant
            0 <= i <= m,
            m == p0.len(),
            n == e0.len(),
            player_bullets@ == p0,
            enemy_bullets@ == e0,
            matched@.len() == n,
            forall|b: int| 0 <= b < m ==> (#[trigger] p0[b]).pos.in_bounds(),
            forall|k: int| 0 <= k < n ==> (#[trigger] e0[k]).pos.in_bounds(),
            forall|p: int|
                0 <= p < clashes@.len() ==> {
                    &&& 0 <= (#[trigger] clashes@[p]).player_index < i
                    &&& 0 <= clashes@[p].enemy_index < n
                    &&& spec_within(p0[clashes@[p].player_index as int].pos,
                        e0[clashes@[p].enemy_index as int].pos, 8)
                    &&& matched@[clashes@[p].enemy_index as int]
                },
            forall|p: int, q: int|
                0 <= p < q < clashes@.len() ==> (#[trigger] clashes@[p]).player_index != (
                #[trigger] clashes@[q]).player_index && clashes@[p].enemy_index != clashes@[
                q].enemy_index,
            forall|k: int|
                0 <= k < n && #[trigger] matched@[k] ==> exists|p: int|
                    0 <= p < clashes@.len() && (#[trigger] clashes@[p]).enemy_index == k,
            clashes@.len() == 0 ==> (forall|b: int, k: int|
                0 <= b < i && 0 <= k < n ==> !spec_within((#[trigger] p0[b]).pos, (
                #[trigger] e0[k]).pos, 8)),
        decreases m - i,
    {
        let bpos = player_bullets[i].pos;
        let mut found = false;
        let mut j: usize = 0;
        while j < n && !found
            invariant
                0 <= j <= n,
                0 <= i < m,
                m == p0.len(),
                n == e0.len(),
                player_bullets@ == p0,
                enemy_bullets@ == e0,
                matched@.len() == n,
                bpos == p0[i as int].pos,
                forall|b: int| 0 <= b < m ==> (#[trigger] p0[b]).pos.in_bounds(),
                forall|k: int| 0 <= k < n ==> (#[trigger] e0[k]).pos.in_bounds(),
                forall|p: int|
                    0 <= p < clashes@.len() ==> {
                        &&& 0 <= (#[trigger] clashes@[p]).player_index < i + if found {
                            1int
                        } else {
                            0int
                        }
                        &&& 0 <= clashes@[p].enemy_index < n
                        &&& spec_within(p0[clashes@[p].player_index as int].pos,
                            e0[clashes@[p].enemy_index as int].pos, 8)
                        &&& matched@[clashes@[p].enemy_index as int]
                    },
                forall|p: int, q: int|
                    0 <= p < q < clashes@.len() ==> (#[trigger] clashes@[p]).player_index
                        != (#[trigger] clashes@[q]).player_index && clashes@[p].enemy_index
                        != clashes@[q].enemy_index,
                forall|k: int|
                    0 <= k < n && #[trigger] matched@[k] ==> exists|p: int|
                        0 <= p < clashes@.len() && (#[trigger] clashes@[p]).enemy_index == k,
                clashes@.len() == 0 ==> (forall|b: int, k: int|
                    0 <= b < i && 0 <= k < n ==> !spec_within((#[trigger] p0[b]).pos, (
                    #[trigger] e0[k]).pos, 8)),
                !found ==> (clashes@.len() == 0 ==> forall|k: int|
                    0 <= k < j ==> !spec_within(p0[i as int].pos, (#[trigger] e0[k]).pos,
                    8)),
                found ==> clashes@.len() > 0,
            decreases n - j,
        {
            if !matched[j] && within(bpos, enemy_bullets[j].pos, 8) {
                let ghost matched_before = matched@;
                let ghost clashes_before = clashes@;
                matched[j] = true;
                clashes.push(BulletClash { player_index: i, enemy_index: j });
                found = true;
                proof {
                    assert(clashes@[clashes@.len() - 1].enemy_index == j);
                    assert(clashes@[clashes@.len() - 1].player_index == i);
                    assert(forall|p: int|
                        0 <= p < clashes_before.len() ==> #[trigger] clashes@[p]
                            == clashes_before[p]);
                    assert(!matched_before[j as int]);
                    assert forall|p: int|
                        0 <= p < clashes_before.len() implies (#[trigger] clashes_before[
                    p]).enemy_index != j by {
                        assert(matched_before[clashes_before[p].enemy_index as int]);
                    }
                    assert forall|k: int|
                        0 <= k < n && #[trigger] matched@[k] implies exists|p: int|
                        0 <= p < clashes@.len() && (#[trigger] clashes@[p]).enemy_index
                            == k by {
                        if k == j as int {
                            assert(clashes@[clashes@.len() - 1].enemy_index == k);
                        } else {
                            assert(matched_before[k]);
                            let p = choose|p: int|
                                0 <= p < clashes_before.len() && (#[trigger] clashes_before[
                                p]).enemy_index == k;
                            assert(clashes@[p].enemy_index == k);
                        }
                    }
                }
            }
            j += 1;
        }
        i += 1;
    }
    proof {
        if clashes@.len() > 0 {
            assert(spec_within(p0[clashes@[0].player_index as int].pos,
                e0[clashes@[0].enemy_index as int].pos, 8));
        }
    }
    clashes
}
} // verus!
