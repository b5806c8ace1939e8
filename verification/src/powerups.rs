//! Reference-counted player power-up state.
//!
//! Each collected pickup adds one reference to its effect kind; each expiry
//! removes one. A derived flag (or elevated multiplier) is active exactly
//! while its reference count is positive; dropping the last reference resets
//! it to baseline. Magnitudes do not stack: a second pickup of the same kind
//! only extends the bookkeeping, never the strength.

use vstd::prelude::*;

verus! {

/// Closed set of power-up kinds.
#[derive(Clone, Copy, Debug, PartialEq, Eq, Structural)]
pub enum PowerUpType {
    MultiShot,
    RapidFire,
    PiercingBullets,
    ExplosiveBullets,
    LaserBeam,
}

/// Mathematical state of the power-up resource: one reference count per
/// kind, the derived flags, and the list of kinds with a live reference.
#[verifier::ext_equal]
pub ghost struct PowerUpsView {
    pub active_effects: Seq<PowerUpType>,
    pub rapid_fire_count: nat,
    pub multi_shot_count_effects: nat,
    pub piercing_count: nat,
    pub explosive_count: nat,
    pub laser_count: nat,
    pub rapid_fire_multiplier_permille: nat,
    pub multi_shot_count: nat,
    pub has_piercing: bool,
    pub has_explosive: bool,
    pub has_laser: bool,
}

impl PowerUpsView {
    /// Reference count of one kind.
    pub open spec fn count_of(self, t: PowerUpType) -> nat {
        match t {
            PowerUpType::RapidFire => self.rapid_fire_count,
            PowerUpType::MultiShot => self.multi_shot_count_effects,
            PowerUpType::PiercingBullets => self.piercing_count,
            PowerUpType::ExplosiveBullets => self.explosive_count,
            PowerUpType::LaserBeam => self.laser_count,
        }
    }

    /// Whether the derived flag (or elevated magnitude) of one kind is
    /// active.
    pub open spec fn effect_active(self, t: PowerUpType) -> bool {
        match t {
            PowerUpType::RapidFire => self.rapid_fire_multiplier_permille == 3000,
            PowerUpType::MultiShot => self.multi_shot_count == 5,
            PowerUpType::PiercingBullets => self.has_piercing,
            PowerUpType::ExplosiveBullets => self.has_explosive,
            PowerUpType::LaserBeam => self.has_laser,
        }
    }

    /// The invariant: every derived flag is active exactly while its count
    /// is positive, baseline magnitudes otherwise, and the effect list holds
    /// exactly the kinds with a live reference, once each.
    pub open spec fn wf(self) -> bool {
        &&& self.rapid_fire_multiplier_permille == if self.rapid_fire_count > 0 {
            3000nat
        } else {
            1000nat
        }
        &&& self.multi_shot_count == if self.multi_shot_count_effects > 0 {
            5nat
        } else {
            1nat
        }
        &&& self.has_piercing == (self.piercing_count > 0)
        &&& self.has_explosive == (self.explosive_count > 0)
        &&& self.has_laser == (self.laser_count > 0)
        &&& (forall|t: PowerUpType| self.active_effects.contains(t) == (self.count_of(t) > 0))
        &&& (forall|i: int, j: int|
            0 <= i < j < self.active_effects.len() ==> self.active_effects[i]
                != self.active_effects[j])
    }
}

/// The effect list without any occurrence of `t`, order otherwise kept.
pub open spec fn without_effect(s: Seq<PowerUpType>, t: PowerUpType) -> Seq<PowerUpType>
    decreases s.len(),
{
    if s.len() == 0 {
        Seq::empty()
    } else if s.last() == t {
        without_effect(s.drop_last(), t)
    } else {
        without_effect(s.drop_last(), t).push(s.last())
    }
}

/// State after one more reference to `t`: its count goes up by one, its
/// flag is (re)asserted, and `t` joins the effect list if absent.
pub open spec fn spec_add_effect(v: PowerUpsView, t: PowerUpType) -> PowerUpsView {
    let listed = if v.active_effects.contains(t) {
        v.active_effects
    } else {
        v.active_effects.push(t)
    };
    match t {
        PowerUpType::RapidFire => PowerUpsView {
            active_effects: listed,
            rapid_fire_count: v.rapid_fire_count + 1,
            rapid_fire_multiplier_permille: 3000,
            ..v
        },
        PowerUpType::MultiShot => PowerUpsView {
            active_effects: listed,
            multi_shot_count_effects: v.multi_shot_count_effects + 1,
            multi_shot_count: 5,
            ..v
        },
        PowerUpType::PiercingBullets => PowerUpsView {
            active_effects: listed,
            piercing_count: v.piercing_count + 1,
            has_piercing: true,
            ..v
        },
        PowerUpType::ExplosiveBullets => PowerUpsView {
            active_effects: listed,
            explosive_count: v.explosive_count + 1,
            has_explosive: true,
            ..v
        },
        PowerUpType::LaserBeam => PowerUpsView {
            active_effects: listed,
            laser_count: v.laser_count + 1,
            has_laser: true,
            ..v
        },
    }
}

/// State after dropping one reference to `t`: with no references the call
/// changes nothing; dropping the last one resets the flag to baseline and
/// removes `t` from the effect list.
pub open spec fn spec_remove_effect(v: PowerUpsView, t: PowerUpType) -> PowerUpsView {
    if v.count_of(t) == 0 {
        v
    } else {
        let c = (v.count_of(t) - 1) as nat;
        let listed = if c == 0 {
            without_effect(v.active_effects, t)
        } else {
            v.active_effects
        };
        match t {
            PowerUpType::RapidFire => PowerUpsView {
                active_effects: listed,
                rapid_fire_count: c,
                rapid_fire_multiplier_permille: if c == 0 { 1000nat } else {
                    v.rapid_fire_multiplier_permille
                },
                ..v
            },
            PowerUpType::MultiShot => PowerUpsView {
                active_effects: listed,
                multi_shot_count_effects: c,
                multi_shot_count: if c == 0 { 1nat } else { v.multi_shot_count },
                ..v
            },
            PowerUpType::PiercingBullets => PowerUpsView {
                active_effects: listed,
                piercing_count: c,
                has_piercing: if c == 0 { false } else { v.has_piercing },
                ..v
            },
            PowerUpType::ExplosiveBullets => PowerUpsView {
                active_effects: listed,
                explosive_count: c,
                has_explosive: if c == 0 { false } else { v.has_explosive },
                ..v
            },
            PowerUpType::LaserBeam => PowerUpsView {
                active_effects: listed,
                laser_count: c,
                has_laser: if c == 0 { false } else { v.has_laser },
                ..v
            },
        }
    }
}

/// A pickup floating in the world, waiting to be collected.
pub struct PowerUp {
    pub power_type: PowerUpType,
}

/// A collected effect: its kind and the one-shot timer whose expiry drops
/// the reference it holds.
pub struct PowerUpEffect {
    pub power_type: PowerUpType,
    pub timer: crate::timer::Timer,
    pub duration_ms: u32,
}

impl PowerUpEffect {
    pub fn new(power_type: PowerUpType, duration_ms: u32) -> (r: PowerUpEffect)
        ensures
            r.power_type == power_type,
            r.duration_ms == duration_ms,
            r.timer.duration_ms == duration_ms,
            r.timer.elapsed_ms == 0,
            !r.timer.repeating,
            r.timer.wf(),
    {
        PowerUpEffect { power_type, timer: crate::timer::Timer::new(duration_ms, false),
            duration_ms }
    }

    /// Milliseconds before the effect expires.
    pub fn time_remaining_ms(&self) -> (r: u32)
        requires
            self.timer.wf(),
        ensures
            r == self.timer.duration_ms - self.timer.elapsed_ms,
    {
        self.timer.remaining_ms()
    }
}

/// A bullet that keeps flying through the asteroids it hits, up to a cap.
#[derive(Clone, Copy, Debug, PartialEq, Eq, Structural)]
pub struct PiercingBullet {
    pub pierced_count: u32,
    pub max_pierces: u32,
}

impl PiercingBullet {
    pub fn new(max_pierces: u32) -> (r: PiercingBullet)
        ensures
            r.pierced_count == 0,
            r.max_pierces == max_pierces,
    {
        PiercingBullet { pierced_count: 0, max_pierces }
    }
}

/// A bullet whose hit also queues an area explosion.
#[derive(Clone, Copy, Debug, PartialEq, Eq, Structural)]
pub struct ExplosiveBullet {
    /// Blast radius in world units.
    pub explosion_radius: u32,
    pub explosion_damage: u32,
}

impl ExplosiveBullet {
    pub fn new(radius: u32, damage: u32) -> (r: ExplosiveBullet)
        ensures
            r.explosion_radius == radius,
            r.explosion_damage == damage,
    {
        ExplosiveBullet { explosion_radius: radius, explosion_damage: damage }
    }
}

/// A continuous beam segment, respawned every frame while the trigger is
/// held.
pub struct LaserBeam {
    pub damage_per_second: u32,
    /// Beam length in world units.
    pub max_range: u32,
    pub width: u32,
}

impl LaserBeam {
    pub fn new(damage_per_second: u32, max_range: u32, width: u32) -> (r: LaserBeam)
        ensures
            r.damage_per_second == damage_per_second,
            r.max_range == max_range,
            r.width == width,
    {
        LaserBeam { damage_per_second, max_range, width }
    }
}

/// The shared player power-up resource.
pub struct PlayerPowerUps {
    /// Kinds that currently have at least one live reference.
    pub active_effects: Vec<PowerUpType>,
    pub rapid_fire_count: u32,
    pub multi_shot_count_effects: u32,
    pub piercing_count: u32,
    pub explosive_count: u32,
    pub laser_count: u32,
    /// Fire-rate multiplier in thousandths: 1000 at baseline, 3000 under
    /// rapid fire.
    pub rapid_fire_multiplier_permille: u32,
    /// Bullets per volley: 1 at baseline, 5 under multi-shot.
    pub multi_shot_count: u32,
    pub has_piercing: bool,
    pub has_explosive: bool,
    pub has_laser: bool,
}

impl View for PlayerPowerUps {
    type V = PowerUpsView;

    open spec fn view(&self) -> PowerUpsView {
        PowerUpsView {
            active_effects: self.active_effects@,
            rapid_fire_count: self.rapid_fire_count as nat,
            multi_shot_count_effects: self.multi_shot_count_effects as nat,
            piercing_count: self.piercing_count as nat,
            explosive_count: self.explosive_count as nat,
            laser_count: self.laser_count as nat,
            rapid_fire_multiplier_permille: self.rapid_fire_multiplier_permille as nat,
            multi_shot_count: self.multi_shot_count as nat,
            has_piercing: self.has_piercing,
            has_explosive: self.has_explosive,
            has_laser: self.has_laser,
        }
    }
}

impl PlayerPowerUps {
    /// Baseline state: no references, baseline magnitudes.
    pub fn new() -> (r: PlayerPowerUps)
        ensures
            r@.wf(),
            forall|t: PowerUpType| r@.count_of(t) == 0,
            r@.rapid_fire_multiplier_permille == 1000,
            r@.multi_shot_count == 1,
            !r@.has_piercing,
            !r@.has_explosive,
            !r@.has_laser,
            r@.active_effects.len() == 0,
    {
        let r = PlayerPowerUps {
            active_effects: Vec::new(),
            rapid_fire_count: 0,
            multi_shot_count_effects: 0,
            piercing_count: 0,
            explosive_count: 0,
            laser_count: 0,
            rapid_fire_multiplier_permille: 1000,
            multi_shot_count: 1,
            has_piercing: false,
            has_explosive: false,
            has_laser: false,
        };
        proof {
            assert forall|t: PowerUpType| !r@.active_effects.contains(t) by {
                if r@.active_effects.contains(t) {
                    let i = choose|i: int|
                        0 <= i < r@.active_effects.len() && r@.active_effects[i] == t;
                }
            }
        }
        r
    }

    /// Whether `t` has a live reference, by scanning the effect list.
    pub fn is_effect_listed(&self, t: PowerUpType) -> (r: bool)
        ensures
            r == self@.active_effects.contains(t),
    {
        let mut i: usize = 0;
        while i < self.active_effects.len()
            invariant
                0 <= i <= self.active_effects.len(),
                forall|j: int| 0 <= j < i ==> self.active_effects@[j] != t,
            decreases self.active_effects.len() - i,
        {
            if self.active_effects[i] == t {
                return true;
            }
            i += 1;
        }
        false
    }

    /// Adds one reference to `t` (a pickup was collected).
    pub fn add_effect(&mut self, t: PowerUpType)
        requires
            old(self)@.count_of(t) < u32::MAX,
        ensures
            final(self)@ == spec_add_effect(old(self)@, t),
            old(self)@.wf() ==> final(self)@.wf(),
    {
        let ghost pre = self@;
        if !self.is_effect_listed(t) {
            self.active_effects.push(t);
        }
        match t {
            PowerUpType::RapidFire => {
                self.rapid_fire_count += 1;
                self.rapid_fire_multiplier_permille = 3000;
            },
            PowerUpType::MultiShot => {
                self.multi_shot_count_effects += 1;
                self.multi_shot_count = 5;
            },
            PowerUpType::PiercingBullets => {
                self.piercing_count += 1;
                self.has_piercing = true;
            },
            PowerUpType::ExplosiveBullets => {
                self.explosive_count += 1;
                self.has_explosive = true;
            },
            PowerUpType::LaserBeam => {
                self.laser_count += 1;
                self.has_laser = true;
            },
        }
        proof {
            assert(self@ =~= spec_add_effect(pre, t));
            if pre.wf() {
                lemma_add_effect_wf(pre, t);
            }
        }
    }

    /// Removes every occurrence of `t` from the effect list (under the
    /// invariant there is at most one).
    fn unlist_effect(&mut self, t: PowerUpType)
        ensures
            final(self)@ == (PowerUpsView {
                active_effects: without_effect(old(self)@.active_effects, t),
                ..old(self)@
            }),
    {
        let ghost pre = self@.active_effects;
        let mut kept: Vec<PowerUpType> = Vec::new();
        let mut i: usize = 0;
        while i < self.active_effects.len()
            invariant
                0 <= i <= self.active_effects.len(),
                self.active_effects@ == pre,
                kept@ == without_effect(pre.take(i as int), t),
            decreases self.active_effects.len() - i,
        {
            proof {
                assert(pre.take(i + 1) =~= pre.take(i as int).push(pre[i as int]));
                lemma_without_effect_push(pre.take(i as int), pre[i as int], t);
            }
            if !(self.active_effects[i] == t) {
                kept.push(self.active_effects[i]);
            }
            i += 1;
        }
        proof {
            assert(pre.take(pre.len() as int) =~= pre);
        }
        self.active_effects = kept;
    }

    /// Drops one reference to `t` (an effect timer expired). With no live
    /// reference the call changes nothing; dropping the last reference
    /// resets the derived flag to baseline.
    pub fn remove_effect(&mut self, t: PowerUpType)
        ensures
            final(self)@ == spec_remove_effect(old(self)@, t),
            old(self)@.wf() ==> final(self)@.wf(),
    {
        let ghost pre = self@;
        match t {
            PowerUpType::RapidFire => {
                if self.rapid_fire_count > 0 {
                    self.rapid_fire_count -= 1;
                    if self.rapid_fire_count == 0 {
                        self.rapid_fire_multiplier_permille = 1000;
                        self.unlist_effect(t);
                    }
                }
            },
            PowerUpType::MultiShot => {
                if self.multi_shot_count_effects > 0 {
                    self.multi_shot_count_effects -= 1;
                    if self.multi_shot_count_effects == 0 {
                        self.multi_shot_count = 1;
                        self.unlist_effect(t);
                    }
                }
            },
            PowerUpType::PiercingBullets => {
                if self.piercing_count > 0 {
                    self.piercing_count -= 1;
                    if self.piercing_count == 0 {
                        self.has_piercing = false;
                        self.unlist_effect(t);
                    }
                }
            },
            PowerUpType::ExplosiveBullets => {
                if self.explosive_count > 0 {
                    self.explosive_count -= 1;
                    if self.explosive_count == 0 {
                        self.has_explosive = false;
                        self.unlist_effect(t);
                    }
                }
            },
            PowerUpType::LaserBeam => {
                if self.laser_count > 0 {
                    self.laser_count -= 1;
                    if self.laser_count == 0 {
                        self.has_laser = false;
                        self.unlist_effect(t);
                    }
                }
            },
        }
        proof {
            assert(self@ =~= spec_remove_effect(pre, t));
            if pre.wf() {
                lemma_remove_effect_wf(pre, t);
            }
        }
    }

    /// Resets everything to baseline (round start).
    pub fn clear_all(&mut self)
        ensures
            final(self)@.wf(),
            forall|t: PowerUpType| final(self)@.count_of(t) == 0,
            final(self)@.rapid_fire_multiplier_permille == 1000,
            final(self)@.multi_shot_count == 1,
            !final(self)@.has_piercing,
            !final(self)@.has_explosive,
            !final(self)@.has_laser,
            final(self)@.active_effects.len() == 0,
    {
        let fresh = PlayerPowerUps::new();
        *self = fresh;
    }
}

impl Default for PlayerPowerUps {
    /// Baseline state (see `new`).
    fn default() -> (r: PlayerPowerUps)
        ensures
            r@.wf(),
            forall|t: PowerUpType| r@.count_of(t) == 0,
            r@.rapid_fire_multiplier_permille == 1000,
            r@.multi_shot_count == 1,
            r@.active_effects.len() == 0,
    {
        PlayerPowerUps::new()
    }
}

/// Stacking law: collecting the same effect twice and then letting one
/// timer expire leaves the effect active; letting the second expire as well
/// resets it to baseline.
pub proof fn lemma_double_pickup_single_expiry(v: PowerUpsView, t: PowerUpType)
    requires
        v.wf(),
        v.count_of(t) == 0,
    ensures
        ({
            let stacked = spec_add_effect(spec_add_effect(v, t), t);
            let one_gone = spec_remove_effect(stacked, t);
            let both_gone = spec_remove_effect(one_gone, t);
            &&& stacked.effect_active(t)
            &&& one_gone.effect_active(t)
            &&& !both_gone.effect_active(t)
            &&& both_gone.count_of(t) == 0
        }),
{
    let once = spec_add_effect(v, t);
    let stacked = spec_add_effect(once, t);
    let one_gone = spec_remove_effect(stacked, t);
    let both_gone = spec_remove_effect(one_gone, t);
    lemma_add_effect_wf(v, t);
    lemma_add_effect_wf(once, t);
    lemma_remove_effect_wf(stacked, t);
    lemma_remove_effect_wf(one_gone, t);
    assert(once.count_of(t) == 1);
    assert(stacked.count_of(t) == 2);
    assert(one_gone.count_of(t) == 1);
    assert(both_gone.count_of(t) == 0);
}

/// Adding a reference preserves the invariant.
proof fn lemma_add_effect_wf(v: PowerUpsView, t: PowerUpType)
    requires
        v.wf(),
    ensures
        spec_add_effect(v, t).wf(),
{
    let w = spec_add_effect(v, t);
    if !v.active_effects.contains(t) {
        assert forall|u: PowerUpType| w.active_effects.contains(u) == (w.count_of(u) > 0) by {
            if w.active_effects.contains(u) {
                let i = choose|i: int|
                    0 <= i < w.active_effects.len() && w.active_effects[i] == u;
                if i < v.active_effects.len() {
                    assert(v.active_effects.contains(u));
                }
            }
            if w.count_of(u) > 0 {
                if u == t {
                    assert(w.active_effects[v.active_effects.len() as int] == t);
                } else {
                    assert(v.active_effects.contains(u));
                    let i = choose|i: int|
                        0 <= i < v.active_effects.len() && v.active_effects[i] == u;
                    assert(w.active_effects[i] == u);
                }
            }
        }
    }
}

/// Dropping a reference preserves the invariant.
proof fn lemma_remove_effect_wf(v: PowerUpsView, t: PowerUpType)
    requires
        v.wf(),
    ensures
        spec_remove_effect(v, t).wf(),
{
    let w = spec_remove_effect(v, t);
    if v.count_of(t) == 1 {
        lemma_without_effect_membership(v.active_effects, t);
        lemma_without_effect_no_dup(v.active_effects, t);
        assert forall|u: PowerUpType| w.active_effects.contains(u) == (w.count_of(u) > 0) by {
            assert(w.active_effects.contains(u) == (v.active_effects.contains(u) && u != t));
        }
    }
}

/// Removing a value commutes with appending another: the appended element
/// survives exactly when it is not the removed one.
proof fn lemma_without_effect_push(s: Seq<PowerUpType>, x: PowerUpType, t: PowerUpType)
    ensures
        without_effect(s.push(x), t) == if x == t {
            without_effect(s, t)
        } else {
            without_effect(s, t).push(x)
        },
{
    assert(s.push(x).drop_last() =~= s);
    assert(s.push(x).last() == x);
}

/// Membership after removal: everything but the removed value, and nothing
/// new.
proof fn lemma_without_effect_membership(s: Seq<PowerUpType>, t: PowerUpType)
    ensures
        forall|u: PowerUpType|
            #[trigger] without_effect(s, t).contains(u) == (s.contains(u) && u != t),
    decreases s.len(),
{
    if s.len() > 0 {
        lemma_without_effect_membership(s.drop_last(), t);
        let rest = without_effect(s.drop_last(), t);
        let w = without_effect(s, t);
        assert forall|u: PowerUpType| #[trigger] w.contains(u) == (s.contains(u) && u != t) by {
            if s.contains(u) && u != t {
                let i = choose|i: int| 0 <= i < s.len() && s[i] == u;
                if i == s.len() - 1 {
                    assert(s.last() == u);
                    assert(w[w.len() - 1] == u);
                } else {
                    assert(s.drop_last()[i] == u);
                    assert(s.drop_last().contains(u));
                    assert(rest.contains(u));
                    let j = choose|j: int| 0 <= j < rest.len() && rest[j] == u;
                    assert(w[j] == u);
                }
            }
            if w.contains(u) {
                let i = choose|i: int| 0 <= i < w.len() && w[i] == u;
                if s.last() == t {
                    assert(rest[i] == u);
                    assert(rest.contains(u));
                    let k = choose|k: int| 0 <= k < s.drop_last().len() && s.drop_last()[k] == u;
                    assert(s[k] == u);
                } else if i == w.len() - 1 {
                    assert(u == s.last());
                    assert(s[s.len() - 1] == u);
                } else {
                    assert(rest[i] == u);
                    assert(rest.contains(u));
                    let k = choose|k: int| 0 <= k < s.drop_last().len() && s.drop_last()[k] == u;
                    assert(s[k] == u);
                }
            }
        }
    }
}

/// Removal keeps the list duplicate-free.
proof fn lemma_without_effect_no_dup(s: Seq<PowerUpType>, t: PowerUpType)
    requires
        forall|i: int, j: int| 0 <= i < j < s.len() ==> s[i] != s[j],
    ensures
        forall|i: int, j: int|
            0 <= i < j < without_effect(s, t).len() ==> without_effect(s, t)[i]
                != without_effect(s, t)[j],
    decreases s.len(),
{
    if s.len() > 0 {
        assert forall|i: int, j: int|
            0 <= i < j < s.drop_last().len() implies s.drop_last()[i] != s.drop_last()[j] by {
            assert(s[i] != s[j]);
        }
        lemma_without_effect_no_dup(s.drop_last(), t);
        lemma_without_effect_membership(s.drop_last(), t);
        let rest = without_effect(s.drop_last(), t);
        let w = without_effect(s, t);
        if s.last() != t {
            assert forall|i: int, j: int| 0 <= i < j < w.len() implies w[i] != w[j] by {
                if j == w.len() - 1 {
                    assert(w[j] == s.last());
                    assert(w[i] == rest[i]);
                    assert(rest.contains(rest[i]));
                    assert(s.drop_last().contains(rest[i]));
                    let k = choose|k: int|
                        0 <= k < s.drop_last().len() && s.drop_last()[k] == rest[i];
                    assert(s[k] == rest[i]);
                    assert(s[k] != s[s.len() - 1]);
                } else {
                    assert(w[i] == rest[i]);
                    assert(w[j] == rest[j]);
                }
            }
        }
    }
}


/// One volley of player fire, as the active power-ups shape it: how many
/// bullets fan out, and which variant behaviours each carries. The laser
/// beam is fired separately while the trigger is held.
pub struct VolleyPlan {
    pub bullet_count: u32,
    pub piercing_max: Option<u32>,
    pub explosive: Option<(u32, u32)>,
    pub fire_laser: bool,
}

/// The volley the current power-up state produces: `multi_shot_count`
/// bullets; each pierces up to 10 asteroids under piercing bullets; each
/// explodes for 3 damage in a 50-unit radius under explosive bullets; and
/// a laser beam accompanies the volley while the laser flag is up.
pub fn plan_player_volley(powerups: &PlayerPowerUps) -> (r: VolleyPlan)
    ensures
        r.bullet_count == powerups.multi_shot_count,
        r.piercing_max == if powerups.has_piercing {
            Some(10u32)
        } else {
            None::<u32>
        },
        r.explosive == if powerups.has_explosive {
            Some((50u32, 3u32))
        } else {
            None::<(u32, u32)>
        },
        r.fire_laser == powerups.has_laser,
{
    VolleyPlan {
        bullet_count: powerups.multi_shot_count,
        piercing_max: if powerups.has_piercing {
            Some(10)
        } else {
            None
        },
        explosive: if powerups.has_explosive {
            Some((50, 3))
        } else {
            None
        },
        fire_laser: powerups.has_laser,
    }
}
} // verus!
