//! The live-entity set and the whole-tick rule.
//!
//! A tick runs the behavior rules once over every live entity, with the
//! same elapsed delta for all, and applies removals only after the
//! traversal: an entity whose death clip has completed is absent from
//! the set the tick observes it, and absent exactly once.

use vstd::prelude::*;

use crate::animation::AnimationMap;
use crate::components::{
    AnimatedComponent, AnimatedView, CreatureType, DrawableComponent, EntityKind,
    MapInformation, MovementComponent, SelectedComponent,
};
use crate::geom::WorldVec;
use crate::playback::spec_advanced;
use crate::random::{draw_below, new_rng};
use crate::systems::{
    apply_random_death, apply_random_movement, lib_ready, spec_death_step, spec_movement_step,
    MoveDraws, ROLL_RANGE, TILE_MAX, TILE_MIN,
};

verus! {

/// One live creature: the composition of its components.
pub struct SimEntity {
    pub drawable: DrawableComponent,
    pub movement: MovementComponent,
    pub animated: AnimatedComponent,
    pub kind: EntityKind,
    pub selected: SelectedComponent,
}

/// Mathematical value of a `SimEntity`.
pub ghost struct SimEntityView {
    pub position: WorldVec,
    pub texture_handle: &'static str,
    pub movement: MovementComponent,
    pub animated: AnimatedView,
    pub kind: CreatureType,
    pub selected: bool,
}

impl View for SimEntity {
    type V = SimEntityView;

    open spec fn view(&self) -> SimEntityView {
        SimEntityView {
            position: self.drawable.position,
            texture_handle: self.drawable.texture_handle,
            movement: self.movement,
            animated: self.animated@,
            kind: self.kind.kind,
            selected: self.selected.selected,
        }
    }
}

impl SimEntityView {
    pub open spec fn wf(self) -> bool {
        &&& crate::components::pos_wf(self.position)
        &&& self.movement.wf()
        &&& self.animated.wf()
    }
}

impl SimEntity {
    pub open spec fn wf(self) -> bool {
        self@.wf()
    }

    /// The sprite this entity currently shows: its active clip's frame
    /// at the playback clock's index.
    pub fn current_sprite(&self) -> (r: crate::atlas::LiegeSprite)
        requires
            self.wf(),
        ensures
            r == self@.animated.frames[self@.animated.frame_index()],
    {
        let idx = self.animated.animation_state.frame_index(&self.animated.liege_animation);
        self.animated.liege_animation.resolve(idx)
    }

    /// An independent copy with the same value.
    pub fn duplicate(&self) -> (r: SimEntity)
        ensures
            r@ == self@,
    {
        SimEntity {
            drawable: self.drawable,
            movement: self.movement,
            animated: AnimatedComponent {
                label: self.animated.label,
                liege_animation: self.animated.liege_animation.duplicate(),
                animation_state: self.animated.animation_state,
            },
            kind: self.kind,
            selected: self.selected,
        }
    }
}

/// Creates a live entity at a position, idling with its creature's
/// default idle clip and no destination, as entities are spawned.
/// `None` exactly when the position or speed is out of range or the
/// library lacks a usable idle clip for the creature.
pub fn new_entity(
    kind: CreatureType,
    x: i32,
    y: i32,
    speed: i32,
    texture_handle: &'static str,
    animation_mapping: &AnimationMap,
) -> (r: Option<SimEntity>)
    ensures
        match r {
            Some(e) => {
                &&& e.wf()
                &&& e@.position == (WorldVec { x, y })
                &&& e@.movement.destination.is_zero()
                &&& e@.movement.speed == speed
                &&& e@.kind == kind
                &&& !e@.selected
                &&& e@.animated.label == (crate::animation::AnimationLabel {
                    creature: kind,
                    state: crate::animation::AnimationStates::IdleRight,
                })
                &&& e@.animated.elapsed_ms == 0
                &&& e@.texture_handle == texture_handle
            },
            None => !(crate::components::pos_wf(WorldVec { x, y }) && 0 <= speed
                <= crate::components::SPEED_LIMIT && crate::animation::found_wf(
                animation_mapping.animations@,
                crate::animation::AnimationLabel {
                    creature: kind,
                    state: crate::animation::AnimationStates::IdleRight,
                },
            )),
        },
{
    if !(-crate::components::POS_LIMIT <= x && x <= crate::components::POS_LIMIT
        && -crate::components::POS_LIMIT <= y && y <= crate::components::POS_LIMIT && 0 <= speed
        && speed <= crate::components::SPEED_LIMIT) {
        return None;
    }
    let label = crate::animation::AnimationLabel {
        creature: kind,
        state: crate::animation::AnimationStates::IdleRight,
    };
    match animation_mapping.get(label) {
        Some(clip) => {
            if !clip.check_wf() {
                return None;
            }
            Some(
                SimEntity {
                    drawable: DrawableComponent { position: WorldVec { x, y }, texture_handle },
                    movement: MovementComponent { destination: WorldVec::zero(), speed },
                    animated: AnimatedComponent {
                        label,
                        liege_animation: clip.duplicate(),
                        animation_state: crate::playback::PlaybackClock::new(),
                    },
                    kind: EntityKind { kind },
                    selected: SelectedComponent { selected: false },
                },
            )
        },
        None => None,
    }
}

/// The random draws one entity may consume in a tick.
#[derive(Clone, Copy, Debug, PartialEq, Eq, Structural)]
pub struct TickDraws {
    pub death_roll: u32,
    pub move_draws: MoveDraws,
}

impl TickDraws {
    pub open spec fn wf(self) -> bool {
        self.move_draws.wf()
    }
}

/// One entity's whole tick: the death rule, then — unless the entity
/// is removed — the idle/move rule and the shared playback advance.
/// `None` means the entity leaves the live set this tick.
pub open spec fn spec_tick_entity(
    e: SimEntityView,
    d: TickDraws,
    lib: Seq<(crate::animation::AnimationLabel, crate::animation::LiegeAnimation)>,
    info: MapInformation,
    delta_ms: i64,
) -> Option<SimEntityView> {
    let (a1, remove) = spec_death_step(e.animated, e.kind, lib, d.death_roll);
    if remove {
        None
    } else {
        let (mov2, pos2, a2) = spec_movement_step(
            e.movement,
            e.position,
            a1,
            e.kind,
            info,
            lib,
            d.move_draws,
        );
        let a3 = AnimatedView {
            elapsed_ms: spec_advanced(a2.elapsed_ms, delta_ms) as u64,
            ..a2
        };
        Some(SimEntityView { position: pos2, movement: mov2, animated: a3, ..e })
    }
}

/// A whole tick over the live set, in order; removed entities leave no
/// entry behind.
pub open spec fn spec_world_tick(
    s: Seq<SimEntityView>,
    ds: Seq<TickDraws>,
    lib: Seq<(crate::animation::AnimationLabel, crate::animation::LiegeAnimation)>,
    info: MapInformation,
    delta_ms: i64,
) -> Seq<SimEntityView>
    decreases s.len(),
{
    if s.len() == 0 {
        Seq::empty()
    } else {
        spec_world_tick(s.drop_last(), ds.drop_last(), lib, info, delta_ms) + (match spec_tick_entity(
            s.last(),
            ds.last(),
            lib,
            info,
            delta_ms,
        ) {
            Some(e) => seq![e],
            None => Seq::empty(),
        })
    }
}

/// An entity leaves the live set exactly when it is on its death clip
/// and that clip has completed: no removal before the clip's `ended`
/// flag, and removal on the very tick that observes it.
pub proof fn lemma_removed_iff_ended(
    e: SimEntityView,
    d: TickDraws,
    lib: Seq<(crate::animation::AnimationLabel, crate::animation::LiegeAnimation)>,
    info: MapInformation,
    delta_ms: i64,
)
    ensures
        spec_tick_entity(e, d, lib, info, delta_ms) is None <==> (e.animated.label.state is Die
            && e.animated.ended()),
{
}

/// How many live entities are on a completed death clip.
pub open spec fn count_completed(s: Seq<SimEntityView>) -> int
    decreases s.len(),
{
    if s.len() == 0 {
        0
    } else {
        count_completed(s.drop_last()) + (if s.last().animated.label.state is Die
            && s.last().animated.ended() {
            1int
        } else {
            0int
        })
    }
}

/// A tick removes each completed dying entity exactly once and no
/// other: the set shrinks by exactly the number of entities whose
/// death clip had completed.
pub proof fn lemma_tick_removes_exactly_completed(
    s: Seq<SimEntityView>,
    ds: Seq<TickDraws>,
    lib: Seq<(crate::animation::AnimationLabel, crate::animation::LiegeAnimation)>,
    info: MapInformation,
    delta_ms: i64,
)
    requires
        ds.len() == s.len(),
    ensures
        spec_world_tick(s, ds, lib, info, delta_ms).len() == s.len() - count_completed(s),
        0 <= count_completed(s) <= s.len(),
    decreases s.len(),
{
    if s.len() > 0 {
        lemma_tick_removes_exactly_completed(
            s.drop_last(),
            ds.drop_last(),
            lib,
            info,
            delta_ms,
        );
        lemma_removed_iff_ended(s.last(), ds.last(), lib, info, delta_ms);
    }
}

pub open spec fn all_entities_wf(s: Seq<SimEntityView>) -> bool {
    forall|i: int| 0 <= i < s.len() ==> (#[trigger] s[i]).wf()
}

pub open spec fn all_draws_wf(ds: Seq<TickDraws>) -> bool {
    forall|i: int| 0 <= i < ds.len() ==> (#[trigger] ds[i]).wf()
}

/// The live-entity set.
pub struct World {
    pub entities: Vec<SimEntity>,
}

impl View for World {
    type V = Seq<SimEntityView>;

    open spec fn view(&self) -> Seq<SimEntityView> {
        self.entities@.map(|_i: int, e: SimEntity| e@)
    }
}

impl World {
    pub fn new() -> (r: World)
        ensures
            r@.len() == 0,
    {
        World { entities: Vec::new() }
    }

    pub open spec fn wf(self) -> bool {
        all_entities_wf(self@)
    }

    pub fn len(&self) -> (r: usize)
        ensures
            r == self@.len(),
    {
        self.entities.len()
    }

    /// Adds a live entity.
    pub fn push(&mut self, e: SimEntity)
        requires
            e.wf(),
            old(self).wf(),
        ensures
            final (self)@ == old(self)@ + seq![e@],
            final (self).wf(),
    {
        self.entities.push(e);
        proof {
            assert(self@ =~= old(self)@ + seq![e@]);
        }
    }

    /// One deterministic tick: every entity steps on the given draws
    /// and the shared `delta_ms`; entities whose death clip completed
    /// are removed after the traversal.
    #[verifier::rlimit(80)]
    pub fn tick_with_draws(
        &mut self,
        animation_mapping: &AnimationMap,
        map_info: &MapInformation,
        draws: &Vec<TickDraws>,
        delta_ms: i64,
    )
        requires
            old(self).wf(),
            draws@.len() == old(self)@.len(),
            all_draws_wf(draws@),
            map_info.wf(),
            lib_ready(animation_mapping.animations@, CreatureType::Rogue),
            lib_ready(animation_mapping.animations@, CreatureType::Goblin),
        ensures
            final (self)@ == spec_world_tick(
                old(self)@,
                draws@,
                animation_mapping.animations@,
                *map_info,
                delta_ms,
            ),
            final (self).wf(),
    {
        let ghost s0 = self@;
        let ghost ds = draws@;
        let lib = animation_mapping;
        let mut kept: Vec<SimEntity> = Vec::new();
        let mut i: usize = 0;
        proof {
            assert(s0.take(0) =~= Seq::<SimEntityView>::empty());
            assert(ds.take(0) =~= Seq::<TickDraws>::empty());
        }
        while i < self.entities.len()
            invariant
                i <= self.entities@.len(),
                self@ == s0,
                ds == draws@,
                ds.len() == s0.len(),
                all_entities_wf(s0),
                all_draws_wf(ds),
                map_info.wf(),
                lib_ready(lib.animations@, CreatureType::Rogue),
                lib_ready(lib.animations@, CreatureType::Goblin),
                kept@.map(|_j: int, e: SimEntity| e@) == spec_world_tick(
                    s0.take(i as int),
                    ds.take(i as int),
                    lib.animations@,
                    *map_info,
                    delta_ms,
                ),
                all_entities_wf(kept@.map(|_j: int, e: SimEntity| e@)),
            decreases self.entities@.len() - i,
        {
            let ghost kept0 = kept@;
            let mut ent = self.entities[i].duplicate();
            proof {
                assert(s0[i as int] == self.entities@[i as int]@);
                assert(s0[i as int].wf());
                assert(ds[i as int].wf());
            }
            let d = draws[i];
            proof {
                assert(ent.kind.kind == s0[i as int].kind);
            }
            let remove = apply_random_death(&mut ent.animated, &ent.kind, lib, d.death_roll);
            if !remove {
                apply_random_movement(
                    &mut ent.movement,
                    &mut ent.drawable,
                    &mut ent.animated,
                    &ent.kind,
                    map_info,
                    lib,
                    d.move_draws,
                );
                ent.animated.animation_state.update(delta_ms);
                proof {
                    assert(spec_tick_entity(
                        s0[i as int],
                        ds[i as int],
                        lib.animations@,
                        *map_info,
                        delta_ms,
                    ) == Some(ent@));
                }
                kept.push(ent);
            } else {
                proof {
                    assert(spec_tick_entity(
                        s0[i as int],
                        ds[i as int],
                        lib.animations@,
                        *map_info,
                        delta_ms,
                    ) is None);
                }
            }
            proof {
                assert(s0.take(i + 1).drop_last() =~= s0.take(i as int));
                assert(ds.take(i + 1).drop_last() =~= ds.take(i as int));
                assert(s0.take(i + 1).last() == s0[i as int]);
                assert(ds.take(i + 1).last() == ds[i as int]);
                if !remove {
                    assert(kept@.map(|_j: int, e: SimEntity| e@) =~= kept0.map(
                        |_j: int, e: SimEntity| e@,
                    ) + seq![kept@.last()@]);
                }
                assert(kept@.map(|_j: int, e: SimEntity| e@) =~= spec_world_tick(
                    s0.take(i + 1),
                    ds.take(i + 1),
                    lib.animations@,
                    *map_info,
                    delta_ms,
                ));
            }
            i = i + 1;
        }
        proof {
            assert(s0.take(s0.len() as int) =~= s0);
            assert(ds.take(ds.len() as int) =~= ds);
        }
        self.entities = kept;
        proof {
            assert(self@ =~= spec_world_tick(s0, ds, lib.animations@, *map_info, delta_ms));
        }
    }

    /// One tick on fresh uniform draws from the thread-local generator.
    /// Whatever the draws come out as, the new set is the deterministic
    /// tick of the old set on those draws.
    pub fn tick(
        &mut self,
        animation_mapping: &AnimationMap,
        map_info: &MapInformation,
        delta_ms: i64,
    )
        requires
            old(self).wf(),
            map_info.wf(),
            lib_ready(animation_mapping.animations@, CreatureType::Rogue),
            lib_ready(animation_mapping.animations@, CreatureType::Goblin),
        ensures
            exists|ds: Seq<TickDraws>|
                ds.len() == old(self)@.len() && all_draws_wf(ds) && final (self)@
                    == spec_world_tick(
                    old(self)@,
                    ds,
                    animation_mapping.animations@,
                    *map_info,
                    delta_ms,
                ),
            final (self).wf(),
    {
        let mut rng = new_rng();
        let n = self.entities.len();
        let mut draws: Vec<TickDraws> = Vec::new();
        let mut i: usize = 0;
        while i < n
            invariant
                draws@.len() == i <= n,
                all_draws_wf(draws@),
            decreases n - i,
        {
            let d = TickDraws {
                death_roll: draw_below(&mut rng, 0, ROLL_RANGE),
                move_draws: MoveDraws {
                    roll: draw_below(&mut rng, 0, ROLL_RANGE),
                    tile_x: draw_below(&mut rng, TILE_MIN, TILE_MAX + 1),
                    tile_y: draw_below(&mut rng, TILE_MIN, TILE_MAX + 1),
                },
            };
            let ghost draws0 = draws@;
            draws.push(d);
            proof {
                assert(forall|j: int|
                    0 <= j < draws@.len() ==> (#[trigger] draws@[j]).wf());
            }
            i = i + 1;
        }
        self.tick_with_draws(animation_mapping, map_info, &draws, delta_ms);
        proof {
            let ds = draws@;
            assert(ds.len() == old(self)@.len() && all_draws_wf(ds) && self@ == spec_world_tick(
                old(self)@,
                ds,
                animation_mapping.animations@,
                *map_info,
                delta_ms,
            ));
        }
    }
}

} // verus!
