//! Static animation timing and geometry data.
//!
//! An [`Animation`] is the part of an authored animation asset that the
//! simulation consumes: per-frame delays and hitbox/hurtbox geometry.  Pixel
//! data and rendering stay with the asset-loading collaborator; the core
//! refers to an animation only by its [`AnimationName`] handle and reads the
//! table each frame.
//!
//! Content errors (an empty frame table, an unresolvable or duplicated box
//! identifier, geometry outside the representable range) are rejected when
//! the value is built, so the per-frame simulation never meets them.

use vstd::prelude::*;

verus! {

use crate::fixed_point::{Vec2, Rect, fp_add_ok, fp_add, fp_neg_ok, fp_neg, in_i32};

/// Error in authored content, surfaced when static data is validated before
/// a match, never during a tick.
#[derive(Debug, Clone, Copy, PartialEq, Eq, Structural)]
pub enum ConfigurationError {
    /// An animation must have at least one frame.
    EmptyAnimation,
    /// A frame places a box whose identifier the animation does not declare.
    UnknownHitboxId,
    /// Two box declarations share one identifier.
    DuplicateHitboxId,
    /// A box corner or its mirror image does not fit the fixed-point range.
    HitboxGeometryOutOfRange,
}

/// Stable handle of an animation inside a character prototype; the core
/// looks animations up by name and never stores them by value.
#[derive(Debug, Clone, Copy, PartialEq, Eq, Hash, Structural)]
pub enum AnimationName {
    Idle,
    Walking,
    Punch,
    Hitstun,
}

/// Placement of one box on one animation frame, in character-local space.
#[derive(Debug, Clone, Copy, PartialEq, Eq, Structural)]
pub struct HitboxPosition {
    /// Which declared box this placement belongs to.
    pub id: usize,
    /// Minimum corner.
    pub pos: Vec2,
    /// Extent; the maximum corner is `pos + size`.
    pub size: Vec2,
    /// Whether the box is active on this frame.
    pub enabled: bool,
}

/// Declaration of one box of an animation: its identifier, a descriptive
/// tag, and whether it receives hits (hurtbox) or deals them (hitbox).
#[derive(Debug, Clone, Copy, PartialEq, Eq, Structural)]
pub struct HitboxInfo {
    pub id: usize,
    /// Descriptive label carried through to hit reports.
    pub tag: u32,
    pub is_hurtbox: bool,
}

/// One timed frame of an animation.
#[derive(Debug, Clone, PartialEq, Eq)]
pub struct FrameData {
    /// How many unfrozen frames this animation frame is shown.
    pub delay: usize,
    /// Box placements active while it is shown.
    pub hitboxes: Vec<HitboxPosition>,
}

/// Mathematical image of a [`FrameData`].
pub struct FrameDataV {
    pub delay: usize,
    pub hitboxes: Seq<HitboxPosition>,
}

impl View for FrameData {
    type V = FrameDataV;

    open spec fn view(&self) -> FrameDataV {
        FrameDataV { delay: self.delay, hitboxes: self.hitboxes@ }
    }
}

/// An animation as the simulation sees it: an ordered, non-empty table of
/// timed frames and the declarations of the boxes those frames place.
#[derive(Debug, Clone, PartialEq, Eq)]
pub struct Animation {
    pub frame_data: Vec<FrameData>,
    pub hitboxes: Vec<HitboxInfo>,
}

/// Mathematical image of an [`Animation`].
pub struct AnimationV {
    pub frame_data: Seq<FrameDataV>,
    pub hitboxes: Seq<HitboxInfo>,
}

impl View for Animation {
    type V = AnimationV;

    open spec fn view(&self) -> AnimationV {
        AnimationV {
            frame_data: self.frame_data@.map_values(|f: FrameData| f@),
            hitboxes: self.hitboxes@,
        }
    }
}

/// Whether a declared box identifier resolves in a declaration table.
pub open spec fn id_resolves(infos: Seq<HitboxInfo>, id: usize) -> bool {
    exists|j: int| 0 <= j < infos.len() && #[trigger] infos[j].id == id
}

/// The declaration a box identifier resolves to (the unique one, when the
/// table is well formed).
pub open spec fn info_of(infos: Seq<HitboxInfo>, id: usize) -> HitboxInfo {
    infos[choose|j: int| 0 <= j < infos.len() && #[trigger] infos[j].id == id]
}

/// Whether one box placement stays representable under translation set-up
/// and facing mirror: its far corner exists and both corners can be negated.
pub open spec fn box_geometry_ok(b: HitboxPosition) -> bool {
    &&& fp_add_ok(b.pos.x, b.size.x)
    &&& fp_add_ok(b.pos.y, b.size.y)
    &&& fp_neg_ok(b.pos.x)
    &&& in_i32(-(b.pos.x.0 + b.size.x.0))
}

/// Box identifiers are declared at most once.
pub open spec fn ids_unique(infos: Seq<HitboxInfo>) -> bool {
    forall|j1: int, j2: int|
        0 <= j1 < j2 < infos.len() ==> #[trigger] infos[j1].id != #[trigger] infos[j2].id
}

/// Every box placement of every frame names a declared identifier.
pub open spec fn all_placements_resolve(a: AnimationV) -> bool {
    forall|i: int, k: int|
        0 <= i < a.frame_data.len() && 0 <= k < a.frame_data[i].hitboxes.len() ==> {
            let b = #[trigger] a.frame_data[i].hitboxes[k];
            id_resolves(a.hitboxes, b.id)
        }
}

/// Every box placement of every frame is geometrically representable.
pub open spec fn all_geometry_ok(a: AnimationV) -> bool {
    forall|i: int, k: int|
        0 <= i < a.frame_data.len() && 0 <= k < a.frame_data[i].hitboxes.len() ==> {
            let b = #[trigger] a.frame_data[i].hitboxes[k];
            box_geometry_ok(b)
        }
}

/// Well-formedness of an animation: at least one frame, box identifiers
/// declared exactly once, every placement resolvable and geometrically
/// representable.
pub open spec fn anim_wf(a: AnimationV) -> bool {
    &&& a.frame_data.len() > 0
    &&& ids_unique(a.hitboxes)
    &&& all_placements_resolve(a)
    &&& all_geometry_ok(a)
}

impl Animation {
    /// Validates authored frame and box tables into an animation the
    /// simulation can run.  The checks run in a fixed order, each rejecting
    /// with its own error: an empty frame table, a duplicated box
    /// identifier, an unresolvable placement, geometry that could leave the
    /// fixed-point range.
    pub fn new(frame_data: Vec<FrameData>, hitboxes: Vec<HitboxInfo>) -> (r: Result<
        Animation,
        ConfigurationError,
    >)
        ensures
            ({
                let v = AnimationV {
                    frame_data: frame_data@.map_values(|f: FrameData| f@),
                    hitboxes: hitboxes@,
                };
                &&& (r is Ok <==> anim_wf(v))
                &&& (r is Ok ==> r->Ok_0@ == v)
                &&& (r == Err::<Animation, ConfigurationError>(ConfigurationError::EmptyAnimation)
                    <==> v.frame_data.len() == 0)
                &&& (r == Err::<Animation, ConfigurationError>(
                    ConfigurationError::DuplicateHitboxId,
                ) <==> v.frame_data.len() > 0 && !ids_unique(v.hitboxes))
                &&& (r == Err::<Animation, ConfigurationError>(ConfigurationError::UnknownHitboxId)
                    <==> v.frame_data.len() > 0 && ids_unique(v.hitboxes)
                    && !all_placements_resolve(v))
                &&& (r == Err::<Animation, ConfigurationError>(
                    ConfigurationError::HitboxGeometryOutOfRange,
                ) <==> v.frame_data.len() > 0 && ids_unique(v.hitboxes) && all_placements_resolve(
                    v,
                ) && !all_geometry_ok(v))
            }),
    {
        let ghost v = AnimationV {
            frame_data: frame_data@.map_values(|f: FrameData| f@),
            hitboxes: hitboxes@,
        };
        if frame_data.len() == 0 {
            return Err(ConfigurationError::EmptyAnimation);
        }
        let n_info = hitboxes.len();
        let n_frames = frame_data.len();

        // every identifier is declared at most once
        let mut j1: usize = 0;
        while j1 < n_info
            invariant
                j1 <= n_info == hitboxes@.len(),
                v == (AnimationV {
                    frame_data: frame_data@.map_values(|f: FrameData| f@),
                    hitboxes: hitboxes@,
                }),
                n_frames == frame_data@.len() > 0,
                forall|a: int, b: int|
                    0 <= a < b < n_info && a < j1 ==> #[trigger] hitboxes@[a].id != #[trigger] hitboxes@[b].id,
            decreases n_info - j1,
        {
            let mut j2: usize = j1 + 1;
            while j2 < n_info
                invariant
                    j1 < j2 <= n_info == hitboxes@.len(),
                    v == (AnimationV {
                        frame_data: frame_data@.map_values(|f: FrameData| f@),
                        hitboxes: hitboxes@,
                    }),
                    n_frames == frame_data@.len() > 0,
                    forall|b: int| j1 < b < j2 ==> hitboxes@[j1 as int].id != #[trigger] hitboxes@[b].id,
                decreases n_info - j2,
            {
                if hitboxes[j1].id == hitboxes[j2].id {
                    proof {
                        assert(!ids_unique(v.hitboxes)) by {
                            assert(v.hitboxes[j1 as int].id == v.hitboxes[j2 as int].id);
                        }
                    }
                    return Err(ConfigurationError::DuplicateHitboxId);
                }
                j2 = j2 + 1;
            }
            j1 = j1 + 1;
        }
        proof {
            assert(ids_unique(v.hitboxes));
        }

        // every placement names a declared identifier
        let mut i: usize = 0;
        while i < n_frames
            invariant
                i <= n_frames == frame_data@.len(),
                v == (AnimationV {
                    frame_data: frame_data@.map_values(|f: FrameData| f@),
                    hitboxes: hitboxes@,
                }),
                n_info == hitboxes@.len(),
                ids_unique(v.hitboxes),
                forall|a: int, k: int|
                    0 <= a < i && 0 <= k < v.frame_data[a].hitboxes.len() ==> {
                        let b = #[trigger] v.frame_data[a].hitboxes[k];
                        id_resolves(v.hitboxes, b.id)
                    },
            decreases n_frames - i,
        {
            let frame = &frame_data[i];
            let n_boxes = frame.hitboxes.len();
            let mut k: usize = 0;
            while k < n_boxes
                invariant
                    k <= n_boxes == frame.hitboxes@.len(),
                    frame == &frame_data[i as int],
                    i < frame_data@.len(),
                    v == (AnimationV {
                        frame_data: frame_data@.map_values(|f: FrameData| f@),
                        hitboxes: hitboxes@,
                    }),
                    n_info == hitboxes@.len(),
                    ids_unique(v.hitboxes),
                    forall|k2: int|
                        0 <= k2 < k ==> id_resolves(v.hitboxes, #[trigger] frame.hitboxes@[k2].id),
                decreases n_boxes - k,
            {
                let b = frame.hitboxes[k];
                let mut found: bool = false;
                let mut j: usize = 0;
                while j < n_info
                    invariant
                        j <= n_info == hitboxes@.len(),
                        found == exists|j2: int| 0 <= j2 < j && #[trigger] hitboxes@[j2].id == b.id,
                    decreases n_info - j,
                {
                    if hitboxes[j].id == b.id {
                        found = true;
                    }
                    j = j + 1;
                }
                if !found {
                    proof {
                        assert(!all_placements_resolve(v)) by {
                            assert(v.frame_data[i as int].hitboxes[k as int] == b);
                            assert(!id_resolves(v.hitboxes, b.id));
                        }
                    }
                    return Err(ConfigurationError::UnknownHitboxId);
                }
                proof {
                    assert(v.frame_data[i as int].hitboxes[k as int] == b);
                }
                k = k + 1;
            }
            proof {
                let fi = v.frame_data[i as int];
                assert(forall|k2: int|
                    0 <= k2 < fi.hitboxes.len() ==> #[trigger] fi.hitboxes[k2]
                        == frame.hitboxes@[k2]);
            }
            i = i + 1;
        }
        proof {
            assert(all_placements_resolve(v));
        }

        // every placement stays representable under translation and mirror
        let mut i: usize = 0;
        while i < n_frames
            invariant
                i <= n_frames == frame_data@.len(),
                v == (AnimationV {
                    frame_data: frame_data@.map_values(|f: FrameData| f@),
                    hitboxes: hitboxes@,
                }),
                ids_unique(v.hitboxes),
                all_placements_resolve(v),
                forall|a: int, k: int|
                    0 <= a < i && 0 <= k < v.frame_data[a].hitboxes.len() ==> {
                        let b = #[trigger] v.frame_data[a].hitboxes[k];
                        box_geometry_ok(b)
                    },
            decreases n_frames - i,
        {
            let frame = &frame_data[i];
            let n_boxes = frame.hitboxes.len();
            let mut k: usize = 0;
            while k < n_boxes
                invariant
                    k <= n_boxes == frame.hitboxes@.len(),
                    frame == &frame_data[i as int],
                    i < frame_data@.len(),
                    v == (AnimationV {
                        frame_data: frame_data@.map_values(|f: FrameData| f@),
                        hitboxes: hitboxes@,
                    }),
                    ids_unique(v.hitboxes),
                    all_placements_resolve(v),
                    forall|k2: int|
                        0 <= k2 < k ==> box_geometry_ok(#[trigger] frame.hitboxes@[k2]),
                decreases n_boxes - k,
            {
                let b = frame.hitboxes[k];
                let far_x = b.pos.x.checked_add(b.size.x);
                let far_y = b.pos.y.checked_add(b.size.y);
                let ok = match (far_x, far_y) {
                    (Ok(fx), Ok(_)) => b.pos.x.0 != i32::MIN && fx.0 != i32::MIN,
                    _ => false,
                };
                if !ok {
                    proof {
                        assert(!all_geometry_ok(v)) by {
                            assert(v.frame_data[i as int].hitboxes[k as int] == b);
                            assert(!box_geometry_ok(b));
                        }
                    }
                    return Err(ConfigurationError::HitboxGeometryOutOfRange);
                }
                proof {
                    assert(v.frame_data[i as int].hitboxes[k as int] == b);
                }
                k = k + 1;
            }
            proof {
                let fi = v.frame_data[i as int];
                assert(forall|k2: int|
                    0 <= k2 < fi.hitboxes.len() ==> #[trigger] fi.hitboxes[k2]
                        == frame.hitboxes@[k2]);
            }
            i = i + 1;
        }
        proof {
            assert(all_geometry_ok(v));
        }
        Ok(Animation { frame_data, hitboxes })
    }
}

} // verus!
