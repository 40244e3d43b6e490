//! What a ray meets first, and the decisions the shader takes on it.
//!
//! The distances themselves are computed by the caller; the scan here
//! records, candidate by candidate, which surface is the nearest so far.

use vstd::prelude::*;

verus! {

/// Classification of a ray: no surface, the floor plane, or a sphere.
#[derive(Clone, Copy, Debug, PartialEq, Eq, Structural)]
pub enum HitKind {
    Sky,
    Floor,
    Sphere,
}

/// The nearest surface found so far by the scan of one ray, and for a
/// sphere its position in the scanned sphere list.
#[derive(Clone, Copy, Debug, PartialEq, Eq, Structural)]
pub struct Nearest {
    pub kind: HitKind,
    pub sphere: Option<usize>,
}

pub open spec fn spec_start(floor_ahead: bool) -> Nearest {
    Nearest { kind: if floor_ahead { HitKind::Floor } else { HitKind::Sky }, sphere: None }
}

/// The scan after offering sphere `index`; `nearer` says whether that
/// sphere is hit in front of the ray, closer than the nearest so far.
pub open spec fn spec_offer(n: Nearest, index: usize, nearer: bool) -> Nearest {
    if nearer {
        Nearest { kind: HitKind::Sphere, sphere: Some(index) }
    } else {
        n
    }
}

/// The scan after offering spheres `0 .. nearer.len()` in order.
pub open spec fn scanned(floor_ahead: bool, nearer: Seq<bool>) -> Nearest
    decreases nearer.len(),
{
    if nearer.len() == 0 {
        spec_start(floor_ahead)
    } else {
        let i = nearer.len() - 1;
        spec_offer(scanned(floor_ahead, nearer.drop_last()), i as usize, nearer[i])
    }
}

impl Nearest {
    /// Starts the scan of a ray: the floor if the ray meets it ahead,
    /// else the sky.
    pub fn start(floor_ahead: bool) -> (r: Nearest)
        ensures
            r == spec_start(floor_ahead),
    {
        Nearest { kind: if floor_ahead { HitKind::Floor } else { HitKind::Sky }, sphere: None }
    }

    /// Offers sphere `index`: a sphere that is nearer replaces the
    /// nearest so far, any other leaves it as it was.
    pub fn offer(&mut self, index: usize, nearer: bool)
        ensures
            *final(self) == spec_offer(*old(self), index, nearer),
    {
        if nearer {
            self.kind = HitKind::Sphere;
            self.sphere = Some(index);
        }
    }
}

/// Outcome of a whole scan: a sphere if any offered sphere was nearer,
/// and then the last such one; else the floor if it lies ahead; else the sky.
pub proof fn lemma_scan_outcome(floor_ahead: bool, nearer: Seq<bool>)
    requires
        nearer.len() <= usize::MAX,
    ensures
        (exists|i: int| 0 <= i < nearer.len() && nearer[i]) ==> {
            &&& scanned(floor_ahead, nearer).kind == HitKind::Sphere
            &&& exists|i: int|
                #![trigger nearer[i]]
                0 <= i < nearer.len() && nearer[i] && scanned(floor_ahead, nearer).sphere == Some(
                    i as usize,
                ) && forall|j: int| i < j < nearer.len() ==> !nearer[j]
        },
        (forall|i: int| 0 <= i < nearer.len() ==> !nearer[i]) ==> scanned(floor_ahead, nearer)
            == spec_start(floor_ahead),
    decreases nearer.len(),
{
    if nearer.len() > 0 {
        let rest = nearer.drop_last();
        let last = nearer.len() - 1;
        lemma_scan_outcome(floor_ahead, rest);
        assert forall|i: int| 0 <= i < rest.len() implies rest[i] == nearer[i] by {}
        if nearer[last] {
            assert(scanned(floor_ahead, nearer).sphere == Some(last as usize));
            assert(nearer[last]);
        } else {
            assert(scanned(floor_ahead, nearer) == scanned(floor_ahead, rest));
            if exists|i: int| 0 <= i < nearer.len() && nearer[i] {
                let k = choose|i: int| 0 <= i < nearer.len() && nearer[i];
                assert(rest[k]);
                let w = choose|i: int|
                    #![trigger rest[i]]
                    0 <= i < rest.len() && rest[i] && scanned(floor_ahead, rest).sphere == Some(
                        i as usize,
                    ) && forall|j: int| i < j < rest.len() ==> !rest[j];
                assert(nearer[w]);
                assert forall|j: int| w < j < nearer.len() implies !nearer[j] by {
                    if j < last {
                        assert(!rest[j]);
                    }
                }
            }
            if forall|i: int| 0 <= i < nearer.len() ==> !nearer[i] {
                assert forall|i: int| 0 <= i < rest.len() implies !rest[i] by {
                    assert(!nearer[i]);
                }
            }
        }
    }
}

/// Whether a hit point receives direct light: its surface faces the
/// light, and the shadow ray cast toward the light reaches the sky.
pub open spec fn spec_lit(facing_light: bool, shadow: HitKind) -> bool {
    facing_light && shadow == HitKind::Sky
}

pub fn is_lit(facing_light: bool, shadow: HitKind) -> (r: bool)
    ensures
        r == spec_lit(facing_light, shadow),
{
    facing_light && matches!(shadow, HitKind::Sky)
}

/// Whether a reflection ray is traced from recursion depth `depth`:
/// always without a limit, else only below it.
pub open spec fn spec_may_reflect(depth: u32, limit: Option<u32>) -> bool {
    match limit {
        None => true,
        Some(m) => depth < m,
    }
}

pub fn may_reflect(depth: u32, limit: Option<u32>) -> (r: bool)
    ensures
        r == spec_may_reflect(depth, limit),
{
    match limit {
        None => true,
        Some(m) => depth < m,
    }
}

} // verus!
