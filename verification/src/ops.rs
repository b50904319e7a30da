use vstd::prelude::*;

use crate::codes::{CODE_INVALID, CODE_NULL_ARG, CODE_OK};
use crate::pline::{seg_count, Pline, PlineView};
use crate::store::HandleStore;

verus! {

/// Outcome of a closest-point query, as reported by the geometry
/// collaborator: the segment holding the closest point, the point itself,
/// and the distance to it (scalars as raw 64-bit patterns).
#[derive(Clone, Copy, PartialEq, Eq, Structural, Debug)]
pub struct ClosestHit {
    pub seg_start_index: u32,
    pub x: u64,
    pub y: u64,
    pub distance: u64,
}

/// Outcome of a path-length lookup: the segment holding the point at the
/// target arc length, and the point itself (scalars as raw 64-bit
/// patterns).
#[derive(Clone, Copy, PartialEq, Eq, Structural, Debug)]
pub struct PathPoint {
    pub seg_index: u32,
    pub x: u64,
    pub y: u64,
}

/// Orientation classification written through the orientation query's
/// output pointer: 0 = Open, 1 = Clockwise, 2 = CounterClockwise.
pub open spec fn orientation_class(p: PlineView, area_negative: bool) -> u32 {
    if !p.is_closed || seg_count(p) == 0 {
        0u32
    } else if area_negative {
        1u32
    } else {
        2u32
    }
}

/// Full result of the orientation query: status code and the value to
/// write, if any. An open or degenerate (segment-free) polyline is Open;
/// a closed one is classified by the sign of its signed area, which only
/// the collaborator can compute.
pub open spec fn orientation_spec(p: Option<PlineView>, area_negative: bool) -> (i32, Option<
    u32,
>) {
    match p {
        None => (CODE_NULL_ARG, None),
        Some(pv) => (CODE_OK, Some(orientation_class(pv, area_negative))),
    }
}

/// Full result of the closest-point query. A null handle is rejected
/// before anything else; a polyline with no segments has no closest point;
/// otherwise the collaborator's answer (`hit`) is marshaled out as is.
pub open spec fn closest_point_spec(p: Option<PlineView>, hit: Option<ClosestHit>) -> (
    i32,
    Option<ClosestHit>,
) {
    match p {
        None => (CODE_NULL_ARG, None),
        Some(pv) => if seg_count(pv) == 0 {
            (CODE_INVALID, None)
        } else {
            match hit {
                Some(r) => (CODE_OK, Some(r)),
                None => (CODE_INVALID, None),
            }
        },
    }
}

/// Full result of the path-length point lookup. A null handle is rejected
/// first; an empty polyline has no point at any length; otherwise the
/// collaborator's answer (`found`, `None` when the target length exceeds
/// the total path length) is marshaled out as is.
pub open spec fn point_at_path_length_spec(p: Option<PlineView>, found: Option<PathPoint>) -> (
    i32,
    Option<PathPoint>,
) {
    match p {
        None => (CODE_NULL_ARG, None),
        Some(pv) => if pv.vertices.len() == 0 {
            (CODE_INVALID, None)
        } else {
            match found {
                Some(pt) => (CODE_OK, Some(pt)),
                None => (CODE_INVALID, None),
            }
        },
    }
}

/// Contents of the new handle produced by arc linearization: the
/// collaborator's linearized polyline when it produced one, else a
/// value-identical copy of the input.
pub open spec fn linearized_contents(p: PlineView, linearized: Option<PlineView>) -> PlineView {
    match linearized {
        Some(l) => l,
        None => p,
    }
}

/// Status code of start rotation before the collaborator is consulted:
/// rotation is defined only for a closed polyline with at least two
/// vertices and a start segment index in range.
pub open spec fn rotate_target_ok(p: PlineView, start_index: u32) -> bool {
    p.is_closed && p.vertices.len() >= 2 && start_index < p.vertices.len()
}

/// Full status code of start rotation. A null handle is rejected first;
/// an open polyline or an out-of-range index is an invalid target; an
/// in-range target succeeds exactly when the collaborator produced a
/// rotated polyline (`rotated`).
pub open spec fn rotate_start_code(
    p: Option<PlineView>,
    start_index: u32,
    rotated: Option<PlineView>,
) -> i32 {
    match p {
        None => CODE_NULL_ARG,
        Some(pv) => if !rotate_target_ok(pv, start_index) {
            CODE_INVALID
        } else if rotated is Some {
            CODE_OK
        } else {
            CODE_INVALID
        },
    }
}

/// View of an optional polyline value.
pub open spec fn opt_view(p: Option<Pline>) -> Option<PlineView> {
    match p {
        Some(pl) => Some(pl@),
        None => None,
    }
}

/// Orientation query. `area_negative` is the collaborator's report on the
/// sign of the polyline's signed area (meaningful only for a closed,
/// non-degenerate polyline; ignored otherwise).
pub fn pline_orientation(store: &HandleStore<Pline>, h: usize, area_negative: bool) -> (res: (
    i32,
    Option<u32>,
))
    ensures
        res == orientation_spec(store.lookup(h), area_negative),
{
    match store.get(h) {
        None => (CODE_NULL_ARG, None),
        Some(p) => {
            let class: u32 = if !p.is_closed || p.segment_count() == 0 {
                0
            } else if area_negative {
                1
            } else {
                2
            };
            (CODE_OK, Some(class))
        },
    }
}

/// Closest-point query. `hit` is the collaborator's answer for the
/// polyline behind `h` (consulted only when the handle is live and the
/// polyline has segments).
pub fn pline_closest_point(store: &HandleStore<Pline>, h: usize, hit: Option<ClosestHit>) -> (res: (
    i32,
    Option<ClosestHit>,
))
    ensures
        res == closest_point_spec(store.lookup(h), hit),
{
    match store.get(h) {
        None => (CODE_NULL_ARG, None),
        Some(p) => {
            if p.segment_count() == 0 {
                (CODE_INVALID, None)
            } else {
                match hit {
                    Some(r) => (CODE_OK, Some(r)),
                    None => (CODE_INVALID, None),
                }
            }
        },
    }
}

/// Path-length point lookup. `found` is the collaborator's answer for the
/// polyline behind `h` (consulted only when the handle is live and the
/// polyline is non-empty).
pub fn pline_find_point_at_path_length(
    store: &HandleStore<Pline>,
    h: usize,
    found: Option<PathPoint>,
) -> (res: (i32, Option<PathPoint>))
    ensures
        res == point_at_path_length_spec(store.lookup(h), found),
{
    match store.get(h) {
        None => (CODE_NULL_ARG, None),
        Some(p) => {
            if p.vertices.len() == 0 {
                (CODE_INVALID, None)
            } else {
                match found {
                    Some(pt) => (CODE_OK, Some(pt)),
                    None => (CODE_INVALID, None),
                }
            }
        },
    }
}

/// Arc linearization. `linearized` is the collaborator's approximation of
/// the polyline behind `h` (or `None` when it produced nothing, in which
/// case a value-identical copy of the input is used). On success a brand
/// new handle is issued — never the input handle — and the input polyline
/// is left untouched; on a null handle nothing is created or changed.
pub fn pline_arcs_to_approx_lines(
    store: &mut HandleStore<Pline>,
    h: usize,
    linearized: Option<Pline>,
) -> (res: (i32, Option<usize>))
    requires
        old(store).slots().len() < usize::MAX,
    ensures
        res.0 == if old(store).lookup(h) is Some {
            CODE_OK
        } else {
            CODE_NULL_ARG
        },
        old(store).lookup(h) is None ==> res.1 is None && final(store).slots() =~= old(
            store,
        ).slots(),
        old(store).lookup(h) is Some ==> {
            &&& res.1 == Some((old(store).slots().len() + 1) as usize)
            &&& res.1 != Some(h)
            &&& final(store).slots() =~= old(store).slots().push(
                Some(linearized_contents(old(store).value(h), opt_view(linearized))),
            )
            &&& final(store).lookup(h) == old(store).lookup(h)
        },
{
    let dup: Option<Pline> = match store.get(h) {
        None => None,
        Some(p) => {
            match linearized {
                Some(l) => Some(l),
                None => Some(p.duplicate()),
            }
        },
    };
    match dup {
        None => (CODE_NULL_ARG, None),
        Some(out) => {
            let nh = store.insert(out);
            (CODE_OK, Some(nh))
        },
    }
}

/// Start rotation, in place. `rotated` is the collaborator's re-indexed
/// polyline for the rotation target (consulted only when the handle is
/// live and the target is well formed). On success the handle's contents
/// are replaced, keeping the handle's identity; on any error the registry
/// — in particular the polyline behind `h` — is left entirely unchanged.
pub fn pline_rotate_start(
    store: &mut HandleStore<Pline>,
    h: usize,
    start_index: u32,
    rotated: Option<Pline>,
) -> (code: i32)
    ensures
        code == rotate_start_code(old(store).lookup(h), start_index, opt_view(rotated)),
        code == CODE_OK ==> final(store).slots() =~= old(store).slots().update(
            h - 1,
            Some(rotated->0@),
        ),
        code != CODE_OK ==> final(store).slots() =~= old(store).slots(),
{
    let target_ok: bool = match store.get(h) {
        None => { return CODE_NULL_ARG },
        Some(p) => p.is_closed && p.vertices.len() >= 2 && (start_index as usize)
            < p.vertices.len(),
    };
    if !target_ok {
        return CODE_INVALID;
    }
    match rotated {
        None => CODE_INVALID,
        Some(r) => {
            store.replace(h, r);
            CODE_OK
        },
    }
}

} // verus!

