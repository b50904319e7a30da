use vstd::prelude::*;

use crate::codes::{CODE_FAULT, CODE_INVALID, CODE_NULL_ARG, CODE_OK};
use crate::intersects::{
    count_spec, get_basic_spec, get_overlapping_spec, BasicIntersect, IntersectsView,
    OverlappingIntersect,
};
use crate::ops::{
    closest_point_spec, orientation_spec, point_at_path_length_spec, rotate_start_code, ClosestHit,
    PathPoint,
};
use crate::pline::{seg_count, PlineView};

verus! {

/// A null (or released) handle makes every operation report code 1 and
/// write nothing, whatever its other arguments hold.
pub proof fn lemma_null_handle_rejected(
    area_negative: bool,
    hit: Option<ClosestHit>,
    found: Option<PathPoint>,
    start_index: u32,
    rotated: Option<PlineView>,
    len: nat,
    index: u32,
)
    ensures
        orientation_spec(None, area_negative) == (CODE_NULL_ARG, None::<u32>),
        closest_point_spec(None, hit) == (CODE_NULL_ARG, None::<ClosestHit>),
        point_at_path_length_spec(None, found) == (CODE_NULL_ARG, None::<PathPoint>),
        rotate_start_code(None, start_index, rotated) == CODE_NULL_ARG,
        count_spec(None, len) == (CODE_NULL_ARG, None::<u32>),
        get_basic_spec(None, index) == (CODE_NULL_ARG, None::<BasicIntersect>),
        get_overlapping_spec(None, index) == (CODE_NULL_ARG, None::<OverlappingIntersect>),
{
}

/// Every code an operation can report is one of 0, 1 and 2; none ever
/// collides with the reserved fault sentinel of the failure barrier.
pub proof fn lemma_codes_never_fault(
    p: Option<PlineView>,
    r: Option<IntersectsView>,
    area_negative: bool,
    hit: Option<ClosestHit>,
    found: Option<PathPoint>,
    start_index: u32,
    rotated: Option<PlineView>,
    len: nat,
    index: u32,
)
    ensures
        in_op_codes(orientation_spec(p, area_negative).0),
        in_op_codes(closest_point_spec(p, hit).0),
        in_op_codes(point_at_path_length_spec(p, found).0),
        in_op_codes(rotate_start_code(p, start_index, rotated)),
        in_op_codes(count_spec(r, len).0),
        in_op_codes(get_basic_spec(r, index).0),
        in_op_codes(get_overlapping_spec(r, index).0),
{
}

/// The per-operation status codes, all distinct from the fault sentinel.
pub open spec fn in_op_codes(code: i32) -> bool {
    (code == CODE_OK || code == CODE_NULL_ARG || code == CODE_INVALID) && code != CODE_FAULT
}

/// A closest-point query on a live polyline with zero segments reports
/// code 2 and writes nothing, whatever the query point was and whatever
/// the collaborator would have answered.
pub proof fn lemma_closest_point_no_segments(p: PlineView, hit: Option<ClosestHit>)
    requires
        seg_count(p) == 0,
    ensures
        closest_point_spec(Some(p), hit) == (CODE_INVALID, None::<ClosestHit>),
{
}

/// A start rotation aimed at a live but open polyline reports code 2,
/// whatever the index and whatever the collaborator would have answered;
/// together with `pline_rotate_start`'s frame condition the handle's
/// contents are then left unchanged.
pub proof fn lemma_rotate_open_rejected(p: PlineView, start_index: u32, rotated: Option<PlineView>)
    requires
        !p.is_closed,
    ensures
        rotate_start_code(Some(p), start_index, rotated) == CODE_INVALID,
{
}

/// An indexed get at an index at or past the sequence's count reports
/// code 2 and writes nothing; at any smaller index it reports code 0 and
/// copies out exactly the record stored there.
pub proof fn lemma_get_bounds(r: IntersectsView, index: u32)
    ensures
        index >= r.basic.len() ==> get_basic_spec(Some(r), index) == (
            CODE_INVALID,
            None::<BasicIntersect>,
        ),
        index < r.basic.len() ==> get_basic_spec(Some(r), index) == (
            CODE_OK,
            Some(r.basic[index as int]),
        ),
        index >= r.overlapping.len() ==> get_overlapping_spec(Some(r), index) == (
            CODE_INVALID,
            None::<OverlappingIntersect>,
        ),
        index < r.overlapping.len() ==> get_overlapping_spec(Some(r), index) == (
            CODE_OK,
            Some(r.overlapping[index as int]),
        ),
{
}

} // verus!
