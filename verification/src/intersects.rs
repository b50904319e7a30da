use vstd::prelude::*;

use crate::codes::{CODE_INVALID, CODE_NULL_ARG, CODE_OK};
use crate::pline::Pline;
use crate::store::HandleStore;

verus! {

/// One transversal crossing point of two polylines: the originating
/// segment index on each polyline and the crossing point (coordinates as
/// raw 64-bit patterns). Copied out by value: the caller's copy keeps no
/// tie to the collection.
#[derive(Clone, Copy, PartialEq, Eq, Structural, Debug)]
pub struct BasicIntersect {
    pub start_index1: u32,
    pub start_index2: u32,
    pub point_x: u64,
    pub point_y: u64,
}

/// One maximal coincident sub-segment of two polylines: the originating
/// segment index on each polyline and the two endpoints of the shared
/// piece (coordinates as raw 64-bit patterns).
#[derive(Clone, Copy, PartialEq, Eq, Structural, Debug)]
pub struct OverlappingIntersect {
    pub start_index1: u32,
    pub start_index2: u32,
    pub point1_x: u64,
    pub point1_y: u64,
    pub point2_x: u64,
    pub point2_y: u64,
}

/// A boundary-owned result of one pairwise intersection comparison: two
/// independent ordered sequences, fixed once computed, indexed from 0.
pub struct IntersectsResult {
    basic: Vec<BasicIntersect>,
    overlapping: Vec<OverlappingIntersect>,
}

/// Mathematical view of an [`IntersectsResult`].
#[verifier::ext_equal]
pub ghost struct IntersectsView {
    pub basic: Seq<BasicIntersect>,
    pub overlapping: Seq<OverlappingIntersect>,
}

impl View for IntersectsResult {
    type V = IntersectsView;

    closed spec fn view(&self) -> IntersectsView {
        IntersectsView { basic: self.basic@, overlapping: self.overlapping@ }
    }
}

impl IntersectsResult {
    /// Both sequences are short enough for their counts to be reported as
    /// unsigned 32-bit integers.
    #[verifier::type_invariant]
    spec fn counts_fit(self) -> bool {
        self.basic@.len() <= u32::MAX && self.overlapping@.len() <= u32::MAX
    }
}

/// Full result of a count query on either sequence of an intersection
/// collection, given that sequence's length: code 1 with no write on a
/// null collection handle, else the count.
pub open spec fn count_spec(r: Option<IntersectsView>, len: nat) -> (i32, Option<u32>) {
    match r {
        None => (CODE_NULL_ARG, None),
        Some(_) => (CODE_OK, Some(len as u32)),
    }
}

/// Full result of an indexed get on the basic-intersect sequence: code 1
/// with no write on a null collection handle, code 2 with no write when
/// `index` is at or beyond the count, else a by-value copy of the record
/// at `index`.
pub open spec fn get_basic_spec(r: Option<IntersectsView>, index: u32) -> (
    i32,
    Option<BasicIntersect>,
) {
    match r {
        None => (CODE_NULL_ARG, None),
        Some(rv) => if index >= rv.basic.len() {
            (CODE_INVALID, None)
        } else {
            (CODE_OK, Some(rv.basic[index as int]))
        },
    }
}

/// Full result of an indexed get on the overlapping-intersect sequence;
/// same shape as [`get_basic_spec`].
pub open spec fn get_overlapping_spec(r: Option<IntersectsView>, index: u32) -> (
    i32,
    Option<OverlappingIntersect>,
) {
    match r {
        None => (CODE_NULL_ARG, None),
        Some(rv) => if index >= rv.overlapping.len() {
            (CODE_INVALID, None)
        } else {
            (CODE_OK, Some(rv.overlapping[index as int]))
        },
    }
}

/// Pairwise intersection finding. `basic` and `overlapping` are the two
/// sequences discovered by the geometry collaborator for the polylines
/// behind `h1` and `h2` (consulted only when both handles are live);
/// segment-index attribution follows the caller's argument order. If
/// either handle is null nothing is created; otherwise a brand new
/// collection handle owning exactly the two sequences is issued.
pub fn pline_find_intersects(
    plines: &HandleStore<Pline>,
    results: &mut HandleStore<IntersectsResult>,
    h1: usize,
    h2: usize,
    basic: Vec<BasicIntersect>,
    overlapping: Vec<OverlappingIntersect>,
) -> (res: (i32, Option<usize>))
    requires
        old(results).slots().len() < usize::MAX,
        basic@.len() <= u32::MAX,
        overlapping@.len() <= u32::MAX,
    ensures
        !(plines.valid(h1) && plines.valid(h2)) ==> res == (
            CODE_NULL_ARG,
            None::<usize>,
        ) && final(results).slots() =~= old(results).slots(),
        plines.valid(h1) && plines.valid(h2) ==> {
            &&& res.0 == CODE_OK
            &&& res.1 == Some((old(results).slots().len() + 1) as usize)
            &&& final(results).slots() =~= old(results).slots().push(
                Some(IntersectsView { basic: basic@, overlapping: overlapping@ }),
            )
        },
{
    let first = plines.get(h1);
    let second = plines.get(h2);
    if first.is_none() || second.is_none() {
        return (CODE_NULL_ARG, None);
    }
    let collection = IntersectsResult { basic, overlapping };
    let nh = results.insert(collection);
    (CODE_OK, Some(nh))
}

/// Count query on the basic-intersect sequence of the collection behind
/// `h`.
pub fn intersects_basic_count(results: &HandleStore<IntersectsResult>, h: usize) -> (res: (
    i32,
    Option<u32>,
))
    ensures
        res == count_spec(results.lookup(h), results.lookup(h)->0.basic.len()),
{
    match results.get(h) {
        None => (CODE_NULL_ARG, None),
        Some(r) => {
            proof {
                use_type_invariant(r);
            }
            (CODE_OK, Some(r.basic.len() as u32))
        },
    }
}

/// Count query on the overlapping-intersect sequence of the collection
/// behind `h`.
pub fn intersects_overlapping_count(results: &HandleStore<IntersectsResult>, h: usize) -> (res: (
    i32,
    Option<u32>,
))
    ensures
        res == count_spec(results.lookup(h), results.lookup(h)->0.overlapping.len()),
{
    match results.get(h) {
        None => (CODE_NULL_ARG, None),
        Some(r) => {
            proof {
                use_type_invariant(r);
            }
            (CODE_OK, Some(r.overlapping.len() as u32))
        },
    }
}

/// Indexed get on the basic-intersect sequence of the collection behind
/// `h`.
pub fn intersects_get_basic(results: &HandleStore<IntersectsResult>, h: usize, index: u32) -> (res:
    (i32, Option<BasicIntersect>))
    ensures
        res == get_basic_spec(results.lookup(h), index),
{
    match results.get(h) {
        None => (CODE_NULL_ARG, None),
        Some(r) => {
            proof {
                use_type_invariant(r);
            }
            if index as usize >= r.basic.len() {
                (CODE_INVALID, None)
            } else {
                (CODE_OK, Some(r.basic[index as usize]))
            }
        },
    }
}

/// Indexed get on the overlapping-intersect sequence of the collection
/// behind `h`.
pub fn intersects_get_overlapping(
    results: &HandleStore<IntersectsResult>,
    h: usize,
    index: u32,
) -> (res: (i32, Option<OverlappingIntersect>))
    ensures
        res == get_overlapping_spec(results.lookup(h), index),
{
    match results.get(h) {
        None => (CODE_NULL_ARG, None),
        Some(r) => {
            proof {
                use_type_invariant(r);
            }
            if index as usize >= r.overlapping.len() {
                (CODE_INVALID, None)
            } else {
                (CODE_OK, Some(r.overlapping[index as usize]))
            }
        },
    }
}

/// Release of an intersection collection: reclaims both sequences and the
/// slot itself. A null (or already released) handle is a no-op, not an
/// error; every other collection is left untouched.
pub fn intersects_release(results: &mut HandleStore<IntersectsResult>, h: usize)
    ensures
        old(results).valid(h) ==> final(results).slots() =~= old(results).slots().update(
            h - 1,
            None,
        ),
        !old(results).valid(h) ==> final(results).slots() =~= old(results).slots(),
        !final(results).valid(h),
{
    results.remove(h);
}

} // verus!

