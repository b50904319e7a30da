use cavc_boundary::codes::{CODE_FAULT, CODE_INVALID, CODE_NULL_ARG, CODE_OK};
use cavc_boundary::intersects::{
    intersects_basic_count, intersects_get_basic, intersects_get_overlapping,
    intersects_overlapping_count, intersects_release, pline_find_intersects, BasicIntersect,
    IntersectsResult, OverlappingIntersect,
};
use cavc_boundary::ops::{
    pline_arcs_to_approx_lines, pline_closest_point, pline_find_point_at_path_length,
    pline_orientation, pline_rotate_start, ClosestHit, PathPoint,
};
use cavc_boundary::pline::{Pline, Vertex};
use cavc_boundary::store::HandleStore;

fn vtx(x: f64, y: f64, bulge: f64) -> Vertex {
    Vertex {
        x: x.to_bits(),
        y: y.to_bits(),
        bulge: bulge.to_bits(),
    }
}

fn open_segment() -> Pline {
    Pline {
        vertices: vec![vtx(0.0, 0.0, 0.0), vtx(10.0, 0.0, 0.0)],
        is_closed: false,
    }
}

fn closed_square() -> Pline {
    Pline {
        vertices: vec![
            vtx(0.0, 0.0, 0.0),
            vtx(1.0, 0.0, 0.0),
            vtx(1.0, 1.0, 0.0),
            vtx(0.0, 1.0, 0.0),
        ],
        is_closed: true,
    }
}

#[test]
fn null_handle_rejected_everywhere() {
    let mut plines: HandleStore<Pline> = HandleStore::new();
    let mut results: HandleStore<IntersectsResult> = HandleStore::new();

    assert_eq!(pline_orientation(&plines, 0, true), (CODE_NULL_ARG, None));
    assert_eq!(
        pline_closest_point(&plines, 0, Some(ClosestHit { seg_start_index: 0, x: 0, y: 0, distance: 0 })),
        (CODE_NULL_ARG, None)
    );
    assert_eq!(
        pline_find_point_at_path_length(&plines, 0, None),
        (CODE_NULL_ARG, None)
    );
    assert_eq!(
        pline_arcs_to_approx_lines(&mut plines, 0, None),
        (CODE_NULL_ARG, None)
    );
    assert_eq!(pline_rotate_start(&mut plines, 0, 0, None), CODE_NULL_ARG);
    assert_eq!(
        pline_find_intersects(&plines, &mut results, 0, 0, Vec::new(), Vec::new()),
        (CODE_NULL_ARG, None)
    );
    assert_eq!(intersects_basic_count(&results, 0), (CODE_NULL_ARG, None));
    assert_eq!(intersects_overlapping_count(&results, 0), (CODE_NULL_ARG, None));
    assert_eq!(intersects_get_basic(&results, 0, 0), (CODE_NULL_ARG, None));
    assert_eq!(intersects_get_overlapping(&results, 0, 0), (CODE_NULL_ARG, None));
    assert_eq!(plines.slot_count(), 0);
    assert_eq!(results.slot_count(), 0);
}

#[test]
fn stale_handle_rejected_after_release() {
    let mut plines: HandleStore<Pline> = HandleStore::new();
    let h = plines.insert(open_segment());
    assert_eq!(pline_orientation(&plines, h, false), (CODE_OK, Some(0)));
    plines.remove(h);
    assert_eq!(pline_orientation(&plines, h, false), (CODE_NULL_ARG, None));
    // Double release is a no-op, and the handle is never reissued.
    plines.remove(h);
    let h2 = plines.insert(open_segment());
    assert_ne!(h2, h);
    assert_eq!(pline_orientation(&plines, h, false), (CODE_NULL_ARG, None));
}

#[test]
fn orientation_of_empty_polyline_is_open() {
    let mut plines: HandleStore<Pline> = HandleStore::new();
    let h = plines.insert(Pline { vertices: Vec::new(), is_closed: false });
    assert_eq!(pline_orientation(&plines, h, true), (CODE_OK, Some(0)));
    assert_eq!(pline_orientation(&plines, h, false), (CODE_OK, Some(0)));
}

#[test]
fn orientation_of_closed_polyline_follows_area_sign() {
    let mut plines: HandleStore<Pline> = HandleStore::new();
    let h = plines.insert(closed_square());
    assert_eq!(pline_orientation(&plines, h, false), (CODE_OK, Some(2)));
    assert_eq!(pline_orientation(&plines, h, true), (CODE_OK, Some(1)));
}

#[test]
fn closest_point_on_zero_segment_polyline_is_invalid() {
    let mut plines: HandleStore<Pline> = HandleStore::new();
    let empty = plines.insert(Pline { vertices: Vec::new(), is_closed: false });
    let single = plines.insert(Pline {
        vertices: vec![vtx(1.0, 1.0, 0.0)],
        is_closed: false,
    });
    let hit = ClosestHit { seg_start_index: 0, x: 0, y: 0, distance: 0 };
    assert_eq!(pline_closest_point(&plines, empty, Some(hit)), (CODE_INVALID, None));
    assert_eq!(pline_closest_point(&plines, empty, None), (CODE_INVALID, None));
    assert_eq!(pline_closest_point(&plines, single, Some(hit)), (CODE_INVALID, None));
}

#[test]
fn closest_point_marshals_collaborator_hit() {
    let mut plines: HandleStore<Pline> = HandleStore::new();
    let h = plines.insert(open_segment());
    let hit = ClosestHit {
        seg_start_index: 0,
        x: (5.0f64).to_bits(),
        y: (0.0f64).to_bits(),
        distance: (2.0f64).to_bits(),
    };
    assert_eq!(pline_closest_point(&plines, h, Some(hit)), (CODE_OK, Some(hit)));
    assert_eq!(pline_closest_point(&plines, h, None), (CODE_INVALID, None));
}

#[test]
fn path_length_lookup_marshals_collaborator_answer() {
    let mut plines: HandleStore<Pline> = HandleStore::new();
    let empty = plines.insert(Pline { vertices: Vec::new(), is_closed: false });
    let h = plines.insert(open_segment());
    let pt = PathPoint {
        seg_index: 0,
        x: (5.0f64).to_bits(),
        y: (0.0f64).to_bits(),
    };
    assert_eq!(pline_find_point_at_path_length(&plines, empty, Some(pt)), (CODE_INVALID, None));
    assert_eq!(pline_find_point_at_path_length(&plines, h, Some(pt)), (CODE_OK, Some(pt)));
    assert_eq!(pline_find_point_at_path_length(&plines, h, None), (CODE_INVALID, None));
}

#[test]
fn linearization_issues_fresh_value_identical_handle() {
    let mut plines: HandleStore<Pline> = HandleStore::new();
    let h = plines.insert(closed_square());
    let (code, out) = pline_arcs_to_approx_lines(&mut plines, h, None);
    assert_eq!(code, CODE_OK);
    let nh = out.unwrap();
    assert_ne!(nh, h);
    let input = plines.get(h).unwrap();
    let copy = plines.get(nh).unwrap();
    assert_eq!(copy.vertices, input.vertices);
    assert_eq!(copy.is_closed, input.is_closed);
}

#[test]
fn linearization_uses_collaborator_result_when_present() {
    let mut plines: HandleStore<Pline> = HandleStore::new();
    let h = plines.insert(closed_square());
    let linearized = Pline {
        vertices: vec![vtx(0.0, 0.0, 0.0), vtx(1.0, 0.0, 0.0), vtx(0.0, 1.0, 0.0)],
        is_closed: true,
    };
    let expected = linearized.vertices.clone();
    let (code, out) = pline_arcs_to_approx_lines(&mut plines, h, Some(linearized));
    assert_eq!(code, CODE_OK);
    let nh = out.unwrap();
    assert_ne!(nh, h);
    assert_eq!(plines.get(nh).unwrap().vertices, expected);
    // The input handle is untouched.
    assert_eq!(plines.get(h).unwrap().vertices, closed_square().vertices);
}

#[test]
fn rotate_start_on_open_polyline_is_invalid_and_unchanged() {
    let mut plines: HandleStore<Pline> = HandleStore::new();
    let h = plines.insert(open_segment());
    let before = plines.get(h).unwrap().vertices.clone();
    let rotated = Pline {
        vertices: vec![vtx(9.0, 9.0, 0.0), vtx(8.0, 8.0, 0.0)],
        is_closed: true,
    };
    assert_eq!(pline_rotate_start(&mut plines, h, 0, Some(rotated)), CODE_INVALID);
    let after = plines.get(h).unwrap();
    assert_eq!(after.vertices, before);
    assert!(!after.is_closed);
}

#[test]
fn rotate_start_with_out_of_range_index_is_invalid() {
    let mut plines: HandleStore<Pline> = HandleStore::new();
    let h = plines.insert(closed_square());
    let rotated = closed_square();
    assert_eq!(pline_rotate_start(&mut plines, h, 4, Some(rotated)), CODE_INVALID);
    assert_eq!(plines.get(h).unwrap().vertices, closed_square().vertices);
}

#[test]
fn rotate_start_replaces_contents_in_place() {
    let mut plines: HandleStore<Pline> = HandleStore::new();
    let h = plines.insert(closed_square());
    let rotated = Pline {
        vertices: vec![
            vtx(1.0, 0.0, 0.0),
            vtx(1.0, 1.0, 0.0),
            vtx(0.0, 1.0, 0.0),
            vtx(0.0, 0.0, 0.0),
        ],
        is_closed: true,
    };
    let expected = rotated.vertices.clone();
    assert_eq!(pline_rotate_start(&mut plines, h, 1, Some(rotated)), CODE_OK);
    assert_eq!(plines.get(h).unwrap().vertices, expected);
}

#[test]
fn rotate_start_without_collaborator_result_is_invalid() {
    let mut plines: HandleStore<Pline> = HandleStore::new();
    let h = plines.insert(closed_square());
    assert_eq!(pline_rotate_start(&mut plines, h, 1, None), CODE_INVALID);
    assert_eq!(plines.get(h).unwrap().vertices, closed_square().vertices);
}

#[test]
fn find_intersects_needs_both_handles() {
    let mut plines: HandleStore<Pline> = HandleStore::new();
    let mut results: HandleStore<IntersectsResult> = HandleStore::new();
    let h = plines.insert(closed_square());
    assert_eq!(
        pline_find_intersects(&plines, &mut results, h, 0, Vec::new(), Vec::new()),
        (CODE_NULL_ARG, None)
    );
    assert_eq!(
        pline_find_intersects(&plines, &mut results, 0, h, Vec::new(), Vec::new()),
        (CODE_NULL_ARG, None)
    );
    assert_eq!(results.slot_count(), 0);
}

#[test]
fn intersection_collection_indexed_access() {
    let mut plines: HandleStore<Pline> = HandleStore::new();
    let mut results: HandleStore<IntersectsResult> = HandleStore::new();
    let h1 = plines.insert(open_segment());
    let h2 = plines.insert(closed_square());
    let b0 = BasicIntersect {
        start_index1: 0,
        start_index2: 3,
        point_x: (0.5f64).to_bits(),
        point_y: (0.0f64).to_bits(),
    };
    let b1 = BasicIntersect {
        start_index1: 1,
        start_index2: 2,
        point_x: (1.0f64).to_bits(),
        point_y: (1.0f64).to_bits(),
    };
    let o0 = OverlappingIntersect {
        start_index1: 0,
        start_index2: 0,
        point1_x: (0.0f64).to_bits(),
        point1_y: (0.0f64).to_bits(),
        point2_x: (1.0f64).to_bits(),
        point2_y: (0.0f64).to_bits(),
    };
    let (code, out) =
        pline_find_intersects(&plines, &mut results, h1, h2, vec![b0, b1], vec![o0]);
    assert_eq!(code, CODE_OK);
    let rh = out.unwrap();

    assert_eq!(intersects_basic_count(&results, rh), (CODE_OK, Some(2)));
    assert_eq!(intersects_overlapping_count(&results, rh), (CODE_OK, Some(1)));
    assert_eq!(intersects_get_basic(&results, rh, 0), (CODE_OK, Some(b0)));
    assert_eq!(intersects_get_basic(&results, rh, 1), (CODE_OK, Some(b1)));
    // Index equal to the count: out of range.
    assert_eq!(intersects_get_basic(&results, rh, 2), (CODE_INVALID, None));
    assert_eq!(intersects_get_overlapping(&results, rh, 0), (CODE_OK, Some(o0)));
    assert_eq!(intersects_get_overlapping(&results, rh, 1), (CODE_INVALID, None));
}

#[test]
fn intersection_collection_release_is_final_and_null_tolerant() {
    let mut plines: HandleStore<Pline> = HandleStore::new();
    let mut results: HandleStore<IntersectsResult> = HandleStore::new();
    let h1 = plines.insert(open_segment());
    let h2 = plines.insert(open_segment());
    let (code, out) =
        pline_find_intersects(&plines, &mut results, h1, h2, Vec::new(), Vec::new());
    assert_eq!(code, CODE_OK);
    let rh = out.unwrap();
    assert_eq!(intersects_basic_count(&results, rh), (CODE_OK, Some(0)));

    // Null release is a no-op.
    intersects_release(&mut results, 0);
    assert_eq!(intersects_basic_count(&results, rh), (CODE_OK, Some(0)));

    intersects_release(&mut results, rh);
    assert_eq!(intersects_basic_count(&results, rh), (CODE_NULL_ARG, None));
    // A second release of the same handle is tolerated.
    intersects_release(&mut results, rh);
}

#[test]
fn operation_codes_never_use_the_fault_sentinel() {
    let mut plines: HandleStore<Pline> = HandleStore::new();
    let h = plines.insert(closed_square());
    let codes = vec![
        pline_orientation(&plines, 0, false).0,
        pline_orientation(&plines, h, false).0,
        pline_closest_point(&plines, h, None).0,
        pline_rotate_start(&mut plines, h, 9, None),
        pline_find_point_at_path_length(&plines, h, None).0,
    ];
    for code in codes {
        assert!(code == CODE_OK || code == CODE_NULL_ARG || code == CODE_INVALID);
        assert_ne!(code, CODE_FAULT);
    }
}

#[test]
fn segment_count_counts_the_closing_segment() {
    let empty = Pline { vertices: Vec::new(), is_closed: false };
    let single = Pline { vertices: vec![vtx(1.0, 1.0, 0.0)], is_closed: false };
    assert_eq!(empty.segment_count(), 0);
    assert_eq!(single.segment_count(), 0);
    assert_eq!(open_segment().segment_count(), 1);
    assert_eq!(closed_square().segment_count(), 4);
    let mut open_square = closed_square();
    open_square.is_closed = false;
    assert_eq!(open_square.segment_count(), 3);
}

#[test]
fn duplicate_is_value_identical() {
    let p = closed_square();
    let d = p.duplicate();
    assert_eq!(d.vertices, p.vertices);
    assert_eq!(d.is_closed, p.is_closed);
}
