use vstd::prelude::*;

verus! {

/// One polyline vertex: position and bulge (arc curvature indicator).
///
/// The boundary never interprets coordinate values, it only moves them
/// across; each double-precision scalar is therefore carried as its raw
/// 64-bit pattern.
#[derive(Clone, Copy, PartialEq, Eq, Structural, Debug)]
pub struct Vertex {
    /// Raw 64-bit pattern of the x coordinate.
    pub x: u64,
    /// Raw 64-bit pattern of the y coordinate.
    pub y: u64,
    /// Raw 64-bit pattern of the bulge value; an all-zero pattern is the
    /// bulge of a straight segment.
    pub bulge: u64,
}

/// A boundary-owned polyline value: an ordered vertex sequence plus a flag
/// saying whether the path is closed.
pub struct Pline {
    pub vertices: Vec<Vertex>,
    pub is_closed: bool,
}

/// Mathematical view of a [`Pline`].
#[verifier::ext_equal]
pub ghost struct PlineView {
    pub vertices: Seq<Vertex>,
    pub is_closed: bool,
}

impl View for Pline {
    type V = PlineView;

    open spec fn view(&self) -> PlineView {
        PlineView { vertices: self.vertices@, is_closed: self.is_closed }
    }
}

/// Number of segments of a polyline: none with fewer than two vertices,
/// one per vertex when closed (the last vertex connects back to the first),
/// one less than the vertex count when open.
pub open spec fn seg_count(p: PlineView) -> nat {
    if p.vertices.len() < 2 {
        0
    } else if p.is_closed {
        p.vertices.len()
    } else {
        (p.vertices.len() - 1) as nat
    }
}

impl Pline {
    /// Number of segments of this polyline.
    pub fn segment_count(&self) -> (n: usize)
        ensures
            n == seg_count(self@),
    {
        let vc = self.vertices.len();
        if vc < 2 {
            0
        } else if self.is_closed {
            vc
        } else {
            vc - 1
        }
    }

    /// A value-identical copy: same vertex sequence, same closed flag, held
    /// in a distinct allocation.
    pub fn duplicate(&self) -> (r: Pline)
        ensures
            r@ == self@,
    {
        let mut vertices: Vec<Vertex> = Vec::new();
        let mut i: usize = 0;
        while i < self.vertices.len()
            invariant
                i <= self.vertices@.len(),
                vertices@ =~= self.vertices@.subrange(0, i as int),
            decreases self.vertices@.len() - i,
        {
            vertices.push(self.vertices[i]);
            i = i + 1;
        }
        let r = Pline { vertices, is_closed: self.is_closed };
        proof {
            assert(r@.vertices =~= self@.vertices);
            assert(r@ =~= self@);
        }
        r
    }
}

} // verus!
