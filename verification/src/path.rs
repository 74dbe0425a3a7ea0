//! Paths: ordered sequences of line segments and arcs, with projection,
//! arc-length progress and tangent queries that all agree on the nearest
//! segment (first one in order on ties).

use vstd::prelude::*;

use crate::arc::{arc_forward_spec, arc_length_spec, arc_progress_spec, arc_project_spec, Arc};
use crate::fixed::{add64, Fixed};
use crate::line_segment::{
    seg_forward_spec, seg_length_spec, seg_progress_spec, seg_project_spec, LineSegment,
};
use crate::vec2::{norm_sq_spec, vsub_spec, Vec2};

verus! {

/// One piece of a path.
#[derive(Clone, Copy, Debug)]
pub enum PathSegment {
    LineSegment(LineSegment),
    Arc(Arc),
}

/// A path: a non-empty ordered sequence of segments whose neighbors meet.
#[derive(Clone, Debug)]
pub struct Path {
    pub segments: Vec<PathSegment>,
}

/// Length of one segment.
pub open spec fn pseg_length_spec(s: PathSegment) -> int {
    match s {
        PathSegment::LineSegment(l) => seg_length_spec(l),
        PathSegment::Arc(a) => arc_length_spec(a),
    }
}

/// The point of one segment closest to `p`.
pub open spec fn pseg_project_spec(s: PathSegment, p: Vec2) -> Vec2 {
    match s {
        PathSegment::LineSegment(l) => seg_project_spec(l, p),
        PathSegment::Arc(a) => arc_project_spec(a, p),
    }
}

/// Progress of `p` along one segment.
pub open spec fn pseg_progress_spec(s: PathSegment, p: Vec2) -> int {
    match s {
        PathSegment::LineSegment(l) => seg_progress_spec(l, p),
        PathSegment::Arc(a) => arc_progress_spec(a, p),
    }
}

/// Tangent of one segment under `p`.
pub open spec fn pseg_forward_spec(s: PathSegment, p: Vec2) -> Vec2 {
    match s {
        PathSegment::LineSegment(l) => seg_forward_spec(l),
        PathSegment::Arc(a) => arc_forward_spec(a, p),
    }
}

/// Squared distance from `p` to its projection on one segment.
#[verifier::opaque]
pub open spec fn seg_dist_spec(s: PathSegment, p: Vec2) -> int {
    norm_sq_spec(vsub_spec(p, pseg_project_spec(s, p)))
}

/// The summed length of the first `i` segments, accumulated left to right.
pub open spec fn prefix_len_spec(segs: Seq<PathSegment>, i: int) -> int
    decreases i,
{
    if i <= 0 {
        0
    } else {
        add64(prefix_len_spec(segs, i - 1), pseg_length_spec(segs[i - 1]))
    }
}

/// Total path length.
pub open spec fn path_length_spec(segs: Seq<PathSegment>) -> int {
    prefix_len_spec(segs, segs.len() as int)
}

/// `i` is the first index whose segment minimizes the squared projection
/// distance to `p` over the whole path.
pub open spec fn is_first_nearest(segs: Seq<PathSegment>, p: Vec2, i: int) -> bool {
    &&& 0 <= i < segs.len()
    &&& forall|j: int|
        0 <= j < segs.len() ==> seg_dist_spec(segs[i], p) <= #[trigger] seg_dist_spec(segs[j], p)
    &&& forall|j: int|
        0 <= j < i ==> #[trigger] seg_dist_spec(segs[j], p) > seg_dist_spec(segs[i], p)
}

/// Only one index can be the first nearest.
pub proof fn lemma_first_nearest_unique(segs: Seq<PathSegment>, p: Vec2, i: int, j: int)
    requires
        is_first_nearest(segs, p, i),
        is_first_nearest(segs, p, j),
    ensures
        i == j,
{
    if i < j {
        assert(seg_dist_spec(segs[i], p) > seg_dist_spec(segs[j], p));
    }
    if j < i {
        assert(seg_dist_spec(segs[j], p) > seg_dist_spec(segs[i], p));
    }
}

/// The index of the first segment whose projection of `p` is nearest.
/// Meaningful whenever some index satisfies `is_first_nearest`, which holds
/// for every non-empty path (the projection queries establish it).
pub open spec fn first_nearest_of(segs: Seq<PathSegment>, p: Vec2) -> int {
    choose|i: int| is_first_nearest(segs, p, i)
}

/// The squared distance from `p` to the path.
pub open spec fn path_dist_spec(segs: Seq<PathSegment>, p: Vec2) -> int {
    norm_sq_spec(vsub_spec(p, path_project_spec(segs, p)))
}

/// The projection of `p` onto the path: its projection onto the first
/// nearest segment.
pub open spec fn path_project_spec(segs: Seq<PathSegment>, p: Vec2) -> Vec2 {
    pseg_project_spec(segs[first_nearest_of(segs, p)], p)
}

/// The progress of `p` along the path: the summed length of the segments
/// before the first nearest one, plus the progress along it.
pub open spec fn path_progress_spec(segs: Seq<PathSegment>, p: Vec2) -> int {
    let i = first_nearest_of(segs, p);
    add64(prefix_len_spec(segs, i), pseg_progress_spec(segs[i], p))
}

/// The tangent of the path under `p`: the tangent of the first nearest
/// segment.
pub open spec fn path_forward_spec(segs: Seq<PathSegment>, p: Vec2) -> Vec2 {
    pseg_forward_spec(segs[first_nearest_of(segs, p)], p)
}

impl PathSegment {
    /// Length of the segment.
    pub fn length(&self) -> (r: Fixed)
        ensures
            r@ == pseg_length_spec(*self),
    {
        match self {
            PathSegment::LineSegment(l) => l.length(),
            PathSegment::Arc(a) => a.length(),
        }
    }

    /// The point of the segment closest to `p`.
    pub fn project(&self, p: Vec2) -> (r: Vec2)
        ensures
            r == pseg_project_spec(*self, p),
    {
        match self {
            PathSegment::LineSegment(l) => l.project(p),
            PathSegment::Arc(a) => a.project(p),
        }
    }

    /// Progress of `p` along the segment.
    pub fn progress(&self, p: Vec2) -> (r: Fixed)
        ensures
            r@ == pseg_progress_spec(*self, p),
    {
        match self {
            PathSegment::LineSegment(l) => l.progress(p),
            PathSegment::Arc(a) => a.progress(p),
        }
    }

    /// Tangent of the segment under `p`.
    pub fn forward(&self, p: Vec2) -> (r: Vec2)
        ensures
            r == pseg_forward_spec(*self, p),
    {
        match self {
            PathSegment::LineSegment(l) => l.forward(p),
            PathSegment::Arc(a) => a.forward(p),
        }
    }
}

impl Path {
    /// Total length: the lengths of all segments summed in order.
    pub fn length(&self) -> (r: Fixed)
        ensures
            r@ == path_length_spec(self.segments@),
    {
        let mut acc = Fixed(0);
        let mut k: usize = 0;
        while k < self.segments.len()
            invariant
                k <= self.segments.len(),
                acc@ == prefix_len_spec(self.segments@, k as int),
            decreases self.segments.len() - k,
        {
            acc = acc.add(self.segments[k].length());
            k = k + 1;
        }
        acc
    }

    /// The index of the first segment whose projection of `p` is nearest.
    fn nearest_segment(&self, p: Vec2) -> (r: usize)
        requires
            self.segments.len() > 0,
        ensures
            is_first_nearest(self.segments@, p, r as int),
    {
        let q = self.segments[0].project(p);
        let mut best_d = p.sub(q).norm_squared();
        proof {
            assert(best_d@ == seg_dist_spec(self.segments@[0], p)) by {
                reveal(seg_dist_spec);
            }
        }
        let mut best_i: usize = 0;
        let mut k: usize = 1;
        while k < self.segments.len()
            invariant
                1 <= k <= self.segments.len(),
                best_i < k,
                best_d@ == seg_dist_spec(self.segments@[best_i as int], p),
                forall|j: int|
                    0 <= j < k ==> best_d@ <= #[trigger] seg_dist_spec(self.segments@[j], p),
                forall|j: int|
                    0 <= j < best_i ==> #[trigger] seg_dist_spec(self.segments@[j], p) > best_d@,
            decreases self.segments.len() - k,
        {
            let q = self.segments[k].project(p);
            let d = p.sub(q).norm_squared();
            proof {
                assert(d@ == seg_dist_spec(self.segments@[k as int], p)) by {
                    reveal(seg_dist_spec);
                }
            }
            if d.0 < best_d.0 {
                best_d = d;
                best_i = k;
            }
            k = k + 1;
        }
        best_i
    }

    /// The point of the path closest to `p`: the projection onto the first
    /// segment whose projection minimizes the squared distance over all
    /// segments.
    pub fn project(&self, p: Vec2) -> (r: Vec2)
        requires
            self.segments.len() > 0,
        ensures
            is_first_nearest(self.segments@, p, first_nearest_of(self.segments@, p)),
            r == path_project_spec(self.segments@, p),
    {
        let i = self.nearest_segment(p);
        proof {
            assert(exists|j: int| is_first_nearest(self.segments@, p, j));
            lemma_first_nearest_unique(
                self.segments@,
                p,
                first_nearest_of(self.segments@, p),
                i as int,
            );
        }
        self.segments[i].project(p)
    }

    /// Arc-length progress of `p` along the path: the summed length of the
    /// segments before the nearest one, plus the progress along it.
    pub fn progress(&self, p: Vec2) -> (r: Fixed)
        requires
            self.segments.len() > 0,
        ensures
            is_first_nearest(self.segments@, p, first_nearest_of(self.segments@, p)),
            r@ == path_progress_spec(self.segments@, p),
    {
        let i = self.nearest_segment(p);
        proof {
            assert(exists|j: int| is_first_nearest(self.segments@, p, j));
            lemma_first_nearest_unique(
                self.segments@,
                p,
                first_nearest_of(self.segments@, p),
                i as int,
            );
        }
        let mut acc = Fixed(0);
        let mut k: usize = 0;
        while k < i
            invariant
                k <= i,
                i < self.segments.len(),
                acc@ == prefix_len_spec(self.segments@, k as int),
            decreases i - k,
        {
            acc = acc.add(self.segments[k].length());
            k = k + 1;
        }
        acc.add(self.segments[i].progress(p))
    }

    /// Tangent of the path under `p`: the tangent of the nearest segment.
    pub fn forward(&self, p: Vec2) -> (r: Vec2)
        requires
            self.segments.len() > 0,
        ensures
            is_first_nearest(self.segments@, p, first_nearest_of(self.segments@, p)),
            r == path_forward_spec(self.segments@, p),
    {
        let i = self.nearest_segment(p);
        proof {
            assert(exists|j: int| is_first_nearest(self.segments@, p, j));
            lemma_first_nearest_unique(
                self.segments@,
                p,
                first_nearest_of(self.segments@, p),
                i as int,
            );
        }
        self.segments[i].forward(p)
    }
}

} // verus!
