use vstd::prelude::*;

verus! {

/// A point in map or screen space, in whole units.
#[derive(Clone, Copy, Debug, PartialEq, Eq, Structural)]
pub struct Pt2D {
    pub x: i32,
    pub y: i32,
}

impl Pt2D {
    pub fn new(x: i32, y: i32) -> (r: Pt2D)
        ensures
            r.x == x,
            r.y == y,
    {
        Pt2D { x, y }
    }
}

/// An axis-aligned bounding box.
#[derive(Clone, Copy, Debug, PartialEq, Eq, Structural)]
pub struct Bounds {
    pub min_x: i32,
    pub min_y: i32,
    pub max_x: i32,
    pub max_y: i32,
}

pub open spec fn min_of(s: Seq<int>) -> int
    decreases s.len(),
{
    if s.len() == 0 {
        0
    } else if s.len() == 1 {
        s[0]
    } else {
        let m = min_of(s.drop_last());
        if s.last() < m { s.last() } else { m }
    }
}

pub open spec fn max_of(s: Seq<int>) -> int
    decreases s.len(),
{
    if s.len() == 0 {
        0
    } else if s.len() == 1 {
        s[0]
    } else {
        let m = max_of(s.drop_last());
        if s.last() > m { s.last() } else { m }
    }
}

pub open spec fn xs(pts: Seq<Pt2D>) -> Seq<int> {
    pts.map_values(|p: Pt2D| p.x as int)
}

pub open spec fn ys(pts: Seq<Pt2D>) -> Seq<int> {
    pts.map_values(|p: Pt2D| p.y as int)
}

/// The smallest box holding every point.
pub open spec fn bounds_of(pts: Seq<Pt2D>) -> Bounds {
    Bounds {
        min_x: min_of(xs(pts)) as i32,
        min_y: min_of(ys(pts)) as i32,
        max_x: max_of(xs(pts)) as i32,
        max_y: max_of(ys(pts)) as i32,
    }
}

/// Every element of a non-empty sequence lies between its minimum and maximum,
/// and both are elements of it.
pub proof fn lemma_min_max(s: Seq<int>)
    requires
        s.len() > 0,
    ensures
        forall|i: int| 0 <= i < s.len() ==> min_of(s) <= #[trigger] s[i] <= max_of(s),
        exists|i: int| 0 <= i < s.len() && s[i] == min_of(s),
        exists|i: int| 0 <= i < s.len() && s[i] == max_of(s),
    decreases s.len(),
{
    if s.len() > 1 {
        let t = s.drop_last();
        lemma_min_max(t);
        assert forall|i: int| 0 <= i < s.len() implies min_of(s) <= #[trigger] s[i] <= max_of(s) by {
            if i < s.len() - 1 {
                assert(s[i] == t[i]);
            }
        }
        let w1 = choose|i: int| 0 <= i < t.len() && t[i] == min_of(t);
        let w2 = choose|i: int| 0 <= i < t.len() && t[i] == max_of(t);
        assert(s[w1] == t[w1]);
        assert(s[w2] == t[w2]);
        assert(s[s.len() - 1] == s.last());
    } else {
        assert(s[0] == min_of(s));
    }
}

/// Every point of a non-empty sequence lies inside its bounds.
pub proof fn lemma_points_in_bounds(pts: Seq<Pt2D>)
    requires
        pts.len() > 0,
    ensures
        forall|i: int|
            0 <= i < pts.len() ==> {
                let b = bounds_of(pts);
                &&& b.min_x <= #[trigger] pts[i].x <= b.max_x
                &&& b.min_y <= pts[i].y <= b.max_y
            },
{
    lemma_min_max(xs(pts));
    lemma_min_max(ys(pts));
    assert forall|i: int| 0 <= i < pts.len() implies {
        let b = bounds_of(pts);
        &&& b.min_x <= #[trigger] pts[i].x <= b.max_x
        &&& b.min_y <= pts[i].y <= b.max_y
    } by {
        assert(xs(pts)[i] == pts[i].x as int);
        assert(ys(pts)[i] == pts[i].y as int);
        let wx = choose|j: int| 0 <= j < xs(pts).len() && xs(pts)[j] == min_of(xs(pts));
        let wy = choose|j: int| 0 <= j < ys(pts).len() && ys(pts)[j] == min_of(ys(pts));
        let vx = choose|j: int| 0 <= j < xs(pts).len() && xs(pts)[j] == max_of(xs(pts));
        let vy = choose|j: int| 0 <= j < ys(pts).len() && ys(pts)[j] == max_of(ys(pts));
        assert(xs(pts)[wx] == pts[wx].x as int);
        assert(ys(pts)[wy] == pts[wy].y as int);
        assert(xs(pts)[vx] == pts[vx].x as int);
        assert(ys(pts)[vy] == pts[vy].y as int);
    }
}

/// The smallest box holding every point of a non-empty list.
pub fn bounds_of_points(pts: &Vec<Pt2D>) -> (r: Bounds)
    requires
        pts@.len() > 0,
    ensures
        r == bounds_of(pts@),
{
    let mut b = Bounds { min_x: pts[0].x, min_y: pts[0].y, max_x: pts[0].x, max_y: pts[0].y };
    let mut i: usize = 1;
    assert(xs(pts@.take(1)) =~= seq![pts@[0].x as int]);
    assert(ys(pts@.take(1)) =~= seq![pts@[0].y as int]);
    while i < pts.len()
        invariant
            1 <= i <= pts@.len(),
            b == bounds_of(pts@.take(i as int)),
        decreases pts@.len() - i,
    {
        let p = pts[i];
        proof {
            let t = pts@.take(i as int + 1);
            assert(xs(t).drop_last() =~= xs(pts@.take(i as int)));
            assert(ys(t).drop_last() =~= ys(pts@.take(i as int)));
            assert(xs(t).last() == p.x as int);
            assert(ys(t).last() == p.y as int);
            lemma_min_max(xs(pts@.take(i as int)));
            lemma_min_max(ys(pts@.take(i as int)));
            let a = choose|j: int| 0 <= j < xs(pts@.take(i as int)).len() && xs(pts@.take(i as int))[j] == min_of(xs(pts@.take(i as int)));
            let c = choose|j: int| 0 <= j < xs(pts@.take(i as int)).len() && xs(pts@.take(i as int))[j] == max_of(xs(pts@.take(i as int)));
            let d = choose|j: int| 0 <= j < ys(pts@.take(i as int)).len() && ys(pts@.take(i as int))[j] == min_of(ys(pts@.take(i as int)));
            let e = choose|j: int| 0 <= j < ys(pts@.take(i as int)).len() && ys(pts@.take(i as int))[j] == max_of(ys(pts@.take(i as int)));
            assert(xs(pts@.take(i as int))[a] == pts@[a].x as int);
            assert(xs(pts@.take(i as int))[c] == pts@[c].x as int);
            assert(ys(pts@.take(i as int))[d] == pts@[d].y as int);
            assert(ys(pts@.take(i as int))[e] == pts@[e].y as int);
        }
        if p.x < b.min_x {
            b.min_x = p.x;
        }
        if p.x > b.max_x {
            b.max_x = p.x;
        }
        if p.y < b.min_y {
            b.min_y = p.y;
        }
        if p.y > b.max_y {
            b.max_y = p.y;
        }
        i = i + 1;
    }
    assert(pts@.take(pts@.len() as int) =~= pts@);
    b
}

/// A polygon already split into triangles: its outline points and, three by three,
/// the points that make up each triangle.
pub struct Polygon {
    points: Vec<Pt2D>,
    indices: Vec<usize>,
}

/// Points and triangle indices that form a valid triangulated polygon.
pub open spec fn triangulation_ok(points: Seq<Pt2D>, indices: Seq<usize>) -> bool {
    &&& points.len() > 0
    &&& indices.len() % 3 == 0
    &&& forall|k: int| 0 <= k < indices.len() ==> #[trigger] indices[k] < points.len()
}

impl Polygon {
    pub closed spec fn points(&self) -> Seq<Pt2D> {
        self.points@
    }

    pub closed spec fn indices(&self) -> Seq<usize> {
        self.indices@
    }

    #[verifier::type_invariant]
    closed spec fn inv(&self) -> bool {
        triangulation_ok(self.points@, self.indices@)
    }

    /// Builds a polygon from its points and triangle indices; `None` when they do not
    /// form a triangulation (no points, a partial triangle, or an index past the points).
    pub fn from_triangles(points: Vec<Pt2D>, indices: Vec<usize>) -> (r: Option<Polygon>)
        ensures
            r is Some <==> triangulation_ok(points@, indices@),
            r matches Some(p) ==> p.points() == points@ && p.indices() == indices@,
    {
        if points.len() == 0 || indices.len() % 3 != 0 {
            return None;
        }
        let mut k: usize = 0;
        while k < indices.len()
            invariant
                k <= indices@.len(),
                forall|j: int| 0 <= j < k ==> #[trigger] indices@[j] < points@.len(),
            decreases indices@.len() - k,
        {
            if indices[k] >= points.len() {
                return None;
            }
            k = k + 1;
        }
        Some(Polygon { points, indices })
    }

    pub fn points_ref(&self) -> (r: &Vec<Pt2D>)
        ensures
            r@ == self.points(),
            triangulation_ok(self.points(), self.indices()),
    {
        proof {
            use_type_invariant(self);
        }
        &self.points
    }

    pub fn indices_ref(&self) -> (r: &Vec<usize>)
        ensures
            r@ == self.indices(),
            triangulation_ok(self.points(), self.indices()),
    {
        proof {
            use_type_invariant(self);
        }
        &self.indices
    }

    /// The polygon's bounding box.
    pub fn get_bounds(&self) -> (r: Bounds)
        ensures
            r == bounds_of(self.points()),
    {
        proof {
            use_type_invariant(self);
        }
        bounds_of_points(&self.points)
    }
}

impl Clone for Polygon {
    fn clone(&self) -> (r: Polygon)
        ensures
            r.points() == self.points(),
            r.indices() == self.indices(),
    {
        proof {
            use_type_invariant(self);
        }
        let mut points: Vec<Pt2D> = Vec::new();
        let mut i: usize = 0;
        while i < self.points.len()
            invariant
                i <= self.points@.len(),
                points@ == self.points@.take(i as int),
            decreases self.points@.len() - i,
        {
            points.push(self.points[i]);
            i = i + 1;
            assert(points@ =~= self.points@.take(i as int));
        }
        let mut indices: Vec<usize> = Vec::new();
        let mut k: usize = 0;
        while k < self.indices.len()
            invariant
                k <= self.indices@.len(),
                indices@ == self.indices@.take(k as int),
            decreases self.indices@.len() - k,
        {
            indices.push(self.indices[k]);
            k = k + 1;
            assert(indices@ =~= self.indices@.take(k as int));
        }
        assert(points@ =~= self.points@);
        assert(indices@ =~= self.indices@);
        Polygon { points, indices }
    }
}

} // verus!
