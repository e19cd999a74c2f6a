//! The geometry store: the map polyline, the hole polygons, and the editing
//! state, with the mutation primitives the input interpreter drives.

use vstd::prelude::*;

verus! {

/// A 2D point. Each coordinate is carried as its 32-bit encoding; the
/// windowing layer converts between this encoding and its native coordinate
/// scalars at the boundary, and equality of points is equality of encodings.
#[derive(Clone, Copy, PartialEq, Eq, Structural, Debug)]
pub struct Point {
    pub x: u32,
    pub y: u32,
}

impl Point {
    pub fn new(x: u32, y: u32) -> (p: Point)
        ensures
            p.x == x,
            p.y == y,
    {
        Point { x, y }
    }
}

/// The unrecoverable-defect outcome: the interpreter asked to extend the
/// current hole while the hole collection was empty. This marks a logic
/// defect, to be surfaced as a crash by the caller, never swallowed.
#[derive(Clone, Copy, PartialEq, Eq, Structural, Debug)]
pub struct InvariantViolation;

/// Whether the most recently created hole still accepts appended points.
#[derive(Clone, Copy, PartialEq, Eq, Structural, Debug)]
pub enum EditingState {
    /// No hole is open; the next hole click starts a new hole.
    Idle,
    /// The last hole in the collection is open for extension.
    Extending,
}

/// The mathematical content of a `GeometryStore`.
#[verifier::ext_equal]
pub struct StoreView {
    pub map: Seq<Point>,
    pub holes: Seq<Seq<Point>>,
    pub state: EditingState,
}

/// The single editable document of a session: the map point sequence, the
/// hole polygons (each an ordered point sequence, rendered closed), and the
/// editing state. The map only ever grows by appends; holes grow either by a
/// brand-new single-point hole or by a point appended to the last hole.
pub struct GeometryStore {
    map: Vec<Point>,
    holes: Vec<Vec<Point>>,
    state: EditingState,
}

impl View for GeometryStore {
    type V = StoreView;

    closed spec fn view(&self) -> StoreView {
        StoreView {
            map: self.map@,
            holes: self.holes@.map_values(|h: Vec<Point>| h@),
            state: self.state,
        }
    }
}

impl GeometryStore {
    /// A fresh session: empty map, no holes, no hole in progress.
    pub fn new() -> (s: GeometryStore)
        ensures
            s@.map =~= Seq::<Point>::empty(),
            s@.holes =~= Seq::<Seq<Point>>::empty(),
            s@.state == EditingState::Idle,
    {
        GeometryStore { map: Vec::new(), holes: Vec::new(), state: EditingState::Idle }
    }

    /// Append one point to the end of the map polyline; nothing else moves.
    pub fn append_to_map(&mut self, p: Point)
        ensures
            final(self)@.map =~= old(self)@.map.push(p),
            final(self)@.holes =~= old(self)@.holes,
            final(self)@.state == old(self)@.state,
    {
        self.map.push(p);
    }

    /// Open a brand-new hole consisting of the single point `p` at the end of
    /// the hole collection, and mark it as accepting further points.
    pub fn start_new_hole(&mut self, p: Point)
        ensures
            final(self)@.holes =~= old(self)@.holes.push(seq![p]),
            final(self)@.map =~= old(self)@.map,
            final(self)@.state == EditingState::Extending,
    {
        let mut hole: Vec<Point> = Vec::new();
        hole.push(p);
        self.holes.push(hole);
        self.state = EditingState::Extending;
    }

    /// Append `p` to the hole most recently created. When no hole exists at
    /// all there is nothing to extend: that is a contract violation of the
    /// caller's logic, reported as `InvariantViolation` with nothing changed.
    pub fn append_to_current_hole(&mut self, p: Point) -> (r: Result<(), InvariantViolation>)
        ensures
            old(self)@.holes.len() == 0 ==> r is Err && final(self)@ =~= old(self)@,
            old(self)@.holes.len() > 0 ==> {
                &&& r is Ok
                &&& final(self)@.holes =~= old(self)@.holes.update(
                    old(self)@.holes.len() - 1,
                    old(self)@.holes.last().push(p),
                )
                &&& final(self)@.map =~= old(self)@.map
                &&& final(self)@.state == old(self)@.state
            },
    {
        if self.holes.len() == 0 {
            Err(InvariantViolation)
        } else {
            let mut last = self.holes.pop().unwrap();
            last.push(p);
            self.holes.push(last);
            Ok(())
        }
    }

    /// Close the hole in progress: the next hole click will start a new hole.
    /// The geometry itself does not move.
    pub fn finish_hole(&mut self)
        ensures
            final(self)@.map =~= old(self)@.map,
            final(self)@.holes =~= old(self)@.holes,
            final(self)@.state == EditingState::Idle,
    {
        self.state = EditingState::Idle;
    }

    /// Replace the whole hole collection at once, as a successful load does.
    /// The map and the editing state are untouched.
    pub fn replace_holes(&mut self, holes: Vec<Vec<Point>>)
        ensures
            final(self)@.holes =~= holes@.map_values(|h: Vec<Point>| h@),
            final(self)@.map =~= old(self)@.map,
            final(self)@.state == old(self)@.state,
    {
        self.holes = holes;
    }

    /// Read-only access to the map polyline, for rendering.
    pub fn map_points(&self) -> (r: &Vec<Point>)
        ensures
            r@ =~= self@.map,
    {
        &self.map
    }

    /// Read-only access to the hole collection, for rendering and saving.
    pub fn holes_list(&self) -> (r: &Vec<Vec<Point>>)
        ensures
            r@.map_values(|h: Vec<Point>| h@) =~= self@.holes,
    {
        &self.holes
    }

    /// The current editing state.
    pub fn editing_state(&self) -> (r: EditingState)
        ensures
            r == self@.state,
    {
        self.state
    }

    /// How many holes the collection holds.
    pub fn hole_count(&self) -> (n: usize)
        ensures
            n == self@.holes.len(),
    {
        self.holes.len()
    }
}

/// The outline segments of one hole polygon: each point connected to the
/// next, and the last point connected back to the first. A hole with fewer
/// than two points has no outline yet.
pub open spec fn outline_spec(h: Seq<Point>) -> Seq<(Point, Point)> {
    if h.len() < 2 {
        Seq::empty()
    } else {
        Seq::new(h.len(), |i: int| if i < h.len() - 1 {
            (h[i], h[i + 1])
        } else {
            (h[h.len() - 1], h[0])
        })
    }
}

/// Compute the segments that render one hole as a closed polygon outline.
pub fn hole_outline(hole: &Vec<Point>) -> (segs: Vec<(Point, Point)>)
    ensures
        segs@ =~= outline_spec(hole@),
{
    let mut segs: Vec<(Point, Point)> = Vec::new();
    let len = hole.len();
    if len >= 2 {
        let mut i: usize = 1;
        while i < len
            invariant
                1 <= i <= len,
                len == hole@.len(),
                2 <= len,
                segs@.len() == i - 1,
                forall|j: int| 0 <= j < i - 1 ==> segs@[j] == (hole@[j], hole@[j + 1]),
            decreases len - i,
        {
            segs.push((hole[i - 1], hole[i]));
            i = i + 1;
        }
        segs.push((hole[len - 1], hole[0]));
    }
    segs
}

/// Law: repeatedly appending the points of `ps`, one operation per point,
/// onto a map `m` yields exactly `m + ps`: the length grows by one per
/// operation and the order of arrival is kept.
pub open spec fn pushed_all(m: Seq<Point>, ps: Seq<Point>) -> Seq<Point>
    decreases ps.len(),
{
    if ps.len() == 0 {
        m
    } else {
        pushed_all(m.push(ps[0]), ps.drop_first())
    }
}

/// Proof of the law above: a sequence of map appends is FIFO concatenation.
pub proof fn lemma_map_appends_in_order(m: Seq<Point>, ps: Seq<Point>)
    ensures
        pushed_all(m, ps) =~= m + ps,
    decreases ps.len(),
{
    if ps.len() == 0 {
        assert(pushed_all(m, ps) =~= m + ps);
    } else {
        lemma_map_appends_in_order(m.push(ps[0]), ps.drop_first());
        assert(m.push(ps[0]) + ps.drop_first() =~= m + ps);
    }
}

/// Law: extending the current hole changes exactly the last hole, which
/// grows by one point, and leaves every earlier hole unchanged.
pub proof fn lemma_extend_touches_only_last(holes: Seq<Seq<Point>>, p: Point)
    requires
        holes.len() > 0,
    ensures
        ({
            let after = holes.update(holes.len() - 1, holes.last().push(p));
            &&& after.len() == holes.len()
            &&& after.last() =~= holes.last().push(p)
            &&& after.last().len() == holes.last().len() + 1
            &&& forall|i: int| 0 <= i < holes.len() - 1 ==> after[i] =~= holes[i]
        }),
{
}

} // verus!
