//! Persistence of the hole collection: holes become a byte buffer and come
//! back from one. The byte format is the JSON text of the coordinate pairs,
//! produced and parsed by serde_json behind two trusted wrappers; everything
//! around the two calls is verified.

use vstd::prelude::*;

use crate::geometry::GeometryStore;
use crate::geometry::Point;

verus! {

/// The bytes serde_json::to_vec produces for a hole collection given as
/// coordinate pairs.
pub uninterp spec fn holes_encoding(h: Seq<Seq<(u32, u32)>>) -> Seq<u8>;

/// What serde_json::from_slice makes of a byte buffer when asked for a hole
/// collection of coordinate pairs: the decoded collection, or `None` when
/// the bytes do not parse.
pub uninterp spec fn holes_decoding(b: Seq<u8>) -> Option<Seq<Seq<(u32, u32)>>>;

/// One hole as its coordinate pairs.
pub open spec fn hole_pairs(h: Seq<Point>) -> Seq<(u32, u32)> {
    h.map_values(|p: Point| (p.x, p.y))
}

/// A hole collection as its coordinate pairs, order kept at both levels.
pub open spec fn holes_pairs(hs: Seq<Seq<Point>>) -> Seq<Seq<(u32, u32)>> {
    hs.map_values(|h: Seq<Point>| hole_pairs(h))
}

/// One hole rebuilt from its coordinate pairs.
pub open spec fn hole_points(q: Seq<(u32, u32)>) -> Seq<Point> {
    q.map_values(|c: (u32, u32)| Point { x: c.0, y: c.1 })
}

/// A hole collection rebuilt from its coordinate pairs.
pub open spec fn holes_points(qs: Seq<Seq<(u32, u32)>>) -> Seq<Seq<Point>> {
    qs.map_values(|q: Seq<(u32, u32)>| hole_points(q))
}

/// Law: the pair representation loses nothing — rebuilding a hole collection
/// from its coordinate pairs restores it exactly, polygon order, point order
/// and coordinate values included. Together with the encoder's guarantee
/// that decoding inverts encoding, a saved collection always loads back
/// equal to the one saved.
pub proof fn lemma_pairs_round_trip(hs: Seq<Seq<Point>>)
    ensures
        holes_points(holes_pairs(hs)) =~~= hs,
{
    assert forall|i: int| 0 <= i < hs.len() implies holes_points(holes_pairs(hs))[i] =~= hs[i] by {
        assert forall|j: int| 0 <= j < hs[i].len() implies hole_points(hole_pairs(hs[i]))[j]
            == hs[i][j] by {
            assert(hole_pairs(hs[i])[j] == (hs[i][j].x, hs[i][j].y));
        }
        assert(hole_points(hole_pairs(hs[i])) =~= hs[i]);
    }
}

/// Relies on serde_json::to_vec: for a vector of vectors of integer pairs
/// the produced JSON text is a function of the value alone and the call
/// never fails (only a faulty Serialize impl or a map with non-string keys
/// can make it fail, and this type has neither); serde_json::from_slice
/// parses that text back to an equal value, integers round-tripping exactly.
#[verifier::external_body]
fn encode_pairs(h: &Vec<Vec<(u32, u32)>>) -> (r: Vec<u8>)
    ensures
        r@ == holes_encoding(h@.map_values(|v: Vec<(u32, u32)>| v@)),
        holes_decoding(r@) == Some(h@.map_values(|v: Vec<(u32, u32)>| v@)),
{
    serde_json::to_vec(h).unwrap()
}

/// Relies on serde_json::from_slice: parsing is a function of the bytes
/// alone; it returns the decoded value where the bytes are the JSON text of
/// such a value, an error otherwise, and never panics.
#[verifier::external_body]
fn decode_pairs(b: &Vec<u8>) -> (r: Option<Vec<Vec<(u32, u32)>>>)
    ensures
        (match r {
            Some(v) => holes_decoding(b@) == Some(v@.map_values(|x: Vec<(u32, u32)>| x@)),
            None => holes_decoding(b@) is None,
        }),
{
    serde_json::from_slice::<Vec<Vec<(u32, u32)>>>(b).ok()
}

/// The hole collection as plain coordinate pairs, ready for the encoder.
fn holes_to_pairs(holes: &Vec<Vec<Point>>) -> (r: Vec<Vec<(u32, u32)>>)
    ensures
        r@.len() == holes@.len(),
        forall|i: int| 0 <= i < holes@.len() ==> r@[i]@ =~= hole_pairs(#[trigger] holes@[i]@),
{
    let mut r: Vec<Vec<(u32, u32)>> = Vec::new();
    let mut i: usize = 0;
    while i < holes.len()
        invariant
            i <= holes@.len(),
            r@.len() == i,
            forall|k: int| 0 <= k < i ==> r@[k]@ =~= hole_pairs(#[trigger] holes@[k]@),
        decreases holes@.len() - i,
    {
        let h = &holes[i];
        let mut q: Vec<(u32, u32)> = Vec::new();
        let mut j: usize = 0;
        while j < h.len()
            invariant
                j <= h@.len(),
                q@.len() == j,
                forall|k: int| 0 <= k < j ==> q@[k] == (#[trigger] h@[k].x, h@[k].y),
            decreases h@.len() - j,
        {
            q.push((h[j].x, h[j].y));
            j = j + 1;
        }
        assert(q@ =~= hole_pairs(h@));
        r.push(q);
        i = i + 1;
    }
    r
}

/// A hole collection rebuilt from plain coordinate pairs, as the decoder
/// hands them out.
fn pairs_to_holes(pairs: &Vec<Vec<(u32, u32)>>) -> (r: Vec<Vec<Point>>)
    ensures
        r@.len() == pairs@.len(),
        forall|i: int| 0 <= i < pairs@.len() ==> r@[i]@ =~= hole_points(#[trigger] pairs@[i]@),
{
    let mut r: Vec<Vec<Point>> = Vec::new();
    let mut i: usize = 0;
    while i < pairs.len()
        invariant
            i <= pairs@.len(),
            r@.len() == i,
            forall|k: int| 0 <= k < i ==> r@[k]@ =~= hole_points(#[trigger] pairs@[k]@),
        decreases pairs@.len() - i,
    {
        let q = &pairs[i];
        let mut h: Vec<Point> = Vec::new();
        let mut j: usize = 0;
        while j < q.len()
            invariant
                j <= q@.len(),
                h@.len() == j,
                forall|k: int| 0 <= k < j ==> #[trigger] h@[k] == (Point { x: q@[k].0, y: q@[k].1 }),
            decreases q@.len() - j,
        {
            let c = q[j];
            h.push(Point { x: c.0, y: c.1 });
            j = j + 1;
        }
        assert(h@ =~= hole_points(q@));
        r.push(h);
        i = i + 1;
    }
    r
}

/// Serialize the whole hole collection (never the map) to a byte buffer.
/// The buffer is exactly the encoding of the collection's coordinate pairs,
/// and decoding it yields those pairs back: saving loses nothing.
pub fn save_holes(store: &GeometryStore) -> (r: Vec<u8>)
    ensures
        r@ == holes_encoding(holes_pairs(store@.holes)),
        holes_decoding(r@) == Some(holes_pairs(store@.holes)),
{
    let holes = store.holes_list();
    let pairs = holes_to_pairs(holes);
    proof {
        assert(pairs@.map_values(|v: Vec<(u32, u32)>| v@) =~~= holes_pairs(store@.holes));
    }
    encode_pairs(&pairs)
}

/// Restore the hole collection from what was read at the fixed path, or
/// leave everything as it is. `None` stands for a missing or unreadable
/// file: nothing to load, nothing changes. Bytes that do not decode change
/// nothing either — decode failures are swallowed by design. Only bytes
/// that decode replace the hole collection, wholesale; the map and the
/// editing state are never touched by a load.
pub fn load_holes(store: &mut GeometryStore, data: Option<Vec<u8>>)
    ensures
        final(store)@.map =~= old(store)@.map,
        final(store)@.state == old(store)@.state,
        (match data {
            None => final(store)@.holes =~~= old(store)@.holes,
            Some(b) => (match holes_decoding(b@) {
                Some(hs) => final(store)@.holes =~~= holes_points(hs),
                None => final(store)@.holes =~~= old(store)@.holes,
            }),
        }),
{
    match data {
        None => {},
        Some(b) => {
            match decode_pairs(&b) {
                None => {},
                Some(pairs) => {
                    let holes = pairs_to_holes(&pairs);
                    proof {
                        assert(holes@.map_values(|h: Vec<Point>| h@) =~~= holes_points(
                            pairs@.map_values(|x: Vec<(u32, u32)>| x@),
                        ));
                    }
                    store.replace_holes(holes);
                },
            }
        },
    }
}

} // verus!
