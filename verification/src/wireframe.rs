//! Line segments that picture constraints for debugging.
//!
//! The host supplies a lookup from a body's handle to its position. A
//! constraint with a body the lookup does not know is left out; the others
//! are drawn in the order given. Positions are whatever the host uses: they
//! are only carried from the lookup into the segments.

use itertools::Itertools;
use vstd::prelude::*;

use crate::body::BodyId;
use crate::constraint::XpbdConstraint;
use crate::edge::EdgeConstraint;
use crate::isometric_bending::IsometricBendingConstraint;
use crate::volume::VolumeConstraint;

verus! {

/// A line segment, by its two ends.
pub type Segment<P> = (P, P);

/// Four corners, in a constraint's order.
pub type Corners<P> = (P, P, P, P);

/// The values that are there, in order, the gaps left out.
pub open spec fn kept<T>(options: Seq<Option<T>>) -> Seq<T>
    decreases options.len(),
{
    if options.len() == 0 {
        Seq::empty()
    } else {
        let earlier = kept(options.drop_last());
        match options.last() {
            Some(value) => earlier.push(value),
            None => earlier,
        }
    }
}

/// `found` is what `lookup` answered for the bodies `ids`, one by one.
pub open spec fn looked_up<P, F: Fn(BodyId) -> Option<P>>(
    lookup: F,
    ids: Seq<BodyId>,
    found: Seq<Option<P>>,
) -> bool {
    &&& found.len() == ids.len()
    &&& forall|i: int| 0 <= i < ids.len() ==> call_ensures(lookup, (ids[i],), #[trigger] found[i])
}

/// The two items as a pair, if there are exactly two.
pub open spec fn pair_of<P>(items: Seq<P>) -> Option<Segment<P>> {
    if items.len() == 2 {
        Some((items[0], items[1]))
    } else {
        None
    }
}

/// The four items as corners, if there are exactly four.
pub open spec fn corners_of<P>(items: Seq<P>) -> Option<Corners<P>> {
    if items.len() == 4 {
        Some((items[0], items[1], items[2], items[3]))
    } else {
        None
    }
}

/// The six edges of the tetrahedron on four corners.
pub open spec fn wireframe<P>(corners: Corners<P>) -> Seq<Segment<P>> {
    seq![
        (corners.0, corners.1),
        (corners.0, corners.2),
        (corners.0, corners.3),
        (corners.1, corners.2),
        (corners.1, corners.3),
        (corners.2, corners.3),
    ]
}

/// The wireframes of a list of corner sets, one after the other.
pub open spec fn wireframes<P>(all: Seq<Corners<P>>) -> Seq<Segment<P>>
    decreases all.len(),
{
    if all.len() == 0 {
        Seq::empty()
    } else {
        wireframes(all.drop_last()) + wireframe(all.last())
    }
}

/// The bodies of each constraint of a list.
pub open spec fn bodies_of<C: XpbdConstraint<K>, const K: usize>(
    constraints: Seq<C>,
) -> Seq<Seq<BodyId>> {
    constraints.map_values(|c: C| c.bodies())
}

/// The answers of each constraint of a list, as sequences.
pub open spec fn answers_of<P, const K: usize>(
    found: Seq<[Option<P>; K]>,
) -> Seq<Seq<Option<P>>> {
    found.map_values(|answers: [Option<P>; K]| answers@)
}

/// `found` holds what `lookup` answered for each list of bodies in `ids`.
pub open spec fn answered<P, F: Fn(BodyId) -> Option<P>>(
    lookup: F,
    ids: Seq<Seq<BodyId>>,
    found: Seq<Seq<Option<P>>>,
) -> bool {
    &&& found.len() == ids.len()
    &&& forall|i: int| 0 <= i < ids.len() ==> looked_up(lookup, ids[i], #[trigger] found[i])
}

/// The segment of an edge, if both its ends were found.
pub open spec fn edge_found<P>(answers: Seq<Option<P>>) -> Option<Segment<P>> {
    pair_of(kept(answers))
}

/// The corners of a four-body constraint, if all of them were found.
pub open spec fn four_found<P>(answers: Seq<Option<P>>) -> Option<Corners<P>> {
    corners_of(kept(answers))
}

/// The segments of those edges whose two ends were both found.
pub open spec fn edges_found<P>(found: Seq<Seq<Option<P>>>) -> Seq<Segment<P>> {
    kept(found.map_values(|answers: Seq<Option<P>>| edge_found(answers)))
}

/// The corners of those constraints whose four bodies were all found.
pub open spec fn corners_found<P>(found: Seq<Seq<Option<P>>>) -> Seq<Corners<P>> {
    kept(found.map_values(|answers: Seq<Option<P>>| four_found(answers)))
}

/// `shrunk` is what `shrink` made of each corner set of `all`.
pub open spec fn reshaped<P, G: Fn(Corners<P>) -> Corners<P>>(
    shrink: G,
    all: Seq<Corners<P>>,
    shrunk: Seq<Corners<P>>,
) -> bool {
    &&& shrunk.len() == all.len()
    &&& forall|i: int| 0 <= i < all.len() ==> call_ensures(shrink, (all[i],), #[trigger] shrunk[i])
}

/// Takes a list of exactly two items apart into a pair.
///
/// Calls `itertools::Itertools::collect_tuple` on the list's items. Believed,
/// not proved: the result is the two items in order if the list has exactly
/// two, and nothing otherwise.
#[verifier::external_body]
fn collect_pair<P>(items: Vec<P>) -> (pair: Option<Segment<P>>)
    ensures
        pair == pair_of(items@),
{
    items.into_iter().collect_tuple()
}

/// Takes a list of exactly four items apart into corners.
///
/// Calls `itertools::Itertools::collect_tuple` on the list's items. Believed,
/// not proved: the result is the four items in order if the list has exactly
/// four, and nothing otherwise.
#[verifier::external_body]
fn collect_corners<P>(items: Vec<P>) -> (corners: Option<Corners<P>>)
    ensures
        corners == corners_of(items@),
{
    items.into_iter().collect_tuple()
}

/// Keeping what is there never makes a list longer, and keeps its length
/// only if nothing is missing; the list is then kept item by item.
pub proof fn lemma_kept_all_or_fewer<T>(options: Seq<Option<T>>)
    ensures
        kept(options).len() <= options.len(),
        kept(options).len() == options.len() <==> forall|i: int|
            0 <= i < options.len() ==> (#[trigger] options[i]) is Some,
        kept(options).len() == options.len() ==> forall|i: int|
            0 <= i < options.len() ==> Some(#[trigger] kept(options)[i]) == options[i],
    decreases options.len(),
{
    if options.len() > 0 {
        let earlier = options.drop_last();
        lemma_kept_all_or_fewer(earlier);
        if kept(options).len() == options.len() {
            assert forall|i: int| 0 <= i < options.len() implies (#[trigger] options[i]) is Some
                && Some(kept(options)[i]) == options[i] by {
                if i < earlier.len() {
                    assert(earlier[i] == options[i]);
                }
            }
        }
    }
}

/// An edge is drawn exactly if both its bodies were found, and then between
/// the two positions found.
pub proof fn lemma_edge_needs_both_ends<P>(answers: Seq<Option<P>>)
    requires
        answers.len() == 2,
    ensures
        edge_found(answers) == match (answers[0], answers[1]) {
            (Some(a), Some(b)) => Some((a, b)),
            _ => None::<Segment<P>>,
        },
{
    lemma_kept_all_or_fewer(answers);
}

/// A four-body constraint is drawn exactly if all its bodies were found, and
/// then on the four positions found.
pub proof fn lemma_corners_need_all_four<P>(answers: Seq<Option<P>>)
    requires
        answers.len() == 4,
    ensures
        four_found(answers) == match (answers[0], answers[1], answers[2], answers[3]) {
            (Some(a), Some(b), Some(c), Some(d)) => Some((a, b, c, d)),
            _ => None::<Corners<P>>,
        },
{
    lemma_kept_all_or_fewer(answers);
}

/// Every set of corners is drawn with six segments.
pub proof fn lemma_six_segments_each<P>(all: Seq<Corners<P>>)
    ensures
        wireframes(all).len() == 6 * all.len(),
    decreases all.len(),
{
    if all.len() > 0 {
        lemma_six_segments_each(all.drop_last());
    }
}

/// Asks `lookup` for each body of `ids`.
fn ask<P: Copy, F: Fn(BodyId) -> Option<P>, const K: usize>(
    ids: [BodyId; K],
    lookup: &F,
) -> (found: [Option<P>; K])
    requires
        forall|id: BodyId| call_requires(*lookup, (id,)),
    ensures
        looked_up(*lookup, ids@, found@),
{
    let mut found: [Option<P>; K] = [None; K];
    let mut i: usize = 0;
    while i < K
        invariant
            i <= K,
            K == ids@.len(),
            K == found@.len(),
            forall|id: BodyId| call_requires(*lookup, (id,)),
            forall|j: int| 0 <= j < i ==> call_ensures(*lookup, (ids@[j],), #[trigger] found@[j]),
        decreases K - i,
    {
        let answer = lookup(ids[i]);
        found[i] = answer;
        i += 1;
    }
    found
}

/// Asks `lookup` for the bodies of each constraint.
fn ask_all<C: XpbdConstraint<K>, P: Copy, F: Fn(BodyId) -> Option<P>, const K: usize>(
    constraints: &[C],
    lookup: &F,
) -> (found: Vec<[Option<P>; K]>)
    requires
        forall|id: BodyId| call_requires(*lookup, (id,)),
    ensures
        answered(*lookup, bodies_of(constraints@), answers_of(found@)),
{
    let mut found: Vec<[Option<P>; K]> = Vec::new();
    let mut i: usize = 0;
    while i < constraints.len()
        invariant
            i <= constraints.len(),
            found@.len() == i,
            forall|id: BodyId| call_requires(*lookup, (id,)),
            forall|j: int|
                0 <= j < i ==> looked_up(
                    *lookup,
                    constraints@[j].bodies(),
                    (#[trigger] found@[j])@,
                ),
        decreases constraints.len() - i,
    {
        let answers = ask(constraints[i].entities(), lookup);
        found.push(answers);
        i += 1;
    }
    found
}

/// The answers that are there, in order.
fn present<P: Copy, const K: usize>(answers: &[Option<P>; K]) -> (items: Vec<P>)
    ensures
        items@ == kept(answers@),
{
    let mut items: Vec<P> = Vec::new();
    let mut i: usize = 0;
    while i < K
        invariant
            i <= K,
            K == answers@.len(),
            items@ == kept(answers@.take(i as int)),
        decreases K - i,
    {
        assert(answers@.take(i + 1).drop_last() =~= answers@.take(i as int));
        if let Some(item) = answers[i] {
            items.push(item);
        }
        i += 1;
    }
    assert(answers@.take(K as int) =~= answers@);
    items
}

/// The segments of the edges whose two ends were both found: `found` holds,
/// for each edge, what is known of the positions of its two bodies.
pub fn edge_segments<P: Copy>(found: &[[Option<P>; 2]]) -> (segments: Vec<Segment<P>>)
    ensures
        segments@ == edges_found(answers_of(found@)),
{
    let ghost all = answers_of(found@);
    let ghost pick = |answers: Seq<Option<P>>| edge_found(answers);
    let mut segments: Vec<Segment<P>> = Vec::new();
    let mut i: usize = 0;
    while i < found.len()
        invariant
            i <= found.len(),
            all == answers_of(found@),
            pick == |answers: Seq<Option<P>>| edge_found(answers),
            segments@ == kept(all.take(i as int).map_values(pick)),
        decreases found.len() - i,
    {
        assert(all.take(i + 1).map_values(pick).drop_last() =~= all.take(i as int).map_values(
            pick,
        ));
        if let Some(segment) = collect_pair(present(&found[i])) {
            segments.push(segment);
        }
        i += 1;
    }
    assert(all.take(i as int) =~= all);
    assert(all.map_values(pick) =~= all.map_values(
        |answers: Seq<Option<P>>| edge_found(answers),
    ));
    segments
}

/// The corners of the four-body constraints whose bodies were all found:
/// `found` holds, for each constraint, what is known of the positions of its
/// four bodies.
pub fn complete_corners<P: Copy>(found: &[[Option<P>; 4]]) -> (all: Vec<Corners<P>>)
    ensures
        all@ == corners_found(answers_of(found@)),
{
    let ghost lists = answers_of(found@);
    let ghost pick = |answers: Seq<Option<P>>| four_found(answers);
    let mut all: Vec<Corners<P>> = Vec::new();
    let mut i: usize = 0;
    while i < found.len()
        invariant
            i <= found.len(),
            lists == answers_of(found@),
            pick == |answers: Seq<Option<P>>| four_found(answers),
            all@ == kept(lists.take(i as int).map_values(pick)),
        decreases found.len() - i,
    {
        assert(lists.take(i + 1).map_values(pick).drop_last() =~= lists.take(i as int).map_values(
            pick,
        ));
        if let Some(corners) = collect_corners(present(&found[i])) {
            all.push(corners);
        }
        i += 1;
    }
    assert(lists.take(i as int) =~= lists);
    assert(lists.map_values(pick) =~= lists.map_values(
        |answers: Seq<Option<P>>| four_found(answers),
    ));
    all
}

/// The six edges of the tetrahedron on each set of corners, set after set.
pub fn wireframe_segments<P: Copy>(all: &[Corners<P>]) -> (segments: Vec<Segment<P>>)
    ensures
        segments@ == wireframes(all@),
{
    let mut segments: Vec<Segment<P>> = Vec::new();
    let mut i: usize = 0;
    while i < all.len()
        invariant
            i <= all.len(),
            segments@ == wireframes(all@.take(i as int)),
        decreases all.len() - i,
    {
        assert(all@.take(i + 1).drop_last() =~= all@.take(i as int));
        let (a, b, c, d) = all[i];
        segments.push((a, b));
        segments.push((a, c));
        segments.push((a, d));
        segments.push((b, c));
        segments.push((b, d));
        segments.push((c, d));
        i += 1;
    }
    assert(all@.take(i as int) =~= all@);
    segments
}

/// The segments to draw for a list of distance constraints: for each
/// constraint whose two bodies `position_of` knows, the segment between them.
pub fn draw_debug_edge_constraints<S: Copy, P: Copy, F: Fn(BodyId) -> Option<P>>(
    constraints: &[EdgeConstraint<S>],
    position_of: F,
) -> (segments: Vec<Segment<P>>)
    requires
        forall|id: BodyId| call_requires(position_of, (id,)),
    ensures
        exists|found: Seq<Seq<Option<P>>>|
            answered(position_of, bodies_of(constraints@), found) && segments@ == edges_found(
                found,
            ),
{
    let found = ask_all(constraints, &position_of);
    edge_segments(found.as_slice())
}

/// The segments to draw for a list of bending constraints: for each
/// constraint whose four bodies `position_of` knows, the six segments
/// between them.
pub fn draw_debug_isometric_bend_constraints<S: Copy, P: Copy, F: Fn(BodyId) -> Option<P>>(
    constraints: &[IsometricBendingConstraint<S>],
    position_of: F,
) -> (segments: Vec<Segment<P>>)
    requires
        forall|id: BodyId| call_requires(position_of, (id,)),
    ensures
        exists|found: Seq<Seq<Option<P>>>|
            answered(position_of, bodies_of(constraints@), found) && segments@ == wireframes(
                corners_found(found),
            ),
{
    let found = ask_all(constraints, &position_of);
    let all = complete_corners(found.as_slice());
    wireframe_segments(all.as_slice())
}

/// The segments to draw for a list of volume constraints: for each
/// constraint whose four bodies `position_of` knows, the six edges of the
/// tetrahedron that `shrink` makes of its corners.
pub fn draw_debug_volume_constraints<
    S: Copy,
    P: Copy,
    F: Fn(BodyId) -> Option<P>,
    G: Fn(Corners<P>) -> Corners<P>,
>(constraints: &[VolumeConstraint<S>], position_of: F, shrink: G) -> (segments: Vec<Segment<P>>)
    requires
        forall|id: BodyId| call_requires(position_of, (id,)),
        forall|corners: Corners<P>| call_requires(shrink, (corners,)),
    ensures
        exists|found: Seq<Seq<Option<P>>>, shrunk: Seq<Corners<P>>|
            answered(position_of, bodies_of(constraints@), found) && reshaped(
                shrink,
                corners_found(found),
                shrunk,
            ) && segments@ == wireframes(shrunk),
{
    let found = ask_all(constraints, &position_of);
    let all = complete_corners(found.as_slice());
    let mut shrunk: Vec<Corners<P>> = Vec::new();
    let mut i: usize = 0;
    while i < all.len()
        invariant
            i <= all.len(),
            forall|corners: Corners<P>| call_requires(shrink, (corners,)),
            reshaped(shrink, all@.take(i as int), shrunk@),
        decreases all.len() - i,
    {
        let smaller = shrink(all[i]);
        shrunk.push(smaller);
        i += 1;
    }
    assert(all@.take(i as int) =~= all@);
    wireframe_segments(shrunk.as_slice())
}

} // verus!
