//! Rewriting body handles through the host's entity mapper.
//!
//! When the host relocates its bodies it hands every constraint a mapper: a
//! table from old identifiers to new ones that invents a fresh identifier for
//! any it has not met. The table belongs to the host's engine; this module
//! states what a lookup does to it and proves what that means for a run of
//! lookups.

use bevy::ecs::entity::{Entity, EntityMapper};
use vstd::prelude::*;

use crate::body::BodyId;

verus! {

/// The engine's mapper, `bevy::ecs::entity::EntityMapper`. Nothing inside it
/// is visible here; [`mapper_entries`] and [`mapper_room`] name what the
/// contracts need of it.
#[verifier::external_type_specification]
#[verifier::external_body]
pub struct ExEntityMapper<'m>(EntityMapper<'m>);

/// The table a mapper holds, from old identifier to new, each identifier
/// taken by its bits.
pub uninterp spec fn mapper_entries(mapper: EntityMapper) -> Map<u64, u64>;

/// How many fresh identifiers a mapper can still reserve. The engine makes
/// each one by adding to a counter of thirty-two bits; the room is the number
/// of reservations left before that addition would overflow.
pub uninterp spec fn mapper_room(mapper: EntityMapper) -> nat;

/// One lookup of `id` took the mapper from `before` to `after` and gave
/// `mapped`: a known identifier yields its entry and changes nothing; an
/// unknown one is entered with the identifier that came back, at the cost of
/// one unit of room.
pub open spec fn looks_up(
    before: EntityMapper,
    after: EntityMapper,
    id: BodyId,
    mapped: BodyId,
) -> bool {
    if mapper_entries(before).contains_key(id.0) {
        &&& mapped.0 == mapper_entries(before)[id.0]
        &&& mapper_entries(after) == mapper_entries(before)
        &&& mapper_room(after) == mapper_room(before)
    } else {
        &&& mapper_entries(after) == mapper_entries(before).insert(id.0, mapped.0)
        &&& mapper_room(after) + 1 == mapper_room(before)
    }
}

/// Looks `id` up in the mapper, reserving a fresh identifier if it is absent.
///
/// Calls `bevy::ecs::entity::EntityMapper::get_or_reserve`, converting the
/// handle with `Entity::from_bits` and `Entity::to_bits`. Believed, not
/// proved: a known identifier yields its entry and leaves the mapper as it
/// was; an unknown one is entered with the identifier that is returned, which
/// uses up one unit of room. Without room the engine's counter would
/// overflow, so an unknown identifier is only admitted while room is left.
/// [`looks_up`] says the same in one piece.
#[verifier::external_body]
pub(crate) fn get_or_reserve(mapper: &mut EntityMapper, id: BodyId) -> (mapped: BodyId)
    requires
        mapper_entries(*old(mapper)).contains_key(id.0) || mapper_room(*old(mapper)) > 0,
    ensures
        mapper_entries(*old(mapper)).contains_key(id.0) ==> {
            &&& mapped.0 == mapper_entries(*old(mapper))[id.0]
            &&& mapper_entries(*final(mapper)) == mapper_entries(*old(mapper))
            &&& mapper_room(*final(mapper)) == mapper_room(*old(mapper))
        },
        !mapper_entries(*old(mapper)).contains_key(id.0) ==> {
            &&& mapper_entries(*final(mapper)) == mapper_entries(*old(mapper)).insert(
                id.0,
                mapped.0,
            )
            &&& mapper_room(*final(mapper)) + 1 == mapper_room(*old(mapper))
        },
{
    BodyId(mapper.get_or_reserve(Entity::from_bits(id.0)).to_bits())
}

/// The set of bits of the handles in `ids`.
pub open spec fn named(ids: Seq<BodyId>) -> Set<u64> {
    Set::new(|bits: u64| exists|i: int| 0 <= i < ids.len() && #[trigger] ids[i].0 == bits)
}

/// How many fresh identifiers a mapper that knows `known` must reserve to map
/// `ids` one after the other: one for each handle that is neither known nor
/// named earlier in the list.
pub open spec fn fresh_needed(known: Set<u64>, ids: Seq<BodyId>) -> nat
    decreases ids.len(),
{
    if ids.len() == 0 {
        0
    } else {
        let earlier = ids.drop_last();
        let last = ids.last().0;
        let cost: nat = if known.contains(last) || named(earlier).contains(last) {
            0
        } else {
            1
        };
        fresh_needed(known, earlier) + cost
    }
}

/// `mapped` is what `ids` became by going through a mapper that was `before`
/// and is `after`: the table kept every pair it had and gained exactly the
/// handles of `ids`, each handle was replaced by its entry in the table, and
/// the room shrank by the number of handles that were new to the mapper.
pub open spec fn remaps(
    before: EntityMapper,
    after: EntityMapper,
    ids: Seq<BodyId>,
    mapped: Seq<BodyId>,
) -> bool {
    let old_table = mapper_entries(before);
    let new_table = mapper_entries(after);
    &&& mapped.len() == ids.len()
    &&& old_table.submap_of(new_table)
    &&& new_table.dom() =~= old_table.dom() + named(ids)
    &&& forall|i: int| 0 <= i < ids.len() ==> (#[trigger] mapped[i]).0 == new_table[ids[i].0]
    &&& mapper_room(after) == mapper_room(before) - fresh_needed(old_table.dom(), ids)
}

/// Naming one more handle adds its bits to the named set.
proof fn lemma_named_push(ids: Seq<BodyId>, id: BodyId)
    ensures
        named(ids.push(id)) =~= named(ids).insert(id.0),
{
    let longer = ids.push(id);
    assert forall|bits: u64| named(ids).insert(id.0).contains(bits) implies named(
        longer,
    ).contains(bits) by {
        if bits == id.0 {
            assert(longer[ids.len() as int].0 == bits);
        } else {
            let i = choose|i: int| 0 <= i < ids.len() && #[trigger] ids[i].0 == bits;
            assert(longer[i].0 == bits);
        }
    }
}

/// A prefix of a list never needs more fresh identifiers than the list.
proof fn lemma_prefix_needs_no_more(known: Set<u64>, ids: Seq<BodyId>, n: int)
    requires
        0 <= n <= ids.len(),
    ensures
        fresh_needed(known, ids.take(n)) <= fresh_needed(known, ids),
    decreases ids.len(),
{
    if n == ids.len() {
        assert(ids.take(n) =~= ids);
    } else {
        lemma_prefix_needs_no_more(known, ids.drop_last(), n);
        assert(ids.drop_last().take(n) =~= ids.take(n));
    }
}

/// One more lookup extends a run of lookups by one handle.
proof fn lemma_remaps_step(
    before: EntityMapper,
    middle: EntityMapper,
    after: EntityMapper,
    ids: Seq<BodyId>,
    mapped: Seq<BodyId>,
    id: BodyId,
    to: BodyId,
)
    requires
        remaps(before, middle, ids, mapped),
        looks_up(middle, after, id, to),
    ensures
        remaps(before, after, ids.push(id), mapped.push(to)),
{
    let longer = ids.push(id);
    lemma_named_push(ids, id);
    assert(longer.drop_last() =~= ids);
}

/// Handles the mapper knows already need no fresh identifier.
proof fn lemma_known_need_none(known: Set<u64>, ids: Seq<BodyId>)
    requires
        named(ids).subset_of(known),
    ensures
        fresh_needed(known, ids) == 0,
    decreases ids.len(),
{
    if ids.len() > 0 {
        let earlier = ids.drop_last();
        lemma_known_need_none(known, earlier);
    }
}

/// Remapping keeps shared bodies shared: two slots that named the same body
/// before name the same body after.
pub proof fn lemma_remap_keeps_shared_bodies(
    before: EntityMapper,
    after: EntityMapper,
    ids: Seq<BodyId>,
    mapped: Seq<BodyId>,
    i: int,
    j: int,
)
    requires
        remaps(before, after, ids, mapped),
        0 <= i < ids.len(),
        0 <= j < ids.len(),
        ids[i] == ids[j],
    ensures
        mapped[i] == mapped[j],
{
}

/// Remapping the same handles a second time through the same mapper gives
/// the same result as the first time and leaves the mapper as it is.
pub proof fn lemma_remap_again_changes_nothing(
    first: EntityMapper,
    second: EntityMapper,
    third: EntityMapper,
    ids: Seq<BodyId>,
    once: Seq<BodyId>,
    twice: Seq<BodyId>,
)
    requires
        remaps(first, second, ids, once),
        remaps(second, third, ids, twice),
    ensures
        twice == once,
        mapper_entries(third) == mapper_entries(second),
        mapper_room(third) == mapper_room(second),
{
    lemma_known_need_none(mapper_entries(second).dom(), ids);
    assert(mapper_entries(third) =~= mapper_entries(second));
}

/// Sends every handle of `ids` through the mapper, first to last.
///
/// Needs room for each handle that is new to the mapper; handles the mapper
/// knows, and repeats within `ids`, cost nothing.
pub fn remap_all<const K: usize>(
    mapper: &mut EntityMapper,
    ids: [BodyId; K],
) -> (mapped: [BodyId; K])
    requires
        mapper_room(*old(mapper)) >= fresh_needed(mapper_entries(*old(mapper)).dom(), ids@),
    ensures
        remaps(*old(mapper), *final(mapper), ids@, mapped@),
{
    let ghost start = *mapper;
    let ghost known = mapper_entries(start).dom();
    let mut mapped = ids;
    let mut i: usize = 0;
    while i < K
        invariant
            i <= K,
            K == ids@.len(),
            mapped@.len() == K,
            known == mapper_entries(start).dom(),
            mapper_room(start) >= fresh_needed(known, ids@),
            remaps(start, *mapper, ids@.take(i as int), mapped@.take(i as int)),
        decreases K - i,
    {
        let ghost middle = *mapper;
        proof {
            lemma_prefix_needs_no_more(known, ids@, i + 1);
            assert(ids@.take(i + 1).drop_last() =~= ids@.take(i as int));
        }
        let ghost done = mapped@.take(i as int);
        let to = get_or_reserve(mapper, ids[i]);
        mapped[i] = to;
        proof {
            lemma_remaps_step(start, middle, *mapper, ids@.take(i as int), done, ids@[i as int], to);
            assert(done.push(to) =~= mapped@.take(i + 1));
        }
        i += 1;
    }
    assert(ids@.take(K as int) =~= ids@);
    assert(mapped@.take(K as int) =~= mapped@);
    mapped
}

} // verus!
