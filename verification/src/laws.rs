//! What holds of the corpus as a whole.

use crate::assets::{required_key, AssetKey};
use crate::corpus::{corpus, corpus_resolvable, declared_corpus};
use crate::fileset::{has_identity, identities_distinct, FileSetView};
use crate::palette::arne32_colors;
use vstd::prelude::*;

verus! {

/// The identities of a list of fixtures, in its order.
pub open spec fn identities(fixtures: Seq<FileSetView>) -> Seq<(Seq<char>, Seq<char>)> {
    fixtures.map_values(|fixture: FileSetView| (fixture.version, fixture.name))
}

/// Whether a store holds no asset without bytes.
pub open spec fn no_empty_asset(store: Map<AssetKey, Seq<u8>>) -> bool {
    forall|key: AssetKey| store.contains_key(key) ==> (#[trigger] store[key]).len() >= 1
}

/// Every declaration of the corpus is well formed: canvas and cells are at
/// least one pixel wide and high, the palette holds a colour, and an image
/// that is written down has one colour for every pixel of the canvas.
pub proof fn lemma_declarations_well_formed()
    ensures
        declared_corpus().len() == 13,
        forall|i: int|
            0 <= i < declared_corpus().len() ==> (#[trigger] declared_corpus()[i]).well_formed(),
{
    assert(arne32_colors().len() == 32);
    let declared = declared_corpus();
    assert(declared[0].well_formed());
    assert(declared[1].well_formed());
    assert(declared[2].well_formed());
    assert(declared[3].well_formed());
    assert(declared[4].well_formed());
    assert(declared[5].well_formed());
    assert(declared[6].well_formed());
    assert(declared[7].well_formed());
    assert(declared[8].well_formed());
    assert(declared[9].well_formed());
    assert(declared[10].well_formed());
    assert(declared[11].well_formed());
    assert(declared[12].well_formed());
}

/// The length of a name and three of its characters: between them they tell
/// the names of the corpus apart.
spec fn mark(name: Seq<char>) -> (nat, char, char, char) {
    (name.len(), name[15], name[21], name[27])
}

/// No two declarations of the corpus have the same identity.
pub proof fn lemma_declarations_distinct()
    ensures
        identities_distinct(declared_corpus()),
{
    reveal_strlit("basic-grey-1x1-black.aseprite");
    reveal_strlit("basic-grey-1x1-white.aseprite");
    reveal_strlit("basic-indexed-1x1-transparent.aseprite");
    reveal_strlit("basic-indexed-1x1-green.aseprite");
    reveal_strlit("basic-rgba-1x1-empty.aseprite");
    reveal_strlit("basic-rgba-1x1-green-none.aseprite");
    reveal_strlit("basic-rgba-1x1-green-srgb.aseprite");
    reveal_strlit("basic-rgba-1x1-green-monitor1.aseprite");
    reveal_strlit("basic-rgba-1x1-transparent-square.aseprite");
    reveal_strlit("basic-rgba-1x1-transparent-tall.aseprite");
    reveal_strlit("basic-rgba-1x1-transparent-wide.aseprite");
    reveal_strlit("basic-rgba-1x1-transparent.aseprite");
    reveal_strlit("complex.aseprite");
    let declared = declared_corpus();
    assert(mark(declared[0].name) == (29nat, 'b', 'a', 't'));
    assert(mark(declared[1].name) == (29nat, 'w', 'a', 't'));
    assert(mark(declared[2].name) == (38nat, 'x', 'n', 'n'));
    assert(mark(declared[3].name) == (32nat, 'x', 'e', 'p'));
    assert(mark(declared[4].name) == (29nat, 'e', 'a', 't'));
    assert(mark(declared[5].name) == (34nat, 'g', 'n', 's'));
    assert(mark(declared[6].name) == (34nat, 'g', 's', 's'));
    assert(mark(declared[7].name) == (38nat, 'g', 'm', 'r'));
    assert(mark(declared[8].name) == (42nat, 't', 'a', 's'));
    assert(mark(declared[9].name) == (40nat, 't', 'a', 't'));
    assert(mark(declared[10].name) == (40nat, 't', 'a', 'w'));
    assert(mark(declared[11].name) == (35nat, 't', 'a', 'a'));
    assert(mark(declared[12].name).0 == 16);
}

/// Every fixture of the corpus is well formed, whatever the store holds.
pub proof fn lemma_corpus_well_formed(store: Map<AssetKey, Seq<u8>>)
    ensures
        corpus(store).len() == 13,
        forall|i: int| 0 <= i < corpus(store).len() ==> (#[trigger] corpus(store)[i]).well_formed(),
{
    lemma_declarations_well_formed();
    assert forall|i: int| 0 <= i < corpus(store).len() implies (#[trigger] corpus(
        store,
    )[i]).well_formed() by {
        assert(declared_corpus()[i].well_formed());
    }
}

/// No two fixtures of the corpus have the same identity, whatever the store
/// holds.
pub proof fn lemma_corpus_identities_distinct(store: Map<AssetKey, Seq<u8>>)
    ensures
        identities_distinct(corpus(store)),
{
    lemma_declarations_distinct();
    assert forall|i: int, j: int| 0 <= i < j < corpus(store).len() implies !has_identity(
        #[trigger] corpus(store)[i],
        (#[trigger] corpus(store)[j]).version,
        corpus(store)[j].name,
    ) by {
        assert(!has_identity(
            declared_corpus()[i],
            declared_corpus()[j].version,
            declared_corpus()[j].name,
        ));
    }
}

/// Over a store that holds every asset of the corpus and no asset without
/// bytes, each of the seven assets of each fixture is what the store holds
/// under its key, and has at least one byte.
pub proof fn lemma_corpus_assets_resolved(store: Map<AssetKey, Seq<u8>>)
    requires
        corpus_resolvable(store),
        no_empty_asset(store),
    ensures
        forall|i: int, slot: int|
            #![trigger corpus(store)[i].asset(slot)]
            0 <= i < corpus(store).len() && 0 <= slot < 7 ==> {
                &&& store.contains_key(corpus(store)[i].key(slot))
                &&& corpus(store)[i].asset(slot) == store[corpus(store)[i].key(slot)]
                &&& corpus(store)[i].asset(slot).len() >= 1
            },
{
    assert forall|i: int, slot: int|
        #![trigger corpus(store)[i].asset(slot)]
        0 <= i < corpus(store).len() && 0 <= slot < 7 implies {
        &&& store.contains_key(corpus(store)[i].key(slot))
        &&& corpus(store)[i].asset(slot) == store[corpus(store)[i].key(slot)]
        &&& corpus(store)[i].asset(slot).len() >= 1
    } by {
        let declared = declared_corpus()[i];
        assert(declared.resolvable(store));
        let key = required_key(declared.version, declared.name, slot);
        assert(store.contains_key(key));
        assert(store[key].len() >= 1);
    }
}

/// Two enumerations of the corpus list the same identities in the same
/// order, whatever the two stores hold; over the same store they are the same
/// in everything.
pub proof fn lemma_enumeration_deterministic(
    first_store: Map<AssetKey, Seq<u8>>,
    second_store: Map<AssetKey, Seq<u8>>,
)
    ensures
        identities(corpus(first_store)) == identities(corpus(second_store)),
        identities(corpus(first_store)) == identities(declared_corpus()),
        first_store == second_store ==> corpus(first_store) == corpus(second_store),
{
    assert(identities(corpus(first_store)) =~= identities(declared_corpus()));
    assert(identities(corpus(second_store)) =~= identities(declared_corpus()));
}

} // verus!
