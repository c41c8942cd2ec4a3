//! The corpus: the fixed list of fixtures, as it is declared and as it is
//! built over a store.

use crate::assets::{AssetKey, AssetStore};
use crate::color::{AseColorFormat, PngColorProfile, RGBA};
use crate::error::{AssetResolutionError, CatalogError};
use crate::fileset::{
    first_with_identity, has_identity, holds_identity, identities_distinct, missing_first,
    template, views, FileSet, FileSetView,
};
use crate::laws::{lemma_corpus_identities_distinct, lemma_corpus_well_formed};
use vstd::prelude::*;

verus! {

/// The declaration of the fixture that exercises many structural fields at
/// once. Its image is too large to be written down.
pub open spec fn complex_declaration() -> FileSetView {
    FileSetView {
        version: "1.2.25"@,
        name: "complex.aseprite"@,
        n_frames: 9,
        n_layers: 25,
        n_slices: 3,
        n_frametags: 6,
        size: (8, 8),
        pixels: None,
        ..template()
    }
}

/// The declarations of the corpus, in its order: the greyscale samples, the
/// indexed ones, the RGBA ones, and the complex one last. Each says only what
/// sets it apart from [`template`]. None has its bytes yet.
pub open spec fn declared_corpus() -> Seq<FileSetView> {
    seq![
        FileSetView {
            version: "1.2.25"@,
            name: "basic-grey-1x1-black.aseprite"@,
            ase_color_format: AseColorFormat::Greyscale,
            pixels: Some(seq![RGBA(0x000000FF)]),
            ..template()
        },
        FileSetView {
            version: "1.2.25"@,
            name: "basic-grey-1x1-white.aseprite"@,
            ase_color_format: AseColorFormat::Greyscale,
            pixels: Some(seq![RGBA(0xFFFFFFFF)]),
            ..template()
        },
        FileSetView {
            version: "1.2.25"@,
            name: "basic-indexed-1x1-transparent.aseprite"@,
            ase_color_format: AseColorFormat::Indexed,
            pixels: Some(seq![RGBA(0x00000000)]),
            ..template()
        },
        FileSetView {
            version: "1.2.25"@,
            name: "basic-indexed-1x1-green.aseprite"@,
            ase_color_format: AseColorFormat::Indexed,
            pixels: Some(seq![RGBA(0xA3CE27FF)]),
            ..template()
        },
        FileSetView {
            version: "1.2.25"@,
            name: "basic-rgba-1x1-empty.aseprite"@,
            pixels: Some(seq![RGBA(0x00000000)]),
            ..template()
        },
        FileSetView {
            version: "1.2.25"@,
            name: "basic-rgba-1x1-green-none.aseprite"@,
            pixels: Some(seq![RGBA(0xA3CE27FF)]),
            png_color_profile: PngColorProfile::SRGB,
            ..template()
        },
        FileSetView {
            version: "1.2.25"@,
            name: "basic-rgba-1x1-green-srgb.aseprite"@,
            pixels: Some(seq![RGBA(0xA3CE27FF)]),
            png_color_profile: PngColorProfile::SRGB,
            ..template()
        },
        FileSetView {
            version: "1.2.25"@,
            name: "basic-rgba-1x1-green-monitor1.aseprite"@,
            pixels: Some(seq![RGBA(0xA3CE27FF)]),
            png_color_profile: PngColorProfile::Other,
            ..template()
        },
        FileSetView {
            version: "1.2.25"@,
            name: "basic-rgba-1x1-transparent-square.aseprite"@,
            pixel: (1, 1),
            ..template()
        },
        FileSetView {
            version: "1.2.25"@,
            name: "basic-rgba-1x1-transparent-tall.aseprite"@,
            pixel: (1, 2),
            ..template()
        },
        FileSetView {
            version: "1.2.25"@,
            name: "basic-rgba-1x1-transparent-wide.aseprite"@,
            pixel: (2, 1),
            ..template()
        },
        FileSetView {
            version: "1.2.25"@,
            name: "basic-rgba-1x1-transparent.aseprite"@,
            pixel: (1, 1),
            ..template()
        },
        complex_declaration(),
    ]
}

/// Whether the store holds every asset of every fixture of the corpus.
pub open spec fn corpus_resolvable(store: Map<AssetKey, Seq<u8>>) -> bool {
    forall|i: int|
        0 <= i < declared_corpus().len() ==> (#[trigger] declared_corpus()[i]).resolvable(store)
}

/// The corpus over a store that holds all its assets.
pub open spec fn corpus(store: Map<AssetKey, Seq<u8>>) -> Seq<FileSetView> {
    declared_corpus().map_values(|declared: FileSetView| declared.resolved(store))
}

/// Whether `key` is the first asset, in the order of the corpus and of the
/// seven assets of each fixture, that the store does not hold.
pub open spec fn corpus_missing_first(store: Map<AssetKey, Seq<u8>>, key: AssetKey) -> bool {
    exists|i: int|
        {
            &&& 0 <= i < declared_corpus().len()
            &&& missing_first(
                store,
                (#[trigger] declared_corpus()[i]).version,
                declared_corpus()[i].name,
                key,
            )
            &&& forall|earlier: int|
                0 <= earlier < i ==> (#[trigger] declared_corpus()[earlier]).resolvable(store)
        }
}

impl<'a> FileSet<'a> {
    /// The fixture that exercises many structural fields at once, as it is declared.
    fn complex_declared() -> (declared: FileSet<'static>)
        ensures
            declared@ == complex_declaration(),
    {
        FileSet {
            version: "1.2.25",
            name: "complex.aseprite",
            n_frames: 9,
            n_layers: 25,
            n_slices: 3,
            n_frametags: 6,
            size: [8, 8],
            pixels: None,
            ..FileSet::default()
        }
    }

    /// The fixtures of the corpus as they are declared, in the order of the
    /// corpus: each with its identity and its expected properties, none with
    /// its bytes.
    pub fn declarations() -> (declared: Vec<FileSet<'static>>)
        ensures
            views(declared@) == declared_corpus(),
    {
        let declared = vec![
            FileSet {
                version: "1.2.25",
                name: "basic-grey-1x1-black.aseprite",
                ase_color_format: AseColorFormat::Greyscale,
                pixels: Some(&[RGBA(0x000000FF)]),
                ..FileSet::default()
            },
            FileSet {
                version: "1.2.25",
                name: "basic-grey-1x1-white.aseprite",
                ase_color_format: AseColorFormat::Greyscale,
                pixels: Some(&[RGBA(0xFFFFFFFF)]),
                ..FileSet::default()
            },
            FileSet {
                version: "1.2.25",
                name: "basic-indexed-1x1-transparent.aseprite",
                ase_color_format: AseColorFormat::Indexed,
                pixels: Some(&[RGBA(0x00000000)]),
                ..FileSet::default()
            },
            FileSet {
                version: "1.2.25",
                name: "basic-indexed-1x1-green.aseprite",
                ase_color_format: AseColorFormat::Indexed,
                pixels: Some(&[RGBA(0xA3CE27FF)]),
                ..FileSet::default()
            },
            FileSet {
                version: "1.2.25",
                name: "basic-rgba-1x1-empty.aseprite",
                pixels: Some(&[RGBA(0x00000000)]),
                ..FileSet::default()
            },
            // The exporter writes an sRGB profile although it was told to write none.
            FileSet {
                version: "1.2.25",
                name: "basic-rgba-1x1-green-none.aseprite",
                pixels: Some(&[RGBA(0xA3CE27FF)]),
                png_color_profile: PngColorProfile::SRGB,
                ..FileSet::default()
            },
            FileSet {
                version: "1.2.25",
                name: "basic-rgba-1x1-green-srgb.aseprite",
                pixels: Some(&[RGBA(0xA3CE27FF)]),
                png_color_profile: PngColorProfile::SRGB,
                ..FileSet::default()
            },
            FileSet {
                version: "1.2.25",
                name: "basic-rgba-1x1-green-monitor1.aseprite",
                pixels: Some(&[RGBA(0xA3CE27FF)]),
                png_color_profile: PngColorProfile::Other,
                ..FileSet::default()
            },
            FileSet {
                version: "1.2.25",
                name: "basic-rgba-1x1-transparent-square.aseprite",
                pixel: [1, 1],
                ..FileSet::default()
            },
            FileSet {
                version: "1.2.25",
                name: "basic-rgba-1x1-transparent-tall.aseprite",
                pixel: [1, 2],
                ..FileSet::default()
            },
            FileSet {
                version: "1.2.25",
                name: "basic-rgba-1x1-transparent-wide.aseprite",
                pixel: [2, 1],
                ..FileSet::default()
            },
            FileSet {
                version: "1.2.25",
                name: "basic-rgba-1x1-transparent.aseprite",
                pixel: [1, 1],
                ..FileSet::default()
            },
            Self::complex_declared(),
        ];
        assert(views(declared@) =~~= declared_corpus());
        declared
    }

    /// The fixture that exercises many structural fields at once, with its
    /// assets from the store.
    pub fn complex_1_2_25(store: &'a AssetStore) -> (built: Result<FileSet<'a>, AssetResolutionError>)
        ensures
            built is Ok <==> complex_declaration().resolvable(store@),
            built matches Ok(fixture) ==> fixture@ == complex_declaration().resolved(store@),
            built matches Err(e) ==> missing_first(store@, "1.2.25"@, "complex.aseprite"@, e@),
    {
        Self::build(store, "1.2.25", "complex.aseprite", Self::complex_declared())
    }

    /// The whole corpus in its order, each fixture with its assets from the
    /// store.
    ///
    /// Fails if the store lacks an asset of any fixture, and names the first
    /// that it lacks: no part of the corpus is handed out without the rest.
    pub fn list(store: &'a AssetStore) -> (listed: Result<Vec<FileSet<'a>>, AssetResolutionError>)
        ensures
            listed is Ok <==> corpus_resolvable(store@),
            listed matches Ok(fixtures) ==> {
                &&& views(fixtures@) == corpus(store@)
                &&& fixtures@.len() == 13
                &&& forall|i: int|
                    0 <= i < fixtures@.len() ==> (#[trigger] fixtures@[i])@
                        == declared_corpus()[i].resolved(store@)
                &&& forall|i: int| 0 <= i < fixtures@.len() ==> (#[trigger] fixtures@[i])@.well_formed()
                &&& identities_distinct(views(fixtures@))
            },
            listed matches Err(e) ==> corpus_missing_first(store@, e@),
    {
        let declared = Self::declarations();
        let mut fixtures: Vec<FileSet<'a>> = Vec::new();
        let mut i: usize = 0;
        while i < declared.len()
            invariant
                i <= declared.len(),
                views(declared@) == declared_corpus(),
                fixtures.len() == i,
                forall|j: int| 0 <= j < i ==> (#[trigger] declared_corpus()[j]).resolvable(store@),
                forall|j: int|
                    0 <= j < i ==> (#[trigger] fixtures[j])@ == declared_corpus()[j].resolved(store@),
            decreases declared.len() - i,
        {
            let next = declared[i];
            assert(next@ == declared_corpus()[i as int]);
            assert(next@.identified(next.version@, next.name@) =~= next@);
            match Self::build(store, next.version, next.name, next) {
                Ok(fixture) => {
                    fixtures.push(fixture);
                },
                Err(e) => {
                    return Err(e);
                },
            }
            i = i + 1;
        }
        proof {
            lemma_corpus_well_formed(store@);
            lemma_corpus_identities_distinct(store@);
            assert forall|i: int| 0 <= i < fixtures@.len() implies (#[trigger] fixtures@[i])@.well_formed() by {
                assert(corpus(store@)[i].well_formed());
            }
        }
        Ok(fixtures)
    }

    /// The fixture of the corpus with the identity `(version, name)`, with its
    /// assets from the store.
    ///
    /// Fails as [`FileSet::list`] does if the store lacks an asset of the
    /// corpus, and with [`FixtureNotFoundError`] if the corpus has no such
    /// fixture.
    pub fn fixture(store: &'a AssetStore, version: &str, name: &str) -> (found: Result<
        FileSet<'a>,
        CatalogError,
    >)
        ensures
            !corpus_resolvable(store@) ==> (found matches Err(CatalogError::AssetResolution(e))
                && corpus_missing_first(store@, e@)),
            corpus_resolvable(store@) && !holds_identity(declared_corpus(), version@, name@) ==> (
            found matches Err(CatalogError::FixtureNotFound(e)) && e.version@ == version@ && e.name@
                == name@),
            corpus_resolvable(store@) && holds_identity(declared_corpus(), version@, name@) ==> (
            found matches Ok(fixture) && exists|i: int|
                first_with_identity(declared_corpus(), i, version@, name@) && fixture@
                    == (#[trigger] declared_corpus()[i]).resolved(store@)),
    {
        let fixtures = match Self::list(store) {
            Ok(fixtures) => fixtures,
            Err(e) => {
                return Err(CatalogError::AssetResolution(e));
            },
        };
        match Self::find(fixtures.as_slice(), version, name) {
            Ok(fixture) => {
                proof {
                    let i = choose|i: int|
                        first_with_identity(views(fixtures@), i, version@, name@) && fixture
                            == #[trigger] fixtures@[i];
                    assert forall|earlier: int| 0 <= earlier < i implies !has_identity(
                        #[trigger] declared_corpus()[earlier],
                        version@,
                        name@,
                    ) by {
                        assert(!has_identity(views(fixtures@)[earlier], version@, name@));
                    }
                    assert(first_with_identity(declared_corpus(), i, version@, name@));
                }
                Ok(fixture)
            },
            Err(e) => {
                assert forall|i: int| 0 <= i < declared_corpus().len() implies !has_identity(
                    #[trigger] declared_corpus()[i],
                    version@,
                    name@,
                ) by {
                    assert(!has_identity(views(fixtures@)[i], version@, name@));
                }
                Err(CatalogError::FixtureNotFound(e))
            },
        }
    }
}

} // verus!
