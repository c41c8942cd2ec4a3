//! The fixture: one sample with its assets and the properties it is expected
//! to have.

use crate::assets::{required_key, AssetCategory, AssetExtension, AssetKey, AssetStore};
use crate::color::{AseColorFormat, PngColorProfile, RGBA};
use crate::error::{AssetResolutionError, FixtureNotFoundError};
use crate::palette::{arne32, arne32_colors};
use crate::text::same_text;
use vstd::prelude::*;

verus! {

/// One sample: its identity, the bytes of its seven files, and what a reader
/// of those files is expected to find.
///
/// `version` and `name` together identify the fixture. The bytes are borrowed
/// from the store that they were found in and are never looked into.
#[derive(Clone, Copy)]
#[non_exhaustive]
pub struct FileSet<'a> {
    pub version: &'static str,
    pub name: &'static str,
    pub src_aseprite: &'a [u8],
    pub array_json: &'a [u8],
    pub basic_json: &'a [u8],
    pub hash_json: &'a [u8],
    pub array_png: &'a [u8],
    pub basic_png: &'a [u8],
    pub hash_png: &'a [u8],
    /// The colour mode of the source, which need not be that of the exported images.
    pub ase_color_format: AseColorFormat,
    pub png_color_profile: PngColorProfile,
    /// Width and height of the canvas.
    pub size: [u32; 2],
    /// Width and height of one cell of the canvas.
    pub pixel: [u8; 2],
    /// The flattened image, where it is small enough to be written down.
    pub pixels: Option<&'static [RGBA]>,
    pub palette: &'static [RGBA],
    pub n_frames: usize,
    pub n_layers: usize,
    pub n_slices: usize,
    pub n_frametags: usize,
}

/// What a fixture says, as plain values.
#[verifier::ext_equal]
pub struct FileSetView {
    pub version: Seq<char>,
    pub name: Seq<char>,
    pub src_aseprite: Seq<u8>,
    pub array_json: Seq<u8>,
    pub basic_json: Seq<u8>,
    pub hash_json: Seq<u8>,
    pub array_png: Seq<u8>,
    pub basic_png: Seq<u8>,
    pub hash_png: Seq<u8>,
    pub ase_color_format: AseColorFormat,
    pub png_color_profile: PngColorProfile,
    pub size: (nat, nat),
    pub pixel: (nat, nat),
    pub pixels: Option<Seq<RGBA>>,
    pub palette: Seq<RGBA>,
    pub n_frames: nat,
    pub n_layers: nat,
    pub n_slices: nat,
    pub n_frametags: nat,
}

impl FileSetView {
    /// The bytes of the `slot`-th required asset.
    pub open spec fn asset(self, slot: int) -> Seq<u8>
        recommends
            0 <= slot < 7,
    {
        if slot == 0 {
            self.src_aseprite
        } else if slot == 1 {
            self.array_json
        } else if slot == 2 {
            self.basic_json
        } else if slot == 3 {
            self.hash_json
        } else if slot == 4 {
            self.array_png
        } else if slot == 5 {
            self.basic_png
        } else {
            self.hash_png
        }
    }

    /// The key of the `slot`-th required asset.
    pub open spec fn key(self, slot: int) -> AssetKey
        recommends
            0 <= slot < 7,
    {
        required_key(self.version, self.name, slot)
    }

    /// What must hold of the declared properties of every fixture: the canvas
    /// and its cells are at least one pixel wide and high, the palette holds a
    /// colour, and an image that is written down has one colour for every
    /// pixel of the canvas.
    pub open spec fn well_formed(self) -> bool {
        &&& self.size.0 >= 1
        &&& self.size.1 >= 1
        &&& self.pixel.0 >= 1
        &&& self.pixel.1 >= 1
        &&& self.palette.len() >= 1
        &&& (self.pixels matches Some(colors) ==> colors.len() == self.size.0 * self.size.1)
    }

    /// The same fixture under another identity.
    pub open spec fn identified(self, version: Seq<char>, name: Seq<char>) -> FileSetView {
        FileSetView { version, name, ..self }
    }

    /// Whether the store holds all seven assets of this fixture.
    pub open spec fn resolvable(self, store: Map<AssetKey, Seq<u8>>) -> bool {
        forall|slot: int|
            0 <= slot < 7 ==> store.contains_key(#[trigger] required_key(self.version, self.name, slot))
    }

    /// The fixture with its seven assets taken from the store.
    pub open spec fn resolved(self, store: Map<AssetKey, Seq<u8>>) -> FileSetView {
        FileSetView {
            src_aseprite: store[required_key(self.version, self.name, 0)],
            array_json: store[required_key(self.version, self.name, 1)],
            basic_json: store[required_key(self.version, self.name, 2)],
            hash_json: store[required_key(self.version, self.name, 3)],
            array_png: store[required_key(self.version, self.name, 4)],
            basic_png: store[required_key(self.version, self.name, 5)],
            hash_png: store[required_key(self.version, self.name, 6)],
            ..self
        }
    }
}

impl<'a> View for FileSet<'a> {
    type V = FileSetView;

    open spec fn view(&self) -> FileSetView {
        FileSetView {
            version: self.version@,
            name: self.name@,
            src_aseprite: self.src_aseprite@,
            array_json: self.array_json@,
            basic_json: self.basic_json@,
            hash_json: self.hash_json@,
            array_png: self.array_png@,
            basic_png: self.basic_png@,
            hash_png: self.hash_png@,
            ase_color_format: self.ase_color_format,
            png_color_profile: self.png_color_profile,
            size: (self.size[0] as nat, self.size[1] as nat),
            pixel: (self.pixel[0] as nat, self.pixel[1] as nat),
            pixels: match self.pixels {
                Some(colors) => Some(colors@),
                None => None,
            },
            palette: self.palette@,
            n_frames: self.n_frames as nat,
            n_layers: self.n_layers as nat,
            n_slices: self.n_slices as nat,
            n_frametags: self.n_frametags as nat,
        }
    }
}

/// What each fixture of a list says.
pub open spec fn views<'a>(fixtures: Seq<FileSet<'a>>) -> Seq<FileSetView> {
    fixtures.map_values(|f: FileSet<'a>| f@)
}

/// The default fixture, which every declaration starts from: no identity and
/// no bytes, an RGBA source with an sRGB export, one transparent black pixel,
/// the reference palette, one frame, one layer, no slices and no frame tags.
pub open spec fn template() -> FileSetView {
    FileSetView {
        version: ""@,
        name: ""@,
        src_aseprite: Seq::empty(),
        array_json: Seq::empty(),
        basic_json: Seq::empty(),
        hash_json: Seq::empty(),
        array_png: Seq::empty(),
        basic_png: Seq::empty(),
        hash_png: Seq::empty(),
        ase_color_format: AseColorFormat::Rgba,
        png_color_profile: PngColorProfile::SRGB,
        size: (1, 1),
        pixel: (1, 1),
        pixels: Some(seq![RGBA(0x00000000)]),
        palette: arne32_colors(),
        n_frames: 1,
        n_layers: 1,
        n_slices: 0,
        n_frametags: 0,
    }
}

/// Whether `key` is the first of the seven assets of the fixture
/// `(version, name)` that the store does not hold.
pub open spec fn missing_first(
    store: Map<AssetKey, Seq<u8>>,
    version: Seq<char>,
    name: Seq<char>,
    key: AssetKey,
) -> bool {
    exists|slot: int|
        {
            &&& 0 <= slot < 7
            &&& key == #[trigger] required_key(version, name, slot)
            &&& !store.contains_key(key)
            &&& forall|earlier: int|
                0 <= earlier < slot ==> store.contains_key(
                    #[trigger] required_key(version, name, earlier),
                )
        }
}

/// Whether a fixture has the given identity.
pub open spec fn has_identity(fixture: FileSetView, version: Seq<char>, name: Seq<char>) -> bool {
    fixture.version == version && fixture.name == name
}

/// Whether no two fixtures of a list have the same identity.
pub open spec fn identities_distinct(fixtures: Seq<FileSetView>) -> bool {
    forall|i: int, j: int|
        0 <= i < j < fixtures.len() ==> !has_identity(
            #[trigger] fixtures[i],
            (#[trigger] fixtures[j]).version,
            fixtures[j].name,
        )
}

/// Whether the fixture at `i` is the first of a list that has the given identity.
pub open spec fn first_with_identity(
    fixtures: Seq<FileSetView>,
    i: int,
    version: Seq<char>,
    name: Seq<char>,
) -> bool {
    &&& 0 <= i < fixtures.len()
    &&& has_identity(fixtures[i], version, name)
    &&& forall|earlier: int|
        0 <= earlier < i ==> !has_identity(#[trigger] fixtures[earlier], version, name)
}

/// Whether a list holds a fixture of the given identity.
pub open spec fn holds_identity(fixtures: Seq<FileSetView>, version: Seq<char>, name: Seq<char>) -> bool {
    exists|i: int| 0 <= i < fixtures.len() && has_identity(#[trigger] fixtures[i], version, name)
}

impl<'a> Default for FileSet<'a> {
    /// The default fixture.
    fn default() -> (fixture: FileSet<'a>)
        ensures
            fixture@ == template(),
            fixture@.well_formed(),
    {
        FileSet {
            version: "",
            name: "",
            src_aseprite: &[],
            array_json: &[],
            basic_json: &[],
            hash_json: &[],
            array_png: &[],
            basic_png: &[],
            hash_png: &[],
            ase_color_format: AseColorFormat::Rgba,
            png_color_profile: PngColorProfile::SRGB,
            size: [1, 1],
            pixel: [1, 1],
            pixels: Some(&[RGBA(0x00000000)]),
            palette: arne32(),
            n_frames: 1,
            n_layers: 1,
            n_slices: 0,
            n_frametags: 0,
        }
    }
}

/// Looks up one asset and says which one it was if the store does not hold it.
fn require<'a>(
    store: &'a AssetStore,
    version: &'static str,
    category: AssetCategory,
    name: &'static str,
    extension: AssetExtension,
) -> (found: Result<&'a [u8], AssetResolutionError>)
    ensures
        match found {
            Ok(bytes) => {
                let key = AssetKey { version: version@, category, name: name@, extension };
                store@.contains_key(key) && bytes@ == store@[key]
            },
            Err(e) => !store@.contains_key(e@) && e@ == (AssetKey {
                version: version@,
                category,
                name: name@,
                extension,
            }),
        },
{
    match store.get(version, category, name, extension) {
        Some(bytes) => Ok(bytes),
        None => Err(AssetResolutionError { version, name, category, extension }),
    }
}

impl<'a> FileSet<'a> {
    /// Builds one fixture: gives `declared` the identity `(version, name)` and
    /// the seven assets that the store holds for it, and leaves the rest of
    /// `declared` as it is. `declared` is the default fixture with those
    /// fields changed that set this fixture apart.
    ///
    /// Fails if the store lacks one of the seven assets, and names the first
    /// that it lacks.
    pub fn build(
        store: &'a AssetStore,
        version: &'static str,
        name: &'static str,
        declared: FileSet<'a>,
    ) -> (built: Result<FileSet<'a>, AssetResolutionError>)
        ensures
            built is Ok <==> declared@.identified(version@, name@).resolvable(store@),
            built matches Ok(fixture) ==> fixture@ == declared@.identified(version@, name@).resolved(
                store@,
            ),
            built matches Ok(fixture) ==> (fixture@.well_formed() <==> declared@.well_formed()),
            built matches Err(e) ==> missing_first(store@, version@, name@, e@),
    {
        let src_aseprite = require(store, version, AssetCategory::Source, name, AssetExtension::Aseprite)?;
        let array_json = require(store, version, AssetCategory::Array, name, AssetExtension::Json)?;
        let basic_json = require(store, version, AssetCategory::Basic, name, AssetExtension::Json)?;
        let hash_json = require(store, version, AssetCategory::Hash, name, AssetExtension::Json)?;
        let array_png = require(store, version, AssetCategory::Array, name, AssetExtension::Png)?;
        let basic_png = require(store, version, AssetCategory::Basic, name, AssetExtension::Png)?;
        let hash_png = require(store, version, AssetCategory::Hash, name, AssetExtension::Png)?;
        Ok(
            FileSet {
                version,
                name,
                src_aseprite,
                array_json,
                basic_json,
                hash_json,
                array_png,
                basic_png,
                hash_png,
                ..declared
            },
        )
    }

    /// The first fixture of `fixtures` with the identity `(version, name)`.
    pub fn find(fixtures: &[FileSet<'a>], version: &str, name: &str) -> (found: Result<
        FileSet<'a>,
        FixtureNotFoundError,
    >)
        ensures
            found is Ok <==> holds_identity(views(fixtures@), version@, name@),
            found matches Ok(fixture) ==> exists|i: int|
                first_with_identity(views(fixtures@), i, version@, name@) && fixture
                    == #[trigger] fixtures@[i],
            found matches Err(e) ==> e.version@ == version@ && e.name@ == name@,
    {
        let mut i: usize = 0;
        while i < fixtures.len()
            invariant
                i <= fixtures.len(),
                forall|j: int|
                    0 <= j < i ==> !has_identity(#[trigger] views(fixtures@)[j], version@, name@),
            decreases fixtures.len() - i,
        {
            let fixture = fixtures[i];
            if same_text(fixture.version, version) && same_text(fixture.name, name) {
                assert(first_with_identity(views(fixtures@), i as int, version@, name@));
                return Ok(fixture);
            }
            i = i + 1;
        }
        Err(FixtureNotFoundError { version: String::from_str(version), name: String::from_str(name) })
    }
}

} // verus!
