//! The asset store: the bytes of every sample file, held in memory and found
//! by version, category, name and extension.

use crate::text::same_text;
use vstd::prelude::*;

verus! {

/// Where an asset comes from: the source file itself, or one of the three
/// export layouts.
#[derive(Clone, Copy, Debug, PartialEq, Eq, Structural, Hash)]
pub enum AssetCategory {
    Source,
    Array,
    Basic,
    Hash,
}

/// What kind of file an asset is.
#[derive(Clone, Copy, Debug, PartialEq, Eq, Structural, Hash)]
pub enum AssetExtension {
    /// The source file, whose name already ends in its own extension.
    Aseprite,
    Json,
    Png,
}

/// The key of one asset.
pub struct AssetKey {
    pub version: Seq<char>,
    pub category: AssetCategory,
    pub name: Seq<char>,
    pub extension: AssetExtension,
}

/// The seven assets that every fixture needs, in the order in which they are
/// looked up.
pub open spec fn required_slots() -> Seq<(AssetCategory, AssetExtension)> {
    seq![
        (AssetCategory::Source, AssetExtension::Aseprite),
        (AssetCategory::Array, AssetExtension::Json),
        (AssetCategory::Basic, AssetExtension::Json),
        (AssetCategory::Hash, AssetExtension::Json),
        (AssetCategory::Array, AssetExtension::Png),
        (AssetCategory::Basic, AssetExtension::Png),
        (AssetCategory::Hash, AssetExtension::Png),
    ]
}

/// The key of the `slot`-th required asset of the fixture `(version, name)`.
pub open spec fn required_key(version: Seq<char>, name: Seq<char>, slot: int) -> AssetKey
    recommends
        0 <= slot < 7,
{
    AssetKey {
        version,
        category: required_slots()[slot].0,
        name,
        extension: required_slots()[slot].1,
    }
}

/// The directory of a category below the directory of a version.
pub open spec fn directory(category: AssetCategory) -> Seq<char> {
    match category {
        AssetCategory::Source => "_src"@,
        AssetCategory::Array => "array"@,
        AssetCategory::Basic => "basic"@,
        AssetCategory::Hash => "hash"@,
    }
}

/// What an extension adds to the name of the sample.
pub open spec fn suffix(extension: AssetExtension) -> Seq<char> {
    match extension {
        AssetExtension::Aseprite => ""@,
        AssetExtension::Json => ".json"@,
        AssetExtension::Png => ".png"@,
    }
}

/// The path of an asset, relative to the directory that holds `data`.
pub open spec fn path_text(key: AssetKey) -> Seq<char> {
    "data/"@ + key.version + "/"@ + directory(key.category) + "/"@ + key.name + suffix(
        key.extension,
    )
}

/// The seven required assets, in the order of [`required_slots`].
pub fn required_assets() -> (slots: [(AssetCategory, AssetExtension); 7])
    ensures
        slots@ == required_slots(),
{
    let slots = [
        (AssetCategory::Source, AssetExtension::Aseprite),
        (AssetCategory::Array, AssetExtension::Json),
        (AssetCategory::Basic, AssetExtension::Json),
        (AssetCategory::Hash, AssetExtension::Json),
        (AssetCategory::Array, AssetExtension::Png),
        (AssetCategory::Basic, AssetExtension::Png),
        (AssetCategory::Hash, AssetExtension::Png),
    ];
    slots
}

/// Where the file of an asset lies: `data/<version>/<directory>/<name><suffix>`.
pub fn relative_path(
    version: &str,
    category: AssetCategory,
    name: &str,
    extension: AssetExtension,
) -> (path: String)
    ensures
        path@ == path_text(AssetKey { version: version@, category, name: name@, extension }),
{
    let dir = match category {
        AssetCategory::Source => "_src",
        AssetCategory::Array => "array",
        AssetCategory::Basic => "basic",
        AssetCategory::Hash => "hash",
    };
    let end = match extension {
        AssetExtension::Aseprite => "",
        AssetExtension::Json => ".json",
        AssetExtension::Png => ".png",
    };
    let mut path = String::from_str("data/");
    path.append(version);
    path.append("/");
    path.append(dir);
    path.append("/");
    path.append(name);
    path.append(end);
    path
}

struct Entry {
    version: String,
    category: AssetCategory,
    name: String,
    extension: AssetExtension,
    bytes: Vec<u8>,
}

impl Entry {
    spec fn key(self) -> AssetKey {
        AssetKey {
            version: self.version@,
            category: self.category,
            name: self.name@,
            extension: self.extension,
        }
    }
}

/// The assets that are at hand. It maps a key to the bytes of the asset, and
/// holds at most one asset under a key.
pub struct AssetStore {
    entries: Vec<Entry>,
}

impl View for AssetStore {
    type V = Map<AssetKey, Seq<u8>>;

    closed spec fn view(&self) -> Map<AssetKey, Seq<u8>> {
        Map::new(|key: AssetKey| self.holds(key), |key: AssetKey| self.entries[self.index_of(key)].bytes@)
    }
}

impl AssetStore {
    #[verifier::type_invariant]
    spec fn keys_distinct(self) -> bool {
        forall|i: int, j: int|
            0 <= i < j < self.entries.len() ==> (#[trigger] self.entries[i]).key()
                != (#[trigger] self.entries[j]).key()
    }

    spec fn holds(self, key: AssetKey) -> bool {
        exists|i: int| 0 <= i < self.entries.len() && (#[trigger] self.entries[i]).key() == key
    }

    spec fn index_of(self, key: AssetKey) -> int {
        choose|i: int| 0 <= i < self.entries.len() && (#[trigger] self.entries[i]).key() == key
    }

    /// A store that holds nothing.
    pub fn new() -> (store: AssetStore)
        ensures
            store@ == Map::<AssetKey, Seq<u8>>::empty(),
    {
        AssetStore { entries: Vec::new() }
    }

    fn position(
        &self,
        version: &str,
        category: AssetCategory,
        name: &str,
        extension: AssetExtension,
    ) -> (found: Option<usize>)
        ensures
            match found {
                Some(i) => i < self.entries.len() && self.entries[i as int].key() == (AssetKey {
                    version: version@,
                    category,
                    name: name@,
                    extension,
                }),
                None => !self.holds(AssetKey { version: version@, category, name: name@, extension }),
            },
    {
        let ghost key = AssetKey { version: version@, category, name: name@, extension };
        let mut i: usize = 0;
        while i < self.entries.len()
            invariant
                i <= self.entries.len(),
                key == (AssetKey { version: version@, category, name: name@, extension }),
                forall|j: int| 0 <= j < i ==> (#[trigger] self.entries[j]).key() != key,
            decreases self.entries.len() - i,
        {
            let entry = &self.entries[i];
            if entry.category == category && entry.extension == extension && same_text(
                entry.version.as_str(),
                version,
            ) && same_text(entry.name.as_str(), name) {
                return Some(i);
            }
            i = i + 1;
        }
        None
    }

    /// Puts an asset under its key. An asset that was under the key before is
    /// replaced.
    pub fn insert(
        &mut self,
        version: &str,
        category: AssetCategory,
        name: &str,
        extension: AssetExtension,
        bytes: Vec<u8>,
    )
        ensures
            final(self)@ == old(self)@.insert(
                AssetKey { version: version@, category, name: name@, extension },
                bytes@,
            ),
    {
        let ghost key = AssetKey { version: version@, category, name: name@, extension };
        proof {
            use_type_invariant(&*self);
        }
        let found = self.position(version, category, name, extension);
        let entry = Entry {
            version: String::from_str(version),
            category,
            name: String::from_str(name),
            extension,
            bytes,
        };
        // The entries are changed outside the store and then put back, so
        // that the store has distinct keys whenever it is looked at.
        let mut entries: Vec<Entry> = Vec::new();
        core::mem::swap(&mut self.entries, &mut entries);
        match found {
            Some(i) => {
                entries[i] = entry;
            },
            None => {
                entries.push(entry);
            },
        }
        self.entries = entries;
        proof {
            let at = match found {
                Some(i) => i as int,
                None => old(self).entries.len() as int,
            };
            assert(self.entries[at].key() == key);
            assert forall|k: AssetKey| self.holds(k) <==> k == key || old(self).holds(k) by {
                if old(self).holds(k) {
                    let j = old(self).index_of(k);
                    assert(self.entries[j].key() == k || k == key);
                }
            }
            assert forall|k: AssetKey| self.holds(k) && k != key implies self.entries[self.index_of(
                k,
            )].bytes == old(self).entries[old(self).index_of(k)].bytes by {
                let j = self.index_of(k);
                assert(old(self).entries[j].key() == k);
            }
            assert(self@ =~= old(self)@.insert(key, bytes@));
        }
    }

    /// The bytes under a key, if the store holds an asset there.
    pub fn get(
        &self,
        version: &str,
        category: AssetCategory,
        name: &str,
        extension: AssetExtension,
    ) -> (found: Option<&[u8]>)
        ensures
            match found {
                Some(bytes) => {
                    let key = AssetKey { version: version@, category, name: name@, extension };
                    self@.contains_key(key) && bytes@ == self@[key]
                },
                None => !self@.contains_key(
                    AssetKey { version: version@, category, name: name@, extension },
                ),
            },
    {
        proof {
            use_type_invariant(self);
        }
        match self.position(version, category, name, extension) {
            Some(i) => Some(self.entries[i].bytes.as_slice()),
            None => None,
        }
    }
}

} // verus!
