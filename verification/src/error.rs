//! The two ways in which the catalog can fail.

use crate::assets::{AssetCategory, AssetExtension, AssetKey};
use vstd::prelude::*;

verus! {

/// A required asset of a fixture is not in the store. The corpus cannot be
/// built without it.
#[derive(Clone, Copy, Debug, PartialEq, Eq)]
pub struct AssetResolutionError {
    pub version: &'static str,
    pub name: &'static str,
    pub category: AssetCategory,
    pub extension: AssetExtension,
}

/// No fixture of the corpus has the identity that was asked for.
#[derive(Debug, PartialEq, Eq)]
pub struct FixtureNotFoundError {
    pub version: String,
    pub name: String,
}

/// Why a fixture could not be handed out.
#[derive(Debug, PartialEq, Eq)]
pub enum CatalogError {
    AssetResolution(AssetResolutionError),
    FixtureNotFound(FixtureNotFoundError),
}

/// How a category is called in a message.
pub open spec fn category_name(category: AssetCategory) -> Seq<char> {
    match category {
        AssetCategory::Source => "source"@,
        AssetCategory::Array => "array"@,
        AssetCategory::Basic => "basic"@,
        AssetCategory::Hash => "hash"@,
    }
}

/// How an extension is called in a message.
pub open spec fn extension_name(extension: AssetExtension) -> Seq<char> {
    match extension {
        AssetExtension::Aseprite => "aseprite"@,
        AssetExtension::Json => "json"@,
        AssetExtension::Png => "png"@,
    }
}

/// The message for an asset that is missing.
pub open spec fn missing_asset_text(key: AssetKey) -> Seq<char> {
    "asset not found: version "@ + key.version + ", name "@ + key.name + ", category "@
        + category_name(key.category) + ", extension "@ + extension_name(key.extension)
}

/// The message for a fixture that is not in the corpus.
pub open spec fn missing_fixture_text(version: Seq<char>, name: Seq<char>) -> Seq<char> {
    "fixture not found: version "@ + version + ", name "@ + name
}

impl View for AssetResolutionError {
    type V = AssetKey;

    /// The key of the asset that is missing.
    open spec fn view(&self) -> AssetKey {
        AssetKey {
            version: self.version@,
            category: self.category,
            name: self.name@,
            extension: self.extension,
        }
    }
}

impl Clone for FixtureNotFoundError {
    fn clone(&self) -> (copy: FixtureNotFoundError)
        ensures
            copy == *self,
    {
        FixtureNotFoundError { version: self.version.clone(), name: self.name.clone() }
    }
}

impl Clone for CatalogError {
    fn clone(&self) -> (copy: CatalogError)
        ensures
            copy == *self,
    {
        match self {
            CatalogError::AssetResolution(e) => CatalogError::AssetResolution(*e),
            CatalogError::FixtureNotFound(e) => CatalogError::FixtureNotFound(e.clone()),
        }
    }
}

impl AssetResolutionError {
    /// A message that names the asset that is missing.
    pub fn message(&self) -> (text: String)
        ensures
            text@ == missing_asset_text(self@),
    {
        let category = match self.category {
            AssetCategory::Source => "source",
            AssetCategory::Array => "array",
            AssetCategory::Basic => "basic",
            AssetCategory::Hash => "hash",
        };
        let extension = match self.extension {
            AssetExtension::Aseprite => "aseprite",
            AssetExtension::Json => "json",
            AssetExtension::Png => "png",
        };
        let mut text = String::from_str("asset not found: version ");
        text.append(self.version);
        text.append(", name ");
        text.append(self.name);
        text.append(", category ");
        text.append(category);
        text.append(", extension ");
        text.append(extension);
        text
    }
}

impl FixtureNotFoundError {
    /// A message that names the identity that was asked for.
    pub fn message(&self) -> (text: String)
        ensures
            text@ == missing_fixture_text(self.version@, self.name@),
    {
        let mut text = String::from_str("fixture not found: version ");
        text.append(self.version.as_str());
        text.append(", name ");
        text.append(self.name.as_str());
        text
    }
}

impl CatalogError {
    /// The message of the error inside.
    pub fn message(&self) -> (text: String)
        ensures
            text@ == match *self {
                CatalogError::AssetResolution(e) => missing_asset_text(e@),
                CatalogError::FixtureNotFound(e) => missing_fixture_text(e.version@, e.name@),
            },
    {
        match self {
            CatalogError::AssetResolution(e) => e.message(),
            CatalogError::FixtureNotFound(e) => e.message(),
        }
    }
}

} // verus!
