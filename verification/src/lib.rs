//! A corpus of Aseprite sample files: for every sample the bytes of the source
//! file and of its exports, and the properties that a reader of those files is
//! expected to find.
//!
//! The bytes live in an [`AssetStore`], which the caller fills before the
//! corpus is built. [`FileSet::list`] hands out the whole corpus, and fails
//! rather than leave a fixture out.

pub mod assets;
pub mod color;
pub mod corpus;
pub mod error;
pub mod fileset;
pub mod laws;
pub mod palette;
pub mod text;

pub use assets::{AssetCategory, AssetExtension, AssetStore};
pub use color::{AseColorFormat, PngColorProfile, RGBA};
pub use error::{AssetResolutionError, CatalogError, FixtureNotFoundError};
pub use fileset::FileSet;
