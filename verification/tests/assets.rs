use aseprite_fixtures::assets::{relative_path, required_assets};
use aseprite_fixtures::{AssetCategory, AssetExtension, AssetStore};

#[test]
fn new_store_holds_nothing() {
    let store = AssetStore::new();
    assert!(store.get("1.2.25", AssetCategory::Source, "complex.aseprite", AssetExtension::Aseprite).is_none());
    assert!(store.get("", AssetCategory::Array, "", AssetExtension::Json).is_none());
}

#[test]
fn get_returns_what_was_inserted() {
    let mut store = AssetStore::new();
    store.insert("1.2.25", AssetCategory::Array, "a.aseprite", AssetExtension::Json, vec![1, 2, 3]);
    store.insert("1.2.25", AssetCategory::Array, "a.aseprite", AssetExtension::Png, vec![4]);
    store.insert("1.2.25", AssetCategory::Source, "a.aseprite", AssetExtension::Aseprite, vec![]);
    assert_eq!(
        store.get("1.2.25", AssetCategory::Array, "a.aseprite", AssetExtension::Json),
        Some(&[1u8, 2, 3][..])
    );
    assert_eq!(
        store.get("1.2.25", AssetCategory::Array, "a.aseprite", AssetExtension::Png),
        Some(&[4u8][..])
    );
    assert_eq!(
        store.get("1.2.25", AssetCategory::Source, "a.aseprite", AssetExtension::Aseprite),
        Some(&[][..])
    );
}

#[test]
fn every_part_of_the_key_counts() {
    let mut store = AssetStore::new();
    store.insert("1.2.25", AssetCategory::Basic, "a.aseprite", AssetExtension::Json, vec![9]);
    assert!(store.get("1.2.26", AssetCategory::Basic, "a.aseprite", AssetExtension::Json).is_none());
    assert!(store.get("1.2.25", AssetCategory::Hash, "a.aseprite", AssetExtension::Json).is_none());
    assert!(store.get("1.2.25", AssetCategory::Basic, "b.aseprite", AssetExtension::Json).is_none());
    assert!(store.get("1.2.25", AssetCategory::Basic, "a.aseprite", AssetExtension::Png).is_none());
    assert!(store.get("a.aseprite", AssetCategory::Basic, "1.2.25", AssetExtension::Json).is_none());
    assert!(store.get("1.2.25", AssetCategory::Basic, "a.aseprite", AssetExtension::Json).is_some());
}

#[test]
fn insert_replaces_under_the_same_key() {
    let mut store = AssetStore::new();
    store.insert("v", AssetCategory::Hash, "n", AssetExtension::Png, vec![1]);
    store.insert("v", AssetCategory::Hash, "m", AssetExtension::Png, vec![2]);
    store.insert("v", AssetCategory::Hash, "n", AssetExtension::Png, vec![3, 3]);
    assert_eq!(store.get("v", AssetCategory::Hash, "n", AssetExtension::Png), Some(&[3u8, 3][..]));
    assert_eq!(store.get("v", AssetCategory::Hash, "m", AssetExtension::Png), Some(&[2u8][..]));
    store.insert("v", AssetCategory::Hash, "m", AssetExtension::Png, vec![]);
    assert_eq!(store.get("v", AssetCategory::Hash, "m", AssetExtension::Png), Some(&[][..]));
    assert_eq!(store.get("v", AssetCategory::Hash, "n", AssetExtension::Png), Some(&[3u8, 3][..]));
}

#[test]
fn required_assets_come_in_lookup_order() {
    assert_eq!(
        required_assets(),
        [
            (AssetCategory::Source, AssetExtension::Aseprite),
            (AssetCategory::Array, AssetExtension::Json),
            (AssetCategory::Basic, AssetExtension::Json),
            (AssetCategory::Hash, AssetExtension::Json),
            (AssetCategory::Array, AssetExtension::Png),
            (AssetCategory::Basic, AssetExtension::Png),
            (AssetCategory::Hash, AssetExtension::Png),
        ]
    );
}

#[test]
fn relative_path_follows_the_layout() {
    assert_eq!(
        relative_path("1.2.25", AssetCategory::Source, "complex.aseprite", AssetExtension::Aseprite),
        "data/1.2.25/_src/complex.aseprite"
    );
    assert_eq!(
        relative_path("1.2.25", AssetCategory::Array, "complex.aseprite", AssetExtension::Json),
        "data/1.2.25/array/complex.aseprite.json"
    );
    assert_eq!(
        relative_path("1.2.25", AssetCategory::Basic, "complex.aseprite", AssetExtension::Json),
        "data/1.2.25/basic/complex.aseprite.json"
    );
    assert_eq!(
        relative_path("1.2.25", AssetCategory::Hash, "complex.aseprite", AssetExtension::Json),
        "data/1.2.25/hash/complex.aseprite.json"
    );
    assert_eq!(
        relative_path("1.2.25", AssetCategory::Array, "complex.aseprite", AssetExtension::Png),
        "data/1.2.25/array/complex.aseprite.png"
    );
    assert_eq!(
        relative_path("1.2.25", AssetCategory::Basic, "basic-grey-1x1-black.aseprite", AssetExtension::Png),
        "data/1.2.25/basic/basic-grey-1x1-black.aseprite.png"
    );
    assert_eq!(
        relative_path("1.2.25", AssetCategory::Hash, "basic-grey-1x1-black.aseprite", AssetExtension::Png),
        "data/1.2.25/hash/basic-grey-1x1-black.aseprite.png"
    );
    assert_eq!(relative_path("", AssetCategory::Source, "", AssetExtension::Aseprite), "data//_src/");
}
