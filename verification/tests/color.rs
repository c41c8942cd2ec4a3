use aseprite_fixtures::palette::arne32;
use aseprite_fixtures::text::same_text;
use aseprite_fixtures::{AseColorFormat, PngColorProfile, RGBA};
use std::collections::hash_map::DefaultHasher;
use std::hash::{Hash, Hasher};

fn hash_of(color: RGBA) -> u64 {
    let mut hasher = DefaultHasher::new();
    color.hash(&mut hasher);
    hasher.finish()
}

#[test]
fn new_packs_red_first() {
    assert!(RGBA::new(0xA3, 0xCE, 0x27, 0xFF) == RGBA(0xA3CE27FF));
    assert!(RGBA::new(0, 0, 0, 0) == RGBA(0));
    assert!(RGBA::new(0xFF, 0xFF, 0xFF, 0xFF) == RGBA(0xFFFFFFFF));
    assert!(RGBA::new(1, 2, 3, 4) == RGBA(0x01020304));
    assert_eq!(RGBA::new(0x12, 0, 0, 0).0, 0x12000000);
    assert_eq!(RGBA::new(0, 0, 0, 0x34).0, 0x00000034);
}

#[test]
fn channels_are_the_four_bytes() {
    let color = RGBA(0xA3CE27FF);
    assert_eq!(color.red(), 0xA3);
    assert_eq!(color.green(), 0xCE);
    assert_eq!(color.blue(), 0x27);
    assert_eq!(color.alpha(), 0xFF);
    let color = RGBA(0x01020304);
    assert_eq!(color.red(), 1);
    assert_eq!(color.green(), 2);
    assert_eq!(color.blue(), 3);
    assert_eq!(color.alpha(), 4);
}

#[test]
fn packing_the_channels_gives_the_colour_back() {
    for packed in [0u32, 1, 0xFF, 0x100, 0xA3CE27FF, 0x80000000, 0xFFFFFFFF, 0x12345678] {
        let color = RGBA(packed);
        assert!(RGBA::new(color.red(), color.green(), color.blue(), color.alpha()) == color);
    }
}

#[test]
fn colours_are_equal_when_all_channels_are() {
    assert!(RGBA(0xA3CE27FF) == RGBA(0xA3CE27FF));
    assert!(RGBA(0xA3CE27FF) != RGBA(0xA3CE27FE));
    assert!(RGBA(0xA3CE27FF) != RGBA(0xA2CE27FF));
    assert!(RGBA(0xA3CE27FF) != RGBA(0xA3CF27FF));
    assert!(RGBA(0xA3CE27FF) != RGBA(0xA3CE26FF));
}

#[test]
fn colours_are_ordered_by_packed_value() {
    assert!(RGBA(0) < RGBA(1));
    assert!(RGBA(0x000000FF) < RGBA(0x00000100));
    assert!(RGBA(0xFFFFFFFF) > RGBA(0xFFFFFFFE));
    assert!(RGBA(0x7FFFFFFF) < RGBA(0x80000000));
    assert!(RGBA(5) <= RGBA(5));
    assert!(RGBA(5) >= RGBA(5));
    assert_eq!(RGBA(1).partial_cmp(&RGBA(2)), Some(std::cmp::Ordering::Less));
    assert_eq!(RGBA(2).partial_cmp(&RGBA(2)), Some(std::cmp::Ordering::Equal));
    assert_eq!(RGBA(3).partial_cmp(&RGBA(2)), Some(std::cmp::Ordering::Greater));
    assert_eq!(RGBA(1).cmp(&RGBA(2)), std::cmp::Ordering::Less);
    assert_eq!(RGBA(0x80000000).cmp(&RGBA(0x7FFFFFFF)), std::cmp::Ordering::Greater);
    assert_eq!(RGBA(9).cmp(&RGBA(9)), std::cmp::Ordering::Equal);
    let mut colors = vec![RGBA(3), RGBA(0xFFFFFFFF), RGBA(0), RGBA(0x80000000)];
    colors.sort();
    assert!(colors == vec![RGBA(0), RGBA(3), RGBA(0x80000000), RGBA(0xFFFFFFFF)]);
}

#[test]
fn equal_colours_hash_alike() {
    assert_eq!(hash_of(RGBA(0xA3CE27FF)), hash_of(RGBA::new(0xA3, 0xCE, 0x27, 0xFF)));
    assert_eq!(hash_of(RGBA(0xA3CE27FF)), {
        let mut hasher = DefaultHasher::new();
        0xA3CE27FFu32.hash(&mut hasher);
        hasher.finish()
    });
}

#[test]
fn hex_string_is_eight_lowercase_digits() {
    assert_eq!(RGBA(0xA3CE27FF).to_hex_string(), "#a3ce27ff");
    assert_eq!(RGBA(0x00000000).to_hex_string(), "#00000000");
    assert_eq!(RGBA(0x000000FF).to_hex_string(), "#000000ff");
    assert_eq!(RGBA(0xFFFFFFFF).to_hex_string(), "#ffffffff");
    assert_eq!(RGBA(0x01234567).to_hex_string(), "#01234567");
    assert_eq!(RGBA(0x89ABCDEF).to_hex_string(), "#89abcdef");
    assert_eq!(RGBA(0x0000000A).to_hex_string(), "#0000000a");
    assert_eq!(RGBA(0xF0000000).to_hex_string(), "#f0000000");
}

#[test]
fn hex_string_matches_the_formatted_value() {
    for packed in [0u32, 9, 10, 15, 16, 0xABCDEF, 0x10203040, 0xDEADBEEF, u32::MAX] {
        assert_eq!(RGBA(packed).to_hex_string(), format!("#{:08x}", packed));
    }
}

#[test]
fn colour_formats_compare_and_copy() {
    let format = AseColorFormat::Greyscale;
    let copy = format;
    assert_eq!(format, copy);
    assert_ne!(AseColorFormat::Rgba, AseColorFormat::Indexed);
    assert!(AseColorFormat::Rgba < AseColorFormat::Greyscale);
    assert!(AseColorFormat::Greyscale < AseColorFormat::Indexed);
    assert_eq!(format!("{:?}", AseColorFormat::Indexed), "Indexed");
}

#[test]
fn colour_profiles_compare_and_copy() {
    let profile = PngColorProfile::Other;
    let copy = profile;
    assert_eq!(profile, copy);
    assert_ne!(PngColorProfile::NoProfile, PngColorProfile::SRGB);
    assert!(PngColorProfile::NoProfile < PngColorProfile::SRGB);
    assert!(PngColorProfile::SRGB < PngColorProfile::Other);
    assert_eq!(format!("{:?}", PngColorProfile::SRGB), "SRGB");
}

#[test]
fn reference_palette_has_its_32_colours() {
    let expected: [u32; 32] = [
        0x00000000, 0x9D9D9DFF, 0xFFFFFFFF, 0xBE2633FF, 0xE06F8BFF, 0x493C2BFF, 0xA46422FF,
        0xEB8931FF, 0xF7E26BFF, 0x2F484EFF, 0x44891AFF, 0xA3CE27FF, 0x1B2632FF, 0x005784FF,
        0x31A2F2FF, 0xB2DCEFFF, 0x342A97FF, 0x656D71FF, 0xCCCCCCFF, 0x732930FF, 0xCB43A7FF,
        0x524F40FF, 0xAD9D33FF, 0xEC4700FF, 0xFAB40BFF, 0x115E33FF, 0x14807EFF, 0x15C2A5FF,
        0x225AF6FF, 0x9964F9FF, 0xF78ED6FF, 0xF4B990FF,
    ];
    let palette = arne32();
    assert_eq!(palette.len(), 32);
    for (color, packed) in palette.iter().zip(expected.iter()) {
        assert_eq!(color.0, *packed);
    }
}

#[test]
fn same_text_compares_characters() {
    assert!(same_text("", ""));
    assert!(same_text("1.2.25", "1.2.25"));
    assert!(!same_text("1.2.25", "1.2.26"));
    assert!(!same_text("1.2.25", "1.2.2"));
    assert!(!same_text("", "a"));
    assert!(!same_text("complex.aseprite", "Complex.aseprite"));
    assert!(same_text("grün-ß-日本", "grün-ß-日本"));
    assert!(!same_text("grün", "grun"));
    let owned = String::from("basic-grey-1x1-black.aseprite");
    assert!(same_text(&owned, "basic-grey-1x1-black.aseprite"));
}
