use fecc_core::asset::{Asset, AssetType};
use fecc_core::character::{Character, CharacterPart, CharacterPartColours, ColourPalette, ColourPalettes, Colourable};
use fecc_core::library::AssetLibraries;
use fecc_core::random::{
    place_asset, position_on_canvas, randomize_assets, randomize_colours, scale_for_canvas, NATIVE_HEIGHT,
};
use fecc_core::types::{Fixed, Point, Rgba};

#[test]
fn test_randomize_colours() {
    let mut character = Character::default();
    let mut palettes = ColourPalettes::new();

    let hair_colour = Rgba::new(255, 0, 0, 255);
    palettes.insert(Colourable::Hair, ColourPalette::new(vec![hair_colour]));

    randomize_colours(&mut character, &palettes);

    let assigned_colour = character.character_colours.get(Colourable::Hair);
    assert_eq!(assigned_colour.base, hair_colour);
}

#[test]
fn test_randomize_assets() {
    let mut character = Character::default();
    let mut libraries = AssetLibraries::new();

    let face_asset = Asset::new("Face1".to_string(), String::new(), None, AssetType::Face);
    libraries.insert(face_asset.clone());

    let types_to_randomize = vec![AssetType::Face];
    let canvas_size = Point::from_pixels(100, 100);

    randomize_assets(&mut character, &libraries, &types_to_randomize, canvas_size);

    assert!(character.face.is_some());
    assert_eq!(character.face.as_ref().unwrap().asset.id, face_asset.id);
}

#[test]
fn test_randomize_assets_hair_back_link() {
    let mut character = Character::default();
    let mut libraries = AssetLibraries::new();

    let hair_asset =
        Asset::new("Hair1".to_string(), String::new(), Some("Hair1_HairBack".to_string()), AssetType::Hair);
    libraries.insert(hair_asset.clone());

    let hair_back_asset = Asset::new("Hair1".to_string(), String::new(), None, AssetType::HairBack);
    libraries.insert(hair_back_asset.clone());

    let types_to_randomize = vec![AssetType::Hair];
    let canvas_size = Point::from_pixels(100, 100);

    randomize_assets(&mut character, &libraries, &types_to_randomize, canvas_size);

    assert!(character.hair.is_some());
    assert!(character.hair_back.is_some());
    assert_eq!(character.hair.as_ref().unwrap().asset.id, hair_asset.id);
    assert_eq!(character.hair_back.as_ref().unwrap().asset.id, hair_back_asset.id);
}

fn hair(name: &str, with_companion: bool) -> Asset {
    let companion = if with_companion { Some(format!("{name}_HairBack")) } else { None };
    Asset::new(name.to_string(), String::new(), companion, AssetType::Hair)
}

fn back_hair(name: &str) -> Asset {
    Asset::new(name.to_string(), String::new(), None, AssetType::HairBack)
}

fn some_part(asset: Asset) -> CharacterPart {
    CharacterPart {
        position: Point::from_pixels(3, 4),
        scale: Fixed::from_int(5),
        rotation: Fixed::from_raw(6),
        flipped: true,
        asset,
    }
}

#[test]
fn the_scale_is_a_whole_number_of_times_the_art() {
    assert_eq!(NATIVE_HEIGHT, 96);
    assert_eq!(scale_for_canvas(Fixed::from_int(100)), Fixed::from_int(1));
    assert_eq!(scale_for_canvas(Fixed::from_int(96)), Fixed::from_int(1));
    assert_eq!(scale_for_canvas(Fixed::from_int(191)), Fixed::from_int(1));
    assert_eq!(scale_for_canvas(Fixed::from_raw(192 * 65536 - 1)), Fixed::from_int(1));
    assert_eq!(scale_for_canvas(Fixed::from_int(192)), Fixed::from_int(2));
    assert_eq!(scale_for_canvas(Fixed::from_int(500)), Fixed::from_int(5));
    assert_eq!(scale_for_canvas(Fixed::from_raw(i32::MAX)), Fixed::from_int(341));
    // Never below the art's own size.
    assert_eq!(scale_for_canvas(Fixed::from_int(10)), Fixed::from_int(1));
    assert_eq!(scale_for_canvas(Fixed::zero()), Fixed::from_int(1));
    assert_eq!(scale_for_canvas(Fixed::from_int(-300)), Fixed::from_int(1));
    assert_eq!(scale_for_canvas(Fixed::from_raw(i32::MIN)), Fixed::from_int(1));
}

#[test]
fn layers_are_centred_and_armour_stands_on_the_lower_edge() {
    let canvas = Point::from_pixels(100, 100);
    for kind in AssetType::all() {
        let expected = if kind == AssetType::Armour {
            // 100 - 96 x 1 / 2
            Point::from_pixels(50, 52)
        } else {
            Point::from_pixels(50, 50)
        };
        assert_eq!(position_on_canvas(kind, canvas), expected);
    }
    let tall = Point::from_pixels(300, 400);
    assert_eq!(position_on_canvas(AssetType::Face, tall), Point::from_pixels(150, 200));
    // 400 - 96 x 4 / 2
    assert_eq!(position_on_canvas(AssetType::Armour, tall), Point::from_pixels(150, 208));
    let odd = Point::new(Fixed::from_raw(3), Fixed::from_raw(-3));
    assert_eq!(position_on_canvas(AssetType::Hair, odd), Point::new(Fixed::from_raw(1), Fixed::from_raw(-2)));
    let low = Point::new(Fixed::zero(), Fixed::from_raw(i32::MIN));
    assert_eq!(position_on_canvas(AssetType::Armour, low).y, Fixed::from_raw(i32::MIN));
    assert_eq!(position_on_canvas(AssetType::Token, low).y, Fixed::from_raw(i32::MIN / 2));
}

#[test]
fn a_placed_asset_is_neither_turned_nor_mirrored() {
    let mut character = Character::default();
    character.face = Some(some_part(Asset::new("Old".to_string(), String::new(), None, AssetType::Face)));
    let libraries = AssetLibraries::new();
    let asset = Asset::new("New".to_string(), "p".to_string(), None, AssetType::Face);
    place_asset(&mut character, &libraries, AssetType::Face, &asset, Point::from_pixels(200, 200));
    let part = character.face.unwrap();
    assert_eq!(part.asset.id, "New_Face");
    assert_eq!(part.asset.path, "p");
    assert_eq!(part.position, Point::from_pixels(100, 100));
    assert_eq!(part.scale, Fixed::from_int(2));
    assert_eq!(part.rotation, Fixed::zero());
    assert!(!part.flipped);
    assert!(character.hair.is_none());
    assert!(character.hair_back.is_none());
}

#[test]
fn hair_with_a_companion_brings_its_back_hair() {
    let mut libraries = AssetLibraries::new();
    libraries.insert(back_hair("Other"));
    libraries.insert(back_hair("Wavy"));
    let mut character = Character::default();
    place_asset(&mut character, &libraries, AssetType::Hair, &hair("Wavy", true), Point::from_pixels(192, 192));
    let front = character.hair.unwrap();
    let back = character.hair_back.unwrap();
    assert_eq!(front.asset.id, "Wavy_Hair");
    assert_eq!(back.asset.id, "Wavy_HairBack");
    assert_eq!(back.position, front.position);
    assert_eq!(back.scale, front.scale);
    assert_eq!(back.rotation, front.rotation);
    assert_eq!(back.flipped, front.flipped);
    assert_eq!(front.scale, Fixed::from_int(2));
}

#[test]
fn hair_without_a_companion_removes_the_back_hair() {
    let mut libraries = AssetLibraries::new();
    libraries.insert(back_hair("Short"));
    let mut character = Character::default();
    character.hair_back = Some(some_part(back_hair("Short")));
    place_asset(&mut character, &libraries, AssetType::Hair, &hair("Short", false), Point::from_pixels(100, 100));
    assert!(character.hair.is_some());
    assert!(character.hair_back.is_none());
}

#[test]
fn a_companion_that_is_not_in_the_library_leaves_the_back_hair_alone() {
    let libraries = AssetLibraries::new();
    let mut character = Character::default();
    place_asset(&mut character, &libraries, AssetType::Hair, &hair("Lost", true), Point::from_pixels(100, 100));
    assert!(character.hair.is_some());
    assert!(character.hair_back.is_none());

    let mut character = Character::default();
    character.hair_back = Some(some_part(back_hair("Earlier")));
    place_asset(&mut character, &libraries, AssetType::Hair, &hair("Lost", true), Point::from_pixels(100, 100));
    let back = character.hair_back.unwrap();
    assert_eq!(back.asset.id, "Earlier_HairBack");
    assert_eq!(back.scale, Fixed::from_int(5));
    assert!(back.flipped);
}

#[test]
fn other_kinds_leave_the_back_hair_alone() {
    let mut libraries = AssetLibraries::new();
    libraries.insert(back_hair("Odd"));
    for kind in [AssetType::Armour, AssetType::Face, AssetType::Accessory, AssetType::Token] {
        let mut character = Character::default();
        character.hair_back = Some(some_part(back_hair("Earlier")));
        // Even an asset that names a companion brings none unless it is hair.
        let asset = Asset::new("Odd".to_string(), String::new(), Some("Odd_HairBack".to_string()), kind);
        place_asset(&mut character, &libraries, kind, &asset, Point::from_pixels(100, 100));
        assert_eq!(character.hair_back.as_ref().unwrap().asset.id, "Earlier_HairBack");
        assert_eq!(character.get_character_part(&kind).unwrap().asset.id, asset.id);
    }
    let mut character = Character::default();
    place_asset(&mut character, &libraries, AssetType::HairBack, &back_hair("Odd"), Point::from_pixels(100, 100));
    assert_eq!(character.hair_back.unwrap().asset.id, "Odd_HairBack");
}

#[test]
fn randomizing_hair_keeps_back_hair_and_companion_together() {
    let mut libraries = AssetLibraries::new();
    for (name, with_companion) in [("A", true), ("B", false), ("C", true), ("D", false)] {
        libraries.insert(hair(name, with_companion));
        if with_companion {
            libraries.insert(back_hair(name));
        }
    }
    let mut character = Character::default();
    let mut seen_with = false;
    let mut seen_without = false;
    for _ in 0..200 {
        randomize_assets(&mut character, &libraries, &[AssetType::Hair], Point::from_pixels(100, 100));
        let front = character.hair.as_ref().unwrap();
        assert_eq!(character.hair_back.is_some(), front.asset.back_part.is_some());
        if let Some(back) = &character.hair_back {
            assert_eq!(Some(back.asset.id.clone()), front.asset.back_part);
            assert_eq!(back.asset.name, front.asset.name);
            seen_with = true;
        } else {
            seen_without = true;
        }
    }
    assert!(seen_with && seen_without);
}

#[test]
fn randomizing_picks_from_the_library_of_each_kind() {
    let mut libraries = AssetLibraries::new();
    for name in ["One", "Two", "Three"] {
        libraries.insert(Asset::new(name.to_string(), String::new(), None, AssetType::Face));
        libraries.insert(Asset::new(name.to_string(), String::new(), None, AssetType::Armour));
    }
    let mut character = Character::default();
    character.token = Some(some_part(Asset::new("Kept".to_string(), String::new(), None, AssetType::Token)));
    let kinds = [AssetType::Armour, AssetType::Face, AssetType::Token, AssetType::Accessory];
    let mut names = std::collections::BTreeSet::new();
    for _ in 0..200 {
        randomize_assets(&mut character, &libraries, &kinds, Point::from_pixels(100, 100));
        let face = character.face.as_ref().unwrap();
        assert_eq!(face.asset.asset_type, AssetType::Face);
        assert!(libraries.face.contains_key(&face.asset.id));
        assert_eq!(face.position, Point::from_pixels(50, 50));
        let armour = character.armour.as_ref().unwrap();
        assert!(libraries.armour.contains_key(&armour.asset.id));
        assert_eq!(armour.position, Point::from_pixels(50, 52));
        names.insert(face.asset.name.clone());
        // Kinds with an empty library are left as they were.
        assert_eq!(character.token.as_ref().unwrap().asset.id, "Kept_Token");
        assert!(character.accessory.is_none());
        assert!(character.hair.is_none());
    }
    assert_eq!(names.len(), 3);
}

#[test]
fn randomizing_colours_takes_each_region_from_its_palette() {
    let mut palettes = ColourPalettes::new();
    let reds = vec![Rgba::new(200, 0, 0, 255), Rgba::new(100, 0, 0, 255)];
    let blue = vec![Rgba::new(0, 0, 200, 255)];
    palettes.insert(Colourable::Skin, ColourPalette::new(reds.clone()));
    palettes.insert(Colourable::Cloth, ColourPalette::new(blue.clone()));
    palettes.insert(Colourable::Metal, ColourPalette::new(vec![]));
    palettes.insert(Colourable::Outline, ColourPalette::new(blue.clone()));
    let fresh = Character::default();
    let mut seen = std::collections::BTreeSet::new();
    for _ in 0..100 {
        let mut character = Character::default();
        character.name = "Named".to_string();
        randomize_colours(&mut character, &palettes);
        let colours = character.character_colours;
        assert!(reds.contains(&colours.skin.base));
        assert_eq!(colours.skin, CharacterPartColours::new(&colours.skin.base));
        seen.insert(colours.skin.base.r);
        assert_eq!(colours.cloth, CharacterPartColours::new(&blue[0]));
        // No palette, an empty palette, and the outline: nothing changes.
        assert_eq!(colours.hair, fresh.character_colours.hair);
        assert_eq!(colours.metal, fresh.character_colours.metal);
        assert_eq!(colours.outline, fresh.character_colours.outline);
        assert_eq!(character.name, "Named");
        assert!(character.face.is_none());
    }
    assert_eq!(seen.len(), 2);
}
