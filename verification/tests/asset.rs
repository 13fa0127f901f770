use fecc_core::asset::{Asset, AssetError, AssetType};
use fecc_core::raster::Image;
use fecc_core::types::Rgba;
use std::sync::Arc;

fn one_red_pixel_png() -> Vec<u8> {
    let mut image = image::RgbaImage::new(1, 1);
    image.put_pixel(0, 0, image::Rgba([255, 0, 0, 255]));
    let mut bytes: Vec<u8> = Vec::new();
    image
        .write_to(&mut std::io::Cursor::new(&mut bytes), image::ImageFormat::Png)
        .unwrap();
    bytes
}

#[test]
fn test_parse_filename_valid() {
    assert_eq!(Asset::parse_filename("MyAsset_Face"), Ok(("MyAsset", AssetType::Face)));
    assert_eq!(Asset::parse_filename("Cool_Hair"), Ok(("Cool", AssetType::Hair)));
    assert_eq!(Asset::parse_filename("Armor_Armour"), Ok(("Armor", AssetType::Armour)));
}

#[test]
fn test_parse_filename_invalid() {
    assert!(Asset::parse_filename("InvalidFilename").is_err());
    assert!(Asset::parse_filename("Name_UnknownType").is_err());
}

#[test]
fn test_asset_new() {
    let path = String::from("path/to/asset.png");
    let asset = Asset::new("Test".to_owned(), path.clone(), Some("Back".to_owned()), AssetType::Face);

    assert_eq!(asset.name, "Test");
    assert_eq!(asset.path, path);
    assert_eq!(asset.back_part, Some("Back".to_owned()));
    assert_eq!(asset.asset_type, AssetType::Face);
    assert_eq!(asset.id, "Test_Face");
}

#[test]
fn test_try_from_path() {
    let asset = Asset::try_from_path("assets/Test_Face.png").expect("Failed to create asset from path");

    assert_eq!(asset.name, "Test");
    assert_eq!(asset.asset_type, AssetType::Face);
    assert_eq!(asset.back_part, None);
}

#[test]
fn test_try_from_path_hair_back() {
    let asset = Asset::try_from_path("assets/Style_Hair.png").expect("Failed to create asset from path");

    assert_eq!(asset.name, "Style");
    assert_eq!(asset.asset_type, AssetType::Hair);
    assert_eq!(asset.back_part, Some("Style_HairBack".to_owned()));
}

#[test]
fn test_asset_type_selectable() {
    let selectable: Vec<AssetType> = AssetType::get_selectable_part_types();
    assert!(selectable.contains(&AssetType::Face));
    assert!(selectable.contains(&AssetType::Hair));
    assert!(!selectable.contains(&AssetType::HairBack));
}

#[test]
fn test_try_from_bytes_success() {
    let bytes = one_red_pixel_png();

    let asset = Asset::try_from_bytes("Test_Face.png", &bytes).expect("Failed to load from bytes");
    assert_eq!(asset.name, "Test");
    assert_eq!(asset.asset_type, AssetType::Face);
    assert!(asset.image_data.is_some());
}

#[test]
fn test_try_from_bytes_hair_back_logic() {
    let bytes = one_red_pixel_png();

    let asset = Asset::try_from_bytes("Style_Hair.png", &bytes).expect("Failed to load from bytes");
    assert_eq!(asset.name, "Style");
    assert_eq!(asset.asset_type, AssetType::Hair);
    // The companion is named by its identity, under which the back-hair library
    // holds it; the file's extension is no part of that.
    assert_eq!(asset.back_part, Some("Style_HairBack".to_string()));
    assert_ne!(asset.back_part, Some("Style_HairBack.png".to_string()));
}

#[test]
fn test_try_from_bytes_invalid_image() {
    let bytes = vec![0, 1, 2, 3];
    let result = Asset::try_from_bytes("Test_Face.png", &bytes);
    assert!(result.is_err());
}

#[test]
fn test_try_from_bytes_invalid_filename() {
    let bytes = vec![];
    let result = Asset::try_from_bytes("InvalidName.png", &bytes);
    assert!(result.is_err());
}

#[test]
fn test_try_from_path_invalid_filename_structure() {
    let result = Asset::try_from_path("assets/InvalidName.png");
    assert!(result.is_err());
}

#[test]
fn every_kind_is_read_from_its_token() {
    for kind in AssetType::all() {
        let stem = format!("Some_Name_{}", kind.name());
        assert_eq!(Asset::parse_filename(&stem), Ok(("Some_Name", kind)));
        assert_eq!(AssetType::from_token(kind.name()), Some(kind));
        assert_eq!(kind.to_string(), kind.name());
    }
    assert_eq!(AssetType::HairBack.name(), "HairBack");
    assert_eq!(AssetType::from_token("hair"), None);
    assert_eq!(AssetType::from_token(""), None);
    assert_eq!(AssetType::default(), AssetType::Token);
}

#[test]
fn kinds_come_in_drawing_order() {
    assert_eq!(
        AssetType::all(),
        vec![
            AssetType::HairBack,
            AssetType::Armour,
            AssetType::Face,
            AssetType::Hair,
            AssetType::Accessory,
            AssetType::Token,
        ]
    );
    assert_eq!(
        AssetType::get_selectable_part_types(),
        vec![
            AssetType::Armour,
            AssetType::Face,
            AssetType::Hair,
            AssetType::Accessory,
            AssetType::Token,
        ]
    );
}

#[test]
fn file_names_are_split_at_the_last_separator() {
    assert_eq!(Asset::parse_filename("_Face"), Ok(("", AssetType::Face)));
    assert_eq!(Asset::parse_filename("a_b_c_Token"), Ok(("a_b_c", AssetType::Token)));
    assert_eq!(Asset::parse_filename("Long_HairBack"), Ok(("Long", AssetType::HairBack)));
    assert_eq!(Asset::parse_filename("Émile_Accessory"), Ok(("Émile", AssetType::Accessory)));
}

#[test]
fn file_names_are_refused_for_a_reason() {
    assert_eq!(Asset::parse_filename("InvalidFilename"), Err(AssetError::MissingSeparator));
    assert_eq!(Asset::parse_filename(""), Err(AssetError::MissingSeparator));
    assert_eq!(Asset::parse_filename("Name_UnknownType"), Err(AssetError::UnknownType));
    assert_eq!(Asset::parse_filename("Name_face"), Err(AssetError::UnknownType));
    assert_eq!(Asset::parse_filename("Name_Face_"), Err(AssetError::UnknownType));
    assert_eq!(Asset::parse_filename("Name_"), Err(AssetError::UnknownType));
    assert_eq!(Asset::parse_filename("Name_Face.png"), Err(AssetError::UnknownType));
}

#[test]
fn assets_from_paths_keep_the_path_and_load_nothing() {
    let asset = Asset::try_from_path("art/Knight_Armour.png").unwrap();
    assert_eq!(asset.id, "Knight_Armour");
    assert_eq!(asset.name, "Knight");
    assert_eq!(asset.path, "art/Knight_Armour.png");
    assert_eq!(asset.back_part, None);
    assert!(asset.image_data.is_none());
}

#[test]
fn paths_are_refused_for_a_reason() {
    assert_eq!(Asset::try_from_path("").err(), Some(AssetError::InvalidPath));
    assert_eq!(Asset::try_from_path("art/..").err(), Some(AssetError::InvalidPath));
    assert_eq!(Asset::try_from_path("art/Plain.png").err(), Some(AssetError::MissingSeparator));
    assert_eq!(Asset::try_from_path("art/Test_Unknown.png").err(), Some(AssetError::UnknownType));
}

#[test]
fn assets_from_file_stems() {
    let image = Arc::new(Image::new(2, 3));
    let asset = Asset::from_file_stem("Wavy_Hair", "somewhere", Some(image.clone())).unwrap();
    assert_eq!(asset.id, "Wavy_Hair");
    assert_eq!(asset.name, "Wavy");
    assert_eq!(asset.path, "somewhere");
    assert_eq!(asset.back_part, Some("Wavy_HairBack".to_string()));
    assert_eq!(asset.asset_type, AssetType::Hair);
    assert_eq!(asset.image_data.as_ref().unwrap().width(), 2);
    assert_eq!(asset.image_data.as_ref().unwrap().height(), 3);
    assert_eq!(
        Asset::from_file_stem("Wavy", "somewhere", None).err(),
        Some(AssetError::MissingSeparator)
    );
}

#[test]
fn assets_from_bytes_hold_the_decoded_pixels() {
    let asset = Asset::try_from_bytes("Test_Face.png", &one_red_pixel_png()).unwrap();
    assert_eq!(asset.id, "Test_Face");
    assert_eq!(asset.path, "user-asset://Test_Face.png");
    assert_eq!(asset.back_part, None);
    let image = asset.image_data.unwrap();
    assert_eq!((image.width(), image.height()), (1, 1));
    assert_eq!(image.get_pixel(0, 0), Rgba::new(255, 0, 0, 255));
}

#[test]
fn bytes_are_refused_for_a_reason() {
    let png = one_red_pixel_png();
    assert_eq!(
        Asset::try_from_bytes("Test_Face.png", &vec![0, 1, 2, 3]).err(),
        Some(AssetError::InvalidImage)
    );
    assert_eq!(Asset::try_from_bytes("Test_Face.png", &vec![]).err(), Some(AssetError::InvalidImage));
    assert_eq!(
        Asset::try_from_bytes("InvalidName.png", &png).err(),
        Some(AssetError::MissingSeparator)
    );
    assert_eq!(Asset::try_from_bytes("Test_Nose.png", &png).err(), Some(AssetError::UnknownType));
    // An unreadable name is reported before an undecodable image.
    assert_eq!(
        Asset::try_from_bytes("InvalidName.png", &vec![]).err(),
        Some(AssetError::MissingSeparator)
    );
}

#[test]
fn every_trailing_png_is_dropped_from_a_file_name() {
    let png = one_red_pixel_png();
    let asset = Asset::try_from_bytes("Twice_Face.png.png", &png).unwrap();
    assert_eq!(asset.name, "Twice");
    assert_eq!(asset.path, "user-asset://Twice_Face.png.png");
    let asset = Asset::try_from_bytes("Bare_Token", &png).unwrap();
    assert_eq!(asset.id, "Bare_Token");
    assert_eq!(Asset::try_from_bytes("Up_Face.PNG", &png).err(), Some(AssetError::UnknownType));
}

#[test]
fn from_decoded_takes_either_outcome() {
    let asset = Asset::from_decoded("Curl_Hair.png", Some(Image::new(1, 1))).unwrap();
    assert_eq!(asset.back_part, Some("Curl_HairBack".to_string()));
    assert!(asset.image_data.is_some());
    assert_eq!(Asset::from_decoded("Curl_Hair.png", None).err(), Some(AssetError::InvalidImage));
    assert_eq!(Asset::from_decoded("Curl.png", None).err(), Some(AssetError::MissingSeparator));
}

#[test]
fn assets_are_the_same_by_identity() {
    let bare = Asset::new("Test".to_owned(), "a".to_owned(), None, AssetType::Face);
    let loaded = Asset::try_from_bytes("Test_Face.png", &one_red_pixel_png()).unwrap();
    assert_eq!(bare, loaded);
    let other = Asset::new("Test".to_owned(), "a".to_owned(), None, AssetType::Hair);
    assert_ne!(bare, other);
    let copy = loaded.clone();
    assert_eq!(copy, loaded);
    assert_eq!(copy.path, loaded.path);
    assert!(Arc::ptr_eq(copy.image_data.as_ref().unwrap(), loaded.image_data.as_ref().unwrap()));
}
