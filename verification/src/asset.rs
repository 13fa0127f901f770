//! Layer kinds and the assets that fill them.
//!
//! An asset is a named image for one layer kind. Its file is called
//! `<Name>_<Kind>.png`, and its identity is the text `<Name>_<Kind>`. A hair
//! asset names the back-hair asset that goes with it.

use crate::raster::Image;
use std::sync::Arc;
use vstd::prelude::*;
use vstd::std_specs::cmp::PartialEqSpecImpl;
use vstd::string::*;

verus! {

/// The layers of a character sprite, in the order in which they are drawn by
/// default, bottom first.
#[derive(Debug, PartialEq, Eq, Hash, Clone, Copy, PartialOrd, Ord, Structural)]
pub enum AssetType {
    HairBack,
    Armour,
    Face,
    Hair,
    Accessory,
    Token,
}

/// Why an asset could not be made.
#[derive(Debug, PartialEq, Eq, Clone, Copy, Structural)]
pub enum AssetError {
    /// The file name holds no `_` between name and kind.
    MissingSeparator,
    /// What follows the last `_` of the file name is no layer kind.
    UnknownType,
    /// The location has no file name to read name and kind from.
    InvalidPath,
    /// The bytes are not an image that can be decoded and held.
    InvalidImage,
}

/// The layer kind that a file name's kind token denotes. Tokens are the
/// kinds' names, letter for letter.
pub open spec fn kind_of_token(token: Seq<char>) -> Option<AssetType> {
    if token == "Armour"@ {
        Some(AssetType::Armour)
    } else if token == "Face"@ {
        Some(AssetType::Face)
    } else if token == "Hair"@ {
        Some(AssetType::Hair)
    } else if token == "Accessory"@ {
        Some(AssetType::Accessory)
    } else if token == "Token"@ {
        Some(AssetType::Token)
    } else if token == "HairBack"@ {
        Some(AssetType::HairBack)
    } else {
        None
    }
}

/// Whether position `i` of `s` holds the last `_` of `s`.
pub open spec fn is_last_separator(s: Seq<char>, i: int) -> bool {
    &&& 0 <= i < s.len()
    &&& s[i] == '_'
    &&& forall|j: int| i < j < s.len() ==> s[j] != '_'
}

/// Name and kind of the file name `<Name>_<Kind>`: the text is split at its
/// last `_`, and what follows must be a kind token.
pub open spec fn parsed_filename(s: Seq<char>) -> Result<(Seq<char>, AssetType), AssetError> {
    if exists|i: int| is_last_separator(s, i) {
        let i = choose|i: int| is_last_separator(s, i);
        match kind_of_token(s.subrange(i + 1, s.len() as int)) {
            Some(kind) => Ok((s.subrange(0, i), kind)),
            None => Err(AssetError::UnknownType),
        }
    } else {
        Err(AssetError::MissingSeparator)
    }
}

/// The identity of the asset `name` of the given kind: `<Name>_<Kind>`.
pub open spec fn asset_id(name: Seq<char>, kind: AssetType) -> Seq<char> {
    name + "_"@ + kind.name_spec()
}

/// The identity of the back-hair asset that goes with the hair asset `name`.
pub open spec fn companion_id(name: Seq<char>) -> Seq<char> {
    name + "_HairBack"@
}

/// The companion that an asset of the given name and kind declares: hair
/// names its back hair, every other kind names nothing.
pub open spec fn declared_companion(name: Seq<char>, kind: AssetType) -> Option<Seq<char>> {
    if kind == AssetType::Hair {
        Some(companion_id(name))
    } else {
        None
    }
}

/// Whether `s` ends in `.png`.
pub open spec fn has_png_suffix(s: Seq<char>) -> bool {
    s.len() >= 4 && s.subrange(s.len() - 4, s.len() as int) == ".png"@
}

/// The text without any `.png` at its end, however often it is repeated.
pub open spec fn without_png_suffix(s: Seq<char>) -> Seq<char>
    decreases s.len(),
{
    if has_png_suffix(s) {
        without_png_suffix(s.subrange(0, s.len() - 4))
    } else {
        s
    }
}

/// Whether two pieces of text hold the same characters.
fn same_text(a: &str, b: &str) -> (same: bool)
    ensures
        same == (a@ == b@),
{
    a.to_owned() == b.to_owned()
}

impl AssetType {
    /// The kind's name, which is also its token in file names.
    pub open spec fn name_spec(self) -> Seq<char> {
        match self {
            AssetType::HairBack => "HairBack"@,
            AssetType::Armour => "Armour"@,
            AssetType::Face => "Face"@,
            AssetType::Hair => "Hair"@,
            AssetType::Accessory => "Accessory"@,
            AssetType::Token => "Token"@,
        }
    }

    /// The kind's name, which is also its token in file names.
    pub fn name(&self) -> (s: &'static str)
        ensures
            s@ == self.name_spec(),
    {
        match self {
            AssetType::HairBack => "HairBack",
            AssetType::Armour => "Armour",
            AssetType::Face => "Face",
            AssetType::Hair => "Hair",
            AssetType::Accessory => "Accessory",
            AssetType::Token => "Token",
        }
    }

    /// The kind's name as owned text.
    pub fn to_string(&self) -> (s: String)
        ensures
            s@ == self.name_spec(),
    {
        self.name().to_owned()
    }

    /// The kind that a file name's kind token denotes, if any.
    pub fn from_token(token: &str) -> (kind: Option<AssetType>)
        ensures
            kind == kind_of_token(token@),
    {
        if same_text(token, "Armour") {
            Some(AssetType::Armour)
        } else if same_text(token, "Face") {
            Some(AssetType::Face)
        } else if same_text(token, "Hair") {
            Some(AssetType::Hair)
        } else if same_text(token, "Accessory") {
            Some(AssetType::Accessory)
        } else if same_text(token, "Token") {
            Some(AssetType::Token)
        } else if same_text(token, "HairBack") {
            Some(AssetType::HairBack)
        } else {
            None
        }
    }

    /// Every kind, in drawing order.
    pub fn all() -> (kinds: Vec<AssetType>)
        ensures
            kinds@ == seq![
                AssetType::HairBack,
                AssetType::Armour,
                AssetType::Face,
                AssetType::Hair,
                AssetType::Accessory,
                AssetType::Token,
            ],
    {
        vec![
            AssetType::HairBack,
            AssetType::Armour,
            AssetType::Face,
            AssetType::Hair,
            AssetType::Accessory,
            AssetType::Token,
        ]
    }

    /// The kinds that a user picks assets for, in drawing order. Back hair
    /// is not among them: it follows the hair.
    pub fn get_selectable_part_types() -> (kinds: Vec<AssetType>)
        ensures
            kinds@ == seq![
                AssetType::Armour,
                AssetType::Face,
                AssetType::Hair,
                AssetType::Accessory,
                AssetType::Token,
            ],
            forall|k: AssetType| k != AssetType::HairBack <==> #[trigger] kinds@.contains(k),
    {
        let kinds = vec![
            AssetType::Armour,
            AssetType::Face,
            AssetType::Hair,
            AssetType::Accessory,
            AssetType::Token,
        ];
        proof {
            assert(kinds@[0] == AssetType::Armour);
            assert(kinds@[1] == AssetType::Face);
            assert(kinds@[2] == AssetType::Hair);
            assert(kinds@[3] == AssetType::Accessory);
            assert(kinds@[4] == AssetType::Token);
        }
        kinds
    }
}

impl Default for AssetType {
    fn default() -> (kind: Self)
        ensures
            kind == AssetType::Token,
    {
        AssetType::Token
    }
}

/// A loadable layer image and what is known of it.
///
/// The pixels are optional: an asset can be known by name before its image
/// has been decoded. Decoded pixels are shared, never changed in place.
#[derive(Debug)]
pub struct Asset {
    /// `<Name>_<Kind>`, for example `MyAsset_Face`.
    pub id: String,
    pub name: String,
    /// Where the image comes from.
    pub path: String,
    /// For hair, the identity of the back-hair asset that goes with it.
    pub back_part: Option<String>,
    pub asset_type: AssetType,
    pub image_data: Option<Arc<Image>>,
}

/// `Arc::clone`: another handle to the same shared value.
#[verifier::external_body]
fn share_image(image: &Arc<Image>) -> (shared: Arc<Image>)
    ensures
        shared == *image,
{
    Arc::clone(image)
}

/// `std::path::Path::file_stem`, on a location given as text: the file name
/// without its extension, where the location has a file name. Which part of
/// a location that is depends on the platform's path syntax, so nothing is
/// claimed of it.
#[verifier::external_body]
pub(crate) fn file_stem(path: &str) -> (stem: Option<String>)
{
    std::path::Path::new(path).file_stem().and_then(|s| s.to_str()).map(|s| s.to_owned())
}

impl Asset {
    /// Whether this asset has the given name, location, kind and image, the
    /// identity that follows from name and kind, and the given companion.
    pub open spec fn is_made_of(
        self,
        name: Seq<char>,
        path: Seq<char>,
        back_part: Option<Seq<char>>,
        asset_type: AssetType,
        image_data: Option<Arc<Image>>,
    ) -> bool {
        &&& self.id@ == asset_id(name, asset_type)
        &&& self.name@ == name
        &&& self.path@ == path
        &&& match back_part {
            Some(b) => self.back_part matches Some(own) && own@ == b,
            None => self.back_part is None,
        }
        &&& self.asset_type == asset_type
        &&& self.image_data == image_data
    }

    /// Whether `res` is the asset that a file stem `<Name>_<Kind>` found at
    /// `path` describes, holding the given image, or else the reason why the
    /// stem describes no asset. A hair asset declares its companion.
    pub open spec fn describes(
        res: Result<Asset, AssetError>,
        stem: Seq<char>,
        path: Seq<char>,
        image_data: Option<Arc<Image>>,
    ) -> bool {
        match parsed_filename(stem) {
            Ok((name, kind)) => res matches Ok(asset) && asset.is_made_of(
                name,
                path,
                declared_companion(name, kind),
                kind,
                image_data,
            ),
            Err(e) => res == Err::<Asset, AssetError>(e),
        }
    }

    /// An asset without pixels. Its identity is `<Name>_<Kind>`.
    pub fn new(name: String, path: String, back_part: Option<String>, asset_type: AssetType) -> (asset:
        Self)
        ensures
            asset.id@ == asset_id(name@, asset_type),
            asset.name == name,
            asset.path == path,
            asset.back_part == back_part,
            asset.asset_type == asset_type,
            asset.image_data is None,
    {
        let mut id: String = name.clone();
        id.append("_");
        id.append(asset_type.name());
        Self { id, name, path, back_part, asset_type, image_data: None }
    }

    /// Splits a file name of the form `<Name>_<Kind>` at its last `_` into
    /// the name and the layer kind.
    pub fn parse_filename(filename: &str) -> (res: Result<(&str, AssetType), AssetError>)
        ensures
            match res {
                Ok((name, kind)) => parsed_filename(filename@) == Ok::<
                    (Seq<char>, AssetType),
                    AssetError,
                >((name@, kind)),
                Err(e) => parsed_filename(filename@) == Err::<(Seq<char>, AssetType), AssetError>(e),
            },
    {
        let len: usize = filename.unicode_len();
        let mut end: usize = len;
        while end > 0 && filename.get_char(end - 1) != '_'
            invariant
                end <= len,
                len == filename@.len(),
                forall|j: int| end <= j < len ==> filename@[j] != '_',
            decreases end,
        {
            end = end - 1;
        }
        if end == 0 {
            assert(forall|i: int| !is_last_separator(filename@, i));
            return Err(AssetError::MissingSeparator);
        }
        let at: usize = end - 1;
        proof {
            assert(is_last_separator(filename@, at as int));
            let i = choose|i: int| is_last_separator(filename@, i);
            assert(i == at) by {
                if i < at {
                    assert(filename@[at as int] == '_');
                }
            }
        }
        let name = filename.substring_char(0, at);
        let token = filename.substring_char(end, len);
        match AssetType::from_token(token) {
            Some(kind) => Ok((name, kind)),
            None => Err(AssetError::UnknownType),
        }
    }

    /// The asset that `stem`, the file stem of `path`, describes, holding the
    /// given image.
    pub fn from_file_stem(stem: &str, path: &str, image_data: Option<Arc<Image>>) -> (res: Result<
        Self,
        AssetError,
    >)
        ensures
            Self::describes(res, stem@, path@, image_data),
    {
        match Self::parse_filename(stem) {
            Ok((name, kind)) => {
                let back_part: Option<String> = if kind == AssetType::Hair {
                    let mut id: String = name.to_owned();
                    id.append("_HairBack");
                    Some(id)
                } else {
                    None
                };
                let mut asset = Self::new(name.to_owned(), path.to_owned(), back_part, kind);
                asset.image_data = image_data;
                Ok(asset)
            },
            Err(e) => Err(e),
        }
    }

    /// The asset that an image file's name and decoded pixels make. The name
    /// is read from `filename` without its `.png`; an unreadable name is
    /// reported before a missing image is.
    pub fn from_decoded(filename: &str, decoded: Option<Image>) -> (res: Result<Self, AssetError>)
        ensures
            parsed_filename(without_png_suffix(filename@)) is Err ==> Self::describes(
                res,
                without_png_suffix(filename@),
                "user-asset://"@ + filename@,
                None,
            ),
            parsed_filename(without_png_suffix(filename@)) is Ok ==> match decoded {
                Some(image) => Self::describes(
                    res,
                    without_png_suffix(filename@),
                    "user-asset://"@ + filename@,
                    Some(Arc::new(image)),
                ),
                None => res == Err::<Asset, AssetError>(AssetError::InvalidImage),
            },
    {
        let stem = strip_png_suffix(filename);
        let mut path: String = "user-asset://".to_owned();
        path.append(filename);
        match decoded {
            Some(image) => {
                let res = Self::from_file_stem(stem, path.as_str(), Some(Arc::new(image)));
                proof {
                    if parsed_filename(stem@) is Err {
                        assert(Self::describes(res, stem@, path@, None));
                    }
                }
                res
            },
            None => {
                match Self::parse_filename(stem) {
                    Ok(_) => Err(AssetError::InvalidImage),
                    Err(e) => Err(e),
                }
            },
        }
    }

    /// Makes an asset from an image file's name and its bytes: the name gives
    /// name and kind, the bytes are decoded to pixels. Whether the bytes
    /// decode is the decoder's business; what is made of either outcome is
    /// what [`Asset::from_decoded`] states.
    pub fn try_from_bytes(filename: &str, bytes: &[u8]) -> (res: Result<Self, AssetError>)
        ensures
            parsed_filename(without_png_suffix(filename@)) matches Err(e) ==> res == Err::<
                Asset,
                AssetError,
            >(e),
            parsed_filename(without_png_suffix(filename@)) matches Ok((name, kind)) ==> res == Err::<
                Asset,
                AssetError,
            >(AssetError::InvalidImage) || (res matches Ok(asset) && asset.image_data matches Some(
                image,
            ) && asset.is_made_of(
                name,
                "user-asset://"@ + filename@,
                declared_companion(name, kind),
                kind,
                Some(image),
            )),
    {
        let decoded = Image::decode(bytes);
        Self::from_decoded(filename, decoded)
    }

    /// Makes an asset without pixels from the location of its image file.
    /// The file stem is taken by the platform's path rules; what is made of
    /// it is what [`Asset::from_file_stem`] states, and a location without a
    /// file name is an `InvalidPath`.
    pub fn try_from_path(path: &str) -> (res: Result<Self, AssetError>)
        ensures
            res == Err::<Asset, AssetError>(AssetError::InvalidPath) || exists|stem: Seq<char>|
                Self::describes(res, stem, path@, None),
    {
        match file_stem(path) {
            Some(stem) => Self::from_file_stem(stem.as_str(), path, None),
            None => Err(AssetError::InvalidPath),
        }
    }
}

/// The text without any `.png` at its end.
fn strip_png_suffix(text: &str) -> (stem: &str)
    ensures
        stem@ == without_png_suffix(text@),
{
    let len: usize = text.unicode_len();
    let mut end: usize = len;
    assert(text@.subrange(0, len as int) =~= text@);
    while end >= 4 && same_text(text.substring_char(end - 4, end), ".png")
        invariant
            end <= len,
            len == text@.len(),
            without_png_suffix(text@) == without_png_suffix(text@.subrange(0, end as int)),
        decreases end,
    {
        proof {
            let s = text@.subrange(0, end as int);
            assert(s.subrange(s.len() - 4, s.len() as int) =~= text@.subrange(end - 4, end as int));
            assert(s.subrange(0, s.len() - 4) =~= text@.subrange(0, end - 4));
        }
        end = end - 4;
    }
    proof {
        let s = text@.subrange(0, end as int);
        if end >= 4 {
            assert(s.subrange(s.len() - 4, s.len() as int) =~= text@.subrange(end - 4, end as int));
        }
    }
    text.substring_char(0, end)
}

impl Clone for Asset {
    fn clone(&self) -> (copy: Self)
        ensures
            copy == *self,
    {
        let back_part: Option<String> = match &self.back_part {
            Some(b) => Some(b.clone()),
            None => None,
        };
        let image_data: Option<Arc<Image>> = match &self.image_data {
            Some(image) => Some(share_image(image)),
            None => None,
        };
        Asset {
            id: self.id.clone(),
            name: self.name.clone(),
            path: self.path.clone(),
            back_part,
            asset_type: self.asset_type,
            image_data,
        }
    }
}

impl PartialEq for Asset {
    /// Two assets are the same asset when they have the same identity,
    /// whether or not either has its pixels loaded.
    fn eq(&self, other: &Self) -> (same: bool) {
        self.id == other.id
    }
}

impl Eq for Asset {

}

impl PartialEqSpecImpl for Asset {
    open spec fn obeys_eq_spec() -> bool {
        true
    }

    open spec fn eq_spec(&self, other: &Self) -> bool {
        self.id@ == other.id@
    }
}

} // verus!
