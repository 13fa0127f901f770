//! Asset libraries: for each layer kind, the assets to choose from.
//!
//! A library is an ordered map from asset identity to asset. The order is
//! the order in which assets were added, and it is the order in which they
//! are shown and picked from.

use crate::asset::{Asset, AssetType};
use crate::character::{Character, CharacterPart};
use indexmap::IndexMap;
use vstd::prelude::*;

verus! {

/// The insertion-ordered hash map of the `indexmap` crate.
#[verifier::external_type_specification]
#[verifier::external_body]
#[verifier::reject_recursive_types(K)]
#[verifier::reject_recursive_types(V)]
#[verifier::reject_recursive_types(S)]
pub struct ExIndexMap<K, V, S>(IndexMap<K, V, S>);

/// What a library holds: its keys and assets, in order.
pub uninterp spec fn library_entries(library: IndexMap<String, Asset>) -> Seq<(Seq<char>, Asset)>;

/// Whether a library has an entry under the given key.
pub open spec fn has_key(entries: Seq<(Seq<char>, Asset)>, key: Seq<char>) -> bool {
    exists|i: int| 0 <= i < entries.len() && (#[trigger] entries[i]).0 == key
}

/// Whether `found` is what looking up `key` in a library gives: the asset
/// stored under the key, or nothing where the key is not there.
pub open spec fn is_lookup_of(
    found: Option<Asset>,
    entries: Seq<(Seq<char>, Asset)>,
    key: Seq<char>,
) -> bool {
    match found {
        Some(asset) => exists|i: int|
            0 <= i < entries.len() && #[trigger] entries[i] == (key, asset),
        None => !has_key(entries, key),
    }
}

/// Whether `picked` is a possible pick from a library: one of its assets,
/// or nothing where the library is empty.
pub open spec fn is_pick_of(picked: Option<Asset>, entries: Seq<(Seq<char>, Asset)>) -> bool {
    match picked {
        Some(asset) => exists|i: int| 0 <= i < entries.len() && (#[trigger] entries[i]).1 == asset,
        None => entries.len() == 0,
    }
}

/// `IndexMap::new`: a map without entries.
#[verifier::external_body]
pub(crate) fn library_new() -> (library: IndexMap<String, Asset>)
    ensures
        library_entries(library) == Seq::<(Seq<char>, Asset)>::empty(),
{
    IndexMap::new()
}

/// `IndexMap::insert`: where the key is already there, its entry keeps its
/// place and takes the new value; where it is not, the pair becomes the
/// last entry.
#[verifier::external_body]
pub(crate) fn library_insert(library: &mut IndexMap<String, Asset>, key: String, asset: Asset)
    ensures
        forall|i: int|
            0 <= i < library_entries(*old(library)).len() && (#[trigger] library_entries(
                *old(library),
            )[i]).0 == key@ ==> library_entries(*final(library)) == library_entries(
                *old(library),
            ).update(i, (key@, asset)),
        !has_key(library_entries(*old(library)), key@) ==> library_entries(*final(library))
            == library_entries(*old(library)).push((key@, asset)),
{
    library.insert(key, asset);
}

/// `IndexMap::get`: the value stored under a key, if the key is there.
#[verifier::external_body]
pub(crate) fn library_get<'a>(library: &'a IndexMap<String, Asset>, key: &str) -> (found: Option<
    &'a Asset,
>)
    ensures
        is_lookup_of(
            match found {
                Some(asset) => Some(*asset),
                None => None,
            },
            library_entries(*library),
            key@,
        ),
{
    library.get(key)
}

/// The asset libraries, one for each layer kind.
pub struct AssetLibraries {
    pub armour: IndexMap<String, Asset>,
    pub face: IndexMap<String, Asset>,
    pub hair: IndexMap<String, Asset>,
    pub hair_back: IndexMap<String, Asset>,
    pub accessory: IndexMap<String, Asset>,
    pub token: IndexMap<String, Asset>,
}

impl AssetLibraries {
    /// The entries of the library of a layer kind.
    pub open spec fn entries(self, asset_type: AssetType) -> Seq<(Seq<char>, Asset)> {
        match asset_type {
            AssetType::Armour => library_entries(self.armour),
            AssetType::Face => library_entries(self.face),
            AssetType::Hair => library_entries(self.hair),
            AssetType::HairBack => library_entries(self.hair_back),
            AssetType::Accessory => library_entries(self.accessory),
            AssetType::Token => library_entries(self.token),
        }
    }

    /// Whether `after` is `before` with `asset` added to the library of its
    /// kind, under its identity: an asset that was already there is
    /// replaced where it stood, a new one stands last, and the other
    /// libraries are as they were.
    pub open spec fn is_insertion(before: Self, after: Self, asset: Asset) -> bool {
        &&& forall|k: AssetType|
            k != asset.asset_type ==> #[trigger] after.entries(k) == before.entries(k)
        &&& forall|i: int|
            0 <= i < before.entries(asset.asset_type).len() && (#[trigger] before.entries(
                asset.asset_type,
            )[i]).0 == asset.id@ ==> after.entries(asset.asset_type) == before.entries(
                asset.asset_type,
            ).update(i, (asset.id@, asset))
        &&& !has_key(before.entries(asset.asset_type), asset.id@) ==> after.entries(
            asset.asset_type,
        ) == before.entries(asset.asset_type).push((asset.id@, asset))
    }

    /// Six libraries without assets.
    pub fn new() -> (libraries: Self)
        ensures
            forall|k: AssetType| #[trigger] libraries.entries(k) == Seq::<(Seq<char>, Asset)>::empty(),
    {
        AssetLibraries {
            armour: library_new(),
            face: library_new(),
            hair: library_new(),
            hair_back: library_new(),
            accessory: library_new(),
            token: library_new(),
        }
    }

    /// The library of a layer kind.
    pub fn get(&self, asset_type: AssetType) -> (library: &IndexMap<String, Asset>)
        ensures
            library_entries(*library) == self.entries(asset_type),
    {
        match asset_type {
            AssetType::Armour => &self.armour,
            AssetType::Face => &self.face,
            AssetType::Hair => &self.hair,
            AssetType::HairBack => &self.hair_back,
            AssetType::Accessory => &self.accessory,
            AssetType::Token => &self.token,
        }
    }

    /// The asset of a layer kind with the given identity, if there is one.
    pub fn find(&self, asset_type: AssetType, id: &str) -> (found: Option<&Asset>)
        ensures
            is_lookup_of(
                match found {
                    Some(asset) => Some(*asset),
                    None => None,
                },
                self.entries(asset_type),
                id@,
            ),
    {
        library_get(self.get(asset_type), id)
    }

    /// Adds an asset to the library of its kind, under its identity. An
    /// asset that is already there is replaced where it stands; a new one
    /// goes to the end. The other libraries are left alone.
    pub fn insert(&mut self, asset: Asset)
        ensures
            Self::is_insertion(*old(self), *final(self), asset),
    {
        let key: String = asset.id.clone();
        match asset.asset_type {
            AssetType::Armour => library_insert(&mut self.armour, key, asset),
            AssetType::Face => library_insert(&mut self.face, key, asset),
            AssetType::Hair => library_insert(&mut self.hair, key, asset),
            AssetType::HairBack => library_insert(&mut self.hair_back, key, asset),
            AssetType::Accessory => library_insert(&mut self.accessory, key, asset),
            AssetType::Token => library_insert(&mut self.token, key, asset),
        }
    }

    /// Whether a layer, if there is one, shows an asset that the library of
    /// the asset's kind holds under the asset's identity.
    pub open spec fn holds(self, part: Option<CharacterPart>) -> bool {
        part matches Some(p) ==> has_key(self.entries(p.asset.asset_type), p.asset.id@)
    }

    fn holds_part(&self, part: &Option<CharacterPart>) -> (ok: bool)
        ensures
            ok == self.holds(*part),
    {
        match part {
            Some(p) => self.find(p.asset.asset_type, p.asset.id.as_str()).is_some(),
            None => true,
        }
    }

    /// Whether every layer of a character shows an asset that the libraries
    /// hold.
    pub fn holds_parts_of(&self, character: &Character) -> (ok: bool)
        ensures
            ok == forall|k: AssetType| self.holds(#[trigger] character.part(k)),
    {
        let ok = self.holds_part(&character.armour) && self.holds_part(&character.face)
            && self.holds_part(&character.hair) && self.holds_part(&character.hair_back)
            && self.holds_part(&character.accessory) && self.holds_part(&character.token);
        proof {
            if !ok {
                if !self.holds(character.armour) {
                    assert(!self.holds(character.part(AssetType::Armour)));
                } else if !self.holds(character.face) {
                    assert(!self.holds(character.part(AssetType::Face)));
                } else if !self.holds(character.hair) {
                    assert(!self.holds(character.part(AssetType::Hair)));
                } else if !self.holds(character.hair_back) {
                    assert(!self.holds(character.part(AssetType::HairBack)));
                } else if !self.holds(character.accessory) {
                    assert(!self.holds(character.part(AssetType::Accessory)));
                } else {
                    assert(!self.holds(character.part(AssetType::Token)));
                }
            }
        }
        ok
    }
}

} // verus!
