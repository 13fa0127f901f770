//! Random characters: random assets for chosen layers, random colours for
//! every region.
//!
//! Chance decides which asset or colour is picked. Everything else is
//! decided here: where a picked asset is placed, how large, and what happens
//! to the back hair when the hair changes.

use crate::asset::{Asset, AssetType};
use crate::character::{
    shades_of, Character, CharacterPart, CharacterPartColours, ColourPalettes, Colourable,
};
use crate::library::{has_key, is_lookup_of, is_pick_of, library_entries, AssetLibraries};
use crate::types::{Fixed, Point, Rgba, FIXED_ONE};
use indexmap::IndexMap;
use rand::rngs::ThreadRng;
use rand::seq::{IndexedRandom, IteratorRandom};
use vstd::prelude::*;

verus! {

/// The handle to the thread's random number generator of the `rand` crate.
#[verifier::external_type_specification]
#[verifier::external_body]
pub struct ExThreadRng(ThreadRng);

/// `rand::rng`: a handle to the thread's random number generator. Nothing
/// is known of the numbers it will give.
pub assume_specification[ rand::rng ]() -> (rng: ThreadRng)
;

/// `IteratorRandom::choose` on `IndexMap::iter`: one of the library's
/// assets, each equally likely; nothing where the library is empty.
#[verifier::external_body]
fn choose_asset<'a>(library: &'a IndexMap<String, Asset>, rng: &mut ThreadRng) -> (picked: Option<
    &'a Asset,
>)
    ensures
        is_pick_of(
            match picked {
                Some(asset) => Some(*asset),
                None => None,
            },
            library_entries(*library),
        ),
{
    library.iter().choose(rng).map(|(_, asset)| asset)
}

/// `IndexedRandom::choose` on a slice: one of the colours, each equally
/// likely; nothing where there are none.
#[verifier::external_body]
fn choose_colour(colours: &Vec<Rgba>, rng: &mut ThreadRng) -> (picked: Option<Rgba>)
    ensures
        picked is None <==> colours@.len() == 0,
        picked matches Some(c) ==> colours@.contains(c),
{
    colours.choose(rng).copied()
}

/// The height in pixels of the art that layers are drawn in.
pub const NATIVE_HEIGHT: i32 = 96;

/// The scale at which a picked asset is placed on a canvas of the given
/// height: as many whole times as the art's height fits into it, and never
/// less than once, so that the art's pixels stay whole.
pub open spec fn placement_scale(canvas_height: Fixed) -> Fixed {
    let times = canvas_height.raw as int / (NATIVE_HEIGHT * FIXED_ONE);
    if times < 1 {
        Fixed { raw: FIXED_ONE }
    } else {
        Fixed { raw: (times * FIXED_ONE) as i32 }
    }
}

/// Half of a length, rounded down to the next raw step.
pub open spec fn half(length: Fixed) -> Fixed {
    Fixed { raw: (length.raw as int / 2) as i32 }
}

/// Where a picked asset of the given kind is placed on a canvas: at the
/// centre, except for armour, which stands on the lower edge, its centre
/// half its scaled height above it. A position beyond what a `Fixed` can
/// hold is kept at the nearest one it can.
pub open spec fn placement_position(asset_type: AssetType, canvas_size: Point) -> Point {
    let scale = placement_scale(canvas_size.y);
    let y = if asset_type == AssetType::Armour {
        let lifted = canvas_size.y.raw - (NATIVE_HEIGHT / 2) * scale.raw;
        if lifted < i32::MIN {
            Fixed { raw: i32::MIN }
        } else {
            Fixed { raw: lifted as i32 }
        }
    } else {
        half(canvas_size.y)
    };
    Point { x: half(canvas_size.x), y }
}

/// The layer that a picked asset makes on a canvas: placed and scaled for
/// the canvas, not turned, not mirrored.
pub open spec fn placed_part(asset_type: AssetType, asset: Asset, canvas_size: Point) -> CharacterPart {
    CharacterPart {
        position: placement_position(asset_type, canvas_size),
        scale: placement_scale(canvas_size.y),
        rotation: Fixed { raw: 0 },
        flipped: false,
        asset,
    }
}

/// The character after `asset` was picked for the layer `asset_type`.
///
/// The layer is replaced by the asset's placed layer. Hair takes its back
/// hair along: where the hair declares a companion and `companion` is what
/// the back-hair library holds under that identity, the companion becomes
/// the back hair, drawn exactly like the hair; where the library does not
/// hold it, the back hair is left as it was; where the hair declares no
/// companion, the back hair is removed.
pub open spec fn placed(
    character: Character,
    asset_type: AssetType,
    asset: Asset,
    companion: Option<Asset>,
    canvas_size: Point,
) -> Character {
    let part = placed_part(asset_type, asset, canvas_size);
    let with_back = if asset_type == AssetType::Hair {
        match asset.back_part {
            Some(_) => match companion {
                Some(back) => character.with_part(
                    AssetType::HairBack,
                    Some(CharacterPart { asset: back, ..part }),
                ),
                None => character,
            },
            None => character.with_part(AssetType::HairBack, None),
        }
    } else {
        character
    };
    with_back.with_part(asset_type, Some(part))
}

/// Whether `companion` is what the back-hair library holds for a picked
/// asset: for hair, the entry under the identity that the asset declares,
/// or nothing where it declares none or the library has no such entry; for
/// every other kind, nothing.
pub open spec fn is_companion_of(
    companion: Option<Asset>,
    libraries: AssetLibraries,
    asset_type: AssetType,
    asset: Asset,
) -> bool {
    if asset_type == AssetType::Hair {
        match asset.back_part {
            Some(id) => is_lookup_of(companion, libraries.entries(AssetType::HairBack), id@),
            None => companion is None,
        }
    } else {
        companion is None
    }
}

/// After hair was picked, the character has back hair if and only if the
/// hair declares a companion, as long as a declared companion is either in
/// the back-hair library or finds back hair already in place. (Where a
/// companion is declared but neither holds, there is no back hair to show.)
pub proof fn lemma_back_hair_iff_companion(
    character: Character,
    asset: Asset,
    companion: Option<Asset>,
    canvas_size: Point,
)
    requires
        asset.back_part is Some ==> companion is Some || character.hair_back is Some,
    ensures
        placed(character, AssetType::Hair, asset, companion, canvas_size).hair_back is Some
            <==> asset.back_part is Some,
{
}

/// After hair was picked, back hair that came from the library stands where
/// the hair stands and is drawn like it; and where the hair declares no
/// companion there is no back hair left to differ from it.
pub proof fn lemma_back_hair_follows(
    character: Character,
    asset: Asset,
    companion: Option<Asset>,
    canvas_size: Point,
)
    requires
        asset.back_part is Some ==> companion is Some,
    ensures
        ({
            let after = placed(character, AssetType::Hair, asset, companion, canvas_size);
            &&& after.back_hair_follows_hair()
            &&& after.hair_back matches Some(back) ==> after.hair matches Some(hair)
                && back.position == hair.position && Some(back.asset) == companion
        }),
{
}

/// Randomizing the hair alone: where an asset was picked, it is the hair
/// afterwards, and there is back hair exactly if that asset declares a
/// companion, as long as a declared companion is in the back-hair library
/// or finds back hair in place.
pub proof fn lemma_randomized_hair_has_back_iff_companion(
    start: Character,
    libraries: AssetLibraries,
    picks: Seq<Option<Asset>>,
    companions: Seq<Option<Asset>>,
    canvas_size: Point,
)
    requires
        are_picks_for(libraries, seq![AssetType::Hair], picks, companions),
        picks[0] matches Some(asset) && (asset.back_part is Some ==> companions[0] is Some
            || start.hair_back is Some),
    ensures
        ({
            let after = randomized(start, seq![AssetType::Hair], picks, companions, canvas_size);
            &&& after.hair matches Some(hair) && Some(hair.asset) == picks[0]
            &&& after.hair_back is Some <==> picks[0]->0.back_part is Some
        }),
{
    let kinds = seq![AssetType::Hair];
    assert(kinds.drop_last() =~= Seq::<AssetType>::empty());
    assert(kinds.last() == AssetType::Hair);
    assert(picks.last() == picks[0]);
    assert(companions.last() == companions[0]);
    assert(randomized(start, kinds.drop_last(), picks.drop_last(), companions.drop_last(), canvas_size)
        == start);
}

/// The scale at which a picked asset is placed; see [`placement_scale`].
pub fn scale_for_canvas(canvas_height: Fixed) -> (scale: Fixed)
    ensures
        scale == placement_scale(canvas_height),
{
    if canvas_height.raw < NATIVE_HEIGHT * FIXED_ONE {
        Fixed::one()
    } else {
        let times: u32 = canvas_height.raw as u32 / (NATIVE_HEIGHT * FIXED_ONE) as u32;
        Fixed::from_raw((times as i32) * FIXED_ONE)
    }
}

fn half_of(length: Fixed) -> (h: Fixed)
    ensures
        h == half(length),
{
    if length.raw >= 0 {
        Fixed::from_raw((length.raw as u32 / 2) as i32)
    } else {
        let up: u32 = ((-(length.raw as i64)) as u32 + 1) / 2;
        Fixed::from_raw(-(up as i64) as i32)
    }
}

/// Where a picked asset is placed; see [`placement_position`].
pub fn position_on_canvas(asset_type: AssetType, canvas_size: Point) -> (position: Point)
    ensures
        position == placement_position(asset_type, canvas_size),
{
    let scale = scale_for_canvas(canvas_size.y);
    let y: Fixed = if asset_type == AssetType::Armour {
        assert((NATIVE_HEIGHT / 2) * scale.raw == 48 * scale.raw);
        let lifted: i64 = canvas_size.y.raw as i64 - 48 * scale.raw as i64;
        if lifted < i32::MIN as i64 {
            Fixed::from_raw(i32::MIN)
        } else {
            Fixed::from_raw(lifted as i32)
        }
    } else {
        half_of(canvas_size.y)
    };
    Point::new(half_of(canvas_size.x), y)
}

/// Puts a picked asset in the place of its layer, and sees to the back hair
/// when the layer is the hair.
pub fn place_asset(
    character: &mut Character,
    asset_libraries: &AssetLibraries,
    asset_type: AssetType,
    asset: &Asset,
    canvas_size: Point,
)
    ensures
        exists|companion: Option<Asset>|
            is_companion_of(companion, *asset_libraries, asset_type, *asset) && *final(character) == placed(
                *old(character),
                asset_type,
                *asset,
                companion,
                canvas_size,
            ),
        // After hair was picked there is back hair exactly if the hair declares a
        // companion, as long as a declared companion is in the library or finds
        // back hair in place.
        asset_type == AssetType::Hair && (asset.back_part matches Some(id) ==> has_key(
            asset_libraries.entries(AssetType::HairBack),
            id@,
        ) || old(character).hair_back is Some) ==> (final(character).hair_back is Some
            <==> asset.back_part is Some),
        // Back hair that came from the library is drawn like the hair.
        asset_type == AssetType::Hair && (asset.back_part matches Some(id) ==> has_key(
            asset_libraries.entries(AssetType::HairBack),
            id@,
        )) ==> final(character).back_hair_follows_hair(),
        asset_type != AssetType::Hair && asset_type != AssetType::HairBack ==> final(character).hair_back
            == old(character).hair_back,
{
    let part = CharacterPart {
        position: position_on_canvas(asset_type, canvas_size),
        scale: scale_for_canvas(canvas_size.y),
        rotation: Fixed::zero(),
        flipped: false,
        asset: asset.clone(),
    };
    let ghost mut companion: Option<Asset> = None;
    if asset_type == AssetType::Hair {
        match &asset.back_part {
            Some(back_part_id) => {
                match asset_libraries.find(AssetType::HairBack, back_part_id.as_str()) {
                    Some(back_asset) => {
                        proof {
                            companion = Some(*back_asset);
                        }
                        character.set_character_part(
                            &AssetType::HairBack,
                            CharacterPart {
                                position: part.position,
                                scale: part.scale,
                                rotation: part.rotation,
                                flipped: part.flipped,
                                asset: back_asset.clone(),
                            },
                        );
                    },
                    None => {},
                }
            },
            None => {
                character.remove_character_part(&AssetType::HairBack);
            },
        }
    }
    character.set_character_part(&asset_type, part);
    proof {
        assert(is_companion_of(companion, *asset_libraries, asset_type, *asset));
        assert(*character == placed(*old(character), asset_type, *asset, companion, canvas_size));
    }
}

/// The character after assets were picked for the layers `kinds`, one after
/// the other. `picks` holds what was picked for each, or nothing where the
/// library was empty, and `companions` what the back-hair library held for
/// each pick.
pub open spec fn randomized(
    start: Character,
    kinds: Seq<AssetType>,
    picks: Seq<Option<Asset>>,
    companions: Seq<Option<Asset>>,
    canvas_size: Point,
) -> Character
    decreases kinds.len(),
{
    if kinds.len() == 0 {
        start
    } else {
        let before = randomized(
            start,
            kinds.drop_last(),
            picks.drop_last(),
            companions.drop_last(),
            canvas_size,
        );
        match picks.last() {
            Some(asset) => placed(before, kinds.last(), asset, companions.last(), canvas_size),
            None => before,
        }
    }
}

/// Whether `picks` and `companions` are possible outcomes of picking from
/// the libraries for the layers `kinds`: each pick comes from the library of
/// its layer, and each companion is what the back-hair library holds for
/// its pick.
pub open spec fn are_picks_for(
    libraries: AssetLibraries,
    kinds: Seq<AssetType>,
    picks: Seq<Option<Asset>>,
    companions: Seq<Option<Asset>>,
) -> bool {
    &&& picks.len() == kinds.len()
    &&& companions.len() == kinds.len()
    &&& forall|i: int|
        0 <= i < kinds.len() ==> {
            &&& is_pick_of(#[trigger] picks[i], libraries.entries(kinds[i]))
            &&& match picks[i] {
                Some(asset) => is_companion_of(companions[i], libraries, kinds[i], asset),
                None => companions[i] is None,
            }
        }
}

/// Picks a random asset for each of the given layers, in their order, and
/// places it for a canvas of the given size. A layer whose library is empty
/// is left as it is. Which assets are picked is for chance to decide; what
/// is made of each pick is what [`placed`] states.
pub fn randomize_assets(
    character: &mut Character,
    asset_libraries: &AssetLibraries,
    types_to_randomize: &[AssetType],
    canvas_size: Point,
)
    ensures
        exists|picks: Seq<Option<Asset>>, companions: Seq<Option<Asset>>|
            are_picks_for(*asset_libraries, types_to_randomize@, picks, companions) && *final(character)
                == randomized(
                *old(character),
                types_to_randomize@,
                picks,
                companions,
                canvas_size,
            ),
{
    let mut rng = rand::rng();
    let ghost mut picks: Seq<Option<Asset>> = Seq::empty();
    let ghost mut companions: Seq<Option<Asset>> = Seq::empty();
    let mut i: usize = 0;
    assert(types_to_randomize@.take(0) =~= Seq::<AssetType>::empty());
    while i < types_to_randomize.len()
        invariant
            i <= types_to_randomize@.len(),
            are_picks_for(*asset_libraries, types_to_randomize@.take(i as int), picks, companions),
            *character == randomized(
                *old(character),
                types_to_randomize@.take(i as int),
                picks,
                companions,
                canvas_size,
            ),
        decreases types_to_randomize@.len() - i,
    {
        let kind: AssetType = types_to_randomize[i];
        let ghost before = *character;
        let ghost kinds_before = types_to_randomize@.take(i as int);
        let ghost kinds_after = types_to_randomize@.take(i + 1);
        let ghost picks_before = picks;
        let ghost companions_before = companions;
        match choose_asset(asset_libraries.get(kind), &mut rng) {
            Some(asset) => {
                place_asset(character, asset_libraries, kind, asset, canvas_size);
                proof {
                    let companion = choose|companion: Option<Asset>|
                        is_companion_of(companion, *asset_libraries, kind, *asset) && *character
                            == placed(before, kind, *asset, companion, canvas_size);
                    picks = picks.push(Some(*asset));
                    companions = companions.push(companion);
                }
            },
            None => {
                proof {
                    picks = picks.push(None);
                    companions = companions.push(None);
                }
            },
        }
        proof {
            assert(kinds_after.drop_last() =~= kinds_before);
            assert(kinds_after.last() == kind);
            assert(picks.drop_last() =~= picks_before);
            assert(companions.drop_last() =~= companions_before);
            assert forall|j: int| 0 <= j < kinds_after.len() implies {
                &&& is_pick_of(#[trigger] picks[j], asset_libraries.entries(kinds_after[j]))
                &&& match picks[j] {
                    Some(asset) => is_companion_of(
                        companions[j],
                        *asset_libraries,
                        kinds_after[j],
                        asset,
                    ),
                    None => companions[j] is None,
                }
            } by {
                if j < i {
                    assert(picks[j] == picks_before[j]);
                    assert(companions[j] == companions_before[j]);
                    assert(kinds_after[j] == kinds_before[j]);
                }
            }
        }
        i = i + 1;
    }
    assert(types_to_randomize@.take(i as int) =~= types_to_randomize@);
}

/// Whether `after` is a possible outcome of giving `region` a random colour
/// out of `colours`: the shade set of one of the colours, or what the region
/// had where there are no colours.
pub open spec fn is_recoloured_from(
    after: CharacterPartColours,
    before: CharacterPartColours,
    colours: Seq<Rgba>,
) -> bool {
    if colours.len() == 0 {
        after == before
    } else {
        exists|i: int| 0 <= i < colours.len() && after == shades_of(#[trigger] colours[i])
    }
}

/// Gives every region but the outline a random colour from its palette and
/// derives the region's shades from it. A region without a palette, or with
/// an empty one, keeps its colours; so does the outline. Nothing else of
/// the character changes.
pub fn randomize_colours(character: &mut Character, colour_palettes: &ColourPalettes)
    ensures
        forall|region: Colourable|
            region != Colourable::Outline ==> is_recoloured_from(
                #[trigger] final(character).character_colours.shades(region),
                old(character).character_colours.shades(region),
                colour_palettes.colours(region),
            ),
        final(character).character_colours.outline == old(character).character_colours.outline,
        *final(character) == (Character {
            character_colours: final(character).character_colours,
            ..*old(character)
        }),
{
    let mut rng = rand::rng();
    let regions = Colourable::paintable();
    let mut i: usize = 0;
    while i < regions.len()
        invariant
            i <= 8,
            regions@.len() == 8,
            forall|j: int| 0 <= j < 8 ==> (#[trigger] regions@[j]).ordinal() == j,
            forall|region: Colourable|
                if region.ordinal() < i {
                    is_recoloured_from(
                        #[trigger] character.character_colours.shades(region),
                        old(character).character_colours.shades(region),
                        colour_palettes.colours(region),
                    )
                } else {
                    character.character_colours.shades(region) == old(character).character_colours
                        .shades(region)
                },
            *character == (Character {
                character_colours: character.character_colours,
                ..*old(character)
            }),
        decreases 8 - i,
    {
        let region: Colourable = regions[i];
        let ghost before = character.character_colours;
        match colour_palettes.get(region) {
            Some(palette) => {
                match choose_colour(palette.colours(), &mut rng) {
                    Some(colour) => {
                        character.character_colours.insert(region, CharacterPartColours::new(&colour));
                        proof {
                            let k = choose|k: int|
                                0 <= k < palette@.colours.len() && palette@.colours[k] == colour;
                            assert(colour_palettes.colours(region)[k] == colour);
                        }
                    },
                    None => {},
                }
            },
            None => {},
        }
        proof {
            assert forall|other: Colourable| other != region implies #[trigger]
                character.character_colours.shades(other) == before.shades(other) by {}
        }
        i = i + 1;
    }
    assert(character.character_colours.shades(Colourable::Outline) == old(character).character_colours.shades(
        Colourable::Outline,
    ));
}

} // verus!
