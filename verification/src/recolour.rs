//! Palette remapping of layer art.
//!
//! Layer art encodes a small fixed palette in the red channel: a pixel whose
//! red value is `10 * k + j`, with `j` below ten, belongs to slot `k`. Alpha
//! is the opacity mask; green and blue carry nothing. Recolouring replaces
//! every visible pixel of a mapped slot by the colour that the character
//! assigns to that slot.

use crate::asset::AssetType;
use crate::character::{CharacterColours, Outlines};
use crate::raster::{Image, ImageView};
use crate::types::Rgba;
use vstd::prelude::*;

verus! {

/// The number of slots that layer art can address.
pub const SLOT_COUNT: usize = 21;

/// Whether a layer kind is painted with the face palette (outline, eye and
/// beard, skin, accessory) rather than the body palette (outline, hair,
/// skin, metal, trim, cloth, leather).
pub open spec fn uses_face_palette(asset_type: AssetType) -> bool {
    asset_type == AssetType::Face || asset_type == AssetType::Accessory
}

/// The colour that a slot of a layer of the given kind is mapped to, if the
/// slot is mapped at all.
pub open spec fn slot_colour(
    slot: int,
    asset_type: AssetType,
    colours: CharacterColours,
    outlines: Outlines,
) -> Option<Rgba> {
    let face = uses_face_palette(asset_type);
    let first = if face {
        colours.eye_and_beard
    } else {
        colours.hair
    };
    let third = if face {
        colours.accessory
    } else {
        colours.metal
    };
    if slot == 0 {
        Some(outlines.colour_of(asset_type))
    } else if slot == 1 {
        Some(first.lighter)
    } else if slot == 2 {
        Some(first.neutral)
    } else if slot == 3 {
        Some(first.darker)
    } else if slot == 4 {
        Some(colours.skin.lighter)
    } else if slot == 5 {
        Some(colours.skin.neutral)
    } else if slot == 6 {
        Some(colours.skin.darker)
    } else if slot == 7 {
        Some(colours.skin.darker_darker)
    } else if slot == 8 {
        Some(colours.skin.darker_darker_darker)
    } else if slot == 9 {
        Some(third.lighter)
    } else if slot == 10 {
        Some(third.neutral)
    } else if slot == 11 {
        Some(third.darker)
    } else if face {
        None
    } else if slot == 12 {
        Some(colours.trim.lighter)
    } else if slot == 13 {
        Some(colours.trim.neutral)
    } else if slot == 14 {
        Some(colours.trim.darker)
    } else if slot == 15 {
        Some(colours.cloth.lighter)
    } else if slot == 16 {
        Some(colours.cloth.neutral)
    } else if slot == 17 {
        Some(colours.cloth.darker)
    } else if slot == 18 {
        Some(colours.leather.lighter)
    } else if slot == 19 {
        Some(colours.leather.neutral)
    } else if slot == 20 {
        Some(colours.leather.darker)
    } else {
        None
    }
}

/// What recolouring makes of one pixel: an invisible pixel and a pixel of an
/// unmapped slot stay as they are; a visible pixel of a mapped slot becomes
/// the slot's colour in all four channels.
pub open spec fn recoloured_pixel(
    p: Rgba,
    asset_type: AssetType,
    colours: CharacterColours,
    outlines: Outlines,
) -> Rgba {
    if p.a == 0 {
        p
    } else {
        match slot_colour(p.r as int / 10, asset_type, colours, outlines) {
            Some(c) => c,
            None => p,
        }
    }
}

/// What recolouring makes of a bitmap: each pixel recoloured by itself.
pub open spec fn recoloured(
    image: ImageView,
    asset_type: AssetType,
    colours: CharacterColours,
    outlines: Outlines,
) -> ImageView {
    ImageView {
        width: image.width,
        height: image.height,
        pixels: Seq::new(
            image.pixels.len(),
            |i: int| recoloured_pixel(image.pixels[i], asset_type, colours, outlines),
        ),
    }
}

/// The lookup table from slot to colour for a layer of the given kind.
fn slot_table(asset_type: AssetType, colours: &CharacterColours, outlines: &Outlines) -> (table: Vec<
    Option<Rgba>,
>)
    ensures
        table@.len() == SLOT_COUNT,
        forall|slot: int|
            0 <= slot < SLOT_COUNT ==> #[trigger] table@[slot] == slot_colour(
                slot,
                asset_type,
                *colours,
                *outlines,
            ),
{
    let face: bool = asset_type == AssetType::Face || asset_type == AssetType::Accessory;
    let first = if face {
        colours.eye_and_beard
    } else {
        colours.hair
    };
    let third = if face {
        colours.accessory
    } else {
        colours.metal
    };
    let mut table: Vec<Option<Rgba>> = vec![None; SLOT_COUNT];
    table[0] = Some(outlines.get_outline_colour(asset_type));
    table[1] = Some(first.lighter);
    table[2] = Some(first.neutral);
    table[3] = Some(first.darker);
    table[4] = Some(colours.skin.lighter);
    table[5] = Some(colours.skin.neutral);
    table[6] = Some(colours.skin.darker);
    table[7] = Some(colours.skin.darker_darker);
    table[8] = Some(colours.skin.darker_darker_darker);
    table[9] = Some(third.lighter);
    table[10] = Some(third.neutral);
    table[11] = Some(third.darker);
    if !face {
        table[12] = Some(colours.trim.lighter);
        table[13] = Some(colours.trim.neutral);
        table[14] = Some(colours.trim.darker);
        table[15] = Some(colours.cloth.lighter);
        table[16] = Some(colours.cloth.neutral);
        table[17] = Some(colours.cloth.darker);
        table[18] = Some(colours.leather.lighter);
        table[19] = Some(colours.leather.neutral);
        table[20] = Some(colours.leather.darker);
    }
    table
}

/// Remaps the index colours of a layer image to a character's colours, in
/// place. Nothing but the image is read or written.
pub fn recolour(
    image: &mut Image,
    asset_type: AssetType,
    character_colours: &CharacterColours,
    outline_colours: &Outlines,
)
    ensures
        final(image)@.wf(),
        final(image)@ == recoloured(old(image)@, asset_type, *character_colours, *outline_colours),
        forall|i: int|
            0 <= i < old(image)@.pixels.len() ==> #[trigger] final(image)@.pixels[i]
                == recoloured_pixel(
                old(image)@.pixels[i],
                asset_type,
                *character_colours,
                *outline_colours,
            ),
        // An invisible pixel is never changed, whatever its red value.
        forall|i: int|
            0 <= i < old(image)@.pixels.len() && old(image)@.pixels[i].a == 0
                ==> #[trigger] final(image)@.pixels[i] == old(image)@.pixels[i],
        // A visible pixel of slot zero takes the outline colour of the kind.
        forall|i: int|
            0 <= i < old(image)@.pixels.len() && old(image)@.pixels[i].a != 0
                && old(image)@.pixels[i].r < 10 ==> #[trigger] final(image)@.pixels[i]
                == outline_colours.colour_of(asset_type),
        // A pixel whose red value lies beyond the last slot is never changed.
        forall|i: int|
            0 <= i < old(image)@.pixels.len() && old(image)@.pixels[i].r as int / 10 >= SLOT_COUNT
                ==> #[trigger] final(image)@.pixels[i] == old(image)@.pixels[i],
{
    let table = slot_table(asset_type, character_colours, outline_colours);
    let count: usize = image.pixel_count();
    let mut i: usize = 0;
    while i < count
        invariant
            i <= count,
            count == old(image)@.pixels.len(),
            image@.wf(),
            image@.width == old(image)@.width,
            image@.height == old(image)@.height,
            image@.pixels.len() == count,
            table@.len() == SLOT_COUNT,
            forall|slot: int|
                0 <= slot < SLOT_COUNT ==> #[trigger] table@[slot] == slot_colour(
                    slot,
                    asset_type,
                    *character_colours,
                    *outline_colours,
                ),
            forall|j: int|
                0 <= j < i ==> #[trigger] image@.pixels[j] == recoloured_pixel(
                    old(image)@.pixels[j],
                    asset_type,
                    *character_colours,
                    *outline_colours,
                ),
            forall|j: int| i <= j < count ==> #[trigger] image@.pixels[j] == old(image)@.pixels[j],
        decreases count - i,
    {
        let p: Rgba = image.pixel(i);
        if p.a != 0 {
            let slot: usize = (p.r / 10) as usize;
            if slot < SLOT_COUNT {
                match table[slot] {
                    Some(colour) => {
                        image.set_pixel(i, colour);
                    },
                    None => {},
                }
            }
        }
        i = i + 1;
    }
    assert(image@.pixels =~= recoloured(
        old(image)@,
        asset_type,
        *character_colours,
        *outline_colours,
    ).pixels);
}

} // verus!
