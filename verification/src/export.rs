//! Flattening a character's layers into one bitmap.
//!
//! A character's layers were placed on an authoring canvas. To export the
//! character at some output size, each layer is recoloured, scaled by its own
//! factor times the ratio of output width to canvas width, mirrored if it is
//! flipped, turned about its centre, and laid over a working buffer; the
//! buffer is then cut back to the output size. All placement arithmetic is
//! exact: ratios are rounded or truncated once, at the end.

use crate::asset::AssetType;
use crate::character::{Character, CharacterColours, Outlines};
use crate::raster::{lemma_cell_index, lemma_cell_roundtrip, size_fits, Image, ImageView};
use crate::recolour::{recolour, recoloured};
use crate::types::{Fixed, Point};
use vstd::prelude::*;

verus! {

/// The sizes at which characters are exported.
#[derive(Debug, PartialEq, Eq, Clone, Copy, Structural)]
pub enum ExportSize {
    Half,
    Original,
    Double,
}

impl ExportSize {
    /// The size's name with the portrait and token dimensions it stands for.
    pub open spec fn display_name_spec(self) -> Seq<char> {
        match self {
            ExportSize::Half => "Half (48x48) (32x32)"@,
            ExportSize::Original => "Original (96x96) (64x64)"@,
            ExportSize::Double => "Double (192x192) (128x128)"@,
        }
    }

    /// The size's name with the portrait and token dimensions it stands for.
    pub fn display_name(&self) -> (s: String)
        ensures
            s@ == self.display_name_spec(),
    {
        let name: &str = match self {
            ExportSize::Half => "Half (48x48) (32x32)",
            ExportSize::Original => "Original (96x96) (64x64)",
            ExportSize::Double => "Double (192x192) (128x128)",
        };
        name.to_owned()
    }

    /// Width and height of a portrait at this size.
    pub fn portrait(&self) -> (size: (u32, u32))
        ensures
            size == match *self {
                ExportSize::Half => (48u32, 48u32),
                ExportSize::Original => (96u32, 96u32),
                ExportSize::Double => (192u32, 192u32),
            },
    {
        match self {
            ExportSize::Half => (48, 48),
            ExportSize::Original => (96, 96),
            ExportSize::Double => (192, 192),
        }
    }

    /// Width and height of a token at this size.
    pub fn token(&self) -> (size: (u32, u32))
        ensures
            size == match *self {
                ExportSize::Half => (32u32, 32u32),
                ExportSize::Original => (64u32, 64u32),
                ExportSize::Double => (128u32, 128u32),
            },
    {
        match self {
            ExportSize::Half => (32, 32),
            ExportSize::Original => (64, 64),
            ExportSize::Double => (128, 128),
        }
    }
}

/// `v`, or the nearer bound where `v` lies outside `lo..=hi`.
pub open spec fn clamped(v: int, lo: int, hi: int) -> int {
    if v < lo {
        lo
    } else if v > hi {
        hi
    } else {
        v
    }
}

/// The ratio `n / d` rounded to the nearest whole number, halves away from
/// zero. The divisor may have either sign, but not be zero.
pub open spec fn rounded_ratio(n: int, d: int) -> int {
    let (n, d) = if d < 0 {
        (-n, -d)
    } else {
        (n, d)
    };
    if n >= 0 {
        (2 * n + d) / (2 * d)
    } else {
        -((2 * (-n) + d) / (2 * d))
    }
}

/// The ratio `n / d` with its fraction dropped. The divisor may have either
/// sign, but not be zero.
pub open spec fn truncated_ratio(n: int, d: int) -> int {
    let (n, d) = if d < 0 {
        (-n, -d)
    } else {
        (n, d)
    };
    if n >= 0 {
        n / d
    } else {
        -((-n) / d)
    }
}

/// The length in output pixels of a layer's side that is `native` pixels
/// long in the layer's art: `native × scale × output_width / canvas_width`,
/// rounded to the nearest pixel, and kept within the range of a `u32`.
pub open spec fn scaled_length(native: int, scale: Fixed, output_width: int, canvas_width: Fixed) -> int {
    clamped(rounded_ratio(native * scale.raw * output_width, canvas_width.raw as int), 0, u32::MAX as int)
}

/// Where on one axis of the working buffer the top-left corner of a layer
/// goes: `margin + position × output_width / canvas_width − extent / 2`,
/// with its fraction dropped and kept within the range of an `i64`. `margin`
/// is the offset of the output area within the buffer, `extent` the length
/// of the layer's side in output pixels.
pub open spec fn overlay_origin(
    position: Fixed,
    output_width: int,
    canvas_width: Fixed,
    margin: int,
    extent: int,
) -> int {
    let c = canvas_width.raw as int;
    clamped(
        truncated_ratio(2 * margin * c + 2 * position.raw * output_width - extent * c, 2 * c),
        i64::MIN as int,
        i64::MAX as int,
    )
}

/// The length in output pixels of a layer's side; see [`scaled_length`].
pub fn scale_length(native: u32, scale: Fixed, output_width: u32, canvas_width: Fixed) -> (len: u32)
    requires
        canvas_width.raw != 0,
    ensures
        len == scaled_length(native as int, scale, output_width as int, canvas_width),
        native == 0 ==> len == 0,
{
    let s: i128 = scale.raw as i128;
    let c: i128 = canvas_width.raw as i128;
    assert(-0x8000_0000_0000_0000 <= native * s <= 0x8000_0000_0000_0000) by (nonlinear_arith)
        requires
            0 <= native <= 0xffff_ffff,
            -0x8000_0000 <= s <= 0x7fff_ffff,
    ;
    let area: i128 = native as i128 * s;
    assert(-0x8000_0000_0000_0000_0000_0000 <= area * output_width
        <= 0x8000_0000_0000_0000_0000_0000) by (nonlinear_arith)
        requires
            -0x8000_0000_0000_0000 <= area <= 0x8000_0000_0000_0000,
            0 <= output_width <= 0xffff_ffff,
    ;
    let product: i128 = area * output_width as i128;
    assert(product == native * scale.raw * output_width);
    let (n, d): (i128, i128) = if c < 0 {
        (-product, -c)
    } else {
        (product, c)
    };
    if n <= 0 {
        proof {
            if n < 0 {
                assert((2 * (-n) + d) / (2 * d) >= 0) by (nonlinear_arith)
                    requires
                        n < 0,
                        d > 0,
                ;
            } else {
                assert((2 * n + d) / (2 * d) == 0) by (nonlinear_arith)
                    requires
                        n == 0,
                        d > 0,
                ;
            }
        }
        return 0;
    }
    let q: u128 = ((2 * n + d) as u128) / ((2 * d) as u128);
    if q > u32::MAX as u128 {
        u32::MAX
    } else {
        q as u32
    }
}

/// Where on one axis of the working buffer a layer's top-left corner goes;
/// see [`overlay_origin`].
pub fn origin_on_axis(
    position: Fixed,
    output_width: u32,
    canvas_width: Fixed,
    margin: u32,
    extent: u32,
) -> (at: i64)
    requires
        canvas_width.raw != 0,
    ensures
        at == overlay_origin(position, output_width as int, canvas_width, margin as int, extent as int),
{
    let c: i128 = canvas_width.raw as i128;
    let p: i128 = position.raw as i128;
    assert(-0x8000_0000_0000_0000 <= margin * c <= 0x8000_0000_0000_0000) by (nonlinear_arith)
        requires
            0 <= margin <= 0xffff_ffff,
            -0x8000_0000 <= c <= 0x7fff_ffff,
    ;
    assert(-0x8000_0000_0000_0000 <= p * output_width <= 0x8000_0000_0000_0000)
        by (nonlinear_arith)
        requires
            0 <= output_width <= 0xffff_ffff,
            -0x8000_0000 <= p <= 0x7fff_ffff,
    ;
    assert(-0x8000_0000_0000_0000 <= extent * c <= 0x8000_0000_0000_0000) by (nonlinear_arith)
        requires
            0 <= extent <= 0xffff_ffff,
            -0x8000_0000 <= c <= 0x7fff_ffff,
    ;
    let sum: i128 = 2 * (margin as i128 * c) + 2 * (p * output_width as i128) - extent as i128 * c;
    assert(sum == 2 * margin * c + 2 * position.raw * output_width - extent * c) by (nonlinear_arith)
        requires
            sum == 2 * (margin * c) + 2 * (p * output_width) - extent * c,
            p == position.raw,
    ;
    let (n, d): (i128, i128) = if c < 0 {
        (-sum, -(2 * c))
    } else {
        (sum, 2 * c)
    };
    let t: i128 = if n >= 0 {
        ((n as u128) / (d as u128)) as i128
    } else {
        -((((-n) as u128) / (d as u128)) as i128)
    };
    if t < i64::MIN as i128 {
        i64::MIN
    } else if t > i64::MAX as i128 {
        i64::MAX
    } else {
        t as i64
    }
}

/// A layer made ready for compositing: recoloured, scaled and, if flipped,
/// mirrored. It has yet to be turned about its centre by `rotation`, and to
/// be laid over the export buffer with its centre at `position`.
#[derive(Debug)]
pub struct PreparedLayer {
    pub image: Image,
    /// The angle in radians by which the layer is turned clockwise.
    pub rotation: Fixed,
    /// Where the layer's centre lies on the authoring canvas.
    pub position: Point,
}

/// The mathematical model of a prepared layer.
pub struct LayerView {
    pub image: ImageView,
    pub rotation: Fixed,
    pub position: Point,
}

impl View for PreparedLayer {
    type V = LayerView;

    open spec fn view(&self) -> LayerView {
        LayerView { image: self.image@, rotation: self.rotation, position: self.position }
    }
}

/// The models of a sequence of prepared layers.
pub open spec fn layer_views(layers: Seq<PreparedLayer>) -> Seq<LayerView> {
    Seq::new(layers.len(), |i: int| layers[i]@)
}

/// A layer's art made ready for compositing at `width` by `height` pixels:
/// recoloured for its kind, resampled, and mirrored if it is flipped.
pub open spec fn prepared_image(
    source: ImageView,
    asset_type: AssetType,
    colours: CharacterColours,
    outlines: Outlines,
    width: nat,
    height: nat,
    flipped: bool,
) -> ImageView {
    let scaled = recoloured(source, asset_type, colours, outlines).resized(width, height);
    if flipped {
        scaled.flipped()
    } else {
        scaled
    }
}

/// The layer of one kind made ready for compositing, where the character
/// has that layer, the layer's pixels are loaded, and the layer does not
/// vanish at the export scale.
pub open spec fn prepared_layer(
    character: Character,
    asset_type: AssetType,
    output_width: int,
    canvas_width: Fixed,
) -> Option<LayerView> {
    match character.part(asset_type) {
        Some(part) => match part.asset.image_data {
            Some(image) => {
                let width = scaled_length(image@.width as int, part.scale, output_width, canvas_width);
                let height = scaled_length(
                    image@.height as int,
                    part.scale,
                    output_width,
                    canvas_width,
                );
                if width == 0 || height == 0 {
                    None
                } else {
                    Some(
                        LayerView {
                            image: prepared_image(
                                image@,
                                asset_type,
                                character.character_colours,
                                character.outline_colours,
                                width as nat,
                                height as nat,
                                part.flipped,
                            ),
                            rotation: part.rotation,
                            position: part.position,
                        },
                    )
                }
            },
            None => None,
        },
        None => None,
    }
}

/// The layers of the given kinds made ready for compositing, in the order
/// of the kinds; kinds without a drawable layer leave nothing.
pub open spec fn prepared_layers(
    character: Character,
    kinds: Seq<AssetType>,
    output_width: int,
    canvas_width: Fixed,
) -> Seq<LayerView>
    decreases kinds.len(),
{
    if kinds.len() == 0 {
        Seq::empty()
    } else {
        let before = prepared_layers(character, kinds.drop_last(), output_width, canvas_width);
        match prepared_layer(character, kinds.last(), output_width, canvas_width) {
            Some(layer) => before.push(layer),
            None => before,
        }
    }
}

/// Whether the layer of one kind can be held at the export scale, together
/// with the working copy that resampling makes of it.
pub open spec fn layer_fits(
    character: Character,
    asset_type: AssetType,
    output_width: int,
    canvas_width: Fixed,
) -> bool {
    match character.part(asset_type) {
        Some(part) => match part.asset.image_data {
            Some(image) => {
                let width = scaled_length(image@.width as int, part.scale, output_width, canvas_width);
                let height = scaled_length(
                    image@.height as int,
                    part.scale,
                    output_width,
                    canvas_width,
                );
                size_fits(image@.width as int, height) && size_fits(width, height)
            },
            None => true,
        },
        None => true,
    }
}

/// Whether the layers of all the given kinds can be held at the export
/// scale.
pub open spec fn layers_fit(
    character: Character,
    kinds: Seq<AssetType>,
    output_width: int,
    canvas_width: Fixed,
) -> bool {
    forall|i: int|
        0 <= i < kinds.len() ==> layer_fits(character, #[trigger] kinds[i], output_width, canvas_width)
}

/// The side of the square working buffer for an output size: twice the
/// larger output dimension, so that layers that reach past the output area
/// once scaled and turned still find room.
pub open spec fn buffer_side(output_size: (u32, u32)) -> int {
    if output_size.0 >= output_size.1 {
        2 * output_size.0
    } else {
        2 * output_size.1
    }
}

/// The column of the working buffer at which the output area begins: the
/// buffer's centre less half the output width, the half rounded down.
pub open spec fn margin_x(output_size: (u32, u32)) -> int {
    buffer_side(output_size) / 2 - output_size.0 / 2
}

/// The row of the working buffer at which the output area begins.
pub open spec fn margin_y(output_size: (u32, u32)) -> int {
    buffer_side(output_size) / 2 - output_size.1 / 2
}

/// Whether the working buffer for an output size can be held.
pub open spec fn output_fits(output_size: (u32, u32)) -> bool {
    buffer_side(output_size) <= u32::MAX && size_fits(
        buffer_side(output_size),
        buffer_side(output_size),
    )
}

/// The working buffer after the first `count` layers were laid over it,
/// bottom layer first. Each layer's centre goes where its position falls on
/// the output area.
pub open spec fn stacked(
    layers: Seq<LayerView>,
    count: nat,
    output_size: (u32, u32),
    canvas_width: Fixed,
) -> ImageView
    decreases count,
{
    if count == 0 {
        ImageView::blank(buffer_side(output_size) as nat, buffer_side(output_size) as nat)
    } else {
        let layer = layers[count - 1];
        stacked(layers, (count - 1) as nat, output_size, canvas_width).overlaid(
            layer.image,
            overlay_origin(
                layer.position.x,
                output_size.0 as int,
                canvas_width,
                margin_x(output_size),
                layer.image.width as int,
            ),
            overlay_origin(
                layer.position.y,
                output_size.0 as int,
                canvas_width,
                margin_y(output_size),
                layer.image.height as int,
            ),
        )
    }
}

/// The flattened output: all layers laid over the working buffer, and the
/// output area cut out of it.
pub open spec fn composited(
    layers: Seq<LayerView>,
    output_size: (u32, u32),
    canvas_width: Fixed,
) -> ImageView {
    stacked(layers, layers.len(), output_size, canvas_width).cropped(
        margin_x(output_size),
        margin_y(output_size),
        output_size.0 as nat,
        output_size.1 as nat,
    )
}

/// Makes the layer of one kind ready for compositing. The character's own
/// pixels are never written: the layer works on a copy.
pub fn prepare_layer(
    character: &Character,
    asset_type: AssetType,
    output_width: u32,
    canvas_width: Fixed,
) -> (layer: Option<PreparedLayer>)
    requires
        canvas_width.raw != 0,
        layer_fits(*character, asset_type, output_width as int, canvas_width),
    ensures
        match prepared_layer(*character, asset_type, output_width as int, canvas_width) {
            Some(view) => layer matches Some(l) && l@ == view && l.image@.wf(),
            None => layer is None,
        },
{
    let part = match character.get_character_part(&asset_type) {
        Some(part) => part,
        None => {
            return None;
        },
    };
    let mut image: Image = match &part.asset.image_data {
        Some(shared) => (**shared).clone(),
        None => {
            return None;
        },
    };
    recolour(&mut image, asset_type, &character.character_colours, &character.outline_colours);
    let width: u32 = scale_length(image.width(), part.scale, output_width, canvas_width);
    let height: u32 = scale_length(image.height(), part.scale, output_width, canvas_width);
    if width == 0 || height == 0 {
        return None;
    }
    let mut scaled = image.resize_nearest(width, height);
    if part.flipped {
        scaled = scaled.flip_horizontal();
    }
    Some(PreparedLayer { image: scaled, rotation: part.rotation, position: part.position })
}

/// Makes the layers of the given kinds ready for compositing, in the order
/// of the kinds. Nothing is prepared for a canvas without width or height:
/// there is no scale to export at.
pub fn prepare_layers(
    character: &Character,
    parts_to_draw: &[AssetType],
    output_size: (u32, u32),
    ui_canvas_size: Point,
) -> (layers: Option<Vec<PreparedLayer>>)
    requires
        ui_canvas_size.x.raw != 0 ==> layers_fit(
            *character,
            parts_to_draw@,
            output_size.0 as int,
            ui_canvas_size.x,
        ),
    ensures
        layers is None <==> ui_canvas_size.x.raw == 0 || ui_canvas_size.y.raw == 0,
        layers matches Some(ls) ==> layer_views(ls@) == prepared_layers(
            *character,
            parts_to_draw@,
            output_size.0 as int,
            ui_canvas_size.x,
        ) && forall|i: int| 0 <= i < ls@.len() ==> (#[trigger] ls@[i]).image@.wf(),
{
    if ui_canvas_size.x.raw == 0 || ui_canvas_size.y.raw == 0 {
        return None;
    }
    let mut layers: Vec<PreparedLayer> = Vec::new();
    let mut i: usize = 0;
    assert(parts_to_draw@.take(0) =~= Seq::<AssetType>::empty());
    assert(layer_views(layers@) =~= Seq::<LayerView>::empty());
    while i < parts_to_draw.len()
        invariant
            i <= parts_to_draw@.len(),
            ui_canvas_size.x.raw != 0,
            layers_fit(*character, parts_to_draw@, output_size.0 as int, ui_canvas_size.x),
            layer_views(layers@) == prepared_layers(
                *character,
                parts_to_draw@.take(i as int),
                output_size.0 as int,
                ui_canvas_size.x,
            ),
            forall|j: int| 0 <= j < layers@.len() ==> (#[trigger] layers@[j]).image@.wf(),
        decreases parts_to_draw@.len() - i,
    {
        let kind: AssetType = parts_to_draw[i];
        proof {
            assert(parts_to_draw@.take(i + 1).drop_last() =~= parts_to_draw@.take(i as int));
            assert(parts_to_draw@.take(i + 1).last() == parts_to_draw@[i as int]);
        }
        let ghost before = layers@;
        match prepare_layer(character, kind, output_size.0, ui_canvas_size.x) {
            Some(layer) => {
                layers.push(layer);
                assert(layer_views(layers@) =~= layer_views(before).push(layer@));
            },
            None => {},
        }
        i = i + 1;
    }
    assert(parts_to_draw@.take(i as int) =~= parts_to_draw@);
    Some(layers)
}

/// Lays prepared and turned layers over a blank working buffer, bottom
/// layer first, and cuts the output area out of it. Each layer's centre
/// goes where its position on the authoring canvas falls on the output.
pub fn compose_layers(
    layers: &Vec<PreparedLayer>,
    output_size: (u32, u32),
    ui_canvas_size: Point,
) -> (out: Image)
    requires
        ui_canvas_size.x.raw != 0,
        output_fits(output_size),
    ensures
        out@.wf(),
        out@ == composited(layer_views(layers@), output_size, ui_canvas_size.x),
        out@.width == output_size.0,
        out@.height == output_size.1,
{
    let larger: u32 = if output_size.0 >= output_size.1 {
        output_size.0
    } else {
        output_size.1
    };
    let side: u32 = larger * 2;
    let crop_x: u32 = side / 2 - output_size.0 / 2;
    let crop_y: u32 = side / 2 - output_size.1 / 2;
    let mut buffer = Image::new(side, side);
    let ghost views = layer_views(layers@);
    let mut i: usize = 0;
    while i < layers.len()
        invariant
            i <= layers@.len(),
            ui_canvas_size.x.raw != 0,
            views == layer_views(layers@),
            side == buffer_side(output_size),
            crop_x == margin_x(output_size),
            crop_y == margin_y(output_size),
            buffer@.wf(),
            buffer@.width == side,
            buffer@.height == side,
            buffer@ == stacked(views, i as nat, output_size, ui_canvas_size.x),
        decreases layers@.len() - i,
    {
        let layer: &PreparedLayer = &layers[i];
        let x: i64 = origin_on_axis(
            layer.position.x,
            output_size.0,
            ui_canvas_size.x,
            crop_x,
            layer.image.width(),
        );
        let y: i64 = origin_on_axis(
            layer.position.y,
            output_size.0,
            ui_canvas_size.x,
            crop_y,
            layer.image.height(),
        );
        assert(views[i as int] == layer@);
        buffer.overlay(&layer.image, x, y);
        i = i + 1;
    }
    buffer.crop(crop_x, crop_y, output_size.0, output_size.1)
}

/// Whether `turned` holds the layers of `prepared` in the same order, each
/// with its image as `rotate` turned it by the layer's angle, and otherwise
/// unchanged.
pub open spec fn turned_by<R: Fn(&Image, Fixed) -> Image>(
    rotate: R,
    prepared: Seq<PreparedLayer>,
    turned: Seq<PreparedLayer>,
) -> bool {
    &&& turned.len() == prepared.len()
    &&& forall|i: int|
        0 <= i < prepared.len() ==> {
            &&& call_ensures(
                rotate,
                (&prepared[i].image, prepared[i].rotation),
                (#[trigger] turned[i]).image,
            )
            &&& turned[i].position == prepared[i].position
            &&& turned[i].rotation == prepared[i].rotation
        }
}

/// Whether `out` is what flattening the layers `prepared` gives once
/// `rotate` has turned each of them.
pub open spec fn flattens<R: Fn(&Image, Fixed) -> Image>(
    out: ImageView,
    rotate: R,
    prepared: Seq<PreparedLayer>,
    output_size: (u32, u32),
    canvas_width: Fixed,
) -> bool {
    exists|turned: Seq<PreparedLayer>|
        turned_by(rotate, prepared, turned) && out == composited(
            layer_views(turned),
            output_size,
            canvas_width,
        )
}

/// With no layer to draw, the flattened output is a fully transparent
/// bitmap of the output size.
pub proof fn lemma_nothing_drawn_is_transparent(output_size: (u32, u32), canvas_width: Fixed)
    ensures
        composited(Seq::empty(), output_size, canvas_width).width == output_size.0,
        composited(Seq::empty(), output_size, canvas_width).height == output_size.1,
        composited(Seq::empty(), output_size, canvas_width).is_transparent(),
{
    let out = composited(Seq::empty(), output_size, canvas_width);
    let side = buffer_side(output_size);
    let buffer = ImageView::blank(side as nat, side as nat);
    let w = output_size.0 as int;
    let h = output_size.1 as int;
    assert forall|x: int, y: int| out.contains(x, y) implies (#[trigger] out.pixel(x, y)).a == 0 by {
        lemma_cell_index(w, h, x, y);
        lemma_cell_roundtrip(w, x, y);
        lemma_cell_index(side, side, margin_x(output_size) + x, margin_y(output_size) + y);
    }
}

/// A character that has no layer with loaded pixels among the given kinds
/// leaves nothing to draw.
pub proof fn lemma_unpopulated_prepares_nothing(
    character: Character,
    kinds: Seq<AssetType>,
    output_width: int,
    canvas_width: Fixed,
)
    requires
        forall|i: int|
            0 <= i < kinds.len() ==> (character.part(#[trigger] kinds[i]) matches Some(part)
                ==> part.asset.image_data is None),
    ensures
        prepared_layers(character, kinds, output_width, canvas_width) == Seq::<LayerView>::empty(),
    decreases kinds.len(),
{
    if kinds.len() > 0 {
        let before = kinds.drop_last();
        assert forall|i: int| 0 <= i < before.len() implies (character.part(
            #[trigger] before[i],
        ) matches Some(part) ==> part.asset.image_data is None) by {
            assert(before[i] == kinds[i]);
        }
        lemma_unpopulated_prepares_nothing(character, before, output_width, canvas_width);
        assert(kinds.last() == kinds[kinds.len() - 1]);
    }
}

/// Whether the layer of one kind can be held at the export scale.
fn layer_is_within_limits(
    character: &Character,
    asset_type: AssetType,
    output_width: u32,
    canvas_width: Fixed,
) -> (ok: bool)
    requires
        canvas_width.raw != 0,
    ensures
        ok == layer_fits(*character, asset_type, output_width as int, canvas_width),
{
    match character.get_character_part(&asset_type) {
        Some(part) => match &part.asset.image_data {
            Some(image) => {
                let width: u32 = scale_length(image.width(), part.scale, output_width, canvas_width);
                let height: u32 = scale_length(image.height(), part.scale, output_width, canvas_width);
                Image::fits(image.width(), height) && Image::fits(width, height)
            },
            None => true,
        },
        None => true,
    }
}

/// Whether a character can be exported within the limits of this machine:
/// the working buffer and every scaled layer must be small enough to hold.
/// This is what [`prepare_layers`], [`compose_layers`] and
/// [`export_character`] ask of their callers.
pub fn export_fits(
    character: &Character,
    parts_to_draw: &[AssetType],
    output_size: (u32, u32),
    ui_canvas_size: Point,
) -> (ok: bool)
    ensures
        ok == (output_fits(output_size) && (ui_canvas_size.x.raw != 0 ==> layers_fit(
            *character,
            parts_to_draw@,
            output_size.0 as int,
            ui_canvas_size.x,
        ))),
{
    let larger: u32 = if output_size.0 >= output_size.1 {
        output_size.0
    } else {
        output_size.1
    };
    if larger > u32::MAX / 2 {
        return false;
    }
    if !Image::fits(larger * 2, larger * 2) {
        return false;
    }
    if ui_canvas_size.x.raw == 0 {
        return true;
    }
    let mut i: usize = 0;
    while i < parts_to_draw.len()
        invariant
            i <= parts_to_draw@.len(),
            ui_canvas_size.x.raw != 0,
            forall|j: int|
                0 <= j < i ==> layer_fits(
                    *character,
                    #[trigger] parts_to_draw@[j],
                    output_size.0 as int,
                    ui_canvas_size.x,
                ),
        decreases parts_to_draw@.len() - i,
    {
        if !layer_is_within_limits(character, parts_to_draw[i], output_size.0, ui_canvas_size.x) {
            return false;
        }
        i = i + 1;
    }
    true
}

/// Flattens a character into one bitmap of exactly the output size.
///
/// `parts_to_draw` says which layers appear and in which order they are
/// drawn, bottom first. `ui_canvas_size` is the size of the canvas that the
/// layers were placed on. `rotate` turns a prepared layer clockwise about
/// its centre by an angle in radians; it is called once for each layer that
/// is drawn. A canvas without width or height gives no image.
pub fn export_character<R: Fn(&Image, Fixed) -> Image>(
    character: &Character,
    parts_to_draw: &[AssetType],
    output_size: (u32, u32),
    ui_canvas_size: Point,
    rotate: R,
) -> (out: Option<Image>)
    requires
        output_fits(output_size),
        ui_canvas_size.x.raw != 0 ==> layers_fit(
            *character,
            parts_to_draw@,
            output_size.0 as int,
            ui_canvas_size.x,
        ),
        forall|image: &Image, angle: Fixed| call_requires(rotate, (image, angle)),
    ensures
        out is None <==> ui_canvas_size.x.raw == 0 || ui_canvas_size.y.raw == 0,
        out matches Some(image) ==> {
            &&& image@.wf()
            &&& image@.width == output_size.0
            &&& image@.height == output_size.1
            &&& exists|prepared: Seq<PreparedLayer>|
                layer_views(prepared) == prepared_layers(
                    *character,
                    parts_to_draw@,
                    output_size.0 as int,
                    ui_canvas_size.x,
                ) && flattens(image@, rotate, prepared, output_size, ui_canvas_size.x)
        },
        // With no layer to draw, the image is fully transparent.
        out matches Some(image) ==> (prepared_layers(
            *character,
            parts_to_draw@,
            output_size.0 as int,
            ui_canvas_size.x,
        ).len() == 0 ==> image@.is_transparent()),
        // A character without a layer that has pixels leaves no layer to draw.
        out matches Some(image) ==> ((forall|i: int|
            0 <= i < parts_to_draw@.len() ==> (character.part(
                #[trigger] parts_to_draw@[i],
            ) matches Some(part) ==> part.asset.image_data is None)) ==> image@.is_transparent()),
{
    let prepared = match prepare_layers(character, parts_to_draw, output_size, ui_canvas_size) {
        Some(prepared) => prepared,
        None => {
            return None;
        },
    };
    let mut turned: Vec<PreparedLayer> = Vec::new();
    let mut i: usize = 0;
    while i < prepared.len()
        invariant
            i <= prepared@.len(),
            turned@.len() == i,
            forall|image: &Image, angle: Fixed| call_requires(rotate, (image, angle)),
            forall|j: int|
                0 <= j < i ==> {
                    &&& call_ensures(
                        rotate,
                        (&prepared@[j].image, prepared@[j].rotation),
                        (#[trigger] turned@[j]).image,
                    )
                    &&& turned@[j].position == prepared@[j].position
                    &&& turned@[j].rotation == prepared@[j].rotation
                },
        decreases prepared@.len() - i,
    {
        let layer: &PreparedLayer = &prepared[i];
        let image: Image = rotate(&layer.image, layer.rotation);
        turned.push(PreparedLayer { image, rotation: layer.rotation, position: layer.position });
        i = i + 1;
    }
    let out = compose_layers(&turned, output_size, ui_canvas_size);
    proof {
        assert(turned_by(rotate, prepared@, turned@));
        assert(flattens(out@, rotate, prepared@, output_size, ui_canvas_size.x));
        if prepared@.len() == 0 {
            assert(layer_views(turned@) =~= Seq::<LayerView>::empty());
            lemma_nothing_drawn_is_transparent(output_size, ui_canvas_size.x);
        }
        assert(layer_views(prepared@).len() == prepared@.len());
        if forall|i: int|
            0 <= i < parts_to_draw@.len() ==> (character.part(
                #[trigger] parts_to_draw@[i],
            ) matches Some(part) ==> part.asset.image_data is None) {
            lemma_unpopulated_prepares_nothing(
                *character,
                parts_to_draw@,
                output_size.0 as int,
                ui_canvas_size.x,
            );
        }
    }
    Some(out)
}

} // verus!
