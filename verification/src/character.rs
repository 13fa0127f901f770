//! A character: its layers, its colours and its outline colours.

use crate::asset::{Asset, AssetType};
use crate::extensions::rgba::{brighter_colour, darker_colour, AdjustBrightness};
use crate::types::{Fixed, Point, Rgba};
use vstd::arithmetic::div_mod::{
    lemma_fundamental_div_mod, lemma_fundamental_div_mod_converse, lemma_small_mod,
};
use vstd::prelude::*;

verus! {

/// A distinct, colourable region of a character's art.
///
/// `Outline` is a pseudo-region: the outline is coloured per layer kind, so
/// no palette drives it and no shade set is derived for it.
#[derive(Debug, PartialEq, Eq, Hash, Clone, Copy, PartialOrd, Ord, Structural)]
pub enum Colourable {
    Hair,
    EyeAndBeard,
    Skin,
    Metal,
    Trim,
    Cloth,
    Leather,
    Accessory,
    Outline,
}

impl Colourable {
    /// The region's name as shown to a user.
    pub open spec fn name_spec(self) -> Seq<char> {
        match self {
            Colourable::Hair => "Hair"@,
            Colourable::EyeAndBeard => "Eye & Beard"@,
            Colourable::Skin => "Skin"@,
            Colourable::Metal => "Metal"@,
            Colourable::Trim => "Trim"@,
            Colourable::Cloth => "Cloth"@,
            Colourable::Leather => "Leather"@,
            Colourable::Accessory => "Accessory"@,
            Colourable::Outline => "Outline"@,
        }
    }

    /// The region's name as shown to a user.
    pub fn to_string(&self) -> (s: String)
        ensures
            s@ == self.name_spec(),
    {
        let name: &str = match self {
            Colourable::Hair => "Hair",
            Colourable::EyeAndBeard => "Eye & Beard",
            Colourable::Skin => "Skin",
            Colourable::Metal => "Metal",
            Colourable::Trim => "Trim",
            Colourable::Cloth => "Cloth",
            Colourable::Leather => "Leather",
            Colourable::Accessory => "Accessory",
            Colourable::Outline => "Outline",
        };
        name.to_owned()
    }

    /// The region's place in the order of regions.
    pub open spec fn ordinal(self) -> int {
        match self {
            Colourable::Hair => 0,
            Colourable::EyeAndBeard => 1,
            Colourable::Skin => 2,
            Colourable::Metal => 3,
            Colourable::Trim => 4,
            Colourable::Cloth => 5,
            Colourable::Leather => 6,
            Colourable::Accessory => 7,
            Colourable::Outline => 8,
        }
    }

    /// The regions that palettes colour: every region but the outline.
    pub fn paintable() -> (regions: Vec<Colourable>)
        ensures
            regions@.len() == 8,
            forall|i: int| 0 <= i < 8 ==> (#[trigger] regions@[i]).ordinal() == i,
            regions@ == seq![
                Colourable::Hair,
                Colourable::EyeAndBeard,
                Colourable::Skin,
                Colourable::Metal,
                Colourable::Trim,
                Colourable::Cloth,
                Colourable::Leather,
                Colourable::Accessory,
            ],
    {
        let regions = vec![
            Colourable::Hair,
            Colourable::EyeAndBeard,
            Colourable::Skin,
            Colourable::Metal,
            Colourable::Trim,
            Colourable::Cloth,
            Colourable::Leather,
            Colourable::Accessory,
        ];
        proof {
            assert(regions@[0] == Colourable::Hair);
            assert(regions@[1] == Colourable::EyeAndBeard);
            assert(regions@[2] == Colourable::Skin);
            assert(regions@[3] == Colourable::Metal);
            assert(regions@[4] == Colourable::Trim);
            assert(regions@[5] == Colourable::Cloth);
            assert(regions@[6] == Colourable::Leather);
            assert(regions@[7] == Colourable::Accessory);
        }
        regions
    }
}

/// The colour that an empty palette answers with.
pub open spec fn sentinel_colour() -> Rgba {
    Rgba { r: 255, g: 0, b: 255, a: 255 }
}

/// The mathematical model of a palette: its colours in order, and the
/// position of its cursor.
pub struct PaletteView {
    pub colours: Seq<Rgba>,
    pub index: nat,
}

impl PaletteView {
    /// The cursor points at a colour, or at zero where there is none.
    pub open spec fn wf(self) -> bool {
        if self.colours.len() == 0 {
            self.index == 0
        } else {
            self.index < self.colours.len()
        }
    }

    /// The colour under the cursor.
    pub open spec fn current(self) -> Rgba {
        if self.index < self.colours.len() {
            self.colours[self.index as int]
        } else {
            sentinel_colour()
        }
    }

    /// The colour one step after the cursor, wrapping at the end.
    pub open spec fn peek(self) -> Rgba {
        if self.colours.len() == 0 {
            sentinel_colour()
        } else {
            self.colours[(self.index as int + 1) % (self.colours.len() as int)]
        }
    }

    /// The palette with its cursor one step on, wrapping at the end.
    pub open spec fn advance(self) -> PaletteView {
        if self.colours.len() == 0 {
            self
        } else {
            PaletteView {
                colours: self.colours,
                index: ((self.index as int + 1) % (self.colours.len() as int)) as nat,
            }
        }
    }

    /// The palette with its cursor `steps` steps on.
    pub open spec fn advance_by(self, steps: nat) -> PaletteView
        decreases steps,
    {
        if steps == 0 {
            self
        } else {
            self.advance().advance_by((steps - 1) as nat)
        }
    }
}

/// Stepping a cursor `steps` times moves it by `steps` places around the
/// palette.
pub proof fn lemma_advance_by_index(p: PaletteView, steps: nat)
    requires
        p.wf(),
        p.colours.len() > 0,
    ensures
        p.advance_by(steps).colours == p.colours,
        p.advance_by(steps).index == (p.index as int + steps as int) % (p.colours.len() as int),
        p.advance_by(steps).wf(),
    decreases steps,
{
    let n = p.colours.len() as int;
    let i = p.index as int;
    let k = steps as int;
    if steps == 0 {
        lemma_small_mod(p.index, n as nat);
    } else {
        let q = p.advance();
        let j = q.index as int;
        lemma_advance_by_index(q, (steps - 1) as nat);
        let a = (i + 1) / n;
        let b = (j + k - 1) / n;
        let r = (j + k - 1) % n;
        assert(i + 1 == n * a + j) by {
            lemma_fundamental_div_mod(i + 1, n);
        }
        assert(j + k - 1 == n * b + r) by {
            lemma_fundamental_div_mod(j + k - 1, n);
        }
        assert(i + k == (a + b) * n + r) by (nonlinear_arith)
            requires
                i + 1 == n * a + j,
                j + k - 1 == n * b + r,
        ;
        lemma_fundamental_div_mod_converse(i + k, n, a + b, r);
    }
}

/// Stepping through a palette once for each of its colours brings the cursor
/// back to where it was, so the current colour is the one it started with.
pub proof fn lemma_full_cycle_returns(p: PaletteView)
    requires
        p.wf(),
        p.colours.len() > 0,
    ensures
        p.advance_by(p.colours.len()) == p,
        p.advance_by(p.colours.len()).current() == p.current(),
{
    let n = p.colours.len() as int;
    lemma_advance_by_index(p, p.colours.len());
    lemma_fundamental_div_mod_converse(p.index as int + n, n, 1, p.index as int);
}

/// What `peek` shows is what the next step makes current.
pub proof fn lemma_peek_is_next(p: PaletteView)
    requires
        p.wf(),
    ensures
        p.peek() == p.advance().current(),
{
}

/// An ordered list of colours with a cursor that steps through it in a
/// cycle.
#[derive(Debug)]
pub struct ColourPalette {
    colours: Vec<Rgba>,
    current_index: usize,
}

impl View for ColourPalette {
    type V = PaletteView;

    closed spec fn view(&self) -> PaletteView {
        PaletteView { colours: self.colours@, index: self.current_index as nat }
    }
}

impl ColourPalette {
    #[verifier::type_invariant]
    spec fn inv(self) -> bool {
        self@.wf()
    }

    /// A palette of the given colours with its cursor on the first.
    pub fn new(colours: Vec<Rgba>) -> (palette: Self)
        ensures
            palette@ == (PaletteView { colours: colours@, index: 0 }),
            palette@.wf(),
    {
        Self { colours, current_index: 0 }
    }

    /// The colour under the cursor; the sentinel colour where the palette is
    /// empty.
    pub fn current(&self) -> (c: &Rgba)
        ensures
            *c == self@.current(),
            self@.wf(),
    {
        proof {
            use_type_invariant(self);
        }
        if self.current_index < self.colours.len() {
            &self.colours[self.current_index]
        } else {
            &Rgba { r: 255, g: 0, b: 255, a: 255 }
        }
    }

    /// Moves the cursor one step on, wrapping at the end, and gives the
    /// colour it then stands on; the sentinel colour where the palette is
    /// empty.
    pub fn next_cyclic(&mut self) -> (c: &Rgba)
        ensures
            final(self)@ == old(self)@.advance(),
            final(self)@.wf(),
            *c == final(self)@.current(),
    {
        proof {
            use_type_invariant(&*self);
        }
        if self.colours.len() == 0 {
            return &Rgba { r: 255, g: 0, b: 255, a: 255 };
        }
        self.current_index = (self.current_index + 1) % self.colours.len();
        &self.colours[self.current_index]
    }

    /// The colour one step after the cursor, without moving the cursor; the
    /// sentinel colour where the palette is empty.
    pub fn peek(&self) -> (c: &Rgba)
        ensures
            *c == self@.peek(),
            self@.wf(),
    {
        proof {
            use_type_invariant(self);
        }
        if self.colours.len() == 0 {
            return &Rgba { r: 255, g: 0, b: 255, a: 255 };
        }
        let peek_index: usize = (self.current_index + 1) % self.colours.len();
        &self.colours[peek_index]
    }

    /// The palette's colours, in order.
    pub fn colours(&self) -> (colours: &Vec<Rgba>)
        ensures
            colours@ == self@.colours,
    {
        &self.colours
    }
}

impl Default for ColourPalette {
    fn default() -> (palette: Self)
        ensures
            palette@ == (PaletteView { colours: Seq::empty(), index: 0 }),
    {
        Self { colours: Vec::new(), current_index: 0 }
    }
}

/// The palettes to pick colours from, at most one for each region.
#[derive(Debug)]
pub struct ColourPalettes {
    pub hair: Option<ColourPalette>,
    pub eye_and_beard: Option<ColourPalette>,
    pub skin: Option<ColourPalette>,
    pub metal: Option<ColourPalette>,
    pub trim: Option<ColourPalette>,
    pub cloth: Option<ColourPalette>,
    pub leather: Option<ColourPalette>,
    pub accessory: Option<ColourPalette>,
    pub outline: Option<ColourPalette>,
}

impl ColourPalettes {
    /// The palette of a region, if it has one.
    pub open spec fn palette(self, region: Colourable) -> Option<ColourPalette> {
        match region {
            Colourable::Hair => self.hair,
            Colourable::EyeAndBeard => self.eye_and_beard,
            Colourable::Skin => self.skin,
            Colourable::Metal => self.metal,
            Colourable::Trim => self.trim,
            Colourable::Cloth => self.cloth,
            Colourable::Leather => self.leather,
            Colourable::Accessory => self.accessory,
            Colourable::Outline => self.outline,
        }
    }

    /// The colours that a region can be given: those of its palette, none
    /// where it has no palette.
    pub open spec fn colours(self, region: Colourable) -> Seq<Rgba> {
        match self.palette(region) {
            Some(palette) => palette@.colours,
            None => Seq::empty(),
        }
    }

    /// No palette for any region.
    pub fn new() -> (palettes: Self)
        ensures
            forall|region: Colourable| #[trigger] palettes.palette(region) is None,
    {
        Self {
            hair: None,
            eye_and_beard: None,
            skin: None,
            metal: None,
            trim: None,
            cloth: None,
            leather: None,
            accessory: None,
            outline: None,
        }
    }

    /// The palette of a region, if it has one.
    pub fn get(&self, region: Colourable) -> (palette: &Option<ColourPalette>)
        ensures
            *palette == self.palette(region),
    {
        match region {
            Colourable::Hair => &self.hair,
            Colourable::EyeAndBeard => &self.eye_and_beard,
            Colourable::Skin => &self.skin,
            Colourable::Metal => &self.metal,
            Colourable::Trim => &self.trim,
            Colourable::Cloth => &self.cloth,
            Colourable::Leather => &self.leather,
            Colourable::Accessory => &self.accessory,
            Colourable::Outline => &self.outline,
        }
    }

    /// Gives a region its palette, in place of any it had.
    pub fn insert(&mut self, region: Colourable, palette: ColourPalette)
        ensures
            final(self).palette(region) == Some(palette),
            forall|other: Colourable|
                other != region ==> #[trigger] final(self).palette(other) == old(self).palette(other),
    {
        match region {
            Colourable::Hair => self.hair = Some(palette),
            Colourable::EyeAndBeard => self.eye_and_beard = Some(palette),
            Colourable::Skin => self.skin = Some(palette),
            Colourable::Metal => self.metal = Some(palette),
            Colourable::Trim => self.trim = Some(palette),
            Colourable::Cloth => self.cloth = Some(palette),
            Colourable::Leather => self.leather = Some(palette),
            Colourable::Accessory => self.accessory = Some(palette),
            Colourable::Outline => self.outline = Some(palette),
        }
    }
}

/// A base colour and the shades derived from it.
#[derive(Debug, Clone, Copy, PartialEq, Eq, Structural)]
pub struct CharacterPartColours {
    pub lighter: Rgba,
    pub neutral: Rgba,
    pub darker: Rgba,
    pub darker_darker: Rgba,
    pub darker_darker_darker: Rgba,
    pub base: Rgba,
}

/// The shade set of which nothing has been derived yet: every shade is
/// transparent black.
pub open spec fn underived() -> CharacterPartColours {
    let zero = Rgba { r: 0, g: 0, b: 0, a: 0 };
    CharacterPartColours {
        lighter: zero,
        neutral: zero,
        darker: zero,
        darker_darker: zero,
        darker_darker_darker: zero,
        base: zero,
    }
}

/// The shade set of a base colour: one step brighter, the colour itself, and
/// one, two and three steps darker.
pub open spec fn shades_of(base: Rgba) -> CharacterPartColours {
    CharacterPartColours {
        lighter: brighter_colour(base),
        neutral: base,
        darker: darker_colour(base),
        darker_darker: darker_colour(darker_colour(base)),
        darker_darker_darker: darker_colour(darker_colour(darker_colour(base))),
        base,
    }
}

impl CharacterPartColours {
    /// The shade set of `colour`.
    pub fn new(colour: &Rgba) -> (shades: Self)
        ensures
            shades == shades_of(*colour),
    {
        let mut shades = Self::default();
        shades.base = *colour;
        shades.derive_all_colours();
        shades
    }

    /// Derives every shade anew from the base colour.
    pub fn derive_all_colours(&mut self)
        ensures
            *final(self) == shades_of(old(self).base),
    {
        self.lighter = self.base.brighter();
        self.neutral = self.base;
        self.darker = self.base.darker();
        self.darker_darker = self.base.darker().darker();
        self.darker_darker_darker = self.base.darker().darker().darker();
    }

    /// Replaces the base colour and derives every shade from it.
    pub fn set(&mut self, colour: Rgba)
        ensures
            *final(self) == shades_of(colour),
    {
        self.base = colour;
        self.derive_all_colours();
    }
}

impl Default for CharacterPartColours {
    /// The shade set of which nothing has been derived yet.
    fn default() -> (shades: Self)
        ensures
            shades == underived(),
    {
        let zero = Rgba::transparent();
        Self {
            lighter: zero,
            neutral: zero,
            darker: zero,
            darker_darker: zero,
            darker_darker_darker: zero,
            base: zero,
        }
    }
}

/// The outline colour that every layer kind starts with.
pub open spec fn default_outline() -> Rgba {
    Rgba { r: 56, g: 32, b: 64, a: 255 }
}

/// One outline colour per layer kind. Back hair has none of its own: it is
/// outlined like the hair.
#[derive(Debug, Clone, Copy)]
pub struct Outlines {
    armour: Rgba,
    face: Rgba,
    hair: Rgba,
    accessory: Rgba,
    token: Rgba,
}

impl Outlines {
    /// The outline colour of a layer kind.
    pub closed spec fn colour_of(self, asset_type: AssetType) -> Rgba {
        match asset_type {
            AssetType::HairBack => self.hair,
            AssetType::Armour => self.armour,
            AssetType::Face => self.face,
            AssetType::Hair => self.hair,
            AssetType::Accessory => self.accessory,
            AssetType::Token => self.token,
        }
    }

    /// Whether two layer kinds share one outline colour.
    pub open spec fn same_slot(a: AssetType, b: AssetType) -> bool {
        a == b || (a == AssetType::Hair && b == AssetType::HairBack) || (a == AssetType::HairBack
            && b == AssetType::Hair)
    }

    /// The table in which every kind has the default outline colour.
    pub fn new() -> (outlines: Self)
        ensures
            forall|k: AssetType| #[trigger] outlines.colour_of(k) == default_outline(),
    {
        let dark = Rgba::new(56, 32, 64, 255);
        Self { armour: dark, face: dark, hair: dark, accessory: dark, token: dark }
    }

    /// Sets the outline colour of a layer kind; for back hair, that of the
    /// hair. The other kinds keep theirs.
    pub fn set_outline_colour(&mut self, asset_type: AssetType, colour: &Rgba)
        ensures
            forall|k: AssetType| #[trigger]
                final(self).colour_of(k) == if Self::same_slot(k, asset_type) {
                    *colour
                } else {
                    old(self).colour_of(k)
                },
    {
        match asset_type {
            AssetType::HairBack => self.hair = *colour,
            AssetType::Armour => self.armour = *colour,
            AssetType::Face => self.face = *colour,
            AssetType::Hair => self.hair = *colour,
            AssetType::Accessory => self.accessory = *colour,
            AssetType::Token => self.token = *colour,
        }
    }

    /// The outline colour of a layer kind; for back hair, that of the hair.
    pub fn get_outline_colour(&self, asset_type: AssetType) -> (colour: Rgba)
        ensures
            colour == self.colour_of(asset_type),
            asset_type == AssetType::HairBack ==> colour == self.colour_of(AssetType::Hair),
    {
        match asset_type {
            AssetType::HairBack => self.hair,
            AssetType::Armour => self.armour,
            AssetType::Face => self.face,
            AssetType::Hair => self.hair,
            AssetType::Accessory => self.accessory,
            AssetType::Token => self.token,
        }
    }
}

impl Default for Outlines {
    /// The table in which every kind is outlined in opaque black.
    fn default() -> (outlines: Self)
        ensures
            forall|k: AssetType| #[trigger]
                outlines.colour_of(k) == (Rgba { r: 0, g: 0, b: 0, a: 255 }),
    {
        let black = Rgba::black();
        Self { armour: black, face: black, hair: black, accessory: black, token: black }
    }
}

/// The shade set of every colourable region.
#[derive(Debug, Clone, Copy, PartialEq, Eq, Structural)]
pub struct CharacterColours {
    pub hair: CharacterPartColours,
    pub eye_and_beard: CharacterPartColours,
    pub skin: CharacterPartColours,
    pub metal: CharacterPartColours,
    pub trim: CharacterPartColours,
    pub cloth: CharacterPartColours,
    pub leather: CharacterPartColours,
    pub accessory: CharacterPartColours,
    /// Held for completeness; outlines are coloured by the outline table.
    pub outline: CharacterPartColours,
}

/// The colours that a new character has: the shade sets of eight fixed base
/// colours, and nothing derived for the outline.
pub open spec fn default_colours() -> CharacterColours {
    CharacterColours {
        hair: shades_of(Rgba { r: 224, g: 216, b: 64, a: 255 }),
        eye_and_beard: shades_of(Rgba { r: 64, g: 50, b: 25, a: 255 }),
        skin: shades_of(Rgba { r: 248, g: 248, b: 192, a: 255 }),
        metal: shades_of(Rgba { r: 100, g: 100, b: 100, a: 255 }),
        trim: shades_of(Rgba { r: 247, g: 173, b: 82, a: 255 }),
        cloth: shades_of(Rgba { r: 82, g: 82, b: 115, a: 255 }),
        leather: shades_of(Rgba { r: 148, g: 100, b: 66, a: 255 }),
        accessory: shades_of(Rgba { r: 0, g: 0, b: 0, a: 255 }),
        outline: underived(),
    }
}

impl CharacterColours {
    /// The shade set of a region.
    pub open spec fn shades(self, region: Colourable) -> CharacterPartColours {
        match region {
            Colourable::Hair => self.hair,
            Colourable::EyeAndBeard => self.eye_and_beard,
            Colourable::Skin => self.skin,
            Colourable::Metal => self.metal,
            Colourable::Trim => self.trim,
            Colourable::Cloth => self.cloth,
            Colourable::Leather => self.leather,
            Colourable::Accessory => self.accessory,
            Colourable::Outline => self.outline,
        }
    }

    /// The table with the shade set of one region replaced.
    pub open spec fn with(self, region: Colourable, shades: CharacterPartColours) -> Self {
        match region {
            Colourable::Hair => CharacterColours { hair: shades, ..self },
            Colourable::EyeAndBeard => CharacterColours { eye_and_beard: shades, ..self },
            Colourable::Skin => CharacterColours { skin: shades, ..self },
            Colourable::Metal => CharacterColours { metal: shades, ..self },
            Colourable::Trim => CharacterColours { trim: shades, ..self },
            Colourable::Cloth => CharacterColours { cloth: shades, ..self },
            Colourable::Leather => CharacterColours { leather: shades, ..self },
            Colourable::Accessory => CharacterColours { accessory: shades, ..self },
            Colourable::Outline => CharacterColours { outline: shades, ..self },
        }
    }

    /// The shade set of a region.
    pub fn get(&self, region: Colourable) -> (shades: CharacterPartColours)
        ensures
            shades == self.shades(region),
    {
        match region {
            Colourable::Hair => self.hair,
            Colourable::EyeAndBeard => self.eye_and_beard,
            Colourable::Skin => self.skin,
            Colourable::Metal => self.metal,
            Colourable::Trim => self.trim,
            Colourable::Cloth => self.cloth,
            Colourable::Leather => self.leather,
            Colourable::Accessory => self.accessory,
            Colourable::Outline => self.outline,
        }
    }

    /// Replaces the shade set of a region.
    pub fn insert(&mut self, region: Colourable, shades: CharacterPartColours)
        ensures
            *final(self) == old(self).with(region, shades),
    {
        match region {
            Colourable::Hair => self.hair = shades,
            Colourable::EyeAndBeard => self.eye_and_beard = shades,
            Colourable::Skin => self.skin = shades,
            Colourable::Metal => self.metal = shades,
            Colourable::Trim => self.trim = shades,
            Colourable::Cloth => self.cloth = shades,
            Colourable::Leather => self.leather = shades,
            Colourable::Accessory => self.accessory = shades,
            Colourable::Outline => self.outline = shades,
        }
    }
}

impl Default for CharacterColours {
    /// The table in which nothing has been derived for any region.
    fn default() -> (colours: Self)
        ensures
            forall|region: Colourable| #[trigger] colours.shades(region) == underived(),
    {
        let none = CharacterPartColours::default();
        Self {
            hair: none,
            eye_and_beard: none,
            skin: none,
            metal: none,
            trim: none,
            cloth: none,
            leather: none,
            accessory: none,
            outline: none,
        }
    }
}

/// One layer of a character: an asset and where and how it is drawn.
#[derive(Debug)]
pub struct CharacterPart {
    /// Where the layer's centre lies on the canvas it was placed on.
    pub position: Point,
    /// The factor by which the layer is scaled, in both directions alike.
    pub scale: Fixed,
    /// The angle in radians by which the layer is turned clockwise.
    pub rotation: Fixed,
    /// Whether the layer is mirrored left to right.
    pub flipped: bool,
    /// The layer's own copy of what is known of its asset.
    pub asset: Asset,
}

impl CharacterPart {
    /// Whether two layers are drawn alike: at the same size, turned by the
    /// same angle, and mirrored alike.
    pub open spec fn follows(self, other: CharacterPart) -> bool {
        &&& self.scale == other.scale
        &&& self.rotation == other.rotation
        &&& self.flipped == other.flipped
    }
}

impl Clone for CharacterPart {
    fn clone(&self) -> (copy: Self)
        ensures
            copy == *self,
    {
        CharacterPart {
            position: self.position,
            scale: self.scale,
            rotation: self.rotation,
            flipped: self.flipped,
            asset: self.asset.clone(),
        }
    }
}

/// A character: a name, at most one layer per layer kind, the colours of its
/// regions and the outline colours of its layers.
#[derive(Debug)]
pub struct Character {
    pub name: String,
    pub armour: Option<CharacterPart>,
    pub face: Option<CharacterPart>,
    pub hair: Option<CharacterPart>,
    pub hair_back: Option<CharacterPart>,
    pub accessory: Option<CharacterPart>,
    pub token: Option<CharacterPart>,
    pub character_colours: CharacterColours,
    pub outline_colours: Outlines,
}

fn clone_part(part: &Option<CharacterPart>) -> (copy: Option<CharacterPart>)
    ensures
        copy == *part,
{
    match part {
        Some(p) => Some(p.clone()),
        None => None,
    }
}

impl Character {
    /// The layer of the given kind, if the character has one.
    pub open spec fn part(self, asset_type: AssetType) -> Option<CharacterPart> {
        match asset_type {
            AssetType::Armour => self.armour,
            AssetType::Face => self.face,
            AssetType::Hair => self.hair,
            AssetType::HairBack => self.hair_back,
            AssetType::Accessory => self.accessory,
            AssetType::Token => self.token,
        }
    }

    /// The character with the layer of one kind replaced or, with `None`,
    /// removed.
    pub open spec fn with_part(self, asset_type: AssetType, part: Option<CharacterPart>) -> Self {
        match asset_type {
            AssetType::Armour => Character { armour: part, ..self },
            AssetType::Face => Character { face: part, ..self },
            AssetType::Hair => Character { hair: part, ..self },
            AssetType::HairBack => Character { hair_back: part, ..self },
            AssetType::Accessory => Character { accessory: part, ..self },
            AssetType::Token => Character { token: part, ..self },
        }
    }

    /// Whether the back hair, where the character has both, is drawn like
    /// the hair.
    pub open spec fn back_hair_follows_hair(self) -> bool {
        self.hair matches Some(hair) ==> (self.hair_back matches Some(back) ==> back.follows(hair))
    }

    /// A copy of the layer of the given kind, if the character has one.
    pub fn get_character_part(&self, asset_type: &AssetType) -> (part: Option<CharacterPart>)
        ensures
            part == self.part(*asset_type),
    {
        match asset_type {
            AssetType::Armour => clone_part(&self.armour),
            AssetType::Face => clone_part(&self.face),
            AssetType::Hair => clone_part(&self.hair),
            AssetType::HairBack => clone_part(&self.hair_back),
            AssetType::Accessory => clone_part(&self.accessory),
            AssetType::Token => clone_part(&self.token),
        }
    }

    /// Puts a layer in the place of its kind, replacing any that was there.
    pub fn set_character_part(&mut self, asset_type: &AssetType, character_part: CharacterPart)
        ensures
            *final(self) == old(self).with_part(*asset_type, Some(character_part)),
    {
        match asset_type {
            AssetType::Armour => self.armour = Some(character_part),
            AssetType::Face => self.face = Some(character_part),
            AssetType::Hair => self.hair = Some(character_part),
            AssetType::HairBack => self.hair_back = Some(character_part),
            AssetType::Accessory => self.accessory = Some(character_part),
            AssetType::Token => self.token = Some(character_part),
        }
    }

    /// Removes the layer of the given kind, if there is one.
    pub fn remove_character_part(&mut self, asset_type: &AssetType)
        ensures
            *final(self) == old(self).with_part(*asset_type, None),
    {
        match asset_type {
            AssetType::Armour => self.armour = None,
            AssetType::Face => self.face = None,
            AssetType::Hair => self.hair = None,
            AssetType::HairBack => self.hair_back = None,
            AssetType::Accessory => self.accessory = None,
            AssetType::Token => self.token = None,
        }
    }
}

impl Default for Character {
    /// A character without a name or layers, with the default colour of
    /// every region, its shades derived, and the default outline colours.
    fn default() -> (character: Self)
        ensures
            character.name@ == Seq::<char>::empty(),
            forall|k: AssetType| #[trigger] character.part(k) is None,
            character.character_colours == default_colours(),
            forall|k: AssetType| #[trigger]
                character.outline_colours.colour_of(k) == default_outline(),
    {
        let mut colours = CharacterColours::default();
        assert(colours.shades(Colourable::Outline) == underived());
        colours.hair = CharacterPartColours::new(&Rgba::new(224, 216, 64, 255));
        colours.eye_and_beard = CharacterPartColours::new(&Rgba::new(64, 50, 25, 255));
        colours.skin = CharacterPartColours::new(&Rgba::new(248, 248, 192, 255));
        colours.metal = CharacterPartColours::new(&Rgba::new(100, 100, 100, 255));
        colours.trim = CharacterPartColours::new(&Rgba::new(247, 173, 82, 255));
        colours.cloth = CharacterPartColours::new(&Rgba::new(82, 82, 115, 255));
        colours.leather = CharacterPartColours::new(&Rgba::new(148, 100, 66, 255));
        colours.accessory = CharacterPartColours::new(&Rgba::new(0, 0, 0, 255));
        Self {
            name: String::new(),
            armour: None,
            face: None,
            hair: None,
            hair_back: None,
            accessory: None,
            token: None,
            character_colours: colours,
            outline_colours: Outlines::new(),
        }
    }
}

impl Clone for Character {
    fn clone(&self) -> (copy: Self)
        ensures
            copy == *self,
    {
        Character {
            name: self.name.clone(),
            armour: clone_part(&self.armour),
            face: clone_part(&self.face),
            hair: clone_part(&self.hair),
            hair_back: clone_part(&self.hair_back),
            accessory: clone_part(&self.accessory),
            token: clone_part(&self.token),
            character_colours: self.character_colours,
            outline_colours: self.outline_colours,
        }
    }
}

} // verus!
