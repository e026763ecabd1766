//! The sixteen-colour PICO-8 palette, looked up by colour name.

use vstd::prelude::*;
use crate::table::NameTable;

verus! {

/// A colour as red, green, blue and alpha bytes.
#[derive(Clone, Copy, PartialEq, Eq, Structural, Debug)]
pub struct Rgba {
    pub r: u8,
    pub g: u8,
    pub b: u8,
    pub a: u8,
}

pub open spec fn rgba(r: u8, g: u8, b: u8, a: u8) -> Rgba {
    Rgba { r, g, b, a }
}

/// Opaque white, the colour given for a name the palette does not hold.
pub open spec fn fallback_white() -> Rgba {
    rgba(255, 255, 255, 255)
}

/// Opaque white.
pub fn white() -> (c: Rgba)
    ensures
        c == fallback_white(),
{
    Rgba { r: 255, g: 255, b: 255, a: 255 }
}

/// The PICO-8 palette by name.
pub open spec fn pico_palette() -> Map<Seq<char>, Rgba> {
    Map::empty()
        .insert("black"@, rgba(0, 0, 0, 255))
        .insert("dark_blue"@, rgba(29, 43, 83, 255))
        .insert("dark_purple"@, rgba(126, 37, 83, 255))
        .insert("dark_green"@, rgba(0, 135, 81, 255))
        .insert("brown"@, rgba(171, 82, 54, 255))
        .insert("dark_gray"@, rgba(95, 87, 79, 255))
        .insert("light_gray"@, rgba(194, 195, 199, 255))
        .insert("white"@, rgba(255, 241, 232, 255))
        .insert("red"@, rgba(255, 0, 77, 255))
        .insert("orange"@, rgba(255, 163, 0, 255))
        .insert("yellow"@, rgba(255, 236, 39, 255))
        .insert("green"@, rgba(0, 228, 54, 255))
        .insert("blue"@, rgba(41, 173, 255, 255))
        .insert("indigo"@, rgba(131, 118, 156, 255))
        .insert("pink"@, rgba(255, 119, 168, 255))
        .insert("peach"@, rgba(255, 204, 170, 255))
}

/// Builds the palette table.
pub fn init_pico_palette() -> (m: NameTable<Rgba>)
    ensures
        m@ == pico_palette(),
{
    let mut m = NameTable::new();
    m.insert("black", Rgba { r: 0, g: 0, b: 0, a: 255 });
    m.insert("dark_blue", Rgba { r: 29, g: 43, b: 83, a: 255 });
    m.insert("dark_purple", Rgba { r: 126, g: 37, b: 83, a: 255 });
    m.insert("dark_green", Rgba { r: 0, g: 135, b: 81, a: 255 });
    m.insert("brown", Rgba { r: 171, g: 82, b: 54, a: 255 });
    m.insert("dark_gray", Rgba { r: 95, g: 87, b: 79, a: 255 });
    m.insert("light_gray", Rgba { r: 194, g: 195, b: 199, a: 255 });
    m.insert("white", Rgba { r: 255, g: 241, b: 232, a: 255 });
    m.insert("red", Rgba { r: 255, g: 0, b: 77, a: 255 });
    m.insert("orange", Rgba { r: 255, g: 163, b: 0, a: 255 });
    m.insert("yellow", Rgba { r: 255, g: 236, b: 39, a: 255 });
    m.insert("green", Rgba { r: 0, g: 228, b: 54, a: 255 });
    m.insert("blue", Rgba { r: 41, g: 173, b: 255, a: 255 });
    m.insert("indigo", Rgba { r: 131, g: 118, b: 156, a: 255 });
    m.insert("pink", Rgba { r: 255, g: 119, b: 168, a: 255 });
    m.insert("peach", Rgba { r: 255, g: 204, b: 170, a: 255 });
    m
}

/// The colour named `name` in `palette`; opaque white when there is no
/// palette yet or when the palette has no colour of that name.
pub fn get_color(palette: Option<&NameTable<Rgba>>, name: &str) -> (c: Rgba)
    ensures
        c == (match palette {
            Some(p) => if p@.contains_key(name@) {
                p@[name@]
            } else {
                fallback_white()
            },
            None => fallback_white(),
        }),
{
    match palette {
        Some(p) => match p.get(name) {
            Some(c) => *c,
            None => white(),
        },
        None => white(),
    }
}

/// The fallback colour is opaque white: every channel at full intensity.
pub proof fn lemma_fallback_is_white()
    ensures
        fallback_white().r == 255 && fallback_white().g == 255 && fallback_white().b == 255
            && fallback_white().a == 255,
{
}

/// The palette holds exactly the sixteen PICO-8 colour names, each with its
/// colour.
pub proof fn lemma_pico_palette_colors()
    ensures
        pico_palette().dom().len() == 16,
        pico_palette()["black"@] == rgba(0, 0, 0, 255),
        pico_palette()["dark_blue"@] == rgba(29, 43, 83, 255),
        pico_palette()["dark_purple"@] == rgba(126, 37, 83, 255),
        pico_palette()["dark_green"@] == rgba(0, 135, 81, 255),
        pico_palette()["brown"@] == rgba(171, 82, 54, 255),
        pico_palette()["dark_gray"@] == rgba(95, 87, 79, 255),
        pico_palette()["light_gray"@] == rgba(194, 195, 199, 255),
        pico_palette()["white"@] == rgba(255, 241, 232, 255),
        pico_palette()["red"@] == rgba(255, 0, 77, 255),
        pico_palette()["orange"@] == rgba(255, 163, 0, 255),
        pico_palette()["yellow"@] == rgba(255, 236, 39, 255),
        pico_palette()["green"@] == rgba(0, 228, 54, 255),
        pico_palette()["blue"@] == rgba(41, 173, 255, 255),
        pico_palette()["indigo"@] == rgba(131, 118, 156, 255),
        pico_palette()["pink"@] == rgba(255, 119, 168, 255),
        pico_palette()["peach"@] == rgba(255, 204, 170, 255),
{
    reveal_strlit("black");
    reveal_strlit("dark_blue");
    reveal_strlit("dark_purple");
    reveal_strlit("dark_green");
    reveal_strlit("brown");
    reveal_strlit("dark_gray");
    reveal_strlit("light_gray");
    reveal_strlit("white");
    reveal_strlit("red");
    reveal_strlit("orange");
    reveal_strlit("yellow");
    reveal_strlit("green");
    reveal_strlit("blue");
    reveal_strlit("indigo");
    reveal_strlit("pink");
    reveal_strlit("peach");
    assert("black"@ =~= seq!['b', 'l', 'a', 'c', 'k']);
    assert("dark_blue"@ =~= seq!['d', 'a', 'r', 'k', '_', 'b', 'l', 'u', 'e']);
    assert("dark_purple"@ =~= seq!['d', 'a', 'r', 'k', '_', 'p', 'u', 'r', 'p', 'l', 'e']);
    assert("dark_green"@ =~= seq!['d', 'a', 'r', 'k', '_', 'g', 'r', 'e', 'e', 'n']);
    assert("brown"@ =~= seq!['b', 'r', 'o', 'w', 'n']);
    assert("dark_gray"@ =~= seq!['d', 'a', 'r', 'k', '_', 'g', 'r', 'a', 'y']);
    assert("light_gray"@ =~= seq!['l', 'i', 'g', 'h', 't', '_', 'g', 'r', 'a', 'y']);
    assert("white"@ =~= seq!['w', 'h', 'i', 't', 'e']);
    assert("red"@ =~= seq!['r', 'e', 'd']);
    assert("orange"@ =~= seq!['o', 'r', 'a', 'n', 'g', 'e']);
    assert("yellow"@ =~= seq!['y', 'e', 'l', 'l', 'o', 'w']);
    assert("green"@ =~= seq!['g', 'r', 'e', 'e', 'n']);
    assert("blue"@ =~= seq!['b', 'l', 'u', 'e']);
    assert("indigo"@ =~= seq!['i', 'n', 'd', 'i', 'g', 'o']);
    assert("pink"@ =~= seq!['p', 'i', 'n', 'k']);
    assert("peach"@ =~= seq!['p', 'e', 'a', 'c', 'h']);
    let mut keys = Set::<Seq<char>>::empty();
    assert(!keys.contains("black"@));
    keys = keys.insert("black"@);
    assert(keys.len() == 1);
    assert(!keys.contains("dark_blue"@));
    keys = keys.insert("dark_blue"@);
    assert(keys.len() == 2);
    assert(!keys.contains("dark_purple"@));
    keys = keys.insert("dark_purple"@);
    assert(keys.len() == 3);
    assert(!keys.contains("dark_green"@));
    keys = keys.insert("dark_green"@);
    assert(keys.len() == 4);
    assert(!keys.contains("brown"@));
    keys = keys.insert("brown"@);
    assert(keys.len() == 5);
    assert(!keys.contains("dark_gray"@));
    keys = keys.insert("dark_gray"@);
    assert(keys.len() == 6);
    assert(!keys.contains("light_gray"@));
    keys = keys.insert("light_gray"@);
    assert(keys.len() == 7);
    assert(!keys.contains("white"@));
    keys = keys.insert("white"@);
    assert(keys.len() == 8);
    assert(!keys.contains("red"@));
    keys = keys.insert("red"@);
    assert(keys.len() == 9);
    assert(!keys.contains("orange"@));
    keys = keys.insert("orange"@);
    assert(keys.len() == 10);
    assert(!keys.contains("yellow"@));
    keys = keys.insert("yellow"@);
    assert(keys.len() == 11);
    assert(!keys.contains("green"@));
    keys = keys.insert("green"@);
    assert(keys.len() == 12);
    assert(!keys.contains("blue"@));
    keys = keys.insert("blue"@);
    assert(keys.len() == 13);
    assert(!keys.contains("indigo"@));
    keys = keys.insert("indigo"@);
    assert(keys.len() == 14);
    assert(!keys.contains("pink"@));
    keys = keys.insert("pink"@);
    assert(keys.len() == 15);
    assert(!keys.contains("peach"@));
    keys = keys.insert("peach"@);
    assert(keys.len() == 16);
    assert(pico_palette().dom() =~= keys);
}

} // verus!
