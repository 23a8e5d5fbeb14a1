//! The open-source fonts built into the application, with their licences.
//! The font files themselves are bundled by the program.

use vstd::prelude::*;
use crate::text::{str_eq, string_views, to_owned_string};
use crate::font_loader::{insert_sorted_unique, strictly_sorted};

verus! {

/// Font categories for organization.
#[derive(Debug, Clone, Copy, PartialEq, Eq, Structural)]
pub enum FontCategory {
    SansSerif,
    Serif,
    Monospace,
    Display,
    Handwriting,
}

/// Font license types.
#[derive(Debug, Clone, Copy, PartialEq, Eq, Structural)]
pub enum FontLicense {
    SILOpen,
    Apache,
    MIT,
    GPL,
    PublicDomain,
    MicrosoftOwned,
    ThirdParty,
}

/// Font weights.
#[derive(Debug, Clone, Copy, PartialEq, Eq, Structural)]
pub enum FontWeight {
    Thin,
    ExtraLight,
    Light,
    Regular,
    Medium,
    SemiBold,
    Bold,
    ExtraBold,
    Black,
}

impl FontWeight {
    /// The CSS weight: a hundred for thin up to nine hundred for black.
    pub open spec fn spec_value(self) -> u16 {
        match self {
            FontWeight::Thin => 100,
            FontWeight::ExtraLight => 200,
            FontWeight::Light => 300,
            FontWeight::Regular => 400,
            FontWeight::Medium => 500,
            FontWeight::SemiBold => 600,
            FontWeight::Bold => 700,
            FontWeight::ExtraBold => 800,
            FontWeight::Black => 900,
        }
    }

    /// The CSS weight of the font weight.
    pub fn get_value(&self) -> (r: u16)
        ensures
            r == self.spec_value(),
    {
        match self {
            FontWeight::Thin => 100,
            FontWeight::ExtraLight => 200,
            FontWeight::Light => 300,
            FontWeight::Regular => 400,
            FontWeight::Medium => 500,
            FontWeight::SemiBold => 600,
            FontWeight::Bold => 700,
            FontWeight::ExtraBold => 800,
            FontWeight::Black => 900,
        }
    }

    /// The weight with a CSS value; regular for any other value.
    pub fn from_value(value: u16) -> (w: FontWeight)
        ensures
            (value % 100 == 0 && 100 <= value <= 900) ==> w.spec_value() == value,
            !(value % 100 == 0 && 100 <= value <= 900) ==> w == FontWeight::Regular,
    {
        match value {
            100 => FontWeight::Thin,
            200 => FontWeight::ExtraLight,
            300 => FontWeight::Light,
            400 => FontWeight::Regular,
            500 => FontWeight::Medium,
            600 => FontWeight::SemiBold,
            700 => FontWeight::Bold,
            800 => FontWeight::ExtraBold,
            900 => FontWeight::Black,
            _ => FontWeight::Regular,
        }
    }
}

/// Font styles.
#[derive(Debug, Clone, Copy, PartialEq, Eq, Structural)]
pub enum FontStyle {
    Normal,
    Italic,
    Oblique,
}

/// A font built into the application (its file is bundled by the program).
#[derive(Debug, Clone, Copy)]
pub struct EmbeddedFont {
    pub name: &'static str,
    pub family: &'static str,
    pub category: FontCategory,
    pub license: FontLicense,
    pub weight: FontWeight,
    pub style: FontStyle,
}

/// The built-in fonts: name, family, category, licence, weight and style.
pub open spec fn embedded_catalog() -> Seq<(Seq<char>, Seq<char>, FontCategory, FontLicense, FontWeight, FontStyle)> {
    seq![("Crimson Text"@, "Crimson Text"@, FontCategory::Serif, FontLicense::SILOpen, FontWeight::Regular, FontStyle::Normal)]
}

/// The description of a built-in font.
pub open spec fn font_entry(f: EmbeddedFont) -> (Seq<char>, Seq<char>, FontCategory, FontLicense, FontWeight, FontStyle) {
    (f.name@, f.family@, f.category, f.license, f.weight, f.style)
}

/// The descriptions of a list of built-in fonts.
pub open spec fn font_entries(v: Seq<EmbeddedFont>) -> Seq<(Seq<char>, Seq<char>, FontCategory, FontLicense, FontWeight, FontStyle)> {
    v.map_values(|f: EmbeddedFont| font_entry(f))
}

/// The built-in fonts.
pub fn embedded_fonts() -> (v: Vec<EmbeddedFont>)
    ensures
        font_entries(v@) == embedded_catalog(),
{
    let mut v: Vec<EmbeddedFont> = Vec::new();
    v.push(EmbeddedFont {
        name: "Crimson Text",
        family: "Crimson Text",
        category: FontCategory::Serif,
        license: FontLicense::SILOpen,
        weight: FontWeight::Regular,
        style: FontStyle::Normal,
    });
    assert(font_entries(v@) =~= embedded_catalog());
    v
}

/// The built-in fonts of a category, in catalog order.
pub fn get_fonts_by_category(category: FontCategory) -> (r: Vec<EmbeddedFont>)
    ensures
        font_entries(r@) == embedded_catalog().filter(|e: (Seq<char>, Seq<char>, FontCategory, FontLicense, FontWeight, FontStyle)| e.2 == category),
{
    let all = embedded_fonts();
    let ghost cat = font_entries(all@);
    let mut r: Vec<EmbeddedFont> = Vec::new();
    let mut i: usize = 0;
    while i < all.len()
        invariant
            i <= all@.len(),
            cat == font_entries(all@),
            font_entries(r@) == cat.take(i as int).filter(|e: (Seq<char>, Seq<char>, FontCategory, FontLicense, FontWeight, FontStyle)| e.2 == category),
        decreases all@.len() - i,
    {
        let ghost before = font_entries(r@);
        proof {
            reveal(Seq::filter);
            assert(cat.take(i + 1).drop_last() =~= cat.take(i as int));
        }
        if all[i].category == category {
            r.push(all[i]);
            assert(font_entries(r@) =~= before.push(cat[i as int]));
        }
        i += 1;
    }
    assert(cat.take(all@.len() as int) =~= cat);
    r
}

/// The family used by default for a category, where there is one.
pub fn get_default_font_for_category(category: FontCategory) -> (r: Option<&'static str>)
    ensures
        match category {
            FontCategory::SansSerif => r matches Some(s) && s@ == "Inter"@,
            FontCategory::Serif => r matches Some(s) && s@ == "Crimson Text"@,
            FontCategory::Monospace => r matches Some(s) && s@ == "Cascadia Code"@,
            FontCategory::Display => r matches Some(s) && s@ == "Source Sans Pro"@,
            FontCategory::Handwriting => r is None,
        },
{
    match category {
        FontCategory::SansSerif => Some("Inter"),
        FontCategory::Serif => Some("Crimson Text"),
        FontCategory::Monospace => Some("Cascadia Code"),
        FontCategory::Display => Some("Source Sans Pro"),
        FontCategory::Handwriting => None,
    }
}

/// The licence of the first built-in font of a family.
pub fn get_font_license_info(family: &str) -> (r: Option<FontLicense>)
    ensures
        match r {
            Some(l) => exists|i: int| 0 <= i < embedded_catalog().len()
                && embedded_catalog()[i].1 == family@ && embedded_catalog()[i].3 == l
                && forall|j: int| 0 <= j < i ==> #[trigger] embedded_catalog()[j].1 != family@,
            None => forall|i: int| 0 <= i < embedded_catalog().len() ==> #[trigger] embedded_catalog()[i].1 != family@,
        },
{
    let all = embedded_fonts();
    let ghost cat = font_entries(all@);
    let mut i: usize = 0;
    while i < all.len()
        invariant
            i <= all@.len(),
            cat == font_entries(all@),
            cat == embedded_catalog(),
            forall|j: int| 0 <= j < i ==> #[trigger] cat[j].1 != family@,
        decreases all@.len() - i,
    {
        assert(cat[i as int] == font_entry(all@[i as int]));
        if str_eq(all[i].family, family) {
            return Some(all[i].license);
        }
        i += 1;
    }
    None
}

/// Whether a family is built in.
pub fn is_font_embedded(family: &str) -> (r: bool)
    ensures
        r == exists|i: int| 0 <= i < embedded_catalog().len() && #[trigger] embedded_catalog()[i].1 == family@,
{
    match get_font_license_info(family) {
        Some(_) => true,
        None => false,
    }
}

/// The built-in families, each once, in increasing order.
pub fn get_embedded_families() -> (r: Vec<String>)
    ensures
        strictly_sorted(string_views(r@)),
        forall|n: Seq<char>| #[trigger] string_views(r@).contains(n) <==> exists|i: int|
            0 <= i < embedded_catalog().len() && embedded_catalog()[i].1 == n,
{
    let all = embedded_fonts();
    let ghost cat = font_entries(all@);
    let mut r: Vec<String> = Vec::new();
    let mut i: usize = 0;
    while i < all.len()
        invariant
            i <= all@.len(),
            cat == font_entries(all@),
            cat == embedded_catalog(),
            strictly_sorted(string_views(r@)),
            forall|n: Seq<char>| #[trigger] string_views(r@).contains(n) <==> exists|k: int|
                0 <= k < i && cat[k].1 == n,
        decreases all@.len() - i,
    {
        assert(cat[i as int] == font_entry(all@[i as int]));
        insert_sorted_unique(&mut r, to_owned_string(all[i].family));
        assert forall|n: Seq<char>| #[trigger] string_views(r@).contains(n) <==> exists|k: int|
            0 <= k < i + 1 && cat[k].1 == n by {
            if exists|k: int| 0 <= k < i + 1 && cat[k].1 == n {
                let k = choose|k: int| 0 <= k < i + 1 && cat[k].1 == n;
                if k < i {
                    assert(exists|k2: int| 0 <= k2 < i && cat[k2].1 == n);
                }
            }
        }
        i += 1;
    }
    r
}

} // verus!

verus! {

/// Each weight has its own CSS value, so reading a weight back from its
/// value (`from_value` of `get_value`) gives the same weight.
pub proof fn law_weight_value_round_trip(a: FontWeight, b: FontWeight)
    requires
        a.spec_value() == b.spec_value(),
    ensures
        a == b,
{
}

} // verus!
