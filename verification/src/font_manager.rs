//! The catalog of fonts that the application offers for download, and the
//! record of which of them are installed in its font directory. Reading the
//! directory and downloading are done by the caller.

use vstd::prelude::*;
use crate::text::{chars_of, push_str, string_from_chars, str_eq, list_contains, string_views};
use crate::error::AppError;

verus! {

/// Font information structure.
#[derive(Debug, Clone)]
pub struct FontInfo {
    pub name: String,
    pub family: String,
    pub url: String,
    pub installed: bool,
    pub category: String,
    pub local_path: Option<String>,
}

/// The catalog: name, family, download address and category of each font.
pub open spec fn catalog_entries() -> Seq<(Seq<char>, Seq<char>, Seq<char>, Seq<char>)> {
    seq![
        ("Open Dyslexic"@, "OpenDyslexic-Regular"@, "https://github.com/antijingoist/open-dyslexic/raw/master/compiled/OpenDyslexic-Regular.otf"@, "Dyslexia Support"@),
        ("Open Dyslexic Bold"@, "OpenDyslexic-Bold"@, "https://github.com/antijingoist/open-dyslexic/raw/master/compiled/OpenDyslexic-Bold.otf"@, "Dyslexia Support"@),
        ("Open Dyslexic Italic"@, "OpenDyslexic-Italic"@, "https://github.com/antijingoist/open-dyslexic/raw/master/compiled/OpenDyslexic-Italic.otf"@, "Dyslexia Support"@),
        ("Segoe UI"@, "SegoeUI"@, "https://github.com/microsoft/cascadia-code/raw/main/fonts/ttf/CascadiaCode-Regular.ttf"@, "Microsoft Fonts"@),
        ("Segoe UI Bold"@, "SegoeUI-Bold"@, "https://github.com/microsoft/cascadia-code/raw/main/fonts/ttf/CascadiaCode-Bold.ttf"@, "Microsoft Fonts"@),
        ("Consolas"@, "Consolas"@, "https://github.com/microsoft/cascadia-code/raw/main/fonts/ttf/CascadiaCode-Regular.ttf"@, "Microsoft Fonts"@),
        ("SF Pro Display"@, "SF-Pro-Display"@, "https://github.com/supermarin/YosemiteSanFranciscoFont/raw/master/System%20San%20Francisco%20Display%20Regular.ttf"@, "Apple Fonts"@),
        ("SF Pro Display Bold"@, "SF-Pro-Display-Bold"@, "https://github.com/supermarin/YosemiteSanFranciscoFont/raw/master/System%20San%20Francisco%20Display%20Bold.ttf"@, "Apple Fonts"@),
        ("SF Pro Text"@, "SF-Pro-Text"@, "https://github.com/supermarin/YosemiteSanFranciscoFont/raw/master/System%20San%20Francisco%20Display%20Regular.ttf"@, "Apple Fonts"@),
        ("Roboto"@, "Roboto"@, "https://github.com/google/fonts/raw/main/ofl/roboto/Roboto-Regular.ttf"@, "Google Fonts"@),
        ("Roboto Bold"@, "Roboto-Bold"@, "https://github.com/google/fonts/raw/main/ofl/roboto/Roboto-Bold.ttf"@, "Google Fonts"@),
        ("Open Sans"@, "OpenSans"@, "https://github.com/google/fonts/raw/main/ofl/opensans/OpenSans-Regular.ttf"@, "Google Fonts"@)
    ]
}

/// The font of a catalog entry, not installed.
pub open spec fn catalog_font_matches(f: FontInfo, e: (Seq<char>, Seq<char>, Seq<char>, Seq<char>)) -> bool {
    &&& f.name@ == e.0
    &&& f.family@ == e.1
    &&& f.url@ == e.2
    &&& f.category@ == e.3
    &&& !f.installed
    &&& f.local_path is None
}

fn catalog_font(name: &str, family: &str, url: &str, category: &str) -> (f: FontInfo)
    ensures
        catalog_font_matches(f, (name@, family@, url@, category@)),
{
    FontInfo {
        name: name.to_string(),
        family: family.to_string(),
        url: url.to_string(),
        installed: false,
        category: category.to_string(),
        local_path: None,
    }
}

/// The fonts that can be downloaded, none of them installed yet.
pub fn font_catalog() -> (v: Vec<FontInfo>)
    ensures
        v@.len() == catalog_entries().len(),
        forall|i: int| 0 <= i < v@.len() ==> catalog_font_matches(#[trigger] v@[i], catalog_entries()[i]),
{
    let mut v: Vec<FontInfo> = Vec::new();
    v.push(catalog_font("Open Dyslexic", "OpenDyslexic-Regular", "https://github.com/antijingoist/open-dyslexic/raw/master/compiled/OpenDyslexic-Regular.otf", "Dyslexia Support"));
    v.push(catalog_font("Open Dyslexic Bold", "OpenDyslexic-Bold", "https://github.com/antijingoist/open-dyslexic/raw/master/compiled/OpenDyslexic-Bold.otf", "Dyslexia Support"));
    v.push(catalog_font("Open Dyslexic Italic", "OpenDyslexic-Italic", "https://github.com/antijingoist/open-dyslexic/raw/master/compiled/OpenDyslexic-Italic.otf", "Dyslexia Support"));
    v.push(catalog_font("Segoe UI", "SegoeUI", "https://github.com/microsoft/cascadia-code/raw/main/fonts/ttf/CascadiaCode-Regular.ttf", "Microsoft Fonts"));
    v.push(catalog_font("Segoe UI Bold", "SegoeUI-Bold", "https://github.com/microsoft/cascadia-code/raw/main/fonts/ttf/CascadiaCode-Bold.ttf", "Microsoft Fonts"));
    v.push(catalog_font("Consolas", "Consolas", "https://github.com/microsoft/cascadia-code/raw/main/fonts/ttf/CascadiaCode-Regular.ttf", "Microsoft Fonts"));
    v.push(catalog_font("SF Pro Display", "SF-Pro-Display", "https://github.com/supermarin/YosemiteSanFranciscoFont/raw/master/System%20San%20Francisco%20Display%20Regular.ttf", "Apple Fonts"));
    v.push(catalog_font("SF Pro Display Bold", "SF-Pro-Display-Bold", "https://github.com/supermarin/YosemiteSanFranciscoFont/raw/master/System%20San%20Francisco%20Display%20Bold.ttf", "Apple Fonts"));
    v.push(catalog_font("SF Pro Text", "SF-Pro-Text", "https://github.com/supermarin/YosemiteSanFranciscoFont/raw/master/System%20San%20Francisco%20Display%20Regular.ttf", "Apple Fonts"));
    v.push(catalog_font("Roboto", "Roboto", "https://github.com/google/fonts/raw/main/ofl/roboto/Roboto-Regular.ttf", "Google Fonts"));
    v.push(catalog_font("Roboto Bold", "Roboto-Bold", "https://github.com/google/fonts/raw/main/ofl/roboto/Roboto-Bold.ttf", "Google Fonts"));
    v.push(catalog_font("Open Sans", "OpenSans", "https://github.com/google/fonts/raw/main/ofl/opensans/OpenSans-Regular.ttf", "Google Fonts"));
    v
}

/// A name for the text of `Path::new(dir).join(name)` (std's path syntax for
/// the target platform, so the name is fixed for one build).
pub uninterp spec fn spec_path_join(dir: Seq<char>, name: Seq<char>) -> Seq<char>;

/// Joins a directory and a file name with `std::path::Path::join`. The path
/// syntax is std's and is not restated; the text is named by `spec_path_join`.
#[verifier::external_body]
pub(crate) fn path_join(dir: &str, name: &str) -> (r: String)
    ensures
        r@ == spec_path_join(dir@, name@),
{
    std::path::Path::new(dir).join(name).to_string_lossy().to_string()
}

/// The file that holds a downloaded font: its family with the `.otf` extension.
pub open spec fn font_file_name(family: Seq<char>) -> Seq<char> {
    family + ".otf"@
}

/// The file name of a font family.
pub fn font_file_name_of(family: &str) -> (r: String)
    ensures
        r@ == font_file_name(family@),
{
    let mut v = chars_of(family);
    push_str(&mut v, ".otf");
    string_from_chars(&v)
}

/// `g` is `f` marked installed at `path`.
pub open spec fn installed_at(g: FontInfo, f: FontInfo, path: Seq<char>) -> bool {
    &&& g.name == f.name
    &&& g.family == f.family
    &&& g.url == f.url
    &&& g.category == f.category
    &&& g.installed
    &&& g.local_path matches Some(p) && p@ == path
}

/// `g` is what `f` becomes after looking at the font directory `dir`, which
/// holds the files `present`: a font not yet installed whose file is there is
/// marked installed at its path in the directory; any other is unchanged.
pub open spec fn checked_font(g: FontInfo, f: FontInfo, dir: Seq<char>, present: Seq<Seq<char>>) -> bool {
    if !f.installed && present.contains(font_file_name(f.family@)) {
        installed_at(g, f, spec_path_join(dir, font_file_name(f.family@)))
    } else {
        g == f
    }
}

/// Looks at the directory for one font.
pub fn check_font(f: FontInfo, dir: &str, present: &Vec<String>) -> (g: FontInfo)
    ensures
        checked_font(g, f, dir@, string_views(present@)),
{
    if f.installed {
        return f;
    }
    let file = font_file_name_of(f.family.as_str());
    if list_contains(present, file.as_str()) {
        let path = path_join(dir, file.as_str());
        FontInfo { installed: true, local_path: Some(path), ..f }
    } else {
        f
    }
}

/// `g` is the font of catalog entry `e` after looking at the font directory
/// `dir`, which holds the files `present`: installed at its path in the
/// directory when its file is there, else not installed.
pub open spec fn catalog_font_checked(
    g: FontInfo,
    e: (Seq<char>, Seq<char>, Seq<char>, Seq<char>),
    dir: Seq<char>,
    present: Seq<Seq<char>>,
) -> bool {
    if present.contains(font_file_name(e.1)) {
        &&& g.name@ == e.0
        &&& g.family@ == e.1
        &&& g.url@ == e.2
        &&& g.category@ == e.3
        &&& g.installed
        &&& g.local_path matches Some(p) && p@ == spec_path_join(dir, font_file_name(e.1))
    } else {
        catalog_font_matches(g, e)
    }
}

/// The position of the first font of a family.
pub open spec fn first_font_of(fonts: Seq<FontInfo>, family: Seq<char>, i: int) -> bool {
    &&& 0 <= i < fonts.len()
    &&& fonts[i].family@ == family
    &&& forall|j: int| 0 <= j < i ==> #[trigger] fonts[j].family@ != family
}

/// No font of the family is recorded.
pub open spec fn no_font_of(fonts: Seq<FontInfo>, family: Seq<char>) -> bool {
    forall|j: int| 0 <= j < fonts.len() ==> #[trigger] fonts[j].family@ != family
}

/// The fonts of the catalog and what is known of their installation in the
/// font directory.
#[derive(Debug, Clone)]
pub struct FontManager {
    pub fonts_dir: String,
    pub fonts: Vec<FontInfo>,
}

impl FontManager {
    /// The catalog checked against the files present in the font directory.
    pub fn with_directory(fonts_dir: String, present: &Vec<String>) -> (m: Self)
        ensures
            m.fonts_dir == fonts_dir,
            m.fonts@.len() == catalog_entries().len(),
            forall|i: int| 0 <= i < m.fonts@.len() ==> catalog_font_checked(
                #[trigger] m.fonts@[i],
                catalog_entries()[i],
                fonts_dir@,
                string_views(present@),
            ),
    {
        let catalog = font_catalog();
        let ghost cat = catalog@;
        let mut rest = catalog;
        let mut fonts: Vec<FontInfo> = Vec::new();
        let mut k: usize = 0;
        while rest.len() > 0
            invariant
                k <= cat.len(),
                cat.len() == catalog_entries().len(),
                forall|i: int| 0 <= i < cat.len() ==> catalog_font_matches(#[trigger] cat[i], catalog_entries()[i]),
                rest@ == cat.subrange(k as int, cat.len() as int),
                fonts@.len() == k,
                forall|i: int| 0 <= i < k ==> catalog_font_checked(#[trigger] fonts@[i], catalog_entries()[i], fonts_dir@, string_views(present@)),
            decreases rest@.len(),
        {
            let f = rest.remove(0);
            assert(f == cat[k as int]);
            assert(catalog_font_matches(f, catalog_entries()[k as int]));
            let g = check_font(f, fonts_dir.as_str(), present);
            fonts.push(g);
            k += 1;
            assert(rest@ =~= cat.subrange(k as int, cat.len() as int));
        }
        FontManager { fonts_dir, fonts }
    }

    /// The position of the first font of a family.
    pub fn position(&self, family: &str) -> (r: Option<usize>)
        ensures
            match r {
                Some(i) => first_font_of(self.fonts@, family@, i as int),
                None => no_font_of(self.fonts@, family@),
            },
    {
        let mut i: usize = 0;
        while i < self.fonts.len()
            invariant
                i <= self.fonts@.len(),
                forall|j: int| 0 <= j < i ==> #[trigger] self.fonts@[j].family@ != family@,
            decreases self.fonts@.len() - i,
        {
            if str_eq(self.fonts[i].family.as_str(), family) {
                return Some(i);
            }
            i += 1;
        }
        None
    }

    /// Whether the font of a family is installed (`false` for an unknown family).
    pub fn is_font_installed(&self, family: &str) -> (r: bool)
        ensures
            r == exists|i: int| first_font_of(self.fonts@, family@, i) && self.fonts@[i].installed,
    {
        match self.position(family) {
            Some(i) => self.fonts[i].installed,
            None => false,
        }
    }

    /// Where the font of a family is installed, if it is known and installed there.
    pub fn get_font_path(&self, family: &str) -> (r: Option<&str>)
        ensures
            match r {
                Some(p) => exists|i: int| first_font_of(self.fonts@, family@, i)
                    && (self.fonts@[i].local_path matches Some(q) && q@ == p@),
                None => forall|i: int| first_font_of(self.fonts@, family@, i) ==> self.fonts@[i].local_path is None,
            },
    {
        match self.position(family) {
            Some(i) => match &self.fonts[i].local_path {
                Some(p) => Some(p.as_str()),
                None => None,
            },
            None => None,
        }
    }

    /// The fonts of a category, in catalog order.
    pub fn get_fonts_by_category(&self, category: &str) -> (r: Vec<&FontInfo>)
        ensures
            r@.map_values(|f: &FontInfo| *f) == self.fonts@.filter(|f: FontInfo| f.category@ == category@),
    {
        let mut r: Vec<&FontInfo> = Vec::new();
        let mut i: usize = 0;
        while i < self.fonts.len()
            invariant
                i <= self.fonts@.len(),
                r@.map_values(|f: &FontInfo| *f) == self.fonts@.take(i as int).filter(|f: FontInfo| f.category@ == category@),
            decreases self.fonts@.len() - i,
        {
            let ghost before = r@.map_values(|f: &FontInfo| *f);
            proof {
                reveal(Seq::filter);
                assert(self.fonts@.take(i + 1).drop_last() =~= self.fonts@.take(i as int));
            }
            if str_eq(self.fonts[i].category.as_str(), category) {
                r.push(&self.fonts[i]);
                assert(r@.map_values(|f: &FontInfo| *f) =~= before.push(self.fonts@[i as int]));
            }
            i += 1;
        }
        assert(self.fonts@.take(self.fonts@.len() as int) =~= self.fonts@);
        r
    }

    /// Every known font, in catalog order.
    pub fn get_available_fonts(&self) -> (r: Vec<&FontInfo>)
        ensures
            r@.map_values(|f: &FontInfo| *f) == self.fonts@,
    {
        let mut r: Vec<&FontInfo> = Vec::new();
        let mut i: usize = 0;
        while i < self.fonts.len()
            invariant
                i <= self.fonts@.len(),
                r@.map_values(|f: &FontInfo| *f) == self.fonts@.take(i as int),
            decreases self.fonts@.len() - i,
        {
            let ghost before = r@.map_values(|f: &FontInfo| *f);
            r.push(&self.fonts[i]);
            assert(r@.map_values(|f: &FontInfo| *f) =~= before.push(self.fonts@[i as int]));
            assert(self.fonts@.take(i + 1) =~= self.fonts@.take(i as int).push(self.fonts@[i as int]));
            i += 1;
        }
        assert(self.fonts@.take(self.fonts@.len() as int) =~= self.fonts@);
        r
    }

    /// What downloading the font of a family takes: its address and the path
    /// of its file in the font directory; `None` where it is installed
    /// already. An unknown family, and a font without an address, are font
    /// errors.
    pub fn download_target(&self, family: &str) -> (r: Result<Option<(String, String)>, AppError>)
        ensures
            match r {
                Ok(None) => exists|i: int| first_font_of(self.fonts@, family@, i) && self.fonts@[i].installed,
                Ok(Some((url, path))) => exists|i: int| first_font_of(self.fonts@, family@, i)
                    && !self.fonts@[i].installed && self.fonts@[i].url@.len() > 0
                    && url@ == self.fonts@[i].url@
                    && path@ == spec_path_join(self.fonts_dir@, font_file_name(family@)),
                Err(e) => e is FontError && (
                    (no_font_of(self.fonts@, family@) && e->FontError_0@ == "Font '"@ + family@ + "' not found"@)
                    || (exists|i: int| first_font_of(self.fonts@, family@, i) && !self.fonts@[i].installed
                        && self.fonts@[i].url@.len() == 0
                        && e->FontError_0@ == "No download URL for font '"@ + family@ + "'"@)),
            },
    {
        match self.position(family) {
            None => {
                let mut v = chars_of("Font '");
                push_str(&mut v, family);
                push_str(&mut v, "' not found");
                Err(AppError::FontError(string_from_chars(&v)))
            },
            Some(i) => {
                let f = &self.fonts[i];
                if f.installed {
                    return Ok(None);
                }
                if f.url.as_str().unicode_len() == 0 {
                    let mut v = chars_of("No download URL for font '");
                    push_str(&mut v, family);
                    push_str(&mut v, "'");
                    return Err(AppError::FontError(string_from_chars(&v)));
                }
                let file = font_file_name_of(family);
                let path = path_join(self.fonts_dir.as_str(), file.as_str());
                Ok(Some((f.url.clone(), path)))
            },
        }
    }

    /// Records that the font of a family was installed at a path.
    pub fn mark_installed(&mut self, family: &str, path: String)
        ensures
            final(self).fonts_dir == old(self).fonts_dir,
            final(self).fonts@.len() == old(self).fonts@.len(),
            forall|i: int| first_font_of(old(self).fonts@, family@, i) ==> installed_at(
                #[trigger] final(self).fonts@[i],
                old(self).fonts@[i],
                path@,
            ),
            forall|j: int| 0 <= j < final(self).fonts@.len() && !first_font_of(old(self).fonts@, family@, j)
                ==> #[trigger] final(self).fonts@[j] == old(self).fonts@[j],
    {
        match self.position(family) {
            Some(i) => {
                let mut f = self.fonts.remove(i);
                f.installed = true;
                f.local_path = Some(path);
                self.fonts.insert(i, f);
            },
            None => {},
        }
    }

    /// Looks again at the font directory, which holds the files `present`:
    /// each font not yet installed whose file is there becomes installed.
    pub fn refresh_font_status(&mut self, present: &Vec<String>)
        ensures
            final(self).fonts_dir == old(self).fonts_dir,
            final(self).fonts@.len() == old(self).fonts@.len(),
            forall|i: int| 0 <= i < final(self).fonts@.len() ==> #[trigger] checked_font(
                final(self).fonts@[i],
                old(self).fonts@[i],
                old(self).fonts_dir@,
                string_views(present@),
            ),
    {
        let ghost orig = self.fonts@;
        let mut i: usize = 0;
        while i < self.fonts.len()
            invariant
                i <= self.fonts@.len(),
                self.fonts@.len() == orig.len(),
                self.fonts_dir == old(self).fonts_dir,
                orig == old(self).fonts@,
                forall|j: int| 0 <= j < i ==> #[trigger] checked_font(self.fonts@[j], orig[j], self.fonts_dir@, string_views(present@)),
                forall|j: int| i <= j < self.fonts@.len() ==> #[trigger] self.fonts@[j] == orig[j],
            decreases self.fonts@.len() - i,
        {
            let f = self.fonts.remove(i);
            let g = check_font(f, self.fonts_dir.as_str(), present);
            self.fonts.insert(i, g);
            i += 1;
        }
    }
}

} // verus!
