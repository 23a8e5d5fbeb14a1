//! Localisation data: text direction, plural categories, placeholders,
//! locale formats for dates, times, numbers and currencies, regional
//! conventions, and the choices of the date-time formatter.

use vstd::prelude::*;
use crate::strmap::StrMap;
use crate::text::{push_str, string_from_chars};

verus! {

/// Direction in which a language is written.
#[derive(Debug, Clone, Copy, PartialEq, Eq, Hash, Structural)]
pub enum TextDirection {
    LeftToRight,
    RightToLeft,
    Vertical,
}

/// Plural categories of the CLDR.
#[derive(Debug, Clone, Copy, PartialEq, Eq, Hash, Structural)]
pub enum PluralCategory {
    Zero,
    One,
    Two,
    Few,
    Many,
    Other,
}

/// Operators of a plural rule.
#[derive(Debug, Clone, Copy, PartialEq, Eq, Hash, Structural)]
pub enum PluralOperator {
    Equals,
    NotEquals,
    InRange,
    NotInRange,
    Modulo,
}

/// Kinds of placeholders in a translated text.
#[derive(Debug, Clone, PartialEq, Eq, Hash)]
pub enum PlaceholderType {
    Simple,
    Number,
    Date,
    Time,
    DateTime,
    Currency,
    Percent,
    Plural,
    Select,
    Custom(String),
}

/// A placeholder of a translated text.
#[derive(Debug, Clone)]
pub struct Placeholder {
    pub name: String,
    pub placeholder_type: PlaceholderType,
    pub format_specifier: Option<String>,
    pub description: Option<String>,
    pub examples: Vec<String>,
}

/// Patterns for dates.
#[derive(Debug, Clone)]
pub struct DateFormat {
    pub short: String,
    pub medium: String,
    pub long: String,
    pub full: String,
    pub custom_formats: StrMap<String>,
}

/// Patterns for times.
#[derive(Debug, Clone)]
pub struct TimeFormat {
    pub short: String,
    pub medium: String,
    pub long: String,
    pub full: String,
    pub custom_formats: StrMap<String>,
}

/// How digits are grouped.
#[derive(Debug, Clone, Copy, PartialEq, Eq, Hash, Structural)]
pub enum GroupingStyle {
    /// 1,234,567.89
    Western,
    /// 12,34,567.89
    Indian,
    /// 123,4567.89
    Chinese,
    /// No grouping.
    Ungrouped,
}

/// How negative numbers are written.
#[derive(Debug, Clone, PartialEq, Eq, Hash)]
pub enum NegativeFormat {
    Minus,
    Parenthesis,
    Custom(String),
}

/// How numbers are written.
#[derive(Debug, Clone)]
pub struct NumberFormat {
    pub decimal_separator: char,
    pub thousands_separator: char,
    pub decimal_places: u8,
    pub grouping: GroupingStyle,
    pub negative_format: NegativeFormat,
}

/// Where a currency symbol goes.
#[derive(Debug, Clone, Copy, PartialEq, Eq, Hash, Structural)]
pub enum SymbolPosition {
    /// $123.45
    Before,
    /// 123.45$
    After,
    /// $ 123.45
    SpaceBefore,
    /// 123.45 $
    SpaceAfter,
}

/// A currency.
#[derive(Debug, Clone)]
pub struct CurrencyInfo {
    pub name: String,
    pub symbol: String,
    pub decimal_places: u8,
    pub symbol_position: SymbolPosition,
}

/// How amounts of money are written.
#[derive(Debug, Clone)]
pub struct CurrencyFormat {
    pub symbol: String,
    pub symbol_position: SymbolPosition,
    pub decimal_places: u8,
    pub space_before: bool,
    pub custom_codes: StrMap<CurrencyInfo>,
}

/// Calendars.
#[derive(Debug, Clone, Copy, PartialEq, Eq, Hash, Structural)]
pub enum CalendarType {
    Gregorian,
    Islamic,
    Hebrew,
    Persian,
    Japanese,
    Chinese,
    Thai,
}

/// The formats of a locale.
#[derive(Debug, Clone)]
pub struct LocaleFormat {
    pub date_format: DateFormat,
    pub time_format: TimeFormat,
    pub number_format: NumberFormat,
    pub currency_format: CurrencyFormat,
    pub calendar_type: CalendarType,
}

/// How people are greeted.
#[derive(Debug, Clone, PartialEq, Eq, Hash)]
pub enum GreetingStyle {
    Formal,
    Informal,
    Mixed,
    Cultural(String),
}

/// Order of day, month and year.
#[derive(Debug, Clone, PartialEq, Eq, Hash)]
pub enum DatePreference {
    DMY,
    MDY,
    YMD,
    Cultural(String),
}

/// Order of given and family names.
#[derive(Debug, Clone, Copy, PartialEq, Eq, Hash, Structural)]
pub enum NameFormat {
    GivenFirst,
    FamilyFirst,
    FamilyFirstComma,
}

/// Parts of a postal address.
#[derive(Debug, Clone, PartialEq, Eq, Hash)]
pub enum AddressComponent {
    Name,
    Organization,
    Street,
    City,
    State,
    PostalCode,
    Country,
    Custom(String),
}

/// How addresses are written.
#[derive(Debug, Clone)]
pub struct AddressFormat {
    pub order: Vec<AddressComponent>,
    pub format_string: String,
}

/// How phone numbers are written.
#[derive(Debug, Clone)]
pub struct PhoneFormat {
    pub country_code: String,
    pub format_template: String,
    pub country_codes: StrMap<String>,
}

/// Cultural conventions of a region.
#[derive(Debug, Clone)]
pub struct CulturalAdaptations {
    pub greeting_style: GreetingStyle,
    pub date_preference: DatePreference,
    pub name_format: NameFormat,
    pub address_format: AddressFormat,
    pub phone_number_format: PhoneFormat,
}

/// Systems of measurement.
#[derive(Debug, Clone, Copy, PartialEq, Eq, Hash, Structural)]
pub enum MeasurementSystem {
    Metric,
    Imperial,
    US,
}

/// When a holiday falls.
#[derive(Debug, Clone)]
pub enum HolidayDate {
    Fixed { month: u8, day: u8 },
    Relative { base: String, offset: i32 },
    Computed { calculation: String },
}

/// Kinds of holidays.
#[derive(Debug, Clone, Copy, PartialEq, Eq, Hash, Structural)]
pub enum HolidayType {
    National,
    Religious,
    Cultural,
    Regional,
    Custom,
}

/// A holiday.
#[derive(Debug, Clone)]
pub struct Holiday {
    pub name: String,
    pub date: HolidayDate,
    pub type_: HolidayType,
    pub recurring: bool,
}

/// The holidays of a region.
#[derive(Debug, Clone)]
pub struct HolidayCalendar {
    pub holidays: Vec<Holiday>,
    pub work_holidays: Vec<Holiday>,
    pub custom_holidays: Vec<Holiday>,
}

/// Formats translations are exported to.
#[derive(Debug, Clone, Copy, PartialEq, Eq, Hash, Structural)]
pub enum ExportFormat {
    JSON,
    PO,
    XLIFF,
    Properties,
}

/// Formats translations are imported from.
#[derive(Debug, Clone, Copy, PartialEq, Eq, Hash, Structural)]
pub enum ImportFormat {
    JSON,
    PO,
    XLIFF,
    Properties,
}

/// The key under which a language's translations are kept: its code, and
/// its region after a hyphen where it has one.
pub open spec fn spec_language_key(code: Seq<char>, region: Option<Seq<char>>) -> Seq<char> {
    match region {
        Some(r) => code + "-"@ + r,
        None => code,
    }
}

/// The key of a language's translations.
pub fn language_key(code: &str, region: &Option<String>) -> (r: String)
    ensures
        r@ == spec_language_key(code@, match region { Some(s) => Some(s@), None => None }),
{
    let mut v: Vec<char> = Vec::new();
    push_str(&mut v, code);
    if let Some(reg) = region {
        push_str(&mut v, "-");
        push_str(&mut v, reg.as_str());
    }
    string_from_chars(&v)
}

/// Translated texts remembered by key, up to a number of entries.
#[derive(Debug, Clone)]
pub struct TranslationCache {
    pub cache: StrMap<String>,
    pub hit_count: u64,
    pub miss_count: u64,
    pub max_size: usize,
}

impl TranslationCache {
    /// Each key is remembered once and the cache holds no more than its
    /// size.
    pub open spec fn wf(&self) -> bool {
        self.cache.wf() && self.cache.entries@.len() <= self.max_size
    }

    /// An empty cache of the given size.
    pub fn new(max_size: usize) -> (c: Self)
        ensures
            c.wf(),
            c.cache.map() == Map::<Seq<char>, String>::empty(),
            c.hit_count == 0,
            c.miss_count == 0,
            c.max_size == max_size,
    {
        TranslationCache { cache: StrMap::new(), hit_count: 0, miss_count: 0, max_size }
    }

    /// The remembered text of a key.
    pub fn lookup(&self, key: &str) -> (r: Option<String>)
        requires
            self.wf(),
        ensures
            match r {
                Some(t) => self.cache.map().contains_key(key@) && t == self.cache.map()[key@],
                None => !self.cache.map().contains_key(key@),
            },
    {
        match self.cache.get(key) {
            Some(t) => Some(t.clone()),
            None => None,
        }
    }

    /// Remembers a text, unless the cache is full.
    pub fn store(&mut self, key: &str, text: String)
        requires
            old(self).wf(),
        ensures
            final(self).wf(),
            final(self).max_size == old(self).max_size,
            final(self).cache.map() == if old(self).cache.entries@.len() < old(self).max_size {
                old(self).cache.map().insert(key@, text)
            } else {
                old(self).cache.map()
            },
    {
        if self.cache.len() < self.max_size {
            self.cache.insert(key.to_string(), text);
            proof {
                assert(self.cache.entries@.len() <= old(self).cache.entries@.len() + 1);
            }
        }
    }
}

/// The text that a translation key reads in: the current language's
/// translation where it has one, else the fallback language's, else the key
/// itself.
pub open spec fn translation_text(
    bundles: Map<Seq<char>, StrMap<String>>,
    current: Seq<char>,
    fallback: Seq<char>,
    key: Seq<char>,
) -> Seq<char> {
    if bundles.contains_key(current) && bundles[current].map().contains_key(key) {
        bundles[current].map()[key]@
    } else if bundles.contains_key(fallback) && bundles[fallback].map().contains_key(key) {
        bundles[fallback].map()[key]@
    } else {
        key
    }
}

/// The translations of the application: the keys of the current and the
/// fallback language, the translated texts of each language by language key
/// and then by translation key, and the cache of texts already looked up.
#[derive(Debug)]
pub struct LanguageManager {
    pub current_language_key: String,
    pub fallback_language_key: String,
    pub translation_bundles: StrMap<StrMap<String>>,
    pub translation_cache: TranslationCache,
}

impl LanguageManager {
    /// Each language and each translation key is stored once, and the cache
    /// is within its size.
    pub open spec fn wf(&self) -> bool {
        &&& self.translation_bundles.wf()
        &&& forall|k: Seq<char>| #[trigger] self.translation_bundles.map().contains_key(k)
            ==> self.translation_bundles.map()[k].wf()
        &&& self.translation_cache.wf()
    }

    /// A manager whose current and fallback language are both English (US),
    /// with no translations and an empty cache of a thousand texts.
    pub fn new() -> (m: Self)
        ensures
            m.wf(),
            m.current_language_key@ == "en-US"@,
            m.fallback_language_key@ == "en-US"@,
            m.translation_bundles.map() == Map::<Seq<char>, StrMap<String>>::empty(),
            m.translation_cache.cache.map() == Map::<Seq<char>, String>::empty(),
            m.translation_cache.max_size == 1000,
            m.translation_cache.hit_count == 0,
            m.translation_cache.miss_count == 0,
    {
        let region = Some("US".to_string());
        let key = language_key("en", &region);
        proof {
            reveal_strlit("en");
            reveal_strlit("US");
            reveal_strlit("en-US");
            reveal_strlit("-");
        }
        let bundles: StrMap<StrMap<String>> = StrMap::new();
        assert(bundles.map() =~= Map::<Seq<char>, StrMap<String>>::empty());
        LanguageManager {
            current_language_key: key.clone(),
            fallback_language_key: key,
            translation_bundles: bundles,
            translation_cache: TranslationCache::new(1000),
        }
    }

    fn bundle_text(&self, language: &str, key: &str) -> (r: Option<String>)
        requires
            self.wf(),
        ensures
            match r {
                Some(t) => self.translation_bundles.map().contains_key(language@)
                    && self.translation_bundles.map()[language@].map().contains_key(key@)
                    && t@ == self.translation_bundles.map()[language@].map()[key@]@,
                None => !(self.translation_bundles.map().contains_key(language@)
                    && self.translation_bundles.map()[language@].map().contains_key(key@)),
            },
    {
        match self.translation_bundles.get(language) {
            Some(bundle) => match bundle.get(key) {
                Some(t) => Some(t.clone()),
                None => None,
            },
            None => None,
        }
    }

    /// The text of a translation key: a text remembered in the cache is
    /// given back as it is; otherwise the current language's translation, else
    /// the fallback language's, else the key itself, which the cache then
    /// remembers unless it is full.
    pub fn t(&mut self, key: &str) -> (r: String)
        requires
            old(self).wf(),
        ensures
            final(self).wf(),
            final(self).current_language_key == old(self).current_language_key,
            final(self).fallback_language_key == old(self).fallback_language_key,
            final(self).translation_bundles == old(self).translation_bundles,
            final(self).translation_cache.max_size == old(self).translation_cache.max_size,
            old(self).translation_cache.cache.map().contains_key(key@) ==> {
                &&& r == old(self).translation_cache.cache.map()[key@]
                &&& final(self).translation_cache.cache.map() == old(self).translation_cache.cache.map()
            },
            !old(self).translation_cache.cache.map().contains_key(key@) ==> {
                &&& r@ == translation_text(
                    old(self).translation_bundles.map(),
                    old(self).current_language_key@,
                    old(self).fallback_language_key@,
                    key@,
                )
                &&& final(self).translation_cache.cache.map() == if old(self).translation_cache.cache.entries@.len()
                    < old(self).translation_cache.max_size {
                    old(self).translation_cache.cache.map().insert(key@, r)
                } else {
                    old(self).translation_cache.cache.map()
                }
            },
    {
        match self.translation_cache.lookup(key) {
            Some(t) => {
                return t;
            },
            None => {},
        }
        let text = match self.bundle_text(self.current_language_key.as_str(), key) {
            Some(t) => t,
            None => match self.bundle_text(self.fallback_language_key.as_str(), key) {
                Some(t) => t,
                None => key.to_string(),
            },
        };
        self.translation_cache.store(key, text.clone());
        text
    }
}

/// The formats the formatter uses for any locale: US-style dates and times,
/// a dot for decimals and a comma for thousands, two places, a dollar sign
/// in front.
pub open spec fn is_default_locale_format(f: LocaleFormat) -> bool {
    &&& f.date_format.short@ == "MM/dd/yyyy"@
    &&& f.date_format.medium@ == "MMM dd, yyyy"@
    &&& f.date_format.long@ == "MMMM dd, yyyy"@
    &&& f.date_format.full@ == "EEEE, MMMM dd, yyyy"@
    &&& f.date_format.custom_formats.map() == Map::<Seq<char>, String>::empty()
    &&& f.time_format.short@ == "HH:mm"@
    &&& f.time_format.medium@ == "HH:mm:ss"@
    &&& f.time_format.long@ == "HH:mm:ss z"@
    &&& f.time_format.full@ == "HH:mm:ss zzzz"@
    &&& f.time_format.custom_formats.map() == Map::<Seq<char>, String>::empty()
    &&& f.number_format.decimal_separator == '.'
    &&& f.number_format.thousands_separator == ','
    &&& f.number_format.decimal_places == 2
    &&& f.number_format.grouping == GroupingStyle::Western
    &&& f.number_format.negative_format == NegativeFormat::Minus
    &&& f.currency_format.symbol@ == "$"@
    &&& f.currency_format.symbol_position == SymbolPosition::Before
    &&& f.currency_format.decimal_places == 2
    &&& !f.currency_format.space_before
    &&& f.currency_format.custom_codes.map() == Map::<Seq<char>, CurrencyInfo>::empty()
    &&& f.calendar_type == CalendarType::Gregorian
}

/// The pattern of a style among the four standard ones, or else the
/// custom pattern of that name.
pub open spec fn style_pattern(
    short: Seq<char>,
    medium: Seq<char>,
    long: Seq<char>,
    full: Seq<char>,
    custom: Map<Seq<char>, String>,
    style: Seq<char>,
) -> Option<Seq<char>> {
    if style == "short"@ {
        Some(short)
    } else if style == "medium"@ {
        Some(medium)
    } else if style == "long"@ {
        Some(long)
    } else if style == "full"@ {
        Some(full)
    } else if custom.contains_key(style) {
        Some(custom[style]@)
    } else {
        None
    }
}

fn pick_pattern(short: &String, medium: &String, long: &String, full: &String, custom: &StrMap<String>, style: &str)
    -> (r: Option<String>)
    requires
        custom.wf(),
    ensures
        match r {
            Some(p) => style_pattern(short@, medium@, long@, full@, custom.map(), style@) == Some(p@),
            None => style_pattern(short@, medium@, long@, full@, custom.map(), style@) is None,
        },
{
    if crate::text::str_eq(style, "short") {
        Some(short.clone())
    } else if crate::text::str_eq(style, "medium") {
        Some(medium.clone())
    } else if crate::text::str_eq(style, "long") {
        Some(long.clone())
    } else if crate::text::str_eq(style, "full") {
        Some(full.clone())
    } else {
        match custom.get(style) {
            Some(p) => Some(p.clone()),
            None => None,
        }
    }
}

/// Chooses the patterns for dates, times and amounts of a locale.
pub struct DateTimeFormatter {
    locale_format: LocaleFormat,
    current_timezone: String,
}

impl DateTimeFormatter {
    /// The formats in use.
    pub closed spec fn format(&self) -> LocaleFormat {
        self.locale_format
    }

    /// The time zone offset the formatter was made in.
    pub closed spec fn timezone(&self) -> Seq<char> {
        self.current_timezone@
    }

    /// A formatter for a locale, in the given time zone offset.
    pub fn new(locale_code: String, timezone: String) -> (f: Self)
        ensures
            is_default_locale_format(f.format()),
            f.format().date_format.custom_formats.wf(),
            f.format().time_format.custom_formats.wf(),
            f.timezone() == timezone@,
    {
        DateTimeFormatter { locale_format: Self::get_locale_format(locale_code), current_timezone: timezone }
    }

    /// The formats of a locale; every locale is given the same US-style
    /// formats.
    pub fn get_locale_format(locale_code: String) -> (f: LocaleFormat)
        ensures
            is_default_locale_format(f),
            f.date_format.custom_formats.wf(),
            f.time_format.custom_formats.wf(),
            f.currency_format.custom_codes.wf(),
    {
        LocaleFormat {
            date_format: DateFormat {
                short: "MM/dd/yyyy".to_string(),
                medium: "MMM dd, yyyy".to_string(),
                long: "MMMM dd, yyyy".to_string(),
                full: "EEEE, MMMM dd, yyyy".to_string(),
                custom_formats: StrMap::new(),
            },
            time_format: TimeFormat {
                short: "HH:mm".to_string(),
                medium: "HH:mm:ss".to_string(),
                long: "HH:mm:ss z".to_string(),
                full: "HH:mm:ss zzzz".to_string(),
                custom_formats: StrMap::new(),
            },
            number_format: NumberFormat {
                decimal_separator: '.',
                thousands_separator: ',',
                decimal_places: 2,
                grouping: GroupingStyle::Western,
                negative_format: NegativeFormat::Minus,
            },
            currency_format: CurrencyFormat {
                symbol: "$".to_string(),
                symbol_position: SymbolPosition::Before,
                decimal_places: 2,
                space_before: false,
                custom_codes: StrMap::new(),
            },
            calendar_type: CalendarType::Gregorian,
        }
    }

    /// The pattern a date of the given style is printed with; `None` asks
    /// for RFC 3339.
    pub fn date_pattern(&self, style: &str) -> (r: Option<String>)
        requires
            self.format().date_format.custom_formats.wf(),
        ensures
            match r {
                Some(p) => style_pattern(
                    self.format().date_format.short@,
                    self.format().date_format.medium@,
                    self.format().date_format.long@,
                    self.format().date_format.full@,
                    self.format().date_format.custom_formats.map(),
                    style@,
                ) == Some(p@),
                None => style_pattern(
                    self.format().date_format.short@,
                    self.format().date_format.medium@,
                    self.format().date_format.long@,
                    self.format().date_format.full@,
                    self.format().date_format.custom_formats.map(),
                    style@,
                ) is None,
            },
    {
        let d = &self.locale_format.date_format;
        pick_pattern(&d.short, &d.medium, &d.long, &d.full, &d.custom_formats, style)
    }

    /// The pattern a time of the given style is printed with; `None` asks
    /// for RFC 3339.
    pub fn time_pattern(&self, style: &str) -> (r: Option<String>)
        requires
            self.format().time_format.custom_formats.wf(),
        ensures
            match r {
                Some(p) => style_pattern(
                    self.format().time_format.short@,
                    self.format().time_format.medium@,
                    self.format().time_format.long@,
                    self.format().time_format.full@,
                    self.format().time_format.custom_formats.map(),
                    style@,
                ) == Some(p@),
                None => style_pattern(
                    self.format().time_format.short@,
                    self.format().time_format.medium@,
                    self.format().time_format.long@,
                    self.format().time_format.full@,
                    self.format().time_format.custom_formats.map(),
                    style@,
                ) is None,
            },
    {
        let t = &self.locale_format.time_format;
        pick_pattern(&t.short, &t.medium, &t.long, &t.full, &t.custom_formats, style)
    }

    /// Applies the locale's number conventions to a printed number; the
    /// text is kept as it is.
    pub fn apply_number_formatting(&self, number: &str) -> (r: String)
        ensures
            r@ == number@,
    {
        number.to_string()
    }

    /// Places the locale's currency symbol around a printed amount.
    pub fn apply_currency_formatting(&self, amount: &str, currency_code: &str) -> (r: String)
        ensures
            r@ == currency_text(self.format().currency_format.symbol@, self.format().currency_format.symbol_position, amount@),
    {
        let f = &self.locale_format.currency_format;
        let mut v: Vec<char> = Vec::new();
        match f.symbol_position {
            SymbolPosition::Before => {
                push_str(&mut v, f.symbol.as_str());
                push_str(&mut v, amount);
            },
            SymbolPosition::After => {
                push_str(&mut v, amount);
                push_str(&mut v, f.symbol.as_str());
            },
            SymbolPosition::SpaceBefore => {
                push_str(&mut v, f.symbol.as_str());
                push_str(&mut v, " ");
                push_str(&mut v, amount);
            },
            SymbolPosition::SpaceAfter => {
                push_str(&mut v, amount);
                push_str(&mut v, " ");
                push_str(&mut v, f.symbol.as_str());
            },
        }
        string_from_chars(&v)
    }
}

/// An amount with a currency symbol placed as the locale asks.
pub open spec fn currency_text(symbol: Seq<char>, pos: SymbolPosition, amount: Seq<char>) -> Seq<char> {
    match pos {
        SymbolPosition::Before => symbol + amount,
        SymbolPosition::After => amount + symbol,
        SymbolPosition::SpaceBefore => symbol + " "@ + amount,
        SymbolPosition::SpaceAfter => amount + " "@ + symbol,
    }
}

} // verus!

verus! {

/// A text stored in a cache with room left is what a later lookup of its
/// key gives back.
pub proof fn law_cache_store_then_lookup(c: TranslationCache, key: Seq<char>, text: String, after: Map<Seq<char>, String>)
    requires
        c.cache.entries@.len() < c.max_size,
        after == (if c.cache.entries@.len() < c.max_size { c.cache.map().insert(key, text) } else { c.cache.map() }),
    ensures
        after.contains_key(key),
        after[key] == text,
{
}

} // verus!
