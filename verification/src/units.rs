//! The unit registry: the built-in units, lookup by name or symbol, listing by
//! category, and the checks of a conversion.
use vstd::prelude::*;
use crate::core_types::{category_list, category_name, Unit, UnitCategory};
use crate::text::{all_ascii, ascii_lower, to_lowercase, unicode_lowercase};

verus! {

/// Errors of unit lookup and conversion.
#[derive(Debug, Clone, PartialEq)]
pub enum UnitError {
    UnknownUnit(String),
    IncompatibleUnits(String, String),
    ConversionError(String),
}

/// `UnitError` with its texts as character sequences.
pub enum UnitErrorView {
    UnknownUnit(Seq<char>),
    IncompatibleUnits(Seq<char>, Seq<char>),
    ConversionError(Seq<char>),
}

impl View for UnitError {
    type V = UnitErrorView;

    open spec fn view(&self) -> UnitErrorView {
        match self {
            UnitError::UnknownUnit(s) => UnitErrorView::UnknownUnit(s@),
            UnitError::IncompatibleUnits(a, b) => UnitErrorView::IncompatibleUnits(a@, b@),
            UnitError::ConversionError(s) => UnitErrorView::ConversionError(s@),
        }
    }
}

/// The displayed message of a unit error.
pub open spec fn unit_error_message(e: UnitErrorView) -> Seq<char> {
    match e {
        UnitErrorView::UnknownUnit(s) => "Unknown unit: "@ + s,
        UnitErrorView::IncompatibleUnits(a, b) => "Incompatible units: "@ + a + " and "@ + b
            + " are different categories"@,
        UnitErrorView::ConversionError(s) => "Conversion error: "@ + s,
    }
}

impl UnitError {
    /// The displayed message of this error.
    pub fn to_string(&self) -> (r: String)
        ensures
            r@ == unit_error_message(self@),
    {
        match self {
            UnitError::UnknownUnit(s) => {
                let mut m = "Unknown unit: ".to_owned();
                m.append(s.as_str());
                m
            },
            UnitError::IncompatibleUnits(a, b) => {
                let mut m = "Incompatible units: ".to_owned();
                m.append(a.as_str());
                m.append(" and ");
                m.append(b.as_str());
                m.append(" are different categories");
                m
            },
            UnitError::ConversionError(s) => {
                let mut m = "Conversion error: ".to_owned();
                m.append(s.as_str());
                m
            },
        }
    }
}

/// A unit with its texts as character sequences.
pub struct UnitView {
    pub name: Seq<char>,
    pub symbol: Seq<char>,
    pub category: UnitCategory,
    pub to_base_factor: u64,
    pub to_base_offset: u64,
    pub to_base_inverse: bool,
}

impl View for Unit {
    type V = UnitView;

    open spec fn view(&self) -> UnitView {
        UnitView {
            name: self.name@,
            symbol: self.symbol@,
            category: self.category,
            to_base_factor: self.to_base_factor,
            to_base_offset: self.to_base_offset,
            to_base_inverse: self.to_base_inverse,
        }
    }
}

/// A unit with a linear conversion to its base unit, seen as a view.
pub open spec fn unit_view(name: Seq<char>, symbol: Seq<char>, category: UnitCategory, factor: u64, offset: u64) -> UnitView {
    UnitView { name, symbol, category, to_base_factor: factor, to_base_offset: offset, to_base_inverse: false }
}

/// The built-in units, in registration order. Factors and offsets are the bits
/// of `f64` values: for example `0x408F400000000000` is 1000, and the Fahrenheit
/// factor is the bits of `5.0 / 9.0` with offset the bits of `-32`.
pub open spec fn default_units() -> Seq<UnitView> {
    seq![
        unit_view("meter"@, "m"@, UnitCategory::Length, 0x3FF0000000000000, 0),
        unit_view("kilometer"@, "km"@, UnitCategory::Length, 0x408F400000000000, 0),
        unit_view("centimeter"@, "cm"@, UnitCategory::Length, 0x3F847AE147AE147B, 0),
        unit_view("millimeter"@, "mm"@, UnitCategory::Length, 0x3F50624DD2F1A9FC, 0),
        unit_view("mile"@, "mi"@, UnitCategory::Length, 0x409925604189374C, 0),
        unit_view("yard"@, "yd"@, UnitCategory::Length, 0x3FED42C3C9EECBFB, 0),
        unit_view("foot"@, "ft"@, UnitCategory::Length, 0x3FD381D7DBF487FD, 0),
        unit_view("inch"@, "in"@, UnitCategory::Length, 0x3F9A027525460AA6, 0),
        unit_view("nautical_mile"@, "nmi"@, UnitCategory::Length, 0x409CF00000000000, 0),
        unit_view("kilogram"@, "kg"@, UnitCategory::Mass, 0x3FF0000000000000, 0),
        unit_view("gram"@, "g"@, UnitCategory::Mass, 0x3F50624DD2F1A9FC, 0),
        unit_view("milligram"@, "mg"@, UnitCategory::Mass, 0x3EB0C6F7A0B5ED8D, 0),
        unit_view("pound"@, "lb"@, UnitCategory::Mass, 0x3FDD07A6BD6E8AF8, 0),
        unit_view("ounce"@, "oz"@, UnitCategory::Mass, 0x3F9D07A6BD6E8AF8, 0),
        unit_view("ton"@, "t"@, UnitCategory::Mass, 0x408F400000000000, 0),
        unit_view("stone"@, "st"@, UnitCategory::Mass, 0x401966B26BF8769F, 0),
        unit_view("celsius"@, "C"@, UnitCategory::Temperature, 0x3FF0000000000000, 0),
        unit_view("fahrenheit"@, "F"@, UnitCategory::Temperature, 0x3FE1C71C71C71C72, 0xC040000000000000),
        unit_view("kelvin"@, "K"@, UnitCategory::Temperature, 0x3FF0000000000000, 0xC071126666666666),
        unit_view("second"@, "s"@, UnitCategory::Time, 0x3FF0000000000000, 0),
        unit_view("minute"@, "min"@, UnitCategory::Time, 0x404E000000000000, 0),
        unit_view("hour"@, "hr"@, UnitCategory::Time, 0x40AC200000000000, 0),
        unit_view("day"@, "d"@, UnitCategory::Time, 0x40F5180000000000, 0),
        unit_view("week"@, "wk"@, UnitCategory::Time, 0x4122750000000000, 0),
        unit_view("year"@, "yr"@, UnitCategory::Time, 0x417E187E00000000, 0),
        unit_view("byte"@, "B"@, UnitCategory::DataSize, 0x3FF0000000000000, 0),
        unit_view("kilobyte"@, "KB"@, UnitCategory::DataSize, 0x4090000000000000, 0),
        unit_view("megabyte"@, "MB"@, UnitCategory::DataSize, 0x4130000000000000, 0),
        unit_view("gigabyte"@, "GB"@, UnitCategory::DataSize, 0x41D0000000000000, 0),
        unit_view("terabyte"@, "TB"@, UnitCategory::DataSize, 0x4270000000000000, 0),
        unit_view("petabyte"@, "PB"@, UnitCategory::DataSize, 0x4310000000000000, 0),
        unit_view("meters_per_second"@, "m/s"@, UnitCategory::Speed, 0x3FF0000000000000, 0),
        unit_view("kilometers_per_hour"@, "km/h"@, UnitCategory::Speed, 0x3FD1C71C71C71C72, 0),
        unit_view("miles_per_hour"@, "mph"@, UnitCategory::Speed, 0x3FDC9C4DA9003EEA, 0),
        unit_view("knot"@, "kn"@, UnitCategory::Speed, 0x3FE076534373F317, 0),
        unit_view("square_meter"@, "m2"@, UnitCategory::Area, 0x3FF0000000000000, 0),
        unit_view("square_kilometer"@, "km2"@, UnitCategory::Area, 0x412E848000000000, 0),
        unit_view("hectare"@, "ha"@, UnitCategory::Area, 0x40C3880000000000, 0),
        unit_view("acre"@, "ac"@, UnitCategory::Area, 0x40AF9DB67CFF2F20, 0),
        unit_view("square_foot"@, "ft2"@, UnitCategory::Area, 0x3FB7C87DB2B34613, 0),
        unit_view("liter"@, "L"@, UnitCategory::Volume, 0x3FF0000000000000, 0),
        unit_view("milliliter"@, "mL"@, UnitCategory::Volume, 0x3F50624DD2F1A9FC, 0),
        unit_view("gallon"@, "gal"@, UnitCategory::Volume, 0x400E488509BF9C63, 0),
        unit_view("quart"@, "qt"@, UnitCategory::Volume, 0x3FEE4886162F166E, 0),
        unit_view("pint"@, "pt"@, UnitCategory::Volume, 0x3FDE4883FD502257, 0),
        unit_view("cup"@, "cup"@, UnitCategory::Volume, 0x3FCE4883FD502257, 0),
        unit_view("tablespoon"@, "tbsp"@, UnitCategory::Volume, 0x3F8E488AB34CC906, 0),
        unit_view("teaspoon"@, "tsp"@, UnitCategory::Volume, 0x3F743058E3460AFC, 0),
    ]
}

/// `u` is found by the lower-cased query `lq` by its name or its symbol.
pub open spec fn direct_match(u: UnitView, lq: Seq<char>) -> bool {
    unicode_lowercase(u.name) == lq || unicode_lowercase(u.symbol) == lq
}

/// `u` is found by the lower-cased query `lq` as a plural: `lq` is the
/// lower-cased name followed by `s`.
pub open spec fn plural_match(u: UnitView, lq: Seq<char>) -> bool {
    lq.len() > 0 && lq.last() == 's' && unicode_lowercase(u.name) == lq.drop_last()
}

/// Index of the first unit at or after `i` that `lq` finds by name or symbol.
pub open spec fn first_direct(us: Seq<UnitView>, lq: Seq<char>, i: int) -> Option<int>
    decreases us.len() - i,
{
    if i < 0 || i >= us.len() {
        None
    } else if direct_match(us[i], lq) {
        Some(i)
    } else {
        first_direct(us, lq, i + 1)
    }
}

/// Index of the first unit at or after `i` that `lq` finds as a plural.
pub open spec fn first_plural(us: Seq<UnitView>, lq: Seq<char>, i: int) -> Option<int>
    decreases us.len() - i,
{
    if i < 0 || i >= us.len() {
        None
    } else if plural_match(us[i], lq) {
        Some(i)
    } else {
        first_plural(us, lq, i + 1)
    }
}

/// Index of the unit that a query finds: the first found by name or symbol
/// (ignoring case), else the first found as a plural.
pub open spec fn find_index(us: Seq<UnitView>, query: Seq<char>) -> Option<int> {
    let lq = unicode_lowercase(query);
    match first_direct(us, lq, 0) {
        Some(i) => Some(i),
        None => first_plural(us, lq, 0),
    }
}

/// The listing line of one unit: two spaces, "name (symbol)", a line break.
pub open spec fn unit_line(u: UnitView) -> Seq<char> {
    "  "@ + u.name + " ("@ + u.symbol + ")"@ + "\n"@
}

/// The listing lines of a sequence of units, in order.
pub open spec fn unit_lines(us: Seq<UnitView>) -> Seq<char>
    decreases us.len(),
{
    if us.len() == 0 {
        Seq::empty()
    } else {
        unit_lines(us.drop_last()) + unit_line(us.last())
    }
}

/// The listing of one category: its name and a colon, then its units' lines.
pub open spec fn category_block(us: Seq<UnitView>, c: UnitCategory) -> Seq<char> {
    category_name(c) + ":\n"@ + unit_lines(us.filter(|u: UnitView| u.category == c))
}

/// The listings of the categories `cats`, each followed by an empty line.
pub open spec fn blocks(us: Seq<UnitView>, cats: Seq<UnitCategory>) -> Seq<char>
    decreases cats.len(),
{
    if cats.len() == 0 {
        Seq::empty()
    } else {
        blocks(us, cats.drop_last()) + category_block(us, cats.last()) + "\n"@
    }
}

/// The text that lists the units of one category, or of every category.
pub open spec fn units_listing(us: Seq<UnitView>, category: Option<UnitCategory>) -> Seq<char> {
    match category {
        Some(c) => category_block(us, c),
        None => blocks(us, category_list()),
    }
}

/// Lookup ignores case: two queries with the same lower-case form find the
/// same unit.
pub proof fn lemma_find_ignores_case(us: Seq<UnitView>, a: Seq<char>, b: Seq<char>)
    requires
        unicode_lowercase(a) == unicode_lowercase(b),
    ensures
        find_index(us, a) == find_index(us, b),
{
}

/// A fingerprint of a lower-cased name or symbol: its length, its first, last
/// and middle characters.
pub open spec fn fingerprint(w: Seq<char>) -> (int, char, char, char) {
    (w.len() as int, w[0], w[w.len() - 1], w[(w.len() / 2) as int])
}

/// The position in the built-in table of the unit whose lower-cased name or
/// symbol has the fingerprint of `w` (-1 for none).
pub open spec fn table_slot(w: Seq<char>) -> int {
    let f = fingerprint(w);
    if f == (5int, 'm', 'r', 't') || f == (1int, 'm', 'm', 'm') {
        0
    } else if f == (9int, 'k', 'r', 'm') || f == (2int, 'k', 'm', 'm') {
        1
    } else if f == (10int, 'c', 'r', 'm') || f == (2int, 'c', 'm', 'm') {
        2
    } else if f == (10int, 'm', 'r', 'm') || f == (2int, 'm', 'm', 'm') {
        3
    } else if f == (4int, 'm', 'e', 'l') || f == (2int, 'm', 'i', 'i') {
        4
    } else if f == (4int, 'y', 'd', 'r') || f == (2int, 'y', 'd', 'd') {
        5
    } else if f == (4int, 'f', 't', 'o') || f == (2int, 'f', 't', 't') {
        6
    } else if f == (4int, 'i', 'h', 'c') || f == (2int, 'i', 'n', 'n') {
        7
    } else if f == (13int, 'n', 'e', 'a') || f == (3int, 'n', 'i', 'm') {
        8
    } else if f == (8int, 'k', 'm', 'g') || f == (2int, 'k', 'g', 'g') {
        9
    } else if f == (4int, 'g', 'm', 'a') || f == (1int, 'g', 'g', 'g') {
        10
    } else if f == (9int, 'm', 'm', 'i') || f == (2int, 'm', 'g', 'g') {
        11
    } else if f == (5int, 'p', 'd', 'u') || f == (2int, 'l', 'b', 'b') {
        12
    } else if f == (5int, 'o', 'e', 'n') || f == (2int, 'o', 'z', 'z') {
        13
    } else if f == (3int, 't', 'n', 'o') || f == (1int, 't', 't', 't') {
        14
    } else if f == (5int, 's', 'e', 'o') || f == (2int, 's', 't', 't') {
        15
    } else if f == (7int, 'c', 's', 's') || f == (1int, 'c', 'c', 'c') {
        16
    } else if f == (10int, 'f', 't', 'n') || f == (1int, 'f', 'f', 'f') {
        17
    } else if f == (6int, 'k', 'n', 'v') || f == (1int, 'k', 'k', 'k') {
        18
    } else if f == (6int, 's', 'd', 'o') || f == (1int, 's', 's', 's') {
        19
    } else if f == (6int, 'm', 'e', 'u') || f == (3int, 'm', 'n', 'i') {
        20
    } else if f == (4int, 'h', 'r', 'u') || f == (2int, 'h', 'r', 'r') {
        21
    } else if f == (3int, 'd', 'y', 'a') || f == (1int, 'd', 'd', 'd') {
        22
    } else if f == (4int, 'w', 'k', 'e') || f == (2int, 'w', 'k', 'k') {
        23
    } else if f == (4int, 'y', 'r', 'a') || f == (2int, 'y', 'r', 'r') {
        24
    } else if f == (4int, 'b', 'e', 't') || f == (1int, 'b', 'b', 'b') {
        25
    } else if f == (8int, 'k', 'e', 'b') || f == (2int, 'k', 'b', 'b') {
        26
    } else if f == (8int, 'm', 'e', 'b') || f == (2int, 'm', 'b', 'b') {
        27
    } else if f == (8int, 'g', 'e', 'b') || f == (2int, 'g', 'b', 'b') {
        28
    } else if f == (8int, 't', 'e', 'b') || f == (2int, 't', 'b', 'b') {
        29
    } else if f == (8int, 'p', 'e', 'b') || f == (2int, 'p', 'b', 'b') {
        30
    } else if f == (17int, 'm', 'd', 'e') || f == (3int, 'm', 's', '/') {
        31
    } else if f == (19int, 'k', 'r', 's') || f == (4int, 'k', 'h', '/') {
        32
    } else if f == (14int, 'm', 'r', 'e') || f == (3int, 'm', 'h', 'p') {
        33
    } else if f == (4int, 'k', 't', 'o') || f == (2int, 'k', 'n', 'n') {
        34
    } else if f == (12int, 's', 'r', '_') || f == (2int, 'm', '2', '2') {
        35
    } else if f == (16int, 's', 'r', 'i') || f == (3int, 'k', '2', 'm') {
        36
    } else if f == (7int, 'h', 'e', 't') || f == (2int, 'h', 'a', 'a') {
        37
    } else if f == (4int, 'a', 'e', 'r') || f == (2int, 'a', 'c', 'c') {
        38
    } else if f == (11int, 's', 't', 'e') || f == (3int, 'f', '2', 't') {
        39
    } else if f == (5int, 'l', 'r', 't') || f == (1int, 'l', 'l', 'l') {
        40
    } else if f == (10int, 'm', 'r', 'l') || f == (2int, 'm', 'l', 'l') {
        41
    } else if f == (6int, 'g', 'n', 'l') || f == (3int, 'g', 'l', 'a') {
        42
    } else if f == (5int, 'q', 't', 'a') || f == (2int, 'q', 't', 't') {
        43
    } else if f == (4int, 'p', 't', 'n') || f == (2int, 'p', 't', 't') {
        44
    } else if f == (3int, 'c', 'p', 'u') {
        45
    } else if f == (10int, 't', 'n', 's') || f == (4int, 't', 'p', 's') {
        46
    } else if f == (8int, 't', 'n', 'p') || f == (3int, 't', 'p', 's') {
        47
    } else {
        -1
    }
}

/// Each built-in unit's name and symbol are ASCII, and their lower-cased forms
/// lead back to the unit's own position.
proof fn lemma_table_slot(i: int)
    requires
        0 <= i < default_units().len(),
    ensures
        all_ascii(default_units()[i].name),
        all_ascii(default_units()[i].symbol),
        table_slot(ascii_lower(default_units()[i].name)) == i,
        table_slot(ascii_lower(default_units()[i].symbol)) == i,
{
    if i == 0 {
        reveal_strlit("meter");
        reveal_strlit("m");
    } else if i == 1 {
        reveal_strlit("kilometer");
        reveal_strlit("km");
    } else if i == 2 {
        reveal_strlit("centimeter");
        reveal_strlit("cm");
    } else if i == 3 {
        reveal_strlit("millimeter");
        reveal_strlit("mm");
    } else if i == 4 {
        reveal_strlit("mile");
        reveal_strlit("mi");
    } else if i == 5 {
        reveal_strlit("yard");
        reveal_strlit("yd");
    } else if i == 6 {
        reveal_strlit("foot");
        reveal_strlit("ft");
    } else if i == 7 {
        reveal_strlit("inch");
        reveal_strlit("in");
    } else if i == 8 {
        reveal_strlit("nautical_mile");
        reveal_strlit("nmi");
    } else if i == 9 {
        reveal_strlit("kilogram");
        reveal_strlit("kg");
    } else if i == 10 {
        reveal_strlit("gram");
        reveal_strlit("g");
    } else if i == 11 {
        reveal_strlit("milligram");
        reveal_strlit("mg");
    } else if i == 12 {
        reveal_strlit("pound");
        reveal_strlit("lb");
    } else if i == 13 {
        reveal_strlit("ounce");
        reveal_strlit("oz");
    } else if i == 14 {
        reveal_strlit("ton");
        reveal_strlit("t");
    } else if i == 15 {
        reveal_strlit("stone");
        reveal_strlit("st");
    } else if i == 16 {
        reveal_strlit("celsius");
        reveal_strlit("C");
    } else if i == 17 {
        reveal_strlit("fahrenheit");
        reveal_strlit("F");
    } else if i == 18 {
        reveal_strlit("kelvin");
        reveal_strlit("K");
    } else if i == 19 {
        reveal_strlit("second");
        reveal_strlit("s");
    } else if i == 20 {
        reveal_strlit("minute");
        reveal_strlit("min");
    } else if i == 21 {
        reveal_strlit("hour");
        reveal_strlit("hr");
    } else if i == 22 {
        reveal_strlit("day");
        reveal_strlit("d");
    } else if i == 23 {
        reveal_strlit("week");
        reveal_strlit("wk");
    } else if i == 24 {
        reveal_strlit("year");
        reveal_strlit("yr");
    } else if i == 25 {
        reveal_strlit("byte");
        reveal_strlit("B");
    } else if i == 26 {
        reveal_strlit("kilobyte");
        reveal_strlit("KB");
    } else if i == 27 {
        reveal_strlit("megabyte");
        reveal_strlit("MB");
    } else if i == 28 {
        reveal_strlit("gigabyte");
        reveal_strlit("GB");
    } else if i == 29 {
        reveal_strlit("terabyte");
        reveal_strlit("TB");
    } else if i == 30 {
        reveal_strlit("petabyte");
        reveal_strlit("PB");
    } else if i == 31 {
        reveal_strlit("meters_per_second");
        reveal_strlit("m/s");
    } else if i == 32 {
        reveal_strlit("kilometers_per_hour");
        reveal_strlit("km/h");
    } else if i == 33 {
        reveal_strlit("miles_per_hour");
        reveal_strlit("mph");
    } else if i == 34 {
        reveal_strlit("knot");
        reveal_strlit("kn");
    } else if i == 35 {
        reveal_strlit("square_meter");
        reveal_strlit("m2");
    } else if i == 36 {
        reveal_strlit("square_kilometer");
        reveal_strlit("km2");
    } else if i == 37 {
        reveal_strlit("hectare");
        reveal_strlit("ha");
    } else if i == 38 {
        reveal_strlit("acre");
        reveal_strlit("ac");
    } else if i == 39 {
        reveal_strlit("square_foot");
        reveal_strlit("ft2");
    } else if i == 40 {
        reveal_strlit("liter");
        reveal_strlit("L");
    } else if i == 41 {
        reveal_strlit("milliliter");
        reveal_strlit("mL");
    } else if i == 42 {
        reveal_strlit("gallon");
        reveal_strlit("gal");
    } else if i == 43 {
        reveal_strlit("quart");
        reveal_strlit("qt");
    } else if i == 44 {
        reveal_strlit("pint");
        reveal_strlit("pt");
    } else if i == 45 {
        reveal_strlit("cup");
    } else if i == 46 {
        reveal_strlit("tablespoon");
        reveal_strlit("tbsp");
    } else if i == 47 {
        reveal_strlit("teaspoon");
        reveal_strlit("tsp");
    }
}

/// No two built-in units share a lower-cased name or symbol: a query finds at
/// most one unit directly, whatever the order of the table. (All names and
/// symbols are ASCII, where lower-casing is ASCII lower-casing.)
pub proof fn lemma_default_units_distinct(i: int, j: int)
    requires
        0 <= i < default_units().len(),
        0 <= j < default_units().len(),
        i != j,
    ensures
        all_ascii(default_units()[i].name),
        all_ascii(default_units()[i].symbol),
        ascii_lower(default_units()[i].name) != ascii_lower(default_units()[j].name),
        ascii_lower(default_units()[i].name) != ascii_lower(default_units()[j].symbol),
        ascii_lower(default_units()[i].symbol) != ascii_lower(default_units()[j].symbol),
{
    lemma_table_slot(i);
    lemma_table_slot(j);
}

/// Lower-casing ASCII text is ASCII lower-casing: what std documents of
/// `str::to_lowercase`, and what `to_lowercase` states of each call.
pub open spec fn lowercase_is_ascii() -> bool {
    forall|w: Seq<char>| all_ascii(w) ==> #[trigger] unicode_lowercase(w) == ascii_lower(w)
}

/// No built-in unit's lower-cased name or symbol is another's lower-cased name
/// followed by `s`.
proof fn lemma_plural_slot(i: int)
    requires
        0 <= i < default_units().len(),
    ensures
        table_slot(ascii_lower(default_units()[i].name) + "s"@) == -1,
{
    reveal_strlit("s");
    if i == 0 {
        reveal_strlit("meter");
    } else if i == 1 {
        reveal_strlit("kilometer");
    } else if i == 2 {
        reveal_strlit("centimeter");
    } else if i == 3 {
        reveal_strlit("millimeter");
    } else if i == 4 {
        reveal_strlit("mile");
    } else if i == 5 {
        reveal_strlit("yard");
    } else if i == 6 {
        reveal_strlit("foot");
    } else if i == 7 {
        reveal_strlit("inch");
    } else if i == 8 {
        reveal_strlit("nautical_mile");
    } else if i == 9 {
        reveal_strlit("kilogram");
    } else if i == 10 {
        reveal_strlit("gram");
    } else if i == 11 {
        reveal_strlit("milligram");
    } else if i == 12 {
        reveal_strlit("pound");
    } else if i == 13 {
        reveal_strlit("ounce");
    } else if i == 14 {
        reveal_strlit("ton");
    } else if i == 15 {
        reveal_strlit("stone");
    } else if i == 16 {
        reveal_strlit("celsius");
    } else if i == 17 {
        reveal_strlit("fahrenheit");
    } else if i == 18 {
        reveal_strlit("kelvin");
    } else if i == 19 {
        reveal_strlit("second");
    } else if i == 20 {
        reveal_strlit("minute");
    } else if i == 21 {
        reveal_strlit("hour");
    } else if i == 22 {
        reveal_strlit("day");
    } else if i == 23 {
        reveal_strlit("week");
    } else if i == 24 {
        reveal_strlit("year");
    } else if i == 25 {
        reveal_strlit("byte");
    } else if i == 26 {
        reveal_strlit("kilobyte");
    } else if i == 27 {
        reveal_strlit("megabyte");
    } else if i == 28 {
        reveal_strlit("gigabyte");
    } else if i == 29 {
        reveal_strlit("terabyte");
    } else if i == 30 {
        reveal_strlit("petabyte");
    } else if i == 31 {
        reveal_strlit("meters_per_second");
    } else if i == 32 {
        reveal_strlit("kilometers_per_hour");
    } else if i == 33 {
        reveal_strlit("miles_per_hour");
    } else if i == 34 {
        reveal_strlit("knot");
    } else if i == 35 {
        reveal_strlit("square_meter");
    } else if i == 36 {
        reveal_strlit("square_kilometer");
    } else if i == 37 {
        reveal_strlit("hectare");
    } else if i == 38 {
        reveal_strlit("acre");
    } else if i == 39 {
        reveal_strlit("square_foot");
    } else if i == 40 {
        reveal_strlit("liter");
    } else if i == 41 {
        reveal_strlit("milliliter");
    } else if i == 42 {
        reveal_strlit("gallon");
    } else if i == 43 {
        reveal_strlit("quart");
    } else if i == 44 {
        reveal_strlit("pint");
    } else if i == 45 {
        reveal_strlit("cup");
    } else if i == 46 {
        reveal_strlit("tablespoon");
    } else if i == 47 {
        reveal_strlit("teaspoon");
    }
}

/// The first index at or after `start` that the direct search finds is `i`,
/// when no unit before it matches and unit `i` does.
proof fn lemma_first_direct_at(us: Seq<UnitView>, lq: Seq<char>, start: int, i: int)
    requires
        0 <= start <= i < us.len(),
        direct_match(us[i], lq),
        forall|j: int| start <= j < i ==> !direct_match(#[trigger] us[j], lq),
    ensures
        first_direct(us, lq, start) == Some(i),
    decreases i - start,
{
    if start < i {
        lemma_first_direct_at(us, lq, start + 1, i);
    }
}

/// The direct search finds nothing when no unit matches.
proof fn lemma_first_direct_none(us: Seq<UnitView>, lq: Seq<char>, start: int)
    requires
        0 <= start,
        forall|j: int| 0 <= j < us.len() ==> !direct_match(#[trigger] us[j], lq),
    ensures
        first_direct(us, lq, start) is None,
    decreases us.len() - start,
{
    if start < us.len() {
        lemma_first_direct_none(us, lq, start + 1);
    }
}

/// The first index at or after `start` that the plural search finds is `i`,
/// when no unit before it matches and unit `i` does.
proof fn lemma_first_plural_at(us: Seq<UnitView>, lq: Seq<char>, start: int, i: int)
    requires
        0 <= start <= i < us.len(),
        plural_match(us[i], lq),
        forall|j: int| start <= j < i ==> !plural_match(#[trigger] us[j], lq),
    ensures
        first_plural(us, lq, start) == Some(i),
    decreases i - start,
{
    if start < i {
        lemma_first_plural_at(us, lq, start + 1, i);
    }
}

/// Every built-in unit is found by its name, by its symbol, and by its name
/// followed by `s` (a plural), in any mix of upper and lower case, and no
/// other unit is found by them. (Given that lower-casing ASCII text is ASCII
/// lower-casing; all names and symbols are ASCII.)
pub proof fn lemma_default_units_found(i: int, q: Seq<char>)
    requires
        lowercase_is_ascii(),
        0 <= i < default_units().len(),
        all_ascii(q),
    ensures
        ascii_lower(q) == ascii_lower(default_units()[i].name) ==> find_index(default_units(), q) == Some(i),
        ascii_lower(q) == ascii_lower(default_units()[i].symbol) ==> find_index(default_units(), q) == Some(i),
        ascii_lower(q) == ascii_lower(default_units()[i].name) + "s"@ ==> find_index(default_units(), q)
            == Some(i),
{
    let us = default_units();
    let lq = ascii_lower(q);
    assert(unicode_lowercase(q) == lq);
    assert forall|j: int| 0 <= j < us.len() implies unicode_lowercase(#[trigger] us[j].name) == ascii_lower(us[j].name)
        && unicode_lowercase(us[j].symbol) == ascii_lower(us[j].symbol) by {
        lemma_table_slot(j);
    }
    lemma_table_slot(i);
    if lq == ascii_lower(us[i].name) || lq == ascii_lower(us[i].symbol) {
        assert forall|j: int| 0 <= j < i implies !direct_match(#[trigger] us[j], lq) by {
            lemma_table_slot(j);
        }
        lemma_first_direct_at(us, lq, 0, i);
    }
    if lq == ascii_lower(us[i].name) + "s"@ {
        reveal_strlit("s");
        lemma_plural_slot(i);
        assert forall|j: int| 0 <= j < us.len() implies !direct_match(#[trigger] us[j], lq) by {
            lemma_table_slot(j);
        }
        lemma_first_direct_none(us, lq, 0);
        assert(lq.drop_last() =~= ascii_lower(us[i].name));
        assert forall|j: int| 0 <= j < i implies !plural_match(#[trigger] us[j], lq) by {
            lemma_table_slot(j);
            if ascii_lower(us[j].name) == ascii_lower(us[i].name) {
                lemma_default_units_distinct(i, j);
            }
        }
        lemma_first_plural_at(us, lq, 0, i);
    }
}

/// The first built-in unit of each category is its base unit: its factor is
/// 1.0 (the bits `0x3FF0000000000000`) and its offset 0. Only fahrenheit and
/// kelvin have a nonzero offset, and no built-in unit converts by its inverse.
pub proof fn lemma_default_base_units(i: int)
    requires
        0 <= i < default_units().len(),
    ensures
        (forall|k: int| 0 <= k < i ==> default_units()[k].category != default_units()[i].category)
            ==> default_units()[i].to_base_factor == 0x3FF0000000000000u64
            && default_units()[i].to_base_offset == 0,
        default_units()[i].to_base_offset != 0 <==> (default_units()[i].name == "fahrenheit"@
            || default_units()[i].name == "kelvin"@),
        !default_units()[i].to_base_inverse,
{
    reveal_strlit("fahrenheit");
    reveal_strlit("kelvin");
    assert("fahrenheit"@.len() == 10 && "kelvin"@.len() == 6);
    if i == 0 {
        reveal_strlit("meter");
        assert("meter"@.len() == 5);
    } else if i == 1 {
        reveal_strlit("kilometer");
        assert("kilometer"@.len() == 9);
        assert(default_units()[0].category == default_units()[1].category);
    } else if i == 2 {
        reveal_strlit("centimeter");
        assert("centimeter"@.len() == 10);
        assert("centimeter"@[0] != "fahrenheit"@[0]);
        assert(default_units()[0].category == default_units()[2].category);
    } else if i == 3 {
        reveal_strlit("millimeter");
        assert("millimeter"@.len() == 10);
        assert("millimeter"@[0] != "fahrenheit"@[0]);
        assert(default_units()[0].category == default_units()[3].category);
    } else if i == 4 {
        reveal_strlit("mile");
        assert("mile"@.len() == 4);
        assert(default_units()[0].category == default_units()[4].category);
    } else if i == 5 {
        reveal_strlit("yard");
        assert("yard"@.len() == 4);
        assert(default_units()[0].category == default_units()[5].category);
    } else if i == 6 {
        reveal_strlit("foot");
        assert("foot"@.len() == 4);
        assert(default_units()[0].category == default_units()[6].category);
    } else if i == 7 {
        reveal_strlit("inch");
        assert("inch"@.len() == 4);
        assert(default_units()[0].category == default_units()[7].category);
    } else if i == 8 {
        reveal_strlit("nautical_mile");
        assert("nautical_mile"@.len() == 13);
        assert(default_units()[0].category == default_units()[8].category);
    } else if i == 9 {
        reveal_strlit("kilogram");
        assert("kilogram"@.len() == 8);
    } else if i == 10 {
        reveal_strlit("gram");
        assert("gram"@.len() == 4);
        assert(default_units()[9].category == default_units()[10].category);
    } else if i == 11 {
        reveal_strlit("milligram");
        assert("milligram"@.len() == 9);
        assert(default_units()[9].category == default_units()[11].category);
    } else if i == 12 {
        reveal_strlit("pound");
        assert("pound"@.len() == 5);
        assert(default_units()[9].category == default_units()[12].category);
    } else if i == 13 {
        reveal_strlit("ounce");
        assert("ounce"@.len() == 5);
        assert(default_units()[9].category == default_units()[13].category);
    } else if i == 14 {
        reveal_strlit("ton");
        assert("ton"@.len() == 3);
        assert(default_units()[9].category == default_units()[14].category);
    } else if i == 15 {
        reveal_strlit("stone");
        assert("stone"@.len() == 5);
        assert(default_units()[9].category == default_units()[15].category);
    } else if i == 16 {
        reveal_strlit("celsius");
        assert("celsius"@.len() == 7);
    } else if i == 17 {
        reveal_strlit("fahrenheit");
        assert("fahrenheit"@.len() == 10);
        assert(default_units()[16].category == default_units()[17].category);
    } else if i == 18 {
        reveal_strlit("kelvin");
        assert("kelvin"@.len() == 6);
        assert(default_units()[16].category == default_units()[18].category);
    } else if i == 19 {
        reveal_strlit("second");
        assert("second"@.len() == 6);
        assert("second"@[0] != "kelvin"@[0]);
    } else if i == 20 {
        reveal_strlit("minute");
        assert("minute"@.len() == 6);
        assert("minute"@[0] != "kelvin"@[0]);
        assert(default_units()[19].category == default_units()[20].category);
    } else if i == 21 {
        reveal_strlit("hour");
        assert("hour"@.len() == 4);
        assert(default_units()[19].category == default_units()[21].category);
    } else if i == 22 {
        reveal_strlit("day");
        assert("day"@.len() == 3);
        assert(default_units()[19].category == default_units()[22].category);
    } else if i == 23 {
        reveal_strlit("week");
        assert("week"@.len() == 4);
        assert(default_units()[19].category == default_units()[23].category);
    } else if i == 24 {
        reveal_strlit("year");
        assert("year"@.len() == 4);
        assert(default_units()[19].category == default_units()[24].category);
    } else if i == 25 {
        reveal_strlit("byte");
        assert("byte"@.len() == 4);
    } else if i == 26 {
        reveal_strlit("kilobyte");
        assert("kilobyte"@.len() == 8);
        assert(default_units()[25].category == default_units()[26].category);
    } else if i == 27 {
        reveal_strlit("megabyte");
        assert("megabyte"@.len() == 8);
        assert(default_units()[25].category == default_units()[27].category);
    } else if i == 28 {
        reveal_strlit("gigabyte");
        assert("gigabyte"@.len() == 8);
        assert(default_units()[25].category == default_units()[28].category);
    } else if i == 29 {
        reveal_strlit("terabyte");
        assert("terabyte"@.len() == 8);
        assert(default_units()[25].category == default_units()[29].category);
    } else if i == 30 {
        reveal_strlit("petabyte");
        assert("petabyte"@.len() == 8);
        assert(default_units()[25].category == default_units()[30].category);
    } else if i == 31 {
        reveal_strlit("meters_per_second");
        assert("meters_per_second"@.len() == 17);
    } else if i == 32 {
        reveal_strlit("kilometers_per_hour");
        assert("kilometers_per_hour"@.len() == 19);
        assert(default_units()[31].category == default_units()[32].category);
    } else if i == 33 {
        reveal_strlit("miles_per_hour");
        assert("miles_per_hour"@.len() == 14);
        assert(default_units()[31].category == default_units()[33].category);
    } else if i == 34 {
        reveal_strlit("knot");
        assert("knot"@.len() == 4);
        assert(default_units()[31].category == default_units()[34].category);
    } else if i == 35 {
        reveal_strlit("square_meter");
        assert("square_meter"@.len() == 12);
    } else if i == 36 {
        reveal_strlit("square_kilometer");
        assert("square_kilometer"@.len() == 16);
        assert(default_units()[35].category == default_units()[36].category);
    } else if i == 37 {
        reveal_strlit("hectare");
        assert("hectare"@.len() == 7);
        assert(default_units()[35].category == default_units()[37].category);
    } else if i == 38 {
        reveal_strlit("acre");
        assert("acre"@.len() == 4);
        assert(default_units()[35].category == default_units()[38].category);
    } else if i == 39 {
        reveal_strlit("square_foot");
        assert("square_foot"@.len() == 11);
        assert(default_units()[35].category == default_units()[39].category);
    } else if i == 40 {
        reveal_strlit("liter");
        assert("liter"@.len() == 5);
    } else if i == 41 {
        reveal_strlit("milliliter");
        assert("milliliter"@.len() == 10);
        assert("milliliter"@[0] != "fahrenheit"@[0]);
        assert(default_units()[40].category == default_units()[41].category);
    } else if i == 42 {
        reveal_strlit("gallon");
        assert("gallon"@.len() == 6);
        assert("gallon"@[0] != "kelvin"@[0]);
        assert(default_units()[40].category == default_units()[42].category);
    } else if i == 43 {
        reveal_strlit("quart");
        assert("quart"@.len() == 5);
        assert(default_units()[40].category == default_units()[43].category);
    } else if i == 44 {
        reveal_strlit("pint");
        assert("pint"@.len() == 4);
        assert(default_units()[40].category == default_units()[44].category);
    } else if i == 45 {
        reveal_strlit("cup");
        assert("cup"@.len() == 3);
        assert(default_units()[40].category == default_units()[45].category);
    } else if i == 46 {
        reveal_strlit("tablespoon");
        assert("tablespoon"@.len() == 10);
        assert("tablespoon"@[0] != "fahrenheit"@[0]);
        assert(default_units()[40].category == default_units()[46].category);
    } else if i == 47 {
        reveal_strlit("teaspoon");
        assert("teaspoon"@.len() == 8);
        assert(default_units()[40].category == default_units()[47].category);
    }
}

/// A checked conversion: the bits of the `f64` value to convert and the two
/// units it goes through. The value is converted by
/// `base = (value + from.offset) * from.factor` and
/// `result = base / to.factor - to.offset` in `f64` arithmetic.
#[derive(Debug, Clone, PartialEq)]
pub struct Conversion {
    pub value: u64,
    pub from_unit: Unit,
    pub to_unit: Unit,
}

/// Registry of known units.
pub struct UnitRegistry {
    units: Vec<Unit>,
}

impl View for UnitRegistry {
    type V = Seq<UnitView>;

    closed spec fn view(&self) -> Seq<UnitView> {
        self.units@.map_values(|u: Unit| u@)
    }
}

/// A copy of a unit.
pub(crate) fn copy_unit(u: &Unit) -> (r: Unit)
    ensures
        r@ == u@,
{
    Unit {
        name: u.name.clone(),
        symbol: u.symbol.clone(),
        category: u.category,
        to_base_factor: u.to_base_factor,
        to_base_offset: u.to_base_offset,
        to_base_inverse: u.to_base_inverse,
    }
}

impl Default for UnitRegistry {
    fn default() -> (r: UnitRegistry)
        ensures
            r@ == default_units(),
    {
        UnitRegistry::new()
    }
}

impl UnitRegistry {
    /// Create a new registry populated with the built-in units.
    pub fn new() -> (r: UnitRegistry)
        ensures
            r@ == default_units(),
    {
        let mut reg = UnitRegistry { units: Vec::new() };
        assert(reg@ =~= Seq::<UnitView>::empty());
        reg.populate_defaults();
        reg
    }

    fn add(&mut self, unit: Unit)
        ensures
            final(self)@ == old(self)@.push(unit@),
    {
        self.units.push(unit);
        assert(self@ =~= old(self)@.push(unit@));
    }

    #[verifier::rlimit(100)]
    fn populate_defaults(&mut self)
        requires
            old(self)@ == Seq::<UnitView>::empty(),
        ensures
            final(self)@ == default_units(),
    {
        self.add(Unit::new("meter", "m", UnitCategory::Length, 0x3FF0000000000000, 0));
        self.add(Unit::new("kilometer", "km", UnitCategory::Length, 0x408F400000000000, 0));
        self.add(Unit::new("centimeter", "cm", UnitCategory::Length, 0x3F847AE147AE147B, 0));
        self.add(Unit::new("millimeter", "mm", UnitCategory::Length, 0x3F50624DD2F1A9FC, 0));
        self.add(Unit::new("mile", "mi", UnitCategory::Length, 0x409925604189374C, 0));
        self.add(Unit::new("yard", "yd", UnitCategory::Length, 0x3FED42C3C9EECBFB, 0));
        self.add(Unit::new("foot", "ft", UnitCategory::Length, 0x3FD381D7DBF487FD, 0));
        self.add(Unit::new("inch", "in", UnitCategory::Length, 0x3F9A027525460AA6, 0));
        self.add(Unit::new("nautical_mile", "nmi", UnitCategory::Length, 0x409CF00000000000, 0));
        self.add(Unit::new("kilogram", "kg", UnitCategory::Mass, 0x3FF0000000000000, 0));
        self.add(Unit::new("gram", "g", UnitCategory::Mass, 0x3F50624DD2F1A9FC, 0));
        self.add(Unit::new("milligram", "mg", UnitCategory::Mass, 0x3EB0C6F7A0B5ED8D, 0));
        self.add(Unit::new("pound", "lb", UnitCategory::Mass, 0x3FDD07A6BD6E8AF8, 0));
        self.add(Unit::new("ounce", "oz", UnitCategory::Mass, 0x3F9D07A6BD6E8AF8, 0));
        self.add(Unit::new("ton", "t", UnitCategory::Mass, 0x408F400000000000, 0));
        self.add(Unit::new("stone", "st", UnitCategory::Mass, 0x401966B26BF8769F, 0));
        self.add(Unit::new("celsius", "C", UnitCategory::Temperature, 0x3FF0000000000000, 0));
        self.add(Unit::new("fahrenheit", "F", UnitCategory::Temperature, 0x3FE1C71C71C71C72, 0xC040000000000000));
        self.add(Unit::new("kelvin", "K", UnitCategory::Temperature, 0x3FF0000000000000, 0xC071126666666666));
        self.add(Unit::new("second", "s", UnitCategory::Time, 0x3FF0000000000000, 0));
        self.add(Unit::new("minute", "min", UnitCategory::Time, 0x404E000000000000, 0));
        self.add(Unit::new("hour", "hr", UnitCategory::Time, 0x40AC200000000000, 0));
        self.add(Unit::new("day", "d", UnitCategory::Time, 0x40F5180000000000, 0));
        self.add(Unit::new("week", "wk", UnitCategory::Time, 0x4122750000000000, 0));
        self.add(Unit::new("year", "yr", UnitCategory::Time, 0x417E187E00000000, 0));
        self.add(Unit::new("byte", "B", UnitCategory::DataSize, 0x3FF0000000000000, 0));
        self.add(Unit::new("kilobyte", "KB", UnitCategory::DataSize, 0x4090000000000000, 0));
        self.add(Unit::new("megabyte", "MB", UnitCategory::DataSize, 0x4130000000000000, 0));
        self.add(Unit::new("gigabyte", "GB", UnitCategory::DataSize, 0x41D0000000000000, 0));
        self.add(Unit::new("terabyte", "TB", UnitCategory::DataSize, 0x4270000000000000, 0));
        self.add(Unit::new("petabyte", "PB", UnitCategory::DataSize, 0x4310000000000000, 0));
        self.add(Unit::new("meters_per_second", "m/s", UnitCategory::Speed, 0x3FF0000000000000, 0));
        self.add(Unit::new("kilometers_per_hour", "km/h", UnitCategory::Speed, 0x3FD1C71C71C71C72, 0));
        self.add(Unit::new("miles_per_hour", "mph", UnitCategory::Speed, 0x3FDC9C4DA9003EEA, 0));
        self.add(Unit::new("knot", "kn", UnitCategory::Speed, 0x3FE076534373F317, 0));
        self.add(Unit::new("square_meter", "m2", UnitCategory::Area, 0x3FF0000000000000, 0));
        self.add(Unit::new("square_kilometer", "km2", UnitCategory::Area, 0x412E848000000000, 0));
        self.add(Unit::new("hectare", "ha", UnitCategory::Area, 0x40C3880000000000, 0));
        self.add(Unit::new("acre", "ac", UnitCategory::Area, 0x40AF9DB67CFF2F20, 0));
        self.add(Unit::new("square_foot", "ft2", UnitCategory::Area, 0x3FB7C87DB2B34613, 0));
        self.add(Unit::new("liter", "L", UnitCategory::Volume, 0x3FF0000000000000, 0));
        self.add(Unit::new("milliliter", "mL", UnitCategory::Volume, 0x3F50624DD2F1A9FC, 0));
        self.add(Unit::new("gallon", "gal", UnitCategory::Volume, 0x400E488509BF9C63, 0));
        self.add(Unit::new("quart", "qt", UnitCategory::Volume, 0x3FEE4886162F166E, 0));
        self.add(Unit::new("pint", "pt", UnitCategory::Volume, 0x3FDE4883FD502257, 0));
        self.add(Unit::new("cup", "cup", UnitCategory::Volume, 0x3FCE4883FD502257, 0));
        self.add(Unit::new("tablespoon", "tbsp", UnitCategory::Volume, 0x3F8E488AB34CC906, 0));
        self.add(Unit::new("teaspoon", "tsp", UnitCategory::Volume, 0x3F743058E3460AFC, 0));
        assert(self@ =~= default_units());
    }

    /// Find a unit by name or symbol (case-insensitive), or by a plural name.
    pub fn find_unit(&self, name_or_symbol: &str) -> (r: Option<&Unit>)
        ensures
            match r {
                Some(u) => find_index(self@, name_or_symbol@) matches Some(i) && u@ == self@[i],
                None => find_index(self@, name_or_symbol@) is None,
            },
    {
        let query = to_lowercase(name_or_symbol);
        let ghost lq = query@;
        let ghost us = self@;
        let n = self.units.len();
        let mut i: usize = 0;
        while i < n
            invariant
                n == self.units.len(),
                us == self@,
                us.len() == n,
                lq == unicode_lowercase(name_or_symbol@),
                query@ == lq,
                i <= n,
                first_direct(us, lq, 0) == first_direct(us, lq, i as int),
            decreases n - i,
        {
            let u = &self.units[i];
            assert(us[i as int] == u@);
            let name = to_lowercase(u.name.as_str());
            let symbol = to_lowercase(u.symbol.as_str());
            if name == query || symbol == query {
                return Some(u);
            }
            i = i + 1;
        }
        let qlen = query.unicode_len();
        if qlen > 0 && query.as_str().get_char(qlen - 1) == 's' {
            let singular = query.as_str().substring_char(0, qlen - 1).to_owned();
            assert(singular@ =~= lq.drop_last());
            let mut j: usize = 0;
            while j < n
                invariant
                    n == self.units.len(),
                    us == self@,
                    us.len() == n,
                    lq == unicode_lowercase(name_or_symbol@),
                    lq.len() > 0 && lq.last() == 's',
                    singular@ == lq.drop_last(),
                    j <= n,
                    first_direct(us, lq, 0) is None,
                    first_plural(us, lq, 0) == first_plural(us, lq, j as int),
                decreases n - j,
            {
                let u = &self.units[j];
                assert(us[j as int] == u@);
                let name = to_lowercase(u.name.as_str());
                if name == singular {
                    return Some(u);
                }
                j = j + 1;
            }
            None
        } else {
            assert(forall|k: int| 0 <= k < us.len() ==> !plural_match(#[trigger] us[k], lq));
            proof {
                lemma_no_plural(us, lq, 0);
            }
            None
        }
    }

    /// List all units in a category, in registration order.
    /// Every unit, in registration order.
    pub fn all_units(&self) -> (r: Vec<&Unit>)
        ensures
            r@.map_values(|u: &Unit| u@) == self@,
    {
        let mut r: Vec<&Unit> = Vec::new();
        let n = self.units.len();
        let mut i: usize = 0;
        while i < n
            invariant
                n == self.units.len(),
                i <= n,
                r@.map_values(|u: &Unit| u@) == self@.take(i as int),
            decreases n - i,
        {
            let ghost before = r@;
            r.push(&self.units[i]);
            assert(r@.map_values(|u: &Unit| u@) =~= before.map_values(|u: &Unit| u@).push(self.units[i as int]@));
            assert(self@.take(i + 1) =~= self@.take(i as int).push(self@[i as int]));
            i = i + 1;
        }
        assert(self@.take(n as int) =~= self@);
        r
    }

    pub fn list_units(&self, category: UnitCategory) -> (r: Vec<&Unit>)
        ensures
            r@.map_values(|u: &Unit| u@) == self@.filter(|u: UnitView| u.category == category),
    {
        let ghost us = self@;
        let ghost pred = |u: UnitView| u.category == category;
        let mut r: Vec<&Unit> = Vec::new();
        let n = self.units.len();
        let mut i: usize = 0;
        assert(us.take(0) =~= Seq::<UnitView>::empty());
        assert(r@.map_values(|u: &Unit| u@) =~= us.take(0).filter(pred));
        while i < n
            invariant
                n == self.units.len(),
                us == self@,
                us.len() == n,
                i <= n,
                pred == (|u: UnitView| u.category == category),
                r@.map_values(|u: &Unit| u@) == us.take(i as int).filter(pred),
            decreases n - i,
        {
            reveal_with_fuel(Seq::<_>::filter, 1);
            let u = &self.units[i];
            assert(us[i as int] == u@);
            assert(us.take(i + 1).drop_last() =~= us.take(i as int));
            let ghost before = r@;
            if u.category == category {
                r.push(u);
                assert(r@.map_values(|u: &Unit| u@) =~= before.map_values(|u: &Unit| u@).push(u@));
            }
            i = i + 1;
        }
        assert(us.take(n as int) =~= us);
        r
    }

    /// The listing of one category's units.
    fn category_block(&self, c: UnitCategory) -> (r: String)
        ensures
            r@ == category_block(self@, c),
    {
        let mut s = c.to_string();
        s.append(":\n");
        let units = self.list_units(c);
        let ghost vs = units@.map_values(|u: &Unit| u@);
        let ghost head = s@;
        assert(vs.take(0) =~= Seq::<UnitView>::empty());
        assert(s@ =~= head + unit_lines(vs.take(0)));
        let n = units.len();
        let mut i: usize = 0;
        while i < n
            invariant
                n == units.len(),
                vs == units@.map_values(|u: &Unit| u@),
                i <= n,
                s@ == head + unit_lines(vs.take(i as int)),
            decreases n - i,
        {
            let line = units[i].to_string();
            let ghost before = s@;
            s.append("  ");
            s.append(line.as_str());
            s.append("\n");
            assert(vs.take(i + 1).drop_last() =~= vs.take(i as int));
            assert(vs.take(i + 1).last() == vs[i as int]);
            assert(s@ =~= head + unit_lines(vs.take(i + 1)));
            i = i + 1;
        }
        assert(vs.take(n as int) =~= vs);
        s
    }

    /// The text listing the units of `category`, or of every category (each
    /// category's listing then followed by an empty line).
    pub fn listing(&self, category: Option<UnitCategory>) -> (r: String)
        ensures
            r@ == units_listing(self@, category),
    {
        match category {
            Some(c) => self.category_block(c),
            None => {
                let cats = UnitCategory::all_categories();
                let mut s = String::new();
                assert(cats@.take(0) =~= Seq::<UnitCategory>::empty());
                let n = cats.len();
                let mut i: usize = 0;
                while i < n
                    invariant
                        n == cats.len(),
                        cats@ == category_list(),
                        i <= n,
                        s@ == blocks(self@, cats@.take(i as int)),
                    decreases n - i,
                {
                    let b = self.category_block(cats[i]);
                    s.append(b.as_str());
                    s.append("\n");
                    assert(cats@.take(i + 1).drop_last() =~= cats@.take(i as int));
                    assert(cats@.take(i + 1).last() == cats@[i as int]);
                    assert(s@ =~= blocks(self@, cats@.take(i + 1)));
                    i = i + 1;
                }
                assert(cats@.take(n as int) =~= cats@);
                s
            },
        }
    }

    /// Checks a conversion of the `f64` whose bits are `value` between two
    /// units: both must be known and of the same category. Returns the value
    /// with the two units.
    pub fn convert(&self, value: u64, from: &str, to: &str) -> (r: Result<Conversion, UnitError>)
        ensures
            match (find_index(self@, from@), find_index(self@, to@)) {
                (None, _) => r is Err && r->Err_0@ == UnitErrorView::UnknownUnit(from@),
                (Some(_), None) => r is Err && r->Err_0@ == UnitErrorView::UnknownUnit(to@),
                (Some(i), Some(j)) => if self@[i].category != self@[j].category {
                    r is Err && r->Err_0@ == UnitErrorView::IncompatibleUnits(self@[i].name, self@[j].name)
                } else {
                    r is Ok && r->Ok_0.value == value && r->Ok_0.from_unit@ == self@[i]
                        && r->Ok_0.to_unit@ == self@[j]
                },
            },
    {
        let from_unit = match self.find_unit(from) {
            Some(u) => u,
            None => return Err(UnitError::UnknownUnit(from.to_owned())),
        };
        let to_unit = match self.find_unit(to) {
            Some(u) => u,
            None => return Err(UnitError::UnknownUnit(to.to_owned())),
        };
        if from_unit.category != to_unit.category {
            return Err(UnitError::IncompatibleUnits(from_unit.name.clone(), to_unit.name.clone()));
        }
        Ok(Conversion { value, from_unit: copy_unit(from_unit), to_unit: copy_unit(to_unit) })
    }
}

proof fn lemma_no_plural(us: Seq<UnitView>, lq: Seq<char>, i: int)
    requires
        0 <= i,
        forall|k: int| 0 <= k < us.len() ==> !plural_match(#[trigger] us[k], lq),
    ensures
        first_plural(us, lq, i) is None,
    decreases us.len() - i,
{
    if i < us.len() {
        lemma_no_plural(us, lq, i + 1);
    }
}

} // verus!
