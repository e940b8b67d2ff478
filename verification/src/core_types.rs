//! Core types: unit categories, units and currencies.
//!
//! Real-valued quantities (conversion factors and offsets) are carried as the
//! IEEE-754 bit patterns of `f64` values (`f64::to_bits`), so that the logic in
//! this crate can store, compare and hand them on without doing float
//! arithmetic itself.
use vstd::prelude::*;
use crate::text::{all_ascii, ascii_lower, same_text, to_lowercase, unicode_lowercase};

verus! {

/// Category of physical unit.
#[non_exhaustive]
#[derive(Debug, Clone, Copy, PartialEq, Eq, Hash, Structural)]
pub enum UnitCategory {
    Length,
    Mass,
    Temperature,
    Time,
    DataSize,
    Speed,
    Area,
    Volume,
    Energy,
    Pressure,
    Angle,
    Frequency,
    Force,
    Power,
    FuelEconomy,
    Density,
    Luminosity,
    Viscosity,
}

/// Every category, in declaration order.
pub open spec fn category_list() -> Seq<UnitCategory> {
    seq![
        UnitCategory::Length,
        UnitCategory::Mass,
        UnitCategory::Temperature,
        UnitCategory::Time,
        UnitCategory::DataSize,
        UnitCategory::Speed,
        UnitCategory::Area,
        UnitCategory::Volume,
        UnitCategory::Energy,
        UnitCategory::Pressure,
        UnitCategory::Angle,
        UnitCategory::Frequency,
        UnitCategory::Force,
        UnitCategory::Power,
        UnitCategory::FuelEconomy,
        UnitCategory::Density,
        UnitCategory::Luminosity,
        UnitCategory::Viscosity,
    ]
}

/// The display name of a category.
pub open spec fn category_name(c: UnitCategory) -> Seq<char> {
    match c {
        UnitCategory::Length => "Length"@,
        UnitCategory::Mass => "Mass"@,
        UnitCategory::Temperature => "Temperature"@,
        UnitCategory::Time => "Time"@,
        UnitCategory::DataSize => "Data Size"@,
        UnitCategory::Speed => "Speed"@,
        UnitCategory::Area => "Area"@,
        UnitCategory::Volume => "Volume"@,
        UnitCategory::Energy => "Energy"@,
        UnitCategory::Pressure => "Pressure"@,
        UnitCategory::Angle => "Angle"@,
        UnitCategory::Frequency => "Frequency"@,
        UnitCategory::Force => "Force"@,
        UnitCategory::Power => "Power"@,
        UnitCategory::FuelEconomy => "Fuel Economy"@,
        UnitCategory::Density => "Density"@,
        UnitCategory::Luminosity => "Luminosity"@,
        UnitCategory::Viscosity => "Viscosity"@,
    }
}

/// The category that a lower-case name or alias stands for.
pub open spec fn category_named(l: Seq<char>) -> Option<UnitCategory> {
    if l == "length"@ {
        Some(UnitCategory::Length)
    } else if l == "mass"@ || l == "weight"@ {
        Some(UnitCategory::Mass)
    } else if l == "temperature"@ || l == "temp"@ {
        Some(UnitCategory::Temperature)
    } else if l == "time"@ {
        Some(UnitCategory::Time)
    } else if l == "datasize"@ || l == "data_size"@ || l == "data size"@ || l == "data"@ {
        Some(UnitCategory::DataSize)
    } else if l == "speed"@ || l == "velocity"@ {
        Some(UnitCategory::Speed)
    } else if l == "area"@ {
        Some(UnitCategory::Area)
    } else if l == "volume"@ {
        Some(UnitCategory::Volume)
    } else if l == "energy"@ {
        Some(UnitCategory::Energy)
    } else if l == "pressure"@ {
        Some(UnitCategory::Pressure)
    } else if l == "angle"@ {
        Some(UnitCategory::Angle)
    } else if l == "frequency"@ || l == "freq"@ {
        Some(UnitCategory::Frequency)
    } else if l == "force"@ {
        Some(UnitCategory::Force)
    } else if l == "power"@ || l == "wattage"@ {
        Some(UnitCategory::Power)
    } else if l == "fueleconomy"@ || l == "fuel_economy"@ || l == "fuel economy"@ || l
        == "fuel"@ || l == "mpg"@ {
        Some(UnitCategory::FuelEconomy)
    } else if l == "density"@ {
        Some(UnitCategory::Density)
    } else if l == "luminosity"@ || l == "light"@ || l == "illuminance"@ {
        Some(UnitCategory::Luminosity)
    } else if l == "viscosity"@ {
        Some(UnitCategory::Viscosity)
    } else {
        None
    }
}

impl UnitCategory {
    /// Returns all `UnitCategory` variants, in declaration order.
    pub fn all_categories() -> (r: Vec<UnitCategory>)
        ensures
            r@ == category_list(),
    {
        let r = vec![
            UnitCategory::Length,
            UnitCategory::Mass,
            UnitCategory::Temperature,
            UnitCategory::Time,
            UnitCategory::DataSize,
            UnitCategory::Speed,
            UnitCategory::Area,
            UnitCategory::Volume,
            UnitCategory::Energy,
            UnitCategory::Pressure,
            UnitCategory::Angle,
            UnitCategory::Frequency,
            UnitCategory::Force,
            UnitCategory::Power,
            UnitCategory::FuelEconomy,
            UnitCategory::Density,
            UnitCategory::Luminosity,
            UnitCategory::Viscosity,
        ];
        assert(r@ =~= category_list());
        r
    }

    /// The display name ("Length", "Data Size", ...).
    pub fn to_string(&self) -> (r: String)
        ensures
            r@ == category_name(*self),
    {
        let s = match self {
            UnitCategory::Length => "Length",
            UnitCategory::Mass => "Mass",
            UnitCategory::Temperature => "Temperature",
            UnitCategory::Time => "Time",
            UnitCategory::DataSize => "Data Size",
            UnitCategory::Speed => "Speed",
            UnitCategory::Area => "Area",
            UnitCategory::Volume => "Volume",
            UnitCategory::Energy => "Energy",
            UnitCategory::Pressure => "Pressure",
            UnitCategory::Angle => "Angle",
            UnitCategory::Frequency => "Frequency",
            UnitCategory::Force => "Force",
            UnitCategory::Power => "Power",
            UnitCategory::FuelEconomy => "Fuel Economy",
            UnitCategory::Density => "Density",
            UnitCategory::Luminosity => "Luminosity",
            UnitCategory::Viscosity => "Viscosity",
        };
        s.to_owned()
    }

    /// Parses a category name or alias, ignoring case.
    pub fn from_str(s: &str) -> (r: Result<UnitCategory, String>)
        ensures
            match r {
                Ok(c) => category_named(unicode_lowercase(s@)) == Some(c),
                Err(msg) => category_named(unicode_lowercase(s@)) is None && msg@ == "unknown unit category: '"@
                    + s@ + "'"@,
            },
    {
        let l = to_lowercase(s);
        if same_text(&l, "length") {
            Ok(UnitCategory::Length)
        } else if same_text(&l, "mass") || same_text(&l, "weight") {
            Ok(UnitCategory::Mass)
        } else if same_text(&l, "temperature") || same_text(&l, "temp") {
            Ok(UnitCategory::Temperature)
        } else if same_text(&l, "time") {
            Ok(UnitCategory::Time)
        } else if same_text(&l, "datasize") || same_text(&l, "data_size") || same_text(
            &l,
            "data size",
        ) || same_text(&l, "data") {
            Ok(UnitCategory::DataSize)
        } else if same_text(&l, "speed") || same_text(&l, "velocity") {
            Ok(UnitCategory::Speed)
        } else if same_text(&l, "area") {
            Ok(UnitCategory::Area)
        } else if same_text(&l, "volume") {
            Ok(UnitCategory::Volume)
        } else if same_text(&l, "energy") {
            Ok(UnitCategory::Energy)
        } else if same_text(&l, "pressure") {
            Ok(UnitCategory::Pressure)
        } else if same_text(&l, "angle") {
            Ok(UnitCategory::Angle)
        } else if same_text(&l, "frequency") || same_text(&l, "freq") {
            Ok(UnitCategory::Frequency)
        } else if same_text(&l, "force") {
            Ok(UnitCategory::Force)
        } else if same_text(&l, "power") || same_text(&l, "wattage") {
            Ok(UnitCategory::Power)
        } else if same_text(&l, "fueleconomy") || same_text(&l, "fuel_economy") || same_text(
            &l,
            "fuel economy",
        ) || same_text(&l, "fuel") || same_text(&l, "mpg") {
            Ok(UnitCategory::FuelEconomy)
        } else if same_text(&l, "density") {
            Ok(UnitCategory::Density)
        } else if same_text(&l, "luminosity") || same_text(&l, "light") || same_text(
            &l,
            "illuminance",
        ) {
            Ok(UnitCategory::Luminosity)
        } else if same_text(&l, "viscosity") {
            Ok(UnitCategory::Viscosity)
        } else {
            let mut msg = "unknown unit category: '".to_owned();
            msg.append(s);
            msg.append("'");
            Err(msg)
        }
    }
}

/// A physical or digital unit of measurement.
#[derive(Debug, Clone, PartialEq)]
pub struct Unit {
    pub name: String,
    pub symbol: String,
    pub category: UnitCategory,
    /// Bits of the `f64` to multiply by to reach the category's base unit.
    pub to_base_factor: u64,
    /// Bits of the `f64` offset added before multiplication (used for temperature).
    pub to_base_offset: u64,
    /// If true, conversion is reciprocal: `base = factor / value` (used for fuel economy).
    pub to_base_inverse: bool,
}

impl Unit {
    /// A unit with a linear conversion to its base unit.
    pub fn new(name: &str, symbol: &str, category: UnitCategory, to_base_factor: u64, to_base_offset: u64) -> (r: Unit)
        ensures
            r.name@ == name@,
            r.symbol@ == symbol@,
            r.category == category,
            r.to_base_factor == to_base_factor,
            r.to_base_offset == to_base_offset,
            !r.to_base_inverse,
    {
        Unit {
            name: name.to_owned(),
            symbol: symbol.to_owned(),
            category,
            to_base_factor,
            to_base_offset,
            to_base_inverse: false,
        }
    }

    /// A unit with reciprocal conversion (e.g., L/100km where base = factor / value);
    /// its offset is `0.0` (bit pattern 0).
    pub fn new_inverse(name: &str, symbol: &str, category: UnitCategory, to_base_factor: u64) -> (r: Unit)
        ensures
            r.name@ == name@,
            r.symbol@ == symbol@,
            r.category == category,
            r.to_base_factor == to_base_factor,
            r.to_base_offset == 0,
            r.to_base_inverse,
    {
        Unit {
            name: name.to_owned(),
            symbol: symbol.to_owned(),
            category,
            to_base_factor,
            to_base_offset: 0,
            to_base_inverse: true,
        }
    }

    /// "name (symbol)".
    pub fn to_string(&self) -> (r: String)
        ensures
            r@ == self.name@ + " ("@ + self.symbol@ + ")"@,
    {
        let mut s = self.name.clone();
        s.append(" (");
        s.append(self.symbol.as_str());
        s.append(")");
        s
    }
}

/// A currency for conversion.
#[derive(Debug, Clone, PartialEq)]
pub struct Currency {
    pub code: String,
    pub name: String,
    pub symbol: String,
}

impl Currency {
    pub fn new(code: &str, name: &str, symbol: &str) -> (r: Currency)
        ensures
            r.code@ == code@,
            r.name@ == name@,
            r.symbol@ == symbol@,
    {
        Currency { code: code.to_owned(), name: name.to_owned(), symbol: symbol.to_owned() }
    }

    /// "code (symbol) name".
    pub fn to_string(&self) -> (r: String)
        ensures
            r@ == self.code@ + " ("@ + self.symbol@ + ") "@ + self.name@,
    {
        let mut s = self.code.clone();
        s.append(" (");
        s.append(self.symbol.as_str());
        s.append(") ");
        s.append(self.name.as_str());
        s
    }
}

/// Each category occurs in `category_list` exactly once.
pub proof fn lemma_category_list_complete(c: UnitCategory)
    ensures
        category_list().contains(c),
        forall|i: int, j: int|
            0 <= i < j < category_list().len() ==> category_list()[i] != category_list()[j],
{
    match c {
        UnitCategory::Length => assert(category_list()[0] == c),
        UnitCategory::Mass => assert(category_list()[1] == c),
        UnitCategory::Temperature => assert(category_list()[2] == c),
        UnitCategory::Time => assert(category_list()[3] == c),
        UnitCategory::DataSize => assert(category_list()[4] == c),
        UnitCategory::Speed => assert(category_list()[5] == c),
        UnitCategory::Area => assert(category_list()[6] == c),
        UnitCategory::Volume => assert(category_list()[7] == c),
        UnitCategory::Energy => assert(category_list()[8] == c),
        UnitCategory::Pressure => assert(category_list()[9] == c),
        UnitCategory::Angle => assert(category_list()[10] == c),
        UnitCategory::Frequency => assert(category_list()[11] == c),
        UnitCategory::Force => assert(category_list()[12] == c),
        UnitCategory::Power => assert(category_list()[13] == c),
        UnitCategory::FuelEconomy => assert(category_list()[14] == c),
        UnitCategory::Density => assert(category_list()[15] == c),
        UnitCategory::Luminosity => assert(category_list()[16] == c),
        UnitCategory::Viscosity => assert(category_list()[17] == c),
    }
}

/// The category names and aliases that `from_str` accepts (after lower-casing
/// its input): exactly these, each naming its category.
pub open spec fn category_aliases() -> Set<Seq<char>> {
    set!["length"@, "mass"@, "weight"@, "temperature"@, "temp"@, "time"@, "datasize"@, "data_size"@, "data size"@, "data"@, "speed"@, "velocity"@, "area"@, "volume"@, "energy"@, "pressure"@, "angle"@, "frequency"@, "freq"@, "force"@, "power"@, "wattage"@, "fueleconomy"@, "fuel_economy"@, "fuel economy"@, "fuel"@, "mpg"@, "density"@, "luminosity"@, "light"@, "illuminance"@, "viscosity"@]
}

/// Each name or alias parses to its category (`datasize`, `data_size`,
/// `data size` and `data` to Data Size, `mpg` to Fuel Economy, and so on), and
/// no other lower-case text names a category. `from_str` answers
/// `Ok(category_named(l))` for an input whose lower-case form is `l`, and an
/// error exactly when that is none.
pub proof fn lemma_category_aliases(l: Seq<char>)
    ensures
        category_named("length"@) == Some(UnitCategory::Length),
        category_named("mass"@) == Some(UnitCategory::Mass),
        category_named("weight"@) == Some(UnitCategory::Mass),
        category_named("temperature"@) == Some(UnitCategory::Temperature),
        category_named("temp"@) == Some(UnitCategory::Temperature),
        category_named("time"@) == Some(UnitCategory::Time),
        category_named("datasize"@) == Some(UnitCategory::DataSize),
        category_named("data_size"@) == Some(UnitCategory::DataSize),
        category_named("data size"@) == Some(UnitCategory::DataSize),
        category_named("data"@) == Some(UnitCategory::DataSize),
        category_named("speed"@) == Some(UnitCategory::Speed),
        category_named("velocity"@) == Some(UnitCategory::Speed),
        category_named("area"@) == Some(UnitCategory::Area),
        category_named("volume"@) == Some(UnitCategory::Volume),
        category_named("energy"@) == Some(UnitCategory::Energy),
        category_named("pressure"@) == Some(UnitCategory::Pressure),
        category_named("angle"@) == Some(UnitCategory::Angle),
        category_named("frequency"@) == Some(UnitCategory::Frequency),
        category_named("freq"@) == Some(UnitCategory::Frequency),
        category_named("force"@) == Some(UnitCategory::Force),
        category_named("power"@) == Some(UnitCategory::Power),
        category_named("wattage"@) == Some(UnitCategory::Power),
        category_named("fueleconomy"@) == Some(UnitCategory::FuelEconomy),
        category_named("fuel_economy"@) == Some(UnitCategory::FuelEconomy),
        category_named("fuel economy"@) == Some(UnitCategory::FuelEconomy),
        category_named("fuel"@) == Some(UnitCategory::FuelEconomy),
        category_named("mpg"@) == Some(UnitCategory::FuelEconomy),
        category_named("density"@) == Some(UnitCategory::Density),
        category_named("luminosity"@) == Some(UnitCategory::Luminosity),
        category_named("light"@) == Some(UnitCategory::Luminosity),
        category_named("illuminance"@) == Some(UnitCategory::Luminosity),
        category_named("viscosity"@) == Some(UnitCategory::Viscosity),
        category_named(l) is Some <==> category_aliases().contains(l),
{
    reveal_strlit("length");
    reveal_strlit("mass");
    reveal_strlit("weight");
    reveal_strlit("temperature");
    reveal_strlit("temp");
    reveal_strlit("time");
    reveal_strlit("datasize");
    reveal_strlit("data_size");
    reveal_strlit("data size");
    reveal_strlit("data");
    reveal_strlit("speed");
    reveal_strlit("velocity");
    reveal_strlit("area");
    reveal_strlit("volume");
    reveal_strlit("energy");
    reveal_strlit("pressure");
    reveal_strlit("angle");
    reveal_strlit("frequency");
    reveal_strlit("freq");
    reveal_strlit("force");
    reveal_strlit("power");
    reveal_strlit("wattage");
    reveal_strlit("fueleconomy");
    reveal_strlit("fuel_economy");
    reveal_strlit("fuel economy");
    reveal_strlit("fuel");
    reveal_strlit("mpg");
    reveal_strlit("density");
    reveal_strlit("luminosity");
    reveal_strlit("light");
    reveal_strlit("illuminance");
    reveal_strlit("viscosity");
    assert("length"@.len() == 6);
    assert("mass"@.len() == 4);
    assert("weight"@.len() == 6);
    assert("temperature"@.len() == 11);
    assert("temp"@.len() == 4);
    assert("time"@.len() == 4);
    assert("datasize"@.len() == 8);
    assert("data_size"@.len() == 9);
    assert("data size"@.len() == 9);
    assert("data"@.len() == 4);
    assert("speed"@.len() == 5);
    assert("velocity"@.len() == 8);
    assert("area"@.len() == 4);
    assert("volume"@.len() == 6);
    assert("energy"@.len() == 6);
    assert("pressure"@.len() == 8);
    assert("angle"@.len() == 5);
    assert("frequency"@.len() == 9);
    assert("freq"@.len() == 4);
    assert("force"@.len() == 5);
    assert("power"@.len() == 5);
    assert("wattage"@.len() == 7);
    assert("fueleconomy"@.len() == 11);
    assert("fuel_economy"@.len() == 12);
    assert("fuel economy"@.len() == 12);
    assert("fuel"@.len() == 4);
    assert("mpg"@.len() == 3);
    assert("density"@.len() == 7);
    assert("luminosity"@.len() == 10);
    assert("light"@.len() == 5);
    assert("illuminance"@.len() == 11);
    assert("viscosity"@.len() == 9);
    assert("weight"@[0] != "length"@[0]);
    assert("temp"@[0] != "mass"@[0]);
    assert("time"@[0] != "mass"@[0]);
    assert("time"@[1] != "temp"@[1]);
    assert("data size"@[4] != "data_size"@[4]);
    assert("data"@[0] != "mass"@[0]);
    assert("data"@[0] != "temp"@[0]);
    assert("data"@[0] != "time"@[0]);
    assert("velocity"@[0] != "datasize"@[0]);
    assert("area"@[0] != "mass"@[0]);
    assert("area"@[0] != "temp"@[0]);
    assert("area"@[0] != "time"@[0]);
    assert("area"@[0] != "data"@[0]);
    assert("volume"@[0] != "length"@[0]);
    assert("volume"@[0] != "weight"@[0]);
    assert("energy"@[0] != "length"@[0]);
    assert("energy"@[0] != "weight"@[0]);
    assert("energy"@[0] != "volume"@[0]);
    assert("pressure"@[0] != "datasize"@[0]);
    assert("pressure"@[0] != "velocity"@[0]);
    assert("angle"@[0] != "speed"@[0]);
    assert("frequency"@[0] != "data_size"@[0]);
    assert("frequency"@[0] != "data size"@[0]);
    assert("freq"@[0] != "mass"@[0]);
    assert("freq"@[0] != "temp"@[0]);
    assert("freq"@[0] != "time"@[0]);
    assert("freq"@[0] != "data"@[0]);
    assert("freq"@[0] != "area"@[0]);
    assert("force"@[0] != "speed"@[0]);
    assert("force"@[0] != "angle"@[0]);
    assert("power"@[0] != "speed"@[0]);
    assert("power"@[0] != "angle"@[0]);
    assert("power"@[0] != "force"@[0]);
    assert("fueleconomy"@[0] != "temperature"@[0]);
    assert("fuel economy"@[4] != "fuel_economy"@[4]);
    assert("fuel"@[0] != "mass"@[0]);
    assert("fuel"@[0] != "temp"@[0]);
    assert("fuel"@[0] != "time"@[0]);
    assert("fuel"@[0] != "data"@[0]);
    assert("fuel"@[0] != "area"@[0]);
    assert("fuel"@[1] != "freq"@[1]);
    assert("density"@[0] != "wattage"@[0]);
    assert("light"@[0] != "speed"@[0]);
    assert("light"@[0] != "angle"@[0]);
    assert("light"@[0] != "force"@[0]);
    assert("light"@[0] != "power"@[0]);
    assert("illuminance"@[0] != "temperature"@[0]);
    assert("illuminance"@[0] != "fueleconomy"@[0]);
    assert("viscosity"@[0] != "data_size"@[0]);
    assert("viscosity"@[0] != "data size"@[0]);
    assert("viscosity"@[0] != "frequency"@[0]);
}

/// A category's display name is ASCII, and its lower-case form names that same
/// category; so `from_str` of a category's `to_string` gives the category back.
pub proof fn lemma_category_name_round_trip(c: UnitCategory)
    ensures
        all_ascii(category_name(c)),
        category_named(ascii_lower(category_name(c))) == Some(c),
{
        reveal_strlit("length");
        reveal_strlit("mass");
        reveal_strlit("weight");
        reveal_strlit("temperature");
        reveal_strlit("temp");
        reveal_strlit("time");
        reveal_strlit("datasize");
        reveal_strlit("data_size");
        reveal_strlit("data size");
        reveal_strlit("data");
        reveal_strlit("speed");
        reveal_strlit("velocity");
        reveal_strlit("area");
        reveal_strlit("volume");
        reveal_strlit("energy");
        reveal_strlit("pressure");
        reveal_strlit("angle");
        reveal_strlit("frequency");
        reveal_strlit("freq");
        reveal_strlit("force");
        reveal_strlit("power");
        reveal_strlit("wattage");
        reveal_strlit("fueleconomy");
        reveal_strlit("fuel_economy");
        reveal_strlit("fuel economy");
        reveal_strlit("fuel");
        reveal_strlit("mpg");
        reveal_strlit("density");
        reveal_strlit("luminosity");
        reveal_strlit("light");
        reveal_strlit("illuminance");
        reveal_strlit("viscosity");
    match c {
        UnitCategory::Length => {
            reveal_strlit("Length");
            assert(ascii_lower(category_name(c)) =~= "length"@);
            assert(category_named("length"@) == Some(c));
        },
        UnitCategory::Mass => {
            reveal_strlit("Mass");
            assert(ascii_lower(category_name(c)) =~= "mass"@);
            assert(category_named("mass"@) == Some(c));
        },
        UnitCategory::Temperature => {
            reveal_strlit("Temperature");
            assert(ascii_lower(category_name(c)) =~= "temperature"@);
            assert(category_named("temperature"@) == Some(c));
        },
        UnitCategory::Time => {
            reveal_strlit("Time");
            assert(ascii_lower(category_name(c)) =~= "time"@);
            assert("time"@[0] != "mass"@[0]);
            assert("time"@[1] != "temp"@[1]);
            assert(category_named("time"@) == Some(c));
        },
        UnitCategory::DataSize => {
            reveal_strlit("Data Size");
            assert(ascii_lower(category_name(c)) =~= "data size"@);
            assert("data size"@[4] != "data_size"@[4]);
            assert(category_named("data size"@) == Some(c));
        },
        UnitCategory::Speed => {
            reveal_strlit("Speed");
            assert(ascii_lower(category_name(c)) =~= "speed"@);
            assert(category_named("speed"@) == Some(c));
        },
        UnitCategory::Area => {
            reveal_strlit("Area");
            assert(ascii_lower(category_name(c)) =~= "area"@);
            assert("area"@[0] != "mass"@[0]);
            assert("area"@[0] != "temp"@[0]);
            assert("area"@[0] != "time"@[0]);
            assert("area"@[0] != "data"@[0]);
            assert(category_named("area"@) == Some(c));
        },
        UnitCategory::Volume => {
            reveal_strlit("Volume");
            assert(ascii_lower(category_name(c)) =~= "volume"@);
            assert("volume"@[0] != "length"@[0]);
            assert("volume"@[0] != "weight"@[0]);
            assert(category_named("volume"@) == Some(c));
        },
        UnitCategory::Energy => {
            reveal_strlit("Energy");
            assert(ascii_lower(category_name(c)) =~= "energy"@);
            assert("energy"@[0] != "length"@[0]);
            assert("energy"@[0] != "weight"@[0]);
            assert("energy"@[0] != "volume"@[0]);
            assert(category_named("energy"@) == Some(c));
        },
        UnitCategory::Pressure => {
            reveal_strlit("Pressure");
            assert(ascii_lower(category_name(c)) =~= "pressure"@);
            assert("pressure"@[0] != "datasize"@[0]);
            assert("pressure"@[0] != "velocity"@[0]);
            assert(category_named("pressure"@) == Some(c));
        },
        UnitCategory::Angle => {
            reveal_strlit("Angle");
            assert(ascii_lower(category_name(c)) =~= "angle"@);
            assert("angle"@[0] != "speed"@[0]);
            assert(category_named("angle"@) == Some(c));
        },
        UnitCategory::Frequency => {
            reveal_strlit("Frequency");
            assert(ascii_lower(category_name(c)) =~= "frequency"@);
            assert("frequency"@[0] != "data_size"@[0]);
            assert("frequency"@[0] != "data size"@[0]);
            assert(category_named("frequency"@) == Some(c));
        },
        UnitCategory::Force => {
            reveal_strlit("Force");
            assert(ascii_lower(category_name(c)) =~= "force"@);
            assert("force"@[0] != "speed"@[0]);
            assert("force"@[0] != "angle"@[0]);
            assert(category_named("force"@) == Some(c));
        },
        UnitCategory::Power => {
            reveal_strlit("Power");
            assert(ascii_lower(category_name(c)) =~= "power"@);
            assert("power"@[0] != "speed"@[0]);
            assert("power"@[0] != "angle"@[0]);
            assert("power"@[0] != "force"@[0]);
            assert(category_named("power"@) == Some(c));
        },
        UnitCategory::FuelEconomy => {
            reveal_strlit("Fuel Economy");
            assert(ascii_lower(category_name(c)) =~= "fuel economy"@);
            assert("fuel economy"@[4] != "fuel_economy"@[4]);
            assert(category_named("fuel economy"@) == Some(c));
        },
        UnitCategory::Density => {
            reveal_strlit("Density");
            assert(ascii_lower(category_name(c)) =~= "density"@);
            assert("density"@[0] != "wattage"@[0]);
            assert(category_named("density"@) == Some(c));
        },
        UnitCategory::Luminosity => {
            reveal_strlit("Luminosity");
            assert(ascii_lower(category_name(c)) =~= "luminosity"@);
            assert(category_named("luminosity"@) == Some(c));
        },
        UnitCategory::Viscosity => {
            reveal_strlit("Viscosity");
            assert(ascii_lower(category_name(c)) =~= "viscosity"@);
            assert("viscosity"@[0] != "data_size"@[0]);
            assert("viscosity"@[0] != "data size"@[0]);
            assert("viscosity"@[0] != "frequency"@[0]);
            assert(category_named("viscosity"@) == Some(c));
        },
    }
}

} // verus!
