use abaco::core_types::UnitCategory;
use abaco::units::{Conversion, UnitError, UnitRegistry};

fn reg() -> UnitRegistry {
    UnitRegistry::new()
}

/// The float arithmetic of a checked conversion, as its documentation states it.
fn apply(c: &Conversion) -> f64 {
    let value = f64::from_bits(c.value);
    let base = (value + f64::from_bits(c.from_unit.to_base_offset)) * f64::from_bits(c.from_unit.to_base_factor);
    base / f64::from_bits(c.to_unit.to_base_factor) - f64::from_bits(c.to_unit.to_base_offset)
}

fn convert(value: f64, from: &str, to: &str) -> Result<f64, UnitError> {
    reg().convert(value.to_bits(), from, to).map(|c| apply(&c))
}

#[test]
fn test_km_to_miles() {
    let r = convert(1.0, "km", "mi").unwrap();
    assert!((r - 0.621371).abs() < 0.001);
}

#[test]
fn test_miles_to_km() {
    let r = convert(1.0, "mi", "km").unwrap();
    assert!((r - 1.60934).abs() < 0.001);
}

#[test]
fn test_celsius_to_fahrenheit() {
    let r = convert(100.0, "celsius", "fahrenheit").unwrap();
    assert!((r - 212.0).abs() < 0.1);
}

#[test]
fn test_fahrenheit_to_celsius() {
    let r = convert(32.0, "fahrenheit", "celsius").unwrap();
    assert!(r.abs() < 0.1);
}

#[test]
fn test_celsius_to_kelvin() {
    let r = convert(0.0, "celsius", "kelvin").unwrap();
    assert!((r - 273.15).abs() < 0.1);
}

#[test]
fn test_kg_to_pounds() {
    let r = convert(1.0, "kg", "lb").unwrap();
    assert!((r - 2.20462).abs() < 0.001);
}

#[test]
fn test_bytes_to_gb() {
    let r = convert(1_073_741_824.0, "byte", "GB").unwrap();
    assert!((r - 1.0).abs() < 0.001);
}

#[test]
fn test_gallons_to_liters() {
    let r = convert(1.0, "gallon", "liter").unwrap();
    assert!((r - 3.78541).abs() < 0.001);
}

#[test]
fn test_liters_to_gallons() {
    let r = convert(3.78541, "liter", "gallon").unwrap();
    assert!((r - 1.0).abs() < 0.001);
}

#[test]
fn test_find_unit_case_insensitive() {
    let r = reg();
    assert!(r.find_unit("Kilometer").is_some());
    assert!(r.find_unit("KM").is_some());
}

#[test]
fn test_find_unit_plural() {
    let r = reg();
    assert!(r.find_unit("meters").is_some());
}

#[test]
fn test_unknown_unit() {
    let result = reg().convert(1.0f64.to_bits(), "foo", "bar");
    assert!(result.is_err());
}

#[test]
fn test_incompatible_units() {
    let result = reg().convert(1.0f64.to_bits(), "km", "kg");
    assert!(result.is_err());
}

#[test]
fn test_list_units_length() {
    let r = reg();
    let units = r.list_units(UnitCategory::Length);
    assert!(units.len() >= 9);
}

#[test]
fn test_hours_to_minutes() {
    let r = convert(2.0, "hour", "minute").unwrap();
    assert!((r - 120.0).abs() < 0.1);
}

/// The built-in table: every unit is found by its name and by its symbol, in
/// its category, with the factor and offset written as `f64` values.
#[test]
fn builtin_table_values() {
    let table: Vec<(&str, &str, UnitCategory, f64, f64)> = vec![
        ("meter", "m", UnitCategory::Length, 1.0, 0.0),
        ("kilometer", "km", UnitCategory::Length, 1000.0, 0.0),
        ("centimeter", "cm", UnitCategory::Length, 0.01, 0.0),
        ("millimeter", "mm", UnitCategory::Length, 0.001, 0.0),
        ("mile", "mi", UnitCategory::Length, 1609.344, 0.0),
        ("yard", "yd", UnitCategory::Length, 0.9144, 0.0),
        ("foot", "ft", UnitCategory::Length, 0.3048, 0.0),
        ("inch", "in", UnitCategory::Length, 0.0254, 0.0),
        ("nautical_mile", "nmi", UnitCategory::Length, 1852.0, 0.0),
        ("kilogram", "kg", UnitCategory::Mass, 1.0, 0.0),
        ("gram", "g", UnitCategory::Mass, 0.001, 0.0),
        ("milligram", "mg", UnitCategory::Mass, 1e-06, 0.0),
        ("pound", "lb", UnitCategory::Mass, 0.453592, 0.0),
        ("ounce", "oz", UnitCategory::Mass, 0.0283495, 0.0),
        ("ton", "t", UnitCategory::Mass, 1000.0, 0.0),
        ("stone", "st", UnitCategory::Mass, 6.35029, 0.0),
        ("celsius", "C", UnitCategory::Temperature, 1.0, 0.0),
        ("fahrenheit", "F", UnitCategory::Temperature, 5.0 / 9.0, -32.0),
        ("kelvin", "K", UnitCategory::Temperature, 1.0, -273.15),
        ("second", "s", UnitCategory::Time, 1.0, 0.0),
        ("minute", "min", UnitCategory::Time, 60.0, 0.0),
        ("hour", "hr", UnitCategory::Time, 3600.0, 0.0),
        ("day", "d", UnitCategory::Time, 86400.0, 0.0),
        ("week", "wk", UnitCategory::Time, 604800.0, 0.0),
        ("year", "yr", UnitCategory::Time, 31557600.0, 0.0),
        ("byte", "B", UnitCategory::DataSize, 1.0, 0.0),
        ("kilobyte", "KB", UnitCategory::DataSize, 1024.0, 0.0),
        ("megabyte", "MB", UnitCategory::DataSize, 1048576.0, 0.0),
        ("gigabyte", "GB", UnitCategory::DataSize, 1073741824.0, 0.0),
        ("terabyte", "TB", UnitCategory::DataSize, 1099511627776.0, 0.0),
        ("petabyte", "PB", UnitCategory::DataSize, 1125899906842624.0, 0.0),
        ("meters_per_second", "m/s", UnitCategory::Speed, 1.0, 0.0),
        ("kilometers_per_hour", "km/h", UnitCategory::Speed, 1.0 / 3.6, 0.0),
        ("miles_per_hour", "mph", UnitCategory::Speed, 0.44704, 0.0),
        ("knot", "kn", UnitCategory::Speed, 0.514444, 0.0),
        ("square_meter", "m2", UnitCategory::Area, 1.0, 0.0),
        ("square_kilometer", "km2", UnitCategory::Area, 1000000.0, 0.0),
        ("hectare", "ha", UnitCategory::Area, 10000.0, 0.0),
        ("acre", "ac", UnitCategory::Area, 4046.8564224, 0.0),
        ("square_foot", "ft2", UnitCategory::Area, 0.092903, 0.0),
        ("liter", "L", UnitCategory::Volume, 1.0, 0.0),
        ("milliliter", "mL", UnitCategory::Volume, 0.001, 0.0),
        ("gallon", "gal", UnitCategory::Volume, 3.78541, 0.0),
        ("quart", "qt", UnitCategory::Volume, 0.946353, 0.0),
        ("pint", "pt", UnitCategory::Volume, 0.473176, 0.0),
        ("cup", "cup", UnitCategory::Volume, 0.236588, 0.0),
        ("tablespoon", "tbsp", UnitCategory::Volume, 0.0147868, 0.0),
        ("teaspoon", "tsp", UnitCategory::Volume, 0.00492892, 0.0),
    ];
    let r = reg();
    for (name, symbol, category, factor, offset) in &table {
        let by_name = r.find_unit(name).unwrap();
        let by_symbol = r.find_unit(symbol).unwrap();
        assert_eq!(by_name, by_symbol);
        assert_eq!(by_name.name, *name);
        assert_eq!(by_name.symbol, *symbol);
        assert_eq!(by_name.category, *category);
        assert_eq!(by_name.to_base_factor, factor.to_bits(), "{name}");
        assert_eq!(by_name.to_base_offset, offset.to_bits(), "{name}");
        assert!(!by_name.to_base_inverse);
    }
    let total: usize = UnitCategory::all_categories().iter().map(|c| r.list_units(*c).len()).sum();
    assert_eq!(total, table.len());
}

#[test]
fn list_units_keeps_registration_order() {
    let r = reg();
    let names: Vec<&str> = r.list_units(UnitCategory::Temperature).iter().map(|u| u.name.as_str()).collect();
    assert_eq!(names, vec!["celsius", "fahrenheit", "kelvin"]);
    assert!(r.list_units(UnitCategory::Energy).is_empty());
}

#[test]
fn find_unit_ignores_case_and_plural() {
    let r = reg();
    assert_eq!(r.find_unit("kIlOmEtErS").unwrap().symbol, "km");
    assert_eq!(r.find_unit("ml").unwrap().name, "milliliter");
    assert_eq!(r.find_unit("ML").unwrap().name, "milliliter");
    assert!(r.find_unit("s").is_some());
    assert_eq!(r.find_unit("s").unwrap().name, "second");
    assert!(r.find_unit("gas").is_none());
    assert!(r.find_unit("").is_none());
}

#[test]
fn convert_errors_name_the_units() {
    let r = reg();
    assert_eq!(
        r.convert(0, "foo", "km").unwrap_err(),
        UnitError::UnknownUnit("foo".to_string())
    );
    assert_eq!(
        r.convert(0, "km", "bar").unwrap_err(),
        UnitError::UnknownUnit("bar".to_string())
    );
    assert_eq!(
        r.convert(0, "foo", "bar").unwrap_err(),
        UnitError::UnknownUnit("foo".to_string())
    );
    let e = r.convert(0, "KM", "kg").unwrap_err();
    assert_eq!(e, UnitError::IncompatibleUnits("kilometer".to_string(), "kilogram".to_string()));
    assert_eq!(e.to_string(), "Incompatible units: kilometer and kilogram are different categories");
    assert_eq!(UnitError::UnknownUnit("x".to_string()).to_string(), "Unknown unit: x");
    assert_eq!(UnitError::ConversionError("y".to_string()).to_string(), "Conversion error: y");
}

#[test]
fn convert_returns_value_and_units() {
    let c = reg().convert(5.0f64.to_bits(), "km", "miles").unwrap();
    assert_eq!(f64::from_bits(c.value), 5.0);
    assert_eq!(c.from_unit.symbol, "km");
    assert_eq!(c.to_unit.symbol, "mi");
}

#[test]
fn default_registry_equals_new() {
    let a = UnitRegistry::default();
    assert_eq!(a.list_units(UnitCategory::Volume).len(), 8);
}

#[test]
fn listing_of_one_category() {
    let text = reg().listing(Some(UnitCategory::Temperature));
    assert_eq!(text, "Temperature:\n  celsius (C)\n  fahrenheit (F)\n  kelvin (K)\n");
}

#[test]
fn listing_of_all_categories() {
    let text = reg().listing(None);
    assert!(text.starts_with("Length:\n  meter (m)\n  kilometer (km)\n"));
    assert!(text.contains("\n\nMass:\n  kilogram (kg)\n"));
    assert!(text.contains("\n\nEnergy:\n\nPressure:\n\n"));
    assert!(text.ends_with("Viscosity:\n\n"));
    assert_eq!(abaco::text::trim_end(&text), text.trim_end());
}

#[test]
fn default_names_and_symbols_are_distinct_ignoring_case() {
    let r = UnitRegistry::new();
    let mut seen: Vec<(String, usize)> = Vec::new();
    let mut index = 0;
    for c in UnitCategory::all_categories() {
        for u in r.list_units(c) {
            for w in [u.name.to_lowercase(), u.symbol.to_lowercase()] {
                if let Some((_, other)) = seen.iter().find(|(s, _)| *s == w) {
                    assert_eq!(*other, index, "{w} is shared by two units");
                }
                seen.push((w, index));
            }
            index += 1;
        }
    }
    assert_eq!(index, 48);
}

#[test]
fn first_unit_of_each_category_is_its_base() {
    let r = UnitRegistry::new();
    for c in UnitCategory::all_categories() {
        let units = r.list_units(c);
        if let Some(first) = units.first() {
            assert_eq!(f64::from_bits(first.to_base_factor), 1.0, "{}", first.name);
            assert_eq!(f64::from_bits(first.to_base_offset), 0.0, "{}", first.name);
        }
        for u in &units {
            let shifted = u.to_base_offset != 0;
            assert_eq!(shifted, u.name == "fahrenheit" || u.name == "kelvin", "{}", u.name);
            assert!(!u.to_base_inverse);
        }
    }
}
