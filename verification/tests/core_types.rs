use abaco::core_types::{Currency, Unit, UnitCategory};

#[test]
fn test_unit_creation() {
    let u = Unit::new("meter", "m", UnitCategory::Length, 1.0f64.to_bits(), 0.0f64.to_bits());
    assert_eq!(u.name, "meter");
    assert_eq!(u.symbol, "m");
    assert_eq!(u.category, UnitCategory::Length);
}

#[test]
fn test_unit_display() {
    let u = Unit::new("kilogram", "kg", UnitCategory::Mass, 1.0f64.to_bits(), 0.0f64.to_bits());
    assert_eq!(u.to_string(), "kilogram (kg)");
}

#[test]
fn test_category_display() {
    assert_eq!(UnitCategory::Temperature.to_string(), "Temperature");
    assert_eq!(UnitCategory::DataSize.to_string(), "Data Size");
}

#[test]
fn test_currency_creation() {
    let c = Currency::new("USD", "US Dollar", "$");
    assert_eq!(c.code, "USD");
    assert_eq!(c.symbol, "$");
}

#[test]
fn test_unit_category_from_str_aliases() {
    assert_eq!(UnitCategory::from_str("weight").unwrap(), UnitCategory::Mass);
    assert_eq!(UnitCategory::from_str("temp").unwrap(), UnitCategory::Temperature);
    assert_eq!(UnitCategory::from_str("velocity").unwrap(), UnitCategory::Speed);
    assert_eq!(UnitCategory::from_str("wattage").unwrap(), UnitCategory::Power);
    assert_eq!(UnitCategory::from_str("freq").unwrap(), UnitCategory::Frequency);
    assert_eq!(UnitCategory::from_str("data").unwrap(), UnitCategory::DataSize);
    assert_eq!(UnitCategory::from_str("data size").unwrap(), UnitCategory::DataSize);
    assert_eq!(UnitCategory::from_str("data_size").unwrap(), UnitCategory::DataSize);
}

#[test]
fn test_unit_category_from_str_unknown() {
    assert!(UnitCategory::from_str("unicorn").is_err());
}

#[test]
fn test_unit_category_all_categories_count() {
    assert_eq!(UnitCategory::all_categories().len(), 18);
}

#[test]
fn test_currency_display() {
    let c = Currency::new("EUR", "Euro", "€");
    assert_eq!(c.to_string(), "EUR (€) Euro");
}

#[test]
fn category_from_str_ignores_case() {
    assert_eq!(UnitCategory::from_str("LENGTH").unwrap(), UnitCategory::Length);
    assert_eq!(UnitCategory::from_str("Fuel Economy").unwrap(), UnitCategory::FuelEconomy);
    assert_eq!(UnitCategory::from_str("MPG").unwrap(), UnitCategory::FuelEconomy);
}

#[test]
fn category_from_str_error_message() {
    assert_eq!(
        UnitCategory::from_str("Unicorn").unwrap_err(),
        "unknown unit category: 'Unicorn'"
    );
}

#[test]
fn category_display_name_parses_back() {
    for c in UnitCategory::all_categories() {
        assert_eq!(UnitCategory::from_str(&c.to_string()).unwrap(), c);
    }
}

#[test]
fn all_categories_are_distinct_and_in_order() {
    let all = UnitCategory::all_categories();
    assert_eq!(all[0], UnitCategory::Length);
    assert_eq!(all[17], UnitCategory::Viscosity);
    for i in 0..all.len() {
        for j in (i + 1)..all.len() {
            assert_ne!(all[i], all[j]);
        }
    }
}

#[test]
fn unit_new_inverse_has_zero_offset() {
    let u = Unit::new_inverse("liters_per_100km", "L/100km", UnitCategory::FuelEconomy, 100.0f64.to_bits());
    assert!(u.to_base_inverse);
    assert_eq!(u.to_base_offset, 0);
    assert_eq!(f64::from_bits(u.to_base_factor), 100.0);
    let v = Unit::new("meter", "m", UnitCategory::Length, 1.0f64.to_bits(), 0.0f64.to_bits());
    assert!(!v.to_base_inverse);
}
