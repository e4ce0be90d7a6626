use axum_crud_lib::city::{classify_key, parse_area, CityDecodeError, CityKey, EntryValue};
use axum_crud_lib::{City, CityError, CityVisitor, GetAllFields};

fn text(s: &str) -> EntryValue {
    EntryValue::Text(s.to_string())
}

fn entries(list: Vec<(&str, EntryValue)>) -> Vec<(String, EntryValue)> {
    list.into_iter().map(|(k, v)| (k.to_string(), v)).collect()
}

#[test]
fn keys_select_fields() {
    assert_eq!(classify_key("country"), CityKey::Country);
    assert_eq!(classify_key("country_code"), CityKey::Country);
    assert_eq!(classify_key("countr"), CityKey::Ignored);
    assert_eq!(classify_key("noname"), CityKey::Noname);
    assert_eq!(classify_key("name"), CityKey::Ignored);
    assert_eq!(classify_key("population"), CityKey::Population);
    assert_eq!(classify_key("area"), CityKey::Area);
    assert_eq!(classify_key("Area"), CityKey::Ignored);
    assert_eq!(classify_key("id"), CityKey::Ignored);
    assert_eq!(classify_key(""), CityKey::Ignored);
}

#[test]
fn area_is_hex_after_0x() {
    assert_eq!(parse_area("0x1f"), Ok(31));
    assert_eq!(parse_area("0xFF"), Ok(255));
    assert_eq!(parse_area("0x-10"), Ok(-16));
    assert_eq!(parse_area("0x+10"), Ok(16));
    assert_eq!(parse_area("0x7fffffff"), Ok(i32::MAX));
    assert_eq!(parse_area("0x-80000000"), Ok(i32::MIN));
}

#[test]
fn area_errors() {
    assert_eq!(parse_area("1f"), Err(CityDecodeError::AreaMissingPrefix));
    assert_eq!(parse_area("0X1f"), Err(CityDecodeError::AreaMissingPrefix));
    assert_eq!(parse_area(""), Err(CityDecodeError::AreaMissingPrefix));
    assert_eq!(parse_area("0x"), Err(CityDecodeError::AreaNotHexI32));
    assert_eq!(parse_area("0x80000000"), Err(CityDecodeError::AreaNotHexI32));
    assert_eq!(parse_area("0xzz"), Err(CityDecodeError::AreaNotHexI32));
    assert_eq!(parse_area("0x-"), Err(CityDecodeError::AreaNotHexI32));
}

#[test]
fn area_error_texts() {
    assert_eq!(CityDecodeError::AreaMissingPrefix.unexpected(), "not string or didnt start with 0x");
    assert_eq!(
        CityDecodeError::AreaNotHexI32.unexpected(),
        format!("value might be lt {} | gt {}", i32::MIN, i32::MAX)
    );
}

#[test]
fn decode_full_document() {
    let es = entries(vec![
        ("noname", text("Oslo")),
        ("country", text("Norway")),
        ("population", EntryValue::Integer(700000)),
        ("area", text("0x1C2")),
    ]);
    let c = CityVisitor::visit_map(&es).unwrap();
    assert_eq!(c.id, 0);
    assert_eq!(c.noname, "Oslo");
    assert_eq!(c.country, b"Norway".to_vec());
    assert_eq!(c.population, 700000);
    assert_eq!(c.area, 450);
}

#[test]
fn decode_empty_document_gives_default() {
    let c = CityVisitor::visit_map(&Vec::new()).unwrap();
    assert_eq!(c.id, 0);
    assert_eq!(c.noname, "");
    assert!(c.country.is_empty());
    assert_eq!(c.population, 0);
    assert_eq!(c.area, 0);
}

#[test]
fn decode_later_entries_override_and_unknown_are_ignored() {
    let es = entries(vec![
        ("noname", text("A")),
        ("id", EntryValue::Integer(99)),
        ("noname", text("B")),
        ("countryName", text("Ísland")),
        ("whatever", EntryValue::Other),
    ]);
    let c = CityVisitor::visit_map(&es).unwrap();
    assert_eq!(c.id, 0);
    assert_eq!(c.noname, "B");
    assert_eq!(c.country, "Ísland".as_bytes().to_vec());
}

#[test]
fn decode_errors() {
    let bad_pop = entries(vec![("population", EntryValue::Integer(1 << 40))]);
    assert_eq!(CityVisitor::visit_map(&bad_pop).unwrap_err(), CityDecodeError::ExpectedI32);
    let pop_text = entries(vec![("population", text("12"))]);
    assert_eq!(CityVisitor::visit_map(&pop_text).unwrap_err(), CityDecodeError::ExpectedI32);
    let name_num = entries(vec![("noname", EntryValue::Integer(1))]);
    assert_eq!(CityVisitor::visit_map(&name_num).unwrap_err(), CityDecodeError::ExpectedText);
    let country_other = entries(vec![("country", EntryValue::Other)]);
    assert_eq!(CityVisitor::visit_map(&country_other).unwrap_err(), CityDecodeError::ExpectedText);
    let area_num = entries(vec![("area", EntryValue::Integer(3))]);
    assert_eq!(CityVisitor::visit_map(&area_num).unwrap_err(), CityDecodeError::ExpectedText);
    let area_bad = entries(vec![("noname", text("x")), ("area", text("12"))]);
    assert_eq!(CityVisitor::visit_map(&area_bad).unwrap_err(), CityDecodeError::AreaMissingPrefix);
}

#[test]
fn decode_stops_at_first_error() {
    let es = entries(vec![("area", text("0x")), ("population", EntryValue::Other)]);
    assert_eq!(CityVisitor::visit_map(&es).unwrap_err(), CityDecodeError::AreaNotHexI32);
}

#[test]
fn apply_single_entry() {
    let mut c = City::default();
    c.apply_entry("population", &EntryValue::Integer(-3)).unwrap();
    assert_eq!(c.population, -3);
    assert!(c.apply_entry("area", &text("nope")).is_err());
    assert_eq!(c.area, 0);
}

#[test]
fn all_fields_of_city() {
    let c = City {
        id: 4,
        noname: "Lima".to_string(),
        country: b"Peru".to_vec(),
        population: 9_750_000,
        area: -2672,
    };
    assert_eq!(
        c.get_all_fields().unwrap(),
        vec!["Lima".to_string(), "Peru".to_string(), "9750000".to_string(), "-2672".to_string()]
    );
}

#[test]
fn all_fields_rejects_bad_country() {
    let c = City { id: 1, noname: "X".to_string(), country: vec![0xff, 0xfe], population: 1, area: 1 };
    assert_eq!(c.get_all_fields().unwrap_err(), CityError::BadCountryValue);
    assert_eq!(CityError::BadCountryValue.message(), "Bad vector for Country");
}

#[test]
fn decoded_city_renders_its_country() {
    let es = entries(vec![("country", text("Côte d'Ivoire")), ("population", EntryValue::Integer(5))]);
    let c = CityVisitor::visit_map(&es).unwrap();
    let f = c.get_all_fields().unwrap();
    assert_eq!(f[1], "Côte d'Ivoire");
    assert_eq!(f[2], "5");
    assert_eq!(f[3], "0");
}
