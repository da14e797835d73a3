//! Calendar synthesis: event counts, per-event property values, the
//! header hint, and the identity deriver.

use kgc_core::date::Date;
use kgc_core::event::CalendarDocument;
use kgc_core::garbage_client::{get_calendar, prod_id, synthesize, uid};
use kgc_core::waste::{ExcludeWasteType, WasteCategory, WasteData, WasteTypeBitmask};

fn date(year: u16, month: u8, day: u8) -> Date {
    Date { year, month, day }
}

fn get_test_waste_data() -> WasteData {
    WasteData {
        residual_waste: vec![date(2023, 6, 16), date(2023, 6, 29), date(2023, 7, 14)],
        organic_waste: vec![date(2023, 6, 7), date(2023, 6, 14), date(2023, 6, 21)],
        recyclable_waste: vec![date(2023, 6, 7), date(2023, 6, 22), date(2023, 7, 6)],
        paper_waste: vec![date(2023, 6, 14), date(2023, 7, 12), date(2023, 8, 9)],
        bulky_waste: vec![date(2023, 7, 12)],
    }
}

fn find_event<'a>(
    calendar: &'a CalendarDocument,
    summary: &str,
) -> Option<&'a kgc_core::event::CalendarEvent> {
    calendar.events.iter().find(|event| {
        event
            .get_ical_property_value("SUMMARY")
            .is_some_and(|value| value.as_str() == summary)
    })
}

fn get_property_value_of_event<'a>(
    calendar: &'a CalendarDocument,
    property_name: &str,
    summary: &str,
) -> &'a str {
    find_event(calendar, summary)
        .unwrap()
        .get_ical_property_value(property_name)
        .unwrap()
        .as_str()
}

#[test]
fn test_get_calendar_all() {
    let waste_data = get_test_waste_data();
    let calendar = get_calendar("street", "69", waste_data, WasteTypeBitmask::none());
    assert_eq!(calendar.events.len(), 5);
    let residual_dtstart = get_property_value_of_event(&calendar, "DTSTART", "Restmüll");
    assert_eq!(residual_dtstart, "20230616");
    let recyclable_rdate = get_property_value_of_event(&calendar, "RDATE", "Wertstoff");
    assert_eq!(recyclable_rdate, "20230607,20230622,20230706");
}

#[test]
fn test_get_calendar_exclusion() {
    let waste_data = get_test_waste_data();
    let excluded: ExcludeWasteType = WasteTypeBitmask::only(WasteCategory::Bulky);
    let calendar = get_calendar("street", "69", waste_data, excluded);
    assert_eq!(calendar.events.len(), 4);
    let bulky_found = find_event(&calendar, "Sperrmüllabholung").is_some();
    assert_eq!(bulky_found, false);

    let waste_data = get_test_waste_data();
    let calendar = get_calendar(
        "street",
        "69",
        waste_data,
        WasteTypeBitmask::only(WasteCategory::Recyclable)
            .or(WasteTypeBitmask::only(WasteCategory::Organic)),
    );
    assert_eq!(calendar.events.len(), 3);
    let recyclable_found = find_event(&calendar, "Wertstoff").is_some();
    assert_eq!(recyclable_found, false);
    let organic_found = find_event(&calendar, "Bioabfall").is_some();
    assert_eq!(organic_found, false);
}

fn get_ics_test_waste_data() -> WasteData {
    WasteData {
        residual_waste: vec![
            date(2023, 6, 30),
            date(2023, 7, 14),
            date(2023, 7, 28),
            date(2023, 8, 11),
            date(2023, 8, 25),
            date(2023, 9, 8),
            date(2023, 9, 22),
            date(2023, 10, 6),
            date(2023, 10, 20),
            date(2023, 11, 3),
            date(2023, 11, 17),
            date(2023, 12, 1),
            date(2023, 12, 15),
            date(2023, 12, 30),
        ],
        organic_waste: vec![
            date(2023, 6, 28),
            date(2023, 7, 5),
            date(2023, 7, 12),
            date(2023, 7, 19),
            date(2023, 7, 26),
            date(2023, 8, 2),
            date(2023, 8, 9),
            date(2023, 8, 16),
            date(2023, 8, 23),
            date(2023, 8, 30),
            date(2023, 9, 6),
            date(2023, 9, 13),
            date(2023, 9, 20),
            date(2023, 9, 27),
            date(2023, 10, 5),
            date(2023, 10, 11),
            date(2023, 10, 18),
            date(2023, 10, 25),
            date(2023, 11, 2),
            date(2023, 11, 8),
            date(2023, 11, 15),
            date(2023, 11, 22),
            date(2023, 11, 29),
            date(2023, 12, 6),
            date(2023, 12, 13),
            date(2023, 12, 20),
            date(2023, 12, 29),
        ],
        recyclable_waste: vec![
            date(2023, 7, 6),
            date(2023, 7, 20),
            date(2023, 8, 3),
            date(2023, 8, 17),
            date(2023, 8, 31),
            date(2023, 9, 14),
            date(2023, 9, 28),
            date(2023, 10, 12),
            date(2023, 10, 26),
            date(2023, 11, 9),
            date(2023, 11, 23),
            date(2023, 12, 7),
            date(2023, 12, 21),
        ],
        paper_waste: vec![
            date(2023, 7, 12),
            date(2023, 8, 9),
            date(2023, 9, 6),
            date(2023, 10, 4),
            date(2023, 10, 31),
            date(2023, 11, 29),
            date(2023, 12, 28),
        ],
        bulky_waste: vec![date(2023, 7, 12)],
    }
}

#[test]
fn test_get_calendar_all_ics() {
    let waste_data = get_ics_test_waste_data();
    let calendar = get_calendar("street", "69", waste_data, WasteTypeBitmask::none());
    assert_eq!(calendar.events.len(), 5);
    let residual_dtstart = get_property_value_of_event(&calendar, "DTSTART", "Restmüll");
    assert_eq!(residual_dtstart, "20230630");
    let recyclable_rdate = get_property_value_of_event(&calendar, "RDATE", "Wertstoff");
    assert_eq!(recyclable_rdate, "20230706,20230720,20230803,20230817,20230831,20230914,20230928,20231012,20231026,20231109,20231123,20231207,20231221");
}

#[test]
fn test_get_calendar_exclusion_ics() {
    let waste_data = get_ics_test_waste_data();
    let calendar = get_calendar(
        "street",
        "69",
        waste_data,
        WasteTypeBitmask::only(WasteCategory::Bulky),
    );
    assert_eq!(calendar.events.len(), 4);
    let bulky_found = find_event(&calendar, "Sperrmüllabholung").is_some();
    assert_eq!(bulky_found, false);

    let waste_data = get_ics_test_waste_data();
    let calendar = get_calendar(
        "street",
        "69",
        waste_data,
        WasteTypeBitmask::only(WasteCategory::Recyclable)
            .or(WasteTypeBitmask::only(WasteCategory::Organic)),
    );
    assert_eq!(calendar.events.len(), 3);
    let recyclable_found = find_event(&calendar, "Wertstoff").is_some();
    assert_eq!(recyclable_found, false);
    let organic_found = find_event(&calendar, "Bioabfall").is_some();
    assert_eq!(organic_found, false);
}

#[test]
fn test_single_category_schedule() {
    let waste_data = WasteData {
        residual_waste: vec![date(2023, 6, 16), date(2023, 6, 29), date(2023, 7, 14)],
        organic_waste: vec![],
        recyclable_waste: vec![],
        paper_waste: vec![],
        bulky_waste: vec![],
    };
    let calendar = synthesize(
        "street",
        "69",
        &waste_data,
        WasteTypeBitmask::none(),
        "20230601T120000",
    );
    assert_eq!(calendar.events.len(), 1);
    let rdate = get_property_value_of_event(&calendar, "RDATE", "Restmüll");
    assert_eq!(rdate, "20230616,20230629,20230714");
    let dtstart = get_property_value_of_event(&calendar, "DTSTART", "Restmüll");
    assert_eq!(dtstart, "20230616");
    let uid_value = get_property_value_of_event(&calendar, "UID", "Restmüll");
    assert_eq!(uid_value, "Abfuhrkalender_street_69_Restmüll@karlsruhe.de");
    let location = get_property_value_of_event(&calendar, "LOCATION", "Restmüll");
    assert_eq!(location, "street 69, Karlsruhe");
    let transp = get_property_value_of_event(&calendar, "TRANSP", "Restmüll");
    assert_eq!(transp, "TRANSPARENT");
    let stamp = get_property_value_of_event(&calendar, "DTSTAMP", "Restmüll");
    assert_eq!(stamp, "20230601T120000");
    let description = get_property_value_of_event(&calendar, "DESCRIPTION", "Restmüll");
    assert_eq!(
        description,
        "https://web6.karlsruhe.de/service/abfall/akal/akal.php"
    );
}

fn prod_id_of(calendar: &CalendarDocument) -> &str {
    calendar
        .properties
        .iter()
        .find(|p| p.name == "PRODID")
        .unwrap()
        .value
        .as_ref()
        .unwrap()
        .as_str()
}

#[test]
fn test_header_hint_single_category() {
    let waste_data = get_test_waste_data();
    let calendar = synthesize(
        "street",
        "69",
        &waste_data,
        WasteTypeBitmask::inverted(WasteCategory::Paper),
        "20230601T120000",
    );
    assert_eq!(calendar.events.len(), 1);
    assert!(find_event(&calendar, "Papier").is_some());
    assert_eq!(prod_id_of(&calendar), "-//Papier//Abfuhrkalender//karlsruhe.de");
}

#[test]
fn test_header_hint_absent() {
    let waste_data = get_test_waste_data();
    let calendar = synthesize(
        "street",
        "69",
        &waste_data,
        WasteTypeBitmask::none(),
        "20230601T120000",
    );
    assert_eq!(prod_id_of(&calendar), "-//Abfuhrkalender//karlsruhe.de");
    let waste_data = get_test_waste_data();
    let calendar = synthesize(
        "street",
        "69",
        &waste_data,
        WasteTypeBitmask::only(WasteCategory::Bulky),
        "20230601T120000",
    );
    assert_eq!(prod_id_of(&calendar), "-//Abfuhrkalender//karlsruhe.de");
    let waste_data = get_test_waste_data();
    let calendar = synthesize(
        "street",
        "69",
        &waste_data,
        WasteTypeBitmask::only(WasteCategory::Bulky)
            .or(WasteTypeBitmask::only(WasteCategory::Paper)),
        "20230601T120000",
    );
    assert_eq!(prod_id_of(&calendar), "-//Abfuhrkalender//karlsruhe.de");
}

#[test]
fn test_calendar_header() {
    let waste_data = get_test_waste_data();
    let calendar = synthesize(
        "street",
        "69",
        &waste_data,
        WasteTypeBitmask::none(),
        "20230601T120000",
    );
    assert_eq!(calendar.properties.len(), 3);
    assert_eq!(calendar.properties[0].name, "VERSION");
    assert_eq!(calendar.properties[0].value.as_deref(), Some("2.0"));
    assert_eq!(calendar.properties[1].name, "CALSCALE");
    assert_eq!(calendar.properties[1].value.as_deref(), Some("GREGORIAN"));
    assert_eq!(calendar.properties[2].name, "PRODID");
}

#[test]
fn test_uid() {
    assert_eq!(
        uid("Schloßplatz", "1", "Restmüll"),
        "Abfuhrkalender_Schloßplatz_1_Restmüll@karlsruhe.de"
    );
    // embedded whitespace runs collapse to single hyphens
    assert_eq!(
        uid("Unterer  Lichtenbergweg", " 1 a", "Restmüll"),
        "Abfuhrkalender_Unterer-Lichtenbergweg_-1-a_Restmüll@karlsruhe.de"
    );
    assert_eq!(uid("a \t b", "1", "x"), "Abfuhrkalender_a-b_1_x@karlsruhe.de");
    // identical inputs always yield identical output
    assert_eq!(uid("street", "69", "Papier"), uid("street", "69", "Papier"));
    // changing one input changes the output
    assert_ne!(uid("street", "69", "Papier"), uid("street2", "69", "Papier"));
    assert_ne!(uid("street", "69", "Papier"), uid("street", "70", "Papier"));
    assert_ne!(uid("street", "69", "Papier"), uid("street", "69", "Bioabfall"));
}

#[test]
fn test_prod_id() {
    assert_eq!(prod_id(None), "-//Abfuhrkalender//karlsruhe.de");
    assert_eq!(
        prod_id(Some("Restmüll".to_string())),
        "-//Restmüll//Abfuhrkalender//karlsruhe.de"
    );
}
