//! Calendar synthesis: from a street address, an extracted schedule and an
//! exclusion mask to a calendar document with one recurring all-day event
//! per included, non-empty category.

pub mod html;
pub mod ics;

use vstd::prelude::*;
use vstd::string::StringExecFns;

use crate::date::{format_ymd, ymd_chars, Date};
use crate::event::{CalendarDocument, CalendarEvent, DocumentView, Property, PropertyView};
use crate::text::{collapse_spaces, collapse_whitespace};
use crate::waste::{dates_well_formed, spec_label, ScheduleView, WasteCategory, WasteData, WasteTypeBitmask};

verus! {

/// Why a request could not be served: the fetch failed, or the fetched
/// document does not have the expected top-level structure.  Missing or
/// malformed rows and events inside a well-formed document are absorbed
/// locally and never raise an error.
#[derive(Debug, Clone, Copy, PartialEq, Eq, Structural)]
pub enum GarbageError {
    FetchFailure,
    MalformedDocument,
}

impl GarbageError {
    /// A human-readable description of the error.
    pub fn message(&self) -> (r: &'static str)
        ensures
            *self == GarbageError::FetchFailure ==> r@ == "the document could not be fetched"@,
            *self == GarbageError::MalformedDocument ==> r@
                == "the document could not be parsed"@,
    {
        match self {
            GarbageError::FetchFailure => "the document could not be fetched",
            GarbageError::MalformedDocument => "the document could not be parsed",
        }
    }
}

/// The address of the official source document.
pub open spec fn spec_source_url() -> Seq<char> {
    "https://web6.karlsruhe.de/service/abfall/akal/akal.php"@
}

/// The address of the official source document.
pub fn source_url() -> (r: &'static str)
    ensures
        r@ == spec_source_url(),
{
    "https://web6.karlsruhe.de/service/abfall/akal/akal.php"
}

/// The unique identifier of the event of one waste category at one
/// address: every run of whitespace in each field collapses to one hyphen.
pub open spec fn uid_spec(street: Seq<char>, street_number: Seq<char>, summary: Seq<char>) -> Seq<
    char,
> {
    "Abfuhrkalender_"@ + collapse_spaces(street) + "_"@ + collapse_spaces(street_number) + "_"@
        + collapse_spaces(summary) + "@karlsruhe.de"@
}

/// Get a unique id for a specific waste collection type at a specific
/// location.
///
/// Calendar clients deduplicate events by this value, so the scheme is a
/// frozen wire-compatibility contract: changing it silently duplicates
/// events for existing subscribers.
pub fn uid(street: &str, street_number: &str, summary: &str) -> (r: String)
    ensures
        r@ == uid_spec(street@, street_number@, summary@),
{
    let mut s = String::from_str("Abfuhrkalender_");
    let a = collapse_whitespace(street);
    s.append(a.as_str());
    s.append("_");
    let b = collapse_whitespace(street_number);
    s.append(b.as_str());
    s.append("_");
    let c = collapse_whitespace(summary);
    s.append(c.as_str());
    s.append("@karlsruhe.de");
    proof {
        assert(s@ =~= uid_spec(street@, street_number@, summary@));
    }
    s
}

/// The product identifier of the calendar header; a label is present
/// exactly for a single-category calendar.
pub open spec fn prod_id_spec(label: Option<Seq<char>>) -> Seq<char> {
    match label {
        None => "-//Abfuhrkalender//karlsruhe.de"@,
        Some(l) => "-//"@ + l + "//Abfuhrkalender//karlsruhe.de"@,
    }
}

/// Render the product identifier of the calendar header.
pub fn prod_id(label: Option<String>) -> (r: String)
    ensures
        r@ == prod_id_spec(
            match label {
                Some(l) => Some(l@),
                None => None,
            },
        ),
{
    match label {
        None => String::from_str("-//Abfuhrkalender//karlsruhe.de"),
        Some(l) => {
            let mut s = String::from_str("-//");
            s.append(l.as_str());
            s.append("//Abfuhrkalender//karlsruhe.de");
            proof {
                assert(s@ =~= prod_id_spec(Some(l@)));
            }
            s
        },
    }
}

/// The `RDATE` value: every date of the sequence rendered as `YYYYMMDD`
/// and comma joined, in sequence order.
pub open spec fn rdate_chars(dates: Seq<Date>) -> Seq<char>
    decreases dates.len(),
{
    if dates.len() == 0 {
        Seq::empty()
    } else if dates.len() == 1 {
        ymd_chars(dates[0])
    } else {
        ymd_chars(dates[0]) + seq![','] + rdate_chars(dates.drop_first())
    }
}

proof fn lemma_rdate_push(dates: Seq<Date>, d: Date)
    ensures
        dates.len() == 0 ==> rdate_chars(dates.push(d)) == ymd_chars(d),
        dates.len() > 0 ==> rdate_chars(dates.push(d)) == rdate_chars(dates) + seq![',']
            + ymd_chars(d),
    decreases dates.len(),
{
    if dates.len() == 0 {
        assert(dates.push(d)[0] == d);
    } else {
        assert(dates.push(d).drop_first() =~= dates.drop_first().push(d));
        lemma_rdate_push(dates.drop_first(), d);
        if dates.len() == 1 {
            assert(rdate_chars(dates.push(d)) == ymd_chars(dates[0]) + seq![','] + ymd_chars(d));
        } else {
            assert(rdate_chars(dates) + seq![','] + ymd_chars(d) =~= ymd_chars(dates[0])
                + seq![','] + (rdate_chars(dates.drop_first()) + seq![','] + ymd_chars(d)));
        }
    }
}

/// Render the comma-joined `YYYYMMDD` list of a date sequence.
pub fn rdate_value(dates: &Vec<Date>) -> (r: String)
    requires
        dates_well_formed(dates@),
    ensures
        r@ == rdate_chars(dates@),
{
    let mut s = String::new();
    let mut i: usize = 0;
    while i < dates.len()
        invariant
            i <= dates@.len(),
            dates_well_formed(dates@),
            s@ == rdate_chars(dates@.take(i as int)),
        decreases dates@.len() - i,
    {
        proof {
            lemma_rdate_push(dates@.take(i as int), dates@[i as int]);
            assert(dates@.take(i + 1) =~= dates@.take(i as int).push(dates@[i as int]));
        }
        if i > 0 {
            s.append(",");
            proof {
                reveal_strlit(",");
                assert(","@ =~= seq![',']);
            }
        }
        let formatted = format_ymd(&dates[i]);
        s.append(formatted.as_str());
        i = i + 1;
    }
    proof {
        assert(dates@.take(dates@.len() as int) =~= dates@);
    }
    s
}

/// The `LOCATION` value: the caller-supplied address fields verbatim plus
/// the fixed municipality name.
pub open spec fn location_chars(street: Seq<char>, street_number: Seq<char>) -> Seq<char> {
    street + " "@ + street_number + ", Karlsruhe"@
}

/// The ordered property list of the event of one category.
pub open spec fn event_spec(
    street: Seq<char>,
    street_number: Seq<char>,
    summary: Seq<char>,
    dates: Seq<Date>,
    changed: Seq<char>,
) -> Seq<PropertyView> {
    seq![
        PropertyView {
            name: "UID"@,
            value: Some(uid_spec(street, street_number, summary)),
            params: Seq::empty(),
        },
        PropertyView {
            name: "DTSTAMP"@,
            value: Some(changed),
            params: seq![("TZID"@, "Europe/Berlin"@)],
        },
        PropertyView {
            name: "DTSTART"@,
            value: Some(ymd_chars(dates[0])),
            params: seq![("VALUE"@, "DATE"@)],
        },
        PropertyView { name: "SUMMARY"@, value: Some(summary), params: Seq::empty() },
        PropertyView {
            name: "RDATE"@,
            value: Some(rdate_chars(dates)),
            params: seq![("VALUE"@, "DATE"@)],
        },
        PropertyView {
            name: "LOCATION"@,
            value: Some(location_chars(street, street_number)),
            params: Seq::empty(),
        },
        PropertyView { name: "DESCRIPTION"@, value: Some(spec_source_url()), params: Seq::empty() },
        PropertyView { name: "TRANSP"@, value: Some("TRANSPARENT"@), params: Seq::empty() },
    ]
}

/// Build an event from a vector of dates: `None` exactly when the vector
/// is empty, else the full property list of the category's event.
pub fn get_event(
    street: &str,
    street_number: &str,
    dates: &Vec<Date>,
    summary: &str,
    changed: &str,
) -> (r: Option<CalendarEvent>)
    requires
        dates_well_formed(dates@),
    ensures
        dates@.len() == 0 ==> r == None::<CalendarEvent>,
        dates@.len() > 0 ==> (r matches Some(e) && e@ == event_spec(
            street@,
            street_number@,
            summary@,
            dates@,
            changed@,
        )),
{
    if dates.len() == 0 {
        return None;
    }
    let mut properties: Vec<Property> = Vec::new();
    properties.push(Property::plain("UID", uid(street, street_number, summary)));
    properties.push(
        Property::with_param("DTSTAMP", String::from_str(changed), "TZID", "Europe/Berlin"),
    );
    properties.push(Property::with_param("DTSTART", format_ymd(&dates[0]), "VALUE", "DATE"));
    properties.push(Property::plain("SUMMARY", String::from_str(summary)));
    properties.push(Property::with_param("RDATE", rdate_value(dates), "VALUE", "DATE"));
    let mut location = String::from_str(street);
    location.append(" ");
    location.append(street_number);
    location.append(", Karlsruhe");
    proof {
        assert(location@ =~= location_chars(street@, street_number@));
    }
    properties.push(Property::plain("LOCATION", location));
    properties.push(Property::plain("DESCRIPTION", String::from_str(source_url())));
    properties.push(Property::plain("TRANSP", String::from_str("TRANSPARENT")));
    let e = CalendarEvent { properties };
    proof {
        assert(e@ =~= event_spec(street@, street_number@, summary@, dates@, changed@));
    }
    Some(e)
}

/// Whether category `c` contributes an event: its date list is non-empty
/// and it is not excluded.
pub open spec fn included(sched: ScheduleView, excluded: WasteTypeBitmask, c: WasteCategory) -> bool {
    sched.dates(c).len() > 0 && !excluded.spec_excludes(c)
}

/// The event list slot of category `c`: one event when included, nothing
/// otherwise.
pub open spec fn slot_spec(
    street: Seq<char>,
    street_number: Seq<char>,
    sched: ScheduleView,
    excluded: WasteTypeBitmask,
    changed: Seq<char>,
    c: WasteCategory,
) -> Seq<Seq<PropertyView>> {
    if included(sched, excluded, c) {
        seq![event_spec(street, street_number, spec_label(c), sched.dates(c), changed)]
    } else {
        Seq::empty()
    }
}

/// The synthesized event list: the five categories in canonical order,
/// each contributing its slot.
pub open spec fn events_spec(
    street: Seq<char>,
    street_number: Seq<char>,
    sched: ScheduleView,
    excluded: WasteTypeBitmask,
    changed: Seq<char>,
) -> Seq<Seq<PropertyView>> {
    slot_spec(street, street_number, sched, excluded, changed, WasteCategory::Residual)
        + slot_spec(street, street_number, sched, excluded, changed, WasteCategory::Organic)
        + slot_spec(street, street_number, sched, excluded, changed, WasteCategory::Recyclable)
        + slot_spec(street, street_number, sched, excluded, changed, WasteCategory::Paper)
        + slot_spec(street, street_number, sched, excluded, changed, WasteCategory::Bulky)
}

/// The header label: the one remaining category when the exclusion mask is
/// the complement of exactly one category, nothing otherwise.
pub open spec fn hint_label(excluded: WasteTypeBitmask) -> Option<Seq<char>> {
    if excluded == WasteTypeBitmask::spec_inverted(WasteCategory::Residual) {
        Some(spec_label(WasteCategory::Residual))
    } else if excluded == WasteTypeBitmask::spec_inverted(WasteCategory::Organic) {
        Some(spec_label(WasteCategory::Organic))
    } else if excluded == WasteTypeBitmask::spec_inverted(WasteCategory::Recyclable) {
        Some(spec_label(WasteCategory::Recyclable))
    } else if excluded == WasteTypeBitmask::spec_inverted(WasteCategory::Paper) {
        Some(spec_label(WasteCategory::Paper))
    } else if excluded == WasteTypeBitmask::spec_inverted(WasteCategory::Bulky) {
        Some(spec_label(WasteCategory::Bulky))
    } else {
        None
    }
}

/// The full synthesized calendar document for one address, schedule,
/// exclusion mask and synthesis timestamp.
pub open spec fn calendar_spec(
    street: Seq<char>,
    street_number: Seq<char>,
    sched: ScheduleView,
    excluded: WasteTypeBitmask,
    changed: Seq<char>,
) -> DocumentView {
    DocumentView {
        properties: seq![
            PropertyView { name: "VERSION"@, value: Some("2.0"@), params: Seq::empty() },
            PropertyView { name: "CALSCALE"@, value: Some("GREGORIAN"@), params: Seq::empty() },
            PropertyView {
                name: "PRODID"@,
                value: Some(prod_id_spec(hint_label(excluded))),
                params: Seq::empty(),
            },
        ],
        events: events_spec(street, street_number, sched, excluded, changed),
    }
}

/// Build the calendar from the waste data, with the given synthesis
/// timestamp shared by every event.
pub fn synthesize(
    street: &str,
    street_number: &str,
    waste_data: &WasteData,
    excluded: WasteTypeBitmask,
    changed: &str,
) -> (r: CalendarDocument)
    requires
        waste_data@.well_formed(),
    ensures
        r@ == calendar_spec(street@, street_number@, waste_data@, excluded, changed@),
{
    let hint: Option<String> = if excluded == WasteTypeBitmask::inverted(WasteCategory::Residual) {
        Some(String::from_str(WasteCategory::Residual.label()))
    } else if excluded == WasteTypeBitmask::inverted(WasteCategory::Organic) {
        Some(String::from_str(WasteCategory::Organic.label()))
    } else if excluded == WasteTypeBitmask::inverted(WasteCategory::Recyclable) {
        Some(String::from_str(WasteCategory::Recyclable.label()))
    } else if excluded == WasteTypeBitmask::inverted(WasteCategory::Paper) {
        Some(String::from_str(WasteCategory::Paper.label()))
    } else if excluded == WasteTypeBitmask::inverted(WasteCategory::Bulky) {
        Some(String::from_str(WasteCategory::Bulky.label()))
    } else {
        None
    };
    let mut properties: Vec<Property> = Vec::new();
    properties.push(Property::plain("VERSION", String::from_str("2.0")));
    properties.push(Property::plain("CALSCALE", String::from_str("GREGORIAN")));
    properties.push(Property::plain("PRODID", prod_id(hint)));
    let ghost sched = waste_data@;
    let mut events: Vec<CalendarEvent> = Vec::new();
    if !excluded.contains(WasteCategory::Residual) {
        if let Some(e) = get_event(
            street,
            street_number,
            &waste_data.residual_waste,
            WasteCategory::Residual.label(),
            changed,
        ) {
            events.push(e);
        }
    }
    proof {
        assert(events@.map_values(|e: CalendarEvent| e@) =~= slot_spec(
            street@,
            street_number@,
            sched,
            excluded,
            changed@,
            WasteCategory::Residual,
        ));
    }
    let ghost done1 = events@.map_values(|e: CalendarEvent| e@);
    if !excluded.contains(WasteCategory::Organic) {
        if let Some(e) = get_event(
            street,
            street_number,
            &waste_data.organic_waste,
            WasteCategory::Organic.label(),
            changed,
        ) {
            events.push(e);
        }
    }
    proof {
        assert(events@.map_values(|e: CalendarEvent| e@) =~= done1 + slot_spec(
            street@,
            street_number@,
            sched,
            excluded,
            changed@,
            WasteCategory::Organic,
        ));
    }
    let ghost done2 = events@.map_values(|e: CalendarEvent| e@);
    if !excluded.contains(WasteCategory::Recyclable) {
        if let Some(e) = get_event(
            street,
            street_number,
            &waste_data.recyclable_waste,
            WasteCategory::Recyclable.label(),
            changed,
        ) {
            events.push(e);
        }
    }
    proof {
        assert(events@.map_values(|e: CalendarEvent| e@) =~= done2 + slot_spec(
            street@,
            street_number@,
            sched,
            excluded,
            changed@,
            WasteCategory::Recyclable,
        ));
    }
    let ghost done3 = events@.map_values(|e: CalendarEvent| e@);
    if !excluded.contains(WasteCategory::Paper) {
        if let Some(e) = get_event(
            street,
            street_number,
            &waste_data.paper_waste,
            WasteCategory::Paper.label(),
            changed,
        ) {
            events.push(e);
        }
    }
    proof {
        assert(events@.map_values(|e: CalendarEvent| e@) =~= done3 + slot_spec(
            street@,
            street_number@,
            sched,
            excluded,
            changed@,
            WasteCategory::Paper,
        ));
    }
    let ghost done4 = events@.map_values(|e: CalendarEvent| e@);
    if !excluded.contains(WasteCategory::Bulky) {
        if let Some(e) = get_event(
            street,
            street_number,
            &waste_data.bulky_waste,
            WasteCategory::Bulky.label(),
            changed,
        ) {
            events.push(e);
        }
    }
    proof {
        assert(events@.map_values(|e: CalendarEvent| e@) =~= done4 + slot_spec(
            street@,
            street_number@,
            sched,
            excluded,
            changed@,
            WasteCategory::Bulky,
        ));
    }
    let r = CalendarDocument { properties, events };
    proof {
        assert(r@.events =~= events_spec(street@, street_number@, sched, excluded, changed@));
        assert(r@.properties =~= calendar_spec(
            street@,
            street_number@,
            sched,
            excluded,
            changed@,
        ).properties);
        assert(r@ =~= calendar_spec(street@, street_number@, sched, excluded, changed@));
    }
    r
}

/// Which source document format a fetch produced: the HTML table page, or
/// the iCalendar export.
#[derive(Debug, Clone, Copy, PartialEq, Eq, Structural)]
pub enum SourceFormat {
    Html,
    Ics,
}

/// Parse a raw source document into the waste data it carries, with the
/// extractor matching the fetch mode that produced it.
pub fn parse(format: SourceFormat, document: &str) -> (r: Result<WasteData, GarbageError>)
    ensures
        format == SourceFormat::Html ==> (r matches Ok(w) && w@ == html::html_schedule(
            html::scraped_rows(document@),
        ) && w@.well_formed()),
        format == SourceFormat::Ics ==> match r {
            Ok(w) => ics::ics_tokens(document@) matches Some(evs) && w@ == ics::ics_schedule(evs)
                && w@.well_formed(),
            Err(e) => e == GarbageError::MalformedDocument && ics::ics_tokens(document@) is None,
        },
{
    match format {
        SourceFormat::Html => html::parse(document),
        SourceFormat::Ics => ics::parse(document),
    }
}

/// Relies on `chrono::Local::now` and chrono's `%Y%m%dT%H%M%S` formatting
/// for the shared synthesis timestamp.  The value depends on the clock, so
/// nothing is promised of it.
#[verifier::external_body]
fn local_timestamp() -> (r: String) {
    chrono::Local::now().format("%Y%m%dT%H%M%S").to_string()
}

/// Build the calendar from the waste data, stamping every event with one
/// shared timestamp taken at synthesis time.
pub fn get_calendar(
    street: &str,
    street_number: &str,
    waste_data: WasteData,
    excluded: WasteTypeBitmask,
) -> (r: CalendarDocument)
    requires
        waste_data@.well_formed(),
    ensures
        exists|ts: Seq<char>|
            r@ == calendar_spec(street@, street_number@, waste_data@, excluded, ts),
{
    let changed = local_timestamp();
    let r = synthesize(street, street_number, &waste_data, excluded, changed.as_str());
    proof {
        assert(r@ == calendar_spec(street@, street_number@, waste_data@, excluded, changed@));
    }
    r
}

} // verus!
