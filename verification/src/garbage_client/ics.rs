//! The iCalendar-source extractor: tokenize the exported calendar text
//! into events, then collect each event's date under every category whose
//! label occurs in the event's summary.

use vstd::prelude::*;
use vstd::string::StrSliceExecFns;

use crate::date::{is_valid_ymd, Date};
use crate::garbage_client::GarbageError;
use crate::text::{contains_seq, digit_value, is_digit, str_contains, str_eq};
use crate::waste::{spec_label, ScheduleView, WasteCategory, WasteData};

verus! {

/// The name and optional value of one tokenized property.
#[derive(Debug, Clone)]
pub struct IcsProperty {
    pub name: String,
    pub value: Option<String>,
}

impl View for IcsProperty {
    type V = (Seq<char>, Option<Seq<char>>);

    open spec fn view(&self) -> (Seq<char>, Option<Seq<char>>) {
        (
            self.name@,
            match self.value {
                Some(v) => Some(v@),
                None => None,
            },
        )
    }
}

/// One tokenized event: its ordered property list.
#[derive(Debug, Clone)]
pub struct IcsEvent {
    pub properties: Vec<IcsProperty>,
}

impl View for IcsEvent {
    type V = Seq<(Seq<char>, Option<Seq<char>>)>;

    open spec fn view(&self) -> Seq<(Seq<char>, Option<Seq<char>>)> {
        self.properties@.map_values(|p: IcsProperty| p@)
    }
}

/// What `ical::IcalParser` tokenizes a text into: the events of all its
/// calendars in order, each as its named property list; `None` when some
/// calendar fails to tokenize.  The result is a function of the text
/// alone.
pub uninterp spec fn ics_tokens(ics: Seq<char>) -> Option<Seq<Seq<(Seq<char>, Option<Seq<char>>)>>>;

/// Relies on `ical::IcalParser`: it turns iCalendar text into a stream of
/// calendars, each carrying its events as property lists with the name in
/// upper case; an unparsable calendar yields an error item.  The body only
/// moves those properties into plain pairs.
#[verifier::external_body]
fn tokenize(ics: &str) -> (r: Option<Vec<IcsEvent>>)
    ensures
        r matches Some(v) ==> ics_tokens(ics@) == Some(v@.map_values(|e: IcsEvent| e@)),
        r is None <==> ics_tokens(ics@) is None,
{
    let reader = std::io::BufReader::new(std::io::Cursor::new(ics));
    let mut events: Vec<IcsEvent> = Vec::new();
    for calendar in ical::IcalParser::new(reader) {
        match calendar {
            Err(_) => return None,
            Ok(cal) => events.extend(cal.events.into_iter().map(|ev| IcsEvent {
                properties: ev
                    .properties
                    .into_iter()
                    .map(|p| IcsProperty { name: p.name, value: p.value })
                    .collect(),
            })),
        }
    }
    Some(events)
}

/// The value of the first property named `name`: `None` when no property
/// carries the name, or when the first one carrying it has no value.
pub open spec fn pair_value(
    props: Seq<(Seq<char>, Option<Seq<char>>)>,
    name: Seq<char>,
) -> Option<Seq<char>>
    decreases props.len(),
{
    if props.len() == 0 {
        None
    } else if props[0].0 == name {
        props[0].1
    } else {
        pair_value(props.drop_first(), name)
    }
}

impl IcsEvent {
    /// The value of the first property of this event named `name`.
    pub fn get_ical_property_value(&self, name: &str) -> (r: Option<&String>)
        ensures
            match r {
                Some(v) => pair_value(self@, name@) == Some(v@),
                None => pair_value(self@, name@) == None::<Seq<char>>,
            },
    {
        let mut i: usize = 0;
        proof {
            assert(self@.skip(0) =~= self@);
        }
        while i < self.properties.len()
            invariant
                i <= self.properties@.len(),
                pair_value(self@, name@) == pair_value(self@.skip(i as int), name@),
            decreases self.properties@.len() - i,
        {
            proof {
                assert(self@.skip(i as int)[0] == self@[i as int]);
                assert(self@.skip(i as int).drop_first() =~= self@.skip(i + 1));
            }
            if str_eq(self.properties[i].name.as_str(), name) {
                return match &self.properties[i].value {
                    Some(v) => Some(v),
                    None => None,
                };
            }
            i = i + 1;
        }
        proof {
            assert(self@.skip(i as int) =~= Seq::<(Seq<char>, Option<Seq<char>>)>::empty());
        }
        None
    }
}

/// The date named by a `DTSTART` value: its first eight characters read as
/// `YYYYMMDD`, `None` when they are not eight digits naming a calendar
/// day.
pub open spec fn dtstart_date(v: Seq<char>) -> Option<Date> {
    if v.len() >= 8 && (forall|k: int| 0 <= k < 8 ==> is_digit(#[trigger] v[k])) {
        let y = 1000 * digit_value(v[0]) + 100 * digit_value(v[1]) + 10 * digit_value(v[2])
            + digit_value(v[3]);
        let m = 10 * digit_value(v[4]) + digit_value(v[5]);
        let d = 10 * digit_value(v[6]) + digit_value(v[7]);
        if is_valid_ymd(y, m, d) {
            Some(Date { year: y as u16, month: m as u8, day: d as u8 })
        } else {
            None
        }
    } else {
        None
    }
}

/// Decode a `DTSTART` value into the date it names.
pub fn parse_dtstart(v: &str) -> (r: Option<Date>)
    ensures
        r == dtstart_date(v@),
        r matches Some(d) ==> d.well_formed(),
{
    let n = v.unicode_len();
    if n < 8 {
        return None;
    }
    let mut k: usize = 0;
    while k < 8
        invariant
            8 <= v@.len(),
            k <= 8,
            forall|t: int| 0 <= t < k ==> is_digit(#[trigger] v@[t]),
        decreases 8 - k,
    {
        let c = v.get_char(k);
        if !('0' <= c && c <= '9') {
            return None;
        }
        k = k + 1;
    }
    let y: u32 = 1000 * (v.get_char(0) as u32 - 48) + 100 * (v.get_char(1) as u32 - 48) + 10 * (
    v.get_char(2) as u32 - 48) + (v.get_char(3) as u32 - 48);
    let m: u32 = 10 * (v.get_char(4) as u32 - 48) + (v.get_char(5) as u32 - 48);
    let d: u32 = 10 * (v.get_char(6) as u32 - 48) + (v.get_char(7) as u32 - 48);
    Date::from_ymd_opt(y as u16, m as u8, d as u8)
}

/// One event's contribution: its date appended to every category whose
/// label occurs in its summary.
pub open spec fn category_appends(sched: ScheduleView, summary: Seq<char>, date: Date) -> ScheduleView {
    ScheduleView {
        residual: if contains_seq(summary, spec_label(WasteCategory::Residual)) {
            sched.residual.push(date)
        } else {
            sched.residual
        },
        organic: if contains_seq(summary, spec_label(WasteCategory::Organic)) {
            sched.organic.push(date)
        } else {
            sched.organic
        },
        recyclable: if contains_seq(summary, spec_label(WasteCategory::Recyclable)) {
            sched.recyclable.push(date)
        } else {
            sched.recyclable
        },
        paper: if contains_seq(summary, spec_label(WasteCategory::Paper)) {
            sched.paper.push(date)
        } else {
            sched.paper
        },
        bulky: if contains_seq(summary, spec_label(WasteCategory::Bulky)) {
            sched.bulky.push(date)
        } else {
            sched.bulky
        },
    }
}

/// How one event updates the schedule: an event without a summary or
/// without a decodable `DTSTART` date is skipped entirely.
pub open spec fn event_update(
    sched: ScheduleView,
    props: Seq<(Seq<char>, Option<Seq<char>>)>,
) -> ScheduleView {
    match (pair_value(props, "SUMMARY"@), pair_value(props, "DTSTART"@)) {
        (Some(summary), Some(dv)) => match dtstart_date(dv) {
            Some(date) => category_appends(sched, summary, date),
            None => sched,
        },
        _ => sched,
    }
}

/// Fold the events from position `i` on over the accumulated schedule.
pub open spec fn fold_events(
    events: Seq<Seq<(Seq<char>, Option<Seq<char>>)>>,
    i: int,
    acc: ScheduleView,
) -> ScheduleView
    decreases events.len() - i,
{
    if i < 0 || i >= events.len() {
        acc
    } else {
        fold_events(events, i + 1, event_update(acc, events[i]))
    }
}

/// The schedule that a tokenized event list yields.
pub open spec fn ics_schedule(events: Seq<Seq<(Seq<char>, Option<Seq<char>>)>>) -> ScheduleView {
    fold_events(events, 0, ScheduleView::empty())
}

proof fn lemma_fold_events_wf(events: Seq<Seq<(Seq<char>, Option<Seq<char>>)>>, i: int, acc: ScheduleView)
    requires
        acc.well_formed(),
    ensures
        fold_events(events, i, acc).well_formed(),
    decreases events.len() - i,
{
    if 0 <= i < events.len() {
        let next = event_update(acc, events[i]);
        assert(next.well_formed());
        lemma_fold_events_wf(events, i + 1, next);
    }
}

/// Collect the per-category dates of a tokenized event list.
pub fn schedule_from_events(events: &Vec<IcsEvent>) -> (r: WasteData)
    ensures
        r@ == ics_schedule(events@.map_values(|e: IcsEvent| e@)),
        r@.well_formed(),
{
    let ghost evs = events@.map_values(|e: IcsEvent| e@);
    let mut data = WasteData {
        residual_waste: Vec::new(),
        organic_waste: Vec::new(),
        recyclable_waste: Vec::new(),
        paper_waste: Vec::new(),
        bulky_waste: Vec::new(),
    };
    proof {
        assert(data@ =~= ScheduleView::empty());
    }
    let mut i: usize = 0;
    while i < events.len()
        invariant
            i <= events@.len(),
            evs == events@.map_values(|e: IcsEvent| e@),
            fold_events(evs, i as int, data@) == ics_schedule(evs),
            data@.well_formed(),
        decreases events@.len() - i,
    {
        let ghost before = data@;
        let ev = &events[i];
        let summary_opt = ev.get_ical_property_value("SUMMARY");
        if let Some(summary) = summary_opt {
            let date_value = ev.get_ical_property_value("DTSTART");
            if let Some(dv) = date_value {
                if let Some(date) = parse_dtstart(dv.as_str()) {
                    if str_contains(summary.as_str(), WasteCategory::Residual.label()) {
                        data.residual_waste.push(date);
                    }
                    if str_contains(summary.as_str(), WasteCategory::Organic.label()) {
                        data.organic_waste.push(date);
                    }
                    if str_contains(summary.as_str(), WasteCategory::Recyclable.label()) {
                        data.recyclable_waste.push(date);
                    }
                    if str_contains(summary.as_str(), WasteCategory::Paper.label()) {
                        data.paper_waste.push(date);
                    }
                    if str_contains(summary.as_str(), WasteCategory::Bulky.label()) {
                        data.bulky_waste.push(date);
                    }
                    proof {
                        assert(data@ =~= category_appends(before, summary@, date));
                    }
                }
            }
        }
        proof {
            assert(evs[i as int] == events@[i as int]@);
            assert(data@ == event_update(before, evs[i as int]));
        }
        i = i + 1;
    }
    data
}

/// Parse the official iCalendar export into the waste data it carries.
pub fn parse(ics: &str) -> (r: Result<WasteData, GarbageError>)
    ensures
        match r {
            Ok(w) => ics_tokens(ics@) matches Some(evs) && w@ == ics_schedule(evs)
                && w@.well_formed(),
            Err(e) => e == GarbageError::MalformedDocument && ics_tokens(ics@) is None,
        },
{
    match tokenize(ics) {
        None => Err(GarbageError::MalformedDocument),
        Some(events) => Ok(schedule_from_events(&events)),
    }
}

} // verus!
