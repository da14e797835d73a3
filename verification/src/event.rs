//! The synthesized calendar document: a property list per event and per
//! calendar, mirroring the iCalendar content lines that are emitted for it.

use vstd::prelude::*;

use crate::text::str_eq;

verus! {

/// The mathematical value of a property: name, optional value, parameters.
#[verifier::ext_equal]
pub struct PropertyView {
    pub name: Seq<char>,
    pub value: Option<Seq<char>>,
    pub params: Seq<(Seq<char>, Seq<char>)>,
}

/// One iCalendar content line: a named value with optional parameters.
#[derive(Debug, Clone)]
pub struct Property {
    pub name: String,
    pub value: Option<String>,
    pub params: Vec<(String, String)>,
}

impl View for Property {
    type V = PropertyView;

    open spec fn view(&self) -> PropertyView {
        PropertyView {
            name: self.name@,
            value: match self.value {
                Some(v) => Some(v@),
                None => None,
            },
            params: self.params@.map_values(|p: (String, String)| (p.0@, p.1@)),
        }
    }
}

impl Property {
    /// A property with a value and no parameters.
    pub fn plain(name: &str, value: String) -> (r: Property)
        ensures
            r@.name == name@,
            r@.value == Some(value@),
            r@.params =~= Seq::<(Seq<char>, Seq<char>)>::empty(),
    {
        let r = Property { name: String::from_str(name), value: Some(value), params: Vec::new() };
        proof {
            assert(r@.params =~= Seq::<(Seq<char>, Seq<char>)>::empty());
        }
        r
    }

    /// A property with a value and one parameter.
    pub fn with_param(name: &str, value: String, pname: &str, pvalue: &str) -> (r: Property)
        ensures
            r@.name == name@,
            r@.value == Some(value@),
            r@.params =~= seq![(pname@, pvalue@)],
    {
        let mut params: Vec<(String, String)> = Vec::new();
        params.push((String::from_str(pname), String::from_str(pvalue)));
        let r = Property { name: String::from_str(name), value: Some(value), params };
        proof {
            assert(r@.params =~= seq![(pname@, pvalue@)]);
        }
        r
    }
}

/// The first value among `props` carried under `name`: the value of the
/// first property so named, `None` when there is none or when the first
/// one so named carries no value.
pub open spec fn find_value(props: Seq<PropertyView>, name: Seq<char>) -> Option<Seq<char>>
    decreases props.len(),
{
    if props.len() == 0 {
        None
    } else if props[0].name == name {
        props[0].value
    } else {
        find_value(props.drop_first(), name)
    }
}

/// One synthesized calendar event, as its ordered property list.
#[derive(Debug, Clone)]
pub struct CalendarEvent {
    pub properties: Vec<Property>,
}

impl View for CalendarEvent {
    type V = Seq<PropertyView>;

    open spec fn view(&self) -> Seq<PropertyView> {
        self.properties@.map_values(|p: Property| p@)
    }
}

impl CalendarEvent {
    /// The value of the first property of this event named `name`.
    pub fn get_ical_property_value(&self, name: &str) -> (r: Option<&String>)
        ensures
            match r {
                Some(v) => find_value(self@, name@) == Some(v@),
                None => find_value(self@, name@) == None::<Seq<char>>,
            },
    {
        let mut i: usize = 0;
        proof {
            assert(self@.skip(0) =~= self@);
        }
        while i < self.properties.len()
            invariant
                i <= self.properties@.len(),
                find_value(self@, name@) == find_value(self@.skip(i as int), name@),
            decreases self.properties@.len() - i,
        {
            proof {
                assert(self@.skip(i as int)[0] == self@[i as int]);
                assert(self@.skip(i as int).drop_first() =~= self@.skip(i + 1));
            }
            if str_eq(self.properties[i].name.as_str(), name) {
                return match &self.properties[i].value {
                    Some(v) => Some(v),
                    None => None,
                };
            }
            i = i + 1;
        }
        proof {
            assert(self@.skip(i as int) =~= Seq::<PropertyView>::empty());
        }
        None
    }
}

/// The synthesized calendar: its own ordered property list (version,
/// scale, product identifier) and its events.
#[derive(Debug, Clone)]
pub struct CalendarDocument {
    pub properties: Vec<Property>,
    pub events: Vec<CalendarEvent>,
}

/// The mathematical value of a calendar document.
#[verifier::ext_equal]
pub struct DocumentView {
    pub properties: Seq<PropertyView>,
    pub events: Seq<Seq<PropertyView>>,
}

impl View for CalendarDocument {
    type V = DocumentView;

    open spec fn view(&self) -> DocumentView {
        DocumentView {
            properties: self.properties@.map_values(|p: Property| p@),
            events: self.events@.map_values(|e: CalendarEvent| e@),
        }
    }
}

} // verus!
