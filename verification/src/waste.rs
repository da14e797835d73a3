//! The waste categories, their source-language labels, the per-category
//! schedule record, and the category exclusion mask.

use vstd::prelude::*;

use crate::date::Date;

verus! {

/// The five waste-collection categories, in canonical output order.
#[derive(Debug, Clone, Copy, PartialEq, Eq, Structural)]
pub enum WasteCategory {
    Residual,
    Organic,
    Recyclable,
    Paper,
    Bulky,
}

/// The source-language display label of a category, used both for matching
/// rows and events in the source documents and for naming output events.
pub open spec fn spec_label(c: WasteCategory) -> Seq<char> {
    match c {
        WasteCategory::Residual => "Restmüll"@,
        WasteCategory::Organic => "Bioabfall"@,
        WasteCategory::Recyclable => "Wertstoff"@,
        WasteCategory::Paper => "Papier"@,
        WasteCategory::Bulky => "Sperrmüllabholung"@,
    }
}

impl WasteCategory {
    /// The display label of this category.
    pub fn label(&self) -> (r: &'static str)
        ensures
            r@ == spec_label(*self),
    {
        match self {
            WasteCategory::Residual => "Restmüll",
            WasteCategory::Organic => "Bioabfall",
            WasteCategory::Recyclable => "Wertstoff",
            WasteCategory::Paper => "Papier",
            WasteCategory::Bulky => "Sperrmüllabholung",
        }
    }
}

/// The mathematical value of a schedule: one date sequence per category.
#[verifier::ext_equal]
pub struct ScheduleView {
    pub residual: Seq<Date>,
    pub organic: Seq<Date>,
    pub recyclable: Seq<Date>,
    pub paper: Seq<Date>,
    pub bulky: Seq<Date>,
}

impl ScheduleView {
    /// The date sequence of category `c`.
    pub open spec fn dates(self, c: WasteCategory) -> Seq<Date> {
        match c {
            WasteCategory::Residual => self.residual,
            WasteCategory::Organic => self.organic,
            WasteCategory::Recyclable => self.recyclable,
            WasteCategory::Paper => self.paper,
            WasteCategory::Bulky => self.bulky,
        }
    }

    /// The empty schedule.
    pub open spec fn empty() -> ScheduleView {
        ScheduleView {
            residual: Seq::empty(),
            organic: Seq::empty(),
            recyclable: Seq::empty(),
            paper: Seq::empty(),
            bulky: Seq::empty(),
        }
    }

    /// Every date of every category names a calendar day.
    pub open spec fn well_formed(self) -> bool {
        &&& dates_well_formed(self.residual)
        &&& dates_well_formed(self.organic)
        &&& dates_well_formed(self.recyclable)
        &&& dates_well_formed(self.paper)
        &&& dates_well_formed(self.bulky)
    }
}

/// Every date of the sequence names a calendar day.
pub open spec fn dates_well_formed(s: Seq<Date>) -> bool {
    forall|i: int| 0 <= i < s.len() ==> (#[trigger] s[i]).well_formed()
}

/// The canonical output order of the categories, by position.
pub open spec fn category_order(k: int) -> WasteCategory {
    if k == 0 {
        WasteCategory::Residual
    } else if k == 1 {
        WasteCategory::Organic
    } else if k == 2 {
        WasteCategory::Recyclable
    } else if k == 3 {
        WasteCategory::Paper
    } else {
        WasteCategory::Bulky
    }
}

/// The data extracted from one source document: the ordered collection
/// dates of each category, in source order, neither deduplicated nor
/// sorted.
#[derive(Debug)]
pub struct WasteData {
    pub residual_waste: Vec<Date>,
    pub organic_waste: Vec<Date>,
    pub recyclable_waste: Vec<Date>,
    pub paper_waste: Vec<Date>,
    pub bulky_waste: Vec<Date>,
}

impl View for WasteData {
    type V = ScheduleView;

    open spec fn view(&self) -> ScheduleView {
        ScheduleView {
            residual: self.residual_waste@,
            organic: self.organic_waste@,
            recyclable: self.recyclable_waste@,
            paper: self.paper_waste@,
            bulky: self.bulky_waste@,
        }
    }
}

/// Compare two date vectors element by element.
fn dates_eq(a: &Vec<Date>, b: &Vec<Date>) -> (r: bool)
    ensures
        r == (a@ == b@),
{
    if a.len() != b.len() {
        return false;
    }
    let mut i: usize = 0;
    while i < a.len()
        invariant
            a@.len() == b@.len(),
            i <= a@.len(),
            forall|k: int| 0 <= k < i ==> a@[k] == b@[k],
        decreases a@.len() - i,
    {
        if a[i] != b[i] {
            return false;
        }
        i = i + 1;
    }
    proof {
        assert(a@ =~= b@);
    }
    true
}

impl PartialEq for WasteData {
    fn eq(&self, other: &WasteData) -> (r: bool) {
        dates_eq(&self.residual_waste, &other.residual_waste) && dates_eq(
            &self.organic_waste,
            &other.organic_waste,
        ) && dates_eq(&self.recyclable_waste, &other.recyclable_waste) && dates_eq(
            &self.paper_waste,
            &other.paper_waste,
        ) && dates_eq(&self.bulky_waste, &other.bulky_waste)
    }
}

impl vstd::std_specs::cmp::PartialEqSpecImpl for WasteData {
    open spec fn obeys_eq_spec() -> bool {
        true
    }

    open spec fn eq_spec(&self, other: &WasteData) -> bool {
        self@ == other@
    }
}

/// The category exclusion mask: one flag per category, a set flag meaning
/// that the category is left out of the synthesized calendar.
#[derive(Debug, Clone, Copy, PartialEq, Eq, Structural)]
pub struct WasteTypeBitmask {
    pub residual: bool,
    pub organic: bool,
    pub recyclable: bool,
    pub paper: bool,
    pub bulky: bool,
}

/// The historical name of the exclusion mask, kept for callers of the
/// HTML-sourced pipeline.
pub type ExcludeWasteType = WasteTypeBitmask;

impl WasteTypeBitmask {
    /// Whether category `c` is excluded.
    pub open spec fn spec_excludes(self, c: WasteCategory) -> bool {
        match c {
            WasteCategory::Residual => self.residual,
            WasteCategory::Organic => self.organic,
            WasteCategory::Recyclable => self.recyclable,
            WasteCategory::Paper => self.paper,
            WasteCategory::Bulky => self.bulky,
        }
    }

    /// The mask that excludes nothing.
    pub open spec fn spec_none() -> WasteTypeBitmask {
        WasteTypeBitmask {
            residual: false,
            organic: false,
            recyclable: false,
            paper: false,
            bulky: false,
        }
    }

    /// This mask with category `c` also excluded.
    pub open spec fn spec_with(self, c: WasteCategory) -> WasteTypeBitmask {
        match c {
            WasteCategory::Residual => WasteTypeBitmask { residual: true, ..self },
            WasteCategory::Organic => WasteTypeBitmask { organic: true, ..self },
            WasteCategory::Recyclable => WasteTypeBitmask { recyclable: true, ..self },
            WasteCategory::Paper => WasteTypeBitmask { paper: true, ..self },
            WasteCategory::Bulky => WasteTypeBitmask { bulky: true, ..self },
        }
    }

    /// The mask that excludes every category but `c`.
    pub open spec fn spec_inverted(c: WasteCategory) -> WasteTypeBitmask {
        WasteTypeBitmask {
            residual: c != WasteCategory::Residual,
            organic: c != WasteCategory::Organic,
            recyclable: c != WasteCategory::Recyclable,
            paper: c != WasteCategory::Paper,
            bulky: c != WasteCategory::Bulky,
        }
    }

    /// The default mask: nothing excluded.
    pub fn none() -> (r: WasteTypeBitmask)
        ensures
            r == WasteTypeBitmask::spec_none(),
    {
        WasteTypeBitmask {
            residual: false,
            organic: false,
            recyclable: false,
            paper: false,
            bulky: false,
        }
    }

    /// The mask that excludes only `c`.
    pub fn only(c: WasteCategory) -> (r: WasteTypeBitmask)
        ensures
            forall|d: WasteCategory| r.spec_excludes(d) == (d == c),
    {
        WasteTypeBitmask {
            residual: matches!(c, WasteCategory::Residual),
            organic: matches!(c, WasteCategory::Organic),
            recyclable: matches!(c, WasteCategory::Recyclable),
            paper: matches!(c, WasteCategory::Paper),
            bulky: matches!(c, WasteCategory::Bulky),
        }
    }

    /// The mask that excludes every category but `c`, for the
    /// single-category calendar variants.
    pub fn inverted(c: WasteCategory) -> (r: WasteTypeBitmask)
        ensures
            r == WasteTypeBitmask::spec_inverted(c),
    {
        WasteTypeBitmask {
            residual: !matches!(c, WasteCategory::Residual),
            organic: !matches!(c, WasteCategory::Organic),
            recyclable: !matches!(c, WasteCategory::Recyclable),
            paper: !matches!(c, WasteCategory::Paper),
            bulky: !matches!(c, WasteCategory::Bulky),
        }
    }

    /// The union of two masks.
    pub fn or(self, other: WasteTypeBitmask) -> (r: WasteTypeBitmask)
        ensures
            forall|c: WasteCategory|
                #[trigger] r.spec_excludes(c) == (self.spec_excludes(c) || other.spec_excludes(c)),
    {
        WasteTypeBitmask {
            residual: self.residual || other.residual,
            organic: self.organic || other.organic,
            recyclable: self.recyclable || other.recyclable,
            paper: self.paper || other.paper,
            bulky: self.bulky || other.bulky,
        }
    }

    /// Whether category `c` is excluded.
    pub fn contains(&self, c: WasteCategory) -> (r: bool)
        ensures
            r == self.spec_excludes(c),
    {
        match c {
            WasteCategory::Residual => self.residual,
            WasteCategory::Organic => self.organic,
            WasteCategory::Recyclable => self.recyclable,
            WasteCategory::Paper => self.paper,
            WasteCategory::Bulky => self.bulky,
        }
    }
}

} // verus!
