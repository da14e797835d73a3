//! The HTML-table extractor: scrape the row elements of the schedule
//! table, pick each row's category by its type column, and scan its date
//! column for `weekday. den DD.MM.YYYY` dates (bulky waste: a bare
//! `DD.MM.YYYY` behind a tag boundary in its own column).

use vstd::prelude::*;
use vstd::string::StrSliceExecFns;

use crate::date::{is_valid_ymd, Date};
use crate::garbage_client::GarbageError;
use crate::text::{
    contains_seq, digit_value, is_digit, is_space, is_word_char, space_char, str_contains,
    word_char,
};
use crate::waste::{dates_well_formed, spec_label, ScheduleView, WasteCategory, WasteData};

verus! {

/// The three column texts of one scraped row: the inner markup of the
/// first `.col_3-2` (type), `.col_3-3` (dates) and `.col_4-3` (bulky
/// waste date) element, each absent when the row has no such column.
#[derive(Debug, Clone)]
pub struct RowCols {
    pub type_col: Option<String>,
    pub date_col: Option<String>,
    pub bulky_col: Option<String>,
}

impl View for RowCols {
    type V = (Option<Seq<char>>, Option<Seq<char>>, Option<Seq<char>>);

    open spec fn view(&self) -> (Option<Seq<char>>, Option<Seq<char>>, Option<Seq<char>>) {
        (
            match self.type_col {
                Some(ref v) => Some(v@),
                None => None,
            },
            match self.date_col {
                Some(ref v) => Some(v@),
                None => None,
            },
            match self.bulky_col {
                Some(ref v) => Some(v@),
                None => None,
            },
        )
    }
}

/// What scraping the document yields: for every element of class `row`,
/// in document order, the inner markup of its first `col_3-2`, `col_3-3`
/// and `col_4-3` descendant.  The result is a function of the markup
/// alone.
pub uninterp spec fn scraped_rows(html: Seq<char>) -> Seq<
    (Option<Seq<char>>, Option<Seq<char>>, Option<Seq<char>>),
>;

/// Relies on `scraper`: `Html::parse_document`, `Selector::parse` (on the
/// four constant class selectors, all valid CSS), `select` and
/// `inner_html`.  The body only moves each row's three column texts into
/// a plain record.
#[verifier::external_body]
fn scrape_rows(html: &str) -> (r: Vec<RowCols>)
    ensures
        r@.map_values(|rc: RowCols| rc@) == scraped_rows(html@),
{
    let dom = scraper::Html::parse_document(html);
    let row_sel = scraper::Selector::parse(".row").unwrap();
    let type_sel = scraper::Selector::parse(".col_3-2").unwrap();
    let date_sel = scraper::Selector::parse(".col_3-3").unwrap();
    let bulky_sel = scraper::Selector::parse(".col_4-3").unwrap();
    dom.select(&row_sel)
        .map(|row| RowCols {
            type_col: row.select(&type_sel).next().map(|e| e.inner_html()),
            date_col: row.select(&date_sel).next().map(|e| e.inner_html()),
            bulky_col: row.select(&bulky_sel).next().map(|e| e.inner_html()),
        })
        .collect()
}

/// The first position at or after `i` that carries no whitespace, `s.len()`
/// when only whitespace remains.
pub open spec fn skip_spaces(s: Seq<char>, i: int) -> int
    decreases s.len() - i,
{
    if 0 <= i < s.len() && is_space(s[i]) {
        skip_spaces(s, i + 1)
    } else {
        i
    }
}

proof fn lemma_skip_spaces_bounds(s: Seq<char>, i: int)
    requires
        0 <= i <= s.len(),
    ensures
        i <= skip_spaces(s, i) <= s.len(),
    decreases s.len() - i,
{
    if i < s.len() && is_space(s[i]) {
        lemma_skip_spaces_bounds(s, i + 1);
    }
}

/// Whether the full date pattern matches at position `i`: a tag end `>`,
/// then whitespace, a two-letter weekday abbreviation with a dot, the word
/// `den`, and a `DD.MM.YYYY` digit group.
pub open spec fn date_match_at(s: Seq<char>, i: int) -> bool {
    let j = skip_spaces(s, i + 1);
    &&& 0 <= i < s.len()
    &&& s[i] == '>'
    &&& j + 18 <= s.len()
    &&& is_word_char(s[j])
    &&& is_word_char(s[j + 1])
    &&& s[j + 2] == '.'
    &&& is_space(s[j + 3])
    &&& s[j + 4] == 'd'
    &&& s[j + 5] == 'e'
    &&& s[j + 6] == 'n'
    &&& is_space(s[j + 7])
    &&& is_digit(s[j + 8])
    &&& is_digit(s[j + 9])
    &&& s[j + 10] == '.'
    &&& is_digit(s[j + 11])
    &&& is_digit(s[j + 12])
    &&& s[j + 13] == '.'
    &&& is_digit(s[j + 14])
    &&& is_digit(s[j + 15])
    &&& is_digit(s[j + 16])
    &&& is_digit(s[j + 17])
}

/// The position just after the date pattern matching at `i`.
pub open spec fn match_end(s: Seq<char>, i: int) -> int {
    skip_spaces(s, i + 1) + 18
}

/// The day, month and year digit groups of the date pattern at `i`.
pub open spec fn match_ymd(s: Seq<char>, i: int) -> (int, int, int) {
    let j = skip_spaces(s, i + 1);
    (
        1000 * digit_value(s[j + 14]) + 100 * digit_value(s[j + 15]) + 10 * digit_value(s[j + 16])
            + digit_value(s[j + 17]),
        10 * digit_value(s[j + 11]) + digit_value(s[j + 12]),
        10 * digit_value(s[j + 8]) + digit_value(s[j + 9]),
    )
}

/// The date named by the pattern at `i`, `None` when its digit groups name
/// no calendar day.
pub open spec fn match_date(s: Seq<char>, i: int) -> Option<Date> {
    let (y, m, d) = match_ymd(s, i);
    if is_valid_ymd(y, m, d) {
        Some(Date { year: y as u16, month: m as u8, day: d as u8 })
    } else {
        None
    }
}

/// Every date of the column markup from position `i` on, in source order:
/// successive leftmost matches of the date pattern, each valid calendar
/// day collected and each invalid digit group dropped individually.
pub open spec fn date_list(s: Seq<char>, i: int) -> Seq<Date>
    decreases s.len() - i,
    via date_list_decreases
{
    if !(0 <= i < s.len()) {
        Seq::empty()
    } else if date_match_at(s, i) {
        match match_date(s, i) {
            Some(d) => seq![d] + date_list(s, match_end(s, i)),
            None => date_list(s, match_end(s, i)),
        }
    } else {
        date_list(s, i + 1)
    }
}

#[via_fn]
proof fn date_list_decreases(s: Seq<char>, i: int) {
    if 0 <= i < s.len() && date_match_at(s, i) {
        lemma_skip_spaces_bounds(s, i + 1);
    }
}

proof fn lemma_date_list_wf(s: Seq<char>, i: int)
    ensures
        dates_well_formed(date_list(s, i)),
    decreases s.len() - i,
{
    if !(0 <= i < s.len()) {
    } else if date_match_at(s, i) {
        lemma_skip_spaces_bounds(s, i + 1);
        lemma_date_list_wf(s, match_end(s, i));
        if match_date(s, i) is Some {
            let d = match_date(s, i).unwrap();
            assert(d.well_formed());
            assert(forall|k: int|
                0 <= k < date_list(s, i).len() ==> (#[trigger] date_list(s, i)[k]).well_formed());
        }
    } else {
        lemma_date_list_wf(s, i + 1);
    }
}

/// Scan column markup for every `weekday. den DD.MM.YYYY` date.
pub fn find_dates(s: &str) -> (r: Vec<Date>)
    ensures
        r@ == date_list(s@, 0),
        dates_well_formed(r@),
{
    let n = s.unicode_len();
    let mut out: Vec<Date> = Vec::new();
    let mut i: usize = 0;
    while i < n
        invariant
            n == s@.len(),
            i <= n,
            out@ + date_list(s@, i as int) == date_list(s@, 0),
            dates_well_formed(out@),
        decreases n - i,
    {
        let mut advanced = false;
        if s.get_char(i) == '>' {
            // maximal whitespace run after the tag end
            let mut j = i + 1;
            while j < n && space_char(s.get_char(j))
                invariant
                    n == s@.len(),
                    i + 1 <= j <= n,
                    skip_spaces(s@, i + 1) == skip_spaces(s@, j as int),
                decreases n - j,
            {
                j = j + 1;
            }
            proof {
                assert(skip_spaces(s@, j as int) == j);
            }
            if n >= 18 && j <= n - 18 {
                let all = word_char(s.get_char(j)) && word_char(s.get_char(j + 1)) && s.get_char(
                    j + 2,
                ) == '.' && space_char(s.get_char(j + 3)) && s.get_char(j + 4) == 'd' && s.get_char(
                    j + 5,
                ) == 'e' && s.get_char(j + 6) == 'n' && space_char(s.get_char(j + 7)) && digit_char_at(
                    s,
                    j + 8,
                ) && digit_char_at(s, j + 9) && s.get_char(j + 10) == '.' && digit_char_at(s, j + 11)
                    && digit_char_at(s, j + 12) && s.get_char(j + 13) == '.' && digit_char_at(
                    s,
                    j + 14,
                ) && digit_char_at(s, j + 15) && digit_char_at(s, j + 16) && digit_char_at(s, j + 17);
                if all {
                    assert(date_match_at(s@, i as int));
                    let y: u32 = 1000 * (s.get_char(j + 14) as u32 - 48) + 100 * (s.get_char(j + 15)
                        as u32 - 48) + 10 * (s.get_char(j + 16) as u32 - 48) + (s.get_char(j + 17)
                        as u32 - 48);
                    let m: u32 = 10 * (s.get_char(j + 11) as u32 - 48) + (s.get_char(j + 12) as u32
                        - 48);
                    let d: u32 = 10 * (s.get_char(j + 8) as u32 - 48) + (s.get_char(j + 9) as u32
                        - 48);
                    if let Some(date) = Date::from_ymd_opt(y as u16, m as u8, d as u8) {
                        out.push(date);
                    }
                    proof {
                        assert(out@ + date_list(s@, j + 18) =~= date_list(s@, 0));
                    }
                    i = j + 18;
                    advanced = true;
                }
            }
        }
        if !advanced {
            proof {
                assert(date_list(s@, i as int) == date_list(s@, i + 1));
            }
            i = i + 1;
        }
    }
    proof {
        assert(out@ =~= date_list(s@, 0));
    }
    out
}

/// Whether the looser bulky-waste pattern matches at position `i`: a tag
/// end `>`, whitespace, and a bare `DD.MM.YYYY` digit group.
pub open spec fn bulky_match_at(s: Seq<char>, i: int) -> bool {
    let j = skip_spaces(s, i + 1);
    &&& 0 <= i < s.len()
    &&& s[i] == '>'
    &&& j + 10 <= s.len()
    &&& is_digit(s[j])
    &&& is_digit(s[j + 1])
    &&& s[j + 2] == '.'
    &&& is_digit(s[j + 3])
    &&& is_digit(s[j + 4])
    &&& s[j + 5] == '.'
    &&& is_digit(s[j + 6])
    &&& is_digit(s[j + 7])
    &&& is_digit(s[j + 8])
    &&& is_digit(s[j + 9])
}

/// The date named by the bulky-waste pattern at `i`, `None` when its digit
/// groups name no calendar day.
pub open spec fn bulky_match_date(s: Seq<char>, i: int) -> Option<Date> {
    let j = skip_spaces(s, i + 1);
    let y = 1000 * digit_value(s[j + 6]) + 100 * digit_value(s[j + 7]) + 10 * digit_value(s[j + 8])
        + digit_value(s[j + 9]);
    let m = 10 * digit_value(s[j + 3]) + digit_value(s[j + 4]);
    let d = 10 * digit_value(s[j]) + digit_value(s[j + 1]);
    if is_valid_ymd(y, m, d) {
        Some(Date { year: y as u16, month: m as u8, day: d as u8 })
    } else {
        None
    }
}

/// The date of the first (leftmost) bulky-waste pattern match at or after
/// `i`: `None` when nothing matches, and also when the first match's digit
/// groups name no calendar day.
pub open spec fn first_bulky_date(s: Seq<char>, i: int) -> Option<Date>
    decreases s.len() - i,
{
    if !(0 <= i < s.len()) {
        None
    } else if bulky_match_at(s, i) {
        bulky_match_date(s, i)
    } else {
        first_bulky_date(s, i + 1)
    }
}

/// Scan bulky-waste column markup for the first `DD.MM.YYYY` behind a tag
/// boundary.
pub fn find_bulky_date(s: &str) -> (r: Option<Date>)
    ensures
        r == first_bulky_date(s@, 0),
        r matches Some(d) ==> d.well_formed(),
{
    let n = s.unicode_len();
    let mut i: usize = 0;
    while i < n
        invariant
            n == s@.len(),
            i <= n,
            first_bulky_date(s@, i as int) == first_bulky_date(s@, 0),
        decreases n - i,
    {
        if s.get_char(i) == '>' {
            let mut j = i + 1;
            while j < n && space_char(s.get_char(j))
                invariant
                    n == s@.len(),
                    i + 1 <= j <= n,
                    skip_spaces(s@, i + 1) == skip_spaces(s@, j as int),
                decreases n - j,
            {
                j = j + 1;
            }
            proof {
                assert(skip_spaces(s@, j as int) == j);
            }
            if n >= 10 && j <= n - 10 {
                let all = digit_char_at(s, j) && digit_char_at(s, j + 1) && s.get_char(j + 2) == '.'
                    && digit_char_at(s, j + 3) && digit_char_at(s, j + 4) && s.get_char(j + 5)
                    == '.' && digit_char_at(s, j + 6) && digit_char_at(s, j + 7) && digit_char_at(
                    s,
                    j + 8,
                ) && digit_char_at(s, j + 9);
                if all {
                    assert(bulky_match_at(s@, i as int));
                    let y: u32 = 1000 * (s.get_char(j + 6) as u32 - 48) + 100 * (s.get_char(j + 7)
                        as u32 - 48) + 10 * (s.get_char(j + 8) as u32 - 48) + (s.get_char(j + 9)
                        as u32 - 48);
                    let m: u32 = 10 * (s.get_char(j + 3) as u32 - 48) + (s.get_char(j + 4) as u32
                        - 48);
                    let d: u32 = 10 * (s.get_char(j) as u32 - 48) + (s.get_char(j + 1) as u32 - 48);
                    return Date::from_ymd_opt(y as u16, m as u8, d as u8);
                }
            }
        }
        proof {
            assert(first_bulky_date(s@, i as int) == first_bulky_date(s@, i + 1));
        }
        i = i + 1;
    }
    None
}

/// Whether position `i` of `s` carries a decimal digit.
fn digit_char_at(s: &str, i: usize) -> (r: bool)
    requires
        i < s@.len(),
    ensures
        r == is_digit(s@[i as int]),
{
    let c = s.get_char(i);
    '0' <= c && c <= '9'
}

/// The category of a row, by the first of the five labels occurring in its
/// type column, in canonical order; rows carry exactly one category, so
/// the first match wins.
pub open spec fn row_category(type_col: Seq<char>) -> Option<WasteCategory> {
    if contains_seq(type_col, spec_label(WasteCategory::Residual)) {
        Some(WasteCategory::Residual)
    } else if contains_seq(type_col, spec_label(WasteCategory::Organic)) {
        Some(WasteCategory::Organic)
    } else if contains_seq(type_col, spec_label(WasteCategory::Recyclable)) {
        Some(WasteCategory::Recyclable)
    } else if contains_seq(type_col, spec_label(WasteCategory::Paper)) {
        Some(WasteCategory::Paper)
    } else if contains_seq(type_col, spec_label(WasteCategory::Bulky)) {
        Some(WasteCategory::Bulky)
    } else {
        None
    }
}

/// How one row updates the schedule.  A row without a type column or with
/// an unknown category is skipped; one whose date column is absent leaves
/// its category empty; and only the first row that fills a category
/// counts.
pub open spec fn row_update(
    sched: ScheduleView,
    row: (Option<Seq<char>>, Option<Seq<char>>, Option<Seq<char>>),
) -> ScheduleView {
    match row.0 {
        None => sched,
        Some(t) => match row_category(t) {
            None => sched,
            Some(WasteCategory::Residual) => match row.1 {
                Some(dc) => if sched.residual.len() == 0 {
                    ScheduleView { residual: date_list(dc, 0), ..sched }
                } else {
                    sched
                },
                None => sched,
            },
            Some(WasteCategory::Organic) => match row.1 {
                Some(dc) => if sched.organic.len() == 0 {
                    ScheduleView { organic: date_list(dc, 0), ..sched }
                } else {
                    sched
                },
                None => sched,
            },
            Some(WasteCategory::Recyclable) => match row.1 {
                Some(dc) => if sched.recyclable.len() == 0 {
                    ScheduleView { recyclable: date_list(dc, 0), ..sched }
                } else {
                    sched
                },
                None => sched,
            },
            Some(WasteCategory::Paper) => match row.1 {
                Some(dc) => if sched.paper.len() == 0 {
                    ScheduleView { paper: date_list(dc, 0), ..sched }
                } else {
                    sched
                },
                None => sched,
            },
            Some(WasteCategory::Bulky) => match row.2 {
                Some(bc) => if sched.bulky.len() == 0 {
                    ScheduleView {
                        bulky: match first_bulky_date(bc, 0) {
                            Some(d) => seq![d],
                            None => Seq::empty(),
                        },
                        ..sched
                    }
                } else {
                    sched
                },
                None => sched,
            },
        },
    }
}

/// Fold the rows from position `i` on over the accumulated schedule.
pub open spec fn rows_fold(
    rows: Seq<(Option<Seq<char>>, Option<Seq<char>>, Option<Seq<char>>)>,
    i: int,
    acc: ScheduleView,
) -> ScheduleView
    decreases rows.len() - i,
{
    if i < 0 || i >= rows.len() {
        acc
    } else {
        rows_fold(rows, i + 1, row_update(acc, rows[i]))
    }
}

/// The schedule that a scraped row list yields.
pub open spec fn html_schedule(
    rows: Seq<(Option<Seq<char>>, Option<Seq<char>>, Option<Seq<char>>)>,
) -> ScheduleView {
    rows_fold(rows, 0, ScheduleView::empty())
}

/// Collect the per-category dates of a scraped row list.
pub fn schedule_from_rows(rows: &Vec<RowCols>) -> (r: WasteData)
    ensures
        r@ == html_schedule(rows@.map_values(|rc: RowCols| rc@)),
        r@.well_formed(),
{
    let ghost rvs = rows@.map_values(|rc: RowCols| rc@);
    let mut data = WasteData {
        residual_waste: Vec::new(),
        organic_waste: Vec::new(),
        recyclable_waste: Vec::new(),
        paper_waste: Vec::new(),
        bulky_waste: Vec::new(),
    };
    proof {
        assert(data@ =~= ScheduleView::empty());
    }
    let mut i: usize = 0;
    while i < rows.len()
        invariant
            i <= rows@.len(),
            rvs == rows@.map_values(|rc: RowCols| rc@),
            rows_fold(rvs, i as int, data@) == html_schedule(rvs),
            data@.well_formed(),
        decreases rows@.len() - i,
    {
        let ghost before = data@;
        let row = &rows[i];
        if let Some(t) = &row.type_col {
            if str_contains(t.as_str(), WasteCategory::Residual.label()) {
                if let Some(dc) = &row.date_col {
                    if data.residual_waste.len() == 0 {
                        data.residual_waste = find_dates(dc.as_str());
                    }
                }
            } else if str_contains(t.as_str(), WasteCategory::Organic.label()) {
                if let Some(dc) = &row.date_col {
                    if data.organic_waste.len() == 0 {
                        data.organic_waste = find_dates(dc.as_str());
                    }
                }
            } else if str_contains(t.as_str(), WasteCategory::Recyclable.label()) {
                if let Some(dc) = &row.date_col {
                    if data.recyclable_waste.len() == 0 {
                        data.recyclable_waste = find_dates(dc.as_str());
                    }
                }
            } else if str_contains(t.as_str(), WasteCategory::Paper.label()) {
                if let Some(dc) = &row.date_col {
                    if data.paper_waste.len() == 0 {
                        data.paper_waste = find_dates(dc.as_str());
                    }
                }
            } else if str_contains(t.as_str(), WasteCategory::Bulky.label()) {
                if let Some(bc) = &row.bulky_col {
                    if data.bulky_waste.len() == 0 {
                        if let Some(d) = find_bulky_date(bc.as_str()) {
                            let mut one: Vec<Date> = Vec::new();
                            one.push(d);
                            data.bulky_waste = one;
                        }
                    }
                }
            }
        }
        proof {
            assert(rvs[i as int] == rows@[i as int]@);
            assert(data@ =~= row_update(before, rvs[i as int]));
        }
        i = i + 1;
    }
    data
}

/// Parse the garbage HTML to usable waste data.  Absence of rows, columns
/// or dates yields an emptier schedule, never an error.
pub fn parse(html: &str) -> (r: Result<WasteData, GarbageError>)
    ensures
        r matches Ok(w) && w@ == html_schedule(scraped_rows(html@)) && w@.well_formed(),
{
    let rows = scrape_rows(html);
    Ok(schedule_from_rows(&rows))
}

} // verus!
