//! The library's laws: properties of the synthesizer, the header hint and
//! the identity deriver that hold for every input, stated and proved once.

use vstd::prelude::*;

use crate::date::{ymd_chars, Date};
use crate::event::{find_value, PropertyView};
use crate::garbage_client::{
    event_spec, events_spec, hint_label, location_chars, rdate_chars, slot_spec, spec_source_url,
    uid_spec,
};
use crate::text::{collapse_from, collapse_spaces, is_space};
use crate::waste::{category_order, spec_label, ScheduleView, WasteCategory, WasteTypeBitmask};

verus! {

proof fn lemma_find_value_at(props: Seq<PropertyView>, name: Seq<char>, p: int)
    requires
        0 <= p < props.len(),
        forall|k: int| 0 <= k < p ==> (#[trigger] props[k]).name != name,
        props[p].name == name,
    ensures
        find_value(props, name) == props[p].value,
    decreases p,
{
    if p > 0 {
        let rest = props.drop_first();
        assert(forall|k: int| 0 <= k < p - 1 ==> #[trigger] rest[k] == props[k + 1]);
        lemma_find_value_at(rest, name, p - 1);
    }
}

/// Looking a property up in a synthesized event yields exactly the value
/// that the synthesizer put there.
pub proof fn lemma_event_property_lookup(
    street: Seq<char>,
    street_number: Seq<char>,
    summary: Seq<char>,
    dates: Seq<Date>,
    changed: Seq<char>,
)
    ensures
        ({
            let e = event_spec(street, street_number, summary, dates, changed);
            &&& find_value(e, "UID"@) == Some(uid_spec(street, street_number, summary))
            &&& find_value(e, "DTSTAMP"@) == Some(changed)
            &&& find_value(e, "DTSTART"@) == Some(ymd_chars(dates[0]))
            &&& find_value(e, "SUMMARY"@) == Some(summary)
            &&& find_value(e, "RDATE"@) == Some(rdate_chars(dates))
            &&& find_value(e, "LOCATION"@) == Some(location_chars(street, street_number))
            &&& find_value(e, "DESCRIPTION"@) == Some(spec_source_url())
            &&& find_value(e, "TRANSP"@) == Some("TRANSPARENT"@)
        }),
{
    reveal_strlit("UID");
    reveal_strlit("DTSTAMP");
    reveal_strlit("DTSTART");
    reveal_strlit("SUMMARY");
    reveal_strlit("RDATE");
    reveal_strlit("LOCATION");
    reveal_strlit("DESCRIPTION");
    reveal_strlit("TRANSP");
    let e = event_spec(street, street_number, summary, dates, changed);
    assert(("UID"@).len() == 3);
    assert(("DTSTAMP"@).len() == 7);
    assert(("DTSTART"@).len() == 7);
    assert(("SUMMARY"@).len() == 7);
    assert(("RDATE"@).len() == 5);
    assert(("LOCATION"@).len() == 8);
    assert(("DESCRIPTION"@).len() == 11);
    assert(("TRANSP"@).len() == 6);
    assert(("DTSTAMP"@)[5] != ("DTSTART"@)[5]);
    assert(("DTSTAMP"@)[0] != ("SUMMARY"@)[0]);
    assert(("DTSTART"@)[0] != ("SUMMARY"@)[0]);
    lemma_find_value_at(e, "UID"@, 0);
    lemma_find_value_at(e, "DTSTAMP"@, 1);
    lemma_find_value_at(e, "DTSTART"@, 2);
    lemma_find_value_at(e, "SUMMARY"@, 3);
    lemma_find_value_at(e, "RDATE"@, 4);
    lemma_find_value_at(e, "LOCATION"@, 5);
    lemma_find_value_at(e, "DESCRIPTION"@, 6);
    lemma_find_value_at(e, "TRANSP"@, 7);
}

/// With nothing excluded and every category populated, synthesis yields
/// exactly five events, one per category in canonical order; each event's
/// `DTSTART` value is the first date of its category's sequence, and its
/// `RDATE` value is the comma-joined rendering of all its dates in
/// sequence order.
pub proof fn lemma_synthesize_full(
    street: Seq<char>,
    street_number: Seq<char>,
    sched: ScheduleView,
    changed: Seq<char>,
)
    requires
        forall|c: WasteCategory| (#[trigger] sched.dates(c)).len() > 0,
    ensures
        ({
            let evs = events_spec(
                street,
                street_number,
                sched,
                WasteTypeBitmask::spec_none(),
                changed,
            );
            &&& evs.len() == 5
            &&& forall|k: int|
                0 <= k < 5 ==> #[trigger] evs[k] == event_spec(
                    street,
                    street_number,
                    spec_label(category_order(k)),
                    sched.dates(category_order(k)),
                    changed,
                )
            &&& forall|k: int|
                0 <= k < 5 ==> find_value(#[trigger] evs[k], "DTSTART"@) == Some(
                    ymd_chars(sched.dates(category_order(k))[0]),
                )
            &&& forall|k: int|
                0 <= k < 5 ==> find_value(#[trigger] evs[k], "RDATE"@) == Some(
                    rdate_chars(sched.dates(category_order(k))),
                )
        }),
{
    let none = WasteTypeBitmask::spec_none();
    let evs = events_spec(street, street_number, sched, none, changed);
    assert(sched.dates(WasteCategory::Residual).len() > 0);
    assert(sched.dates(WasteCategory::Organic).len() > 0);
    assert(sched.dates(WasteCategory::Recyclable).len() > 0);
    assert(sched.dates(WasteCategory::Paper).len() > 0);
    assert(sched.dates(WasteCategory::Bulky).len() > 0);
    assert(evs =~= seq![
        event_spec(street, street_number, spec_label(WasteCategory::Residual), sched.dates(WasteCategory::Residual), changed),
        event_spec(street, street_number, spec_label(WasteCategory::Organic), sched.dates(WasteCategory::Organic), changed),
        event_spec(street, street_number, spec_label(WasteCategory::Recyclable), sched.dates(WasteCategory::Recyclable), changed),
        event_spec(street, street_number, spec_label(WasteCategory::Paper), sched.dates(WasteCategory::Paper), changed),
        event_spec(street, street_number, spec_label(WasteCategory::Bulky), sched.dates(WasteCategory::Bulky), changed),
    ]);
    assert forall|k: int| 0 <= k < 5 implies #[trigger] evs[k] == event_spec(
        street,
        street_number,
        spec_label(category_order(k)),
        sched.dates(category_order(k)),
        changed,
    ) by {
        if k == 0 {
        } else if k == 1 {
        } else if k == 2 {
        } else if k == 3 {
        } else {
        }
    }
    assert forall|k: int| 0 <= k < 5 implies find_value(#[trigger] evs[k], "DTSTART"@) == Some(
        ymd_chars(sched.dates(category_order(k))[0]),
    ) && find_value(evs[k], "RDATE"@) == Some(rdate_chars(sched.dates(category_order(k)))) by {
        lemma_event_property_lookup(
            street,
            street_number,
            spec_label(category_order(k)),
            sched.dates(category_order(k)),
            changed,
        );
    }
}

/// Excluding one more category removes exactly that category's event and
/// leaves every other event unchanged, in order: with the same timestamp
/// the remaining events are identical.
#[verifier::rlimit(100)]
pub proof fn lemma_exclusion_removes_event(
    street: Seq<char>,
    street_number: Seq<char>,
    sched: ScheduleView,
    excluded: WasteTypeBitmask,
    c: WasteCategory,
    changed: Seq<char>,
)
    requires
        !excluded.spec_excludes(c),
    ensures
        ({
            let evs1 = events_spec(street, street_number, sched, excluded, changed);
            let evs2 = events_spec(street, street_number, sched, excluded.spec_with(c), changed);
            &&& sched.dates(c).len() == 0 ==> evs2 == evs1
            &&& sched.dates(c).len() > 0 ==> exists|k: int|
                0 <= k < evs1.len() && evs1[k] == event_spec(
                    street,
                    street_number,
                    spec_label(c),
                    sched.dates(c),
                    changed,
                ) && evs2 == evs1.remove(k)
        }),
{
    let excluded2 = excluded.spec_with(c);
    let evs1 = events_spec(street, street_number, sched, excluded, changed);
    let evs2 = events_spec(street, street_number, sched, excluded2, changed);
    assert(forall|d: WasteCategory|
        d != c ==> #[trigger] excluded2.spec_excludes(d) == excluded.spec_excludes(d));
    assert(forall|d: WasteCategory|
        d != c ==> #[trigger] slot_spec(street, street_number, sched, excluded2, changed, d)
            == slot_spec(street, street_number, sched, excluded, changed, d));
    if sched.dates(c).len() == 0 {
        assert(slot_spec(street, street_number, sched, excluded2, changed, c) =~= slot_spec(
            street,
            street_number,
            sched,
            excluded,
            changed,
            c,
        ));
        assert(evs2 =~= evs1);
    } else {
        let ev = event_spec(street, street_number, spec_label(c), sched.dates(c), changed);
        let s0 = slot_spec(street, street_number, sched, excluded, changed, WasteCategory::Residual);
        let s1 = slot_spec(street, street_number, sched, excluded, changed, WasteCategory::Organic);
        let s2 = slot_spec(
            street,
            street_number,
            sched,
            excluded,
            changed,
            WasteCategory::Recyclable,
        );
        let s3 = slot_spec(street, street_number, sched, excluded, changed, WasteCategory::Paper);
        let s4 = slot_spec(street, street_number, sched, excluded, changed, WasteCategory::Bulky);
        assert(slot_spec(street, street_number, sched, excluded, changed, c) =~= seq![ev]);
        assert(slot_spec(street, street_number, sched, excluded2, changed, c)
            =~= Seq::<Seq<PropertyView>>::empty());
        let k: int = match c {
            WasteCategory::Residual => 0,
            WasteCategory::Organic => s0.len() as int,
            WasteCategory::Recyclable => (s0.len() + s1.len()) as int,
            WasteCategory::Paper => (s0.len() + s1.len() + s2.len()) as int,
            WasteCategory::Bulky => (s0.len() + s1.len() + s2.len() + s3.len()) as int,
        };
        assert(0 <= k < evs1.len() && evs1[k] == ev && evs2 =~= evs1.remove(k)) by {
            match c {
                WasteCategory::Residual => {
                    assert(evs1 =~= seq![ev] + (s1 + s2 + s3 + s4));
                    assert(evs2 =~= s1 + s2 + s3 + s4);
                    assert(evs2 =~= evs1.remove(0));
                },
                WasteCategory::Organic => {
                    assert(evs1 =~= s0 + (seq![ev] + (s2 + s3 + s4)));
                    assert(evs2 =~= s0 + (s2 + s3 + s4));
                    assert(evs2 =~= evs1.remove(k));
                },
                WasteCategory::Recyclable => {
                    assert(evs1 =~= (s0 + s1) + (seq![ev] + (s3 + s4)));
                    assert(evs2 =~= (s0 + s1) + (s3 + s4));
                    assert(evs2 =~= evs1.remove(k));
                },
                WasteCategory::Paper => {
                    assert(evs1 =~= (s0 + s1 + s2) + (seq![ev] + s4));
                    assert(evs2 =~= (s0 + s1 + s2) + s4);
                    assert(evs2 =~= evs1.remove(k));
                },
                WasteCategory::Bulky => {
                    assert(evs1 =~= (s0 + s1 + s2 + s3) + seq![ev]);
                    assert(evs2 =~= s0 + s1 + s2 + s3);
                    assert(evs2 =~= evs1.remove(k));
                },
            }
        }
    }
}

proof fn lemma_labels_distinct()
    ensures
        forall|c: WasteCategory, d: WasteCategory| c != d ==> spec_label(c) != spec_label(d),
{
    reveal_strlit("Restmüll");
    reveal_strlit("Bioabfall");
    reveal_strlit("Wertstoff");
    reveal_strlit("Papier");
    reveal_strlit("Sperrmüllabholung");
    assert(spec_label(WasteCategory::Organic)[0] != spec_label(WasteCategory::Recyclable)[0]);
    assert(spec_label(WasteCategory::Residual).len() == 8);
    assert(spec_label(WasteCategory::Organic).len() == 9);
    assert(spec_label(WasteCategory::Recyclable).len() == 9);
    assert(spec_label(WasteCategory::Paper).len() == 6);
    assert(spec_label(WasteCategory::Bulky).len() == 17);
}

/// The header hint names a category's label exactly when the exclusion
/// mask is the complement of that one category; any other mask leaves the
/// hint absent.
pub proof fn lemma_header_hint(excluded: WasteTypeBitmask)
    ensures
        forall|c: WasteCategory|
            (hint_label(excluded) == Some(spec_label(c))) <==> excluded
                == WasteTypeBitmask::spec_inverted(c),
        (hint_label(excluded) is None) <==> (forall|c: WasteCategory|
            excluded != WasteTypeBitmask::spec_inverted(c)),
{
    lemma_labels_distinct();
    assert forall|c: WasteCategory|
        (hint_label(excluded) == Some(spec_label(c))) <==> excluded
            == WasteTypeBitmask::spec_inverted(c) by {
        match c {
            WasteCategory::Residual => {},
            WasteCategory::Organic => {},
            WasteCategory::Recyclable => {},
            WasteCategory::Paper => {},
            WasteCategory::Bulky => {},
        }
    }
    if hint_label(excluded) is Some {
        assert(exists|c: WasteCategory| excluded == WasteTypeBitmask::spec_inverted(c));
    }
}

proof fn lemma_collapse_from_no_space(s: Seq<char>, i: int, after_space: bool)
    ensures
        forall|k: int|
            0 <= k < collapse_from(s, i, after_space).len() ==> !is_space(
                #[trigger] collapse_from(s, i, after_space)[k],
            ),
    decreases s.len() - i,
{
    if 0 <= i < s.len() {
        lemma_collapse_from_no_space(s, i + 1, true);
        lemma_collapse_from_no_space(s, i + 1, false);
        let whole = collapse_from(s, i, after_space);
        assert forall|k: int| 0 <= k < whole.len() implies !is_space(#[trigger] whole[k]) by {
            if is_space(s[i]) {
                if after_space {
                    assert(whole[k] == collapse_from(s, i + 1, true)[k]);
                } else {
                    let rest = collapse_from(s, i + 1, true);
                    assert(whole == seq!['-'] + rest);
                    if k == 0 {
                        assert(whole[0] == '-');
                    } else {
                        assert(whole[k] == rest[k - 1]);
                    }
                }
            } else {
                let rest = collapse_from(s, i + 1, false);
                assert(whole == seq![s[i]] + rest);
                if k == 0 {
                    assert(whole[0] == s[i]);
                } else {
                    assert(whole[k] == rest[k - 1]);
                }
            }
        }
    }
}

/// The collapsed form of a string carries no whitespace at all: every run
/// of whitespace has become a single hyphen.
pub proof fn lemma_collapse_no_whitespace(s: Seq<char>)
    ensures
        forall|k: int|
            0 <= k < collapse_spaces(s).len() ==> !is_space(#[trigger] collapse_spaces(s)[k]),
{
    lemma_collapse_from_no_space(s, 0, false);
}

proof fn lemma_concat_cancel(p: Seq<char>, a: Seq<char>, b: Seq<char>, s: Seq<char>)
    requires
        p + a + s == p + b + s,
    ensures
        a == b,
{
    assert((p + a + s).len() == p.len() + a.len() + s.len());
    assert((p + b + s).len() == p.len() + b.len() + s.len());
    assert(a.len() == b.len());
    assert forall|k: int| 0 <= k < a.len() implies a[k] == b[k] by {
        assert((p + a + s)[p.len() + k] == (p + a)[p.len() + k]);
        assert((p + a)[p.len() + k] == a[k]);
        assert((p + b + s)[p.len() + k] == (p + b)[p.len() + k]);
        assert((p + b)[p.len() + k] == b[k]);
    }
    assert(a =~= b);
}

/// The identity deriver is injective in the street field up to whitespace
/// collapsing: with the other fields fixed, two streets yield the same
/// identifier exactly when their collapsed forms coincide.  (Two streets
/// that differ only in the width of a whitespace run collapse alike and
/// share the identifier.)
pub proof fn lemma_uid_street_injective(
    s1: Seq<char>,
    s2: Seq<char>,
    street_number: Seq<char>,
    summary: Seq<char>,
)
    ensures
        (uid_spec(s1, street_number, summary) == uid_spec(s2, street_number, summary)) <==> (
        collapse_spaces(s1) == collapse_spaces(s2)),
{
    let p = "Abfuhrkalender_"@;
    let suffix = "_"@ + collapse_spaces(street_number) + "_"@ + collapse_spaces(summary)
        + "@karlsruhe.de"@;
    assert(uid_spec(s1, street_number, summary) =~= p + collapse_spaces(s1) + suffix);
    assert(uid_spec(s2, street_number, summary) =~= p + collapse_spaces(s2) + suffix);
    if uid_spec(s1, street_number, summary) == uid_spec(s2, street_number, summary) {
        lemma_concat_cancel(p, collapse_spaces(s1), collapse_spaces(s2), suffix);
    }
}

/// The identity deriver is injective in the street-number field up to
/// whitespace collapsing, with the other fields fixed.
pub proof fn lemma_uid_number_injective(
    street: Seq<char>,
    n1: Seq<char>,
    n2: Seq<char>,
    summary: Seq<char>,
)
    ensures
        (uid_spec(street, n1, summary) == uid_spec(street, n2, summary)) <==> (collapse_spaces(n1)
            == collapse_spaces(n2)),
{
    let p = "Abfuhrkalender_"@ + collapse_spaces(street) + "_"@;
    let suffix = "_"@ + collapse_spaces(summary) + "@karlsruhe.de"@;
    assert(uid_spec(street, n1, summary) =~= p + collapse_spaces(n1) + suffix);
    assert(uid_spec(street, n2, summary) =~= p + collapse_spaces(n2) + suffix);
    if uid_spec(street, n1, summary) == uid_spec(street, n2, summary) {
        lemma_concat_cancel(p, collapse_spaces(n1), collapse_spaces(n2), suffix);
    }
}

/// The identity deriver is injective in the summary field up to
/// whitespace collapsing, with the other fields fixed.
pub proof fn lemma_uid_summary_injective(
    street: Seq<char>,
    street_number: Seq<char>,
    l1: Seq<char>,
    l2: Seq<char>,
)
    ensures
        (uid_spec(street, street_number, l1) == uid_spec(street, street_number, l2)) <==> (
        collapse_spaces(l1) == collapse_spaces(l2)),
{
    let p = "Abfuhrkalender_"@ + collapse_spaces(street) + "_"@ + collapse_spaces(street_number)
        + "_"@;
    let suffix = "@karlsruhe.de"@;
    assert(uid_spec(street, street_number, l1) =~= p + collapse_spaces(l1) + suffix);
    assert(uid_spec(street, street_number, l2) =~= p + collapse_spaces(l2) + suffix);
    if uid_spec(street, street_number, l1) == uid_spec(street, street_number, l2) {
        lemma_concat_cancel(p, collapse_spaces(l1), collapse_spaces(l2), suffix);
    }
}

} // verus!
