//! The dashboard: the property summary and the layout of unit tiles, with
//! each unit's state and lock coverage.
use vstd::prelude::*;
use std::collections::HashMap;
use crate::models::{Padlock, ReportSummary, Unit, UnitSize, size_of_dimensions};
use crate::money::{money_text, push_money_input};
use crate::pages::units::{section_name, section_of, status_label, unit_status};
use crate::pages::{unable, unable_message};
use crate::text::{
    append_str, chars_of, int_text, is_text_less, join2, lemma_text_less_irreflexive,
    lemma_text_less_total, lemma_text_less_transitive, owned, push_int, same_text, string_of,
    text_less, trim, trimmed,
};

verus! {

// ---------------------------------------------------------------------
// Lower-case unit numbers
// ---------------------------------------------------------------------

/// The lower-case form of a text, as std's `str::to_lowercase` gives it
/// (Unicode lower-case mapping).
pub uninterp spec fn lowercase(s: Seq<char>) -> Seq<char>;

/// std's `str::to_lowercase`: its result is named `lowercase` of the text
/// and nothing more is claimed of it.
#[verifier::external_body]
fn to_lowercase(s: &str) -> (r: String)
    ensures
        r@ == lowercase(s@),
{
    s.to_lowercase()
}

// ---------------------------------------------------------------------
// Layout order
// ---------------------------------------------------------------------

/// The building a unit is shown under: its trimmed building, or
/// `Unassigned Building` when it has none.
pub open spec fn building_name(building: Seq<char>) -> Seq<char> {
    if trim(building).len() == 0 { "Unassigned Building"@ } else { trim(building) }
}

pub fn building_of(building: &str) -> (s: String)
    ensures
        s@ == building_name(building@),
{
    let t = trimmed(building);
    if t.len() == 0 {
        owned("Unassigned Building")
    } else {
        string_of(&t)
    }
}

/// Within a section, units go by display order, then by unit number
/// ignoring letter case.
pub open spec fn place_less(a: Unit, b: Unit) -> bool {
    ||| a.display_order < b.display_order
    ||| (a.display_order == b.display_order && text_less(
        lowercase(a.unit_number@),
        lowercase(b.unit_number@),
    ))
}

/// Whether unit `i` is shown before unit `j`: buildings in name order,
/// sections in name order within a building, places within a section, and
/// units that tie keep the order they were listed in.
pub open spec fn layout_before(units: Seq<Unit>, i: int, j: int) -> bool {
    let a = units[i];
    let b = units[j];
    let ba = building_name(a.building@);
    let bb = building_name(b.building@);
    let sa = section_name(a.layout_section@);
    let sb = section_name(b.layout_section@);
    if ba != bb {
        text_less(ba, bb)
    } else if sa != sb {
        text_less(sa, sb)
    } else if place_less(a, b) {
        true
    } else if place_less(b, a) {
        false
    } else {
        i < j
    }
}

proof fn lemma_place_order(a: Unit, b: Unit, c: Unit)
    ensures
        !(place_less(a, b) && place_less(b, a)),
        place_less(a, b) && place_less(b, c) ==> place_less(a, c),
        place_less(a, b) && !place_less(c, b) ==> place_less(a, c),
        !place_less(a, b) && !place_less(b, a) && place_less(b, c) ==> place_less(a, c),
{
    let la = lowercase(a.unit_number@);
    let lb = lowercase(b.unit_number@);
    let lc = lowercase(c.unit_number@);
    lemma_text_less_total(la, lb);
    lemma_text_less_total(lb, lc);
    lemma_text_less_total(la, lc);
    lemma_text_less_irreflexive(la);
    lemma_text_less_irreflexive(lb);
    if text_less(la, lb) && text_less(lb, lc) {
        lemma_text_less_transitive(la, lb, lc);
    }
}

/// The layout order is a strict total order on the positions of `units`.
pub proof fn lemma_layout_order(units: Seq<Unit>, i: int, j: int, k: int)
    requires
        0 <= i < units.len(),
        0 <= j < units.len(),
        0 <= k < units.len(),
    ensures
        i != j ==> layout_before(units, i, j) || layout_before(units, j, i),
        !(layout_before(units, i, j) && layout_before(units, j, i)),
        layout_before(units, i, j) && layout_before(units, j, k) ==> layout_before(units, i, k),
{
    let (a, b, c) = (units[i], units[j], units[k]);
    let (ba, bb, bc) = (building_name(a.building@), building_name(b.building@), building_name(c.building@));
    let (sa, sb, sc) = (
        section_name(a.layout_section@),
        section_name(b.layout_section@),
        section_name(c.layout_section@),
    );
    lemma_text_less_total(ba, bb);
    lemma_text_less_total(bb, bc);
    lemma_text_less_total(ba, bc);
    lemma_text_less_total(sa, sb);
    lemma_text_less_total(sb, sc);
    lemma_text_less_total(sa, sc);
    lemma_place_order(a, b, c);
    lemma_place_order(b, c, a);
    lemma_place_order(c, a, b);
    lemma_place_order(a, c, b);
    lemma_place_order(b, a, c);
    lemma_place_order(c, b, a);
    if text_less(ba, bb) && text_less(bb, bc) {
        lemma_text_less_transitive(ba, bb, bc);
    }
    if text_less(sa, sb) && text_less(sb, sc) {
        lemma_text_less_transitive(sa, sb, sc);
    }
}

/// The building heading a unit is shown under.
pub open spec fn unit_building(u: Unit) -> Seq<char> {
    building_name(u.building@)
}

/// The section heading a unit is shown under.
pub open spec fn unit_section(u: Unit) -> Seq<char> {
    section_name(u.layout_section@)
}

/// Buildings come in name order, and within a building, sections come in
/// name order whatever the display orders of their units.
pub proof fn lemma_layout_groups_by_name(units: Seq<Unit>, i: int, j: int)
    requires
        0 <= i < units.len(),
        0 <= j < units.len(),
        layout_before(units, i, j),
    ensures
        unit_building(units[i]) != unit_building(units[j]) ==> text_less(
            unit_building(units[i]),
            unit_building(units[j]),
        ),
        unit_building(units[i]) == unit_building(units[j]) && unit_section(units[i]) != unit_section(
            units[j],
        ) ==> text_less(unit_section(units[i]), unit_section(units[j])),
        unit_building(units[i]) == unit_building(units[j]) && unit_section(units[i]) == unit_section(
            units[j],
        ) ==> !(units[j].display_order < units[i].display_order),
{
}

/// Whatever is shown between two units of one building and section is of
/// that building and section too: each section is one unbroken run.
pub proof fn lemma_sections_contiguous(units: Seq<Unit>, i: int, j: int, k: int)
    requires
        0 <= i < units.len(),
        0 <= j < units.len(),
        0 <= k < units.len(),
        layout_before(units, i, j),
        layout_before(units, j, k),
        unit_building(units[i]) == unit_building(units[k]),
        unit_section(units[i]) == unit_section(units[k]),
    ensures
        unit_building(units[j]) == unit_building(units[i]),
        unit_section(units[j]) == unit_section(units[i]),
{
    let (bi, bj) = (unit_building(units[i]), unit_building(units[j]));
    let (si, sj) = (unit_section(units[i]), unit_section(units[j]));
    lemma_layout_groups_by_name(units, i, j);
    lemma_layout_groups_by_name(units, j, k);
    if bj != bi {
        lemma_text_less_transitive(bi, bj, bi);
        lemma_text_less_irreflexive(bi);
    } else if sj != si {
        lemma_text_less_transitive(si, sj, si);
        lemma_text_less_irreflexive(si);
    }
}

/// The keys of each unit that the layout order compares.
struct LayoutKeys {
    buildings: Vec<String>,
    sections: Vec<String>,
    lowers: Vec<String>,
}

spec fn keys_of(k: LayoutKeys, units: Seq<Unit>) -> bool {
    &&& k.buildings@.len() == units.len()
    &&& k.sections@.len() == units.len()
    &&& k.lowers@.len() == units.len()
    &&& forall|i: int| 0 <= i < units.len() ==> #[trigger] k.buildings@[i]@ == building_name(units[i].building@)
    &&& forall|i: int| 0 <= i < units.len() ==> #[trigger] k.sections@[i]@ == section_name(units[i].layout_section@)
    &&& forall|i: int| 0 <= i < units.len() ==> #[trigger] k.lowers@[i]@ == lowercase(units[i].unit_number@)
}

fn layout_keys(units: &Vec<Unit>) -> (k: LayoutKeys)
    ensures
        keys_of(k, units@),
{
    let mut k = LayoutKeys { buildings: Vec::new(), sections: Vec::new(), lowers: Vec::new() };
    let mut i: usize = 0;
    while i < units.len()
        invariant
            i <= units@.len(),
            k.buildings@.len() == i,
            k.sections@.len() == i,
            k.lowers@.len() == i,
            forall|j: int| 0 <= j < i ==> #[trigger] k.buildings@[j]@ == building_name(units@[j].building@),
            forall|j: int| 0 <= j < i ==> #[trigger] k.sections@[j]@ == section_name(units@[j].layout_section@),
            forall|j: int| 0 <= j < i ==> #[trigger] k.lowers@[j]@ == lowercase(units@[j].unit_number@),
        decreases units.len() - i,
    {
        k.buildings.push(building_of(units[i].building.as_str()));
        k.sections.push(section_of(units[i].layout_section.as_str()));
        k.lowers.push(to_lowercase(units[i].unit_number.as_str()));
        i += 1;
    }
    k
}

fn shown_before(units: &Vec<Unit>, k: &LayoutKeys, i: usize, j: usize) -> (b: bool)
    requires
        keys_of(*k, units@),
        i < units@.len(),
        j < units@.len(),
    ensures
        b == layout_before(units@, i as int, j as int),
{
    let ki = &k.buildings[i];
    let kj = &k.buildings[j];
    if !same_text(ki.as_str(), kj.as_str()) {
        return is_text_less(ki.as_str(), kj.as_str());
    }
    let si = &k.sections[i];
    let sj = &k.sections[j];
    if !same_text(si.as_str(), sj.as_str()) {
        return is_text_less(si.as_str(), sj.as_str());
    }
    let a = &units[i];
    let b = &units[j];
    let a_first = a.display_order < b.display_order || (a.display_order == b.display_order
        && is_text_less(k.lowers[i].as_str(), k.lowers[j].as_str()));
    if a_first {
        return true;
    }
    let b_first = b.display_order < a.display_order || (a.display_order == b.display_order
        && is_text_less(k.lowers[j].as_str(), k.lowers[i].as_str()));
    if b_first {
        return false;
    }
    i < j
}

/// The positions of `units` in the order the dashboard lays them out:
/// every position exactly once, each before all positions shown after it.
pub fn layout_order(units: &Vec<Unit>) -> (r: Vec<usize>)
    ensures
        r@.len() == units@.len(),
        forall|a: int| 0 <= a < r@.len() ==> #[trigger] r@[a] < units@.len(),
        forall|x: usize| x < units@.len() ==> #[trigger] r@.contains(x),
        forall|a: int, b: int|
            0 <= a < b < r@.len() ==> layout_before(units@, #[trigger] r@[a] as int, #[trigger] r@[b] as int),
        forall|a: int, b: int|
            0 <= a < b < r@.len() && unit_building(units@[#[trigger] r@[a] as int]) == unit_building(
                units@[#[trigger] r@[b] as int],
            ) && unit_section(units@[r@[a] as int]) != unit_section(units@[r@[b] as int])
                ==> text_less(unit_section(units@[r@[a] as int]), unit_section(units@[r@[b] as int])),
        forall|a: int, b: int, c: int|
            0 <= a < b < c < r@.len() && unit_building(units@[#[trigger] r@[a] as int])
                == unit_building(units@[#[trigger] r@[c] as int]) && unit_section(
                units@[r@[a] as int],
            ) == unit_section(units@[r@[c] as int]) ==> unit_building(
                units@[#[trigger] r@[b] as int],
            ) == unit_building(units@[r@[a] as int]) && unit_section(units@[r@[b] as int])
                == unit_section(units@[r@[a] as int]),
{
    let k = layout_keys(units);
    let n = units.len();
    let mut order: Vec<usize> = Vec::new();
    let mut i: usize = 0;
    while i < n
        invariant
            n == units@.len(),
            keys_of(k, units@),
            i <= n,
            order@.len() == i,
            forall|a: int| 0 <= a < order@.len() ==> #[trigger] order@[a] < i,
            forall|x: usize| x < i ==> #[trigger] order@.contains(x),
            forall|a: int, b: int|
                0 <= a < b < order@.len() ==> layout_before(units@, #[trigger] order@[a] as int, #[trigger] order@[b] as int),
        decreases n - i,
    {
        // the first position whose unit is shown after unit i
        let mut p: usize = 0;
        while p < order.len() && !shown_before(units, &k, i, order[p])
            invariant
                n == units@.len(),
                keys_of(k, units@),
                i < n,
                p <= order@.len(),
                forall|a: int| 0 <= a < order@.len() ==> #[trigger] order@[a] < i,
                forall|a: int| 0 <= a < p ==> !layout_before(units@, i as int, #[trigger] order@[a] as int),
            decreases order.len() - p,
        {
            p += 1;
        }
        let ghost before = order@;
        proof {
            assert forall|a: int| 0 <= a < p implies layout_before(units@, #[trigger] before[a] as int, i as int) by {
                lemma_layout_order(units@, before[a] as int, i as int, i as int);
            }
            assert forall|b: int| p <= b < before.len() implies layout_before(units@, i as int, #[trigger] before[b] as int) by {
                if b > p {
                    lemma_layout_order(units@, i as int, before[p as int] as int, before[b] as int);
                }
            }
        }
        order.insert(p, i);
        proof {
            assert(order@ == before.insert(p as int, i));
            assert forall|a: int, b: int| 0 <= a < b < order@.len() implies layout_before(units@, #[trigger] order@[a] as int, #[trigger] order@[b] as int) by {
                if a < p && b < p {
                    assert(order@[a] == before[a] && order@[b] == before[b]);
                } else if a < p && b == p {
                } else if a < p {
                    assert(order@[a] == before[a] && order@[b] == before[b - 1]);
                    lemma_layout_order(units@, before[a] as int, i as int, before[b - 1] as int);
                } else if a == p {
                    assert(order@[b] == before[b - 1]);
                } else {
                    assert(order@[a] == before[a - 1] && order@[b] == before[b - 1]);
                }
            }
            assert forall|x: usize| x < i + 1 implies #[trigger] order@.contains(x) by {
                if x == i {
                    assert(order@[p as int] == i);
                } else {
                    assert(before.contains(x));
                    let q = choose|q: int| 0 <= q < before.len() && before[q] == x;
                    if q < p {
                        assert(order@[q] == x);
                    } else {
                        assert(order@[q + 1] == x);
                    }
                }
            }
        }
        i += 1;
    }
    proof {
        assert forall|a: int, b: int|
            0 <= a < b < order@.len() && unit_building(units@[#[trigger] order@[a] as int]) == unit_building(
                units@[#[trigger] order@[b] as int],
            ) && unit_section(units@[order@[a] as int]) != unit_section(units@[order@[b] as int])
            implies text_less(unit_section(units@[order@[a] as int]), unit_section(units@[order@[b] as int])) by {
            lemma_layout_groups_by_name(units@, order@[a] as int, order@[b] as int);
        }
        assert forall|a: int, b: int, c: int|
            0 <= a < b < c < order@.len() && unit_building(units@[#[trigger] order@[a] as int])
                == unit_building(units@[#[trigger] order@[c] as int]) && unit_section(
                units@[order@[a] as int],
            ) == unit_section(units@[order@[c] as int]) implies unit_building(
                units@[#[trigger] order@[b] as int],
            ) == unit_building(units@[order@[a] as int]) && unit_section(units@[order@[b] as int])
                == unit_section(units@[order@[a] as int]) by {
            assert(layout_before(units@, order@[a] as int, order@[b] as int));
            assert(layout_before(units@, order@[b] as int, order@[c] as int));
            lemma_sections_contiguous(units@, order@[a] as int, order@[b] as int, order@[c] as int);
        }
    }
    order
}

// ---------------------------------------------------------------------
// Buildings and sections
// ---------------------------------------------------------------------

/// A run of tiles shown under one section heading, and whether a new
/// building heading comes before it.
#[derive(Debug, Clone)]
pub struct LayoutSection {
    pub building: String,
    pub section: String,
    pub new_building: bool,
    pub units: Vec<usize>,
}

/// The unit positions of `runs`, one run after the other.
pub open spec fn run_units(runs: Seq<LayoutSection>) -> Seq<usize>
    decreases runs.len(),
{
    if runs.len() == 0 {
        Seq::empty()
    } else {
        run_units(runs.drop_last()) + runs.last().units@
    }
}

/// Every unit of the run `r` is shown under its building and section.
pub open spec fn run_names_match(units: Seq<Unit>, r: LayoutSection) -> bool {
    forall|j: int|
        0 <= j < r.units@.len() ==> {
            &&& building_name(units[#[trigger] r.units@[j] as int].building@) == r.building@
            &&& section_name(units[r.units@[j] as int].layout_section@) == r.section@
        }
}

/// `runs` cuts the positions `order` into maximal runs that share a
/// building and a section, in the same order.
pub open spec fn sections_of(units: Seq<Unit>, order: Seq<usize>, runs: Seq<LayoutSection>) -> bool {
    &&& run_units(runs) == order
    &&& forall|k: int| 0 <= k < runs.len() ==> (#[trigger] runs[k]).units@.len() > 0
    &&& forall|k: int| 0 <= k < runs.len() ==> run_names_match(units, #[trigger] runs[k])
    &&& forall|k: int|
        0 <= k < runs.len() ==> (#[trigger] runs[k]).new_building == (k == 0 || runs[k
            - 1].building@ != runs[k].building@)
    &&& forall|k: int|
        0 < k < runs.len() ==> runs[k - 1].building@ != (#[trigger] runs[k]).building@ || runs[k
            - 1].section@ != runs[k].section@
}

proof fn lemma_run_units_push(runs: Seq<LayoutSection>, r: LayoutSection)
    ensures
        run_units(runs.push(r)) == run_units(runs) + r.units@,
{
    assert(runs.push(r).drop_last() =~= runs);
}

/// Cuts the positions `order` (such as the layout order) into the runs
/// shown under one building and section heading each.
pub fn layout_sections(units: &Vec<Unit>, order: &Vec<usize>) -> (runs: Vec<LayoutSection>)
    requires
        forall|a: int| 0 <= a < order@.len() ==> #[trigger] order@[a] < units@.len(),
    ensures
        sections_of(units@, order@, runs@),
{
    let mut runs: Vec<LayoutSection> = Vec::new();
    let mut cur: Vec<usize> = Vec::new();
    let mut cur_building = String::new();
    let mut cur_section = String::new();
    let mut cur_new = true;
    let mut i: usize = 0;
    while i < order.len()
        invariant
            i <= order@.len(),
            forall|a: int| 0 <= a < order@.len() ==> #[trigger] order@[a] < units@.len(),
            run_units(runs@) + cur@ == order@.take(i as int),
            (cur@.len() == 0) == (i == 0),
            i == 0 ==> runs@.len() == 0,
            forall|k: int| 0 <= k < runs@.len() ==> (#[trigger] runs@[k]).units@.len() > 0,
            forall|k: int| 0 <= k < runs@.len() ==> run_names_match(units@, #[trigger] runs@[k]),
            forall|k: int|
                0 <= k < runs@.len() ==> (#[trigger] runs@[k]).new_building == (k == 0 || runs@[k
                    - 1].building@ != runs@[k].building@),
            forall|k: int|
                0 < k < runs@.len() ==> runs@[k - 1].building@ != (#[trigger] runs@[k]).building@
                    || runs@[k - 1].section@ != runs@[k].section@,
            forall|j: int|
                0 <= j < cur@.len() ==> {
                    &&& building_name(units@[#[trigger] cur@[j] as int].building@) == cur_building@
                    &&& section_name(units@[cur@[j] as int].layout_section@) == cur_section@
                },
            cur@.len() > 0 ==> cur_new == (runs@.len() == 0 || runs@.last().building@
                != cur_building@),
            cur@.len() > 0 && runs@.len() > 0 ==> runs@.last().building@ != cur_building@
                || runs@.last().section@ != cur_section@,
        decreases order.len() - i,
    {
        let p = order[i];
        let building = building_of(units[p].building.as_str());
        let section = section_of(units[p].layout_section.as_str());
        let ghost before = run_units(runs@) + cur@;
        if cur.len() > 0 && same_text(building.as_str(), cur_building.as_str()) && same_text(
            section.as_str(),
            cur_section.as_str(),
        ) {
            cur.push(p);
            proof {
                assert(run_units(runs@) + cur@ =~= before.push(p));
            }
        } else {
            if cur.len() > 0 {
                let run = LayoutSection {
                    building: cur_building,
                    section: cur_section,
                    new_building: cur_new,
                    units: cur,
                };
                let ghost old_runs = runs@;
                runs.push(run);
                proof {
                    lemma_run_units_push(old_runs, run);
                    assert(runs@ == old_runs.push(run));
                    assert forall|k: int| 0 <= k < runs@.len() implies run_names_match(
                        units@,
                        #[trigger] runs@[k],
                    ) by {
                        if k < old_runs.len() {
                            assert(runs@[k] == old_runs[k]);
                        }
                    }
                }
            }
            cur_new = runs.len() == 0 || !same_text(
                runs[runs.len() - 1].building.as_str(),
                building.as_str(),
            );
            cur_building = building;
            cur_section = section;
            cur = Vec::new();
            cur.push(p);
            proof {
                assert(run_units(runs@) + cur@ =~= before.push(p));
            }
        }
        proof {
            assert(order@.take(i + 1) =~= order@.take(i as int).push(p));
        }
        i += 1;
    }
    if cur.len() > 0 {
        let run = LayoutSection {
            building: cur_building,
            section: cur_section,
            new_building: cur_new,
            units: cur,
        };
        let ghost old_runs = runs@;
        runs.push(run);
        proof {
            lemma_run_units_push(old_runs, run);
            assert(runs@ == old_runs.push(run));
            assert forall|k: int| 0 <= k < runs@.len() implies run_names_match(
                units@,
                #[trigger] runs@[k],
            ) by {
                if k < old_runs.len() {
                    assert(runs@[k] == old_runs[k]);
                }
            }
        }
    }
    proof {
        assert(order@.take(order@.len() as int) =~= order@);
        if i == 0 {
            assert(run_units(runs@) =~= Seq::<usize>::empty());
        }
    }
    runs
}

// ---------------------------------------------------------------------
// Lock coverage
// ---------------------------------------------------------------------

/// Whether some tracked padlock is on the unit `unit_id`.
pub open spec fn has_padlock(padlocks: Seq<Padlock>, unit_id: i64) -> bool {
    exists|j: int| 0 <= j < padlocks.len() && #[trigger] padlocks[j].unit_id == Some(unit_id)
}

/// Position `k` holds the last padlock listed on the unit `unit_id`.
pub open spec fn last_padlock_on(padlocks: Seq<Padlock>, unit_id: i64, k: int) -> bool {
    &&& 0 <= k < padlocks.len()
    &&& padlocks[k].unit_id == Some(unit_id)
    &&& forall|j: int| k < j < padlocks.len() ==> #[trigger] padlocks[j].unit_id != Some(unit_id)
}

/// `m` maps each unit that has a tracked padlock to the position of the
/// padlock shown on it, the last one listed for it, and maps no other unit.
pub open spec fn padlock_index(m: Map<i64, usize>, padlocks: Seq<Padlock>) -> bool {
    &&& forall|unit_id: i64| #[trigger] m.contains_key(unit_id) == has_padlock(padlocks, unit_id)
    &&& forall|unit_id: i64| #[trigger] m.contains_key(unit_id) ==> last_padlock_on(padlocks, unit_id, m[unit_id] as int)
}

/// The tracked padlocks by the unit they are on; where several are listed
/// on one unit, the last one listed is kept.
pub fn padlocks_by_unit(padlocks: &Vec<Padlock>) -> (m: HashMap<i64, usize>)
    ensures
        padlock_index(m@, padlocks@),
{
    broadcast use vstd::std_specs::hash::group_hash_axioms;

    let mut m: HashMap<i64, usize> = HashMap::new();
    let mut i: usize = 0;
    while i < padlocks.len()
        invariant
            i <= padlocks@.len(),
            padlock_index(m@, padlocks@.take(i as int)),
        decreases padlocks.len() - i,
    {
        let ghost before = padlocks@.take(i as int);
        let ghost now = padlocks@.take(i + 1);
        proof {
            assert(now =~= before.push(padlocks@[i as int]));
        }
        let ghost m0 = m@;
        match padlocks[i].unit_id {
            Some(unit_id) => {
                m.insert(unit_id, i);
            },
            None => {},
        }
        proof {
            assert forall|u: i64| #[trigger] m@.contains_key(u) == has_padlock(now, u) by {
                assert(m0.contains_key(u) == has_padlock(before, u));
                if padlocks@[i as int].unit_id == Some(u) {
                    assert(now[i as int] == padlocks@[i as int]);
                }
                if has_padlock(before, u) {
                    let j = choose|j: int| 0 <= j < before.len() && #[trigger] before[j].unit_id == Some(u);
                    assert(now[j] == before[j]);
                }
                if has_padlock(now, u) {
                    let j = choose|j: int| 0 <= j < now.len() && #[trigger] now[j].unit_id == Some(u);
                    if j < before.len() {
                        assert(before[j] == now[j]);
                    }
                }
            }
            assert forall|u: i64| #[trigger] m@.contains_key(u) implies last_padlock_on(now, u, m@[u] as int) by {
                if padlocks@[i as int].unit_id == Some(u) {
                    assert(m@[u] == i);
                } else {
                    assert(m0.contains_key(u));
                    let k = m@[u] as int;
                    assert(k == m0[u]);
                    assert(last_padlock_on(before, u, k));
                    assert(now[k] == before[k]);
                    assert forall|j: int| k < j < now.len() implies #[trigger] now[j].unit_id != Some(u) by {
                        if j < before.len() {
                            assert(now[j] == before[j]);
                        }
                    }
                }
            }
        }
        i += 1;
    }
    proof {
        assert(padlocks@.take(padlocks@.len() as int) =~= padlocks@);
    }
    m
}

/// The tracked padlock shown on the unit `unit_id`, looked up in the
/// padlocks by unit.
pub fn padlock_for_unit(by_unit: &HashMap<i64, usize>, unit_id: i64) -> (r: Option<usize>)
    ensures
        r == (if by_unit@.contains_key(unit_id) { Some(by_unit@[unit_id]) } else { None::<usize> }),
{
    broadcast use vstd::std_specs::hash::group_hash_axioms;

    match by_unit.get(&unit_id) {
        Some(k) => Some(*k),
        None => None,
    }
}

/// A customer lock covers the unit: a red lock, or a tracked padlock.
pub open spec fn customer_locked(u: Unit, padlocked: bool) -> bool {
    u.red_lock || padlocked
}

/// An occupied unit without a customer lock is flagged.
pub open spec fn lock_missing(u: Unit, padlocked: bool) -> bool {
    u.occupied && !customer_locked(u, padlocked)
}

/// How many units are occupied with no customer lock.
pub open spec fn unlocked_occupied(units: Seq<Unit>, padlocks: Seq<Padlock>) -> nat
    decreases units.len(),
{
    if units.len() == 0 {
        0
    } else {
        unlocked_occupied(units.drop_last(), padlocks) + if lock_missing(
            units.last(),
            has_padlock(padlocks, units.last().id),
        ) {
            1nat
        } else {
            0nat
        }
    }
}

/// An occupied unit with neither a red lock nor a tracked padlock.
pub open spec fn needs_customer_lock(padlocks: Seq<Padlock>) -> spec_fn(Unit) -> bool {
    |u: Unit| u.occupied && !u.red_lock && !has_padlock(padlocks, u.id)
}

/// The warning counts exactly the occupied units that have neither a red
/// lock nor a tracked padlock: vacant units, and units waiting to be
/// cleaned, never count.
pub proof fn lemma_unlocked_occupied_counts(units: Seq<Unit>, padlocks: Seq<Padlock>)
    ensures
        unlocked_occupied(units, padlocks) == units.filter(needs_customer_lock(padlocks)).len(),
    decreases units.len(),
{
    let f = needs_customer_lock(padlocks);
    if units.len() > 0 {
        lemma_unlocked_occupied_counts(units.drop_last(), padlocks);
        units.drop_last().lemma_filter_len_push(f, units.last());
        assert(units.drop_last().push(units.last()) =~= units);
        assert(f(units.last()) == lock_missing(units.last(), has_padlock(padlocks, units.last().id)));
    } else {
        reveal(Seq::filter);
        assert(units.filter(f) == units);
    }
}

pub fn count_unlocked_occupied(units: &Vec<Unit>, padlocks: &Vec<Padlock>) -> (n: usize)
    ensures
        n == unlocked_occupied(units@, padlocks@),
        n == units@.filter(needs_customer_lock(padlocks@)).len(),
{
    proof {
        lemma_unlocked_occupied_counts(units@, padlocks@);
    }
    let by_unit = padlocks_by_unit(padlocks);
    let mut n: usize = 0;
    let mut i: usize = 0;
    while i < units.len()
        invariant
            i <= units@.len(),
            n == unlocked_occupied(units@.take(i as int), padlocks@),
            n <= i,
            padlock_index(by_unit@, padlocks@),
        decreases units.len() - i,
    {
        assert(units@.take(i + 1).drop_last() == units@.take(i as int));
        let u = &units[i];
        let padlocked = padlock_for_unit(&by_unit, u.id).is_some();
        if u.occupied && !(u.red_lock || padlocked) {
            n += 1;
        }
        i += 1;
    }
    assert(units@.take(units.len() as int) == units@);
    n
}

/// The warning shown above the layout, when some unit lacks a lock.
pub fn missing_lock_warning(count: usize) -> (r: Option<String>)
    requires
        count <= i64::MAX,
    ensures
        if count == 0 {
            r is None
        } else {
            r matches Some(s) && s@ == "⚠ "@ + int_text(count as int) + " occupied without customer lock"@
        },
{
    if count == 0 {
        return None;
    }
    let mut out = chars_of("⚠ ");
    push_int(&mut out, count as i64);
    append_str(&mut out, " occupied without customer lock");
    Some(string_of(&out))
}

/// The locks marked on a tile: yellow lock, red lock, tracked padlock,
/// separated by two spaces; or a note that there is none.
pub open spec fn lock_marks(u: Unit, padlocked: bool) -> Seq<char> {
    let marks = (if u.yellow_lock { seq!["🟨"@] } else { Seq::<Seq<char>>::empty() }) + (if u.red_lock {
        seq!["🟥"@]
    } else {
        Seq::<Seq<char>>::empty()
    }) + (if padlocked { seq!["🔒"@] } else { Seq::<Seq<char>>::empty() });
    if marks.len() == 0 {
        if u.occupied { "⚠ No lock"@ } else { "No lock"@ }
    } else {
        joined(marks, "  "@)
    }
}

/// The texts of `parts`, with `sep` between each two.
pub open spec fn joined(parts: Seq<Seq<char>>, sep: Seq<char>) -> Seq<char>
    decreases parts.len(),
{
    if parts.len() == 0 {
        Seq::empty()
    } else if parts.len() == 1 {
        parts[0]
    } else {
        joined(parts.drop_last(), sep) + sep + parts.last()
    }
}

pub fn lock_status(unit: &Unit, padlocked: bool) -> (s: String)
    ensures
        s@ == lock_marks(*unit, padlocked),
{
    let ghost parts = (if unit.yellow_lock { seq!["🟨"@] } else { Seq::<Seq<char>>::empty() }) + (
    if unit.red_lock {
        seq!["🟥"@]
    } else {
        Seq::<Seq<char>>::empty()
    }) + (if padlocked { seq!["🔒"@] } else { Seq::<Seq<char>>::empty() });
    let mut out: Vec<char> = Vec::new();
    let mut count: usize = 0;
    let ghost mut done: Seq<Seq<char>> = Seq::empty();
    if unit.yellow_lock {
        append_str(&mut out, "🟨");
        count += 1;
        proof {
            done = done.push("🟨"@);
            assert(joined(done, "  "@) == "🟨"@);
        }
    }
    if unit.red_lock {
        if count > 0 {
            append_str(&mut out, "  ");
        }
        append_str(&mut out, "🟥");
        proof {
            let prev = done;
            done = done.push("🟥"@);
            assert(done.drop_last() == prev);
            if count > 0 {
                assert(joined(done, "  "@) == joined(prev, "  "@) + "  "@ + "🟥"@);
                assert(out@ =~= joined(done, "  "@));
            } else {
                assert(out@ =~= joined(done, "  "@));
            }
        }
        count += 1;
    }
    if padlocked {
        if count > 0 {
            append_str(&mut out, "  ");
        }
        append_str(&mut out, "🔒");
        proof {
            let prev = done;
            done = done.push("🔒"@);
            assert(done.drop_last() == prev);
            if count > 0 {
                assert(out@ =~= joined(done, "  "@));
            } else {
                assert(out@ =~= joined(done, "  "@));
            }
        }
        count += 1;
    }
    assert(done =~= parts);
    if count == 0 {
        if unit.occupied {
            owned("⚠ No lock")
        } else {
            owned("No lock")
        }
    } else {
        string_of(&out)
    }
}

/// The text on a unit's tile: number, state, locks and rent on four lines.
pub open spec fn tile_text(u: Unit, padlocked: bool) -> Seq<char> {
    u.unit_number@ + "\n"@ + status_label(u) + "\n"@ + lock_marks(u, padlocked) + "\n"@ + money_text(
        u.monthly_rent_cents as int,
    )
}

pub fn tile_label(unit: &Unit, padlocked: bool) -> (s: String)
    requires
        unit.monthly_rent_cents > i64::MIN,
    ensures
        s@ == tile_text(*unit, padlocked),
{
    let mut out = chars_of(unit.unit_number.as_str());
    append_str(&mut out, "\n");
    append_str(&mut out, unit_status(unit));
    append_str(&mut out, "\n");
    let locks = lock_status(unit, padlocked);
    append_str(&mut out, locks.as_str());
    append_str(&mut out, "\n");
    out.push('$');
    push_money_input(&mut out, unit.monthly_rent_cents);
    assert(out@ =~= tile_text(*unit, padlocked));
    string_of(&out)
}

/// Whether a tile is drawn with the missing-lock outline.
pub fn tile_warns(unit: &Unit, padlocked: bool) -> (b: bool)
    ensures
        b == lock_missing(*unit, padlocked),
{
    unit.occupied && !(unit.red_lock || padlocked)
}

/// Five-by-five units get narrow tiles.
pub fn tile_is_narrow(unit: &Unit) -> (b: bool)
    ensures
        b == (size_of_dimensions(unit.width, unit.length) == Some(UnitSize::FiveByFive)),
{
    match UnitSize::from_dimensions(unit.width, unit.length) {
        Some(UnitSize::FiveByFive) => true,
        _ => false,
    }
}

/// The lines of a tile's hover text, given how the unit's size is written.
pub open spec fn tile_details_text(u: Unit, padlock_serial: Option<Seq<char>>, size_text: Seq<char>) -> Seq<char> {
    let padlocked = padlock_serial is Some;
    "Unit "@ + u.unit_number@ + "\nBuilding: "@ + (if u.building@.len() == 0 {
        "Unassigned"@
    } else {
        u.building@
    }) + "\nSection: "@ + (if trim(u.layout_section@).len() == 0 {
        "Main Section"@
    } else {
        u.layout_section@
    }) + "\nDisplay order: "@ + int_text(u.display_order as int) + "\nSize: "@ + size_text
        + "\nStatus: "@ + status_label(u) + "\nYellow lock: "@ + (if u.yellow_lock {
        "Yes"@
    } else {
        "No"@
    }) + "\nRed lock: "@ + (if u.red_lock { "Yes"@ } else { "No"@ }) + "\n"@ + (match padlock_serial {
        Some(s) => "Tracked padlock: "@ + s,
        None => "Tracked padlock: None"@,
    }) + "\n"@ + (if customer_locked(u, padlocked) {
        "Customer lock coverage: Present"@
    } else if u.occupied {
        "Customer lock coverage: MISSING"@
    } else {
        "Customer lock coverage: None"@
    }) + "\nMonthly rent: "@ + money_text(u.monthly_rent_cents as int)
}

pub fn tile_details(unit: &Unit, padlock_serial: Option<&str>, size_text: &str) -> (s: String)
    requires
        unit.monthly_rent_cents > i64::MIN,
    ensures
        s@ == tile_details_text(
            *unit,
            match padlock_serial {
                Some(p) => Some(p@),
                None => None,
            },
            size_text@,
        ),
{
    let mut out = chars_of("Unit ");
    append_str(&mut out, unit.unit_number.as_str());
    append_str(&mut out, "\nBuilding: ");
    if unit.building.as_str().is_empty() {
        append_str(&mut out, "Unassigned");
    } else {
        append_str(&mut out, unit.building.as_str());
    }
    append_str(&mut out, "\nSection: ");
    let section_trimmed = trimmed(unit.layout_section.as_str());
    if section_trimmed.len() == 0 {
        append_str(&mut out, "Main Section");
    } else {
        append_str(&mut out, unit.layout_section.as_str());
    }
    append_str(&mut out, "\nDisplay order: ");
    push_int(&mut out, unit.display_order);
    append_str(&mut out, "\nSize: ");
    append_str(&mut out, size_text);
    append_str(&mut out, "\nStatus: ");
    append_str(&mut out, unit_status(unit));
    append_str(&mut out, "\nYellow lock: ");
    append_str(&mut out, if unit.yellow_lock { "Yes" } else { "No" });
    append_str(&mut out, "\nRed lock: ");
    append_str(&mut out, if unit.red_lock { "Yes" } else { "No" });
    append_str(&mut out, "\n");
    match padlock_serial {
        Some(p) => {
            append_str(&mut out, "Tracked padlock: ");
            append_str(&mut out, p);
        },
        None => {
            append_str(&mut out, "Tracked padlock: None");
        },
    }
    append_str(&mut out, "\n");
    let padlocked = padlock_serial.is_some();
    if unit.red_lock || padlocked {
        append_str(&mut out, "Customer lock coverage: Present");
    } else if unit.occupied {
        append_str(&mut out, "Customer lock coverage: MISSING");
    } else {
        append_str(&mut out, "Customer lock coverage: None");
    }
    append_str(&mut out, "\nMonthly rent: ");
    out.push('$');
    push_money_input(&mut out, unit.monthly_rent_cents);
    assert(out@ =~= tile_details_text(
        *unit,
        match padlock_serial {
            Some(p) => Some(p@),
            None => None,
        },
        size_text@,
    ));
    string_of(&out)
}

// ---------------------------------------------------------------------
// The page
// ---------------------------------------------------------------------

/// The dashboard page.
pub struct DashboardPage {
    pub summary: Option<ReportSummary>,
    pub units: Vec<Unit>,
    pub padlocks: Vec<Padlock>,
    pub loaded: bool,
    pub data_revision_seen: u64,
    pub error_message: Option<String>,
}

impl Default for DashboardPage {
    fn default() -> (p: Self)
        ensures
            p.summary is None,
            p.units@.len() == 0,
            p.padlocks@.len() == 0,
            !p.loaded,
            p.data_revision_seen == 0,
            p.error_message is None,
    {
        DashboardPage {
            summary: None,
            units: Vec::new(),
            padlocks: Vec::new(),
            loaded: false,
            data_revision_seen: 0,
            error_message: None,
        }
    }
}

impl DashboardPage {
    /// The page is loaded again when it never was or the data changed.
    pub fn needs_refresh(&self, data_revision: u64) -> (b: bool)
        ensures
            b == (!self.loaded || self.data_revision_seen != data_revision),
    {
        !self.loaded || self.data_revision_seen != data_revision
    }

    pub fn load_failed(&mut self, what: &str, error: &str) -> (status: String)
        ensures
            final(self).loaded,
            final(self).summary == old(self).summary,
            final(self).units == old(self).units,
            final(self).padlocks == old(self).padlocks,
            final(self).data_revision_seen == old(self).data_revision_seen,
            status@ == unable_message("load "@ + what@, error@),
            final(self).error_message matches Some(m) && m@ == status@,
    {
        self.loaded = true;
        let what_full = join2("load ", what);
        let message = unable(what_full.as_str(), error);
        let status = message.clone();
        self.error_message = Some(message);
        status
    }

    pub fn loaded_with(&mut self, summary: ReportSummary, units: Vec<Unit>, padlocks: Vec<Padlock>, data_revision: u64)
        ensures
            final(self).summary == Some(summary),
            final(self).units == units,
            final(self).padlocks == padlocks,
            final(self).loaded,
            final(self).data_revision_seen == data_revision,
            final(self).error_message is None,
    {
        self.summary = Some(summary);
        self.units = units;
        self.padlocks = padlocks;
        self.loaded = true;
        self.data_revision_seen = data_revision;
        self.error_message = None;
    }
}

} // verus!
