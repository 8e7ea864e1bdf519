//! Assembling the route table: each deployable unit's annotation is read on
//! its own, and a route that an earlier unit already owns is reported, never
//! taken twice.

use vstd::prelude::*;
use crate::annotation::{
    route, route_outcome, AnnotationArg, ArgView, Diagnostic, DiagnosticView, RouteMapping,
    RouteView, arg_views,
};
use crate::eligibility::EligibilityResult;
use crate::text::same_text;

verus! {

/// A unit with its verdict and the annotation on its entry point: the name
/// of the annotated function and the annotation's arguments.
#[derive(Clone, Debug, PartialEq, Eq)]
pub struct AnnotatedUnit {
    pub verdict: EligibilityResult,
    pub handler_name: String,
    pub args: Vec<AnnotationArg>,
}

/// What the assembler reads of an `AnnotatedUnit`.
pub struct UnitView {
    pub deployable: bool,
    pub handler_name: Seq<char>,
    pub args: Seq<ArgView>,
}

impl View for AnnotatedUnit {
    type V = UnitView;

    open spec fn view(&self) -> UnitView {
        UnitView {
            deployable: self.verdict.deployable(),
            handler_name: self.handler_name@,
            args: arg_views(self.args@),
        }
    }
}

/// What became of one unit.
#[derive(Clone, Debug, PartialEq, Eq)]
pub enum UnitOutcome {
    /// The unit cannot be deployed, so its annotation was not read.
    NotDeployable,
    /// The unit's route is in the table.
    Routed(RouteMapping),
    /// The unit's annotation gave no route.
    Malformed(Diagnostic),
    /// The unit's route belongs to the earlier unit at place `with`.
    Conflict { with: usize },
}

/// What a `UnitOutcome` holds.
pub enum OutcomeView {
    NotDeployable,
    Routed(RouteView),
    Malformed(DiagnosticView),
    Conflict { with: usize },
}

impl View for UnitOutcome {
    type V = OutcomeView;

    open spec fn view(&self) -> OutcomeView {
        match self {
            UnitOutcome::NotDeployable => OutcomeView::NotDeployable,
            UnitOutcome::Routed(mapping) => OutcomeView::Routed(mapping@),
            UnitOutcome::Malformed(d) => OutcomeView::Malformed(d@),
            UnitOutcome::Conflict { with } => OutcomeView::Conflict { with: *with },
        }
    }
}

/// One row of the route table: a route and the place of the unit that owns it.
#[derive(Clone, Debug, PartialEq, Eq)]
pub struct TableEntry {
    pub unit: usize,
    pub route: RouteMapping,
}

/// What a `TableEntry` holds.
pub struct RowView {
    pub unit: usize,
    pub route: RouteView,
}

impl View for TableEntry {
    type V = RowView;

    open spec fn view(&self) -> RowView {
        RowView { unit: self.unit, route: self.route@ }
    }
}

/// The route table, and for every unit that was handed in what became of it.
#[derive(Clone, Debug, PartialEq, Eq)]
pub struct RouteTable {
    pub entries: Vec<TableEntry>,
    pub outcomes: Vec<UnitOutcome>,
}

/// The units of a list, each by what the assembler reads of it.
pub open spec fn unit_views(units: Seq<AnnotatedUnit>) -> Seq<UnitView> {
    Seq::new(units.len(), |i: int| units[i]@)
}

/// The outcomes of a list, each by what it holds.
pub open spec fn outcome_views(outcomes: Seq<UnitOutcome>) -> Seq<OutcomeView> {
    Seq::new(outcomes.len(), |i: int| outcomes[i]@)
}

/// The rows of a list, each by what it holds.
pub open spec fn row_views(entries: Seq<TableEntry>) -> Seq<RowView> {
    Seq::new(entries.len(), |i: int| entries[i]@)
}

/// What reading the annotation of unit `i` gives.
pub open spec fn extracted(units: Seq<UnitView>, i: int) -> Result<RouteView, DiagnosticView> {
    route_outcome(units[i].args, units[i].handler_name)
}

/// Whether two routes are the same route: the same method on the same path.
pub open spec fn same_route(a: RouteView, b: RouteView) -> bool {
    a.method == b.method && a.path == b.path
}

/// Whether unit `j` is deployable and its annotation declares the route `r`.
pub open spec fn claims(units: Seq<UnitView>, j: int, r: RouteView) -> bool {
    units[j].deployable && match extracted(units, j) {
        Ok(other) => same_route(other, r),
        Err(_) => false,
    }
}

/// The place of the first of the first `n` units that declares `r`, or `n`
/// where none of them does.
pub open spec fn first_claim(units: Seq<UnitView>, r: RouteView, n: int) -> int
    decreases n,
{
    if n <= 0 {
        0
    } else {
        let earlier = first_claim(units, r, n - 1);
        if earlier < n - 1 || claims(units, n - 1, r) {
            earlier
        } else {
            n
        }
    }
}

/// What becomes of unit `i`: a unit that cannot be deployed is left out, a
/// malformed annotation is reported, a route that an earlier deployable unit
/// declares is a conflict with the first such unit, and any other route goes
/// into the table.
pub open spec fn outcome_at(units: Seq<UnitView>, i: int) -> OutcomeView {
    if !units[i].deployable {
        OutcomeView::NotDeployable
    } else {
        match extracted(units, i) {
            Err(d) => OutcomeView::Malformed(d),
            Ok(r) => {
                let owner = first_claim(units, r, i);
                if owner < i {
                    OutcomeView::Conflict { with: owner as usize }
                } else {
                    OutcomeView::Routed(r)
                }
            },
        }
    }
}

/// The rows that the first `n` units give, in the order of the units.
pub open spec fn table_upto(units: Seq<UnitView>, n: int) -> Seq<RowView>
    decreases n,
{
    if n <= 0 {
        Seq::empty()
    } else {
        match outcome_at(units, n - 1) {
            OutcomeView::Routed(r) => table_upto(units, n - 1).push(
                RowView { unit: (n - 1) as usize, route: r },
            ),
            _ => table_upto(units, n - 1),
        }
    }
}

/// `first_claim` is the least place that declares `r`: below it nothing does,
/// and where it is below `n` the unit there does.
pub proof fn first_claim_is_least(units: Seq<UnitView>, r: RouteView, n: int)
    requires
        0 <= n,
    ensures
        0 <= first_claim(units, r, n) <= n,
        first_claim(units, r, n) < n ==> claims(units, first_claim(units, r, n), r),
        forall|k: int| 0 <= k < first_claim(units, r, n) ==> !claims(units, k, r),
    decreases n,
{
    if n > 0 {
        first_claim_is_least(units, r, n - 1);
    }
}

/// Whether two routes are the same route.
pub fn routes_collide(a: &RouteMapping, b: &RouteMapping) -> (r: bool)
    ensures
        r == same_route(a@, b@),
{
    a.method == b.method && same_text(a.path.as_str(), b.path.as_str())
}

/// Reads the annotation of every deployable unit and assembles the route
/// table. A unit whose annotation is malformed is reported and left out, and
/// so is a unit whose route an earlier deployable unit declares: the first
/// unit to declare a route owns it. One unit's failure never touches another
/// unit.
pub fn assemble(units: &Vec<AnnotatedUnit>) -> (r: RouteTable)
    ensures
        r.outcomes.len() == units.len(),
        forall|i: int|
            0 <= i < units.len() ==> (#[trigger] r.outcomes[i])@ == outcome_at(unit_views(units@), i),
        row_views(r.entries@) == table_upto(unit_views(units@), units.len() as int),
        forall|a: int, b: int|
            0 <= a < b < r.entries.len() ==> !same_route(
                (#[trigger] r.entries[a]).route@,
                (#[trigger] r.entries[b]).route@,
            ),
{
    let ghost uv = unit_views(units@);
    let mut entries: Vec<TableEntry> = Vec::new();
    let mut outcomes: Vec<UnitOutcome> = Vec::new();
    let mut declared: Vec<Option<RouteMapping>> = Vec::new();
    let mut i: usize = 0;
    assert(row_views(entries@) =~= table_upto(uv, 0));
    while i < units.len()
        invariant
            i <= units.len(),
            uv == unit_views(units@),
            outcomes.len() == i,
            declared.len() == i,
            forall|k: int| 0 <= k < i ==> (#[trigger] outcomes[k])@ == outcome_at(uv, k),
            forall|k: int|
                0 <= k < i ==> match #[trigger] declared[k] {
                    Some(mapping) => uv[k].deployable && extracted(uv, k) == Ok::<
                        RouteView,
                        DiagnosticView,
                    >(mapping@),
                    None => !uv[k].deployable || extracted(uv, k).is_err(),
                },
            row_views(entries@) == table_upto(uv, i as int),
        decreases units.len() - i,
    {
        let ghost rows = row_views(entries@);
        let unit = &units[i];
        assert(uv[i as int] == unit@);
        if !unit.verdict.is_deployable() {
            outcomes.push(UnitOutcome::NotDeployable);
            declared.push(None);
        } else {
            match route(&unit.args, unit.handler_name.as_str()) {
                Err(d) => {
                    outcomes.push(UnitOutcome::Malformed(d));
                    declared.push(None);
                },
                Ok(mapping) => {
                    let mut owner: usize = 0;
                    let mut found = false;
                    while owner < i && !found
                        invariant
                            owner <= i,
                            declared.len() == i,
                            found ==> owner < i && claims(uv, owner as int, mapping@),
                            forall|k: int| 0 <= k < owner ==> !claims(uv, k, mapping@),
                            forall|k: int|
                                0 <= k < i ==> match #[trigger] declared[k] {
                                    Some(earlier) => uv[k].deployable && extracted(uv, k) == Ok::<
                                        RouteView,
                                        DiagnosticView,
                                    >(earlier@),
                                    None => !uv[k].deployable || extracted(uv, k).is_err(),
                                },
                        decreases (i - owner) + (if found { 0int } else { 1int }),
                    {
                        let collides = match &declared[owner] {
                            Some(earlier) => routes_collide(earlier, &mapping),
                            None => false,
                        };
                        if collides {
                            found = true;
                        } else {
                            owner += 1;
                        }
                    }
                    proof {
                        first_claim_is_least(uv, mapping@, i as int);
                    }
                    if found {
                        outcomes.push(UnitOutcome::Conflict { with: owner });
                        declared.push(Some(mapping));
                    } else {
                        entries.push(TableEntry { unit: i, route: mapping.duplicate() });
                        outcomes.push(UnitOutcome::Routed(mapping.duplicate()));
                        declared.push(Some(mapping));
                        assert(row_views(entries@) =~= rows.push(
                            RowView { unit: i, route: mapping@ },
                        ));
                    }
                },
            }
        }
        i += 1;
    }
    proof {
        assert forall|a: int, b: int| 0 <= a < b < entries.len() implies !same_route(
            (#[trigger] entries[a]).route@,
            (#[trigger] entries[b]).route@,
        ) by {
            table_routes_are_unique(uv, a, b);
            assert(row_views(entries@)[a].route == entries[a].route@);
            assert(row_views(entries@)[b].route == entries[b].route@);
        }
    }
    RouteTable { entries, outcomes }
}

/// Every row of the table stands for a deployable unit whose outcome is that
/// route, and the rows keep the order of the units.
pub proof fn rows_follow_units(units: Seq<UnitView>, n: int, k: int)
    requires
        0 <= n <= units.len() <= usize::MAX,
        0 <= k < table_upto(units, n).len(),
    ensures
        0 <= table_upto(units, n)[k].unit < n,
        units[table_upto(units, n)[k].unit as int].deployable,
        outcome_at(units, table_upto(units, n)[k].unit as int) == OutcomeView::Routed(
            table_upto(units, n)[k].route,
        ),
        forall|j: int| 0 <= j < k ==> (#[trigger] table_upto(units, n)[j]).unit < table_upto(units, n)[k].unit,
    decreases n,
{
    if n > 0 {
        let rest = table_upto(units, n - 1);
        if k < rest.len() {
            rows_follow_units(units, n - 1, k);
        } else {
            assert forall|j: int| 0 <= j < k implies (#[trigger] table_upto(units, n)[j]).unit
                < table_upto(units, n)[k].unit by {
                rows_follow_units(units, n - 1, j);
            }
        }
    }
}

/// No two rows of the table hold the same method on the same path.
pub proof fn table_routes_are_unique(units: Seq<UnitView>, a: int, b: int)
    requires
        units.len() <= usize::MAX,
        0 <= a < b < table_upto(units, units.len() as int).len(),
    ensures
        !same_route(
            table_upto(units, units.len() as int)[a].route,
            table_upto(units, units.len() as int)[b].route,
        ),
{
    let n = units.len() as int;
    let table = table_upto(units, n);
    rows_follow_units(units, n, a);
    rows_follow_units(units, n, b);
    assert(table[a].unit < table[b].unit);
    first_claim_is_least(units, table[b].route, table[b].unit as int);
    assert(units[table[a].unit as int].deployable);
    assert(extracted(units, table[a].unit as int) == Ok::<RouteView, DiagnosticView>(table[a].route));
    if same_route(table[a].route, table[b].route) {
        assert(claims(units, table[a].unit as int, table[b].route));
    }
}

/// Two deployable units that declare the same route never both reach the
/// table: the later one is reported as a conflict with the first unit that
/// declares the route.
pub proof fn duplicate_route_is_reported(units: Seq<UnitView>, i: int, j: int)
    requires
        0 <= i < j < units.len(),
        units[i].deployable,
        units[j].deployable,
        extracted(units, i).is_ok(),
        extracted(units, j).is_ok(),
        same_route(extracted(units, i)->Ok_0, extracted(units, j)->Ok_0),
    ensures
        outcome_at(units, j) is Conflict,
        outcome_at(units, j)->with <= i,
{
    first_claim_is_least(units, extracted(units, j)->Ok_0, j);
    assert(claims(units, i, extracted(units, j)->Ok_0));
}

/// A unit's outcome is decided by the units before it alone: what follows it,
/// malformed or not, changes nothing.
pub proof fn later_units_change_nothing(units: Seq<UnitView>, more: Seq<UnitView>, i: int)
    requires
        0 <= i < units.len(),
    ensures
        outcome_at(units + more, i) == outcome_at(units, i),
{
    let all = units + more;
    assert(all[i] == units[i]);
    match extracted(units, i) {
        Ok(r) => {
            same_first_claim(units, more, r, i);
        },
        Err(_) => {},
    }
}

proof fn same_first_claim(units: Seq<UnitView>, more: Seq<UnitView>, r: RouteView, n: int)
    requires
        0 <= n <= units.len(),
    ensures
        first_claim(units + more, r, n) == first_claim(units, r, n),
    decreases n,
{
    if n > 0 {
        same_first_claim(units, more, r, n - 1);
        assert((units + more)[n - 1] == units[n - 1]);
    }
}

} // verus!
