//! Breakpoint system for the interactive debugger.
//!
//! Supports breakpoints on: function entries/exits, host function calls,
//! contract addresses, budget thresholds, and storage access patterns.
//!
//! The controller is modelled as a sequence of breakpoints together with the
//! next identifier to hand out. Identifiers are strictly increasing along the
//! sequence and always below the next identifier, so no identifier is ever
//! handed out twice.
use vstd::prelude::*;

verus! {

/// A breakpoint definition.
#[derive(Debug, Clone)]
pub struct Breakpoint {
    /// Unique breakpoint ID.
    pub id: u32,
    /// Breakpoint condition.
    pub condition: BreakpointCondition,
    /// Whether this breakpoint is enabled.
    pub enabled: bool,
    /// Optional label/description.
    pub label: Option<String>,
    /// Number of times this breakpoint has been hit.
    pub hit_count: u32,
}

/// Conditions that trigger a breakpoint.
#[derive(Debug, Clone)]
pub enum BreakpointCondition {
    /// Break when a specific contract function is entered.
    FunctionEntry { contract_id: Option<String>, function_name: String },
    /// Break when a specific contract function exits.
    FunctionExit { contract_id: Option<String>, function_name: String },
    /// Break on any call to a specific host function.
    HostFunction { function_name: String },
    /// Break when a cross-contract call targets a specific contract.
    ContractCall { target_contract_id: String },
    /// Break when CPU budget exceeds a threshold.
    BudgetThreshold { cpu_instructions: u64 },
    /// Break when a specific ledger key is accessed.
    StorageAccess { ledger_key: String },
}

/// Breakpoint controller — evaluates conditions at each trace point.
pub struct BreakpointController {
    /// Active breakpoints.
    breakpoints: Vec<Breakpoint>,
    /// Auto-incrementing ID counter.
    next_id: u32,
}

/// The breakpoint that `add` appends.
pub open spec fn fresh_breakpoint(
    id: u32,
    condition: BreakpointCondition,
    label: Option<String>,
) -> Breakpoint {
    Breakpoint { id, condition, enabled: true, label, hit_count: 0 }
}

/// Whether some breakpoint in `s` carries `id`.
pub open spec fn has_id(s: Seq<Breakpoint>, id: u32) -> bool {
    exists|i: int| 0 <= i < s.len() && #[trigger] s[i].id == id
}

/// `s` with every breakpoint carrying `id` left out, the others in order.
pub open spec fn without_id(s: Seq<Breakpoint>, id: u32) -> Seq<Breakpoint>
    decreases s.len(),
{
    if s.len() == 0 {
        s
    } else {
        let rest = without_id(s.drop_last(), id);
        if s.last().id == id {
            rest
        } else {
            rest.push(s.last())
        }
    }
}

/// `b` with its enabled flag flipped.
pub open spec fn flipped(b: Breakpoint) -> Breakpoint {
    Breakpoint { enabled: !b.enabled, ..b }
}

/// `s` with the enabled flag of every breakpoint carrying `id` flipped.
pub open spec fn toggled(s: Seq<Breakpoint>, id: u32) -> Seq<Breakpoint> {
    Seq::new(s.len(), |i: int| if s[i].id == id { flipped(s[i]) } else { s[i] })
}

/// The identifiers of `s` increase strictly and lie in `1 .. next`.
pub open spec fn ids_ordered(s: Seq<Breakpoint>, next: u32) -> bool {
    &&& 1 <= next
    &&& forall|i: int| 0 <= i < s.len() ==> 1 <= #[trigger] s[i].id < next
    &&& forall|i: int, j: int| 0 <= i < j < s.len() ==> s[i].id < s[j].id
}

/// No breakpoint of `s` has been hit.
pub open spec fn never_hit(s: Seq<Breakpoint>) -> bool {
    forall|i: int| 0 <= i < s.len() ==> (#[trigger] s[i]).hit_count == 0
}

impl BreakpointController {
    /// The breakpoints, in the order they were added.
    pub closed spec fn entries(&self) -> Seq<Breakpoint> {
        self.breakpoints@
    }

    /// The identifier the next `add` hands out.
    pub closed spec fn next_id(&self) -> u32 {
        self.next_id
    }

    /// The controller's invariant: identifiers are unique, ordered, and fresh
    /// with respect to the counter, and no breakpoint has been hit yet.
    pub open spec fn well_formed(&self) -> bool {
        ids_ordered(self.entries(), self.next_id()) && never_hit(self.entries())
    }

    /// Create a new breakpoint controller.
    pub fn new() -> (c: Self)
        ensures
            c.entries() == Seq::<Breakpoint>::empty(),
            c.next_id() == 1,
            c.well_formed(),
    {
        Self { breakpoints: Vec::new(), next_id: 1 }
    }

    /// Add a breakpoint and return its ID.
    pub fn add(&mut self, condition: BreakpointCondition, label: Option<String>) -> (id: u32)
        requires
            old(self).well_formed(),
            old(self).next_id() < u32::MAX,
        ensures
            id == old(self).next_id(),
            final(self).next_id() == old(self).next_id() + 1,
            final(self).entries() == old(self).entries().push(
                fresh_breakpoint(id, condition, label),
            ),
            final(self).well_formed(),
    {
        let id = self.next_id;
        self.next_id = self.next_id + 1;
        proof {
            let s = old(self).breakpoints@;
            assert forall|i: int| 0 <= i < s.len() implies #[trigger] s[i].id < id by {}
        }
        self.breakpoints.push(Breakpoint { id, condition, enabled: true, label, hit_count: 0 });
        proof {
            let s = old(self).breakpoints@;
            let t = self.breakpoints@;
            assert forall|i: int, j: int| 0 <= i < j < t.len() implies t[i].id < t[j].id by {
                assert(t[i] == s[i]);
                if j < s.len() {
                    assert(t[j] == s[j]);
                }
            }
        }
        id
    }

    /// Remove a breakpoint by ID.
    pub fn remove(&mut self, id: u32) -> (removed: bool)
        requires
            old(self).well_formed(),
        ensures
            removed == has_id(old(self).entries(), id),
            final(self).entries() == without_id(old(self).entries(), id),
            final(self).next_id() == old(self).next_id(),
            final(self).well_formed(),
    {
        let ghost s = self.breakpoints@;
        let len_before = self.breakpoints.len();
        let mut kept: Vec<Breakpoint> = Vec::new();
        let mut old_list: Vec<Breakpoint> = Vec::new();
        std::mem::swap(&mut old_list, &mut self.breakpoints);
        let mut i: usize = 0;
        while old_list.len() > 0
            invariant
                old_list@ == s.skip(i as int),
                len_before == s.len(),
                i <= s.len(),
                kept@ == without_id(s.take(i as int), id),
                kept@.len() + (if has_id(s.take(i as int), id) { 1int } else { 0int }) == i,
                ids_ordered(s, old(self).next_id()),
            decreases s.len() - i,
        {
            proof {
                assert(s.take(i as int + 1).drop_last() =~= s.take(i as int));
                if has_id(s.take(i as int + 1), id) && s[i as int].id != id {
                    let k = choose|k: int| 0 <= k < i + 1 && #[trigger] s.take(i as int + 1)[k].id == id;
                    assert(s.take(i as int)[k].id == id);
                }
                if has_id(s.take(i as int), id) {
                    let k = choose|k: int| 0 <= k < i && #[trigger] s.take(i as int)[k].id == id;
                    assert(s.take(i as int + 1)[k].id == id);
                }
                if s[i as int].id == id {
                    assert(s.take(i as int + 1)[i as int].id == id);
                    if has_id(s.take(i as int), id) {
                        let k = choose|k: int| 0 <= k < i && #[trigger] s.take(i as int)[k].id == id;
                        assert(s[k].id < s[i as int].id);
                    }
                }
            }
            let b = old_list.remove(0);
            proof {
                assert(old_list@ =~= s.skip(i as int + 1));
            }
            if b.id != id {
                kept.push(b);
            }
            i = i + 1;
        }
        proof {
            assert(s.take(s.len() as int) =~= s);
            lemma_without_id_ordered(s, id, old(self).next_id());
        }
        self.breakpoints = kept;
        self.breakpoints.len() < len_before
    }

    /// Toggle a breakpoint's enabled state.
    pub fn toggle(&mut self, id: u32) -> (state: Option<bool>)
        requires
            old(self).well_formed(),
        ensures
            final(self).entries() == toggled(old(self).entries(), id),
            final(self).next_id() == old(self).next_id(),
            final(self).well_formed(),
            final(self).entries().len() == old(self).entries().len(),
            forall|k: int|
                0 <= k < old(self).entries().len() && old(self).entries()[k].id != id
                    ==> #[trigger] final(self).entries()[k] == old(self).entries()[k],
            forall|k: int|
                0 <= k < old(self).entries().len() && old(self).entries()[k].id == id
                    ==> #[trigger] final(self).entries()[k] == (Breakpoint {
                    enabled: !old(self).entries()[k].enabled,
                    ..old(self).entries()[k]
                }),
            has_id(old(self).entries(), id) ==> state is Some,
            !has_id(old(self).entries(), id) ==> state is None,
            forall|i: int|
                0 <= i < old(self).entries().len() && #[trigger] old(self).entries()[i].id == id
                    ==> state == Some(!old(self).entries()[i].enabled),
    {
        let ghost s = self.breakpoints@;
        let mut i: usize = 0;
        while i < self.breakpoints.len()
            invariant
                self.breakpoints@ == s,
                self.next_id == old(self).next_id,
                s == old(self).breakpoints@,
                i <= s.len(),
                forall|k: int| 0 <= k < i ==> #[trigger] s[k].id != id,
                ids_ordered(s, self.next_id),
                never_hit(s),
            decreases s.len() - i,
        {
            if self.breakpoints[i].id == id {
                let mut b = self.breakpoints.remove(i);
                b.enabled = !b.enabled;
                let state = b.enabled;
                self.breakpoints.insert(i, b);
                proof {
                    assert forall|k: int| 0 <= k < s.len() && k != i implies #[trigger] s[k].id != id by {
                        if k < i {
                        } else {
                            assert(s[i as int].id < s[k].id);
                        }
                    }
                    assert(self.breakpoints@ =~= toggled(s, id));
                    assert forall|k: int| 0 <= k < s.len() implies (#[trigger] toggled(s, id)[k]).hit_count == 0 by {
                        assert(s[k].hit_count == 0);
                    }
                }
                return Some(state);
            }
            i = i + 1;
        }
        proof {
            assert(self.breakpoints@ =~= toggled(s, id));
        }
        None
    }

    /// Get all active breakpoints.
    pub fn list(&self) -> (r: &[Breakpoint])
        ensures
            r@ == self.entries(),
    {
        self.breakpoints.as_slice()
    }
}

impl Default for BreakpointController {
    /// An empty controller, as `new` makes it.
    fn default() -> (c: Self)
        ensures
            c.entries() == Seq::<Breakpoint>::empty(),
            c.next_id() == 1,
            c.well_formed(),
    {
        Self::new()
    }
}

/// Removing by identifier keeps the identifiers ordered and below the counter.
proof fn lemma_without_id_ordered(s: Seq<Breakpoint>, id: u32, next: u32)
    requires
        ids_ordered(s, next),
    ensures
        ids_ordered(without_id(s, id), next),
        forall|i: int|
            0 <= i < without_id(s, id).len() ==> (#[trigger] without_id(s, id)[i]).id != id
                && s.contains(without_id(s, id)[i]),
    decreases s.len(),
{
    if s.len() > 0 {
        let r = without_id(s.drop_last(), id);
        lemma_without_id_ordered(s.drop_last(), id, next);
        assert forall|i: int| 0 <= i < r.len() implies (#[trigger] r[i]).id < s.last().id by {
            assert(s.drop_last().contains(r[i]));
            let k = choose|k: int| 0 <= k < s.drop_last().len() && s.drop_last()[k] == r[i];
            assert(s[k] == r[i]);
        }
        assert forall|i: int| 0 <= i < r.len() implies s.contains(#[trigger] r[i]) by {
            assert(s.drop_last().contains(r[i]));
            let k = choose|k: int| 0 <= k < s.drop_last().len() && s.drop_last()[k] == r[i];
            assert(s[k] == r[i]);
        }
        if s.last().id != id {
            assert(s[s.len() - 1] == s.last());
        }
    }
}

/// A controller that `new`, `add`, `remove` and `toggle` produced (each keeps
/// it well formed) lists breakpoints with strictly increasing identifiers,
/// each at least 1 and below the identifier the next `add` hands out, none of
/// them hit yet.
pub proof fn law_listed_breakpoints(c: BreakpointController)
    requires
        c.well_formed(),
    ensures
        forall|i: int, j: int|
            0 <= i < j < c.entries().len() ==> c.entries()[i].id < c.entries()[j].id,
        forall|i: int|
            0 <= i < c.entries().len() ==> 1 <= (#[trigger] c.entries()[i]).id < c.next_id()
                && c.entries()[i].hit_count == 0,
{
}

/// Toggling an identifier flips the enabled flag of the breakpoints that
/// carry it, keeping their other fields, and leaves every other breakpoint
/// exactly as it was.
pub proof fn law_toggle_touches_only_that_id(s: Seq<Breakpoint>, id: u32)
    ensures
        toggled(s, id).len() == s.len(),
        forall|k: int| 0 <= k < s.len() && s[k].id != id ==> #[trigger] toggled(s, id)[k] == s[k],
        forall|k: int|
            0 <= k < s.len() && s[k].id == id ==> (#[trigger] toggled(s, id)[k]).enabled
                == !s[k].enabled && toggled(s, id)[k].id == s[k].id && toggled(s, id)[k].condition
                == s[k].condition && toggled(s, id)[k].label == s[k].label && toggled(
                s,
                id,
            )[k].hit_count == s[k].hit_count,
{
}

/// Removing an identifier that no breakpoint carries changes nothing.
pub proof fn law_remove_absent_is_noop(s: Seq<Breakpoint>, id: u32)
    requires
        !has_id(s, id),
    ensures
        without_id(s, id) == s,
    decreases s.len(),
{
    if s.len() > 0 {
        assert forall|i: int| 0 <= i < s.drop_last().len() implies #[trigger] s.drop_last()[i].id != id by {
            assert(s[i] == s.drop_last()[i]);
        }
        law_remove_absent_is_noop(s.drop_last(), id);
        assert(s[s.len() - 1].id != id);
        assert(s.drop_last().push(s.last()) =~= s);
    }
}

/// After a removal no breakpoint carries the identifier, so a second removal
/// reports `false` and changes nothing.
pub proof fn law_remove_is_final(s: Seq<Breakpoint>, id: u32)
    ensures
        !has_id(without_id(s, id), id),
        without_id(without_id(s, id), id) == without_id(s, id),
    decreases s.len(),
{
    if s.len() > 0 {
        law_remove_is_final(s.drop_last(), id);
        let r = without_id(s.drop_last(), id);
        if s.last().id != id {
            assert forall|i: int| 0 <= i < r.push(s.last()).len() implies #[trigger] r.push(s.last())[i].id != id by {
                if i < r.len() {
                    assert(r.push(s.last())[i] == r[i]);
                }
            }
        }
    }
    law_remove_absent_is_noop(without_id(s, id), id);
}

/// `add` hands out an identifier that no breakpoint carried before, which the
/// new list carries, and the controller stays well formed.
pub proof fn law_add_hands_out_fresh_id(
    s: Seq<Breakpoint>,
    next: u32,
    condition: BreakpointCondition,
    label: Option<String>,
)
    requires
        ids_ordered(s, next),
        next < u32::MAX,
    ensures
        !has_id(s, next),
        has_id(s.push(fresh_breakpoint(next, condition, label)), next),
        ids_ordered(s.push(fresh_breakpoint(next, condition, label)), (next + 1) as u32),
{
    let t = s.push(fresh_breakpoint(next, condition, label));
    assert(t[s.len() as int].id == next);
    assert forall|i: int, j: int| 0 <= i < j < t.len() implies t[i].id < t[j].id by {
        assert(t[i] == s[i]);
        if j < s.len() {
            assert(t[j] == s[j]);
        }
    }
    assert forall|i: int| 0 <= i < t.len() implies 1 <= #[trigger] t[i].id < next + 1 by {
        if i < s.len() {
            assert(t[i] == s[i]);
        }
    }
}

/// Removing the identifier that `add` just handed out gives back the list as
/// it was before the `add`.
pub proof fn law_remove_undoes_add(
    s: Seq<Breakpoint>,
    next: u32,
    condition: BreakpointCondition,
    label: Option<String>,
)
    requires
        ids_ordered(s, next),
    ensures
        has_id(s.push(fresh_breakpoint(next, condition, label)), next),
        without_id(s.push(fresh_breakpoint(next, condition, label)), next) == s,
{
    let t = s.push(fresh_breakpoint(next, condition, label));
    assert(t[s.len() as int].id == next);
    assert(t.drop_last() =~= s);
    law_remove_absent_is_noop(s, next);
}

/// Toggling the same identifier twice restores every breakpoint.
pub proof fn law_toggle_twice_restores(s: Seq<Breakpoint>, id: u32)
    ensures
        toggled(toggled(s, id), id) == s,
{
    assert(toggled(toggled(s, id), id) =~= s);
}

/// Toggling keeps the identifiers, so the controller stays well formed and an
/// identifier is present after a toggle exactly when it was before.
pub proof fn law_toggle_keeps_ids(s: Seq<Breakpoint>, id: u32, other: u32)
    ensures
        toggled(s, id).len() == s.len(),
        forall|i: int| 0 <= i < s.len() ==> (#[trigger] toggled(s, id)[i]).id == s[i].id,
        has_id(toggled(s, id), other) == has_id(s, other),
{
    if has_id(s, other) {
        let k = choose|k: int| 0 <= k < s.len() && #[trigger] s[k].id == other;
        assert(toggled(s, id)[k].id == other);
    }
    if has_id(toggled(s, id), other) {
        let k = choose|k: int| 0 <= k < s.len() && #[trigger] toggled(s, id)[k].id == other;
        assert(s[k].id == other);
    }
}

} // verus!
