use vstd::prelude::*;
use crate::models::{severity_from_label, CheckStatus, SeverityLevel};
use crate::text::{contains_str, str_eq};

verus! {

#[verifier::external_type_specification]
#[verifier::external_body]
pub struct ExFunction(mlua::Function);

#[verifier::external_type_specification]
#[verifier::external_body]
pub struct ExAnyUserData(mlua::AnyUserData);

/// A registration that the catalog cannot safely use; fatal at load time,
/// before any device scan starts.
#[derive(Clone, Copy, Debug, PartialEq, Eq, Structural)]
pub enum ValidationError {
    /// The check's id is the empty string.
    EmptyId,
    /// The check's severity is not one of the enumerated severities.
    UnknownSeverity,
    /// A check with the same id is already registered.
    DuplicateId,
}

/// One registered check: identity, display metadata, severity, and the
/// script-side callable that runs it against a session.
pub struct CheckDefinition {
    pub id: String,
    pub name: String,
    pub description: String,
    pub severity: SeverityLevel,
    pub run: mlua::Function,
}

/// One outcome of one check. `status` is `Pass` or `Fail` when the check's
/// callable returned a verdict, and `Error` when it faulted.
#[derive(Debug)]
pub struct CheckResult {
    pub id: String,
    pub name: String,
    pub description: String,
    pub severity: SeverityLevel,
    pub status: CheckStatus,
    pub details: Option<String>,
}

/// A result reports the identity and metadata of exactly the check it came
/// from.
pub open spec fn check_reported(c: CheckDefinition, r: CheckResult) -> bool {
    &&& r.id@ == c.id@
    &&& r.name@ == c.name@
    &&& r.description@ == c.description@
    &&& r.severity == c.severity
}

impl CheckResult {
    /// The record of a check whose callable came back with a compliance
    /// answer: `Pass` for a compliant device, `Fail` otherwise, with the
    /// check's message as details when it is non-empty.
    pub fn from_check(check: &CheckDefinition, compliance: bool, msg: String) -> (r: CheckResult)
        ensures
            check_reported(*check, r),
            r.status == (if compliance {
                CheckStatus::Pass
            } else {
                CheckStatus::Fail
            }),
            r.details == (if msg@.len() > 0 {
                Some(msg)
            } else {
                None::<String>
            }),
    {
        let details = if msg.as_str().is_empty() {
            None
        } else {
            Some(msg)
        };
        CheckResult {
            id: check.id.clone(),
            name: check.name.clone(),
            description: check.description.clone(),
            severity: check.severity,
            status: if compliance {
                CheckStatus::Pass
            } else {
                CheckStatus::Fail
            },
            details,
        }
    }

    /// The result of a check whose callable faulted: status `Error`, with the
    /// fault text as details. The fault is recovered locally and never aborts
    /// the sibling checks.
    pub fn from_fault(check: &CheckDefinition, fault: String) -> (r: CheckResult)
        ensures
            check_reported(*check, r),
            r.status == CheckStatus::Error,
            r.details == Some(fault),
    {
        CheckResult {
            id: check.id.clone(),
            name: check.name.clone(),
            description: check.description.clone(),
            severity: check.severity,
            status: CheckStatus::Error,
            details: Some(fault),
        }
    }
}

/// Whether some check in `s` carries the id.
pub open spec fn has_id(s: Seq<CheckDefinition>, id: Seq<char>) -> bool {
    exists|k: int| 0 <= k < s.len() && s[k].id@ == id
}

/// All ids in `s` are pairwise distinct.
pub open spec fn ids_unique(s: Seq<CheckDefinition>) -> bool {
    forall|i: int, j: int| 0 <= i < j < s.len() ==> s[i].id@ != s[j].id@
}

/// The registry left after suppressing every check whose id is in `ids`:
/// purely subtractive, and order-preserving.
pub open spec fn retained(s: Seq<CheckDefinition>, ids: Seq<Seq<char>>) -> Seq<CheckDefinition> {
    s.filter(|c: CheckDefinition| !ids.contains(c.id@))
}

proof fn lemma_filter_identity<A>(s: Seq<A>, pred: spec_fn(A) -> bool)
    requires
        forall|i: int| 0 <= i < s.len() ==> pred(s[i]),
    ensures
        s.filter(pred) == s,
    decreases s.len(),
{
    reveal(Seq::filter);
    if s.len() == 0 {
        assert(s.filter(pred) =~= s);
    } else {
        let t = s.drop_last();
        assert(forall|i: int| 0 <= i < t.len() ==> pred(t[i]));
        lemma_filter_identity(t, pred);
        assert(pred(s.last()));
        assert(s.filter(pred) =~= s);
    }
}

proof fn lemma_filter_members<A>(s: Seq<A>, pred: spec_fn(A) -> bool)
    ensures
        forall|k: int|
            0 <= k < s.filter(pred).len() ==> exists|i: int|
                0 <= i < s.len() && s[i] == #[trigger] s.filter(pred)[k],
    decreases s.len(),
{
    reveal(Seq::filter);
    if s.len() == 0 {
    } else {
        let t = s.drop_last();
        lemma_filter_members(t, pred);
        assert forall|k: int| 0 <= k < s.filter(pred).len() implies exists|i: int|
            0 <= i < s.len() && s[i] == #[trigger] s.filter(pred)[k] by {
            if k < t.filter(pred).len() {
                let i = choose|i: int| 0 <= i < t.len() && t[i] == t.filter(pred)[k];
                assert(s[i] == s.filter(pred)[k]);
            } else {
                assert(s.filter(pred)[k] == s.last());
                assert(s[s.len() - 1] == s.filter(pred)[k]);
            }
        }
    }
}

/// The two remaining checks at positions `i < j` come from two registered
/// checks that already stood in that order.
pub open spec fn keeps_registration_order(
    s: Seq<CheckDefinition>,
    ids: Seq<Seq<char>>,
    i: int,
    j: int,
) -> bool {
    exists|a: int, b: int|
        0 <= a < b < s.len() && s[a] == retained(s, ids)[i] && s[b] == retained(s, ids)[j]
}

/// Exclusion is exact: every remaining check has a non-excluded id, every
/// registered check with a non-excluded id remains, and any two remaining
/// checks stand in their registration order. Together with the
/// contract of `Scanner::run_checks` this pins the execution plan: exactly
/// one result per registered, non-excluded id, in registration order.
pub proof fn lemma_exclusion_exact(s: Seq<CheckDefinition>, ids: Seq<Seq<char>>)
    ensures
        forall|k: int|
            0 <= k < retained(s, ids).len() ==> !ids.contains(
                (#[trigger] retained(s, ids)[k]).id@,
            ),
        forall|i: int|
            0 <= i < s.len() && !ids.contains(s[i].id@) ==> retained(s, ids).contains(
                #[trigger] s[i],
            ),
        forall|i: int, j: int|
            0 <= i < j < retained(s, ids).len() ==> #[trigger] keeps_registration_order(
                s,
                ids,
                i,
                j,
            ),
{
    broadcast use vstd::seq_lib::group_filter_ensures;

    let pred = |c: CheckDefinition| !ids.contains(c.id@);
    assert forall|i: int, j: int| 0 <= i < j < retained(s, ids).len() implies #[trigger]
    keeps_registration_order(s, ids, i, j) by {
        assert(retained(s, ids) == s.filter(pred));
        lemma_filter_index_ordering(s, pred, i, j);
        let (a, b) = choose|a: int, b: int|
            0 <= a < b < s.len() && s[a] == s.filter(pred)[i] && s[b] == s.filter(pred)[j];
        assert(0 <= a < b < s.len() && s[a] == retained(s, ids)[i] && s[b] == retained(s, ids)[j]);
    }
}

/// Exclusion is idempotent: suppressing the same id set twice leaves the same
/// registry as suppressing it once.
pub proof fn lemma_exclude_idempotent(s: Seq<CheckDefinition>, ids: Seq<Seq<char>>)
    ensures
        retained(retained(s, ids), ids) == retained(s, ids),
{
    let pred = |c: CheckDefinition| !ids.contains(c.id@);
    broadcast use vstd::seq_lib::group_filter_ensures;

    lemma_filter_identity(s.filter(pred), pred);
}

/// Exclusion keeps the ids of the remaining checks pairwise distinct.
pub proof fn lemma_retained_unique(s: Seq<CheckDefinition>, ids: Seq<Seq<char>>)
    requires
        ids_unique(s),
    ensures
        ids_unique(retained(s, ids)),
{
    let pred = |c: CheckDefinition| !ids.contains(c.id@);
    let r = s.filter(pred);
    assert forall|i: int, j: int| 0 <= i < j < r.len() implies r[i].id@ != r[j].id@ by {
        lemma_filter_index_ordering(s, pred, i, j);
    }
}

proof fn lemma_filter_index_ordering<A>(s: Seq<A>, pred: spec_fn(A) -> bool, i: int, j: int)
    requires
        0 <= i < j < s.filter(pred).len(),
    ensures
        exists|a: int, b: int|
            0 <= a < b < s.len() && s[a] == s.filter(pred)[i] && s[b] == s.filter(pred)[j],
    decreases s.len(),
{
    reveal(Seq::filter);
    if s.len() == 0 {
    } else {
        let t = s.drop_last();
        let f = s.filter(pred);
        if j < t.filter(pred).len() {
            lemma_filter_index_ordering(t, pred, i, j);
            let (a, b) = choose|a: int, b: int|
                0 <= a < b < t.len() && t[a] == t.filter(pred)[i] && t[b] == t.filter(pred)[j];
            assert(s[a] == f[i] && s[b] == f[j]);
        } else {
            assert(pred(s.last()) && f[j] == s.last());
            lemma_filter_members(t, pred);
            let a = choose|a: int| 0 <= a < t.len() && t[a] == t.filter(pred)[i];
            assert(s[a] == f[i] && s[s.len() - 1] == f[j]);
        }
    }
}

proof fn lemma_retained_step(s: Seq<CheckDefinition>, ids: Seq<Seq<char>>, i: int)
    requires
        0 <= i < s.len(),
    ensures
        retained(s.take(i + 1), ids) == if !ids.contains(s[i].id@) {
            retained(s.take(i), ids).push(s[i])
        } else {
            retained(s.take(i), ids)
        },
{
    reveal(Seq::filter);
    assert(s.take(i + 1).drop_last() =~= s.take(i));
    assert(s.take(i + 1).last() == s[i]);
}

/// The in-memory registry of currently loaded, non-excluded checks, together
/// with the execution bridge that runs them against one device session.
///
/// The registry is mutated only at load time; a device scan only reads it.
pub struct Scanner {
    checks: Vec<CheckDefinition>,
}

impl View for Scanner {
    type V = Seq<CheckDefinition>;

    closed spec fn view(&self) -> Seq<CheckDefinition> {
        self.checks@
    }
}

/// Relies on mlua::Function::call: invokes a check's `run` callable with the
/// session object bound as its one argument, and converts a script-level
/// fault (raise, wrong return shape, capability error) into its message.
/// Nothing is assumed about which outcome comes back.
#[verifier::external_body]
fn call_check(run: &mlua::Function, session: &mlua::AnyUserData) -> (r: Result<
    (bool, String),
    String,
>) {
    match run.call::<(bool, String)>(session.clone()) {
        Ok(outcome) => Ok(outcome),
        Err(e) => Err(e.to_string()),
    }
}

impl Scanner {
    /// All ids registered so far are pairwise distinct.
    pub open spec fn wf(&self) -> bool {
        ids_unique(self@)
    }

    /// A scanner with an empty registry.
    pub fn new() -> (s: Scanner)
        ensures
            s@ =~= Seq::<CheckDefinition>::empty(),
            s.wf(),
    {
        Scanner { checks: Vec::new() }
    }

    /// How many checks are registered and not excluded.
    pub fn len(&self) -> (n: usize)
        ensures
            n == self@.len(),
    {
        self.checks.len()
    }

    /// Whether some registered check carries this id.
    pub fn contains_id(&self, id: &str) -> (r: bool)
        ensures
            r == has_id(self@, id@),
    {
        let mut i: usize = 0;
        while i < self.checks.len()
            invariant
                i <= self@.len(),
                forall|k: int| 0 <= k < i ==> self@[k].id@ != id@,
            decreases self@.len() - i,
        {
            if str_eq(self.checks[i].id.as_str(), id) {
                return true;
            }
            i += 1;
        }
        false
    }

    /// The ids of the registered checks, in registration order.
    pub fn ids(&self) -> (r: Vec<String>)
        ensures
            r@.len() == self@.len(),
            forall|k: int| 0 <= k < r@.len() ==> (#[trigger] r@[k])@ == self@[k].id@,
    {
        let mut out: Vec<String> = Vec::new();
        let mut i: usize = 0;
        while i < self.checks.len()
            invariant
                i <= self@.len(),
                out@.len() == i,
                forall|k: int| 0 <= k < i ==> (#[trigger] out@[k])@ == self@[k].id@,
            decreases self@.len() - i,
        {
            out.push(self.checks[i].id.clone());
            i += 1;
        }
        out
    }

    /// Register one check from the script-side registration table, already
    /// split into its fields. Load-time only: malformed registrations are
    /// rejected here, and a duplicate id is an error, never a silent
    /// overwrite.
    pub fn register(
        &mut self,
        id: String,
        name: String,
        description: String,
        severity: &str,
        run: mlua::Function,
    ) -> (r: Result<(), ValidationError>)
        ensures
            id@.len() == 0 ==> r == Err::<(), ValidationError>(ValidationError::EmptyId)
                && final(self)@ == old(self)@,
            id@.len() > 0 && severity_from_label(severity@) is None ==> r == Err::<
                (),
                ValidationError,
            >(ValidationError::UnknownSeverity) && final(self)@ == old(self)@,
            id@.len() > 0 && severity_from_label(severity@) is Some && has_id(old(self)@, id@)
                ==> r == Err::<(), ValidationError>(ValidationError::DuplicateId) && final(self)@
                == old(self)@,
            id@.len() > 0 && severity_from_label(severity@) is Some && !has_id(old(self)@, id@)
                ==> r == Ok::<(), ValidationError>(()) && (severity_from_label(severity@) matches
            Some(sev) && final(self)@ == old(self)@.push(
                (CheckDefinition { id, name, description, severity: sev, run }),
            )),
            old(self).wf() ==> final(self).wf(),
    {
        if id.as_str().is_empty() {
            return Err(ValidationError::EmptyId);
        }
        let sev = match SeverityLevel::parse(severity) {
            Some(sev) => sev,
            None => {
                return Err(ValidationError::UnknownSeverity);
            },
        };
        if self.contains_id(id.as_str()) {
            return Err(ValidationError::DuplicateId);
        }
        self.checks.push(CheckDefinition { id, name, description, severity: sev, run });
        Ok(())
    }

    /// Suppress every registered check whose id is in `ids`: purely
    /// subtractive, keeps registration order, and never adds or reorders
    /// checks. Excluding an already-excluded id is a no-op.
    pub fn exclude_checks(&mut self, ids: &Vec<String>)
        ensures
            final(self)@ == retained(old(self)@, ids@.map_values(|t: String| t@)),
            old(self).wf() ==> final(self).wf(),
    {
        let ghost id_views = ids@.map_values(|t: String| t@);
        let ghost s0 = self@;
        let mut source: Vec<CheckDefinition> = Vec::new();
        core::mem::swap(&mut source, &mut self.checks);
        let mut kept: Vec<CheckDefinition> = Vec::new();
        let ghost mut i: int = 0;
        while source.len() > 0
            invariant
                0 <= i <= s0.len(),
                source@ == s0.skip(i),
                id_views == ids@.map_values(|t: String| t@),
                kept@ == retained(s0.take(i), id_views),
            decreases source@.len(),
        {
            let check = source.remove(0);
            proof {
                assert(check == s0[i]);
                lemma_retained_step(s0, id_views, i);
            }
            if !contains_str(ids, check.id.as_str()) {
                kept.push(check);
            }
            proof {
                assert(s0.skip(i).remove(0) =~= s0.skip(i + 1));
                i = i + 1;
            }
        }
        proof {
            assert(i == s0.len());
            assert(s0.take(s0.len() as int) =~= s0);
            if ids_unique(s0) {
                lemma_retained_unique(s0, id_views);
            }
        }
        self.checks = kept;
    }

    /// Run every remaining registered check against one device session, in
    /// registration order, producing exactly one result per check. Faults are
    /// isolated per check: a broken check yields an `Error` result and the
    /// remaining catalog still runs.
    pub fn run_checks(&self, session: &mlua::AnyUserData) -> (results: Vec<CheckResult>)
        ensures
            results@.len() == self@.len(),
            forall|i: int|
                0 <= i < results@.len() ==> check_reported(self@[i], #[trigger] results@[i]),
    {
        let mut results: Vec<CheckResult> = Vec::new();
        let mut i: usize = 0;
        while i < self.checks.len()
            invariant
                i <= self@.len(),
                results@.len() == i,
                forall|k: int|
                    0 <= k < i ==> check_reported(self@[k], #[trigger] results@[k]),
            decreases self@.len() - i,
        {
            let check = &self.checks[i];
            let record = match call_check(&check.run, session) {
                Ok((compliance, msg)) => CheckResult::from_check(check, compliance, msg),
                Err(fault) => CheckResult::from_fault(check, fault),
            };
            results.push(record);
            i += 1;
        }
        results
    }
}

} // verus!
