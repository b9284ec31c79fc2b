//! The order findings are reported in: by path, then errors before
//! warnings, then by message.
use vstd::prelude::*;
use vstd::multiset::Multiset;
use vstd::relations::{sorted_by, total_ordering};

use crate::text::{lemma_text_lt_asymmetric, lemma_text_lt_irreflexive, lemma_text_lt_total, lemma_text_lt_transitive, text_less, text_lt};
use crate::wire::{Severity, Violation};

verus! {

broadcast use vstd::seq_lib::group_to_multiset_ensures;

/// A finding as the order sees it: path, severity, message.
pub type ViolationView = (Seq<char>, Severity, Seq<char>);

impl View for Violation {
    type V = ViolationView;

    open spec fn view(&self) -> ViolationView {
        (self.path@, self.severity, self.message@)
    }
}

/// Errors sort before warnings.
pub open spec fn rank(severity: Severity) -> int {
    match severity {
        Severity::Error => 0,
        Severity::Warning => 1,
    }
}

/// `a` comes no later than `b`: by path, then severity, then message.
pub open spec fn violation_leq(a: ViolationView, b: ViolationView) -> bool {
    ||| text_lt(a.0, b.0)
    ||| (a.0 == b.0 && rank(a.1) < rank(b.1))
    ||| (a.0 == b.0 && a.1 == b.1 && !text_lt(b.2, a.2))
}

/// The order as a relation.
pub open spec fn violation_order() -> spec_fn(ViolationView, ViolationView) -> bool {
    |a: ViolationView, b: ViolationView| violation_leq(a, b)
}

/// The views of a list of findings.
pub open spec fn views(s: Seq<Violation>) -> Seq<ViolationView> {
    s.map_values(|v: Violation| v@)
}

/// The findings of `s`, in report order.
pub open spec fn in_report_order(s: Seq<ViolationView>) -> Seq<ViolationView> {
    s.sort_by(violation_order())
}

/// The report order is a total order.
pub proof fn lemma_violation_order_is_total()
    ensures
        total_ordering(violation_order()),
{
    let r = violation_order();
    assert forall|x: ViolationView| #[trigger] r(x, x) by {
        lemma_text_lt_irreflexive(x.2);
    }
    assert forall|x: ViolationView, y: ViolationView| #[trigger] r(x, y) && #[trigger] r(y, x) implies x
        == y by {
        lemma_text_lt_total(x.0, y.0);
        lemma_text_lt_total(x.2, y.2);
        if text_lt(x.0, y.0) {
            lemma_text_lt_asymmetric(x.0, y.0);
        }
        if text_lt(y.0, x.0) {
            lemma_text_lt_asymmetric(y.0, x.0);
        }
        lemma_text_lt_irreflexive(x.0);
    }
    assert forall|x: ViolationView, y: ViolationView, z: ViolationView| #[trigger] r(x, y) && #[trigger] r(
        y,
        z,
    ) implies r(x, z) by {
        lemma_text_lt_irreflexive(x.0);
        lemma_text_lt_irreflexive(y.0);
        if text_lt(x.0, y.0) && text_lt(y.0, z.0) {
            lemma_text_lt_transitive(x.0, y.0, z.0);
        }
        lemma_text_lt_total(x.2, z.2);
        if !text_lt(y.2, x.2) && !text_lt(z.2, y.2) && text_lt(z.2, x.2) {
            lemma_text_lt_total(x.2, y.2);
            lemma_text_lt_total(y.2, z.2);
            if text_lt(x.2, y.2) {
                lemma_text_lt_transitive(z.2, x.2, y.2);
            }
        }
    }
    assert forall|x: ViolationView, y: ViolationView| #[trigger] r(x, y) || #[trigger] r(y, x) by {
        lemma_text_lt_total(x.0, y.0);
        lemma_text_lt_total(x.2, y.2);
        if text_lt(x.2, y.2) {
            lemma_text_lt_asymmetric(x.2, y.2);
        }
    }
}

/// The multiset of a list after an insertion gains the inserted value.
proof fn lemma_insert_to_multiset<A>(s: Seq<A>, k: int, a: A)
    requires
        0 <= k <= s.len(),
    ensures
        s.insert(k, a).to_multiset() =~= s.to_multiset().insert(a),
{
    broadcast use vstd::multiset::group_multiset_axioms;

    let t = s.insert(k, a);
    assert(t.remove(k) =~= s);
    assert(t[k] == a);
    assert(t.to_multiset().remove(a) =~= s.to_multiset());
    assert(t.contains(a));
    assert(t.to_multiset().count(a) > 0);
}

/// The report order of findings does not depend on the order in which the
/// phases that produced them came back.
pub proof fn law_report_order_ignores_arrival(a: Seq<ViolationView>, b: Seq<ViolationView>)
    ensures
        in_report_order(a + b) == in_report_order(b + a),
{
    lemma_violation_order_is_total();
    (a + b).lemma_sort_by_ensures(violation_order());
    (b + a).lemma_sort_by_ensures(violation_order());
    vstd::seq_lib::lemma_multiset_commutative(a, b);
    vstd::seq_lib::lemma_multiset_commutative(b, a);
    assert((a + b).to_multiset() =~= (b + a).to_multiset()) by {
        broadcast use vstd::multiset::group_multiset_axioms;

    }
    vstd::seq_lib::lemma_sorted_unique(
        in_report_order(a + b),
        in_report_order(b + a),
        violation_order(),
    );
}

/// Findings already in report order stay as they are.
pub proof fn law_report_order_is_stable(s: Seq<ViolationView>)
    ensures
        in_report_order(in_report_order(s)) == in_report_order(s),
{
    lemma_violation_order_is_total();
    let once = in_report_order(s);
    s.lemma_sort_by_ensures(violation_order());
    once.lemma_sort_by_ensures(violation_order());
    vstd::seq_lib::lemma_sorted_unique(in_report_order(once), once, violation_order());
}

/// Report order, position by position: the findings are those given, paths
/// never go down in byte order, and on one path with one severity the
/// messages never go down in byte order, for errors and warnings alike.
pub proof fn law_report_order_by_position(s: Seq<ViolationView>, i: int, j: int)
    requires
        0 <= i < j < in_report_order(s).len(),
    ensures
        in_report_order(s).to_multiset() == s.to_multiset(),
        !text_lt(in_report_order(s)[j].0, in_report_order(s)[i].0),
        in_report_order(s)[i].0 == in_report_order(s)[j].0 && in_report_order(s)[i].1
            == in_report_order(s)[j].1 ==> !text_lt(in_report_order(s)[j].2, in_report_order(s)[i].2),
{
    lemma_violation_order_is_total();
    s.lemma_sort_by_ensures(violation_order());
    let o = in_report_order(s);
    assert(violation_order()(o[i], o[j]));
    lemma_text_lt_irreflexive(o[i].0);
    if text_lt(o[i].0, o[j].0) {
        lemma_text_lt_asymmetric(o[i].0, o[j].0);
    }
}

/// On one path, every error is reported before every warning.
pub proof fn law_errors_before_warnings(s: Seq<ViolationView>, i: int, j: int)
    requires
        0 <= i < in_report_order(s).len(),
        0 <= j < in_report_order(s).len(),
        in_report_order(s)[i].0 == in_report_order(s)[j].0,
        in_report_order(s)[i].1 == Severity::Error,
        in_report_order(s)[j].1 == Severity::Warning,
    ensures
        i < j,
{
    lemma_violation_order_is_total();
    s.lemma_sort_by_ensures(violation_order());
    let o = in_report_order(s);
    if j <= i {
        if j < i {
            assert(violation_order()(o[j], o[i]));
        }
        crate::text::lemma_text_lt_irreflexive(o[i].0);
    }
}

/// Whether `a` comes no later than `b`.
pub fn violation_le(a: &Violation, b: &Violation) -> (le: bool)
    ensures
        le == violation_leq(a@, b@),
{
    if text_less(a.path.as_str(), b.path.as_str()) {
        return true;
    }
    if text_less(b.path.as_str(), a.path.as_str()) {
        proof {
            lemma_text_lt_asymmetric(b.path@, a.path@);
            lemma_text_lt_irreflexive(a.path@);
        }
        return false;
    }
    proof {
        lemma_text_lt_total(a.path@, b.path@);
    }
    let ra = severity_order(&a.severity);
    let rb = severity_order(&b.severity);
    if ra != rb {
        return ra < rb;
    }
    !text_less(b.message.as_str(), a.message.as_str())
}

fn severity_order(severity: &Severity) -> (r: u8)
    ensures
        r == rank(*severity),
{
    match severity {
        Severity::Error => 0,
        Severity::Warning => 1,
    }
}

/// Inserts `x` into an ordered list, keeping it ordered.
fn insert_in_order(out: &mut Vec<Violation>, x: Violation)
    requires
        sorted_by(views(old(out)@), violation_order()),
    ensures
        sorted_by(views(final(out)@), violation_order()),
        views(final(out)@).to_multiset() =~= views(old(out)@).to_multiset().insert(x@),
{
    proof {
        lemma_violation_order_is_total();
    }
    let ghost r = violation_order();
    let ghost before = views(out@);
    let mut k: usize = 0;
    while k < out.len()
        invariant
            k <= out.len(),
            out@ == old(out)@,
            before == views(out@),
            total_ordering(r),
            r == violation_order(),
            forall|i: int| 0 <= i < k ==> #[trigger] violation_leq(before[i], x@),
        ensures
            k <= out.len(),
            out@ == old(out)@,
            before == views(out@),
            forall|i: int| 0 <= i < k ==> #[trigger] violation_leq(before[i], x@),
            k < out.len() ==> !violation_leq(before[k as int], x@),
        decreases out.len() - k,
    {
        if !violation_le(&out[k], &x) {
            break;
        }
        k = k + 1;
    }
    let ghost xv = x@;
    proof {
        if k < out.len() {
            assert(!violation_leq(before[k as int], xv));
            assert(r(xv, before[k as int]) || r(before[k as int], xv));
            assert(violation_leq(xv, before[k as int]));
        }
    }
    out.insert(k, x);
    proof {
        let after = views(out@);
        assert(after =~= before.insert(k as int, xv));
        assert forall|i: int, j: int| 0 <= i < j < after.len() implies #[trigger] r(
            after[i],
            after[j],
        ) by {
            if j < k {
                assert(r(before[i], before[j]));
            } else if j == k {
                assert(violation_leq(before[i], xv));
            } else if i < k {
                assert(r(before[i], xv));
                assert(r(before[k as int], before[j - 1]) || k as int == j - 1);
                assert(r(xv, before[k as int]));
                assert(r(xv, before[j - 1]));
                assert(r(before[i], before[j - 1]));
            } else if i == k {
                assert(r(xv, before[k as int]));
                assert(r(before[k as int], before[j - 1]) || k as int == j - 1);
            } else {
                assert(r(before[i - 1], before[j - 1]));
            }
        }
        lemma_insert_to_multiset(before, k as int, xv);
    }
}

/// Puts findings into report order.
pub fn order_violations(findings: Vec<Violation>) -> (ordered: Vec<Violation>)
    ensures
        views(ordered@) == in_report_order(views(findings@)),
{
    let ghost all = views(findings@);
    let mut rest = findings;
    let mut out: Vec<Violation> = Vec::new();
    proof {
        assert(views(out@) =~= Seq::<ViolationView>::empty());
    }
    while rest.len() > 0
        invariant
            sorted_by(views(out@), violation_order()),
            views(out@).to_multiset().add(views(rest@).to_multiset()) =~= all.to_multiset(),
        decreases rest.len(),
    {
        let ghost old_rest = rest@;
        let x = rest.pop().unwrap();
        proof {
            assert(views(old_rest) =~= views(rest@).push(x@));
        }
        insert_in_order(&mut out, x);
        proof {
            broadcast use vstd::multiset::group_multiset_axioms;

            assert(views(out@).to_multiset().add(views(rest@).to_multiset()) =~= all.to_multiset());
        }
    }
    proof {
        broadcast use vstd::multiset::group_multiset_axioms;

        assert(views(rest@) =~= Seq::<ViolationView>::empty());
        assert(views(rest@).to_multiset() =~= Multiset::<ViolationView>::empty());
        assert(views(out@).to_multiset() =~= all.to_multiset());
        lemma_violation_order_is_total();
        all.lemma_sort_by_ensures(violation_order());
        vstd::seq_lib::lemma_sorted_unique(
            views(out@),
            in_report_order(all),
            violation_order(),
        );
    }
    out
}

} // verus!
