use vstd::prelude::*;
use crate::classify::{spec_directive, spec_slot_kind, DirectiveView, SlotKind};
use crate::decl::Member;
use crate::model::{
    any_missing, call_fits, calls_fit, fresh_slots, missing, run, slots_fit, spec_build,
    step, Call, FieldView, SlotView,
};
use crate::plan::{member_planned, member_planned_with, opt_view, MemberPlan};

verus! {

/// The value last given to the setter of member `i` in `cs`, if any.
pub open spec fn last_assigned<V>(cs: Seq<Call<V>>, i: int) -> Option<V>
    decreases cs.len(),
{
    if cs.len() == 0 {
        None
    } else {
        match cs.last() {
            Call::Assign(j, v) => if j == i {
                Some(v)
            } else {
                last_assigned(cs.drop_last(), i)
            },
            _ => last_assigned(cs.drop_last(), i),
        }
    }
}

/// Appending each of `xs` to member `i`, in order.
pub open spec fn appends<V>(i: int, xs: Seq<V>) -> Seq<Call<V>> {
    Seq::new(xs.len(), |j: int| Call::Append(i, xs[j]))
}

/// Calls that exist on the builder keep every slot in the shape of its kind.
pub proof fn lemma_run_fits<V>(ks: Seq<SlotKind>, ss: Seq<SlotView<V>>, cs: Seq<Call<V>>)
    requires
        slots_fit(ks, ss),
        calls_fit(ks, cs),
    ensures
        slots_fit(ks, run(ss, cs)),
    decreases cs.len(),
{
    if cs.len() > 0 {
        assert(call_fits(ks, cs[cs.len() - 1]));
        lemma_run_fits(ks, ss, cs.drop_last());
    }
}

/// After any calls, a required or optional slot holds the value last set, or
/// what it held before when it was never set.
pub proof fn lemma_run_single<V>(ks: Seq<SlotKind>, ss: Seq<SlotView<V>>, cs: Seq<Call<V>>, i: int)
    requires
        slots_fit(ks, ss),
        calls_fit(ks, cs),
        0 <= i < ks.len(),
        ks[i] != SlotKind::Repeated,
    ensures
        run(ss, cs).len() == ss.len(),
        run(ss, cs)[i] == match last_assigned(cs, i) {
            Some(v) => SlotView::Single(Some(v)),
            None => ss[i],
        },
    decreases cs.len(),
{
    if cs.len() > 0 {
        assert(call_fits(ks, cs[cs.len() - 1]));
        lemma_run_fits(ks, ss, cs.drop_last());
        lemma_run_single(ks, ss, cs.drop_last(), i);
    }
}

/// Appending to one member changes no other slot, and adds the elements at the
/// end of that member's sequence in call order.
pub proof fn lemma_run_appends<V>(ks: Seq<SlotKind>, ss: Seq<SlotView<V>>, i: int, xs: Seq<V>)
    requires
        slots_fit(ks, ss),
        0 <= i < ks.len(),
        ks[i] == SlotKind::Repeated,
    ensures
        run(ss, appends(i, xs)) == ss.update(i, SlotView::Many(ss[i]->Many_0 + xs)),
    decreases xs.len(),
{
    if xs.len() == 0 {
        assert(ss[i] is Many);
        assert(ss[i]->Many_0 + xs =~= ss[i]->Many_0);
        assert(ss.update(i, SlotView::Many(ss[i]->Many_0 + xs)) =~= ss);
    } else {
        let cs = appends(i, xs);
        assert(cs.drop_last() =~= appends(i, xs.drop_last()));
        lemma_run_appends(ks, ss, i, xs.drop_last());
        let prev = run(ss, appends(i, xs.drop_last()));
        assert(run(ss, cs.drop_last()) == prev);
        assert(cs.last() == Call::Append(i, xs.last()));
        assert(run(ss, cs) == step(prev, Call::Append(i, xs.last())));
        assert((ss[i]->Many_0 + xs.drop_last()).push(xs.last()) =~= ss[i]->Many_0 + xs);
        assert(run(ss, cs) =~= ss.update(i, SlotView::Many(ss[i]->Many_0 + xs)));
    }
}

/// A record whose members are all required: starting from a new builder,
/// finishing fails while some member has not been set, and succeeds once each
/// has been, with each member's last value set.
pub proof fn law_required_members<V>(ks: Seq<SlotKind>, cs: Seq<Call<V>>)
    requires
        forall|i: int| 0 <= i < ks.len() ==> ks[i] == SlotKind::Required,
        calls_fit(ks, cs),
    ensures
        (exists|i: int| 0 <= i < ks.len() && last_assigned(cs, i) is None)
            ==> spec_build(ks, run(fresh_slots::<V>(ks), cs)).1 is Err,
        (forall|i: int| 0 <= i < ks.len() ==> last_assigned(cs, i) is Some)
            ==> spec_build(ks, run(fresh_slots::<V>(ks), cs)).1 == Ok::<Seq<FieldView<V>>, crate::model::BuildError>(
                Seq::new(ks.len(), |i: int| FieldView::Value(last_assigned(cs, i).unwrap()))),
{
    let fresh = fresh_slots::<V>(ks);
    let ss = run(fresh, cs);
    assert(slots_fit(ks, fresh));
    lemma_run_fits(ks, fresh, cs);
    if exists|i: int| 0 <= i < ks.len() && last_assigned(cs, i) is None {
        let i = choose|i: int| 0 <= i < ks.len() && last_assigned(cs, i) is None;
        lemma_run_single(ks, fresh, cs, i);
        assert(missing(ks, ss, i));
        assert(any_missing(ks, ss));
    }
    if forall|i: int| 0 <= i < ks.len() ==> last_assigned(cs, i) is Some {
        assert forall|i: int| 0 <= i < ks.len() implies ss[i] == SlotView::Single(Some(last_assigned(cs, i).unwrap())) by {
            lemma_run_single(ks, fresh, cs, i);
        }
        assert(!any_missing(ks, ss));
        assert(spec_build(ks, ss).1.unwrap() =~= Seq::new(ks.len(), |i: int| FieldView::Value(last_assigned(cs, i).unwrap())));
    }
}

/// An optional member never makes finishing fail: whatever it holds, the outcome
/// succeeds or fails alike; on success, starting from a new builder, the member
/// is absent when its setter was never called and holds the last value set otherwise.
pub proof fn law_optional_member<V>(ks: Seq<SlotKind>, cs: Seq<Call<V>>, i: int, o: Option<V>)
    requires
        calls_fit(ks, cs),
        0 <= i < ks.len(),
        ks[i] == SlotKind::Optional,
    ensures
        (spec_build(ks, run(fresh_slots::<V>(ks), cs)).1 is Ok)
            == (spec_build(ks, run(fresh_slots::<V>(ks), cs).update(i, SlotView::Single(o))).1 is Ok),
        spec_build(ks, run(fresh_slots::<V>(ks), cs)).1 is Ok
            ==> spec_build(ks, run(fresh_slots::<V>(ks), cs)).1.unwrap()[i] == FieldView::Maybe(last_assigned(cs, i)),
{
    let fresh = fresh_slots::<V>(ks);
    let ss = run(fresh, cs);
    let tt = ss.update(i, SlotView::Single(o));
    assert(slots_fit(ks, fresh));
    lemma_run_fits(ks, fresh, cs);
    lemma_run_single(ks, fresh, cs, i);
    assert forall|j: int| 0 <= j < ks.len() implies missing(ks, ss, j) == missing(ks, tt, j) by {
        if j == i {
            assert(!missing(ks, ss, j));
            assert(!missing(ks, tt, j));
        }
    }
    if any_missing(ks, ss) {
        let j = choose|j: int| 0 <= j < ks.len() && missing(ks, ss, j);
        assert(missing(ks, tt, j));
    }
    if any_missing(ks, tt) {
        let j = choose|j: int| 0 <= j < ks.len() && missing(ks, tt, j);
        assert(missing(ks, ss, j));
    }
}

/// Setting all elements of a repeated member twice keeps the second sequence only.
pub proof fn law_bulk_set_replaces<V>(ks: Seq<SlotKind>, ss: Seq<SlotView<V>>, i: int, a: Seq<V>, b: Seq<V>)
    requires
        slots_fit(ks, ss),
        0 <= i < ks.len(),
        ks[i] == SlotKind::Repeated,
    ensures
        step(step(ss, Call::AssignAll(i, a)), Call::AssignAll(i, b)) == step(ss, Call::AssignAll(i, b)),
{
    assert(step(step(ss, Call::AssignAll(i, a)), Call::AssignAll(i, b)) =~= step(ss, Call::AssignAll(i, b)));
}

/// A repeated member without a directive gets its bulk setter and no append method.
pub proof fn law_plain_repeated_member(m: Member, p: MemberPlan)
    requires
        member_planned(p, m),
        spec_slot_kind(m.ty) == SlotKind::Repeated,
        spec_directive(m) is None,
    ensures
        p.kind == SlotKind::Repeated,
        p.setter,
        p.appender is None,
{
}

/// A repeated member whose `each` name, as syn read it, differs from its own
/// name gets both its bulk setter and an append method of that name.
pub proof fn law_each_other_name(m: Member, p: MemberPlan, d: Seq<char>, q: Option<Seq<char>>)
    requires
        member_planned_with(p, m, q),
        spec_slot_kind(m.ty) == SlotKind::Repeated,
        spec_directive(m) == Some(DirectiveView::Each(d)),
        q is Some,
        q.unwrap() != m.name@,
    ensures
        p.setter,
        opt_view(p.appender) == q,
{
}

/// A repeated member whose `each` name, as syn read it, is its own name gets
/// the append method only: no bulk setter.
pub proof fn law_each_same_name(m: Member, p: MemberPlan, d: Seq<char>, q: Option<Seq<char>>)
    requires
        member_planned_with(p, m, q),
        spec_slot_kind(m.ty) == SlotKind::Repeated,
        spec_directive(m) == Some(DirectiveView::Each(d)),
        q == Some(m.name@),
    ensures
        !p.setter,
        opt_view(p.appender) == Some(m.name@),
{
}

/// Appending `xs` one by one to a repeated member of a new builder leaves
/// exactly `xs` there, in call order; a bulk set afterwards discards them.
pub proof fn law_appends_then_bulk_set<V>(ks: Seq<SlotKind>, i: int, xs: Seq<V>, b: Seq<V>)
    requires
        0 <= i < ks.len(),
        ks[i] == SlotKind::Repeated,
    ensures
        run(fresh_slots::<V>(ks), appends(i, xs))[i] == SlotView::Many(xs),
        run(fresh_slots::<V>(ks), appends(i, xs))[i]->Many_0.len() == xs.len(),
        step(run(fresh_slots::<V>(ks), appends(i, xs)), Call::AssignAll(i, b))[i] == SlotView::<V>::Many(b),
{
    let fresh = fresh_slots::<V>(ks);
    assert(slots_fit(ks, fresh));
    lemma_run_appends(ks, fresh, i, xs);
    assert(fresh[i]->Many_0 + xs =~= xs);
}

/// Finishing successfully resets every slot, so later calls and a second
/// finish behave exactly as the same calls on a new builder.
pub proof fn law_drain<V>(ks: Seq<SlotKind>, ss: Seq<SlotView<V>>, cs: Seq<Call<V>>)
    requires
        slots_fit(ks, ss),
        spec_build(ks, ss).1 is Ok,
    ensures
        spec_build(ks, ss).0 == fresh_slots::<V>(ks),
        spec_build(ks, run(spec_build(ks, ss).0, cs)) == spec_build(ks, run(fresh_slots::<V>(ks), cs)),
{
}

} // verus!
