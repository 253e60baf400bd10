use vstd::prelude::*;
use crate::classify::SlotKind;
use crate::plan::Plan;

verus! {

/// The contents of one slot of a generated builder.
pub enum SlotState<V> {
    /// A required or optional member: unset or set.
    Single(Option<V>),
    /// A repeated member: the elements gathered so far.
    Many(Vec<V>),
}

/// A slot's contents, as a mathematical value.
pub ghost enum SlotView<V> {
    Single(Option<V>),
    Many(Seq<V>),
}

/// One member of the record that finishing a builder produces.
pub enum FieldValue<V> {
    /// A required member.
    Value(V),
    /// An optional member.
    Maybe(Option<V>),
    /// A repeated member.
    List(Vec<V>),
}

/// A produced member, as a mathematical value.
pub ghost enum FieldView<V> {
    Value(V),
    Maybe(Option<V>),
    List(Seq<V>),
}

/// Finishing failed: a required member was not set. Which one is not said.
#[derive(Clone, Copy, Debug, PartialEq, Eq, Structural)]
pub struct BuildError;

/// A call on a builder: a setter, a bulk setter or an append method, on the
/// member at a position.
pub ghost enum Call<V> {
    Assign(int, V),
    AssignAll(int, Seq<V>),
    Append(int, V),
}

pub open spec fn slot_view<V>(s: SlotState<V>) -> SlotView<V> {
    match s {
        SlotState::Single(o) => SlotView::Single(o),
        SlotState::Many(v) => SlotView::Many(v@),
    }
}

pub open spec fn field_view<V>(f: FieldValue<V>) -> FieldView<V> {
    match f {
        FieldValue::Value(v) => FieldView::Value(v),
        FieldValue::Maybe(o) => FieldView::Maybe(o),
        FieldValue::List(v) => FieldView::List(v@),
    }
}

pub open spec fn result_view<V>(r: Result<Vec<FieldValue<V>>, BuildError>) -> Result<Seq<FieldView<V>>, BuildError> {
    match r {
        Ok(fs) => Ok(fs@.map_values(|f: FieldValue<V>| field_view(f))),
        Err(e) => Err(e),
    }
}

/// An unset slot: absent for a required or optional member, empty for a repeated one.
pub open spec fn fresh_slot<V>(k: SlotKind) -> SlotView<V> {
    if k == SlotKind::Repeated {
        SlotView::Many(Seq::empty())
    } else {
        SlotView::Single(None)
    }
}

/// The slots of a newly made builder.
pub open spec fn fresh_slots<V>(ks: Seq<SlotKind>) -> Seq<SlotView<V>> {
    Seq::new(ks.len(), |i: int| fresh_slot::<V>(ks[i]))
}

/// Each slot has the shape its kind asks for.
pub open spec fn slots_fit<V>(ks: Seq<SlotKind>, ss: Seq<SlotView<V>>) -> bool {
    &&& ks.len() == ss.len()
    &&& forall|i: int| 0 <= i < ks.len() ==> ((ks[i] == SlotKind::Repeated) == (#[trigger] ss[i] is Many))
}

/// The call exists on the builder: setters for required and optional members,
/// bulk setters and append methods for repeated ones.
pub open spec fn call_fits<V>(ks: Seq<SlotKind>, c: Call<V>) -> bool {
    match c {
        Call::Assign(i, _) => 0 <= i < ks.len() && ks[i] != SlotKind::Repeated,
        Call::AssignAll(i, _) => 0 <= i < ks.len() && ks[i] == SlotKind::Repeated,
        Call::Append(i, _) => 0 <= i < ks.len() && ks[i] == SlotKind::Repeated,
    }
}

pub open spec fn calls_fit<V>(ks: Seq<SlotKind>, cs: Seq<Call<V>>) -> bool {
    forall|j: int| 0 <= j < cs.len() ==> call_fits(ks, #[trigger] cs[j])
}

/// The slots after one call.
pub open spec fn step<V>(ss: Seq<SlotView<V>>, c: Call<V>) -> Seq<SlotView<V>> {
    match c {
        Call::Assign(i, v) => ss.update(i, SlotView::Single(Some(v))),
        Call::AssignAll(i, vs) => ss.update(i, SlotView::Many(vs)),
        Call::Append(i, v) => ss.update(i, SlotView::Many(ss[i]->Many_0.push(v))),
    }
}

/// The slots after a sequence of calls, made in order.
pub open spec fn run<V>(ss: Seq<SlotView<V>>, cs: Seq<Call<V>>) -> Seq<SlotView<V>>
    decreases cs.len(),
{
    if cs.len() == 0 {
        ss
    } else {
        step(run(ss, cs.drop_last()), cs.last())
    }
}

/// Slot `i` is a required member that has not been set.
pub open spec fn missing<V>(ks: Seq<SlotKind>, ss: Seq<SlotView<V>>, i: int) -> bool {
    ks[i] == SlotKind::Required && ss[i] == SlotView::<V>::Single(None)
}

/// Position `k` is the first unset required member.
pub open spec fn first_missing<V>(ks: Seq<SlotKind>, ss: Seq<SlotView<V>>, k: int) -> bool {
    &&& 0 <= k < ks.len()
    &&& missing(ks, ss, k)
    &&& forall|j: int| 0 <= j < k ==> !missing(ks, ss, j)
}

pub open spec fn any_missing<V>(ks: Seq<SlotKind>, ss: Seq<SlotView<V>>) -> bool {
    exists|i: int| 0 <= i < ks.len() && missing(ks, ss, i)
}

/// What a set slot becomes in the record.
pub open spec fn produced<V>(k: SlotKind, s: SlotView<V>) -> FieldView<V> {
    match s {
        SlotView::Single(o) => if k == SlotKind::Optional {
            FieldView::Maybe(o)
        } else {
            FieldView::Value(o.unwrap())
        },
        SlotView::Many(vs) => FieldView::List(vs),
    }
}

/// Finishing: members are taken in declaration order and their slots reset. The
/// first unset required member stops it with an error; the slots after that one
/// are left as they were.
pub open spec fn spec_build<V>(ks: Seq<SlotKind>, ss: Seq<SlotView<V>>) -> (Seq<SlotView<V>>, Result<Seq<FieldView<V>>, BuildError>) {
    if any_missing(ks, ss) {
        let k = choose|k: int| first_missing(ks, ss, k);
        (Seq::new(ks.len(), |j: int| if j <= k { fresh_slot::<V>(ks[j]) } else { ss[j] }), Err(BuildError))
    } else {
        (fresh_slots::<V>(ks), Ok(Seq::new(ks.len(), |j: int| produced(ks[j], ss[j]))))
    }
}

/// The first unset required member is unique.
pub proof fn lemma_first_missing_unique<V>(ks: Seq<SlotKind>, ss: Seq<SlotView<V>>, k: int, l: int)
    requires
        first_missing(ks, ss, k),
        first_missing(ks, ss, l),
    ensures
        k == l,
{
    if k < l {
        assert(!missing(ks, ss, k));
    } else if l < k {
        assert(!missing(ks, ss, l));
    }
}

/// A model of the generated builder: one slot per member of the record.
pub struct Builder<V> {
    kinds: Vec<SlotKind>,
    slots: Vec<SlotState<V>>,
}

impl<V> Builder<V> {
    /// The kind of each member, in declaration order.
    pub closed spec fn kinds(&self) -> Seq<SlotKind> {
        self.kinds@
    }

    /// The contents of each slot.
    pub closed spec fn slots(&self) -> Seq<SlotView<V>> {
        self.slots@.map_values(|s: SlotState<V>| slot_view(s))
    }

    pub open spec fn wf(&self) -> bool {
        slots_fit(self.kinds(), self.slots())
    }

    /// A builder for the planned record with every slot unset.
    pub fn new(plan: &Plan) -> (r: Builder<V>)
        ensures
            r.wf(),
            r.kinds() == plan.members@.map_values(|m: crate::plan::MemberPlan| m.kind),
            r.slots() == fresh_slots::<V>(r.kinds()),
    {
        let mut kinds: Vec<SlotKind> = Vec::new();
        let mut slots: Vec<SlotState<V>> = Vec::new();
        let mut i: usize = 0;
        while i < plan.members.len()
            invariant
                i <= plan.members@.len(),
                kinds@.len() == i,
                slots@.len() == i,
                forall|j: int| 0 <= j < i ==> #[trigger] kinds@[j] == plan.members@[j].kind,
                forall|j: int| 0 <= j < i ==> slot_view(#[trigger] slots@[j]) == fresh_slot::<V>(kinds@[j]),
            decreases plan.members@.len() - i,
        {
            let k = plan.members[i].kind;
            kinds.push(k);
            if k == SlotKind::Repeated {
                slots.push(SlotState::Many(Vec::new()));
            } else {
                slots.push(SlotState::Single(None));
            }
            i = i + 1;
        }
        let r = Builder { kinds, slots };
        assert(r.kinds() =~= plan.members@.map_values(|m: crate::plan::MemberPlan| m.kind));
        assert(r.slots() =~= fresh_slots::<V>(r.kinds()));
        r
    }

    /// The setter of a required or optional member: stores the value as set.
    pub fn set(&mut self, i: usize, v: V)
        requires
            old(self).wf(),
            call_fits(old(self).kinds(), Call::Assign(i as int, v)),
        ensures
            final(self).wf(),
            final(self).kinds() == old(self).kinds(),
            final(self).slots() == step(old(self).slots(), Call::Assign(i as int, v)),
    {
        self.slots.set(i, SlotState::Single(Some(v)));
        assert(self.slots() =~= step(old(self).slots(), Call::Assign(i as int, v)));
    }

    /// The bulk setter of a repeated member: replaces all its elements.
    pub fn set_all(&mut self, i: usize, vs: Vec<V>)
        requires
            old(self).wf(),
            call_fits(old(self).kinds(), Call::AssignAll(i as int, vs@)),
        ensures
            final(self).wf(),
            final(self).kinds() == old(self).kinds(),
            final(self).slots() == step(old(self).slots(), Call::AssignAll(i as int, vs@)),
    {
        self.slots.set(i, SlotState::Many(vs));
        assert(self.slots() =~= step(old(self).slots(), Call::AssignAll(i as int, vs@)));
    }

    /// The append method of a repeated member: adds one element at the end.
    pub fn push(&mut self, i: usize, v: V)
        requires
            old(self).wf(),
            call_fits(old(self).kinds(), Call::Append(i as int, v)),
        ensures
            final(self).wf(),
            final(self).kinds() == old(self).kinds(),
            final(self).slots() == step(old(self).slots(), Call::Append(i as int, v)),
    {
        let mut s = SlotState::Many(Vec::new());
        self.slots.set_and_swap(i, &mut s);
        assert(old(self).slots()[i as int] == slot_view(s));
        match s {
            SlotState::Many(mut vs) => {
                vs.push(v);
                self.slots.set(i, SlotState::Many(vs));
            }
            SlotState::Single(_) => {
                assert(false);
            }
        }
        assert(self.slots() =~= step(old(self).slots(), Call::Append(i as int, v)));
    }

    /// Finishes the builder: takes each member in declaration order and resets its
    /// slot, failing at the first required member that was not set.
    pub fn build(&mut self) -> (r: Result<Vec<FieldValue<V>>, BuildError>)
        requires
            old(self).wf(),
        ensures
            final(self).wf(),
            final(self).kinds() == old(self).kinds(),
            final(self).slots() == spec_build(old(self).kinds(), old(self).slots()).0,
            result_view(r) == spec_build(old(self).kinds(), old(self).slots()).1,
    {
        let ghost ks = self.kinds();
        let ghost ss = self.slots();
        let n = self.slots.len();
        let mut out: Vec<FieldValue<V>> = Vec::new();
        let mut i: usize = 0;
        while i < n
            invariant
                self.kinds() == ks,
                ks == old(self).kinds(),
                ss == old(self).slots(),
                ks.len() == ss.len(),
                slots_fit(ks, ss),
                n == ss.len(),
                i <= n,
                self.slots@.len() == n,
                self.kinds@.len() == n,
                forall|j: int| 0 <= j < i ==> self.slots()[j] == fresh_slot::<V>(ks[j]),
                forall|j: int| i <= j < n ==> self.slots()[j] == ss[j],
                forall|j: int| 0 <= j < i ==> !missing(ks, ss, j),
                out@.len() == i,
                forall|j: int| 0 <= j < i ==> field_view(#[trigger] out@[j]) == produced(ks[j], ss[j]),
            decreases n - i,
        {
            let k = self.kinds[i];
            let mut s = if k == SlotKind::Repeated {
                SlotState::Many(Vec::new())
            } else {
                SlotState::Single(None)
            };
            let ghost fresh = slot_view(s);
            let ghost before = self.slots();
            assert(fresh == fresh_slot::<V>(ks[i as int]));
            self.slots.set_and_swap(i, &mut s);
            assert(slot_view(s) == ss[i as int]);
            assert(self.slots() =~= before.update(i as int, fresh));
            match s {
                SlotState::Many(vs) => {
                    out.push(FieldValue::List(vs));
                }
                SlotState::Single(o) => {
                    if k == SlotKind::Optional {
                        out.push(FieldValue::Maybe(o));
                    } else {
                        match o {
                            Some(v) => {
                                out.push(FieldValue::Value(v));
                            }
                            None => {
                                proof {
                                    assert(first_missing(ks, ss, i as int));
                                    let c = choose|c: int| first_missing(ks, ss, c);
                                    lemma_first_missing_unique(ks, ss, i as int, c);
                                    let want = spec_build(ks, ss).0;
                                    assert(self.slots() =~= want);
                                }
                                return Err(BuildError);
                            }
                        }
                    }
                }
            }
            i = i + 1;
        }
        proof {
            assert(!any_missing(ks, ss));
            assert(self.slots() =~= fresh_slots::<V>(ks));
            assert(result_view(Ok::<Vec<FieldValue<V>>, BuildError>(out)).unwrap() =~= spec_build(ks, ss).1.unwrap());
        }
        Ok(out)
    }
}

} // verus!
