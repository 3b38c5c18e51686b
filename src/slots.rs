//! A model of the run-time behaviour of an emitted builder.
//!
//! An emitted builder holds one `Option` per field of its record. In this
//! model the fields are numbered in declaration order and hold values of one
//! type `V`, and the record a successful `build` yields is the sequence of
//! those values. The laws below are proved of this model, not of the emitted
//! text, which Verus does not read.
use vstd::prelude::*;

verus! {

/// Why `build` failed.
#[derive(Debug, Clone, Copy, PartialEq, Eq, Structural)]
pub enum BuildError {
    /// Some field was never set.
    FieldsNotFilled,
}

/// A builder: one slot per field, `None` until the field is set.
pub struct Builder<V> {
    pub slots: Vec<Option<V>>,
}

/// The state of a fresh builder for `n` fields: every slot empty.
pub open spec fn fresh<V>(n: nat) -> Seq<Option<V>> {
    Seq::new(n, |i: int| None::<V>)
}

/// Every field has been set.
pub open spec fn filled<V>(s: Seq<Option<V>>) -> bool {
    forall|i: int| 0 <= i < s.len() ==> (#[trigger] s[i]) is Some
}

/// The values stored in the slots.
pub open spec fn values<V>(s: Seq<Option<V>>) -> Seq<V> {
    s.map_values(|o: Option<V>| o->Some_0)
}

/// What `build` gives in state `s`: the stored values where every field is set.
pub open spec fn finalized<V>(s: Seq<Option<V>>) -> Result<Seq<V>, BuildError> {
    if filled(s) {
        Ok(values(s))
    } else {
        Err(BuildError::FieldsNotFilled)
    }
}

/// The state after the setter calls `ops`, each a field and a value, in order.
pub open spec fn after_sets<V>(s: Seq<Option<V>>, ops: Seq<(int, V)>) -> Seq<Option<V>>
    decreases ops.len(),
{
    if ops.len() == 0 {
        s
    } else {
        after_sets(s, ops.drop_last()).update(ops.last().0, Some(ops.last().1))
    }
}

impl<V: Copy> Builder<V> {
    /// A builder for `n` fields, none of them set.
    pub fn new(n: usize) -> (r: Builder<V>)
        ensures
            r.slots@ == fresh::<V>(n as nat),
    {
        let mut slots: Vec<Option<V>> = Vec::new();
        let mut i: usize = 0;
        while i < n
            invariant
                i <= n,
                slots@ == fresh::<V>(i as nat),
            decreases n - i,
        {
            slots.push(None);
            i += 1;
            assert(slots@ =~= fresh::<V>(i as nat));
        }
        Builder { slots }
    }

    /// Sets field `field` to `value`, replacing what it held.
    pub fn set(&mut self, field: usize, value: V)
        requires
            field < old(self).slots.len(),
        ensures
            final(self).slots@ == old(self).slots@.update(field as int, Some(value)),
    {
        self.slots.set(field, Some(value));
    }

    /// Sets field `field` to `value` and hands the builder on, so that setter
    /// calls chain; the state is the one `set` leaves.
    pub fn with(self, field: usize, value: V) -> (r: Builder<V>)
        requires
            field < self.slots.len(),
        ensures
            r.slots@ == self.slots@.update(field as int, Some(value)),
    {
        let mut b = self;
        b.set(field, value);
        b
    }

    /// Assembles the record from copies of the stored values, leaving the
    /// builder as it is; fails at the first field, in order, that is not set.
    pub fn build(&self) -> (r: Result<Vec<V>, BuildError>)
        ensures
            match r {
                Ok(vs) => finalized(self.slots@) == Ok::<Seq<V>, BuildError>(vs@),
                Err(e) => finalized(self.slots@) == Err::<Seq<V>, BuildError>(e),
            },
    {
        let mut out: Vec<V> = Vec::new();
        let mut i: usize = 0;
        while i < self.slots.len()
            invariant
                i <= self.slots.len(),
                filled(self.slots@.subrange(0, i as int)),
                out@ == values(self.slots@.subrange(0, i as int)),
            decreases self.slots.len() - i,
        {
            match &self.slots[i] {
                Some(v) => {
                    out.push(*v);
                },
                None => {
                    assert(!filled(self.slots@));
                    return Err(BuildError::FieldsNotFilled);
                },
            }
            i += 1;
            assert(out@ =~= values(self.slots@.subrange(0, i as int)));
            assert(filled(self.slots@.subrange(0, i as int))) by {
                assert forall|k: int| 0 <= k < i implies (#[trigger] self.slots@.subrange(
                    0,
                    i as int,
                )[k]) is Some by {
                    if k < i - 1 {
                        assert(self.slots@.subrange(0, i - 1)[k] is Some);
                    }
                }
            }
        }
        assert(self.slots@.subrange(0, self.slots.len() as int) =~= self.slots@);
        Ok(out)
    }
}

/// Some call among `ops` sets field `i`.
pub open spec fn sets_field<V>(ops: Seq<(int, V)>, i: int) -> bool {
    exists|k: int| 0 <= k < ops.len() && (#[trigger] ops[k]).0 == i
}

/// After setter calls whose values are those of `vs`, field by field, a slot
/// holds its value from `vs` exactly where some call set it, and is empty
/// elsewhere.
proof fn lemma_after_sets<V>(vs: Seq<V>, ops: Seq<(int, V)>)
    requires
        forall|k: int| 0 <= k < ops.len() ==> 0 <= (#[trigger] ops[k]).0 < vs.len() && ops[k].1
            == vs[ops[k].0],
    ensures
        after_sets(fresh::<V>(vs.len()), ops).len() == vs.len(),
        forall|i: int|
            0 <= i < vs.len() ==> (#[trigger] after_sets(fresh::<V>(vs.len()), ops)[i] == Some(
                vs[i],
            ) <==> sets_field(ops, i)),
        forall|i: int|
            0 <= i < vs.len() ==> (#[trigger] after_sets(fresh::<V>(vs.len()), ops)[i]) is Some
                ==> after_sets(fresh::<V>(vs.len()), ops)[i] == Some(vs[i]),
    decreases ops.len(),
{
    if ops.len() > 0 {
        let pre = ops.drop_last();
        assert forall|k: int| 0 <= k < pre.len() implies 0 <= (#[trigger] pre[k]).0 < vs.len()
            && pre[k].1 == vs[pre[k].0] by {
            assert(pre[k] == ops[k]);
        }
        lemma_after_sets(vs, pre);
        let s = after_sets(fresh::<V>(vs.len()), ops);
        let j = ops.last().0;
        assert(ops.last() == ops[ops.len() - 1]);
        assert forall|i: int| 0 <= i < vs.len() implies (#[trigger] s[i] == Some(vs[i])
            <==> sets_field(ops, i)) by {
            if i == j {
                assert(ops[ops.len() - 1].0 == i);
            } else {
                if exists|k: int| 0 <= k < ops.len() && (#[trigger] ops[k]).0 == i {
                    let k = choose|k: int| 0 <= k < ops.len() && (#[trigger] ops[k]).0 == i;
                    assert(pre[k] == ops[k]);
                }
                if exists|k: int| 0 <= k < pre.len() && (#[trigger] pre[k]).0 == i {
                    let k = choose|k: int| 0 <= k < pre.len() && (#[trigger] pre[k]).0 == i;
                    assert(pre[k] == ops[k]);
                }
            }
        }
    }
}

/// Round trip: setting every field of a fresh builder, in any order and with
/// each call giving that field's value, then building, yields exactly those
/// values.
pub proof fn law_round_trip<V>(vs: Seq<V>, ops: Seq<(int, V)>)
    requires
        forall|k: int| 0 <= k < ops.len() ==> 0 <= (#[trigger] ops[k]).0 < vs.len() && ops[k].1
            == vs[ops[k].0],
        forall|i: int| 0 <= i < vs.len() ==> #[trigger] sets_field(ops, i),
    ensures
        finalized(after_sets(fresh::<V>(vs.len()), ops)) == Ok::<Seq<V>, BuildError>(vs),
{
    lemma_after_sets(vs, ops);
    let s = after_sets(fresh::<V>(vs.len()), ops);
    assert forall|i: int| 0 <= i < s.len() implies (#[trigger] s[i]) is Some by {
        assert(s[i] == Some(vs[i]));
    }
    assert(values(s) =~= vs);
}

/// A fresh builder for a record with at least one field fails to build; a
/// builder with every field set builds successfully.
pub proof fn law_fresh_fails_filled_succeeds<V: Copy>(
    n: usize,
    fresh_b: Builder<V>,
    r_fresh: Result<Vec<V>, BuildError>,
    full: Builder<V>,
    r_full: Result<Vec<V>, BuildError>,
)
    requires
        n >= 1,
        Builder::<V>::new.ensures((n,), fresh_b),
        Builder::<V>::build.ensures((&fresh_b,), r_fresh),
        filled(full.slots@),
        Builder::<V>::build.ensures((&full,), r_full),
    ensures
        r_fresh == Err::<Vec<V>, BuildError>(BuildError::FieldsNotFilled),
        r_full is Ok,
{
    assert(fresh_b.slots@[0] is None);
}

/// Building twice with no setter call in between gives equal results, and on a
/// builder with every field set both are the stored values; the builder is
/// read, not changed, by `build`.
pub proof fn law_build_repeatable<V: Copy>(
    b: Builder<V>,
    r1: Result<Vec<V>, BuildError>,
    r2: Result<Vec<V>, BuildError>,
)
    requires
        Builder::<V>::build.ensures((&b,), r1),
        Builder::<V>::build.ensures((&b,), r2),
    ensures
        r1 is Ok <==> r2 is Ok,
        r1 is Err ==> r1 == r2,
        r1 matches Ok(x) ==> (r2 matches Ok(y) && x@ == y@),
        filled(b.slots@) ==> (r1 matches Ok(x) && x@ == values(b.slots@)),
{
}

/// The error does not depend on which fields, or how many, are missing: two
/// builders that each have some field unset fail to build with the same error.
pub proof fn law_missing_fields_same_error<V: Copy>(
    b: Builder<V>,
    i: int,
    rb: Result<Vec<V>, BuildError>,
    c: Builder<V>,
    j: int,
    rc: Result<Vec<V>, BuildError>,
)
    requires
        0 <= i < b.slots.len(),
        b.slots@[i] is None,
        Builder::<V>::build.ensures((&b,), rb),
        0 <= j < c.slots.len(),
        c.slots@[j] is None,
        Builder::<V>::build.ensures((&c,), rc),
    ensures
        rb == rc,
        rb == Err::<Vec<V>, BuildError>(BuildError::FieldsNotFilled),
{
}

/// Setting a field twice keeps only the second value: the state, and so what
/// `build` gives, is the one a single call with that value leaves.
pub proof fn law_last_write_wins<V>(s: Seq<Option<V>>, i: int, first: V, second: V)
    requires
        0 <= i < s.len(),
    ensures
        s.update(i, Some(first)).update(i, Some(second)) == s.update(i, Some(second)),
        finalized(s.update(i, Some(first)).update(i, Some(second))) == finalized(
            s.update(i, Some(second)),
        ),
{
    assert(s.update(i, Some(first)).update(i, Some(second)) =~= s.update(i, Some(second)));
}

/// Chaining: a chain `b.with(i, v).with(j, w)` ends in the state that the
/// separate calls `b.set(i, v); b.set(j, w);` leave, which is the state after
/// those two setter calls in order.
pub proof fn law_chaining<V: Copy>(
    b: Builder<V>,
    i: usize,
    v: V,
    j: usize,
    w: V,
    mid: Builder<V>,
    end: Builder<V>,
)
    requires
        i < b.slots.len(),
        j < b.slots.len(),
        Builder::<V>::with.ensures((b, i, v), mid),
        Builder::<V>::with.ensures((mid, j, w), end),
    ensures
        end.slots@ == after_sets(b.slots@, seq![(i as int, v), (j as int, w)]),
        end.slots@ == b.slots@.update(i as int, Some(v)).update(j as int, Some(w)),
{
    let ops = seq![(i as int, v), (j as int, w)];
    assert(ops.drop_last() =~= seq![(i as int, v)]);
    assert(seq![(i as int, v)].drop_last() =~= Seq::<(int, V)>::empty());
    assert(after_sets(b.slots@, Seq::<(int, V)>::empty()) == b.slots@);
    assert(after_sets(b.slots@, seq![(i as int, v)]) == b.slots@.update(i as int, Some(v)));
}

} // verus!
