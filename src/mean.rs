//! Running sums and means of decimal sequences, and what holds of them.

use vstd::prelude::*;
use vstd::seq_lib::group_seq_properties;
use crate::decimal::{Dec, decimal_sum, decimal_quotient, mantissa_fits, checked_sum, checked_quotient};
use crate::error::PipelineError;

verus! {

/// The running sum of `s`, added up from zero in order, as `rust_decimal` adds.
pub open spec fn sum_of(s: Seq<Dec>) -> Dec
    decreases s.len(),
{
    if s.len() == 0 {
        Dec::spec_zero()
    } else {
        decimal_sum(sum_of(s.drop_last()), s.last())
    }
}

/// The mean of `s`: its running sum divided by its length.
pub open spec fn mean_of(s: Seq<Dec>) -> Dec {
    decimal_quotient(sum_of(s), s.len() as u64)
}

/// The exact sum of the mantissas of `s`.
pub open spec fn mantissa_total(s: Seq<Dec>) -> int
    decreases s.len(),
{
    if s.len() == 0 {
        0
    } else {
        mantissa_total(s.drop_last()) + s.last().mantissa
    }
}

/// Every element of `s` is a valid decimal of the given scale.
pub open spec fn uniform_scale(s: Seq<Dec>, scale: u32) -> bool {
    forall|i: int| 0 <= i < s.len() ==> (#[trigger] s[i]).wf() && s[i].scale == scale
}

/// Every running total of the mantissas of `s` fits in 96 bits.
pub open spec fn totals_fit(s: Seq<Dec>) -> bool {
    forall|k: int| 0 <= k <= s.len() ==> mantissa_fits(#[trigger] mantissa_total(s.take(k)))
}

/// Removing one element takes exactly its mantissa off the total.
pub proof fn lemma_total_remove(s: Seq<Dec>, i: int)
    requires
        0 <= i < s.len(),
    ensures
        mantissa_total(s) == mantissa_total(s.remove(i)) + s[i].mantissa,
    decreases s.len(),
{
    if i == s.len() - 1 {
        assert(s.remove(i) =~= s.drop_last());
    } else {
        let p = s.drop_last();
        assert(s.remove(i).drop_last() =~= p.remove(i));
        assert(s.remove(i).last() == s.last());
        lemma_total_remove(p, i);
    }
}

/// The total of the mantissas does not depend on the order of the elements.
pub proof fn lemma_total_permutation(a: Seq<Dec>, b: Seq<Dec>)
    requires
        a.to_multiset() == b.to_multiset(),
    ensures
        mantissa_total(a) == mantissa_total(b),
    decreases a.len(),
{
    broadcast use vstd::seq_lib::to_multiset_len, vstd::seq_lib::to_multiset_contains,
        vstd::seq_lib::to_multiset_remove, vstd::seq_lib::to_multiset_build;
    broadcast use vstd::multiset::group_multiset_axioms;

    if a.len() == 0 {
        assert(a.to_multiset().len() == 0);
        assert(b.len() == 0);
    } else {
        let x = a.last();
        let p = a.drop_last();
        assert(a =~= p.push(x));
        assert(a.to_multiset() == p.to_multiset().insert(x));
        assert(b.to_multiset().count(x) > 0);
        assert(b.contains(x));
        let i = choose|i: int| 0 <= i < b.len() && b[i] == x;
        assert(b.remove(i).to_multiset() == b.to_multiset().remove(x));
        assert(p.to_multiset() =~= p.to_multiset().insert(x).remove(x));
        lemma_total_permutation(p, b.remove(i));
        lemma_total_remove(b, i);
    }
}

/// `s` is nonempty, all of one scale, and every running total of its mantissas
/// fits in a decimal: the case in which its running sum is exact.
pub open spec fn exact_sum(s: Seq<Dec>, scale: u32) -> bool {
    s.len() > 0 && uniform_scale(s, scale) && totals_fit(s)
}

/// A running sum and count of decimals.
pub struct Accumulator {
    sum: Dec,
    count: u64,
    items: Ghost<Seq<Dec>>,
}

impl Accumulator {
    /// The decimals added so far, in order.
    pub closed spec fn items(&self) -> Seq<Dec> {
        self.items@
    }

    /// The running sum, the count, and the items agree.
    pub closed spec fn wf(&self) -> bool {
        &&& self.sum == sum_of(self.items@)
        &&& self.sum.wf()
        &&& self.count == self.items@.len()
        &&& forall|i: int| 0 <= i < self.items@.len() ==> (#[trigger] self.items@[i]).wf()
        &&& forall|scale: u32|
            exact_sum(self.items@, scale) ==> #[trigger] self.sum.scale == scale
                && self.sum.mantissa == mantissa_total(self.items@)
    }

    /// An accumulator holding nothing.
    pub fn new() -> (r: Accumulator)
        ensures
            r.wf(),
            r.items() == Seq::<Dec>::empty(),
    {
        Accumulator { sum: Dec::zero(), count: 0, items: Ghost(Seq::empty()) }
    }

    /// The number of decimals added.
    pub fn count(&self) -> (r: u64)
        requires
            self.wf(),
        ensures
            r == self.items().len(),
    {
        self.count
    }

    /// Adds `d` to the running sum. Fails, leaving the accumulator as it was, where
    /// the sum or the count would overflow; decimals of one scale whose running
    /// totals fit are always added.
    pub fn add(&mut self, d: Dec) -> (r: Result<(), PipelineError>)
        requires
            old(self).wf(),
            d.wf(),
        ensures
            final(self).wf(),
            r is Ok ==> final(self).items() == old(self).items().push(d),
            r is Err ==> r->Err_0 == PipelineError::Overflow && *final(self) == *old(self),
            old(self).items().len() < u64::MAX && (old(self).items().len() == 0 || exists|
                scale: u32,
            | exact_sum(#[trigger] old(self).items().push(d), scale)) ==> r is Ok,
    {
        if self.count == u64::MAX {
            return Err(PipelineError::Overflow);
        }
        let ghost old_items = self.items@;
        let ghost new_items = old_items.push(d);
        proof {
            assert(new_items.drop_last() =~= old_items);
            if old_items.len() > 0 {
                assert forall|scale: u32| exact_sum(new_items, scale) implies exact_sum(
                    old_items,
                    scale,
                ) by {
                    assert forall|k: int| 0 <= k <= old_items.len() implies mantissa_fits(
                        #[trigger] mantissa_total(old_items.take(k)),
                    ) by {
                        assert(old_items.take(k) =~= new_items.take(k));
                    }
                    assert forall|i: int| 0 <= i < old_items.len() implies (
                    #[trigger] old_items[i]).wf() && old_items[i].scale == scale by {
                        assert(old_items[i] == new_items[i]);
                    }
                }
            }
            assert(new_items.take(new_items.len() as int) =~= new_items);
        }
        match checked_sum(self.sum, d) {
            Some(s) => {
                self.sum = s;
                self.count = self.count + 1;
                self.items = Ghost(new_items);
                proof {
                    assert forall|i: int| 0 <= i < new_items.len() implies (
                    #[trigger] new_items[i]).wf() by {
                        if i < old_items.len() {
                            assert(new_items[i] == old_items[i]);
                        }
                    }
                    assert forall|scale: u32| exact_sum(new_items, scale) implies #[trigger] s.scale
                        == scale && s.mantissa == mantissa_total(new_items) by {
                        assert(new_items[new_items.len() - 1] == d);
                        assert(d.scale == scale);
                        assert(mantissa_fits(mantissa_total(new_items.take(new_items.len() as int))));
                        assert(mantissa_total(new_items) == mantissa_total(old_items) + d.mantissa);
                        if old_items.len() == 0 {
                            assert(mantissa_total(old_items) == 0);
                            assert(s == d);
                        } else {
                            assert(exact_sum(old_items, scale));
                            assert(old(self).sum.scale == scale);
                            assert(old(self).sum.mantissa == mantissa_total(old_items));
                        }
                    }
                }
                Ok(())
            },
            None => {
                proof {
                    if old_items.len() > 0 {
                        assert forall|scale: u32| !exact_sum(new_items, scale) by {
                            if exact_sum(new_items, scale) {
                                assert(new_items[new_items.len() - 1].wf());
                                assert(mantissa_fits(
                                    mantissa_total(new_items.take(new_items.len() as int)),
                                ));
                            }
                        }
                    }
                }
                Err(PipelineError::Overflow)
            },
        }
    }

    /// The mean of what was added; fails where nothing was.
    pub fn mean(&self) -> (r: Result<Dec, PipelineError>)
        requires
            self.wf(),
        ensures
            r is Err <==> self.items().len() == 0,
            r is Err ==> r->Err_0 == PipelineError::NoPrices,
            r is Ok ==> r->Ok_0 == mean_of(self.items()) && r->Ok_0.wf(),
            forall|scale: u32|
                exact_sum(self.items(), scale) ==> #[trigger] mean_of(self.items()) == decimal_quotient(
                    Dec { mantissa: mantissa_total(self.items()) as i128, scale },
                    self.items().len() as u64,
                ),
    {
        proof {
            assert forall|scale: u32| exact_sum(self.items(), scale) implies #[trigger] mean_of(
                self.items(),
            ) == decimal_quotient(
                Dec { mantissa: mantissa_total(self.items()) as i128, scale },
                self.items().len() as u64,
            ) by {
                assert(self.sum.scale == scale);
            }
        }
        match checked_quotient(self.sum, self.count) {
            Some(q) => Ok(q),
            None => Err(PipelineError::NoPrices),
        }
    }
}

/// Means do not depend on arrival order: two accumulators that were given the same
/// decimals, of one scale and with running totals that fit, in any two orders,
/// hold the same mean.
pub proof fn lemma_mean_order_independent(x: &Accumulator, y: &Accumulator, scale: u32)
    requires
        x.wf(),
        y.wf(),
        x.items().to_multiset() == y.items().to_multiset(),
        exact_sum(x.items(), scale),
        exact_sum(y.items(), scale),
    ensures
        mean_of(x.items()) == mean_of(y.items()),
{
    broadcast use vstd::seq_lib::to_multiset_len;

    lemma_total_permutation(x.items(), y.items());
    assert(x.items().len() == x.items().to_multiset().len());
    assert(y.items().len() == y.items().to_multiset().len());
    assert(x.sum.scale == scale);
    assert(y.sum.scale == scale);
    assert(x.sum == y.sum);
}

} // verus!
