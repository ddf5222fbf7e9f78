//! Composition of hook sets: who is asked, in what order, and when asking
//! stops.
//!
//! Composed guards run in registration order and stop at the first block;
//! a hook after the blocking one is never asked. Set-level write hooks are
//! scoped to the entity they were registered for: a rule registered for
//! another entity is never asked about this write set. Filters are
//! AND-combined, skipping hooks that contribute no condition.

use vstd::prelude::*;
use crate::hooks::Guard;

verus! {

/// What a composed guard does next: ask the hook at a position, or answer.
pub enum ChainStep {
    Ask(usize),
    Finish(Guard),
}

/// The verdict of a chain that received `answers` in order: the first
/// block, or allow when every hook allowed.
pub open spec fn first_block(answers: Seq<Guard>) -> Guard
    decreases answers.len(),
{
    if answers.len() == 0 {
        Guard::Allow
    } else {
        match answers[0] {
            Guard::Block(reason) => Guard::Block(reason),
            Guard::Allow => first_block(answers.drop_first()),
        }
    }
}

/// Whether every answer is an allow.
pub open spec fn all_allow(answers: Seq<Guard>) -> bool {
    forall|i: int| 0 <= i < answers.len() ==> #[trigger] answers[i] is Allow
}

/// Asks hooks one at a time, in the given order, until one blocks or all
/// have allowed.
pub struct GuardChain {
    order: Vec<usize>,
    heard: usize,
    answers: Ghost<Seq<Guard>>,
    verdict: Option<Guard>,
}

impl GuardChain {
    /// The positions of the hooks this chain asks, in asking order.
    pub closed spec fn order_spec(&self) -> Seq<usize> {
        self.order@
    }

    /// The answers received so far, in asking order.
    pub closed spec fn answers_spec(&self) -> Seq<Guard> {
        self.answers@
    }

    /// Whether the chain has answered.
    pub closed spec fn finished_spec(&self) -> bool {
        self.verdict is Some
    }

    /// The chain's well-formedness: it has heard from a prefix of its hooks,
    /// every one of which allowed but perhaps the last, and it has finished
    /// exactly when that last one blocked or every hook has answered.
    pub closed spec fn well_formed(&self) -> bool {
        &&& self.answers@.len() <= self.order@.len()
        &&& self.heard == self.answers@.len()
        &&& (forall|i: int| 0 <= i < self.answers@.len() - 1 ==> #[trigger] self.answers@[i] is Allow)
        &&& match self.verdict {
            None => self.answers@.len() < self.order@.len() && all_allow(self.answers@),
            Some(verdict) => verdict == first_block(self.answers@) && (self.answers@.len() == self.order@.len()
                || (self.answers@.len() > 0 && self.answers@.last() is Block)),
        }
    }

    /// A chain over the hooks at `order`; it answers allow at once when
    /// there are none.
    pub fn new(order: Vec<usize>) -> (chain: Self)
        ensures
            chain.well_formed(),
            chain.order_spec() == order@,
            chain.answers_spec().len() == 0,
            chain.finished_spec() == (order@.len() == 0),
    {
        let verdict = if order.len() == 0 { Some(Guard::Allow) } else { None };
        GuardChain { order, heard: 0, answers: Ghost(Seq::empty()), verdict }
    }

    /// Ask the next hook, or give the verdict.
    pub fn next(&self) -> (step: ChainStep)
        requires
            self.well_formed(),
        ensures
            match step {
                ChainStep::Ask(position) => !self.finished_spec()
                    && position == self.order_spec()[self.answers_spec().len() as int],
                ChainStep::Finish(verdict) => self.finished_spec()
                    && verdict == first_block(self.answers_spec()),
            },
    {
        match &self.verdict {
            Some(Guard::Allow) => ChainStep::Finish(Guard::Allow),
            Some(Guard::Block(reason)) => ChainStep::Finish(Guard::Block(match reason {
                Some(text) => Some(text.clone()),
                None => None,
            })),
            None => ChainStep::Ask(self.order[self.heard]),
        }
    }

    /// Hear the answer of the hook just asked.
    pub fn answer(&mut self, guard: Guard)
        requires
            old(self).well_formed(),
            !old(self).finished_spec(),
        ensures
            final(self).well_formed(),
            final(self).order_spec() == old(self).order_spec(),
            final(self).answers_spec() == old(self).answers_spec().push(guard),
            final(self).finished_spec() == (guard is Block
                || final(self).answers_spec().len() == final(self).order_spec().len()),
    {
        let ghost before = self.answers@;
        proof {
            lemma_first_block_of_allows(before);
            lemma_first_block_push(before, guard);
        }
        self.answers = Ghost(self.answers@.push(guard));
        let total = self.order.len();
        assert(self.heard < total);
        self.heard = self.heard + 1;
        match guard {
            Guard::Block(reason) => {
                self.verdict = Some(Guard::Block(reason));
            }
            Guard::Allow => {
                if self.heard == self.order.len() {
                    self.verdict = Some(Guard::Allow);
                }
            }
        }
    }
}

proof fn lemma_first_block_of_allows(answers: Seq<Guard>)
    requires
        all_allow(answers),
    ensures
        first_block(answers) == Guard::Allow,
    decreases answers.len(),
{
    if answers.len() > 0 {
        assert(answers[0] is Allow);
        lemma_first_block_of_allows(answers.drop_first());
    }
}

proof fn lemma_first_block_push(answers: Seq<Guard>, guard: Guard)
    requires
        all_allow(answers),
    ensures
        first_block(answers.push(guard)) == guard,
    decreases answers.len(),
{
    if answers.len() == 0 {
        assert(answers.push(guard).drop_first() =~= Seq::<Guard>::empty());
        assert(first_block(Seq::<Guard>::empty()) == Guard::Allow);
        assert(answers.push(guard)[0] == guard);
    } else {
        assert(answers.push(guard).drop_first() =~= answers.drop_first().push(guard));
        assert(answers.push(guard)[0] == answers[0]);
        assert(answers[0] is Allow);
        assert(all_allow(answers.drop_first())) by {
            assert forall|i: int| 0 <= i < answers.drop_first().len() implies #[trigger] answers.drop_first()[i] is Allow by {
                assert(answers.drop_first()[i] == answers[i + 1]);
            }
        }
        lemma_first_block_push(answers.drop_first(), guard);
    }
}

/// A composed guard never asks a hook after one that blocked, and its
/// verdict is the first block, or allow when every hook it asked allowed.
pub proof fn law_guards_stop_at_the_first_block(chain: GuardChain)
    requires
        chain.well_formed(),
    ensures
        forall|i: int| 0 <= i < chain.answers_spec().len() - 1 ==> #[trigger] chain.answers_spec()[i] is Allow,
        chain.finished_spec() && all_allow(chain.answers_spec())
            ==> chain.answers_spec().len() == chain.order_spec().len(),
{
    if chain.finished_spec() && all_allow(chain.answers_spec()) && chain.answers_spec().len() > 0 {
        assert(chain.answers_spec()[chain.answers_spec().len() - 1] is Allow);
    }
}

/// The positions, in registration order, of the set-level hooks registered
/// for the entity being written (`in_scope[i]` says whether hook `i` was).
pub fn scoped_order(in_scope: &Vec<bool>) -> (order: Vec<usize>)
    ensures
        forall|k: int| 0 <= k < order@.len() ==> (#[trigger] order@[k] as int) < in_scope@.len()
            && in_scope@[order@[k] as int],
        forall|k: int, l: int| 0 <= k < l < order@.len() ==> order@[k] < order@[l],
        forall|i: int| 0 <= i < in_scope@.len() && in_scope@[i] ==> order@.contains(i as usize),
{
    let mut order: Vec<usize> = Vec::new();
    let mut i: usize = 0;
    while i < in_scope.len()
        invariant
            i <= in_scope@.len(),
            forall|k: int| 0 <= k < order@.len() ==> (#[trigger] order@[k] as int) < i && in_scope@[order@[k] as int],
            forall|k: int, l: int| 0 <= k < l < order@.len() ==> order@[k] < order@[l],
            forall|j: int| 0 <= j < i && in_scope@[j] ==> order@.contains(j as usize),
        decreases in_scope@.len() - i,
    {
        let ghost earlier = order@;
        if in_scope[i] {
            order.push(i);
            assert forall|j: int| 0 <= j < i + 1 && in_scope@[j] implies order@.contains(j as usize) by {
                if j < i {
                    let k = choose|k: int| 0 <= k < earlier.len() && earlier[k] == j as usize;
                    assert(order@[k] == j as usize);
                } else {
                    assert(order@[order@.len() - 1] == i);
                }
            }
        }
        i += 1;
    }
    order
}

/// Which hooks' filters an AND-combined filter is made of: those that gave
/// a non-empty condition (`contributes[i]`), in registration order; no
/// filter at all when none did.
pub fn filters_to_combine(contributes: &Vec<bool>) -> (combined: Option<Vec<usize>>)
    ensures
        match combined {
            None => forall|i: int| 0 <= i < contributes@.len() ==> !#[trigger] contributes@[i],
            Some(order) => order@.len() > 0
                && (forall|k: int| 0 <= k < order@.len() ==> (#[trigger] order@[k] as int) < contributes@.len()
                    && contributes@[order@[k] as int])
                && (forall|k: int, l: int| 0 <= k < l < order@.len() ==> order@[k] < order@[l])
                && (forall|i: int| 0 <= i < contributes@.len() && contributes@[i] ==> order@.contains(i as usize)),
        },
{
    let order = scoped_order(contributes);
    if order.len() == 0 {
        assert forall|i: int| 0 <= i < contributes@.len() implies !#[trigger] contributes@[i] by {
            if contributes@[i] {
                assert(order@.contains(i as usize));
            }
        }
        None
    } else {
        Some(order)
    }
}

} // verus!
