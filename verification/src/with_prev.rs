//! An adapter that hands out the items of an iterator two by two: each item
//! together with the one before it.

use vstd::prelude::*;
use vstd::pervasive::cloned;
use vstd::std_specs::iter::IteratorSpec;
use vstd::std_specs::iter::IteratorSpecImpl;

verus! {

/// An iterator over the neighbouring pairs `(item[i - 1], item[i])` of
/// another iterator. It walks the other iterator once, front to back, and
/// keeps no more than a copy of the item it handed out last.
#[derive(Clone, Debug)]
pub struct WithPrev<I: Iterator> {
    iter: I,
    prev: Option<I::Item>,
}

impl<I: Iterator> WithPrev<I> {
    /// The iterator that the pairs are drawn from, as far as it has come.
    pub closed spec fn inner(self) -> I {
        self.iter
    }

    /// The copy of the item handed out last, to be the earlier half of the
    /// next pair. There is none before the first pair.
    pub closed spec fn held(self) -> Option<I::Item> {
        self.prev
    }

    /// An adapter at the start of `iter`, with nothing held.
    pub fn new(iter: I) -> (r: WithPrev<I>)
        ensures
            r.inner() == iter,
            r.held() is None,
    {
        WithPrev { iter, prev: None }
    }
}

/// What one pull does, where `rest` are the items still to come from the
/// inner iterator and `held` is what the adapter holds.
///
/// With nothing held the pull is the first: it takes two items and hands
/// them out as they are, or hands out nothing where fewer than two are left,
/// and then none is left. With an item held it takes one item and hands it
/// out behind the held one, or hands out nothing where none is left. After a
/// pair the adapter holds a clone of the later item.
pub open spec fn pull<T: Clone>(
    rest: Seq<T>,
    held: Option<T>,
    pair: Option<(T, T)>,
    rest_after: Seq<T>,
    held_after: Option<T>,
) -> bool {
    match held {
        None => if rest.len() < 2 {
            &&& pair is None
            &&& rest_after == Seq::<T>::empty()
            &&& held_after is None
        } else {
            &&& pair == Some((rest[0], rest[1]))
            &&& rest_after == rest.skip(2)
            &&& held_after matches Some(copy) && cloned(rest[1], copy)
        },
        Some(earlier) => if rest.len() == 0 {
            &&& pair is None
            &&& rest_after == rest
            &&& held_after == held
        } else {
            &&& pair == Some((earlier, rest[0]))
            &&& rest_after == rest.skip(1)
            &&& held_after matches Some(copy) && cloned(rest[0], copy)
        },
    }
}

/// An adapter that was started over `items` has taken the first `taken` of
/// them: the items from there on are still to come, and what it holds is a
/// clone of the last one taken. It holds nothing before the first pair, nor
/// ever where there are fewer than two items.
pub open spec fn runs_over<T: Clone>(
    items: Seq<T>,
    taken: int,
    rest: Seq<T>,
    held: Option<T>,
) -> bool {
    &&& 0 <= taken <= items.len()
    &&& rest == items.skip(taken)
    &&& match held {
        None => taken == 0 || (items.len() < 2 && taken == items.len()),
        Some(copy) => taken >= 2 && cloned(items[taken - 1], copy),
    }
}

/// How many items an adapter over `count` items has taken after a pull,
/// where it had taken `taken` and held `held` before, and the pull handed
/// out `pair`: two after the first pair, one more after each later pair,
/// and all of them once no pair comes.
pub open spec fn taken_after<T>(count: nat, taken: int, held: Option<T>, pair: Option<(T, T)>) -> int {
    if pair is None {
        count as int
    } else if held is None {
        2
    } else {
        taken + 1
    }
}

/// Pull after pull, the pairs are the neighbours of `items` in order. A pull
/// from an adapter that runs over `items` leaves it running over `items`;
/// the first pair is `(items[0], items[1])` as they are, each later pair is
/// the held clone of the item taken last together with the item after it,
/// and no pair comes once all items are taken, which with fewer than two
/// items is at once.
pub proof fn law_pairs_are_neighbours<T: Clone>(
    items: Seq<T>,
    taken: int,
    rest: Seq<T>,
    held: Option<T>,
    pair: Option<(T, T)>,
    rest_after: Seq<T>,
    held_after: Option<T>,
)
    requires
        runs_over(items, taken, rest, held),
        pull(rest, held, pair, rest_after, held_after),
    ensures
        runs_over(items, taken_after(items.len(), taken, held, pair), rest_after, held_after),
        pair matches Some(found) ==> {
            &&& found.1 == items[taken_after(items.len(), taken, held, pair) - 1]
            &&& match held {
                None => found.0 == items[0],
                Some(copy) => found.0 == copy && cloned(items[taken - 1], copy),
            }
        },
        pair is None <==> if held is None {
            items.len() < 2
        } else {
            taken == items.len()
        },
{
    match held {
        None => {
            if rest.len() < 2 {
                assert(items.skip(items.len() as int) =~= Seq::<T>::empty());
            } else {
                assert(items.skip(0) =~= items);
            }
        },
        Some(copy) => {
            if rest.len() > 0 {
                assert(items.skip(taken).skip(1) =~= items.skip(taken + 1));
            }
        },
    }
}

impl<I> Iterator for WithPrev<I> where I: Iterator, I::Item: Clone {
    type Item = (<I as Iterator>::Item, <I as Iterator>::Item);

    /// The next pair of neighbours, if there is one. Over an inner iterator
    /// that keeps the iterator laws, the pull is as `pull` says.
    fn next(&mut self) -> (pair: Option<(<I as Iterator>::Item, <I as Iterator>::Item)>)
        ensures
            old(self).inner().obeys_prophetic_iter_laws() ==> {
                &&& final(self).inner().obeys_prophetic_iter_laws()
                &&& pull(
                    old(self).inner().remaining(),
                    old(self).held(),
                    pair,
                    final(self).inner().remaining(),
                    final(self).held(),
                )
            },
    {
        let ghost rest = self.iter.remaining();
        let ghost lawful = self.iter.obeys_prophetic_iter_laws();
        let mut elem = match self.iter.next() {
            Some(item) => item,
            None => {
                assert(lawful ==> rest =~= Seq::<I::Item>::empty());
                return None;
            },
        };
        let mut prev = self.prev.take();
        if prev.is_none() {
            prev = Some(elem);
            elem = match self.iter.next() {
                Some(item) => item,
                None => {
                    assert(lawful ==> rest.drop_first() =~= Seq::<I::Item>::empty());
                    return None;
                },
            };
            assert(lawful ==> rest.drop_first().drop_first() =~= rest.skip(2));
        } else {
        }
        self.prev = Some(elem.clone());
        match prev {
            Some(earlier) => Some((earlier, elem)),
            None => None,
        }
    }
}

/// The earlier half of a pair is a clone, and what a clone holds is known
/// only once it is made. So the adapter foretells nothing of the pairs to
/// come and stands outside the iterator laws; `next` says what each pull
/// does.
impl<I> IteratorSpecImpl for WithPrev<I> where I: Iterator, I::Item: Clone {
    open spec fn obeys_prophetic_iter_laws(&self) -> bool {
        false
    }

    open spec fn remaining(&self) -> Seq<Self::Item> {
        Seq::empty()
    }

    open spec fn will_return_none(&self) -> bool {
        false
    }

    open spec fn decrease(&self) -> Option<nat> {
        None
    }

    open spec fn initial_value_relation(&self, init: &Self) -> bool {
        true
    }

    open spec fn peek(&self, index: int) -> Option<Self::Item> {
        None
    }
}

/// Gives every iterator the method `with_prev`.
pub trait IteratorWithPrev: Iterator {
    /// The adapter over `self`, at its start.
    fn with_prev(self) -> (r: WithPrev<Self>) where Self: Sized
        ensures
            r.inner() == self,
            r.held() is None,
    {
        WithPrev::new(self)
    }
}

impl<T: Iterator> IteratorWithPrev for T {}

} // verus!
