//! An iteration against a service that behaves: what it yields, when it
//! ends, and what errors leave behind.
//!
//! The service of this model holds a fixed list. Asked for the page at an
//! offset it returns the items from there on, as many as the limit allows,
//! and names the offset after them unless the list ends there. Nothing
//! here runs: the functions describe, over the views that the iteration's
//! own contracts use, what its steps add up to.

use vstd::prelude::*;
use crate::v1::pagination::parameter::limit::Limit;
use crate::v1::pagination::{Page, Results};
use super::iter::{Advance, IterView};

verus! {

/// The items that a service with the list `corpus` returns for the page of
/// `limit` results at `offset`.
pub open spec fn served_items<T>(corpus: Seq<T>, offset: u64, limit: u64) -> Seq<T> {
    if offset >= corpus.len() {
        Seq::empty()
    } else if offset + limit >= corpus.len() {
        corpus.subrange(offset as int, corpus.len() as int)
    } else {
        corpus.subrange(offset as int, offset + limit)
    }
}

/// The offset of the next page that the service names with that page:
/// the one after its items, unless the list ends with them.
pub open spec fn served_next<T>(corpus: Seq<T>, offset: u64, limit: u64) -> Option<u64> {
    if offset + limit < corpus.len() {
        Some((offset + limit) as u64)
    } else {
        None
    }
}

/// The total that the service reports with every page of a search: the
/// length of the list. A page that is no search result carries none.
pub open spec fn served_total<T>(corpus: Seq<T>, search: bool) -> Option<u64> {
    if search {
        Some(corpus.len() as u64)
    } else {
        None
    }
}

/// One call for the next item against the service: the iteration after it,
/// and the item that it yields.
pub open spec fn step<T>(corpus: Seq<T>, search: bool, iter: IterView<T>) -> (
    IterView<T>,
    Option<T>,
) {
    let (moved, step) = iter.advance();
    match step {
        Advance::Item(item) => (moved, Some(item)),
        Advance::Done => (moved, None),
        Advance::Request => moved.receive(
            served_next(corpus, moved.offset, moved.limit),
            served_items(corpus, moved.offset, moved.limit),
            served_total(corpus, search),
        ),
    }
}

/// The iteration after `calls` calls for the next item.
pub open spec fn state_after<T>(corpus: Seq<T>, search: bool, iter: IterView<T>, calls: nat)
    -> IterView<T>
    decreases calls,
{
    if calls == 0 {
        iter
    } else {
        step(corpus, search, state_after(corpus, search, iter, (calls - 1) as nat)).0
    }
}

/// What the call number `call` yields, the first call being number 0.
pub open spec fn yielded<T>(corpus: Seq<T>, search: bool, iter: IterView<T>, call: nat) -> Option<
    T,
> {
    step(corpus, search, state_after(corpus, search, iter, call)).1
}

/// The offset in a list of `available` items at which an iteration ends:
/// the end of what the service returns, which are the first
/// `Page::SUM_MAX` items at most, or the number of results asked for where
/// that is less. The number asked for bounds the offset, not the count: of
/// an iteration that starts further down the list it takes what lies
/// before its start.
pub open spec fn last_offset(results: Results, available: nat) -> nat {
    let reachable = if available < Page::SUM_MAX {
        available
    } else {
        Page::SUM_MAX as nat
    };
    match results {
        Results::All => reachable,
        Results::Limit(requested) => if requested < reachable {
            requested as nat
        } else {
            reachable
        },
    }
}

/// How many items an iteration that starts at the offset `first` of a list
/// of `available` items is to yield: those from `first` up to the offset
/// at which it ends. From the head of the list that is as many as were
/// asked for, or all that the service returns where that is less.
pub open spec fn expected_count(results: Results, available: nat, first: u64) -> nat {
    if last_offset(results, available) > first {
        (last_offset(results, available) - first) as nat
    } else {
        0
    }
}

/// The iteration has yielded the first `done` items of the list from the
/// offset `first` on and holds the ones up to its count in hand, in
/// reverse.
spec fn on_course<T>(
    corpus: Seq<T>,
    results: Results,
    first: u64,
    iter: IterView<T>,
    done: nat,
) -> bool {
    &&& iter.results == results
    &&& Limit::is_valid(iter.limit)
    &&& Page::in_range(iter.offset, iter.limit)
    &&& done <= iter.count <= expected_count(results, corpus.len(), first)
    &&& iter.buffer.len() == iter.count - done
    &&& forall|i: int|
        0 <= i < iter.buffer.len() ==> #[trigger] iter.buffer[i] == corpus[first + iter.count - 1
            - i]
    &&& iter.next == Some((first + iter.count) as u64) || (iter.next is None && first
        + iter.count >= corpus.len())
}

/// The iteration has ended for good: with nothing in hand, no step asks
/// for a page again.
spec fn ended<T>(iter: IterView<T>) -> bool {
    &&& iter.buffer.len() == 0
    &&& Limit::is_valid(iter.limit)
    &&& {
        ||| iter.cap_reached()
        ||| iter.next is None
        ||| iter.next matches Some(next) && next >= Page::SUM_MAX
        ||| iter.next matches Some(next) && iter.results matches Results::Limit(requested)
            && next >= requested
    }
}

/// A step of an iteration on course yields the next item of the list and
/// stays on course, until as many were yielded as are expected; then it
/// yields nothing and the iteration has ended.
proof fn lemma_step_on_course<T>(
    corpus: Seq<T>,
    search: bool,
    results: Results,
    first: u64,
    iter: IterView<T>,
    done: nat,
)
    requires
        on_course(corpus, results, first, iter, done),
    ensures
        done < expected_count(results, corpus.len(), first) ==> {
            &&& step(corpus, search, iter).1 == Some(corpus[first + done])
            &&& on_course(corpus, results, first, step(corpus, search, iter).0, done + 1)
        },
        done >= expected_count(results, corpus.len(), first) ==> {
            &&& step(corpus, search, iter).1 is None
            &&& ended(step(corpus, search, iter).0)
        },
{
    let expected = expected_count(results, corpus.len(), first);
    if iter.buffer.len() > 0 {
        let after = step(corpus, search, iter).0;
        assert(iter.buffer.last() == corpus[first + iter.count - 1 - (iter.buffer.len() - 1)]);
        assert forall|i: int| 0 <= i < after.buffer.len() implies #[trigger] after.buffer[i]
            == corpus[first + after.count - 1 - i] by {
            assert(after.buffer[i] == iter.buffer[i]);
        }
    } else if done >= expected {
        let (moved, asked) = iter.next_page();
        if asked {
            assert(served_items(corpus, moved.offset, moved.limit).len() == 0);
        }
    } else {
        let (moved, asked) = iter.next_page();
        let items = served_items(corpus, moved.offset, moved.limit);
        assert(items[0] == corpus[first + iter.count]);
        let after = step(corpus, search, iter).0;
        assert forall|i: int| 0 <= i < after.buffer.len() implies #[trigger] after.buffer[i]
            == corpus[first + after.count - 1 - i] by {
            assert(after.buffer[i] == items.reverse()[i]);
            assert(items.reverse()[i] == items[items.len() - 1 - i]);
        }
    }
}

/// A step of an iteration that has ended yields nothing and leaves it
/// ended.
proof fn lemma_step_ended<T>(corpus: Seq<T>, search: bool, iter: IterView<T>)
    requires
        ended(iter),
    ensures
        step(corpus, search, iter).1 is None,
        ended(step(corpus, search, iter).0),
{
}

/// Where an iteration made for a page stands after `calls` calls.
proof fn lemma_course<T>(
    corpus: Seq<T>,
    search: bool,
    offset: u64,
    limit: u64,
    results: Results,
    calls: nat,
)
    requires
        Page::valid(offset, limit),
    ensures
        calls <= expected_count(results, corpus.len(), offset) ==> on_course(
            corpus,
            results,
            offset,
            state_after(corpus, search, IterView::<T>::start(offset, limit, results, search), calls),
            calls,
        ),
        calls > expected_count(results, corpus.len(), offset) ==> ended(
            state_after(corpus, search, IterView::<T>::start(offset, limit, results, search), calls),
        ),
    decreases calls,
{
    let start = IterView::<T>::start(offset, limit, results, search);
    if calls > 0 {
        let before = state_after(corpus, search, start, (calls - 1) as nat);
        lemma_course(corpus, search, offset, limit, results, (calls - 1) as nat);
        if calls - 1 <= expected_count(results, corpus.len(), offset) {
            lemma_step_on_course(corpus, search, results, offset, before, (calls - 1) as nat);
        } else {
            lemma_step_ended(corpus, search, before);
        }
    }
}

/// Against a service that holds a list and serves it page by page, an
/// iteration yields the items of the list from the offset of its first
/// page on, in their order, each once and none left out, and then ends:
/// the call number `call` yields the item `call` places after that offset
/// while there are items to yield, and every later call yields nothing.
///
/// From the head of the list, with a number of results asked for that the
/// service can return, these are as many items as were asked for, or the
/// whole list where that is shorter. This holds for every limit of the
/// first page.
pub proof fn iteration_yields_list_in_order<T>(
    corpus: Seq<T>,
    search: bool,
    offset: u64,
    limit: u64,
    results: Results,
    call: nat,
)
    requires
        Page::valid(offset, limit),
    ensures
        call < expected_count(results, corpus.len(), offset) ==> yielded(
            corpus,
            search,
            IterView::<T>::start(offset, limit, results, search),
            call,
        ) == Some(corpus[offset + call]),
        call >= expected_count(results, corpus.len(), offset) ==> yielded(
            corpus,
            search,
            IterView::<T>::start(offset, limit, results, search),
            call,
        ) is None,
        results matches Results::Limit(requested) ==> (requested <= corpus.len() && requested
            <= Page::SUM_MAX ==> expected_count(results, corpus.len(), 0) == requested),
{
    let start = IterView::<T>::start(offset, limit, results, search);
    let before = state_after(corpus, search, start, call);
    lemma_course(corpus, search, offset, limit, results, call);
    if call <= expected_count(results, corpus.len(), offset) {
        lemma_step_on_course(corpus, search, results, offset, before, call);
    } else {
        lemma_step_ended(corpus, search, before);
    }
}

/// What the model takes for a call is an outcome that the contract of the
/// iteration's `next` allows: the model describes runs of the code.
pub proof fn step_is_an_outcome<T, X>(corpus: Seq<T>, search: bool, iter: IterView<T>)
    ensures
        iter.next_outcome(
            step(corpus, search, iter).0,
            match step(corpus, search, iter).1 {
                Some(item) => Some(Ok::<T, X>(item)),
                None => None,
            },
        ),
{
    let (moved, asked) = iter.advance();
    if asked is Request {
        let next = served_next(corpus, moved.offset, moved.limit);
        let items = served_items(corpus, moved.offset, moved.limit);
        let total = served_total(corpus, search);
        let _ = moved.receive(next, items, total);
    }
}

/// Once the service has named no next page, the iteration asks for
/// nothing more: it yields the items in hand, the last first, and then
/// ends, whatever the service holds.
pub proof fn iteration_ends_after_last_page<T>(
    corpus: Seq<T>,
    search: bool,
    iter: IterView<T>,
    call: nat,
)
    requires
        iter.next is None,
    ensures
        !(state_after(corpus, search, iter, call).advance().1 is Request),
        call < iter.buffer.len() ==> yielded(corpus, search, iter, call) == Some(
            iter.buffer[iter.buffer.len() - 1 - call],
        ),
        call >= iter.buffer.len() ==> yielded(corpus, search, iter, call) is None,
{
    lemma_drain(corpus, search, iter, call);
}

/// Where an iteration without a next page stands after `calls` calls: it
/// has given away that many of the items in hand, and has no next page
/// still.
proof fn lemma_drain<T>(corpus: Seq<T>, search: bool, iter: IterView<T>, calls: nat)
    requires
        iter.next is None,
    ensures
        state_after(corpus, search, iter, calls).next is None,
        calls <= iter.buffer.len() ==> state_after(corpus, search, iter, calls).buffer
            == iter.buffer.subrange(0, iter.buffer.len() - calls),
        calls > iter.buffer.len() ==> state_after(corpus, search, iter, calls).buffer.len() == 0,
    decreases calls,
{
    if calls > 0 {
        lemma_drain(corpus, search, iter, (calls - 1) as nat);
        let before = state_after(corpus, search, iter, (calls - 1) as nat);
        if calls <= iter.buffer.len() {
            assert(before.buffer.drop_last() =~= iter.buffer.subrange(
                0,
                iter.buffer.len() - calls,
            ));
        }
    } else {
        assert(iter.buffer.subrange(0, iter.buffer.len() as int) =~= iter.buffer);
    }
}

/// The iteration after `calls` calls for the next item that each ended in
/// an error of the request.
pub open spec fn state_after_errors<T>(iter: IterView<T>, calls: nat) -> IterView<T>
    decreases calls,
{
    if calls == 0 {
        iter
    } else {
        state_after_errors(iter, (calls - 1) as nat).advance().0
    }
}

/// An error leaves the iteration where the request was made, and there
/// the next call makes the same request again: however often the service
/// fails, each call asks for the same page and yields the error, and the
/// iteration stays as it is, ready for the page once the service answers.
pub proof fn errors_change_nothing<T>(iter: IterView<T>, calls: nat)
    requires
        Limit::is_valid(iter.limit),
        iter.advance().1 is Request,
    ensures
        state_after_errors(iter, calls).advance() == (iter.advance().0, Advance::<T>::Request),
        calls > 0 ==> state_after_errors(iter, calls) == iter.advance().0,
    decreases calls,
{
    if calls > 0 {
        errors_change_nothing(iter, (calls - 1) as nat);
    }
}

/// The total of a search is the same with every page: whatever an
/// iteration has reported before, from its first response on it reports
/// the length of the list, for as long as it runs.
pub proof fn total_is_constant<T>(corpus: Seq<T>, iter: IterView<T>, earlier: nat, later: nat)
    requires
        earlier <= later,
    ensures
        state_after(corpus, true, iter, later).total == state_after(
            corpus,
            true,
            iter,
            earlier,
        ).total || state_after(corpus, true, iter, later).total == served_total(corpus, true),
        state_after(corpus, true, iter, earlier).total == served_total(corpus, true)
            ==> state_after(corpus, true, iter, later).total == served_total(corpus, true),
    decreases later,
{
    if earlier < later {
        total_is_constant(corpus, iter, earlier, (later - 1) as nat);
    }
}

} // verus!
