//! Lists whose rows are fetched one by one, a window at a time.

pub mod guest_list_input;

use vstd::prelude::*;
use std::collections::HashMap;

verus! {

/// How many rows are asked for when a list is filled anew.
pub const INITIAL_LOAD: usize = 5;

/// How many rows beyond the ones asked for are fetched along with them.
pub const EXTRA_TO_LOAD: usize = 5;

/// What a list asks its screen to do after its window has moved.
#[derive(Debug)]
pub enum ListLoad {
    /// There is no session to fetch with.
    SessionMissing,
    /// Fetch each of these rows with this token.
    Fetch { token: String, ids: Vec<u128> },
}

pub enum ListLoadView {
    SessionMissing,
    Fetch { token: Seq<char>, ids: Seq<u128> },
}

impl View for ListLoad {
    type V = ListLoadView;

    open spec fn view(&self) -> ListLoadView {
        match self {
            ListLoad::SessionMissing => ListLoadView::SessionMissing,
            ListLoad::Fetch { token, ids } => ListLoadView::Fetch { token: token@, ids: ids@ },
        }
    }
}

/// How many of `total` rows are in the window when `number` rows are asked
/// for: those and the extra ones, as far as the list goes.
pub open spec fn window(total: nat, number: nat) -> nat {
    if number + EXTRA_TO_LOAD <= total {
        number + EXTRA_TO_LOAD as nat
    } else {
        total
    }
}

/// The test for an id that is not in `cached`.
pub open spec fn is_missing(cached: Set<u128>) -> spec_fn(u128) -> bool {
    |id: u128| !cached.contains(id)
}

/// The rows to fetch: the ids in the window that are not cached, in the
/// order of the list.
pub open spec fn rows_to_fetch(ids: Seq<u128>, cached: Set<u128>, number: nat) -> Seq<u128> {
    ids.take(window(ids.len(), number) as int).filter(is_missing(cached))
}

/// What a list answers when it is asked for `number` rows.
pub open spec fn load_request(
    token: Option<Seq<char>>,
    ids: Seq<u128>,
    cached: Set<u128>,
    number: nat,
) -> ListLoadView {
    match token {
        Some(t) => ListLoadView::Fetch { token: t, ids: rows_to_fetch(ids, cached, number) },
        None => ListLoadView::SessionMissing,
    }
}

/// No row to fetch is cached, every row of the window that is not cached is
/// fetched, and no more rows are fetched than the window holds.
pub proof fn lemma_rows_to_fetch(ids: Seq<u128>, cached: Set<u128>, number: nat)
    ensures
        rows_to_fetch(ids, cached, number).len() <= window(ids.len(), number),
        forall|i: int|
            0 <= i < rows_to_fetch(ids, cached, number).len() ==> !cached.contains(
                #[trigger] rows_to_fetch(ids, cached, number)[i],
            ),
        forall|i: int|
            0 <= i < window(ids.len(), number) && !cached.contains(#[trigger] ids[i])
                ==> rows_to_fetch(ids, cached, number).contains(ids[i]),
{
    let shown = ids.take(window(ids.len(), number) as int);
    let test = is_missing(cached);
    shown.lemma_filter_len(test);
    assert forall|i: int|
        0 <= i < window(ids.len(), number) && !cached.contains(
            #[trigger] ids[i],
        ) implies rows_to_fetch(ids, cached, number).contains(ids[i]) by {
        shown.lemma_filter_contains(test, i);
    }
}

/// Picks the rows to fetch when `number` rows are asked for.
pub fn select_rows<T>(ids: &Vec<u128>, loaded: &HashMap<u128, T>, number: usize) -> (r: Vec<u128>)
    ensures
        r@ == rows_to_fetch(ids@, loaded@.dom(), number as nat),
{
    let total: usize = ids.len();
    let shown: usize = if number >= total || total - number <= EXTRA_TO_LOAD {
        total
    } else {
        number + EXTRA_TO_LOAD
    };
    let ghost test = is_missing(loaded@.dom());
    let mut rows: Vec<u128> = Vec::new();
    let mut i: usize = 0;
    while i < shown
        invariant
            i <= shown <= ids@.len(),
            test == is_missing(loaded@.dom()),
            rows@ == ids@.take(i as int).filter(test),
        decreases shown - i,
    {
        let id: u128 = ids[i];
        proof {
            assert(ids@.take(i + 1) =~= ids@.take(i as int).push(id));
            ids@.take(i as int).lemma_filter_push(id, test);
        }
        if !loaded.contains_key(&id) {
            rows.push(id);
        }
        i = i + 1;
    }
    rows
}

} // verus!
