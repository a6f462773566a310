//! The order in which the Tab key walks through a screen's fields.

use vstd::prelude::*;

verus! {

/// The fields of a screen in the order that Tab visits them, and the one that
/// holds the focus, if any.
pub struct FocusChain {
    chain: Vec<&'static str>,
    selected: Option<usize>,
}

/// The ids that a list of field names stands for.
pub open spec fn ids_of(chain: Seq<&'static str>) -> Seq<Seq<char>> {
    Seq::new(chain.len(), |i: int| chain[i]@)
}

/// The first position at or after `from` at which `id` stands in `chain`.
pub open spec fn position_from(chain: Seq<Seq<char>>, id: Seq<char>, from: int) -> Option<int>
    decreases chain.len() - from,
{
    if from < 0 || from >= chain.len() {
        None
    } else if chain[from] == id {
        Some(from)
    } else {
        position_from(chain, id, from + 1)
    }
}

pub struct FocusChainView {
    pub chain: Seq<Seq<char>>,
    pub selected: Option<int>,
}

impl FocusChainView {
    /// A chain has at least one field, and its cursor points into it.
    pub open spec fn wf(self) -> bool {
        &&& self.chain.len() > 0
        &&& self.selected matches Some(i) ==> 0 <= i < self.chain.len()
    }

    /// The chain with the cursor on the first field named `id`, or unset
    /// where no field has that name or none is asked for.
    pub open spec fn focus_on(self, select: Option<Seq<char>>) -> FocusChainView {
        FocusChainView {
            selected: match select {
                Some(id) => position_from(self.chain, id, 0),
                None => None,
            },
            ..self
        }
    }

    /// The chain with a set cursor moved one field on, the last field being
    /// followed by the first.
    pub open spec fn advance(self) -> FocusChainView {
        match self.selected {
            Some(i) => FocusChainView { selected: Some((i + 1) % (self.chain.len() as int)), ..self },
            None => self,
        }
    }

    /// The chain with a set cursor moved one field back, the first field
    /// being preceded by the last.
    pub open spec fn retreat(self) -> FocusChainView {
        match self.selected {
            Some(i) => FocusChainView {
                selected: Some((i + self.chain.len() - 1) % (self.chain.len() as int)),
                ..self
            },
            None => self,
        }
    }

    /// The id of the field under the cursor.
    pub open spec fn current(self) -> Option<Seq<char>> {
        match self.selected {
            Some(i) => Some(self.chain[i]),
            None => None,
        }
    }
}

impl View for FocusChain {
    type V = FocusChainView;

    closed spec fn view(&self) -> FocusChainView {
        FocusChainView {
            chain: ids_of(self.chain@),
            selected: match self.selected {
                Some(i) => Some(i as int),
                None => None,
            },
        }
    }
}

/// Whether no id stands at two places of the chain.
pub open spec fn pairwise_distinct(chain: Seq<Seq<char>>) -> bool {
    forall|i: int, j: int| 0 <= i < j < chain.len() ==> chain[i] != chain[j]
}

/// What `position_from` finds is a position of `id`, and the first one from
/// `from` on.
pub proof fn lemma_position_from(chain: Seq<Seq<char>>, id: Seq<char>, from: int)
    requires
        0 <= from,
    ensures
        match position_from(chain, id, from) {
            Some(i) => from <= i < chain.len() && chain[i] == id && forall|j: int|
                from <= j < i ==> chain[j] != id,
            None => forall|j: int| from <= j < chain.len() ==> chain[j] != id,
        },
    decreases chain.len() - from,
{
    if from < chain.len() && chain[from] != id {
        lemma_position_from(chain, id, from + 1);
    }
}

/// In a chain that lists no field twice, asking for the field at a place
/// puts the cursor on that very place, and so on that field.
pub proof fn lemma_focus_on_place(chain: FocusChainView, place: int)
    requires
        pairwise_distinct(chain.chain),
        0 <= place < chain.chain.len(),
    ensures
        chain.focus_on(Some(chain.chain[place])).selected == Some(place),
        chain.focus_on(Some(chain.chain[place])).current() == Some(chain.chain[place]),
{
    lemma_position_from(chain.chain, chain.chain[place], 0);
}

/// Moving a set cursor on and then back, or back and then on, returns it to
/// the field it started from.
pub proof fn lemma_advance_retreat(chain: FocusChainView)
    requires
        chain.wf(),
        chain.selected is Some,
    ensures
        chain.advance().retreat() == chain,
        chain.retreat().advance() == chain,
        chain.advance().retreat().current() == chain.current(),
        chain.retreat().advance().current() == chain.current(),
        chain.advance().wf(),
        chain.retreat().wf(),
{
    let n = chain.chain.len() as int;
    let i = chain.selected->0;
    assert(((i + 1) % n + n - 1) % n == i) by (nonlinear_arith)
        requires
            0 <= i < n,
    ;
    assert(((i + n - 1) % n + 1) % n == i) by (nonlinear_arith)
        requires
            0 <= i < n,
    ;
}

/// With no field under the cursor, moving on or back changes nothing.
pub proof fn lemma_unset_cursor_stays(chain: FocusChainView)
    requires
        chain.selected is None,
    ensures
        chain.advance() == chain,
        chain.retreat() == chain,
        chain.advance().selected is None,
        chain.retreat().selected is None,
{
}

impl FocusChain {
    #[verifier::type_invariant]
    spec fn inv(&self) -> bool {
        &&& self.chain@.len() > 0
        &&& self.selected matches Some(i) ==> i < self.chain@.len()
    }

    /// A chain over the given fields, with no field in focus.
    pub fn new(chain: Vec<&'static str>) -> (r: Self)
        requires
            chain@.len() > 0,
        ensures
            r@ == (FocusChainView { chain: ids_of(chain@), selected: None }),
            r@.wf(),
    {
        Self { chain, selected: None }
    }

    /// Puts the cursor on the first field named `select`; unsets it where
    /// there is no such field or `select` is `None`.
    pub fn set_focus(&mut self, select: Option<&'static str>)
        ensures
            final(self)@ == old(self)@.focus_on(
                match select {
                    Some(id) => Some(id@),
                    None => None,
                },
            ),
            final(self)@.wf(),
    {
        proof {
            use_type_invariant(&*self);
        }
        match select {
            Some(id) => {
                let mut found: Option<usize> = None;
                let mut i: usize = 0;
                while i < self.chain.len()
                    invariant_except_break
                        found is None,
                        position_from(ids_of(self.chain@), id@, 0) == position_from(
                            ids_of(self.chain@),
                            id@,
                            i as int,
                        ),
                    invariant
                        i <= self.chain@.len(),
                        self.chain == old(self).chain,
                        self.selected == old(self).selected,
                    ensures
                        self.chain == old(self).chain,
                        self.selected == old(self).selected,
                        match found {
                            Some(k) => k < self.chain@.len() && position_from(
                                ids_of(self.chain@),
                                id@,
                                0,
                            ) == Some(k as int),
                            None => position_from(ids_of(self.chain@), id@, 0) is None,
                        },
                    decreases self.chain@.len() - i,
                {
                    if self.chain[i].eq(id) {
                        found = Some(i);
                        break ;
                    }
                    i = i + 1;
                }
                self.selected = found;
            },
            None => {
                self.selected = None;
            },
        }
    }

    /// The id of the field in focus.
    pub fn get_selected(&self) -> (r: Option<&'static str>)
        ensures
            match r {
                Some(id) => self@.current() == Some(id@),
                None => self@.current() is None,
            },
    {
        proof {
            use_type_invariant(self);
        }
        match self.selected {
            Some(index) => Some(self.chain[index]),
            None => None,
        }
    }

    /// Moves a set cursor to the next field, and from the last to the first.
    pub fn set_next(&mut self)
        ensures
            final(self)@ == old(self)@.advance(),
            final(self)@.wf(),
    {
        proof {
            use_type_invariant(&*self);
        }
        if let Some(index) = self.selected {
            let n: usize = self.chain.len();
            let next: usize = if index + 1 == n {
                0
            } else {
                index + 1
            };
            assert(next == (index + 1) % (n as int)) by (nonlinear_arith)
                requires
                    0 <= index < n,
                    next == if index + 1 == n {
                        0
                    } else {
                        index + 1
                    },
            ;
            self.selected = Some(next);
        }
    }

    /// Moves a set cursor to the field before, and from the first to the last.
    pub fn set_prev(&mut self)
        ensures
            final(self)@ == old(self)@.retreat(),
            final(self)@.wf(),
    {
        proof {
            use_type_invariant(&*self);
        }
        if let Some(index) = self.selected {
            let n: usize = self.chain.len();
            let previous: usize = if index == 0 {
                n - 1
            } else {
                index - 1
            };
            assert(previous == (index + n - 1) % (n as int)) by (nonlinear_arith)
                requires
                    0 <= index < n,
                    previous == if index == 0 {
                        n - 1
                    } else {
                        index - 1
                    },
            ;
            self.selected = Some(previous);
        }
    }

    /// The field that the keyboard focus has to be put on: the one under the
    /// cursor, if the cursor is set.
    pub fn apply_focus(&self) -> (r: Option<&'static str>)
        ensures
            match r {
                Some(id) => self@.current() == Some(id@),
                None => self@.current() is None,
            },
    {
        self.get_selected()
    }
}

} // verus!
