//! The list of guests found by a search.

use vstd::prelude::*;
use std::collections::HashMap;
use crate::components::list_input::{load_request, select_rows, ListLoad, INITIAL_LOAD};
use crate::model::guest::{Guest, GuestView};
use crate::text::opt_text;

verus! {

/// How many guests the list makes space for at the start.
pub const INITIAL_CAPACITY: usize = 100;

pub struct GuestListInput {
    ids: Vec<u128>,
    loaded: HashMap<u128, Guest>,
}

/// The ids found and the guests fetched so far. A row whose id has no guest
/// yet is still loading.
pub struct GuestListInputView {
    pub ids: Seq<u128>,
    pub loaded: Map<u128, GuestView>,
}

impl GuestListInputView {
    pub open spec fn empty() -> GuestListInputView {
        GuestListInputView { ids: Seq::empty(), loaded: Map::empty() }
    }

    /// The list after a search has found `guest_ids`: the ids are replaced,
    /// and what was fetched is kept.
    pub open spec fn update_ids(self, guest_ids: Seq<u128>) -> GuestListInputView {
        GuestListInputView { ids: guest_ids, ..self }
    }

    /// Whether every guest fetched stands under their own id.
    pub open spec fn keyed(self) -> bool {
        forall|id: u128| self.loaded.contains_key(id) ==> (#[trigger] self.loaded[id]).id == id
    }

    /// The list after `guest` has arrived.
    pub open spec fn update_loaded(self, guest: GuestView) -> GuestListInputView {
        GuestListInputView { loaded: self.loaded.insert(guest.id, guest), ..self }
    }
}

/// An empty list is keyed, and a keyed list stays so when it takes new ids
/// or a guest who has arrived.
pub proof fn lemma_keyed_is_kept(list: GuestListInputView, ids: Seq<u128>, guest: GuestView)
    ensures
        GuestListInputView::empty().keyed(),
        list.keyed() ==> list.update_ids(ids).keyed(),
        list.keyed() ==> list.update_loaded(guest).keyed(),
{
}

/// Recording a guest that is already recorded changes nothing.
pub proof fn lemma_update_loaded_idempotent(list: GuestListInputView, guest: GuestView)
    ensures
        list.update_loaded(guest).update_loaded(guest) == list.update_loaded(guest),
{
    assert(list.loaded.insert(guest.id, guest).insert(guest.id, guest) =~= list.loaded.insert(
        guest.id,
        guest,
    ));
}

impl View for GuestListInput {
    type V = GuestListInputView;

    closed spec fn view(&self) -> GuestListInputView {
        GuestListInputView {
            ids: self.ids@,
            loaded: self.loaded@.map_values(|guest: Guest| guest@),
        }
    }
}

impl GuestListInput {
    pub fn new() -> (r: Self)
        ensures
            r@ == GuestListInputView::empty(),
            r@.keyed(),
    {
        let r = Self {
            ids: Vec::with_capacity(INITIAL_CAPACITY),
            loaded: HashMap::with_capacity(INITIAL_CAPACITY),
        };
        assert(r.loaded@.map_values(|guest: Guest| guest@) =~= Map::empty());
        r
    }

    /// Takes the ids that a search has found and asks for the first rows.
    /// Without a token nothing is fetched.
    pub fn update_ids(&mut self, token: Option<String>, guest_ids: Vec<u128>) -> (r: ListLoad)
        ensures
            final(self)@ == old(self)@.update_ids(guest_ids@),
            old(self)@.keyed() ==> final(self)@.keyed(),
            r@ == load_request(
                opt_text(token),
                guest_ids@,
                old(self)@.loaded.dom(),
                INITIAL_LOAD as nat,
            ),
    {
        self.ids = guest_ids;
        match token {
            Some(token) => self.load_elements(token, INITIAL_LOAD),
            None => ListLoad::SessionMissing,
        }
    }

    /// Asks for the rows up to `number_to_load`, the row that the list has
    /// been scrolled to. Without a token nothing is fetched.
    pub fn load_scrolled(&self, token: Option<String>, number_to_load: usize) -> (r: ListLoad)
        ensures
            r@ == load_request(
                opt_text(token),
                self@.ids,
                self@.loaded.dom(),
                number_to_load as nat,
            ),
    {
        match token {
            Some(token) => self.load_elements(token, number_to_load),
            None => ListLoad::SessionMissing,
        }
    }

    /// Records a guest that has arrived, in place of any that was recorded
    /// under their id.
    pub fn update_loaded(&mut self, guest: Guest)
        ensures
            final(self)@ == old(self)@.update_loaded(guest@),
            old(self)@.keyed() ==> final(self)@.keyed(),
    {
        let ghost before = self.loaded@;
        self.loaded.insert(guest.id, guest);
        assert(self.loaded@.map_values(|guest: Guest| guest@) =~= before.map_values(
            |guest: Guest| guest@,
        ).insert(guest.id, guest@));
    }

    fn load_elements(&self, token: String, number: usize) -> (r: ListLoad)
        ensures
            r@ == load_request(Some(token@), self@.ids, self@.loaded.dom(), number as nat),
    {
        assert(self.loaded@.map_values(|guest: Guest| guest@).dom() =~= self.loaded@.dom());
        ListLoad::Fetch { token, ids: select_rows(&self.ids, &self.loaded, number) }
    }

    /// The ids in the list, in order.
    pub fn ids(&self) -> (r: &Vec<u128>)
        ensures
            r@ == self@.ids,
    {
        &self.ids
    }

    /// How many ids the list holds.
    pub fn len(&self) -> (r: usize)
        ensures
            r == self@.ids.len(),
    {
        self.ids.len()
    }

    /// A copy of the guest fetched for `id`, if they have arrived.
    pub fn get_loaded(&self, id: u128) -> (r: Option<Guest>)
        ensures
            match r {
                Some(guest) => self@.loaded.contains_key(id) && self@.loaded[id] == guest@,
                None => !self@.loaded.contains_key(id),
            },
    {
        match self.loaded.get(&id) {
            Some(guest) => Some(guest.clone()),
            None => None,
        }
    }
}

} // verus!
