//! The list of rooms found by a search, with the one room picked from it.

use vstd::prelude::*;
use std::collections::HashMap;
use crate::components::list_input::{load_request, select_rows, ListLoad, INITIAL_LOAD};
use crate::model::room::{Room, RoomView};
use crate::text::opt_text;

verus! {

/// How many rooms the list makes space for at the start.
pub const INITIAL_CAPACITY: usize = 100;

pub struct RoomListInput {
    ids: Vec<u128>,
    selected: Option<u128>,
    loaded: HashMap<u128, Room>,
}

/// The ids found, the room picked, and the rooms fetched so far. A row whose
/// id has no room yet is still loading.
pub struct RoomListInputView {
    pub ids: Seq<u128>,
    pub selected: Option<u128>,
    pub loaded: Map<u128, RoomView>,
}

impl RoomListInputView {
    pub open spec fn empty() -> RoomListInputView {
        RoomListInputView { ids: Seq::empty(), selected: None, loaded: Map::empty() }
    }

    /// The list after a search has found `room_ids`: the ids are replaced,
    /// no room is picked any more, and what was fetched is kept.
    pub open spec fn update_ids(self, room_ids: Seq<u128>) -> RoomListInputView {
        RoomListInputView { ids: room_ids, selected: None, ..self }
    }

    pub open spec fn set_selected(self, selected: Option<u128>) -> RoomListInputView {
        RoomListInputView { selected, ..self }
    }

    /// Whether every room fetched stands under its own id.
    pub open spec fn keyed(self) -> bool {
        forall|id: u128| self.loaded.contains_key(id) ==> (#[trigger] self.loaded[id]).id == id
    }

    /// The list after `room` has arrived.
    pub open spec fn update_loaded(self, room: RoomView) -> RoomListInputView {
        RoomListInputView { loaded: self.loaded.insert(room.id, room), ..self }
    }
}

/// An empty list is keyed, and a keyed list stays so when it takes new
/// ids, a selection or a room that has arrived.
pub proof fn lemma_keyed_is_kept(
    list: RoomListInputView,
    ids: Seq<u128>,
    selected: Option<u128>,
    room: RoomView,
)
    ensures
        RoomListInputView::empty().keyed(),
        list.keyed() ==> list.update_ids(ids).keyed(),
        list.keyed() ==> list.set_selected(selected).keyed(),
        list.keyed() ==> list.update_loaded(room).keyed(),
{
}

/// Recording a room that is already recorded changes nothing.
pub proof fn lemma_update_loaded_idempotent(list: RoomListInputView, room: RoomView)
    ensures
        list.update_loaded(room).update_loaded(room) == list.update_loaded(room),
{
    assert(list.loaded.insert(room.id, room).insert(room.id, room) =~= list.loaded.insert(
        room.id,
        room,
    ));
}

impl View for RoomListInput {
    type V = RoomListInputView;

    closed spec fn view(&self) -> RoomListInputView {
        RoomListInputView {
            ids: self.ids@,
            selected: self.selected,
            loaded: self.loaded@.map_values(|room: Room| room@),
        }
    }
}

impl RoomListInput {
    pub fn new() -> (r: Self)
        ensures
            r@ == RoomListInputView::empty(),
            r@.keyed(),
    {
        let r = Self {
            ids: Vec::with_capacity(INITIAL_CAPACITY),
            loaded: HashMap::with_capacity(INITIAL_CAPACITY),
            selected: None,
        };
        assert(r.loaded@.map_values(|room: Room| room@) =~= Map::empty());
        r
    }

    pub fn get_selected(&self) -> (r: Option<u128>)
        ensures
            r == self@.selected,
    {
        self.selected
    }

    pub fn set_selected(&mut self, selected: Option<u128>)
        ensures
            final(self)@ == old(self)@.set_selected(selected),
            old(self)@.keyed() ==> final(self)@.keyed(),
    {
        self.selected = selected;
    }

    /// Takes the ids that a search has found and asks for the first rows.
    /// Without a token nothing is fetched.
    pub fn update_ids(&mut self, token: Option<String>, room_ids: Vec<u128>) -> (r: ListLoad)
        ensures
            final(self)@ == old(self)@.update_ids(room_ids@),
            old(self)@.keyed() ==> final(self)@.keyed(),
            r@ == load_request(
                opt_text(token),
                room_ids@,
                old(self)@.loaded.dom(),
                INITIAL_LOAD as nat,
            ),
    {
        self.selected = None;
        self.ids = room_ids;
        match token {
            Some(token) => self.load_elements(token, INITIAL_LOAD),
            None => ListLoad::SessionMissing,
        }
    }

    /// Asks for the rows up to `number_to_load`, the row that the list has
    /// been scrolled to. Without a token nothing is fetched.
    pub fn load_scrolled(&self, token: Option<String>, number_to_load: usize) -> (r: ListLoad)
        ensures
            r@ == load_request(
                opt_text(token),
                self@.ids,
                self@.loaded.dom(),
                number_to_load as nat,
            ),
    {
        match token {
            Some(token) => self.load_elements(token, number_to_load),
            None => ListLoad::SessionMissing,
        }
    }

    /// Records a room that has arrived, in place of any that was recorded
    /// under its id.
    pub fn update_loaded(&mut self, room: Room)
        ensures
            final(self)@ == old(self)@.update_loaded(room@),
            old(self)@.keyed() ==> final(self)@.keyed(),
    {
        let ghost before = self.loaded@;
        self.loaded.insert(room.id, room);
        assert(self.loaded@.map_values(|room: Room| room@) =~= before.map_values(
            |room: Room| room@,
        ).insert(room.id, room@));
    }

    fn load_elements(&self, token: String, number: usize) -> (r: ListLoad)
        ensures
            r@ == load_request(Some(token@), self@.ids, self@.loaded.dom(), number as nat),
    {
        assert(self.loaded@.map_values(|room: Room| room@).dom() =~= self.loaded@.dom());
        ListLoad::Fetch { token, ids: select_rows(&self.ids, &self.loaded, number) }
    }

    /// The ids in the list, in order.
    pub fn ids(&self) -> (r: &Vec<u128>)
        ensures
            r@ == self@.ids,
    {
        &self.ids
    }

    /// How many ids the list holds.
    pub fn len(&self) -> (r: usize)
        ensures
            r == self@.ids.len(),
    {
        self.ids.len()
    }

    /// The room fetched for `id`, if it has arrived.
    pub fn get_loaded(&self, id: u128) -> (r: Option<&Room>)
        ensures
            match r {
                Some(room) => self@.loaded.contains_key(id) && self@.loaded[id] == room@,
                None => !self@.loaded.contains_key(id),
            },
    {
        self.loaded.get(&id)
    }
}

} // verus!
