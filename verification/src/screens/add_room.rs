//! The form that adds a room.

use vstd::prelude::*;
use crate::action::{actions_view, no_actions, nothing, one_action, Action, ActionView};
use crate::app::{AppMessage, GlobalState, GlobalStateView};
use crate::components::combo_box::bathroom_type_combo_box::BathroomTypeComboBox;
use crate::components::combo_box::bed_size_combo_box::BedSizeComboBox;
use crate::components::notification::NotificationType;
use crate::components::text_box::number_text_box::{
    NumberTextBox,
    NumberType,
    POSITIVE_INTEGER_PATTERN,
    PRICE_PATTERN,
};
use crate::components::text_box::regex_text_box::RegexTextBoxView;
use crate::components::text_box::room_number_text_box::{
    RoomNumberTextBox,
    ROOM_NUMBER_MAX_LENGTH,
    ROOM_NUMBER_PATTERN,
};
use crate::components::text_box::text_box::TextElement;
use crate::model::bathroom_type::BathroomType;
use crate::model::bed::{Bed, BedSize};
use crate::services::add_room::{AddRoomInput, AddRoomInputView, AddRoomResult};
use crate::text::{numeral_i16, parse_i16, parse_price, price_of};

verus! {

#[derive(Debug, Clone)]
pub enum AddRoomMessage {
    ChangeRoomNumber(String),
    ChangeFloor(String),
    ChagePrice(String),
    ChangeBathroomType(BathroomType),
    ChangeBedSize { bed_size: BedSize, input_id: u64 },
    ChangeBedCount { count: String, input_id: u64 },
    RemoveBedSizeInput(u64),
    AddBedSizeInput,
    AddRoom,
    RoomAdded(u128),
    ShowError(String),
}

/// The most bytes in a price.
pub const PRICE_MAX_LENGTH: usize = 9;

/// The most bytes in a floor.
pub const FLOOR_MAX_LENGTH: usize = 6;

/// The most bytes in a count of beds.
pub const BED_COUNT_MAX_LENGTH: usize = 1;

/// One row of the form: a size of bed and how many beds of it.
pub struct BedCountInput {
    id: u64,
    count: NumberTextBox,
    bed_size: BedSizeComboBox,
}

pub struct BedCountInputView {
    pub id: u64,
    pub count: RegexTextBoxView,
    pub bed_size: BedSize,
}

impl BedCountInputView {
    /// The row as it is when it is added under `id`: one single bed.
    pub open spec fn initial(id: u64) -> BedCountInputView {
        BedCountInputView {
            id,
            count: RegexTextBoxView {
                text: "1"@,
                max_length: BED_COUNT_MAX_LENGTH as nat,
                pattern: POSITIVE_INTEGER_PATTERN@,
            },
            bed_size: BedSize::Single,
        }
    }

    /// How many beds the row counts: the number in its field, or none where
    /// the field holds no number.
    pub open spec fn beds(self) -> int {
        match numeral_i16(self.count.text) {
            Some(n) => n as int,
            None => 0,
        }
    }
}

impl View for BedCountInput {
    type V = BedCountInputView;

    closed spec fn view(&self) -> BedCountInputView {
        BedCountInputView { id: self.id, count: self.count@, bed_size: self.bed_size.selected() }
    }
}

impl BedCountInput {
    pub fn new(id: u64) -> (r: Self)
        ensures
            r@ == BedCountInputView::initial(id),
    {
        Self {
            id,
            count: NumberTextBox::new("1", BED_COUNT_MAX_LENGTH, NumberType::PositiveInteger),
            bed_size: BedSizeComboBox::new(),
        }
    }

    pub fn id(&self) -> (r: u64)
        ensures
            r == self@.id,
    {
        self.id
    }

    pub fn count(&self) -> (r: &NumberTextBox)
        ensures
            r@ == self@.count,
    {
        &self.count
    }

    pub fn bed_size(&self) -> (r: &BedSizeComboBox)
        ensures
            r.selected() == self@.bed_size,
    {
        &self.bed_size
    }
}

/// The rows of a form as values.
pub open spec fn rows_view(rows: Seq<BedCountInput>) -> Seq<BedCountInputView> {
    Seq::new(rows.len(), |i: int| rows[i]@)
}

/// The position of the row with the given id, looked for from `from` on.
pub open spec fn row_position(rows: Seq<BedCountInputView>, id: u64, from: int) -> Option<int>
    decreases rows.len() - from,
{
    if from < 0 || from >= rows.len() {
        None
    } else if rows[from].id == id {
        Some(from)
    } else {
        row_position(rows, id, from + 1)
    }
}

/// Whether the rows stand in the order of their ids, no id twice, and all
/// ids below `id_counter`.
pub open spec fn rows_in_order(rows: Seq<BedCountInputView>, id_counter: u64) -> bool {
    &&& forall|i: int, j: int| 0 <= i < j < rows.len() ==> rows[i].id < rows[j].id
    &&& forall|i: int| 0 <= i < rows.len() ==> rows[i].id < id_counter
}

/// How many beds of one size the rows count together.
pub open spec fn total_beds(rows: Seq<BedCountInputView>, size: BedSize) -> int
    decreases rows.len(),
{
    if rows.len() == 0 {
        0
    } else {
        total_beds(rows.drop_last(), size) + if rows.last().bed_size == size {
            rows.last().beds()
        } else {
            0
        }
    }
}

/// The sizes that the rows name, each once, in the order in which they
/// first appear.
pub open spec fn sizes_used(rows: Seq<BedCountInputView>) -> Seq<BedSize>
    decreases rows.len(),
{
    if rows.len() == 0 {
        Seq::empty()
    } else {
        let before = sizes_used(rows.drop_last());
        if before.contains(rows.last().bed_size) {
            before
        } else {
            before.push(rows.last().bed_size)
        }
    }
}

/// A total as a count of beds: totals beyond what a count can hold stand at
/// the nearest count.
pub open spec fn as_count(total: int) -> i16 {
    if total > i16::MAX {
        i16::MAX
    } else if total < i16::MIN {
        i16::MIN
    } else {
        total as i16
    }
}

/// The beds of a room: one entry for each size that the rows name, with the
/// beds of all rows of that size added up.
pub open spec fn beds_of(rows: Seq<BedCountInputView>) -> Seq<Bed> {
    Seq::new(
        sizes_used(rows).len(),
        |i: int|
            Bed {
                bed_size: sizes_used(rows)[i],
                count: as_count(total_beds(rows, sizes_used(rows)[i])),
            },
    )
}

/// The sizes used are exactly the sizes of the rows, and none is listed
/// twice.
pub proof fn lemma_sizes_used(rows: Seq<BedCountInputView>)
    ensures
        forall|i: int, j: int|
            0 <= i < j < sizes_used(rows).len() ==> sizes_used(rows)[i] != sizes_used(rows)[j],
        forall|size: BedSize|
            sizes_used(rows).contains(size) <==> exists|k: int|
                0 <= k < rows.len() && (#[trigger] rows[k]).bed_size == size,
    decreases rows.len(),
{
    if rows.len() > 0 {
        let earlier = rows.drop_last();
        let before = sizes_used(earlier);
        let last = rows.last().bed_size;
        lemma_sizes_used(earlier);
        assert forall|size: BedSize| sizes_used(rows).contains(size) <==> exists|k: int|
            0 <= k < rows.len() && (#[trigger] rows[k]).bed_size == size by {
            if sizes_used(rows).contains(size) {
                if before.contains(size) {
                    let k = choose|k: int|
                        0 <= k < earlier.len() && (#[trigger] earlier[k]).bed_size == size;
                } else {
                    let i = choose|i: int|
                        0 <= i < sizes_used(rows).len() && sizes_used(rows)[i] == size;
                }
            }
            if exists|k: int| 0 <= k < rows.len() && (#[trigger] rows[k]).bed_size == size {
                let k = choose|k: int| 0 <= k < rows.len() && (#[trigger] rows[k]).bed_size == size;
                if k < rows.len() - 1 {
                    assert(earlier[k].bed_size == size);
                    assert(before.contains(size));
                    let i = choose|i: int| 0 <= i < before.len() && before[i] == size;
                    assert(sizes_used(rows)[i] == size);
                } else {
                    if before.contains(last) {
                    } else {
                        assert(sizes_used(rows)[before.len() as int] == last);
                    }
                }
            }
        }
    }
}

/// Every bed of a room stands for one size that the rows name, and for the
/// beds of all rows of that size together; no size has two entries.
pub proof fn lemma_beds_of(rows: Seq<BedCountInputView>)
    ensures
        forall|i: int, j: int|
            0 <= i < j < beds_of(rows).len() ==> beds_of(rows)[i].bed_size != beds_of(
                rows,
            )[j].bed_size,
        forall|i: int|
            0 <= i < beds_of(rows).len() ==> (#[trigger] beds_of(rows)[i]).count == as_count(
                total_beds(rows, beds_of(rows)[i].bed_size),
            ),
        forall|k: int|
            0 <= k < rows.len() ==> exists|i: int|
                0 <= i < beds_of(rows).len() && beds_of(rows)[i].bed_size == (
                #[trigger] rows[k]).bed_size,
{
    lemma_sizes_used(rows);
    assert forall|k: int| 0 <= k < rows.len() implies exists|i: int|
        0 <= i < beds_of(rows).len() && beds_of(rows)[i].bed_size == (
        #[trigger] rows[k]).bed_size by {
        assert(sizes_used(rows).contains(rows[k].bed_size));
        let i = choose|i: int|
            0 <= i < sizes_used(rows).len() && sizes_used(rows)[i] == rows[k].bed_size;
        assert(beds_of(rows)[i].bed_size == rows[k].bed_size);
    }
}

/// The rows of the form in the order of their ids, and the id that the next
/// row gets. No two rows have the same id. The rows stand in a vector, so
/// that a row can be changed where it stands and the beds are added up in
/// the order of the rows; that the vector is in the order of the ids, each
/// id once, is the invariant of the type.
pub struct BedCountInputs {
    id_counter: u64,
    rows: Vec<BedCountInput>,
}

pub struct BedCountInputsView {
    pub id_counter: u64,
    pub rows: Seq<BedCountInputView>,
}

impl View for BedCountInputs {
    type V = BedCountInputsView;

    closed spec fn view(&self) -> BedCountInputsView {
        BedCountInputsView { id_counter: self.id_counter, rows: rows_view(self.rows@) }
    }
}

pub struct AddRoomScreen {
    price: NumberTextBox,
    floor: NumberTextBox,
    room_number: RoomNumberTextBox,
    bathroom_type_combo_box: BathroomTypeComboBox,
    bed_count_inputs: BedCountInputs,
    error: String,
}

pub struct AddRoomScreenView {
    pub id_counter: u64,
    pub price: RegexTextBoxView,
    pub floor: RegexTextBoxView,
    pub room_number: RegexTextBoxView,
    pub bathroom_type: BathroomType,
    pub bed_count_inputs: Seq<BedCountInputView>,
    pub error: Seq<char>,
}

/// The view of a checked form.
pub open spec fn input_result(r: Result<AddRoomInput, String>) -> Result<
    AddRoomInputView,
    Seq<char>,
> {
    match r {
        Ok(i) => Ok(i@),
        Err(e) => Err(e@),
    }
}

impl AddRoomScreenView {
    /// The form as it is first shown.
    pub open spec fn initial() -> AddRoomScreenView {
        AddRoomScreenView {
            id_counter: 0,
            price: RegexTextBoxView {
                text: Seq::empty(),
                max_length: PRICE_MAX_LENGTH as nat,
                pattern: PRICE_PATTERN@,
            },
            floor: RegexTextBoxView {
                text: Seq::empty(),
                max_length: FLOOR_MAX_LENGTH as nat,
                pattern: POSITIVE_INTEGER_PATTERN@,
            },
            room_number: RegexTextBoxView {
                text: Seq::empty(),
                max_length: ROOM_NUMBER_MAX_LENGTH as nat,
                pattern: ROOM_NUMBER_PATTERN@,
            },
            bathroom_type: BathroomType::Private,
            bed_count_inputs: Seq::empty(),
            error: Seq::empty(),
        }
    }

    /// The rows stand in the order of their ids, below the next id to give.
    pub open spec fn wf(self) -> bool {
        rows_in_order(self.bed_count_inputs, self.id_counter)
    }

    /// What the form sends, or the first complaint about it: the price comes
    /// first, then the floor, the room number and the beds.
    pub open spec fn input(self) -> Result<AddRoomInputView, Seq<char>> {
        if self.price.text.len() == 0 {
            Err("Enter price"@)
        } else if price_of(self.price.text) is None {
            Err("Invalid price"@)
        } else if self.floor.text.len() == 0 {
            Err("Enter floor"@)
        } else if numeral_i16(self.floor.text) is None {
            // A floor that is no number is complained of in the words used
            // for the price.
            Err("Invalid price"@)
        } else if self.room_number.text.len() == 0 {
            Err("Enter room number"@)
        } else if self.bed_count_inputs.len() == 0 {
            Err("Add beds"@)
        } else {
            Ok(
                AddRoomInputView {
                    beds: beds_of(self.bed_count_inputs),
                    price: price_of(self.price.text)->0,
                    floor: numeral_i16(self.floor.text)->0,
                    room_number: self.room_number.text,
                    bathroom_type: self.bathroom_type,
                },
            )
        }
    }

    /// The form after its rows, the texts of its fields and the complaint
    /// have been taken away. The kind of bathroom stays as it is.
    pub open spec fn clear_inputs(self) -> AddRoomScreenView {
        AddRoomScreenView {
            bed_count_inputs: Seq::empty(),
            price: self.price.clear(),
            room_number: self.room_number.clear(),
            floor: self.floor.clear(),
            error: Seq::empty(),
            ..self
        }
    }

    /// The rows of the form with the id that the next row gets.
    pub open spec fn rows(self) -> BedCountInputsView {
        BedCountInputsView { id_counter: self.id_counter, rows: self.bed_count_inputs }
    }

    /// The form with the size of the row `input_id` changed, if there is
    /// such a row.
    pub open spec fn change_bed_size(self, bed_size: BedSize, input_id: u64) -> AddRoomScreenView {
        AddRoomScreenView {
            bed_count_inputs: self.rows().change_bed_size(bed_size, input_id),
            ..self
        }
    }

    /// The form with `count` offered to the row `input_id`, if there is such
    /// a row.
    pub open spec fn change_bed_count(self, count: Seq<char>, input_id: u64) -> AddRoomScreenView {
        AddRoomScreenView {
            bed_count_inputs: self.rows().change_bed_count(count, input_id),
            ..self
        }
    }

    /// The form without the row `id`.
    pub open spec fn remove_bed_size_input(self, id: u64) -> AddRoomScreenView {
        AddRoomScreenView { bed_count_inputs: self.rows().remove(id), ..self }
    }

    /// The form with one more row, under the next id. Once the ids have run
    /// out no row is added.
    pub open spec fn add_bed_size_input(self) -> AddRoomScreenView {
        if self.id_counter < u64::MAX {
            AddRoomScreenView {
                bed_count_inputs: self.bed_count_inputs.push(
                    BedCountInputView::initial(self.id_counter),
                ),
                id_counter: (self.id_counter + 1) as u64,
                ..self
            }
        } else {
            self
        }
    }

    /// The form after a message of its own.
    pub open spec fn after(self, message: AddRoomMessage) -> AddRoomScreenView {
        match message {
            AddRoomMessage::ChangeRoomNumber(text) => AddRoomScreenView {
                room_number: self.room_number.update_uppercased(text@),
                ..self
            },
            AddRoomMessage::ChangeFloor(text) => AddRoomScreenView {
                floor: self.floor.update(text@),
                ..self
            },
            AddRoomMessage::ChagePrice(text) => AddRoomScreenView {
                price: self.price.update(text@),
                ..self
            },
            AddRoomMessage::ChangeBathroomType(bathroom_type) => AddRoomScreenView {
                bathroom_type,
                ..self
            },
            AddRoomMessage::ChangeBedSize { bed_size, input_id } => self.change_bed_size(
                bed_size,
                input_id,
            ),
            AddRoomMessage::ChangeBedCount { count, input_id } => self.change_bed_count(
                count@,
                input_id,
            ),
            AddRoomMessage::RemoveBedSizeInput(id) => self.remove_bed_size_input(id),
            AddRoomMessage::AddBedSizeInput => self.add_bed_size_input(),
            AddRoomMessage::AddRoom => self,
            AddRoomMessage::RoomAdded(_) => self.clear_inputs(),
            AddRoomMessage::ShowError(err) => AddRoomScreenView { error: err@, ..self },
        }
    }

    /// What a message of the form's own asks for: a form in order is sent, a
    /// complaint about the form comes back as a message, and a room added is
    /// announced.
    pub open spec fn asks(self, message: AddRoomMessage, token: Option<Seq<char>>) -> Seq<
        ActionView,
    > {
        match message {
            AddRoomMessage::AddRoom => match self.input() {
                Ok(input) => seq![ActionView::AddRoom { token, input }],
                Err(complaint) => seq![ActionView::ShowAddRoomError(complaint)],
            },
            AddRoomMessage::RoomAdded(_) => seq![
                ActionView::Notify {
                    message: "Room added"@,
                    notification_type: NotificationType::Success,
                },
            ],
            _ => nothing(),
        }
    }

    /// The form after any message, and what the message asks for.
    pub open spec fn step(self, message: AppMessage, global: GlobalStateView) -> (
        AddRoomScreenView,
        Seq<ActionView>,
    ) {
        match message {
            AppMessage::AddRoomMessage(m) => (self.after(m), self.asks(m, global.token_text())),
            _ => (self, nothing()),
        }
    }
}

impl View for AddRoomScreen {
    type V = AddRoomScreenView;

    closed spec fn view(&self) -> AddRoomScreenView {
        AddRoomScreenView {
            id_counter: self.bed_count_inputs@.id_counter,
            price: self.price@,
            floor: self.floor@,
            room_number: self.room_number@,
            bathroom_type: self.bathroom_type_combo_box.selected(),
            bed_count_inputs: self.bed_count_inputs@.rows,
            error: self.error@,
        }
    }
}

/// The message for the outcome of adding a room.
pub fn map_add_room_result(result: Result<AddRoomResult, String>) -> (r: AppMessage)
    ensures
        match result {
            Ok(AddRoomResult::Added(id)) => r == AppMessage::AddRoomMessage(
                AddRoomMessage::RoomAdded(id),
            ),
            Ok(AddRoomResult::Forbidden) => r == AppMessage::TokenExpired,
            Ok(AddRoomResult::BadRequest(err)) => r == AppMessage::AddRoomMessage(
                AddRoomMessage::ShowError(err),
            ),
            Err(err) => r == AppMessage::AddRoomMessage(AddRoomMessage::ShowError(err)),
        },
{
    match result {
        Ok(AddRoomResult::Added(id)) => AppMessage::AddRoomMessage(AddRoomMessage::RoomAdded(id)),
        Ok(AddRoomResult::Forbidden) => AppMessage::TokenExpired,
        Ok(AddRoomResult::BadRequest(err)) => AppMessage::AddRoomMessage(
            AddRoomMessage::ShowError(err),
        ),
        Err(err) => AppMessage::AddRoomMessage(AddRoomMessage::ShowError(err)),
    }
}

/// Whether `size` is among `sizes`.
fn contains_size(sizes: &Vec<BedSize>, size: BedSize) -> (r: bool)
    ensures
        r == sizes@.contains(size),
{
    let mut i: usize = 0;
    while i < sizes.len()
        invariant
            i <= sizes@.len(),
            forall|j: int| 0 <= j < i ==> sizes@[j] != size,
        decreases sizes@.len() - i,
    {
        if sizes[i] == size {
            return true;
        }
        i = i + 1;
    }
    false
}

/// A total as a count of beds.
fn to_count(total: i128) -> (r: i16)
    ensures
        r == as_count(total as int),
{
    if total > 32767 {
        32767
    } else if total < -32768 {
        -32768
    } else {
        total as i16
    }
}

impl BedCountInputsView {
    /// The rows with the size of the row `input_id` changed, if there is
    /// such a row.
    pub open spec fn change_bed_size(self, bed_size: BedSize, input_id: u64) -> Seq<
        BedCountInputView,
    > {
        match row_position(self.rows, input_id, 0) {
            Some(i) => self.rows.update(i, BedCountInputView { bed_size, ..self.rows[i] }),
            None => self.rows,
        }
    }

    /// The rows with `count` offered to the row `input_id`, if there is
    /// such a row.
    pub open spec fn change_bed_count(self, count: Seq<char>, input_id: u64) -> Seq<
        BedCountInputView,
    > {
        match row_position(self.rows, input_id, 0) {
            Some(i) => self.rows.update(
                i,
                BedCountInputView { count: self.rows[i].count.update(count), ..self.rows[i] },
            ),
            None => self.rows,
        }
    }

    /// The rows without the row `id`.
    pub open spec fn remove(self, id: u64) -> Seq<BedCountInputView> {
        match row_position(self.rows, id, 0) {
            Some(i) => self.rows.remove(i),
            None => self.rows,
        }
    }
}

impl BedCountInputs {
    #[verifier::type_invariant]
    spec fn inv(&self) -> bool {
        rows_in_order(rows_view(self.rows@), self.id_counter)
    }

    /// No rows, and zero as the first id to give.
    pub fn new() -> (r: Self)
        ensures
            r@ == (BedCountInputsView { id_counter: 0, rows: Seq::empty() }),
    {
        let rows: Vec<BedCountInput> = Vec::new();
        assert(rows_view(rows@) =~= Seq::<BedCountInputView>::empty());
        Self { id_counter: 0, rows }
    }

    /// The rows, in the order of their ids.
    pub fn rows(&self) -> (r: &Vec<BedCountInput>)
        ensures
            rows_view(r@) == self@.rows,
            rows_in_order(self@.rows, self@.id_counter),
    {
        proof {
            use_type_invariant(self);
        }
        &self.rows
    }

    /// The position of the row with the given id.
    fn find_row(&self, id: u64) -> (r: Option<usize>)
        ensures
            match r {
                Some(i) => i < self.rows@.len() && row_position(self@.rows, id, 0) == Some(i as int),
                None => row_position(self@.rows, id, 0) is None,
            },
    {
        let ghost rows = rows_view(self.rows@);
        let mut i: usize = 0;
        while i < self.rows.len()
            invariant
                i <= self.rows@.len(),
                rows == rows_view(self.rows@),
                row_position(rows, id, 0) == row_position(rows, id, i as int),
            decreases self.rows@.len() - i,
        {
            if self.rows[i].id == id {
                return Some(i);
            }
            i = i + 1;
        }
        None
    }

    /// Takes the rows out, leaving none behind.
    fn take_rows(&mut self) -> (rows: Vec<BedCountInput>)
        ensures
            rows == old(self).rows,
            final(self).id_counter == old(self).id_counter,
            final(self).rows@.len() == 0,
            rows_in_order(rows_view(rows@), old(self).id_counter),
    {
        proof {
            use_type_invariant(&*self);
        }
        let mut rows: Vec<BedCountInput> = Vec::new();
        std::mem::swap(&mut self.rows, &mut rows);
        rows
    }

    /// Changes the size of the row `input_id`, if there is such a row.
    pub fn change_bed_size(&mut self, bed_size: BedSize, input_id: u64)
        ensures
            final(self)@.id_counter == old(self)@.id_counter,
            final(self)@.rows == old(self)@.change_bed_size(bed_size, input_id),
    {
        match self.find_row(input_id) {
            Some(i) => {
                let ghost before = rows_view(self.rows@);
                let mut rows = self.take_rows();
                let mut row = rows.remove(i);
                row.bed_size.update(bed_size);
                rows.insert(i, row);
                assert(rows_view(rows@) =~= before.update(
                    i as int,
                    BedCountInputView { bed_size, ..before[i as int] },
                ));
                self.rows = rows;
            },
            None => {},
        }
    }

    /// Offers `count` to the row `input_id`, if there is such a row.
    pub fn change_bed_count(&mut self, count: String, input_id: u64)
        ensures
            final(self)@.id_counter == old(self)@.id_counter,
            final(self)@.rows == old(self)@.change_bed_count(count@, input_id),
    {
        match self.find_row(input_id) {
            Some(i) => {
                let ghost before = rows_view(self.rows@);
                let mut rows = self.take_rows();
                let mut row = rows.remove(i);
                row.count.update(count);
                rows.insert(i, row);
                assert(rows_view(rows@) =~= before.update(
                    i as int,
                    BedCountInputView {
                        count: before[i as int].count.update(count@),
                        ..before[i as int]
                    },
                ));
                self.rows = rows;
            },
            None => {},
        }
    }

    /// Takes the row `id` away, if there is such a row.
    pub fn remove(&mut self, id: u64)
        ensures
            final(self)@.id_counter == old(self)@.id_counter,
            final(self)@.rows == old(self)@.remove(id),
    {
        match self.find_row(id) {
            Some(i) => {
                let ghost before = rows_view(self.rows@);
                let mut rows = self.take_rows();
                rows.remove(i);
                assert(rows_view(rows@) =~= before.remove(i as int));
                self.rows = rows;
            },
            None => {},
        }
    }

    /// Adds a row under the next id; none once the ids have run out.
    pub fn add(&mut self)
        ensures
            old(self)@.id_counter < u64::MAX ==> final(self)@.id_counter == old(self)@.id_counter
                + 1 && final(self)@.rows == old(self)@.rows.push(
                BedCountInputView::initial(old(self)@.id_counter),
            ),
            old(self)@.id_counter == u64::MAX ==> final(self)@ == old(self)@,
    {
        if self.id_counter < u64::MAX {
            let id: u64 = self.id_counter;
            let ghost before = rows_view(self.rows@);
            let mut rows = self.take_rows();
            rows.push(BedCountInput::new(id));
            assert(rows_view(rows@) =~= before.push(BedCountInputView::initial(id)));
            self.id_counter = id + 1;
            self.rows = rows;
        }
    }

    /// Takes all rows away. The ids given are not given again.
    pub fn clear(&mut self)
        ensures
            final(self)@.id_counter == old(self)@.id_counter,
            final(self)@.rows == Seq::<BedCountInputView>::empty(),
    {
        let _ = self.take_rows();
    }
}

impl AddRoomScreen {
    /// The form as it is first shown.
    pub fn new() -> (r: Self)
        ensures
            r@ == AddRoomScreenView::initial(),
            r@.wf(),
    {
        proof {
            reveal_strlit("");
            assert(""@ =~= Seq::<char>::empty());
        }
        Self {
            price: NumberTextBox::new("", PRICE_MAX_LENGTH, NumberType::Price),
            floor: NumberTextBox::new("", FLOOR_MAX_LENGTH, NumberType::PositiveInteger),
            room_number: RoomNumberTextBox::new(""),
            bathroom_type_combo_box: BathroomTypeComboBox::new(),
            bed_count_inputs: BedCountInputs::new(),
            error: String::new(),
        }
    }

    /// The beds of the room: the rows of one size added up.
    pub fn get_beds(&self) -> (r: Vec<Bed>)
        ensures
            r@ == beds_of(self@.bed_count_inputs),
    {
        let inputs = self.bed_count_inputs.rows();
        let ghost rows = rows_view(inputs@);
        let mut order: Vec<BedSize> = Vec::new();
        let mut single: i128 = 0;
        let mut small_double: i128 = 0;
        let mut double: i128 = 0;
        let mut king_size: i128 = 0;
        let mut i: usize = 0;
        while i < inputs.len()
            invariant
                i <= inputs@.len(),
                rows == rows_view(inputs@),
                order@ == sizes_used(rows.take(i as int)),
                single == total_beds(rows.take(i as int), BedSize::Single),
                small_double == total_beds(rows.take(i as int), BedSize::SmallDouble),
                double == total_beds(rows.take(i as int), BedSize::Double),
                king_size == total_beds(rows.take(i as int), BedSize::KingSize),
                -32768 * i <= single <= 32768 * i,
                -32768 * i <= small_double <= 32768 * i,
                -32768 * i <= double <= 32768 * i,
                -32768 * i <= king_size <= 32768 * i,
            decreases inputs@.len() - i,
        {
            let row = &inputs[i];
            assert(rows.take(i + 1).drop_last() =~= rows.take(i as int));
            let size = row.bed_size.get_selected();
            let beds: i128 = match parse_i16(row.count.get_text()) {
                Some(n) => n as i128,
                None => 0,
            };
            if !contains_size(&order, size) {
                order.push(size);
            }
            match size {
                BedSize::Single => {
                    single = single + beds;
                },
                BedSize::SmallDouble => {
                    small_double = small_double + beds;
                },
                BedSize::Double => {
                    double = double + beds;
                },
                BedSize::KingSize => {
                    king_size = king_size + beds;
                },
            }
            i = i + 1;
        }
        assert(rows.take(i as int) =~= rows);
        let mut beds: Vec<Bed> = Vec::new();
        let mut k: usize = 0;
        while k < order.len()
            invariant
                k <= order@.len(),
                order@ == sizes_used(rows),
                single == total_beds(rows, BedSize::Single),
                small_double == total_beds(rows, BedSize::SmallDouble),
                double == total_beds(rows, BedSize::Double),
                king_size == total_beds(rows, BedSize::KingSize),
                beds@ == beds_of(rows).take(k as int),
            decreases order@.len() - k,
        {
            let size = order[k];
            let total: i128 = match size {
                BedSize::Single => single,
                BedSize::SmallDouble => small_double,
                BedSize::Double => double,
                BedSize::KingSize => king_size,
            };
            beds.push(Bed { bed_size: size, count: to_count(total) });
            k = k + 1;
        }
        beds
    }

    /// What the form sends, or the first complaint about it.
    pub fn get_input(&self) -> (r: Result<AddRoomInput, String>)
        ensures
            input_result(r) == self@.input(),
    {
        if self.price.get_text().is_empty() {
            return Err("Enter price".to_owned());
        }
        let price = match parse_price(self.price.get_text()) {
            Some(price) => price,
            None => {
                return Err("Invalid price".to_owned());
            },
        };
        if self.floor.get_text().is_empty() {
            return Err("Enter floor".to_owned());
        }
        let floor = match parse_i16(self.floor.get_text()) {
            Some(floor) => floor,
            None => {
                return Err("Invalid price".to_owned());
            },
        };
        if self.room_number.get_text().is_empty() {
            return Err("Enter room number".to_owned());
        }
        let room_number = self.room_number.get_text().to_owned();
        if self.bed_count_inputs.rows().len() == 0 {
            return Err("Add beds".to_owned());
        }
        Ok(
            AddRoomInput {
                beds: self.get_beds(),
                price,
                floor,
                room_number,
                bathroom_type: self.bathroom_type_combo_box.get_selected(),
            },
        )
    }

    fn clear_inputs(&mut self)
        ensures
            final(self)@ == old(self)@.clear_inputs(),
    {
        self.bed_count_inputs.clear();
        self.price.clear();
        self.room_number.clear();
        self.floor.clear();
        self.error = String::new();
    }

    /// Takes a message and says what it asks for. `global_state` is read
    /// for the session's token.
    pub fn update(&mut self, message: AppMessage, global_state: &GlobalState) -> (actions: Vec<
        Action,
    >)
        ensures
            final(self)@ == old(self)@.step(message, global_state@).0,
            actions_view(actions@) == old(self)@.step(message, global_state@).1,
            final(self)@.wf(),
    {
        let actions = match message {
            AppMessage::AddRoomMessage(add_room_message) => match add_room_message {
                AddRoomMessage::ChangeRoomNumber(room_number) => {
                    self.room_number.update(room_number);
                    no_actions()
                },
                AddRoomMessage::ChangeFloor(floor) => {
                    self.floor.update(floor);
                    no_actions()
                },
                AddRoomMessage::ChagePrice(price) => {
                    self.price.update(price);
                    no_actions()
                },
                AddRoomMessage::ChangeBathroomType(bathroom_type) => {
                    self.bathroom_type_combo_box.update(bathroom_type);
                    no_actions()
                },
                AddRoomMessage::ChangeBedSize { bed_size, input_id } => {
                    self.bed_count_inputs.change_bed_size(bed_size, input_id);
                    no_actions()
                },
                AddRoomMessage::ChangeBedCount { count, input_id } => {
                    self.bed_count_inputs.change_bed_count(count, input_id);
                    no_actions()
                },
                AddRoomMessage::RemoveBedSizeInput(id) => {
                    self.bed_count_inputs.remove(id);
                    no_actions()
                },
                AddRoomMessage::AddBedSizeInput => {
                    self.bed_count_inputs.add();
                    no_actions()
                },
                AddRoomMessage::AddRoom => {
                    match self.get_input() {
                        Ok(input) => one_action(
                            Action::AddRoom { token: global_state.token_string(), input },
                        ),
                        Err(input_err) => one_action(Action::ShowAddRoomError(input_err)),
                    }
                },
                AddRoomMessage::RoomAdded(_uuid) => {
                    self.clear_inputs();
                    one_action(
                        Action::Notify {
                            message: "Room added".to_owned(),
                            notification_type: NotificationType::Success,
                        },
                    )
                },
                AddRoomMessage::ShowError(err) => {
                    self.error = err;
                    no_actions()
                },
            },
            _ => no_actions(),
        };
        let _ = self.bed_count_inputs.rows();
        actions
    }

    /// The complaint shown on the form.
    pub fn error(&self) -> (r: &str)
        ensures
            r@ == self@.error,
    {
        self.error.as_str()
    }

    pub fn price(&self) -> (r: &NumberTextBox)
        ensures
            r@ == self@.price,
    {
        &self.price
    }

    pub fn floor(&self) -> (r: &NumberTextBox)
        ensures
            r@ == self@.floor,
    {
        &self.floor
    }

    pub fn room_number(&self) -> (r: &RoomNumberTextBox)
        ensures
            r@ == self@.room_number,
    {
        &self.room_number
    }

    pub fn bathroom_type_combo_box(&self) -> (r: &BathroomTypeComboBox)
        ensures
            r.selected() == self@.bathroom_type,
    {
        &self.bathroom_type_combo_box
    }

    /// The rows of the form, in the order of their ids.
    pub fn bed_count_inputs(&self) -> (r: &Vec<BedCountInput>)
        ensures
            rows_view(r@) == self@.bed_count_inputs,
    {
        self.bed_count_inputs.rows()
    }
}

} // verus!
