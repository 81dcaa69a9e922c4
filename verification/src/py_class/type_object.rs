//! Slot tables: complete records made from sparse lists of named slots.

use vstd::prelude::*;

verus! {

/// The names of the slots of one record.  Every name has a fixed position in
/// the record, and no two names share one.
pub trait SlotName: Sized {
    /// The number of fields of the record.
    spec fn width() -> nat;

    /// The position of the field that the name stands for.
    spec fn position(self) -> nat;

    /// The number of fields of the record.
    fn count() -> (n: usize)
        ensures
            n == Self::width(),
    ;

    /// The position of the field that the name stands for.
    fn index(&self) -> (i: usize)
        ensures
            i == self.position(),
            i < Self::width(),
    ;

    /// Two names with one position are one name.
    proof fn lemma_position_names(a: Self, b: Self)
        requires
            a.position() == b.position(),
        ensures
            a == b,
    ;
}

/// A slot of the type record itself.
#[derive(Clone, Copy, Debug, PartialEq, Eq, Structural)]
pub enum TypeSlot {
    /// `tp_dealloc`
    TpDealloc,
    /// `tp_repr`
    TpRepr,
    /// `tp_hash`
    TpHash,
    /// `tp_call`
    TpCall,
    /// `tp_str`
    TpStr,
    /// `tp_traverse`
    TpTraverse,
    /// `tp_clear`
    TpClear,
    /// `tp_richcompare`
    TpRichcompare,
    /// `tp_iter`
    TpIter,
    /// `tp_iternext`
    TpIternext,
    /// `tp_new`
    TpNew,
}

impl SlotName for TypeSlot {
    open spec fn width() -> nat {
        11
    }

    open spec fn position(self) -> nat {
        match self {
            TypeSlot::TpDealloc => 0,
            TypeSlot::TpRepr => 1,
            TypeSlot::TpHash => 2,
            TypeSlot::TpCall => 3,
            TypeSlot::TpStr => 4,
            TypeSlot::TpTraverse => 5,
            TypeSlot::TpClear => 6,
            TypeSlot::TpRichcompare => 7,
            TypeSlot::TpIter => 8,
            TypeSlot::TpIternext => 9,
            TypeSlot::TpNew => 10,
        }
    }

    fn count() -> (n: usize) {
        11
    }

    fn index(&self) -> (i: usize) {
        match self {
            TypeSlot::TpDealloc => 0,
            TypeSlot::TpRepr => 1,
            TypeSlot::TpHash => 2,
            TypeSlot::TpCall => 3,
            TypeSlot::TpStr => 4,
            TypeSlot::TpTraverse => 5,
            TypeSlot::TpClear => 6,
            TypeSlot::TpRichcompare => 7,
            TypeSlot::TpIter => 8,
            TypeSlot::TpIternext => 9,
            TypeSlot::TpNew => 10,
        }
    }

    proof fn lemma_position_names(a: Self, b: Self) {
    }
}

/// A slot of the async protocol.
#[derive(Clone, Copy, Debug, PartialEq, Eq, Structural)]
pub enum AsyncSlot {
    /// `am_await`
    AmAwait,
    /// `am_aiter`
    AmAiter,
    /// `am_anext`
    AmAnext,
}

impl SlotName for AsyncSlot {
    open spec fn width() -> nat {
        3
    }

    open spec fn position(self) -> nat {
        match self {
            AsyncSlot::AmAwait => 0,
            AsyncSlot::AmAiter => 1,
            AsyncSlot::AmAnext => 2,
        }
    }

    fn count() -> (n: usize) {
        3
    }

    fn index(&self) -> (i: usize) {
        match self {
            AsyncSlot::AmAwait => 0,
            AsyncSlot::AmAiter => 1,
            AsyncSlot::AmAnext => 2,
        }
    }

    proof fn lemma_position_names(a: Self, b: Self) {
    }
}

/// A slot of the number protocol.
#[derive(Clone, Copy, Debug, PartialEq, Eq, Structural)]
pub enum NumberSlot {
    /// `nb_add`
    NbAdd,
    /// `nb_subtract`
    NbSubtract,
    /// `nb_multiply`
    NbMultiply,
    /// `nb_negative`
    NbNegative,
    /// `nb_positive`
    NbPositive,
    /// `nb_absolute`
    NbAbsolute,
    /// `nb_bool`
    NbBool,
    /// `nb_invert`
    NbInvert,
    /// `nb_lshift`
    NbLshift,
    /// `nb_rshift`
    NbRshift,
    /// `nb_and`
    NbAnd,
    /// `nb_xor`
    NbXor,
    /// `nb_or`
    NbOr,
}

impl SlotName for NumberSlot {
    open spec fn width() -> nat {
        13
    }

    open spec fn position(self) -> nat {
        match self {
            NumberSlot::NbAdd => 0,
            NumberSlot::NbSubtract => 1,
            NumberSlot::NbMultiply => 2,
            NumberSlot::NbNegative => 3,
            NumberSlot::NbPositive => 4,
            NumberSlot::NbAbsolute => 5,
            NumberSlot::NbBool => 6,
            NumberSlot::NbInvert => 7,
            NumberSlot::NbLshift => 8,
            NumberSlot::NbRshift => 9,
            NumberSlot::NbAnd => 10,
            NumberSlot::NbXor => 11,
            NumberSlot::NbOr => 12,
        }
    }

    fn count() -> (n: usize) {
        13
    }

    fn index(&self) -> (i: usize) {
        match self {
            NumberSlot::NbAdd => 0,
            NumberSlot::NbSubtract => 1,
            NumberSlot::NbMultiply => 2,
            NumberSlot::NbNegative => 3,
            NumberSlot::NbPositive => 4,
            NumberSlot::NbAbsolute => 5,
            NumberSlot::NbBool => 6,
            NumberSlot::NbInvert => 7,
            NumberSlot::NbLshift => 8,
            NumberSlot::NbRshift => 9,
            NumberSlot::NbAnd => 10,
            NumberSlot::NbXor => 11,
            NumberSlot::NbOr => 12,
        }
    }

    proof fn lemma_position_names(a: Self, b: Self) {
    }
}

/// A slot of the sequence protocol.
#[derive(Clone, Copy, Debug, PartialEq, Eq, Structural)]
pub enum SequenceSlot {
    /// `sq_length`
    SqLength,
    /// `sq_item`
    SqItem,
    /// `sq_ass_item`
    SqAssItem,
    /// `sq_contains`
    SqContains,
}

impl SlotName for SequenceSlot {
    open spec fn width() -> nat {
        4
    }

    open spec fn position(self) -> nat {
        match self {
            SequenceSlot::SqLength => 0,
            SequenceSlot::SqItem => 1,
            SequenceSlot::SqAssItem => 2,
            SequenceSlot::SqContains => 3,
        }
    }

    fn count() -> (n: usize) {
        4
    }

    fn index(&self) -> (i: usize) {
        match self {
            SequenceSlot::SqLength => 0,
            SequenceSlot::SqItem => 1,
            SequenceSlot::SqAssItem => 2,
            SequenceSlot::SqContains => 3,
        }
    }

    proof fn lemma_position_names(a: Self, b: Self) {
    }
}

/// A slot of the mapping protocol.
#[derive(Clone, Copy, Debug, PartialEq, Eq, Structural)]
pub enum MappingSlot {
    /// `mp_length`
    MpLength,
    /// `mp_subscript`
    MpSubscript,
    /// `mp_ass_subscript`
    MpAssSubscript,
}

impl SlotName for MappingSlot {
    open spec fn width() -> nat {
        3
    }

    open spec fn position(self) -> nat {
        match self {
            MappingSlot::MpLength => 0,
            MappingSlot::MpSubscript => 1,
            MappingSlot::MpAssSubscript => 2,
        }
    }

    fn count() -> (n: usize) {
        3
    }

    fn index(&self) -> (i: usize) {
        match self {
            MappingSlot::MpLength => 0,
            MappingSlot::MpSubscript => 1,
            MappingSlot::MpAssSubscript => 2,
        }
    }

    proof fn lemma_position_names(a: Self, b: Self) {
    }
}

/// A slot of the buffer protocol.
#[derive(Clone, Copy, Debug, PartialEq, Eq, Structural)]
pub enum BufferSlot {
    /// `bf_getbuffer`
    BfGetbuffer,
    /// `bf_releasebuffer`
    BfReleasebuffer,
}

impl SlotName for BufferSlot {
    open spec fn width() -> nat {
        2
    }

    open spec fn position(self) -> nat {
        match self {
            BufferSlot::BfGetbuffer => 0,
            BufferSlot::BfReleasebuffer => 1,
        }
    }

    fn count() -> (n: usize) {
        2
    }

    fn index(&self) -> (i: usize) {
        match self {
            BufferSlot::BfGetbuffer => 0,
            BufferSlot::BfReleasebuffer => 1,
        }
    }

    proof fn lemma_position_names(a: Self, b: Self) {
    }
}

/// A slot of item assignment.
#[derive(Clone, Copy, Debug, PartialEq, Eq, Structural)]
pub enum ItemSlot {
    /// Assignment to an item
    SetItem,
    /// Deletion of an item
    DelItem,
}

impl SlotName for ItemSlot {
    open spec fn width() -> nat {
        2
    }

    open spec fn position(self) -> nat {
        match self {
            ItemSlot::SetItem => 0,
            ItemSlot::DelItem => 1,
        }
    }

    fn count() -> (n: usize) {
        2
    }

    fn index(&self) -> (i: usize) {
        match self {
            ItemSlot::SetItem => 0,
            ItemSlot::DelItem => 1,
        }
    }

    proof fn lemma_position_names(a: Self, b: Self) {
    }
}

/// The value that `pairs` give the field at `position`: that of the last pair
/// which names the field, and the null default if none does.
pub open spec fn slot_value<N: SlotName>(pairs: Seq<(N, usize)>, position: nat) -> usize
    decreases pairs.len(),
{
    if pairs.len() == 0 {
        0
    } else if pairs.last().0.position() == position {
        pairs.last().1
    } else {
        slot_value(pairs.drop_last(), position)
    }
}

/// The complete record that `pairs` stand for.
pub open spec fn merged<N: SlotName>(pairs: Seq<(N, usize)>) -> Seq<usize> {
    Seq::new(N::width(), |position: int| slot_value(pairs, position as nat))
}

/// Whether some pair names the field at `position`.
pub open spec fn names<N: SlotName>(pairs: Seq<(N, usize)>, position: nat) -> bool {
    exists|k: int| 0 <= k < pairs.len() && (#[trigger] pairs[k]).0.position() == position
}

/// Whether no field is named twice.
pub open spec fn distinct_names<N: SlotName>(pairs: Seq<(N, usize)>) -> bool {
    forall|j: int, k: int|
        0 <= j < k < pairs.len() ==> (#[trigger] pairs[j]).0.position() != (
        #[trigger] pairs[k]).0.position()
}

/// A field that no pair names holds the null default.
pub proof fn lemma_unnamed_slot_is_null<N: SlotName>(pairs: Seq<(N, usize)>, position: nat)
    requires
        !names(pairs, position),
    ensures
        slot_value(pairs, position) == 0,
    decreases pairs.len(),
{
    if pairs.len() > 0 {
        let k = pairs.len() - 1;
        assert(pairs[k].0.position() != position);
        assert forall|j: int| 0 <= j < pairs.drop_last().len() implies (
        #[trigger] pairs.drop_last()[j]).0.position() != position by {
            assert(pairs.drop_last()[j] == pairs[j]);
        }
        lemma_unnamed_slot_is_null(pairs.drop_last(), position);
    }
}

/// Where no field is named twice, every named field holds exactly the value
/// that was supplied with its name.
pub proof fn lemma_named_slot_keeps_value<N: SlotName>(pairs: Seq<(N, usize)>, k: int)
    requires
        distinct_names(pairs),
        0 <= k < pairs.len(),
    ensures
        slot_value(pairs, pairs[k].0.position()) == pairs[k].1,
    decreases pairs.len(),
{
    let last = pairs.len() - 1;
    if k < last {
        assert(pairs[k].0.position() != pairs[last].0.position());
        let front = pairs.drop_last();
        assert forall|i: int, j: int| 0 <= i < j < front.len() implies (
        #[trigger] front[i]).0.position() != (#[trigger] front[j]).0.position() by {
            assert(front[i] == pairs[i]);
            assert(front[j] == pairs[j]);
        }
        assert(front[k] == pairs[k]);
        lemma_named_slot_keeps_value(front, k);
    }
}

/// Where a field is named more than once, the last value supplied for it
/// stands.
pub proof fn lemma_last_value_stands<N: SlotName>(pairs: Seq<(N, usize)>, k: int)
    requires
        0 <= k < pairs.len(),
        forall|j: int| k < j < pairs.len() ==> (#[trigger] pairs[j]).0.position() != pairs[k].0.position(),
    ensures
        slot_value(pairs, pairs[k].0.position()) == pairs[k].1,
    decreases pairs.len(),
{
    let last = pairs.len() - 1;
    if k < last {
        assert(pairs[last].0.position() != pairs[k].0.position());
        let front = pairs.drop_last();
        assert(front[k] == pairs[k]);
        assert forall|j: int| k < j < front.len() implies (#[trigger] front[j]).0.position()
            != front[k].0.position() by {
            assert(front[j] == pairs[j]);
        }
        lemma_last_value_stands(front, k);
    }
}

/// Merges the named slots into a complete record: every named field takes
/// the value supplied for it, every other field the null default.  The
/// values themselves are carried over untouched.
pub fn merge_slots<N: SlotName>(pairs: &Vec<(N, usize)>) -> (table: Vec<usize>)
    ensures
        table@ == merged(pairs@),
{
    let width = N::count();
    let mut table: Vec<usize> = Vec::new();
    let mut position: usize = 0;
    while position < width
        invariant
            width == N::width(),
            position <= width,
            table@.len() == position,
            forall|i: int| 0 <= i < position ==> table@[i] == 0,
        decreases width - position,
    {
        table.push(0);
        position += 1;
    }
    let mut k: usize = 0;
    while k < pairs.len()
        invariant
            k <= pairs.len(),
            table@.len() == N::width(),
            forall|i: int|
                0 <= i < N::width() ==> table@[i] == slot_value(pairs@.take(k as int), i as nat),
        decreases pairs.len() - k,
    {
        let i = pairs[k].0.index();
        let value = pairs[k].1;
        proof {
            let before = pairs@.take(k as int);
            let after = pairs@.take(k + 1);
            assert(after.drop_last() =~= before);
            assert(after.last() == pairs@[k as int]);
        }
        table.set(i, value);
        k += 1;
    }
    proof {
        assert(pairs@.take(k as int) =~= pairs@);
        assert(table@ =~= merged(pairs@));
    }
    table
}

/// The sub-table that a protocol group stands for: none for an empty group,
/// which tells the runtime that the type does not implement the protocol,
/// and the merged record otherwise.
pub open spec fn protocol_table<N: SlotName>(pairs: Seq<(N, usize)>) -> Option<Seq<usize>> {
    if pairs.len() == 0 {
        None
    } else {
        Some(merged(pairs))
    }
}

/// What contracts say of an optional record.
pub open spec fn table_view(table: Option<Vec<usize>>) -> Option<Seq<usize>> {
    match table {
        Some(t) => Some(t@),
        None => None,
    }
}

/// Makes the sub-table of a protocol group.
pub fn protocol_group<N: SlotName>(pairs: &Vec<(N, usize)>) -> (table: Option<Vec<usize>>)
    ensures
        table_view(table) == protocol_table(pairs@),
{
    if pairs.len() == 0 {
        None
    } else {
        Some(merge_slots(pairs))
    }
}

/// Makes the number-protocol sub-table of a type.
pub fn py_class_as_number(pairs: &Vec<(NumberSlot, usize)>) -> (table: Option<Vec<usize>>)
    ensures
        table_view(table) == protocol_table(pairs@),
{
    protocol_group(pairs)
}

/// What contracts say of a type record.
pub struct TypeObjectView {
    pub name: Seq<char>,
    pub gc: bool,
    pub slots: Seq<usize>,
    pub as_async: Option<Seq<usize>>,
    pub as_number: Option<Seq<usize>>,
    pub as_sequence: Option<Seq<usize>>,
    pub as_mapping: Option<Seq<usize>>,
    pub as_buffer: Option<Seq<usize>>,
    pub setdelitem: Option<Seq<usize>>,
}

/// Whether an optional sub-table, where there is one, has `width` fields.
pub open spec fn table_has_width(table: Option<Seq<usize>>, width: nat) -> bool {
    table matches Some(t) ==> t.len() == width
}

impl TypeObjectView {
    /// Whether the record and every sub-table it has are complete: one field
    /// for every name of their group.
    pub open spec fn well_formed(self) -> bool {
        &&& self.slots.len() == TypeSlot::width()
        &&& table_has_width(self.as_async, AsyncSlot::width())
        &&& table_has_width(self.as_number, NumberSlot::width())
        &&& table_has_width(self.as_sequence, SequenceSlot::width())
        &&& table_has_width(self.as_mapping, MappingSlot::width())
        &&& table_has_width(self.as_buffer, BufferSlot::width())
        &&& table_has_width(self.setdelitem, ItemSlot::width())
    }
}

/// The complete slot record of a type.
#[derive(Debug, PartialEq, Eq)]
pub struct TypeObject {
    /// The class that the record belongs to.
    pub name: String,
    /// Whether instances take part in garbage collection.
    pub gc: bool,
    /// The type-level slots, one field per [`TypeSlot`].
    pub slots: Vec<usize>,
    /// The async-protocol sub-table, one field per [`AsyncSlot`].
    pub as_async: Option<Vec<usize>>,
    /// The number-protocol sub-table, one field per [`NumberSlot`].
    pub as_number: Option<Vec<usize>>,
    /// The sequence-protocol sub-table, one field per [`SequenceSlot`].
    pub as_sequence: Option<Vec<usize>>,
    /// The mapping-protocol sub-table, one field per [`MappingSlot`].
    pub as_mapping: Option<Vec<usize>>,
    /// The buffer-protocol sub-table, one field per [`BufferSlot`].
    pub as_buffer: Option<Vec<usize>>,
    /// The item-assignment sub-table, one field per [`ItemSlot`].
    pub setdelitem: Option<Vec<usize>>,
}

impl View for TypeObject {
    type V = TypeObjectView;

    open spec fn view(&self) -> TypeObjectView {
        TypeObjectView {
            name: self.name@,
            gc: self.gc,
            slots: self.slots@,
            as_async: table_view(self.as_async),
            as_number: table_view(self.as_number),
            as_sequence: table_view(self.as_sequence),
            as_mapping: table_view(self.as_mapping),
            as_buffer: table_view(self.as_buffer),
            setdelitem: table_view(self.setdelitem),
        }
    }
}

/// Reads the field that `name` stands for out of a record, if the record has
/// that field.
pub fn read_slot<N: SlotName>(table: &Vec<usize>, name: N) -> (value: Option<usize>)
    ensures
        value == (if name.position() < table@.len() {
            Some(table@[name.position() as int])
        } else {
            None
        }),
{
    let i = name.index();
    if i < table.len() {
        Some(table[i])
    } else {
        None
    }
}

/// Assembles the slot record of the class `class_name`: every named slot
/// takes the value supplied for it, every other field the null default, and
/// every protocol whose group is empty has no sub-table.
pub fn py_class_type_object_static_init(
    class_name: &str,
    gc: bool,
    type_slots: &Vec<(TypeSlot, usize)>,
    as_async: &Vec<(AsyncSlot, usize)>,
    as_number: &Vec<(NumberSlot, usize)>,
    as_sequence: &Vec<(SequenceSlot, usize)>,
    as_mapping: &Vec<(MappingSlot, usize)>,
    as_buffer: &Vec<(BufferSlot, usize)>,
    setdelitem: &Vec<(ItemSlot, usize)>,
) -> (t: TypeObject)
    ensures
        t@ == (TypeObjectView {
            name: class_name@,
            gc,
            slots: merged(type_slots@),
            as_async: protocol_table(as_async@),
            as_number: protocol_table(as_number@),
            as_sequence: protocol_table(as_sequence@),
            as_mapping: protocol_table(as_mapping@),
            as_buffer: protocol_table(as_buffer@),
            setdelitem: protocol_table(setdelitem@),
        }),
        t@.well_formed(),
{
    TypeObject {
        name: class_name.to_string(),
        gc,
        slots: merge_slots(type_slots),
        as_async: protocol_group(as_async),
        as_number: py_class_as_number(as_number),
        as_sequence: protocol_group(as_sequence),
        as_mapping: protocol_group(as_mapping),
        as_buffer: protocol_group(as_buffer),
        setdelitem: protocol_group(setdelitem),
    }
}

} // verus!
