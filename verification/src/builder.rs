//! What an emitted builder does when it runs: slots that are filled one call
//! at a time, and an assembly that fails on the first required slot left
//! unset.

use vstd::prelude::*;
use crate::emit::{has_bulk_setter, missing_field_message, missing_message};
use crate::decl::same_text;
use crate::field::{Classification, Field};

verus! {

/// The kind of a slot, and with it the methods that fill it.
#[derive(Debug, Clone, Copy, PartialEq, Eq, Structural)]
pub enum SlotKind {
    /// Filled by a setter; assembly fails while it is unset.
    Required,
    /// Filled by a setter; may stay unset.
    Optional,
    /// Filled by an element method, and by a bulk setter where `bulk` is set.
    Repeatable { bulk: bool },
}

/// The storage of one field.
#[derive(Debug, PartialEq, Eq)]
pub struct Slot<V> {
    pub name: String,
    pub kind: SlotKind,
    /// What a setter stored, for a required or optional field.
    pub value: Option<V>,
    /// What was appended, in the order of the calls, for a repeatable field.
    pub items: Vec<V>,
}

/// The accumulator: one slot per field, in declaration order.
#[derive(Debug, PartialEq, Eq)]
pub struct Builder<V> {
    pub slots: Vec<Slot<V>>,
}

/// The failure of an assembly: a required field was never set.
#[derive(Debug, PartialEq, Eq)]
pub struct MissingFieldError {
    /// `missing required field: ` and the field's name.
    pub message: String,
}

/// What assembly hands out for one field.
#[derive(Debug, PartialEq, Eq)]
pub enum Assembled<V> {
    /// The value of a required field.
    Value(V),
    /// The value of an optional field, absent where it was never set.
    Maybe(Option<V>),
    /// The elements of a repeatable field.
    Items(Vec<V>),
}

/// The kind of the slot of a classified field.
pub open spec fn slot_kind(c: Classification) -> SlotKind {
    match c {
        Classification::Required { .. } => SlotKind::Required,
        Classification::Optional { .. } => SlotKind::Optional,
        Classification::Repeatable { name, element, .. } => SlotKind::Repeatable {
            bulk: has_bulk_setter(name, element),
        },
    }
}

/// Whether the slot stops assembly: it is required and unset.
pub open spec fn is_missing<V>(slot: Slot<V>) -> bool {
    slot.kind == SlotKind::Required && slot.value is None
}

/// Whether `i` is the position of the first slot that stops assembly.
pub open spec fn is_first_missing<V>(slots: Seq<Slot<V>>, i: int) -> bool {
    &&& 0 <= i < slots.len()
    &&& is_missing(slots[i])
    &&& forall|j: int| 0 <= j < i ==> !is_missing(#[trigger] slots[j])
}

/// Whether no slot stops assembly.
pub open spec fn none_missing<V>(slots: Seq<Slot<V>>) -> bool {
    forall|j: int| 0 <= j < slots.len() ==> !is_missing(#[trigger] slots[j])
}

/// Whether `out` is what assembly hands out for `slot`.
pub open spec fn is_assembled<V>(slot: Slot<V>, out: Assembled<V>) -> bool {
    match slot.kind {
        SlotKind::Required => slot.value is Some && out == Assembled::Value(slot.value->Some_0),
        SlotKind::Optional => out == Assembled::Maybe(slot.value),
        SlotKind::Repeatable { .. } => out == Assembled::Items(slot.items),
    }
}

impl<V> Builder<V> {
    /// The factory: one slot per field, in the order of the fields, every
    /// slot unset and every sequence empty.
    pub fn new(fields: &Vec<Field>) -> (r: Builder<V>)
        ensures
            r.slots@.len() == fields@.len(),
            forall|i: int|
                0 <= i < fields@.len() ==> {
                    &&& (#[trigger] r.slots@[i]).name@ == fields@[i]@.name()
                    &&& r.slots@[i].kind == slot_kind(fields@[i]@)
                    &&& r.slots@[i].value is None
                    &&& r.slots@[i].items@.len() == 0
                },
    {
        let mut slots: Vec<Slot<V>> = Vec::new();
        let mut i: usize = 0;
        while i < fields.len()
            invariant
                i <= fields@.len(),
                slots@.len() == i,
                forall|k: int|
                    0 <= k < i ==> {
                        &&& (#[trigger] slots@[k]).name@ == fields@[k]@.name()
                        &&& slots@[k].kind == slot_kind(fields@[k]@)
                        &&& slots@[k].value is None
                        &&& slots@[k].items@.len() == 0
                    },
            decreases fields@.len() - i,
        {
            let kind = match &fields[i] {
                Field::Required { .. } => SlotKind::Required,
                Field::Optional { .. } => SlotKind::Optional,
                Field::Repeatable { ident, each_ident, .. } => SlotKind::Repeatable {
                    bulk: !same_text(each_ident, ident),
                },
            };
            slots.push(
                Slot { name: fields[i].ident().clone(), kind, value: None, items: Vec::new() },
            );
            i = i + 1;
        }
        Builder { slots }
    }

    /// The setter of the field at position `i`: stores `v` as present. It
    /// exists for required and optional fields only; for any other position
    /// the answer is `false` and nothing changes.
    pub fn set(&mut self, i: usize, v: V) -> (r: bool)
        ensures
            r == (i < old(self).slots@.len() && !(old(self).slots@[i as int].kind is Repeatable)),
            !r ==> *final(self) == *old(self),
            r ==> {
                &&& final(self).slots@.len() == old(self).slots@.len()
                &&& forall|j: int|
                    0 <= j < old(self).slots@.len() && j != i ==> final(self).slots@[j] == old(
                        self,
                    ).slots@[j]
                &&& final(self).slots@[i as int].name == old(self).slots@[i as int].name
                &&& final(self).slots@[i as int].kind == old(self).slots@[i as int].kind
                &&& final(self).slots@[i as int].items == old(self).slots@[i as int].items
                &&& final(self).slots@[i as int].value == Some(v)
            },
    {
        if i >= self.slots.len() {
            return false;
        }
        match self.slots[i].kind {
            SlotKind::Repeatable { .. } => {
                return false;
            },
            _ => {},
        }
        let slot = self.slots.remove(i);
        self.slots.insert(
            i,
            Slot { name: slot.name, kind: slot.kind, value: Some(v), items: slot.items },
        );
        true
    }

    /// The element method of the field at position `i`: appends `v` after
    /// what the slot holds. It exists for repeatable fields only; for any
    /// other position the answer is `false` and nothing changes.
    pub fn push(&mut self, i: usize, v: V) -> (r: bool)
        ensures
            r == (i < old(self).slots@.len() && old(self).slots@[i as int].kind is Repeatable),
            !r ==> *final(self) == *old(self),
            r ==> {
                &&& final(self).slots@.len() == old(self).slots@.len()
                &&& forall|j: int|
                    0 <= j < old(self).slots@.len() && j != i ==> final(self).slots@[j] == old(
                        self,
                    ).slots@[j]
                &&& final(self).slots@[i as int].name == old(self).slots@[i as int].name
                &&& final(self).slots@[i as int].kind == old(self).slots@[i as int].kind
                &&& final(self).slots@[i as int].value == old(self).slots@[i as int].value
                &&& final(self).slots@[i as int].items@ == old(self).slots@[i as int].items@.push(v)
            },
    {
        if i >= self.slots.len() {
            return false;
        }
        match self.slots[i].kind {
            SlotKind::Repeatable { .. } => {},
            _ => {
                return false;
            },
        }
        let slot = self.slots.remove(i);
        let mut items = slot.items;
        items.push(v);
        self.slots.insert(i, Slot { name: slot.name, kind: slot.kind, value: slot.value, items });
        true
    }

    /// The bulk setter of the field at position `i`: replaces what the slot
    /// holds by `items`. It exists for repeatable fields whose element
    /// method has another name than the field; for any other position the
    /// answer is `false` and nothing changes.
    pub fn replace(&mut self, i: usize, items: Vec<V>) -> (r: bool)
        ensures
            r == (i < old(self).slots@.len() && old(self).slots@[i as int].kind
                == SlotKind::Repeatable { bulk: true }),
            !r ==> *final(self) == *old(self),
            r ==> {
                &&& final(self).slots@.len() == old(self).slots@.len()
                &&& forall|j: int|
                    0 <= j < old(self).slots@.len() && j != i ==> final(self).slots@[j] == old(
                        self,
                    ).slots@[j]
                &&& final(self).slots@[i as int].name == old(self).slots@[i as int].name
                &&& final(self).slots@[i as int].kind == old(self).slots@[i as int].kind
                &&& final(self).slots@[i as int].value == old(self).slots@[i as int].value
                &&& final(self).slots@[i as int].items == items
            },
    {
        if i >= self.slots.len() {
            return false;
        }
        match self.slots[i].kind {
            SlotKind::Repeatable { bulk } => {
                if !bulk {
                    return false;
                }
            },
            _ => {
                return false;
            },
        }
        let slot = self.slots.remove(i);
        self.slots.insert(i, Slot { name: slot.name, kind: slot.kind, value: slot.value, items });
        true
    }

    /// The position of the first required slot that is unset, if there is
    /// one.
    pub fn first_missing(&self) -> (r: Option<usize>)
        ensures
            match r {
                Some(i) => is_first_missing(self.slots@, i as int),
                None => none_missing(self.slots@),
            },
    {
        let mut i: usize = 0;
        while i < self.slots.len()
            invariant
                i <= self.slots@.len(),
                forall|j: int| 0 <= j < i ==> !is_missing(#[trigger] self.slots@[j]),
            decreases self.slots@.len() - i,
        {
            let unset = match self.slots[i].kind {
                SlotKind::Required => self.slots[i].value.is_none(),
                _ => false,
            };
            if unset {
                return Some(i);
            }
            i = i + 1;
        }
        None
    }

    /// The assembly. Where a required slot is unset, it fails with the
    /// message that names the first such slot in declaration order, and
    /// looks no further. Otherwise it hands out what each slot holds, in
    /// declaration order: an unset optional slot gives an absent value and a
    /// repeatable slot gives its elements in the order they were appended.
    pub fn build(self) -> (r: Result<Vec<Assembled<V>>, MissingFieldError>)
        ensures
            match r {
                Err(e) => exists|i: int|
                    is_first_missing(self.slots@, i) && e.message@ == missing_message(
                        (#[trigger] self.slots@[i]).name@,
                    ),
                Ok(values) => {
                    &&& none_missing(self.slots@)
                    &&& values@.len() == self.slots@.len()
                    &&& forall|i: int|
                        0 <= i < values@.len() ==> is_assembled(
                            self.slots@[i],
                            #[trigger] values@[i],
                        )
                },
            },
    {
        if let Some(i) = self.first_missing() {
            return Err(
                MissingFieldError { message: missing_field_message(self.slots[i].name.as_str()) },
            );
        }
        let ghost all = self.slots@;
        let mut slots = self.slots;
        let mut values: Vec<Assembled<V>> = Vec::new();
        assert(slots@ =~= all.skip(0));
        while slots.len() > 0
            invariant
                none_missing(all),
                values@.len() <= all.len(),
                slots@ == all.skip(values@.len() as int),
                forall|i: int|
                    0 <= i < values@.len() ==> is_assembled(all[i], #[trigger] values@[i]),
            decreases slots@.len(),
        {
            let ghost at = values@.len() as int;
            assert(slots@[0] == all[at]);
            assert(!is_missing(all[at]));
            let slot = slots.remove(0);
            assert(slots@ =~= all.skip(at + 1));
            let out = match slot.kind {
                SlotKind::Required => Assembled::Value(slot.value.unwrap()),
                SlotKind::Optional => Assembled::Maybe(slot.value),
                SlotKind::Repeatable { .. } => Assembled::Items(slot.items),
            };
            values.push(out);
        }
        Ok(values)
    }
}

/// An optional slot that was never set stops no assembly, and what is
/// handed out for it is the absent value.
pub proof fn unset_optional_is_absent<V>(slot: Slot<V>, out: Assembled<V>)
    requires
        slot.kind == SlotKind::Optional,
        slot.value is None,
        is_assembled(slot, out),
    ensures
        !is_missing(slot),
        out == Assembled::<V>::Maybe(None),
{
}

/// A slot stops assembly only if it is required and unset, and at most one
/// position is the first to do so.
pub proof fn first_missing_is_unique<V>(slots: Seq<Slot<V>>, i: int, j: int)
    requires
        is_first_missing(slots, i),
        is_first_missing(slots, j),
    ensures
        i == j,
        slots[i].kind == SlotKind::Required,
        slots[i].value is None,
{
    if i < j {
        assert(!is_missing(slots[i]));
    }
    if j < i {
        assert(!is_missing(slots[j]));
    }
}

/// The slot of a repeatable field has a bulk setter exactly if the field's
/// element method has another name than the field.
pub proof fn bulk_setter_needs_distinct_name(c: Classification)
    requires
        c is Repeatable,
    ensures
        slot_kind(c) == (SlotKind::Repeatable { bulk: c->element != c.name() }),
{
}

} // verus!
