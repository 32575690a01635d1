//! Incremental changes to an ordered collection, as reported by a live view.

use vstd::prelude::*;

verus! {

/// One change to an ordered collection. Each variant carries exactly the
/// fields it needs; `Truncate` carries the new length, never a position.
pub enum VecDiff<T> {
    Append { values: Vec<T> },
    Clear,
    PushFront { value: T },
    PushBack { value: T },
    PopFront,
    PopBack,
    Insert { index: usize, value: T },
    SetAt { index: usize, value: T },
    Remove { index: usize },
    Truncate { length: usize },
    Reset { values: Vec<T> },
}

impl<T> VecDiff<T> {
    /// The numeric tag of the variant, in declaration order.
    pub open spec fn op_code(&self) -> u8 {
        match self {
            VecDiff::Append { .. } => 0,
            VecDiff::Clear => 1,
            VecDiff::PushFront { .. } => 2,
            VecDiff::PushBack { .. } => 3,
            VecDiff::PopFront => 4,
            VecDiff::PopBack => 5,
            VecDiff::Insert { .. } => 6,
            VecDiff::SetAt { .. } => 7,
            VecDiff::Remove { .. } => 8,
            VecDiff::Truncate { .. } => 9,
            VecDiff::Reset { .. } => 10,
        }
    }

    /// The integer field of the variants that have one: a position for
    /// `Insert`, `SetAt` and `Remove`, the new length for `Truncate`.
    pub open spec fn index_field(&self) -> Option<usize> {
        match self {
            VecDiff::Insert { index, .. } => Some(*index),
            VecDiff::SetAt { index, .. } => Some(*index),
            VecDiff::Remove { index } => Some(*index),
            VecDiff::Truncate { length } => Some(*length),
            _ => None,
        }
    }

    /// The single element carried by `Insert`, `SetAt`, `PushFront` and `PushBack`.
    pub open spec fn item_field(&self) -> Option<T> {
        match self {
            VecDiff::Insert { value, .. } => Some(*value),
            VecDiff::SetAt { value, .. } => Some(*value),
            VecDiff::PushFront { value } => Some(*value),
            VecDiff::PushBack { value } => Some(*value),
            _ => None,
        }
    }

    /// The elements carried by `Append` and `Reset`.
    pub open spec fn items_field(&self) -> Option<Seq<T>> {
        match self {
            VecDiff::Append { values } => Some(values@),
            VecDiff::Reset { values } => Some(values@),
            _ => None,
        }
    }

    /// Whether the diff can be applied to a collection with `len` elements.
    pub open spec fn applies_to_len(&self, len: nat) -> bool {
        match self {
            VecDiff::PopFront => len > 0,
            VecDiff::PopBack => len > 0,
            VecDiff::Insert { index, .. } => *index <= len,
            VecDiff::SetAt { index, .. } => *index < len,
            VecDiff::Remove { index } => *index < len,
            VecDiff::Truncate { length } => *length <= len,
            _ => true,
        }
    }

    /// The collection that results from applying the diff to `items`.
    pub open spec fn applied(&self, items: Seq<T>) -> Seq<T> {
        match self {
            VecDiff::Append { values } => items + values@,
            VecDiff::Clear => Seq::empty(),
            VecDiff::PushFront { value } => seq![*value] + items,
            VecDiff::PushBack { value } => items.push(*value),
            VecDiff::PopFront => items.drop_first(),
            VecDiff::PopBack => items.drop_last(),
            VecDiff::Insert { index, value } => items.insert(*index as int, *value),
            VecDiff::SetAt { index, value } => items.update(*index as int, *value),
            VecDiff::Remove { index } => items.remove(*index as int),
            VecDiff::Truncate { length } => items.take(*length as int),
            VecDiff::Reset { values } => values@,
        }
    }

    /// The numeric tag of the variant: 0 `Append`, 1 `Clear`, 2 `PushFront`,
    /// 3 `PushBack`, 4 `PopFront`, 5 `PopBack`, 6 `Insert`, 7 `SetAt`,
    /// 8 `Remove`, 9 `Truncate`, 10 `Reset`.
    pub fn op(&self) -> (r: u8)
        ensures
            r == self.op_code(),
            r <= 10,
    {
        match self {
            VecDiff::Append { .. } => 0,
            VecDiff::Clear => 1,
            VecDiff::PushFront { .. } => 2,
            VecDiff::PushBack { .. } => 3,
            VecDiff::PopFront => 4,
            VecDiff::PopBack => 5,
            VecDiff::Insert { .. } => 6,
            VecDiff::SetAt { .. } => 7,
            VecDiff::Remove { .. } => 8,
            VecDiff::Truncate { .. } => 9,
            VecDiff::Reset { .. } => 10,
        }
    }

    /// The integer field: a position, or for `Truncate` the new length.
    pub fn index(&self) -> (r: usize)
        requires
            self.index_field() is Some,
        ensures
            self.index_field() == Some(r),
    {
        match self {
            VecDiff::Insert { index, .. } => *index,
            VecDiff::SetAt { index, .. } => *index,
            VecDiff::Remove { index } => *index,
            VecDiff::Truncate { length } => *length,
            _ => unreached(),
        }
    }

    /// The single element carried by the diff.
    pub fn item(&self) -> (r: &T)
        requires
            self.item_field() is Some,
        ensures
            self.item_field() == Some(*r),
    {
        match self {
            VecDiff::Insert { value, .. } => value,
            VecDiff::SetAt { value, .. } => value,
            VecDiff::PushFront { value } => value,
            VecDiff::PushBack { value } => value,
            _ => unreached(),
        }
    }

    /// The elements carried by an `Append` or a `Reset`.
    pub fn items_vec(&self) -> (r: &Vec<T>)
        requires
            self.items_field() is Some,
        ensures
            self.items_field() == Some(r@),
    {
        match self {
            VecDiff::Append { values } => values,
            VecDiff::Reset { values } => values,
            _ => unreached(),
        }
    }
}

/// The integer field of a `Truncate` is the length of the collection after
/// it, not the position of an element: applying it keeps exactly the
/// elements before that length.
pub proof fn lemma_truncate_field_is_length<T>(d: VecDiff<T>, items: Seq<T>)
    requires
        d is Truncate,
        d.applies_to_len(items.len()),
    ensures
        d.index_field() is Some,
        d.applied(items).len() == d.index_field().unwrap(),
        forall|i: int|
            0 <= i < d.index_field().unwrap() ==> #[trigger] d.applied(items)[i] == items[i],
{
}

} // verus!
