//! Inventory slots and the search for a slot by the text of its label.
use vstd::prelude::*;

use crate::label::StyledText;
use crate::text::{contains_seq, contains_text};

verus! {

/// The item in a slot; it has a label only when it was given a custom name.
#[derive(Clone, Debug, PartialEq, Eq)]
pub struct ItemStack {
    pub custom_name: Option<StyledText>,
}

/// One place of an inventory, empty or holding an item.
#[derive(Clone, Debug, PartialEq, Eq)]
pub enum InventorySlot {
    Empty,
    Present(ItemStack),
}

/// The slot holds an item whose rendered label contains `needle`.
pub open spec fn slot_matches(slot: InventorySlot, needle: Seq<char>) -> bool {
    match slot {
        InventorySlot::Present(item) => match item.custom_name {
            Some(name) => contains_seq(name.plain(), needle),
            None => false,
        },
        InventorySlot::Empty => false,
    }
}

/// Whether one slot holds an item whose rendered label contains `needle`.
pub fn slot_label_contains(slot: &InventorySlot, needle: &str) -> (r: bool)
    ensures
        r == slot_matches(*slot, needle@),
{
    match slot {
        InventorySlot::Present(item) => match &item.custom_name {
            Some(name) => {
                let plain = name.render();
                contains_text(plain.as_str(), needle)
            },
            None => false,
        },
        InventorySlot::Empty => false,
    }
}

/// Scans the slots in order, skipping empty ones, and returns the index of
/// the first item whose rendered label contains `needle` (case-sensitive).
pub fn find_by_label_substring(slots: &Vec<InventorySlot>, needle: &str) -> (r: Option<usize>)
    ensures
        match r {
            Some(i) => {
                &&& i < slots@.len()
                &&& slot_matches(slots@[i as int], needle@)
                &&& forall|j: int| 0 <= j < i ==> !slot_matches(#[trigger] slots@[j], needle@)
            },
            None => forall|j: int| 0 <= j < slots@.len() ==> !slot_matches(#[trigger] slots@[j], needle@),
        },
        forall|j: int|
            0 <= j < slots@.len() && slot_matches(#[trigger] slots@[j], needle@) ==> r.is_some() && r.unwrap() <= j,
{
    let mut i: usize = 0;
    while i < slots.len()
        invariant
            0 <= i <= slots@.len(),
            forall|j: int| 0 <= j < i ==> !slot_matches(#[trigger] slots@[j], needle@),
        decreases slots@.len() - i,
    {
        if slot_label_contains(&slots[i], needle) {
            return Some(i);
        }
        i = i + 1;
    }
    None
}

} // verus!
