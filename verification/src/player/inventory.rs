//! The pills that the player carries.

use vstd::prelude::*;
use crate::actions::BurstActions;
use crate::pill::Pill;

verus! {

/// A row of pills. One that was made empty and filled through `add_pill`
/// never holds more than its capacity.
#[derive(Clone, Debug, PartialEq)]
pub struct Inventory {
    pills: Vec<Pill>,
    capacity: usize,
}

/// An inventory, as numbers.
pub struct InventoryView {
    pub pills: Seq<Pill>,
    pub capacity: nat,
}

impl View for Inventory {
    type V = InventoryView;

    closed spec fn view(&self) -> InventoryView {
        InventoryView { pills: self.pills@, capacity: self.capacity as nat }
    }
}

impl InventoryView {
    /// The pills fit the capacity.
    pub open spec fn wf(self) -> bool {
        self.pills.len() <= self.capacity
    }

    /// The inventory after the pill in slot `index` was taken out, where
    /// there is one.
    pub open spec fn without(self, index: nat) -> InventoryView {
        if index < self.pills.len() {
            InventoryView { pills: self.pills.remove(index as int), ..self }
        } else {
            self
        }
    }

    /// The inventory after the pills that `actions` ask for were taken out,
    /// one after the other. A request for an empty slot takes nothing.
    pub open spec fn after_actions(self, actions: Seq<BurstActions>) -> InventoryView
        decreases actions.len(),
    {
        if actions.len() == 0 {
            self
        } else {
            let before = self.after_actions(actions.drop_last());
            match actions.last() {
                BurstActions::ConsumePill { index } => before.without(index as nat),
                BurstActions::Punch => before,
            }
        }
    }

    /// The pills that `actions` take out, in the order of the requests.
    pub open spec fn consumed_by(self, actions: Seq<BurstActions>) -> Seq<Pill>
        decreases actions.len(),
    {
        if actions.len() == 0 {
            Seq::empty()
        } else {
            let before = self.after_actions(actions.drop_last());
            let consumed = self.consumed_by(actions.drop_last());
            match actions.last() {
                BurstActions::ConsumePill { index } => if index < before.pills.len() {
                    consumed.push(before.pills[index as int])
                } else {
                    consumed
                },
                BurstActions::Punch => consumed,
            }
        }
    }
}

impl Inventory {
    /// An empty inventory for `capacity` pills.
    pub fn new(capacity: usize) -> (inventory: Inventory)
        ensures
            inventory@.pills.len() == 0,
            inventory@.capacity == capacity,
            inventory@.wf(),
    {
        Inventory { pills: Vec::with_capacity(capacity), capacity }
    }

    /// Puts a pill behind the others if there is room, and says whether
    /// there was.
    #[must_use]
    pub fn add_pill(&mut self, pill: Pill) -> (added: bool)
        ensures
            added == (old(self)@.pills.len() < old(self)@.capacity),
            final(self)@.capacity == old(self)@.capacity,
            final(self)@.pills == if added {
                old(self)@.pills.push(pill)
            } else {
                old(self)@.pills
            },
            old(self)@.wf() ==> final(self)@.wf(),
    {
        if self.pills.len() < self.capacity {
            self.pills.push(pill);
            true
        } else {
            false
        }
    }

    /// Takes the pill out of slot `index`; the pills behind it move up.
    pub fn remove_pill(&mut self, index: usize) -> (pill: Pill)
        requires
            index < old(self)@.pills.len(),
        ensures
            pill == old(self)@.pills[index as int],
            final(self)@ == old(self)@.without(index as nat),
            old(self)@.wf() ==> final(self)@.wf(),
    {
        self.pills.remove(index)
    }

    /// Takes the pill out of slot `index`, where there is one.
    pub fn consume_pill(&mut self, index: usize) -> (pill: Option<Pill>)
        ensures
            pill == if index < old(self)@.pills.len() {
                Some(old(self)@.pills[index as int])
            } else {
                None
            },
            final(self)@ == old(self)@.without(index as nat),
            old(self)@.wf() ==> final(self)@.wf(),
    {
        if index < self.pills.len() {
            Some(self.pills.remove(index))
        } else {
            None
        }
    }

    /// The pill in slot `index`, where there is one.
    pub fn get_pill(&self, index: usize) -> (pill: Option<&Pill>)
        ensures
            pill == if index < self@.pills.len() {
                Some(&self@.pills[index as int])
            } else {
                None
            },
    {
        if index < self.pills.len() {
            Some(&self.pills[index])
        } else {
            None
        }
    }

    /// All pills, first slot first.
    pub fn get_pills(&self) -> (pills: &[Pill])
        ensures
            pills@ == self@.pills,
    {
        self.pills.as_slice()
    }

    /// How many pills fit.
    pub fn get_capacity(&self) -> (capacity: usize)
        ensures
            capacity == self@.capacity,
    {
        self.capacity
    }

    /// How many pills there are.
    pub fn get_pill_count(&self) -> (count: usize)
        ensures
            count == self@.pills.len(),
    {
        self.pills.len()
    }
}

/// Takes out of the inventory the pills that `actions` ask for, one request
/// after the other, and hands them over in that order.
pub fn consume_pills(inventory: &mut Inventory, actions: &Vec<BurstActions>) -> (pills: Vec<Pill>)
    ensures
        final(inventory)@ == old(inventory)@.after_actions(actions@),
        pills@ == old(inventory)@.consumed_by(actions@),
        old(inventory)@.wf() ==> final(inventory)@.wf(),
{
    let mut pills: Vec<Pill> = Vec::new();
    let mut i: usize = 0;
    while i < actions.len()
        invariant
            i <= actions@.len(),
            inventory@ == old(inventory)@.after_actions(actions@.take(i as int)),
            pills@ == old(inventory)@.consumed_by(actions@.take(i as int)),
            old(inventory)@.wf() ==> inventory@.wf(),
        decreases actions@.len() - i,
    {
        proof {
            assert(actions@.take(i + 1).drop_last() =~= actions@.take(i as int));
            assert(actions@.take(i + 1).last() == actions@[i as int]);
        }
        match actions[i] {
            BurstActions::ConsumePill { index } => {
                match inventory.consume_pill(index) {
                    Some(pill) => {
                        pills.push(pill);
                    },
                    None => {},
                }
            },
            BurstActions::Punch => {},
        }
        i += 1;
    }
    proof {
        assert(actions@.take(actions@.len() as int) =~= actions@);
    }
    pills
}

} // verus!
