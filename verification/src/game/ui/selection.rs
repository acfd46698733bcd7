//! Arbitrate user selection over a collection of UI entities
use vstd::prelude::*;

use hecs::Entity;

use crate::game::utility::controls::{Behaviour, Control, KeyEvents, control_active, is_control};
use crate::game::utility::text::{decimal_text, push_decimal};

verus! {

/// Index of the current selection
pub type SelectionIndex = usize;

/// The index that moving the selection by `delta` gives, as arithmetic on `i32`
/// computes it: `(index + delta + count) % count`, the remainder taking the sign of the
/// dividend, then converted to `usize`
pub open spec fn shifted_index(index: int, delta: int, count: int) -> int {
    let next = index + delta + count;
    let divisor = if count < 0 {
        -count
    } else {
        count
    };
    if next >= 0 {
        next % divisor
    } else {
        let r = (-next) % divisor;
        if r == 0 {
            0
        } else {
            usize::MAX + 1 - r
        }
    }
}

/// Whether moving a selection at `index` over `count` entries by `delta` stays within `i32`
/// arithmetic: the index and the count taken as `i32`, the sums do not overflow, and the
/// remainder is defined
pub open spec fn shift_fits(index: usize, delta: int, count: usize) -> bool {
    let i = (index as i32) as int;
    let n = (count as i32) as int;
    &&& i32::MIN <= i + delta <= i32::MAX
    &&& i32::MIN <= i + delta + n <= i32::MAX
    &&& n != 0
    &&& !(n == -1 && i + delta + n == i32::MIN)
}

/// A collection of entities that can be selected; there is always at least one
pub struct Selection {
    index: SelectionIndex,
    items: Vec<Entity>,
    cursor: Entity,
}

impl Selection {
    /// The selection holds at least one item
    #[verifier::type_invariant]
    closed spec fn has_items(self) -> bool {
        self.items@.len() > 0
    }

    /// The current selection index
    pub closed spec fn selected(self) -> int {
        self.index as int
    }

    /// The entities that can be selected
    pub closed spec fn entries(self) -> Seq<Entity> {
        self.items@
    }

    /// The cursor entity
    pub closed spec fn cursor_entity(self) -> Entity {
        self.cursor
    }

    /// Instantiate a new selection
    pub fn build(items: Vec<Entity>, cursor: Entity) -> (selection: Result<Self, String>)
        ensures
            items@.len() == 0 <==> selection is Err,
            selection matches Err(message) ==> message@ == "Items cannot be empty"@,
            selection matches Ok(s) ==> s.selected() == 0 && s.entries() == items@
                && s.cursor_entity() == cursor,
    {
        if items.len() == 0 {
            return Err(String::from_str("Items cannot be empty"));
        }
        Ok(Self { index: 0, items, cursor })
    }

    /// Set the default index of the selection
    pub fn with_default(self, index: SelectionIndex) -> (selection: Self)
        ensures
            selection.selected() == index,
            selection.entries() == self.entries(),
            selection.cursor_entity() == self.cursor_entity(),
    {
        let mut selection = self;
        proof {
            use_type_invariant(&selection);
        }
        selection.index = index;
        selection
    }

    /// Get the current selection index and entity
    pub fn get_selection(&self) -> (selected: (SelectionIndex, Entity))
        requires
            self.selected() < self.entries().len(),
        ensures
            selected.0 == self.selected(),
            selected.1 == self.entries()[self.selected()],
    {
        (self.index, self.items[self.index])
    }

    /// Get the cursor entity
    pub fn get_cursor(&self) -> (cursor: Entity)
        ensures
            cursor == self.cursor_entity(),
    {
        self.cursor
    }

    /// The current selection index and total items as text: `Selection i/n`, counting from one
    pub fn describe(&self) -> (text: String)
        requires
            self.selected() < usize::MAX,
        ensures
            text@ == "Selection "@ + decimal_text(self.selected() as nat + 1) + "/"@ + decimal_text(
                self.entries().len() as nat,
            ),
    {
        let mut text = String::from_str("Selection ");
        let count = self.items.len();
        let position = self.index + 1;
        push_decimal(&mut text, position as u64);
        text.append("/");
        push_decimal(&mut text, count as u64);
        text
    }

    /// Move the selection by `delta`, wrapping around the entries
    pub fn add_assign(&mut self, delta: i32)
        requires
            shift_fits(old(self).selected() as usize, delta as int, old(self).entries().len() as usize),
        ensures
            final(self).selected() == shifted_index(
                ((old(self).selected() as usize) as i32) as int,
                delta as int,
                ((old(self).entries().len() as usize) as i32) as int,
            ),
            final(self).entries() == old(self).entries(),
            final(self).cursor_entity() == old(self).cursor_entity(),
    {
        proof {
            use_type_invariant(&*self);
        }
        let count = (self.items.len() as i32) as i64;
        let next = (self.index as i32) as i64 + delta as i64 + count;
        let divisor = if count < 0 {
            -count
        } else {
            count
        };
        let index = if next >= 0 {
            (next % divisor) as usize
        } else {
            let r = ((-next) % divisor) as usize;
            if r == 0 {
                0
            } else {
                usize::MAX - r + 1
            }
        };
        self.index = index;
    }

    /// Move the selection back by `delta`, wrapping around the entries
    pub fn sub_assign(&mut self, delta: i32)
        requires
            delta != i32::MIN,
            shift_fits(old(self).selected() as usize, -delta, old(self).entries().len() as usize),
        ensures
            final(self).selected() == shifted_index(
                ((old(self).selected() as usize) as i32) as int,
                -delta,
                ((old(self).entries().len() as usize) as i32) as int,
            ),
            final(self).entries() == old(self).entries(),
            final(self).cursor_entity() == old(self).cursor_entity(),
    {
        self.add_assign(-delta);
    }
}

/// How far a menu selection moves: back one when up is pressed, forward one when down is
/// pressed, otherwise not at all
pub fn selection_delta(events: &KeyEvents) -> (delta: i32)
    ensures
        delta == (if control_active(*events, Control::Up, Behaviour::Pressed) {
            -1int
        } else if control_active(*events, Control::Down, Behaviour::Pressed) {
            1int
        } else {
            0int
        }),
{
    let up = is_control(Control::Up, Behaviour::Pressed, events);
    let down = is_control(Control::Down, Behaviour::Pressed, events);
    if up {
        -1
    } else if down {
        1
    } else {
        0
    }
}

/// Moving a selection that points at an entry keeps it pointing at an entry, as long as the
/// move is no more than one lap backwards
pub proof fn lemma_shift_stays_in_range(index: int, delta: int, count: int)
    requires
        0 < count,
        0 <= index < count,
        delta >= -count,
    ensures
        0 <= shifted_index(index, delta, count) < count,
{
}

/// Moving a selection forward by one and back by one returns it to the same entry
pub proof fn lemma_shift_undo(index: int, count: int)
    requires
        0 < count,
        0 <= index < count,
    ensures
        shifted_index(shifted_index(index, 1, count), -1, count) == index,
{
    let up = shifted_index(index, 1, count);
    assert(up == (index + 1 + count) % count);
    if index + 1 < count {
        assert((index + 1 + count) % count == index + 1) by (nonlinear_arith)
            requires
                0 <= index + 1 < count,
                0 < count,
        ;
    } else {
        assert((index + 1 + count) % count == 0) by (nonlinear_arith)
            requires
                index + 1 == count,
                0 < count,
        ;
    }
    assert((up - 1 + count) % count == index) by (nonlinear_arith)
        requires
            up == index + 1 || (up == 0 && index + 1 == count),
            0 <= index < count,
    ;
}

} // verus!
