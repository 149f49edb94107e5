use crate::event::{Key, MenuEvent};
use crate::menu_item::{
    color_of, fires_action, decimal, item_after, item_effect, item_needs_value, ItemEffect, MenuItem, TextDraw,
};
use vstd::arithmetic::div_mod::{
    lemma_add_mod_noop_right, lemma_mod_add_multiples_vanish, lemma_mod_self_0, lemma_small_mod,
};
use vstd::prelude::*;

verus! {

/// Distance of the first line from the left edge of the screen.
pub const LEFT_MARGIN: i32 = 10;

/// Distance of the first line from the top edge of the screen.
pub const TOP_MARGIN: i32 = 10;

/// Vertical distance between two consecutive lines.
pub const ITEM_SPACE: i32 = 20;

/// What the embedding application must do to its settings after the menu
/// has seen an event; the index names the item whose binding is meant.
#[derive(Clone, Copy, Debug, PartialEq, Eq, Structural)]
pub enum MenuEffect {
    Nothing,
    /// Run the action of this item once.
    RunAction(usize),
    /// Store the value through the setter of this item.
    SetValue(usize, i64),
}

/// An item's effect, addressed to the item at `index`.
pub open spec fn at_index(index: usize, effect: ItemEffect) -> MenuEffect {
    match effect {
        ItemEffect::Nothing => MenuEffect::Nothing,
        ItemEffect::RunAction => MenuEffect::RunAction(index),
        ItemEffect::SetValue(v) => MenuEffect::SetValue(index, v),
    }
}

/// The selection after a press (if any) in a menu of `n` items: Up and Down
/// move one place round the ring, other keys leave it.
pub open spec fn navigate(selected: int, n: int, press: Option<Key>) -> int {
    if n == 0 {
        selected
    } else if press == Some(Key::Up) {
        (selected - 1) % n
    } else if press == Some(Key::Down) {
        (selected + 1) % n
    } else {
        selected
    }
}

/// One step round a ring of `n` places, in either direction.
proof fn lemma_ring_step(s: int, n: int)
    requires
        0 <= s < n,
    ensures
        (s - 1) % n == (if s == 0 {
            n - 1
        } else {
            s - 1
        }),
        (s + 1) % n == (if s + 1 == n {
            0
        } else {
            s + 1
        }),
{
    if s == 0 {
        lemma_mod_add_multiples_vanish(-1, n);
        lemma_small_mod((n - 1) as nat, n as nat);
    } else {
        lemma_small_mod((s - 1) as nat, n as nat);
    }
    if s + 1 == n {
        lemma_mod_self_0(n);
    } else {
        lemma_small_mod((s + 1) as nat, n as nat);
    }
}

/// The selection after `k` presses of the same key in a menu of `n` items.
pub open spec fn navigate_times(selected: int, n: int, press: Option<Key>, k: nat) -> int
    decreases k,
{
    if k == 0 {
        selected
    } else {
        navigate(navigate_times(selected, n, press, (k - 1) as nat), n, press)
    }
}

proof fn lemma_navigate_times(selected: int, n: int, key: Key, k: nat)
    requires
        0 <= selected < n,
    ensures
        key == Key::Down ==> navigate_times(selected, n, Some(key), k) == (selected + k) % n,
        key == Key::Up ==> navigate_times(selected, n, Some(key), k) == (selected - k) % n,
    decreases k,
{
    if k == 0 {
        lemma_small_mod(selected as nat, n as nat);
    } else {
        lemma_navigate_times(selected, n, key, (k - 1) as nat);
        lemma_add_mod_noop_right(1, selected + k - 1, n);
        lemma_add_mod_noop_right(-1, selected - k + 1, n);
    }
}

/// In a menu of `n` items, pressing Down `n` times, or Up `n` times, brings
/// the selection back to where it was.
pub proof fn lemma_full_ring(selected: int, n: int, key: Key)
    requires
        0 <= selected < n,
        key == Key::Up || key == Key::Down,
    ensures
        navigate_times(selected, n, Some(key), n as nat) == selected,
{
    lemma_navigate_times(selected, n, key, n as nat);
    lemma_small_mod(selected as nat, n as nat);
    if key == Key::Down {
        lemma_mod_add_multiples_vanish(selected, n);
    } else {
        lemma_mod_add_multiples_vanish(selected - n, n);
    }
}

/// Pressing Up on the first item selects the last one.
pub proof fn lemma_up_from_first(n: int)
    requires
        n > 0,
    ensures
        navigate(0, n, Some(Key::Up)) == n - 1,
{
    lemma_ring_step(0, n);
}

/// A press of any key but Up and Down, or no press at all, leaves the
/// selection where it is.
pub proof fn lemma_other_press_keeps(selected: int, n: int, press: Option<Key>)
    requires
        press != Some(Key::Up),
        press != Some(Key::Down),
    ensures
        navigate(selected, n, press) == selected,
{
}

/// When the selected item is an action, each press of Space, Left or Right
/// keeps the selection and runs that action once, whatever the settings hold;
/// the effect names no other item.
pub proof fn lemma_selected_action_runs(m: Menu, e: MenuEvent, current: int)
    requires
        m.wf(),
        m.items().len() > 0,
        m.items()[m.selected()] is ActionItem,
        fires_action(e.press),
    ensures
        navigate(m.selected(), m.items().len() as int, e.press) == m.selected(),
        at_index(m.selected() as usize, item_effect(m.items()[m.selected()], e, current))
            == MenuEffect::RunAction(m.selected() as usize),
{
}

/// The effect of the selected item is addressed to the selected item only.
pub proof fn lemma_effect_names_selected(s: usize, effect: ItemEffect)
    ensures
        at_index(s, effect) matches MenuEffect::RunAction(i) ==> i == s,
        at_index(s, effect) matches MenuEffect::SetValue(i, _) ==> i == s,
{
}

/// The vertical position of the line of item `index`.
pub open spec fn line_top(index: int) -> int {
    TOP_MARGIN + ITEM_SPACE * index
}

/// `line` is how item `index` of a menu whose selection is `selected` is
/// drawn, where `read` gives a slider's current value.
pub open spec fn drawn_as<F: Fn(usize) -> i64>(
    read: F,
    item: MenuItem,
    index: int,
    selected: int,
    line: TextDraw,
) -> bool {
    &&& line.position[0] == LEFT_MARGIN
    &&& line.position[1] == line_top(index)
    &&& line.color == color_of(index == selected)
    &&& match item {
        MenuItem::ActionItem(a) => line.text@ == a.label(),
        MenuItem::SliderItem(s) => exists|v: i64|
            #![trigger decimal(v as int)]
            read.ensures((index as usize,), v) && line.text@ == s.label() + seq![' '] + decimal(
                v as int,
            ),
    }
}

/// An in-application developer menu that responds to keyboard events and is
/// drawn as one line of text per item.
pub struct Menu {
    items: Vec<MenuItem>,
    selected_item: usize,
}

impl Menu {
    pub closed spec fn items(&self) -> Seq<MenuItem> {
        self.items@
    }

    pub closed spec fn selected(&self) -> int {
        self.selected_item as int
    }

    /// The selection is an index into the items (or 0 when there are none),
    /// and every item is well formed.
    pub open spec fn wf(&self) -> bool {
        &&& if self.items().len() == 0 {
            self.selected() == 0
        } else {
            0 <= self.selected() < self.items().len()
        }
        &&& forall|i: int| 0 <= i < self.items().len() ==> (#[trigger] self.items()[i]).wf()
    }

    /// An empty menu whose selection is 0.
    pub fn new() -> (r: Menu)
        ensures
            r.wf(),
            r.items() == Seq::<MenuItem>::empty(),
            r.selected() == 0,
    {
        Menu { items: Vec::new(), selected_item: 0 }
    }

    /// Appends `item` at the end; the selection stays.
    pub fn add_item(&mut self, item: MenuItem)
        requires
            old(self).wf(),
            item.wf(),
        ensures
            final(self).wf(),
            final(self).items() == old(self).items().push(item),
            final(self).selected() == old(self).selected(),
    {
        self.items.push(item);
    }

    /// The number of items.
    pub fn len(&self) -> (r: usize)
        ensures
            r == self.items().len(),
    {
        self.items.len()
    }

    /// The index of the selected item.
    pub fn selected_index(&self) -> (r: usize)
        ensures
            r == self.selected(),
    {
        self.selected_item
    }

    /// The selected item, if there is any.
    pub fn selected_item(&self) -> (r: Option<&MenuItem>)
        requires
            self.wf(),
        ensures
            self.items().len() == 0 ==> r is None,
            self.items().len() > 0 ==> r == Some(&self.items()[self.selected()]),
    {
        if self.items.len() == 0 {
            None
        } else {
            Some(&self.items[self.selected_item])
        }
    }

    /// The lines to draw, one per item in order: item `i` at
    /// (10, 10 + 20 * i), highlighted when selected. `read(i)` gives the
    /// current value of slider `i`'s setting and is called for sliders only.
    /// Neither the menu nor any setting changes.
    pub fn draw<F: Fn(usize) -> i64>(&self, read: F) -> (r: Vec<TextDraw>)
        requires
            self.wf(),
            forall|i: usize| read.requires((i,)),
            line_top(self.items().len() as int) <= i32::MAX,
        ensures
            r@.len() == self.items().len(),
            forall|i: int|
                0 <= i < r@.len() ==> drawn_as(
                    read,
                    self.items()[i],
                    i,
                    self.selected(),
                    #[trigger] r@[i],
                ),
    {
        let mut lines: Vec<TextDraw> = Vec::new();
        let n = self.items.len();
        let mut i: usize = 0;
        while i < n
            invariant
                n == self.items().len(),
                i <= n,
                line_top(n as int) <= i32::MAX,
                forall|k: usize| read.requires((k,)),
                lines@.len() == i,
                forall|k: int|
                    0 <= k < i ==> drawn_as(
                        read,
                        self.items()[k],
                        k,
                        self.selected(),
                        #[trigger] lines@[k],
                    ),
            decreases n - i,
        {
            let item = &self.items[i];
            let top: i32 = TOP_MARGIN + ITEM_SPACE * (i as i32);
            let value: i64 = if let MenuItem::SliderItem(_) = item {
                read(i)
            } else {
                0
            };
            let line = item.draw(value, [LEFT_MARGIN, top], i == self.selected_item);
            proof {
                if let MenuItem::SliderItem(s) = item {
                    assert(read.ensures((i,), value));
                    assert(line.text@ == s.label() + seq![' '] + decimal(value as int));
                }
            }
            lines.push(line);
            i = i + 1;
        }
        lines
    }

    /// Responds to an input event. A press of Up or Down first moves the
    /// selection one place round the ring of items; then the event goes to
    /// the selected item, and only to it. `read(i)` gives the current value
    /// of slider `i`'s setting and is called only when that slider moves on an
    /// update tick. A menu without items does nothing.
    pub fn event<F: Fn(usize) -> i64>(&mut self, e: &MenuEvent, read: F) -> (r: MenuEffect)
        requires
            old(self).wf(),
            forall|i: usize| read.requires((i,)),
        ensures
            final(self).wf(),
            final(self).items().len() == old(self).items().len(),
            final(self).selected() == navigate(
                old(self).selected(),
                old(self).items().len() as int,
                e.press,
            ),
            old(self).items().len() == 0 ==> r == MenuEffect::Nothing && final(self).items()
                == old(self).items(),
            old(self).items().len() > 0 ==> {
                let s = final(self).selected();
                &&& forall|j: int|
                    0 <= j < old(self).items().len() && j != s ==> final(self).items()[j]
                        == old(self).items()[j]
                &&& item_after(old(self).items()[s], final(self).items()[s], *e)
                &&& exists|c: i64|
                    #![trigger item_effect(old(self).items()[s], *e, c as int)]
                    r == at_index(s as usize, item_effect(old(self).items()[s], *e, c as int))
                        && (item_needs_value(old(self).items()[s], *e) ==> read.ensures(
                        (s as usize,),
                        c,
                    ))
            },
    {
        let n = self.items.len();
        if n == 0 {
            return MenuEffect::Nothing;
        }
        proof {
            lemma_ring_step(self.selected_item as int, n as int);
        }
        match e.press {
            Some(Key::Up) => {
                self.selected_item = if self.selected_item == 0 {
                    n - 1
                } else {
                    self.selected_item - 1
                };
            },
            Some(Key::Down) => {
                self.selected_item = if self.selected_item + 1 == n {
                    0
                } else {
                    self.selected_item + 1
                };
            },
            _ => {},
        }
        let s = self.selected_item;
        let current: i64 = if self.items[s].needs_value(e) {
            read(s)
        } else {
            0
        };
        let effect = self.items[s].event(e, current);
        assert(item_effect(old(self).items()[s as int], *e, current as int) == effect);
        match effect {
            ItemEffect::Nothing => MenuEffect::Nothing,
            ItemEffect::RunAction => MenuEffect::RunAction(s),
            ItemEffect::SetValue(v) => MenuEffect::SetValue(s, v),
        }
    }
}

} // verus!
