use crate::event::{Key, MenuEvent};
use vstd::prelude::*;

verus! {

/// Which way a slider moves on each update tick while a direction key is held.
#[derive(Clone, Copy, Debug, PartialEq, Eq, Structural)]
pub enum SliderState {
    Default,
    Increasing,
    Decreasing,
}

/// The two colors that a menu line is drawn in. The renderer shows
/// `Highlight` as RGBA (1.0, 0.5, 0.5, 1.0) and `Plain` as (0.5, 0.5, 0.5, 1.0).
#[derive(Clone, Copy, Debug, PartialEq, Eq, Structural)]
pub enum TextColor {
    Highlight,
    Plain,
}

/// One line of text to draw at a screen position.
#[derive(Debug)]
pub struct TextDraw {
    pub text: String,
    pub position: [i32; 2],
    pub color: TextColor,
}

/// What the embedding application must do to its settings after an item
/// has seen an event.
#[derive(Clone, Copy, Debug, PartialEq, Eq, Structural)]
pub enum ItemEffect {
    Nothing,
    /// Run the item's action once on the settings.
    RunAction,
    /// Store this value through the item's setter.
    SetValue(i64),
}

pub open spec fn color_of(selected: bool) -> TextColor {
    if selected {
        TextColor::Highlight
    } else {
        TextColor::Plain
    }
}

/// The color of a line, by whether its item is selected.
pub fn text_color(selected: bool) -> (r: TextColor)
    ensures
        r == color_of(selected),
{
    if selected {
        TextColor::Highlight
    } else {
        TextColor::Plain
    }
}

/// The decimal digits of a natural number, most significant first; the
/// digit `d` is the character with code `48 + d` ('0' to '9').
pub open spec fn digits(n: nat) -> Seq<char>
    decreases n,
{
    if n < 10 {
        seq![(n + 48) as char]
    } else {
        digits(n / 10).push(((n % 10) + 48) as char)
    }
}

/// An integer written in decimal, with a leading '-' when negative.
pub open spec fn decimal(v: int) -> Seq<char> {
    if v < 0 {
        seq!['-'].add(digits((-v) as nat))
    } else {
        digits(v as nat)
    }
}

/// Relies on std's `format!` with `Display` for `i64`, which writes an
/// integer in decimal with a leading '-' when it is negative.
#[verifier::external_body]
fn label_with_value(label: &String, value: i64) -> (r: String)
    ensures
        r@ == label@ + seq![' '] + decimal(value as int),
{
    format!("{} {}", label, value)
}

/// Executes a single action when Space, Left or Right is pressed.
pub struct ActionMenuItem {
    text: String,
}

/// Whether a pressed key fires an action item.
pub open spec fn fires_action(press: Option<Key>) -> bool {
    press == Some(Key::Space) || press == Some(Key::Left) || press == Some(Key::Right)
}

impl ActionMenuItem {
    pub closed spec fn label(&self) -> Seq<char> {
        self.text@
    }

    pub fn new(text: &str) -> (r: ActionMenuItem)
        ensures
            r.label() == text@,
    {
        ActionMenuItem { text: text.to_string() }
    }

    /// The line for this item: its label at `position`.
    pub fn draw(&self, position: [i32; 2], selected: bool) -> (r: TextDraw)
        ensures
            r.text@ == self.label(),
            r.position == position,
            r.color == color_of(selected),
    {
        TextDraw { text: self.text.clone(), position, color: text_color(selected) }
    }

    /// Whether the action runs: once for each press of Space, Left or Right.
    /// Releases and update ticks never run it.
    pub fn event(&self, e: &MenuEvent) -> (fired: bool)
        ensures
            fired == fires_action(e.press),
    {
        match e.press {
            Some(Key::Space) | Some(Key::Left) | Some(Key::Right) => true,
            _ => false,
        }
    }
}

/// Moves an integer setting up or down by a step on each update tick while
/// Right or Left is held, never leaving its range.
pub struct SliderMenuItem {
    label: String,
    min: i64,
    max: i64,
    step_size: i64,
    state: SliderState,
}

/// The value that one update tick stores, from `current`, or `None` when the
/// slider is at rest.
pub open spec fn tick_value(
    state: SliderState,
    min: int,
    max: int,
    step: int,
    current: int,
) -> Option<int> {
    match state {
        SliderState::Increasing => Some(if current + step <= max {
            current + step
        } else {
            max
        }),
        SliderState::Decreasing => Some(if current - step >= min {
            current - step
        } else {
            min
        }),
        SliderState::Default => None,
    }
}

/// An optional machine integer as an optional mathematical one.
pub open spec fn widen(o: Option<i64>) -> Option<int> {
    match o {
        Some(v) => Some(v as int),
        None => None,
    }
}

/// The slider's state after the press and release facts of `e`: the press
/// is seen first, then the release.
pub open spec fn next_state(state: SliderState, e: MenuEvent) -> SliderState {
    if e.release == Some(Key::Right) || e.release == Some(Key::Left) {
        SliderState::Default
    } else if e.press == Some(Key::Right) {
        SliderState::Increasing
    } else if e.press == Some(Key::Left) {
        SliderState::Decreasing
    } else {
        state
    }
}

impl SliderMenuItem {
    pub closed spec fn label(&self) -> Seq<char> {
        self.label@
    }

    pub closed spec fn min(&self) -> int {
        self.min as int
    }

    pub closed spec fn max(&self) -> int {
        self.max as int
    }

    pub closed spec fn step(&self) -> int {
        self.step_size as int
    }

    pub closed spec fn state(&self) -> SliderState {
        self.state
    }

    /// The range is not empty and the step is positive.
    pub open spec fn wf(&self) -> bool {
        self.min() <= self.max() && self.step() > 0
    }

    /// A slider over `[range[0], range[1]]` that moves by `step_size`, at rest.
    pub fn new(label: &str, range: [i64; 2], step_size: i64) -> (r: SliderMenuItem)
        requires
            range[0] <= range[1],
            step_size > 0,
        ensures
            r.wf(),
            r.label() == label@,
            r.min() == range[0],
            r.max() == range[1],
            r.step() == step_size,
            r.state() == SliderState::Default,
    {
        SliderMenuItem {
            label: label.to_string(),
            min: range[0],
            max: range[1],
            step_size,
            state: SliderState::Default,
        }
    }

    /// The current direction of movement.
    pub fn slider_state(&self) -> (r: SliderState)
        ensures
            r == self.state(),
    {
        self.state
    }

    /// The line for this item: its label, a space and `value`, at `position`.
    pub fn draw(&self, value: i64, position: [i32; 2], selected: bool) -> (r: TextDraw)
        ensures
            r.text@ == self.label() + seq![' '] + decimal(value as int),
            r.position == position,
            r.color == color_of(selected),
    {
        TextDraw {
            text: label_with_value(&self.label, value),
            position,
            color: text_color(selected),
        }
    }

    /// Whether an event needs the setting's current value: an update tick
    /// while the slider moves.
    pub fn needs_value(&self, e: &MenuEvent) -> (r: bool)
        ensures
            r == (e.update && self.state() != SliderState::Default),
    {
        e.update && !matches!(self.state, SliderState::Default)
    }

    /// Reacts to `e`, where `current` is the value the setting holds now.
    /// An update tick is handled first, with the state from before the
    /// event: it returns the value to store. Then a press of Right or Left
    /// starts moving, and a release of either stops.
    pub fn event(&mut self, e: &MenuEvent, current: i64) -> (r: Option<i64>)
        requires
            old(self).wf(),
        ensures
            final(self).wf(),
            final(self).label() == old(self).label(),
            final(self).min() == old(self).min(),
            final(self).max() == old(self).max(),
            final(self).step() == old(self).step(),
            final(self).state() == next_state(old(self).state(), *e),
            widen(r) == (if e.update {
                tick_value(
                    old(self).state(),
                    old(self).min(),
                    old(self).max(),
                    old(self).step(),
                    current as int,
                )
            } else {
                None
            }),
    {
        let mut r: Option<i64> = None;
        if e.update {
            match self.state {
                SliderState::Increasing => {
                    let v: i64 = if current as i128 + self.step_size as i128 <= self.max as i128 {
                        current + self.step_size
                    } else {
                        self.max
                    };
                    r = Some(v);
                },
                SliderState::Decreasing => {
                    let v: i64 = if current as i128 - self.step_size as i128 >= self.min as i128 {
                        current - self.step_size
                    } else {
                        self.min
                    };
                    r = Some(v);
                },
                SliderState::Default => {},
            }
        }
        match e.press {
            Some(Key::Right) => {
                self.state = SliderState::Increasing;
            },
            Some(Key::Left) => {
                self.state = SliderState::Decreasing;
            },
            _ => {},
        }
        match e.release {
            Some(Key::Right) | Some(Key::Left) => {
                self.state = SliderState::Default;
            },
            _ => {},
        }
        r
    }
}

/// The setting's value after `k` update ticks with the slider in `state`,
/// each tick storing what `tick_value` gives.
pub open spec fn held_value(
    state: SliderState,
    min: int,
    max: int,
    step: int,
    current: int,
    k: nat,
) -> int
    decreases k,
{
    if k == 0 {
        current
    } else {
        let before = held_value(state, min, max, step, current, (k - 1) as nat);
        match tick_value(state, min, max, step, before) {
            Some(v) => v,
            None => before,
        }
    }
}

/// Holding a direction key for `k` ticks from a value in the range moves it
/// by `k` steps, stopping at the end of the range: it rises to at most `max`,
/// falls to at least `min`, and never leaves the range.
pub proof fn lemma_held_ticks(
    state: SliderState,
    min: int,
    max: int,
    step: int,
    current: int,
    k: nat,
)
    requires
        min <= current <= max,
        step > 0,
    ensures
        min <= held_value(state, min, max, step, current, k) <= max,
        state == SliderState::Increasing ==> held_value(state, min, max, step, current, k) == (
        if current + k * step <= max {
            current + k * step
        } else {
            max
        }),
        state == SliderState::Decreasing ==> held_value(state, min, max, step, current, k) == (
        if current - k * step >= min {
            current - k * step
        } else {
            min
        }),
        state == SliderState::Default ==> held_value(state, min, max, step, current, k)
            == current,
    decreases k,
{
    if k > 0 {
        lemma_held_ticks(state, min, max, step, current, (k - 1) as nat);
        assert(current + k * step == current + (k - 1) * step + step) by (nonlinear_arith);
        assert(current - k * step == current - (k - 1) * step - step) by (nonlinear_arith);
        assert((k - 1) * step >= 0) by (nonlinear_arith)
            requires
                k >= 1,
                step > 0,
        ;
    }
}

/// After an event that releases Right or Left the slider is at rest, and an
/// update tick then stores nothing, whatever the setting holds.
pub proof fn lemma_release_stops(
    s: SliderMenuItem,
    t: SliderMenuItem,
    e: MenuEvent,
    tick: MenuEvent,
    current: int,
)
    requires
        slider_after(s, t, e),
        e.release == Some(Key::Right) || e.release == Some(Key::Left),
    ensures
        t.state() == SliderState::Default,
        slider_effect(t, tick, current) == ItemEffect::Nothing,
{
}

/// After an event that presses Right (and releases neither direction key),
/// each update tick stores one step more than the setting holds, but never
/// more than the top of the range.
pub proof fn lemma_press_right_rises(
    s: SliderMenuItem,
    t: SliderMenuItem,
    e: MenuEvent,
    tick: MenuEvent,
    current: i64,
)
    requires
        slider_after(s, t, e),
        e.press == Some(Key::Right),
        e.release != Some(Key::Right),
        e.release != Some(Key::Left),
        tick.update,
        s.min() <= current <= s.max(),
    ensures
        t.state() == SliderState::Increasing,
        slider_effect(t, tick, current as int) == ItemEffect::SetValue(
            (if current + s.step() <= s.max() {
                current + s.step()
            } else {
                s.max()
            }) as i64,
        ),
{
}

/// After an event that presses Left (and releases neither direction key),
/// each update tick stores one step less than the setting holds, but never
/// less than the bottom of the range.
pub proof fn lemma_press_left_falls(
    s: SliderMenuItem,
    t: SliderMenuItem,
    e: MenuEvent,
    tick: MenuEvent,
    current: i64,
)
    requires
        slider_after(s, t, e),
        e.press == Some(Key::Left),
        e.release != Some(Key::Right),
        e.release != Some(Key::Left),
        tick.update,
        s.min() <= current <= s.max(),
    ensures
        t.state() == SliderState::Decreasing,
        slider_effect(t, tick, current as int) == ItemEffect::SetValue(
            (if current - s.step() >= s.min() {
                current - s.step()
            } else {
                s.min()
            }) as i64,
        ),
{
}

/// A single menu item: an action or a slider.
pub enum MenuItem {
    ActionItem(ActionMenuItem),
    SliderItem(SliderMenuItem),
}

/// The effect of a slider that sees `e` while its setting holds `current`.
pub open spec fn slider_effect(s: SliderMenuItem, e: MenuEvent, current: int) -> ItemEffect {
    if e.update {
        match tick_value(s.state(), s.min(), s.max(), s.step(), current) {
            Some(v) => ItemEffect::SetValue(v as i64),
            None => ItemEffect::Nothing,
        }
    } else {
        ItemEffect::Nothing
    }
}

/// The slider `t` is `s` after the event `e`: only the state moves.
pub open spec fn slider_after(s: SliderMenuItem, t: SliderMenuItem, e: MenuEvent) -> bool {
    &&& t.wf()
    &&& t.label() == s.label()
    &&& t.min() == s.min()
    &&& t.max() == s.max()
    &&& t.step() == s.step()
    &&& t.state() == next_state(s.state(), e)
}

/// The effect of `item` on seeing `e` while its setting holds `current`.
pub open spec fn item_effect(item: MenuItem, e: MenuEvent, current: int) -> ItemEffect {
    match item {
        MenuItem::ActionItem(_) => if fires_action(e.press) {
            ItemEffect::RunAction
        } else {
            ItemEffect::Nothing
        },
        MenuItem::SliderItem(s) => slider_effect(s, e, current),
    }
}

/// The item `b` is `a` after the event `e`.
pub open spec fn item_after(a: MenuItem, b: MenuItem, e: MenuEvent) -> bool {
    match a {
        MenuItem::ActionItem(_) => b == a,
        MenuItem::SliderItem(s) => match b {
            MenuItem::SliderItem(t) => slider_after(s, t, e),
            MenuItem::ActionItem(_) => false,
        },
    }
}

/// Whether `item` reads its setting's current value on `e`.
pub open spec fn item_needs_value(item: MenuItem, e: MenuEvent) -> bool {
    match item {
        MenuItem::ActionItem(_) => false,
        MenuItem::SliderItem(s) => e.update && s.state() != SliderState::Default,
    }
}

impl MenuItem {
    pub open spec fn wf(&self) -> bool {
        match self {
            MenuItem::ActionItem(_) => true,
            MenuItem::SliderItem(s) => s.wf(),
        }
    }

    /// An action item with the label `text`.
    pub fn action_item(text: &str) -> (r: MenuItem)
        ensures
            r.wf(),
            r matches MenuItem::ActionItem(a) && a.label() == text@,
    {
        MenuItem::ActionItem(ActionMenuItem::new(text))
    }

    /// A slider item over `[range[0], range[1]]` moving by `step_size`, at rest.
    pub fn slider_item(label: &str, range: [i64; 2], step_size: i64) -> (r: MenuItem)
        requires
            range[0] <= range[1],
            step_size > 0,
        ensures
            r.wf(),
            r matches MenuItem::SliderItem(s) && s.label() == label@ && s.min() == range[0]
                && s.max() == range[1] && s.step() == step_size && s.state()
                == SliderState::Default,
    {
        MenuItem::SliderItem(SliderMenuItem::new(label, range, step_size))
    }

    /// Whether the event `e` needs the current value of this item's setting.
    pub fn needs_value(&self, e: &MenuEvent) -> (r: bool)
        ensures
            r == item_needs_value(*self, *e),
    {
        match self {
            MenuItem::ActionItem(_) => false,
            MenuItem::SliderItem(s) => s.needs_value(e),
        }
    }

    /// The line for this item at `position`; `value` is the current value of
    /// a slider's setting and is not read for an action.
    pub fn draw(&self, value: i64, position: [i32; 2], selected: bool) -> (r: TextDraw)
        ensures
            r.position == position,
            r.color == color_of(selected),
            match *self {
                MenuItem::ActionItem(a) => r.text@ == a.label(),
                MenuItem::SliderItem(s) => r.text@ == s.label() + seq![' '] + decimal(
                    value as int,
                ),
            },
    {
        match self {
            MenuItem::ActionItem(a) => a.draw(position, selected),
            MenuItem::SliderItem(s) => s.draw(value, position, selected),
        }
    }

    /// Reacts to `e`, where `current` is the value of a slider's setting.
    pub fn event(&mut self, e: &MenuEvent, current: i64) -> (r: ItemEffect)
        requires
            old(self).wf(),
        ensures
            final(self).wf(),
            item_after(*old(self), *final(self), *e),
            r == item_effect(*old(self), *e, current as int),
    {
        match self {
            MenuItem::ActionItem(a) => if a.event(e) {
                ItemEffect::RunAction
            } else {
                ItemEffect::Nothing
            },
            MenuItem::SliderItem(s) => match s.event(e, current) {
                Some(v) => ItemEffect::SetValue(v),
                None => ItemEffect::Nothing,
            },
        }
    }
}

} // verus!
