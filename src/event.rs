use vstd::prelude::*;

verus! {

/// The keyboard keys that the menu reacts to; every other key is `Other`.
#[derive(Clone, Copy, Debug, PartialEq, Eq, Structural)]
pub enum Key {
    Up,
    Down,
    Left,
    Right,
    Space,
    Other,
}

/// One incoming input event, as the facts it carries: a key that went down,
/// a key that went up, and whether an update tick occurred.
#[derive(Clone, Copy, Debug, PartialEq, Eq, Structural)]
pub struct MenuEvent {
    pub press: Option<Key>,
    pub release: Option<Key>,
    pub update: bool,
}

impl MenuEvent {
    /// An event that carries only the press of `key`.
    pub fn pressed(key: Key) -> (r: MenuEvent)
        ensures
            r == (MenuEvent { press: Some(key), release: None, update: false }),
    {
        MenuEvent { press: Some(key), release: None, update: false }
    }

    /// An event that carries only the release of `key`.
    pub fn released(key: Key) -> (r: MenuEvent)
        ensures
            r == (MenuEvent { press: None, release: Some(key), update: false }),
    {
        MenuEvent { press: None, release: Some(key), update: false }
    }

    /// An event that carries only an update tick.
    pub fn tick() -> (r: MenuEvent)
        ensures
            r == (MenuEvent { press: None, release: None, update: true }),
    {
        MenuEvent { press: None, release: None, update: true }
    }
}

} // verus!
