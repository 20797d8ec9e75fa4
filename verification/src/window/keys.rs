use vstd::prelude::*;

verus! {

/// What is known of a key or a mouse button.
#[derive(Debug, Clone, Copy, PartialEq, Eq, Structural, PartialOrd, Ord)]
pub enum PressType {
    /// Nothing has been heard of it.
    Unknown,
    /// It went down since the last frame.
    JustPressed,
    /// It is held down.
    Pressed,
    /// It went up since the last frame.
    JustReleased,
    /// It is up.
    Released,
}

impl PressType {
    /// Whether the key or button is down.
    pub open spec fn is_down(self) -> bool {
        self == PressType::Pressed || self == PressType::JustPressed
    }

    /// Whether the key or button is up. One of which nothing is known counts
    /// as up.
    pub open spec fn is_up(self) -> bool {
        !self.is_down()
    }

    /// What a key becomes when it is reported down (`pressed`) or up, given
    /// what was known of it: a second report of the same kind ends the
    /// "just" of the first.
    pub open spec fn after(known: Option<PressType>, pressed: bool) -> PressType {
        if pressed {
            if known.is_some() && known.unwrap().is_down() {
                PressType::Pressed
            } else {
                PressType::JustPressed
            }
        } else {
            if known.is_some() && (known.unwrap() == PressType::Released || known.unwrap()
                == PressType::JustReleased) {
                PressType::Released
            } else {
                PressType::JustReleased
            }
        }
    }

    /// What a key or button is at the start of the next frame: what just
    /// happened has then happened.
    pub open spec fn settled(self) -> PressType {
        match self {
            PressType::JustPressed => PressType::Pressed,
            PressType::JustReleased => PressType::Released,
            _ => self,
        }
    }

    /// What a key or button becomes at the end of a frame: up where the
    /// input is consumed (`release`), else settled.
    pub open spec fn stepped(self, release: bool) -> PressType {
        if release {
            PressType::Released
        } else {
            self.settled()
        }
    }

    pub fn step(self, release: bool) -> (next: PressType)
        ensures
            next == self.stepped(release),
    {
        if release {
            PressType::Released
        } else {
            match self {
                PressType::JustPressed => PressType::Pressed,
                PressType::JustReleased => PressType::Released,
                _ => self,
            }
        }
    }
}

/// The state of one key or mouse button.
#[derive(Debug, Clone, Copy, PartialEq, Eq, Structural)]
pub struct PressState {
    pub pt: PressType,
}

/// The states of keys or mouse buttons by their codes, kept in a hash map.
#[verifier::external_body]
#[derive(Debug)]
pub struct PressMap {
    map: hashbrown::HashMap<u32, PressState>,
}

/// What a `PressMap` holds: for each code in it, what is known of that key or
/// button.
pub uninterp spec fn press_states(map: PressMap) -> Map<u32, PressType>;

impl PressMap {
    /// `hashbrown::HashMap::new`: a map that holds nothing.
    #[verifier::external_body]
    pub(crate) fn new() -> (made: PressMap)
        ensures
            press_states(made).dom() == Set::<u32>::empty(),
    {
        PressMap { map: hashbrown::HashMap::new() }
    }

    /// `hashbrown::HashMap::get`: what the map holds for `code`, if it holds
    /// the code.
    #[verifier::external_body]
    pub(crate) fn get(&self, code: u32) -> (known: Option<PressType>)
        ensures
            known == if press_states(*self).dom().contains(code) {
                Some(press_states(*self)[code])
            } else {
                None
            },
    {
        self.map.get(&code).map(|state| state.pt)
    }

    /// `hashbrown::HashMap::insert`: the map then holds `pt` for `code`, and
    /// for every other code what it held.
    #[verifier::external_body]
    pub(crate) fn insert(&mut self, code: u32, pt: PressType)
        ensures
            press_states(*final(self)) == press_states(*old(self)).insert(code, pt),
    {
        self.map.insert(code, PressState { pt });
    }

    /// `hashbrown::HashMap::keys`: every code that the map holds, once, in
    /// no order that could be told beforehand.
    #[verifier::external_body]
    pub(crate) fn codes(&self) -> (codes: Vec<u32>)
        ensures
            codes@.no_duplicates(),
            codes@.to_set() == press_states(*self).dom(),
    {
        self.map.keys().copied().collect()
    }
}

} // verus!
