//! The named-style table of the settings panel.
//!
//! The viewer keeps a lookup table of widget styles under fixed names. The
//! visual parameters of a style belong to the renderer; this module models
//! what the state machine reads of the table: which names it holds. The
//! names are fixed at startup, so a missing one is a configuration error
//! caught by [`StyleTable::validate`], never a frame-time condition.

use vstd::prelude::*;

verus! {

/// Name of a style the viewer looks up while drawing.
#[derive(Clone, Copy, Debug, PartialEq, Eq, Structural)]
pub enum StyleKey {
    /// Style of the settings panel and the main overlay buttons.
    Default,
    /// Style of the keybinding help window.
    Keymapping,
}

/// Fatal startup error: the style table lacks a name the viewer draws with.
#[derive(Clone, Copy, Debug, PartialEq, Eq, Structural)]
pub enum ConfigurationError {
    MissingStyle(StyleKey),
}

/// The names registered in the style table, in registration order.
pub struct StyleTable {
    pub keys: Vec<StyleKey>,
}

impl StyleTable {
    /// Whether `key` is registered.
    pub open spec fn has_key(self, key: StyleKey) -> bool {
        exists|i: int| 0 <= i < self.keys@.len() && self.keys@[i] == key
    }

    /// An empty table.
    pub fn new() -> (table: StyleTable)
        ensures
            table.keys@ == Seq::<StyleKey>::empty(),
            forall|k: StyleKey| !table.has_key(k),
    {
        StyleTable { keys: Vec::new() }
    }

    /// Registers `key`; every name registered before stays registered.
    pub fn register(&mut self, key: StyleKey)
        ensures
            final(self).has_key(key),
            forall|k: StyleKey| old(self).has_key(k) ==> final(self).has_key(k),
            final(self).keys@ == old(self).keys@.push(key),
    {
        self.keys.push(key);
        proof {
            assert(self.keys@[self.keys@.len() - 1] == key);
            assert forall|k: StyleKey| old(self).has_key(k) implies self.has_key(k) by {
                let i = choose|i: int| 0 <= i < old(self).keys@.len() && old(self).keys@[i] == k;
                assert(self.keys@[i] == k);
            }
        }
    }

    /// Whether `key` is registered.
    pub fn contains(&self, key: StyleKey) -> (found: bool)
        ensures
            found == self.has_key(key),
    {
        let mut i: usize = 0;
        while i < self.keys.len()
            invariant
                0 <= i <= self.keys@.len(),
                forall|j: int| 0 <= j < i ==> self.keys@[j] != key,
            decreases self.keys@.len() - i,
        {
            if self.keys[i] == key {
                return true;
            }
            i = i + 1;
        }
        false
    }

    /// Startup validation: succeeds exactly when both names the viewer draws
    /// with are registered, and names a missing one otherwise.
    pub fn validate(&self) -> (check: Result<(), ConfigurationError>)
        ensures
            check is Ok <==> self.has_key(StyleKey::Default) && self.has_key(StyleKey::Keymapping),
            !self.has_key(StyleKey::Default) ==> check == Result::<(), ConfigurationError>::Err(
                ConfigurationError::MissingStyle(StyleKey::Default),
            ),
            self.has_key(StyleKey::Default) && !self.has_key(StyleKey::Keymapping)
                ==> check == Result::<(), ConfigurationError>::Err(
                ConfigurationError::MissingStyle(StyleKey::Keymapping),
            ),
    {
        if !self.contains(StyleKey::Default) {
            Err(ConfigurationError::MissingStyle(StyleKey::Default))
        } else if !self.contains(StyleKey::Keymapping) {
            Err(ConfigurationError::MissingStyle(StyleKey::Keymapping))
        } else {
            Ok(())
        }
    }
}

} // verus!
