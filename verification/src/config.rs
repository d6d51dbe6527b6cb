//! Configuration shared by the components: the key bindings of each mode.

use crate::action::{Action, ActionView};
use crate::app::Mode;
use crate::event::{KeyCode, KeyEvent, KeyEventKind, KeyModifiers};
use vstd::prelude::*;

verus! {

/// In `mode`, a press of `code` with exactly `modifiers` stands for `action`.
#[derive(Debug, PartialEq, Eq)]
pub struct KeyBinding {
    pub mode: Mode,
    pub code: KeyCode,
    pub modifiers: KeyModifiers,
    pub action: Action,
}

/// A key binding as contracts see it.
pub struct KeyBindingView {
    pub mode: Mode,
    pub code: KeyCode,
    pub modifiers: KeyModifiers,
    pub action: ActionView,
}

impl View for KeyBinding {
    type V = KeyBindingView;

    open spec fn view(&self) -> KeyBindingView {
        KeyBindingView {
            mode: self.mode,
            code: self.code,
            modifiers: self.modifiers,
            action: self.action@,
        }
    }
}

impl Clone for KeyBinding {
    fn clone(&self) -> (copy: Self)
        ensures
            copy@ == self@,
    {
        KeyBinding {
            mode: self.mode,
            code: self.code,
            modifiers: self.modifiers,
            action: self.action.clone(),
        }
    }
}

impl KeyBindingView {
    /// Whether the binding answers `key` in `mode`: the key went down, and
    /// mode, key and modifiers are those of the binding.
    pub open spec fn matches(self, mode: Mode, key: KeyEvent) -> bool {
        &&& key.kind == KeyEventKind::Press
        &&& self.mode == mode
        &&& self.code == key.code
        &&& self.modifiers == key.modifiers
    }
}

impl KeyBinding {
    pub fn matches(&self, mode: Mode, key: KeyEvent) -> (b: bool)
        ensures
            b == self@.matches(mode, key),
    {
        key.kind == KeyEventKind::Press && self.mode == mode && self.code == key.code
            && self.modifiers == key.modifiers
    }
}

/// The key bindings, in the order in which they were made. Where several
/// bindings answer a key, the earliest one counts.
#[derive(Debug, PartialEq, Eq)]
pub struct Config {
    pub bindings: Vec<KeyBinding>,
}

/// A configuration as contracts see it: its bindings in order.
pub struct ConfigView {
    pub bindings: Seq<KeyBindingView>,
}

impl View for Config {
    type V = ConfigView;

    open spec fn view(&self) -> ConfigView {
        ConfigView { bindings: Seq::new(self.bindings@.len(), |i: int| self.bindings@[i]@) }
    }
}

/// The action of the first binding, from place `start` on, that answers `key`
/// in `mode`.
pub open spec fn bound_action_from(
    bindings: Seq<KeyBindingView>,
    mode: Mode,
    key: KeyEvent,
    start: int,
) -> Option<ActionView>
    decreases bindings.len() - start,
{
    if start < 0 || start >= bindings.len() {
        None
    } else if bindings[start].matches(mode, key) {
        Some(bindings[start].action)
    } else {
        bound_action_from(bindings, mode, key, start + 1)
    }
}

impl ConfigView {
    /// The action that `key` is bound to in `mode`, if it is bound.
    pub open spec fn bound_action(self, mode: Mode, key: KeyEvent) -> Option<ActionView> {
        bound_action_from(self.bindings, mode, key, 0)
    }
}

/// A key that no binding answers is bound to nothing.
pub proof fn lemma_unbound_key(config: ConfigView, mode: Mode, key: KeyEvent)
    requires
        forall|i: int| 0 <= i < config.bindings.len() ==> !config.bindings[i].matches(mode, key),
    ensures
        config.bound_action(mode, key) is None,
{
    lemma_unbound_from(config.bindings, mode, key, 0);
}

proof fn lemma_unbound_from(bindings: Seq<KeyBindingView>, mode: Mode, key: KeyEvent, start: int)
    requires
        0 <= start,
        forall|i: int| start <= i < bindings.len() ==> !bindings[i].matches(mode, key),
    ensures
        bound_action_from(bindings, mode, key, start) is None,
    decreases bindings.len() - start,
{
    if start < bindings.len() {
        lemma_unbound_from(bindings, mode, key, start + 1);
    }
}

impl Default for Config {
    fn default() -> (config: Config)
        ensures
            config@.bindings == Seq::<KeyBindingView>::empty(),
    {
        Config::new()
    }
}

impl Clone for Config {
    fn clone(&self) -> (copy: Self)
        ensures
            copy@ == self@,
    {
        let n: usize = self.bindings.len();
        let mut bindings: Vec<KeyBinding> = Vec::new();
        let mut i: usize = 0;
        while i < n
            invariant
                i <= n,
                n == self.bindings@.len(),
                bindings@.len() == i,
                forall|j: int| 0 <= j < i ==> bindings@[j]@ == self.bindings@[j]@,
            decreases n - i,
        {
            bindings.push(self.bindings[i].clone());
            i = i + 1;
        }
        let copy = Config { bindings };
        assert(copy@.bindings =~= self@.bindings);
        copy
    }
}

impl Config {
    /// A configuration without bindings.
    pub fn new() -> (config: Config)
        ensures
            config@.bindings == Seq::<KeyBindingView>::empty(),
    {
        let config = Config { bindings: Vec::new() };
        config
    }

    /// Adds a binding behind those already made.
    pub fn bind(&mut self, mode: Mode, code: KeyCode, modifiers: KeyModifiers, action: Action)
        ensures
            final(self)@.bindings == old(self)@.bindings.push(
                KeyBindingView { mode, code, modifiers, action: action@ },
            ),
    {
        self.bindings.push(KeyBinding { mode, code, modifiers, action });
    }

    /// The action that `key` is bound to in `mode`.
    pub fn lookup(&self, mode: Mode, key: KeyEvent) -> (action: Option<Action>)
        ensures
            match action {
                Some(a) => self@.bound_action(mode, key) == Some(a@),
                None => self@.bound_action(mode, key) is None,
            },
    {
        let n: usize = self.bindings.len();
        let mut i: usize = 0;
        while i < n
            invariant
                i <= n,
                n == self.bindings@.len(),
                self@.bindings.len() == n,
                self@.bound_action(mode, key) == bound_action_from(
                    self@.bindings,
                    mode,
                    key,
                    i as int,
                ),
            decreases n - i,
        {
            if self.bindings[i].matches(mode, key) {
                return Some(self.bindings[i].action.clone());
            }
            i = i + 1;
        }
        None
    }
}

} // verus!
