//! Which key combination fires the pipeline.
//!
//! The platform's registrar holds the bindings; this module decides what to
//! ask of it. Replacing the hotkey always clears the registrar first, so a
//! stale binding never coexists with the new one.

use vstd::prelude::*;
use crate::snapshot::text_model;

verus! {

/// One request to the platform's hotkey registrar.
#[derive(Debug, Clone, PartialEq, Eq)]
pub enum RegistrarAction {
    /// Remove every binding this process holds.
    UnregisterAll,
    /// Bind the key combination.
    Register(String),
}

/// Mathematical model of a [`RegistrarAction`].
pub enum RegistrarActionModel {
    UnregisterAll,
    Register(Seq<char>),
}

impl View for RegistrarAction {
    type V = RegistrarActionModel;

    open spec fn view(&self) -> RegistrarActionModel {
        match self {
            RegistrarAction::UnregisterAll => RegistrarActionModel::UnregisterAll,
            RegistrarAction::Register(combo) => RegistrarActionModel::Register(combo@),
        }
    }
}

/// The bindings a registrar holds after performing one action.
pub open spec fn performed(bound: Set<Seq<char>>, action: RegistrarActionModel) -> Set<Seq<char>> {
    match action {
        RegistrarActionModel::UnregisterAll => Set::empty(),
        RegistrarActionModel::Register(combo) => bound.insert(combo),
    }
}

/// The bindings a registrar holds after performing the actions in order.
pub open spec fn performed_all(bound: Set<Seq<char>>, actions: Seq<RegistrarActionModel>) -> Set<
    Seq<char>,
>
    decreases actions.len(),
{
    if actions.len() == 0 {
        bound
    } else {
        performed(performed_all(bound, actions.drop_last()), actions.last())
    }
}

/// The actions that make `combo` the one hotkey.
pub open spec fn replacement(combo: Seq<char>) -> Seq<RegistrarActionModel> {
    seq![RegistrarActionModel::UnregisterAll, RegistrarActionModel::Register(combo)]
}

/// The models of a list of actions.
pub open spec fn action_models(actions: Seq<RegistrarAction>) -> Seq<RegistrarActionModel> {
    actions.map_values(|a: RegistrarAction| a@)
}

/// The key combination that is bound, if any.
#[derive(Debug, Clone, PartialEq, Eq)]
pub struct HotkeyBindings {
    pub current: Option<String>,
}

impl View for HotkeyBindings {
    type V = Option<Seq<char>>;

    open spec fn view(&self) -> Option<Seq<char>> {
        text_model(self.current)
    }
}

impl HotkeyBindings {
    /// No hotkey bound yet.
    pub fn new() -> (b: HotkeyBindings)
        ensures
            b@ is None,
    {
        HotkeyBindings { current: None }
    }

    /// Makes `combo` the hotkey. Returns what to ask of the registrar, in
    /// order: first remove all bindings, then register the new one.
    pub fn rebind(&mut self, combo: &str) -> (actions: Vec<RegistrarAction>)
        ensures
            final(self)@ == Some(combo@),
            action_models(actions@) == replacement(combo@),
    {
        let mut actions: Vec<RegistrarAction> = Vec::new();
        actions.push(RegistrarAction::UnregisterAll);
        actions.push(RegistrarAction::Register(combo.to_owned()));
        self.current = Some(combo.to_owned());
        assert(action_models(actions@) =~= replacement(combo@));
        actions
    }
}

/// Replacing the hotkey leaves exactly one binding, the new one, whatever the
/// registrar held before.
pub proof fn law_replacement_leaves_one(bound: Set<Seq<char>>, combo: Seq<char>)
    ensures
        performed_all(bound, replacement(combo)) == set![combo],
{
    let actions = replacement(combo);
    let first = actions.drop_last();
    assert(first.len() == 1);
    assert(first.drop_last().len() == 0);
    assert(performed_all(bound, first.drop_last()) == bound);
    assert(first.last() == RegistrarActionModel::UnregisterAll);
    assert(performed_all(bound, first) == Set::<Seq<char>>::empty());
    assert(actions.last() == RegistrarActionModel::Register(combo));
    assert(performed_all(bound, actions) =~= set![combo]);
}

} // verus!
