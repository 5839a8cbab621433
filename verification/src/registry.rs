//! The module registry: a mapping from an integer identifier to an editable
//! code module. Lookups materialize a default module for a previously-unseen
//! identifier; edits against an identifier that was never looked up are
//! rejected with `NotFound`.

use vstd::prelude::*;

verus! {

broadcast use vstd::std_specs::hash::group_hash_axioms;

use std::collections::HashMap;
use vstd::string::StringExecFns;

/// One editable code module: user-authored source text and a flag that says
/// whether an external editor currently displays it. The registry stores the
/// flag without interpreting it.
pub struct ModuleState {
    /// Whether an editor window for this module is currently displayed.
    pub is_open: bool,
    /// The user-authored source text of this module.
    pub source: String,
}

/// The mathematical value of a module.
pub ghost struct ModuleView {
    pub is_open: bool,
    pub source: Seq<char>,
}

impl View for ModuleState {
    type V = ModuleView;

    open spec fn view(&self) -> ModuleView {
        ModuleView { is_open: self.is_open, source: self.source@ }
    }
}

impl Clone for ModuleState {
    fn clone(&self) -> (r: Self)
        ensures
            r@ == self@,
    {
        ModuleState { is_open: self.is_open, source: self.source.clone() }
    }
}

/// The module a lookup materializes for a previously-unseen identifier:
/// closed, with a placeholder source text.
pub open spec fn default_module_view() -> ModuleView {
    ModuleView { is_open: false, source: "Hello world!"@ }
}

/// Builds the default module that a first lookup materializes.
pub fn new_default_module() -> (m: ModuleState)
    ensures
        m@ == default_module_view(),
{
    ModuleState { is_open: false, source: String::from_str("Hello world!") }
}

/// The failure of a registry mutation.
#[derive(Clone, Copy, Debug, PartialEq, Eq, Structural)]
pub enum RegistryError {
    /// The identifier was never created via a lookup.
    NotFound,
}

impl RegistryError {
    /// A short text for showing the failure to a user.
    pub fn describe(&self) -> (r: String)
        ensures
            r@ == "module not found in the registry"@,
    {
        String::from_str("module not found in the registry")
    }
}

/// The registry after a lookup of `id`: unchanged when `id` is bound,
/// extended with the default module otherwise.
pub open spec fn registry_after_lookup(m: Map<i32, ModuleView>, id: i32) -> Map<i32, ModuleView> {
    if m.contains_key(id) {
        m
    } else {
        m.insert(id, default_module_view())
    }
}

/// The module a lookup of `id` yields.
pub open spec fn looked_up(m: Map<i32, ModuleView>, id: i32) -> ModuleView {
    registry_after_lookup(m, id)[id]
}

/// A mapping from integer module identifier to module, with lazy creation.
pub struct ModuleRegistry {
    modules: HashMap<i32, ModuleState>,
}

impl View for ModuleRegistry {
    type V = Map<i32, ModuleView>;

    closed spec fn view(&self) -> Map<i32, ModuleView> {
        self.modules@.map_values(|m: ModuleState| m@)
    }
}

impl ModuleRegistry {
    /// An empty registry.
    pub fn new() -> (r: Self)
        ensures
            r@ == Map::<i32, ModuleView>::empty(),
    {
        let r = ModuleRegistry { modules: HashMap::new() };
        proof {
            assert(r@ =~= Map::<i32, ModuleView>::empty());
        }
        r
    }

    /// Returns the module bound to `id`; a previously-unseen identifier is
    /// first bound to the default module. After the call `id` is always
    /// bound, and an identifier that was already bound keeps its module.
    pub fn get_or_create_module(&mut self, id: i32) -> (m: ModuleState)
        ensures
            final(self)@ == registry_after_lookup(old(self)@, id),
            m@ == looked_up(old(self)@, id),
            final(self)@.contains_key(id),
    {
        if self.modules.contains_key(&id) {
            let found = self.modules.get(&id).unwrap().clone();
            proof {
                assert(self@ =~= registry_after_lookup(old(self)@, id));
            }
            found
        } else {
            let fresh = new_default_module();
            let copy = fresh.clone();
            self.modules.insert(id, fresh);
            proof {
                assert(self@ =~= registry_after_lookup(old(self)@, id));
            }
            copy
        }
    }

    /// Returns the module bound to `id`, without creating one.
    pub fn get_module(&self, id: i32) -> (r: Option<&ModuleState>)
        ensures
            match r {
                Some(m) => self@.contains_key(id) && m@ == self@[id],
                None => !self@.contains_key(id),
            },
    {
        self.modules.get(&id)
    }

    /// Replaces the source text of the module bound to `id`; fails with
    /// `NotFound` and leaves the registry unchanged when `id` was never
    /// created via a lookup.
    pub fn edit_module_source(&mut self, id: i32, text: String) -> (r: Result<(), RegistryError>)
        ensures
            old(self)@.contains_key(id) ==> r is Ok && final(self)@ == old(self)@.insert(
                id,
                ModuleView { is_open: old(self)@[id].is_open, source: text@ },
            ),
            !old(self)@.contains_key(id) ==> r == Err::<(), RegistryError>(RegistryError::NotFound)
                && final(self)@ == old(self)@,
    {
        if self.modules.contains_key(&id) {
            let open_flag = self.modules.get(&id).unwrap().is_open;
            self.modules.insert(id, ModuleState { is_open: open_flag, source: text });
            proof {
                assert(self@ =~= old(self)@.insert(
                    id,
                    ModuleView { is_open: old(self)@[id].is_open, source: text@ },
                ));
            }
            Ok(())
        } else {
            Err(RegistryError::NotFound)
        }
    }

    /// Sets the open/closed flag of the module bound to `id`; fails with
    /// `NotFound` and leaves the registry unchanged when `id` was never
    /// created via a lookup.
    pub fn set_module_open(&mut self, id: i32, open_flag: bool) -> (r: Result<(), RegistryError>)
        ensures
            old(self)@.contains_key(id) ==> r is Ok && final(self)@ == old(self)@.insert(
                id,
                ModuleView { is_open: open_flag, source: old(self)@[id].source },
            ),
            !old(self)@.contains_key(id) ==> r == Err::<(), RegistryError>(RegistryError::NotFound)
                && final(self)@ == old(self)@,
    {
        if self.modules.contains_key(&id) {
            let text = self.modules.get(&id).unwrap().source.clone();
            self.modules.insert(id, ModuleState { is_open: open_flag, source: text });
            proof {
                assert(self@ =~= old(self)@.insert(
                    id,
                    ModuleView { is_open: open_flag, source: old(self)@[id].source },
                ));
            }
            Ok(())
        } else {
            Err(RegistryError::NotFound)
        }
    }
}

/// Law: looking up the same identifier twice with no intervening removal
/// yields the same module both times, and the second lookup leaves the
/// registry unchanged — the two results refer to one underlying module.
pub proof fn lemma_lookup_stable(m: Map<i32, ModuleView>, id: i32)
    ensures
        registry_after_lookup(registry_after_lookup(m, id), id) == registry_after_lookup(m, id),
        looked_up(registry_after_lookup(m, id), id) == looked_up(m, id),
{
    assert(registry_after_lookup(m, id).contains_key(id));
}

/// Law: an edit of a module's source made through the registry is visible
/// to the next lookup of the same identifier.
pub proof fn lemma_edit_visible(m: Map<i32, ModuleView>, id: i32, text: Seq<char>)
    requires
        m.contains_key(id),
    ensures
        looked_up(m.insert(id, ModuleView { is_open: m[id].is_open, source: text }), id) == (
        ModuleView { is_open: m[id].is_open, source: text }),
{
}

} // verus!
