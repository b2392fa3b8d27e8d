//! The command registry: an ordered collection of command definitions,
//! built once at startup, with names unique within the registry.

use vstd::prelude::*;

verus! {

/// One declared parameter of a command: what it is called, what it is for,
/// and whether the platform must demand it from the invoking user.
pub struct ParameterSpec {
    pub name: String,
    pub description: String,
    pub required: bool,
}

/// The tagged handler a command definition points at. All handlers share one
/// contract: given an invocation context and the shared state, produce a
/// reply or fail. Resolution is by name lookup in the registry, never by
/// reflection.
#[derive(Clone, Copy)]
pub enum Handler {
    /// Replies with a fixed text and cannot fail.
    Ping,
}

/// An immutable command definition: created at startup, never mutated.
pub struct CommandDefinition {
    pub name: String,
    pub description: String,
    pub parameters: Vec<ParameterSpec>,
    pub handler: Handler,
}

/// A startup-time configuration error of the registry.
#[derive(Debug)]
pub enum RegistryError {
    /// Two definitions share this name.
    DuplicateCommandName(String),
}

/// An ordered sequence of command definitions with pairwise distinct names.
/// Read-only after construction.
pub struct CommandRegistry {
    pub defs: Vec<CommandDefinition>,
}

/// All names in `defs` are pairwise distinct.
pub open spec fn names_unique(defs: Seq<CommandDefinition>) -> bool {
    forall|i: int, j: int|
        0 <= i < j < defs.len() ==> defs[i].name@ != defs[j].name@
}

impl View for CommandRegistry {
    type V = Seq<CommandDefinition>;

    open spec fn view(&self) -> Seq<CommandDefinition> {
        self.defs@
    }
}

impl CommandRegistry {
    /// The registry's invariant: duplicate names are a construction error,
    /// so a registry that exists has unique names.
    pub open spec fn wf(&self) -> bool {
        names_unique(self@)
    }

    /// Some definition in the registry carries the name `n`.
    pub open spec fn spec_contains_name(&self, n: Seq<char>) -> bool {
        exists|i: int| 0 <= i < self@.len() && self@[i].name@ == n
    }

    /// Builds the registry from the declared definitions. Pure and
    /// deterministic; fails exactly when two definitions share a name, and
    /// then reports a name that is duplicated.
    pub fn build(defs: Vec<CommandDefinition>) -> (r: Result<CommandRegistry, RegistryError>)
        ensures
            match r {
                Ok(reg) => names_unique(defs@) && reg@ == defs@ && reg.wf(),
                Err(RegistryError::DuplicateCommandName(n)) => {
                    &&& !names_unique(defs@)
                    &&& exists|i: int, j: int|
                        0 <= i < j < defs@.len() && defs@[i].name@ == defs@[j].name@
                            && defs@[j].name@ == n@
                },
            },
    {
        let mut j: usize = 0;
        while j < defs.len()
            invariant
                j <= defs@.len(),
                forall|a: int, b: int|
                    0 <= a < b < j ==> defs@[a].name@ != defs@[b].name@,
            decreases defs@.len() - j,
        {
            let mut i: usize = 0;
            while i < j
                invariant
                    i <= j < defs@.len(),
                    forall|a: int| 0 <= a < i ==> defs@[a].name@ != defs@[j as int].name@,
                decreases j - i,
            {
                if defs[i].name == defs[j].name {
                    return Err(RegistryError::DuplicateCommandName(defs[j].name.clone()));
                }
                i += 1;
            }
            j += 1;
        }
        Ok(CommandRegistry { defs })
    }

    /// How many commands the registry declares.
    pub fn len(&self) -> (n: usize)
        ensures
            n == self@.len(),
    {
        self.defs.len()
    }

    /// The definition at position `i`, in declaration order.
    pub fn get(&self, i: usize) -> (d: &CommandDefinition)
        requires
            i < self@.len(),
        ensures
            *d == self@[i as int],
    {
        &self.defs[i]
    }

    /// Resolves a command name to the position of its definition: the first
    /// (and, by the invariant, only) definition carrying the name, or `None`
    /// when the name is not registered.
    pub fn lookup(&self, name: &String) -> (r: Option<usize>)
        ensures
            match r {
                Some(i) => {
                    &&& i < self@.len()
                    &&& self@[i as int].name@ == name@
                    &&& forall|k: int| 0 <= k < i ==> self@[k].name@ != name@
                },
                None => !self.spec_contains_name(name@),
            },
    {
        let mut i: usize = 0;
        while i < self.defs.len()
            invariant
                i <= self@.len(),
                forall|k: int| 0 <= k < i ==> self@[k].name@ != name@,
            decreases self@.len() - i,
        {
            if self.defs[i].name == *name {
                return Some(i);
            }
            i += 1;
        }
        None
    }
}

} // verus!
