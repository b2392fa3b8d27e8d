//! The registration publisher: the payload pushed to the platform's
//! guild-scoped registration endpoint, and the idempotent-overwrite
//! semantics of publishing.
//!
//! The network call itself is the transport's business; this module states
//! what the call carries (the payload built from the registry) and what a
//! successful call means for the platform (the guild's published command
//! set is fully replaced, with no residual entries).

use vstd::prelude::*;
use crate::registry::{CommandRegistry, ParameterSpec};

verus! {

/// The opaque identifier of the one community the registry is published
/// into.
#[derive(Clone, Copy, Debug)]
pub struct GuildScope {
    pub id: u64,
}

/// Why a publish failed. Either way, startup aborts: a bot with no
/// published commands is useless.
#[derive(Clone, Copy, Debug)]
pub enum PublishError {
    /// The transport could not deliver the registration payload.
    Transport,
    /// The platform rejected the scope identifier.
    InvalidScope,
}

/// One entry of the registration payload: the externally visible face of a
/// command definition (its handler stays inside the process).
pub struct CommandRegistration {
    pub name: String,
    pub description: String,
    pub parameters: Vec<ParameterSpec>,
}

/// The value of one declared parameter: name, description, required flag.
pub open spec fn param_model(p: ParameterSpec) -> (Seq<char>, Seq<char>, bool) {
    (p.name@, p.description@, p.required)
}

/// The payload entry `r` carries exactly what definition `d` declares to
/// the platform: its name, description and parameters, in order.
pub open spec fn registration_matches(
    r: CommandRegistration,
    d: crate::registry::CommandDefinition,
) -> bool {
    &&& r.name@ == d.name@
    &&& r.description@ == d.description@
    &&& r.parameters@.len() == d.parameters@.len()
    &&& forall|j: int|
        0 <= j < d.parameters@.len() ==> param_model(#[trigger] r.parameters@[j]) == param_model(
            d.parameters@[j],
        )
}

/// Builds the registration payload for the whole registry: one entry per
/// definition, in declaration order, carrying exactly the definition's
/// name, description and parameters.
pub fn registration_payload(reg: &CommandRegistry) -> (p: Vec<CommandRegistration>)
    ensures
        p@.len() == reg@.len(),
        forall|i: int| 0 <= i < reg@.len() ==> registration_matches(#[trigger] p@[i], reg@[i]),
{
    let mut out: Vec<CommandRegistration> = Vec::new();
    let mut i: usize = 0;
    while i < reg.len()
        invariant
            i <= reg@.len(),
            out@.len() == i,
            forall|t: int| 0 <= t < i ==> registration_matches(#[trigger] out@[t], reg@[t]),
        decreases reg@.len() - i,
    {
        let d = reg.get(i);
        let mut params: Vec<ParameterSpec> = Vec::new();
        let mut k: usize = 0;
        while k < d.parameters.len()
            invariant
                k <= d.parameters@.len(),
                params@.len() == k,
                forall|a: int|
                    0 <= a < k ==> param_model(#[trigger] params@[a]) == param_model(
                        d.parameters@[a],
                    ),
            decreases d.parameters@.len() - k,
        {
            let q = &d.parameters[k];
            params.push(
                ParameterSpec {
                    name: q.name.clone(),
                    description: q.description.clone(),
                    required: q.required,
                },
            );
            k += 1;
        }
        out.push(
            CommandRegistration {
                name: d.name.clone(),
                description: d.description.clone(),
                parameters: params,
            },
        );
        i += 1;
    }
    out
}

/// The platform's view of one guild scope: which command set is currently
/// published there.
pub struct PublishedScope {
    pub scope: GuildScope,
    pub commands: Vec<CommandRegistration>,
}

/// The platform's view after one successful publish of `payload` into a
/// scope: the payload, and nothing else.
pub open spec fn published_after(s: PublishedScope, payload: Vec<CommandRegistration>) -> PublishedScope {
    PublishedScope { scope: s.scope, commands: payload }
}

impl PublishedScope {
    /// A scope with nothing published yet.
    pub fn new(scope: GuildScope) -> (s: PublishedScope)
        ensures
            s.scope.id == scope.id,
            s.commands@.len() == 0,
    {
        PublishedScope { scope, commands: Vec::new() }
    }

    /// A successful publish fully overwrites the scope's published command
    /// set with the payload: no diffing, no residual entries from any
    /// earlier publish.
    pub fn apply_publish(&mut self, payload: Vec<CommandRegistration>)
        ensures
            *final(self) == published_after(*old(self), payload),
            final(self).scope.id == old(self).scope.id,
            final(self).commands@ == payload@,
    {
        self.commands = payload;
    }
}

/// Publishing is an idempotent overwrite: after publishing twice, only the
/// second payload is externally visible, whatever was published before —
/// the scope ends up exactly as if only the second publish had happened.
pub proof fn lemma_publish_overwrites(
    s: PublishedScope,
    first: Vec<CommandRegistration>,
    second: Vec<CommandRegistration>,
)
    ensures
        published_after(published_after(s, first), second) == published_after(s, second),
        published_after(published_after(s, first), second).commands@ == second@,
{
}

} // verus!
