//! The dispatcher: resolves each inbound interaction event to the matching
//! command, constructs a request-scoped execution context, and hands the
//! invocation to an independent task so that a slow handler never stalls
//! the receive loop.

use vstd::prelude::*;
use vstd::string::StringExecFns;
use crate::registry::{CommandRegistry, Handler};
use crate::session::SharedState;

verus! {

/// One inbound message from the gateway's event sequence.
pub enum Event {
    /// A user invoked a command by name.
    Invocation { interaction: u64, user: u64, command_name: String },
    /// A keep-alive from the transport; not an invocation.
    Heartbeat,
    /// The transport noticed a drop; handled by the session manager, not
    /// an invocation.
    DisconnectNotice,
}

/// The request-scoped execution context: constructed fresh per invocation,
/// destroyed after the handler returns or fails. The reply channel it
/// stands for is addressed by the interaction identity.
pub struct InvocationContext {
    pub interaction: u64,
    pub user: u64,
}

/// What a handler produces on success.
pub struct Reply {
    pub text: String,
}

/// Why a handler failed. Converted to a generic failure reply by the
/// receive loop; never fatal.
pub enum HandlerError {
    Failed(String),
}

/// What the dispatcher decides for one event, terminal in one step.
pub enum DispatchAction {
    /// The event is not an invocation: nothing to do.
    Ignore,
    /// The invoked name is not registered: send the generic
    /// command-unavailable reply for this interaction, and nothing else.
    ReplyUnavailable { interaction: u64 },
    /// The name resolved to the definition at `index`: run its handler on
    /// an independent task with this fresh context.
    Invoke { index: usize, context: InvocationContext },
}

/// The fixed text of the reply to an invocation of an unregistered command.
pub open spec fn unavailable_reply_text() -> Seq<char> {
    "command unavailable"@
}

/// The fixed text of the reply sent when a handler fails.
pub open spec fn failure_reply_text() -> Seq<char> {
    "command failed"@
}

/// The fixed text the ping handler replies with.
pub open spec fn ping_reply_text() -> Seq<char> {
    "pong"@
}

/// The reply text an invocation of `h` ends in: handlers that cannot fail
/// reply with their own text, so ping always replies with its fixed text.
pub open spec fn completion_text(h: Handler) -> Seq<char> {
    match h {
        Handler::Ping => ping_reply_text(),
    }
}

/// The generic reply sent for an unregistered command name.
pub fn unavailable_reply() -> (s: String)
    ensures
        s@ == unavailable_reply_text(),
{
    String::from_str("command unavailable")
}

/// The generic reply sent when a handler fails.
pub fn failure_reply() -> (s: String)
    ensures
        s@ == failure_reply_text(),
{
    String::from_str("command failed")
}

/// Runs the handler `h` with a request-scoped context and the process-wide
/// shared state. The ping handler returns its fixed reply and cannot fail.
pub fn run_handler(h: &Handler, context: &InvocationContext, shared: &SharedState) -> (r: Result<
    Reply,
    HandlerError,
>)
    ensures
        match h {
            Handler::Ping => r matches Ok(rep) && rep.text@ == ping_reply_text(),
        },
{
    match h {
        Handler::Ping => Ok(Reply { text: String::from_str("pong") }),
    }
}

/// Decides one event against the registry: non-invocations are ignored; an
/// unregistered name draws exactly the generic-unavailable reply; a
/// registered name resolves to its (unique) definition together with a
/// fresh context carrying the event's identity. No decision terminates the
/// receive loop.
pub fn dispatch_step(reg: &CommandRegistry, ev: &Event) -> (a: DispatchAction)
    ensures
        match *ev {
            Event::Heartbeat | Event::DisconnectNotice => a is Ignore,
            Event::Invocation { interaction, user, command_name: ref n } => {
                if reg.spec_contains_name(n@) {
                    &&& a matches DispatchAction::Invoke { index, context }
                    &&& index < reg@.len()
                    &&& reg@[index as int].name@ == n@
                    &&& forall|k: int| 0 <= k < index ==> reg@[k].name@ != n@
                    &&& context.interaction == interaction
                    &&& context.user == user
                } else {
                    a == (DispatchAction::ReplyUnavailable { interaction })
                }
            },
        },
{
    match ev {
        Event::Heartbeat | Event::DisconnectNotice => DispatchAction::Ignore,
        Event::Invocation { interaction, user, command_name } => {
            match reg.lookup(command_name) {
                Some(index) => DispatchAction::Invoke {
                    index,
                    context: InvocationContext { interaction: *interaction, user: *user },
                },
                None => DispatchAction::ReplyUnavailable { interaction: *interaction },
            }
        },
    }
}

/// One invocation whose handler is running on its own task and has not
/// completed yet.
#[derive(Clone, Copy)]
pub struct PendingInvocation {
    pub interaction: u64,
    pub user: u64,
    pub handler: Handler,
}

/// One reply sent back through the session, addressed to an interaction.
pub struct OutboundReply {
    pub interaction: u64,
    pub text: String,
}

/// The value of one outbound reply: whom it answers and what it says.
pub open spec fn reply_model(r: OutboundReply) -> (u64, Seq<char>) {
    (r.interaction, r.text@)
}

/// The receive loop: pulls events serially, but runs each invocation's
/// handler on an independent task, so the set of in-flight invocations
/// grows without awaiting any completion, and completions may land in any
/// order.
pub struct ReceiveLoop {
    /// Invocations dispatched but not completed, in dispatch order.
    pub in_flight: Vec<PendingInvocation>,
    /// Replies sent through the session so far, in send order.
    pub sent: Vec<OutboundReply>,
}

impl ReceiveLoop {
    /// A fresh loop: nothing in flight, nothing sent.
    pub fn new() -> (l: ReceiveLoop)
        ensures
            l.in_flight@.len() == 0,
            l.sent@.len() == 0,
    {
        ReceiveLoop { in_flight: Vec::new(), sent: Vec::new() }
    }

    /// Feeds one event through the dispatcher. A non-invocation changes
    /// nothing. An unregistered name draws exactly one generic-unavailable
    /// reply and the loop carries on. A registered name adds exactly one
    /// in-flight invocation and sends nothing: the loop never awaits a
    /// handler, so its throughput is independent of handler latency.
    pub fn handle_event(&mut self, reg: &CommandRegistry, ev: &Event)
        ensures
            match *ev {
                Event::Heartbeat | Event::DisconnectNotice => {
                    &&& final(self).in_flight@ == old(self).in_flight@
                    &&& final(self).sent@ == old(self).sent@
                },
                Event::Invocation { interaction, user, command_name: ref n } => {
                    if reg.spec_contains_name(n@) {
                        &&& final(self).sent@ == old(self).sent@
                        &&& exists|i: int|
                            {
                                &&& 0 <= i < reg@.len()
                                &&& reg@[i].name@ == n@
                                &&& (forall|k: int| 0 <= k < i ==> reg@[k].name@ != n@)
                                &&& final(self).in_flight@ == old(self).in_flight@.push(
                                    PendingInvocation {
                                        interaction,
                                        user,
                                        handler: reg@[i].handler,
                                    },
                                )
                            }
                    } else {
                        &&& final(self).in_flight@ == old(self).in_flight@
                        &&& final(self).sent@.len() == old(self).sent@.len() + 1
                        &&& final(self).sent@.subrange(0, old(self).sent@.len() as int) == old(
                            self,
                        ).sent@
                        &&& reply_model(final(self).sent@.last()) == (
                            interaction,
                            unavailable_reply_text(),
                        )
                    }
                },
            },
    {
        let action = dispatch_step(reg, ev);
        match action {
            DispatchAction::Ignore => {},
            DispatchAction::ReplyUnavailable { interaction } => {
                self.sent.push(OutboundReply { interaction, text: unavailable_reply() });
                proof {
                    assert(final(self).sent@.subrange(0, old(self).sent@.len() as int) =~= old(
                        self,
                    ).sent@);
                }
            },
            DispatchAction::Invoke { index, context } => {
                let handler = reg.get(index).handler;
                self.in_flight.push(
                    PendingInvocation {
                        interaction: context.interaction,
                        user: context.user,
                        handler,
                    },
                );
            },
        }
    }

    /// Completes the in-flight invocation at position `k` — completion
    /// order across concurrent handlers is unspecified, so any position
    /// may finish first. The invocation leaves the in-flight set and
    /// exactly one reply goes out for its interaction: the handler's reply
    /// on success, the generic failure reply otherwise (never fatal). For
    /// ping that reply is always its fixed text.
    pub fn complete_task(&mut self, k: usize, shared: &SharedState)
        requires
            k < old(self).in_flight@.len(),
        ensures
            final(self).in_flight@ == old(self).in_flight@.remove(k as int),
            final(self).sent@.len() == old(self).sent@.len() + 1,
            final(self).sent@.subrange(0, old(self).sent@.len() as int) == old(self).sent@,
            reply_model(final(self).sent@.last()) == (
                old(self).in_flight@[k as int].interaction,
                completion_text(old(self).in_flight@[k as int].handler),
            ),
    {
        let task = self.in_flight.remove(k);
        let context = InvocationContext { interaction: task.interaction, user: task.user };
        let text = match run_handler(&task.handler, &context, shared) {
            Ok(reply) => reply.text,
            Err(_) => failure_reply(),
        };
        self.sent.push(OutboundReply { interaction: task.interaction, text });
        proof {
            assert(final(self).sent@.subrange(0, old(self).sent@.len() as int) =~= old(
                self,
            ).sent@);
        }
    }
}

} // verus!
