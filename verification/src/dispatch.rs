use vstd::prelude::*;
use vstd::string::StringExecFns;
use crate::errors::PipelineError;
use crate::interaction::{Interaction, InteractionKind, InteractionView, KindView};
use crate::response::{channel_message, message_view, pong, InteractionResponse, ResponseView};

verus! {

/// The fixed reply of the `hello` command.
pub open spec fn greeting() -> Seq<char> {
    "Vroom vroom"@
}

/// The fallback handler's reply: the interaction's rendering in a fenced
/// code block.
pub open spec fn debug_wrap(repr: Seq<char>) -> Seq<char> {
    "```rust\n"@ + repr + "\n```"@
}

/// Image of an exec dispatch outcome.
pub open spec fn outcome_view(r: Result<InteractionResponse, PipelineError>) -> Result<
    ResponseView,
    PipelineError,
> {
    match r {
        Ok(v) => Ok(v@),
        Err(e) => Err(e),
    }
}

/// What the command registry answers: the registered `hello` command's
/// greeting, and the fallback's echo for every other name. Only command
/// invocations reach a handler; anything else is the handler's own error.
pub open spec fn handler_spec(i: InteractionView) -> Result<ResponseView, PipelineError> {
    match i.kind {
        KindView::Command { name } => Ok(
            message_view(
                if name == "hello"@ {
                    greeting()
                } else {
                    debug_wrap(i.repr)
                },
            ),
        ),
        _ => Err(PipelineError::HandlerFailure),
    }
}

/// The dispatcher's state machine: ping answers pong with no handler
/// involved, command invocations go to the registry, and every other kind
/// is refused.
pub open spec fn dispatch_spec(i: InteractionView) -> Result<ResponseView, PipelineError> {
    match i.kind {
        KindView::Ping => Ok(ResponseView::Pong),
        KindView::Command { .. } => handler_spec(i),
        KindView::Other => Err(PipelineError::UnsupportedInteraction),
    }
}

/// Handler of the `hello` command: a fixed greeting, whatever the payload.
pub fn vroom(_i: &Interaction) -> (r: Result<InteractionResponse, PipelineError>)
    ensures
        r matches Ok(v) && v@ == message_view(greeting()),
{
    Ok(channel_message("Vroom vroom".to_owned()))
}

/// Fallback handler: echo the interaction's rendering, so an unregistered
/// command stays diagnosable instead of failing the request.
pub fn debug(i: &Interaction) -> (r: Result<InteractionResponse, PipelineError>)
    ensures
        r matches Ok(v) && v@ == message_view(debug_wrap(i.repr@)),
{
    let mut content = String::from_str("```rust\n");
    content.append(i.repr.as_str());
    content.append("\n```");
    Ok(channel_message(content))
}

/// The command registry: route an invocation by its command name. `hello`
/// is the one registered command; every other name falls back to `debug`.
pub fn handler(i: &Interaction) -> (r: Result<InteractionResponse, PipelineError>)
    ensures
        outcome_view(r) == handler_spec(i@),
{
    match &i.kind {
        InteractionKind::ApplicationCommand { name } => {
            if *name == "hello".to_owned() {
                vroom(i)
            } else {
                debug(i)
            }
        },
        _ => Err(PipelineError::HandlerFailure),
    }
}

/// Route a decoded interaction: `Ping` answers `Pong` directly, a command
/// invocation consults the registry, and any other kind is refused. A
/// handler's own error propagates; it is never swallowed.
pub fn dispatch(i: &Interaction) -> (r: Result<InteractionResponse, PipelineError>)
    ensures
        outcome_view(r) == dispatch_spec(i@),
{
    match &i.kind {
        InteractionKind::Ping => Ok(pong()),
        InteractionKind::ApplicationCommand { .. } => match handler(i) {
            Ok(v) => Ok(v),
            Err(e) => Err(e),
        },
        InteractionKind::Other => Err(PipelineError::UnsupportedInteraction),
    }
}

} // verus!
