use vstd::prelude::*;
use twilight_model::application::interaction::{
    Interaction as PlatformInteraction, InteractionData as PlatformInteractionData,
    InteractionType as PlatformInteractionType,
};

verus! {

/// Which kind of event the platform sent. Exactly one variant is active;
/// every kind this core does not handle decodes to `Other`, so that the
/// dispatcher — not the decoder — owns the rejection policy.
#[derive(Clone, Debug, PartialEq, Eq)]
pub enum InteractionKind {
    /// The platform's health check.
    Ping,
    /// A slash-command invocation, carrying the command's name.
    ApplicationCommand { name: String },
    /// Any other platform-defined kind (components, autocomplete, ...).
    Other,
}

/// A decoded interaction event: its kind plus the platform value's debug
/// rendering, which the fallback handler echoes back.
#[derive(Clone, Debug, PartialEq, Eq)]
pub struct Interaction {
    pub kind: InteractionKind,
    pub repr: String,
}

/// Mathematical image of `InteractionKind`.
pub enum KindView {
    Ping,
    Command { name: Seq<char> },
    Other,
}

/// Mathematical image of `Interaction`.
pub struct InteractionView {
    pub kind: KindView,
    pub repr: Seq<char>,
}

impl View for InteractionKind {
    type V = KindView;

    open spec fn view(&self) -> KindView {
        match self {
            InteractionKind::Ping => KindView::Ping,
            InteractionKind::ApplicationCommand { name } => KindView::Command { name: name@ },
            InteractionKind::Other => KindView::Other,
        }
    }
}

impl View for Interaction {
    type V = InteractionView;

    open spec fn view(&self) -> InteractionView {
        InteractionView { kind: self.kind@, repr: self.repr@ }
    }
}

/// What the platform's JSON decoder makes of a body: `None` for a payload
/// it rejects, otherwise the event's kind (with the command name). This
/// much is a function of the bytes alone. A type number the platform model
/// itself refuses to parse fails the decode — it cannot become `Other`.
pub uninterp spec fn parsed_kind(body: Seq<u8>) -> Option<KindView>;

/// Relies on `serde_json::from_slice` for `twilight_model`'s `Interaction`:
/// whether the bytes parse, the kind and the command name are functions of
/// the bytes alone. The `Debug` rendering in `repr` is not — it walks hash
/// maps in hasher order — so nothing is claimed of it.
#[verifier::external_body]
pub(crate) fn decode_interaction(body: &Vec<u8>) -> (r: Option<Interaction>)
    ensures
        r is Some <==> parsed_kind(body@) is Some,
        r matches Some(i) ==> parsed_kind(body@) == Some(i@.kind),
{
    let parsed = serde_json::from_slice::<PlatformInteraction>(body.as_slice()).ok()?;
    let kind = match parsed.kind {
        PlatformInteractionType::Ping => InteractionKind::Ping,
        PlatformInteractionType::ApplicationCommand => match &parsed.data {
            Some(PlatformInteractionData::ApplicationCommand(d)) => {
                InteractionKind::ApplicationCommand { name: d.name.clone() }
            },
            _ => InteractionKind::Other,
        },
        _ => InteractionKind::Other,
    };
    let repr = format!("{:?}", parsed);
    Some(Interaction { kind, repr })
}

} // verus!
