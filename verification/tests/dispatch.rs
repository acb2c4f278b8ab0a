use ed25519_dalek::{Signer, SigningKey};
use interaction_gate::dispatch::{debug, dispatch, handler, vroom};
use interaction_gate::errors::PipelineError;
use interaction_gate::interaction::{Interaction, InteractionKind};
use interaction_gate::pipeline::interaction_handler;
use interaction_gate::response::{channel_message, pong, CallbackData, InteractionResponse};
use twilight_model::application::interaction::Interaction as PlatformInteraction;

const COMPONENT_BODY: &[u8] = br#"{"application_id":"1","authorizing_integration_owners":{},"id":"2","token":"t","type":3,"data":{"custom_id":"x","component_type":2}}"#;

const UNKNOWN_COMMAND_BODY: &[u8] = br#"{"application_id":"1","authorizing_integration_owners":{},"id":"2","token":"t","type":2,"data":{"id":"3","name":"mystery","type":1}}"#;

fn send_signed(body: &[u8]) -> Result<InteractionResponse, PipelineError> {
    let sk = SigningKey::from_bytes(&[7u8; 32]);
    let ts = "1700000000";
    let mut msg = ts.as_bytes().to_vec();
    msg.extend_from_slice(body);
    let sig = hex::encode(sk.sign(&msg).to_bytes());
    interaction_handler(
        &hex::encode(sk.verifying_key().to_bytes()),
        &Some("application/json".to_string()),
        &Some(ts.to_string()),
        &Some(sig),
        &body.to_vec(),
    )
}

fn expected_echo(body: &[u8]) -> String {
    let platform: PlatformInteraction = serde_json::from_slice(body).unwrap();
    format!("```rust\n{:?}\n```", platform)
}

#[test]
fn component_interaction_is_unsupported() {
    assert_eq!(
        send_signed(COMPONENT_BODY),
        Err(PipelineError::UnsupportedInteraction)
    );
}

#[test]
fn unknown_command_falls_back_to_debug_echo() {
    let r = send_signed(UNKNOWN_COMMAND_BODY);
    assert_eq!(
        r,
        Ok(InteractionResponse::ChannelMessageWithSource(CallbackData {
            content: Some(expected_echo(UNKNOWN_COMMAND_BODY)),
            tts: None,
            flags: None,
        }))
    );
}

#[test]
fn dispatch_ping_needs_no_handler() {
    let i = Interaction {
        kind: InteractionKind::Ping,
        repr: "ignored".to_string(),
    };
    assert_eq!(dispatch(&i), Ok(InteractionResponse::Pong));
}

#[test]
fn dispatch_other_is_refused() {
    let i = Interaction {
        kind: InteractionKind::Other,
        repr: "ignored".to_string(),
    };
    assert_eq!(dispatch(&i), Err(PipelineError::UnsupportedInteraction));
}

#[test]
fn handler_routes_hello_to_vroom() {
    let i = Interaction {
        kind: InteractionKind::ApplicationCommand {
            name: "hello".to_string(),
        },
        repr: "whatever".to_string(),
    };
    assert_eq!(
        handler(&i),
        Ok(InteractionResponse::ChannelMessageWithSource(CallbackData {
            content: Some("Vroom vroom".to_string()),
            tts: None,
            flags: None,
        }))
    );
}

#[test]
fn handler_refuses_non_commands() {
    let i = Interaction {
        kind: InteractionKind::Ping,
        repr: "p".to_string(),
    };
    assert_eq!(handler(&i), Err(PipelineError::HandlerFailure));
}

#[test]
fn debug_handler_echoes_the_rendering() {
    let i = Interaction {
        kind: InteractionKind::ApplicationCommand {
            name: "anything".to_string(),
        },
        repr: "Rendered { value: 3 }".to_string(),
    };
    let r = debug(&i).unwrap();
    assert_eq!(
        r,
        InteractionResponse::ChannelMessageWithSource(CallbackData {
            content: Some("```rust\nRendered { value: 3 }\n```".to_string()),
            tts: None,
            flags: None,
        })
    );
}

#[test]
fn vroom_ignores_its_payload() {
    let i = Interaction {
        kind: InteractionKind::Other,
        repr: "anything".to_string(),
    };
    let r = vroom(&i).unwrap();
    assert_eq!(
        r,
        InteractionResponse::ChannelMessageWithSource(CallbackData {
            content: Some("Vroom vroom".to_string()),
            tts: None,
            flags: None,
        })
    );
}

#[test]
fn builders_set_only_content() {
    assert_eq!(pong(), InteractionResponse::Pong);
    let r = channel_message("hi".to_string());
    match r {
        InteractionResponse::ChannelMessageWithSource(d) => {
            assert_eq!(d.content, Some("hi".to_string()));
            assert_eq!(d.tts, None);
            assert_eq!(d.flags, None);
        }
        InteractionResponse::Pong => panic!("expected a message"),
    }
}

#[test]
fn statuses_and_messages_match_the_taxonomy() {
    let table: Vec<(PipelineError, u16, &str)> = vec![
        (PipelineError::BadContentType, 400, "Bad Content Type"),
        (PipelineError::MissingHeader, 400, "missing signature header"),
        (
            PipelineError::BadSignatureEncoding,
            400,
            "could not decode signature",
        ),
        (PipelineError::InvalidKey, 500, "could not decode public key"),
        (PipelineError::Unauthorized, 401, "not authorized"),
        (
            PipelineError::MalformedPayload,
            400,
            "could not decode interaction",
        ),
        (
            PipelineError::UnsupportedInteraction,
            400,
            "unsupported interaction type",
        ),
        (PipelineError::HandlerFailure, 500, "invalid interaction data"),
    ];
    for (e, status, msg) in table {
        assert_eq!(e.status_code(), status);
        assert_eq!(e.message(), msg.to_string());
    }
}
