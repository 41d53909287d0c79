use vstd::prelude::*;
use crate::client::OpenRouterClient;
use crate::pairing::{PairingDisplay, is_qr_error_text, lines_view, pairing_display, qr_drawing_of, scan_lines};
use crate::router::{Action, InboundText, route, route_result};

verus! {

/// The events of the messaging client that the bot tells apart.
#[derive(Clone, Debug)]
pub enum BridgeEvent {
    /// A pairing code was issued; it is shown as a QR code.
    PairingCode(String),
    /// The connection is up.
    Connected,
    /// A chat message came in.
    Message(InboundText),
    /// Anything else.
    Other,
}

/// What the bot does with an event.
#[derive(Clone, Debug)]
pub enum BridgeAction {
    ShowPairing(PairingDisplay),
    AnnounceConnected,
    Handle(Action),
    Ignore,
}

/// Dispatches one event of the messaging client: pairing codes are shown,
/// the connection is announced, messages are routed, the rest is ignored.
pub fn dispatch(client: &OpenRouterClient, event: &BridgeEvent) -> (r: BridgeAction)
    ensures
        match *event {
            BridgeEvent::PairingCode(code) => match r {
                BridgeAction::ShowPairing(d) => match qr_drawing_of(code@) {
                    Some(q) => match d {
                        PairingDisplay::Scan(lines) => lines_view(lines@) == scan_lines(q),
                        _ => false,
                    },
                    None => match d {
                        PairingDisplay::Failed { reason, raw } => is_qr_error_text(reason@) && raw@ == code@,
                        _ => false,
                    },
                },
                _ => false,
            },
            BridgeEvent::Connected => r is AnnounceConnected,
            BridgeEvent::Message(m) => match r {
                BridgeAction::Handle(a) => route_result(client@, m, a),
                _ => false,
            },
            BridgeEvent::Other => r is Ignore,
        },
{
    match event {
        BridgeEvent::PairingCode(code) => BridgeAction::ShowPairing(pairing_display(code.as_str())),
        BridgeEvent::Connected => BridgeAction::AnnounceConnected,
        BridgeEvent::Message(m) => BridgeAction::Handle(route(client, m)),
        BridgeEvent::Other => BridgeAction::Ignore,
    }
}

} // verus!
