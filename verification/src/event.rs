//! What the command line prints of the engine's events.
use crate::engine::EngineEvent;
use crate::session::SessionEvent;
use crate::size;
use crate::text;
use vstd::prelude::*;

verus! {

/// An offer that waits for the user's answer.
#[derive(Debug, Clone)]
pub struct PendingOffer {
    pub session_id: u64,
    pub transfer_id: String,
    pub filename: String,
    pub size_bytes: u64,
}

/// What an event comes to at the command line.
#[derive(Debug, Clone)]
pub enum Printout {
    /// Text to print, and the prompt after it.
    Text(String),
    /// Text to print, the prompt after it, and a question to put to the user.
    Question { text: String, offer: PendingOffer },
    /// A progress bar to draw over the last one.
    Bar { session_id: u64, sent: u64, total: u64 },
    /// Nothing.
    Silent,
}

/// How lines about a session begin.
pub open spec fn session_prefix(symbol: Seq<char>, session_id: u64) -> Seq<char> {
    symbol + " Session #"@ + text::decimal(session_id as nat)
}

/// What is printed of an event that is put in words alone.
pub open spec fn session_event_text(id: u64, event: SessionEvent) -> Seq<char> {
    match event {
        SessionEvent::Connected { peer_device_name } => session_prefix("\n  🤝"@, id)
            + ": handshake complete with \""@ + peer_device_name@ + "\""@,
        SessionEvent::TransferOffered { filename, size_bytes, .. } => session_prefix("\n  📥"@, id)
            + ": incoming transfer offer!\n     File: "@ + filename@ + "  ("@ + size::size_text(
            size_bytes as nat,
        ) + ")\n     Type 'accept' or 'deny' to respond."@,
        SessionEvent::TransferAccepted { transfer_id } => session_prefix("\n  ✅"@, id)
            + ": transfer "@ + transfer_id@ + " accepted by peer — sending file..."@,
        SessionEvent::TransferDenied { transfer_id } => session_prefix("\n  🚫"@, id)
            + ": transfer "@ + transfer_id@ + " denied by peer"@,
        SessionEvent::TransferComplete { transfer_id } => session_prefix("\n  🎉"@, id)
            + ": transfer "@ + transfer_id@ + " complete!"@,
        SessionEvent::Error { message } => session_prefix("\n  ❌"@, id) + ": error — "@ + message@,
        SessionEvent::Finished => session_prefix("  👋"@, id) + ": session finished"@,
        SessionEvent::TransferProgress { .. } | SessionEvent::FileStored { .. } => Seq::empty(),
    }
}

fn prefix(symbol: &str, session_id: u64) -> (s: String)
    ensures
        s@ == session_prefix(symbol@, session_id),
{
    let mut s = String::from_str(symbol).concat(" Session #");
    text::push_decimal(&mut s, session_id);
    s
}

/// Says what to print of a session event. The progress of an empty file is not shown, nor is
/// the name that a file was stored under.
pub fn handle_session_event(session_id: u64, event: SessionEvent) -> (out: Printout)
    ensures
        match event {
            SessionEvent::TransferOffered { transfer_id, filename, size_bytes } => {
                out matches Printout::Question { text, offer } && text@ == session_event_text(
                    session_id,
                    event,
                ) && offer == (PendingOffer { session_id, transfer_id, filename, size_bytes })
            },
            SessionEvent::TransferProgress { bytes_transferred, total_bytes, .. } => if total_bytes
                > 0 {
                out == (Printout::Bar { session_id, sent: bytes_transferred, total: total_bytes })
            } else {
                out is Silent
            },
            SessionEvent::FileStored { .. } => out is Silent,
            _ => out matches Printout::Text(s) && s@ == session_event_text(session_id, event),
        },
{
    match event {
        SessionEvent::Connected { peer_device_name } => Printout::Text(
            prefix("\n  🤝", session_id).concat(": handshake complete with \"").concat(
                peer_device_name.as_str(),
            ).concat("\""),
        ),
        SessionEvent::TransferOffered { transfer_id, filename, size_bytes } => {
            let text = prefix("\n  📥", session_id).concat(
                ": incoming transfer offer!\n     File: ",
            ).concat(filename.as_str()).concat("  (").concat(
                size::format_size(size_bytes).as_str(),
            ).concat(")\n     Type 'accept' or 'deny' to respond.");
            Printout::Question {
                text,
                offer: PendingOffer { session_id, transfer_id, filename, size_bytes },
            }
        },
        SessionEvent::TransferAccepted { transfer_id } => Printout::Text(
            prefix("\n  ✅", session_id).concat(": transfer ").concat(
                transfer_id.as_str(),
            ).concat(" accepted by peer — sending file..."),
        ),
        SessionEvent::TransferDenied { transfer_id } => Printout::Text(
            prefix("\n  🚫", session_id).concat(": transfer ").concat(
                transfer_id.as_str(),
            ).concat(" denied by peer"),
        ),
        SessionEvent::TransferProgress { bytes_transferred, total_bytes, .. } => {
            if total_bytes > 0 {
                Printout::Bar { session_id, sent: bytes_transferred, total: total_bytes }
            } else {
                Printout::Silent
            }
        },
        SessionEvent::FileStored { .. } => Printout::Silent,
        SessionEvent::TransferComplete { transfer_id } => Printout::Text(
            prefix("\n  🎉", session_id).concat(": transfer ").concat(
                transfer_id.as_str(),
            ).concat(" complete!"),
        ),
        SessionEvent::Error { message } => Printout::Text(
            prefix("\n  ❌", session_id).concat(": error — ").concat(message.as_str()),
        ),
        SessionEvent::Finished => Printout::Text(
            prefix("  👋", session_id).concat(": session finished"),
        ),
    }
}

/// Says what to print of an engine event.
pub fn handle_engine_event(event: EngineEvent) -> (out: Printout)
    ensures
        match event {
            EngineEvent::Accepting { addr } => out matches Printout::Text(s) && s@
                == "\n  ✔ Listening on "@ + addr@,
            EngineEvent::AcceptingStopped => out matches Printout::Text(s) && s@
                == "\n  ⏹ Stopped accepting connections"@,
            EngineEvent::SessionCreated { session_id, peer } => out matches Printout::Text(s) && s@
                == session_prefix("\n  📡"@, session_id) + " — connected to "@ + peer@,
            EngineEvent::Error { message } => out matches Printout::Text(s) && s@
                == "\n  ❌ Engine error: "@ + message@,
            EngineEvent::SessionEvent { session_id, event } => match event {
                SessionEvent::TransferOffered { transfer_id, filename, size_bytes } => {
                    out matches Printout::Question { text, offer } && text@ == session_event_text(
                        session_id,
                        event,
                    ) && offer == (PendingOffer { session_id, transfer_id, filename, size_bytes })
                },
                SessionEvent::TransferProgress { bytes_transferred, total_bytes, .. } => {
                    if total_bytes > 0 {
                        out == (Printout::Bar {
                            session_id,
                            sent: bytes_transferred,
                            total: total_bytes,
                        })
                    } else {
                        out is Silent
                    }
                },
                SessionEvent::FileStored { .. } => out is Silent,
                _ => out matches Printout::Text(s) && s@ == session_event_text(session_id, event),
            },
        },
{
    match event {
        EngineEvent::Accepting { addr } => Printout::Text(
            String::from_str("\n  ✔ Listening on ").concat(addr.as_str()),
        ),
        EngineEvent::AcceptingStopped => Printout::Text(
            String::from_str("\n  ⏹ Stopped accepting connections"),
        ),
        EngineEvent::SessionCreated { session_id, peer } => Printout::Text(
            prefix("\n  📡", session_id).concat(" — connected to ").concat(peer.as_str()),
        ),
        EngineEvent::SessionEvent { session_id, event } => handle_session_event(session_id, event),
        EngineEvent::Error { message } => Printout::Text(
            String::from_str("\n  ❌ Engine error: ").concat(message.as_str()),
        ),
    }
}

/// What the user is asked about an offer.
pub fn question_text(offer: &PendingOffer) -> (s: String)
    ensures
        s@ == "\n  📥 Accept \""@ + offer.filename@ + "\" ("@ + size::size_text(
            offer.size_bytes as nat,
        ) + ") from session #"@ + text::decimal(offer.session_id as nat)
            + "?\n     Type 'accept' or 'deny':"@,
{
    let mut s = String::from_str("\n  📥 Accept \"").concat(offer.filename.as_str()).concat(
        "\" (",
    ).concat(size::format_size(offer.size_bytes).as_str()).concat(") from session #");
    text::push_decimal(&mut s, offer.session_id);
    s.concat("?\n     Type 'accept' or 'deny':")
}

/// What is printed of an event names the session and says what happened, in the words of the
/// event.
pub proof fn law_events_are_printed_as_they_are(id: u64, text: String, filename: String, size: u64)
    ensures
        ({
            let session = " Session #"@ + text::decimal(id as nat);
            let connected = SessionEvent::Connected { peer_device_name: text };
            let offered = SessionEvent::TransferOffered {
                transfer_id: text,
                filename,
                size_bytes: size,
            };
            let accepted = SessionEvent::TransferAccepted { transfer_id: text };
            let denied = SessionEvent::TransferDenied { transfer_id: text };
            let complete = SessionEvent::TransferComplete { transfer_id: text };
            let error = SessionEvent::Error { message: text };
            &&& session_event_text(id, connected) =~= "\n  🤝"@ + session
                + ": handshake complete with \""@ + text@ + "\""@
            &&& session_event_text(id, offered) =~= "\n  📥"@ + session
                + ": incoming transfer offer!\n     File: "@ + filename@ + "  ("@ + size::size_text(
                size as nat,
            ) + ")\n     Type 'accept' or 'deny' to respond."@
            &&& session_event_text(id, accepted) =~= "\n  ✅"@ + session + ": transfer "@ + text@
                + " accepted by peer — sending file..."@
            &&& session_event_text(id, denied) =~= "\n  🚫"@ + session + ": transfer "@ + text@
                + " denied by peer"@
            &&& session_event_text(id, complete) =~= "\n  🎉"@ + session + ": transfer "@ + text@
                + " complete!"@
            &&& session_event_text(id, error) =~= "\n  ❌"@ + session + ": error — "@ + text@
            &&& session_event_text(id, SessionEvent::Finished) =~= "  👋"@ + session
                + ": session finished"@
        }),
{
}

} // verus!
