//! What the bot does with a message of the server, by its kind.

use crate::bot::{lemma_no_line, lemma_one_line, log_lines, Bot};
use crate::bot_info::{Info, LogLevel};
use crate::frame::{frame_parts, split_frame, text_frame};
use crate::login_info::{resume_message, resume_text};
use crate::text::{decimal, decimal_string};
use crate::packet_type::EPacketType;
use crate::tank_packet::{decoded, DecodeError, TankPacket};
use crate::tank_packet_type::ETankPacketType;
use vstd::prelude::*;
use vstd::string::StringExecFns;
use vstd::utf8::{decode_utf8, valid_utf8};

verus! {

/// What follows from a message of the server.
#[derive(Debug, Clone)]
pub enum Reaction {
    /// Nothing.
    Nothing,
    /// This frame goes to the server.
    Send(Vec<u8>),
    /// The server said this; it goes to the log.
    Message(String),
    /// The server calls a function: the packet and the bytes after its
    /// header go to whoever reads the call.
    CallFunction { packet: TankPacket, payload: Vec<u8> },
    /// The bytes were no action packet; the message is dropped, and the
    /// reason goes to the log with the first byte, if there is one.
    DecodeFailed { error: DecodeError, first_byte: Option<u8> },
}

/// The text that bytes spell, with a replacement character in place of each
/// sequence that is no UTF-8.
pub uninterp spec fn lossy_text(bytes: Seq<u8>) -> Seq<char>;

/// Calls `String::from_utf8_lossy`, which reads the bytes as UTF-8 and puts
/// a replacement character in place of each invalid sequence. The contract
/// names the result, and claims that valid UTF-8 is read as it stands.
#[verifier::external_body]
fn read_lossy(data: &[u8]) -> (r: String)
    ensures
        r@ == lossy_text(data@),
        valid_utf8(data@) ==> r@ == decode_utf8(data@),
{
    String::from_utf8_lossy(data).into_owned()
}

/// The text that answers a server hello: the full handshake while the bot
/// is being redirected, else the short message that resumes the session.
pub open spec fn hello_answer(bot: &Bot) -> Seq<char> {
    if bot.state.is_redirecting {
        bot.info.login_info@.handshake()
    } else {
        resume_message(bot.info.token@)
    }
}

/// What a game packet leads to: a call is handed on with the bytes after
/// the header, any other action is passed over, and bytes that are no
/// packet are dropped.
pub open spec fn packet_reaction(data: Seq<u8>, r: Reaction) -> bool {
    match decoded(data) {
        Ok(packet) => if packet._type == ETankPacketType::NetGamePacketCallFunction {
            match r {
                Reaction::CallFunction { packet: p, payload } => p == packet && payload@
                    == data.skip(56),
                _ => false,
            }
        } else {
            r is Nothing
        },
        Err(e) => match r {
            Reaction::DecodeFailed { error, first_byte } => error == e && first_byte == (
            if data.len() > 0 {
                Some(data[0])
            } else {
                None
            }),
            _ => false,
        },
    }
}

/// Whether `r` is what the bot does with a message of the given kind and
/// payload.
pub open spec fn reaction(bot: &Bot, packet_type: EPacketType, data: Seq<u8>, r: Reaction) -> bool {
    match packet_type {
        EPacketType::NetMessageServerHello => if bot.connected() {
            match r {
                Reaction::Send(frame) => frame@ == text_frame(
                    EPacketType::NetMessageGenericText,
                    hello_answer(bot),
                ),
                _ => false,
            }
        } else {
            r is Nothing
        },
        EPacketType::NetMessageGameMessage => match r {
            Reaction::Message(text) => text@ == lossy_text(data) && (valid_utf8(data) ==> text@
                == decode_utf8(data)),
            _ => false,
        },
        EPacketType::NetMessageGamePacket => packet_reaction(data, r),
        _ => r is Nothing,
    }
}

/// Reads a game packet and says what it leads to.
pub fn handle_game_packet(data: &[u8]) -> (r: Reaction)
    ensures
        packet_reaction(data@, r),
{
    match TankPacket::decode(data) {
        Ok(packet) => {
            if matches!(packet._type, ETankPacketType::NetGamePacketCallFunction) {
                let rest = TankPacket::extended_data(data);
                Reaction::CallFunction { packet, payload: vstd::slice::slice_to_vec(rest) }
            } else {
                Reaction::Nothing
            }
        },
        Err(error) => {
            let first_byte: Option<u8> = if data.len() > 0 {
                Some(data[0])
            } else {
                None
            };
            Reaction::DecodeFailed { error, first_byte }
        },
    }
}

/// Says what the bot does with a message of the given kind and payload.
pub fn handle(bot: &Bot, packet_type: EPacketType, data: &[u8]) -> (r: Reaction)
    ensures
        reaction(bot, packet_type, data@, r),
{
    match packet_type {
        EPacketType::NetMessageServerHello => {
            let message = if bot.state.is_redirecting {
                bot.info.login_info.handshake()
            } else {
                resume_text(bot.info.token.as_str())
            };
            match bot.send_packet(EPacketType::NetMessageGenericText, message.as_str()) {
                Some(frame) => Reaction::Send(frame),
                None => Reaction::Nothing,
            }
        },
        EPacketType::NetMessageGenericText => Reaction::Nothing,
        EPacketType::NetMessageGameMessage => Reaction::Message(read_lossy(data)),
        EPacketType::NetMessageGamePacket => handle_game_packet(data),
        _ => Reaction::Nothing,
    }
}

/// What the transport reports of the one connection.
#[derive(Debug, Clone)]
pub enum Event {
    /// The connection was made, with this peer.
    Connect { peer: usize },
    /// The connection ended.
    Disconnect,
    /// The peer sent this frame.
    Receive { data: Vec<u8> },
}

/// The line that tells of bytes that were no action packet, with the first
/// of them where there is one.
pub open spec fn decode_failure(first_byte: Option<u8>) -> Seq<char> {
    match first_byte {
        Some(byte) => "Failed to deserialize TankPacket"@ + ": "@ + decimal(byte as nat),
        None => "Failed to deserialize TankPacket"@,
    }
}

/// The lines that a reaction writes to the log: what the server said, or
/// that its bytes were no packet.
pub open spec fn reaction_lines(r: Reaction) -> Seq<(LogLevel, Seq<char>)> {
    match r {
        Reaction::Message(text) => seq![(LogLevel::Info, "Message: "@ + text@)],
        Reaction::DecodeFailed { error, first_byte } => seq![
            (LogLevel::Error, decode_failure(first_byte)),
        ],
        _ => Seq::empty(),
    }
}

/// Whether the connection is served on after a round that brought `event`
/// to a bot whose running flag is `running`.
pub open spec fn served_on(event: Option<Event>, running: bool) -> bool {
    running && event != Some(Event::Disconnect)
}

impl Bot {
    /// Takes what one round of service brought: an event of the transport,
    /// or none. Returns what follows from it and whether the connection is
    /// still to be served: it is while the bot runs and the connection has
    /// not ended. A stopped bot ends the service with this round. What the
    /// server said, and bytes that were no packet, go to the log.
    pub fn process_events(&mut self, event: &Option<Event>) -> (r: (Reaction, bool))
        ensures
            r.1 == served_on(*event, old(self).state.is_running),
            match *event {
                Some(Event::Connect { peer }) => {
                    &&& r.0 is Nothing
                    &&& final(self).info.status@ == "Connected"@
                    &&& final(self).wrote(old(self), seq![(LogLevel::Info, "Connected to the server"@)])
                    &&& *final(self) == (Bot {
                        peer_id: Some(peer),
                        info: Info { status: final(self).info.status, ..old(self).info },
                        logs: final(self).logs,
                        ..*old(self)
                    })
                },
                Some(Event::Disconnect) => {
                    &&& r.0 is Nothing
                    &&& final(self).info.status@ == "Disconnected"@
                    &&& final(self).wrote(
                        old(self),
                        seq![(LogLevel::Warn, "Disconnected from the server"@)],
                    )
                    &&& *final(self) == (Bot {
                        peer_id: None,
                        info: Info { status: final(self).info.status, ..old(self).info },
                        logs: final(self).logs,
                        ..*old(self)
                    })
                },
                Some(Event::Receive { data }) => {
                    &&& *final(self) == (Bot { logs: final(self).logs, ..*old(self) })
                    &&& final(self).wrote(old(self), reaction_lines(r.0))
                    &&& match frame_parts(data@) {
                        Some((kind, payload)) => reaction(old(self), kind, payload, r.0),
                        None => r.0 is Nothing,
                    }
                },
                None => {
                    &&& r.0 is Nothing
                    &&& *final(self) == *old(self)
                },
            },
    {
        let running: bool = self.state.is_running;
        match event {
            Some(Event::Connect { peer }) => {
                self.on_connect(*peer);
                (Reaction::Nothing, running)
            },
            Some(Event::Disconnect) => {
                self.on_disconnect();
                (Reaction::Nothing, false)
            },
            Some(Event::Receive { data }) => {
                let reaction = self.on_receive(data.as_slice());
                self.log_reaction(&reaction);
                (reaction, running)
            },
            None => (Reaction::Nothing, running),
        }
    }

    /// Writes to the log what a reaction has to tell: what the server said,
    /// or that its bytes were no packet, with the first of them.
    fn log_reaction(&mut self, reaction: &Reaction)
        ensures
            final(self).wrote(old(self), reaction_lines(*reaction)),
            *final(self) == (Bot { logs: final(self).logs, ..*old(self) }),
    {
        match reaction {
            Reaction::Message(text) => {
                let mut line = String::from_str("Message: ");
                line.append(text.as_str());
                self.log_info(line.as_str());
                proof {
                    lemma_one_line(log_lines(old(self).logs@), (LogLevel::Info, "Message: "@ + text@));
                }
            },
            Reaction::DecodeFailed { error, first_byte } => {
                let mut line = String::from_str("Failed to deserialize TankPacket");
                match first_byte {
                    Some(byte) => {
                        line.append(": ");
                        let number = decimal_string(*byte as u32);
                        line.append(number.as_str());
                    },
                    None => {},
                }
                self.log_error(line.as_str());
                proof {
                    assert(line@ =~= decode_failure(*first_byte));
                    lemma_one_line(log_lines(old(self).logs@), (LogLevel::Error, decode_failure(*first_byte)));
                }
            },
            _ => {
                proof {
                    lemma_no_line(log_lines(old(self).logs@));
                }
            },
        }
    }

    /// Says what the bot does with a frame that the transport received. A
    /// frame too short to hold a kind is passed over.
    pub fn on_receive(&self, data: &[u8]) -> (r: Reaction)
        ensures
            match frame_parts(data@) {
                Some((kind, payload)) => reaction(self, kind, payload, r),
                None => r is Nothing,
            },
    {
        match split_frame(data) {
            Some((kind, payload)) => handle(self, kind, payload),
            None => Reaction::Nothing,
        }
    }
}

/// A stopped bot is served no further, whatever the round brought, and a
/// connection that ended is served no further, whether the bot runs or not.
pub proof fn law_stop_ends_service(event: Option<Event>, running: bool, serving: bool)
    requires
        serving == served_on(event, running),
    ensures
        !running ==> !serving,
        event == Some(Event::Disconnect) ==> !serving,
        running && event != Some(Event::Disconnect) ==> serving,
{
}

/// An action packet whose tag names no action kind is decoded, and reads
/// as a state packet, which leads to nothing.
pub proof fn law_unknown_action_is_inert(data: Seq<u8>, r: Reaction)
    requires
        data.len() >= 56,
        crate::wire::le_u32(crate::tank_packet::field(data, 52)) == data.len() - 56,
        data[0] >= crate::tank_packet_type::TANK_PACKET_TYPE_COUNT,
        packet_reaction(data, r),
    ensures
        decoded(data).is_ok(),
        r is Nothing,
{
}

} // verus!
