//! The bot: its state, and the in-world actions as functions from that state
//! to the frames that go to the server.

use crate::astar::{cells, AStar, Node};
use crate::bot_info::{DroppedObject, ELoginMethod, Info, LogLevel, Server, State, TemporaryData, World};
use crate::frame::{encode_raw, encode_text, raw_frame, text_frame};
use crate::inventory::{collectible, Inventory};
use crate::login_info::{LoginFields, LoginInfo};
use crate::packet_type::EPacketType;
use crate::position::{
    clamped, get_coordinate_to_touch_ground, ground_contact, pixel_to_tile, pixel_to_wire, wire_of,
    Position, PIXEL_LIMIT,
};
use crate::tank_packet::TankPacket;
use crate::tank_packet_type::ETankPacketType;
use crate::text::{decimal, decimal_string};
use vstd::prelude::*;
use vstd::string::StringExecFns;

verus! {

/// How far, in tiles, a tile may lie from the bot to be changed.
pub const REACH: i32 = 4;

/// How far, in pixels, an object may lie from the bot to be picked up: five
/// tiles.
pub const COLLECT_RANGE: i64 = 160;

/// The item that stands for a punch.
pub const FIST: u32 = 18;

/// The item that stands for the wrench.
pub const WRENCH: u32 = 32;

/// The flags of a bot that faces right.
pub const FACING_RIGHT: u32 = 2592;

/// The flags of a bot that faces left.
pub const FACING_LEFT: u32 = 2608;

/// The flags of a step: the second and the sixth bit.
pub const WALKING: u32 = 34;

/// One bot: the session, the connection, the world around it and what it
/// carries.
#[derive(Debug, Clone)]
pub struct Bot {
    pub info: Info,
    pub state: State,
    pub server: Server,
    pub position: Position,
    pub temporary_data: TemporaryData,
    pub peer_id: Option<usize>,
    pub world: World,
    pub inventory: Inventory,
    pub astar: AStar,
    pub logs: Vec<(LogLevel, String)>,
}

/// What a walk along a path leaves: the waypoints and the frames, one for
/// each waypoint that was announced.
#[derive(Debug, Clone)]
pub struct Walk {
    pub path: Vec<Node>,
    pub frames: Vec<Vec<u8>>,
}

/// The level and the text of each line of a log.
pub open spec fn log_lines(logs: Seq<(LogLevel, String)>) -> Seq<(LogLevel, Seq<char>)> {
    Seq::new(logs.len(), |i: int| (logs[i].0, logs[i].1@))
}

/// The bytes of each frame of a list.
pub open spec fn frames_of(frames: Seq<Vec<u8>>) -> Seq<Seq<u8>> {
    Seq::new(frames.len(), |i: int| frames[i]@)
}

/// Whether a tile that lies `offset_x` columns and `offset_y` rows from the
/// bot is within reach.
pub open spec fn within_reach(offset_x: int, offset_y: int) -> bool {
    -4 <= offset_x <= 4 && -4 <= offset_y <= 4
}

/// Whether an object at `object` lies within five tiles of `position`, as
/// the crow flies.
pub open spec fn within_collect_range(position: Position, object: DroppedObject) -> bool {
    let dx = position.x - object.x;
    let dy = position.y - object.y;
    dx * dx + dy * dy <= 160 * 160
}

/// The packet that asks for a dropped object.
pub open spec fn collect_packet(object: DroppedObject) -> TankPacket {
    TankPacket {
        _type: ETankPacketType::NetGamePacketItemActivateObjectRequest,
        vector_x: wire_of(object.x as int) as u32,
        vector_y: wire_of(object.y as int) as u32,
        value: object.uid,
        ..TankPacket::zero()
    }
}

/// The packet that asks to change the tile at the given offset with `item`.
pub open spec fn change_packet(position: Position, offset_x: int, offset_y: int, item: u32) -> TankPacket {
    TankPacket {
        _type: ETankPacketType::NetGamePacketTileChangeRequest,
        vector_x: wire_of(position.x as int) as u32,
        vector_y: wire_of(position.y as int) as u32,
        int_x: (position.tile_x() + offset_x) as i32,
        int_y: (position.tile_y() + offset_y) as i32,
        value: item,
        ..TankPacket::zero()
    }
}

/// The packet that follows a tile change and turns the bot towards the tile:
/// to the right for a tile to its right, to the left for any other.
pub open spec fn facing_packet(position: Position, offset_x: int, offset_y: int, item: u32) -> TankPacket {
    TankPacket {
        _type: ETankPacketType::NetGamePacketState,
        flags: if offset_x > 0 {
            FACING_RIGHT
        } else {
            FACING_LEFT
        },
        ..change_packet(position, offset_x, offset_y, item)
    }
}

/// The packet that announces where the bot stands.
pub open spec fn step_packet(position: Position) -> TankPacket {
    TankPacket {
        _type: ETankPacketType::NetGamePacketState,
        vector_x: wire_of(position.x as int) as u32,
        vector_y: wire_of(position.y as int) as u32,
        int_x: -1i32,
        int_y: -1i32,
        flags: WALKING,
        ..TankPacket::zero()
    }
}

/// The packet that asks to wear or use an item.
pub open spec fn wear_packet(item: u32) -> TankPacket {
    TankPacket {
        _type: ETankPacketType::NetGamePacketItemActivateRequest,
        value: item,
        ..TankPacket::zero()
    }
}

/// The place of a bot that stands on the ground of the tile `node`.
pub open spec fn standing_on(node: Node) -> Position {
    Position {
        x: clamped(node.x * 32) as i32,
        y: ground_contact(clamped(node.y * 32)) as i32,
    }
}

/// The place after a move by whole tiles, each coordinate held to the range
/// that the wire carries exactly.
pub open spec fn moved(position: Position, x: int, y: int) -> Position {
    Position {
        x: clamped(position.x + 32 * x) as i32,
        y: clamped(position.y + 32 * y) as i32,
    }
}

fn clamp_pixel(v: i64) -> (r: i32)
    ensures
        r == clamped(v as int),
{
    if v > PIXEL_LIMIT as i64 {
        PIXEL_LIMIT
    } else if v < -(PIXEL_LIMIT as i64) {
        -PIXEL_LIMIT
    } else {
        v as i32
    }
}

impl Bot {
    /// Whether the bot has a peer to send to.
    pub open spec fn connected(&self) -> bool {
        self.peer_id.is_some()
    }

    /// Whether the bot is in a world, not at the exit.
    pub open spec fn in_world(&self) -> bool {
        self.world.name@ != "EXIT"@
    }

    /// Whether the bot wants the object: it lies within range and the
    /// inventory still takes its item.
    pub open spec fn wants(&self, object: DroppedObject) -> bool {
        within_collect_range(self.position, object) && collectible(
            self.inventory.size,
            self.inventory.item_count,
            self.inventory.items@,
            object.id,
        )
    }

    /// The frames that ask for each wanted object among `objects`, in their
    /// order.
    pub open spec fn collect_frames(&self, objects: Seq<DroppedObject>) -> Seq<Seq<u8>>
        decreases objects.len(),
    {
        if objects.len() == 0 {
            Seq::empty()
        } else if self.wants(objects.last()) {
            self.collect_frames(objects.drop_last()).push(raw_frame(collect_packet(objects.last())))
        } else {
            self.collect_frames(objects.drop_last())
        }
    }

    /// A bot that is not running, not connected and stands at the origin of
    /// no world, with the given credentials.
    pub fn new(payload: Vec<String>, recovery_code: String, login_method: ELoginMethod, token: String) -> (r: Bot)
        ensures
            r.info.payload == payload,
            r.info.recovery_code == recovery_code,
            r.info.login_method == login_method,
            r.info.token == token,
            r.info.login_info@ == LoginFields::blank(),
            r.info.server_data@.len() == 0,
            r.info.oauth_links@.len() == 0,
            r.info.timeout == 0,
            r.info.ping == 0,
            r.info.status@ == Seq::<char>::empty(),
            !r.state.is_running && !r.state.is_redirecting && !r.state.is_not_allowed_to_warp,
            r.position == (Position { x: 0, y: 0 }),
            r.server.ip@ == Seq::<char>::empty(),
            r.server.port == 0,
            r.temporary_data.drop == (0u32, 0u32),
            r.temporary_data.trash == (0u32, 0u32),
            r.inventory.size == 0,
            r.inventory.item_count == 0,
            r.peer_id.is_none(),
            r.world.name@ == "EXIT"@,
            r.world.dropped@.len() == 0,
            r.inventory.items@.len() == 0,
            r.astar.wf(),
            r.astar.width == 0,
            r.astar.height == 0,
            r.logs@.len() == 0,
    {
        Bot {
            info: Info {
                payload,
                recovery_code,
                login_method,
                token,
                login_info: LoginInfo::new(),
                server_data: Vec::new(),
                oauth_links: Vec::new(),
                ping: 0,
                status: String::new(),
                timeout: 0,
            },
            state: State::default(),
            server: Server::default(),
            position: Position { x: 0, y: 0 },
            temporary_data: TemporaryData::default(),
            peer_id: None,
            world: World { name: String::from_str("EXIT"), dropped: Vec::new() },
            inventory: Inventory::new(),
            astar: AStar::new(0, 0),
            logs: Vec::new(),
        }
    }

    fn log(&mut self, level: LogLevel, message: &str)
        ensures
            final(self).logs@.len() == old(self).logs@.len() + 1,
            final(self).logs@.last().0 == level,
            final(self).logs@.last().1@ == message@,
            final(self).logs@.drop_last() == old(self).logs@,
            log_lines(final(self).logs@) == log_lines(old(self).logs@).push((level, message@)),
            *final(self) == (Bot { logs: final(self).logs, ..*old(self) }),
    {
        self.logs.push((level, String::from_str(message)));
        assert(self.logs@.drop_last() =~= old(self).logs@);
        assert(log_lines(self.logs@) =~= log_lines(old(self).logs@).push((level, message@)));
    }

    /// Appends a line to the log, as information.
    pub fn log_info(&mut self, message: &str)
        ensures
            final(self).logs@.len() == old(self).logs@.len() + 1,
            final(self).logs@.last().0 == LogLevel::Info,
            final(self).logs@.last().1@ == message@,
            final(self).logs@.drop_last() == old(self).logs@,
            log_lines(final(self).logs@) == log_lines(old(self).logs@).push(
                (LogLevel::Info, message@),
            ),
            *final(self) == (Bot { logs: final(self).logs, ..*old(self) }),
    {
        self.log(LogLevel::Info, message);
    }

    /// Appends a line to the log, as a warning.
    pub fn log_warn(&mut self, message: &str)
        ensures
            final(self).logs@.len() == old(self).logs@.len() + 1,
            final(self).logs@.last().0 == LogLevel::Warn,
            final(self).logs@.last().1@ == message@,
            final(self).logs@.drop_last() == old(self).logs@,
            log_lines(final(self).logs@) == log_lines(old(self).logs@).push(
                (LogLevel::Warn, message@),
            ),
            *final(self) == (Bot { logs: final(self).logs, ..*old(self) }),
    {
        self.log(LogLevel::Warn, message);
    }

    /// Appends a line to the log, as an error.
    pub fn log_error(&mut self, message: &str)
        ensures
            final(self).logs@.len() == old(self).logs@.len() + 1,
            final(self).logs@.last().0 == LogLevel::Error,
            final(self).logs@.last().1@ == message@,
            final(self).logs@.drop_last() == old(self).logs@,
            log_lines(final(self).logs@) == log_lines(old(self).logs@).push(
                (LogLevel::Error, message@),
            ),
            *final(self) == (Bot { logs: final(self).logs, ..*old(self) }),
    {
        self.log(LogLevel::Error, message);
    }

    /// Replaces the status line.
    pub fn set_status(&mut self, message: &str)
        ensures
            final(self).info.status@ == message@,
            *final(self) == (Bot {
                info: Info { status: final(self).info.status, ..old(self).info },
                ..*old(self)
            }),
    {
        self.info.status = String::from_str(message);
    }

    /// Records the round-trip time of the peer, in milliseconds, as the
    /// ping. Only the low 32 bits are kept.
    pub fn set_ping(&mut self, round_trip_millis: u64)
        ensures
            final(self).info.ping == round_trip_millis % 0x1_0000_0000,
            *final(self) == (Bot {
                info: Info { ping: final(self).info.ping, ..old(self).info },
                ..*old(self)
            }),
    {
        self.info.ping = (round_trip_millis % 0x1_0000_0000) as u32;
    }

    /// Whether the bot is in a world, not at the exit.
    pub fn is_inworld(&self) -> (r: bool)
        ensures
            r == self.in_world(),
    {
        let exit = String::from_str("EXIT");
        !(self.world.name == exit)
    }

    /// The peer to disconnect, if the bot has one.
    pub fn disconnect(&self) -> (r: Option<usize>)
        ensures
            r == self.peer_id,
    {
        self.peer_id
    }

    /// Frames a textual message for the peer. Without a peer nothing is
    /// sent.
    pub fn send_packet(&self, packet_type: EPacketType, message: &str) -> (r: Option<Vec<u8>>)
        ensures
            r.is_some() == self.connected(),
            r.is_some() ==> r.unwrap()@ == text_frame(packet_type, message@),
    {
        if self.peer_id.is_some() {
            Some(encode_text(packet_type, message))
        } else {
            None
        }
    }

    /// Frames an action packet for the peer. Without a peer nothing is sent.
    pub fn send_packet_raw(&self, packet: &TankPacket) -> (r: Option<Vec<u8>>)
        ensures
            r.is_some() == self.connected(),
            r.is_some() ==> r.unwrap()@ == raw_frame(*packet) && r.unwrap()@.len() == 4 + 56
                + packet.extended_data_length,
    {
        if self.peer_id.is_some() {
            Some(encode_raw(packet))
        } else {
            None
        }
    }

    fn near(&self, object: &DroppedObject) -> (r: bool)
        ensures
            r == within_collect_range(self.position, *object),
    {
        let dx: i64 = self.position.x as i64 - object.x as i64;
        let dy: i64 = self.position.y as i64 - object.y as i64;
        if dx > COLLECT_RANGE || dx < -COLLECT_RANGE || dy > COLLECT_RANGE || dy < -COLLECT_RANGE {
            proof {
                let a = dx as int;
                let b = dy as int;
                assert(a * a + b * b > 160 * 160) by (nonlinear_arith)
                    requires
                        a > 160 || a < -160 || b > 160 || b < -160,
                ;
            }
            return false;
        }
        assert(0 <= dx * dx <= 25600 && 0 <= dy * dy <= 25600) by (nonlinear_arith)
            requires
                -160 <= dx <= 160,
                -160 <= dy <= 160,
        ;
        dx * dx + dy * dy <= 25600
    }

    /// Asks for every dropped object of the world that lies within range and
    /// that the inventory still takes. Outside a world, or without a peer,
    /// nothing is asked for.
    pub fn collect(&self) -> (r: Vec<Vec<u8>>)
        ensures
            frames_of(r@) == if self.in_world() && self.connected() {
                self.collect_frames(self.world.dropped@)
            } else {
                Seq::<Seq<u8>>::empty()
            },
    {
        let mut frames: Vec<Vec<u8>> = Vec::new();
        if !self.is_inworld() || self.peer_id.is_none() {
            assert(frames_of(frames@) =~= Seq::<Seq<u8>>::empty());
            return frames;
        }
        let n: usize = self.world.dropped.len();
        let mut i: usize = 0;
        assert(self.world.dropped@.take(0) =~= Seq::<DroppedObject>::empty());
        assert(frames_of(frames@) =~= Seq::<Seq<u8>>::empty());
        while i < n
            invariant
                n == self.world.dropped@.len(),
                i <= n,
                self.connected(),
                frames_of(frames@) == self.collect_frames(self.world.dropped@.take(i as int)),
            decreases n - i,
        {
            let object = self.world.dropped[i];
            let ghost upto = self.world.dropped@.take(i + 1);
            assert(upto.drop_last() =~= self.world.dropped@.take(i as int));
            assert(upto.last() == object);
            if self.near(&object) && self.inventory.can_collect(object.id) {
                let mut packet = TankPacket::default();
                packet._type = ETankPacketType::NetGamePacketItemActivateObjectRequest;
                packet.vector_x = pixel_to_wire(object.x);
                packet.vector_y = pixel_to_wire(object.y);
                packet.value = object.uid;
                assert(packet == collect_packet(object));
                let ghost before = frames_of(frames@);
                let frame = encode_raw(&packet);
                frames.push(frame);
                assert(frames_of(frames@) =~= before.push(raw_frame(packet)));
            }
            i += 1;
        }
        assert(self.world.dropped@.take(n as int) =~= self.world.dropped@);
        frames
    }

    /// One round of what the bot does by itself while it runs: it asks for
    /// the objects around it and takes the round-trip time of the peer,
    /// where one was measured, as its ping. A bot that was stopped does
    /// neither, and returns `None`: the rounds end.
    pub fn poll(&mut self, round_trip_millis: Option<u64>) -> (r: Option<Vec<Vec<u8>>>)
        ensures
            r.is_some() == old(self).state.is_running,
            r.is_some() ==> frames_of(r.unwrap()@) == if old(self).in_world() && old(self).connected() {
                old(self).collect_frames(old(self).world.dropped@)
            } else {
                Seq::<Seq<u8>>::empty()
            },
            *final(self) == (Bot {
                info: Info { ping: final(self).info.ping, ..old(self).info },
                ..*old(self)
            }),
            final(self).info.ping == if old(self).state.is_running && round_trip_millis.is_some() {
                (round_trip_millis.unwrap() % 0x1_0000_0000) as u32
            } else {
                old(self).info.ping
            },
    {
        if !self.state.is_running {
            return None;
        }
        let frames = self.collect();
        match round_trip_millis {
            Some(millis) => {
                self.set_ping(millis);
            },
            None => {},
        }
        Some(frames)
    }

    /// Changes the tile at the given offset from the bot with `item_id`: the
    /// request, then the packet that turns the bot towards the tile. A tile
    /// out of reach is left alone, and so is every tile without a peer.
    pub fn place(&self, offset_x: i32, offset_y: i32, item_id: u32) -> (r: Vec<Vec<u8>>)
        ensures
            frames_of(r@) == if within_reach(offset_x as int, offset_y as int) && self.connected() {
                seq![
                    raw_frame(change_packet(self.position, offset_x as int, offset_y as int, item_id)),
                    raw_frame(facing_packet(self.position, offset_x as int, offset_y as int, item_id)),
                ]
            } else {
                Seq::<Seq<u8>>::empty()
            },
    {
        let mut frames: Vec<Vec<u8>> = Vec::new();
        if offset_x > REACH || offset_x < -REACH || offset_y > REACH || offset_y < -REACH
            || self.peer_id.is_none() {
            assert(frames_of(frames@) =~= Seq::<Seq<u8>>::empty());
            return frames;
        }
        let mut packet = TankPacket::default();
        packet._type = ETankPacketType::NetGamePacketTileChangeRequest;
        packet.vector_x = pixel_to_wire(self.position.x);
        packet.vector_y = pixel_to_wire(self.position.y);
        packet.int_x = pixel_to_tile(self.position.x) + offset_x;
        packet.int_y = pixel_to_tile(self.position.y) + offset_y;
        packet.value = item_id;
        assert(packet == change_packet(self.position, offset_x as int, offset_y as int, item_id));
        let first = encode_raw(&packet);
        packet.flags = if offset_x > 0 {
            FACING_RIGHT
        } else {
            FACING_LEFT
        };
        packet._type = ETankPacketType::NetGamePacketState;
        assert(packet == facing_packet(self.position, offset_x as int, offset_y as int, item_id));
        let second = encode_raw(&packet);
        frames.push(first);
        frames.push(second);
        assert(frames_of(frames@) =~= seq![
            raw_frame(change_packet(self.position, offset_x as int, offset_y as int, item_id)),
            raw_frame(facing_packet(self.position, offset_x as int, offset_y as int, item_id)),
        ]);
        frames
    }

    /// Punches the tile at the given offset from the bot.
    pub fn punch(&self, offset_x: i32, offset_y: i32) -> (r: Vec<Vec<u8>>)
        ensures
            frames_of(r@) == if within_reach(offset_x as int, offset_y as int) && self.connected() {
                seq![
                    raw_frame(change_packet(self.position, offset_x as int, offset_y as int, FIST)),
                    raw_frame(facing_packet(self.position, offset_x as int, offset_y as int, FIST)),
                ]
            } else {
                Seq::<Seq<u8>>::empty()
            },
    {
        self.place(offset_x, offset_y, FIST)
    }

    /// Wrenches the tile at the given offset from the bot.
    pub fn wrench(&self, offset_x: i32, offset_y: i32) -> (r: Vec<Vec<u8>>)
        ensures
            frames_of(r@) == if within_reach(offset_x as int, offset_y as int) && self.connected() {
                seq![
                    raw_frame(change_packet(self.position, offset_x as int, offset_y as int, WRENCH)),
                    raw_frame(facing_packet(self.position, offset_x as int, offset_y as int, WRENCH)),
                ]
            } else {
                Seq::<Seq<u8>>::empty()
            },
    {
        self.place(offset_x, offset_y, WRENCH)
    }

    /// Wears or uses an item of the inventory.
    pub fn wear(&self, item_id: u32) -> (r: Option<Vec<u8>>)
        ensures
            r.is_some() == self.connected(),
            r.is_some() ==> r.unwrap()@ == raw_frame(wear_packet(item_id)),
    {
        let mut packet = TankPacket::default();
        packet._type = ETankPacketType::NetGamePacketItemActivateRequest;
        packet.value = item_id;
        self.send_packet_raw(&packet)
    }

    /// Asks to join the world of the given name, unless warping is not
    /// allowed for now.
    pub fn warp(&self, world_name: &str) -> (r: Option<Vec<u8>>)
        ensures
            r.is_some() == (self.connected() && !self.state.is_not_allowed_to_warp),
            r.is_some() ==> r.unwrap()@ == text_frame(
                EPacketType::NetMessageGameMessage,
                "action|join_request\nname|"@ + world_name@ + "\ninvitedWorld|0\n"@,
            ),
    {
        if self.state.is_not_allowed_to_warp {
            return None;
        }
        let mut message = String::from_str("action|join_request\nname|");
        message.append(world_name);
        message.append("\ninvitedWorld|0\n");
        self.send_packet(EPacketType::NetMessageGameMessage, message.as_str())
    }

    /// Says `message` in the world's chat.
    pub fn talk(&self, message: &str) -> (r: Option<Vec<u8>>)
        ensures
            r.is_some() == self.connected(),
            r.is_some() ==> r.unwrap()@ == text_frame(
                EPacketType::NetMessageGenericText,
                "action|input\n|text|"@ + message@ + "\n"@,
            ),
    {
        let mut text = String::from_str("action|input\n|text|");
        text.append(message);
        text.append("\n");
        self.send_packet(EPacketType::NetMessageGenericText, text.as_str())
    }

    /// Leaves the world for the exit, if the bot is in one.
    pub fn leave(&self) -> (r: Option<Vec<u8>>)
        ensures
            r.is_some() == (self.connected() && self.in_world()),
            r.is_some() ==> r.unwrap()@ == text_frame(
                EPacketType::NetMessageGameMessage,
                "action|quit_to_exit\n"@,
            ),
    {
        if self.is_inworld() {
            self.send_packet(EPacketType::NetMessageGameMessage, "action|quit_to_exit\n")
        } else {
            None
        }
    }

    /// Moves the bot by whole tiles, unless `ap` says that the place was set
    /// already, and announces the place. The place is announced only while
    /// the bot runs, is in a world and has a peer.
    pub fn walk(&mut self, x: i32, y: i32, ap: bool) -> (r: Option<Vec<u8>>)
        ensures
            final(self).position == if ap {
                old(self).position
            } else {
                moved(old(self).position, x as int, y as int)
            },
            r.is_some() == (old(self).state.is_running && old(self).in_world() && old(self).connected()),
            r.is_some() ==> r.unwrap()@ == raw_frame(step_packet(final(self).position)),
            *final(self) == (Bot { position: final(self).position, ..*old(self) }),
    {
        if !ap {
            self.position.x = clamp_pixel(self.position.x as i64 + 32 * (x as i64));
            self.position.y = clamp_pixel(self.position.y as i64 + 32 * (y as i64));
        }
        let mut packet = TankPacket::default();
        packet._type = ETankPacketType::NetGamePacketState;
        packet.vector_x = pixel_to_wire(self.position.x);
        packet.vector_y = pixel_to_wire(self.position.y);
        packet.int_x = -1;
        packet.int_y = -1;
        packet.flags = WALKING;
        assert(packet == step_packet(self.position));
        if self.state.is_running && self.is_inworld() {
            self.send_packet_raw(&packet)
        } else {
            None
        }
    }

    /// Walks to the tile `(x, y)`: finds the way, and for each waypoint in
    /// turn puts the bot on the ground of that tile and announces the place.
    /// Where no way leads to the tile, nothing changes.
    pub fn find_path(&mut self, x: u32, y: u32) -> (r: Option<Walk>)
        requires
            old(self).astar.wf(),
        ensures
            *final(self) == (Bot { position: final(self).position, ..*old(self) }),
            match r {
                Some(walk) => {
                    &&& old(self).astar.is_path(
                        old(self).start_tile(),
                        (x as int, y as int),
                        cells(walk.path@),
                    )
                    &&& forall|p: Seq<(int, int)>|
                        old(self).astar.is_path(old(self).start_tile(), (x as int, y as int), p)
                            ==> walk.path@.len() <= p.len()
                    &&& final(self).position == if walk.path@.len() == 0 {
                        old(self).position
                    } else {
                        standing_on(walk.path@.last())
                    }
                    &&& if old(self).state.is_running && old(self).in_world() && old(self).connected() {
                        &&& walk.frames@.len() == walk.path@.len()
                        &&& forall|i: int|
                            0 <= i < walk.path@.len() ==> (#[trigger] walk.frames@[i])@ == raw_frame(
                                step_packet(standing_on(walk.path@[i])),
                            )
                    } else {
                        walk.frames@.len() == 0
                    }
                },
                None => {
                    &&& final(self).position == old(self).position
                    &&& forall|p: Seq<(int, int)>|
                        !old(self).astar.is_path(old(self).start_tile(), (x as int, y as int), p)
                },
            },
    {
        let from_x: u32 = if self.position.x < 0 {
            0
        } else {
            (self.position.x / 32) as u32
        };
        let from_y: u32 = if self.position.y < 0 {
            0
        } else {
            (self.position.y / 32) as u32
        };
        let found = self.astar.find_path(from_x, from_y, x, y);
        match found {
            None => None,
            Some(path) => {
                let mut frames: Vec<Vec<u8>> = Vec::new();
                let n: usize = path.len();
                let mut i: usize = 0;
                let ghost sending = self.state.is_running && self.in_world() && self.connected();
                while i < n
                    invariant
                        n == path@.len(),
                        i <= n,
                        *self == (Bot { position: self.position, ..*old(self) }),
                        sending == (old(self).state.is_running && old(self).in_world() && old(self).connected()),
                        self.position == if i == 0 {
                            old(self).position
                        } else {
                            standing_on(path@[i - 1])
                        },
                        sending ==> frames@.len() == i,
                        !sending ==> frames@.len() == 0,
                        sending ==> forall|j: int|
                            0 <= j < i ==> (#[trigger] frames@[j])@ == raw_frame(
                                step_packet(standing_on(path@[j])),
                            ),
                    decreases n - i,
                {
                    let node = path[i];
                    let px: i32 = clamp_pixel(node.x as i64 * 32);
                    let py: i32 = clamp_pixel(node.y as i64 * 32);
                    self.position.x = px;
                    self.position.y = get_coordinate_to_touch_ground(py);
                    assert(self.position == standing_on(node));
                    match self.walk(0, 0, true) {
                        Some(frame) => {
                            frames.push(frame);
                        },
                        None => {},
                    }
                    i += 1;
                }
                Some(Walk { path, frames })
            },
        }
    }

    /// Hands a frame of a walk on to be sent, at the time its waypoint is
    /// due: a bot that was stopped meanwhile, left the world or lost its peer
    /// announces no further step.
    pub fn announce(&self, frame: Vec<u8>) -> (r: Option<Vec<u8>>)
        ensures
            r == if self.state.is_running && self.in_world() && self.connected() {
                Some(frame)
            } else {
                None
            },
    {
        if self.state.is_running && self.is_inworld() && self.peer_id.is_some() {
            Some(frame)
        } else {
            None
        }
    }

    /// The tile that the pathfinder starts from: the tile of the bot's
    /// place, a place left of or above the world counting as its first
    /// column or row.
    pub open spec fn start_tile(&self) -> (int, int) {
        (
            if self.position.x < 0 {
                0
            } else {
                self.position.x as int / 32
            },
            if self.position.y < 0 {
                0
            } else {
                self.position.y as int / 32
            },
        )
    }

    /// Asks to drop an item and remembers the item and the amount for the
    /// dialog that follows.
    pub fn drop_item(&mut self, item_id: u32, amount: u32) -> (r: Option<Vec<u8>>)
        ensures
            *final(self) == (Bot {
                temporary_data: TemporaryData { drop: (item_id, amount), ..old(self).temporary_data },
                ..*old(self)
            }),
            r.is_some() == old(self).connected(),
            r.is_some() ==> r.unwrap()@ == text_frame(
                EPacketType::NetMessageGenericText,
                "action|drop\n|itemID|"@ + decimal(item_id as nat) + "\n"@,
            ),
    {
        let mut text = String::from_str("action|drop\n|itemID|");
        let number = decimal_string(item_id);
        text.append(number.as_str());
        text.append("\n");
        let frame = self.send_packet(EPacketType::NetMessageGenericText, text.as_str());
        self.temporary_data.drop = (item_id, amount);
        frame
    }

    /// Asks to trash an item and remembers the item and the amount for the
    /// dialog that follows.
    pub fn trash_item(&mut self, item_id: u32, amount: u32) -> (r: Option<Vec<u8>>)
        ensures
            *final(self) == (Bot {
                temporary_data: TemporaryData { trash: (item_id, amount), ..old(self).temporary_data },
                ..*old(self)
            }),
            r.is_some() == old(self).connected(),
            r.is_some() ==> r.unwrap()@ == text_frame(
                EPacketType::NetMessageGenericText,
                "action|trash\n|itemID|"@ + decimal(item_id as nat) + "\n"@,
            ),
    {
        let mut text = String::from_str("action|trash\n|itemID|");
        let number = decimal_string(item_id);
        text.append(number.as_str());
        text.append("\n");
        let frame = self.send_packet(EPacketType::NetMessageGenericText, text.as_str());
        self.temporary_data.trash = (item_id, amount);
        frame
    }
}

/// A log that grew by one line is the old log with that line after it.
pub proof fn lemma_one_line(lines: Seq<(LogLevel, Seq<char>)>, line: (LogLevel, Seq<char>))
    ensures
        lines.push(line) == lines + seq![line],
{
    assert(lines.push(line) =~= lines + seq![line]);
}

/// A log that did not grow is the old log with no line after it.
pub proof fn lemma_no_line(lines: Seq<(LogLevel, Seq<char>)>)
    ensures
        lines == lines + Seq::<(LogLevel, Seq<char>)>::empty(),
{
    assert(lines =~= lines + Seq::<(LogLevel, Seq<char>)>::empty());
}

/// A log that grew by one line and then by more is the old log with all of
/// them after it.
pub proof fn lemma_more_lines(
    lines: Seq<(LogLevel, Seq<char>)>,
    line: (LogLevel, Seq<char>),
    more: Seq<(LogLevel, Seq<char>)>,
)
    ensures
        lines.push(line) + more == lines + (seq![line] + more),
{
    assert(lines.push(line) + more =~= lines + (seq![line] + more));
}

/// A tile four columns and four rows away is within reach, one five columns
/// away is not, and a tile out of reach yields no frame.
pub proof fn law_reach()
    ensures
        within_reach(4, 4),
        within_reach(-4, -4),
        !within_reach(5, 0),
        !within_reach(0, -5),
{
}

} // verus!
