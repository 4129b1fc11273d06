use growbot::astar::{AStar, Node};
use growbot::bot::Bot;
use growbot::bot_info::{DroppedObject, ELoginMethod};
use growbot::inventory::{Inventory, InventoryItem};
use growbot::packet_type::EPacketType;
use growbot::position::{get_coordinate_to_touch_ground, pixel_to_tile, pixel_to_wire, Position};
use growbot::tank_packet::TankPacket;
use growbot::tank_packet_type::ETankPacketType;

fn bot_in_world() -> Bot {
    let mut bot = Bot::new(vec!["name".to_string(), "pass".to_string()], String::new(), ELoginMethod::LEGACY, String::new());
    bot.world.name = "START".to_string();
    bot.peer_id = Some(0);
    bot.state.is_running = true;
    bot
}

fn packet_of(frame: &[u8]) -> TankPacket {
    assert_eq!(&frame[..4], &[4, 0, 0, 0]);
    TankPacket::decode(&frame[4..]).unwrap()
}

fn text_of(frame: &[u8]) -> (EPacketType, String) {
    let kind = EPacketType::from(u32::from_le_bytes([frame[0], frame[1], frame[2], frame[3]]));
    (kind, String::from_utf8(frame[4..].to_vec()).unwrap())
}

#[test]
fn pixel_to_wire_is_the_float_pattern() {
    assert_eq!(pixel_to_wire(0), 0);
    assert_eq!(pixel_to_wire(1), 0x3F80_0000);
    assert_eq!(pixel_to_wire(-1), 0xBF80_0000);
    assert_eq!(pixel_to_wire(32), 0x4200_0000);
    assert_eq!(pixel_to_wire(100), 0x42C8_0000);
    for v in -70_000..70_000i32 {
        assert_eq!(pixel_to_wire(v), (v as f32).to_bits());
    }
    for v in [16_777_215i32, 16_777_216, -16_777_215, -16_777_216, 8_388_608, 8_388_607] {
        assert_eq!(pixel_to_wire(v), (v as f32).to_bits());
    }
}

#[test]
fn pixel_to_wire_holds_to_the_limit() {
    assert_eq!(pixel_to_wire(16_777_217), 16_777_216f32.to_bits());
    assert_eq!(pixel_to_wire(i32::MAX), 16_777_216f32.to_bits());
    assert_eq!(pixel_to_wire(i32::MIN), (-16_777_216f32).to_bits());
}

#[test]
fn pixel_to_tile_rounds_down() {
    assert_eq!(pixel_to_tile(0), 0);
    assert_eq!(pixel_to_tile(31), 0);
    assert_eq!(pixel_to_tile(32), 1);
    assert_eq!(pixel_to_tile(-1), -1);
    assert_eq!(pixel_to_tile(-32), -1);
    assert_eq!(pixel_to_tile(-33), -2);
    for v in -5000..5000i32 {
        assert_eq!(pixel_to_tile(v), (v as f32 / 32.0).floor() as i32);
    }
}

#[test]
fn touch_ground_is_two_below_the_row() {
    assert_eq!(get_coordinate_to_touch_ground(0), 2);
    assert_eq!(get_coordinate_to_touch_ground(32), 34);
    assert_eq!(get_coordinate_to_touch_ground(1), 2);
    assert_eq!(get_coordinate_to_touch_ground(2), 34);
    for y in -3000..3000i32 {
        let f = y as f32;
        let expected = (((f + 30.0) / 32.0).floor() + 1.0) * 32.0 - 30.0;
        assert_eq!(get_coordinate_to_touch_ground(y), expected as i32);
    }    assert_eq!(get_coordinate_to_touch_ground(i32::MAX), get_coordinate_to_touch_ground(16_777_216));
    assert_eq!(get_coordinate_to_touch_ground(i32::MIN), get_coordinate_to_touch_ground(-16_777_216));
    assert_eq!(get_coordinate_to_touch_ground(16_777_216), 16_777_218);
}

#[test]
fn collect_eligibility_by_stack() {
    let mut inventory = Inventory::new();
    inventory.size = 16;
    inventory.item_count = 1;
    inventory.items.insert(2, InventoryItem { id: 2, amount: 199 });
    assert!(inventory.can_collect(2));
    inventory.items.get_mut(&2).unwrap().amount = 200;
    assert!(!inventory.can_collect(2));
    inventory.items.get_mut(&2).unwrap().amount = 0;
    assert!(inventory.can_collect(2));
    assert_eq!(inventory.amount_of(2), Some(0));
    assert_eq!(inventory.amount_of(3), None);
}

#[test]
fn collect_eligibility_of_a_new_item() {
    let mut inventory = Inventory::new();
    inventory.size = 2;
    inventory.item_count = 1;
    inventory.items.insert(2, InventoryItem { id: 2, amount: 200 });
    assert!(inventory.can_collect(9));
    inventory.item_count = 2;
    assert!(!inventory.can_collect(9));
    inventory.item_count = 3;
    assert!(!inventory.can_collect(9));
    assert!(!Inventory::new().can_collect(1));
}

#[test]
fn collect_asks_for_near_and_eligible_objects() {
    let mut bot = bot_in_world();
    bot.position = Position { x: 320, y: 320 };
    bot.inventory.size = 16;
    bot.inventory.item_count = 1;
    bot.inventory.items.insert(2, InventoryItem { id: 2, amount: 200 });
    bot.world.dropped = vec![
        DroppedObject { id: 4, uid: 11, x: 320 + 160, y: 320 },
        DroppedObject { id: 4, uid: 12, x: 320 + 161, y: 320 },
        DroppedObject { id: 2, uid: 13, x: 320, y: 320 },
        DroppedObject { id: 4, uid: 14, x: 320 - 96, y: 320 + 128 },
        DroppedObject { id: 4, uid: 15, x: 320 - 120, y: 320 + 120 },
    ];
    let frames = bot.collect();
    assert_eq!(frames.len(), 2);
    let first = packet_of(&frames[0]);
    assert_eq!(first._type, ETankPacketType::NetGamePacketItemActivateObjectRequest);
    assert_eq!(first.value, 11);
    assert_eq!(f32::from_bits(first.vector_x), 480.0);
    assert_eq!(f32::from_bits(first.vector_y), 320.0);
    let second = packet_of(&frames[1]);
    assert_eq!(second.value, 14);
    assert_eq!(f32::from_bits(second.vector_x), 224.0);
    assert_eq!(f32::from_bits(second.vector_y), 448.0);
}

#[test]
fn collect_needs_world_and_peer() {
    let mut bot = bot_in_world();
    bot.inventory.size = 16;
    bot.world.dropped = vec![DroppedObject { id: 4, uid: 11, x: 0, y: 0 }];
    assert_eq!(bot.collect().len(), 1);
    bot.world.name = "EXIT".to_string();
    assert!(bot.collect().is_empty());
    bot.world.name = "START".to_string();
    bot.peer_id = None;
    assert!(bot.collect().is_empty());
}

#[test]
fn place_within_reach_sends_two_packets() {
    let mut bot = bot_in_world();
    bot.position = Position { x: 10 * 32 + 5, y: 20 * 32 + 2 };
    let frames = bot.place(4, 4, 2);
    assert_eq!(frames.len(), 2);
    let change = packet_of(&frames[0]);
    assert_eq!(change._type, ETankPacketType::NetGamePacketTileChangeRequest);
    assert_eq!((change.int_x, change.int_y), (14, 24));
    assert_eq!(change.value, 2);
    assert_eq!(change.flags, 0);
    assert_eq!(f32::from_bits(change.vector_x), 325.0);
    assert_eq!(f32::from_bits(change.vector_y), 642.0);
    let facing = packet_of(&frames[1]);
    assert_eq!(facing._type, ETankPacketType::NetGamePacketState);
    assert_eq!(facing.flags, 2592);
    assert_eq!((facing.int_x, facing.int_y), (14, 24));
    assert_eq!(facing.value, 2);
    assert_eq!(bot.place(-4, -4, 2).len(), 2);
}

#[test]
fn place_out_of_reach_sends_nothing() {
    let bot = bot_in_world();
    assert!(bot.place(5, 0, 2).is_empty());
    assert!(bot.place(0, 5, 2).is_empty());
    assert!(bot.place(-5, 0, 2).is_empty());
    assert!(bot.place(0, -5, 2).is_empty());
    assert!(bot.place(i32::MAX, i32::MIN, 2).is_empty());
}

#[test]
fn place_faces_left_unless_the_tile_is_to_the_right() {
    let bot = bot_in_world();
    assert_eq!(packet_of(&bot.place(1, 0, 2)[1]).flags, 2592);
    assert_eq!(packet_of(&bot.place(0, 1, 2)[1]).flags, 2608);
    assert_eq!(packet_of(&bot.place(-1, 0, 2)[1]).flags, 2608);
}

#[test]
fn place_without_peer_sends_nothing() {
    let mut bot = bot_in_world();
    bot.peer_id = None;
    assert!(bot.place(0, 0, 2).is_empty());
}

#[test]
fn punch_and_wrench_use_their_items() {
    let bot = bot_in_world();
    assert_eq!(packet_of(&bot.punch(1, 0)[0]).value, 18);
    assert_eq!(packet_of(&bot.wrench(1, 0)[0]).value, 32);
    assert!(bot.punch(5, 5).is_empty());
    assert!(bot.wrench(-5, 0).is_empty());
}

#[test]
fn wear_sends_an_item_activate_request() {
    let bot = bot_in_world();
    let packet = packet_of(&bot.wear(48).unwrap());
    assert_eq!(packet._type, ETankPacketType::NetGamePacketItemActivateRequest);
    assert_eq!(packet.value, 48);
    let mut offline = bot_in_world();
    offline.peer_id = None;
    assert!(offline.wear(48).is_none());
}

#[test]
fn warp_asks_to_join() {
    let mut bot = bot_in_world();
    let (kind, text) = text_of(&bot.warp("BUYGHC").unwrap());
    assert_eq!(kind, EPacketType::NetMessageGameMessage);
    assert_eq!(text, "action|join_request\nname|BUYGHC\ninvitedWorld|0\n");
    bot.state.is_not_allowed_to_warp = true;
    assert!(bot.warp("BUYGHC").is_none());
}

#[test]
fn talk_sends_the_text() {
    let bot = bot_in_world();
    let (kind, text) = text_of(&bot.talk("hello").unwrap());
    assert_eq!(kind, EPacketType::NetMessageGenericText);
    assert_eq!(text, "action|input\n|text|hello\n");
}

#[test]
fn leave_only_from_a_world() {
    let mut bot = bot_in_world();
    assert!(bot.is_inworld());
    let (kind, text) = text_of(&bot.leave().unwrap());
    assert_eq!(kind, EPacketType::NetMessageGameMessage);
    assert_eq!(text, "action|quit_to_exit\n");
    bot.world.name = "EXIT".to_string();
    assert!(!bot.is_inworld());
    assert!(bot.leave().is_none());
}

#[test]
fn walk_moves_by_tiles_and_announces() {
    let mut bot = bot_in_world();
    bot.position = Position { x: 64, y: 34 };
    let packet = packet_of(&bot.walk(2, -1, false).unwrap());
    assert_eq!(bot.position, Position { x: 128, y: 2 });
    assert_eq!(packet._type, ETankPacketType::NetGamePacketState);
    assert_eq!(packet.flags, (1 << 1) | (1 << 5));
    assert_eq!((packet.int_x, packet.int_y), (-1, -1));
    assert_eq!(f32::from_bits(packet.vector_x), 128.0);
    assert_eq!(f32::from_bits(packet.vector_y), 2.0);
    let again = packet_of(&bot.walk(7, 7, true).unwrap());
    assert_eq!(bot.position, Position { x: 128, y: 2 });
    assert_eq!(f32::from_bits(again.vector_x), 128.0);
}

#[test]
fn walk_is_silent_when_stopped() {
    let mut bot = bot_in_world();
    bot.state.is_running = false;
    assert!(bot.walk(1, 0, false).is_none());
    assert_eq!(bot.position, Position { x: 32, y: 0 });
    bot.state.is_running = true;
    bot.world.name = "EXIT".to_string();
    assert!(bot.walk(1, 0, false).is_none());
    assert_eq!(bot.position, Position { x: 64, y: 0 });
}

#[test]
fn drop_and_trash_remember_the_request() {
    let mut bot = bot_in_world();
    let (kind, text) = text_of(&bot.drop_item(242, 5).unwrap());
    assert_eq!(kind, EPacketType::NetMessageGenericText);
    assert_eq!(text, "action|drop\n|itemID|242\n");
    assert_eq!(bot.temporary_data.drop, (242, 5));
    let (_, text) = text_of(&bot.trash_item(7, 1).unwrap());
    assert_eq!(text, "action|trash\n|itemID|7\n");
    assert_eq!(bot.temporary_data.trash, (7, 1));
    assert_eq!(bot.temporary_data.drop, (242, 5));
    bot.peer_id = None;
    assert!(bot.drop_item(1, 1).is_none());
    assert_eq!(bot.temporary_data.drop, (1, 1));
}

#[test]
fn send_packet_needs_a_peer() {
    let mut bot = bot_in_world();
    assert_eq!(bot.send_packet(EPacketType::NetMessageGenericText, "x").unwrap(), vec![2, 0, 0, 0, b'x']);
    assert_eq!(bot.send_packet_raw(&TankPacket::default()).unwrap().len(), 60);
    bot.peer_id = None;
    assert!(bot.send_packet(EPacketType::NetMessageGenericText, "x").is_none());
    assert!(bot.send_packet_raw(&TankPacket::default()).is_none());
    assert_eq!(bot.disconnect(), None);
}

#[test]
fn path_on_an_open_grid() {
    let grid = AStar::new(5, 5);
    let path = grid.find_path(0, 0, 3, 0).unwrap();
    assert_eq!(path, vec![Node { x: 1, y: 0 }, Node { x: 2, y: 0 }, Node { x: 3, y: 0 }]);
}

#[test]
fn path_to_the_start_is_empty() {
    let grid = AStar::new(3, 3);
    assert_eq!(grid.find_path(1, 1, 1, 1), Some(Vec::new()));
}

#[test]
fn path_around_a_wall() {
    let mut grid = AStar::new(3, 3);
    grid.set_walkable(1, 0, false);
    grid.set_walkable(1, 1, false);
    assert!(!grid.can_walk(1, 0));
    assert!(grid.can_walk(1, 2));
    let path = grid.find_path(0, 0, 2, 0).unwrap();
    assert_eq!(
        path,
        vec![
            Node { x: 0, y: 1 },
            Node { x: 0, y: 2 },
            Node { x: 1, y: 2 },
            Node { x: 2, y: 2 },
            Node { x: 2, y: 1 },
            Node { x: 2, y: 0 },
        ]
    );
}

#[test]
fn no_path_through_a_closed_wall() {
    let mut grid = AStar::new(3, 3);
    for y in 0..3 {
        grid.set_walkable(1, y, false);
    }
    assert_eq!(grid.find_path(0, 0, 2, 0), None);
    assert_eq!(grid.find_path(0, 0, 1, 0), None);
    assert!(grid.find_path(0, 0, 0, 2).is_some());
}

#[test]
fn no_path_outside_the_grid() {
    let grid = AStar::new(3, 3);
    assert_eq!(grid.find_path(0, 0, 3, 0), None);
    assert_eq!(grid.find_path(5, 0, 1, 0), None);
    assert_eq!(AStar::new(0, 0).find_path(0, 0, 0, 0), None);
}

#[test]
fn paths_are_chains_of_neighbours() {
    let mut grid = AStar::new(8, 6);
    for (x, y) in [(1, 0), (1, 1), (1, 2), (3, 5), (3, 4), (3, 3), (3, 2), (5, 0), (5, 1), (6, 3)] {
        grid.set_walkable(x, y, false);
    }
    let path = grid.find_path(0, 0, 7, 0).unwrap();
    let mut before = (0u32, 0u32);
    for node in &path {
        assert!(grid.can_walk(node.x, node.y));
        assert_eq!(before.0.abs_diff(node.x) + before.1.abs_diff(node.y), 1);
        before = (node.x, node.y);
    }
    assert_eq!(before, (7, 0));
}

#[test]
fn find_path_walks_waypoint_by_waypoint() {
    let mut bot = bot_in_world();
    bot.astar = AStar::new(5, 5);
    bot.position = Position { x: 3, y: 2 };
    let walk = bot.find_path(3, 0).unwrap();
    assert_eq!(walk.path, vec![Node { x: 1, y: 0 }, Node { x: 2, y: 0 }, Node { x: 3, y: 0 }]);
    assert_eq!(walk.frames.len(), 3);
    for (node, frame) in walk.path.iter().zip(walk.frames.iter()) {
        let packet = packet_of(frame);
        assert_eq!(packet._type, ETankPacketType::NetGamePacketState);
        assert_eq!(packet.flags, 34);
        assert_eq!(f32::from_bits(packet.vector_x), node.x as f32 * 32.0);
        assert_eq!(f32::from_bits(packet.vector_y), node.y as f32 * 32.0 + 2.0);
    }
    assert_eq!(bot.position, Position { x: 96, y: 2 });
}

#[test]
fn find_path_without_a_way_changes_nothing() {
    let mut bot = bot_in_world();
    bot.astar = AStar::new(2, 1);
    bot.astar.set_walkable(1, 0, false);
    bot.position = Position { x: 5, y: 5 };
    assert!(bot.find_path(1, 0).is_none());
    assert_eq!(bot.position, Position { x: 5, y: 5 });
}

#[test]
fn find_path_is_silent_without_a_peer() {
    let mut bot = bot_in_world();
    bot.peer_id = None;
    bot.astar = AStar::new(3, 1);
    let walk = bot.find_path(2, 0).unwrap();
    assert_eq!(walk.path.len(), 2);
    assert!(walk.frames.is_empty());
    assert_eq!(bot.position, Position { x: 64, y: 2 });
}

#[test]
fn poll_collects_and_samples_the_ping_while_running() {
    let mut bot = bot_in_world();
    bot.inventory.size = 4;
    bot.world.dropped = vec![DroppedObject { id: 4, uid: 11, x: 10, y: 10 }];
    let frames = bot.poll(Some(35)).unwrap();
    assert_eq!(frames.len(), 1);
    assert_eq!(packet_of(&frames[0]).value, 11);
    assert_eq!(bot.info.ping, 35);
    assert_eq!(bot.poll(None).unwrap().len(), 1);
    assert_eq!(bot.info.ping, 35);
    bot.state.is_running = false;
    assert!(bot.poll(Some(1)).is_none());
    assert_eq!(bot.info.ping, 35);
}

#[test]
fn announce_holds_steps_back_once_stopped() {
    let mut bot = bot_in_world();
    assert_eq!(bot.announce(vec![1, 2]), Some(vec![1, 2]));
    bot.state.is_running = false;
    assert_eq!(bot.announce(vec![1, 2]), None);
    bot.state.is_running = true;
    bot.peer_id = None;
    assert_eq!(bot.announce(vec![1, 2]), None);
    bot.peer_id = Some(0);
    bot.world.name = "EXIT".to_string();
    assert_eq!(bot.announce(vec![1, 2]), None);
}
