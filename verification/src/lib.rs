//! The core of an automated client for a multiplayer game's network protocol:
//! the packet codec, the session rules, the in-world actions and the
//! pathfinder, each as functions from plain values to plain values.

pub mod tank_packet_type;
pub mod wire;
pub mod tank_packet;
pub mod text;
pub mod packet_type;
pub mod login_info;
pub mod inventory;
pub mod position;
pub mod frame;
pub mod bot_info;
pub mod astar;
pub mod bot;
pub mod proxy_manager;
pub mod session;
pub mod packet_handler;
