//! Where the team listens and sends, unless told otherwise.
use crate::world::TeamColor;
use vstd::prelude::*;

verus! {

/// Size in bytes of the buffer that a packet is received into.
pub const BUFFER_SIZE: usize = 1024;

/// Multicast group of the vision system.
pub const DEFAULT_VISION_IP: [u8; 4] = [224, 5, 23, 2];

/// Port of the vision system of a real field.
pub const VISION_PORT_REAL: u16 = 10006;

/// Port of the vision system of the simulator.
pub const VISION_PORT_SIM: u16 = 10020;

/// Multicast group of the game controller.
pub const DEFAULT_GC_IP: [u8; 4] = [224, 5, 23, 1];

/// Port of the game controller.
pub const DEFAULT_GC_PORT: u16 = 10003;

/// Port on which the simulator takes commands that change the simulation.
pub const SIMULATION_CONTROL_PORT: u16 = 10300;

/// The port to receive vision packets on: the custom one where there is
/// one, else that of the real field or of the simulator.
pub fn vision_port(custom_vision_port: Option<u16>, real_field: bool) -> (port: u16)
    ensures
        port == match custom_vision_port {
            Some(custom) => custom,
            None => if real_field {
                VISION_PORT_REAL
            } else {
                VISION_PORT_SIM
            },
        },
{
    if let Some(port) = custom_vision_port {
        port
    } else if real_field {
        VISION_PORT_REAL
    } else {
        VISION_PORT_SIM
    }
}

/// The address to receive vision packets from: the custom one where there
/// is one, else the multicast group of the vision system.
pub fn vision_ip(custom_vision_ip: Option<[u8; 4]>) -> (ip: [u8; 4])
    ensures
        ip == match custom_vision_ip {
            Some(custom) => custom,
            None => DEFAULT_VISION_IP,
        },
{
    match custom_vision_ip {
        Some(custom_vision_ip) => custom_vision_ip,
        None => DEFAULT_VISION_IP,
    }
}

/// Address and port to receive referee packets from: each the custom one
/// where there is one, else that of the game controller.
pub fn game_controller_address(custom_gc_ip: Option<[u8; 4]>, custom_gc_port: Option<u16>) -> (r: (
    [u8; 4],
    u16,
))
    ensures
        r.0 == match custom_gc_ip {
            Some(custom) => custom,
            None => DEFAULT_GC_IP,
        },
        r.1 == match custom_gc_port {
            Some(custom) => custom,
            None => DEFAULT_GC_PORT,
        },
{
    let ip = match custom_gc_ip {
        Some(custom_ip) => custom_ip,
        None => DEFAULT_GC_IP,
    };
    let port = match custom_gc_port {
        Some(custom_port) => custom_port,
        None => DEFAULT_GC_PORT,
    };
    (ip, port)
}

/// The number that the simulator knows team `color` by.
pub fn simulator_team(color: TeamColor) -> (team: u32)
    ensures
        team == match color {
            TeamColor::Blue => 0u32,
            TeamColor::Yellow => 1u32,
        },
{
    match color {
        TeamColor::Blue => 0,
        TeamColor::Yellow => 1,
    }
}

} // verus!
