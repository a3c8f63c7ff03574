//! The simulator as a robot controller: where it listens.
use crate::world::TeamColor;
use vstd::prelude::*;

verus! {

/// Port on which the simulator takes the commands of the blue team.
pub const BLUE_CONTROL_PORT: u16 = 10301;

/// Port on which the simulator takes the commands of the yellow team.
pub const YELLOW_CONTROL_PORT: u16 = 10302;

/// The port on which the simulator takes the commands of team `color`.
pub fn control_port(color: TeamColor) -> (port: u16)
    ensures
        port == match color {
            TeamColor::Blue => BLUE_CONTROL_PORT,
            TeamColor::Yellow => YELLOW_CONTROL_PORT,
        },
{
    match color {
        TeamColor::Blue => BLUE_CONTROL_PORT,
        TeamColor::Yellow => YELLOW_CONTROL_PORT,
    }
}

} // verus!
