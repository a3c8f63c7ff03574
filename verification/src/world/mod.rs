//! The shared picture of the field: team colour, field, ball and the two teams.
pub mod ball;
pub mod field;
pub mod goto;
pub mod motion;
pub mod robot;
pub mod vision;

pub use ball::Ball;
pub use field::{Field, FieldSize};
pub use robot::{
    AllyData, AllyRobot, AvoidanceMode, EnnemyData, EnnemyRobot, GotoError, Kick, Motion, Robot,
    RobotData, RobotDetection, RobotId,
};
use std::collections::HashMap;
use vstd::prelude::*;

verus! {

broadcast use vstd::std_specs::hash::group_hash_axioms;

/// One of the two team colours.
#[derive(Clone, Copy, Debug, PartialEq, Eq, Hash, Structural)]
pub enum TeamColor {
    Blue,
    Yellow,
}

impl TeamColor {
    pub open spec fn opposite_spec(self) -> TeamColor {
        match self {
            TeamColor::Blue => TeamColor::Yellow,
            TeamColor::Yellow => TeamColor::Blue,
        }
    }

    /// The colour of the other team.
    pub fn opposite(&self) -> (other: TeamColor)
        ensures
            other == self.opposite_spec(),
            other != *self,
    {
        match self {
            TeamColor::Blue => TeamColor::Yellow,
            TeamColor::Yellow => TeamColor::Blue,
        }
    }
}

/// The other team's other team is one's own.
pub proof fn lemma_opposite_is_an_involution(color: TeamColor)
    ensures
        color.opposite_spec().opposite_spec() == color,
        color.opposite_spec() != color,
{
}

/// Everything the team knows about the game at one instant.
pub struct World {
    pub team_color: TeamColor,
    pub field: Field,
    pub ball: Ball,
    /// The robots of one's own colour, by number.
    pub team: HashMap<RobotId, AllyRobot>,
    /// The robots of the other colour, by number.
    pub ennemies: HashMap<RobotId, EnnemyRobot>,
}

/// Every robot of `team` sits under its own number and wears `color`.
pub open spec fn team_is_consistent<D: RobotData>(
    team: Map<RobotId, Robot<D>>,
    color: TeamColor,
) -> bool {
    forall|id: RobotId| #[trigger]
        team.contains_key(id) ==> team[id].id == id && team[id].color == color
}

impl World {
    /// Allies wear the team colour and enemies the other one, each under its
    /// own number: no robot lives in the wrong map.
    pub open spec fn wf(&self) -> bool {
        &&& team_is_consistent(self.team@, self.team_color)
        &&& team_is_consistent(self.ennemies@, self.team_color.opposite_spec())
    }

    /// A world in which nothing has been seen yet.
    pub fn default_with_team_color(team_color: TeamColor) -> (world: World)
        ensures
            world.wf(),
            world.team_color == team_color,
            world.field == Field::division_b(),
            world.ball == (Ball {
                pos: crate::math::Point2 {
                    x: crate::math::Scalar { bits: 0 },
                    y: crate::math::Scalar { bits: 0 },
                },
                vel: crate::math::Vec2 {
                    x: crate::math::Scalar { bits: 0 },
                    y: crate::math::Scalar { bits: 0 },
                },
                last_update: None,
            }),
            world.team@ == Map::<RobotId, AllyRobot>::empty(),
            world.ennemies@ == Map::<RobotId, EnnemyRobot>::empty(),
    {
        World {
            team_color,
            field: Field::default(),
            ball: Ball::default(),
            team: HashMap::new(),
            ennemies: HashMap::new(),
        }
    }

    /// The colour whose goal the team attacks.
    pub fn get_ennemy_goal_color(&self) -> (color: TeamColor)
        ensures
            color == self.team_color.opposite_spec(),
    {
        self.team_color.opposite()
    }

    /// Whether at least one ally is known.
    pub fn allies_detected(&self) -> (r: bool)
        ensures
            r == (self.team@.len() > 0),
    {
        !self.team.is_empty()
    }
}

/// In a well-formed world no ally wears the colour of an enemy: the two
/// maps hold robots of different teams, even under the same number.
pub proof fn lemma_teams_do_not_mix(world: &World, ally: RobotId, ennemy: RobotId)
    requires
        world.wf(),
        world.team@.contains_key(ally),
        world.ennemies@.contains_key(ennemy),
    ensures
        world.team@[ally].color == world.team_color,
        world.ennemies@[ennemy].color == world.team_color.opposite_spec(),
        world.team@[ally].color != world.ennemies@[ennemy].color,
        world.team@[ally].id == ally,
        world.ennemies@[ennemy].id == ennemy,
{
}

} // verus!
