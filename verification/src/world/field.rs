//! Dimensions of the field.
use crate::math::Scalar;
use vstd::prelude::*;

verus! {

/// Bits of 9, the default field length in metres.
pub const DEFAULT_FIELD_LENGTH: u64 = 0x4022_0000_0000_0000;

/// Bits of 6, the default field width in metres.
pub const DEFAULT_FIELD_WIDTH: u64 = 0x4018_0000_0000_0000;

/// Bits of 1, the default goal width in metres.
pub const DEFAULT_GOAL_WIDTH: u64 = 0x3FF0_0000_0000_0000;

/// Bits of 0.18, the default goal depth in metres.
pub const DEFAULT_GOAL_DEPTH: u64 = 0x3FC7_0A3D_70A3_D70A;

/// Field dimensions in metres.
#[derive(Clone, Copy, Debug)]
pub struct Field {
    pub field_length: Scalar,
    pub field_width: Scalar,
    /// Distance between the inner edges of the goal posts.
    pub goal_width: Scalar,
    /// Distance from the outer edge of the goal line to the inner goal back.
    pub goal_depth: Scalar,
}

/// Length and width of the field as a geometry frame gives them, in metres.
#[derive(Clone, Copy, Debug)]
pub struct FieldSize {
    pub field_length: Scalar,
    pub field_width: Scalar,
}

impl Field {
    /// The division B field.
    pub open spec fn division_b() -> Field {
        Field {
            field_length: Scalar { bits: DEFAULT_FIELD_LENGTH },
            field_width: Scalar { bits: DEFAULT_FIELD_WIDTH },
            goal_width: Scalar { bits: DEFAULT_GOAL_WIDTH },
            goal_depth: Scalar { bits: DEFAULT_GOAL_DEPTH },
        }
    }

    /// Takes length and width from a geometry frame; the goal keeps its size.
    pub fn update_from_packet(&mut self, packet: FieldSize)
        ensures
            *final(self) == (Field {
                field_length: packet.field_length,
                field_width: packet.field_width,
                ..*old(self)
            }),
    {
        self.field_length = packet.field_length;
        self.field_width = packet.field_width;
    }

    pub fn get_field_length(&self) -> (l: Scalar)
        ensures
            l == self.field_length,
    {
        self.field_length
    }

    pub fn get_field_width(&self) -> (w: Scalar)
        ensures
            w == self.field_width,
    {
        self.field_width
    }

    pub fn get_goal_depth(&self) -> (d: Scalar)
        ensures
            d == self.goal_depth,
    {
        self.goal_depth
    }

    pub fn get_goal_width(&self) -> (w: Scalar)
        ensures
            w == self.goal_width,
    {
        self.goal_width
    }
}

impl Default for Field {
    /// The division B field, until a geometry frame says otherwise.
    fn default() -> (field: Field)
        ensures
            field == Field::division_b(),
    {
        Field {
            field_length: Scalar::from_bits(DEFAULT_FIELD_LENGTH),
            field_width: Scalar::from_bits(DEFAULT_FIELD_WIDTH),
            goal_width: Scalar::from_bits(DEFAULT_GOAL_WIDTH),
            goal_depth: Scalar::from_bits(DEFAULT_GOAL_DEPTH),
        }
    }
}

} // verus!
