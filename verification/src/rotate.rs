//! The rotation of a job and what follows from it for the filter graph and
//! for the size of the frames.

use vstd::prelude::*;
use vstd::std_specs::convert::FromSpecImpl;

verus! {

/// The rotation as the user interface offers it.
#[derive(Clone, Copy, Debug, PartialEq, Eq, Structural)]
pub enum RotationValue {
    NoRotation,
    Deg90,
    Deg180,
    Deg270,
}

/// A clockwise rotation by a multiple of a quarter turn.
#[derive(Clone, Copy, Debug, PartialEq, Eq, Structural)]
pub enum Rotate {
    Deg0,
    Deg90,
    Deg180,
    Deg270,
}

/// Width and height of a frame, in pixels.
#[derive(Clone, Copy, Debug, PartialEq, Eq, Structural)]
pub struct FrameSize {
    pub width: u32,
    pub height: u32,
}

impl FrameSize {
    /// The size with width and height exchanged.
    pub open spec fn transposed(self) -> FrameSize {
        FrameSize { width: self.height, height: self.width }
    }
}

impl Rotate {
    /// The number of clockwise quarter turns, from 0 to 3.
    pub open spec fn quarter_turns(self) -> nat {
        match self {
            Rotate::Deg0 => 0,
            Rotate::Deg90 => 1,
            Rotate::Deg180 => 2,
            Rotate::Deg270 => 3,
        }
    }

    /// The filter graph expression that performs the rotation: nothing for no
    /// rotation, one transposition for a quarter turn, and a quarter turn
    /// twice for a half turn.
    pub open spec fn filter_expression(self) -> Seq<char> {
        match self {
            Rotate::Deg0 => "null"@,
            Rotate::Deg90 => "transpose=1"@,
            Rotate::Deg180 => "transpose=2,transpose=2"@,
            Rotate::Deg270 => "transpose=2"@,
        }
    }

    /// Whether the rotation exchanges the width and the height of a frame.
    pub open spec fn swaps_axes(self) -> bool {
        self.quarter_turns() % 2 == 1
    }

    /// The size of a frame of size `input` after the rotation.
    pub open spec fn rotated(self, input: FrameSize) -> FrameSize {
        if self.swaps_axes() {
            input.transposed()
        } else {
            input
        }
    }

    /// The rotation that undoes this one.
    pub open spec fn inverse(self) -> Rotate {
        match self {
            Rotate::Deg0 => Rotate::Deg0,
            Rotate::Deg90 => Rotate::Deg270,
            Rotate::Deg180 => Rotate::Deg180,
            Rotate::Deg270 => Rotate::Deg90,
        }
    }

    pub fn as_filter(&self) -> (expression: &'static str)
        ensures
            expression@ == self.filter_expression(),
    {
        match self {
            Rotate::Deg0 => "null",
            Rotate::Deg90 => "transpose=1",
            Rotate::Deg180 => "transpose=2,transpose=2",
            Rotate::Deg270 => "transpose=2",
        }
    }

    pub fn is_axis_flips(&self) -> (flips: bool)
        ensures
            flips == self.swaps_axes(),
            flips <==> (*self == Rotate::Deg90 || *self == Rotate::Deg270),
    {
        match self {
            Rotate::Deg0 | Rotate::Deg180 => false,
            Rotate::Deg90 | Rotate::Deg270 => true,
        }
    }

    /// The size of the frames that come out when frames of size `input` go in.
    pub fn output_size(&self, input: FrameSize) -> (output: FrameSize)
        ensures
            output == self.rotated(input),
            !self.swaps_axes() ==> output == input,
            self.swaps_axes() ==> output.width == input.height && output.height == input.width,
    {
        if self.is_axis_flips() {
            FrameSize { width: input.height, height: input.width }
        } else {
            input
        }
    }

    /// The rotation that brings a rotated picture back upright.
    pub fn undo(&self) -> (back: Rotate)
        ensures
            back == self.inverse(),
    {
        match self {
            Rotate::Deg0 => Rotate::Deg0,
            Rotate::Deg90 => Rotate::Deg270,
            Rotate::Deg180 => Rotate::Deg180,
            Rotate::Deg270 => Rotate::Deg90,
        }
    }
}

impl From<RotationValue> for Rotate {
    fn from(value: RotationValue) -> (rotate: Rotate) {
        match value {
            RotationValue::NoRotation => Rotate::Deg0,
            RotationValue::Deg90 => Rotate::Deg90,
            RotationValue::Deg180 => Rotate::Deg180,
            RotationValue::Deg270 => Rotate::Deg270,
        }
    }
}

impl FromSpecImpl<RotationValue> for Rotate {
    open spec fn obeys_from_spec() -> bool {
        true
    }

    open spec fn from_spec(value: RotationValue) -> Rotate {
        match value {
            RotationValue::NoRotation => Rotate::Deg0,
            RotationValue::Deg90 => Rotate::Deg90,
            RotationValue::Deg180 => Rotate::Deg180,
            RotationValue::Deg270 => Rotate::Deg270,
        }
    }
}

/// Rotating by no turn or by a half turn keeps the size of a frame; rotating
/// by a quarter turn or by three exchanges its width and its height.
pub proof fn lemma_rotated_size(rotate: Rotate, input: FrameSize)
    ensures
        rotate == Rotate::Deg0 || rotate == Rotate::Deg180 ==> rotate.rotated(input) == input,
        rotate == Rotate::Deg90 || rotate == Rotate::Deg270 ==> {
            &&& rotate.rotated(input).width == input.height
            &&& rotate.rotated(input).height == input.width
        },
{
}

/// A rotation followed by the rotation that undoes it gives frames of the
/// size that went in; so does a half turn applied twice.
pub proof fn lemma_rotation_round_trip(rotate: Rotate, input: FrameSize)
    ensures
        rotate.inverse().rotated(rotate.rotated(input)) == input,
        rotate.inverse().inverse() == rotate,
        Rotate::Deg180.inverse() == Rotate::Deg180,
        Rotate::Deg180.rotated(Rotate::Deg180.rotated(input)) == input,
{
}

/// Two rotations one after the other exchange width and height exactly when
/// one of them does and the other does not.
pub proof fn lemma_rotated_twice(first: Rotate, second: Rotate, input: FrameSize)
    ensures
        second.rotated(first.rotated(input)) == (if first.swaps_axes() != second.swaps_axes() {
            input.transposed()
        } else {
            input
        }),
{
}

} // verus!
