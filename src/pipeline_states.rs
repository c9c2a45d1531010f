//! Fixed-function render states of a pipeline, and the driver commands
//! that put them in force.

use vstd::prelude::*;
use crate::gl_enums::{BLEND, CULL_FACE, DEPTH_TEST, FILL, FRONT_AND_BACK};

verus! {

/// Depth test, blending, face culling and polygon mode of a pipeline.
/// `None` leaves a capability disabled.
#[derive(Clone, Copy, PartialEq, Eq, Debug)]
pub struct PipelineStates {
    /// Depth comparison function.
    pub depth_test: Option<u32>,
    /// Source and destination blend factors.
    pub blend: Option<(u32, u32)>,
    /// Culled face and front-face winding.
    pub cull_face: Option<(u32, u32)>,
    pub polygon_mode: u32,
}

/// One driver call that changes render state.
#[derive(Clone, Copy, PartialEq, Eq, Structural, Debug)]
pub enum StateCommand {
    Enable(u32),
    Disable(u32),
    DepthFunc(u32),
    BlendFunc(u32, u32),
    CullFace(u32),
    FrontFace(u32),
    PolygonMode(u32, u32),
}

/// The commands for the depth test.
pub open spec fn depth_commands(depth_test: Option<u32>) -> Seq<StateCommand> {
    match depth_test {
        Some(mode) => seq![StateCommand::Enable(DEPTH_TEST), StateCommand::DepthFunc(mode)],
        None => seq![StateCommand::Disable(DEPTH_TEST)],
    }
}

/// The commands for blending.
pub open spec fn blend_commands(blend: Option<(u32, u32)>) -> Seq<StateCommand> {
    match blend {
        Some((sfactor, dfactor)) => seq![
            StateCommand::Enable(BLEND),
            StateCommand::BlendFunc(sfactor, dfactor),
        ],
        None => seq![StateCommand::Disable(BLEND)],
    }
}

/// The commands for face culling.
pub open spec fn cull_commands(cull_face: Option<(u32, u32)>) -> Seq<StateCommand> {
    match cull_face {
        Some((face, mode)) => seq![
            StateCommand::Enable(CULL_FACE),
            StateCommand::CullFace(face),
            StateCommand::FrontFace(mode),
        ],
        None => seq![StateCommand::Disable(CULL_FACE)],
    }
}

/// All commands, in the order in which they are issued.
pub open spec fn state_commands(s: PipelineStates) -> Seq<StateCommand> {
    depth_commands(s.depth_test) + blend_commands(s.blend) + cull_commands(s.cull_face) + seq![
        StateCommand::PolygonMode(FRONT_AND_BACK, s.polygon_mode),
    ]
}

impl PipelineStates {
    /// The driver commands that bring the driver's state in line with these
    /// states: each capability enabled with its parameters or disabled, then
    /// the polygon mode for both faces.
    pub fn commands(&self) -> (r: Vec<StateCommand>)
        ensures
            r@ == state_commands(*self),
    {
        let mut r: Vec<StateCommand> = Vec::new();
        match self.depth_test {
            Some(mode) => {
                r.push(StateCommand::Enable(DEPTH_TEST));
                r.push(StateCommand::DepthFunc(mode));
            },
            None => {
                r.push(StateCommand::Disable(DEPTH_TEST));
            },
        }
        let ghost after_depth = r@;
        match self.blend {
            Some((sfactor, dfactor)) => {
                r.push(StateCommand::Enable(BLEND));
                r.push(StateCommand::BlendFunc(sfactor, dfactor));
            },
            None => {
                r.push(StateCommand::Disable(BLEND));
            },
        }
        let ghost after_blend = r@;
        match self.cull_face {
            Some((face, mode)) => {
                r.push(StateCommand::Enable(CULL_FACE));
                r.push(StateCommand::CullFace(face));
                r.push(StateCommand::FrontFace(mode));
            },
            None => {
                r.push(StateCommand::Disable(CULL_FACE));
            },
        }
        let ghost after_cull = r@;
        r.push(StateCommand::PolygonMode(FRONT_AND_BACK, self.polygon_mode));
        proof {
            assert(after_depth =~= depth_commands(self.depth_test));
            assert(after_blend =~= after_depth + blend_commands(self.blend));
            assert(after_cull =~= after_blend + cull_commands(self.cull_face));
            assert(r@ =~= state_commands(*self));
        }
        r
    }
}

impl Default for PipelineStates {
    /// Every capability disabled, polygons filled.
    fn default() -> (r: PipelineStates)
        ensures
            r == (PipelineStates { depth_test: None, blend: None, cull_face: None, polygon_mode: FILL }),
    {
        PipelineStates { depth_test: None, blend: None, cull_face: None, polygon_mode: FILL }
    }
}

} // verus!
