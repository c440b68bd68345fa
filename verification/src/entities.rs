//! The simulated bodies: agents, static objects, and the world context
//! that owns them together with the world constants.

use vstd::prelude::*;
use crate::geometry::{Rect, RectV, rect_within};

verus! {

/// Largest magnitude allowed for world constants, coordinates, sizes and
/// incoming velocities. The bound keeps a whole tick of `i64` arithmetic
/// far from overflow (see `physics`).
pub const WORLD_LIMIT: i64 = 0x100_0000;

/// Largest number of agents a well-formed world may hold.
pub const MAX_AGENTS: usize = 8;

/// Mathematical model of an agent: the same fields as `Agent`, over
/// unbounded integers.
pub ghost struct AgentV {
    pub id: int,
    pub pos: RectV,
    pub speed: int,
    pub vv: int,
    pub hv: int,
    pub is_left: bool,
    pub is_jump: bool,
}

/// A controllable body. `pos` carries both position and fixed size;
/// `vv` is the vertical velocity (positive = upward), `hv` the horizontal
/// velocity (positive = rightward); `speed` is the per-tick horizontal
/// impulse the input layer adds to `hv`; `is_left` is the facing flag and
/// `is_jump` is true while airborne from a jump.
#[derive(Clone, Copy, PartialEq, Eq, Structural, Debug)]
pub struct Agent {
    pub id: i64,
    pub pos: Rect,
    pub speed: i64,
    pub vv: i64,
    pub hv: i64,
    pub is_left: bool,
    pub is_jump: bool,
}

impl View for Agent {
    type V = AgentV;

    open spec fn view(&self) -> AgentV {
        AgentV {
            id: self.id as int,
            pos: self.pos@,
            speed: self.speed as int,
            vv: self.vv as int,
            hv: self.hv as int,
            is_left: self.is_left,
            is_jump: self.is_jump,
        }
    }
}

impl Agent {
    /// A freshly created agent: velocities zero, facing right, not jumping.
    pub fn new(id: i64, pos: Rect, speed: i64) -> (a: Agent)
        ensures
            a@ == (AgentV {
                id: id as int,
                pos: pos@,
                speed: speed as int,
                vv: 0,
                hv: 0,
                is_left: false,
                is_jump: false,
            }),
    {
        Agent { id, pos, speed, vv: 0, hv: 0, is_left: false, is_jump: false }
    }
}

/// A non-moving body (the platform or the background); only its rectangle
/// takes part in the simulation.
#[derive(Clone, Copy, PartialEq, Eq, Structural, Debug)]
pub struct Object {
    pub pos: Rect,
}

impl View for Object {
    type V = RectV;

    open spec fn view(&self) -> RectV {
        self.pos@
    }
}

/// The world: constants, the agents in turn-processing order, the platform,
/// the background, and the flag the outer loop reads to keep stepping.
pub struct GameContext {
    pub window_w: u32,
    pub window_h: u32,
    pub gravity: i64,
    pub max_vv: i64,
    pub players: Vec<Agent>,
    pub platform: Object,
    pub background: Object,
    pub running: bool,
}

/// The sequence of agent models under a sequence of agents.
pub open spec fn agents_view(s: Seq<Agent>) -> Seq<AgentV> {
    Seq::new(s.len(), |i: int| s[i]@)
}

/// An agent whose coordinates, sizes and velocities all lie within
/// `WORLD_LIMIT`.
pub open spec fn agent_within_world(a: AgentV) -> bool {
    &&& rect_within(a.pos, WORLD_LIMIT as int)
    &&& -WORLD_LIMIT <= a.vv <= WORLD_LIMIT
    &&& -WORLD_LIMIT <= a.hv <= WORLD_LIMIT
}

impl GameContext {
    /// Well-formed world: a gravity magnitude and a non-negative velocity
    /// clamp, a bounded agent count, and every body within `WORLD_LIMIT`.
    /// Construction must establish this; a tick of physics then cannot
    /// overflow.
    pub open spec fn wf(&self) -> bool {
        &&& self.players@.len() <= MAX_AGENTS
        &&& 0 <= self.gravity <= WORLD_LIMIT
        &&& 0 <= self.max_vv <= WORLD_LIMIT
        &&& forall|i: int|
            0 <= i < self.players@.len() ==> agent_within_world(#[trigger] self.players@[i]@)
        &&& rect_within(self.platform@, WORLD_LIMIT as int)
    }
}

} // verus!
