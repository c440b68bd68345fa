//! Laws of the simulation that relate several phases of a tick: proved
//! here once and for all inputs, over the same model that
//! `GameContext::apply_physics` is specified with.

use vstd::prelude::*;
use crate::geometry::{RectV, rects_intersect};
use crate::entities::AgentV;
use crate::physics::{
    collide_pair, gravity_phase, horizontal_phase, lands_on, move_phase, pair_pass, step_agent,
    step_spec, step_upto, vertical_phase,
};

verus! {

/// How far gravity moves a body with no vertical velocity in one tick: the
/// gravity magnitude, cut off by the vertical-velocity clamp.
pub open spec fn gravity_drop(gravity: int, max_vv: int) -> int {
    if gravity <= max_vv {
        gravity
    } else {
        max_vv
    }
}

/// `r` moved down by `d` (`y` grows downward).
pub open spec fn dropped_rect(r: RectV, d: int) -> RectV {
    RectV { y: r.y + d, ..r }
}

/// Disjoint rectangles never interact: a pairwise interaction between
/// agents whose rectangles do not intersect leaves the first agent exactly
/// as it was.
pub proof fn lemma_disjoint_pair_untouched(p: AgentV, o: AgentV)
    requires
        !rects_intersect(p.pos, o.pos),
    ensures
        collide_pair(p, o) == p,
{
}

/// Two disjoint agents at rest are moved by gravity alone: a tick leaves
/// both unchanged except that each falls by the clamped gravity — provided
/// the platform is not in either agent's way, and the first agent's fallen
/// rectangle does not reach the second agent.
pub proof fn lemma_disjoint_idle_agents_fall_only(
    s: Seq<AgentV>,
    gravity: int,
    max_vv: int,
    window_w: int,
    plat: RectV,
)
    requires
        s.len() == 2,
        !rects_intersect(s[0].pos, s[1].pos),
        s[0].vv == 0,
        s[0].hv == 0,
        s[1].vv == 0,
        s[1].hv == 0,
        0 <= gravity,
        0 <= max_vv,
        !rects_intersect(plat, dropped_rect(s[0].pos, gravity_drop(gravity, max_vv))),
        !rects_intersect(plat, dropped_rect(s[1].pos, gravity_drop(gravity, max_vv))),
        !rects_intersect(s[1].pos, dropped_rect(s[0].pos, gravity_drop(gravity, max_vv))),
    ensures
        ({
            let d = gravity_drop(gravity, max_vv);
            let r = step_spec(s, gravity, max_vv, window_w, plat);
            &&& r.len() == 2
            &&& r[0] == (AgentV { vv: -d, pos: dropped_rect(s[0].pos, d), ..s[0] })
            &&& r[1] == (AgentV { vv: -d, pos: dropped_rect(s[1].pos, d), ..s[1] })
        }),
{
    let d = gravity_drop(gravity, max_vv);
    reveal_with_fuel(step_upto, 3);
    reveal_with_fuel(pair_pass, 3);
    let a0 = gravity_phase(s[0], gravity, max_vv);
    assert(a0.vv == -d);
    let b0 = s.update(0, a0);
    assert(pair_pass(b0, 0, 2) == collide_pair(pair_pass(b0, 0, 1), b0[1]));
    assert(pair_pass(b0, 0, 1) == a0);
    assert(pair_pass(b0, 0, 2) == a0);
    let m0 = vertical_phase(horizontal_phase(a0, window_w));
    assert(m0.pos == dropped_rect(s[0].pos, d));
    let r0 = step_agent(s, 0, gravity, max_vv, window_w, plat);
    assert(r0 == (AgentV { vv: -d, pos: dropped_rect(s[0].pos, d), ..s[0] }));
    let prev1 = step_upto(s, 1, gravity, max_vv, window_w, plat);
    assert(prev1 == s.update(0, r0));
    let a1 = gravity_phase(prev1[1], gravity, max_vv);
    assert(a1.vv == -d);
    let b1 = prev1.update(1, a1);
    assert(pair_pass(b1, 1, 2) == pair_pass(b1, 1, 1));
    assert(pair_pass(b1, 1, 1) == collide_pair(pair_pass(b1, 1, 0), b1[0]));
    assert(b1[0] == r0);
    assert(!rects_intersect(a1.pos, r0.pos));
    assert(pair_pass(b1, 1, 2) == a1);
    let r1 = step_agent(prev1, 1, gravity, max_vv, window_w, plat);
    assert(r1 == (AgentV { vv: -d, pos: dropped_rect(s[1].pos, d), ..s[1] }));
    assert(step_spec(s, gravity, max_vv, window_w, plat) == prev1.update(1, r1));
}

/// Landing on another agent rests the first on the second's top edge: when
/// an intersecting pair also passes the landing test, the pairwise
/// interaction ends with the first agent's vertical velocity zero, its jump
/// cleared, and its top edge exactly its own height above the other's top.
pub proof fn lemma_agent_landing_rests(p: AgentV, o: AgentV)
    requires
        rects_intersect(p.pos, o.pos),
        lands_on(p.pos, o.pos),
    ensures
        ({
            let r = collide_pair(p, o);
            &&& r.vv == 0
            &&& !r.is_jump
            &&& r.pos.y == o.pos.y - p.pos.h
        }),
{
}

/// Landing on the platform rests the agent: if an agent's rectangle
/// intersects the platform's after its horizontal and vertical movement,
/// the tick ends with its vertical velocity zero, its jump cleared, and its
/// top edge exactly its own height above the platform's top edge.
pub proof fn lemma_platform_hit_rests(a: AgentV, window_w: int, plat: RectV)
    requires
        rects_intersect(plat, vertical_phase(horizontal_phase(a, window_w)).pos),
    ensures
        ({
            let r = move_phase(a, window_w, plat);
            &&& r.vv == 0
            &&& !r.is_jump
            &&& r.pos.y == plat.y - r.pos.h
        }),
{
}

/// The same, lifted to a whole turn: an agent whose rectangle intersects
/// the platform's after the movement of its own turn ends the tick resting
/// on the platform.
pub proof fn lemma_turn_platform_hit_rests(
    agents: Seq<AgentV>,
    pi: int,
    gravity: int,
    max_vv: int,
    window_w: int,
    plat: RectV,
)
    requires
        0 <= pi < agents.len(),
        rects_intersect(
            plat,
            vertical_phase(
                horizontal_phase(
                    pair_pass(
                        agents.update(pi, gravity_phase(agents[pi], gravity, max_vv)),
                        pi,
                        agents.len() as int,
                    ),
                    window_w,
                ),
            ).pos,
        ),
    ensures
        ({
            let r = step_agent(agents, pi, gravity, max_vv, window_w, plat);
            &&& r.vv == 0
            &&& !r.is_jump
            &&& r.pos.y == plat.y - r.pos.h
        }),
{
}

/// Rest on the platform is stable: an agent alone in the world, resting on
/// the platform with no velocity and no new input, is at exactly the same
/// position after another tick — gravity pulls it into the platform, and
/// the platform collision snaps it back — provided its span overlaps the
/// platform's and the clamped gravity cannot carry it past platform and
/// body in one tick.
pub proof fn lemma_rest_is_stable(
    s: Seq<AgentV>,
    gravity: int,
    max_vv: int,
    window_w: int,
    plat: RectV,
)
    requires
        s.len() == 1,
        s[0].vv == 0,
        s[0].hv == 0,
        s[0].pos.y == plat.y - s[0].pos.h,
        0 < s[0].pos.w,
        0 < s[0].pos.h,
        0 < plat.w,
        0 < plat.h,
        plat.x < s[0].pos.x + s[0].pos.w,
        s[0].pos.x < plat.x + plat.w,
        0 <= gravity,
        0 <= max_vv,
        gravity_drop(gravity, max_vv) < s[0].pos.h + plat.h,
    ensures
        ({
            let r = step_spec(s, gravity, max_vv, window_w, plat);
            &&& r.len() == 1
            &&& r[0].pos == s[0].pos
            &&& r[0].vv == 0
            &&& r[0].hv == 0
        }),
{
    let d = gravity_drop(gravity, max_vv);
    reveal_with_fuel(step_upto, 2);
    reveal_with_fuel(pair_pass, 2);
    let a0 = gravity_phase(s[0], gravity, max_vv);
    assert(a0.vv == -d);
    let b0 = s.update(0, a0);
    assert(pair_pass(b0, 0, 1) == b0[0]);
    let m0 = vertical_phase(horizontal_phase(a0, window_w));
    assert(m0.pos.y == s[0].pos.y + d);
    if d == 0 {
        assert(!rects_intersect(plat, m0.pos));
    } else {
        assert(rects_intersect(plat, m0.pos));
    }
    assert(step_spec(s, gravity, max_vv, window_w, plat) == s.update(
        0,
        step_agent(s, 0, gravity, max_vv, window_w, plat),
    ));
}

} // verus!
