//! The per-tick physics core. `step_spec` is the mathematical model of one
//! tick; `GameContext::apply_physics` is the executable step, proved to
//! produce exactly the model's result.
//!
//! One tick processes the agents in index order — the order is part of the
//! contract, since an agent's turn reads the agents already stepped this
//! tick at their new states. Each turn applies, in order: gravity with the
//! vertical-velocity clamp, the pairwise pass over every other agent,
//! horizontal movement with the screen-boundary tolerance, vertical
//! movement, and platform collision.

use vstd::prelude::*;
use vstd::pervasive::VecAdditionalExecFns;
use crate::geometry::{Rect, RectV, rects_intersect, rect_within};
use crate::entities::{
    Agent, AgentV, GameContext, agents_view, agent_within_world, WORLD_LIMIT, MAX_AGENTS,
};

verus! {

/// `v` clamped into `[-max_vv, max_vv]`.
pub open spec fn clamped(v: int, max_vv: int) -> int {
    if v > max_vv {
        max_vv
    } else if v < -max_vv {
        -max_vv
    } else {
        v
    }
}

/// Gravity pulls the vertical velocity down by `gravity`, and the result is
/// clamped into `[-max_vv, max_vv]` so that one tick's vertical displacement
/// can never exceed the clamp and tunnel through a body.
pub open spec fn gravity_phase(a: AgentV, gravity: int, max_vv: int) -> AgentV {
    AgentV { vv: clamped(a.vv - gravity, max_vv), ..a }
}

/// The landing test agent rectangle `p` applies against another agent's
/// rectangle `o`: `p`'s bottom edge has reached or passed `o`'s top edge,
/// and one of two alternative span conditions relates the horizontal
/// extents. The span test is an approximation of a containment check and is
/// kept exactly as the simulation has always had it; in particular it never
/// fires when the two spans coincide.
pub open spec fn lands_on(p: RectV, o: RectV) -> bool {
    &&& p.y + p.h >= o.y
    &&& ((p.x > o.x && o.x + o.w < p.x) || (p.x + p.w > o.x && o.x + o.w < p.x + p.w))
}

/// One ordered pairwise interaction. If the rectangles intersect, `p`
/// receives `o`'s horizontal velocity — added when `p` is strictly to the
/// right of `o`, subtracted otherwise — and then, if the landing test
/// holds, `p` comes to rest exactly on `o`'s top edge with its vertical
/// velocity zeroed and its jump cleared. Only `p` is changed.
pub open spec fn collide_pair(p: AgentV, o: AgentV) -> AgentV {
    if !rects_intersect(p.pos, o.pos) {
        p
    } else {
        let p1 = AgentV { hv: if p.pos.x > o.pos.x { p.hv + o.hv } else { p.hv - o.hv }, ..p };
        if lands_on(p1.pos, o.pos) {
            AgentV { vv: 0, is_jump: false, pos: RectV { y: o.pos.y - p1.pos.h, ..p1.pos }, ..p1 }
        } else {
            p1
        }
    }
}

/// Agent `pi`'s pairwise pass folded over the other agents with index below
/// `upto`, in index order; index `pi` itself is skipped.
pub open spec fn pair_pass(agents: Seq<AgentV>, pi: int, upto: int) -> AgentV
    decreases upto,
{
    if upto <= 0 {
        agents[pi]
    } else if upto - 1 == pi {
        pair_pass(agents, pi, upto - 1)
    } else {
        collide_pair(pair_pass(agents, pi, upto - 1), agents[upto - 1])
    }
}

/// The boundary tolerance: a candidate x position is taken only if it is
/// strictly greater than `-0.3 * width` and strictly less than
/// `window_w - 0.7 * width`, so a sprite may overhang either screen edge by
/// the matching fraction of its width. Stated over tenths to stay in
/// integers.
pub open spec fn within_window(cand: int, w: int, window_w: int) -> bool {
    10 * cand > -3 * w && 10 * cand < 10 * window_w - 7 * w
}

/// Horizontal movement with the soft wall: an accepted candidate position
/// consumes the horizontal velocity; a rejected one leaves both `x` and
/// `hv` as they were, so the velocity persists and is retried next tick.
pub open spec fn horizontal_phase(a: AgentV, window_w: int) -> AgentV {
    if within_window(a.pos.x + a.hv, a.pos.w, window_w) {
        AgentV { hv: 0, pos: RectV { x: a.pos.x + a.hv, ..a.pos }, ..a }
    } else {
        a
    }
}

/// Vertical movement: positive vertical velocity points upward and `y`
/// grows downward, so the velocity is subtracted from `y`.
pub open spec fn vertical_phase(a: AgentV) -> AgentV {
    AgentV { pos: RectV { y: a.pos.y - a.vv, ..a.pos }, ..a }
}

/// Platform collision: an agent whose rectangle intersects the platform's
/// is snapped to rest exactly on the platform's top edge, with its vertical
/// velocity zeroed and its jump cleared.
pub open spec fn platform_phase(a: AgentV, plat: RectV) -> AgentV {
    if rects_intersect(plat, a.pos) {
        AgentV { vv: 0, is_jump: false, pos: RectV { y: plat.y - a.pos.h, ..a.pos }, ..a }
    } else {
        a
    }
}

/// Movement and platform collision, in the order the tick applies them.
pub open spec fn move_phase(a: AgentV, window_w: int, plat: RectV) -> AgentV {
    platform_phase(vertical_phase(horizontal_phase(a, window_w)), plat)
}

/// One agent's whole turn, taken in the world `agents`.
pub open spec fn step_agent(
    agents: Seq<AgentV>,
    pi: int,
    gravity: int,
    max_vv: int,
    window_w: int,
    plat: RectV,
) -> AgentV {
    let a0 = gravity_phase(agents[pi], gravity, max_vv);
    let a1 = pair_pass(agents.update(pi, a0), pi, agents.len() as int);
    move_phase(a1, window_w, plat)
}

/// The world after the agents with index below `k` have taken their turns,
/// in index order.
pub open spec fn step_upto(
    agents: Seq<AgentV>,
    k: int,
    gravity: int,
    max_vv: int,
    window_w: int,
    plat: RectV,
) -> Seq<AgentV>
    decreases k,
{
    if k <= 0 {
        agents
    } else {
        let prev = step_upto(agents, k - 1, gravity, max_vv, window_w, plat);
        prev.update(k - 1, step_agent(prev, k - 1, gravity, max_vv, window_w, plat))
    }
}

/// The whole tick: every agent takes its turn, in index order.
pub open spec fn step_spec(
    agents: Seq<AgentV>,
    gravity: int,
    max_vv: int,
    window_w: int,
    plat: RectV,
) -> Seq<AgentV> {
    step_upto(agents, agents.len() as int, gravity, max_vv, window_w, plat)
}

/// What a tick leaves of an agent whatever happens: identity, speed, facing
/// and size are untouched, the vertical velocity ends inside the clamp, and
/// the jump flag is never raised by physics.
pub open spec fn turn_frame(a: AgentV, orig: AgentV, max_vv: int) -> bool {
    &&& a.id == orig.id
    &&& a.speed == orig.speed
    &&& a.is_left == orig.is_left
    &&& a.pos.w == orig.pos.w
    &&& a.pos.h == orig.pos.h
    &&& -max_vv <= a.vv <= max_vv
    &&& (a.is_jump ==> orig.is_jump)
}

/// The pairwise pass never touches identity, speed, facing, horizontal
/// position or size; it can only keep or zero the vertical velocity, and
/// keep or clear the jump flag.
pub proof fn lemma_pair_pass_frame(agents: Seq<AgentV>, pi: int, upto: int)
    requires
        0 <= pi < agents.len(),
        0 <= upto <= agents.len(),
    ensures
        ({
            let r = pair_pass(agents, pi, upto);
            &&& r.id == agents[pi].id
            &&& r.speed == agents[pi].speed
            &&& r.is_left == agents[pi].is_left
            &&& r.pos.x == agents[pi].pos.x
            &&& r.pos.w == agents[pi].pos.w
            &&& r.pos.h == agents[pi].pos.h
            &&& (r.vv == agents[pi].vv || r.vv == 0)
            &&& (r.is_jump ==> agents[pi].is_jump)
        }),
    decreases upto,
{
    if upto > 0 {
        lemma_pair_pass_frame(agents, pi, upto - 1);
    }
}

/// One turn keeps identity, speed, facing and size, and delivers a vertical
/// velocity inside the clamp.
pub proof fn lemma_step_agent_frame(
    agents: Seq<AgentV>,
    pi: int,
    gravity: int,
    max_vv: int,
    window_w: int,
    plat: RectV,
)
    requires
        0 <= pi < agents.len(),
        0 <= max_vv,
    ensures
        turn_frame(step_agent(agents, pi, gravity, max_vv, window_w, plat), agents[pi], max_vv),
{
    let a0 = gravity_phase(agents[pi], gravity, max_vv);
    lemma_pair_pass_frame(agents.update(pi, a0), pi, agents.len() as int);
}

/// Agents whose turn has not yet come are untouched; agents already stepped
/// satisfy the turn frame against their pre-tick state.
pub proof fn lemma_step_upto_frame(
    agents: Seq<AgentV>,
    k: int,
    gravity: int,
    max_vv: int,
    window_w: int,
    plat: RectV,
)
    requires
        0 <= k <= agents.len(),
        0 <= max_vv,
    ensures
        step_upto(agents, k, gravity, max_vv, window_w, plat).len() == agents.len(),
        forall|j: int|
            k <= j < agents.len() ==> step_upto(agents, k, gravity, max_vv, window_w, plat)[j]
                == agents[j],
        forall|j: int|
            0 <= j < k ==> turn_frame(
                #[trigger] step_upto(agents, k, gravity, max_vv, window_w, plat)[j],
                agents[j],
                max_vv,
            ),
    decreases k,
{
    if k > 0 {
        lemma_step_upto_frame(agents, k - 1, gravity, max_vv, window_w, plat);
        lemma_step_agent_frame(
            step_upto(agents, k - 1, gravity, max_vv, window_w, plat),
            k - 1,
            gravity,
            max_vv,
            window_w,
            plat,
        );
    }
}

/// Bound on any agent's `|hv|` after the first `k` turns of a tick: one
/// turn can fold every other agent's horizontal velocity into one agent, so
/// the bound can grow at most ninefold per turn (the agent count is at most
/// `MAX_AGENTS`).
pub open spec fn hv_bound_at(k: int) -> int
    decreases k,
{
    if k <= 0 {
        WORLD_LIMIT as int
    } else {
        9 * hv_bound_at(k - 1)
    }
}

/// Bound on any agent's `|pos.y|` after the first `k` turns: each turn
/// moves `y` once by a clamped velocity and can snap it once onto a top
/// edge, each within `WORLD_LIMIT`.
pub open spec fn y_bound_at(k: int) -> int
    decreases k,
{
    if k <= 0 {
        WORLD_LIMIT as int
    } else {
        y_bound_at(k - 1) + 2 * WORLD_LIMIT
    }
}

/// Bound on any agent's `|pos.x|` at any point of a tick: an accepted
/// candidate position lies strictly inside the window, whose width fits in
/// 32 bits.
spec fn x_limit() -> int {
    0x1_0000_0000
}

/// The mid-tick ranges of an agent after `k` turns of the tick.
spec fn mid_tick_within(a: AgentV, k: int) -> bool {
    &&& -hv_bound_at(k) <= a.hv <= hv_bound_at(k)
    &&& -y_bound_at(k) <= a.pos.y <= y_bound_at(k)
    &&& -x_limit() <= a.pos.x <= x_limit()
    &&& -(WORLD_LIMIT as int) <= a.vv <= WORLD_LIMIT as int
    &&& 0 <= a.pos.w <= WORLD_LIMIT as int
    &&& 0 <= a.pos.h <= WORLD_LIMIT as int
}

proof fn lemma_bounds_monotone(j: int, k: int)
    requires
        0 <= j <= k,
    ensures
        hv_bound_at(j) <= hv_bound_at(k),
        y_bound_at(j) <= y_bound_at(k),
        WORLD_LIMIT as int <= hv_bound_at(j),
        WORLD_LIMIT as int <= y_bound_at(j),
    decreases k,
{
    if j < k {
        lemma_bounds_monotone(j, k - 1);
    } else if j > 0 {
        lemma_bounds_monotone(j - 1, j - 1);
    }
}

proof fn lemma_bound_tops()
    ensures
        hv_bound_at(MAX_AGENTS as int) <= 0x4_0000_0000_0000,
        y_bound_at(MAX_AGENTS as int) <= 0x1100_0000,
{
    reveal_with_fuel(hv_bound_at, 9);
    reveal_with_fuel(y_bound_at, 9);
}

/// Bound on the turning agent's `|hv|` after `m` pairwise interactions,
/// when every agent's `|hv|` is at most `b` as the turn begins.
spec fn acc_bound(m: int, b: int) -> int
    decreases m,
{
    if m <= 0 {
        b
    } else {
        acc_bound(m - 1, b) + b
    }
}

proof fn lemma_acc_bound_le(m: int, b: int)
    requires
        0 <= m <= MAX_AGENTS as int,
        0 <= b,
    ensures
        acc_bound(m, b) <= acc_bound(MAX_AGENTS as int, b),
        acc_bound(MAX_AGENTS as int, b) == 9 * b,
        b <= acc_bound(m, b),
    decreases MAX_AGENTS as int - m,
{
    reveal_with_fuel(acc_bound, 9);
    if m < MAX_AGENTS as int {
        lemma_acc_bound_le(m + 1, b);
    }
}

impl GameContext {
    /// One tick of physics. Every agent is mutated in place exactly as the
    /// model `step_spec` says, in index order; the world constants, the
    /// platform, the background and the running flag are untouched, and
    /// every agent ends the tick with its vertical velocity inside
    /// `[-max_vv, max_vv]`.
    pub fn apply_physics(&mut self)
        requires
            old(self).wf(),
        ensures
            agents_view(final(self).players@) == step_spec(
                agents_view(old(self).players@),
                old(self).gravity as int,
                old(self).max_vv as int,
                old(self).window_w as int,
                old(self).platform@,
            ),
            final(self).players@.len() == old(self).players@.len(),
            forall|i: int|
                0 <= i < final(self).players@.len() ==> turn_frame(
                    #[trigger] final(self).players@[i]@,
                    old(self).players@[i]@,
                    old(self).max_vv as int,
                ),
            forall|i: int|
                0 <= i < final(self).players@.len() ==> -old(self).max_vv
                    <= #[trigger] final(self).players@[i].vv <= old(self).max_vv,
            final(self).window_w == old(self).window_w,
            final(self).window_h == old(self).window_h,
            final(self).gravity == old(self).gravity,
            final(self).max_vv == old(self).max_vv,
            final(self).platform == old(self).platform,
            final(self).background == old(self).background,
            final(self).running == old(self).running,
    {
        let ghost orig: Seq<AgentV> = agents_view(self.players@);
        let ghost g: int = self.gravity as int;
        let ghost mv: int = self.max_vv as int;
        let ghost ww: int = self.window_w as int;
        let ghost plat: RectV = self.platform@;
        let n = self.players.len();
        let mut pi: usize = 0;
        while pi < n
            invariant
                self.players@.len() == n,
                orig.len() == n,
                n <= MAX_AGENTS,
                pi <= n,
                self.window_w == old(self).window_w,
                self.window_h == old(self).window_h,
                self.gravity == old(self).gravity,
                self.max_vv == old(self).max_vv,
                self.platform == old(self).platform,
                self.background == old(self).background,
                self.running == old(self).running,
                orig == agents_view(old(self).players@),
                g == old(self).gravity as int,
                mv == old(self).max_vv as int,
                ww == old(self).window_w as int,
                plat == old(self).platform@,
                0 <= g <= WORLD_LIMIT as int,
                0 <= mv <= WORLD_LIMIT as int,
                rect_within(plat, WORLD_LIMIT as int),
                forall|j: int| 0 <= j < n ==> agent_within_world(#[trigger] orig[j]),
                agents_view(self.players@) == step_upto(orig, pi as int, g, mv, ww, plat),
                forall|j: int| pi <= j < n ==> #[trigger] self.players@[j]@ == orig[j],
                forall|j: int|
                    0 <= j < pi ==> #[trigger] mid_tick_within(self.players@[j]@, pi as int),
            decreases n - pi,
        {
            proof {
                lemma_bounds_monotone(0, pi as int);
                lemma_bounds_monotone(pi as int, MAX_AGENTS as int);
                lemma_bound_tops();
            }
            let mut p: Agent = self.players[pi];
            proof {
                assert(self.players@[pi as int]@ == orig[pi as int]);
                assert(agent_within_world(orig[pi as int]));
            }
            // Gravity, then the vertical-velocity clamp.
            p.vv = p.vv - self.gravity;
            if p.vv > self.max_vv {
                p.vv = self.max_vv;
            }
            if p.vv < -self.max_vv {
                p.vv = -self.max_vv;
            }
            proof {
                assert(p@ == gravity_phase(orig[pi as int], g, mv));
            }
            let ghost vsnap: Seq<Agent> = self.players@;
            let ghost base: Seq<AgentV> = agents_view(vsnap).update(pi as int, p@);
            proof {
                assert(p@ == pair_pass(base, pi as int, 0));
                assert forall|j: int| 0 <= j < n implies #[trigger] mid_tick_within(
                    base[j],
                    pi as int,
                ) by {
                    if j < pi {
                        assert(mid_tick_within(self.players@[j]@, pi as int));
                    }
                }
            }
            // The pairwise pass over every other agent, in index order.
            let mut oi: usize = 0;
            while oi < n
                invariant
                    self.players@ == vsnap,
                    vsnap.len() == n,
                    n <= MAX_AGENTS,
                    pi < n,
                    oi <= n,
                    g == self.gravity as int,
                    base.len() == n,
                    base == agents_view(vsnap).update(pi as int, base[pi as int]),
                    forall|j: int| 0 <= j < n && j != pi ==> base[j] == #[trigger] vsnap[j]@,
                    forall|j: int| 0 <= j < n ==> #[trigger] mid_tick_within(base[j], pi as int),
                    p@ == pair_pass(base, pi as int, oi as int),
                    -acc_bound(oi as int, hv_bound_at(pi as int)) <= p.hv <= acc_bound(
                        oi as int,
                        hv_bound_at(pi as int),
                    ),
                    -(y_bound_at(pi as int) + WORLD_LIMIT as int) <= p.pos.y <= y_bound_at(
                        pi as int,
                    ) + WORLD_LIMIT as int,
                    -x_limit() <= p.pos.x <= x_limit(),
                    -(WORLD_LIMIT as int) <= p.vv <= WORLD_LIMIT as int,
                    p.pos.width <= WORLD_LIMIT as u32,
                    p.pos.height <= WORLD_LIMIT as u32,
                decreases n - oi,
            {
                proof {
                    lemma_bounds_monotone(pi as int, MAX_AGENTS as int);
                    lemma_bound_tops();
                    lemma_acc_bound_le(oi as int, hv_bound_at(pi as int));
                    lemma_acc_bound_le(oi as int + 1, hv_bound_at(pi as int));
                }
                if oi != pi {
                    let o = self.players[oi];
                    proof {
                        assert(o@ == base[oi as int]);
                        assert(mid_tick_within(base[oi as int], pi as int));
                    }
                    if p.pos.intersects(&o.pos) {
                        // Horizontal velocity transfer for this ordered pair.
                        if p.pos.x > o.pos.x {
                            p.hv = p.hv + o.hv;
                        } else {
                            p.hv = p.hv - o.hv;
                        }
                        // Landing on top: rest exactly on the other agent.
                        let ph = p.pos.height as i64;
                        let pw = p.pos.width as i64;
                        let ow = o.pos.width as i64;
                        if p.pos.y + ph >= o.pos.y && ((p.pos.x > o.pos.x && o.pos.x + ow
                            < p.pos.x) || (p.pos.x + pw > o.pos.x && o.pos.x + ow < p.pos.x + pw)) {
                            p.is_jump = false;
                            p.vv = 0;
                            p.pos.y = o.pos.y - ph;
                        }
                    }
                    proof {
                        assert(p@ == pair_pass(base, pi as int, oi as int + 1));
                    }
                } else {
                    proof {
                        assert(p@ == pair_pass(base, pi as int, oi as int + 1));
                    }
                }
                oi = oi + 1;
            }
            proof {
                lemma_acc_bound_le(n as int, hv_bound_at(pi as int));
            }
            // Horizontal movement with the boundary tolerance.
            let cand = p.pos.x + p.hv;
            let w = p.pos.width as i64;
            let lo: i64 = -(3 * w);
            let hi: i64 = 10 * (self.window_w as i64) - 7 * w;
            if 10 * cand > lo && 10 * cand < hi {
                p.hv = 0;
                p.pos.x = cand;
            }
            // Vertical movement.
            p.pos.y = p.pos.y - p.vv;
            // Platform collision: rest exactly on the platform's top edge.
            if self.platform.pos.intersects(&p.pos) {
                p.is_jump = false;
                p.vv = 0;
                p.pos.y = self.platform.pos.y - p.pos.height as i64;
            }
            proof {
                let prev = step_upto(orig, pi as int, g, mv, ww, plat);
                assert(base == prev.update(pi as int, gravity_phase(prev[pi as int], g, mv)));
                assert(p@ == step_agent(prev, pi as int, g, mv, ww, plat));
            }
            self.players.set(pi, p);
            proof {
                let prev = step_upto(orig, pi as int, g, mv, ww, plat);
                assert(agents_view(self.players@) =~= prev.update(
                    pi as int,
                    step_agent(prev, pi as int, g, mv, ww, plat),
                ));
                lemma_bounds_monotone(pi as int, pi as int + 1);
                assert(mid_tick_within(p@, pi as int + 1));
                assert forall|j: int|
                    0 <= j < pi as int + 1 implies #[trigger] mid_tick_within(
                    self.players@[j]@,
                    pi as int + 1,
                ) by {
                    if j < pi {
                        assert(mid_tick_within(vsnap[j]@, pi as int));
                    }
                }
            }
            pi = pi + 1;
        }
        proof {
            assert(agents_view(self.players@) == step_spec(orig, g, mv, ww, plat));
            lemma_step_upto_frame(orig, n as int, g, mv, ww, plat);
            assert forall|i: int| 0 <= i < self.players@.len() implies turn_frame(
                #[trigger] self.players@[i]@,
                old(self).players@[i]@,
                mv,
            ) by {
                assert(step_upto(orig, n as int, g, mv, ww, plat)[i] == self.players@[i]@);
            }
            assert forall|i: int| 0 <= i < self.players@.len() implies -mv
                <= #[trigger] self.players@[i].vv <= mv by {
                assert(turn_frame(self.players@[i]@, old(self).players@[i]@, mv));
            }
        }
    }
}

} // verus!
