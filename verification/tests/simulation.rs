use trashguy::entities::{Agent, GameContext, Object};
use trashguy::geometry::Rect;

const GRAVITY: i64 = 3;
const MAX_VELOCITY: i64 = 120;
const WINDOW_W: u32 = 1500;
const WINDOW_H: u32 = 1000;
const PLAYER_W: u32 = 128;
const PLAYER_H: u32 = 64;

fn agent(id: i64, x: i64, y: i64) -> Agent {
    Agent::new(id, Rect::new(x, y, PLAYER_W, PLAYER_H), 7)
}

fn world(players: Vec<Agent>) -> GameContext {
    GameContext {
        window_w: WINDOW_W,
        window_h: WINDOW_H,
        gravity: GRAVITY,
        max_vv: MAX_VELOCITY,
        players,
        platform: Object { pos: Rect::new(0, 900, WINDOW_W, 100) },
        background: Object { pos: Rect::new(0, 0, WINDOW_W, WINDOW_H) },
        running: true,
    }
}

#[test]
fn vertical_velocity_is_clamped() {
    let mut up = agent(0, 100, 100);
    up.vv = 200;
    let mut down = agent(1, 600, 100);
    down.vv = -200;
    let mut ctx = world(vec![up, down]);
    ctx.apply_physics();
    assert_eq!(ctx.players[0].vv, 120);
    assert_eq!(ctx.players[1].vv, -120);
    for p in &ctx.players {
        assert!(p.vv.abs() <= MAX_VELOCITY);
    }
}

#[test]
fn disjoint_idle_agents_fall_only() {
    let a = agent(0, 100, 100);
    let b = agent(1, 600, 100);
    let mut ctx = world(vec![a, b]);
    ctx.apply_physics();
    for (p, x) in ctx.players.iter().zip([100i64, 600i64]) {
        assert_eq!(p.pos.x, x);
        assert_eq!(p.pos.y, 103);
        assert_eq!(p.pos.width, PLAYER_W);
        assert_eq!(p.pos.height, PLAYER_H);
        assert_eq!(p.hv, 0);
        assert_eq!(p.vv, -GRAVITY);
        assert_eq!(p.speed, 7);
        assert!(!p.is_left);
        assert!(!p.is_jump);
    }
    assert_eq!(ctx.players[0].id, 0);
    assert_eq!(ctx.players[1].id, 1);
}

#[test]
fn intersecting_platform_rests_agent() {
    // Top at 835: the bottom edge reaches 902 after the fall, inside the
    // platform, so the agent is snapped to rest on the platform's top.
    let mut a = agent(0, 400, 835);
    a.is_jump = true;
    a.vv = 0;
    let mut ctx = world(vec![a]);
    ctx.apply_physics();
    assert_eq!(ctx.players[0].pos.y, 900 - PLAYER_H as i64);
    assert_eq!(ctx.players[0].vv, 0);
    assert!(!ctx.players[0].is_jump);
}

#[test]
fn boundary_rejection_keeps_velocity() {
    // Candidate x = -50 is not greater than -0.3 * 128 = -38.4: the move is
    // rejected, and the soft wall keeps the velocity for the next tick.
    let mut a = agent(0, 0, 100);
    a.hv = -50;
    let mut ctx = world(vec![a]);
    ctx.apply_physics();
    assert_eq!(ctx.players[0].pos.x, 0);
    assert_eq!(ctx.players[0].hv, -50);
}

#[test]
fn boundary_acceptance_consumes_velocity() {
    // Candidate x = -38 is strictly greater than -38.4: the move is taken
    // and the velocity is consumed.
    let mut a = agent(0, 0, 100);
    a.hv = -38;
    let mut ctx = world(vec![a]);
    ctx.apply_physics();
    assert_eq!(ctx.players[0].pos.x, -38);
    assert_eq!(ctx.players[0].hv, 0);
}

#[test]
fn right_boundary_tolerance() {
    // The window is 1500 wide; movement is rejected from candidate
    // 1500 - 0.7 * 128 = 1410.4 upward, so 1410 is accepted and 1411 is not.
    let mut a = agent(0, 1400, 100);
    a.hv = 10;
    let mut ctx = world(vec![a]);
    ctx.apply_physics();
    assert_eq!(ctx.players[0].pos.x, 1410);
    assert_eq!(ctx.players[0].hv, 0);

    let mut b = agent(0, 1400, 100);
    b.hv = 11;
    let mut ctx2 = world(vec![b]);
    ctx2.apply_physics();
    assert_eq!(ctx2.players[0].pos.x, 1400);
    assert_eq!(ctx2.players[0].hv, 11);
}

#[test]
fn rest_on_platform_is_stable() {
    let resting_y = 900 - PLAYER_H as i64;
    let mut ctx = world(vec![agent(0, 400, resting_y)]);
    for _ in 0..3 {
        ctx.apply_physics();
        assert_eq!(ctx.players[0].pos.y, resting_y);
        assert_eq!(ctx.players[0].pos.x, 400);
        assert_eq!(ctx.players[0].vv, 0);
        assert_eq!(ctx.players[0].hv, 0);
    }
}

#[test]
fn stacked_aligned_agents_fall_in_lockstep() {
    // B rests exactly on A's top with the same span. The agent-landing span
    // test never fires for coinciding spans (a known gap of the collision
    // response), so both agents simply fall by the same clamped gravity.
    let a = agent(0, 400, 400);
    let b = agent(1, 400, 336);
    let mut ctx = world(vec![a, b]);
    ctx.apply_physics();
    assert_eq!(ctx.players[0].pos.y, 403);
    assert_eq!(ctx.players[0].vv, -3);
    assert_eq!(ctx.players[1].pos.y, 339);
    assert_eq!(ctx.players[1].vv, -3);
}

#[test]
fn landing_on_other_agent_snaps() {
    // B overlaps A with a shifted span, so on B's turn the landing test
    // fires against A's fallen rectangle: B is snapped onto A's top edge
    // with its vertical velocity zeroed and its jump cleared.
    let a = agent(0, 400, 400);
    let mut b = agent(1, 410, 380);
    b.is_jump = true;
    let mut ctx = world(vec![a, b]);
    ctx.apply_physics();
    assert_eq!(ctx.players[0].pos.y, 403);
    assert_eq!(ctx.players[1].pos.x, 410);
    assert_eq!(ctx.players[1].pos.y, 339);
    assert_eq!(ctx.players[1].vv, 0);
    assert!(!ctx.players[1].is_jump);
}

#[test]
fn velocity_transfer_between_overlapping_agents() {
    // A is processed first: it is not strictly right of B, so it subtracts
    // B's velocity, moves, and consumes its own. B then adds A's velocity —
    // already reset to zero — and lands on A.
    let mut a = agent(0, 400, 400);
    a.hv = 5;
    let mut b = agent(1, 410, 400);
    b.hv = 7;
    let mut ctx = world(vec![a, b]);
    ctx.apply_physics();
    assert_eq!(ctx.players[0].pos.x, 398);
    assert_eq!(ctx.players[0].hv, 0);
    assert_eq!(ctx.players[1].pos.x, 417);
    assert_eq!(ctx.players[1].pos.y, 339);
    assert_eq!(ctx.players[1].vv, 0);
    assert_eq!(ctx.players[1].hv, 0);
}

#[test]
fn clamped_fall_cannot_tunnel_platform() {
    // The clamp caps one tick's fall at 120, less than the platform's and
    // the agent's heights together, so a fast fall ends on the platform
    // instead of passing through it.
    let mut a = agent(0, 400, 700);
    a.vv = -117;
    let mut ctx = world(vec![a]);
    ctx.apply_physics();
    assert_eq!(ctx.players[0].vv, -120);
    assert_eq!(ctx.players[0].pos.y, 820);
    ctx.apply_physics();
    assert_eq!(ctx.players[0].pos.y, 900 - PLAYER_H as i64);
    assert_eq!(ctx.players[0].vv, 0);
}

#[test]
fn touching_rectangles_do_not_intersect() {
    let a = Rect::new(0, 0, 5, 5);
    assert!(a.intersects(&a));
    assert!(a.intersects(&Rect::new(2, 2, 5, 5)));
    assert!(!a.intersects(&Rect::new(5, 0, 5, 5)));
    assert!(!a.intersects(&Rect::new(0, 5, 5, 5)));
    assert!(!a.intersects(&Rect::new(2, 2, 0, 5)));
    assert!(!a.intersects(&Rect::new(2, 2, 5, 0)));
}
