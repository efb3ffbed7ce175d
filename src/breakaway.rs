use vstd::prelude::*;

use crate::delete_after::DEBRIS_TTL_MS;
use crate::geometry::Vec2;

verus! {

/// Relative speed above which a link snaps, in thousandths of a unit per second.
pub const BREAK_SPEED: i64 = 1000000;

/// What the detector reads of one link: where it is and how fast it moves.
#[derive(Clone, Copy, Debug, PartialEq, Eq, Structural)]
pub struct LinkState {
    pub position: Vec2,
    pub velocity: Vec2,
}

/// A debris body to spawn: where, the impulse it starts with, and how long it lives.
#[derive(Clone, Copy, Debug, PartialEq, Eq, Structural)]
pub struct Debris {
    pub position: Vec2,
    pub impulse: Vec2,
    pub ttl_ms: u64,
}

/// The squared length of `a - b`.
pub open spec fn rel_speed_sq(a: Vec2, b: Vec2) -> int {
    (a.x - b.x) * (a.x - b.x) + (a.y - b.y) * (a.y - b.y)
}

/// Whether a link moving at `link` snaps away from a controller moving at
/// `controller`: the length of the difference exceeds the threshold strictly.
pub open spec fn breaks_spec(link: Vec2, controller: Vec2) -> bool {
    rel_speed_sq(link, controller) > BREAK_SPEED * BREAK_SPEED
}

/// Half of `v`, rounded toward zero.
pub open spec fn half(v: int) -> int {
    if v >= 0 {
        v / 2
    } else {
        -((-v) / 2)
    }
}

/// The debris spawned for a link that snaps: at its position, with half the
/// velocity difference as impulse.
pub open spec fn debris_for(link: LinkState, controller: Vec2) -> Debris {
    Debris {
        position: link.position,
        impulse: Vec2 {
            x: half(link.velocity.x - controller.x) as i32,
            y: half(link.velocity.y - controller.y) as i32,
        },
        ttl_ms: DEBRIS_TTL_MS,
    }
}

/// The debris for the links that snap, in link order.
pub open spec fn debris_of(links: Seq<LinkState>, controller: Vec2) -> Seq<Debris>
    decreases links.len(),
{
    if links.len() == 0 {
        Seq::empty()
    } else {
        let rest = debris_of(links.drop_last(), controller);
        if breaks_spec(links.last().velocity, controller) {
            rest.push(debris_for(links.last(), controller))
        } else {
            rest
        }
    }
}

/// Whether a link moving at `link` snaps away from the controller.
pub fn breaks_away(link: Vec2, controller: Vec2) -> (r: bool)
    ensures
        r == breaks_spec(link, controller),
{
    let dx: i128 = link.x as i128 - controller.x as i128;
    let dy: i128 = link.y as i128 - controller.y as i128;
    assert(0 <= dx * dx <= 0x1_0000_0000_0000_0000) by (nonlinear_arith)
        requires
            -0x1_0000_0000 <= dx <= 0x1_0000_0000,
    ;
    assert(0 <= dy * dy <= 0x1_0000_0000_0000_0000) by (nonlinear_arith)
        requires
            -0x1_0000_0000 <= dy <= 0x1_0000_0000,
    ;
    let limit: i128 = BREAK_SPEED as i128;
    dx * dx + dy * dy > limit * limit
}

/// Half of `v`, rounded toward zero; it fits an `i32` for any difference of two.
fn half_toward_zero(v: i64) -> (r: i32)
    requires
        -0xFFFF_FFFF <= v <= 0xFFFF_FFFF,
    ensures
        r == half(v as int),
{
    if v >= 0 {
        (v / 2) as i32
    } else {
        -(((-v) / 2) as i32)
    }
}

/// The debris spawned for a link that snaps.
pub fn debris_from(link: LinkState, controller: Vec2) -> (r: Debris)
    ensures
        r == debris_for(link, controller),
{
    let dx: i64 = link.velocity.x as i64 - controller.x as i64;
    let dy: i64 = link.velocity.y as i64 - controller.y as i64;
    Debris {
        position: link.position,
        impulse: Vec2::new(half_toward_zero(dx), half_toward_zero(dy)),
        ttl_ms: DEBRIS_TTL_MS,
    }
}

/// One tick of the detector: the debris to spawn for every link whose speed
/// relative to the controller exceeds the threshold.
pub fn woosh_chain(controller: Vec2, links: &Vec<LinkState>) -> (r: Vec<Debris>)
    ensures
        r@ == debris_of(links@, controller),
{
    let mut out: Vec<Debris> = Vec::new();
    let mut i: usize = 0;
    while i < links.len()
        invariant
            i <= links@.len(),
            out@ == debris_of(links@.take(i as int), controller),
        decreases links@.len() - i,
    {
        let link = links[i];
        proof {
            assert(links@.take(i + 1).drop_last() =~= links@.take(i as int));
            assert(links@.take(i + 1).last() == link);
        }
        if breaks_away(link.velocity, controller) {
            out.push(debris_from(link, controller));
        }
        i = i + 1;
    }
    proof {
        assert(links@.take(i as int) =~= links@);
    }
    out
}

} // verus!
