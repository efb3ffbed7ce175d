use vstd::prelude::*;

use crate::geometry::Vec2;

verus! {

/// The least `x` among the points.
pub open spec fn min_x(s: Seq<Vec2>) -> int
    decreases s.len(),
{
    if s.len() <= 1 {
        if s.len() == 0 { 0 } else { s[0].x as int }
    } else {
        let m = min_x(s.drop_last());
        if (s.last().x as int) < m { s.last().x as int } else { m }
    }
}

/// The greatest `x` among the points.
pub open spec fn max_x(s: Seq<Vec2>) -> int
    decreases s.len(),
{
    if s.len() <= 1 {
        if s.len() == 0 { 0 } else { s[0].x as int }
    } else {
        let m = max_x(s.drop_last());
        if (s.last().x as int) > m { s.last().x as int } else { m }
    }
}

/// The least `y` among the points.
pub open spec fn min_y(s: Seq<Vec2>) -> int
    decreases s.len(),
{
    if s.len() <= 1 {
        if s.len() == 0 { 0 } else { s[0].y as int }
    } else {
        let m = min_y(s.drop_last());
        if (s.last().y as int) < m { s.last().y as int } else { m }
    }
}

/// The greatest `y` among the points.
pub open spec fn max_y(s: Seq<Vec2>) -> int
    decreases s.len(),
{
    if s.len() <= 1 {
        if s.len() == 0 { 0 } else { s[0].y as int }
    } else {
        let m = max_y(s.drop_last());
        if (s.last().y as int) > m { s.last().y as int } else { m }
    }
}

/// The midpoint of `lo` and `hi`, rounded down.
pub open spec fn mid(lo: int, hi: int) -> int {
    lo + (hi - lo) / 2
}

/// Where the camera is centred: the middle of the box that bounds every player.
/// With no player there is nothing to follow and the camera stays put.
pub fn camera_follow_player(players: &Vec<Vec2>) -> (r: Option<Vec2>)
    ensures
        players@.len() == 0 <==> r is None,
        r matches Some(c) ==> c.x == mid(min_x(players@), max_x(players@))
            && c.y == mid(min_y(players@), max_y(players@)),
{
    if players.len() == 0 {
        return None;
    }
    let mut lo_x: i32 = players[0].x;
    let mut hi_x: i32 = players[0].x;
    let mut lo_y: i32 = players[0].y;
    let mut hi_y: i32 = players[0].y;
    let mut i: usize = 1;
    while i < players.len()
        invariant
            1 <= i <= players@.len(),
            lo_x <= hi_x,
            lo_y <= hi_y,
            lo_x == min_x(players@.take(i as int)),
            hi_x == max_x(players@.take(i as int)),
            lo_y == min_y(players@.take(i as int)),
            hi_y == max_y(players@.take(i as int)),
        decreases players@.len() - i,
    {
        let p = players[i];
        proof {
            assert(players@.take(i + 1).drop_last() =~= players@.take(i as int));
        }
        if p.x < lo_x {
            lo_x = p.x;
        }
        if p.x > hi_x {
            hi_x = p.x;
        }
        if p.y < lo_y {
            lo_y = p.y;
        }
        if p.y > hi_y {
            hi_y = p.y;
        }
        i = i + 1;
    }
    proof {
        assert(players@.take(i as int) =~= players@);
    }
    let cx: i64 = lo_x as i64 + (hi_x as i64 - lo_x as i64) / 2;
    let cy: i64 = lo_y as i64 + (hi_y as i64 - lo_y as i64) / 2;
    Some(Vec2::new(cx as i32, cy as i32))
}

} // verus!
