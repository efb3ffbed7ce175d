use vstd::prelude::*;

use crate::geometry::Vec2;

verus! {

/// Largest magnitude of the steering offset, in tenths.
pub const OFFSET_LIMIT: i32 = 10;

/// A discretized steering command.
#[derive(Clone, Copy, Debug, PartialEq, Eq, Structural)]
pub enum Steer {
    Left,
    Right,
    Idle,
}

/// The steerable attachment of the chain to its controller.
///
/// `pos` is the steering offset in tenths: the offset `pos / 10` always lies
/// in `[-1.0, 1.0]`.
#[derive(Clone, Copy, Debug, PartialEq, Eq, Structural)]
pub struct ChainBase {
    pos: i32,
}

/// The offset after one command, in tenths, clamped to `[-10, 10]`.
pub open spec fn step_offset(pos: int, cmd: Steer) -> int {
    match cmd {
        Steer::Left => if pos - 1 < -10 { -10 } else { pos - 1 },
        Steer::Right => if pos + 1 > 10 { 10 } else { pos + 1 },
        Steer::Idle => pos,
    }
}

/// The offset after a sequence of commands, applied first to last.
pub open spec fn run_offset(pos: int, cmds: Seq<Steer>) -> int
    decreases cmds.len(),
{
    if cmds.len() == 0 {
        pos
    } else {
        run_offset(step_offset(pos, cmds[0]), cmds.drop_first())
    }
}

/// The anchor on the controller for an offset of `pos` tenths, in thousandths:
/// `(0, 35) + (offset * 20, -15 * |offset|)`.
pub open spec fn anchor_of(pos: int) -> (int, int) {
    (2000 * pos, 35000 - 1500 * (if pos < 0 { -pos } else { pos }))
}

impl ChainBase {
    pub closed spec fn offset(&self) -> int {
        self.pos as int
    }

    pub closed spec fn wf(&self) -> bool {
        -OFFSET_LIMIT <= self.pos <= OFFSET_LIMIT
    }

    /// A base with the offset centred.
    pub fn new() -> (r: ChainBase)
        ensures
            r.wf(),
            r.offset() == 0,
    {
        ChainBase { pos: 0 }
    }

    /// The offset in tenths.
    pub fn offset_tenths(&self) -> (r: i32)
        ensures
            r == self.offset(),
    {
        self.pos
    }

    /// Moves the offset one tenth to the left, stopping at `-1.0`.
    #[allow(non_snake_case)]
    pub fn moveLeft(&mut self)
        requires
            old(self).wf(),
        ensures
            final(self).wf(),
            final(self).offset() == step_offset(old(self).offset(), Steer::Left),
    {
        if self.pos > -OFFSET_LIMIT {
            self.pos = self.pos - 1;
        }
    }

    /// Moves the offset one tenth to the right, stopping at `1.0`.
    #[allow(non_snake_case)]
    pub fn moveRight(&mut self)
        requires
            old(self).wf(),
        ensures
            final(self).wf(),
            final(self).offset() == step_offset(old(self).offset(), Steer::Right),
    {
        if self.pos < OFFSET_LIMIT {
            self.pos = self.pos + 1;
        }
    }

    /// Applies one steering command.
    pub fn steer(&mut self, cmd: Steer)
        requires
            old(self).wf(),
        ensures
            final(self).wf(),
            final(self).offset() == step_offset(old(self).offset(), cmd),
    {
        match cmd {
            Steer::Left => self.moveLeft(),
            Steer::Right => self.moveRight(),
            Steer::Idle => {},
        }
    }

    /// Applies the commands in order.
    pub fn steer_all(&mut self, cmds: &Vec<Steer>)
        requires
            old(self).wf(),
        ensures
            final(self).wf(),
            final(self).offset() == run_offset(old(self).offset(), cmds@),
    {
        let ghost start = self.offset();
        let mut i: usize = 0;
        proof {
            assert(cmds@.skip(0) =~= cmds@);
        }
        while i < cmds.len()
            invariant
                self.wf(),
                i <= cmds@.len(),
                run_offset(start, cmds@) == run_offset(self.offset(), cmds@.skip(i as int)),
            decreases cmds@.len() - i,
        {
            proof {
                assert(cmds@.skip(i as int).drop_first() =~= cmds@.skip(i + 1));
            }
            self.steer(cmds[i]);
            i = i + 1;
        }
        proof {
            assert(cmds@.skip(i as int) =~= Seq::<Steer>::empty());
        }
    }

    /// The anchor point on the controller body for the current offset.
    #[allow(non_snake_case)]
    pub fn getPos(self) -> (r: Vec2)
        requires
            self.wf(),
        ensures
            (r.x as int, r.y as int) == anchor_of(self.offset()),
    {
        let magnitude: i32 = if self.pos < 0 { -self.pos } else { self.pos };
        Vec2::new(2000 * self.pos, 35000 - 1500 * magnitude)
    }
}


/// Largest number of links whose stacked spawn positions fit the fixed-point range.
pub const MAX_LINKS: usize = 2146884;

/// Horizontal spawn position of every link.
pub const LINK_SPAWN_X: i32 = 21000;

/// Vertical spawn position of the first link; each later link sits one unit higher.
pub const LINK_SPAWN_Y: i32 = 500100;

/// Distance from a link's centre to each of its two joint anchors.
pub const LINK_ANCHOR: i32 = 10000;

/// Height of the controller-side anchor of the base joint before any steering.
pub const BASE_ANCHOR_Y: i32 = 50000;

/// Marker for the controlled body that the chain trails.
#[derive(Clone, Copy, Debug, PartialEq, Eq, Structural)]
pub struct Player;

/// Marker for a body that is a link of the chain.
#[derive(Clone, Copy, Debug, PartialEq, Eq, Structural)]
pub struct ChainLink;

/// One link body of the rig and where it is spawned.
#[derive(Clone, Copy, Debug, PartialEq, Eq, Structural)]
pub struct LinkBody {
    pub marker: ChainLink,
    pub position: Vec2,
}

/// A pin joint between two consecutive links, given by their indices.
#[derive(Clone, Copy, Debug, PartialEq, Eq, Structural)]
pub struct LinkJoint {
    pub first: usize,
    pub second: usize,
    pub anchor_first: Vec2,
    pub anchor_second: Vec2,
}

/// The joint from the controller body to the first link, with its steering state.
#[derive(Clone, Copy, Debug, PartialEq, Eq, Structural)]
pub struct BaseJoint {
    pub controller: u64,
    pub anchor_controller: Vec2,
    pub anchor_link: Vec2,
    pub base: ChainBase,
}

/// The bodies and joints of a chain trailing a controller.
pub struct ChainRig {
    pub links: Vec<LinkBody>,
    pub joints: Vec<LinkJoint>,
    pub base_joint: Option<BaseJoint>,
}

/// Where link `i` is spawned: stacked one unit apart above the spawn point.
pub open spec fn link_spawn(i: int) -> (int, int) {
    (LINK_SPAWN_X as int, LINK_SPAWN_Y + 1000 * i)
}

/// How many inter-link joints join `n` links in a row.
pub open spec fn joint_count(n: int) -> int {
    if n <= 0 {
        0
    } else {
        n - 1
    }
}

/// The joint that pins the lower anchor of link `i` to the upper anchor of link `i + 1`.
pub open spec fn joint_spec(j: LinkJoint, i: int) -> bool {
    &&& j.first == i
    &&& j.second == i + 1
    &&& j.anchor_first.x == 0 && j.anchor_first.y == -LINK_ANCHOR
    &&& j.anchor_second.x == 0 && j.anchor_second.y == LINK_ANCHOR
}

/// However the commands run, the offset never leaves `[-1.0, 1.0]`.
pub proof fn lemma_offset_stays_in_range(pos: int, cmds: Seq<Steer>)
    requires
        -OFFSET_LIMIT <= pos <= OFFSET_LIMIT,
    ensures
        -OFFSET_LIMIT <= run_offset(pos, cmds) <= OFFSET_LIMIT,
    decreases cmds.len(),
{
    if cmds.len() > 0 {
        lemma_offset_stays_in_range(step_offset(pos, cmds[0]), cmds.drop_first());
    }
}

/// Steering never raises the anchor above its centred height of 35, and it
/// reaches that height only with the offset centred.
pub proof fn lemma_anchor_never_rises(pos: int)
    requires
        -OFFSET_LIMIT <= pos <= OFFSET_LIMIT,
    ensures
        anchor_of(pos).1 <= 35000,
        anchor_of(pos).1 == 35000 <==> pos == 0,
{
}

impl BaseJoint {
    pub open spec fn wf(&self) -> bool {
        self.base.wf()
    }

    /// The joint as spawned: controller's upper anchor to the first link's upper
    /// anchor, with the offset centred.
    pub open spec fn is_initial(&self, controller: u64) -> bool {
        &&& self.controller == controller
        &&& self.anchor_controller.x == 0 && self.anchor_controller.y == BASE_ANCHOR_Y
        &&& self.anchor_link.x == 0 && self.anchor_link.y == LINK_ANCHOR
        &&& self.base.offset() == 0
        &&& self.base.wf()
    }

    /// Recomputes the controller-side anchor from the current offset.
    pub fn apply_offset(&mut self)
        requires
            old(self).wf(),
        ensures
            final(self).wf(),
            final(self).base == old(self).base,
            final(self).controller == old(self).controller,
            final(self).anchor_link == old(self).anchor_link,
            (final(self).anchor_controller.x as int, final(self).anchor_controller.y as int)
                == anchor_of(old(self).base.offset()),
    {
        self.anchor_controller = self.base.getPos();
    }
}

impl ChainRig {
    /// The rig holds `n` links in spawn order, `n - 1` inter-link joints in order,
    /// and a base joint exactly when it has a link.
    pub open spec fn wf(&self) -> bool {
        &&& forall|i: int| 0 <= i < self.links@.len() ==> 
            (#[trigger] self.links@[i]).position.x == link_spawn(i).0
            && self.links@[i].position.y == link_spawn(i).1
        &&& self.joints@.len() == joint_count(self.links@.len() as int)
        &&& forall|i: int| 0 <= i < self.joints@.len() ==> joint_spec(#[trigger] self.joints@[i], i)
        &&& (self.base_joint is Some <==> self.links@.len() > 0)
        &&& (self.base_joint matches Some(b) ==> b.wf())
    }
}

impl ChainRig {
    /// Applies one steering command to the base joint, if the rig has one.
    pub fn steer(&mut self, cmd: Steer)
        requires
            old(self).wf(),
        ensures
            final(self).wf(),
            final(self).links@ == old(self).links@,
            final(self).joints@ == old(self).joints@,
            match (old(self).base_joint, final(self).base_joint) {
                (Some(a), Some(b)) => b.base.offset() == step_offset(a.base.offset(), cmd)
                    && b.controller == a.controller && b.anchor_link == a.anchor_link
                    && b.anchor_controller == a.anchor_controller,
                (None, None) => true,
                _ => false,
            },
    {
        match &mut self.base_joint {
            Some(b) => b.base.steer(cmd),
            None => {},
        }
    }
}

/// Re-applies the steering state of the base joint to its controller-side anchor.
pub fn chain_control(rig: &mut ChainRig)
    requires
        old(rig).wf(),
    ensures
        final(rig).wf(),
        final(rig).links@ == old(rig).links@,
        final(rig).joints@ == old(rig).joints@,
        match (old(rig).base_joint, final(rig).base_joint) {
            (Some(a), Some(b)) => b.base == a.base && b.controller == a.controller
                && b.anchor_link == a.anchor_link
                && (b.anchor_controller.x as int, b.anchor_controller.y as int)
                    == anchor_of(a.base.offset()),
            (None, None) => true,
            _ => false,
        },
{
    match &mut rig.base_joint {
        Some(b) => b.apply_offset(),
        None => {},
    }
}

/// Builds the rig for `link_count` links behind `controller`.
pub fn spawn_chain(controller: u64, link_count: usize) -> (rig: ChainRig)
    requires
        link_count <= MAX_LINKS,
    ensures
        rig.wf(),
        rig.links@.len() == link_count,
        rig.joints@.len() == joint_count(link_count as int),
        link_count == 0 ==> rig.base_joint is None,
        link_count > 0 ==> (rig.base_joint matches Some(b) && b.is_initial(controller)),
{
    let mut links: Vec<LinkBody> = Vec::new();
    let mut i: usize = 0;
    while i < link_count
        invariant
            i <= link_count <= MAX_LINKS,
            links@.len() == i,
            forall|k: int| 0 <= k < i ==> (#[trigger] links@[k]).position.x == link_spawn(k).0
                && links@[k].position.y == link_spawn(k).1,
        decreases link_count - i,
    {
        let y: i32 = LINK_SPAWN_Y + 1000 * (i as i32);
        links.push(LinkBody { marker: ChainLink, position: Vec2::new(LINK_SPAWN_X, y) });
        i = i + 1;
    }
    let mut joints: Vec<LinkJoint> = Vec::new();
    let mut j: usize = 0;
    while j + 1 < link_count
        invariant
            j == 0 || j < link_count,
            joints@.len() == j,
            links@.len() == link_count,
            forall|k: int| 0 <= k < link_count ==> (#[trigger] links@[k]).position.x == link_spawn(k).0
                && links@[k].position.y == link_spawn(k).1,
            forall|k: int| 0 <= k < j ==> joint_spec(#[trigger] joints@[k], k),
        decreases link_count - j - 1,
    {
        joints.push(LinkJoint {
            first: j,
            second: j + 1,
            anchor_first: Vec2::new(0, -LINK_ANCHOR),
            anchor_second: Vec2::new(0, LINK_ANCHOR),
        });
        j = j + 1;
    }
    let base_joint = if link_count == 0 {
        None
    } else {
        Some(BaseJoint {
            controller,
            anchor_controller: Vec2::new(0, BASE_ANCHOR_Y),
            anchor_link: Vec2::new(0, LINK_ANCHOR),
            base: ChainBase::new(),
        })
    };
    ChainRig { links, joints, base_joint }
}

} // verus!
