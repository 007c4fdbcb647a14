//! Keyboard steering of the platform that carries the XR rig.
use vstd::prelude::*;

verus! {

/// Marks the platform that the keyboard steers and the XR rig rides on.
#[derive(Clone, Copy, Debug, PartialEq, Eq, Structural)]
pub struct SteerablePlatform;

/// Which steering keys are held this frame: W/S move forward and back, A/D
/// move left and right, Q/E turn left and right.
#[derive(Clone, Copy, Debug, PartialEq, Eq, Structural)]
pub struct KeyState {
    pub w: bool,
    pub a: bool,
    pub s: bool,
    pub d: bool,
    pub q: bool,
    pub e: bool,
}

/// What the held keys ask of the platform in one frame: a local movement
/// direction (`move_x` to the right, `move_z` backwards, each -1, 0 or 1,
/// not yet normalized) and a turn direction (1 to the left, -1 to the right).
#[derive(Clone, Copy, Debug, PartialEq, Eq, Structural)]
pub struct PlatformCommand {
    pub move_x: i8,
    pub move_z: i8,
    pub turn: i8,
}

/// One axis driven by a pair of keys: +1 for `plus` alone, -1 for `minus`
/// alone, 0 for both or neither.
pub open spec fn key_axis(minus: bool, plus: bool) -> int {
    (if plus { 1int } else { 0int }) - (if minus { 1int } else { 0int })
}

pub open spec fn command_of(keys: KeyState) -> PlatformCommand {
    PlatformCommand {
        move_x: key_axis(keys.a, keys.d) as i8,
        move_z: key_axis(keys.w, keys.s) as i8,
        turn: key_axis(keys.e, keys.q) as i8,
    }
}

impl PlatformCommand {
    pub open spec fn spec_moves(self) -> bool {
        self.move_x != 0 || self.move_z != 0
    }

    pub open spec fn spec_turns(self) -> bool {
        self.turn != 0
    }

    /// Reads the steering keys.
    pub fn from_keys(keys: KeyState) -> (r: PlatformCommand)
        ensures
            r == command_of(keys),
            r.move_x as int == key_axis(keys.a, keys.d),
            r.move_z as int == key_axis(keys.w, keys.s),
            r.turn as int == key_axis(keys.e, keys.q),
    {
        PlatformCommand {
            move_x: axis(keys.a, keys.d),
            move_z: axis(keys.w, keys.s),
            turn: axis(keys.e, keys.q),
        }
    }

    /// Whether the platform moves: the movement direction is not zero.
    pub fn moves(&self) -> (r: bool)
        ensures
            r == self.spec_moves(),
    {
        self.move_x != 0 || self.move_z != 0
    }

    /// Whether the platform turns.
    pub fn turns(&self) -> (r: bool)
        ensures
            r == self.spec_turns(),
    {
        self.turn != 0
    }
}

fn axis(minus: bool, plus: bool) -> (r: i8)
    ensures
        r as int == key_axis(minus, plus),
{
    let mut v: i8 = 0;
    if minus {
        v = v - 1;
    }
    if plus {
        v = v + 1;
    }
    v
}

/// The turn step of one frame: `r` is `p` turned by `c.turn`, or `p` itself
/// when the command does not turn.
pub open spec fn turned<P, R: Fn(P, i8) -> P>(p: P, c: PlatformCommand, rotate: R, r: P) -> bool {
    if c.spec_turns() {
        call_ensures(rotate, (p, c.turn), r)
    } else {
        r == p
    }
}

/// One frame of steering: the pose moves along the command's direction (if
/// it is not zero), then turns (if the command turns).
pub open spec fn steered<P, M: Fn(P, i8, i8) -> P, R: Fn(P, i8) -> P>(
    pose: P,
    c: PlatformCommand,
    translate: M,
    rotate: R,
    r: P,
) -> bool {
    if c.spec_moves() {
        exists|m: P| call_ensures(translate, (pose, c.move_x, c.move_z), m) && turned(m, c, rotate, r)
    } else {
        turned(pose, c, rotate, r)
    }
}

/// Steers one platform for one frame. `translate(p, x, z)` moves the pose
/// along the local direction `(x, 0, z)`, normalized and scaled by the
/// platform's speed; `rotate(p, t)` turns it about the vertical axis by `t`
/// times its rotation speed. Neither is called when its part of the command
/// is zero, so with no effective key held the pose is returned as it was.
pub fn steer_platform<P, M: Fn(P, i8, i8) -> P, R: Fn(P, i8) -> P>(
    pose: P,
    keys: KeyState,
    translate: M,
    rotate: R,
) -> (r: P)
    requires
        forall|p: P, x: i8, z: i8| call_requires(translate, (p, x, z)),
        forall|p: P, t: i8| call_requires(rotate, (p, t)),
    ensures
        steered(pose, command_of(keys), translate, rotate, r),
        !command_of(keys).spec_moves() && !command_of(keys).spec_turns() ==> r == pose,
{
    let c = PlatformCommand::from_keys(keys);
    if c.moves() {
        let moved = translate(pose, c.move_x, c.move_z);
        let ghost m = moved;
        let r = if c.turns() {
            rotate(moved, c.turn)
        } else {
            moved
        };
        assert(call_ensures(translate, (pose, c.move_x, c.move_z), m) && turned(m, c, rotate, r));
        r
    } else if c.turns() {
        rotate(pose, c.turn)
    } else {
        pose
    }
}

/// Two frames with the same turn-only keys turn twice by the same amount:
/// the second turn is applied to the result of the first.
pub proof fn lemma_turn_only_frames_repeat_the_turn<P, M: Fn(P, i8, i8) -> P, R: Fn(P, i8) -> P>(
    pose: P,
    keys: KeyState,
    translate: M,
    rotate: R,
    r1: P,
    r2: P,
)
    requires
        !command_of(keys).spec_moves(),
        steered(pose, command_of(keys), translate, rotate, r1),
        steered(r1, command_of(keys), translate, rotate, r2),
    ensures
        command_of(keys).spec_turns() ==> {
            &&& call_ensures(rotate, (pose, command_of(keys).turn), r1)
            &&& call_ensures(rotate, (r1, command_of(keys).turn), r2)
        },
        !command_of(keys).spec_turns() ==> r2 == pose,
{
}

/// Puts every tracking root where the first platform is. With no platform
/// the roots keep their transforms.
pub fn follow_xr_rig<T: Copy>(platforms: &Vec<T>, tracking_roots: &mut Vec<T>)
    ensures
        final(tracking_roots)@.len() == old(tracking_roots)@.len(),
        platforms@.len() > 0 ==> forall|i: int|
            0 <= i < old(tracking_roots)@.len() ==> #[trigger] final(tracking_roots)@[i]
                == platforms@[0],
        platforms@.len() == 0 ==> final(tracking_roots)@ == old(tracking_roots)@,
{
    if platforms.len() == 0 {
        return;
    }
    let t = platforms[0];
    let mut i: usize = 0;
    while i < tracking_roots.len()
        invariant
            platforms@.len() > 0,
            t == platforms@[0],
            i <= tracking_roots@.len(),
            tracking_roots@.len() == old(tracking_roots)@.len(),
            forall|k: int| 0 <= k < i ==> #[trigger] tracking_roots@[k] == t,
        decreases tracking_roots@.len() - i,
    {
        tracking_roots.set(i, t);
        i = i + 1;
    }
}

} // verus!
