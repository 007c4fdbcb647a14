//! Desktop cameras that follow the headset's per-eye cameras.
use vstd::prelude::*;

verus! {

/// Which of the headset's two viewpoints a mirror camera follows.
#[derive(Clone, Copy, Debug, PartialEq, Eq, Structural)]
pub enum Eye {
    Left,
    Right,
}

/// The eye identifier that the XR runtime gives to the camera of `e`
/// (the left eye is 0, the right eye is 1).
pub open spec fn eye_id(e: Eye) -> u32 {
    match e {
        Eye::Left => 0,
        Eye::Right => 1,
    }
}

impl Eye {
    /// The XR runtime's identifier for this eye's camera.
    pub fn id(self) -> (r: u32)
        ensures
            r == eye_id(self),
    {
        match self {
            Eye::Left => 0,
            Eye::Right => 1,
        }
    }
}

/// A desktop camera that shows what one eye of the headset sees.
#[derive(Clone, Copy, Debug, PartialEq, Eq, Structural)]
pub struct XrMirroringCamera3d {
    eye: Eye,
}

impl XrMirroringCamera3d {
    pub closed spec fn spec_eye(self) -> Eye {
        self.eye
    }

    pub fn new(eye: Eye) -> (r: Self)
        ensures
            r.spec_eye() == eye,
    {
        XrMirroringCamera3d { eye }
    }

    pub fn eye(&self) -> (r: Eye)
        ensures
            r == self.spec_eye(),
    {
        self.eye
    }
}

/// `j` is the first XR camera in `cams` whose eye identifier is `id`.
pub open spec fn is_first_match<T>(cams: Seq<(u32, T)>, id: u32, j: int) -> bool {
    &&& 0 <= j < cams.len()
    &&& cams[j].0 == id
    &&& forall|k: int| 0 <= k < j ==> cams[k].0 != id
}

/// Some XR camera in `cams` has the eye identifier `id`.
pub open spec fn has_match<T>(cams: Seq<(u32, T)>, id: u32) -> bool {
    exists|j: int| 0 <= j < cams.len() && cams[j].0 == id
}

/// What a mirror camera's transform becomes in one synchronization step:
/// `r` is a possible result of composing the root with the first XR camera
/// of the mirror's eye; with no root, or no such camera, `r` is `before`.
pub open spec fn mirrored<T, F: Fn(T, T) -> T>(
    root: Option<T>,
    cams: Seq<(u32, T)>,
    eye: Eye,
    compose: F,
    before: T,
    r: T,
) -> bool {
    match root {
        Some(rt) => if has_match(cams, eye_id(eye)) {
            forall|j: int|
                #[trigger] is_first_match(cams, eye_id(eye), j) ==> call_ensures(
                    compose,
                    (rt, cams[j].1),
                    r,
                )
        } else {
            r == before
        },
        None => r == before,
    }
}

/// At most one XR camera is the first of its eye.
pub proof fn lemma_first_match_unique<T>(cams: Seq<(u32, T)>, id: u32, j1: int, j2: int)
    requires
        is_first_match(cams, id, j1),
        is_first_match(cams, id, j2),
    ensures
        j1 == j2,
{
}

/// The tracking root that the mirror cameras are placed against: the first.
pub open spec fn first_root<T>(roots: Seq<T>) -> Option<T> {
    if roots.len() > 0 {
        Some(roots[0])
    } else {
        None
    }
}

/// Finds the first XR camera that belongs to `eye`.
pub fn find_xr_camera<T>(eye: Eye, xr_cameras: &Vec<(u32, T)>) -> (r: Option<usize>)
    ensures
        match r {
            Some(j) => is_first_match(xr_cameras@, eye_id(eye), j as int),
            None => !has_match(xr_cameras@, eye_id(eye)),
        },
{
    let id = eye.id();
    let mut j: usize = 0;
    while j < xr_cameras.len()
        invariant
            j <= xr_cameras@.len(),
            id == eye_id(eye),
            forall|k: int| 0 <= k < j ==> xr_cameras@[k].0 != id,
        decreases xr_cameras@.len() - j,
    {
        if xr_cameras[j].0 == id {
            return Some(j);
        }
        j = j + 1;
    }
    None
}

/// Moves every mirror camera to where its eye is in world space: the first
/// tracking root, composed with the transform of the first XR camera of that
/// eye. With no tracking root nothing changes; a mirror camera whose eye has
/// no XR camera keeps its transform.
pub fn follow_xr_camera<T: Copy, F: Fn(T, T) -> T>(
    tracking_roots: &Vec<T>,
    xr_cameras: &Vec<(u32, T)>,
    mirrors: &mut Vec<(XrMirroringCamera3d, T)>,
    compose: F,
)
    requires
        forall|a: T, b: T| call_requires(compose, (a, b)),
    ensures
        final(mirrors)@.len() == old(mirrors)@.len(),
        forall|i: int|
            0 <= i < old(mirrors)@.len() ==> {
                &&& (#[trigger] final(mirrors)@[i]).0 == old(mirrors)@[i].0
                &&& mirrored(
                    first_root(tracking_roots@),
                    xr_cameras@,
                    old(mirrors)@[i].0.spec_eye(),
                    compose,
                    old(mirrors)@[i].1,
                    final(mirrors)@[i].1,
                )
            },
        tracking_roots@.len() == 0 ==> final(mirrors)@ == old(mirrors)@,
{
    if tracking_roots.len() == 0 {
        return;
    }
    let root = tracking_roots[0];
    let mut i: usize = 0;
    while i < mirrors.len()
        invariant
            tracking_roots@.len() > 0,
            root == tracking_roots@[0],
            forall|a: T, b: T| call_requires(compose, (a, b)),
            i <= mirrors@.len(),
            mirrors@.len() == old(mirrors)@.len(),
            forall|k: int| i <= k < mirrors@.len() ==> mirrors@[k] == old(mirrors)@[k],
            forall|k: int|
                0 <= k < i ==> {
                    &&& (#[trigger] mirrors@[k]).0 == old(mirrors)@[k].0
                    &&& mirrored(
                        first_root(tracking_roots@),
                        xr_cameras@,
                        old(mirrors)@[k].0.spec_eye(),
                        compose,
                        old(mirrors)@[k].1,
                        mirrors@[k].1,
                    )
                },
        decreases mirrors@.len() - i,
    {
        let camera = mirrors[i].0;
        match find_xr_camera(camera.eye(), xr_cameras) {
            Some(j) => {
                let t = compose(root, xr_cameras[j].1);
                proof {
                    assert forall|j2: int|
                        #[trigger] is_first_match(
                            xr_cameras@,
                            eye_id(camera.spec_eye()),
                            j2,
                        ) implies j2 == j by {
                        lemma_first_match_unique(
                            xr_cameras@,
                            eye_id(camera.spec_eye()),
                            j as int,
                            j2,
                        );
                    }
                }
                mirrors.set(i, (camera, t));
            },
            None => {},
        }
        i = i + 1;
    }
}

} // verus!
