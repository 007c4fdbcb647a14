use vr_demo::mirroring::{find_xr_camera, follow_xr_camera, Eye, XrMirroringCamera3d};

/// A rigid transform turned about the vertical axis.
#[derive(Clone, Copy, Debug, PartialEq)]
struct Rigid {
    translation: [f32; 3],
    yaw: f32,
}

const IDENTITY: Rigid = Rigid { translation: [0.0; 3], yaw: 0.0 };

fn compose(a: Rigid, b: Rigid) -> Rigid {
    let (s, c) = a.yaw.sin_cos();
    let [x, y, z] = b.translation;
    Rigid {
        translation: [
            a.translation[0] + c * x + s * z,
            a.translation[1] + y,
            a.translation[2] - s * x + c * z,
        ],
        yaw: a.yaw + b.yaw,
    }
}

fn at(x: f32, y: f32, z: f32, yaw: f32) -> Rigid {
    Rigid { translation: [x, y, z], yaw }
}

#[test]
fn eye_ids_are_left_zero_right_one() {
    assert_eq!(Eye::Left.id(), 0);
    assert_eq!(Eye::Right.id(), 1);
    assert_eq!(XrMirroringCamera3d::new(Eye::Right).eye(), Eye::Right);
}

#[test]
fn finds_the_first_camera_of_an_eye() {
    let cams = vec![(1u32, 'a'), (0u32, 'b'), (1u32, 'c')];
    assert_eq!(find_xr_camera(Eye::Right, &cams), Some(0));
    assert_eq!(find_xr_camera(Eye::Left, &cams), Some(1));
    let only_right = vec![(1u32, 'a')];
    assert_eq!(find_xr_camera(Eye::Left, &only_right), None);
}

#[test]
fn identity_root_copies_each_eye_camera() {
    let left = at(-0.03, 1.6, 0.0, 0.1);
    let right = at(0.03, 1.6, 0.0, -0.1);
    let cams = vec![(0u32, left), (1u32, right)];
    let mut mirrors = vec![
        (XrMirroringCamera3d::new(Eye::Left), IDENTITY),
        (XrMirroringCamera3d::new(Eye::Right), IDENTITY),
    ];
    follow_xr_camera(&vec![IDENTITY], &cams, &mut mirrors, compose);
    assert_eq!(mirrors[0].1, left);
    assert_eq!(mirrors[1].1, right);
    assert_eq!(mirrors[0].0.eye(), Eye::Left);
    assert_eq!(mirrors[1].0.eye(), Eye::Right);
}

#[test]
fn mirror_is_root_composed_with_eye_camera() {
    let root = at(2.0, 0.1, -1.0, std::f32::consts::FRAC_PI_2);
    let right = at(1.0, 1.5, 0.0, 0.0);
    let cams = vec![(1u32, right)];
    let mut mirrors = vec![(XrMirroringCamera3d::new(Eye::Right), IDENTITY)];
    follow_xr_camera(&vec![root, IDENTITY], &cams, &mut mirrors, compose);
    assert_eq!(mirrors[0].1, compose(root, right));
    let t = mirrors[0].1.translation;
    assert!((t[0] - 2.0).abs() < 1e-6 && (t[1] - 1.6).abs() < 1e-6 && (t[2] + 2.0).abs() < 1e-6);
}

#[test]
fn without_a_root_mirrors_are_unchanged() {
    let before = at(5.0, 5.0, 5.0, 1.0);
    let cams = vec![(0u32, at(1.0, 1.0, 1.0, 0.0))];
    let mut mirrors = vec![(XrMirroringCamera3d::new(Eye::Left), before)];
    follow_xr_camera(&vec![], &cams, &mut mirrors, compose);
    assert_eq!(mirrors[0].1, before);
}

#[test]
fn mirror_without_its_eye_camera_keeps_its_transform() {
    let before = at(5.0, 5.0, 5.0, 1.0);
    let left = at(1.0, 1.0, 1.0, 0.0);
    let cams = vec![(0u32, left)];
    let mut mirrors = vec![
        (XrMirroringCamera3d::new(Eye::Right), before),
        (XrMirroringCamera3d::new(Eye::Left), before),
    ];
    follow_xr_camera(&vec![IDENTITY], &cams, &mut mirrors, compose);
    assert_eq!(mirrors[0].1, before);
    assert_eq!(mirrors[1].1, left);
}
