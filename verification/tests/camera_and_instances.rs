use glam::{Affine3A, Mat4, Quat, Vec3, Vec4};
use render_harness::camera::{AspectRatio, PerspectiveCamera};
use render_harness::instances::{
    default_poses, instance_poses_to_data, InstancePose, InstancePoses,
};
use render_harness::surface::Extent;

fn camera(eye: [f32; 3]) -> PerspectiveCamera<f32> {
    PerspectiveCamera {
        eye,
        target: [0.0, 0.0, 1.0],
        up: [0.0, 1.0, 0.0],
        aspect_ratio: AspectRatio::from_extent(Extent { width: 100, height: 100 }),
        fov_y_rad: 90.0f32.to_radians(),
        z_near: 0.05,
        z_far: 1000.0,
    }
}

fn view_proj(camera: &PerspectiveCamera<f32>) -> Mat4 {
    let aspect = camera.aspect_ratio.width as f32 / camera.aspect_ratio.height as f32;
    let view = Mat4::look_at_rh(
        Vec3::from_array(camera.eye),
        Vec3::from_array(camera.target),
        Vec3::from_array(camera.up),
    );
    let proj = Mat4::perspective_rh(camera.fov_y_rad, aspect, camera.z_near, camera.z_far);
    proj * view
}

fn columns(pose: &InstancePose<f32>) -> [f32; 16] {
    Mat4::from(Affine3A::from_scale_rotation_translation(
        Vec3::ONE,
        Quat::from_array(pose.rotation),
        Vec3::from_array(pose.translation),
    ))
    .to_cols_array()
}

fn default_f32() -> Vec<InstancePose<f32>> {
    default_poses()
        .iter()
        .map(|p| InstancePose {
            translation: p.translation.map(f32::from),
            rotation: p.rotation.map(f32::from),
        })
        .collect()
}

#[test]
fn aspect_ratio_is_kept_exact() {
    let ratio = AspectRatio::from_extent(Extent { width: 1920, height: 1080 });
    assert_eq!(ratio, AspectRatio { width: 1920, height: 1080 });
    assert_eq!(ratio.width as f32 / ratio.height as f32, 1920.0f32 / 1080.0f32);
}

#[test]
fn set_aspect_ratio_changes_nothing_else() {
    let before = camera([0.0, 0.0, -1.0]);
    let mut after = before;
    after.set_aspect_ratio(Extent { width: 800, height: 600 });
    assert_eq!(after.aspect_ratio, AspectRatio { width: 800, height: 600 });
    assert_eq!(after, PerspectiveCamera { aspect_ratio: after.aspect_ratio, ..before });
}

#[test]
fn set_eye_z_moves_only_z() {
    let before = PerspectiveCamera { eye: [3.0, 4.0, 5.0], ..camera([0.0; 3]) };
    let mut after = before;
    after.set_eye_z(-0.5);
    assert_eq!(after.eye, [3.0, 4.0, -0.5]);
    assert_eq!(after, PerspectiveCamera { eye: [3.0, 4.0, -0.5], ..before });
}

#[test]
fn target_is_centered_and_in_depth_range_at_time_zero() {
    let clip = view_proj(&camera([0.0, 0.0, -1.0])) * Vec4::new(0.0, 0.0, 1.0, 1.0);
    assert!(clip.w > 0.0);
    assert_eq!(clip.x / clip.w, 0.0);
    assert_eq!(clip.y / clip.w, 0.0);
    let depth = clip.z / clip.w;
    assert!((0.0..=1.0).contains(&depth));

    let t = 0.0f32;
    let mut animated = camera([0.0; 3]);
    animated.set_eye_z(t.cos() - 1.0);
    assert_eq!(animated.eye, [0.0, 0.0, 0.0]);
    let clip = view_proj(&animated) * Vec4::new(0.0, 0.0, 1.0, 1.0);
    assert_eq!(clip.x / clip.w, 0.0);
    assert_eq!(clip.y / clip.w, 0.0);
    assert!((0.0..=1.0).contains(&(clip.z / clip.w)));
}

#[test]
fn default_poses_stand_apart_and_are_not_turned() {
    let poses = default_poses();
    assert_eq!(poses[0], InstancePose { translation: [0, 0, 1], rotation: [0, 0, 0, 1] });
    assert_eq!(poses[1], InstancePose { translation: [1, 0, 2], rotation: [0, 0, 0, 1] });
    assert_eq!(poses[2], InstancePose { translation: [-1, 0, 2], rotation: [0, 0, 0, 1] });
    assert_eq!(default_f32()[2].rotation, Quat::IDENTITY.to_array());
}

#[test]
fn instance_list_keeps_its_poses_in_order() {
    let poses = default_f32();
    let list = InstancePoses::new(poses.clone()).unwrap();
    assert_eq!(list.count(), 3);
    assert_eq!(list.as_slice(), poses.as_slice());
}

#[test]
fn empty_instance_list_is_accepted_and_stays_empty() {
    let mut list = InstancePoses::<f32>::new(Vec::new()).unwrap();
    assert_eq!(list.count(), 0);
    list.animate([0.0, 1.0, 0.0, 0.0]);
    assert_eq!(list.count(), 0);
    assert!(list.as_slice().is_empty());
}

#[test]
fn animate_turns_only_the_first_instance() {
    let before = default_f32();
    let mut list = InstancePoses::new(before.clone()).unwrap();
    let turn = Quat::from_rotation_y(0.75).to_array();
    list.animate(turn);
    assert_eq!(list.count(), 3);
    assert_eq!(list.as_slice()[0], InstancePose { translation: [0.0, 0.0, 1.0], rotation: turn });
    assert_eq!(list.as_slice()[1], before[1]);
    assert_eq!(list.as_slice()[2], before[2]);
}

#[test]
fn data_is_sixteen_scalars_per_instance_in_order() {
    let poses = default_f32();
    let data = instance_poses_to_data(&poses, columns);
    assert_eq!(data.len(), 48);
    for (i, pose) in poses.iter().enumerate() {
        assert_eq!(&data[16 * i..16 * i + 16], &columns(pose));
    }
    assert_eq!(
        &data[..16],
        &[1.0, 0.0, 0.0, 0.0, 0.0, 1.0, 0.0, 0.0, 0.0, 0.0, 1.0, 0.0, 0.0, 0.0, 1.0, 1.0]
    );
    assert_eq!(&data[28..32], &[1.0, 0.0, 2.0, 1.0]);
    assert_eq!(&data[44..48], &[-1.0, 0.0, 2.0, 1.0]);
}

#[test]
fn data_of_no_instances_is_empty() {
    let data = instance_poses_to_data(&[], columns);
    assert!(data.is_empty());
}

#[test]
fn data_keeps_what_the_conversion_returns() {
    let poses = [
        InstancePose { translation: [1u8, 2, 3], rotation: [4u8, 5, 6, 7] },
        InstancePose { translation: [10u8, 20, 30], rotation: [40u8, 50, 60, 70] },
    ];
    let data = instance_poses_to_data(&poses, |pose: &InstancePose<u8>| {
        let mut out = [0u8; 16];
        out[..3].copy_from_slice(&pose.translation);
        out[3..7].copy_from_slice(&pose.rotation);
        out[15] = 255;
        out
    });
    assert_eq!(
        data,
        vec![
            1, 2, 3, 4, 5, 6, 7, 0, 0, 0, 0, 0, 0, 0, 0, 255, 10, 20, 30, 40, 50, 60, 70, 0, 0, 0,
            0, 0, 0, 0, 0, 255
        ]
    );
}

#[test]
fn transform_decomposes_into_its_pose() {
    let pose = InstancePose {
        translation: [1.5f32, -2.0, 3.25],
        rotation: Quat::from_rotation_y(0.6).to_array(),
    };
    let matrix = Mat4::from_cols_array(&columns(&pose));
    let (scale, rotation, translation) = matrix.to_scale_rotation_translation();
    assert!(scale.abs_diff_eq(Vec3::ONE, 1e-6));
    assert!(rotation.abs_diff_eq(Quat::from_array(pose.rotation), 1e-6));
    assert_eq!(translation.to_array(), pose.translation);

    let unturned = InstancePose { translation: [4.0f32, 5.0, 6.0], rotation: [0.0, 0.0, 0.0, 1.0] };
    let (scale, rotation, translation) =
        Mat4::from_cols_array(&columns(&unturned)).to_scale_rotation_translation();
    assert_eq!(scale, Vec3::ONE);
    assert_eq!(rotation, Quat::IDENTITY);
    assert_eq!(translation, Vec3::new(4.0, 5.0, 6.0));
}
