use unnamed_engine::camera::Vec3;
use unnamed_engine::fixed::ONE;
use unnamed_engine::transform::{Quaternion, Transform};

fn entry(model: &Vec<i64>, i: usize, j: usize) -> i64 {
    model[4 * i + j]
}

#[test]
fn identity_rotation_and_unit_scale_give_a_translation_matrix() {
    let t = Transform {
        position: Vec3 { x: 10 * ONE, y: 20 * ONE, z: -30 * ONE },
        rotation: Quaternion { x: 0, y: 0, z: 0, w: ONE },
        scale: Vec3 { x: ONE, y: ONE, z: ONE },
    };
    let raw = t.to_raw();
    assert_eq!(raw.model.len(), 16);
    for i in 0..3 {
        for j in 0..3 {
            let want = if i == j { ONE } else { 0 };
            assert_eq!(entry(&raw.model, i, j), want);
        }
    }
    assert_eq!(entry(&raw.model, 0, 3), 10 * ONE);
    assert_eq!(entry(&raw.model, 1, 3), 20 * ONE);
    assert_eq!(entry(&raw.model, 2, 3), -30 * ONE);
    assert_eq!(&raw.model[12..16], &[0, 0, 0, ONE]);
}

#[test]
fn scale_multiplies_the_rotation_columns() {
    let t = Transform {
        position: Vec3 { x: 0, y: 0, z: 0 },
        rotation: Quaternion { x: 0, y: 0, z: 0, w: ONE },
        scale: Vec3 { x: 2 * ONE, y: 3 * ONE, z: 4 * ONE },
    };
    let raw = t.to_raw();
    assert_eq!(entry(&raw.model, 0, 0), 2 * ONE);
    assert_eq!(entry(&raw.model, 1, 1), 3 * ONE);
    assert_eq!(entry(&raw.model, 2, 2), 4 * ONE);
    assert_eq!(entry(&raw.model, 0, 1), 0);
}

#[test]
fn half_turn_about_z_negates_the_first_two_axes() {
    let t = Transform {
        position: Vec3 { x: 0, y: 0, z: 0 },
        rotation: Quaternion { x: 0, y: 0, z: ONE, w: 0 },
        scale: Vec3 { x: ONE, y: ONE, z: ONE },
    };
    let raw = t.to_raw();
    assert_eq!(entry(&raw.model, 0, 0), -ONE);
    assert_eq!(entry(&raw.model, 1, 1), -ONE);
    assert_eq!(entry(&raw.model, 2, 2), ONE);
    assert_eq!(entry(&raw.model, 0, 1), 0);
    assert_eq!(entry(&raw.model, 1, 0), 0);
}
