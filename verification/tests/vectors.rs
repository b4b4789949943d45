use rust_to_wgsl::vectors::{Vec2, Vec3, Vec3U32, Vec4};

#[test]
fn test_vec4_f32_creation_and_access() {
    let mut vec4 = Vec4::<f32>::new(1.0, 2.0, 3.0, 4.0);
    // Test direct field access
    assert_eq!(vec4.x, 1.0);
    assert_eq!(vec4.y, 2.0);
    assert_eq!(vec4.z, 3.0);
    assert_eq!(vec4.w, 4.0);

    // Test index access
    assert_eq!(vec4.get(0), 1.0);
    assert_eq!(vec4.get(1), 2.0);
    assert_eq!(vec4.get(2), 3.0);
    assert_eq!(vec4.get(3), 4.0);

    // Test setters
    vec4.x = 5.0;
    vec4.set(2, 7.0);

    assert_eq!(vec4.x, 5.0);
    assert_eq!(vec4.y, 2.0);
    assert_eq!(vec4.z, 7.0);
    assert_eq!(vec4.w, 4.0);
}

#[test]
fn vector_setters_change_one_component() {
    let mut v: Vec3U32 = Vec3::new(1, 2, 3);
    v.set_y(20);
    assert_eq!((v.x, v.y, v.z), (1, 20, 3));
    v.set(0, 10);
    assert_eq!(v.get(0), 10);
    assert_eq!(v.get(2), 3);
    let mut w = Vec2::new(true, false);
    w.set_x(false);
    assert!(!w.get(0) && !w.get(1));
}
