use frustum_camera::angle::{wrap_angle, SAFE_HALF_PI, TWO_PI};
use frustum_camera::camera::Camera;
use frustum_camera::controller::{Action, CameraController, InputEvent, Key};
use frustum_camera::frustum::{Frustum, Plane};
use frustum_camera::geometry::{Direction, Point3, Vec3, DIRECTION_UNIT, LENGTH_UNIT};
use frustum_camera::instance::{Instance, Rotation};
use frustum_camera::orbit::{OrbitCamera, MAX_ORBIT_RADIUS, POLAR_MARGIN};
use frustum_camera::projection::{ConfigError, Projection};

const L: i32 = LENGTH_UNIT as i32;

fn world(x: i32, y: i32, z: i32) -> Point3 {
    Point3::new(x * L, y * L, z * L)
}

fn unit_instance(x: i32, y: i32, z: i32) -> Instance {
    Instance { position: world(x, y, z), rotation: Rotation::identity(), scale: L as u32 }
}

/// Camera at the origin looking along +x; 90° field of view, aspect 1,
/// znear 0.1 and zfar 100.
fn scene() -> (Camera, Projection) {
    let camera = Camera::new(Point3::new(0, 0, 0), 0, 0);
    // tan 45° = 1/1
    let projection = Projection::new(900, 900, 1, 1, 102, 100 * L).unwrap();
    (camera, projection)
}

#[test]
fn end_to_end_visibility() {
    let (camera, projection) = scene();
    let frustum = Frustum::new(&camera, &projection);
    assert!(frustum.is_inside_instance(&unit_instance(10, 0, 0)));
    assert!(!frustum.is_inside_instance(&unit_instance(200, 0, 0)));
    assert!(!frustum.is_inside_instance(&unit_instance(-10, 0, 0)));
    assert!(!frustum.is_inside_instance(&unit_instance(10, 60, 0)));
}

#[test]
fn sign_convention_ahead_and_behind() {
    let (camera, projection) = scene();
    let frustum = Frustum::new(&camera, &projection);
    // position + front * (znear + 1 world unit)
    let ahead = Point3::new(projection.znear() + L, 0, 0);
    assert!(frustum.is_inside(ahead));
    assert!(frustum.near_plane.get_signed_distance(ahead) >= 0);
    assert!(frustum.far_plane.get_signed_distance(ahead) >= 0);
    assert!(frustum.top_plane.get_signed_distance(ahead) >= 0);
    assert!(frustum.bottom_plane.get_signed_distance(ahead) >= 0);
    assert!(frustum.right_plane.get_signed_distance(ahead) >= 0);
    assert!(frustum.left_plane.get_signed_distance(ahead) >= 0);
    let behind = Point3::new(-L, 0, 0);
    assert!(frustum.near_plane.get_signed_distance(behind) < 0);
    assert!(!frustum.is_inside(behind));
}

#[test]
fn near_plane_value_is_exact() {
    let (camera, projection) = scene();
    let frustum = Frustum::new(&camera, &projection);
    let s = DIRECTION_UNIT as i128;
    // normal = front * DIRECTION_UNIT, offset = |front|^2 * znear
    let p = Point3::new(1000, 7, -3);
    assert_eq!(frustum.near_plane.get_signed_distance(p), s * s * (1000 - 102));
    assert_eq!(frustum.far_plane.get_signed_distance(p), s * s * (100 * L as i128 - 1000));
}

#[test]
fn instance_beside_far_plane_is_kept_by_its_sphere() {
    let (camera, projection) = scene();
    let frustum = Frustum::new(&camera, &projection);
    // center at x = 100.3: 0.3 beyond the far plane, within the radius 0.866
    let inst = Instance { position: Point3::new(100 * L - 205, 0, 0), rotation: Rotation::identity(), scale: L as u32 };
    assert!(frustum.is_inside_instance(&inst));
    // a zero scale makes it a point test of the center
    let point = Instance { scale: 0, ..inst };
    assert!(!frustum.is_inside_instance(&point));
}

#[test]
fn zero_scale_inside_is_visible() {
    let (camera, projection) = scene();
    let frustum = Frustum::new(&camera, &projection);
    let inst = Instance { position: world(5, 0, 0), rotation: Rotation::identity(), scale: 0 };
    assert!(frustum.is_inside_instance(&inst));
}

#[test]
fn turned_camera_sees_along_z() {
    let (mut camera, projection) = scene();
    // yaw = π/2: front +z, right −x
    let front = Direction::from_components(0, 0, DIRECTION_UNIT as i16);
    let right = Direction::from_components(-(DIRECTION_UNIT as i16), 0, 0);
    camera.set_directions(front, front, right);
    let frustum = Frustum::new(&camera, &projection);
    assert!(frustum.is_inside_instance(&unit_instance(0, 0, 10)));
    assert!(!frustum.is_inside_instance(&unit_instance(10, 0, 0)));
}

#[test]
fn resize_twice_equals_once() {
    let (_, mut projection) = scene();
    assert_eq!(projection.resize(1920, 1080), Ok(()));
    let once = projection;
    assert_eq!(projection.resize(1920, 1080), Ok(()));
    assert_eq!(projection, once);
    assert_eq!(projection.aspect(), (1920, 1080));
}

#[test]
fn resize_rejects_zero_dimension() {
    let (_, mut projection) = scene();
    let before = projection;
    assert_eq!(projection.resize(0, 600), Err(ConfigError::ZeroDimension));
    assert_eq!(projection.resize(800, 0), Err(ConfigError::ZeroDimension));
    assert_eq!(projection, before);
}

#[test]
fn aspect_is_exact_for_extreme_viewports() {
    let (camera, mut projection) = scene();
    assert_eq!(projection.resize(1000, 1), Ok(()));
    assert_eq!(projection.aspect(), (1000, 1));
    // 90° vertically over a 1000:1 viewport: far_width is 1000 times far_height
    let frustum = Frustum::new(&camera, &projection);
    assert!(frustum.is_inside_instance(&unit_instance(10, 0, 5000)));
    assert!(frustum.is_inside(Point3::new(10 * L, 0, 9_990 * L)));
    assert!(!frustum.is_inside(Point3::new(10 * L, 0, 10_010 * L)));
    assert!(!frustum.is_inside(Point3::new(10 * L, 11 * L, 0)));
    assert_eq!(projection.resize(1, 1000), Ok(()));
    assert_eq!(projection.aspect(), (1, 1000));
    let frustum = Frustum::new(&camera, &projection);
    // at x = 99 the half-width is 99/1000 world units: 101.4 steps
    assert!(frustum.is_inside(Point3::new(99 * L, 0, 101)));
    assert!(!frustum.is_inside(Point3::new(99 * L, 0, 102)));
    assert_eq!(projection.resize(u32::MAX, 1), Ok(()));
    let frustum = Frustum::new(&camera, &projection);
    assert!(frustum.is_inside(Point3::new(L, 0, i32::MAX)));
}

#[test]
fn narrow_and_wide_fields_of_view() {
    let camera = Camera::new(Point3::new(0, 0, 0), 0, 0);
    // tan(fovy/2) = 1/20000: about 0.0057°
    let narrow = Projection::new(1, 1, 1, 20_000, 102, 100 * L).unwrap();
    let frustum = Frustum::new(&camera, &narrow);
    assert!(frustum.is_inside(Point3::new(40 * L, 1, 0)));
    assert!(!frustum.is_inside(Point3::new(40 * L, 3, 0)));
    // tan(fovy/2) = 60000: about 179.998°
    let wide = Projection::new(1, 1, 60_000, 1, 102, 100 * L).unwrap();
    let frustum = Frustum::new(&camera, &wide);
    assert!(frustum.is_inside(Point3::new(L, 1000 * L, 0)));
}

#[test]
fn projection_configuration_errors() {
    assert_eq!(Projection::new(0, 10, 1, 1, 1, 2), Err(ConfigError::ZeroDimension));
    assert_eq!(Projection::new(10, 0, 1, 1, 1, 2), Err(ConfigError::ZeroDimension));
    assert_eq!(Projection::new(10, 10, 0, 1, 1, 2), Err(ConfigError::InvalidFieldOfView));
    assert_eq!(Projection::new(10, 10, 1, 0, 1, 2), Err(ConfigError::InvalidFieldOfView));
    assert_eq!(Projection::new(10, 10, 1, 1, 0, 2), Err(ConfigError::InvalidClipRange));
    assert_eq!(Projection::new(10, 10, 1, 1, 5, 5), Err(ConfigError::InvalidClipRange));
    let p = Projection::new(20, 10, 577, 1000, 102, 1024).unwrap();
    assert_eq!((p.aspect(), p.tan_half_fovy(), p.znear(), p.zfar()), ((20, 10), (577, 1000), 102, 1024));
}

#[test]
fn keys_set_and_clear_flags() {
    let mut c = CameraController::new(1024, 100, (0, 0));
    assert!(c.process_keyboard(Key::W, Action::Press));
    assert!(c.amount_forward);
    assert!(c.process_keyboard(Key::W, Action::Repeat));
    assert!(c.amount_forward);
    assert!(c.process_keyboard(Key::Up, Action::Release));
    assert!(!c.amount_forward);
    assert!(c.process_keyboard(Key::LeftShift, Action::Press));
    assert!(c.amount_down);
    assert!(c.process_keyboard(Key::Left, Action::Press));
    assert!(c.amount_left);
    let before = c;
    assert!(!c.process_keyboard(Key::Escape, Action::Press));
    assert_eq!(c, before);
}

#[test]
fn events_are_routed() {
    let mut c = CameraController::new(1024, 100, (100, 100));
    assert!(c.process_events(&InputEvent::CursorPos(110, 95)));
    assert_eq!((c.rotate_horizontal, c.rotate_vertical), (10, -5));
    assert_eq!((c.old_cursor_x, c.old_cursor_y), (110, 95));
    assert!(c.process_events(&InputEvent::Scroll(0, 1000)));
    assert_eq!(c.scroll, -1000);
    assert!(c.process_events(&InputEvent::Scroll(0, 5)));
    assert_eq!(c.scroll, -1000);
    assert!(c.process_events(&InputEvent::Key(Key::D, Action::Press)));
    assert!(c.amount_right);
    let before = c;
    assert!(!c.process_events(&InputEvent::FramebufferResized(10, 10)));
    assert!(!c.process_events(&InputEvent::Key(Key::Escape, Action::Press)));
    assert!(!c.process_events(&InputEvent::Other));
    assert_eq!(c, before);
}

#[test]
fn forward_key_moves_one_unit_per_second() {
    let mut c = CameraController::new(L as u32, 100, (0, 0));
    let mut camera = Camera::new(Point3::new(0, 0, 0), 0, 0);
    c.process_keyboard(Key::W, Action::Press);
    c.process_keyboard(Key::Space, Action::Press);
    c.update_camera(&mut camera, 1_000_000);
    assert_eq!(camera.position(), Point3::new(L, L, 0));
    c.process_keyboard(Key::W, Action::Release);
    c.process_keyboard(Key::Space, Action::Release);
    c.process_keyboard(Key::D, Action::Press);
    c.update_camera(&mut camera, 500_000);
    assert_eq!(camera.position(), Point3::new(L, L, L / 2));
}

#[test]
fn scroll_dollies_once() {
    let mut c = CameraController::new(L as u32, 1000, (0, 0));
    let mut camera = Camera::new(Point3::new(0, 0, 0), 0, 0);
    c.process_scroll(-2000);
    c.update_camera(&mut camera, 1_000_000);
    assert_eq!(camera.position(), Point3::new(2 * L, 0, 0));
    assert_eq!(c.scroll, 0);
    c.update_camera(&mut camera, 1_000_000);
    assert_eq!(camera.position(), Point3::new(2 * L, 0, 0));
}

#[test]
fn pitch_stays_clamped() {
    let mut c = CameraController::new(L as u32, 1000, (0, 0));
    let mut camera = Camera::new(Point3::new(0, 0, 0), 0, 0);
    c.process_mouse(0, -1_000_000);
    c.update_camera(&mut camera, 1_000_000);
    assert_eq!(camera.pitch(), SAFE_HALF_PI);
    c.process_mouse(0, i64::MAX);
    c.update_camera(&mut camera, u32::MAX);
    assert_eq!(camera.pitch(), -SAFE_HALF_PI);
    assert_eq!((c.rotate_horizontal, c.rotate_vertical), (0, 0));
    c.update_camera(&mut camera, 1_000_000);
    assert_eq!(camera.pitch(), -SAFE_HALF_PI);
}

#[test]
fn yaw_turns_without_wrapping() {
    let mut c = CameraController::new(L as u32, 100, (0, 0));
    let mut camera = Camera::new(Point3::new(0, 0, 0), 0, 0);
    // 10 px at 0.1 rad/px/s for 1 s: 1 rad
    c.process_mouse(10, 0);
    c.update_camera(&mut camera, 1_000_000);
    assert_eq!(camera.yaw(), 1_000_000);
    c.process_mouse(-20, 0);
    c.update_camera(&mut camera, 1_000_000);
    assert_eq!(camera.yaw(), -1_000_000);
    // an idle update leaves the orientation as it is
    c.update_camera(&mut camera, 1_000_000);
    assert_eq!(camera.yaw(), -1_000_000);
    assert_eq!(camera.position(), Point3::new(0, 0, 0));
}

#[test]
fn position_stops_at_the_edge() {
    let mut c = CameraController::new(u32::MAX, 100, (0, 0));
    let mut camera = Camera::new(Point3::new(i32::MAX - 5, 0, 0), 0, 0);
    c.process_keyboard(Key::W, Action::Press);
    c.update_camera(&mut camera, u32::MAX);
    assert_eq!(camera.position().x, i32::MAX);
}

#[test]
fn orbit_radius_never_below_minimum() {
    let mut c = CameraController::new(1_000_000, 100, (0, 0));
    let mut orbit = OrbitCamera::new(Point3::new(0, 0, 0), 10 * L as i64, 1_000_000, 0, L as i64).unwrap();
    for _ in 0..5 {
        c.process_scroll(i32::MAX);
        c.update_orbit(&mut orbit, 16_000);
        assert!(orbit.radius > orbit.min_radius);
    }
    assert_eq!(orbit.radius, L as i64 + 1);
    c.process_scroll(-1000);
    c.update_orbit(&mut orbit, 16_000);
    assert_eq!(orbit.radius, L as i64 + 1 + 1_000_000);
    c.process_scroll(i32::MIN);
    c.update_orbit(&mut orbit, 16_000);
    assert_eq!(orbit.radius, MAX_ORBIT_RADIUS);
}

#[test]
fn orbit_azimuth_wraps_and_polar_clamps() {
    let mut c = CameraController::new(L as u32, 1000, (0, 0));
    let mut orbit = OrbitCamera::new(Point3::new(0, 0, 0), 10 * L as i64, 1_000_000, 0, L as i64).unwrap();
    // 1 px at 1 rad/px/s for 1 µs: 1 µrad
    c.process_mouse(-1, 0);
    c.update_orbit(&mut orbit, 1);
    assert_eq!(orbit.azimuth, TWO_PI - 1);
    c.process_mouse(7, 100);
    c.update_orbit(&mut orbit, 1_000_000);
    assert_eq!(orbit.azimuth, 7_000_000 - 1 - TWO_PI);
    assert_eq!(orbit.polar, frustum_camera::angle::PI - POLAR_MARGIN);
    c.process_mouse(i64::MIN, i64::MIN);
    c.update_orbit(&mut orbit, u32::MAX);
    assert!(orbit.azimuth >= 0 && orbit.azimuth < TWO_PI);
    assert_eq!(orbit.polar, POLAR_MARGIN);
}

#[test]
fn orbit_configuration() {
    assert_eq!(OrbitCamera::new(Point3::new(0, 0, 0), 5, 0, 0, 0), Err(ConfigError::InvalidRadius));
    assert_eq!(OrbitCamera::new(Point3::new(0, 0, 0), 5, 0, 0, MAX_ORBIT_RADIUS), Err(ConfigError::InvalidRadius));
    let o = OrbitCamera::new(Point3::new(1, 2, 3), 5, -7, -1, 100).unwrap();
    assert_eq!((o.radius, o.polar, o.azimuth), (101, POLAR_MARGIN, TWO_PI - 1));
}

#[test]
fn wrap_angle_values() {
    assert_eq!(wrap_angle(-1), TWO_PI - 1);
    assert_eq!(wrap_angle(TWO_PI as i128), 0);
    assert_eq!(wrap_angle(3 * TWO_PI as i128 + 5), 5);
}

#[test]
fn degenerate_direction_falls_back() {
    assert_eq!(Direction::from_components(0, 0, 0), Direction::unit_x());
    assert_eq!(Direction::from_components(i16::MAX, 0, 0), Direction::unit_x());
    // not of unit length
    assert_eq!(Direction::from_components(0, -5, 3), Direction::unit_x());
    let d = Direction::from_components(0, -8192, 0);
    assert_eq!((d.x, d.y, d.z), (0, -8192, 0));
    // 5793² + 5793² is within one step of 8192²
    let e = Direction::from_components(5793, 0, 5793);
    assert_eq!((e.x, e.y, e.z), (5793, 0, 5793));
}

#[test]
fn default_instance_is_at_origin() {
    let i = Instance::default_instance();
    assert_eq!(i.position, Point3::new(0, 0, 0));
    assert_eq!(i.scale, L as u32);
    assert_eq!(i.rotation, Rotation::identity());
}

#[test]
fn grid_of_instances_in_order() {
    let grid = Instance::test_instances(2, 3, false, L);
    assert_eq!(grid.len(), 8);
    // x varies slowest, then z, then y
    assert_eq!(grid[0].position, world(0, 0, 0));
    assert_eq!(grid[1].position, world(0, 1, 0));
    assert_eq!(grid[2].position, world(0, 0, 1));
    assert_eq!(grid[3].position, world(0, 1, 1));
    assert_eq!(grid[4].position, world(1, 0, 0));
    assert_eq!(grid[7].position, world(1, 1, 1));
    assert!(grid.iter().all(|i| i.scale == L as u32 && i.rotation == Rotation::identity()));
}

#[test]
fn centered_line_of_instances() {
    let line = Instance::test_instances(3, 1, true, 2 * L);
    assert_eq!(line.len(), 3);
    // (i - 1.5) * 2 world units
    assert_eq!(line[0].position, Point3::new(-3 * L, -3 * L, -3 * L));
    assert_eq!(line[1].position, Point3::new(-L, -3 * L, -3 * L));
    assert_eq!(line[2].position, Point3::new(L, -3 * L, -3 * L));
    let single = Instance::test_instances(4, 0, false, L);
    assert_eq!(single.len(), 1);
    assert_eq!(single[0].position, world(0, 0, 0));
}

#[test]
fn sphere_test_is_exact_at_the_radius() {
    let (camera, projection) = scene();
    let frustum = Frustum::new(&camera, &projection);
    // radius of a unit cube's sphere: 1024·√3/2 ≈ 886.81 steps
    let half = L / 2;
    let inside = Instance { position: Point3::new(100 * L + 886 - half, 0, 0), rotation: Rotation::identity(), scale: L as u32 };
    let outside = Instance { position: Point3::new(100 * L + 887 - half, 0, 0), ..inside };
    assert!(frustum.is_inside_instance(&inside));
    assert!(!frustum.is_inside_instance(&outside));
}

#[test]
fn visibility_mask_in_order() {
    let (camera, projection) = scene();
    let frustum = Frustum::new(&camera, &projection);
    let instances = vec![unit_instance(10, 0, 0), unit_instance(200, 0, 0), unit_instance(-10, 0, 0), unit_instance(50, 1, 1)];
    assert_eq!(frustum.visibility_mask(&instances), vec![true, false, false, true]);
    assert_eq!(frustum.visibility_mask(&Vec::new()), Vec::<bool>::new());
}

#[test]
fn zero_normal_gets_default_orientation() {
    let plane = Plane::new_from_point(Vec3 { x: 0, y: 0, z: 0 }, Point3::new(5, 6, 7));
    assert_eq!((plane.normal.x, plane.normal.y, plane.normal.z), (1, 0, 0));
    assert_eq!(plane.distance, 5);
    assert_eq!(plane.get_signed_distance(Point3::new(2, 100, -100)), -3);
    let kept = Plane::from_normal(Vec3 { x: 0, y: 2, z: 0 }, 4);
    assert_eq!((kept.normal.y, kept.distance), (2, 4));
}

#[test]
fn degenerate_basis_is_replaced() {
    let mut camera = Camera::new(Point3::new(0, 0, 0), 0, 0);
    let x = Direction::unit_x();
    // front parallel to right: no up vector
    camera.set_directions(Direction::unit_z(), x, Direction::unit_z());
    assert_eq!((camera.front(), camera.forward(), camera.right()), (x, x, Direction::unit_z()));
    let z = Direction::unit_z();
    let minus_x = Direction::from_components(-(DIRECTION_UNIT as i16), 0, 0);
    camera.set_directions(z, z, minus_x);
    assert_eq!((camera.front(), camera.forward(), camera.right()), (z, z, minus_x));
}
