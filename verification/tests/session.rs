use brick_wall::brick::Brick;
use brick_wall::curve_manager::{
    exceeds_min_spacing, CurveManager, FrameInput, UserDrawnCurve, WallStep, INFINITY_BITS,
    MIN_CURVE_POINTS, MIN_SPACING_BITS,
};
use brick_wall::mesh_buffer::MeshBuffer;
use brick_wall::smoothing::resample_count;
use glam::{Quat, Vec2, Vec3};

fn triangle() -> MeshBuffer {
    MeshBuffer::new(
        vec![Vec3::new(0.0, 0.0, 0.0), Vec3::new(1.0, 0.0, 0.0), Vec3::new(0.0, 1.0, 0.0)],
        vec![Vec3::new(0.0, 0.0, 1.0); 3],
        vec![Vec2::new(0.0, 0.0), Vec2::new(1.0, 0.0), Vec2::new(0.0, 1.0)],
        vec![0, 1, 2],
    )
    .unwrap()
}

fn smooth_line() -> Vec<Vec3> {
    vec![Vec3::new(0.0, 0.0, 0.0), Vec3::new(0.5, 0.0, 0.0), Vec3::new(1.0, 0.0, 0.0)]
}

fn brick_at(x: f32) -> Brick {
    Brick {
        pivot_u: 0,
        scale: Vec3::new(1.0, 1.0, 1.0),
        position: Vec3::new(x, 0.0, 0.0),
        rotation: Quat::IDENTITY,
    }
}

#[test]
fn spacing_constants_encode_the_numbers_they_stand_for() {
    assert_eq!(MIN_SPACING_BITS, 0.001f32.to_bits());
    assert_eq!(INFINITY_BITS, f32::INFINITY.to_bits());
    assert_eq!(MIN_CURVE_POINTS, 2);
}

#[test]
fn spacing_test_agrees_with_the_comparison_of_numbers() {
    let samples = [
        0.0f32,
        -0.0,
        1e-30,
        0.000_999,
        0.001,
        0.001_000_1,
        0.002,
        1.0,
        1e30,
        f32::MAX,
        f32::INFINITY,
        f32::NAN,
        -f32::NAN,
        -1.0,
        f32::NEG_INFINITY,
        f32::MIN_POSITIVE,
    ];
    for d in samples {
        assert_eq!(exceeds_min_spacing(d.to_bits()), d > 0.001, "{}", d);
    }
}

#[test]
fn spacing_threshold_itself_is_too_close() {
    assert!(!exceeds_min_spacing(MIN_SPACING_BITS));
    assert!(exceeds_min_spacing(MIN_SPACING_BITS + 1));
    assert!(exceeds_min_spacing(INFINITY_BITS));
    assert!(!exceeds_min_spacing(INFINITY_BITS + 1));
}

#[test]
fn new_session_has_no_curve() {
    let session = CurveManager::new(triangle());
    assert_eq!(session.curve_count(), 0);
    assert!(session.active_curve().is_none());
    assert!(session.drawable_points().is_none());
    assert_eq!(session.template().vertex_count(), 3);
}

#[test]
fn sample_without_a_curve_is_dropped() {
    let mut session = CurveManager::new(triangle());
    assert!(!session.append_point(Vec3::new(1.0, 0.0, 0.0)));
    assert_eq!(session.curve_count(), 0);
}

#[test]
fn first_sample_of_a_curve_is_kept() {
    let mut session = CurveManager::new(triangle());
    session.start_curve();
    assert_eq!(session.curve_count(), 1);
    assert!(session.curve(0).points().is_empty());
    assert!(session.append_point(Vec3::new(3.0, 0.0, 4.0)));
    assert_eq!(session.curve(0).points(), &vec![Vec3::new(3.0, 0.0, 4.0)]);
}

#[test]
fn sample_close_to_the_last_point_is_dropped() {
    let mut session = CurveManager::new(triangle());
    session.start_curve();
    assert!(session.append_point(Vec3::new(0.0, 0.0, 0.0)));
    assert!(!session.append_point(Vec3::new(0.0005, 0.0, 0.0)));
    assert!(!session.append_point(Vec3::new(0.0, 0.0, 0.0)));
    assert_eq!(session.curve(0).points().len(), 1);
    assert!(session.append_point(Vec3::new(0.002, 0.0, 0.0)));
    assert_eq!(session.curve(0).points().len(), 2);
}

#[test]
fn sample_close_to_an_earlier_point_is_dropped() {
    let mut session = CurveManager::new(triangle());
    session.start_curve();
    assert!(session.append_point(Vec3::new(0.0, 0.0, 0.0)));
    assert!(session.append_point(Vec3::new(1.0, 0.0, 0.0)));
    assert!(session.append_point(Vec3::new(2.0, 0.0, 0.0)));
    assert!(!session.append_point(Vec3::new(0.0, 0.0005, 0.0)));
    assert_eq!(session.curve(0).points().len(), 3);
}

#[test]
fn sample_at_an_undefined_distance_is_dropped() {
    let mut session = CurveManager::new(triangle());
    session.start_curve();
    assert!(session.append_point(Vec3::new(0.0, 0.0, 0.0)));
    assert!(!session.append_point(Vec3::new(f32::NAN, 0.0, 0.0)));
    assert_eq!(session.curve(0).points().len(), 1);
}

#[test]
fn curve_knows_which_samples_keep_their_distance() {
    let mut session = CurveManager::new(triangle());
    session.start_curve();
    session.append_point(Vec3::new(0.0, 0.0, 0.0));
    session.append_point(Vec3::new(0.0, 0.0, 3.0));
    let curve: &UserDrawnCurve = session.curve(0);
    assert!(curve.keeps_spacing(Vec3::new(0.0, 0.0, 1.5)));
    assert!(!curve.keeps_spacing(Vec3::new(0.0, 0.0, 3.0005)));
    assert!(curve.wall().is_none());
}

#[test]
fn new_curve_becomes_the_active_one() {
    let mut session = CurveManager::new(triangle());
    session.start_curve();
    session.append_point(Vec3::new(0.0, 0.0, 0.0));
    session.start_curve();
    assert_eq!(session.curve_count(), 2);
    assert!(session.append_point(Vec3::new(0.0, 0.0, 0.0)));
    assert_eq!(session.curve(0).points().len(), 1);
    assert_eq!(session.curve(1).points().len(), 1);
    assert_eq!(session.active_curve().unwrap().points().len(), 1);
}

#[test]
fn clearing_forgets_every_curve() {
    let mut session = CurveManager::new(triangle());
    session.start_curve();
    session.append_point(Vec3::new(0.0, 0.0, 0.0));
    session.append_point(Vec3::new(1.0, 0.0, 0.0));
    session.tick(smooth_line(), vec![brick_at(0.5)]);
    session.start_curve();
    session.clear_all();
    assert_eq!(session.curve_count(), 0);
    assert!(session.active_curve().is_none());
    assert_eq!(session.template().index_count(), 3);
    assert_eq!(session.tick(smooth_line(), vec![brick_at(0.5)]), WallStep::Idle);
    assert_eq!(session.curve_count(), 0);
}

#[test]
fn curve_is_drawable_from_two_points_on() {
    let mut session = CurveManager::new(triangle());
    assert!(session.drawable_points().is_none());
    session.start_curve();
    assert!(session.drawable_points().is_none());
    session.append_point(Vec3::new(0.0, 0.0, 0.0));
    assert!(session.drawable_points().is_none());
    session.append_point(Vec3::new(1.0, 0.0, 0.0));
    assert_eq!(
        session.drawable_points(),
        Some(&vec![Vec3::new(0.0, 0.0, 0.0), Vec3::new(1.0, 0.0, 0.0)])
    );
}

#[test]
fn tick_without_a_curve_does_nothing() {
    let mut session = CurveManager::new(triangle());
    assert_eq!(session.tick(smooth_line(), vec![brick_at(0.5)]), WallStep::Idle);
    assert_eq!(session.curve_count(), 0);
}

#[test]
fn short_smoothed_curve_gets_no_wall() {
    let mut session = CurveManager::new(triangle());
    session.start_curve();
    assert_eq!(session.tick(vec![], vec![]), WallStep::Idle);
    assert!(session.curve(0).smoothed().is_empty());
    session.append_point(Vec3::new(0.0, 0.0, 0.0));
    let single = vec![Vec3::new(0.0, 0.0, 0.0)];
    assert_eq!(session.tick(single.clone(), vec![brick_at(0.5)]), WallStep::Idle);
    assert_eq!(session.curve(0).smoothed(), &single);
    assert!(session.curve(0).wall().is_none());
    assert_eq!(session.curve(0).points().len(), 1);
}

#[test]
fn short_smoothed_curve_leaves_an_existing_wall_alone() {
    let mut session = CurveManager::new(triangle());
    session.start_curve();
    session.append_point(Vec3::new(0.0, 0.0, 0.0));
    session.append_point(Vec3::new(1.0, 0.0, 0.0));
    assert_eq!(session.tick(smooth_line(), vec![brick_at(0.5)]), WallStep::Created);
    assert_eq!(session.tick(vec![], vec![brick_at(3.0); 2]), WallStep::Idle);
    let wall = session.curve(0).wall().unwrap();
    assert_eq!(wall.bricks().len(), 1);
    assert_eq!(wall.buffer().positions[0], Vec3::new(0.5, 0.0, 0.0));
    assert!(session.curve(0).smoothed().is_empty());
}

#[test]
fn wall_is_created_once_and_updated_afterwards() {
    let mut session = CurveManager::new(triangle());
    session.start_curve();
    session.append_point(Vec3::new(0.0, 0.0, 0.0));
    session.append_point(Vec3::new(1.0, 0.0, 0.0));
    assert_eq!(session.tick(smooth_line(), vec![brick_at(0.5)]), WallStep::Created);
    assert_eq!(session.curve(0).smoothed(), &smooth_line());
    {
        let wall = session.curve(0).wall().unwrap();
        assert_eq!(wall.buffer().positions.len(), 3);
        assert_eq!(wall.buffer().positions[1], Vec3::new(1.5, 0.0, 0.0));
        assert_eq!(wall.mesh_buffer().vertex_count(), 3);
    }
    session.append_point(Vec3::new(2.0, 0.0, 0.0));
    assert_eq!(
        session.tick(smooth_line(), vec![brick_at(0.5), brick_at(1.5)]),
        WallStep::Updated
    );
    let wall = session.curve(0).wall().unwrap();
    assert_eq!(wall.buffer().positions.len(), 6);
    assert_eq!(wall.buffer().indices, vec![0, 1, 2, 3, 4, 5]);
    assert_eq!(wall.buffer().instance_ids, vec![0, 0, 0, 1, 1, 1]);
    assert_eq!(session.curve(0).points().len(), 3);
}

#[test]
fn wall_without_bricks_is_an_empty_mesh() {
    let mut session = CurveManager::new(triangle());
    session.start_curve();
    assert_eq!(session.tick(smooth_line(), vec![]), WallStep::Created);
    let wall = session.curve(0).wall().unwrap();
    assert!(wall.buffer().positions.is_empty());
    assert!(wall.buffer().indices.is_empty());
}

#[test]
fn only_the_active_curve_is_rebuilt() {
    let mut session = CurveManager::new(triangle());
    session.start_curve();
    session.append_point(Vec3::new(0.0, 0.0, 0.0));
    session.append_point(Vec3::new(1.0, 0.0, 0.0));
    session.tick(smooth_line(), vec![brick_at(0.5)]);
    session.start_curve();
    session.append_point(Vec3::new(0.0, 0.0, 5.0));
    session.append_point(Vec3::new(1.0, 0.0, 5.0));
    assert_eq!(session.tick(smooth_line(), vec![brick_at(7.0); 4]), WallStep::Created);
    assert_eq!(session.curve(0).wall().unwrap().bricks().len(), 1);
    assert_eq!(session.curve(1).wall().unwrap().bricks().len(), 4);
    assert_eq!(session.curve(0).wall().unwrap().buffer().positions.len(), 3);
    assert_eq!(session.curve(1).wall().unwrap().buffer().positions.len(), 12);
}

#[test]
fn input_is_taken_as_reset_then_start_then_sample() {
    let mut session = CurveManager::new(triangle());
    session.start_curve();
    session.append_point(Vec3::new(0.0, 0.0, 0.0));
    session.apply_input(FrameInput {
        clear: true,
        begin: true,
        sample: Some(Vec3::new(0.0, 0.0, 0.0)),
    });
    assert_eq!(session.curve_count(), 1);
    assert_eq!(session.curve(0).points(), &vec![Vec3::new(0.0, 0.0, 0.0)]);
}

#[test]
fn input_without_anything_changes_nothing() {
    let mut session = CurveManager::new(triangle());
    session.start_curve();
    session.append_point(Vec3::new(0.0, 0.0, 0.0));
    session.apply_input(FrameInput { clear: false, begin: false, sample: None });
    assert_eq!(session.curve_count(), 1);
    assert_eq!(session.curve(0).points().len(), 1);
}

#[test]
fn held_button_extends_the_active_curve() {
    let mut session = CurveManager::new(triangle());
    session.apply_input(FrameInput {
        clear: false,
        begin: false,
        sample: Some(Vec3::new(1.0, 0.0, 0.0)),
    });
    assert_eq!(session.curve_count(), 0);
    session.apply_input(FrameInput {
        clear: false,
        begin: true,
        sample: Some(Vec3::new(1.0, 0.0, 0.0)),
    });
    session.apply_input(FrameInput {
        clear: false,
        begin: false,
        sample: Some(Vec3::new(1.0, 0.0, 0.0)),
    });
    session.apply_input(FrameInput {
        clear: false,
        begin: false,
        sample: Some(Vec3::new(1.5, 0.0, 0.0)),
    });
    assert_eq!(session.curve_count(), 1);
    assert_eq!(
        session.curve(0).points(),
        &vec![Vec3::new(1.0, 0.0, 0.0), Vec3::new(1.5, 0.0, 0.0)]
    );
    session.apply_input(FrameInput { clear: true, begin: false, sample: Some(Vec3::new(9.0, 0.0, 0.0)) });
    assert_eq!(session.curve_count(), 0);
}

#[test]
fn smoothing_keeps_short_curves_and_densifies_the_rest() {
    assert_eq!(resample_count(0, 50), 0);
    assert_eq!(resample_count(1, 50), 1);
    assert_eq!(resample_count(2, 50), 50);
    assert_eq!(resample_count(3, 50), 50);
    assert_eq!(resample_count(50, 50), 50);
    assert_eq!(resample_count(51, 50), 51);
    assert_eq!(resample_count(2, 0), 2);
    assert_eq!(resample_count(usize::MAX, 7), usize::MAX);
}
