use particle_engine::dist::{angular_dist, fixed_dist, uniform_dist, zero_dist, Dist};
use particle_engine::dist_param::{dist_param, DistParam, DistParam2D};
use particle_engine::generator::{ExtInt, GeneratorModel};
use particle_engine::param::{param, Param};
use particle_engine::rng::Rng;
use particle_engine::scalar::Scalar;
use particle_engine::script::{CallbackData, EntityInfo, Error, ImageHandle, ScriptParticleGenerator};
use particle_engine::trig::{cos_fixed, sin_fixed};
use particle_engine::InventoryWindow;

fn owner() -> EntityInfo {
    EntityInfo { x: 3, y: 4, width: 2, height: 2 }
}

fn gen_with(duration: ExtInt) -> ScriptParticleGenerator {
    ScriptParticleGenerator::new(9, "sparkle".to_string(), duration, &owner())
}

#[test]
fn param_fixed_evaluates_to_value() {
    let p = Param::fixed(Scalar::from_int(5));
    let v = p.evaluate(Scalar::from_int(3));
    assert_eq!(v.raw, 5_000_000);
}

#[test]
fn param_with_speed_evaluates_linear() {
    let p = Param::with_speed(Scalar::from_int(5), Scalar::from_int(2));
    let v = p.evaluate(Scalar::from_int(3));
    assert_eq!(v.raw, 11_000_000);
}

#[test]
fn param_with_accel_evaluates_quadratic() {
    let p = Param::with_accel(Scalar::from_int(0), Scalar::from_int(1), Scalar::from_int(1));
    let v = p.evaluate(Scalar::from_int(2));
    assert_eq!(v.raw, 6_000_000);
}

#[test]
fn param_with_jerk_evaluates_cubic() {
    let p = Param::with_jerk(
        Scalar::from_int(1),
        Scalar::from_int(2),
        Scalar::from_int(3),
        Scalar::from_int(4),
    );
    // 1 + 2*2 + 3*4 + 4*8 == 49 at t == 2
    let v = p.evaluate(Scalar::from_int(2));
    assert_eq!(v.raw, 49_000_000);
}

#[test]
fn param_builder_ignores_later_args_after_gap() {
    let p = param(Scalar::from_int(5), None, Some(Scalar::from_int(7)), None);
    assert_eq!(p, Param::fixed(Scalar::from_int(5)));
    let q = param(Scalar::from_int(5), Some(Scalar::from_int(2)), None, Some(Scalar::from_int(7)));
    assert_eq!(q, Param::with_speed(Scalar::from_int(5), Scalar::from_int(2)));
}

#[test]
fn offset_shifts_evaluation_only_by_delta() {
    let p = Param::with_accel(Scalar::from_int(1), Scalar::from_int(2), Scalar::from_int(3));
    let q = p.offset(Scalar::from_int(10));
    for t in 0..5 {
        let before = p.evaluate(Scalar::from_int(t)).raw;
        let after = q.evaluate(Scalar::from_int(t)).raw;
        assert_eq!(after, before + 10_000_000);
    }
    assert_eq!(q.dt, p.dt);
    assert_eq!(q.d2t, p.d2t);
    assert_eq!(q.d3t, p.d3t);
}

#[test]
fn try_evaluate_agrees_when_in_range() {
    let p = Param::with_jerk(
        Scalar::from_int(1),
        Scalar::from_int(-2),
        Scalar::from_int(3),
        Scalar::from_int(-4),
    );
    let t = Scalar::from_int(7);
    assert_eq!(p.try_evaluate(t), Some(p.evaluate(t)));
}

#[test]
fn try_evaluate_rejects_overflowing_input() {
    let p = Param::with_jerk(
        Scalar::from_raw(0),
        Scalar::from_raw(0),
        Scalar::from_raw(0),
        Scalar::from_raw(i64::MAX),
    );
    let t = Scalar::from_raw(i64::MAX);
    assert_eq!(p.try_evaluate(t), None);
}

#[test]
fn uniform_sample_stays_in_range() {
    let d = uniform_dist(Scalar::from_int(-4), Scalar::from_int(9));
    let mut rng = Rng::new(12345);
    for _ in 0..200 {
        let v = d.sample(&mut rng);
        assert!(v.raw >= -4_000_000 && v.raw <= 9_000_000);
    }
}

#[test]
fn uniform_degenerate_range_returns_the_value() {
    let d = uniform_dist(Scalar::from_int(6), Scalar::from_int(6));
    let mut rng = Rng::new(99);
    for _ in 0..20 {
        assert_eq!(d.sample(&mut rng).raw, 6_000_000);
    }
}

#[test]
fn fixed_dist_always_returns_value() {
    let d = fixed_dist(Scalar::from_int(3));
    let mut rng = Rng::new(7);
    for _ in 0..5 {
        assert_eq!(d.sample(&mut rng).raw, 3_000_000);
    }
    assert_eq!(zero_dist(), Dist::Fixed { value: Scalar::from_raw(0) });
}

#[test]
fn angular_components_stay_within_magnitude_bound() {
    let d = angular_dist(
        Scalar::from_raw(-3_141_592),
        Scalar::from_raw(3_141_592),
        Scalar::from_int(2),
        Scalar::from_int(3),
    );
    let mut rng = Rng::new(2024);
    for _ in 0..200 {
        let (dx, dy) = d.sample2d(&mut rng);
        assert!(dx.raw.abs() <= 3_000_000);
        assert!(dy.raw.abs() <= 3_000_000);
    }
}

#[test]
fn angular_polar_form_is_approximately_respected() {
    // Angle in [0.2, 1.0] radians, magnitude in [2, 3].
    let d = angular_dist(
        Scalar::from_raw(200_000),
        Scalar::from_raw(1_000_000),
        Scalar::from_int(2),
        Scalar::from_int(3),
    );
    let mut rng = Rng::new(31337);
    for _ in 0..100 {
        let (dxs, dys) = d.sample2d(&mut rng);
        let dx = dxs.raw as f64 / 1e6;
        let dy = dys.raw as f64 / 1e6;
        let mag = (dx * dx + dy * dy).sqrt();
        // The quarter-turn cosine polynomial is within about a tenth of a
        // percent of the real cosine, so the magnitude deviates little.
        assert!(mag >= 2.0 * 0.99 && mag <= 3.0 * 1.01, "mag out of range: {}", mag);
        let ang = dy.atan2(dx);
        assert!(ang >= 0.2 - 0.01 && ang <= 1.0 + 0.01, "angle out of range: {}", ang);
    }
}

#[test]
fn angular_fixed_draw_is_exact_in_fixed_point() {
    // Degenerate ranges: angle always 0, magnitude always 2.  The cosine of
    // zero is exactly one, so dx is exactly the magnitude; dy carries only
    // the polynomial's small residue at the quarter-turn fold.
    let d = angular_dist(
        Scalar::from_raw(0),
        Scalar::from_raw(0),
        Scalar::from_int(2),
        Scalar::from_int(2),
    );
    let mut rng = Rng::new(5);
    let (dx, dy) = d.sample2d(&mut rng);
    assert_eq!(dx.raw, 2_000_000);
    assert_eq!(dy.raw, -1_788);
}

#[test]
fn trig_known_values() {
    assert_eq!(cos_fixed(Scalar::from_raw(0)).raw, 1_000_000);
    // cos(pi) folds to the exact negated quarter-turn origin.
    assert_eq!(cos_fixed(Scalar::from_raw(3_141_592)).raw, -1_000_000);
    // sin stays within one unit everywhere.
    for k in -10..10 {
        let s = sin_fixed(Scalar::from_raw(k * 700_000)).raw;
        assert!((-1_000_000..=1_000_000).contains(&s));
    }
}

#[test]
fn materializing_all_fixed_is_identical_every_time() {
    let dp = DistParam::new(
        fixed_dist(Scalar::from_int(1)),
        fixed_dist(Scalar::from_int(2)),
        fixed_dist(Scalar::from_int(3)),
        fixed_dist(Scalar::from_int(4)),
    );
    let mut rng = Rng::new(11);
    let a = dp.generate(&mut rng);
    let b = dp.generate(&mut rng);
    assert_eq!(a, b);
    assert_eq!(a.value.raw, 1_000_000);
    assert_eq!(a.d3t.raw, 4_000_000);
}

#[test]
fn materializing_random_dists_differs_across_draws() {
    let dp = DistParam::new(
        uniform_dist(Scalar::from_int(0), Scalar::from_int(1000)),
        uniform_dist(Scalar::from_int(0), Scalar::from_int(1000)),
        fixed_dist(Scalar::from_int(0)),
        fixed_dist(Scalar::from_int(0)),
    );
    let mut rng = Rng::new(4242);
    let a = dp.generate(&mut rng);
    let b = dp.generate(&mut rng);
    assert_ne!(a, b);
}

#[test]
fn dist_param_builder_defaults_to_fixed_zero() {
    let d = dist_param(uniform_dist(Scalar::from_int(0), Scalar::from_int(1)), None, None, None);
    assert_eq!(d.dt, Dist::Fixed { value: Scalar::from_raw(0) });
    assert_eq!(d.d2t, Dist::Fixed { value: Scalar::from_raw(0) });
    assert_eq!(d.d3t, Dist::Fixed { value: Scalar::from_raw(0) });
}

#[test]
fn shared_2d_param_draws_each_axis() {
    let shared = DistParam::new(
        uniform_dist(Scalar::from_int(-1), Scalar::from_int(1)),
        fixed_dist(Scalar::from_int(0)),
        fixed_dist(Scalar::from_int(0)),
        fixed_dist(Scalar::from_int(0)),
    );
    let d2 = DistParam2D::new(shared, None);
    let mut rng = Rng::new(77);
    let (px, py) = d2.generate2d(&mut rng);
    assert!(px.value.raw >= -1_000_000 && px.value.raw <= 1_000_000);
    assert!(py.value.raw >= -1_000_000 && py.value.raw <= 1_000_000);
    assert_eq!(px.dt.raw, 0);
    assert_eq!(py.dt.raw, 0);
}

#[test]
fn shared_2d_angular_value_is_drawn_jointly() {
    let shared = DistParam::new(
        angular_dist(
            Scalar::from_raw(0),
            Scalar::from_raw(0),
            Scalar::from_int(2),
            Scalar::from_int(2),
        ),
        fixed_dist(Scalar::from_int(0)),
        fixed_dist(Scalar::from_int(0)),
        fixed_dist(Scalar::from_int(0)),
    );
    let d2 = DistParam2D::new(shared, None);
    let mut rng = Rng::new(5);
    let (px, py) = d2.generate2d(&mut rng);
    // One joint polar draw: x gets mag*cos(0), y gets mag*sin(0).
    assert_eq!(px.value.raw, 2_000_000);
    assert_eq!(py.value.raw, -1_788);
}

#[test]
fn rng_is_reproducible_from_the_seed() {
    let mut a = Rng::new(42);
    let mut b = Rng::new(42);
    for _ in 0..10 {
        assert_eq!(a.next_u64(), b.next_u64());
    }
}

#[test]
fn new_generator_centers_on_owner() {
    let gen = gen_with(ExtInt::Int(2000));
    assert_eq!(gen.model.position.0.value.raw, 4_000_000);
    assert_eq!(gen.model.position.1.value.raw, 5_000_000);
    assert_eq!(gen.parent, 9);
    assert!(gen.model.is_blocking);
    assert!(gen.callbacks.is_empty());
}

#[test]
fn infinite_duration_defaults_to_non_blocking() {
    let gen = gen_with(ExtInt::Infinity);
    assert!(!gen.model.is_blocking);
}

#[test]
fn new_anim_jump_starts_with_zero_rate() {
    let gen = ScriptParticleGenerator::new_anim(
        9,
        "sparkle".to_string(),
        ExtInt::Int(500),
        &owner(),
    );
    assert_eq!(gen.model.initial_overflow.raw, 1_000_000);
    assert_eq!(gen.model.gen_rate, Param::fixed(Scalar::from_raw(0)));
}

#[test]
fn setters_update_exactly_one_field() {
    let mut gen = gen_with(ExtInt::Int(2000));
    let before = gen.model;

    gen.set_blocking(false);
    assert!(!gen.model.is_blocking);
    gen.set_draw_above_entities();
    assert!(gen.model.draw_above_entities);
    gen.set_draw_below_entities();
    assert!(!gen.model.draw_above_entities);
    gen.set_moves_with_parent();
    assert!(gen.model.moves_with_parent);
    gen.set_initial_gen(Scalar::from_int(3));
    assert_eq!(gen.model.initial_overflow.raw, 3_000_000);
    gen.set_gen_rate(Param::fixed(Scalar::from_int(12)));
    assert_eq!(gen.model.gen_rate, Param::fixed(Scalar::from_int(12)));
    gen.set_rotation(Param::fixed(Scalar::from_raw(785_398)));
    assert_eq!(gen.model.rotation, Some(Param::fixed(Scalar::from_raw(785_398))));
    gen.set_position(Param::fixed(Scalar::from_int(1)), Param::fixed(Scalar::from_int(2)));
    assert_eq!(gen.model.position.0, Param::fixed(Scalar::from_int(1)));

    // Untouched fields keep their values.
    assert_eq!(gen.model.red, before.red);
    assert_eq!(gen.model.duration_millis, before.duration_millis);
}

#[test]
fn set_color_without_alpha_defaults_to_fully_opaque() {
    let mut gen = gen_with(ExtInt::Int(2000));
    gen.set_color(
        Param::fixed(Scalar::from_raw(500_000)),
        Param::fixed(Scalar::from_raw(250_000)),
        Param::fixed(Scalar::from_raw(125_000)),
        None,
    );
    for t in 0..10 {
        assert_eq!(gen.model.alpha.evaluate(Scalar::from_int(t)).raw, 1_000_000);
    }
    // Even after alpha was set to another value, a three-argument
    // set_color resets it to the fixed value one.
    gen.set_alpha(Param::fixed(Scalar::from_raw(300_000)));
    assert_eq!(gen.model.alpha.evaluate(Scalar::from_int(1)).raw, 300_000);
    gen.set_color(
        Param::fixed(Scalar::from_raw(500_000)),
        Param::fixed(Scalar::from_raw(250_000)),
        Param::fixed(Scalar::from_raw(125_000)),
        None,
    );
    for t in 0..10 {
        assert_eq!(gen.model.alpha.evaluate(Scalar::from_int(t)).raw, 1_000_000);
    }
    gen.set_color(
        Param::fixed(Scalar::from_raw(1_000_000)),
        Param::fixed(Scalar::from_raw(1_000_000)),
        Param::fixed(Scalar::from_raw(1_000_000)),
        Some(Param::fixed(Scalar::from_raw(700_000))),
    );
    assert_eq!(gen.model.alpha.evaluate(Scalar::from_int(1)).raw, 700_000);
}

#[test]
fn one_argument_position_dist_shares_its_content() {
    let mut gen = gen_with(ExtInt::Int(2000));
    let dp = dist_param(uniform_dist(Scalar::from_int(-1), Scalar::from_int(1)), None, None, None);
    gen.set_particle_position_dist(dp, None);
    let stored = gen.model.particle_position_dist.unwrap();
    assert_eq!(stored.x, dp);
    assert!(stored.y.is_none());

    let other = dist_param(fixed_dist(Scalar::from_int(2)), None, None, None);
    gen.set_particle_position_dist(dp, Some(other));
    let stored2 = gen.model.particle_position_dist.unwrap();
    assert_eq!(stored2.y, Some(other));
}

#[test]
fn remaining_particle_dist_setters_store_their_field() {
    let mut gen = gen_with(ExtInt::Int(2000));
    let d = uniform_dist(Scalar::from_raw(100_000), Scalar::from_raw(400_000));
    gen.set_particle_duration_dist(d);
    assert_eq!(gen.model.particle_duration_dist, Some(d));
    gen.set_particle_size_dist(d, fixed_dist(Scalar::from_int(1)));
    assert_eq!(
        gen.model.particle_size_dist,
        Some((d, fixed_dist(Scalar::from_int(1))))
    );
    gen.set_particle_frame_time_offset_dist(d);
    assert_eq!(gen.model.particle_frame_time_offset_dist, Some(d));
}

#[test]
fn callback_times_convert_to_truncated_milliseconds() {
    let mut gen = gen_with(ExtInt::Int(2000));
    gen.add_callback(CallbackData::new(1), Scalar::from_raw(1_500_000));
    gen.add_callback(CallbackData::new(2), Scalar::from_raw(1_500_999));
    gen.add_callback(CallbackData::new(3), Scalar::from_raw(-250_000));
    gen.set_completion_callback(CallbackData::new(8));

    let anim = gen.activate(Some(ImageHandle::new(7))).unwrap();
    assert_eq!(anim.update_callbacks.len(), 3);
    assert_eq!(anim.update_callbacks[0], (1500, CallbackData::new(1)));
    assert_eq!(anim.update_callbacks[1], (1500, CallbackData::new(2)));
    assert_eq!(anim.update_callbacks[2], (0, CallbackData::new(3)));
    assert_eq!(anim.completion_callback, Some(CallbackData::new(8)));
    assert_eq!(anim.owner, 9);
    assert_eq!(anim.image, ImageHandle::new(7));
    assert_eq!(anim.model, gen.model);
}

#[test]
fn completion_callback_last_write_wins() {
    let mut gen = gen_with(ExtInt::Int(2000));
    gen.set_completion_callback(CallbackData::new(1));
    gen.set_completion_callback(CallbackData::new(2));
    assert_eq!(gen.completion_callback, Some(CallbackData::new(2)));
}

#[test]
fn activation_without_image_reports_resource_not_found() {
    let gen = gen_with(ExtInt::Int(2000));
    assert_eq!(gen.activate(None).err(), Some(Error::ResourceNotFound));
}

#[test]
fn activation_freezes_an_independent_snapshot() {
    let mut gen = gen_with(ExtInt::Int(2000));
    let anim = gen.activate(Some(ImageHandle::new(1))).unwrap();
    let frozen = anim.model;
    gen.set_initial_gen(Scalar::from_int(50));
    assert_eq!(anim.model, frozen);
    assert_ne!(gen.model, frozen);
}

#[test]
fn surface_activation_translates_only_the_position() {
    let mut gen = gen_with(ExtInt::Int(2000));
    gen.set_position(
        Param::with_speed(Scalar::from_int(1), Scalar::from_int(2)),
        Param::fixed(Scalar::from_int(3)),
    );
    let anim =
        particle_engine::script::create_surface_pgen(&gen, 10, -4, Some(ImageHandle::new(1)))
            .unwrap();
    assert_eq!(anim.model.position.0.value.raw, 11_000_000);
    assert_eq!(anim.model.position.0.dt.raw, 2_000_000);
    assert_eq!(anim.model.position.1.value.raw, -1_000_000);
    // The template itself is untouched.
    assert_eq!(gen.model.position.0.value.raw, 1_000_000);
}

#[test]
fn owned_model_is_a_copy() {
    let mut gen = gen_with(ExtInt::Int(2000));
    let copy = gen.owned_model();
    gen.set_blocking(false);
    assert!(copy.is_blocking);
}

#[test]
fn anim_callback_mutators_append_and_overwrite() {
    let gen = gen_with(ExtInt::Int(2000));
    let mut anim = gen.activate(Some(ImageHandle::new(1))).unwrap();
    anim.add_update_callback(CallbackData::new(4), 250);
    anim.add_update_callback(CallbackData::new(5), 250);
    anim.add_completion_callback(CallbackData::new(6));
    assert_eq!(anim.update_callbacks, vec![(250, CallbackData::new(4)), (250, CallbackData::new(5))]);
    assert_eq!(anim.completion_callback, Some(CallbackData::new(6)));
}

#[test]
fn default_model_values() {
    let m = GeneratorModel::new(ExtInt::Infinity, Scalar::from_int(1), Scalar::from_int(2));
    assert_eq!(m.red, Param::fixed(Scalar::from_raw(1_000_000)));
    assert_eq!(m.alpha, Param::fixed(Scalar::from_raw(1_000_000)));
    assert_eq!(m.gen_rate, Param::fixed(Scalar::from_raw(1_000_000)));
    assert_eq!(m.initial_overflow.raw, 0);
    assert!(!m.is_blocking);
    assert!(!m.draw_above_entities);
    assert!(!m.moves_with_parent);
    assert!(m.rotation.is_none());
    assert!(m.particle_position_dist.is_none());
    assert!(m.particle_duration_dist.is_none());
    assert!(m.particle_size_dist.is_none());
    assert!(m.particle_frame_time_offset_dist.is_none());
}

#[test]
fn inventory_window_remembers_its_entity() {
    let e = EntityInfo { x: 1, y: 2, width: 3, height: 4 };
    let w = InventoryWindow::new(&e);
    assert_eq!(w.entity, e);
}

#[test]
fn spawn_particle_samples_each_configured_field() {
    let mut gen = gen_with(ExtInt::Int(2000));
    gen.set_particle_position_dist(
        dist_param(uniform_dist(Scalar::from_int(-1), Scalar::from_int(1)), None, None, None),
        None,
    );
    gen.set_particle_duration_dist(uniform_dist(
        Scalar::from_raw(500_000),
        Scalar::from_raw(900_000),
    ));
    gen.set_particle_size_dist(fixed_dist(Scalar::from_int(1)), fixed_dist(Scalar::from_int(2)));
    let mut rng = Rng::new(808);
    let p = gen.model.spawn_particle(&mut rng);

    let (px, py) = p.position.unwrap();
    assert!(px.value.raw >= -1_000_000 && px.value.raw <= 1_000_000);
    assert!(py.value.raw >= -1_000_000 && py.value.raw <= 1_000_000);
    let d = p.duration.unwrap();
    assert!(d.raw >= 500_000 && d.raw <= 900_000);
    assert_eq!(p.size, Some((Scalar::from_int(1), Scalar::from_int(2))));
    assert!(p.frame_time_offset.is_none());
}

#[test]
fn spawn_particle_is_reproducible_from_the_seed() {
    let mut gen = gen_with(ExtInt::Int(2000));
    gen.set_particle_duration_dist(uniform_dist(Scalar::from_int(0), Scalar::from_int(10)));
    gen.set_particle_frame_time_offset_dist(uniform_dist(
        Scalar::from_int(0),
        Scalar::from_int(1),
    ));
    let mut r1 = Rng::new(99);
    let mut r2 = Rng::new(99);
    assert_eq!(gen.model.spawn_particle(&mut r1), gen.model.spawn_particle(&mut r2));
}
