use beescape::anim::AnimInfo;
use beescape::bee::{bee_collider, bee_transform, lerp_step, BeeFly};
use beescape::clouds::Cloud;
use beescape::game::{collisions, game_killer, GameInfo};
use beescape::geometry::{Aabb, Collider, Transform2};
use beescape::menu::{button_system, ButtonIdent, Interaction, MenuCommand, Rgb};
use beescape::pillars::{
    pillar_advance, pillar_collider, pillar_move, pillar_offscreen, pillar_score, score_one,
    Pillar, PillarShared,
};
use beescape::rng::sample_range;
use beescape::timer::RepeatingTimer;
use beescape::units::clamp64;
use beescape::GameState;

fn unit_transform() -> Transform2 {
    Transform2 { x: 0, y: 0, scale: 1000 }
}

#[test]
fn boxes_overlapping() {
    let a = Aabb::new(-10_000, 10_000, 10_000, -10_000);
    let b = Aabb::new(-10_000, 10_000, 10_000, -10_000);
    let ta = unit_transform();
    let tb = Transform2 { x: 5_000, y: 5_000, scale: 1000 };
    assert!(a.is_touching(&ta, &b, &tb));
    assert!(b.is_touching(&tb, &a, &ta));
}

#[test]
fn boxes_separated() {
    let a = Aabb::new(-10_000, 10_000, 10_000, -10_000);
    let b = Aabb::new(-10_000, 10_000, 10_000, -10_000);
    let ta = unit_transform();
    let tb = Transform2 { x: 30_000, y: 0, scale: 1000 };
    assert!(!a.is_touching(&ta, &b, &tb));
}

#[test]
fn boxes_meeting_at_an_edge_do_not_touch() {
    let a = Aabb::new(-10_000, 10_000, 10_000, -10_000);
    let b = Aabb::new(-10_000, 10_000, 10_000, -10_000);
    let ta = unit_transform();
    // b's left edge sits exactly on a's right edge: strict overlap fails.
    let tb = Transform2 { x: 20_000, y: 0, scale: 1000 };
    assert!(!a.is_touching(&ta, &b, &tb));
}

#[test]
fn scaled_corners() {
    // A pillar-scaled box: corners stretch by 2.5 around the translation.
    let a = Aabb::new(-24_000, 24_000, 1_000_000, 43_000);
    let t = Transform2 { x: 100_000, y: -7_000, scale: 2500 };
    let c = a.world_corners(&t);
    assert_eq!(c[0], (100_000 - 60_000, -7_000 + 2_500_000));
    assert_eq!(c[1], (100_000 + 60_000, -7_000 + 2_500_000));
    assert_eq!(c[2], (100_000 + 60_000, -7_000 + 107_500));
    assert_eq!(c[3], (100_000 - 60_000, -7_000 + 107_500));
}

#[test]
fn bee_fits_through_the_gap() {
    // A pillar centered on the bee: the bee's square sits inside the gap.
    let pillar_c = pillar_collider();
    let bee_c = bee_collider();
    let pillar_t = Transform2 { x: 0, y: 0, scale: 2500 };
    let bee_t = bee_transform(0, 0);
    assert!(!pillar_c.is_touching(&pillar_t, &bee_c, &bee_t));
}

#[test]
fn bee_hits_the_upper_half() {
    let pillar_c = pillar_collider();
    let bee_c = bee_collider();
    let pillar_t = Transform2 { x: 0, y: 0, scale: 2500 };
    // The upper half starts at world y 107_500; a bee at 100_000 reaches
    // up to 135_000 and overlaps it.
    let bee_t = bee_transform(0, 100_000);
    assert!(pillar_c.is_touching(&pillar_t, &bee_c, &bee_t));
}

#[test]
fn timer_accumulates_before_firing() {
    let mut t = RepeatingTimer::new(1000);
    assert!(!t.tick(400));
    assert_eq!(t.elapsed_ms, 400);
    assert!(!t.tick(400));
    assert_eq!(t.elapsed_ms, 800);
}

#[test]
fn timer_fires_and_keeps_the_remainder() {
    let mut t = RepeatingTimer::new(1000);
    assert!(t.tick(1200));
    assert_eq!(t.elapsed_ms, 200);
}

#[test]
fn expired_timer_fires_on_its_first_tick() {
    let mut t = RepeatingTimer::new_expired(2500);
    assert!(t.tick(1));
    assert_eq!(t.elapsed_ms, 1);
}

#[test]
fn shared_state_for_a_window() {
    let s = PillarShared::new(1_280_000);
    assert_eq!(s.x_vel, 150);
    assert_eq!(s.y_pos, 0);
    assert_eq!(s.y_vel, 0);
    assert_eq!(s.x_min, -740_000);
    assert_eq!(s.x_max, 740_000);
    assert_eq!(s.y_min, -200_000);
    assert_eq!(s.y_max, 200_000);
    assert_eq!(s.spawn_timer.duration_ms, 2500);
    assert_eq!(s.spawn_timer.elapsed_ms, 2500);
}

#[test]
fn jump_press_resets_the_velocity() {
    let mut s = PillarShared::new(1_280_000);
    s.y_vel = -9_000;
    s.jump_input(true, 16);
    assert_eq!(s.y_vel, 4000 - 160);
}

#[test]
fn gravity_bleeds_velocity_off() {
    let mut s = PillarShared::new(1_280_000);
    s.jump_input(false, 16);
    assert_eq!(s.y_vel, -160);
    s.jump_input(false, 16);
    assert_eq!(s.y_vel, -320);
}

#[test]
fn vertical_motion_clamps_at_the_band() {
    let mut s = PillarShared::new(1_280_000);
    s.y_pos = 199_000;
    s.y_vel = 4000;
    s.advance_y();
    assert_eq!(s.y_pos, 200_000);
    s.y_pos = -199_500;
    s.y_vel = -4000;
    s.advance_y();
    assert_eq!(s.y_pos, -200_000);
    s.y_pos = 0;
    s.y_vel = 3000;
    s.advance_y();
    assert_eq!(s.y_pos, 3000);
}

#[test]
fn pillars_scroll_and_despawn_past_the_right_bound() {
    let mut pillars = vec![
        Pillar { x: 0, y_offset: 0, passed_bee: false },
        Pillar { x: 700_000, y_offset: 5_000, passed_bee: true },
    ];
    // 150 milliunits per millisecond for 16 ms: 2400 milliunits.
    pillar_move(&mut pillars, 150, 16, 701_000);
    assert_eq!(pillars.len(), 1);
    assert_eq!(pillars[0], Pillar { x: 2400, y_offset: 0, passed_bee: false });
}

#[test]
fn one_pillar_scrolls_and_leaves() {
    let mut p = Pillar { x: 0, y_offset: 0, passed_bee: false };
    pillar_advance(&mut p, 150, 16);
    assert_eq!(p.x, 2400);
    assert!(!pillar_offscreen(&p, 2400));
    assert!(pillar_offscreen(&p, 2399));
}

#[test]
fn one_pillar_scores_only_once() {
    let mut info = GameInfo::new();
    let mut p = Pillar { x: 400_000, y_offset: 0, passed_bee: false };
    score_one(&mut p, &mut info, 350_000);
    assert_eq!(info.score, 1);
    assert!(p.passed_bee);
    score_one(&mut p, &mut info, 350_000);
    assert_eq!(info.score, 1);

    let mut behind = Pillar { x: 300_000, y_offset: 0, passed_bee: false };
    score_one(&mut behind, &mut info, 350_000);
    assert_eq!(info.score, 1);
    assert!(!behind.passed_bee);
}

#[test]
fn no_pillars_means_no_collision_and_no_score() {
    let mut info = GameInfo::new();
    let none: Vec<(Transform2, Collider)> = Vec::new();
    collisions(&bee_transform(0, 0), &bee_collider(), &none, &mut info);
    assert!(!info.is_dead);

    let mut pillars: Vec<Pillar> = Vec::new();
    pillar_score(&mut pillars, &mut info, 0);
    assert_eq!(info.score, 0);
    pillar_move(&mut pillars, 150, 16, 0);
    assert!(pillars.is_empty());
}

#[test]
fn scoring_marks_each_pillar_once() {
    let mut pillars = vec![
        Pillar { x: 400_000, y_offset: 0, passed_bee: false },
        Pillar { x: 300_000, y_offset: 0, passed_bee: false },
        Pillar { x: 500_000, y_offset: 0, passed_bee: true },
    ];
    let mut info = GameInfo::new();
    pillar_score(&mut pillars, &mut info, 350_000);
    assert_eq!(info.score, 1);
    assert!(pillars[0].passed_bee);
    assert!(!pillars[1].passed_bee);
    assert!(pillars[2].passed_bee);
    // The same frame again: nothing new passes.
    pillar_score(&mut pillars, &mut info, 350_000);
    assert_eq!(info.score, 1);
}

#[test]
fn spawner_adds_a_pillar_when_the_timer_fires() {
    let mut s = PillarShared::new(1_280_000);
    let mut pillars: Vec<Pillar> = Vec::new();
    s.pillar_spawner(&mut pillars, 16);
    assert_eq!(pillars.len(), 1);
    assert_eq!(pillars[0].x, s.x_min);
    assert!(!pillars[0].passed_bee);
    assert!(pillars[0].y_offset >= -100_000 && pillars[0].y_offset < 100_000);
    // Right after firing the timer holds only the remainder.
    assert_eq!(s.spawn_timer.elapsed_ms, 16);
    s.pillar_spawner(&mut pillars, 16);
    assert_eq!(pillars.len(), 1);
}

#[test]
fn spawned_offsets_stay_in_the_band() {
    let s = PillarShared::new(1_280_000);
    for _ in 0..50 {
        let p = s.spawn_pillar();
        assert!(p.y_offset >= -100_000 && p.y_offset < 100_000);
        assert_eq!(p.x, s.x_min);
        assert!(!p.passed_bee);
    }
}

#[test]
fn pillar_world_transform() {
    let mut s = PillarShared::new(1_280_000);
    s.y_pos = 12_000;
    let p = Pillar { x: -5_000, y_offset: -40_000, passed_bee: false };
    let t = s.pillar_transform(&p);
    assert_eq!(t, Transform2 { x: -5_000, y: -28_000, scale: 2500 });
    assert_eq!(s.pillar_y(&p), -28_000);
}

#[test]
fn lerp_moves_a_fraction_of_the_distance() {
    // 125 of 1250 ms: a tenth of the way.
    assert_eq!(lerp_step(0, 10_000, 125), 1_000);
    assert_eq!(lerp_step(10_000, 0, 125), 9_000);
    assert_eq!(lerp_step(-2_000, -2_000, 300), -2_000);
    assert_eq!(lerp_step(5_000, 5_500, 0), 5_000);
}

#[test]
fn resting_bee_heads_for_its_center() {
    let mut b = BeeFly::new(350_000, 0, 100_000, 220_000, 4000);
    assert_eq!(b.aim_x, 350_000);
    assert_eq!(b.aim_y, 0);
    let (nx, ny) = b.bee_fly(300_000, 10_000, 16);
    // The timer has not fired: the aim still sits at the center.
    assert_eq!(b.aim_x, 350_000);
    assert_eq!(b.aim_y, 0);
    // 16 of 1250 ms of the remaining distance, truncated toward zero.
    assert_eq!(nx, 300_000 + 50_000 * 16 / 1250);
    assert_eq!(ny, 10_000 - 10_000 * 16 / 1250);
}

#[test]
fn wander_aims_stay_in_the_window() {
    let mut b = BeeFly::new(0, 90_000, 1_200_000, 500_000, 2000);
    for _ in 0..50 {
        b.retarget();
        assert!(b.aim_x >= -600_000 && b.aim_x < 600_000);
        assert!(b.aim_y >= 90_000 - 250_000 && b.aim_y < 90_000 + 250_000);
    }
}

#[test]
fn drifters_scatter_inside_their_band() {
    for _ in 0..50 {
        let c = Cloud::scatter(1_280_000, 720_000, 500, 1_500);
        assert_eq!(c.left, -840_000);
        assert_eq!(c.right, 840_000);
        assert!(c.x >= c.left && c.x < c.right);
        assert!(c.y >= -360_000 && c.y < 360_000);
        assert!(c.vel >= 500 && c.vel < 1_500);
    }
}

#[test]
fn drifter_moves_left_and_wraps() {
    let mut c = Cloud { x: -839_000, y: 0, vel: 2_000, left: -840_000, right: 840_000 };
    c.drift();
    assert_eq!(c.x, 840_000);
    c.drift();
    assert_eq!(c.x, 838_000);
}

#[test]
fn animation_toggles_between_two_frames() {
    let mut a = AnimInfo::new(500, 2);
    assert_eq!(a.anim_handler(0, 100), 0);
    assert_eq!(a.anim_handler(0, 400), 1);
    assert_eq!(a.anim_handler(1, 500), 0);
}

#[test]
fn collision_with_any_pillar_ends_the_run() {
    let bee_c = bee_collider();
    let bee_t = bee_transform(350_000, 0);
    let clear_t = Transform2 { x: 350_000, y: 0, scale: 2500 };
    let hit_t = Transform2 { x: 350_000, y: 200_000, scale: 2500 };
    let mut info = GameInfo::new();

    let clear = vec![(clear_t, pillar_collider())];
    collisions(&bee_t, &bee_c, &clear, &mut info);
    assert!(!info.is_dead);

    // Shifted up, the gap moves off the bee and the lower half hits it.
    let hit = vec![(clear_t, pillar_collider()), (hit_t, pillar_collider())];
    collisions(&bee_t, &bee_c, &hit, &mut info);
    assert!(info.is_dead);

    // A dead run stays dead even once nothing touches.
    collisions(&bee_t, &bee_c, &clear, &mut info);
    assert!(info.is_dead);
    assert_eq!(info.score, 0);
}

#[test]
fn death_falls_back_to_the_menu() {
    let alive = GameInfo { score: 3, is_dead: false };
    let dead = GameInfo { score: 3, is_dead: true };
    assert_eq!(game_killer(&alive), None);
    assert_eq!(game_killer(&dead), Some(GameState::Menu));
}

#[test]
fn buttons_answer_the_pointer() {
    let pressed = Rgb { r: 1000, g: 840, b: 480 };
    let hovered = Rgb { r: 1000, g: 940, b: 570 };
    let normal = Rgb { r: 1000, g: 920, b: 800 };

    let (c, cmd) = button_system(&ButtonIdent::Play, &Interaction::Clicked);
    assert_eq!(c, pressed);
    assert_eq!(cmd, Some(MenuCommand::EnterState(GameState::Game)));

    let (c, cmd) = button_system(&ButtonIdent::Exit, &Interaction::Clicked);
    assert_eq!(c, pressed);
    assert_eq!(cmd, Some(MenuCommand::ExitApp));

    for b in [ButtonIdent::Play, ButtonIdent::Exit] {
        let (c, cmd) = button_system(&b, &Interaction::Hovered);
        assert_eq!(c, hovered);
        assert_eq!(cmd, None);
        let (c, cmd) = button_system(&b, &Interaction::Idle);
        assert_eq!(c, normal);
        assert_eq!(cmd, None);
    }
}

#[test]
fn samples_stay_in_their_interval() {
    for _ in 0..100 {
        let v = sample_range(-7, 5);
        assert!(v >= -7 && v < 5);
    }
}

#[test]
fn clamping_is_exact() {
    assert_eq!(clamp64(5, -3, 3), 3);
    assert_eq!(clamp64(-5, -3, 3), -3);
    assert_eq!(clamp64(2, -3, 3), 2);
}

#[test]
fn a_scored_run_across_frames() {
    // A pillar spawns off the left edge, scrolls past the bee's station and
    // scores exactly once before despawning at the right bound.
    let mut s = PillarShared::new(1_280_000);
    let mut pillars: Vec<Pillar> = Vec::new();
    let mut info = GameInfo::new();
    s.pillar_spawner(&mut pillars, 16);
    assert_eq!(pillars.len(), 1);

    let mut frames = 0u32;
    while !pillars.is_empty() && frames < 20_000 {
        pillar_move(&mut pillars, s.x_vel, 16, s.x_max);
        pillar_score(&mut pillars, &mut info, 350_000);
        frames += 1;
    }
    assert!(pillars.is_empty());
    assert_eq!(info.score, 1);
}
