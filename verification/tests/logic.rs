use rumia::enemy::{action_at, EnemyPool};
use rumia::palette::{get_color, init_pico_palette, white, Rgba};
use rumia::particle::ParticleSystem;
use rumia::rumia::{init_sprite_rect, shift_trajectory, Controls, Frame, Heading, RumiaState, SpriteRect};
use rumia::table::{str_equal, NameTable};
use rumia::trail::Trail;
use rumia::weapon::{ShotPlan, WeaponType};

fn rgba(r: u8, g: u8, b: u8, a: u8) -> Rgba {
    Rgba { r, g, b, a }
}

fn no_keys() -> Controls {
    Controls {
        up: false,
        down: false,
        left: false,
        right: false,
        slow: false,
        select_first: false,
        select_second: false,
        fire: false,
    }
}

#[test]
fn str_equal_compares_every_character() {
    assert!(str_equal("mid_1", "mid_1"));
    assert!(!str_equal("mid_1", "mid_2"));
    assert!(!str_equal("mid", "mid_1"));
    assert!(str_equal("", ""));
}

#[test]
fn name_table_insert_replaces_and_get_misses() {
    let mut t: NameTable<u32> = NameTable::new();
    assert_eq!(t.get("a"), None);
    t.insert("a", 1);
    t.insert("b", 2);
    t.insert("a", 3);
    assert_eq!(t.get("a"), Some(&3));
    assert_eq!(t.get("b"), Some(&2));
    assert_eq!(t.get("c"), None);
}

#[test]
fn pico_palette_holds_the_sixteen_colours() {
    let p = init_pico_palette();
    let expected = [
        ("black", rgba(0, 0, 0, 255)),
        ("dark_blue", rgba(29, 43, 83, 255)),
        ("dark_purple", rgba(126, 37, 83, 255)),
        ("dark_green", rgba(0, 135, 81, 255)),
        ("brown", rgba(171, 82, 54, 255)),
        ("dark_gray", rgba(95, 87, 79, 255)),
        ("light_gray", rgba(194, 195, 199, 255)),
        ("white", rgba(255, 241, 232, 255)),
        ("red", rgba(255, 0, 77, 255)),
        ("orange", rgba(255, 163, 0, 255)),
        ("yellow", rgba(255, 236, 39, 255)),
        ("green", rgba(0, 228, 54, 255)),
        ("blue", rgba(41, 173, 255, 255)),
        ("indigo", rgba(131, 118, 156, 255)),
        ("pink", rgba(255, 119, 168, 255)),
        ("peach", rgba(255, 204, 170, 255)),
    ];
    for (name, colour) in expected.iter() {
        assert_eq!(get_color(Some(&p), name), *colour);
    }
}

#[test]
fn get_color_falls_back_to_white() {
    let p = init_pico_palette();
    assert_eq!(white(), rgba(255, 255, 255, 255));
    assert_eq!(get_color(Some(&p), "purple"), rgba(255, 255, 255, 255));
    assert_eq!(get_color(None, "red"), rgba(255, 255, 255, 255));
    assert_ne!(get_color(Some(&p), "white"), white());
}

#[test]
fn trail_never_reaches_its_limit() {
    let mut t: Trail<u32> = Trail::new(8);
    for i in 0..20u32 {
        t.record(i);
        assert!(t.len() < 8);
    }
    assert_eq!(t.len(), 7);
    let pts: Vec<u32> = t.points().iter().copied().collect();
    assert_eq!(pts, vec![19, 18, 17, 16, 15, 14, 13]);
    assert_eq!(t.max_trail_length(), 8);
}

#[test]
fn trail_grows_one_point_per_record_below_the_limit() {
    let mut t: Trail<u32> = Trail::new(12);
    t.record(1);
    t.record(2);
    t.record(3);
    let pts: Vec<u32> = t.points().iter().copied().collect();
    assert_eq!(pts, vec![3, 2, 1]);
}

#[test]
fn trail_of_limit_one_or_zero_stays_empty() {
    let mut one: Trail<u32> = Trail::new(1);
    one.record(5);
    one.record(6);
    assert_eq!(one.len(), 0);
    let mut zero: Trail<u32> = Trail::new(0);
    zero.record(5);
    assert_eq!(zero.len(), 0);
}

#[test]
fn particle_pool_starts_free() {
    let pool: ParticleSystem<u32> = ParticleSystem::new(3, 0);
    assert_eq!(pool.slots().len(), 3);
    assert!(pool.slots().iter().all(|s| !s.is_active && s.body == 0));
}

#[test]
fn emit_takes_the_first_free_slot() {
    let mut pool: ParticleSystem<u32> = ParticleSystem::new(3, 0);
    pool.emit(10);
    pool.emit(20);
    let s = pool.slots();
    assert!(s[0].is_active && s[0].body == 10);
    assert!(s[1].is_active && s[1].body == 20);
    assert!(!s[2].is_active);
    // the first particle dies; the next emission reuses its slot
    pool.update(|b: u32| (b + 1, b != 10));
    assert!(!pool.slots()[0].is_active);
    assert_eq!(pool.slots()[1].body, 21);
    pool.emit(30);
    assert!(pool.slots()[0].is_active && pool.slots()[0].body == 30);
    assert!(!pool.slots()[2].is_active);
}

#[test]
fn emit_into_a_full_pool_changes_nothing() {
    let mut pool: ParticleSystem<u32> = ParticleSystem::new(2, 0);
    pool.emit(1);
    pool.emit(2);
    pool.emit(3);
    let bodies: Vec<u32> = pool.slots().iter().map(|s| s.body).collect();
    assert_eq!(bodies, vec![1, 2]);
    assert!(pool.slots().iter().all(|s| s.is_active));
}

#[test]
fn update_leaves_free_slots_alone() {
    let mut pool: ParticleSystem<u32> = ParticleSystem::new(2, 7);
    pool.emit(1);
    pool.update(|b: u32| (b * 100, true));
    assert_eq!(pool.slots()[0].body, 100);
    assert!(!pool.slots()[1].is_active);
    assert_eq!(pool.slots()[1].body, 7);
}

#[test]
fn enemy_pool_spawns_in_order() {
    let mut pool: EnemyPool<&str> = EnemyPool::new();
    assert!(pool.enemies.is_empty());
    pool.spawn("punching");
    pool.spawn("fairy");
    assert_eq!(pool.enemies, vec!["punching", "fairy"]);
}

#[test]
fn action_at_falls_back_outside_the_script() {
    let actions = vec![4u32, 5, 6];
    assert_eq!(action_at(&actions, 1, 0), 5);
    assert_eq!(action_at(&actions, 3, 0), 0);
    let none: Vec<u32> = Vec::new();
    assert_eq!(action_at(&none, 0, 9), 9);
}

#[test]
fn straight_weapon_fires_two_parallel_shots() {
    assert_eq!(
        WeaponType::Straight.shot_plan(),
        vec![
            ShotPlan { y_offset: -5, max_trail_length: 8 },
            ShotPlan { y_offset: 5, max_trail_length: 8 }
        ]
    );
}

#[test]
fn tracking_weapon_fires_one_shot() {
    assert_eq!(WeaponType::Tracking.shot_plan(), vec![ShotPlan { y_offset: 0, max_trail_length: 12 }]);
}

#[test]
fn sprite_sheet_rectangles() {
    let sheet = init_sprite_rect();
    assert_eq!(sheet.get("mid_1"), Some(&SpriteRect { x: 0, y: 0, w: 16, h: 16 }));
    assert_eq!(sheet.get("mid_4"), Some(&SpriteRect { x: 0, y: 48, w: 16, h: 16 }));
    assert_eq!(sheet.get("right"), Some(&SpriteRect { x: 16, y: 0, w: 16, h: 16 }));
    assert_eq!(sheet.get("left"), Some(&SpriteRect { x: 32, y: 0, w: 16, h: 16 }));
    assert_eq!(sheet.get("N"), None);
}

#[test]
fn rumia_starts_idle_with_the_first_weapon() {
    let s = RumiaState::new();
    assert_eq!(s.heading(), Heading::Mid);
    assert_eq!(s.animation_idx(), 1);
    assert_eq!(s.animation_frame(), Frame::Mid1);
    assert_eq!(s.weapon_idx(), 0);
    assert_eq!(s.animation_sprite(), Some(SpriteRect { x: 0, y: 0, w: 16, h: 16 }));
    assert_eq!(s.direction_sprite(), None);
}

#[test]
fn steering_reads_the_keys() {
    let mut s = RumiaState::new();
    let mut c = no_keys();
    c.up = true;
    c.left = true;
    c.slow = true;
    let st = s.steer(&c);
    assert_eq!((st.vx, st.vy, st.slow), (-1, -1, true));
    assert_eq!(s.heading(), Heading::Left);
    assert_eq!(s.animation_frame(), Frame::Left);
    assert_eq!(s.animation_sprite(), Some(SpriteRect { x: 32, y: 0, w: 16, h: 16 }));

    let mut both = no_keys();
    both.left = true;
    both.right = true;
    both.up = true;
    both.down = true;
    let st = s.steer(&both);
    assert_eq!((st.vx, st.vy), (0, 0));
    assert_eq!(s.heading(), Heading::Right);
    assert_eq!(s.animation_frame(), Frame::Right);

    let st = s.steer(&no_keys());
    assert_eq!((st.vx, st.vy, st.slow), (0, 0, false));
    assert_eq!(s.heading(), Heading::Mid);
    // the frame stays until the animation moves on
    assert_eq!(s.animation_frame(), Frame::Right);
}

#[test]
fn weapon_keys_select_a_weapon() {
    let mut s = RumiaState::new();
    let mut c = no_keys();
    c.select_second = true;
    s.steer(&c);
    assert_eq!(s.weapon_idx(), 1);
    s.steer(&no_keys());
    assert_eq!(s.weapon_idx(), 1);
    c.select_first = true;
    s.steer(&c);
    assert_eq!(s.weapon_idx(), 1);
    let mut first = no_keys();
    first.select_first = true;
    s.steer(&first);
    assert_eq!(s.weapon_idx(), 0);
}

#[test]
fn idle_animation_cycles_through_four_frames() {
    let mut s = RumiaState::new();
    s.advance_animation();
    assert_eq!((s.animation_idx(), s.animation_frame()), (2, Frame::Mid3));
    s.advance_animation();
    assert_eq!((s.animation_idx(), s.animation_frame()), (3, Frame::Mid4));
    s.advance_animation();
    assert_eq!((s.animation_idx(), s.animation_frame()), (0, Frame::Mid1));
    s.advance_animation();
    assert_eq!((s.animation_idx(), s.animation_frame()), (1, Frame::Mid2));
    assert_eq!(s.animation_sprite(), Some(SpriteRect { x: 0, y: 16, w: 16, h: 16 }));
}

#[test]
fn weapon_choice_for_cooldown_and_fire() {
    let mut s = RumiaState::new();
    assert_eq!(s.weapon_to_update(0), None);
    assert_eq!(s.weapon_to_update(2), Some(0));
    assert_eq!(s.weapon_to_fire(2, false), None);
    assert_eq!(s.weapon_to_fire(0, true), None);
    let mut c = no_keys();
    c.select_second = true;
    s.steer(&c);
    assert_eq!(s.weapon_to_fire(2, true), Some(1));
}

#[test]
fn trajectory_shifts_one_place_back() {
    let mut t = [1, 2, 3, 4, 5];
    shift_trajectory(&mut t, 9);
    assert_eq!(t, [9, 1, 2, 3, 4]);
    let mut empty: [i32; 0] = [];
    shift_trajectory(&mut empty, 9);
    assert_eq!(empty.len(), 0);
}

#[test]
fn frame_names_match_the_sheet() {
    let sheet = init_sprite_rect();
    for f in [Frame::Mid1, Frame::Mid2, Frame::Mid3, Frame::Mid4, Frame::Left, Frame::Right] {
        assert!(sheet.get(f.name()).is_some());
    }
    assert_eq!(Frame::Mid3.name(), "mid_3");
}

#[test]
fn weapon_to_fire_needs_no_valid_weapon_when_not_firing() {
    let s = RumiaState::new();
    assert_eq!(s.weapon_to_fire(1, false), None);
}

#[test]
fn trail_after_k_records_holds_the_newest_min_k_m_minus_one() {
    for m in 1..6usize {
        for k in 0..10u32 {
            let mut t: Trail<u32> = Trail::new(m);
            for p in 0..k {
                t.record(p);
            }
            let expect_len = std::cmp::min(k as usize, m - 1);
            assert_eq!(t.len(), expect_len);
            for (j, p) in t.points().iter().enumerate() {
                assert_eq!(*p, k - 1 - j as u32);
            }
        }
    }
}
