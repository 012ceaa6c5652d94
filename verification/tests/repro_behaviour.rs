use egui::{pos2, vec2, Color32, Rect};
use owner_lag_repro::owner::{
    owner_at, topmost_tile_at, ui_owner_regions, InputOwner, OwnerRegion, ReproMode, ScreenTile,
};
use owner_lag_repro::repro::{
    reset_counts, PointerInput, ReproState, SceneEffect, ScenePlan, Scroll,
};
use owner_lag_repro::scene::{
    counts_line, d_pane_caption, owner_chip_text, Banner, LastEvent, SceneTile, SceneTiles,
    TileLayout,
};

fn layout(x: f32, y: f32) -> TileLayout {
    TileLayout { local_pos: pos2(x, y), size: vec2(270.0, 170.0) }
}

fn scene_tiles() -> SceneTiles {
    SceneTiles::from_layout(layout(80.0, 70.0), layout(185.0, 145.0), layout(290.0, 220.0))
}

fn scene_rect() -> Rect {
    Rect::from_min_max(pos2(44.0, 34.0), pos2(1136.0, 718.0))
}

/// The tile rectangles as a UI pass lays them out, from the tile origin.
fn tile_rects(tiles: &SceneTiles) -> Vec<ScreenTile> {
    let origin = scene_rect().min + vec2(26.0, 52.0);
    tiles
        .items
        .iter()
        .map(|t| ScreenTile { rect: Rect::from_min_size(origin + t.local_pos.to_vec2(), t.size) })
        .collect()
}

fn d_rect(tiles: &SceneTiles) -> Rect {
    let c = tile_rects(tiles)[2].rect;
    Rect::from_min_size(c.min + vec2(126.0, 48.0), vec2(132.0, 82.0))
}

/// A point on the visible left side of C (also inside B, which lies behind C).
fn on_c() -> egui::Pos2 {
    pos2(380.0, 400.0)
}

/// A point inside pane D.
fn on_d() -> egui::Pos2 {
    pos2(500.0, 400.0)
}

fn ui_pass(repro: &mut ReproState, tiles: &SceneTiles, pointer: Option<egui::Pos2>) {
    let regions = ui_owner_regions(scene_rect(), d_rect(tiles));
    repro.observe_pointer(&regions, pointer);
    repro.finish_egui_pass(regions, tile_rects(tiles));
}

fn input(pointer: egui::Pos2, held: bool, just: bool) -> PointerInput {
    PointerInput {
        pointer: Some(pointer),
        left_pressed: held,
        left_just_pressed: just,
        right_just_pressed: false,
        scroll: Scroll::Still,
    }
}

fn idle(pointer: Option<egui::Pos2>) -> PointerInput {
    PointerInput {
        pointer,
        left_pressed: false,
        left_just_pressed: false,
        right_just_pressed: false,
        scroll: Scroll::Still,
    }
}

#[test]
fn mode_labels_and_toggle() {
    assert_eq!(ReproMode::StaleOwnerPreUpdate.label(), "BUG: stale owner in PreUpdate");
    assert_eq!(ReproMode::CurrentPointerHitTest.label(), "FIX: current pointer hit-test");
    assert_eq!(ReproMode::StaleOwnerPreUpdate.toggle(), ReproMode::CurrentPointerHitTest);
    assert_eq!(ReproMode::CurrentPointerHitTest.toggle(), ReproMode::StaleOwnerPreUpdate);
}

#[test]
fn toggling_twice_restores_the_mode() {
    for m in [ReproMode::StaleOwnerPreUpdate, ReproMode::CurrentPointerHitTest] {
        assert_eq!(m.toggle().toggle(), m);
    }
}

#[test]
fn owner_labels_colors_and_default() {
    assert_eq!(InputOwner::Nobody.label(), "none");
    assert_eq!(InputOwner::Scene.label(), "scene");
    assert_eq!(InputOwner::DPane.label(), "D");
    assert_eq!(InputOwner::Nobody.color(), Color32::GRAY);
    assert_eq!(InputOwner::Scene.color(), Color32::from_rgb(65, 160, 105));
    assert_eq!(InputOwner::DPane.color(), Color32::from_rgb(235, 130, 65));
    assert_eq!(InputOwner::default(), InputOwner::Nobody);
}

#[test]
fn d_pane_wins_over_the_scene() {
    let tiles = scene_tiles();
    let regions = ui_owner_regions(scene_rect(), d_rect(&tiles));
    assert_eq!(regions.len(), 2);
    assert_eq!(regions[0].owner, InputOwner::Scene);
    assert_eq!(regions[0].priority, 0);
    assert_eq!(regions[1].owner, InputOwner::DPane);
    assert_eq!(regions[1].priority, 10);
    assert_eq!(owner_at(&regions, on_d()), InputOwner::DPane);
    assert_eq!(owner_at(&regions, on_c()), InputOwner::Scene);
    assert_eq!(owner_at(&regions, pos2(10.0, 10.0)), InputOwner::Nobody);
    // The edges of a rectangle belong to it.
    assert_eq!(owner_at(&regions, d_rect(&tiles).max), InputOwner::DPane);
}

#[test]
fn owner_at_prefers_the_last_of_equal_priorities() {
    let r = Rect::from_min_max(pos2(0.0, 0.0), pos2(10.0, 10.0));
    let regions = vec![
        OwnerRegion { rect: r, owner: InputOwner::DPane, priority: 3 },
        OwnerRegion { rect: r, owner: InputOwner::Scene, priority: 3 },
        OwnerRegion { rect: r, owner: InputOwner::DPane, priority: 1 },
    ];
    assert_eq!(owner_at(&regions, pos2(5.0, 5.0)), InputOwner::Scene);
    assert_eq!(owner_at(&[], pos2(5.0, 5.0)), InputOwner::Nobody);
}

#[test]
fn topmost_tile_is_the_last_that_contains_the_point() {
    let tiles = scene_tiles();
    let rects = tile_rects(&tiles);
    assert_eq!(topmost_tile_at(&rects, on_c()), Some(2));
    // Inside A and B, outside C: B is on top.
    assert_eq!(topmost_tile_at(&rects, pos2(300.0, 250.0)), Some(1));
    // Only A.
    assert_eq!(topmost_tile_at(&rects, pos2(160.0, 160.0)), Some(0));
    assert_eq!(topmost_tile_at(&rects, pos2(60.0, 60.0)), None);
    assert_eq!(topmost_tile_at(&[], pos2(60.0, 60.0)), None);
}

#[test]
fn starting_scene_and_state() {
    let tiles = scene_tiles();
    let labels: Vec<&str> = tiles.items.iter().map(|t| t.label).collect();
    assert_eq!(labels, vec!["A", "B", "C"]);
    assert!(tiles.items.iter().all(|t| t.value == 0));
    assert_eq!(tiles.items[0].color, Color32::from_rgb(0x3a, 0x86, 0xff));
    assert_eq!(tiles.items[1].color, Color32::from_rgb(0xff, 0x00, 0x6e));
    assert_eq!(tiles.items[2].color, Color32::from_rgb(0x83, 0xc5, 0xbe));
    assert_eq!(tiles.items[2].local_pos, pos2(290.0, 220.0));

    let repro = ReproState::default();
    assert_eq!(repro.mode, ReproMode::StaleOwnerPreUpdate);
    assert_eq!(repro.frame, 0);
    assert_eq!(repro.banner, None);
    assert_eq!(repro.last_event.text(), "Hold left mouse on C, then drag into D.");
}

#[test]
fn stale_mode_lets_the_drag_into_d_change_c() {
    let mut tiles = scene_tiles();
    let mut repro = ReproState::default();
    ui_pass(&mut repro, &tiles, Some(on_c()));

    // Press on the left side of C: C increments once, which is normal.
    repro.scene_input_in_preupdate(&mut tiles, &input(on_c(), true, true));
    assert_eq!(tiles.items[2].value, 1);
    assert_eq!(repro.banner, None);
    assert_eq!(repro.last_event.text(), "Frame 1: C changed from scene input.");
    ui_pass(&mut repro, &tiles, Some(on_c()));

    // Still holding, drag into D: the stale owner lets C change again.
    repro.scene_input_in_preupdate(&mut tiles, &input(on_d(), true, false));
    assert_eq!(repro.pointer_owner_now, InputOwner::DPane);
    assert_eq!(repro.owner_used_by_preupdate, InputOwner::Scene);
    assert_eq!(tiles.items[2].value, 2);
    assert_eq!(tiles.items[1].value, 0);
    assert_eq!(repro.banner, Some(Banner::Bug("C")));
    assert_eq!(repro.banner.unwrap().text(), "BUG: C changed while pointer was over D");
    assert_eq!(repro.last_event.text(), "Frame 2: C changed even though the pointer hit D.");
}

#[test]
fn fix_mode_blocks_the_drag_into_d() {
    let mut tiles = scene_tiles();
    let mut repro = ReproState::default();
    repro.toggle_mode();
    assert_eq!(repro.last_event.text(), "Mode: FIX: current pointer hit-test");
    ui_pass(&mut repro, &tiles, Some(on_c()));

    repro.scene_input_in_preupdate(&mut tiles, &input(on_c(), true, true));
    assert_eq!(tiles.items[2].value, 1);
    ui_pass(&mut repro, &tiles, Some(on_c()));

    repro.scene_input_in_preupdate(&mut tiles, &input(on_d(), true, false));
    assert_eq!(repro.pointer_owner_now, InputOwner::DPane);
    assert_eq!(repro.owner_used_by_preupdate, InputOwner::DPane);
    assert_eq!(tiles.items[2].value, 1);
    assert_eq!(repro.banner, Some(Banner::Blocked));
    assert_eq!(repro.banner.unwrap().text(), "OK: D blocked the scene input");
    assert_eq!(
        repro.last_event.text(),
        "Frame 2: D blocked the scene input. PreUpdate used owner = D."
    );
}

#[test]
fn no_input_changes_nothing() {
    let mut tiles = scene_tiles();
    let mut repro = ReproState::default();
    ui_pass(&mut repro, &tiles, Some(on_c()));
    repro.scene_input_in_preupdate(&mut tiles, &idle(Some(on_c())));
    assert_eq!(repro.frame, 1);
    assert!(tiles.items.iter().all(|t| t.value == 0));
    assert_eq!(repro.banner, None);
    assert_eq!(repro.last_event, LastEvent::Hint);
}

#[test]
fn wheel_and_right_click_move_the_topmost_tile() {
    let mut tiles = scene_tiles();
    let mut repro = ReproState::default();
    ui_pass(&mut repro, &tiles, Some(pos2(300.0, 250.0)));
    let mut down = idle(Some(pos2(300.0, 250.0)));
    down.scroll = Scroll::Down;
    repro.scene_input_in_preupdate(&mut tiles, &down);
    assert_eq!(tiles.items[1].value, -1);
    let mut right = idle(Some(pos2(300.0, 250.0)));
    right.right_just_pressed = true;
    repro.scene_input_in_preupdate(&mut tiles, &right);
    assert_eq!(tiles.items[1].value, -2);
    // The wheel wins over a click in the same frame.
    let mut both = idle(Some(pos2(300.0, 250.0)));
    both.right_just_pressed = true;
    both.scroll = Scroll::Up;
    repro.scene_input_in_preupdate(&mut tiles, &both);
    assert_eq!(tiles.items[1].value, -1);
    assert_eq!(repro.frame, 3);
}

#[test]
fn input_outside_every_tile_changes_nothing() {
    let mut tiles = scene_tiles();
    let mut repro = ReproState::default();
    let corner = pos2(60.0, 60.0);
    ui_pass(&mut repro, &tiles, Some(corner));
    let plan = repro.plan_scene_input(&input(corner, true, true));
    assert_eq!(
        plan,
        ScenePlan {
            hit: InputOwner::Scene,
            owner_used: InputOwner::Scene,
            effect: SceneEffect::NoTarget
        }
    );
    repro.scene_input_in_preupdate(&mut tiles, &input(corner, true, true));
    assert!(tiles.items.iter().all(|t| t.value == 0));
    // Without a pointer, the scene has no target either.
    let plan = repro.plan_scene_input(&idle(None));
    assert_eq!(plan.hit, InputOwner::Nobody);
}

#[test]
fn stale_owner_outside_the_scene_blocks_input() {
    let mut tiles = scene_tiles();
    let mut repro = ReproState::default();
    // The last UI pass saw the pointer outside every region.
    ui_pass(&mut repro, &tiles, Some(pos2(5.0, 5.0)));
    repro.scene_input_in_preupdate(&mut tiles, &input(on_c(), true, true));
    assert_eq!(repro.owner_used_by_preupdate, InputOwner::Nobody);
    assert_eq!(tiles.items[2].value, 0);
    assert_eq!(repro.banner, Some(Banner::Blocked));
    assert_eq!(
        repro.last_event.text(),
        "Frame 1: D blocked the scene input. PreUpdate used owner = none."
    );
}

#[test]
fn plan_fits_only_within_the_counter_range() {
    let mut tiles = scene_tiles();
    tiles.items[2].value = i32::MAX;
    let up = ScenePlan {
        hit: InputOwner::Scene,
        owner_used: InputOwner::Scene,
        effect: SceneEffect::Change { tile: 2, delta: 1 },
    };
    assert!(!up.fits(&tiles));
    let down = ScenePlan { effect: SceneEffect::Change { tile: 2, delta: -1 }, ..up };
    assert!(down.fits(&tiles));
    let missing = ScenePlan { effect: SceneEffect::Change { tile: 3, delta: 1 }, ..up };
    assert!(!missing.fits(&tiles));
    let blocked = ScenePlan { effect: SceneEffect::Blocked, ..up };
    assert!(blocked.fits(&tiles));
}

#[test]
fn d_pane_counts_clicks_and_wheel() {
    let mut repro = ReproState::default();
    repro.d_pane_input(true, false, true, Scroll::Up);
    assert_eq!(repro.d_value, 2);
    assert_eq!(repro.banner, Some(Banner::DHandled));
    assert_eq!(repro.banner.unwrap().text(), "D handled the UI event");
    repro.d_pane_input(false, true, false, Scroll::Down);
    assert_eq!(repro.d_value, 1);
    // The wheel counts only while hovered.
    repro.d_pane_input(false, false, false, Scroll::Down);
    assert_eq!(repro.d_value, 1);
    repro.d_pane_input(false, false, true, Scroll::Down);
    assert_eq!(repro.d_value, 0);
    // An existing banner stays.
    repro.banner = Some(Banner::Blocked);
    repro.d_pane_input(true, false, false, Scroll::Still);
    assert_eq!(repro.banner, Some(Banner::Blocked));
    // Nothing handled: no banner appears.
    repro.banner = None;
    repro.d_pane_input(false, false, true, Scroll::Still);
    assert_eq!(repro.banner, None);
}

#[test]
fn reset_clears_counters_and_banner() {
    let mut tiles = scene_tiles();
    let mut repro = ReproState::default();
    tiles.items[0].value = 4;
    tiles.items[2].value = -7;
    repro.d_value = 3;
    repro.banner = Some(Banner::Bug("C"));
    repro.frame = 9;
    reset_counts(&mut tiles, &mut repro);
    assert!(tiles.items.iter().all(|t| t.value == 0));
    assert_eq!(tiles.items[2].label, "C");
    assert_eq!(repro.d_value, 0);
    assert_eq!(repro.banner, None);
    assert_eq!(repro.frame, 9);
    assert_eq!(repro.last_event.text(), "Reset A/B/C/D.");
}

#[test]
fn toggle_clears_the_banner() {
    let mut repro = ReproState::default();
    repro.banner = Some(Banner::Blocked);
    repro.toggle_mode();
    repro.toggle_mode();
    assert_eq!(repro.mode, ReproMode::StaleOwnerPreUpdate);
    assert_eq!(repro.banner, None);
    assert_eq!(repro.last_event.text(), "Mode: BUG: stale owner in PreUpdate");
}

#[test]
fn texts_render_counters_in_decimal() {
    let mut tiles = scene_tiles();
    tiles.items[0].value = 12;
    tiles.items[1].value = -305;
    tiles.items[2].value = i32::MIN;
    assert_eq!(counts_line(&tiles, 0), "A:12  B:-305  C:-2147483648  D:0");
    assert_eq!(d_pane_caption(-1), "UI pane D\nD: -1");
    assert_eq!(tiles.items[1].caption(), "B -305");
    assert_eq!(owner_chip_text("pointer over", InputOwner::DPane), "pointer over: D");
    let blocked = LastEvent::Blocked { frame: u64::MAX, owner: InputOwner::Scene };
    assert_eq!(
        blocked.text(),
        "Frame 18446744073709551615: D blocked the scene input. PreUpdate used owner = scene."
    );
    let changed = LastEvent::SceneChanged { frame: 1000, tile: "A" };
    assert_eq!(changed.text(), "Frame 1000: A changed from scene input.");
}

#[test]
fn banner_colors() {
    assert_eq!(Banner::Bug("A").color(), Color32::from_rgb(210, 48, 48));
    assert_eq!(Banner::Blocked.color(), Color32::from_rgb(55, 130, 85));
    assert_eq!(Banner::DHandled.color(), Color32::from_rgb(55, 110, 180));
}

#[test]
fn scene_tile_copy_keeps_fields() {
    let tiles = scene_tiles();
    let t: SceneTile = tiles.items[0];
    assert_eq!(t.label, "A");
    assert_eq!(t.size, vec2(270.0, 170.0));
}
