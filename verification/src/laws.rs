//! What holds of the repro as a whole: the mode switch undoes itself, pane D
//! wins over the scene where they overlap, the fixed mode never lets an input
//! through pane D, the stale mode can, and a scene input moves at most the
//! topmost tile by one.

use vstd::prelude::*;
use crate::owner::{
    InputOwner, ReproMode, is_top_region, is_topmost_tile, owner_at_spec, toggled,
    topmost_tile_spec, ui_regions_spec,
};
use crate::repro::{
    PointerInput, ReproState, SceneEffect, Scroll, banner_after, d_click_delta, d_scroll_delta,
    raw_delta, tiles_after, zeroed,
};
use crate::scene::{Banner, SceneTile, counts_text, d_pane_text};
use crate::text::{decimal, signed_decimal, lemma_signed_decimal_sign};
use crate::ui_types::rect_contains;

verus! {

/// Switching the mode twice gives back the mode one started from.
pub proof fn lemma_toggle_twice(mode: ReproMode)
    ensures
        toggled(toggled(mode)) == mode,
        toggled(mode) != mode,
{
}

/// Of the regions that a UI pass publishes, pane D owns every point it
/// contains; the scene owns the other points it contains; elsewhere nobody
/// owns the pointer.
pub proof fn lemma_d_pane_over_scene(scene_rect: egui::Rect, d_rect: egui::Rect, pos: egui::Pos2)
    ensures
        rect_contains(d_rect, pos) ==> owner_at_spec(ui_regions_spec(scene_rect, d_rect), pos)
            == InputOwner::DPane,
        !rect_contains(d_rect, pos) && rect_contains(scene_rect, pos) ==> owner_at_spec(
            ui_regions_spec(scene_rect, d_rect),
            pos,
        ) == InputOwner::Scene,
        !rect_contains(d_rect, pos) && !rect_contains(scene_rect, pos) ==> owner_at_spec(
            ui_regions_spec(scene_rect, d_rect),
            pos,
        ) == InputOwner::Nobody,
{
    let regions = ui_regions_spec(scene_rect, d_rect);
    assert(regions[0].rect == scene_rect);
    assert(regions[1].rect == d_rect);
    if rect_contains(d_rect, pos) {
        assert(is_top_region(regions, pos, 1));
        let k = choose|k: int| is_top_region(regions, pos, k);
        crate::owner::lemma_top_region_unique(regions, pos, 1, k);
    } else if rect_contains(scene_rect, pos) {
        assert(is_top_region(regions, pos, 0));
        let k = choose|k: int| is_top_region(regions, pos, k);
        crate::owner::lemma_top_region_unique(regions, pos, 0, k);
    } else {
        assert forall|k: int| !is_top_region(regions, pos, k) by {
            if 0 <= k < 2 {
                assert(regions[k].rect == scene_rect || regions[k].rect == d_rect);
            }
        }
    }
}

/// Whatever the mode, a tile changes only when the gating owner is the scene,
/// and then it is the topmost tile under the pointer and its counter moves by
/// exactly one.
pub proof fn lemma_scene_changes_only_topmost_tile(state: ReproState, input: PointerInput)
    ensures
        state.scene_plan(input).effect matches SceneEffect::Change { tile, delta } ==> {
            &&& state.scene_plan(input).owner_used == InputOwner::Scene
            &&& input.pointer matches Some(pos)
            &&& is_topmost_tile(state.tile_rects_from_last_egui_pass@, pos, tile as int)
            &&& (delta == 1 || delta == -1)
        },
{
    if let Some(pos) = input.pointer {
        let tiles = state.tile_rects_from_last_egui_pass@;
        if exists|i: int| is_topmost_tile(tiles, pos, i) {
            let i = choose|i: int| is_topmost_tile(tiles, pos, i);
            assert(tiles.len() == state.tile_rects_from_last_egui_pass.len());
            assert(topmost_tile_spec(tiles, pos) == Some(i));
            assert(i as usize as int == i);
        }
    }
}

/// A scene input moves the counter of one tile at most: every other tile is
/// left as it was.
pub proof fn lemma_scene_input_touches_one_tile(
    state: ReproState,
    input: PointerInput,
    items: Seq<SceneTile>,
    j: int,
)
    requires
        state.scene_plan(input).fits_tiles(items),
        0 <= j < items.len(),
        !(state.scene_plan(input).effect matches SceneEffect::Change { tile, delta } && tile == j),
    ensures
        tiles_after(items, state.scene_plan(input).effect)[j] == items[j],
        tiles_after(items, state.scene_plan(input).effect).len() == items.len(),
{
}

/// In the stale mode, the owner that gates scene input is the one that the
/// previous UI pass resolved, wherever the pointer is now.
pub proof fn lemma_stale_mode_gates_with_previous_pass(state: ReproState, input: PointerInput)
    requires
        state.mode == ReproMode::StaleOwnerPreUpdate,
    ensures
        state.scene_plan(input).owner_used == state.owner_from_last_egui_pass,
{
}

/// In the fixed mode, the owner that gates scene input is the hit test of the
/// current pointer against the regions that the last UI pass published.
pub proof fn lemma_fix_mode_gates_with_current_hit(
    state: ReproState,
    input: PointerInput,
    pos: egui::Pos2,
)
    requires
        state.mode == ReproMode::CurrentPointerHitTest,
        input.pointer == Some(pos),
    ensures
        state.scene_plan(input).owner_used == owner_at_spec(
            state.owner_regions_from_last_egui_pass@,
            pos,
        ),
        state.scene_plan(input).owner_used == state.scene_plan(input).hit,
{
}

/// In the fixed mode, while the current pointer hits pane D, no scene tile
/// changes: an input is blocked, and no input does nothing.
pub proof fn lemma_fix_mode_blocks_scene_under_d(state: ReproState, input: PointerInput)
    requires
        state.mode == ReproMode::CurrentPointerHitTest,
        state.hit_owner(input.pointer) == InputOwner::DPane,
    ensures
        state.scene_plan(input).effect == (if state.scene_delta(input) != 0 {
            SceneEffect::Blocked
        } else {
            SceneEffect::Idle
        }),
{
}

/// In the fixed mode the `Bug` banner never appears: a scene input either
/// leaves the banner as it was, or shows `Blocked`, or clears it.
pub proof fn lemma_fix_mode_never_reports_pass_through(
    state: ReproState,
    input: PointerInput,
    items: Seq<SceneTile>,
)
    requires
        state.mode == ReproMode::CurrentPointerHitTest,
    ensures
        state.scene_plan(input).effect is Change ==> state.scene_plan(input).hit
            == InputOwner::Scene,
        banner_after(state.banner, state.scene_plan(input), items) == state.banner
            || banner_after(state.banner, state.scene_plan(input), items) == Some(Banner::Blocked)
            || banner_after(state.banner, state.scene_plan(input), items) is None,
{
}

/// Holding the left button and dragging from the scene into pane D is an
/// input of one, with no click or wheel needed.
pub proof fn lemma_drag_into_d_is_an_input(state: ReproState, input: PointerInput)
    requires
        raw_delta(input) == 0,
        input.left_pressed,
        state.pointer_owner_seen_by_preupdate == InputOwner::Scene,
        state.hit_owner(input.pointer) == InputOwner::DPane,
    ensures
        state.scene_delta(input) == 1,
{
}

/// The repro: in the stale mode, when the previous UI pass saw the pointer
/// over the scene and the pointer is dragged into pane D over a tile, that
/// tile's counter goes up by one and the `Bug` banner names it.
pub proof fn lemma_stale_mode_lets_drag_through_d(
    state: ReproState,
    input: PointerInput,
    items: Seq<SceneTile>,
)
    requires
        state.mode == ReproMode::StaleOwnerPreUpdate,
        state.owner_from_last_egui_pass == InputOwner::Scene,
        raw_delta(input) == 0,
        input.left_pressed,
        state.pointer_owner_seen_by_preupdate == InputOwner::Scene,
        state.hit_owner(input.pointer) == InputOwner::DPane,
        input.pointer matches Some(pos) && topmost_tile_spec(
            state.tile_rects_from_last_egui_pass@,
            pos,
        ) is Some,
    ensures
        state.scene_plan(input).effect matches SceneEffect::Change { tile, delta } && delta == 1
            && banner_after(state.banner, state.scene_plan(input), items) == Some(
            Banner::Bug(items[tile as int].label),
        ),
{
}

/// The fix: in the fixed mode the same drag into pane D is blocked, and the
/// `Blocked` banner shows.
pub proof fn lemma_fix_mode_blocks_drag_into_d(
    state: ReproState,
    input: PointerInput,
    items: Seq<SceneTile>,
)
    requires
        state.mode == ReproMode::CurrentPointerHitTest,
        raw_delta(input) == 0,
        input.left_pressed,
        state.pointer_owner_seen_by_preupdate == InputOwner::Scene,
        state.hit_owner(input.pointer) == InputOwner::DPane,
    ensures
        state.scene_plan(input).effect == SceneEffect::Blocked,
        banner_after(state.banner, state.scene_plan(input), items) == Some(Banner::Blocked),
{
}

/// Without any input, a frame of scene input changes no tile and leaves the
/// banner alone, in either mode.
pub proof fn lemma_no_input_no_change(
    state: ReproState,
    input: PointerInput,
    items: Seq<SceneTile>,
)
    requires
        input.scroll == Scroll::Still,
        !input.left_just_pressed,
        !input.right_just_pressed,
        !input.left_pressed,
    ensures
        state.scene_plan(input).effect == SceneEffect::Idle,
        tiles_after(items, state.scene_plan(input).effect) == items,
        banner_after(state.banner, state.scene_plan(input), items) == state.banner,
{
}

/// Without a click or the wheel, holding (or not holding) the left button is
/// no scene input unless the current pointer hits pane D: every counter, the
/// banner and the last event stay as they were.
pub proof fn lemma_holding_on_scene_is_no_input(
    state: ReproState,
    input: PointerInput,
    items: Seq<SceneTile>,
)
    requires
        input.scroll == Scroll::Still,
        !input.left_just_pressed,
        !input.right_just_pressed,
        state.hit_owner(input.pointer) != InputOwner::DPane,
    ensures
        state.scene_delta(input) == 0,
        state.scene_plan(input).effect == SceneEffect::Idle,
        tiles_after(items, state.scene_plan(input).effect) == items,
        banner_after(state.banner, state.scene_plan(input), items) == state.banner,
{
}

/// A scene input that changes a tile while the current pointer is not over
/// pane D clears the banner; one that changes a tile while the pointer is
/// over D shows the `Bug` banner naming that tile.
pub proof fn lemma_scene_change_banner(
    state: ReproState,
    input: PointerInput,
    items: Seq<SceneTile>,
)
    ensures
        state.scene_plan(input).effect matches SceneEffect::Change { tile, delta } ==> {
            &&& state.scene_plan(input).hit != InputOwner::DPane ==> banner_after(
                state.banner,
                state.scene_plan(input),
                items,
            ) is None
            &&& state.scene_plan(input).hit == InputOwner::DPane ==> banner_after(
                state.banner,
                state.scene_plan(input),
                items,
            ) == Some(Banner::Bug(items[tile as int].label))
        },
{
}

/// The wheel counts for pane D only while D is hovered: off D it changes
/// nothing, whichever way it turns; on D it adds one up and takes one down.
pub proof fn lemma_wheel_counts_only_over_d(scroll: Scroll)
    ensures
        d_scroll_delta(false, scroll) == 0,
        d_scroll_delta(true, Scroll::Up) == 1,
        d_scroll_delta(true, Scroll::Down) == -1,
        d_scroll_delta(true, Scroll::Still) == 0,
        d_click_delta(false, false) == 0,
{
}

/// The counter line ends with D's counter written exactly as pane D writes it
/// (sign included), and a counter is written with a leading `-` exactly when
/// it is negative.
pub proof fn lemma_counts_line_renders_d_like_pane(a: i32, b: i32, c: i32, d: i32)
    ensures
        counts_text(a, b, c, d).skip(counts_text(a, b, c, d).len() - signed_decimal(d as int).len())
            == d_pane_text(d).skip(d_pane_text(d).len() - signed_decimal(d as int).len()),
        counts_text(a, b, c, d).skip(counts_text(a, b, c, 0).len() - 1) == signed_decimal(
            d as int,
        ),
        (signed_decimal(d as int)[0] == '-') == (d < 0),
        d < 0 ==> signed_decimal(d as int).skip(1) == decimal((-d) as nat),
{
    reveal_strlit("A:");
    reveal_strlit("  B:");
    reveal_strlit("  C:");
    reveal_strlit("  D:");
    lemma_signed_decimal_sign(d as int);
    assert(decimal(0) == seq!['0']);
    assert(signed_decimal(0) =~= seq!['0']);
    let prefix = "A:"@ + signed_decimal(a as int) + "  B:"@ + signed_decimal(b as int) + "  C:"@
        + signed_decimal(c as int) + "  D:"@;
    assert(counts_text(a, b, c, d) =~= prefix + signed_decimal(d as int));
    assert(counts_text(a, b, c, 0) =~= prefix + signed_decimal(0));
    assert(counts_text(a, b, c, d).skip(prefix.len() as int) =~= signed_decimal(d as int));
    let caption = "UI pane D\nD: "@;
    assert(d_pane_text(d) =~= caption + signed_decimal(d as int));
    assert(d_pane_text(d).skip(caption.len() as int) =~= signed_decimal(d as int));
}

/// A reset sets a tile's counter to zero, whatever it was, and keeps the
/// tile's label, colour and place.
pub proof fn lemma_reset_zeroes_every_counter(tile: SceneTile)
    ensures
        zeroed(tile).value == 0,
        zeroed(tile).label == tile.label,
        zeroed(tile).color == tile.color,
        zeroed(tile).local_pos == tile.local_pos,
        zeroed(tile).size == tile.size,
{
}

} // verus!
