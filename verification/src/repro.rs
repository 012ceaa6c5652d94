//! The repro's state and the decisions that change it: the scene's input
//! stage, pane D, the UI pass that publishes owner regions, the mode switch
//! and the reset.

use vstd::prelude::*;
use crate::owner::{
    InputOwner, OwnerRegion, ReproMode, ScreenTile, owner_at, owner_at_spec, toggled,
    topmost_tile_at, topmost_tile_spec,
};
use crate::scene::{Banner, LastEvent, SceneTile, SceneTiles};

verus! {

/// Which way the wheel turned in a frame.
#[derive(Clone, Copy, Debug, PartialEq, Eq, Structural)]
pub enum Scroll {
    Up,
    Down,
    Still,
}

/// What the scene's input stage reads of the pointer in one frame.
#[derive(Clone, Copy, Debug)]
pub struct PointerInput {
    /// Where the pointer is, if it is over the window.
    pub pointer: Option<egui::Pos2>,
    /// The left button is held down.
    pub left_pressed: bool,
    /// The left button went down this frame.
    pub left_just_pressed: bool,
    /// The right button went down this frame.
    pub right_just_pressed: bool,
    /// The sign of this frame's wheel movement.
    pub scroll: Scroll,
}

/// What a scene input does.
#[derive(Clone, Copy, Debug, PartialEq, Eq, Structural)]
pub enum SceneEffect {
    /// There is no input this frame.
    Idle,
    /// The gating owner is not the scene: the input is refused.
    Blocked,
    /// The scene owns the input, but no tile is under the pointer.
    NoTarget,
    /// The counter of this tile moves by `delta`.
    Change { tile: usize, delta: i32 },
}

/// The decision of the scene's input stage for one frame.
#[derive(Clone, Copy, Debug, PartialEq, Eq, Structural)]
pub struct ScenePlan {
    /// The owner that the current pointer hits in the last published regions.
    pub hit: InputOwner,
    /// The owner that gates the input, by the mode.
    pub owner_used: InputOwner,
    pub effect: SceneEffect,
}

/// The repro's state, shared by the scene's input stage and the UI pass.
#[derive(Debug)]
pub struct ReproState {
    pub mode: ReproMode,
    pub owner_regions_from_last_egui_pass: Vec<OwnerRegion>,
    pub tile_rects_from_last_egui_pass: Vec<ScreenTile>,
    pub owner_from_last_egui_pass: InputOwner,
    pub pointer_owner_now: InputOwner,
    pub pointer_owner_seen_by_preupdate: InputOwner,
    pub owner_used_by_preupdate: InputOwner,
    pub d_value: i32,
    pub frame: u64,
    pub banner: Option<Banner>,
    pub last_event: LastEvent,
}

/// The step that the buttons and the wheel ask for: the wheel first, else a
/// left click up, else a right click down.
pub open spec fn raw_delta(input: PointerInput) -> int {
    match input.scroll {
        Scroll::Up => 1,
        Scroll::Down => -1,
        Scroll::Still => if input.left_just_pressed {
            1
        } else if input.right_just_pressed {
            -1
        } else {
            0
        },
    }
}

/// The tiles after a scene effect: only a `Change` moves one counter.
pub open spec fn tiles_after(items: Seq<SceneTile>, effect: SceneEffect) -> Seq<SceneTile> {
    match effect {
        SceneEffect::Change { tile, delta } => items.update(
            tile as int,
            SceneTile { value: (items[tile as int].value + delta) as i32, ..items[tile as int] },
        ),
        _ => items,
    }
}

/// The banner after a scene input: a refusal shows `Blocked`; a change shows
/// `Bug` when the pointer was over D and clears the banner otherwise.
pub open spec fn banner_after(
    banner: Option<Banner>,
    plan: ScenePlan,
    items: Seq<SceneTile>,
) -> Option<Banner> {
    match plan.effect {
        SceneEffect::Blocked => Some(Banner::Blocked),
        SceneEffect::Change { tile, delta } => if plan.hit == InputOwner::DPane {
            Some(Banner::Bug(items[tile as int].label))
        } else {
            None
        },
        _ => banner,
    }
}

/// The last event after a scene input, in frame `frame`.
pub open spec fn event_after(
    event: LastEvent,
    plan: ScenePlan,
    items: Seq<SceneTile>,
    frame: u64,
) -> LastEvent {
    match plan.effect {
        SceneEffect::Blocked => LastEvent::Blocked { frame, owner: plan.owner_used },
        SceneEffect::Change { tile, delta } => if plan.hit == InputOwner::DPane {
            LastEvent::PassedThrough { frame, tile: items[tile as int].label }
        } else {
            LastEvent::SceneChanged { frame, tile: items[tile as int].label }
        },
        _ => event,
    }
}

/// What a click on pane D adds: one for the primary button, else minus one
/// for the secondary.
pub open spec fn d_click_delta(clicked_primary: bool, clicked_secondary: bool) -> int {
    if clicked_primary {
        1
    } else if clicked_secondary {
        -1
    } else {
        0
    }
}

/// What the wheel adds to pane D while the pointer hovers it.
pub open spec fn d_scroll_delta(hovered: bool, scroll: Scroll) -> int {
    if hovered {
        match scroll {
            Scroll::Up => 1,
            Scroll::Down => -1,
            Scroll::Still => 0,
        }
    } else {
        0
    }
}

impl ScenePlan {
    /// The plan can be carried out on these tiles: a changed tile exists and
    /// its counter stays within `i32`.
    pub open spec fn fits_tiles(self, items: Seq<SceneTile>) -> bool {
        match self.effect {
            SceneEffect::Change { tile, delta } => tile < items.len() && i32::MIN <= items[tile as int].value
                + delta <= i32::MAX,
            _ => true,
        }
    }

    /// Whether the plan can be carried out on these tiles.
    pub fn fits(&self, tiles: &SceneTiles) -> (b: bool)
        ensures
            b == self.fits_tiles(tiles.items@),
    {
        match self.effect {
            SceneEffect::Change { tile, delta } => {
                if tile < tiles.items.len() {
                    let value = tiles.items[tile].value as i64 + delta as i64;
                    i32::MIN as i64 <= value && value <= i32::MAX as i64
                } else {
                    false
                }
            },
            _ => true,
        }
    }
}

impl ReproState {
    /// The owner that `pointer` hits in the regions of the last UI pass.
    pub open spec fn hit_owner(self, pointer: Option<egui::Pos2>) -> InputOwner {
        match pointer {
            Some(pos) => owner_at_spec(self.owner_regions_from_last_egui_pass@, pos),
            None => InputOwner::Nobody,
        }
    }

    /// The owner that gates scene input, given the current hit.
    pub open spec fn gate_owner(self, hit: InputOwner) -> InputOwner {
        match self.mode {
            ReproMode::StaleOwnerPreUpdate => self.owner_from_last_egui_pass,
            ReproMode::CurrentPointerHitTest => hit,
        }
    }

    /// The left button is held while the pointer moves from the scene into D.
    pub open spec fn entered_d_while_holding(self, input: PointerInput) -> bool {
        &&& input.left_pressed
        &&& self.pointer_owner_seen_by_preupdate == InputOwner::Scene
        &&& self.hit_owner(input.pointer) == InputOwner::DPane
    }

    /// The step of this frame's scene input: the buttons' or the wheel's, else
    /// one for dragging into D with the left button held, else none.
    pub open spec fn scene_delta(self, input: PointerInput) -> int {
        if raw_delta(input) != 0 {
            raw_delta(input)
        } else if self.entered_d_while_holding(input) {
            1
        } else {
            0
        }
    }

    /// The decision of the scene's input stage.
    pub open spec fn scene_plan(self, input: PointerInput) -> ScenePlan {
        let hit = self.hit_owner(input.pointer);
        let used = self.gate_owner(hit);
        let delta = self.scene_delta(input);
        let effect = if delta == 0 {
            SceneEffect::Idle
        } else if used != InputOwner::Scene {
            SceneEffect::Blocked
        } else {
            match input.pointer {
                None => SceneEffect::NoTarget,
                Some(pos) => match topmost_tile_spec(self.tile_rects_from_last_egui_pass@, pos) {
                    None => SceneEffect::NoTarget,
                    Some(i) => SceneEffect::Change { tile: i as usize, delta: delta as i32 },
                },
            }
        };
        ScenePlan { hit, owner_used: used, effect }
    }

    /// The fields that the UI pass publishes are equal.
    pub open spec fn same_ui_pass(self, other: Self) -> bool {
        &&& self.owner_regions_from_last_egui_pass@ == other.owner_regions_from_last_egui_pass@
        &&& self.tile_rects_from_last_egui_pass@ == other.tile_rects_from_last_egui_pass@
        &&& self.owner_from_last_egui_pass == other.owner_from_last_egui_pass
    }

    /// The fields that follow the pointer from frame to frame are equal.
    pub open spec fn same_tracking(self, other: Self) -> bool {
        &&& self.pointer_owner_now == other.pointer_owner_now
        &&& self.pointer_owner_seen_by_preupdate == other.pointer_owner_seen_by_preupdate
        &&& self.owner_used_by_preupdate == other.owner_used_by_preupdate
        &&& self.frame == other.frame
    }

    /// The state before any frame: stale-owner mode, no regions, no owner,
    /// counters and frame at zero, no banner, and the hint.
    pub open spec fn is_initial(self) -> bool {
        &&& self.mode == ReproMode::StaleOwnerPreUpdate
        &&& self.owner_regions_from_last_egui_pass@.len() == 0
        &&& self.tile_rects_from_last_egui_pass@.len() == 0
        &&& self.owner_from_last_egui_pass == InputOwner::Nobody
        &&& self.pointer_owner_now == InputOwner::Nobody
        &&& self.pointer_owner_seen_by_preupdate == InputOwner::Nobody
        &&& self.owner_used_by_preupdate == InputOwner::Nobody
        &&& self.d_value == 0
        &&& self.frame == 0
        &&& self.banner is None
        &&& self.last_event == LastEvent::Hint
    }

    /// The decision of the scene's input stage for this frame, without
    /// carrying it out.
    pub fn plan_scene_input(&self, input: &PointerInput) -> (plan: ScenePlan)
        ensures
            plan == self.scene_plan(*input),
            (input.scroll == Scroll::Still && !input.left_just_pressed && !input.right_just_pressed
                && plan.hit != InputOwner::DPane) ==> plan.effect == SceneEffect::Idle,
            (input.scroll != Scroll::Still || input.left_just_pressed || input.right_just_pressed)
                ==> plan.effect != SceneEffect::Idle,
            plan.effect matches SceneEffect::Change { tile, delta } ==> (plan.owner_used
                == InputOwner::Scene && (delta == 1 || delta == -1)),
    {
        let hit = match input.pointer {
            Some(pos) => owner_at(self.owner_regions_from_last_egui_pass.as_slice(), pos),
            None => InputOwner::default(),
        };
        let used = match self.mode {
            ReproMode::StaleOwnerPreUpdate => self.owner_from_last_egui_pass,
            ReproMode::CurrentPointerHitTest => hit,
        };
        let click_delta: i32 = if input.left_just_pressed {
            1
        } else if input.right_just_pressed {
            -1
        } else {
            0
        };
        let input_delta: i32 = match input.scroll {
            Scroll::Up => 1,
            Scroll::Down => -1,
            Scroll::Still => click_delta,
        };
        let entered_d_while_holding = input.left_pressed && self.pointer_owner_seen_by_preupdate
            == InputOwner::Scene && hit == InputOwner::DPane;
        let delta: i32 = if input_delta != 0 {
            input_delta
        } else if entered_d_while_holding {
            1
        } else {
            0
        };
        let effect = if delta == 0 {
            SceneEffect::Idle
        } else if used != InputOwner::Scene {
            SceneEffect::Blocked
        } else {
            match input.pointer {
                None => SceneEffect::NoTarget,
                Some(pos) => match topmost_tile_at(self.tile_rects_from_last_egui_pass.as_slice(), pos) {
                    None => SceneEffect::NoTarget,
                    Some(i) => SceneEffect::Change { tile: i, delta },
                },
            }
        };
        ScenePlan { hit, owner_used: used, effect }
    }

    /// The scene's input stage for one frame: count the frame, hit-test the
    /// pointer against the last published regions, gate by the mode's owner,
    /// and move the topmost tile under the pointer.
    pub fn scene_input_in_preupdate(&mut self, tiles: &mut SceneTiles, input: &PointerInput)
        requires
            old(self).frame < u64::MAX,
            old(self).scene_plan(*input).fits_tiles(old(tiles).items@),
        ensures
            final(self).frame == old(self).frame + 1,
            final(self).pointer_owner_now == old(self).scene_plan(*input).hit,
            final(self).pointer_owner_seen_by_preupdate == old(self).scene_plan(*input).hit,
            final(self).owner_used_by_preupdate == old(self).scene_plan(*input).owner_used,
            final(self).mode == old(self).mode,
            final(self).same_ui_pass(*old(self)),
            final(self).d_value == old(self).d_value,
            final(self).banner == banner_after(
                old(self).banner,
                old(self).scene_plan(*input),
                old(tiles).items@,
            ),
            final(self).last_event == event_after(
                old(self).last_event,
                old(self).scene_plan(*input),
                old(tiles).items@,
                final(self).frame,
            ),
            final(tiles).items@ == tiles_after(old(tiles).items@, old(self).scene_plan(*input).effect),
            final(tiles).items@.len() == old(tiles).items@.len(),
            (input.scroll == Scroll::Still && !input.left_just_pressed && !input.right_just_pressed
                && final(self).pointer_owner_now != InputOwner::DPane) ==> (final(tiles).items@
                == old(tiles).items@ && final(self).banner == old(self).banner
                && final(self).last_event == old(self).last_event),
            (final(tiles).items@ != old(tiles).items@ && final(self).pointer_owner_now
                != InputOwner::DPane) ==> (final(self).banner is None),
            (final(tiles).items@ != old(tiles).items@ && final(self).pointer_owner_now
                == InputOwner::DPane) ==> (final(self).banner matches Some(Banner::Bug(_))),
            final(tiles).items@ != old(tiles).items@ ==> final(self).owner_used_by_preupdate
                == InputOwner::Scene,
            ((input.scroll != Scroll::Still || input.left_just_pressed || input.right_just_pressed)
                && final(self).owner_used_by_preupdate != InputOwner::Scene) ==> (final(tiles).items@
                == old(tiles).items@ && final(self).banner == Some(Banner::Blocked)),
            (old(self).mode == ReproMode::CurrentPointerHitTest && final(self).pointer_owner_now
                == InputOwner::DPane) ==> (final(tiles).items@ == old(tiles).items@),
            old(self).mode == ReproMode::StaleOwnerPreUpdate ==> final(self).owner_used_by_preupdate
                == old(self).owner_from_last_egui_pass,
            old(self).mode == ReproMode::CurrentPointerHitTest ==> final(self).owner_used_by_preupdate
                == final(self).pointer_owner_now,
    {
        let plan = self.plan_scene_input(input);
        self.frame = self.frame + 1;
        self.pointer_owner_now = plan.hit;
        self.pointer_owner_seen_by_preupdate = plan.hit;
        self.owner_used_by_preupdate = plan.owner_used;
        match plan.effect {
            SceneEffect::Blocked => {
                self.banner = Some(Banner::Blocked);
                self.last_event = LastEvent::Blocked { frame: self.frame, owner: plan.owner_used };
            },
            SceneEffect::Change { tile, delta } => {
                let mut changed = tiles.items[tile];
                changed.value = changed.value + delta;
                let label = changed.label;
                tiles.items.set(tile, changed);
                assert(tiles.items@[tile as int].value != old(tiles).items@[tile as int].value);
                assert(tiles.items@ != old(tiles).items@);
                if plan.hit == InputOwner::DPane {
                    self.banner = Some(Banner::Bug(label));
                    self.last_event = LastEvent::PassedThrough { frame: self.frame, tile: label };
                } else {
                    self.banner = None;
                    self.last_event = LastEvent::SceneChanged { frame: self.frame, tile: label };
                }
            },
            _ => {},
        }
    }

    /// Pane D's own input: a click, then the wheel while hovered. Any of them
    /// shows the `DHandled` banner unless a banner is already up.
    pub fn d_pane_input(
        &mut self,
        clicked_primary: bool,
        clicked_secondary: bool,
        hovered: bool,
        scroll: Scroll,
    )
        requires
            i32::MIN <= old(self).d_value + d_click_delta(clicked_primary, clicked_secondary)
                <= i32::MAX,
            i32::MIN <= old(self).d_value + d_click_delta(clicked_primary, clicked_secondary)
                + d_scroll_delta(hovered, scroll) <= i32::MAX,
        ensures
            final(self).d_value == old(self).d_value + d_click_delta(
                clicked_primary,
                clicked_secondary,
            ) + d_scroll_delta(hovered, scroll),
            final(self).banner == (if (clicked_primary || clicked_secondary || d_scroll_delta(
                hovered,
                scroll,
            ) != 0) && old(self).banner is None {
                Some(Banner::DHandled)
            } else {
                old(self).banner
            }),
            final(self).mode == old(self).mode,
            final(self).last_event == old(self).last_event,
            final(self).same_ui_pass(*old(self)),
            final(self).same_tracking(*old(self)),
            (!hovered && !clicked_primary && !clicked_secondary) ==> (final(self).d_value
                == old(self).d_value && final(self).banner == old(self).banner),
            (!clicked_primary && !clicked_secondary && scroll == Scroll::Still) ==> (
            final(self).d_value == old(self).d_value && final(self).banner == old(self).banner),
            (hovered && !clicked_primary && !clicked_secondary && scroll == Scroll::Up) ==> (
            final(self).d_value == old(self).d_value + 1),
            (hovered && !clicked_primary && !clicked_secondary && scroll == Scroll::Down) ==> (
            final(self).d_value == old(self).d_value - 1),
    {
        let mut handled = false;
        if clicked_primary {
            self.d_value = self.d_value + 1;
            handled = true;
        } else if clicked_secondary {
            self.d_value = self.d_value - 1;
            handled = true;
        }
        if hovered {
            match scroll {
                Scroll::Up => {
                    self.d_value = self.d_value + 1;
                    handled = true;
                },
                Scroll::Down => {
                    self.d_value = self.d_value - 1;
                    handled = true;
                },
                Scroll::Still => {},
            }
        }
        if handled && self.banner.is_none() {
            self.banner = Some(Banner::DHandled);
        }
    }

    /// The UI pass resolves the owner of the current pointer against the
    /// regions it is laying out now.
    pub fn observe_pointer(&mut self, regions: &[OwnerRegion], pointer: Option<egui::Pos2>)
        ensures
            final(self).pointer_owner_now == (match pointer {
                Some(pos) => owner_at_spec(regions@, pos),
                None => InputOwner::Nobody,
            }),
            final(self).pointer_owner_seen_by_preupdate == old(self).pointer_owner_seen_by_preupdate,
            final(self).owner_used_by_preupdate == old(self).owner_used_by_preupdate,
            final(self).frame == old(self).frame,
            final(self).mode == old(self).mode,
            final(self).same_ui_pass(*old(self)),
            final(self).d_value == old(self).d_value,
            final(self).banner == old(self).banner,
            final(self).last_event == old(self).last_event,
    {
        self.pointer_owner_now = match pointer {
            Some(pos) => owner_at(regions, pos),
            None => InputOwner::default(),
        };
    }

    /// The end of a UI pass: publish the owner it resolved, its owner regions
    /// and its tile rectangles for the next scene input.
    pub fn finish_egui_pass(&mut self, regions: Vec<OwnerRegion>, tile_rects: Vec<ScreenTile>)
        ensures
            final(self).owner_from_last_egui_pass == old(self).pointer_owner_now,
            final(self).owner_regions_from_last_egui_pass@ == regions@,
            final(self).tile_rects_from_last_egui_pass@ == tile_rects@,
            final(self).same_tracking(*old(self)),
            final(self).mode == old(self).mode,
            final(self).d_value == old(self).d_value,
            final(self).banner == old(self).banner,
            final(self).last_event == old(self).last_event,
    {
        self.owner_from_last_egui_pass = self.pointer_owner_now;
        self.owner_regions_from_last_egui_pass = regions;
        self.tile_rects_from_last_egui_pass = tile_rects;
    }

    /// Switch to the other mode, clear the banner and report the new mode.
    pub fn toggle_mode(&mut self)
        ensures
            final(self).mode == toggled(old(self).mode),
            final(self).mode != old(self).mode,
            final(self).banner is None,
            final(self).last_event == LastEvent::ModeChanged(toggled(old(self).mode)),
            final(self).d_value == old(self).d_value,
            final(self).same_ui_pass(*old(self)),
            final(self).same_tracking(*old(self)),
    {
        self.mode = self.mode.toggle();
        self.banner = None;
        self.last_event = LastEvent::ModeChanged(self.mode);
    }
}

impl Default for ReproState {
    fn default() -> (state: Self)
        ensures
            state.is_initial(),
    {
        ReproState {
            mode: ReproMode::StaleOwnerPreUpdate,
            owner_regions_from_last_egui_pass: Vec::new(),
            tile_rects_from_last_egui_pass: Vec::new(),
            owner_from_last_egui_pass: InputOwner::Nobody,
            pointer_owner_now: InputOwner::Nobody,
            pointer_owner_seen_by_preupdate: InputOwner::Nobody,
            owner_used_by_preupdate: InputOwner::Nobody,
            d_value: 0,
            frame: 0,
            banner: None,
            last_event: LastEvent::Hint,
        }
    }
}

/// The tile with its counter at zero.
pub open spec fn zeroed(tile: SceneTile) -> SceneTile {
    SceneTile { value: 0, ..tile }
}

/// Set every tile's counter and D's counter to zero, clear the banner and
/// report the reset.
pub fn reset_counts(tiles: &mut SceneTiles, repro: &mut ReproState)
    ensures
        final(tiles).items@.len() == old(tiles).items@.len(),
        forall|i: int|
            0 <= i < final(tiles).items@.len() ==> {
                &&& #[trigger] final(tiles).items@[i].value == 0
                &&& final(tiles).items@[i].label == old(tiles).items@[i].label
                &&& final(tiles).items@[i].color == old(tiles).items@[i].color
                &&& final(tiles).items@[i].local_pos == old(tiles).items@[i].local_pos
                &&& final(tiles).items@[i].size == old(tiles).items@[i].size
            },
        forall|i: int|
            0 <= i < final(tiles).items@.len() ==> #[trigger] final(tiles).items@[i] == zeroed(old(tiles).items@[i]),
        final(repro).d_value == 0,
        final(repro).banner is None,
        final(repro).last_event == LastEvent::Reset,
        final(repro).mode == old(repro).mode,
        final(repro).same_ui_pass(*old(repro)),
        final(repro).same_tracking(*old(repro)),
{
    let mut i: usize = 0;
    while i < tiles.items.len()
        invariant
            i <= tiles.items@.len(),
            tiles.items@.len() == old(tiles).items@.len(),
            forall|j: int|
                0 <= j < i ==> #[trigger] tiles.items@[j] == zeroed(old(tiles).items@[j]),
            forall|j: int| i <= j < tiles.items@.len() ==> #[trigger] tiles.items@[j] == old(tiles).items@[j],
        decreases tiles.items@.len() - i,
    {
        let mut tile = tiles.items[i];
        tile.value = 0;
        tiles.items.set(i, tile);
        i = i + 1;
    }
    repro.d_value = 0;
    repro.banner = None;
    repro.last_event = LastEvent::Reset;
}

} // verus!
