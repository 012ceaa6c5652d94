//! Who owns the pointer: the repro modes, the owners, and the two hit tests
//! (which owner region wins at a point, which tile is topmost at a point).

use vstd::prelude::*;
use crate::ui_types::{rect_contains, rect_contains_pos, rgb_color, color_from_rgb, gray};

verus! {

/// How scene input decides who owns the pointer.
#[derive(Clone, Copy, Debug, PartialEq, Eq, Structural)]
pub enum ReproMode {
    /// Gate with the owner that the previous UI pass resolved (one frame stale).
    StaleOwnerPreUpdate,
    /// Gate with a hit test of the current pointer against the latest UI regions.
    CurrentPointerHitTest,
}

/// What `label` shows for each mode.
pub open spec fn mode_label(mode: ReproMode) -> Seq<char> {
    match mode {
        ReproMode::StaleOwnerPreUpdate => "BUG: stale owner in PreUpdate"@,
        ReproMode::CurrentPointerHitTest => "FIX: current pointer hit-test"@,
    }
}

/// The other mode.
pub open spec fn toggled(mode: ReproMode) -> ReproMode {
    match mode {
        ReproMode::StaleOwnerPreUpdate => ReproMode::CurrentPointerHitTest,
        ReproMode::CurrentPointerHitTest => ReproMode::StaleOwnerPreUpdate,
    }
}

impl ReproMode {
    /// The mode's name as the top bar shows it.
    pub fn label(self) -> (s: &'static str)
        ensures
            s@ == mode_label(self),
    {
        match self {
            ReproMode::StaleOwnerPreUpdate => "BUG: stale owner in PreUpdate",
            ReproMode::CurrentPointerHitTest => "FIX: current pointer hit-test",
        }
    }

    /// The other mode.
    pub fn toggle(self) -> (m: Self)
        ensures
            m == toggled(self),
            m != self,
    {
        match self {
            ReproMode::StaleOwnerPreUpdate => ReproMode::CurrentPointerHitTest,
            ReproMode::CurrentPointerHitTest => ReproMode::StaleOwnerPreUpdate,
        }
    }
}

/// Who receives pointer input at a point.
#[derive(Clone, Copy, Debug, PartialEq, Eq, Structural)]
pub enum InputOwner {
    /// The pointer is over no owner region.
    Nobody,
    /// The scene behind the UI.
    Scene,
    /// The UI pane D, drawn above the scene.
    DPane,
}

impl Default for InputOwner {
    fn default() -> (o: Self)
        ensures
            o == InputOwner::Nobody,
    {
        InputOwner::Nobody
    }
}

/// What `label` shows for each owner.
pub open spec fn owner_label(owner: InputOwner) -> Seq<char> {
    match owner {
        InputOwner::Nobody => "none"@,
        InputOwner::Scene => "scene"@,
        InputOwner::DPane => "D"@,
    }
}

/// The colour of each owner's chip.
pub open spec fn owner_color(owner: InputOwner) -> egui::Color32 {
    match owner {
        InputOwner::Nobody => rgb_color(160, 160, 160),
        InputOwner::Scene => rgb_color(65, 160, 105),
        InputOwner::DPane => rgb_color(235, 130, 65),
    }
}

impl InputOwner {
    /// The owner's name as the owner chips show it.
    pub fn label(self) -> (s: &'static str)
        ensures
            s@ == owner_label(self),
    {
        match self {
            InputOwner::Nobody => "none",
            InputOwner::Scene => "scene",
            InputOwner::DPane => "D",
        }
    }

    /// The colour of the owner's chip.
    pub fn color(self) -> (c: egui::Color32)
        ensures
            c == owner_color(self),
    {
        match self {
            InputOwner::Nobody => gray(),
            InputOwner::Scene => color_from_rgb(65, 160, 105),
            InputOwner::DPane => color_from_rgb(235, 130, 65),
        }
    }
}

/// A screen rectangle that belongs to an owner; where regions overlap, the
/// higher priority wins.
#[derive(Clone, Copy, Debug)]
pub struct OwnerRegion {
    pub rect: egui::Rect,
    pub owner: InputOwner,
    pub priority: u8,
}

/// A scene tile's rectangle on screen, as the last UI pass laid it out.
#[derive(Clone, Copy, Debug)]
pub struct ScreenTile {
    pub rect: egui::Rect,
}

/// `regions[i]` decides the owner at `pos`: it contains `pos`, no region that
/// contains `pos` has a higher priority, and none after it has an equal one
/// (among regions of equal priority the last one wins).
pub open spec fn is_top_region(regions: Seq<OwnerRegion>, pos: egui::Pos2, i: int) -> bool {
    &&& 0 <= i < regions.len()
    &&& rect_contains(regions[i].rect, pos)
    &&& forall|j: int|
        0 <= j < regions.len() && rect_contains(#[trigger] regions[j].rect, pos) ==> regions[j].priority
            <= regions[i].priority
    &&& forall|j: int|
        i < j < regions.len() && rect_contains(#[trigger] regions[j].rect, pos) ==> regions[j].priority
            < regions[i].priority
}

/// The owner at `pos`: that of the deciding region, or `None` where no region
/// contains `pos`.
pub open spec fn owner_at_spec(regions: Seq<OwnerRegion>, pos: egui::Pos2) -> InputOwner {
    if exists|i: int| is_top_region(regions, pos, i) {
        regions[choose|i: int| is_top_region(regions, pos, i)].owner
    } else {
        InputOwner::Nobody
    }
}

/// At most one region decides.
pub proof fn lemma_top_region_unique(regions: Seq<OwnerRegion>, pos: egui::Pos2, i: int, k: int)
    requires
        is_top_region(regions, pos, i),
        is_top_region(regions, pos, k),
    ensures
        i == k,
{
    assert(rect_contains(regions[i].rect, pos));
    assert(rect_contains(regions[k].rect, pos));
}

/// The owner of the pointer at `pos`.
pub fn owner_at(regions: &[OwnerRegion], pos: egui::Pos2) -> (owner: InputOwner)
    ensures
        owner == owner_at_spec(regions@, pos),
        owner == InputOwner::Nobody <== (forall|j: int|
            0 <= j < regions@.len() ==> !rect_contains(#[trigger] regions@[j].rect, pos)),
{
    let mut best: Option<usize> = None;
    let mut i: usize = 0;
    while i < regions.len()
        invariant
            i <= regions@.len(),
            match best {
                Some(b) => is_top_region(regions@.take(i as int), pos, b as int),
                None => forall|j: int|
                    0 <= j < i ==> !rect_contains(#[trigger] regions@[j].rect, pos),
            },
        decreases regions@.len() - i,
    {
        let hit = rect_contains_pos(&regions[i].rect, pos);
        let ghost prev = regions@.take(i as int);
        let ghost next = regions@.take(i + 1);
        assert(forall|j: int| 0 <= j < i ==> next[j] == prev[j]);
        assert(next[i as int] == regions@[i as int]);
        if hit {
            match best {
                Some(b) => {
                    if regions[b].priority <= regions[i].priority {
                        best = Some(i);
                    }
                },
                None => {
                    best = Some(i);
                },
            }
        }
        i = i + 1;
    }
    assert(regions@.take(i as int) =~= regions@);
    match best {
        Some(b) => {
            proof {
                assert(is_top_region(regions@, pos, b as int));
                lemma_top_region_unique(
                    regions@,
                    pos,
                    b as int,
                    choose|k: int| is_top_region(regions@, pos, k),
                );
            }
            regions[b].owner
        },
        None => {
            assert(!exists|k: int| is_top_region(regions@, pos, k));
            InputOwner::Nobody
        },
    }
}

/// `tiles[i]` is the topmost tile at `pos`: it contains `pos` and no tile
/// drawn after it does.
pub open spec fn is_topmost_tile(tiles: Seq<ScreenTile>, pos: egui::Pos2, i: int) -> bool {
    &&& 0 <= i < tiles.len()
    &&& rect_contains(tiles[i].rect, pos)
    &&& forall|j: int| i < j < tiles.len() ==> !rect_contains(#[trigger] tiles[j].rect, pos)
}

/// The index of the topmost tile at `pos`, if any tile contains `pos`.
pub open spec fn topmost_tile_spec(tiles: Seq<ScreenTile>, pos: egui::Pos2) -> Option<int> {
    if exists|i: int| is_topmost_tile(tiles, pos, i) {
        Some(choose|i: int| is_topmost_tile(tiles, pos, i))
    } else {
        None
    }
}

/// At most one tile is topmost at a point.
pub proof fn lemma_topmost_tile_unique(tiles: Seq<ScreenTile>, pos: egui::Pos2, i: int, k: int)
    requires
        is_topmost_tile(tiles, pos, i),
        is_topmost_tile(tiles, pos, k),
    ensures
        i == k,
{
    if i < k {
        assert(!rect_contains(tiles[k].rect, pos));
    } else if k < i {
        assert(!rect_contains(tiles[i].rect, pos));
    }
}

/// The index of the topmost tile that contains `pos`; tiles later in the
/// list are drawn on top of earlier ones.
pub fn topmost_tile_at(tile_rects: &[ScreenTile], pos: egui::Pos2) -> (found: Option<usize>)
    ensures
        match found {
            Some(i) => is_topmost_tile(tile_rects@, pos, i as int),
            None => forall|j: int|
                0 <= j < tile_rects@.len() ==> !rect_contains(#[trigger] tile_rects@[j].rect, pos),
        },
        found == (match topmost_tile_spec(tile_rects@, pos) {
            Some(i) => Some(i as usize),
            None => None::<usize>,
        }),
{
    let mut i: usize = tile_rects.len();
    while i > 0
        invariant
            i <= tile_rects@.len(),
            forall|j: int| i <= j < tile_rects@.len() ==> !rect_contains(#[trigger] tile_rects@[j].rect, pos),
        decreases i,
    {
        i = i - 1;
        if rect_contains_pos(&tile_rects[i].rect, pos) {
            proof {
                assert(is_topmost_tile(tile_rects@, pos, i as int));
                lemma_topmost_tile_unique(
                    tile_rects@,
                    pos,
                    i as int,
                    choose|k: int| is_topmost_tile(tile_rects@, pos, k),
                );
            }
            return Some(i);
        }
    }
    assert(!exists|k: int| is_topmost_tile(tile_rects@, pos, k));
    None
}

/// The owner regions that a UI pass publishes: the scene, and pane D above it.
pub open spec fn ui_regions_spec(scene_rect: egui::Rect, d_rect: egui::Rect) -> Seq<OwnerRegion> {
    seq![
        OwnerRegion { rect: scene_rect, owner: InputOwner::Scene, priority: 0 },
        OwnerRegion { rect: d_rect, owner: InputOwner::DPane, priority: 10 },
    ]
}

/// The owner regions of a UI pass: the scene at priority 0, and pane D above
/// it at priority 10.
pub fn ui_owner_regions(scene_rect: egui::Rect, d_rect: egui::Rect) -> (regions: Vec<OwnerRegion>)
    ensures
        regions@ == ui_regions_spec(scene_rect, d_rect),
{
    let mut regions: Vec<OwnerRegion> = Vec::new();
    regions.push(OwnerRegion { rect: scene_rect, owner: InputOwner::Scene, priority: 0 });
    regions.push(OwnerRegion { rect: d_rect, owner: InputOwner::DPane, priority: 10 });
    regions
}

} // verus!
