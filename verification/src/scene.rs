//! The scene's tiles, the banner over the scene, the last-event line, and the
//! text that each of them shows.

use vstd::prelude::*;
use vstd::string::*;
use crate::owner::{InputOwner, ReproMode, mode_label, owner_label};
use crate::text::{decimal, signed_decimal, push_decimal, push_signed};
use crate::ui_types::{rgb_color, color_from_rgb};

verus! {

/// Where a tile sits in the scene, relative to the scene's tile origin, and
/// how large it is.
#[derive(Clone, Copy, Debug)]
pub struct TileLayout {
    pub local_pos: egui::Pos2,
    pub size: egui::Vec2,
}

/// One counter tile of the scene.
#[derive(Clone, Copy, Debug)]
pub struct SceneTile {
    pub label: &'static str,
    pub local_pos: egui::Pos2,
    pub size: egui::Vec2,
    pub value: i32,
    pub color: egui::Color32,
}

/// The scene's tiles, back to front: a later tile is drawn above an earlier one.
#[derive(Debug)]
pub struct SceneTiles {
    pub items: Vec<SceneTile>,
}

/// What a tile shows: its label and its counter.
pub open spec fn caption_text(tile: SceneTile) -> Seq<char> {
    tile.label@ + " "@ + signed_decimal(tile.value as int)
}

impl SceneTile {
    /// The text drawn on the tile.
    pub fn caption(&self) -> (s: String)
        ensures
            s@ == caption_text(*self),
            s@.skip(s@.len() - signed_decimal(self.value as int).len()) == signed_decimal(
                self.value as int,
            ),
    {
        let mut s = String::new();
        s.append(self.label);
        s.append(" ");
        let ghost before = s@;
        push_signed(&mut s, self.value);
        assert(s@.skip(before.len() as int) =~= signed_decimal(self.value as int));
        s
    }
}

/// The three tiles A, B and C, each counter at zero, in that order from back
/// to front.
pub open spec fn starting_tiles(a: TileLayout, b: TileLayout, c: TileLayout) -> Seq<SceneTile> {
    seq![
        SceneTile {
            label: "A",
            local_pos: a.local_pos,
            size: a.size,
            value: 0,
            color: rgb_color(0x3a, 0x86, 0xff),
        },
        SceneTile {
            label: "B",
            local_pos: b.local_pos,
            size: b.size,
            value: 0,
            color: rgb_color(0xff, 0x00, 0x6e),
        },
        SceneTile {
            label: "C",
            local_pos: c.local_pos,
            size: c.size,
            value: 0,
            color: rgb_color(0x83, 0xc5, 0xbe),
        },
    ]
}

impl SceneTiles {
    /// The starting scene, laid out as given.
    pub fn from_layout(a: TileLayout, b: TileLayout, c: TileLayout) -> (tiles: Self)
        ensures
            tiles.items@ == starting_tiles(a, b, c),
    {
        let mut items: Vec<SceneTile> = Vec::new();
        items.push(
            SceneTile {
                label: "A",
                local_pos: a.local_pos,
                size: a.size,
                value: 0,
                color: color_from_rgb(0x3a, 0x86, 0xff),
            },
        );
        items.push(
            SceneTile {
                label: "B",
                local_pos: b.local_pos,
                size: b.size,
                value: 0,
                color: color_from_rgb(0xff, 0x00, 0x6e),
            },
        );
        items.push(
            SceneTile {
                label: "C",
                local_pos: c.local_pos,
                size: c.size,
                value: 0,
                color: color_from_rgb(0x83, 0xc5, 0xbe),
            },
        );
        SceneTiles { items }
    }
}

/// The message shown across the bottom of the scene.
#[derive(Clone, Copy, Debug, PartialEq, Eq)]
pub enum Banner {
    /// A scene tile changed while the pointer was over pane D.
    Bug(&'static str),
    /// Pane D kept the scene from taking an input.
    Blocked,
    /// Pane D took an input itself.
    DHandled,
}

pub open spec fn banner_text(banner: Banner) -> Seq<char> {
    match banner {
        Banner::Bug(tile) => "BUG: "@ + tile@ + " changed while pointer was over D"@,
        Banner::Blocked => "OK: D blocked the scene input"@,
        Banner::DHandled => "D handled the UI event"@,
    }
}

pub open spec fn banner_color(banner: Banner) -> egui::Color32 {
    match banner {
        Banner::Bug(_) => rgb_color(210, 48, 48),
        Banner::Blocked => rgb_color(55, 130, 85),
        Banner::DHandled => rgb_color(55, 110, 180),
    }
}

impl Banner {
    /// The banner's message.
    pub fn text(self) -> (s: String)
        ensures
            s@ == banner_text(self),
    {
        let mut s = String::new();
        match self {
            Banner::Bug(tile) => {
                s.append("BUG: ");
                s.append(tile);
                s.append(" changed while pointer was over D");
            },
            Banner::Blocked => {
                s.append("OK: D blocked the scene input");
            },
            Banner::DHandled => {
                s.append("D handled the UI event");
            },
        }
        s
    }

    /// The banner's background colour.
    pub fn color(self) -> (c: egui::Color32)
        ensures
            c == banner_color(self),
    {
        match self {
            Banner::Bug(_) => color_from_rgb(210, 48, 48),
            Banner::Blocked => color_from_rgb(55, 130, 85),
            Banner::DHandled => color_from_rgb(55, 110, 180),
        }
    }
}

/// The last thing that happened, as the top bar reports it.
#[derive(Clone, Copy, Debug, PartialEq, Eq)]
pub enum LastEvent {
    /// Nothing yet: the bar shows how to reproduce the bug.
    Hint,
    /// The mode was switched to this one.
    ModeChanged(ReproMode),
    /// The counters were reset.
    Reset,
    /// Scene input was blocked because this owner held the pointer.
    Blocked { frame: u64, owner: InputOwner },
    /// A tile changed although the pointer was over pane D.
    PassedThrough { frame: u64, tile: &'static str },
    /// A tile changed from scene input.
    SceneChanged { frame: u64, tile: &'static str },
}

pub open spec fn event_text(event: LastEvent) -> Seq<char> {
    match event {
        LastEvent::Hint => "Hold left mouse on C, then drag into D."@,
        LastEvent::ModeChanged(mode) => "Mode: "@ + mode_label(mode),
        LastEvent::Reset => "Reset A/B/C/D."@,
        LastEvent::Blocked { frame, owner } => "Frame "@ + decimal(frame as nat)
            + ": D blocked the scene input. PreUpdate used owner = "@ + owner_label(owner) + "."@,
        LastEvent::PassedThrough { frame, tile } => "Frame "@ + decimal(frame as nat) + ": "@ + tile@
            + " changed even though the pointer hit D."@,
        LastEvent::SceneChanged { frame, tile } => "Frame "@ + decimal(frame as nat) + ": "@ + tile@
            + " changed from scene input."@,
    }
}

impl LastEvent {
    /// The line that the top bar shows for the event.
    pub fn text(self) -> (s: String)
        ensures
            s@ == event_text(self),
    {
        let mut s = String::new();
        match self {
            LastEvent::Hint => {
                s.append("Hold left mouse on C, then drag into D.");
            },
            LastEvent::ModeChanged(mode) => {
                s.append("Mode: ");
                s.append(mode.label());
            },
            LastEvent::Reset => {
                s.append("Reset A/B/C/D.");
            },
            LastEvent::Blocked { frame, owner } => {
                s.append("Frame ");
                push_decimal(&mut s, frame);
                s.append(": D blocked the scene input. PreUpdate used owner = ");
                s.append(owner.label());
                s.append(".");
            },
            LastEvent::PassedThrough { frame, tile } => {
                s.append("Frame ");
                push_decimal(&mut s, frame);
                s.append(": ");
                s.append(tile);
                s.append(" changed even though the pointer hit D.");
            },
            LastEvent::SceneChanged { frame, tile } => {
                s.append("Frame ");
                push_decimal(&mut s, frame);
                s.append(": ");
                s.append(tile);
                s.append(" changed from scene input.");
            },
        }
        s
    }
}

/// The counter line of the top bar.
pub open spec fn counts_text(a: i32, b: i32, c: i32, d: i32) -> Seq<char> {
    "A:"@ + signed_decimal(a as int) + "  B:"@ + signed_decimal(b as int) + "  C:"@
        + signed_decimal(c as int) + "  D:"@ + signed_decimal(d as int)
}

/// The counter line of the top bar: the first three tiles' counters, then D's.
pub fn counts_line(tiles: &SceneTiles, d_value: i32) -> (s: String)
    requires
        tiles.items@.len() >= 3,
    ensures
        s@ == counts_text(
            tiles.items@[0].value,
            tiles.items@[1].value,
            tiles.items@[2].value,
            d_value,
        ),
        s@.skip(s@.len() - signed_decimal(d_value as int).len()) == signed_decimal(d_value as int),
{
    let mut s = String::new();
    s.append("A:");
    push_signed(&mut s, tiles.items[0].value);
    s.append("  B:");
    push_signed(&mut s, tiles.items[1].value);
    s.append("  C:");
    push_signed(&mut s, tiles.items[2].value);
    s.append("  D:");
    let ghost before = s@;
    push_signed(&mut s, d_value);
    assert(s@.skip(before.len() as int) =~= signed_decimal(d_value as int));
    s
}

/// What pane D shows.
pub open spec fn d_pane_text(d_value: i32) -> Seq<char> {
    "UI pane D\nD: "@ + signed_decimal(d_value as int)
}

/// The text drawn in pane D: its title and its counter.
pub fn d_pane_caption(d_value: i32) -> (s: String)
    ensures
        s@ == d_pane_text(d_value),
        s@.skip(s@.len() - signed_decimal(d_value as int).len()) == signed_decimal(d_value as int),
{
    let mut s = String::new();
    s.append("UI pane D\nD: ");
    let ghost before = s@;
    push_signed(&mut s, d_value);
    assert(s@.skip(before.len() as int) =~= signed_decimal(d_value as int));
    s
}

/// What an owner chip shows: its title and the owner.
pub open spec fn chip_text(title: Seq<char>, owner: InputOwner) -> Seq<char> {
    title + ": "@ + owner_label(owner)
}

/// The text of an owner chip.
pub fn owner_chip_text(title: &str, owner: InputOwner) -> (s: String)
    ensures
        s@ == chip_text(title@, owner),
{
    let mut s = String::new();
    s.append(title);
    s.append(": ");
    s.append(owner.label());
    s
}

} // verus!
