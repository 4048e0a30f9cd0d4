//! Placement of the greeter panel on the screen.
use vstd::prelude::*;

use crate::config::HDMConfig;

verus! {

/// How a panel is placed.
#[derive(PartialEq, Eq, Structural, Debug, Clone, Copy)]
pub enum Layout {
    /// It fills the screen.
    Tiling,
    /// It floats, centred, over a quarter of the screen.
    Floating,
}

/// The greeter panel: the interface it shows and how it is placed.
pub struct Panel {
    pub name: String,
    pub layout: Layout,
}

/// The layout of the greeter.
pub struct LayoutManager {
    pub panel: Panel,
    pub global_layout: Layout,
}

/// A rectangle on the screen, in pixels.
#[derive(PartialEq, Eq, Structural, Debug, Clone, Copy)]
pub struct PanelRect {
    pub x: u32,
    pub y: u32,
    pub width: u32,
    pub height: u32,
}

impl LayoutManager {
    /// The layout for a configuration: a tiled panel showing its default
    /// session's interface.
    pub fn new(config: &HDMConfig) -> (r: LayoutManager)
        ensures
            r.panel.name@ == config.default_session@,
            r.panel.layout == Layout::Tiling,
            r.global_layout == Layout::Tiling,
    {
        LayoutManager {
            panel: Panel { name: config.default_session.clone(), layout: Layout::Tiling },
            global_layout: Layout::Tiling,
        }
    }

    /// Where the panel goes on a screen of this size: all of it when
    /// tiled; when floating, half its width and height, centred.
    pub fn panel_rect(&self, screen_width: u32, screen_height: u32) -> (r: PanelRect)
        ensures
            self.panel.layout == Layout::Tiling ==> r == (PanelRect {
                x: 0,
                y: 0,
                width: screen_width,
                height: screen_height,
            }),
            self.panel.layout == Layout::Floating ==> r == (PanelRect {
                x: screen_width / 4,
                y: screen_height / 4,
                width: screen_width / 2,
                height: screen_height / 2,
            }),
    {
        match self.panel.layout {
            Layout::Tiling => PanelRect { x: 0, y: 0, width: screen_width, height: screen_height },
            Layout::Floating => PanelRect {
                x: screen_width / 4,
                y: screen_height / 4,
                width: screen_width / 2,
                height: screen_height / 2,
            },
        }
    }
}

} // verus!
