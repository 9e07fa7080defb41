//! The layout tree that a render produces, and its mathematical view.
use vstd::prelude::*;
use crate::elements::{Avatar, Button, Color, IconButton, ToolDivider, TrafficLights};
use crate::session::PlayerStack;

verus! {

/// The workspace and branch labels, side by side.
#[derive(Clone, Debug)]
pub struct ProjectInfo {
    pub workspace: Button,
    pub branch: Button,
}

/// The left part of the bar, in display order: the window controls, the
/// project labels, one stack per call participant, and the button that adds
/// a participant.
#[derive(Clone, Debug)]
pub struct LeftRegion {
    pub traffic_lights: TrafficLights,
    pub project_info: ProjectInfo,
    pub players: Vec<PlayerStack>,
    pub add_participant: IconButton,
}

/// The right part of the bar, in display order: the window actions, a
/// divider, the call controls, and the user's avatar.
#[derive(Clone, Debug)]
pub struct RightRegion {
    pub folder: IconButton,
    pub close: IconButton,
    pub divider: ToolDivider,
    pub mic: IconButton,
    pub audio: IconButton,
    pub screen_share: IconButton,
    pub avatar: Avatar,
}

/// The whole bar: a full-width horizontal strip of fixed height.
#[derive(Clone, Debug)]
pub struct TitleBarLayout {
    pub full_width: bool,
    /// Height in pixels.
    pub height: u32,
    pub background: Color,
    pub left: LeftRegion,
    pub right: RightRegion,
}

/// The left region with its participant stacks as a sequence.
pub ghost struct LeftRegionView {
    pub traffic_lights: TrafficLights,
    pub project_info: ProjectInfo,
    pub players: Seq<PlayerStack>,
    pub add_participant: IconButton,
}

/// The bar as a mathematical value: two layouts with equal views are
/// structurally identical.
pub ghost struct TitleBarLayoutView {
    pub full_width: bool,
    pub height: u32,
    pub background: Color,
    pub left: LeftRegionView,
    pub right: RightRegion,
}

impl View for LeftRegion {
    type V = LeftRegionView;

    open spec fn view(&self) -> LeftRegionView {
        LeftRegionView {
            traffic_lights: self.traffic_lights,
            project_info: self.project_info,
            players: self.players@,
            add_participant: self.add_participant,
        }
    }
}

impl View for TitleBarLayout {
    type V = TitleBarLayoutView;

    open spec fn view(&self) -> TitleBarLayoutView {
        TitleBarLayoutView {
            full_width: self.full_width,
            height: self.height,
            background: self.background,
            left: self.left@,
            right: self.right,
        }
    }
}

} // verus!
