//! A window title bar: an activation tracker and a composer that turns the
//! bar's state into a declarative layout description.

pub mod elements;
pub mod session;
pub mod layout;
pub mod title_bar;

pub use elements::{
    Avatar, Button, Color, Icon, IconButton, IconColor, Shape, Theme, ToolDivider, TrafficLights,
};
pub use layout::{LeftRegion, ProjectInfo, RightRegion, TitleBarLayout};
pub use session::{player_stacks, Livestream, PlayerStack, PlayerWithCallStatus};
pub use title_bar::{Subscription, TitleBar, TitleBarConfig, TITLE_BAR_HEIGHT};
