//! The visual primitives that a title bar is composed of. Each is a plain
//! value that describes what the host's rendering engine should draw.
use vstd::prelude::*;

verus! {

/// A colour with 8-bit red, green, blue and alpha channels.
#[derive(Clone, Copy, Debug, PartialEq, Eq, Structural)]
pub struct Color {
    pub r: u8,
    pub g: u8,
    pub b: u8,
    pub a: u8,
}

/// The part of the host's theme that the title bar reads.
#[derive(Clone, Copy, Debug, PartialEq, Eq, Structural)]
pub struct Theme {
    /// Background of the lowest, base surface.
    pub base_background: Color,
}

/// The icons that icon buttons of the title bar show.
#[derive(Clone, Copy, Debug, PartialEq, Eq, Structural)]
pub enum Icon {
    Plus,
    FolderX,
    Close,
    Mic,
    AudioOn,
    Screen,
}

/// How an icon is tinted.
#[derive(Clone, Copy, Debug, PartialEq, Eq, Structural)]
pub enum IconColor {
    Default,
    Accent,
}

/// How an avatar image is clipped.
#[derive(Clone, Copy, Debug, PartialEq, Eq, Structural)]
pub enum Shape {
    Circle,
    RoundedRectangle,
}

/// The window's close / minimise / zoom controls.
#[derive(Clone, Copy, Debug, PartialEq, Eq, Structural)]
pub struct TrafficLights {
    /// Whether the controls are drawn in their focused variant.
    pub window_has_focus: bool,
}

impl TrafficLights {
    pub fn new() -> (r: TrafficLights)
        ensures
            r.window_has_focus == false,
    {
        TrafficLights { window_has_focus: false }
    }

    pub fn window_has_focus(self, has_focus: bool) -> (r: TrafficLights)
        ensures
            r.window_has_focus == has_focus,
    {
        TrafficLights { window_has_focus: has_focus }
    }
}

/// A button that shows a text label.
#[derive(Clone, Debug)]
pub struct Button {
    pub label: String,
}

impl Button {
    pub fn new(label: &String) -> (r: Button)
        ensures
            r.label == *label,
    {
        Button { label: label.clone() }
    }
}

/// A button that shows an icon.
#[derive(Clone, Copy, Debug, PartialEq, Eq, Structural)]
pub struct IconButton {
    pub icon: Icon,
    pub color: IconColor,
}

impl IconButton {
    pub fn new(icon: Icon) -> (r: IconButton)
        ensures
            r == (IconButton { icon, color: IconColor::Default }),
    {
        IconButton { icon, color: IconColor::Default }
    }

    pub fn color(self, color: IconColor) -> (r: IconButton)
        ensures
            r == (IconButton { icon: self.icon, color }),
    {
        IconButton { icon: self.icon, color }
    }
}

/// A vertical separator between two clusters of tools.
#[derive(Clone, Copy, Debug, PartialEq, Eq, Structural)]
pub struct ToolDivider {}

/// A user's picture.
#[derive(Clone, Debug)]
pub struct Avatar {
    pub src: String,
    pub shape: Shape,
}

impl Avatar {
    pub fn new(src: &String) -> (r: Avatar)
        ensures
            r.src == *src,
            r.shape == Shape::Circle,
    {
        Avatar { src: src.clone(), shape: Shape::Circle }
    }

    pub fn shape(self, shape: Shape) -> (r: Avatar)
        ensures
            r.src == self.src,
            r.shape == shape,
    {
        Avatar { src: self.src, shape }
    }
}

} // verus!
