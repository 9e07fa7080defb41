//! The title bar component: the window-activation tracker and the composer
//! of the bar's layout.
use vstd::prelude::*;
use crate::elements::{
    Avatar, Button, Color, Icon, IconButton, IconColor, Shape, Theme, ToolDivider, TrafficLights,
};
use crate::layout::{
    LeftRegion, LeftRegionView, ProjectInfo, RightRegion, TitleBarLayout, TitleBarLayoutView,
};
use crate::session::{player_stacks, participants_of, stacks_of, Livestream};

verus! {

/// Height of the bar in pixels.
pub const TITLE_BAR_HEIGHT: u32 = 32;

/// The parts of the bar that come from configuration rather than from
/// live state: the project labels and the user's avatar.
#[derive(Clone, Debug)]
pub struct TitleBarConfig {
    pub workspace_label: String,
    pub branch_label: String,
    pub avatar_src: String,
}

impl TitleBarConfig {
    pub fn new(workspace_label: String, branch_label: String, avatar_src: String) -> (r:
        TitleBarConfig)
        ensures
            r.workspace_label == workspace_label,
            r.branch_label == branch_label,
            r.avatar_src == avatar_src,
    {
        TitleBarConfig { workspace_label, branch_label, avatar_src }
    }
}

/// Whether the window-activation subscription still delivers events.
#[derive(Clone, Copy, Debug, PartialEq, Eq, Structural)]
pub enum Subscription {
    Live,
    Released,
}

/// A window's title bar.
#[derive(Clone, Debug)]
pub struct TitleBar {
    /// Whether the window is active from the OS's perspective, as last
    /// reported by the activation subscription.
    pub is_active: bool,
    pub subscription: Subscription,
    pub livestream: Option<Livestream>,
    pub config: TitleBarConfig,
}

/// The bar after an activation event: a live subscription stores the event's
/// value; a released one ignores it.
pub open spec fn after_activation(tb: TitleBar, is_active: bool) -> TitleBar {
    if tb.subscription == Subscription::Live {
        TitleBar { is_active, ..tb }
    } else {
        tb
    }
}

/// The bar after a sequence of activation events, delivered in order.
pub open spec fn after_activations(tb: TitleBar, events: Seq<bool>) -> TitleBar
    decreases events.len(),
{
    if events.len() == 0 {
        tb
    } else {
        after_activation(after_activations(tb, events.drop_last()), events.last())
    }
}

/// The bar with its session replaced.
pub open spec fn with_livestream(tb: TitleBar, livestream: Option<Livestream>) -> TitleBar {
    TitleBar { livestream, ..tb }
}

/// The layout that a bar in state `tb` composes, given whether the window is
/// active now and the current theme.
pub open spec fn composed(
    tb: TitleBar,
    window_is_active: bool,
    theme: Theme,
) -> TitleBarLayoutView {
    TitleBarLayoutView {
        full_width: true,
        height: TITLE_BAR_HEIGHT,
        background: theme.base_background,
        left: LeftRegionView {
            traffic_lights: TrafficLights { window_has_focus: window_is_active },
            project_info: ProjectInfo {
                workspace: Button { label: tb.config.workspace_label },
                branch: Button { label: tb.config.branch_label },
            },
            players: stacks_of(participants_of(tb.livestream)),
            add_participant: IconButton { icon: Icon::Plus, color: IconColor::Default },
        },
        right: RightRegion {
            folder: IconButton { icon: Icon::FolderX, color: IconColor::Default },
            close: IconButton { icon: Icon::Close, color: IconColor::Default },
            divider: ToolDivider {  },
            mic: IconButton { icon: Icon::Mic, color: IconColor::Default },
            audio: IconButton { icon: Icon::AudioOn, color: IconColor::Default },
            screen_share: IconButton { icon: Icon::Screen, color: IconColor::Accent },
            avatar: Avatar { src: tb.config.avatar_src, shape: Shape::RoundedRectangle },
        },
    }
}

/// After any non-empty sequence of activation events on a live subscription,
/// the stored flag is the last event's value; once the host's query agrees
/// with it, the window controls are drawn focused exactly when that last
/// event said the window is active. Nothing else in the bar changes.
pub proof fn lemma_activation_events(
    tb: TitleBar,
    events: Seq<bool>,
    window_is_active: bool,
    theme: Theme,
)
    requires
        tb.subscription == Subscription::Live,
        events.len() > 0,
        window_is_active == after_activations(tb, events).is_active,
    ensures
        after_activations(tb, events) == (TitleBar { is_active: events.last(), ..tb }),
        composed(after_activations(tb, events), window_is_active, theme).left.traffic_lights
            == (TrafficLights { window_has_focus: events.last() }),
    decreases events.len(),
{
    if events.len() > 1 {
        lemma_activation_events(
            tb,
            events.drop_last(),
            after_activations(tb, events.drop_last()).is_active,
            theme,
        );
    }
}

/// Once the subscription is released, no sequence of activation events
/// changes the bar.
pub proof fn lemma_released_ignores_events(tb: TitleBar, events: Seq<bool>)
    requires
        tb.subscription == Subscription::Released,
    ensures
        after_activations(tb, events) == tb,
    decreases events.len(),
{
    if events.len() > 0 {
        lemma_released_ignores_events(tb, events.drop_last());
    }
}

/// The composed bar holds exactly one participant stack per participant of
/// the session, in the session's order, and none without a session.
pub proof fn lemma_participant_stacks(tb: TitleBar, window_is_active: bool, theme: Theme)
    ensures
        ({
            let stacks = composed(tb, window_is_active, theme).left.players;
            let players = participants_of(tb.livestream);
            &&& stacks.len() == players.len()
            &&& forall|i: int| 0 <= i < players.len() ==> (#[trigger] stacks[i]).player == players[i]
            &&& tb.livestream is None ==> stacks.len() == 0
        }),
{
}

/// Rendering twice with unchanged state gives structurally identical
/// layouts.
pub proof fn lemma_render_idempotent(
    tb: TitleBar,
    window_is_active: bool,
    theme: Theme,
    first: TitleBarLayout,
    second: TitleBarLayout,
)
    requires
        first@ == composed(tb, window_is_active, theme),
        second@ == composed(tb, window_is_active, theme),
    ensures
        first@ == second@,
{
}

/// Removing, adding and removing again a session is reflected each time:
/// no stacks without it, one per participant with it, and after its removal
/// the bar is again what it was before it came, with no stack left over.
pub proof fn lemma_session_replacement(
    tb: TitleBar,
    livestream: Livestream,
    window_is_active: bool,
    theme: Theme,
)
    ensures
        ({
            let absent = with_livestream(tb, None);
            let present = with_livestream(absent, Some(livestream));
            let removed = with_livestream(present, None);
            let before = composed(absent, window_is_active, theme);
            let during = composed(present, window_is_active, theme);
            &&& before.left.players.len() == 0
            &&& during.left.players == stacks_of(livestream.players@)
            &&& during == (TitleBarLayoutView {
                left: LeftRegionView { players: stacks_of(livestream.players@), ..before.left },
                ..before
            })
            &&& composed(removed, window_is_active, theme) == before
        }),
{
}

impl TitleBar {
    /// A bar with no session, assumed active until told otherwise, whose
    /// activation subscription is live.
    pub fn new(config: TitleBarConfig) -> (r: TitleBar)
        ensures
            r == (TitleBar {
                is_active: true,
                subscription: Subscription::Live,
                livestream: None,
                config,
            }),
    {
        TitleBar { is_active: true, subscription: Subscription::Live, livestream: None, config }
    }

    /// Replaces the session; `None` removes the call from the bar.
    pub fn set_livestream(self, livestream: Option<Livestream>) -> (r: TitleBar)
        ensures
            r == with_livestream(self, livestream),
    {
        let mut tb = self;
        tb.livestream = livestream;
        tb
    }

    /// Handles one activation event. Returns whether the bar asks to be
    /// rendered again: it does exactly when the subscription is live.
    pub fn on_window_activation(&mut self, is_active: bool) -> (notify: bool)
        ensures
            *final(self) == after_activation(*old(self), is_active),
            notify == (old(self).subscription == Subscription::Live),
    {
        if self.subscription == Subscription::Live {
            self.is_active = is_active;
            true
        } else {
            false
        }
    }

    /// Releases the activation subscription: later events are ignored.
    pub fn release(&mut self)
        ensures
            *final(self) == (TitleBar { subscription: Subscription::Released, ..*old(self) }),
    {
        self.subscription = Subscription::Released;
    }

    /// Composes the bar's layout. `window_is_active` is the host's answer to
    /// whether the window is active now, which decides how the window
    /// controls are drawn.
    pub fn render(&self, window_is_active: bool, theme: &Theme) -> (r: TitleBarLayout)
        ensures
            r@ == composed(*self, window_is_active, *theme),
    {
        let left = LeftRegion {
            traffic_lights: TrafficLights::new().window_has_focus(window_is_active),
            project_info: ProjectInfo {
                workspace: Button::new(&self.config.workspace_label),
                branch: Button::new(&self.config.branch_label),
            },
            players: player_stacks(&self.livestream),
            add_participant: IconButton::new(Icon::Plus),
        };
        let right = RightRegion {
            folder: IconButton::new(Icon::FolderX),
            close: IconButton::new(Icon::Close),
            divider: ToolDivider {  },
            mic: IconButton::new(Icon::Mic),
            audio: IconButton::new(Icon::AudioOn),
            screen_share: IconButton::new(Icon::Screen).color(IconColor::Accent),
            avatar: Avatar::new(&self.config.avatar_src).shape(Shape::RoundedRectangle),
        };
        TitleBarLayout {
            full_width: true,
            height: TITLE_BAR_HEIGHT,
            background: theme.base_background,
            left,
            right,
        }
    }
}

} // verus!
