use ui::{
    player_stacks, Color, Icon, IconColor, Livestream, PlayerWithCallStatus, Shape, Subscription,
    Theme, TitleBar, TitleBarConfig, TitleBarLayout, TITLE_BAR_HEIGHT,
};

fn theme() -> Theme {
    Theme { base_background: Color { r: 30, g: 31, b: 34, a: 255 } }
}

fn config() -> TitleBarConfig {
    TitleBarConfig::new(
        "zed".to_string(),
        "nate/gpui2-ui-components".to_string(),
        "https://avatars.githubusercontent.com/u/1714999?v=4".to_string(),
    )
}

fn player(name: &str, muted: bool) -> PlayerWithCallStatus {
    PlayerWithCallStatus {
        username: name.to_string(),
        avatar_src: format!("https://example.com/{}.png", name),
        is_muted: muted,
        is_speaking: false,
    }
}

fn session(names: &[&str]) -> Livestream {
    Livestream {
        players: names.iter().map(|n| player(n, false)).collect(),
        channel: Some("general".to_string()),
    }
}

fn names(layout: &TitleBarLayout) -> Vec<String> {
    layout.left.players.iter().map(|s| s.player.username.clone()).collect()
}

fn without_players(layout: &TitleBarLayout) -> String {
    let mut l = layout.clone();
    l.left.players.clear();
    format!("{:?}", l)
}

#[test]
fn scenario_session_and_activation() {
    let th = theme();
    let mut bar = TitleBar::new(config());
    assert!(bar.is_active);

    let first = bar.render(bar.is_active, &th);
    assert!(first.left.traffic_lights.window_has_focus);
    assert_eq!(first.left.project_info.workspace.label, "zed");
    assert_eq!(first.left.project_info.branch.label, "nate/gpui2-ui-components");
    assert_eq!(first.left.players.len(), 0);
    assert_eq!(first.left.add_participant.icon, Icon::Plus);

    bar = bar.set_livestream(Some(session(&["A", "B"])));
    let second = bar.render(bar.is_active, &th);
    assert_eq!(names(&second), vec!["A".to_string(), "B".to_string()]);
    assert_eq!(without_players(&second), without_players(&first));

    assert!(bar.on_window_activation(false));
    let third = bar.render(bar.is_active, &th);
    assert!(!third.left.traffic_lights.window_has_focus);
    let mut refocused = third.clone();
    refocused.left.traffic_lights.window_has_focus = true;
    assert_eq!(format!("{:?}", refocused), format!("{:?}", second));

    bar = bar.set_livestream(None);
    let fourth = bar.render(bar.is_active, &th);
    assert_eq!(fourth.left.players.len(), 0);
    assert_eq!(without_players(&fourth), without_players(&third));
}

#[test]
fn activation_events_leave_the_last_value() {
    let mut bar = TitleBar::new(config());
    for e in [false, true, true, false] {
        assert!(bar.on_window_activation(e));
    }
    assert!(!bar.is_active);
    let layout = bar.render(bar.is_active, &theme());
    assert!(!layout.left.traffic_lights.window_has_focus);
    assert!(bar.on_window_activation(true));
    assert!(bar.is_active);
    assert!(bar.render(bar.is_active, &theme()).left.traffic_lights.window_has_focus);
}

#[test]
fn render_follows_the_host_query() {
    let bar = TitleBar::new(config());
    assert!(bar.is_active);
    assert!(!bar.render(false, &theme()).left.traffic_lights.window_has_focus);
}

#[test]
fn released_subscription_ignores_events() {
    let mut bar = TitleBar::new(config());
    assert_eq!(bar.subscription, Subscription::Live);
    bar.release();
    assert_eq!(bar.subscription, Subscription::Released);
    assert!(!bar.on_window_activation(false));
    assert!(bar.is_active);
}

#[test]
fn one_stack_per_participant_in_order() {
    let bar = TitleBar::new(config()).set_livestream(Some(session(&["c", "a", "b", "a"])));
    let layout = bar.render(true, &theme());
    assert_eq!(names(&layout), vec!["c", "a", "b", "a"]);
}

#[test]
fn empty_session_gives_no_stacks() {
    let bar = TitleBar::new(config()).set_livestream(Some(session(&[])));
    assert_eq!(bar.render(true, &theme()).left.players.len(), 0);
    assert!(player_stacks(&None).is_empty());
}

#[test]
fn stacks_keep_the_participants_values() {
    let live = Livestream { players: vec![player("m", true)], channel: None };
    let stacks = player_stacks(&Some(live));
    assert_eq!(stacks.len(), 1);
    assert_eq!(stacks[0].player.username, "m");
    assert_eq!(stacks[0].player.avatar_src, "https://example.com/m.png");
    assert!(stacks[0].player.is_muted);
    assert!(!stacks[0].player.is_speaking);
}

#[test]
fn render_twice_is_identical() {
    let bar = TitleBar::new(config()).set_livestream(Some(session(&["x", "y"])));
    let a = bar.render(true, &theme());
    let b = bar.render(true, &theme());
    assert_eq!(format!("{:?}", a), format!("{:?}", b));
}

#[test]
fn session_replacement_leaves_nothing_behind() {
    let th = theme();
    let bar = TitleBar::new(config()).set_livestream(None);
    let absent = bar.render(true, &th);
    let bar = bar.set_livestream(Some(session(&["p", "q", "r"])));
    let present = bar.render(true, &th);
    assert_eq!(names(&present), vec!["p", "q", "r"]);
    let bar = bar.set_livestream(None);
    let removed = bar.render(true, &th);
    assert_eq!(format!("{:?}", removed), format!("{:?}", absent));
}

#[test]
fn fixed_parts_of_the_bar() {
    let layout = TitleBar::new(config()).render(true, &theme());
    assert!(layout.full_width);
    assert_eq!(layout.height, 32);
    assert_eq!(TITLE_BAR_HEIGHT, 32);
    assert_eq!(layout.background, Color { r: 30, g: 31, b: 34, a: 255 });
    let right = &layout.right;
    assert_eq!(right.folder.icon, Icon::FolderX);
    assert_eq!(right.close.icon, Icon::Close);
    assert_eq!(right.mic.icon, Icon::Mic);
    assert_eq!(right.audio.icon, Icon::AudioOn);
    assert_eq!(right.screen_share.icon, Icon::Screen);
    assert_eq!(right.screen_share.color, IconColor::Accent);
    assert_eq!(right.mic.color, IconColor::Default);
    assert_eq!(right.avatar.src, "https://avatars.githubusercontent.com/u/1714999?v=4");
    assert_eq!(right.avatar.shape, Shape::RoundedRectangle);
}

#[test]
fn configured_labels_and_avatar() {
    let cfg = TitleBarConfig::new("ws".to_string(), "main".to_string(), "me.png".to_string());
    let layout = TitleBar::new(cfg).render(true, &theme());
    assert_eq!(layout.left.project_info.workspace.label, "ws");
    assert_eq!(layout.left.project_info.branch.label, "main");
    assert_eq!(layout.right.avatar.src, "me.png");
}
