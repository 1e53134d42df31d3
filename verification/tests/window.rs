use zenith::launcher::{
    Auth, Launcher, Play, Press, RunState, Screen, SignInAction, SignInEvent, ToastKind,
    TICK_MILLIS, TOAST_SECONDS,
};
use zenith::log::{info, Bus, Level};
use zenith::net::auth::DeviceCode;
use zenith::screen::{
    account_card, nav_items, render_console, render_context_menu, render_home, render_main,
    render_play_button, render_progress, render_toast, render_toasts, Avatar, Body, ConsoleAction,
    PlayPress, COMING_SOON, VISIBLE,
};
use zenith::{Loader, Session, VersionEntry};

fn version(id: &str, kind: &str) -> VersionEntry {
    VersionEntry { id: id.to_string(), kind: kind.to_string(), url: String::new() }
}

fn opened() -> Launcher {
    let mut l = Launcher::new();
    let line = l.load_versions(Ok(vec![
        version("1.21", "release"),
        version("24w1", "snapshot"),
        version("1.20", "release"),
        version("1.19", "release"),
    ]));
    assert_eq!(line.as_deref(), Some("Loaded 3 releases."));
    l
}

#[test]
fn launcher_opens_idle() {
    let l = Launcher::new();
    assert_eq!(l.status, "Loading versions…");
    assert_eq!(l.run, RunState::Idle);
    assert_eq!(l.loader, Loader::Vanilla);
    assert_eq!(l.view, Screen::Home);
    assert_eq!(l.current(), "—");
    assert!(matches!(l.auth, Auth::Out));
}

#[test]
fn releases_are_offered() {
    let l = opened();
    assert_eq!(l.status, "3 versions available");
    assert_eq!(l.entries.len(), 3);
    assert_eq!(l.current(), "1.21");
}

#[test]
fn version_list_failure_is_shown() {
    let mut l = Launcher::new();
    assert!(l.load_versions(Err("offline".to_string())).is_none());
    assert_eq!(l.status, "Failed to load versions");
    assert_eq!(l.toasts.len(), 1);
    assert_eq!(l.toasts[0].title, "Version list failed");
    assert_eq!(l.toasts[0].message, "offline");
    assert_eq!(l.toasts[0].kind, ToastKind::Error);
}

#[test]
fn cycling_goes_around() {
    let mut l = opened();
    l.cycle(-1);
    assert_eq!(l.current(), "1.19");
    l.cycle(1);
    assert_eq!(l.current(), "1.21");
    l.cycle(3);
    assert_eq!(l.current(), "1.21");
    l.cycle(-7);
    assert_eq!(l.selected, 2);
    let mut empty = Launcher::new();
    empty.cycle(1);
    assert_eq!(empty.selected, 0);
}

#[test]
fn playing_starts_once() {
    let mut l = opened();
    l.loader = Loader::Fabric;
    match l.play() {
        Play::Start { entry, account, loader, notice, dismiss } => {
            assert_eq!(entry.id, "1.21");
            assert_eq!(account.username, "Player");
            assert_eq!(account.uuid, "a01e3843-e521-3998-958a-f459800e4d11");
            assert_eq!(loader, Loader::Fabric);
            assert_eq!(notice, "Play requested: 1.21 Fabric as Player");
            assert_eq!(dismiss, 0);
        }
        _ => panic!("not started"),
    }
    assert_eq!(l.run, RunState::Starting);
    assert_eq!(l.status, "Starting 1.21 · Fabric…");
    assert_eq!(l.toasts[0].message, "Preparing 1.21 · Fabric (first run downloads files)");
    assert!(matches!(l.play(), Play::Busy));
    assert_eq!(l.toasts.len(), 1);
    assert_eq!(l.play_finished("1.21", None), Some(1));
    assert_eq!(l.run, RunState::Running);
    assert_eq!(l.status, "Running 1.21");
    assert_eq!(l.toasts[1].message, "1.21 is running");
}

#[test]
fn playing_needs_a_version() {
    let mut l = Launcher::new();
    assert!(matches!(l.play(), Play::NoVersion { dismiss: 0 }));
    assert_eq!(l.run, RunState::Idle);
    assert_eq!(l.toasts[0].message, "Versions haven't loaded yet.");
}

#[test]
fn failed_launch_is_idle_again() {
    let mut l = opened();
    let _ = l.play();
    assert_eq!(l.play_finished("1.21", Some("no java".to_string())), None);
    assert_eq!(l.run, RunState::Idle);
    assert_eq!(l.status, "Launch failed");
    assert_eq!(l.toasts[1].title, "Launch failed");
    assert_eq!(l.toasts[1].message, "no java");
}

#[test]
fn stopping_needs_a_running_game() {
    let mut l = opened();
    assert!(l.stop().is_none());
    assert!(l.toasts.is_empty());
    l.run = RunState::Running;
    assert_eq!(l.stop(), Some(0));
    assert_eq!(l.status, "Stopping…");
    assert_eq!(l.toasts[0].message, "Closing the game…");
    assert_eq!(l.run, RunState::Running);
}

#[test]
fn ticks_reconcile_and_redraw() {
    let mut l = opened();
    let t = l.tick(false, false);
    assert!(!t.redraw && !t.follow);
    assert!(l.tick(false, true).redraw);
    l.run = RunState::Running;
    assert!(l.tick(true, false).redraw);
    assert_eq!(l.run, RunState::Running);
    let t = l.tick(false, false);
    assert_eq!(l.run, RunState::Idle);
    assert_eq!(l.status, "Ready");
    assert!(!t.redraw);
    l.view = Screen::Console;
    let t = l.tick(false, false);
    assert!(t.redraw && t.follow);
}

#[test]
fn toasts_come_and_go() {
    assert_eq!((TOAST_SECONDS, TICK_MILLIS), (4, 400));
    let mut l = Launcher::new();
    assert_eq!(l.toast(ToastKind::Info, "a", "1".to_string(), false), Some(0));
    assert_eq!(l.toast(ToastKind::Error, "b", "2".to_string(), true), None);
    assert_eq!(l.toast(ToastKind::Success, "c", "3".to_string(), false), Some(2));
    l.dismiss_toast(1);
    let ids: Vec<u64> = l.toasts.iter().map(|t| t.id).collect();
    assert_eq!(ids, vec![0, 2]);
    l.dismiss_toast(7);
    assert_eq!(l.toasts.len(), 2);
    assert_eq!(l.next_toast_id, 3);
}

fn code() -> DeviceCode {
    DeviceCode {
        device_code: "dev".to_string(),
        user_code: "ABCD".to_string(),
        verification_uri: "https://ms/link".to_string(),
        interval: 5,
        expires_in: 900,
    }
}

#[test]
fn signing_in_runs_through() {
    let mut l = Launcher::new();
    assert_eq!(l.press_account(), Press::SignIn);
    assert!(matches!(l.sign_in(SignInEvent::Start), SignInAction::RequestCode));
    assert_eq!(l.press_account(), Press::Nothing);
    let card = account_card(&l.auth);
    assert_eq!(card.detail, "Code: …");
    assert_eq!(card.button, "Waiting…");
    assert!(!card.ready);
    assert!(matches!(l.sign_in(SignInEvent::Code(Ok(code()))), SignInAction::Poll(_)));
    assert_eq!(l.toasts[0].title, "Your sign-in code");
    let card = account_card(&l.auth);
    assert_eq!(card.avatar, Avatar::Pending);
    assert_eq!(card.chips.len(), 2);
    assert_eq!(card.chips[0].label, "⧉  Copy code: ABCD");
    assert_eq!(card.chips[0].payload, "ABCD");
    assert_eq!(card.chips[1].payload, "https://ms/link");
    match l.sign_in(SignInEvent::Token(Ok("tok".to_string()))) {
        SignInAction::Exchange(t) => assert_eq!(t, "tok"),
        _ => panic!("not exchanged"),
    }
    let session = Session {
        username: "Notch".to_string(),
        uuid: "u".to_string(),
        access_token: "mc".to_string(),
    };
    assert!(matches!(l.sign_in(SignInEvent::Signed(Ok(session))), SignInAction::Welcome(1)));
    assert_eq!(l.toasts[1].message, "Welcome, Notch");
    let card = account_card(&l.auth);
    assert_eq!(card.title, "Notch");
    assert_eq!(card.button, "Sign out");
    let _ = l.load_versions(Ok(vec![version("1.21", "release")]));
    match l.play() {
        Play::Start { account, .. } => assert_eq!(account.username, "Notch"),
        _ => panic!("not started"),
    }
    assert_eq!(l.press_account(), Press::SignedOut);
    assert_eq!(account_card(&l.auth).title, "Not signed in");
}

#[test]
fn signing_in_fails_at_each_stage() {
    let stages = vec![
        SignInEvent::Code(Err("e".to_string())),
        SignInEvent::Token(Err("e".to_string())),
        SignInEvent::Signed(Err("e".to_string())),
    ];
    for stage in stages {
        let mut l = Launcher::new();
        let _ = l.sign_in(SignInEvent::Start);
        assert!(matches!(l.sign_in(stage), SignInAction::Failed));
        assert_eq!(l.toasts[0].title, "Sign-in failed");
        let card = account_card(&l.auth);
        assert_eq!(card.reason.as_deref(), Some("e"));
        assert_eq!(card.detail, "Tap to retry");
        assert_eq!(card.button, "Sign in with Microsoft");
        assert_eq!(l.press_account(), Press::SignIn);
    }
}

#[test]
fn sidebar_and_main_area() {
    let items = nav_items(Screen::Console);
    let labels: Vec<&str> = items.iter().map(|i| i.label).collect();
    assert_eq!(labels, vec!["Home", "Instances", "Mods", "Console", "Settings"]);
    let active: Vec<bool> = items.iter().map(|i| i.active).collect();
    assert_eq!(active, vec![false, false, false, true, false]);
    assert_eq!(render_main(Screen::Home), Body::Home);
    assert_eq!(render_main(Screen::Console), Body::Console);
    assert_eq!(render_main(Screen::Mods), Body::Placeholder(Screen::Mods));
    assert_eq!(COMING_SOON, "Coming soon.");
}

#[test]
fn home_screen() {
    let mut l = opened();
    l.loader = Loader::Quilt;
    let home = render_home(&l);
    assert_eq!(home.subtitle, "Java Edition · 1.21 · Quilt");
    assert_eq!(home.version, "1.21");
    assert_eq!(home.status, "3 versions available");
    let active: Vec<bool> = home.loaders.iter().map(|c| c.active).collect();
    assert_eq!(active, vec![false, false, true, false, false]);
    assert_eq!(home.loaders[4].label, "NeoForge");
    assert_eq!(home.play.label, "Play");
}

#[test]
fn play_button_states() {
    let b = render_play_button(RunState::Idle);
    assert_eq!((b.label, b.press), ("Play", PlayPress::Play));
    let b = render_play_button(RunState::Starting);
    assert_eq!((b.label, b.press), ("Starting…", PlayPress::Nothing));
    let b = render_play_button(RunState::Running);
    assert_eq!((b.label, b.press), ("Stop", PlayPress::Stop));
}

#[test]
fn console_shows_the_most_recent_lines() {
    let mut bus = Bus::new();
    for i in 0..VISIBLE {
        info(&mut bus, format!("{i}"));
    }
    let c = render_console(&bus);
    assert_eq!(c.caption, "400 lines");
    assert_eq!(c.lines.len(), 400);
    info(&mut bus, "last".to_string());
    let c = render_console(&bus);
    assert_eq!(c.caption, "401 lines (showing last 400)");
    assert_eq!(c.lines.len(), 400);
    assert_eq!(c.lines[0].line.text, "1");
    assert_eq!(c.lines[0].key, "console-line-0");
    assert_eq!(c.lines[399].line.text, "last");
    assert_eq!(c.lines[399].line.level, Level::Info);
}

#[test]
fn toast_cards_and_menu() {
    let mut l = Launcher::new();
    let _ = l.toast(ToastKind::Success, "Copied", "Copied to clipboard".to_string(), false);
    let card = render_toast(&l.toasts[0]);
    assert_eq!(card.key, "toast-0");
    assert_eq!(card.copy_key, "toast-copy-0");
    assert_eq!(card.close_key, "toast-close-0");
    assert_eq!(card.body_key, "toast-body-0");
    assert_eq!(card.message, "Copied to clipboard");
    assert_eq!(render_toasts(&l.toasts).len(), 1);
    let menu = render_context_menu();
    let labels: Vec<&str> = menu.iter().map(|m| m.label).collect();
    assert_eq!(labels, vec!["Copy all", "Scroll to bottom", "Clear"]);
    assert_eq!(menu[1].action, ConsoleAction::ScrollToBottom);
    assert_eq!(
        render_progress("Assets", 7, 350, 5000),
        ("Assets · 7%".to_string(), "350/5000".to_string())
    );
}

#[test]
fn full_toast_counter_stops_only_toasts() {
    let mut l = Launcher::new();
    l.next_toast_id = u64::MAX;
    assert!(l.load_versions(Ok(vec![version("1.21", "release")])).is_some());
    assert!(l.stop().is_none());
    l.run = RunState::Starting;
    assert!(matches!(l.play(), Play::Busy));
    assert!(matches!(l.sign_in(SignInEvent::Start), SignInAction::RequestCode));
    assert!(matches!(
        l.sign_in(SignInEvent::Token(Ok("t".to_string()))),
        SignInAction::Exchange(_)
    ));
    let mut empty = Launcher::new();
    empty.selected = usize::MAX;
    empty.cycle(isize::MAX);
    assert_eq!(empty.selected, usize::MAX);
}
