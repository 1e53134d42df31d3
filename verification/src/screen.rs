//! What the window shows, as plain values: texts, keys, and what is active. Drawing and colours
//! are left to the program around the library.

use vstd::prelude::*;
use vstd::string::*;

use crate::launcher::{
    current_text, played, Auth, AuthText, Launcher, LauncherState, RunState, Screen, Toast,
    ToastKind,
};
use crate::log::{last_lines, len, tail, Bus, Line};
use crate::text::{decimal, decimal_text, law_decimals_differ};
use crate::types::{law_every_loader_is_offered_once, Loader};

verus! {

broadcast use vstd::seq::group_seq_axioms;

/// How many lines the console shows. An interactive element for each of thousands of lines would
/// be too much.
pub const VISIBLE: usize = 400;

// ---- navigation ----------------------------------------------------------

impl Screen {
    /// The name shown for the screen.
    pub open spec fn label_text(self) -> Seq<char> {
        match self {
            Screen::Home => "Home"@,
            Screen::Instances => "Instances"@,
            Screen::Mods => "Mods"@,
            Screen::Console => "Console"@,
            Screen::Settings => "Settings"@,
        }
    }

    /// The name shown for the screen.
    pub fn label(self) -> (r: &'static str)
        ensures
            r@ == self.label_text(),
    {
        match self {
            Screen::Home => "Home",
            Screen::Instances => "Instances",
            Screen::Mods => "Mods",
            Screen::Console => "Console",
            Screen::Settings => "Settings",
        }
    }

    /// Every screen, in the order of the sidebar.
    pub open spec fn listed() -> Seq<Screen> {
        seq![Screen::Home, Screen::Instances, Screen::Mods, Screen::Console, Screen::Settings]
    }
}

/// An entry of the sidebar.
pub struct NavItem {
    pub target: Screen,
    pub label: &'static str,
    pub active: bool,
}

fn nav_item(target: Screen, view: Screen) -> (r: NavItem)
    ensures
        r.target == target,
        r.label@ == target.label_text(),
        r.active == (target == view),
{
    NavItem { target, label: target.label(), active: target == view }
}

/// The entries of the sidebar while `view` is shown.
pub fn nav_items(view: Screen) -> (r: Vec<NavItem>)
    ensures
        r@.len() == Screen::listed().len(),
        forall|i: int|
            0 <= i < r@.len() ==> {
                &&& (#[trigger] r@[i]).target == Screen::listed()[i]
                &&& r@[i].label@ == Screen::listed()[i].label_text()
                &&& r@[i].active == (Screen::listed()[i] == view)
            },
{
    let mut out: Vec<NavItem> = Vec::new();
    out.push(nav_item(Screen::Home, view));
    out.push(nav_item(Screen::Instances, view));
    out.push(nav_item(Screen::Mods, view));
    out.push(nav_item(Screen::Console, view));
    out.push(nav_item(Screen::Settings, view));
    out
}

/// Whichever screen is shown, exactly one entry of the sidebar is active.
pub proof fn law_one_screen_is_active(view: Screen)
    ensures
        exists|i: int|
            0 <= i < Screen::listed().len() && #[trigger] Screen::listed()[i] == view && forall|
                j: int,
            |
                0 <= j < Screen::listed().len() && #[trigger] Screen::listed()[j] == view ==> j == i,
{
    match view {
        Screen::Home => { assert(Screen::listed()[0] == view); },
        Screen::Instances => { assert(Screen::listed()[1] == view); },
        Screen::Mods => { assert(Screen::listed()[2] == view); },
        Screen::Console => { assert(Screen::listed()[3] == view); },
        Screen::Settings => { assert(Screen::listed()[4] == view); },
    }
}

/// What stands below the title of the main area.
#[derive(Clone, Copy, PartialEq, Eq, Structural, Debug)]
pub enum Body {
    Home,
    Console,
    /// The name of the screen and this note.
    Placeholder(Screen),
}

/// What a placeholder says.
pub const COMING_SOON: &'static str = "Coming soon.";

/// What stands below the title while `view` is shown.
pub fn render_main(view: Screen) -> (r: Body)
    ensures
        r == (match view {
            Screen::Home => Body::Home,
            Screen::Console => Body::Console,
            other => Body::Placeholder(other),
        }),
{
    match view {
        Screen::Home => Body::Home,
        Screen::Console => Body::Console,
        other => Body::Placeholder(other),
    }
}

// ---- account card --------------------------------------------------------

/// The state of the account that the colour of its tile stands for.
#[derive(Clone, Copy, PartialEq, Eq, Structural, Debug)]
pub enum Avatar {
    Out,
    Pending,
    In,
    Failed,
}

/// A small clickable chip that copies its payload to the clipboard.
pub struct Chip {
    pub key: &'static str,
    pub label: String,
    pub payload: String,
}

/// The account card: a tile, two lines of text, chips, the reason of a failure, and a button.
pub struct AccountCard {
    pub avatar: Avatar,
    pub title: String,
    pub detail: String,
    pub chips: Vec<Chip>,
    pub reason: Option<String>,
    pub button: &'static str,
    /// False while a sign-in is in progress.
    pub ready: bool,
}

/// Whether a chip has the given key and texts.
pub open spec fn is_chip(chip: Chip, key: Seq<char>, label: Seq<char>, payload: Seq<char>) -> bool {
    chip.key@ == key && chip.label@ == label && chip.payload@ == payload
}

/// Whether `card` is the card for the account state `auth`.
pub open spec fn is_card(card: AccountCard, auth: AuthText) -> bool {
    match auth {
        AuthText::Out => {
            &&& card.avatar == Avatar::Out
            &&& card.title@ == "Not signed in"@
            &&& card.detail@ == "Offline"@
            &&& card.chips@.len() == 0
            &&& card.reason is None
            &&& card.button@ == "Sign in with Microsoft"@
            &&& card.ready
        },
        AuthText::Pending { code, url } => {
            &&& card.avatar == Avatar::Pending
            &&& card.title@ == "Signing in…"@
            &&& card.detail@ == "Code: "@ + code
            &&& card.chips@.len() == 2
            &&& is_chip(card.chips@[0], "copy-code"@, "⧉  Copy code: "@ + code, code)
            &&& is_chip(card.chips@[1], "copy-url"@, "⧉  Copy sign-in link"@, url)
            &&& card.reason is None
            &&& card.button@ == "Waiting…"@
            &&& !card.ready
        },
        AuthText::In { name, uuid } => {
            &&& card.avatar == Avatar::In
            &&& card.title@ == name
            &&& card.detail@ == "Microsoft account"@
            &&& card.chips@.len() == 0
            &&& card.reason is None
            &&& card.button@ == "Sign out"@
            &&& card.ready
        },
        AuthText::Failed(reason) => {
            &&& card.avatar == Avatar::Failed
            &&& card.title@ == "Sign-in failed"@
            &&& card.detail@ == "Tap to retry"@
            &&& card.chips@.len() == 0
            &&& card.reason matches Some(r) && r@ == reason
            &&& card.button@ == "Sign in with Microsoft"@
            &&& card.ready
        },
    }
}

/// The account card for the current auth state. While a sign-in is pending it has copyable chips
/// for the code and the link.
pub fn account_card(auth: &Auth) -> (r: AccountCard)
    ensures
        is_card(r, auth@),
{
    match auth {
        Auth::Out => AccountCard {
            avatar: Avatar::Out,
            title: "Not signed in".to_string(),
            detail: "Offline".to_string(),
            chips: Vec::new(),
            reason: None,
            button: "Sign in with Microsoft",
            ready: true,
        },
        Auth::Pending { code, url } => {
            let mut chips: Vec<Chip> = Vec::new();
            chips.push(
                Chip {
                    key: "copy-code",
                    label: "⧉  Copy code: ".to_string().concat(code.as_str()),
                    payload: code.clone(),
                },
            );
            chips.push(
                Chip {
                    key: "copy-url",
                    label: "⧉  Copy sign-in link".to_string(),
                    payload: url.clone(),
                },
            );
            AccountCard {
                avatar: Avatar::Pending,
                title: "Signing in…".to_string(),
                detail: "Code: ".to_string().concat(code.as_str()),
                chips,
                reason: None,
                button: "Waiting…",
                ready: false,
            }
        },
        Auth::In { name, uuid } => AccountCard {
            avatar: Avatar::In,
            title: name.clone(),
            detail: "Microsoft account".to_string(),
            chips: Vec::new(),
            reason: None,
            button: "Sign out",
            ready: true,
        },
        Auth::Failed(reason) => AccountCard {
            avatar: Avatar::Failed,
            title: "Sign-in failed".to_string(),
            detail: "Tap to retry".to_string(),
            chips: Vec::new(),
            reason: Some(reason.clone()),
            button: "Sign in with Microsoft",
            ready: true,
        },
    }
}

// ---- toasts --------------------------------------------------------------

/// A toast as it is shown, with a key for each of its parts. Clicking its body copies the message.
pub struct ToastCard {
    pub id: u64,
    pub kind: ToastKind,
    pub key: String,
    pub copy_key: String,
    pub close_key: String,
    pub body_key: String,
    pub title: String,
    pub message: String,
}

fn keyed(prefix: &str, id: u64) -> (r: String)
    ensures
        r@ == prefix@ + decimal_text(id as nat),
{
    prefix.to_string().concat(decimal(id).as_str())
}

/// Whether `card` shows `toast`.
pub open spec fn is_toast_card(card: ToastCard, toast: Toast) -> bool {
    &&& card.id == toast.id
    &&& card.kind == toast.kind
    &&& card.key@ == "toast-"@ + decimal_text(toast.id as nat)
    &&& card.copy_key@ == "toast-copy-"@ + decimal_text(toast.id as nat)
    &&& card.close_key@ == "toast-close-"@ + decimal_text(toast.id as nat)
    &&& card.body_key@ == "toast-body-"@ + decimal_text(toast.id as nat)
    &&& card.title@ == toast.title@
    &&& card.message@ == toast.message@
}

/// A toast as it is shown.
pub fn render_toast(toast: &Toast) -> (r: ToastCard)
    ensures
        is_toast_card(r, *toast),
{
    ToastCard {
        id: toast.id,
        kind: toast.kind,
        key: keyed("toast-", toast.id),
        copy_key: keyed("toast-copy-", toast.id),
        close_key: keyed("toast-close-", toast.id),
        body_key: keyed("toast-body-", toast.id),
        title: toast.title.clone(),
        message: toast.message.clone(),
    }
}

/// The toasts as they are shown, oldest first.
pub fn render_toasts(toasts: &Vec<Toast>) -> (r: Vec<ToastCard>)
    ensures
        r@.len() == toasts@.len(),
        forall|i: int| 0 <= i < r@.len() ==> is_toast_card(#[trigger] r@[i], toasts@[i]),
{
    let mut out: Vec<ToastCard> = Vec::new();
    let mut i: usize = 0;
    while i < toasts.len()
        invariant
            i <= toasts@.len(),
            out@.len() == i,
            forall|k: int| 0 <= k < i ==> is_toast_card(#[trigger] out@[k], toasts@[k]),
        decreases toasts@.len() - i,
    {
        out.push(render_toast(&toasts[i]));
        i += 1;
    }
    out
}

// ---- home ----------------------------------------------------------------

/// A chip that selects a loader.
pub struct LoaderChip {
    pub loader: Loader,
    pub label: &'static str,
    pub active: bool,
}

/// What pressing the play button asks for.
#[derive(Clone, Copy, PartialEq, Eq, Structural, Debug)]
pub enum PlayPress {
    Play,
    Nothing,
    Stop,
}

/// The primary action: Play (idle) / Starting… (disabled) / Stop (running).
pub struct PlayButton {
    pub label: &'static str,
    pub press: PlayPress,
}

/// Whether `button` is the primary action in the given run state.
pub open spec fn is_play_button(button: PlayButton, run: RunState) -> bool {
    match run {
        RunState::Idle => button.label@ == "Play"@ && button.press == PlayPress::Play,
        RunState::Starting => button.label@ == "Starting…"@ && button.press == PlayPress::Nothing,
        RunState::Running => button.label@ == "Stop"@ && button.press == PlayPress::Stop,
    }
}

/// The primary action in the given run state.
pub fn render_play_button(run: RunState) -> (r: PlayButton)
    ensures
        is_play_button(r, run),
{
    match run {
        RunState::Idle => PlayButton { label: "Play", press: PlayPress::Play },
        RunState::Starting => PlayButton { label: "Starting…", press: PlayPress::Nothing },
        RunState::Running => PlayButton { label: "Stop", press: PlayPress::Stop },
    }
}

/// The home screen.
pub struct HomeScreen {
    pub subtitle: String,
    pub loaders: Vec<LoaderChip>,
    pub version: String,
    pub status: String,
    pub play: PlayButton,
}

/// Whether `home` is the home screen of the launcher in the state `s`.
pub open spec fn is_home(home: HomeScreen, s: LauncherState) -> bool {
    &&& home.subtitle@ == "Java Edition · "@ + current_text(s) + " · "@ + s.loader.label_text()
    &&& home.loaders@.len() == Loader::offered().len()
    &&& forall|i: int|
        0 <= i < home.loaders@.len() ==> {
            &&& (#[trigger] home.loaders@[i]).loader == Loader::offered()[i]
            &&& home.loaders@[i].label@ == Loader::offered()[i].label_text()
            &&& home.loaders@[i].active == (Loader::offered()[i] == s.loader)
        }
    &&& home.version@ == current_text(s)
    &&& home.status@ == s.status
    &&& is_play_button(home.play, s.run)
}

/// The chips of all loaders.
fn loader_chips(selected: Loader) -> (r: Vec<LoaderChip>)
    ensures
        r@.len() == Loader::offered().len(),
        forall|i: int|
            0 <= i < r@.len() ==> {
                &&& (#[trigger] r@[i]).loader == Loader::offered()[i]
                &&& r@[i].label@ == Loader::offered()[i].label_text()
                &&& r@[i].active == (Loader::offered()[i] == selected)
            },
{
    let all = Loader::all();
    let mut out: Vec<LoaderChip> = Vec::new();
    let mut i: usize = 0;
    while i < 5
        invariant
            i <= 5,
            all@ == Loader::offered(),
            out@.len() == i,
            forall|k: int|
                0 <= k < i ==> {
                    &&& (#[trigger] out@[k]).loader == Loader::offered()[k]
                    &&& out@[k].label@ == Loader::offered()[k].label_text()
                    &&& out@[k].active == (Loader::offered()[k] == selected)
                },
        decreases 5 - i,
    {
        let loader = all[i];
        out.push(LoaderChip { loader, label: loader.label(), active: loader == selected });
        i += 1;
    }
    out
}

/// The home screen.
pub fn render_home(launcher: &Launcher) -> (r: HomeScreen)
    ensures
        is_home(r, launcher@),
{
    let version = launcher.current();
    let mut subtitle = "Java Edition · ".to_string();
    subtitle.append(version.as_str());
    subtitle.append(" · ");
    subtitle.append(launcher.loader.label());
    HomeScreen {
        subtitle,
        loaders: loader_chips(launcher.loader),
        version,
        status: launcher.status.clone(),
        play: render_play_button(launcher.run),
    }
}

// ---- console -------------------------------------------------------------

/// The colour of a line of the console stands for its level.
pub struct ConsoleLine {
    pub key: String,
    pub line: Line,
}

/// The console: a caption and the most recent lines. Clicking a line copies it.
pub struct ConsoleScreen {
    pub caption: String,
    pub lines: Vec<ConsoleLine>,
}

/// The caption of a console with `count` lines.
pub open spec fn caption_text(count: int) -> Seq<char> {
    if count > VISIBLE {
        decimal_text(count as nat) + " lines (showing last "@ + decimal_text(VISIBLE as nat) + ")"@
    } else {
        decimal_text(count as nat) + " lines"@
    }
}

/// Whether `r` shows the most recent of `lines`.
pub open spec fn is_console(r: ConsoleScreen, lines: Seq<Line>) -> bool {
    &&& r.caption@ == caption_text(lines.len() as int)
    &&& r.lines@.len() == last_lines(lines, VISIBLE as int).len()
    &&& forall|i: int|
        0 <= i < r.lines@.len() ==> (#[trigger] r.lines@[i]).line == last_lines(
            lines,
            VISIBLE as int,
        )[i]
}

/// The console. Only the most recent lines are shown.
pub fn render_console(bus: &Bus) -> (r: ConsoleScreen)
    ensures
        r.caption@ == caption_text(bus@.len() as int),
        r.lines@.len() == last_lines(bus@, VISIBLE as int).len(),
        forall|i: int|
            0 <= i < r.lines@.len() ==> {
                &&& (#[trigger] r.lines@[i]).key@ == "console-line-"@ + decimal_text(i as nat)
                &&& r.lines@[i].line == last_lines(bus@, VISIBLE as int)[i]
            },
        is_console(r, bus@),
{
    let count = len(bus);
    let mut caption = decimal(count as u64);
    if count > VISIBLE {
        caption.append(" lines (showing last ");
        caption.append(decimal(VISIBLE as u64).as_str());
        caption.append(")");
    } else {
        caption.append(" lines");
    }
    let shown = tail(bus, VISIBLE);
    let mut lines: Vec<ConsoleLine> = Vec::new();
    let mut i: usize = 0;
    while i < shown.len()
        invariant
            i <= shown@.len(),
            shown@ == last_lines(bus@, VISIBLE as int),
            lines@.len() == i,
            forall|k: int|
                0 <= k < i ==> {
                    &&& (#[trigger] lines@[k]).key@ == "console-line-"@ + decimal_text(k as nat)
                    &&& lines@[k].line == shown@[k]
                },
        decreases shown@.len() - i,
    {
        lines.push(
            ConsoleLine { key: keyed("console-line-", i as u64), line: shown[i].clone() },
        );
        i += 1;
    }
    ConsoleScreen { caption, lines }
}

/// What an entry of the console's menu does.
#[derive(Clone, Copy, PartialEq, Eq, Structural, Debug)]
pub enum ConsoleAction {
    CopyAll,
    ScrollToBottom,
    Clear,
}

/// An entry of the console's right-click menu.
pub struct MenuEntry {
    pub key: &'static str,
    pub label: &'static str,
    pub action: ConsoleAction,
}

/// The right-click menu of the console.
pub fn render_context_menu() -> (r: Vec<MenuEntry>)
    ensures
        r@.len() == 3,
        r@[0].key@ == "ctx-copy"@ && r@[0].label@ == "Copy all"@ && r@[0].action
            == ConsoleAction::CopyAll,
        r@[1].key@ == "ctx-bottom"@ && r@[1].label@ == "Scroll to bottom"@ && r@[1].action
            == ConsoleAction::ScrollToBottom,
        r@[2].key@ == "ctx-clear"@ && r@[2].label@ == "Clear"@ && r@[2].action
            == ConsoleAction::Clear,
{
    let mut out: Vec<MenuEntry> = Vec::new();
    out.push(
        MenuEntry { key: "ctx-copy", label: "Copy all", action: ConsoleAction::CopyAll },
    );
    out.push(
        MenuEntry {
            key: "ctx-bottom",
            label: "Scroll to bottom",
            action: ConsoleAction::ScrollToBottom,
        },
    );
    out.push(MenuEntry { key: "ctx-clear", label: "Clear", action: ConsoleAction::Clear });
    out
}

// ---- progress ------------------------------------------------------------

/// The two texts above the global progress bar: the label with the percentage, and the count.
pub fn render_progress(label: &str, pct: u32, done: usize, total: usize) -> (r: (String, String))
    ensures
        r.0@ == label@ + " · "@ + decimal_text(pct as nat) + "%"@,
        r.1@ == decimal_text(done as nat) + "/"@ + decimal_text(total as nat),
{
    let mut left = label.to_string();
    left.append(" · ");
    left.append(decimal(pct as u64).as_str());
    left.append("%");
    let mut right = decimal(done as u64);
    right.append("/");
    right.append(decimal(total as u64).as_str());
    (left, right)
}

// ---- what the window promises ----------------------------------------------

/// No two screens carry the same name.
pub proof fn law_screen_labels_differ(a: Screen, b: Screen)
    ensures
        a.label_text() == b.label_text() <==> a == b,
{
    reveal_strlit("Home");
    reveal_strlit("Instances");
    reveal_strlit("Mods");
    reveal_strlit("Console");
    reveal_strlit("Settings");
    assert("Home"@.len() == 4 && "Mods"@.len() == 4);
    assert("Home"@[0] == 'H' && "Mods"@[0] == 'M');
    assert("Instances"@.len() == 9 && "Console"@.len() == 7 && "Settings"@.len() == 8);
}

/// The home screen tells the truth about Play: it shows the version and the loader with which the
/// play button starts, and the button offers to play exactly while nothing runs.
pub proof fn law_home_shows_what_play_starts(home: HomeScreen, s: LauncherState)
    requires
        is_home(home, s),
        0 <= s.selected,
    ensures
        s.run == RunState::Idle && s.selected < s.entries.len() ==> {
            &&& played(s).1 matches Some(entry)
            &&& entry == s.entries[s.selected]
            &&& home.version@ == entry.id@
        },
        s.selected < s.entries.len() ==> home.version@ == s.entries[s.selected].id@,
        s.selected >= s.entries.len() ==> home.version@ == "—"@,
        home.subtitle@ == "Java Edition · "@ + home.version@ + " · "@ + s.loader.label_text(),
        home.status@ == s.status,
        home.play.press == PlayPress::Play <==> s.run == RunState::Idle,
        home.play.press == PlayPress::Stop <==> s.run == RunState::Running,
        home.play.press == PlayPress::Nothing <==> s.run == RunState::Starting,
{
}

/// What the play button says is what it does.
pub proof fn law_play_button_says_what_it_does(button: PlayButton, run: RunState)
    requires
        is_play_button(button, run),
    ensures
        button.press == PlayPress::Play ==> button.label@ == "Play"@,
        button.press == PlayPress::Nothing ==> button.label@ == "Starting…"@,
        button.press == PlayPress::Stop ==> button.label@ == "Stop"@,
{
}

/// The home screen offers every loader, each under its own name, and marks the chosen one alone.
pub proof fn law_home_marks_the_chosen_loader(home: HomeScreen, s: LauncherState, i: int)
    requires
        is_home(home, s),
        0 <= i < home.loaders@.len(),
    ensures
        home.loaders@.len() == 5,
        home.loaders@[i].label@ == home.loaders@[i].loader.label_text(),
        home.loaders@[i].active <==> home.loaders@[i].loader == s.loader,
        exists|k: int|
            0 <= k < home.loaders@.len() && (#[trigger] home.loaders@[k]).loader == s.loader,
{
    law_every_loader_is_offered_once(s.loader);
    let k = choose|k: int|
        0 <= k < Loader::offered().len() && #[trigger] Loader::offered()[k] == s.loader;
    assert(home.loaders@[k].loader == s.loader);
}

/// The account card shows the account: the name of who is signed in; while a sign-in is pending
/// its code, with a chip that copies the code and one that copies the address; the reason of a
/// failure. Its button is ready but for the time of a sign-in, and signs out exactly who is
/// signed in.
pub proof fn law_account_card_shows_the_account(card: AccountCard, auth: AuthText)
    requires
        is_card(card, auth),
    ensures
        auth matches AuthText::In { name, uuid } ==> card.title@ == name && card.detail@
            == "Microsoft account"@,
        auth is Out ==> card.title@ == "Not signed in"@ && card.detail@ == "Offline"@,
        auth is Pending ==> card.title@ == "Signing in…"@,
        auth is Failed ==> card.title@ == "Sign-in failed"@ && card.detail@ == "Tap to retry"@,
        auth matches AuthText::Pending { code, url } ==> {
            &&& card.detail@ == "Code: "@ + code
            &&& card.chips@.len() == 2
            &&& card.chips@[0].payload@ == code
            &&& card.chips@[0].label@ == "⧉  Copy code: "@ + code
            &&& card.chips@[1].payload@ == url
        },
        !(auth is Pending) ==> card.chips@.len() == 0,
        auth matches AuthText::Failed(reason) ==> card.reason is Some && card.reason->Some_0@
            == reason,
        !(auth is Failed) ==> card.reason is None,
        card.ready <==> !(auth is Pending),
        auth is In ==> card.button@ == "Sign out"@,
        auth is Pending ==> card.button@ == "Waiting…"@,
        auth is Out || auth is Failed ==> card.button@ == "Sign in with Microsoft"@,
        card.avatar == Avatar::In <==> auth is In,
        card.avatar == Avatar::Pending <==> auth is Pending,
        card.avatar == Avatar::Failed <==> auth is Failed,
{
}

/// A toast is shown as it is, and clicking copies its own message: the card has the toast's kind,
/// title and message, and closes that toast.
pub proof fn law_toast_card_shows_its_toast(card: ToastCard, toast: Toast)
    requires
        is_toast_card(card, toast),
    ensures
        card.id == toast.id,
        card.kind == toast.kind,
        card.title@ == toast.title@,
        card.message@ == toast.message@,
{
}

/// Two toasts never share a key: cards of toasts with different ids have different keys.
pub proof fn law_toast_keys_differ(a: ToastCard, b: ToastCard, first: Toast, second: Toast)
    requires
        is_toast_card(a, first),
        is_toast_card(b, second),
        first.id != second.id,
    ensures
        a.key@ != b.key@,
        a.copy_key@ != b.copy_key@,
        a.close_key@ != b.close_key@,
        a.body_key@ != b.body_key@,
{
    let m = first.id as nat;
    let n = second.id as nat;
    law_decimals_differ(m, n);
    if "toast-"@ + decimal_text(m) == "toast-"@ + decimal_text(n) {
        lemma_same_prefix("toast-"@, decimal_text(m), decimal_text(n));
    }
    if "toast-copy-"@ + decimal_text(m) == "toast-copy-"@ + decimal_text(n) {
        lemma_same_prefix("toast-copy-"@, decimal_text(m), decimal_text(n));
    }
    if "toast-close-"@ + decimal_text(m) == "toast-close-"@ + decimal_text(n) {
        lemma_same_prefix("toast-close-"@, decimal_text(m), decimal_text(n));
    }
    if "toast-body-"@ + decimal_text(m) == "toast-body-"@ + decimal_text(n) {
        lemma_same_prefix("toast-body-"@, decimal_text(m), decimal_text(n));
    }
}

proof fn lemma_same_prefix(prefix: Seq<char>, a: Seq<char>, b: Seq<char>)
    requires
        prefix + a == prefix + b,
    ensures
        a == b,
{
    assert((prefix + a).skip(prefix.len() as int) =~= a);
    assert((prefix + b).skip(prefix.len() as int) =~= b);
}

/// The caption of the console counts all lines, and says so where not all of them are shown.
pub proof fn law_caption_counts_all_lines(count: int)
    requires
        0 <= count,
    ensures
        decimal_text(count as nat).is_prefix_of(caption_text(count)),
        count <= 400 ==> caption_text(count) == decimal_text(count as nat) + " lines"@,
        count > 400 ==> caption_text(count) == decimal_text(count as nat)
            + " lines (showing last "@ + decimal_text(400) + ")"@,
{
    let c = caption_text(count);
    let d = decimal_text(count as nat);
    assert(c.subrange(0, d.len() as int) =~= d);
}

/// The console shows the newest line last, and before it the lines that came before it, four
/// hundred of them at most.
pub proof fn law_console_shows_the_newest_lines(r: ConsoleScreen, lines: Seq<Line>, i: int)
    requires
        is_console(r, lines),
        0 <= i < r.lines@.len(),
    ensures
        lines.len() <= 400 ==> r.lines@.len() == lines.len(),
        lines.len() > 400 ==> r.lines@.len() == 400,
        r.lines@[i].line == lines[lines.len() - r.lines@.len() + i],
{
}

} // verus!
