//! The state of the launcher and what each event does to it.

use vstd::prelude::*;
use vstd::string::*;

use crate::net::auth::DeviceCode;
use crate::net::mojang::{law_exactly_the_releases_are_offered, release_entries, releases};
use crate::text::{decimal, decimal_text};
use crate::types::{
    is_offline, md5_digest, offline_seed, stamped, uuid_text, Account, Loader, Session,
    VersionEntry,
};

verus! {

broadcast use vstd::seq::group_seq_axioms;

/// A toast that is not sticky is dismissed this many seconds after it was added.
pub const TOAST_SECONDS: u64 = 4;

/// The milliseconds from one tick to the next.
pub const TICK_MILLIS: u64 = 400;

/// What the main area shows.
#[derive(Clone, Copy, PartialEq, Eq, Structural, Debug)]
pub enum Screen {
    Home,
    Instances,
    Mods,
    Console,
    Settings,
}

/// The kind of a toast, which sets its colour.
#[derive(Clone, Copy, PartialEq, Eq, Structural, Debug)]
pub enum ToastKind {
    Info,
    Success,
    Error,
}

/// A message overlaid on the window.
pub struct Toast {
    pub id: u64,
    pub kind: ToastKind,
    pub title: String,
    pub message: String,
}

/// Sign-in state machine for the account card.
pub enum Auth {
    Out,
    Pending { code: String, url: String },
    In { name: String, uuid: String },
    Failed(String),
}

/// Whether a game is there.
#[derive(Clone, Copy, PartialEq, Eq, Structural, Debug)]
pub enum RunState {
    Idle,
    Starting,
    Running,
}

/// The state of the launcher.
pub struct Launcher {
    pub entries: Vec<VersionEntry>,
    pub selected: usize,
    pub status: String,
    pub run: RunState,
    pub auth: Auth,
    pub toasts: Vec<Toast>,
    pub next_toast_id: u64,
    pub view: Screen,
    pub loader: Loader,
}

/// A `Toast` with its texts as characters.
pub struct ToastText {
    pub id: int,
    pub kind: ToastKind,
    pub title: Seq<char>,
    pub message: Seq<char>,
}

impl View for Toast {
    type V = ToastText;

    open spec fn view(&self) -> ToastText {
        ToastText {
            id: self.id as int,
            kind: self.kind,
            title: self.title@,
            message: self.message@,
        }
    }
}

/// An `Auth` with its texts as characters.
pub enum AuthText {
    Out,
    Pending { code: Seq<char>, url: Seq<char> },
    In { name: Seq<char>, uuid: Seq<char> },
    Failed(Seq<char>),
}

impl View for Auth {
    type V = AuthText;

    open spec fn view(&self) -> AuthText {
        match *self {
            Auth::Out => AuthText::Out,
            Auth::Pending { code, url } => AuthText::Pending { code: code@, url: url@ },
            Auth::In { name, uuid } => AuthText::In { name: name@, uuid: uuid@ },
            Auth::Failed(reason) => AuthText::Failed(reason@),
        }
    }
}

/// The texts of a list of toasts.
pub open spec fn toast_texts(toasts: Seq<Toast>) -> Seq<ToastText> {
    Seq::new(toasts.len(), |i: int| toasts[i]@)
}

/// The state of the launcher as a mathematical value.
pub struct LauncherState {
    pub entries: Seq<VersionEntry>,
    pub selected: int,
    pub status: Seq<char>,
    pub run: RunState,
    pub auth: AuthText,
    pub toasts: Seq<ToastText>,
    pub next_toast_id: int,
    pub view: Screen,
    pub loader: Loader,
}

impl View for Launcher {
    type V = LauncherState;

    open spec fn view(&self) -> LauncherState {
        LauncherState {
            entries: self.entries@,
            selected: self.selected as int,
            status: self.status@,
            run: self.run,
            auth: self.auth@,
            toasts: toast_texts(self.toasts@),
            next_toast_id: self.next_toast_id as int,
            view: self.view,
            loader: self.loader,
        }
    }
}

/// The state with one more toast, under the next id.
pub open spec fn with_toast(
    s: LauncherState,
    kind: ToastKind,
    title: Seq<char>,
    message: Seq<char>,
) -> LauncherState {
    LauncherState {
        toasts: s.toasts.push(ToastText { id: s.next_toast_id, kind, title, message }),
        next_toast_id: s.next_toast_id + 1,
        ..s
    }
}

/// The state without the toasts that have the given id.
pub open spec fn without_toast(s: LauncherState, id: int) -> LauncherState {
    LauncherState { toasts: s.toasts.filter(|t: ToastText| t.id != id), ..s }
}

/// The state of a launcher that has just been opened.
pub open spec fn opened() -> LauncherState {
    LauncherState {
        entries: Seq::empty(),
        selected: 0,
        status: "Loading versions…"@,
        run: RunState::Idle,
        auth: AuthText::Out,
        toasts: Seq::empty(),
        next_toast_id: 0,
        view: Screen::Home,
        loader: Loader::Vanilla,
    }
}

/// The state once the version list was fetched, or could not be.
pub open spec fn loaded(s: LauncherState, list: Result<Seq<VersionEntry>, Seq<char>>) -> LauncherState {
    match list {
        Ok(all) => LauncherState {
            entries: release_entries(all),
            status: decimal_text(release_entries(all).len()) + " versions available"@,
            ..s
        },
        Err(e) => with_toast(
            LauncherState { status: "Failed to load versions"@, ..s },
            ToastKind::Error,
            "Version list failed"@,
            e,
        ),
    }
}

/// The state after the play button was pressed, and the version to start.
pub open spec fn played(s: LauncherState) -> (LauncherState, Option<VersionEntry>) {
    if s.run != RunState::Idle {
        (s, None)
    } else if s.selected >= s.entries.len() {
        (
            with_toast(s, ToastKind::Error, "No version"@, "Versions haven't loaded yet."@),
            None,
        )
    } else {
        let entry = s.entries[s.selected];
        (
            with_toast(
                LauncherState {
                    run: RunState::Starting,
                    status: "Starting "@ + entry.id@ + " · "@ + s.loader.label_text() + "…"@,
                    ..s
                },
                ToastKind::Info,
                "Starting"@,
                "Preparing "@ + entry.id@ + " · "@ + s.loader.label_text()
                    + " (first run downloads files)"@,
            ),
            Some(entry),
        )
    }
}

/// The name under which the game is started: that of the signed-in account, else `Player`.
pub open spec fn player_name(auth: AuthText) -> Seq<char> {
    match auth {
        AuthText::In { name, uuid } => name,
        _ => "Player"@,
    }
}

/// The state once the version `id` is running, or could not be started.
pub open spec fn finished(s: LauncherState, id: Seq<char>, failure: Option<Seq<char>>) -> LauncherState {
    match failure {
        None => with_toast(
            LauncherState { run: RunState::Running, status: "Running "@ + id, ..s },
            ToastKind::Success,
            "Running"@,
            id + " is running"@,
        ),
        Some(e) => with_toast(
            LauncherState { run: RunState::Idle, status: "Launch failed"@, ..s },
            ToastKind::Error,
            "Launch failed"@,
            e,
        ),
    }
}

/// The state after the running game was told to stop; without one nothing changes.
pub open spec fn stopped(s: LauncherState) -> LauncherState {
    if s.run != RunState::Running {
        s
    } else {
        with_toast(
            LauncherState { status: "Stopping…"@, ..s },
            ToastKind::Info,
            "Stopping"@,
            "Closing the game…"@,
        )
    }
}

/// Whether something is moving in the window: a launch or a game, a download, or the console.
pub open spec fn is_moving(s: LauncherState, downloading: bool) -> bool {
    s.run != RunState::Idle || downloading || s.view == Screen::Console
}

/// The state after the account button was pressed, and what that leads to.
pub open spec fn pressed(s: LauncherState) -> (LauncherState, Press) {
    match s.auth {
        AuthText::Pending { code, url } => (s, Press::Nothing),
        AuthText::In { name, uuid } => (
            LauncherState { auth: AuthText::Out, ..s },
            Press::SignedOut,
        ),
        _ => (s, Press::SignIn),
    }
}

/// The state after a tick: a game that has gone leaves the launcher idle.
pub open spec fn ticked(s: LauncherState, game_running: bool) -> LauncherState {
    if s.run == RunState::Running && !game_running {
        LauncherState { run: RunState::Idle, status: "Ready"@, ..s }
    } else {
        s
    }
}

/// The state after a sign-in failed.
pub open spec fn sign_in_failed(s: LauncherState, reason: Seq<char>) -> LauncherState {
    with_toast(
        LauncherState { auth: AuthText::Failed(reason), ..s },
        ToastKind::Error,
        "Sign-in failed"@,
        reason,
    )
}

/// What happened during a sign-in.
pub enum SignInEvent {
    /// The user asked for it.
    Start,
    /// The device code came, or could not be had.
    Code(Result<DeviceCode, String>),
    /// The Microsoft token came, or could not be had.
    Token(Result<String, String>),
    /// The session came, or could not be had.
    Signed(Result<Session, String>),
}

/// What comes next in a sign-in.
pub enum SignInAction {
    /// Request a device code.
    RequestCode,
    /// Open the verification page of the code and poll for the token.
    Poll(DeviceCode),
    /// Exchange the token for a session.
    Exchange(String),
    /// The sign-in is over; the toast with this id is dismissed later.
    Welcome(u64),
    /// The sign-in has failed.
    Failed,
}

/// Whether an event of a sign-in is shown in a toast: all but its start and the token are.
pub open spec fn shows_toast(event: SignInEvent) -> bool {
    match event {
        SignInEvent::Start => false,
        SignInEvent::Token(Ok(_)) => false,
        _ => true,
    }
}

/// The state after an event of a sign-in.
pub open spec fn signed_in(s: LauncherState, event: SignInEvent) -> LauncherState {
    match event {
        SignInEvent::Start => LauncherState {
            auth: AuthText::Pending { code: "…"@, url: "requesting code…"@ },
            ..s
        },
        SignInEvent::Code(Ok(dc)) => with_toast(
            LauncherState {
                auth: AuthText::Pending { code: dc.user_code@, url: dc.verification_uri@ },
                ..s
            },
            ToastKind::Info,
            "Your sign-in code"@,
            dc.user_code@,
        ),
        SignInEvent::Code(Err(e)) => sign_in_failed(s, e@),
        SignInEvent::Token(Ok(token)) => s,
        SignInEvent::Token(Err(e)) => sign_in_failed(s, e@),
        SignInEvent::Signed(Ok(session)) => LauncherState {
            auth: AuthText::In { name: session.username@, uuid: session.uuid@ },
            ..with_toast(
                s,
                ToastKind::Success,
                "Signed in"@,
                "Welcome, "@ + session.username@,
            )
        },
        SignInEvent::Signed(Err(e)) => sign_in_failed(s, e@),
    }
}

/// What pressing the play button leads to.
pub enum Play {
    /// A game is starting or running.
    Busy,
    /// There is no version to start; the toast with this id is dismissed later.
    NoVersion { dismiss: u64 },
    /// Log the notice, prepare and start this version; the toast with this id is dismissed later.
    Start { entry: VersionEntry, account: Account, loader: Loader, notice: String, dismiss: u64 },
}

/// What a tick leads to.
pub struct Tick {
    /// The window is drawn again.
    pub redraw: bool,
    /// The console follows its newest line.
    pub follow: bool,
}

/// What pressing the account button leads to.
#[derive(Clone, Copy, PartialEq, Eq, Structural, Debug)]
pub enum Press {
    /// A sign-in is already in progress.
    Nothing,
    /// The account is signed out.
    SignedOut,
    /// A sign-in begins.
    SignIn,
}

/// Whether `r` is what pressing the play button leads to: nothing while a game is starting or
/// running, a toast where no version is selected, and else the start of the selected version with
/// the chosen loader under an offline account.
pub open spec fn is_play(s: LauncherState, r: Play) -> bool {
    match r {
        Play::Busy => s.run != RunState::Idle,
        Play::NoVersion { dismiss } => {
            &&& s.run == RunState::Idle
            &&& s.selected >= s.entries.len()
            &&& dismiss == s.next_toast_id
        },
        Play::Start { entry, account, loader, notice, dismiss } => {
            &&& s.run == RunState::Idle
            &&& s.selected < s.entries.len()
            &&& entry == s.entries[s.selected]
            &&& is_offline(account, player_name(s.auth))
            &&& loader == s.loader
            &&& notice@ == "Play requested: "@ + entry.id@ + " "@ + loader.label_text() + " as "@
                + player_name(s.auth)
            &&& dismiss == s.next_toast_id
        },
    }
}

/// Whether `action` is what an event of a sign-in leads to.
pub open spec fn is_sign_in_step(next_toast_id: int, event: SignInEvent, action: SignInAction) -> bool {
    match event {
        SignInEvent::Start => action is RequestCode,
        SignInEvent::Code(Ok(dc)) => action == SignInAction::Poll(dc),
        SignInEvent::Token(Ok(token)) => action == SignInAction::Exchange(token),
        SignInEvent::Signed(Ok(session)) => action matches SignInAction::Welcome(id) && id
            == next_toast_id,
        _ => action is Failed,
    }
}

/// The id under which a toast is dismissed later; a sticky one is not.
pub open spec fn dismissal(next_toast_id: u64, sticky: bool) -> Option<u64> {
    if sticky {
        None
    } else {
        Some(next_toast_id)
    }
}

impl Launcher {
    /// A launcher that has just been opened.
    pub fn new() -> (r: Launcher)
        ensures
            r@ == opened(),
    {
        let r = Launcher {
            entries: Vec::new(),
            selected: 0,
            status: "Loading versions…".to_string(),
            run: RunState::Idle,
            auth: Auth::Out,
            toasts: Vec::new(),
            next_toast_id: 0,
            view: Screen::Home,
            loader: Loader::Vanilla,
        };
        assert(r@.toasts =~= Seq::empty());
        r
    }

    /// Adds a toast. Non-sticky toasts are dismissed after `TOAST_SECONDS`: their id is returned.
    pub fn toast(&mut self, kind: ToastKind, title: &str, message: String, sticky: bool) -> (r: Option<
        u64,
    >)
        requires
            old(self).next_toast_id < u64::MAX,
        ensures
            final(self)@ == with_toast(old(self)@, kind, title@, message@),
            r == (if sticky {
                None
            } else {
                Some(old(self).next_toast_id)
            }),
            r == dismissal(old(self).next_toast_id, sticky),
    {
        let id = self.next_toast_id;
        self.next_toast_id = self.next_toast_id + 1;
        self.toasts.push(Toast { id, kind, title: title.to_string(), message });
        assert(self@.toasts =~= with_toast(old(self)@, kind, title@, message@).toasts);
        if sticky {
            None
        } else {
            Some(id)
        }
    }

    /// Removes a toast.
    pub fn dismiss_toast(&mut self, id: u64)
        ensures
            final(self)@ == without_toast(old(self)@, id as int),
    {
        let mut kept: Vec<Toast> = Vec::new();
        let mut toasts: Vec<Toast> = Vec::new();
        std::mem::swap(&mut toasts, &mut self.toasts);
        let ghost all = toasts@;
        let ghost stays = |t: ToastText| t.id != id;
        assert(all == old(self).toasts@);
        assert(toast_texts(kept@) =~= toast_texts(all).take(0).filter(stays)) by {
            reveal(Seq::filter);
            assert(toast_texts(all).take(0) =~= Seq::empty());
        }
        for t in it: toasts
            invariant
                it.seq() == all,
                stays == (|t: ToastText| t.id != id),
                toast_texts(kept@) == toast_texts(all).take(it.index()).filter(stays),
        {
            let ghost before = toast_texts(kept@);
            proof {
                reveal(Seq::filter);
                let next = toast_texts(all).take(it.index() + 1);
                assert(next.drop_last() =~= toast_texts(all).take(it.index()));
                assert(next.last() == t@);
            }
            if t.id != id {
                let ghost v = t@;
                kept.push(t);
                assert(toast_texts(kept@) =~= before.push(v));
            }
        }
        assert(toast_texts(all).take(all.len() as int) =~= toast_texts(all));
        self.toasts = kept;
    }

    /// Takes the version list (releases only), or the reason why there is none. Returns the line to
    /// log.
    pub fn load_versions(&mut self, list: Result<Vec<VersionEntry>, String>) -> (r: Option<String>)
        requires
            list is Err ==> old(self).next_toast_id < u64::MAX,
        ensures
            match list {
                Ok(all) => {
                    &&& final(self)@ == loaded(old(self)@, Ok(all@))
                    &&& r matches Some(line)
                    &&& line@ == "Loaded "@ + decimal_text(release_entries(all@).len())
                        + " releases."@
                },
                Err(e) => final(self)@ == loaded(old(self)@, Err(e@)) && r is None,
            },
    {
        match list {
            Ok(all) => {
                self.entries = releases(all);
                let n = decimal(self.entries.len() as u64);
                self.status = n.clone().concat(" versions available");
                let mut line = "Loaded ".to_string();
                line.append(n.as_str());
                line.append(" releases.");
                Some(line)
            },
            Err(e) => {
                self.status = "Failed to load versions".to_string();
                let _ = self.toast(ToastKind::Error, "Version list failed", e, true);
                None
            },
        }
    }

    /// Stops the running game. Returns the id of a toast to dismiss later where there is a game to
    /// stop.
    pub fn stop(&mut self) -> (r: Option<u64>)
        requires
            old(self).run == RunState::Running ==> old(self).next_toast_id < u64::MAX,
        ensures
            r is Some <==> old(self).run == RunState::Running,
            match r {
                Some(id) => {
                    &&& id == old(self).next_toast_id
                    &&& final(self)@ == with_toast(
                        LauncherState { status: "Stopping…"@, ..old(self)@ },
                        ToastKind::Info,
                        "Stopping"@,
                        "Closing the game…"@,
                    )
                },
                None => final(self)@ == old(self)@,
            },
            final(self)@ == stopped(old(self)@),
    {
        if self.run != RunState::Running {
            return None;
        }
        self.status = "Stopping…".to_string();
        self.toast(ToastKind::Info, "Stopping", "Closing the game…".to_string(), false)
    }

    /// Starts the selected version, if nothing is starting or running. The game is started with an
    /// offline account.
    pub fn play(&mut self) -> (r: Play)
        requires
            old(self).run == RunState::Idle ==> old(self).next_toast_id < u64::MAX,
        ensures
            final(self)@ == played(old(self)@).0,
            match r {
                Play::Busy => old(self).run != RunState::Idle,
                Play::NoVersion { dismiss } => {
                    &&& old(self).run == RunState::Idle
                    &&& played(old(self)@).1 is None
                    &&& dismiss == old(self).next_toast_id
                },
                Play::Start { entry, account, loader, notice, dismiss } => {
                    let name = player_name(old(self).auth@);
                    &&& played(old(self)@).1 == Some(entry)
                    &&& account.username@ == name
                    &&& account.uuid@ == uuid_text(stamped(md5_digest(offline_seed(name))))
                    &&& account.access_token@ == "0"@
                    &&& account.user_type@ == "legacy"@
                    &&& loader == old(self).loader
                    &&& notice@ == "Play requested: "@ + entry.id@ + " "@ + loader.label_text()
                        + " as "@ + name
                    &&& dismiss == old(self).next_toast_id
                },
            },
            is_play(old(self)@, r),
    {
        let dismiss = self.next_toast_id;
        if self.run != RunState::Idle {
            return Play::Busy;
        }
        if self.selected >= self.entries.len() {
            let _ = self.toast(
                ToastKind::Error,
                "No version",
                "Versions haven't loaded yet.".to_string(),
                false,
            );
            return Play::NoVersion { dismiss };
        }
        let entry = self.entries[self.selected].clone();
        // Auth is parked behind Microsoft's API gate, so launch offline.
        let name = match &self.auth {
            Auth::In { name, uuid } => name.clone(),
            _ => "Player".to_string(),
        };
        let account = Account::offline(name.as_str());
        let loader = self.loader;
        self.run = RunState::Starting;
        let mut status = "Starting ".to_string();
        status.append(entry.id.as_str());
        status.append(" · ");
        status.append(loader.label());
        status.append("…");
        self.status = status;
        let mut message = "Preparing ".to_string();
        message.append(entry.id.as_str());
        message.append(" · ");
        message.append(loader.label());
        message.append(" (first run downloads files)");
        let _ = self.toast(ToastKind::Info, "Starting", message, false);
        let mut notice = "Play requested: ".to_string();
        notice.append(entry.id.as_str());
        notice.append(" ");
        notice.append(loader.label());
        notice.append(" as ");
        notice.append(name.as_str());
        Play::Start { entry, account, loader, notice, dismiss }
    }

    /// Takes the outcome of starting the version `id`. Returns the id of a toast to dismiss later.
    pub fn play_finished(&mut self, id: &str, failure: Option<String>) -> (r: Option<u64>)
        requires
            old(self).next_toast_id < u64::MAX,
        ensures
            final(self)@ == finished(old(self)@, id@, crate::text::opt_text(failure)),
            r == (match failure {
                None => Some(old(self).next_toast_id),
                Some(_) => None,
            }),
            r == dismissal(old(self).next_toast_id, failure is Some),
    {
        match failure {
            None => {
                self.run = RunState::Running;
                self.status = "Running ".to_string().concat(id);
                self.toast(ToastKind::Success, "Running", id.to_string().concat(" is running"), false)
            },
            Some(e) => {
                self.run = RunState::Idle;
                self.status = "Launch failed".to_string();
                self.toast(ToastKind::Error, "Launch failed", e, true)
            },
        }
    }

    /// Reconciles the run state with the actual process, and tells whether something is actually
    /// moving: a download/launch in progress, a running game, or the live console being viewed.
    pub fn tick(&mut self, game_running: bool, downloading: bool) -> (r: Tick)
        ensures
            final(self)@ == ticked(old(self)@, game_running),
            r.redraw == (ticked(old(self)@, game_running).run != RunState::Idle || downloading
                || old(self).view == Screen::Console),
            r.redraw == is_moving(ticked(old(self)@, game_running), downloading),
            r.follow == (old(self).view == Screen::Console),
    {
        if self.run == RunState::Running && !game_running {
            self.run = RunState::Idle;
            self.status = "Ready".to_string();
        }
        let follow = self.view == Screen::Console;
        Tick { redraw: self.run != RunState::Idle || downloading || follow, follow }
    }

    fn fail_sign_in(&mut self, reason: String) -> (r: SignInAction)
        requires
            old(self).next_toast_id < u64::MAX,
        ensures
            final(self)@ == sign_in_failed(old(self)@, reason@),
            r is Failed,
    {
        self.auth = Auth::Failed(reason.clone());
        let _ = self.toast(ToastKind::Error, "Sign-in failed", reason, true);
        SignInAction::Failed
    }

    /// The Microsoft device-code login: from what happened to what comes next, updating the account
    /// card as each stage completes.
    pub fn sign_in(&mut self, event: SignInEvent) -> (r: SignInAction)
        requires
            shows_toast(event) ==> old(self).next_toast_id < u64::MAX,
        ensures
            final(self)@ == signed_in(old(self)@, event),
            match event {
                SignInEvent::Start => r is RequestCode,
                SignInEvent::Code(Ok(dc)) => r == SignInAction::Poll(dc),
                SignInEvent::Token(Ok(token)) => r == SignInAction::Exchange(token),
                SignInEvent::Signed(Ok(session)) => r == SignInAction::Welcome(
                    old(self).next_toast_id,
                ),
                _ => r is Failed,
            },
            is_sign_in_step(old(self).next_toast_id as int, event, r),
    {
        match event {
            SignInEvent::Start => {
                self.auth = Auth::Pending {
                    code: "…".to_string(),
                    url: "requesting code…".to_string(),
                };
                SignInAction::RequestCode
            },
            SignInEvent::Code(Ok(dc)) => {
                self.auth = Auth::Pending {
                    code: dc.user_code.clone(),
                    url: dc.verification_uri.clone(),
                };
                let _ = self.toast(
                    ToastKind::Info,
                    "Your sign-in code",
                    dc.user_code.clone(),
                    true,
                );
                SignInAction::Poll(dc)
            },
            SignInEvent::Code(Err(e)) => self.fail_sign_in(e),
            SignInEvent::Token(Ok(token)) => SignInAction::Exchange(token),
            SignInEvent::Token(Err(e)) => self.fail_sign_in(e),
            SignInEvent::Signed(Ok(session)) => {
                let dismiss = self.next_toast_id;
                let message = "Welcome, ".to_string().concat(session.username.as_str());
                let _ = self.toast(ToastKind::Success, "Signed in", message, false);
                self.auth = Auth::In { name: session.username, uuid: session.uuid };
                SignInAction::Welcome(dismiss)
            },
            SignInEvent::Signed(Err(e)) => self.fail_sign_in(e),
        }
    }

    /// Pressing the account button: signs out, or asks for a sign-in unless one is in progress.
    pub fn press_account(&mut self) -> (r: Press)
        ensures
            match old(self).auth@ {
                AuthText::Pending { code, url } => r == Press::Nothing && final(self)@ == old(self)@,
                AuthText::In { name, uuid } => r == Press::SignedOut && final(self)@ == (
                LauncherState { auth: AuthText::Out, ..old(self)@ }),
                _ => r == Press::SignIn && final(self)@ == old(self)@,
            },
            (final(self)@, r) == pressed(old(self)@),
    {
        match &self.auth {
            Auth::Pending { code, url } => Press::Nothing,
            Auth::In { name, uuid } => {
                self.auth = Auth::Out;
                Press::SignedOut
            },
            _ => Press::SignIn,
        }
    }

    /// Moves the selection by `delta` versions, around the ends of the list.
    pub fn cycle(&mut self, delta: isize)
        requires
            old(self).entries@.len() > 0 ==> {
                &&& old(self).entries@.len() <= isize::MAX
                &&& old(self).selected <= isize::MAX
                &&& isize::MIN <= old(self).selected + delta <= isize::MAX
            },
        ensures
            final(self)@ == cycled(old(self)@, delta as int),
    {
        if self.entries.len() == 0 {
            return;
        }
        let n = self.entries.len() as isize;
        let moved = self.selected as isize + delta;
        match moved.checked_rem_euclid(n) {
            Some(at) => {
                self.selected = at as usize;
            },
            None => {},
        }
    }

    /// The id of the selected version, a dash where there is none.
    pub fn current(&self) -> (r: String)
        ensures
            r@ == current_text(self@),
    {
        if self.selected < self.entries.len() {
            self.entries[self.selected].id.clone()
        } else {
            "—".to_string()
        }
    }
}

/// The state with the selection moved by `delta` versions, around the ends of the list.
pub open spec fn cycled(s: LauncherState, delta: int) -> LauncherState {
    if s.entries.len() == 0 {
        s
    } else {
        LauncherState { selected: (s.selected + delta) % (s.entries.len() as int), ..s }
    }
}

/// The id of the selected version, a dash where there is none.
pub open spec fn current_text(s: LauncherState) -> Seq<char> {
    if s.selected < s.entries.len() {
        s.entries[s.selected].id@
    } else {
        "—"@
    }
}

// ---- what holds of every state ----------------------------------------------

/// The toasts have ids of their own, older toasts smaller ones, and none that is still to be
/// given out.
pub open spec fn toasts_are_distinct(s: LauncherState) -> bool {
    &&& 0 <= s.next_toast_id
    &&& forall|i: int| 0 <= i < s.toasts.len() ==> 0 <= (#[trigger] s.toasts[i]).id < s.next_toast_id
    &&& forall|i: int, j: int|
        0 <= i < j < s.toasts.len() ==> (#[trigger] s.toasts[i]).id < (#[trigger] s.toasts[j]).id
}

/// A selection that names a version whenever there is one.
pub open spec fn selection_is_valid(s: LauncherState) -> bool {
    0 <= s.selected && (s.entries.len() > 0 ==> s.selected < s.entries.len())
}

/// Toasts keep ids of their own: a launcher opens that way, and adding a toast, dismissing one,
/// and every other event preserve it.
pub proof fn law_toast_ids_are_distinct(
    s: LauncherState,
    kind: ToastKind,
    title: Seq<char>,
    message: Seq<char>,
    id: int,
    list: Result<Seq<VersionEntry>, Seq<char>>,
    failure: Option<Seq<char>>,
    event: SignInEvent,
    game_running: bool,
    delta: int,
)
    requires
        toasts_are_distinct(s),
    ensures
        toasts_are_distinct(opened()),
        toasts_are_distinct(with_toast(s, kind, title, message)),
        toasts_are_distinct(without_toast(s, id)),
        toasts_are_distinct(loaded(s, list)),
        toasts_are_distinct(played(s).0),
        toasts_are_distinct(finished(s, message, failure)),
        toasts_are_distinct(ticked(s, game_running)),
        toasts_are_distinct(signed_in(s, event)),
        toasts_are_distinct(cycled(s, delta)),
{
    lemma_filter_keeps_order(s.toasts, id);
    let stays = |t: ToastText| t.id != id;
    let kept = s.toasts.filter(stays);
    assert(without_toast(s, id).toasts == kept);
    assert forall|i: int| 0 <= i < kept.len() implies 0 <= (#[trigger] kept[i]).id < s.next_toast_id by {
        assert(kept.contains(kept[i]));
        s.toasts.lemma_filter_contains_rev(stays, kept[i]);
        let j = choose|j: int| 0 <= j < s.toasts.len() && s.toasts[j] == kept[i];
        assert(s.toasts[j].id < s.next_toast_id);
    }
}

proof fn lemma_filter_keeps_order(toasts: Seq<ToastText>, id: int)
    requires
        forall|i: int, j: int|
            0 <= i < j < toasts.len() ==> (#[trigger] toasts[i]).id < (#[trigger] toasts[j]).id,
    ensures
        ({
            let kept = toasts.filter(|t: ToastText| t.id != id);
            forall|i: int, j: int|
                0 <= i < j < kept.len() ==> (#[trigger] kept[i]).id < (#[trigger] kept[j]).id
        }),
    decreases toasts.len(),
{
    let stays = |t: ToastText| t.id != id;
    reveal(Seq::filter);
    if toasts.len() > 0 {
        let front = toasts.drop_last();
        assert forall|i: int, j: int| 0 <= i < j < front.len() implies (#[trigger] front[i]).id < (
        #[trigger] front[j]).id by {
            assert(toasts[i].id < toasts[j].id);
        }
        lemma_filter_keeps_order(front, id);
        let before = front.filter(stays);
        let kept = toasts.filter(stays);
        assert forall|i: int, j: int| 0 <= i < j < kept.len() implies (#[trigger] kept[i]).id < (
        #[trigger] kept[j]).id by {
            if j < before.len() {
                assert(before[i].id < before[j].id);
            } else {
                assert(before.contains(before[i]));
                front.lemma_filter_contains_rev(stays, before[i]);
                let k = choose|k: int| 0 <= k < front.len() && front[k] == before[i];
                assert(toasts[k].id < toasts[toasts.len() - 1].id);
            }
        }
    }
}

/// Dismissing a toast takes that one away and leaves every other: right after a toast was added,
/// dismissing it restores the toasts that were there.
pub proof fn law_dismissing_undoes_a_toast(
    s: LauncherState,
    kind: ToastKind,
    title: Seq<char>,
    message: Seq<char>,
)
    requires
        toasts_are_distinct(s),
    ensures
        without_toast(with_toast(s, kind, title, message), s.next_toast_id).toasts == s.toasts,
{
    let id = s.next_toast_id;
    let stays = |t: ToastText| t.id != id;
    reveal(Seq::filter);
    let more = with_toast(s, kind, title, message).toasts;
    assert(more.drop_last() =~= s.toasts);
    assert forall|i: int| 0 <= i < s.toasts.len() implies stays(#[trigger] s.toasts[i]) by {}
    lemma_filter_all(s.toasts, id);
}

proof fn lemma_filter_all(toasts: Seq<ToastText>, id: int)
    requires
        forall|i: int| 0 <= i < toasts.len() ==> (#[trigger] toasts[i]).id != id,
    ensures
        toasts.filter(|t: ToastText| t.id != id) == toasts,
    decreases toasts.len(),
{
    reveal(Seq::filter);
    if toasts.len() > 0 {
        let front = toasts.drop_last();
        assert forall|i: int| 0 <= i < front.len() implies (#[trigger] front[i]).id != id by {
            assert(toasts[i].id != id);
        }
        lemma_filter_all(front, id);
        assert(toasts[toasts.len() - 1].id != id);
        assert(front.push(toasts.last()) =~= toasts);
    }
}

/// The play button does one thing at a time: a game is started only from the idle state, and
/// pressing the button again before it has come up changes nothing.
pub proof fn law_one_game_at_a_time(s: LauncherState)
    ensures
        played(s).1 is Some ==> s.run == RunState::Idle && played(s).0.run == RunState::Starting,
        s.run != RunState::Idle ==> played(s) == (s, None::<VersionEntry>),
        played(s).1 is Some ==> played(played(s).0) == (played(s).0, None::<VersionEntry>),
{
}

/// A launch that fails, and a game that ends, leave the launcher ready to play again.
pub proof fn law_failure_and_exit_make_idle(s: LauncherState, id: Seq<char>, reason: Seq<char>)
    ensures
        finished(s, id, Some(reason)).run == RunState::Idle,
        finished(s, id, None).run == RunState::Running,
        ticked(finished(s, id, None), false).run == RunState::Idle,
        ticked(finished(s, id, None), true) == finished(s, id, None),
{
}

/// The selection always names a version where there is one: moving it keeps that, and restores it
/// where it was lost.
pub proof fn law_cycling_selects_a_version(s: LauncherState, delta: int)
    requires
        0 <= s.selected,
    ensures
        selection_is_valid(cycled(s, delta)),
{
    if s.entries.len() > 0 {
        let n = s.entries.len() as int;
        assert(0 <= (s.selected + delta) % n < n) by (nonlinear_arith)
            requires
                n > 0,
        ;
    }
}

/// Moving the selection forth and back leaves it where it was.
pub proof fn law_cycling_back_undoes(s: LauncherState, delta: int)
    requires
        selection_is_valid(s),
    ensures
        cycled(cycled(s, delta), -delta) == s,
{
    if s.entries.len() > 0 {
        let n = s.entries.len() as int;
        let x = s.selected;
        vstd::arithmetic::div_mod::lemma_add_mod_noop((x + delta) % n, -delta, n);
        vstd::arithmetic::div_mod::lemma_add_mod_noop(x + delta, -delta, n);
        vstd::arithmetic::div_mod::lemma_mod_twice(x + delta, n);
        vstd::arithmetic::div_mod::lemma_small_mod(x as nat, n as nat);
    }
}

/// Going once around the list ends where it began.
pub proof fn law_cycling_around(s: LauncherState)
    requires
        selection_is_valid(s),
    ensures
        cycled(s, s.entries.len() as int) == s,
{
    if s.entries.len() > 0 {
        let n = s.entries.len() as int;
        vstd::arithmetic::div_mod::lemma_mod_add_multiples_vanish(s.selected, n);
        vstd::arithmetic::div_mod::lemma_small_mod(s.selected as nat, n as nat);
    }
}

/// The version that Play starts is the one that is selected, under the id that is shown: from the
/// idle state, wherever the selection names a version. Everything else stays as it was but for the
/// run state, the status, which names the version and the loader, and one toast.
pub proof fn law_play_starts_what_is_selected(s: LauncherState)
    requires
        s.run == RunState::Idle,
        0 <= s.selected < s.entries.len(),
    ensures
        ({
            let (t, started) = played(s);
            &&& started matches Some(entry)
            &&& entry == s.entries[s.selected]
            &&& entry.id@ == current_text(s)
            &&& t.run == RunState::Starting
            &&& t.status == "Starting "@ + current_text(s) + " · "@ + s.loader.label_text() + "…"@
            &&& t.toasts.len() == s.toasts.len() + 1
            &&& t.toasts.last().kind == ToastKind::Info
            &&& t.toasts.last().message == "Preparing "@ + current_text(s) + " · "@
                + s.loader.label_text() + " (first run downloads files)"@
            &&& t.entries == s.entries && t.selected == s.selected && t.auth == s.auth
            &&& t.view == s.view && t.loader == s.loader
        }),
{
}

/// Play without a version to start stays idle and says so.
pub proof fn law_play_without_a_version_stays_idle(s: LauncherState)
    requires
        s.run == RunState::Idle,
        s.selected >= s.entries.len(),
    ensures
        played(s).1 is None,
        played(s).0 == with_toast(
            s,
            ToastKind::Error,
            "No version"@,
            "Versions haven't loaded yet."@,
        ),
{
}

/// Pressing next or previous moves the selection by one place, from either end to the other, and
/// Play then starts the version of that place.
pub proof fn law_play_starts_what_was_moved_to(s: LauncherState)
    requires
        s.run == RunState::Idle,
        0 <= s.selected < s.entries.len(),
    ensures
        ({
            let n = s.entries.len() as int;
            let next = if s.selected + 1 < n {
                s.selected + 1
            } else {
                0
            };
            let previous = if s.selected > 0 {
                s.selected - 1
            } else {
                n - 1
            };
            &&& cycled(s, 1).selected == next
            &&& cycled(s, -1).selected == previous
            &&& current_text(cycled(s, 1)) == s.entries[next].id@
            &&& current_text(cycled(s, -1)) == s.entries[previous].id@
            &&& played(cycled(s, 1)).1 == Some(s.entries[next])
            &&& played(cycled(s, -1)).1 == Some(s.entries[previous])
        }),
{
    let n = s.entries.len() as int;
    let x = s.selected;
    if x + 1 < n {
        vstd::arithmetic::div_mod::lemma_small_mod((x + 1) as nat, n as nat);
    } else {
        vstd::arithmetic::div_mod::lemma_mod_self_0(n);
    }
    if x > 0 {
        vstd::arithmetic::div_mod::lemma_small_mod((x - 1) as nat, n as nat);
    } else {
        vstd::arithmetic::div_mod::lemma_mod_add_multiples_vanish(-1, n);
        vstd::arithmetic::div_mod::lemma_small_mod((n - 1) as nat, n as nat);
        assert((n + -1) % n == n - 1);
    }
    law_play_starts_what_is_selected(cycled(s, 1));
    law_play_starts_what_is_selected(cycled(s, -1));
}

/// Moving the selection moves nothing else, and two moves are one move by their sum.
pub proof fn law_moves_add_up(s: LauncherState, a: int, b: int)
    ensures
        cycled(cycled(s, a), b) == cycled(s, a + b),
        cycled(s, a) == (LauncherState { selected: cycled(s, a).selected, ..s }),
        s.entries.len() == 0 ==> cycled(s, a) == s,
{
    if s.entries.len() > 0 {
        let n = s.entries.len() as int;
        let x = s.selected;
        vstd::arithmetic::div_mod::lemma_add_mod_noop((x + a) % n, b, n);
        vstd::arithmetic::div_mod::lemma_add_mod_noop(x + a, b, n);
        vstd::arithmetic::div_mod::lemma_mod_twice(x + a, n);
    }
}

/// What is shown as the current version is the id at the selection; a dash where there is none.
pub proof fn law_current_version_is_the_selected_one(s: LauncherState)
    requires
        0 <= s.selected,
    ensures
        s.selected < s.entries.len() ==> current_text(s) == s.entries[s.selected].id@,
        s.selected >= s.entries.len() ==> current_text(s) == "—"@,
{
}

/// The game is played under the name of the signed-in account, and as `Player` without one.
pub proof fn law_player_is_the_signed_in_account(name: Seq<char>, uuid: Seq<char>, auth: AuthText)
    ensures
        player_name(AuthText::In { name, uuid }) == name,
        !(auth is In) ==> player_name(auth) == "Player"@,
{
}

/// A version list that came is offered for its releases, and touches neither the selection nor
/// anything else but the status, which counts them. One that did not come leaves the versions as
/// they are and reports the reason.
pub proof fn law_version_list_is_offered(
    s: LauncherState,
    all: Seq<VersionEntry>,
    entry: VersionEntry,
    reason: Seq<char>,
)
    ensures
        ({
            let t = loaded(s, Ok(all));
            &&& t.entries.contains(entry) <==> all.contains(entry) && entry.kind@ == "release"@
            &&& t.status == decimal_text(t.entries.len()) + " versions available"@
            &&& t == (LauncherState { entries: t.entries, status: t.status, ..s })
        }),
        ({
            let t = loaded(s, Err(reason));
            &&& t.entries == s.entries
            &&& t.status == "Failed to load versions"@
            &&& t.toasts.len() == s.toasts.len() + 1
            &&& t.toasts.last().kind == ToastKind::Error
            &&& t.toasts.last().message == reason
            &&& t == (LauncherState {
                status: t.status,
                toasts: t.toasts,
                next_toast_id: t.next_toast_id,
                ..s
            })
        }),
{
    law_exactly_the_releases_are_offered(all, entry);
}

/// The outcome of a launch is what the window says: a game that runs is named as running, and a
/// launch that failed gives its reason. Nothing else changes.
pub proof fn law_outcome_of_a_launch_is_shown(s: LauncherState, id: Seq<char>, reason: Seq<char>)
    ensures
        ({
            let t = finished(s, id, None);
            &&& t.run == RunState::Running
            &&& t.status == "Running "@ + id
            &&& t.toasts.last().kind == ToastKind::Success
            &&& t.toasts.last().message == id + " is running"@
            &&& t == with_toast(
                LauncherState { run: RunState::Running, status: t.status, ..s },
                ToastKind::Success,
                "Running"@,
                id + " is running"@,
            )
        }),
        ({
            let t = finished(s, id, Some(reason));
            &&& t.run == RunState::Idle
            &&& t.status == "Launch failed"@
            &&& t.toasts.last().kind == ToastKind::Error
            &&& t.toasts.last().message == reason
            &&& t == with_toast(
                LauncherState { run: RunState::Idle, status: t.status, ..s },
                ToastKind::Error,
                "Launch failed"@,
                reason,
            )
        }),
{
}

/// Only a running game can be stopped, and it counts as running until it has ended: stopping says
/// so in the status and in a toast, and a tick after the end makes the launcher idle.
pub proof fn law_stopping_waits_for_the_end(s: LauncherState)
    ensures
        s.run != RunState::Running ==> stopped(s) == s,
        s.run == RunState::Running ==> {
            &&& stopped(s).run == RunState::Running
            &&& stopped(s).status == "Stopping…"@
            &&& stopped(s).toasts.len() == s.toasts.len() + 1
            &&& stopped(s).toasts.last().message == "Closing the game…"@
            &&& stopped(s).entries == s.entries && stopped(s).selected == s.selected
            &&& stopped(s).auth == s.auth && stopped(s).view == s.view && stopped(s).loader
                == s.loader
            &&& ticked(stopped(s), true) == stopped(s)
            &&& ticked(stopped(s), false).run == RunState::Idle
            &&& ticked(stopped(s), false).status == "Ready"@
        },
{
}

/// A tick changes the state only where a running game has ended; a launch that has not come up yet
/// is left alone, and so is everything but the run state and the status.
pub proof fn law_tick_only_notices_the_end(s: LauncherState, game_running: bool)
    ensures
        game_running ==> ticked(s, game_running) == s,
        s.run != RunState::Running ==> ticked(s, game_running) == s,
        ticked(s, game_running) == (LauncherState {
            run: ticked(s, game_running).run,
            status: ticked(s, game_running).status,
            ..s
        }),
{
}

/// The window is drawn again exactly while something moves: nothing is drawn for an idle launcher
/// without a download away from the console.
pub proof fn law_still_window_is_not_redrawn(s: LauncherState, downloading: bool)
    ensures
        is_moving(s, true),
        s.view == Screen::Console ==> is_moving(s, downloading),
        s.run == RunState::Starting || s.run == RunState::Running ==> is_moving(s, downloading),
        s.run == RunState::Idle && s.view != Screen::Console ==> !is_moving(s, false),
{
}

/// The account button signs out who is signed in, does nothing while a sign-in is in progress, and
/// else asks for one. It touches nothing but the account.
pub proof fn law_account_button_follows_the_account(s: LauncherState)
    ensures
        s.auth is In ==> pressed(s).1 == Press::SignedOut && pressed(s).0 == (LauncherState {
            auth: AuthText::Out,
            ..s
        }),
        s.auth is Pending ==> pressed(s).1 == Press::Nothing && pressed(s).0 == s,
        s.auth is Out || s.auth is Failed ==> pressed(s).1 == Press::SignIn && pressed(s).0 == s,
{
}

/// Each stage of a sign-in shows on the account card: the code and the address once they came,
/// the account once it is signed in, and the reason of a failure at whatever stage, in a toast
/// too. A token alone shows nothing.
pub proof fn law_sign_in_shows_each_stage(
    s: LauncherState,
    dc: DeviceCode,
    token: String,
    session: Session,
    reason: String,
)
    ensures
        signed_in(s, SignInEvent::Start).auth is Pending,
        signed_in(s, SignInEvent::Start).toasts == s.toasts,
        signed_in(s, SignInEvent::Code(Ok(dc))).auth == (AuthText::Pending {
            code: dc.user_code@,
            url: dc.verification_uri@,
        }),
        signed_in(s, SignInEvent::Code(Ok(dc))).toasts.last().message == dc.user_code@,
        signed_in(s, SignInEvent::Token(Ok(token))) == s,
        signed_in(s, SignInEvent::Signed(Ok(session))).auth == (AuthText::In {
            name: session.username@,
            uuid: session.uuid@,
        }),
        signed_in(s, SignInEvent::Signed(Ok(session))).toasts.last().message == "Welcome, "@
            + session.username@,
        signed_in(s, SignInEvent::Code(Err(reason))).auth == AuthText::Failed(reason@),
        signed_in(s, SignInEvent::Token(Err(reason))).auth == AuthText::Failed(reason@),
        signed_in(s, SignInEvent::Signed(Err(reason))).auth == AuthText::Failed(reason@),
        signed_in(s, SignInEvent::Code(Err(reason))).toasts.last().message == reason@,
        signed_in(s, SignInEvent::Token(Err(reason))).toasts.last().message == reason@,
        signed_in(s, SignInEvent::Signed(Err(reason))).toasts.last().message == reason@,
        signed_in(s, SignInEvent::Code(Err(reason))).toasts.last().kind == ToastKind::Error,
{
}

/// A sign-in touches nothing but the account and the toasts, at whatever stage: neither the
/// versions, nor the selection, nor a game.
pub proof fn law_sign_in_leaves_the_game_alone(s: LauncherState, event: SignInEvent)
    ensures
        signed_in(s, event) == (LauncherState {
            auth: signed_in(s, event).auth,
            toasts: signed_in(s, event).toasts,
            next_toast_id: signed_in(s, event).next_toast_id,
            ..s
        }),
        shows_toast(event) ==> signed_in(s, event).toasts.len() == s.toasts.len() + 1,
        !shows_toast(event) ==> signed_in(s, event).toasts == s.toasts,
{
}

/// A new toast stands last, with the next id and what it was given to say; those before it, and
/// everything else, stay.
pub proof fn law_new_toast_stands_last(
    s: LauncherState,
    kind: ToastKind,
    title: Seq<char>,
    message: Seq<char>,
)
    ensures
        ({
            let t = with_toast(s, kind, title, message);
            &&& t.toasts.drop_last() == s.toasts
            &&& t.toasts.last() == (ToastText { id: s.next_toast_id, kind, title, message })
            &&& t.next_toast_id == s.next_toast_id + 1
            &&& t == (LauncherState { toasts: t.toasts, next_toast_id: t.next_toast_id, ..s })
        }),
{
    assert(with_toast(s, kind, title, message).toasts.drop_last() =~= s.toasts);
}

/// Dismissing takes away the toast with the given id and no other, and changes nothing else.
pub proof fn law_dismissing_takes_one_toast(s: LauncherState, id: int, toast: ToastText)
    ensures
        without_toast(s, id).toasts.contains(toast) <==> s.toasts.contains(toast) && toast.id != id,
        without_toast(s, id) == (LauncherState { toasts: without_toast(s, id).toasts, ..s }),
{
    let stays = |t: ToastText| t.id != id;
    let kept = s.toasts.filter(stays);
    assert(without_toast(s, id).toasts == kept);
    if s.toasts.contains(toast) && toast.id != id {
        let i = choose|i: int| 0 <= i < s.toasts.len() && s.toasts[i] == toast;
        s.toasts.lemma_filter_contains(stays, i);
    }
    if kept.contains(toast) {
        s.toasts.lemma_filter_contains_rev(stays, toast);
        let k = choose|k: int| 0 <= k < kept.len() && kept[k] == toast;
        s.toasts.lemma_filter_pred(stays, k);
    }
}

/// A launcher opens idle on the home screen, without versions, account or toasts, and with no
/// loader.
pub proof fn law_launcher_opens_idle()
    ensures
        opened().entries.len() == 0,
        opened().selected == 0,
        opened().run == RunState::Idle,
        opened().auth is Out,
        opened().toasts.len() == 0,
        opened().view == Screen::Home,
        opened().loader == Loader::Vanilla,
        opened().status == "Loading versions…"@,
{
}

/// The state tells all there is of a launcher: two launchers in the same state hold the same
/// versions, selection, texts and toasts.
pub proof fn law_state_tells_all(l: Launcher, i: int)
    ensures
        l@.entries == l.entries@,
        l@.selected == l.selected,
        l@.status == l.status@,
        l@.run == l.run,
        l@.view == l.view,
        l@.loader == l.loader,
        l@.next_toast_id == l.next_toast_id,
        l@.toasts.len() == l.toasts@.len(),
        0 <= i < l.toasts@.len() ==> {
            &&& l@.toasts[i].id == l.toasts@[i].id
            &&& l@.toasts[i].kind == l.toasts@[i].kind
            &&& l@.toasts[i].title == l.toasts@[i].title@
            &&& l@.toasts[i].message == l.toasts@[i].message@
        },
        l@.auth is Out <==> l.auth is Out,
        l.auth matches Auth::Pending { code, url } ==> l@.auth == (AuthText::Pending {
            code: code@,
            url: url@,
        }),
        l.auth matches Auth::In { name, uuid } ==> l@.auth == (AuthText::In {
            name: name@,
            uuid: uuid@,
        }),
        l.auth matches Auth::Failed(reason) ==> l@.auth == AuthText::Failed(reason@),
{
}

/// Play hands on what the user chose: the selected version, the chosen loader and the name of the
/// signed-in account, or `Player`. It is busy exactly while a game is starting or running, and has
/// no version exactly where the selection names none.
pub proof fn law_play_hands_on_the_choice(s: LauncherState, r: Play)
    requires
        is_play(s, r),
        0 <= s.selected,
    ensures
        r is Busy <==> s.run != RunState::Idle,
        r is NoVersion <==> s.run == RunState::Idle && s.selected >= s.entries.len(),
        r matches Play::Start { entry, account, loader, notice, dismiss } ==> {
            &&& entry == s.entries[s.selected]
            &&& entry.id@ == current_text(s)
            &&& played(s).1 == Some(entry)
            &&& loader == s.loader
            &&& s.auth matches AuthText::In { name, uuid } ==> account.username@ == name
            &&& !(s.auth is In) ==> account.username@ == "Player"@
            &&& account.username@.is_suffix_of(notice@)
            &&& dismiss == s.next_toast_id
        },
{
    if r is Start {
        let account = r->account;
        let notice = r->notice;
        let name = player_name(s.auth);
        assert(account.username@ == name);
        assert(notice@.subrange(notice@.len() - name.len(), notice@.len() as int) =~= name);
    }
}

/// A sign-in goes on with what it has got: the device code is polled for, the token exchanged; any
/// failure ends it.
pub proof fn law_sign_in_goes_on_with_what_it_got(
    next_toast_id: int,
    event: SignInEvent,
    action: SignInAction,
)
    requires
        is_sign_in_step(next_toast_id, event, action),
    ensures
        event is Start <==> action is RequestCode,
        event matches SignInEvent::Code(Ok(dc)) ==> action == SignInAction::Poll(dc),
        event matches SignInEvent::Token(Ok(token)) ==> action == SignInAction::Exchange(token),
        event matches SignInEvent::Signed(Ok(session)) ==> action is Welcome && action->Welcome_0
            == next_toast_id,
        event matches SignInEvent::Code(Err(e)) ==> action is Failed,
        event matches SignInEvent::Token(Err(e)) ==> action is Failed,
        event matches SignInEvent::Signed(Err(e)) ==> action is Failed,
{
}

/// The toast that is dismissed later is the one that was just added, and a sticky one never is.
pub proof fn law_dismissed_later_is_the_new_toast(
    s: LauncherState,
    kind: ToastKind,
    title: Seq<char>,
    message: Seq<char>,
    id: u64,
)
    requires
        s.next_toast_id == id,
    ensures
        dismissal(id, true) is None,
        dismissal(id, false) matches Some(later) && later == with_toast(
            s,
            kind,
            title,
            message,
        ).toasts.last().id,
{
}

} // verus!
