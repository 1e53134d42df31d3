//! Microsoft → Xbox Live → XSTS → Minecraft authentication.
//!
//! Mojang accounts no longer exist; logging in to Minecraft means signing in with a Microsoft
//! account and exchanging that token through Xbox Live and XSTS for a Minecraft session token.
//! The OAuth 2.0 **device code** flow is used: the user opens a URL, types a short code, and the
//! launcher polls in the background until they finish — no embedded browser required.
//!
//! An Azure application (client) id has to be supplied, in the environment variable
//! `ZENITH_CLIENT_ID`.

use vstd::prelude::*;
use vstd::string::*;

use crate::net::json::{
    has_members, is_text, member, text_member, AuthorizedGet, FormPost, Json, JsonPost,
};
use crate::text::{decimal, decimal_text, same_text};
use crate::types::Session;

verus! {

broadcast use vstd::seq::group_seq_axioms;

/// Stands for a client id that was never set.
pub const CLIENT_ID: &'static str = "YOUR_AZURE_CLIENT_ID";

/// What the token is asked for.
pub const SCOPE: &'static str = "XboxLive.signin offline_access";

/// Logged once Microsoft grants a token.
pub const TOKEN_NOTICE: &'static str = "Microsoft token acquired.";

/// Logged before the exchange begins.
pub const LOGIN_NOTICE: &'static str = "Authenticating with Xbox Live…";

/// The client id: the value of `ZENITH_CLIENT_ID` where it is set.
pub fn client_id(env: Option<String>) -> (r: String)
    ensures
        r@ == (match env {
            Some(id) => id@,
            None => CLIENT_ID@,
        }),
{
    match env {
        Some(id) => id,
        None => CLIENT_ID.to_string(),
    }
}

/// A device code, as Microsoft hands it out.
#[derive(Debug)]
pub struct DeviceCode {
    pub device_code: String,
    pub user_code: String,
    pub verification_uri: String,
    pub interval: u64,
    pub expires_in: u64,
}

impl Clone for DeviceCode {
    fn clone(&self) -> (r: DeviceCode)
        ensures
            r == *self,
    {
        DeviceCode {
            device_code: self.device_code.clone(),
            user_code: self.user_code.clone(),
            verification_uri: self.verification_uri.clone(),
            interval: self.interval,
            expires_in: self.expires_in,
        }
    }
}

/// Why a sign-in fails.
#[derive(Debug)]
pub enum AuthError {
    /// No client id was set.
    NoClientId,
    /// The request for a device code was refused with this reply.
    DeviceCode(String),
    /// The user took too long.
    TimedOut,
    /// The user declined.
    Declined,
    /// The code expired.
    Expired,
    /// Polling was refused for another reason.
    Other(String),
    /// Xbox Live gave no user hash.
    MissingUserHash,
    /// The account does not own the game.
    NotOwned,
    /// The profile was refused with this status and reply.
    Profile(u16, String),
    /// A service refused with this status and reply.
    Returned(String, u16, String),
}

/// An `AuthError` with its texts as characters.
pub enum AuthFault {
    NoClientId,
    DeviceCode(Seq<char>),
    TimedOut,
    Declined,
    Expired,
    Other(Seq<char>),
    MissingUserHash,
    NotOwned,
    Profile(u16, Seq<char>),
    Returned(Seq<char>, u16, Seq<char>),
}

impl View for AuthError {
    type V = AuthFault;

    open spec fn view(&self) -> AuthFault {
        match *self {
            AuthError::NoClientId => AuthFault::NoClientId,
            AuthError::DeviceCode(body) => AuthFault::DeviceCode(body@),
            AuthError::TimedOut => AuthFault::TimedOut,
            AuthError::Declined => AuthFault::Declined,
            AuthError::Expired => AuthFault::Expired,
            AuthError::Other(error) => AuthFault::Other(error@),
            AuthError::MissingUserHash => AuthFault::MissingUserHash,
            AuthError::NotOwned => AuthFault::NotOwned,
            AuthError::Profile(code, body) => AuthFault::Profile(code, body@),
            AuthError::Returned(url, code, body) => AuthFault::Returned(url@, code, body@),
        }
    }
}

impl AuthFault {
    /// The message shown for the fault.
    pub open spec fn message_text(self) -> Seq<char> {
        match self {
            AuthFault::NoClientId =>
                "No Azure client id set. Register an app and set ZENITH_CLIENT_ID."@,
            AuthFault::DeviceCode(body) => "devicecode request failed: "@ + body,
            AuthFault::TimedOut => "Sign-in timed out. Please try again."@,
            AuthFault::Declined => "Sign-in was declined."@,
            AuthFault::Expired => "Sign-in code expired. Please try again."@,
            AuthFault::Other(error) => "Sign-in error: "@ + error,
            AuthFault::MissingUserHash => "missing user hash"@,
            AuthFault::NotOwned =>
                "This Microsoft account does not own Minecraft: Java Edition."@,
            AuthFault::Profile(code, body) => "profile request returned "@ + decimal_text(
                code as nat,
            ) + ": "@ + body,
            AuthFault::Returned(url, code, body) => url + " returned "@ + decimal_text(
                code as nat,
            ) + ": "@ + body,
        }
    }
}

impl AuthError {
    /// The message shown for the error.
    pub fn message(&self) -> (r: String)
        ensures
            r@ == self@.message_text(),
    {
        match self {
            AuthError::NoClientId => {
                "No Azure client id set. Register an app and set ZENITH_CLIENT_ID.".to_string()
            },
            AuthError::DeviceCode(body) => {
                "devicecode request failed: ".to_string().concat(body.as_str())
            },
            AuthError::TimedOut => "Sign-in timed out. Please try again.".to_string(),
            AuthError::Declined => "Sign-in was declined.".to_string(),
            AuthError::Expired => "Sign-in code expired. Please try again.".to_string(),
            AuthError::Other(error) => "Sign-in error: ".to_string().concat(error.as_str()),
            AuthError::MissingUserHash => "missing user hash".to_string(),
            AuthError::NotOwned => {
                "This Microsoft account does not own Minecraft: Java Edition.".to_string()
            },
            AuthError::Profile(code, body) => {
                let mut out = "profile request returned ".to_string();
                out.append(decimal(*code as u64).as_str());
                out.append(": ");
                out.append(body.as_str());
                out
            },
            AuthError::Returned(url, code, body) => {
                let mut out = url.clone();
                out.append(" returned ");
                out.append(decimal(*code as u64).as_str());
                out.append(": ");
                out.append(body.as_str());
                out
            },
        }
    }
}

// --- Step 1: request a device code --------------------------------------

/// Whether a list of form fields holds the given names and values, in this order.
pub open spec fn has_fields(
    fields: Seq<(String, String)>,
    wanted: Seq<(Seq<char>, Seq<char>)>,
) -> bool {
    &&& fields.len() == wanted.len()
    &&& forall|i: int|
        0 <= i < wanted.len() ==> (#[trigger] fields[i]).0@ == wanted[i].0 && fields[i].1@ == wanted[i].1
}

/// Whether `r` is the request for a device code in the name of the client, or the refusal where no
/// client id was set.
pub open spec fn is_device_code_request(client_id: Seq<char>, r: Result<FormPost, AuthError>) -> bool {
    match r {
        Ok(post) => {
            &&& client_id != CLIENT_ID@
            &&& post.url@ == "https://login.microsoftonline.com/consumers/oauth2/v2.0/devicecode"@
            &&& has_fields(post.fields@, seq![("client_id"@, client_id), ("scope"@, SCOPE@)])
        },
        Err(e) => client_id == CLIENT_ID@ && e@ == AuthFault::NoClientId,
    }
}

/// The request for a device code.
pub fn request_device_code(client_id: &str) -> (r: Result<FormPost, AuthError>)
    ensures
        r is Err <==> client_id@ == CLIENT_ID@,
        match r {
            Ok(post) => {
                &&& post.url@
                    == "https://login.microsoftonline.com/consumers/oauth2/v2.0/devicecode"@
                &&& has_fields(
                    post.fields@,
                    seq![("client_id"@, client_id@), ("scope"@, SCOPE@)],
                )
            },
            Err(e) => e@ == AuthFault::NoClientId,
        },
        is_device_code_request(client_id@, r),
{
    if same_text(client_id, CLIENT_ID) {
        return Err(AuthError::NoClientId);
    }
    let mut fields: Vec<(String, String)> = Vec::new();
    fields.push(("client_id".to_string(), client_id.to_string()));
    fields.push(("scope".to_string(), SCOPE.to_string()));
    Ok(
        FormPost {
            url: "https://login.microsoftonline.com/consumers/oauth2/v2.0/devicecode".to_string(),
            fields,
        },
    )
}

/// The line that reports a device code.
pub fn device_code_line(dc: &DeviceCode) -> (r: String)
    ensures
        r@ == "Device code "@ + dc.user_code@ + " — verify at "@ + dc.verification_uri@
            + " (expires "@ + decimal_text(dc.expires_in as nat) + "s)"@,
{
    let mut out = "Device code ".to_string();
    out.append(dc.user_code.as_str());
    out.append(" — verify at ");
    out.append(dc.verification_uri.as_str());
    out.append(" (expires ");
    out.append(decimal(dc.expires_in).as_str());
    out.append("s)");
    out
}

// --- Step 2: poll until the user signs in -------------------------------

/// The state of polling: how many seconds to wait before the next request.
pub struct Poll {
    pub interval: u64,
}

/// What happened while polling.
pub enum PollEvent {
    /// This many whole seconds have passed since polling began.
    Clock(u64),
    /// Microsoft granted an access token.
    Token(String),
    /// Microsoft refused, with this status and, where the reply could be read, this error.
    Refused { code: u16, error: Option<String> },
}

/// What to do next.
pub enum PollAction {
    /// Wait this many seconds, then send the form.
    Ask { wait: u64, form: FormPost },
    /// Look at the clock again.
    CheckClock,
    /// The access token.
    Done(String),
    /// Log the warning, if any, and give up.
    Fail { warning: Option<String>, error: AuthError },
}

/// The line logged when polling begins.
pub open spec fn poll_notice_text(dc: DeviceCode) -> Seq<char> {
    "Polling for sign-in (every "@ + decimal_text(dc.interval as nat) + "s)…"@
}

/// The interval at which polling begins: that of the device code, but at least one second.
pub open spec fn start_interval(dc: DeviceCode) -> u64 {
    if dc.interval >= 1 {
        dc.interval
    } else {
        1
    }
}

/// Begins to poll: the line to log, and the state, with an interval of at least one second.
pub fn poll_start(dc: &DeviceCode) -> (r: (String, Poll))
    ensures
        r.0@ == poll_notice_text(*dc),
        r.1.interval == (if dc.interval >= 1 {
            dc.interval
        } else {
            1
        }),
        r.1.interval == start_interval(*dc),
{
    let mut notice = "Polling for sign-in (every ".to_string();
    notice.append(decimal(dc.interval).as_str());
    notice.append("s)…");
    let interval = if dc.interval >= 1 {
        dc.interval
    } else {
        1
    };
    (notice, Poll { interval })
}

/// The error of a refusal, `unknown` where the reply could not be read.
pub open spec fn refusal(error: Option<String>) -> Seq<char> {
    match error {
        Some(e) => e@,
        None => "unknown"@,
    }
}

/// The interval after an event: five seconds longer where Microsoft asks to slow down.
pub open spec fn next_interval(interval: u64, event: PollEvent) -> int {
    match event {
        PollEvent::Refused { code, error } => if refusal(error) == "slow_down"@ {
            interval + 5
        } else {
            interval as int
        },
        _ => interval as int,
    }
}

/// Whether `action` is what comes next.
pub open spec fn is_poll_step(
    client_id: Seq<char>,
    dc: DeviceCode,
    interval: u64,
    event: PollEvent,
    action: PollAction,
) -> bool {
    match event {
        PollEvent::Clock(elapsed) => if elapsed >= dc.expires_in {
            &&& action matches PollAction::Fail { warning, error }
            &&& warning is None
            &&& error@ == AuthFault::TimedOut
        } else {
            &&& action matches PollAction::Ask { wait, form }
            &&& wait == interval
            &&& form.url@ == "https://login.microsoftonline.com/consumers/oauth2/v2.0/token"@
            &&& has_fields(
                form.fields@,
                seq![
                    ("grant_type"@, "urn:ietf:params:oauth:grant-type:device_code"@),
                    ("client_id"@, client_id),
                    ("device_code"@, dc.device_code@),
                ],
            )
        },
        PollEvent::Token(token) => action == PollAction::Done(token),
        PollEvent::Refused { code, error } => if refusal(error) == "authorization_pending"@
            || refusal(error) == "slow_down"@ {
            action is CheckClock
        } else {
            &&& action matches PollAction::Fail { warning, error: e }
            &&& if refusal(error) == "authorization_declined"@ {
                warning is None && e@ == AuthFault::Declined
            } else if refusal(error) == "expired_token"@ {
                warning is None && e@ == AuthFault::Expired
            } else {
                &&& warning matches Some(w)
                &&& w@ == "Token poll error "@ + decimal_text(code as nat) + ": "@ + refusal(error)
                &&& e@ == AuthFault::Other(refusal(error))
            }
        },
    }
}

/// Polling until the user authorizes: from what happened to what comes next. In the end comes the
/// Microsoft access token.
pub fn poll_for_token(client_id: &str, dc: &DeviceCode, poll: &mut Poll, event: PollEvent) -> (r:
    PollAction)
    requires
        next_interval(old(poll).interval, event) <= u64::MAX,
    ensures
        is_poll_step(client_id@, *dc, old(poll).interval, event, r),
        final(poll).interval == next_interval(old(poll).interval, event),
{
    match event {
        PollEvent::Clock(elapsed) => {
            if elapsed >= dc.expires_in {
                return PollAction::Fail { warning: None, error: AuthError::TimedOut };
            }
            let mut fields: Vec<(String, String)> = Vec::new();
            fields.push(
                (
                    "grant_type".to_string(),
                    "urn:ietf:params:oauth:grant-type:device_code".to_string(),
                ),
            );
            fields.push(("client_id".to_string(), client_id.to_string()));
            fields.push(("device_code".to_string(), dc.device_code.clone()));
            PollAction::Ask {
                wait: poll.interval,
                form: FormPost {
                    url: "https://login.microsoftonline.com/consumers/oauth2/v2.0/token".to_string(),
                    fields,
                },
            }
        },
        PollEvent::Token(token) => PollAction::Done(token),
        PollEvent::Refused { code, error } => {
            let error = match error {
                Some(e) => e,
                None => "unknown".to_string(),
            };
            proof {
                reveal_strlit("authorization_pending");
                reveal_strlit("slow_down");
            }
            if same_text(error.as_str(), "authorization_pending") {
                assert("authorization_pending"@.len() != "slow_down"@.len());
                return PollAction::CheckClock;
            }
            if same_text(error.as_str(), "slow_down") {
                poll.interval = poll.interval + 5;
                return PollAction::CheckClock;
            }
            if same_text(error.as_str(), "authorization_declined") {
                return PollAction::Fail { warning: None, error: AuthError::Declined };
            }
            if same_text(error.as_str(), "expired_token") {
                return PollAction::Fail { warning: None, error: AuthError::Expired };
            }
            let mut warning = "Token poll error ".to_string();
            warning.append(decimal(code as u64).as_str());
            warning.append(": ");
            warning.append(error.as_str());
            PollAction::Fail { warning: Some(warning), error: AuthError::Other(error) }
        },
    }
}

/// The line that reports that a poll did not get through.
pub fn transport_line(reason: &str) -> (r: String)
    ensures
        r@ == "Token poll transport error: "@ + reason@,
{
    "Token poll transport error: ".to_string().concat(reason)
}

/// Polling never speeds up, and slows down only where Microsoft asks for it, by five seconds.
pub proof fn law_polling_never_speeds_up(interval: u64, event: PollEvent)
    ensures
        next_interval(interval, event) == interval || next_interval(interval, event) == interval
            + 5,
        next_interval(interval, event) != interval ==> event is Refused && refusal(
            event->error,
        ) == "slow_down"@,
{
}

/// Polling goes on exactly until the code expires, a token comes, or Microsoft refuses for a
/// reason other than that the user is still busy or that polling is too fast.
pub proof fn law_polling_ends(
    client_id: Seq<char>,
    dc: DeviceCode,
    interval: u64,
    event: PollEvent,
    action: PollAction,
)
    requires
        is_poll_step(client_id, dc, interval, event, action),
    ensures
        (action is Done || action is Fail) <==> match event {
            PollEvent::Clock(elapsed) => elapsed >= dc.expires_in,
            PollEvent::Token(_) => true,
            PollEvent::Refused { code, error } => refusal(error) != "authorization_pending"@
                && refusal(error) != "slow_down"@,
        },
        action is Done <==> event is Token,
{
}

// --- Step 3: Microsoft token → Minecraft session ------------------------

/// A reply of Xbox Live or XSTS.
pub struct XboxResponse {
    pub token: String,
    pub display_claims: DisplayClaims,
}

/// The claims of a reply.
pub struct DisplayClaims {
    pub xui: Vec<Xui>,
}

/// A user of a reply.
pub struct Xui {
    pub uhs: String,
}

/// A reply of the Minecraft services.
pub struct McToken {
    pub access_token: String,
}

/// A Minecraft profile.
pub struct Profile {
    pub id: String,
    pub name: String,
}

/// What came back during the exchange.
pub enum LoginEvent {
    /// The exchange begins with a Microsoft access token.
    Start { ms_access_token: String },
    /// The reply of Xbox Live.
    XboxLive(XboxResponse),
    /// The reply of XSTS, beside the user hash.
    Xsts { uhs: String, reply: XboxResponse },
    /// The reply of the Minecraft services.
    Services(McToken),
    /// The profile, beside the access token.
    Profile { access_token: String, profile: Profile },
    /// The profile was refused with this status and reply.
    ProfileRefused { code: u16, body: String },
}

/// What comes next in the exchange.
pub enum LoginAction {
    /// Ask Xbox Live.
    AskXboxLive(JsonPost),
    /// Ask XSTS, keeping the user hash.
    AskXsts { uhs: String, post: JsonPost },
    /// Ask the Minecraft services.
    AskServices(JsonPost),
    /// Ask for the profile (also verifies the account owns the game), keeping the access token.
    AskProfile { access_token: String, get: AuthorizedGet },
    /// Signed in.
    Done(Session),
    /// The exchange failed.
    Fail(AuthError),
}

/// The document for Xbox Live.
pub open spec fn is_xbox_live_body(j: Json, ms_access_token: Seq<char>) -> bool {
    &&& has_members(j, seq!["Properties"@, "RelyingParty"@, "TokenType"@])
    &&& has_members(member(j, 0), seq!["AuthMethod"@, "SiteName"@, "RpsTicket"@])
    &&& is_text(member(member(j, 0), 0), "RPS"@)
    &&& is_text(member(member(j, 0), 1), "user.auth.xboxlive.com"@)
    &&& is_text(member(member(j, 0), 2), "d="@ + ms_access_token)
    &&& is_text(member(j, 1), "http://auth.xboxlive.com"@)
    &&& is_text(member(j, 2), "JWT"@)
}

/// The document for XSTS.
pub open spec fn is_xsts_body(j: Json, xbl_token: Seq<char>) -> bool {
    &&& has_members(j, seq!["Properties"@, "RelyingParty"@, "TokenType"@])
    &&& has_members(member(j, 0), seq!["SandboxId"@, "UserTokens"@])
    &&& is_text(member(member(j, 0), 0), "RETAIL"@)
    &&& member(member(j, 0), 1) matches Json::List(tokens) && tokens@.len() == 1 && is_text(
        tokens@[0],
        xbl_token,
    )
    &&& is_text(member(j, 1), "rp://api.minecraftservices.com/"@)
    &&& is_text(member(j, 2), "JWT"@)
}

/// The document for the Minecraft services.
pub open spec fn is_services_body(j: Json, uhs: Seq<char>, xsts_token: Seq<char>) -> bool {
    &&& has_members(j, seq!["identityToken"@])
    &&& is_text(member(j, 0), "XBL3.0 x="@ + uhs + ";"@ + xsts_token)
}

/// Whether `action` is what comes next.
pub open spec fn is_login_step(event: LoginEvent, action: LoginAction) -> bool {
    match event {
        LoginEvent::Start { ms_access_token } => {
            &&& action matches LoginAction::AskXboxLive(post)
            &&& post.url@ == "https://user.auth.xboxlive.com/user/authenticate"@
            &&& is_xbox_live_body(post.body, ms_access_token@)
        },
        LoginEvent::XboxLive(xbl) => if xbl.display_claims.xui@.len() == 0 {
            action matches LoginAction::Fail(e) && e@ == AuthFault::MissingUserHash
        } else {
            &&& action matches LoginAction::AskXsts { uhs, post }
            &&& uhs@ == xbl.display_claims.xui@[0].uhs@
            &&& post.url@ == "https://xsts.auth.xboxlive.com/xsts/authorize"@
            &&& is_xsts_body(post.body, xbl.token@)
        },
        LoginEvent::Xsts { uhs, reply } => {
            &&& action matches LoginAction::AskServices(post)
            &&& post.url@ == "https://api.minecraftservices.com/authentication/login_with_xbox"@
            &&& is_services_body(post.body, uhs@, reply.token@)
        },
        LoginEvent::Services(mc) => {
            &&& action matches LoginAction::AskProfile { access_token, get }
            &&& access_token@ == mc.access_token@
            &&& get.url@ == "https://api.minecraftservices.com/minecraft/profile"@
            &&& get.authorization@ == "Bearer "@ + mc.access_token@
        },
        LoginEvent::Profile { access_token, profile } => {
            &&& action matches LoginAction::Done(session)
            &&& session.username == profile.name
            &&& session.uuid == profile.id
            &&& session.access_token == access_token
        },
        LoginEvent::ProfileRefused { code, body } => {
            &&& action matches LoginAction::Fail(e)
            &&& e@ == (if code == 404 {
                AuthFault::NotOwned
            } else {
                AuthFault::Profile(code, body@)
            })
        },
    }
}

fn xbox_live_body(ms_access_token: &str) -> (r: Json)
    ensures
        is_xbox_live_body(r, ms_access_token@),
{
    let mut properties: Vec<(String, Json)> = Vec::new();
    properties.push(text_member("AuthMethod", "RPS".to_string()));
    properties.push(text_member("SiteName", "user.auth.xboxlive.com".to_string()));
    properties.push(text_member("RpsTicket", "d=".to_string().concat(ms_access_token)));
    let mut body: Vec<(String, Json)> = Vec::new();
    body.push(("Properties".to_string(), Json::Object(properties)));
    body.push(text_member("RelyingParty", "http://auth.xboxlive.com".to_string()));
    body.push(text_member("TokenType", "JWT".to_string()));
    Json::Object(body)
}

fn xsts_body(xbl_token: String) -> (r: Json)
    ensures
        is_xsts_body(r, xbl_token@),
{
    let mut tokens: Vec<Json> = Vec::new();
    tokens.push(Json::Text(xbl_token));
    let mut properties: Vec<(String, Json)> = Vec::new();
    properties.push(text_member("SandboxId", "RETAIL".to_string()));
    properties.push(("UserTokens".to_string(), Json::List(tokens)));
    let mut body: Vec<(String, Json)> = Vec::new();
    body.push(("Properties".to_string(), Json::Object(properties)));
    body.push(text_member("RelyingParty", "rp://api.minecraftservices.com/".to_string()));
    body.push(text_member("TokenType", "JWT".to_string()));
    Json::Object(body)
}

fn services_body(uhs: &str, xsts_token: &str) -> (r: Json)
    ensures
        is_services_body(r, uhs@, xsts_token@),
{
    let mut identity = "XBL3.0 x=".to_string();
    identity.append(uhs);
    identity.append(";");
    identity.append(xsts_token);
    let mut body: Vec<(String, Json)> = Vec::new();
    body.push(text_member("identityToken", identity));
    Json::Object(body)
}

/// The exchange of a Microsoft token for a Minecraft session: from what came back to what comes
/// next.
pub fn minecraft_login(event: LoginEvent) -> (r: LoginAction)
    ensures
        is_login_step(event, r),
{
    match event {
        LoginEvent::Start { ms_access_token } => LoginAction::AskXboxLive(
            JsonPost {
                url: "https://user.auth.xboxlive.com/user/authenticate".to_string(),
                body: xbox_live_body(ms_access_token.as_str()),
            },
        ),
        LoginEvent::XboxLive(xbl) => {
            if xbl.display_claims.xui.len() == 0 {
                return LoginAction::Fail(AuthError::MissingUserHash);
            }
            let uhs = xbl.display_claims.xui[0].uhs.clone();
            LoginAction::AskXsts {
                uhs,
                post: JsonPost {
                    url: "https://xsts.auth.xboxlive.com/xsts/authorize".to_string(),
                    body: xsts_body(xbl.token),
                },
            }
        },
        LoginEvent::Xsts { uhs, reply } => LoginAction::AskServices(
            JsonPost {
                url: "https://api.minecraftservices.com/authentication/login_with_xbox".to_string(),
                body: services_body(uhs.as_str(), reply.token.as_str()),
            },
        ),
        LoginEvent::Services(mc) => {
            let authorization = "Bearer ".to_string().concat(mc.access_token.as_str());
            LoginAction::AskProfile {
                access_token: mc.access_token,
                get: AuthorizedGet {
                    url: "https://api.minecraftservices.com/minecraft/profile".to_string(),
                    authorization,
                },
            }
        },
        LoginEvent::Profile { access_token, profile } => LoginAction::Done(
            Session { username: profile.name, uuid: profile.id, access_token },
        ),
        LoginEvent::ProfileRefused { code, body } => {
            if code == 404 {
                LoginAction::Fail(AuthError::NotOwned)
            } else {
                LoginAction::Fail(AuthError::Profile(code, body))
            }
        },
    }
}

/// An exchange that runs through ends in a session with the profile's name and id and the token
/// of the Minecraft services, and each service was asked with the token of the one before it.
pub proof fn law_exchange_hands_each_token_on(
    ms_access_token: String,
    xbl: XboxResponse,
    xsts: XboxResponse,
    mc: McToken,
    profile: Profile,
    first: LoginAction,
    second: LoginAction,
    third: LoginAction,
    fourth: LoginAction,
    fifth: LoginAction,
)
    requires
        xbl.display_claims.xui@.len() > 0,
        is_login_step(LoginEvent::Start { ms_access_token }, first),
        is_login_step(LoginEvent::XboxLive(xbl), second),
        is_login_step(LoginEvent::Xsts { uhs: second->uhs, reply: xsts }, third),
        is_login_step(LoginEvent::Services(mc), fourth),
        is_login_step(
            LoginEvent::Profile { access_token: fourth->access_token, profile },
            fifth,
        ),
    ensures
        first is AskXboxLive && is_xbox_live_body(first->AskXboxLive_0.body, ms_access_token@),
        second is AskXsts && is_xsts_body(second->post.body, xbl.token@),
        third is AskServices && is_services_body(
            third->AskServices_0.body,
            xbl.display_claims.xui@[0].uhs@,
            xsts.token@,
        ),
        fourth is AskProfile && fourth->get.authorization@ == "Bearer "@ + mc.access_token@,
        fifth is Done && fifth->Done_0.username@ == profile.name@ && fifth->Done_0.uuid@
            == profile.id@ && fifth->Done_0.access_token@ == mc.access_token@,
{
}

// --- What a sign-in promises ---------------------------------------------

/// Whether an event is Microsoft asking to slow down.
pub open spec fn is_slow_down(event: PollEvent) -> bool {
    event matches PollEvent::Refused { code, error } && error matches Some(e) && e@ == "slow_down"@
}

/// How many of the events ask to slow down.
pub open spec fn slow_downs(events: Seq<PollEvent>) -> nat
    decreases events.len(),
{
    if events.len() == 0 {
        0
    } else {
        slow_downs(events.drop_last()) + if is_slow_down(events.last()) {
            1nat
        } else {
            0nat
        }
    }
}

proof fn lemma_interval(events: Seq<PollEvent>, intervals: Seq<u64>, k: int)
    requires
        intervals.len() == events.len() + 1,
        forall|i: int|
            0 <= i < events.len() ==> intervals[i + 1] == next_interval(
                intervals[i],
                #[trigger] events[i],
            ),
        0 <= k <= events.len(),
    ensures
        intervals[k] == intervals[0] + 5 * slow_downs(events.take(k)),
    decreases k,
{
    if k > 0 {
        lemma_interval(events, intervals, k - 1);
        assert(events.take(k).drop_last() =~= events.take(k - 1));
        assert(events.take(k).last() == events[k - 1]);
        assert(intervals[k - 1 + 1] == next_interval(intervals[k - 1], events[k - 1]));
        reveal_strlit("unknown");
        reveal_strlit("slow_down");
        assert("unknown"@.len() != "slow_down"@.len());
    }
}

/// Microsoft's pace is kept: over a run of polling from its start, each request is sent after the
/// interval of the device code, at least a second, and five seconds more for every time that
/// Microsoft has asked to slow down so far.
pub proof fn law_waits_count_the_slow_downs(
    client_id: Seq<char>,
    dc: DeviceCode,
    events: Seq<PollEvent>,
    intervals: Seq<u64>,
    actions: Seq<PollAction>,
    k: int,
)
    requires
        actions.len() == events.len(),
        intervals.len() == events.len() + 1,
        intervals[0] == start_interval(dc),
        forall|i: int|
            0 <= i < events.len() ==> {
                &&& is_poll_step(client_id, dc, intervals[i], #[trigger] events[i], actions[i])
                &&& intervals[i + 1] == next_interval(intervals[i], events[i])
            },
        0 <= k < events.len(),
        actions[k] is Ask,
    ensures
        dc.interval >= 1 ==> actions[k]->wait == dc.interval + 5 * slow_downs(events.take(k)),
        dc.interval == 0 ==> actions[k]->wait == 1 + 5 * slow_downs(events.take(k)),
{
    lemma_interval(events, intervals, k);
    assert(is_poll_step(client_id, dc, intervals[k], events[k], actions[k]));
    if events[k] is Refused {
        assert(!(actions[k] is Ask));
    }
}

/// The clock decides between asking again and giving up: before the code expires comes a request
/// for the token, in the name of the client and for this device code; from then on, the end.
pub proof fn law_asks_until_the_code_expires(
    client_id: Seq<char>,
    dc: DeviceCode,
    interval: u64,
    elapsed: u64,
    action: PollAction,
)
    requires
        is_poll_step(client_id, dc, interval, PollEvent::Clock(elapsed), action),
    ensures
        elapsed < dc.expires_in ==> {
            &&& action matches PollAction::Ask { wait, form }
            &&& form.url@ == "https://login.microsoftonline.com/consumers/oauth2/v2.0/token"@
            &&& form.fields@.len() == 3
            &&& form.fields@[0].0@ == "grant_type"@
            &&& form.fields@[0].1@ == "urn:ietf:params:oauth:grant-type:device_code"@
            &&& form.fields@[1].0@ == "client_id"@
            &&& form.fields@[1].1@ == client_id
            &&& form.fields@[2].0@ == "device_code"@
            &&& form.fields@[2].1@ == dc.device_code@
        },
        elapsed >= dc.expires_in ==> {
            &&& action matches PollAction::Fail { warning, error }
            &&& warning is None
            &&& error@ == AuthFault::TimedOut
        },
{
    if elapsed < dc.expires_in {
        let fields = action->form.fields@;
        assert(fields[0].0@ == "grant_type"@);
        assert(fields[1].0@ == "client_id"@);
        assert(fields[2].0@ == "device_code"@);
    }
}

/// Each refusal has its outcome. While the user is busy, and where polling is too fast, polling
/// goes on; every other refusal ends it with its own error, and one that is not foreseen is
/// named, in a warning too. A token ends polling with that token.
pub proof fn law_each_refusal_has_its_outcome(
    client_id: Seq<char>,
    dc: DeviceCode,
    interval: u64,
    code: u16,
    reason: String,
    token: String,
    refused: PollAction,
    unread: PollAction,
    granted: PollAction,
)
    requires
        is_poll_step(
            client_id,
            dc,
            interval,
            PollEvent::Refused { code, error: Some(reason) },
            refused,
        ),
        is_poll_step(client_id, dc, interval, PollEvent::Refused { code, error: None }, unread),
        is_poll_step(client_id, dc, interval, PollEvent::Token(token), granted),
    ensures
        reason@ == "authorization_pending"@ || reason@ == "slow_down"@ ==> refused is CheckClock,
        reason@ == "authorization_declined"@ ==> refused is Fail && refused->warning is None
            && refused->error@ == AuthFault::Declined,
        reason@ == "expired_token"@ ==> refused is Fail && refused->warning is None
            && refused->error@ == AuthFault::Expired,
        reason@ != "authorization_pending"@ && reason@ != "slow_down"@ && reason@
            != "authorization_declined"@ && reason@ != "expired_token"@ ==> {
            &&& refused matches PollAction::Fail { warning, error }
            &&& error@ == AuthFault::Other(reason@)
            &&& warning matches Some(w)
            &&& w@ == "Token poll error "@ + decimal_text(code as nat) + ": "@ + reason@
        },
        unread is Fail && unread->error@ == AuthFault::Other("unknown"@),
        granted == PollAction::Done(token),
{
    reveal_strlit("authorization_pending");
    reveal_strlit("slow_down");
    reveal_strlit("authorization_declined");
    reveal_strlit("expired_token");
    reveal_strlit("unknown");
    assert("authorization_pending"@.len() == 21);
    assert("slow_down"@.len() == 9);
    assert("authorization_declined"@.len() == 22);
    assert("expired_token"@.len() == 13);
    assert("unknown"@.len() == 7);
}

/// The interval grows only on a request to slow down, and then by five seconds.
pub proof fn law_only_slow_down_slows_down(interval: u64, event: PollEvent)
    ensures
        is_slow_down(event) ==> next_interval(interval, event) == interval + 5,
        !is_slow_down(event) ==> next_interval(interval, event) == interval,
{
    reveal_strlit("unknown");
    reveal_strlit("slow_down");
    assert("unknown"@.len() != "slow_down"@.len());
}

/// The document for Xbox Live, member by member.
pub proof fn law_xbox_live_is_asked_with_the_microsoft_token(j: Json, token: Seq<char>)
    requires
        is_xbox_live_body(j, token),
    ensures
        j matches Json::Object(m) && m@.len() == 3 && {
            &&& m@[0].0@ == "Properties"@
            &&& m@[0].1 matches Json::Object(p)
            &&& p@.len() == 3
            &&& p@[0].0@ == "AuthMethod"@
            &&& p@[0].1 matches Json::Text(method)
            &&& method@ == "RPS"@
            &&& p@[1].0@ == "SiteName"@
            &&& p@[1].1 matches Json::Text(site)
            &&& site@ == "user.auth.xboxlive.com"@
            &&& p@[2].0@ == "RpsTicket"@
            &&& p@[2].1 matches Json::Text(ticket)
            &&& ticket@ == "d="@ + token
            &&& m@[1].0@ == "RelyingParty"@
            &&& m@[1].1 matches Json::Text(party)
            &&& party@ == "http://auth.xboxlive.com"@
            &&& m@[2].0@ == "TokenType"@
            &&& m@[2].1 matches Json::Text(kind)
            &&& kind@ == "JWT"@
        },
{
    let m = j->Object_0@;
    assert(m[0].0@ == "Properties"@);
    assert(m[1].0@ == "RelyingParty"@);
    assert(m[2].0@ == "TokenType"@);
    let p = m[0].1->Object_0@;
    assert(p[0].0@ == "AuthMethod"@);
    assert(p[1].0@ == "SiteName"@);
    assert(p[2].0@ == "RpsTicket"@);
}

/// The document for XSTS, member by member.
pub proof fn law_xsts_is_asked_with_the_xbox_live_token(j: Json, token: Seq<char>)
    requires
        is_xsts_body(j, token),
    ensures
        j matches Json::Object(m) && m@.len() == 3 && {
            &&& m@[0].0@ == "Properties"@
            &&& m@[0].1 matches Json::Object(p)
            &&& p@.len() == 2
            &&& p@[0].0@ == "SandboxId"@
            &&& p@[0].1 matches Json::Text(sandbox)
            &&& sandbox@ == "RETAIL"@
            &&& p@[1].0@ == "UserTokens"@
            &&& p@[1].1 matches Json::List(tokens)
            &&& tokens@.len() == 1
            &&& tokens@[0] matches Json::Text(t)
            &&& t@ == token
            &&& m@[1].0@ == "RelyingParty"@
            &&& m@[1].1 matches Json::Text(party)
            &&& party@ == "rp://api.minecraftservices.com/"@
            &&& m@[2].0@ == "TokenType"@
            &&& m@[2].1 matches Json::Text(kind)
            &&& kind@ == "JWT"@
        },
{
    let m = j->Object_0@;
    assert(m[0].0@ == "Properties"@);
    assert(m[1].0@ == "RelyingParty"@);
    assert(m[2].0@ == "TokenType"@);
    let p = m[0].1->Object_0@;
    assert(p[0].0@ == "SandboxId"@);
    assert(p[1].0@ == "UserTokens"@);
}

/// The document for the Minecraft services: the user hash, then the token of XSTS.
pub proof fn law_services_are_asked_with_hash_and_token(j: Json, uhs: Seq<char>, token: Seq<char>)
    requires
        is_services_body(j, uhs, token),
    ensures
        j matches Json::Object(m) && m@.len() == 1 && {
            &&& m@[0].0@ == "identityToken"@
            &&& m@[0].1 matches Json::Text(identity)
            &&& identity@ == "XBL3.0 x="@ + uhs + ";"@ + token
        },
{
    assert(j->Object_0@[0].0@ == "identityToken"@);
}

/// Each stage of the exchange asks the service whose turn it is, and the user hash is that of the
/// first user that Xbox Live names.
pub proof fn law_each_service_is_asked_in_turn(event: LoginEvent, action: LoginAction)
    requires
        is_login_step(event, action),
    ensures
        event is Start ==> action is AskXboxLive && action->AskXboxLive_0.url@
            == "https://user.auth.xboxlive.com/user/authenticate"@,
        event matches LoginEvent::XboxLive(xbl) ==> xbl.display_claims.xui@.len() > 0 ==> {
            &&& action is AskXsts
            &&& action->uhs@ == xbl.display_claims.xui@[0].uhs@
            &&& action->post.url@ == "https://xsts.auth.xboxlive.com/xsts/authorize"@
        },
        event is Xsts ==> action is AskServices && action->AskServices_0.url@
            == "https://api.minecraftservices.com/authentication/login_with_xbox"@,
        event is Services ==> action is AskProfile && action->get.url@
            == "https://api.minecraftservices.com/minecraft/profile"@,
{
}

/// The exchange fails where Xbox Live names no user, and where the profile is refused: a profile
/// that is not found means that the account does not own the game, any other refusal is handed on
/// with its status and reply.
pub proof fn law_exchange_fails_with_its_reason(
    xbl: XboxResponse,
    code: u16,
    body: String,
    hashless: LoginAction,
    refused: LoginAction,
)
    requires
        is_login_step(LoginEvent::XboxLive(xbl), hashless),
        is_login_step(LoginEvent::ProfileRefused { code, body }, refused),
    ensures
        xbl.display_claims.xui@.len() == 0 ==> hashless is Fail && hashless->Fail_0@
            == AuthFault::MissingUserHash,
        code == 404 ==> refused is Fail && refused->Fail_0@ == AuthFault::NotOwned,
        code != 404 ==> refused is Fail && refused->Fail_0@ == AuthFault::Profile(code, body@),
{
}

/// A message that reports a reply ends with that reply.
pub proof fn law_message_ends_with_the_reply(url: Seq<char>, code: u16, reply: Seq<char>)
    ensures
        reply.is_suffix_of(AuthFault::DeviceCode(reply).message_text()),
        reply.is_suffix_of(AuthFault::Other(reply).message_text()),
        reply.is_suffix_of(AuthFault::Profile(code, reply).message_text()),
        reply.is_suffix_of(AuthFault::Returned(url, code, reply).message_text()),
        url.is_prefix_of(AuthFault::Returned(url, code, reply).message_text()),
{
    let a = AuthFault::DeviceCode(reply).message_text();
    let b = AuthFault::Other(reply).message_text();
    let c = AuthFault::Profile(code, reply).message_text();
    let d = AuthFault::Returned(url, code, reply).message_text();
    assert(a.subrange(a.len() - reply.len(), a.len() as int) =~= reply);
    assert(b.subrange(b.len() - reply.len(), b.len() as int) =~= reply);
    assert(c.subrange(c.len() - reply.len(), c.len() as int) =~= reply);
    assert(d.subrange(d.len() - reply.len(), d.len() as int) =~= reply);
    assert(d.subrange(0, url.len() as int) =~= url);
}

/// A form that has the wanted fields has each of them under its name, in order, and no other.
pub proof fn law_form_has_exactly_its_fields(
    fields: Seq<(String, String)>,
    wanted: Seq<(Seq<char>, Seq<char>)>,
    i: int,
)
    requires
        has_fields(fields, wanted),
        0 <= i < wanted.len(),
    ensures
        fields.len() == wanted.len(),
        fields[i].0@ == wanted[i].0,
        fields[i].1@ == wanted[i].1,
{
}

/// What is said of an error is what the error holds.
pub proof fn law_auth_error_is_as_it_reads(url: String, code: u16, reply: String)
    ensures
        AuthError::NoClientId@ is NoClientId,
        AuthError::DeviceCode(reply)@ == AuthFault::DeviceCode(reply@),
        AuthError::TimedOut@ is TimedOut,
        AuthError::Declined@ is Declined,
        AuthError::Expired@ is Expired,
        AuthError::Other(reply)@ == AuthFault::Other(reply@),
        AuthError::MissingUserHash@ is MissingUserHash,
        AuthError::NotOwned@ is NotOwned,
        AuthError::Profile(code, reply)@ == AuthFault::Profile(code, reply@),
        AuthError::Returned(url, code, reply)@ == AuthFault::Returned(url@, code, reply@),
{
}

/// The line that announces polling names the interval of the device code.
pub proof fn law_poll_notice_names_the_interval(dc: DeviceCode)
    ensures
        ("Polling for sign-in (every "@ + decimal_text(dc.interval as nat)).is_prefix_of(
            poll_notice_text(dc),
        ),
{
    let a = "Polling for sign-in (every "@ + decimal_text(dc.interval as nat);
    assert(poll_notice_text(dc).subrange(0, a.len() as int) =~= a);
}

/// A device code is asked for in the name of the client, for signing in to Xbox Live; only a client
/// id that was never set is refused.
pub proof fn law_device_code_is_asked_for_the_client(
    client_id: Seq<char>,
    r: Result<FormPost, AuthError>,
)
    requires
        is_device_code_request(client_id, r),
    ensures
        r is Err <==> client_id == "YOUR_AZURE_CLIENT_ID"@,
        r matches Ok(post) ==> {
            &&& post.fields@.len() == 2
            &&& post.fields@[0].0@ == "client_id"@
            &&& post.fields@[0].1@ == client_id
            &&& post.fields@[1].0@ == "scope"@
            &&& post.fields@[1].1@ == "XboxLive.signin offline_access"@
        },
{
    if r is Ok {
        let fields = r->Ok_0.fields@;
        assert(fields[0].0@ == "client_id"@);
        assert(fields[1].0@ == "scope"@);
    }
}

} // verus!
