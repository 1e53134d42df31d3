use zenith::net::auth::{
    client_id, device_code_line, minecraft_login, poll_for_token, poll_start, request_device_code,
    transport_line, AuthError, DeviceCode, DisplayClaims, LoginAction, LoginEvent, McToken, Poll,
    PollAction, PollEvent, Profile, XboxResponse, Xui, CLIENT_ID, LOGIN_NOTICE, TOKEN_NOTICE,
};
use zenith::net::json::Json;
use zenith::net::mojang::{fetch_versions, releases, Manifest, MANIFEST_CONTEXT, MANIFEST_URL};
use zenith::VersionEntry;

fn code() -> DeviceCode {
    DeviceCode {
        device_code: "dev".to_string(),
        user_code: "ABCD".to_string(),
        verification_uri: "https://ms/link".to_string(),
        interval: 5,
        expires_in: 900,
    }
}

fn show(j: &Json) -> String {
    match j {
        Json::Text(s) => format!("{s:?}"),
        Json::List(l) => {
            let parts: Vec<String> = l.iter().map(show).collect();
            format!("[{}]", parts.join(","))
        }
        Json::Object(m) => {
            let parts: Vec<String> = m.iter().map(|(k, v)| format!("{k:?}:{}", show(v))).collect();
            format!("{{{}}}", parts.join(","))
        }
    }
}

#[test]
fn client_id_from_the_environment() {
    assert_eq!(client_id(Some("mine".to_string())), "mine");
    assert_eq!(client_id(None), CLIENT_ID);
    assert_eq!(client_id(None), "YOUR_AZURE_CLIENT_ID");
}

#[test]
fn device_code_request() {
    let post = request_device_code("mine").ok().unwrap();
    assert_eq!(post.url, "https://login.microsoftonline.com/consumers/oauth2/v2.0/devicecode");
    assert_eq!(
        post.fields,
        vec![
            ("client_id".to_string(), "mine".to_string()),
            ("scope".to_string(), "XboxLive.signin offline_access".to_string()),
        ]
    );
    assert_eq!(
        device_code_line(&code()),
        "Device code ABCD — verify at https://ms/link (expires 900s)"
    );
}

#[test]
fn device_code_needs_a_client_id() {
    match request_device_code("YOUR_AZURE_CLIENT_ID") {
        Err(e) => assert_eq!(
            e.message(),
            "No Azure client id set. Register an app and set ZENITH_CLIENT_ID."
        ),
        Ok(_) => panic!("requested"),
    }
}

fn refused(poll: &mut Poll, error: Option<&str>) -> PollAction {
    poll_for_token(
        "mine",
        &code(),
        poll,
        PollEvent::Refused { code: 400, error: error.map(|s| s.to_string()) },
    )
}

#[test]
fn polling_asks_until_the_code_expires() {
    let (notice, mut poll) = poll_start(&code());
    assert_eq!(notice, "Polling for sign-in (every 5s)…");
    match poll_for_token("mine", &code(), &mut poll, PollEvent::Clock(899)) {
        PollAction::Ask { wait, form } => {
            assert_eq!(wait, 5);
            assert_eq!(form.url, "https://login.microsoftonline.com/consumers/oauth2/v2.0/token");
            assert_eq!(
                form.fields,
                vec![
                    (
                        "grant_type".to_string(),
                        "urn:ietf:params:oauth:grant-type:device_code".to_string()
                    ),
                    ("client_id".to_string(), "mine".to_string()),
                    ("device_code".to_string(), "dev".to_string()),
                ]
            );
        }
        _ => panic!("not asked"),
    }
    match poll_for_token("mine", &code(), &mut poll, PollEvent::Clock(900)) {
        PollAction::Fail { warning, error } => {
            assert!(warning.is_none());
            assert_eq!(error.message(), "Sign-in timed out. Please try again.");
        }
        _ => panic!("not timed out"),
    }
}

#[test]
fn polling_interval_is_at_least_a_second() {
    let (_, poll) = poll_start(&DeviceCode { interval: 0, ..code() });
    assert_eq!(poll.interval, 1);
}

#[test]
fn polling_slows_down_on_request() {
    let mut poll = Poll { interval: 5 };
    assert!(matches!(refused(&mut poll, Some("authorization_pending")), PollAction::CheckClock));
    assert_eq!(poll.interval, 5);
    assert!(matches!(refused(&mut poll, Some("slow_down")), PollAction::CheckClock));
    assert_eq!(poll.interval, 10);
}

#[test]
fn polling_refusals() {
    let mut poll = Poll { interval: 5 };
    let mut message = |error: Option<&str>| match refused(&mut poll, error) {
        PollAction::Fail { warning, error } => (warning, error.message()),
        _ => panic!("not failed"),
    };
    assert_eq!(
        message(Some("authorization_declined")),
        (None, "Sign-in was declined.".to_string())
    );
    assert_eq!(
        message(Some("expired_token")),
        (None, "Sign-in code expired. Please try again.".to_string())
    );
    assert_eq!(
        message(Some("bad")),
        (Some("Token poll error 400: bad".to_string()), "Sign-in error: bad".to_string())
    );
    assert_eq!(
        message(None),
        (
            Some("Token poll error 400: unknown".to_string()),
            "Sign-in error: unknown".to_string()
        )
    );
    assert_eq!(transport_line("dns"), "Token poll transport error: dns");
}

#[test]
fn polling_ends_with_a_token() {
    let mut poll = Poll { interval: 5 };
    match poll_for_token("mine", &code(), &mut poll, PollEvent::Token("tok".to_string())) {
        PollAction::Done(t) => assert_eq!(t, "tok"),
        _ => panic!("not done"),
    }
    assert_eq!(TOKEN_NOTICE, "Microsoft token acquired.");
}

fn xbox(token: &str, uhs: Vec<&str>) -> XboxResponse {
    XboxResponse {
        token: token.to_string(),
        display_claims: DisplayClaims {
            xui: uhs.into_iter().map(|u| Xui { uhs: u.to_string() }).collect(),
        },
    }
}

#[test]
fn exchange_for_a_session() {
    assert_eq!(LOGIN_NOTICE, "Authenticating with Xbox Live…");
    match minecraft_login(LoginEvent::Start { ms_access_token: "ms".to_string() }) {
        LoginAction::AskXboxLive(post) => {
            assert_eq!(post.url, "https://user.auth.xboxlive.com/user/authenticate");
            assert_eq!(
                show(&post.body),
                "{\"Properties\":{\"AuthMethod\":\"RPS\",\"SiteName\":\"user.auth.xboxlive.com\",\
                 \"RpsTicket\":\"d=ms\"},\"RelyingParty\":\"http://auth.xboxlive.com\",\
                 \"TokenType\":\"JWT\"}"
            );
        }
        _ => panic!("Xbox Live is not asked"),
    }
    let uhs = match minecraft_login(LoginEvent::XboxLive(xbox("xbl", vec!["hash", "other"]))) {
        LoginAction::AskXsts { uhs, post } => {
            assert_eq!(post.url, "https://xsts.auth.xboxlive.com/xsts/authorize");
            assert_eq!(
                show(&post.body),
                "{\"Properties\":{\"SandboxId\":\"RETAIL\",\"UserTokens\":[\"xbl\"]},\
                 \"RelyingParty\":\"rp://api.minecraftservices.com/\",\"TokenType\":\"JWT\"}"
            );
            uhs
        }
        _ => panic!("XSTS is not asked"),
    };
    match minecraft_login(LoginEvent::Xsts { uhs, reply: xbox("xsts", vec![]) }) {
        LoginAction::AskServices(post) => {
            assert_eq!(
                post.url,
                "https://api.minecraftservices.com/authentication/login_with_xbox"
            );
            assert_eq!(show(&post.body), "{\"identityToken\":\"XBL3.0 x=hash;xsts\"}");
        }
        _ => panic!("the services are not asked"),
    }
    let access_token =
        match minecraft_login(LoginEvent::Services(McToken { access_token: "mc".to_string() })) {
            LoginAction::AskProfile { access_token, get } => {
                assert_eq!(get.url, "https://api.minecraftservices.com/minecraft/profile");
                assert_eq!(get.authorization, "Bearer mc");
                access_token
            }
            _ => panic!("the profile is not asked for"),
        };
    let profile = Profile { id: "uuid".to_string(), name: "Notch".to_string() };
    match minecraft_login(LoginEvent::Profile { access_token, profile }) {
        LoginAction::Done(s) => {
            assert_eq!(s.username, "Notch");
            assert_eq!(s.uuid, "uuid");
            assert_eq!(s.access_token, "mc");
        }
        _ => panic!("not signed in"),
    }
}

fn failure(event: LoginEvent) -> String {
    match minecraft_login(event) {
        LoginAction::Fail(e) => e.message(),
        _ => panic!("not failed"),
    }
}

#[test]
fn exchange_failures() {
    assert_eq!(failure(LoginEvent::XboxLive(xbox("t", vec![]))), "missing user hash");
    assert_eq!(
        failure(LoginEvent::ProfileRefused { code: 404, body: "x".to_string() }),
        "This Microsoft account does not own Minecraft: Java Edition."
    );
    assert_eq!(
        failure(LoginEvent::ProfileRefused { code: 500, body: "oops".to_string() }),
        "profile request returned 500: oops"
    );
}

#[test]
fn other_error_messages() {
    assert_eq!(
        AuthError::DeviceCode("why".to_string()).message(),
        "devicecode request failed: why"
    );
    assert_eq!(
        AuthError::Returned("https://x".to_string(), 401, "no".to_string()).message(),
        "https://x returned 401: no"
    );
}

fn version(id: &str, kind: &str) -> VersionEntry {
    VersionEntry { id: id.to_string(), kind: kind.to_string(), url: String::new() }
}

#[test]
fn manifest_versions_and_releases() {
    assert_eq!(
        MANIFEST_URL,
        "https://piston-meta.mojang.com/mc/game/version_manifest_v2.json"
    );
    assert_eq!(MANIFEST_CONTEXT, "fetching version manifest");
    let all = fetch_versions(Manifest {
        versions: vec![
            version("24w1", "snapshot"),
            version("1.21", "release"),
            version("b1.0", "old_beta"),
            version("1.20", "release"),
        ],
    });
    assert_eq!(all.len(), 4);
    let ids: Vec<String> = releases(all).into_iter().map(|v| v.id).collect();
    assert_eq!(ids, vec!["1.21".to_string(), "1.20".to_string()]);
}
