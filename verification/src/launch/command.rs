//! The command that starts a prepared version.

use vstd::prelude::*;
use vstd::string::*;

use crate::launch::args::{
    all_substituted, args_templates, classpath_string, inert, is_name, is_piece,
    law_arguments_keep_their_order, law_placeholder_becomes_its_value, law_walk_order_does_not_matter,
    lemma_value_of, names_differ, placeholder, push_all, push_args, rendered, substituted, var_texts, Piece,
};
use crate::launch::error::{LaunchError, LaunchFault};
use crate::launch::game::{after_start, is_running, Game};
use crate::launch::loader::is_merged;
use crate::launch::prepare::Prepared;
use crate::launch::rules::Platform;
use crate::launch::version::{Arguments, LoaderProfile, VersionDetail};
use crate::store::Paths;
use crate::text::{joined, split_whitespace, texts, words};
use crate::types::Account;

verus! {

broadcast use vstd::seq::group_seq_axioms;

/// A process to spawn.
pub struct Command {
    pub program: String,
    pub args: Vec<String>,
    pub dir: String,
    /// What to report where spawning fails.
    pub context: String,
}

/// The line to log, and the process to spawn unless that is refused.
pub struct Launch {
    pub notice: String,
    pub command: Result<Command, LaunchError>,
}

/// The class path of a prepared version.
pub open spec fn classpath_text(prepared: Prepared) -> Seq<char> {
    joined(texts(prepared.classpath@), ":"@)
}

/// The variables that arguments can name.
pub open spec fn launch_vars(
    prepared: Prepared,
    account: Account,
    paths: Paths,
    launcher_version: Seq<char>,
) -> Seq<(Seq<char>, Seq<char>)> {
    seq![
        ("auth_player_name"@, account.username@),
        ("version_name"@, prepared.version_id@),
        ("game_directory"@, paths.root@),
        ("assets_root"@, prepared.assets_dir@),
        ("assets_index_name"@, prepared.asset_index_id@),
        ("auth_uuid"@, account.uuid@),
        ("auth_access_token"@, account.access_token@),
        ("clientid"@, Seq::empty()),
        ("auth_xuid"@, Seq::empty()),
        ("user_type"@, account.user_type@),
        ("version_type"@, prepared.version_type@),
        ("natives_directory"@, prepared.natives_dir@),
        ("launcher_name"@, "zenith"@),
        ("launcher_version"@, launcher_version),
        ("classpath"@, classpath_text(prepared)),
    ]
}

/// The arguments of the process. The modern format lists them, those of the virtual machine before
/// the main class and those of the game after it; the legacy format gives those of the game as one
/// line of words.
pub open spec fn launch_args(
    prepared: Prepared,
    vars: Seq<(Seq<char>, Seq<char>)>,
    platform: Platform,
) -> Seq<Seq<char>> {
    match prepared.arguments {
        Some(arguments) => all_substituted(args_templates(arguments.jvm@, platform), vars)
            + seq![prepared.main_class@] + all_substituted(
            args_templates(arguments.game@, platform),
            vars,
        ),
        None => seq![
            "-Djava.library.path="@ + prepared.natives_dir@,
            "-cp"@,
            classpath_text(prepared),
            prepared.main_class@,
        ] + (match prepared.legacy_arguments {
            Some(legacy) => all_substituted(words(legacy@), vars),
            None => Seq::empty(),
        }),
    }
}

fn variables(prepared: &Prepared, account: &Account, paths: &Paths, launcher_version: &str, cp: &str) -> (r:
    Vec<(String, String)>)
    requires
        cp@ == classpath_text(*prepared),
    ensures
        var_texts(r@) == launch_vars(*prepared, *account, *paths, launcher_version@),
{
    let mut vars: Vec<(String, String)> = Vec::new();
    vars.push(("auth_player_name".to_string(), account.username.clone()));
    vars.push(("version_name".to_string(), prepared.version_id.clone()));
    vars.push(("game_directory".to_string(), paths.root.clone()));
    vars.push(("assets_root".to_string(), prepared.assets_dir.clone()));
    vars.push(("assets_index_name".to_string(), prepared.asset_index_id.clone()));
    vars.push(("auth_uuid".to_string(), account.uuid.clone()));
    vars.push(("auth_access_token".to_string(), account.access_token.clone()));
    vars.push(("clientid".to_string(), String::new()));
    vars.push(("auth_xuid".to_string(), String::new()));
    vars.push(("user_type".to_string(), account.user_type.clone()));
    vars.push(("version_type".to_string(), prepared.version_type.clone()));
    vars.push(("natives_directory".to_string(), prepared.natives_dir.clone()));
    vars.push(("launcher_name".to_string(), "zenith".to_string()));
    vars.push(("launcher_version".to_string(), launcher_version.to_string()));
    vars.push(("classpath".to_string(), cp.to_string()));
    assert(var_texts(vars@) =~= launch_vars(*prepared, *account, *paths, launcher_version@));
    vars
}

fn arguments(
    prepared: &Prepared,
    vars: &Vec<(String, String)>,
    platform: &Platform,
    cp: &str,
) -> (r: Vec<String>)
    requires
        cp@ == classpath_text(*prepared),
    ensures
        texts(r@) == launch_args(*prepared, var_texts(vars@), *platform),
{
    let ghost v = var_texts(vars@);
    let mut args: Vec<String> = Vec::new();
    match &prepared.arguments {
        Some(arguments) => {
            // modern format
            assert(texts(args@) =~= Seq::empty());
            push_args(&arguments.jvm, vars, platform, &mut args);
            let ghost jvm = all_substituted(args_templates(arguments.jvm@, *platform), v);
            assert(texts(args@) =~= jvm);
            args.push(prepared.main_class.clone());
            assert(texts(args@) =~= jvm + seq![prepared.main_class@]);
            push_args(&arguments.game, vars, platform, &mut args);
        },
        None => {
            // legacy format
            args.push("-Djava.library.path=".to_string().concat(prepared.natives_dir.as_str()));
            args.push("-cp".to_string());
            args.push(cp.to_string());
            args.push(prepared.main_class.clone());
            let ghost head = seq![
                "-Djava.library.path="@ + prepared.natives_dir@,
                "-cp"@,
                classpath_text(*prepared),
                prepared.main_class@,
            ];
            assert(texts(args@) =~= head);
            if let Some(legacy) = &prepared.legacy_arguments {
                let tokens = split_whitespace(legacy.as_str());
                push_all(&tokens, vars, &mut args);
            } else {
                assert(head + Seq::<Seq<char>>::empty() =~= head);
            }
        },
    }
    args
}

/// Whether `r` starts `prepared` for `account`, or refuses to while a game is running.
pub open spec fn is_launch(
    r: Launch,
    prepared: Prepared,
    account: Account,
    paths: Paths,
    java: Option<Seq<char>>,
    launcher_version: Seq<char>,
    platform: Platform,
    game: Game,
) -> bool {
    match r.command {
        Ok(c) => {
            &&& !game.running
            &&& c.program@ == (match java {
                Some(j) => j,
                None => "java"@,
            })
            &&& texts(c.args@) == launch_args(
                prepared,
                launch_vars(prepared, account, paths, launcher_version),
                platform,
            )
            &&& c.dir@ == paths.root@
        },
        Err(e) => game.running && e@ == LaunchFault::AlreadyRunning,
    }
}

/// The command that starts a prepared version. `java` is the value of the environment variable
/// `ZENITH_JAVA`. Refused while a game is running.
pub fn launch(
    prepared: &Prepared,
    account: &Account,
    paths: &Paths,
    java: Option<String>,
    launcher_version: &str,
    platform: &Platform,
    game: &Game,
) -> (r: Launch)
    ensures
        r.notice@ == "Launching "@ + prepared.version_id@ + " ("@ + prepared.main_class@ + ") as "@
            + account.username@ + "…"@,
        r.command is Err <==> game.running,
        match r.command {
            Ok(c) => {
                let program = match java {
                    Some(j) => j@,
                    None => "java"@,
                };
                &&& c.program@ == program
                &&& texts(c.args@) == launch_args(
                    *prepared,
                    launch_vars(*prepared, *account, *paths, launcher_version@),
                    *platform,
                )
                &&& c.dir@ == paths.root@
                &&& c.context@ == "failed to launch `"@ + program
                    + "` — is Java installed and on PATH?"@
            },
            Err(e) => e@ == LaunchFault::AlreadyRunning,
        },
        is_launch(
            r,
            *prepared,
            *account,
            *paths,
            crate::text::opt_text(java),
            launcher_version@,
            *platform,
            *game,
        ),
{
    let program = match java {
        Some(j) => j,
        None => "java".to_string(),
    };
    let cp = classpath_string(&prepared.classpath);
    let vars = variables(prepared, account, paths, launcher_version, cp.as_str());
    let args = arguments(prepared, &vars, platform, cp.as_str());
    let mut notice = "Launching ".to_string();
    notice.append(prepared.version_id.as_str());
    notice.append(" (");
    notice.append(prepared.main_class.as_str());
    notice.append(") as ");
    notice.append(account.username.as_str());
    notice.append("…");
    if is_running(game) {
        return Launch { notice, command: Err(LaunchError::AlreadyRunning) };
    }
    let mut context = "failed to launch `".to_string();
    context.append(program.as_str());
    context.append("` — is Java installed and on PATH?");
    Launch { notice, command: Ok(Command { program, args, dir: paths.root.clone(), context }) }
}

proof fn lemma_plain_name(name: Seq<char>)
    requires
        forall|i: int| 0 <= i < name.len() ==> #[trigger] name[i] != '$' && name[i] != '}',
    ensures
        is_name(name),
{
}

/// The variables that arguments can name have proper names, no two of them the same.
pub proof fn law_variables_have_their_own_names(
    prepared: Prepared,
    account: Account,
    paths: Paths,
    launcher_version: Seq<char>,
)
    ensures
        names_differ(launch_vars(prepared, account, paths, launcher_version)),
        forall|i: int|
            0 <= i < launch_vars(prepared, account, paths, launcher_version).len() ==> is_name(
                (#[trigger] launch_vars(prepared, account, paths, launcher_version)[i]).0,
            ),
{
    reveal_strlit("auth_player_name");
    reveal_strlit("version_name");
    reveal_strlit("game_directory");
    reveal_strlit("assets_root");
    reveal_strlit("assets_index_name");
    reveal_strlit("auth_uuid");
    reveal_strlit("auth_access_token");
    reveal_strlit("clientid");
    reveal_strlit("auth_xuid");
    reveal_strlit("user_type");
    reveal_strlit("version_type");
    reveal_strlit("natives_directory");
    reveal_strlit("launcher_name");
    reveal_strlit("launcher_version");
    reveal_strlit("classpath");
    assert("auth_player_name"@.len() == 16);
    assert("version_name"@.len() == 12);
    assert("game_directory"@.len() == 14);
    assert("assets_root"@.len() == 11);
    assert("assets_index_name"@.len() == 17);
    assert("auth_uuid"@.len() == 9);
    assert("auth_access_token"@.len() == 17);
    assert("clientid"@.len() == 8);
    assert("auth_xuid"@.len() == 9);
    assert("user_type"@.len() == 9);
    assert("version_type"@.len() == 12);
    assert("natives_directory"@.len() == 17);
    assert("launcher_name"@.len() == 13);
    assert("launcher_version"@.len() == 16);
    assert("classpath"@.len() == 9);
    assert("auth_player_name"@[0] == 'a' && "launcher_version"@[0] == 'l');
    assert("version_name"@[8] == 'n' && "version_type"@[8] == 't');
    assert("assets_index_name"@[1] == 's' && "auth_access_token"@[1] == 'u');
    assert("assets_index_name"@[0] == 'a' && "natives_directory"@[0] == 'n');
    assert("auth_uuid"@[5] == 'u' && "auth_xuid"@[5] == 'x');
    assert("auth_uuid"@[0] == 'a' && "user_type"@[0] == 'u');
    assert("auth_uuid"@[0] == 'a' && "classpath"@[0] == 'c');
    assert("auth_access_token"@[0] == 'a' && "natives_directory"@[0] == 'n');
    assert("auth_xuid"@[0] == 'a' && "user_type"@[0] == 'u');
    assert("auth_xuid"@[0] == 'a' && "classpath"@[0] == 'c');
    assert("user_type"@[0] == 'u' && "classpath"@[0] == 'c');
    let vars = launch_vars(prepared, account, paths, launcher_version);
    assert(vars[0].0 == "auth_player_name"@);
    assert(vars[1].0 == "version_name"@);
    assert(vars[2].0 == "game_directory"@);
    assert(vars[3].0 == "assets_root"@);
    assert(vars[4].0 == "assets_index_name"@);
    assert(vars[5].0 == "auth_uuid"@);
    assert(vars[6].0 == "auth_access_token"@);
    assert(vars[7].0 == "clientid"@);
    assert(vars[8].0 == "auth_xuid"@);
    assert(vars[9].0 == "user_type"@);
    assert(vars[10].0 == "version_type"@);
    assert(vars[11].0 == "natives_directory"@);
    assert(vars[12].0 == "launcher_name"@);
    assert(vars[13].0 == "launcher_version"@);
    assert(vars[14].0 == "classpath"@);
    assert forall|i: int, j: int|
        0 <= i < vars.len() && 0 <= j < vars.len() && i != j implies (#[trigger] vars[i]).0 != (
    #[trigger] vars[j]).0 by {
    }
    lemma_plain_name("auth_player_name"@);
    lemma_plain_name("version_name"@);
    lemma_plain_name("game_directory"@);
    lemma_plain_name("assets_root"@);
    lemma_plain_name("assets_index_name"@);
    lemma_plain_name("auth_uuid"@);
    lemma_plain_name("auth_access_token"@);
    lemma_plain_name("clientid"@);
    lemma_plain_name("auth_xuid"@);
    lemma_plain_name("user_type"@);
    lemma_plain_name("version_type"@);
    lemma_plain_name("natives_directory"@);
    lemma_plain_name("launcher_name"@);
    lemma_plain_name("launcher_version"@);
    lemma_plain_name("classpath"@);
}

/// Whether a text is a template: inert text and holes with proper names.
pub open spec fn is_template(t: Seq<char>) -> bool {
    exists|pieces: Seq<Piece>|
        {
            &&& #[trigger] rendered(pieces) == t
            &&& forall|i: int| 0 <= i < pieces.len() ==> is_piece(#[trigger] pieces[i])
        }
}

/// The templates from which the arguments of a prepared version are made.
pub open spec fn launch_templates(prepared: Prepared, platform: Platform) -> Seq<Seq<char>> {
    match prepared.arguments {
        Some(arguments) => args_templates(arguments.jvm@, platform) + args_templates(
            arguments.game@,
            platform,
        ),
        None => match prepared.legacy_arguments {
            Some(legacy) => words(legacy@),
            None => Seq::empty(),
        },
    }
}

/// The order in which the table of variables is walked does not matter to the command: where the
/// values are inert and the arguments are templates, every order of the variables gives the same
/// arguments.
pub proof fn law_arguments_ignore_walk_order(
    prepared: Prepared,
    account: Account,
    paths: Paths,
    launcher_version: Seq<char>,
    platform: Platform,
    walked: Seq<(Seq<char>, Seq<char>)>,
)
    requires
        forall|i: int|
            0 <= i < launch_vars(prepared, account, paths, launcher_version).len() ==> inert(
                (#[trigger] launch_vars(prepared, account, paths, launcher_version)[i]).1,
            ),
        names_differ(walked),
        forall|x: (Seq<char>, Seq<char>)|
            launch_vars(prepared, account, paths, launcher_version).contains(x)
                <==> walked.contains(x),
        forall|i: int|
            0 <= i < launch_templates(prepared, platform).len() ==> is_template(
                #[trigger] launch_templates(prepared, platform)[i],
            ),
    ensures
        launch_args(prepared, walked, platform) == launch_args(
            prepared,
            launch_vars(prepared, account, paths, launcher_version),
            platform,
        ),
{
    let vars = launch_vars(prepared, account, paths, launcher_version);
    let all = launch_templates(prepared, platform);
    law_variables_have_their_own_names(prepared, account, paths, launcher_version);
    assert forall|i: int| 0 <= i < all.len() implies substituted(#[trigger] all[i], walked)
        == substituted(all[i], vars) by {
        let pieces = choose|pieces: Seq<Piece>|
            {
                &&& #[trigger] rendered(pieces) == all[i]
                &&& forall|k: int| 0 <= k < pieces.len() ==> is_piece(#[trigger] pieces[k])
            };
        law_walk_order_does_not_matter(pieces, vars, walked);
    }
    match prepared.arguments {
        Some(arguments) => {
            let jvm = args_templates(arguments.jvm@, platform);
            let game = args_templates(arguments.game@, platform);
            assert forall|i: int| 0 <= i < jvm.len() implies substituted(#[trigger] jvm[i], walked)
                == substituted(jvm[i], vars) by {
                assert(all[i] == jvm[i]);
            }
            assert forall|i: int| 0 <= i < game.len() implies substituted(#[trigger] game[i], walked)
                == substituted(game[i], vars) by {
                assert(all[jvm.len() + i] == game[i]);
            }
            assert(all_substituted(jvm, walked) =~= all_substituted(jvm, vars));
            assert(all_substituted(game, walked) =~= all_substituted(game, vars));
        },
        None => {
            match prepared.legacy_arguments {
                Some(legacy) => {
                    assert(all_substituted(words(legacy@), walked) =~= all_substituted(
                        words(legacy@),
                        vars,
                    ));
                },
                None => {},
            }
        },
    }
}

/// An argument `${classpath}` becomes the class path, where all values are inert.
pub proof fn law_classpath_argument(
    prepared: Prepared,
    account: Account,
    paths: Paths,
    launcher_version: Seq<char>,
)
    requires
        forall|i: int|
            0 <= i < launch_vars(prepared, account, paths, launcher_version).len() ==> inert(
                (#[trigger] launch_vars(prepared, account, paths, launcher_version)[i]).1,
            ),
    ensures
        substituted(
            placeholder("classpath"@),
            launch_vars(prepared, account, paths, launcher_version),
        ) == classpath_text(prepared),
{
    let vars = launch_vars(prepared, account, paths, launcher_version);
    law_variables_have_their_own_names(prepared, account, paths, launcher_version);
    assert(vars[14] == ("classpath"@, classpath_text(prepared)));
    law_placeholder_becomes_its_value("classpath"@, vars);
    lemma_value_of(vars, "classpath"@);
}

/// Every variable has the value that its name promises.
pub proof fn law_variables_have_their_values(
    prepared: Prepared,
    account: Account,
    paths: Paths,
    launcher_version: Seq<char>,
)
    ensures
        ({
            let vars = launch_vars(prepared, account, paths, launcher_version);
            &&& vars.len() == 15
            &&& vars.contains(("auth_player_name"@, account.username@))
            &&& vars.contains(("version_name"@, prepared.version_id@))
            &&& vars.contains(("game_directory"@, paths.root@))
            &&& vars.contains(("assets_root"@, prepared.assets_dir@))
            &&& vars.contains(("assets_index_name"@, prepared.asset_index_id@))
            &&& vars.contains(("auth_uuid"@, account.uuid@))
            &&& vars.contains(("auth_access_token"@, account.access_token@))
            &&& vars.contains(("clientid"@, Seq::empty()))
            &&& vars.contains(("auth_xuid"@, Seq::empty()))
            &&& vars.contains(("user_type"@, account.user_type@))
            &&& vars.contains(("version_type"@, prepared.version_type@))
            &&& vars.contains(("natives_directory"@, prepared.natives_dir@))
            &&& vars.contains(("launcher_name"@, "zenith"@))
            &&& vars.contains(("launcher_version"@, launcher_version))
            &&& vars.contains(("classpath"@, joined(texts(prepared.classpath@), ":"@)))
        }),
{
    let vars = launch_vars(prepared, account, paths, launcher_version);
    assert(vars[0].0 == "auth_player_name"@);
    assert(vars[1].0 == "version_name"@);
    assert(vars[2].0 == "game_directory"@);
    assert(vars[3].0 == "assets_root"@);
    assert(vars[4].0 == "assets_index_name"@);
    assert(vars[5].0 == "auth_uuid"@);
    assert(vars[6].0 == "auth_access_token"@);
    assert(vars[7].0 == "clientid"@);
    assert(vars[8].0 == "auth_xuid"@);
    assert(vars[9].0 == "user_type"@);
    assert(vars[10].0 == "version_type"@);
    assert(vars[11].0 == "natives_directory"@);
    assert(vars[12].0 == "launcher_name"@);
    assert(vars[13].0 == "launcher_version"@);
    assert(vars[14].0 == "classpath"@);
}

/// In the modern format the main class stands between the arguments of the virtual machine and
/// those of the game: each of the first comes before it and each of the second after it, in the
/// order of its list, and there is nothing else.
pub proof fn law_main_class_stands_between(
    prepared: Prepared,
    arguments: Arguments,
    vars: Seq<(Seq<char>, Seq<char>)>,
    platform: Platform,
)
    requires
        prepared.arguments == Some(arguments),
    ensures
        ({
            let args = launch_args(prepared, vars, platform);
            let jvm = args_templates(arguments.jvm@, platform);
            let game = args_templates(arguments.game@, platform);
            &&& args.len() == jvm.len() + 1 + game.len()
            &&& args[jvm.len() as int] == prepared.main_class@
            &&& forall|i: int|
                0 <= i < jvm.len() ==> #[trigger] args[i] == substituted(jvm[i], vars)
            &&& forall|i: int|
                0 <= i < game.len() ==> #[trigger] args[jvm.len() + 1 + i] == substituted(
                    game[i],
                    vars,
                )
        }),
{
}

/// In the legacy format the virtual machine is told where the natives and the class path are; the
/// main class follows, and after it the words of the one line of arguments, in order.
pub proof fn law_legacy_arguments_follow_the_main_class(
    prepared: Prepared,
    vars: Seq<(Seq<char>, Seq<char>)>,
    platform: Platform,
)
    requires
        prepared.arguments is None,
    ensures
        ({
            let args = launch_args(prepared, vars, platform);
            let line = if prepared.legacy_arguments is Some {
                prepared.legacy_arguments->Some_0@
            } else {
                Seq::empty()
            };
            &&& args.len() == 4 + words(line).len()
            &&& args[0] == "-Djava.library.path="@ + prepared.natives_dir@
            &&& args[1] == "-cp"@
            &&& args[2] == joined(texts(prepared.classpath@), ":"@)
            &&& args[3] == prepared.main_class@
            &&& forall|i: int|
                0 <= i < words(line).len() ==> #[trigger] args[4 + i] == substituted(
                    words(line)[i],
                    vars,
                )
        }),
{
    assert(words(Seq::empty()) =~= Seq::empty());
}

/// In the command of a version with a loader's profile merged onto it, the arguments of the
/// virtual machine of the game and then those of the loader stand before the main class, which is
/// the loader's; the arguments of the game and then those of the loader stand after it.
pub proof fn law_merged_command(
    base: VersionDetail,
    profile: LoaderProfile,
    merged: VersionDetail,
    prepared: Prepared,
    b: Arguments,
    p: Arguments,
    vars: Seq<(Seq<char>, Seq<char>)>,
    platform: Platform,
)
    requires
        is_merged(base, profile, merged),
        base.arguments == Some(b),
        profile.arguments == Some(p),
        prepared.arguments == merged.arguments,
        prepared.main_class == merged.main_class,
    ensures
        launch_args(prepared, vars, platform) == all_substituted(
            args_templates(b.jvm@, platform),
            vars,
        ) + all_substituted(args_templates(p.jvm@, platform), vars) + seq![profile.main_class@]
            + all_substituted(args_templates(b.game@, platform), vars) + all_substituted(
            args_templates(p.game@, platform),
            vars,
        ),
{
    law_arguments_keep_their_order(b.jvm@, p.jvm@, platform, vars);
    law_arguments_keep_their_order(b.game@, p.game@, platform, vars);
    assert(launch_args(prepared, vars, platform) =~= all_substituted(
        args_templates(b.jvm@, platform),
        vars,
    ) + all_substituted(args_templates(p.jvm@, platform), vars) + seq![profile.main_class@]
        + all_substituted(args_templates(b.game@, platform), vars) + all_substituted(
        args_templates(p.game@, platform),
        vars,
    ));
}

/// One game at a time: a launch is refused exactly while a game is running, from its start to its
/// end. Else the game runs in the launcher's directory, in the `java` that was named or the one on
/// the path, and the main class is among its arguments.
pub proof fn law_one_game_runs_at_a_time(
    r: Launch,
    prepared: Prepared,
    account: Account,
    paths: Paths,
    java: Option<Seq<char>>,
    launcher_version: Seq<char>,
    platform: Platform,
    game: Game,
)
    requires
        is_launch(r, prepared, account, paths, java, launcher_version, platform, game),
    ensures
        r.command is Err <==> game.running,
        game == Game::idle() ==> r.command is Ok,
        forall|pid: u32| game == after_start(pid) ==> r.command is Err,
        r.command matches Err(e) ==> e@ is AlreadyRunning,
        r.command matches Ok(c) ==> {
            &&& java matches Some(j) ==> c.program@ == j
            &&& java is None ==> c.program@ == "java"@
            &&& c.dir@ == paths.root@
            &&& texts(c.args@).contains(prepared.main_class@)
        },
{
    if r.command is Ok {
        let vars = launch_vars(prepared, account, paths, launcher_version);
        let args = launch_args(prepared, vars, platform);
        match prepared.arguments {
            Some(arguments) => {
                law_main_class_stands_between(prepared, arguments, vars, platform);
                assert(args[args_templates(arguments.jvm@, platform).len() as int]
                    == prepared.main_class@);
            },
            None => {
                law_legacy_arguments_follow_the_main_class(prepared, vars, platform);
                assert(args[3] == prepared.main_class@);
            },
        }
    }
}

} // verus!
