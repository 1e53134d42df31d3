//! The running game: one process at a time.

use vstd::prelude::*;
use vstd::string::*;

use crate::text::{decimal, decimal_text, law_decimal_stands_for_its_number, number_of};

verus! {

/// What is known of the game process. A process id of zero stands for none.
pub struct Game {
    pub pid: u32,
    pub running: bool,
}

impl Game {
    /// No game.
    pub open spec fn idle() -> Game {
        Game { pid: 0, running: false }
    }

    /// No game.
    pub fn new() -> (r: Game)
        ensures
            r == Game::idle(),
    {
        Game { pid: 0, running: false }
    }
}

/// A request to stop a process: a line to log and the argument of `kill`.
pub struct Kill {
    pub notice: String,
    pub pid: String,
}

/// True while a game process is alive.
pub fn is_running(game: &Game) -> (r: bool)
    ensures
        r == game.running,
{
    game.running
}

/// Whether `r` terminates the process of `game`, if there is one.
pub open spec fn is_kill(game: Game, r: Option<Kill>) -> bool {
    &&& r is Some <==> game.pid != 0
    &&& r matches Some(k) ==> k.pid@ == decimal_text(game.pid as nat)
}

/// How to terminate the running game, if any (SIGTERM).
pub fn kill_running(game: &Game) -> (r: Option<Kill>)
    ensures
        r is Some <==> game.pid != 0,
        r matches Some(k) ==> {
            &&& k.pid@ == decimal_text(game.pid as nat)
            &&& k.notice@ == "Stopping game (pid "@ + decimal_text(game.pid as nat) + ")…"@
        },
        is_kill(*game, r),
{
    if game.pid == 0 {
        return None;
    }
    let pid = decimal(game.pid as u64);
    let mut notice = "Stopping game (pid ".to_string();
    notice.append(pid.as_str());
    notice.append(")…");
    Some(Kill { notice, pid })
}

/// The game after a process with the given id was spawned.
pub open spec fn after_start(pid: u32) -> Game {
    Game { pid, running: true }
}

/// Records that a process was spawned.
pub fn game_started(game: &mut Game, pid: u32)
    ensures
        *final(game) == after_start(pid),
{
    game.pid = pid;
    game.running = true;
}

/// Records that the process has ended.
pub fn game_exited(game: &mut Game)
    ensures
        *final(game) == Game::idle(),
{
    game.running = false;
    game.pid = 0;
}

/// The line that reports how the game ended.
pub fn exit_line(status: &str) -> (r: String)
    ensures
        r@ == "Game exited ("@ + status@ + ")."@,
{
    let mut out = "Game exited (".to_string();
    out.append(status);
    out.append(").");
    out
}

/// The line that reports that the end of the game was missed.
pub fn wait_failure(reason: &str) -> (r: String)
    ensures
        r@ == "Failed to wait on game: "@ + reason@,
{
    "Failed to wait on game: ".to_string().concat(reason)
}

/// One game at a time: from its start to its end a game counts as running and can be stopped, and
/// before and after there is nothing to stop. (A process never has the id zero.)
pub proof fn law_game_runs_from_start_to_exit(pid: u32)
    requires
        pid != 0,
    ensures
        after_start(pid).running && after_start(pid).pid != 0,
        !Game::idle().running && Game::idle().pid == 0,
{
}

/// A game that was started is the process that was spawned.
pub proof fn law_started_game_is_the_spawned_process(pid: u32)
    ensures
        after_start(pid).pid == pid,
        after_start(pid).running,
        Game::idle().pid == 0,
        !Game::idle().running,
{
}

/// What is stopped is the process that was spawned; without one there is nothing to stop.
pub proof fn law_spawned_process_is_stopped(pid: u32, r: Option<Kill>, none: Option<Kill>)
    requires
        pid != 0,
        is_kill(after_start(pid), r),
        is_kill(Game::idle(), none),
    ensures
        r matches Some(k) && number_of(k.pid@) == pid,
        none is None,
{
    law_decimal_stands_for_its_number(pid as nat);
}

} // verus!
