# Zenith

A lightweight Minecraft launcher for macOS. Its logic is a Rust library whose behaviour is stated
in contracts and proved with [Verus](https://github.com/verus-lang/verus); the window, drawn with
[GPUI](https://www.gpui.rs/), and everything that touches the network, the disk or a process
stands around it.

## Features

- **Real version list** from Mojang's manifest
- **Downloads the game**: client jar, libraries (with OS/arch rules), natives, and assets
- **Launches `java`** with the correct classpath and arguments for both modern and legacy version
  formats
- **Mod loaders:** Vanilla, Fabric, Quilt (via their meta APIs)
- **Single instance** with start/stop control and a live, copyable **console**
- **Microsoft sign-in** (device-code OAuth → Xbox Live → XSTS → Minecraft)

Game data lives in `~/Library/Application Support/zenith-launcher/`. The `java` on `PATH` is used
unless `ZENITH_JAVA` names another. Microsoft sign-in needs an Azure client id in
`ZENITH_CLIENT_ID`; without it the launcher runs offline.

## Layout

| Path                | What it holds                                                           |
| ------------------- | ----------------------------------------------------------------------- |
| `src/types.rs`      | Loaders, accounts, version entries, sessions                            |
| `src/log.rs`        | The log buffer and the download progress                                |
| `src/store.rs`      | Paths on disk                                                           |
| `src/net/`          | The version manifest, and sign-in as a state machine                    |
| `src/launch/`       | Rules, libraries, natives, assets, loader profiles, the `java` command  |
| `src/launcher.rs`   | The launcher's state and what each event does to it                     |
| `src/screen.rs`     | What the window shows, as plain values                                  |
| `src/text.rs`       | Operations on texts, stated over sequences of characters                |
| `src/table.rs`      | A map from names to values                                              |
| `tests/`            | Tests of the library                                                    |
| `app/`              | The program: `main`, the window, requests, downloads, the game process  |

The library takes what came back from the outside as plain values and returns what to do next:
`launch::loader::merged_detail`, `net::auth::poll_for_token`, `net::auth::minecraft_login` and
`launcher::Launcher::sign_in` go from an event to an action, `launch::prepare::prepare` lists the
steps of a preparation, and `app/` performs them.

What is not proved but believed: that `md5::compute` and the `zip` crate give the same result for
the same bytes, and how `String::push` of the standard library behaves. Each stands in one small
item that says so.

The proof functions whose names begin with `law_` state what holds of the library as a whole.

The fonts of the window (IBM Plex Sans and IBM Plex Mono) are read from `assets/fonts/` beside the
program.
