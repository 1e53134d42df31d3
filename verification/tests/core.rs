use zenith::log::{
    all_text, clear, error, game, info, len, print_bar, progress, progress_finish, progress_inc,
    progress_start, push, severity, tail, warn, Bus, Level, Progress, Severity, MAX_LINES,
};
use zenith::store::{join, Paths};
use zenith::table::Table;
use zenith::text::{decimal, pad_left, replace, split, split_whitespace, starts_with, swap_char};
use zenith::types::offline_uuid;
use zenith::{Account, Loader};

#[test]
fn loader_labels() {
    let labels: Vec<&str> = Loader::all().iter().map(|l| l.label()).collect();
    assert_eq!(labels, vec!["Vanilla", "Fabric", "Quilt", "Forge", "NeoForge"]);
}

#[test]
fn offline_account_of_a_known_player() {
    let a = Account::offline("Notch");
    assert_eq!(a.username, "Notch");
    assert_eq!(a.uuid, "b50ad385-829d-3141-a216-7e7d7539ba7f");
    assert_eq!(a.access_token, "0");
    assert_eq!(a.user_type, "legacy");
    assert_eq!(Account::offline("Player").uuid, "a01e3843-e521-3998-958a-f459800e4d11");
}

#[test]
fn offline_account_hashes_the_utf8_bytes() {
    assert_eq!(Account::offline("Zoë").uuid, "f6730b28-736f-34a8-93cb-c09052c1dd8b");
}

#[test]
fn uuid_version_and_variant_are_stamped() {
    assert_eq!(offline_uuid([0u8; 16]), "00000000-0000-3000-8000-000000000000");
    assert_eq!(offline_uuid([0xffu8; 16]), "ffffffff-ffff-3fff-bfff-ffffffffffff");
}

#[test]
fn accounts_clone_whole() {
    let a = Account::offline("Notch");
    let b = a.clone();
    assert_eq!(a.username, b.username);
    assert_eq!(a.uuid, b.uuid);
    assert_eq!(a.access_token, b.access_token);
    assert_eq!(a.user_type, b.user_type);
}

#[test]
fn paths_below_the_home_directory() {
    let p = Paths::new(Some("/Users/me".to_string()));
    assert_eq!(p.root, "/Users/me/Library/Application Support/zenith-launcher");
    assert_eq!(p.libraries(), "/Users/me/Library/Application Support/zenith-launcher/libraries");
    assert_eq!(p.assets(), "/Users/me/Library/Application Support/zenith-launcher/assets");
    assert_eq!(
        p.version_dir("1.21"),
        "/Users/me/Library/Application Support/zenith-launcher/versions/1.21"
    );
    assert_eq!(
        p.natives_dir("1.21"),
        "/Users/me/Library/Application Support/zenith-launcher/versions/1.21/natives"
    );
}

#[test]
fn paths_without_a_home_directory() {
    assert_eq!(Paths::new(None).root, "./Library/Application Support/zenith-launcher");
}

#[test]
fn joining_agrees_with_std() {
    for base in ["", "/", "a", "a/", "/a/b", "ä"] {
        for part in ["", "b", "/b", "b/c", "..", "ö/"] {
            let want = std::path::Path::new(base).join(part).to_string_lossy().to_string();
            assert_eq!(join(base, part), want, "{base:?} {part:?}");
        }
    }
}

#[test]
fn log_levels_and_severities() {
    let mut bus = Bus::new();
    info(&mut bus, "a".to_string());
    warn(&mut bus, "b".to_string());
    error(&mut bus, "c".to_string());
    game(&mut bus, "d".to_string());
    push(&mut bus, Level::Info, "e".to_string());
    let levels: Vec<Level> = tail(&bus, 10).iter().map(|l| l.level).collect();
    assert_eq!(
        levels,
        vec![Level::Info, Level::Warn, Level::Error, Level::Game, Level::Info]
    );
    assert_eq!(all_text(&bus), "a\nb\nc\nd\ne");
    assert_eq!(severity(Level::Info), Severity::Info);
    assert_eq!(severity(Level::Game), Severity::Info);
    assert_eq!(severity(Level::Warn), Severity::Warn);
    assert_eq!(severity(Level::Error), Severity::Error);
}

#[test]
fn log_tail_and_clear() {
    let mut bus = Bus::new();
    assert_eq!(all_text(&bus), "");
    for i in 0..5 {
        info(&mut bus, format!("{i}"));
    }
    let last: Vec<String> = tail(&bus, 2).into_iter().map(|l| l.text).collect();
    assert_eq!(last, vec!["3".to_string(), "4".to_string()]);
    assert_eq!(tail(&bus, 0).len(), 0);
    assert_eq!(tail(&bus, 99).len(), 5);
    assert_eq!(len(&bus), 5);
    clear(&mut bus);
    assert_eq!(len(&bus), 0);
}

#[test]
fn log_drops_the_oldest_lines() {
    let mut bus = Bus::new();
    for i in 0..MAX_LINES + 3 {
        info(&mut bus, format!("{i}"));
    }
    assert_eq!(len(&bus), 5000);
    assert_eq!(tail(&bus, 5000)[0].text, "3");
    assert_eq!(tail(&bus, 1)[0].text, "5002");
}

#[test]
fn progress_bar_is_drawn_on_percent_changes() {
    let mut p = Progress::new();
    assert!(progress(&p).is_none());
    assert_eq!(
        progress_start(&mut p, "Libraries".to_string(), 3).as_deref(),
        Some("\r  Libraries [--------------------]   0% (0/3)")
    );
    assert_eq!(
        progress_inc(&mut p).as_deref(),
        Some("\r  Libraries [######--------------]  33% (1/3)")
    );
    assert_eq!(
        progress_inc(&mut p).as_deref(),
        Some("\r  Libraries [#############-------]  66% (2/3)")
    );
    assert_eq!(
        progress_inc(&mut p).as_deref(),
        Some("\r  Libraries [####################] 100% (3/3)")
    );
    assert_eq!(progress_inc(&mut p), None);
    assert_eq!(progress(&p), Some((3, 3, "Libraries".to_string())));
    assert!(progress_finish(&mut p));
    assert!(progress(&p).is_none());
    assert!(!progress_finish(&mut p));
}

#[test]
fn progress_bar_is_not_redrawn_within_a_percent() {
    let mut p = Progress::new();
    let mut drawn = 0;
    let _ = progress_start(&mut p, "Assets".to_string(), 5000);
    for _ in 0..5000 {
        if progress_inc(&mut p).is_some() {
            drawn += 1;
        }
    }
    assert_eq!(drawn, 100);
}

#[test]
fn empty_download_shows_no_bar() {
    let mut p = Progress::new();
    assert_eq!(progress_start(&mut p, "Assets".to_string(), 0), None);
    assert_eq!(progress_inc(&mut p), None);
    assert!(progress(&p).is_none());
}

#[test]
fn progress_counter_wraps() {
    let mut p = Progress::new();
    let _ = progress_start(&mut p, "x".to_string(), 2);
    p.done = usize::MAX;
    let _ = progress_inc(&mut p);
    assert_eq!(p.done, 0);
}

#[test]
fn table_keeps_the_last_value_of_a_name() {
    let mut t: Table<String> = Table::new();
    assert!(t.get("a").is_none());
    t.insert("a".to_string(), "1".to_string());
    t.insert("b".to_string(), "2".to_string());
    t.insert("a".to_string(), "3".to_string());
    assert_eq!(t.get("a").map(|s| s.as_str()), Some("3"));
    assert_eq!(t.get("b").map(|s| s.as_str()), Some("2"));
    let mut f: Table<bool> = Table::new();
    assert!(!f.any());
    f.insert("demo".to_string(), true);
    assert!(f.any());
    f.insert("demo".to_string(), false);
    assert!(!f.any());
}

#[test]
fn text_helpers_agree_with_std() {
    for s in ["", "a", "a:b", ":", "a::b:", "ä:ö"] {
        let want: Vec<String> = s.split(':').map(|p| p.to_string()).collect();
        assert_eq!(split(s, ':'), want);
        assert_eq!(swap_char(s, ':', '/'), s.replace(':', "/"));
    }
    for s in ["", "a", "aaa", "abab", "xaax", "${a}${a}", "äaä"] {
        for pat in ["a", "aa", "ab", "${a}", "ä"] {
            assert_eq!(replace(s, pat, "<>"), s.replace(pat, "<>"));
            assert_eq!(starts_with(s, pat), s.starts_with(pat));
        }
    }
    for s in ["", " ", "a b", "  a\t\nb  ", "a\u{a0}b\u{3000}c", "\u{85}x\u{200b}y"] {
        let want: Vec<String> = s.split_whitespace().map(|p| p.to_string()).collect();
        assert_eq!(split_whitespace(s), want);
    }
    for n in [0u64, 7, 10, 99, 100, 12345, u64::MAX] {
        assert_eq!(decimal(n), n.to_string());
    }
    assert_eq!(pad_left("7", 3), "  7");
    assert_eq!(pad_left("1000", 3), "1000");
}

#[test]
fn white_space_is_the_unicode_property() {
    let white: Vec<char> = (0u32..0x110000)
        .filter_map(char::from_u32)
        .filter(|c| split_whitespace(&c.to_string()).is_empty())
        .collect();
    let want: Vec<char> = vec![
        '\u{9}', '\u{a}', '\u{b}', '\u{c}', '\u{d}', '\u{20}', '\u{85}', '\u{a0}', '\u{1680}',
        '\u{2000}', '\u{2001}', '\u{2002}', '\u{2003}', '\u{2004}', '\u{2005}', '\u{2006}',
        '\u{2007}', '\u{2008}', '\u{2009}', '\u{200a}', '\u{2028}', '\u{2029}', '\u{202f}',
        '\u{205f}', '\u{3000}',
    ];
    assert_eq!(white, want);
}

#[test]
fn versions_and_digests_do_not_collide() {
    let p = Paths::new(Some("/h".to_string()));
    assert_ne!(p.version_dir("1.21"), p.version_dir("1.20"));
    assert!(p.natives_dir("1.21").starts_with(&p.version_dir("1.21")));
    assert!(p.version_dir("1.21").starts_with(&p.root));
    let mut digest = [0u8; 16];
    digest[15] = 1;
    assert_ne!(offline_uuid(digest), offline_uuid([0u8; 16]));
    // the bits of the version and the variant are not kept
    let mut stamped = [0u8; 16];
    stamped[6] = 0xf0;
    stamped[8] = 0xc0;
    assert_eq!(offline_uuid(stamped), offline_uuid([0u8; 16]));
}

#[test]
fn shown_count_stops_at_the_total() {
    for total in [0usize, 1, 3] {
        let mut p = Progress::new();
        let _ = progress_start(&mut p, "x".to_string(), total);
        for k in 0..6usize {
            let want = if total == 0 { None } else { Some((k.min(total), total, "x".to_string())) };
            assert_eq!(progress(&p), want);
            let _ = progress_inc(&mut p);
        }
    }
}

#[test]
fn bar_is_drawn_when_its_percentage_changes() {
    let mut p = Progress::new();
    let mut shown = 0usize;
    let _ = progress_start(&mut p, "x".to_string(), 300);
    for k in 1..=310usize {
        let done = k.min(300);
        let pct = done * 100 / 300;
        let line = progress_inc(&mut p);
        assert_eq!(line.is_some(), pct != shown);
        if let Some(line) = line {
            assert!(line.ends_with(&format!("] {pct:>3}% ({done}/300)")));
        }
        shown = pct;
    }
}

#[test]
fn terminal_mirrors_every_line() {
    let mut bus = Bus::new();
    for (level, want) in [
        (Level::Info, Severity::Info),
        (Level::Game, Severity::Info),
        (Level::Warn, Severity::Warn),
        (Level::Error, Severity::Error),
    ] {
        let m = push(&mut bus, level, "line".to_string());
        assert_eq!((m.severity, m.text.as_str()), (want, "line"));
    }
    assert_eq!(info(&mut bus, "i".to_string()).severity, Severity::Info);
    assert_eq!(warn(&mut bus, "w".to_string()).severity, Severity::Warn);
    assert_eq!(error(&mut bus, "e".to_string()).severity, Severity::Error);
    let m = game(&mut bus, "g".to_string());
    assert_eq!((m.severity, m.text.as_str()), (Severity::Info, "g"));
    assert_eq!(len(&bus), 8);
}

#[test]
fn drawing_the_bar_again_prints_nothing() {
    let mut p = Progress::new();
    assert_eq!(print_bar(&mut p), None);
    let _ = progress_start(&mut p, "x".to_string(), 4);
    assert_eq!(print_bar(&mut p), None);
    p.done = 1;
    assert_eq!(
        print_bar(&mut p).as_deref(),
        Some("\r  x [#####---------------]  25% (1/4)")
    );
    assert_eq!(print_bar(&mut p), None);
}
