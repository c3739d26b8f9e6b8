use shuffle_player::control::{is_skip_command, trim_line};
use shuffle_player::default_dir::{music_dir_under, resolve_directory};
use shuffle_player::render::{
    duration_line, duration_millis_from_micros, duration_secs_from_micros, format_duration,
    now_playing_line, skipped_line, u64_to_dec,
};
use shuffle_player::schedule::{advance_elapsed, wait_decision, Scheduler, WaitDecision};
use shuffle_player::select::select_track;
use shuffle_player::track::{base_name_of, file_name_of, filter_mp3_paths, identity_of, is_mp3_path};
use shuffle_player::window::{RecentWindow, RECENTLY_PLAYED_LIMIT};

fn strings(items: &[&str]) -> Vec<String> {
    items.iter().map(|s| s.to_string()).collect()
}

#[test]
fn duration_formats_two_oh_five() {
    assert_eq!(format_duration(125), "[2:05]");
}

#[test]
fn duration_formats_edges() {
    assert_eq!(format_duration(0), "[0:00]");
    assert_eq!(format_duration(9), "[0:09]");
    assert_eq!(format_duration(59), "[0:59]");
    assert_eq!(format_duration(60), "[1:00]");
    assert_eq!(format_duration(61), "[1:01]");
    assert_eq!(format_duration(600), "[10:00]");
    assert_eq!(format_duration(3661), "[61:01]");
}

#[test]
fn decimal_rendering() {
    assert_eq!(u64_to_dec(0), "0");
    assert_eq!(u64_to_dec(7), "7");
    assert_eq!(u64_to_dec(10), "10");
    assert_eq!(u64_to_dec(105), "105");
    assert_eq!(u64_to_dec(18446744073709551615), "18446744073709551615");
}

#[test]
fn duration_unit_conversions() {
    assert_eq!(duration_secs_from_micros(125_000_000), 125);
    assert_eq!(duration_secs_from_micros(999_999), 0);
    assert_eq!(duration_millis_from_micros(125_000_000), 125_000);
    assert_eq!(duration_millis_from_micros(999), 0);
}

#[test]
fn status_lines() {
    assert_eq!(now_playing_line("My Song"), "Now playing: 'My Song'");
    assert_eq!(duration_line(125), "Song Duration: [2:05]");
    assert_eq!(skipped_line("My Song"), "Song skipped: 'My Song'");
}

#[test]
fn file_names_and_identities() {
    assert_eq!(file_name_of("a/b/c.mp3"), "c.mp3");
    assert_eq!(file_name_of("plain.mp3"), "plain.mp3");
    assert_eq!(file_name_of(""), "");
    assert_eq!(base_name_of("x.mp3"), "x");
    assert_eq!(base_name_of("x.flac"), "x.flac");
    assert_eq!(base_name_of(".mp3"), "");
    assert_eq!(identity_of("a/b/Song.mp3"), "Song");
    assert_eq!(identity_of("noslash.mp3"), "noslash");
    assert_eq!(identity_of("dir/tune.ogg"), "tune.ogg");
}

#[test]
fn mp3_extension_filter() {
    assert!(is_mp3_path("dir/a.mp3"));
    assert!(!is_mp3_path("dir/a.txt"));
    assert!(!is_mp3_path("dir/.mp3"));
    assert!(!is_mp3_path("dir/a.mp3x"));
    assert!(!is_mp3_path("dir/a.MP3"));
    let kept = filter_mp3_paths(strings(&[
        "dir/a.mp3",
        "dir/b.txt",
        "dir/.mp3",
        "dir/c.mp3x",
        "dir/d.mp3",
    ]));
    assert_eq!(kept, strings(&["dir/a.mp3", "dir/d.mp3"]));
}

#[test]
fn skip_command_recognition() {
    assert!(is_skip_command("skip"));
    assert!(is_skip_command("  skip\n"));
    assert!(is_skip_command("\tskip\r\n"));
    assert!(!is_skip_command("skipp"));
    assert!(!is_skip_command(""));
    assert!(!is_skip_command("SKIP"));
    assert!(!is_skip_command("ski p"));
    assert_eq!(trim_line("  x \n"), "x");
    assert_eq!(trim_line("   "), "");
}

#[test]
fn window_bound_and_eviction() {
    let mut w = RecentWindow::new();
    assert_eq!(w.len(), 0);
    for name in ["a", "b", "c", "d"] {
        w.record_completion(name.to_string());
        assert!(w.len() <= RECENTLY_PLAYED_LIMIT);
    }
    assert_eq!(w.len(), 3);
    assert!(!w.contains(&"a".to_string()));
    assert!(w.contains(&"b".to_string()));
    assert!(w.contains(&"c".to_string()));
    assert!(w.contains(&"d".to_string()));
}

#[test]
fn selection_excludes_recent() {
    let files = strings(&["m/A.mp3", "m/B.mp3", "m/C.mp3", "m/D.mp3"]);
    let mut w = RecentWindow::new();
    w.record_completion("A".to_string());
    w.record_completion("B".to_string());
    for _ in 0..40 {
        let picked = select_track(&files, &w).expect("eligible tracks remain");
        let id = identity_of(&files[picked]);
        assert!(id == "C" || id == "D");
    }
}

#[test]
fn selection_with_single_track() {
    let files = strings(&["m/only.mp3"]);
    let w = RecentWindow::new();
    assert_eq!(select_track(&files, &w), Some(0));
}

#[test]
fn empty_selection_is_graceful() {
    let files = strings(&["m/a.mp3", "m/b.mp3", "m/c.mp3"]);
    let mut sched = Scheduler::new(Vec::new());
    let halt = sched.apply_rescan(Some(files.clone()));
    assert!(!halt);
    for i in 0..3 {
        sched.finish_play(i, false);
    }
    assert_eq!(sched.select(), None);
    // The cycle restarts with a rescan instead of halting.
    let halt = sched.apply_rescan(Some(files));
    assert!(!halt);
}

#[test]
fn halt_on_empty_rescan() {
    let mut sched = Scheduler::new(strings(&["m/a.mp3"]));
    let halt = sched.apply_rescan(Some(Vec::new()));
    assert!(halt);
    assert_eq!(sched.track_count(), 0);
}

#[test]
fn failed_rescan_keeps_previous_set() {
    let mut sched = Scheduler::new(strings(&["m/a.mp3", "m/b.mp3"]));
    let halt = sched.apply_rescan(None);
    assert!(!halt);
    assert_eq!(sched.track_count(), 2);
    let halt = sched.apply_rescan(Some(strings(&["m/z.mp3"])));
    assert!(!halt);
    assert_eq!(sched.track_count(), 1);
    assert_eq!(sched.track(0).as_str(), "m/z.mp3");
}

#[test]
fn scenario_four_tracks() {
    let mut sched = Scheduler::new(strings(&["m/A.mp3", "m/B.mp3", "m/C.mp3", "m/D.mp3"]));
    // A plays to completion.
    sched.finish_play(0, false);
    assert_eq!(sched.window.len(), 1);
    assert!(sched.window.contains(&"A".to_string()));
    // B plays to completion.
    sched.finish_play(1, false);
    assert_eq!(sched.window.len(), 2);
    assert!(sched.window.contains(&"B".to_string()));
    // C is skipped: the window is unchanged.
    sched.finish_play(2, true);
    assert_eq!(sched.window.len(), 2);
    assert!(!sched.window.contains(&"C".to_string()));
    // The next selection excludes only A and B; C may be reselected.
    for _ in 0..40 {
        let picked = sched.select().expect("C and D are eligible");
        let id = identity_of(sched.track(picked));
        assert!(id == "C" || id == "D");
    }
}

#[test]
fn wait_decisions() {
    assert!(matches!(wait_decision(0, 1000, false), WaitDecision::KeepWaiting));
    assert!(matches!(wait_decision(0, 1000, true), WaitDecision::Skipped));
    assert!(matches!(wait_decision(1000, 1000, false), WaitDecision::Finished));
    // Completion is checked before any pending skip.
    assert!(matches!(wait_decision(1000, 1000, true), WaitDecision::Finished));
    assert!(matches!(wait_decision(0, 0, true), WaitDecision::Finished));
    assert_eq!(advance_elapsed(0), 100);
    assert_eq!(advance_elapsed(u64::MAX - 50), u64::MAX);
}

#[test]
fn directory_resolution() {
    assert_eq!(
        resolve_directory(Some("given/dir".to_string())),
        Some("given/dir".to_string())
    );
    if let Some(d) = resolve_directory(None) {
        assert!(d.ends_with("/Music"));
    }
    assert_eq!(
        music_dir_under(Some("/home/me".to_string())),
        Some("/home/me/Music".to_string())
    );
    assert_eq!(music_dir_under(None), None);
}
