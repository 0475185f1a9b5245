use spectrum_tui::header::SatFraction;
use spectrum_tui::north_arm::{
    candidate_paths, on_probe_outcome, pick_latest, DiskLoader, PollDecision, PollPhase,
    ProbeDecision, ProbeOutcome, ReadOutcome, RemoteEntry, RemotePoller,
};
use spectrum_tui::scheduler::{
    Action, InputMode, KeyCode, KeyPress, PollSchedule, SessionState, TextInput,
};
use spectrum_tui::stats::SaturationStats;

fn plain(code: KeyCode) -> KeyPress {
    KeyPress { code, plain: true }
}

fn modified(code: KeyCode) -> KeyPress {
    KeyPress { code, plain: false }
}

#[test]
fn the_key_map_matches_the_help_table() {
    assert_eq!(Action::from_event(plain(KeyCode::Char('a'))), Some(Action::NewAnt));
    assert_eq!(Action::from_event(plain(KeyCode::Char('d'))), Some(Action::DelAnt));
    assert_eq!(Action::from_event(plain(KeyCode::Esc)), Some(Action::Break));
    assert_eq!(Action::from_event(plain(KeyCode::Char('q'))), Some(Action::Break));
    assert_eq!(Action::from_event(plain(KeyCode::Char('l'))), Some(Action::ToggleLog));
    assert_eq!(Action::from_event(plain(KeyCode::Char('y'))), Some(Action::ChangeYLims));
    assert_eq!(Action::from_event(plain(KeyCode::Char('s'))), Some(Action::ToggleStats));
    assert_eq!(Action::from_event(plain(KeyCode::Char('x'))), None);

    // with modifiers held, only q, l, y and s still act
    assert_eq!(Action::from_event(modified(KeyCode::Char('a'))), None);
    assert_eq!(Action::from_event(modified(KeyCode::Char('d'))), None);
    assert_eq!(Action::from_event(modified(KeyCode::Esc)), None);
    assert_eq!(Action::from_event(modified(KeyCode::Char('q'))), Some(Action::Break));
    assert_eq!(Action::from_event(modified(KeyCode::Char('l'))), Some(Action::ToggleLog));
}

#[test]
fn text_input_edits_at_the_cursor() {
    let mut input = TextInput::new();
    input.enter_char('l');
    input.enter_char('w');
    input.enter_char('a');
    assert_eq!(input.text(), "lwa");
    input.move_cursor_left();
    input.enter_char('X');
    assert_eq!(input.text(), "lwXa");
    input.delete_char();
    assert_eq!(input.text(), "lwa");
    input.move_cursor_right();
    input.move_cursor_right();
    input.enter_char('!');
    assert_eq!(input.text(), "lwa!");
    // the cursor clamps at both ends
    for _ in 0..10 {
        input.move_cursor_left();
    }
    input.enter_char('>');
    assert_eq!(input.text(), ">lwa!");
    input.reset();
    assert_eq!(input.text(), "");
}

#[test]
fn submitting_a_name_trims_uppercases_and_pushes() {
    let mut session = SessionState::new(vec!["LWA-001".to_string()]);
    session.input_mode = InputMode::AntennaInput;
    for c in " lwa-250 ".chars() {
        session.input.enter_char(c);
    }
    assert!(session.submit_antenna_filter());
    assert_eq!(session.antenna_filter, vec!["LWA-001", "LWA-250"]);
    assert_eq!(session.input_mode, InputMode::Normal);
    assert_eq!(session.input.text(), "");
}

#[test]
fn submitting_blank_input_changes_nothing() {
    let mut session = SessionState::new(vec![]);
    for c in "   ".chars() {
        session.input.enter_char(c);
    }
    assert!(!session.submit_antenna_filter());
    assert!(session.antenna_filter.is_empty());
    assert_eq!(session.input_mode, InputMode::Normal);
}

#[test]
fn removing_an_antenna_takes_the_selected_entry() {
    let mut session = SessionState::new(vec!["A".to_string(), "B".to_string(), "C".to_string()]);
    assert!(session.remove_antenna(1));
    assert_eq!(session.antenna_filter, vec!["A", "C"]);
    assert!(!session.remove_antenna(5));
    assert_eq!(session.antenna_filter, vec!["A", "C"]);
}

#[test]
fn normal_mode_actions_move_the_session() {
    let mut session = SessionState::new(vec![]);
    session.on_action(Action::NewAnt);
    assert_eq!(session.input_mode, InputMode::AntennaInput);
    session.on_action(Action::ToggleStats);
    assert!(session.show_stats);
    // toggling units before any data arrived stays undecided
    session.on_action(Action::ToggleLog);
    assert_eq!(session.log_plot, None);
    session.on_action(Action::Break);
    assert!(session.quit);
}

#[test]
fn the_first_data_arrival_fixes_the_units() {
    let mut session = SessionState::new(vec![]);
    session.on_data(true, None, 30);
    assert!(session.spectra_present);
    assert_eq!(session.log_plot, Some(true));
    // later arrivals no longer change it
    session.on_data(false, None, 30);
    assert_eq!(session.log_plot, Some(true));
    // but the user can toggle it now
    session.on_action(Action::ToggleLog);
    assert_eq!(session.log_plot, Some(false));
}

#[test]
fn saturation_stats_blend_over_the_interval() {
    let first = SaturationStats::from_fractions(&vec![SatFraction { num: 1, den: 1 }]);
    assert_eq!(first.ppm, vec![1_000_000]);

    let mut session = SessionState::new(vec![]);
    session.on_data(false, Some(first), 1);
    let zero = SaturationStats::from_fractions(&vec![SatFraction { num: 0, den: 1 }]);
    session.on_data(false, Some(zero), 1);
    // with a one-second interval the running value moves half way
    assert_eq!(session.saturations.as_ref().unwrap().ppm, vec![500_000]);
}

#[test]
fn a_sample_of_another_width_replaces_the_history() {
    let wide = SaturationStats::from_fractions(&vec![
        SatFraction { num: 1, den: 2 },
        SatFraction { num: 1, den: 4 },
    ]);
    let narrow = SaturationStats::from_fractions(&vec![SatFraction { num: 1, den: 1 }]);

    let mut session = SessionState::new(vec![]);
    session.on_data(false, Some(wide), 1);
    assert_eq!(session.saturations.as_ref().unwrap().ppm, vec![500_000, 250_000]);
    session.on_data(false, Some(narrow), 1);
    assert_eq!(session.saturations.as_ref().unwrap().ppm, vec![1_000_000]);
}

#[test]
fn fraction_scaling_clamps_into_the_unit_interval() {
    let s = SaturationStats::from_fractions(&vec![
        SatFraction { num: 1, den: 4 },
        SatFraction { num: 0, den: 7 },
        SatFraction { num: 9, den: 4 },
        SatFraction { num: 3, den: 0 },
    ]);
    assert_eq!(s.ppm, vec![250_000, 0, 1_000_000, 0]);
}

#[test]
fn a_filter_update_mid_interval_fires_the_poll_immediately() {
    // mocked clock, milliseconds
    let mut schedule = PollSchedule::new(0, 30_000);
    assert!(schedule.due(0));
    schedule.on_poll(0);
    assert_eq!(schedule.next_deadline_ms, 30_000);
    assert!(!schedule.due(10_000));

    // the update resets the interval instead of waiting it out
    schedule.on_filter_update(10_000);
    assert!(schedule.due(10_000));
    schedule.on_poll(10_000);
    assert_eq!(schedule.next_deadline_ms, 40_000);
}

#[test]
fn the_poller_publishes_fresh_frames_and_remembers_them() {
    let mut poller = RemotePoller::new("dr8".to_string());
    assert_eq!(poller.on_read_outcome(ReadOutcome::Frame(500)), PollDecision::Publish);
    assert_eq!(poller.last_timestamp, 500);
    assert_eq!(poller.phase, PollPhase::FirstRead);
}

#[test]
fn a_stale_frame_triggers_one_rediscovery() {
    let mut poller = RemotePoller::new("dr8".to_string());
    let _ = poller.on_read_outcome(ReadOutcome::Frame(500));
    // the same timestamp again: the file rolled over
    assert_eq!(
        poller.on_read_outcome(ReadOutcome::Frame(500)),
        PollDecision::RetryAfterRediscover
    );
    // whatever the re-read finds is published as-is
    assert_eq!(poller.on_read_outcome(ReadOutcome::Frame(500)), PollDecision::Publish);
    assert_eq!(poller.last_timestamp, 500);
}

#[test]
fn an_unexpected_eof_is_retried_exactly_once() {
    let mut poller = RemotePoller::new("dr8".to_string());
    assert_eq!(poller.on_read_outcome(ReadOutcome::Eof), PollDecision::RetryAfterWait);
    assert_eq!(poller.on_read_outcome(ReadOutcome::Eof), PollDecision::Nothing);
    // other failures yield nothing at once
    assert_eq!(poller.on_read_outcome(ReadOutcome::Failed), PollDecision::Nothing);
    assert_eq!(poller.on_read_outcome(ReadOutcome::NoFile), PollDecision::Nothing);
}

#[test]
fn discovery_picks_the_newest_candidate_file() {
    let entries = vec![
        RemoteEntry { name: "0abc.dat".to_string(), mtime: 10, is_file: true },
        RemoteEntry { name: "0def.dat".to_string(), mtime: 30, is_file: true },
        RemoteEntry { name: "0zzz.dat".to_string(), mtime: 20, is_file: true },
        RemoteEntry { name: "9new.dat".to_string(), mtime: 99, is_file: true },
        RemoteEntry { name: "0dir".to_string(), mtime: 99, is_file: false },
    ];
    assert_eq!(pick_latest(&entries), Some(1));

    // on a tie the later entry wins
    let tied = vec![
        RemoteEntry { name: "0a".to_string(), mtime: 5, is_file: true },
        RemoteEntry { name: "0b".to_string(), mtime: 5, is_file: true },
    ];
    assert_eq!(pick_latest(&tied), Some(1));

    let none = vec![RemoteEntry { name: "log.txt".to_string(), mtime: 5, is_file: true }];
    assert_eq!(pick_latest(&none), None);
}

#[test]
fn a_missing_candidate_root_is_not_fatal() {
    assert_eq!(on_probe_outcome(ProbeOutcome::Found), ProbeDecision::UseFound);
    assert_eq!(on_probe_outcome(ProbeOutcome::Empty), ProbeDecision::TryNext);
    assert_eq!(on_probe_outcome(ProbeOutcome::MissingPath), ProbeDecision::TryNext);
    assert_eq!(on_probe_outcome(ProbeOutcome::Failed), ProbeDecision::Fail);
}

#[test]
fn discovery_probes_the_shared_then_the_recorder_store() {
    let paths = candidate_paths(&"dr5".to_string());
    assert_eq!(
        paths,
        vec!["/LWA_STORAGE/Internal/".to_string(), "/LWA_STORAGE/DR5/Internal/".to_string()]
    );
}

#[test]
fn the_disk_loader_ignores_antenna_filters() {
    let mut loader = DiskLoader::new("spectra.dat".to_string());
    loader.filter_antenna(&vec!["LWA-1".to_string()]);
    assert_eq!(loader.file, "spectra.dat");
}

#[test]
fn the_archive_loader_counts_selected_antennas() {
    let mut loader = spectrum_tui::ovro::DiskLoader::new("archive.npy".to_string());
    assert_eq!(loader.n_spectra, 0);
    loader.filter_antenna(&vec!["3".to_string(), "5".to_string()]);
    assert_eq!(loader.n_spectra, 2);
    assert_eq!(loader.labels(), vec!["0A", "0B", "1A", "1B"]);
}
