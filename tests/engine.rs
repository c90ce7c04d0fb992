use filesortify::classifier::{classify, file_extension_key, split_file_name};
use filesortify::mover::{candidate_name, plan_destination, MoveError};
use filesortify::organizer::{check_undo, fileSortify, make_action_id, manual_move_record, select_for_organizing, SessionState};
use filesortify::config::Config;
use filesortify::i18n::Language;
use filesortify::undo::{UndoAction, UndoError, UndoHistory, UNDO_CAPACITY};
use filesortify::watch::{should_skip_file, is_likely_final_file, EventClass, Poll, Screening, WatchWorker, WorkerStep};
use filesortify::registry::SessionRegistry;

fn rules() -> Vec<(String, Vec<String>)> {
    vec![
        ("Documents".to_string(), vec![".pdf".to_string()]),
        ("Images".to_string(), vec![".jpg".to_string(), ".jpeg".to_string()]),
    ]
}

fn names(v: &[&str]) -> Vec<String> {
    v.iter().map(|s| s.to_string()).collect()
}

fn action(id: &str) -> UndoAction {
    UndoAction {
        id: id.to_string(),
        file_name: "x.txt".to_string(),
        original_path: "/w/x.txt".to_string(),
        moved_to_path: "/w/Y/x.txt".to_string(),
        category: "Y".to_string(),
        timestamp: "2024/01/01 00:00:00".to_string(),
        downloads_path: "/w".to_string(),
        source: "manual".to_string(),
    }
}

#[test]
fn classify_uses_lowercased_extension() {
    assert_eq!(classify("report.pdf", &rules()), Some("Documents".to_string()));
    assert_eq!(classify("Photo.JPEG", &rules()), Some("Images".to_string()));
    assert_eq!(classify("song.mp3", &rules()), None);
}

#[test]
fn classify_without_extension_is_none() {
    assert_eq!(classify("notes", &rules()), None);
    assert_eq!(classify(".DS_Store", &rules()), None);
    assert_eq!(classify("", &rules()), None);
}

#[test]
fn classify_takes_first_claiming_category() {
    let rules = vec![
        ("A".to_string(), vec![".txt".to_string()]),
        ("B".to_string(), vec![".txt".to_string()]),
    ];
    assert_eq!(classify("a.txt", &rules), Some("A".to_string()));
}

#[test]
fn extension_key_and_split() {
    assert_eq!(file_extension_key("Report.PDF"), Some(".pdf".to_string()));
    assert_eq!(file_extension_key(".bashrc"), None);
    assert_eq!(split_file_name("a.tar.gz"), ("a.tar".to_string(), Some("gz".to_string())));
    assert_eq!(split_file_name("notes"), ("notes".to_string(), None));
    assert_eq!(split_file_name("trailing."), ("trailing".to_string(), Some("".to_string())));
}

#[test]
fn collisions_fill_numbered_names_in_order() {
    let mut folder: Vec<String> = Vec::new();
    let mut landed = Vec::new();
    for _ in 0..4 {
        let dest = plan_destination("a.txt", &folder).unwrap();
        landed.push(dest.clone());
        folder.push(dest);
    }
    assert_eq!(landed, names(&["a.txt", "a_1.txt", "a_2.txt", "a_3.txt"]));
}

#[test]
fn collision_without_extension_and_with_dotfile() {
    assert_eq!(plan_destination("notes", &names(&["notes"])), Ok("notes_1".to_string()));
    assert_eq!(plan_destination(".bashrc", &names(&[".bashrc"])), Ok(".bashrc_1".to_string()));
    assert_eq!(candidate_name("a.tar.gz", 12), "a.tar_12.gz".to_string());
}

#[test]
fn collision_fills_a_gap_first() {
    assert_eq!(plan_destination("a.txt", &names(&["a.txt", "a_2.txt"])), Ok("a_1.txt".to_string()));
}

#[test]
fn collision_gives_up_after_limit() {
    let mut taken = vec!["a.txt".to_string()];
    for k in 1..=1000 {
        taken.push(format!("a_{}.txt", k));
    }
    assert_eq!(plan_destination("a.txt", &taken), Err(MoveError::NoFreeName));
    taken.pop();
    assert_eq!(plan_destination("a.txt", &taken), Ok("a_1000.txt".to_string()));
}

#[test]
fn undo_log_latest_is_most_recent_first() {
    let mut log = UndoHistory::new(UNDO_CAPACITY);
    assert!(log.is_empty());
    for id in ["1", "2", "3"] {
        log.add_action(action(id));
    }
    let latest: Vec<String> = log.get_latest_actions(2).into_iter().map(|a| a.id).collect();
    assert_eq!(latest, names(&["3", "2"]));
    assert_eq!(log.get_latest_actions(10).len(), 3);
    assert_eq!(log.len(), 3);
}

#[test]
fn full_log_evicts_exactly_the_oldest() {
    let mut log = UndoHistory::new(UNDO_CAPACITY);
    for i in 0..50 {
        log.add_action(action(&i.to_string()));
    }
    assert_eq!(log.len(), 50);
    log.add_action(action("50"));
    assert_eq!(log.len(), 50);
    let latest = log.get_latest_actions(50);
    assert_eq!(latest.len(), 50);
    assert!(latest.iter().all(|a| a.id != "0"));
    assert_eq!(latest[0].id, "50");
    assert_eq!(latest[49].id, "1");
}

#[test]
fn remove_and_clear_undo_log() {
    let mut log = UndoHistory::new(5);
    log.add_action(action("a"));
    log.add_action(action("b"));
    assert_eq!(log.remove_action("a").map(|a| a.id), Some("a".to_string()));
    assert!(log.remove_action("a").is_none());
    assert_eq!(log.len(), 1);
    log.clear();
    assert!(log.is_empty());
}

#[test]
fn undo_round_trip_consumes_entry() {
    let mut org = fileSortify::new("/w", Config::localized_default(Language::English));
    let id = make_action_id(1_700_000_000_000, 42);
    assert_eq!(id, "1700000000000-42");
    let record = manual_move_record(id.clone(), "x.txt".into(), "/w/x.txt".into(), "/w/Y/x.txt".into(), "Y".into(), "t".into(), "/w".into());
    assert_eq!(record.source, "manual");
    org.record_manual_move(record);
    assert_eq!(org.get_undo_history_count(), 1);
    let taken = org.undo_action(&id).unwrap();
    assert_eq!(taken.original_path, "/w/x.txt");
    assert_eq!(check_undo(true, false), Ok(()));
    assert_eq!(org.get_undo_history_count(), 0);
    assert_eq!(org.undo_action(&id).map(|a| a.id), Err(UndoError::NotFound));
}

#[test]
fn undo_of_deleted_file_fails_and_consumes_entry() {
    let mut org = fileSortify::new("/w", Config::localized_default(Language::English));
    org.record_manual_move(action("gone"));
    assert_eq!(org.undo_checked("gone", false, false).map(|a| a.id), Err(UndoError::TargetGone));
    assert_eq!(check_undo(true, true), Err(UndoError::OriginalOccupied));
    assert_eq!(org.get_undo_history_count(), 0);
    assert_eq!(org.undo_action("gone").map(|a| a.id), Err(UndoError::NotFound));
}

#[test]
fn undo_checked_outcomes() {
    let mut org = fileSortify::new("/w", Config::localized_default(Language::English));
    org.record_manual_move(action("a"));
    org.record_manual_move(action("b"));
    org.record_manual_move(action("c"));
    assert_eq!(org.undo_checked("a", true, true).map(|a| a.id), Err(UndoError::OriginalOccupied));
    assert_eq!(org.undo_checked("b", true, false).map(|a| a.original_path), Ok("/w/x.txt".to_string()));
    assert_eq!(org.undo_checked("b", true, false).map(|a| a.id), Err(UndoError::NotFound));
    assert_eq!(org.undo_checked("zzz", true, false).map(|a| a.id), Err(UndoError::NotFound));
    assert_eq!(org.get_undo_history_count(), 1);
    assert!(org.find_undo_action("c").is_some());
    assert!(org.find_undo_action("a").is_none());
}

#[test]
fn organize_now_scenario() {
    let entries = vec![
        ("report.pdf".to_string(), false),
        ("photo.jpg".to_string(), false),
        ("notes".to_string(), false),
        (".DS_Store".to_string(), false),
    ];
    let plan = select_for_organizing(&entries, &rules());
    assert_eq!(plan, vec![(0, "Documents".to_string()), (1, "Images".to_string())]);
    assert_eq!(plan_destination("report.pdf", &Vec::new()), Ok("report.pdf".to_string()));
    assert_eq!(plan_destination("photo.jpg", &Vec::new()), Ok("photo.jpg".to_string()));
    assert_eq!(plan.len(), 2);
}

#[test]
fn organize_skips_folders() {
    let entries = vec![("Documents.pdf".to_string(), true), ("b.pdf".to_string(), false)];
    assert_eq!(select_for_organizing(&entries, &rules()), vec![(1, "Documents".to_string())]);
}

#[test]
fn debounce_windows() {
    let mut w = WatchWorker::new("/w".to_string(), rules());
    assert_eq!(w.screen_event("/w/a.pdf", "a.pdf", true, EventClass::Create, 10_000), Screening::Proceed { settle_ms: 1000 });
    assert_eq!(w.screen_event("/w/a.pdf", "a.pdf", true, EventClass::Create, 14_999), Screening::RecentlyProcessed);
    assert_eq!(w.screen_event("/w/a.pdf", "a.pdf", true, EventClass::Modify, 13_000), Screening::Proceed { settle_ms: 500 });
    assert_eq!(w.screen_event("/w/a.pdf", "a.pdf", true, EventClass::Other, 14_000), Screening::RecentlyProcessed);
    assert_eq!(w.screen_event("/w/b.pdf", "b.pdf", false, EventClass::Create, 14_000), Screening::NotAFile);
    assert_eq!(w.screen_event("/w/.DS_Store", ".DS_Store", true, EventClass::Modify, 14_000), Screening::Filtered);
    assert_eq!(w.category_for_file("a.pdf"), Some("Documents".to_string()));
}

#[test]
fn skip_filter_cases() {
    assert!(should_skip_file("._photo.jpg", true));
    assert!(should_skip_file(".DS_Store", true));
    assert!(should_skip_file("~$report.docx", false));
    assert!(should_skip_file("ab.tmp", true));
    assert!(!should_skip_file("a-long-name.tmp", true));
    assert!(should_skip_file("movie.part", false));
    assert!(!should_skip_file("movie.part", true));
    assert!(should_skip_file(".hidden", false));
    assert!(!should_skip_file(".hidden", true));
    assert!(!should_skip_file(".env.local", false));
    assert!(!should_skip_file(".ab.txt", false));
    assert!(!should_skip_file("report.pdf", false));
    assert!(is_likely_final_file(".gitignore"));
    assert!(is_likely_final_file(".x.txt"));
    assert!(!is_likely_final_file("..txt"));
    assert!(!is_likely_final_file(".x.tar"));
}

#[test]
fn worker_loop_policy() {
    assert_eq!(WatchWorker::on_poll(Poll::Received(EventClass::Create)), WorkerStep::Handle(EventClass::Create));
    assert_eq!(WatchWorker::on_poll(Poll::TimedOut), WorkerStep::Continue);
    assert_eq!(WatchWorker::on_poll(Poll::Unhandled), WorkerStep::Continue);
    assert_eq!(WatchWorker::on_poll(Poll::WatchError), WorkerStep::ReportAndContinue);
    assert_eq!(WatchWorker::on_poll(Poll::Disconnected), WorkerStep::ReportAndExit);
}

#[test]
fn watch_lifecycle() {
    let mut org = fileSortify::new("/w", Config::localized_default(Language::English));
    assert_eq!(org.state, SessionState::Idle);
    assert!(!org.start_monitoring());
    assert_eq!(org.state, SessionState::Watching);
    assert!(org.start_monitoring());
    assert!(org.stop_monitoring());
    assert_eq!(org.state, SessionState::Stopping);
    assert!(!org.stop_monitoring());
    org.monitoring_stopped();
    assert_eq!(org.state, SessionState::Idle);
    assert_eq!(org.get_file_category("x.PDF"), Some("Documents".to_string()));
}

#[test]
fn registry_keeps_one_session_per_folder() {
    let mut reg: SessionRegistry<u32> = SessionRegistry::new();
    assert_eq!(reg.start_watch("/w".to_string(), 1), None);
    assert_eq!(reg.start_watch("/w".to_string(), 2), Some(1));
    assert_eq!(reg.len(), 1);
    assert_eq!(reg.session("/w"), Some(&2));
    assert!(reg.is_watching("/w"));
    assert_eq!(reg.start_watch("/v".to_string(), 3), None);
    let mut folders = reg.folders();
    folders.sort();
    assert_eq!(folders, names(&["/v", "/w"]));
    assert_eq!(reg.stop_watch("/w"), Some(2));
    assert_eq!(reg.stop_watch("/w"), None);
    assert!(!reg.is_watching("/w"));
}
