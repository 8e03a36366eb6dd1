use klava_core::coordinator::{
    is_transcribe_binding, stage_code, stage_label, Command, CoordinatorState, InputDecision, Stage,
    StartOutcome, StopOutcome, TranscriptionCoordinator, DEBOUNCE_NS,
};
use std::sync::mpsc;

const MS: u64 = 1_000_000;

fn recording_id(s: &CoordinatorState) -> Option<String> {
    match &s.stage {
        Stage::Recording(id) => Some(id.clone()),
        _ => None,
    }
}

#[test]
fn transcribe_bindings_are_recognised() {
    assert!(is_transcribe_binding("transcribe"));
    assert!(is_transcribe_binding("transcribe_with_post_process"));
    assert!(!is_transcribe_binding("cancel"));
    assert!(!is_transcribe_binding("test"));
    assert!(!is_transcribe_binding("transcrib"));
    assert!(!is_transcribe_binding(""));
}

#[test]
fn stage_labels_and_codes() {
    assert_eq!(stage_label(&Stage::Idle), "Idle");
    assert_eq!(stage_label(&Stage::Recording("transcribe".to_string())), "Recording");
    assert_eq!(stage_label(&Stage::Processing), "Processing");
    assert_eq!(stage_code(&Stage::Idle), 0);
    assert_eq!(stage_code(&Stage::Recording("x".to_string())), 1);
    assert_eq!(stage_code(&Stage::Processing), 2);
}

#[test]
fn toggle_press_starts_then_second_press_stops() {
    let mut s = CoordinatorState::new();
    assert!(s.is_idle());
    assert_eq!(s.on_input("transcribe", true, false, 0), InputDecision::Start);
    assert!(s.complete_start("transcribe", StartOutcome::Ran { recording: true }));
    assert_eq!(recording_id(&s), Some("transcribe".to_string()));
    // Releases do nothing in toggle mode
    assert_eq!(s.on_input("transcribe", false, false, 10 * MS), InputDecision::Ignored);
    assert_eq!(s.on_input("transcribe", true, false, 100 * MS), InputDecision::Stop);
    assert!(s.complete_stop(StopOutcome::Ran, 101 * MS));
    assert!(matches!(s.stage, Stage::Processing));
    assert_eq!(s.processing_started, Some(101 * MS));
}

#[test]
fn push_to_talk_press_starts_release_stops() {
    let mut s = CoordinatorState::new();
    assert_eq!(s.on_input("transcribe", true, true, 5 * MS), InputDecision::Start);
    s.complete_start("transcribe", StartOutcome::Ran { recording: true });
    // Releasing a different binding does nothing
    assert_eq!(s.on_input("transcribe_with_post_process", false, true, 6 * MS), InputDecision::Ignored);
    // The release passes even within the debounce window
    assert_eq!(s.on_input("transcribe", false, true, 6 * MS), InputDecision::Stop);
    s.complete_stop(StopOutcome::Ran, 7 * MS);
    assert!(matches!(s.stage, Stage::Processing));
}

#[test]
fn rapid_presses_are_debounced() {
    let mut s = CoordinatorState::new();
    assert_eq!(s.on_input("transcribe", true, false, 1_000 * MS), InputDecision::Start);
    s.complete_start("transcribe", StartOutcome::Ran { recording: true });
    // 29.999 ms later: dropped, nothing changes
    let before_press = s.last_press;
    assert_eq!(s.on_input("transcribe", true, false, 1_000 * MS + DEBOUNCE_NS - 1), InputDecision::Debounced);
    assert_eq!(s.last_press, before_press);
    assert_eq!(recording_id(&s), Some("transcribe".to_string()));
    // exactly 30 ms later: accepted
    assert_eq!(s.on_input("transcribe", true, false, 1_000 * MS + DEBOUNCE_NS), InputDecision::Stop);
    assert_eq!(s.last_press, Some(1_000 * MS + DEBOUNCE_NS));
}

#[test]
fn clock_going_backwards_counts_as_no_gap() {
    let mut s = CoordinatorState::new();
    s.on_input("test", true, false, 50 * MS);
    assert_eq!(s.on_input("test", true, false, 10 * MS), InputDecision::Debounced);
}

#[test]
fn busy_pipeline_ignores_other_presses() {
    let mut s = CoordinatorState::new();
    s.on_input("transcribe", true, false, 0);
    s.complete_start("transcribe", StartOutcome::Ran { recording: true });
    assert_eq!(s.on_input("transcribe_with_post_process", true, false, 100 * MS), InputDecision::Busy);
    assert_eq!(recording_id(&s), Some("transcribe".to_string()));
    s.on_input("transcribe", true, false, 200 * MS);
    s.complete_stop(StopOutcome::Ran, 200 * MS);
    assert_eq!(s.on_input("transcribe", true, false, 300 * MS), InputDecision::Busy);
    // Push-to-talk presses during processing are simply ignored
    assert_eq!(s.on_input("transcribe", true, true, 400 * MS), InputDecision::Ignored);
}

#[test]
fn start_without_recording_stays_idle() {
    let mut s = CoordinatorState::new();
    s.on_input("transcribe", true, false, 0);
    assert!(s.complete_start("transcribe", StartOutcome::Ran { recording: false }));
    assert!(s.is_idle());
    assert!(!s.complete_start("transcribe", StartOutcome::Unbound));
    assert!(s.is_idle());
}

#[test]
fn unbound_stop_leaves_recording() {
    let mut s = CoordinatorState::new();
    s.on_input("transcribe", true, false, 0);
    s.complete_start("transcribe", StartOutcome::Ran { recording: true });
    assert!(!s.complete_stop(StopOutcome::Unbound, 5));
    assert!(s.is_recording_for("transcribe"));
    assert_eq!(s.processing_started, None);
}

#[test]
fn cancel_is_blocked_while_processing_but_force_idle_is_not() {
    let mut s = CoordinatorState::new();
    s.on_input("transcribe", true, false, 0);
    s.complete_start("transcribe", StartOutcome::Ran { recording: true });
    s.on_input("transcribe", true, false, 100 * MS);
    s.complete_stop(StopOutcome::Ran, 100 * MS);
    assert!(!s.on_cancel(true));
    assert!(matches!(s.stage, Stage::Processing));
    assert_eq!(s.on_force_idle(1_600 * MS), Some(1_500));
    assert!(s.is_idle());
    assert_eq!(s.processing_started, None);
    assert_eq!(s.on_force_idle(1_700 * MS), None);
}

#[test]
fn cancel_resets_recording_or_active_flag() {
    let mut s = CoordinatorState::new();
    assert!(!s.on_cancel(false));
    assert!(s.on_cancel(true));
    assert!(s.is_idle());
    s.on_input("transcribe", true, false, 0);
    s.complete_start("transcribe", StartOutcome::Ran { recording: true });
    assert!(s.on_cancel(false));
    assert!(s.is_idle());
}

#[test]
fn processing_finished_reports_duration() {
    let mut s = CoordinatorState::new();
    assert_eq!(s.on_processing_finished(5 * MS), 0);
    s.on_input("transcribe", true, false, 0);
    s.complete_start("transcribe", StartOutcome::Ran { recording: true });
    s.on_input("transcribe", true, false, 100 * MS);
    s.complete_stop(StopOutcome::Ran, 200 * MS);
    assert_eq!(s.on_processing_finished(2_450 * MS + 999_999), 2_250);
    assert!(s.is_idle());
    assert_eq!(s.processing_started, None);
}

#[test]
fn notifications_reach_the_coordinator_thread() {
    let (tx, rx) = mpsc::channel();
    let c = TranscriptionCoordinator::new(tx);
    assert!(c.send_input("transcribe", "ctrl+space", true, Some(false)));
    assert!(c.notify_cancel(true));
    assert!(c.notify_processing_finished());
    assert!(c.force_idle());
    match rx.recv().unwrap() {
        Command::Input { binding_id, hotkey_string, is_pressed, push_to_talk } => {
            assert_eq!(binding_id, "transcribe");
            assert_eq!(hotkey_string, "ctrl+space");
            assert!(is_pressed);
            assert_eq!(push_to_talk, Some(false));
        }
        _ => panic!("expected an input command"),
    }
    assert!(matches!(rx.recv().unwrap(), Command::Cancel { recording_was_active: true }));
    assert!(matches!(rx.recv().unwrap(), Command::ProcessingFinished));
    assert!(matches!(rx.recv().unwrap(), Command::ForceIdle));
}

#[test]
fn closed_channel_is_tolerated() {
    let (tx, rx) = mpsc::channel();
    drop(rx);
    let c = TranscriptionCoordinator::new(tx);
    assert!(!c.send_input("transcribe", "f9", false, None));
    assert!(!c.notify_cancel(false));
    assert!(!c.notify_processing_finished());
    assert!(!c.force_idle());
}

#[test]
fn input_command_carries_fields() {
    match Command::input("a", "b", false, None) {
        Command::Input { binding_id, hotkey_string, is_pressed, push_to_talk } => {
            assert_eq!(binding_id, "a");
            assert_eq!(hotkey_string, "b");
            assert!(!is_pressed);
            assert_eq!(push_to_talk, None);
        }
        _ => panic!("expected an input command"),
    }
}
