use chip8_host::audio::AudioCapability;
use chip8_host::audio::RecordingAudio;
use chip8_host::pump::contains_quit;
use chip8_host::pump::no_program_message;
use chip8_host::pump::pump_outcome;
use chip8_host::pump::PumpEvent;
use chip8_host::pump::PumpOutcome;

#[test]
fn machine_fault_is_fatal() {
    let no_events: Vec<PumpEvent> = Vec::new();
    assert_eq!(pump_outcome(true, &no_events), PumpOutcome::Fatal);
}

#[test]
fn fault_wins_over_quit_because_the_step_comes_first() {
    let events = vec![PumpEvent::Quit];
    assert_eq!(pump_outcome(true, &events), PumpOutcome::Fatal);
}

#[test]
fn quit_event_ends_the_iteration() {
    // A quit request anywhere in the drained batch ends the process
    // within the same iteration: no render, no further machine step.
    let events = vec![PumpEvent::Other, PumpEvent::Quit, PumpEvent::Other];
    assert_eq!(pump_outcome(false, &events), PumpOutcome::Quit);
}

#[test]
fn quiet_iteration_continues() {
    let events = vec![PumpEvent::Other, PumpEvent::Other];
    assert_eq!(pump_outcome(false, &events), PumpOutcome::Continue);
    let no_events: Vec<PumpEvent> = Vec::new();
    assert_eq!(pump_outcome(false, &no_events), PumpOutcome::Continue);
}

#[test]
fn contains_quit_scans_the_whole_batch() {
    let no_events: Vec<PumpEvent> = Vec::new();
    assert!(!contains_quit(&no_events));
    assert!(!contains_quit(&vec![PumpEvent::Other]));
    assert!(contains_quit(&vec![PumpEvent::Other, PumpEvent::Quit]));
}

#[test]
fn usage_line_names_the_missing_program() {
    assert_eq!(no_program_message(), "Please provide the program you want to run");
}

#[test]
fn recording_audio_logs_every_call_in_order() {
    let mut dev = RecordingAudio::new();
    assert!(dev.calls().is_empty());
    dev.play();
    dev.stop();
    dev.play();
    assert_eq!(dev.calls(), &vec![true, false, true]);
}
