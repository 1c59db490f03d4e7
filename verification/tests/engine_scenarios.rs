use edrum_waver::engine::{Engine, EngineAction};
use edrum_waver::messages::{DeviceType, PlayerCommand, PlayerEvent};
use edrum_waver::song::SongStub;

fn rock_intro() -> SongStub {
    SongStub {
        file_name: String::from("Intro"),
        title: String::from("Intro"),
        folder: String::from("/songs/rock1"),
    }
}

#[test]
fn play_with_files_present_yields_one_playing_event() {
    let mut engine = Engine::new();
    let stub = rock_intro();
    let mut all_events: Vec<PlayerEvent> = Vec::new();

    let (events, action) = engine.handle_command(PlayerCommand::Play(stub.clone()));
    all_events.extend(events);
    assert_eq!(action, EngineAction::Probe(stub.clone()));

    let (events, action) = engine.on_probed(stub.clone(), true);
    all_events.extend(events);
    assert_eq!(action, EngineAction::Load(stub.clone()));

    let (events, action) = engine.on_decoded(stub.clone(), true, true);
    all_events.extend(events);
    assert_eq!(action, EngineAction::Start(stub.clone()));

    let (events, action) = engine.on_started(stub.clone(), true, true);
    all_events.extend(events);
    assert_eq!(action, EngineAction::SetPlaying(true));

    assert_eq!(all_events, vec![PlayerEvent::Playing(stub.clone())]);
    assert_eq!(engine.current_selection, Some(stub));
    assert!(engine.is_playing);
}

#[test]
fn play_with_archive_fallback_yields_decompress_then_playing() {
    let mut engine = Engine::new();
    let stub = rock_intro();
    let mut all_events: Vec<PlayerEvent> = Vec::new();

    let (events, action) = engine.handle_command(PlayerCommand::Play(stub.clone()));
    all_events.extend(events);
    assert_eq!(action, EngineAction::Probe(stub.clone()));

    let (events, action) = engine.on_probed(stub.clone(), false);
    all_events.extend(events);
    assert_eq!(action, EngineAction::Extract(stub.clone()));

    let (events, action) = engine.on_extracted(stub.clone(), true);
    all_events.extend(events);
    assert_eq!(action, EngineAction::Load(stub.clone()));

    let (events, _) = engine.on_decoded(stub.clone(), true, true);
    all_events.extend(events);
    let (events, _) = engine.on_started(stub.clone(), true, true);
    all_events.extend(events);

    assert_eq!(
        all_events,
        vec![
            PlayerEvent::Decompressing,
            PlayerEvent::Decompressed,
            PlayerEvent::Playing(stub.clone()),
        ]
    );
    assert_eq!(engine.current_selection, Some(stub));
}

#[test]
fn play_with_assets_missing_yields_decompressing_then_load_failure() {
    let mut engine = Engine::new();
    let stub = rock_intro();
    let mut all_events: Vec<PlayerEvent> = Vec::new();

    let (events, _) = engine.handle_command(PlayerCommand::Play(stub.clone()));
    all_events.extend(events);
    let (events, _) = engine.on_probed(stub.clone(), false);
    all_events.extend(events);
    let (events, action) = engine.on_extracted(stub.clone(), false);
    all_events.extend(events);

    assert_eq!(action, EngineAction::Nothing);
    assert_eq!(
        all_events,
        vec![PlayerEvent::Decompressing, PlayerEvent::LoadFailure(stub)]
    );
    assert_eq!(engine.current_selection, None);
    assert!(!engine.is_playing);
}

#[test]
fn decode_failure_emits_one_load_failure_and_never_starts() {
    let mut engine = Engine::new();
    let stub = rock_intro();

    let (_, _) = engine.handle_command(PlayerCommand::Play(stub.clone()));
    let (_, _) = engine.on_probed(stub.clone(), true);
    let (events, action) = engine.on_decoded(stub.clone(), true, false);

    assert_eq!(events, vec![PlayerEvent::LoadFailure(stub)]);
    assert_eq!(action, EngineAction::Nothing);
    assert_eq!(engine.current_selection, None);
    assert!(!engine.is_playing);
}

#[test]
fn click_start_failure_rolls_back_the_pair() {
    let mut engine = Engine::new();
    let stub = rock_intro();

    let (_, _) = engine.handle_command(PlayerCommand::Play(stub.clone()));
    let (_, _) = engine.on_probed(stub.clone(), true);
    let (_, _) = engine.on_decoded(stub.clone(), true, true);
    let (events, action) = engine.on_started(stub.clone(), true, false);

    assert_eq!(events, vec![PlayerEvent::LoadFailure(stub)]);
    assert_eq!(action, EngineAction::StopBoth);
    assert_eq!(engine.current_selection, None);
    assert!(!engine.is_playing);
}

#[test]
fn pause_twice_restores_the_play_state() {
    let mut engine = Engine::new();
    let stub = rock_intro();
    let (_, _) = engine.handle_command(PlayerCommand::Play(stub.clone()));
    let (_, _) = engine.on_probed(stub.clone(), true);
    let (_, _) = engine.on_decoded(stub.clone(), true, true);
    let (_, _) = engine.on_started(stub.clone(), true, true);
    assert!(engine.is_playing);

    let (events, action) = engine.handle_command(PlayerCommand::Pause);
    assert_eq!(events, vec![PlayerEvent::Paused]);
    assert_eq!(action, EngineAction::SetPlaying(false));
    assert!(!engine.is_playing);

    let (events, action) = engine.handle_command(PlayerCommand::Pause);
    assert_eq!(events, vec![PlayerEvent::Continuing(Some(stub.clone()))]);
    assert_eq!(action, EngineAction::SetPlaying(true));
    assert!(engine.is_playing);
    assert_eq!(engine.current_selection, Some(stub));
}

#[test]
fn pause_while_idle_continues_with_no_selection() {
    let mut engine = Engine::new();
    let (events, action) = engine.handle_command(PlayerCommand::Pause);
    assert_eq!(events, vec![PlayerEvent::Continuing(None)]);
    assert_eq!(action, EngineAction::SetPlaying(true));
}

#[test]
fn position_is_none_while_stopped_and_the_reading_while_playing() {
    let mut engine = Engine::new();

    let (_, action) = engine.handle_command(PlayerCommand::GetPosition);
    assert_eq!(action, EngineAction::QueryPosition);
    let (events, _) = engine.on_position(Some((3, 10)));
    assert_eq!(events, vec![PlayerEvent::Position(None)]);

    let stub = rock_intro();
    let (_, _) = engine.handle_command(PlayerCommand::Play(stub.clone()));
    let (_, _) = engine.on_probed(stub.clone(), true);
    let (_, _) = engine.on_decoded(stub.clone(), true, true);
    let (_, _) = engine.on_started(stub, true, true);

    let (events, _) = engine.on_position(Some((3, 10)));
    assert_eq!(events, vec![PlayerEvent::Position(Some((3, 10)))]);
}

#[test]
fn stop_clears_the_selection_and_halts_the_pair() {
    let mut engine = Engine::new();
    let stub = rock_intro();
    let (_, _) = engine.handle_command(PlayerCommand::Play(stub.clone()));
    let (_, _) = engine.on_probed(stub.clone(), true);
    let (_, _) = engine.on_decoded(stub.clone(), true, true);
    let (_, _) = engine.on_started(stub, true, true);

    let (events, action) = engine.handle_command(PlayerCommand::Stop);
    assert_eq!(events, vec![PlayerEvent::Stopped]);
    assert_eq!(action, EngineAction::StopBoth);
    assert_eq!(engine.current_selection, None);
    assert!(!engine.is_playing);
}

#[test]
fn quit_emits_one_quit_event_and_is_terminal() {
    let mut engine = Engine::new();
    let (events, action) = engine.handle_command(PlayerCommand::Quit);
    assert_eq!(events, vec![PlayerEvent::Quit]);
    assert_eq!(action, EngineAction::Shutdown);
    assert!(engine.done);

    let stub = rock_intro();
    let (events, action) = engine.handle_command(PlayerCommand::Play(stub.clone()));
    assert!(events.is_empty());
    assert_eq!(action, EngineAction::Nothing);

    let (events, action) = engine.handle_command(PlayerCommand::Pause);
    assert!(events.is_empty());
    assert_eq!(action, EngineAction::Nothing);

    let (events, action) = engine.on_probed(stub.clone(), true);
    assert!(events.is_empty());
    assert_eq!(action, EngineAction::Nothing);

    let (events, action) = engine.on_started(stub, true, true);
    assert!(events.is_empty());
    assert_eq!(action, EngineAction::Nothing);
    assert!(!engine.is_playing);

    let (events, action) = engine.on_position(Some((1, 2)));
    assert!(events.is_empty());
    assert_eq!(action, EngineAction::Nothing);
}

#[test]
fn set_device_rebinds_one_channel_for_the_next_play() {
    let mut engine = Engine::new();
    assert_eq!(engine.track_device, 0);
    assert_eq!(engine.click_device, 0);

    let (events, action) = engine.handle_command(PlayerCommand::SetDevice(DeviceType::Click, 2));
    assert!(events.is_empty());
    assert_eq!(action, EngineAction::Nothing);
    assert_eq!(engine.click_device, 2);
    assert_eq!(engine.track_device, 0);

    let (_, _) = engine.handle_command(PlayerCommand::SetDevice(DeviceType::Track, 1));
    assert_eq!(engine.track_device, 1);
}

#[test]
fn forward_and_backward_seek_both_sessions() {
    let mut engine = Engine::new();
    let (events, action) = engine.handle_command(PlayerCommand::Forward);
    assert!(events.is_empty());
    assert_eq!(action, EngineAction::SeekForward);

    let (events, action) = engine.handle_command(PlayerCommand::Backward);
    assert!(events.is_empty());
    assert_eq!(action, EngineAction::SeekBackward);
}
