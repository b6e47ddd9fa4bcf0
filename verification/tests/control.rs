use wan_player::controller::{Controller, ControllerAction, ControllerState, PlayerControl};
use wan_player::player::{PlayerMessage, PlayerModel, PlayerStatus};

fn song(duration: u64, played: u64) -> wan_player::metadata::GRApiAnswer {
    wan_player::metadata::GRApiAnswer {
        songinfo: wan_player::metadata::SongInfo {
            title: String::from("Necrofantasia"),
            artist: String::from("Yuyuko"),
            album: String::from("Borders"),
            year: String::from("2004"),
            circle: String::from("Hakurei"),
        },
        songtimes: wan_player::metadata::SongTimes {
            duration_str: String::from("245"),
            duration,
            played,
            remaining: duration - played,
            songstart: 0,
            songend: duration,
        },
        misc: wan_player::metadata::Misc {
            circlelink: String::from(""),
            circleart: String::from(""),
            albumart: String::from("cover.jpg"),
        },
    }
}

#[test]
fn play_starts_a_session_at_the_persisting_volume() {
    let mut c = Controller::new(35);
    let a = c.handle(PlayerControl::Play);
    assert_eq!(a, ControllerAction::StartSession(35));
    assert_eq!(c.state, ControllerState::Active);
    assert!(c.fetcher_live && c.decoder_live && c.device_registered);
}

#[test]
fn play_then_pause_round_trips_without_leaks() {
    let start = Controller::new(10);
    let mut c = start;
    c.handle(PlayerControl::Play);
    let a = c.handle(PlayerControl::Pause);
    assert_eq!(a, ControllerAction::StopSession);
    assert_eq!(c, start);
    assert!(!c.fetcher_live && !c.decoder_live && !c.device_registered);
}

#[test]
fn play_then_immediate_pause_leaves_no_device_registered() {
    // Play, then pause before any bytes arrive: cleanly idle again, nothing
    // registered with the audio device.
    let mut c = Controller::new(10);
    c.handle(PlayerControl::Play);
    c.handle(PlayerControl::Pause);
    assert_eq!(c.state, ControllerState::Idle);
    assert!(!c.device_registered);
    assert!(!c.fetcher_live);
    assert!(!c.decoder_live);
}

#[test]
fn redundant_play_and_pause_are_noops() {
    let mut c = Controller::new(10);
    assert_eq!(c.handle(PlayerControl::Pause), ControllerAction::Stay);
    c.handle(PlayerControl::Play);
    let snapshot = c;
    assert_eq!(c.handle(PlayerControl::Play), ControllerAction::Stay);
    assert_eq!(c, snapshot);
}

#[test]
fn volume_changes_reach_the_sink_and_survive_sessions() {
    let mut c = Controller::new(10);
    assert_eq!(c.handle(PlayerControl::Volume(55)), ControllerAction::SetVolume(55));
    assert_eq!(c.volume, 55);
    assert_eq!(c.state, ControllerState::Idle);
    assert_eq!(c.handle(PlayerControl::Play), ControllerAction::StartSession(55));
    assert_eq!(c.handle(PlayerControl::Volume(20)), ControllerAction::SetVolume(20));
    assert_eq!(c.state, ControllerState::Active);
    c.handle(PlayerControl::Pause);
    assert_eq!(c.volume, 20);
}

#[test]
fn a_session_failure_is_an_implicit_pause() {
    let mut c = Controller::new(10);
    c.handle(PlayerControl::Play);
    let a = c.session_failed();
    assert_eq!(a, ControllerAction::StopSession);
    assert_eq!(c.state, ControllerState::Idle);
    assert!(!c.fetcher_live && !c.decoder_live && !c.device_registered);
    // Idle again: a failure without a session asks nothing of the runtime.
    assert_eq!(c.session_failed(), ControllerAction::Stay);
}

#[test]
fn play_and_pause_messages_drive_status_and_pipeline() {
    let mut m = PlayerModel::new(10);
    assert_eq!(m.player_status, PlayerStatus::Paused);
    let fx = m.update(PlayerMessage::Play);
    assert_eq!(fx.control, Some(PlayerControl::Play));
    assert_eq!(m.player_status, PlayerStatus::Playing);
    let fx = m.update(PlayerMessage::Pause);
    assert_eq!(fx.control, Some(PlayerControl::Pause));
    assert_eq!(m.player_status, PlayerStatus::Paused);
}

#[test]
fn volume_message_updates_model_and_forwards() {
    let mut m = PlayerModel::new(10);
    let fx = m.update(PlayerMessage::VolumeChanged(73));
    assert_eq!(fx.control, Some(PlayerControl::Volume(73)));
    assert_eq!(m.volume, 73);
    assert!(!fx.notify_presence && !fx.fetch_album_art && !fx.fetch_song_info);
}

#[test]
fn fresh_song_info_notifies_presence_and_fetches_art() {
    let mut m = PlayerModel::new(10);
    let fx = m.update(PlayerMessage::SongInfo(song(245, 0)));
    assert!(fx.notify_presence);
    assert!(fx.fetch_album_art);
    assert!(!fx.fetch_song_info);
    assert!(m.current_song_info.is_some());
}

#[test]
fn album_art_is_stored() {
    let mut m = PlayerModel::new(10);
    let fx = m.update(PlayerMessage::AlbumArt(Some(vec![1, 2, 3])));
    assert_eq!(fx.control, None);
    assert_eq!(m.album_image, Some(vec![1, 2, 3]));
}

#[test]
fn ticks_count_seconds_and_refetch_at_track_end() {
    let mut m = PlayerModel::new(10);
    m.update(PlayerMessage::SongInfo(song(3, 1)));
    let fx = m.update(PlayerMessage::IncrementElapsed);
    assert!(fx.schedule_tick);
    assert!(!fx.fetch_song_info);
    let fx = m.update(PlayerMessage::IncrementElapsed);
    assert!(fx.schedule_tick);
    assert!(fx.fetch_song_info);
    assert_eq!(m.current_song_info.as_ref().unwrap().songtimes.played, 3);
}

#[test]
fn ticks_without_song_info_only_reschedule() {
    let mut m = PlayerModel::new(10);
    let fx = m.update(PlayerMessage::IncrementElapsed);
    assert!(fx.schedule_tick);
    assert!(!fx.fetch_song_info);
    assert!(m.current_song_info.is_none());
}
