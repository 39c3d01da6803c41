use lavalink_client::connection::{
    Connection, ConnectionAction, ConnectionEvent, ConnectionState,
};
use lavalink_client::http::{load_track, track_search_url, InvalidAuthorization};
use lavalink_client::model::{
    Destroy, Equalizer, EqualizerBand, Filters, FiltersState, Karaoke, Opcode, OutgoingEvent,
    Pause, Play, Real, Seek, SlimVoiceServerUpdate, Stop, Timescale, Tremolo, Vibrato,
    VoiceUpdate, Volume,
};

fn num(value: f64) -> Real {
    Real::from_bits(value.to_bits())
}

#[test]
fn opcode_default_is_empty() {
    assert_eq!(Opcode::default(), Opcode::Empty);
}

#[test]
fn real_keeps_its_bits() {
    assert_eq!(f64::from_bits(num(0.75).to_bits()), 0.75);
    assert_eq!(Real::zero(), num(0.0));
}

#[test]
fn voice_update_new() {
    let event = SlimVoiceServerUpdate::new(Some(String::from("host")), String::from("tok"));
    let update = VoiceUpdate::new(1, String::from("session"), event.clone());
    assert_eq!(update.op, Opcode::VoiceUpdate);
    assert_eq!(update.guild_id, 1);
    assert_eq!(update.session_id, "session");
    assert_eq!(update.event, event);
    assert_eq!(update.event.endpoint.as_deref(), Some("host"));
    assert_eq!(update.event.token, "tok");
}

#[test]
fn play_new() {
    let play = Play::new(2, String::from("t"), Some(5), Some(9), false);
    assert_eq!(
        play,
        Play {
            op: Opcode::Play,
            guild_id: 2,
            track: String::from("t"),
            start_time: Some(5),
            end_time: Some(9),
            no_replace: false,
        }
    );
    let whole = Play::from_track(2, String::from("t"));
    assert_eq!(whole, Play::new(2, String::from("t"), None, None, true));
}

#[test]
fn simple_commands_new() {
    assert_eq!(Stop::new(3), Stop { op: Opcode::Stop, guild_id: 3 });
    assert_eq!(Pause::new(3, true), Pause { op: Opcode::Pause, guild_id: 3, pause: true });
    assert_eq!(Seek::new(3, -4), Seek { op: Opcode::Seek, guild_id: 3, position: -4 });
    assert_eq!(Volume::new(3, 100), Volume { op: Opcode::Volume, guild_id: 3, volume: 100 });
    assert_eq!(Destroy::new(3), Destroy { op: Opcode::Destroy, guild_id: 3 });
}

#[test]
fn filters_new() {
    let karaoke = Karaoke::new(num(1.0), num(2.0), num(3.0), num(4.0));
    let timescale = Timescale::new(num(1.5), num(0.5), num(2.0));
    let tremolo = Tremolo::new(num(2.0), num(0.5));
    let vibrato = Vibrato::new(num(3.0), num(0.25));
    let equalizer = Equalizer::new(vec![EqualizerBand::new(0, num(0.1))]);
    assert!(!karaoke.enabled && !timescale.enabled && !tremolo.enabled);
    assert!(!vibrato.enabled && !equalizer.enabled);
    assert_eq!(karaoke.filter_width, num(4.0));
    assert_eq!(timescale.rate, num(2.0));
    assert_eq!(tremolo.depth, num(0.5));
    assert_eq!(vibrato.frequency, num(3.0));
    assert_eq!(equalizer.bands, vec![EqualizerBand { band: 0, gain: num(0.1) }]);
    let filters = Filters::new(
        4,
        Some(karaoke),
        Some(timescale),
        None,
        Some(vibrato),
        Some(equalizer.clone()),
    );
    assert_eq!(filters.op, Opcode::Filters);
    assert_eq!(filters.guild_id, 4);
    assert_eq!(filters.karaoke, Some(karaoke));
    assert_eq!(filters.timescale, Some(timescale));
    assert_eq!(filters.tremolo, None);
    assert_eq!(filters.vibrato, Some(vibrato));
    assert_eq!(filters.equalizer, Some(equalizer));
}

#[test]
fn karaoke_from_level_uses_the_defaults() {
    let karaoke = Karaoke::from_level(num(0.5));
    assert_eq!(karaoke, Karaoke::new(num(0.5), num(1.0), num(220.0), num(100.0)));
}

#[test]
fn filters_state_new_is_all_zero() {
    let state = FiltersState::new();
    assert_eq!(state.karaoke, Karaoke::new(num(0.0), num(0.0), num(0.0), num(0.0)));
    assert_eq!(state.timescale, Timescale::new(num(0.0), num(0.0), num(0.0)));
    assert_eq!(state.tremolo, Tremolo::new(num(0.0), num(0.0)));
    assert_eq!(state.vibrato, Vibrato::new(num(0.0), num(0.0)));
    assert_eq!(state.equalizer, Equalizer::new(vec![]));
    assert_eq!(state.volume, None);
}

#[test]
fn filters_state_duplicate_copies_every_band() {
    let mut state = FiltersState::new();
    state.equalizer = Equalizer::new(vec![
        EqualizerBand::new(0, num(0.1)),
        EqualizerBand::new(1, num(-0.2)),
        EqualizerBand::new(2, num(0.3)),
    ]);
    state.equalizer.enabled = true;
    state.tremolo = Tremolo::new(num(9.0), num(1.0));
    assert_eq!(state.duplicate(), state);
}

#[test]
fn outgoing_event_names_its_guild_and_operation() {
    let events = vec![
        (OutgoingEvent::Play(Play::from_track(1, String::new())), Opcode::Play),
        (OutgoingEvent::Stop(Stop::new(1)), Opcode::Stop),
        (OutgoingEvent::Pause(Pause::new(1, false)), Opcode::Pause),
        (OutgoingEvent::Seek(Seek::new(1, 0)), Opcode::Seek),
        (OutgoingEvent::Volume(Volume::new(1, 0)), Opcode::Volume),
        (OutgoingEvent::Filters(Filters::new(1, None, None, None, None, None)), Opcode::Filters),
        (OutgoingEvent::Destroy(Destroy::new(1)), Opcode::Destroy),
        (
            OutgoingEvent::VoiceUpdate(VoiceUpdate::new(
                1,
                String::new(),
                SlimVoiceServerUpdate::new(None, String::new()),
            )),
            Opcode::VoiceUpdate,
        ),
    ];
    for (event, op) in events {
        assert_eq!(event.guild_id(), 1);
        assert_eq!(event.op(), op);
    }
}

#[test]
fn load_track_encodes_the_identifier() {
    let request = load_track("127.0.0.1:2333", "foo bar?", "secret").unwrap();
    assert_eq!(request.url, "http://127.0.0.1:2333/loadtracks?identifier=foo%20bar%3F");
    assert_eq!(request.authorization, "secret");
}

#[test]
fn load_track_encodes_every_byte_that_is_no_letter_or_digit() {
    let request = load_track("[::1]:80", "ytsearch:Az09_-\u{e9}", "").unwrap();
    assert_eq!(
        request.url,
        "http://[::1]:80/loadtracks?identifier=ytsearch%3AAz09%5F%2D%C3%A9"
    );
    assert_eq!(load_track("h", "", "a").unwrap().url, "http://h/loadtracks?identifier=");
}

#[test]
fn track_search_url_keeps_letters_and_digits() {
    assert_eq!(track_search_url("n:1", "abcXYZ019"), "http://n:1/loadtracks?identifier=abcXYZ019");
    assert_eq!(track_search_url("n:1", "/\u{0}\u{ff}"), "http://n:1/loadtracks?identifier=%2F%00%C3%BF");
}

#[test]
fn commands_convert_from_their_parts() {
    assert_eq!(Stop::from(3), Stop::new(3));
    assert_eq!(Destroy::from(3), Destroy::new(3));
    assert_eq!(Pause::from((3, true)), Pause::new(3, true));
    assert_eq!(Seek::from((3, 9)), Seek::new(3, 9));
    assert_eq!(Volume::from((3, 9)), Volume::new(3, 9));
    let t = String::from("t");
    assert_eq!(Play::from((3, t.clone())), Play::new(3, t.clone(), None, None, true));
    assert_eq!(Play::from((3, t.clone(), Some(1))), Play::new(3, t.clone(), Some(1), None, true));
    assert_eq!(
        Play::from((3, t.clone(), Some(1), Some(2))),
        Play::new(3, t.clone(), Some(1), Some(2), true)
    );
    assert_eq!(
        Play::from((3, t.clone(), None, Some(2), false)),
        Play::new(3, t.clone(), None, Some(2), false)
    );
    let slim = SlimVoiceServerUpdate::new(None, String::from("k"));
    assert_eq!(
        VoiceUpdate::from((3, t.clone(), slim.clone())),
        VoiceUpdate::new(3, t.clone(), slim)
    );
    assert_eq!(Karaoke::from(num(0.5)), Karaoke::from_level(num(0.5)));
    assert_eq!(
        Karaoke::from((num(1.0), num(2.0), num(3.0), num(4.0))),
        Karaoke::new(num(1.0), num(2.0), num(3.0), num(4.0))
    );
    assert_eq!(Timescale::from((num(1.0), num(2.0), num(3.0))), Timescale::new(num(1.0), num(2.0), num(3.0)));
    assert_eq!(Tremolo::from((num(1.0), num(2.0))), Tremolo::new(num(1.0), num(2.0)));
    assert_eq!(Vibrato::from((num(1.0), num(2.0))), Vibrato::new(num(1.0), num(2.0)));
    assert_eq!(EqualizerBand::from((2, num(0.5))), EqualizerBand::new(2, num(0.5)));
    let bands = vec![EqualizerBand::new(2, num(0.5))];
    assert_eq!(Equalizer::from(bands.clone()), Equalizer::new(bands));
    assert_eq!(
        Filters::from((3, None, None, Some(Tremolo::new(num(1.0), num(2.0))), None, None)),
        Filters::new(3, None, None, Some(Tremolo::new(num(1.0), num(2.0))), None, None)
    );
}

#[test]
fn events_convert_from_their_commands() {
    assert_eq!(OutgoingEvent::from(Stop::new(1)), OutgoingEvent::Stop(Stop::new(1)));
    assert_eq!(OutgoingEvent::from(Destroy::new(1)), OutgoingEvent::Destroy(Destroy::new(1)));
    assert_eq!(OutgoingEvent::from(Pause::new(1, true)), OutgoingEvent::Pause(Pause::new(1, true)));
    assert_eq!(OutgoingEvent::from(Seek::new(1, 2)), OutgoingEvent::Seek(Seek::new(1, 2)));
    assert_eq!(OutgoingEvent::from(Volume::new(1, 2)), OutgoingEvent::Volume(Volume::new(1, 2)));
    let play = Play::from_track(1, String::from("t"));
    assert_eq!(OutgoingEvent::from(play.clone()), OutgoingEvent::Play(play));
    let filters = Filters::new(1, None, None, None, None, None);
    assert_eq!(OutgoingEvent::from(filters.clone()), OutgoingEvent::Filters(filters));
    let voice = VoiceUpdate::new(1, String::new(), SlimVoiceServerUpdate::new(None, String::new()));
    assert_eq!(OutgoingEvent::from(voice.clone()), OutgoingEvent::VoiceUpdate(voice));
}

#[test]
fn load_track_rejects_a_credential_with_control_characters() {
    assert_eq!(load_track("h", "x", "line\nbreak"), Err(InvalidAuthorization));
    assert_eq!(load_track("h", "x", "del\u{7f}"), Err(InvalidAuthorization));
    assert!(load_track("h", "x", "tab\tand space and \u{e9}").is_ok());
}

#[test]
fn connection_reads_frames_only_while_connected() {
    let mut c = Connection::new(true);
    assert_eq!(c.step(ConnectionEvent::FrameReceived), ConnectionAction::Nothing);
    c.step(ConnectionEvent::HandshakeSucceeded);
    assert_eq!(c.step(ConnectionEvent::FrameReceived), ConnectionAction::ProcessFrame);
    assert_eq!(c.step(ConnectionEvent::FrameMalformed), ConnectionAction::DiscardFrame);
    assert_eq!(c.state(), ConnectionState::Connected);
    c.step(ConnectionEvent::TransportFailed);
    assert_eq!(c.step(ConnectionEvent::FrameReceived), ConnectionAction::Nothing);
    assert_eq!(c.step(ConnectionEvent::FrameMalformed), ConnectionAction::Nothing);
    assert_eq!(c.state(), ConnectionState::Disconnected);
}

#[test]
fn connection_connects_and_writes_commands() {
    let mut c = Connection::new(true);
    assert_eq!(c.state(), ConnectionState::Connecting);
    assert_eq!(c.step(ConnectionEvent::CommandReady), ConnectionAction::DropCommand);
    assert_eq!(c.step(ConnectionEvent::HandshakeSucceeded), ConnectionAction::StartDuties);
    assert_eq!(c.state(), ConnectionState::Connected);
    assert_eq!(c.step(ConnectionEvent::CommandReady), ConnectionAction::WriteCommand);
    assert_eq!(c.step(ConnectionEvent::HandshakeFailed), ConnectionAction::Nothing);
    assert_eq!(c.state(), ConnectionState::Connected);
}

#[test]
fn connection_fails_when_the_first_handshake_fails() {
    let mut c = Connection::new(true);
    assert_eq!(c.step(ConnectionEvent::HandshakeFailed), ConnectionAction::Shutdown);
    assert_eq!(c.state(), ConnectionState::Closed);
    assert_eq!(c.step(ConnectionEvent::HandshakeSucceeded), ConnectionAction::Nothing);
    assert_eq!(c.state(), ConnectionState::Closed);
}

#[test]
fn connection_drops_unsent_commands_and_reconnects() {
    let mut c = Connection::new(true);
    c.step(ConnectionEvent::HandshakeSucceeded);
    c.set_resume_token(true);
    assert_eq!(c.step(ConnectionEvent::TransportFailed), ConnectionAction::DiscardQueue);
    assert_eq!(c.state(), ConnectionState::Disconnected);
    assert_eq!(c.step(ConnectionEvent::CommandReady), ConnectionAction::DropCommand);
    assert_eq!(
        c.step(ConnectionEvent::QueueDiscarded),
        ConnectionAction::Handshake { resume: true }
    );
    assert_eq!(c.state(), ConnectionState::Reconnecting);
    assert_eq!(c.step(ConnectionEvent::CommandReady), ConnectionAction::DropCommand);
    assert_eq!(
        c.step(ConnectionEvent::HandshakeFailed),
        ConnectionAction::Handshake { resume: true }
    );
    assert_eq!(c.state(), ConnectionState::Reconnecting);
    assert_eq!(c.step(ConnectionEvent::HandshakeSucceeded), ConnectionAction::StartDuties);
    assert_eq!(c.state(), ConnectionState::Connected);
    assert_eq!(c.step(ConnectionEvent::CommandReady), ConnectionAction::WriteCommand);
}

#[test]
fn connection_without_resume_token_asks_for_a_fresh_session() {
    let mut c = Connection::new(true);
    c.step(ConnectionEvent::HandshakeSucceeded);
    c.step(ConnectionEvent::TransportFailed);
    assert_eq!(
        c.step(ConnectionEvent::QueueDiscarded),
        ConnectionAction::Handshake { resume: false }
    );
}

#[test]
fn connection_closes_when_reconnection_is_off() {
    let mut c = Connection::new(false);
    c.step(ConnectionEvent::HandshakeSucceeded);
    assert_eq!(c.step(ConnectionEvent::TransportFailed), ConnectionAction::DiscardQueue);
    assert_eq!(c.step(ConnectionEvent::QueueDiscarded), ConnectionAction::Shutdown);
    assert_eq!(c.state(), ConnectionState::Closed);
}

#[test]
fn connection_closes_on_removal_from_every_state() {
    let states = [
        ConnectionState::Connecting,
        ConnectionState::Connected,
        ConnectionState::Disconnected,
        ConnectionState::Reconnecting,
    ];
    for state in states {
        let mut c = Connection { state, reconnect: true, has_resume_token: true };
        assert_eq!(c.step(ConnectionEvent::Removed), ConnectionAction::Shutdown);
        assert_eq!(c.state(), ConnectionState::Closed);
        assert_eq!(c.step(ConnectionEvent::Removed), ConnectionAction::Nothing);
        assert_eq!(c.step(ConnectionEvent::CommandReady), ConnectionAction::Nothing);
        assert_eq!(c.state(), ConnectionState::Closed);
    }
}
