use radio_player::player::{
    actor_step, cap_volume, gain_ratio, ActorAction, ActorState, Player, PlayerError,
    PlayerMessage, MAX_VOLUME,
};
use std::sync::mpsc;

#[test]
fn volume_levels_map_to_exact_gain() {
    for v in 0u8..=9 {
        assert_eq!(cap_volume(v), v);
        let (num, den) = gain_ratio(v);
        assert_eq!((num, den), (v, 9));
        let gain = num as f32 / den as f32;
        assert_eq!(gain, v as f32 / 9.0);
    }
    assert_eq!(gain_ratio(0), (0, 9));
    assert_eq!(gain_ratio(9), (9, 9));
    assert_eq!(gain_ratio(9).0 as f32 / gain_ratio(9).1 as f32, 1.0);
}

#[test]
fn volume_above_top_step_is_clamped() {
    for v in [10u8, 11, 100, 255] {
        assert_eq!(cap_volume(v), MAX_VOLUME);
        assert_eq!(gain_ratio(v), (MAX_VOLUME, MAX_VOLUME));
    }
}

#[test]
fn handle_starts_at_full_volume() {
    let (sender, _receiver) = mpsc::channel();
    let player = Player::new(sender);
    assert_eq!(player.volume(), MAX_VOLUME);
}

#[test]
fn set_volume_caches_clamped_level() {
    let (sender, _receiver) = mpsc::channel();
    let mut player = Player::new(sender);
    assert!(player.set_volume(4).is_ok());
    assert_eq!(player.volume(), 4);
    assert!(player.set_volume(200).is_ok());
    assert_eq!(player.volume(), 9);
}

#[test]
fn play_enqueues_url_at_cached_volume() {
    let (sender, receiver) = mpsc::channel();
    let mut player = Player::new(sender);
    player.set_volume(3).unwrap();
    player.play("http://radio.example/stream").unwrap();
    match receiver.recv().unwrap() {
        PlayerMessage::Volume { volume } => assert_eq!(volume, 3),
        _ => panic!("expected a volume command first"),
    }
    match receiver.recv().unwrap() {
        PlayerMessage::Play { listen_url, volume } => {
            assert_eq!(listen_url, "http://radio.example/stream");
            assert_eq!(volume, 3);
        }
        _ => panic!("expected a play command"),
    }
}

#[test]
fn closed_channel_is_reported_not_panicked() {
    let (sender, receiver) = mpsc::channel();
    let mut player = Player::new(sender);
    drop(receiver);
    assert_eq!(player.play("http://radio.example/a"), Err(PlayerError::ChannelClosed));
    assert_eq!(player.set_volume(2), Err(PlayerError::ChannelClosed));
    assert_eq!(player.volume(), 2);
}

#[test]
fn play_supersedes_previous_stream() {
    let idle = ActorState { listen_url: None, volume: MAX_VOLUME };
    let (playing_a, action_a) = actor_step(
        idle,
        PlayerMessage::Play { listen_url: "http://a".to_string(), volume: 5 },
    );
    assert_eq!(action_a, ActorAction::StartStream);
    assert_eq!(playing_a.listen_url.as_deref(), Some("http://a"));
    assert_eq!(playing_a.volume, 5);

    let (playing_b, action_b) = actor_step(
        playing_a,
        PlayerMessage::Play { listen_url: "http://b".to_string(), volume: 5 },
    );
    assert_eq!(action_b, ActorAction::StartStream);
    assert_eq!(playing_b.listen_url.as_deref(), Some("http://b"));
}

#[test]
fn volume_command_keeps_pipeline() {
    let playing = ActorState { listen_url: Some("http://a".to_string()), volume: 5 };
    let (next, action) = actor_step(playing, PlayerMessage::Volume { volume: 8 });
    assert_eq!(action, ActorAction::AdjustGain);
    assert_eq!(next.listen_url.as_deref(), Some("http://a"));
    assert_eq!(next.volume, 8);
}

#[test]
fn volume_while_idle_touches_no_pipeline() {
    let idle = ActorState { listen_url: None, volume: 9 };
    let (next, action) = actor_step(idle, PlayerMessage::Volume { volume: 1 });
    assert_eq!(action, ActorAction::Ignore);
    assert_eq!(next.listen_url, None);
    assert_eq!(next.volume, 1);
}

#[test]
fn stop_goes_idle_and_keeps_volume() {
    let playing = ActorState { listen_url: Some("http://a".to_string()), volume: 4 };
    let (next, action) = actor_step(playing, PlayerMessage::Stop);
    assert_eq!(action, ActorAction::StopStream);
    assert_eq!(next.listen_url, None);
    assert_eq!(next.volume, 4);
}

#[test]
fn stop_sends_the_stop_command() {
    let (sender, receiver) = mpsc::channel();
    let player = Player::new(sender);
    player.stop().unwrap();
    assert!(matches!(receiver.recv().unwrap(), PlayerMessage::Stop));
    let (sender2, receiver2) = mpsc::channel();
    let player2 = Player::new(sender2);
    drop(receiver2);
    assert_eq!(player2.stop(), Err(PlayerError::ChannelClosed));
}

#[test]
fn drained_commands_leave_last_play_and_volume() {
    let (sender, receiver) = mpsc::channel();
    let mut player = Player::new(sender);
    player.set_volume(5).unwrap();
    player.play("http://a").unwrap();
    player.stop().unwrap();
    player.play("http://b").unwrap();
    player.set_volume(7).unwrap();
    player.set_volume(2).unwrap();

    let mut state = ActorState { listen_url: None, volume: MAX_VOLUME };
    let mut starts = Vec::new();
    while let Ok(message) = receiver.try_recv() {
        let (next, action) = actor_step(state, message);
        state = next;
        if action == ActorAction::StartStream {
            starts.push(state.listen_url.clone().unwrap());
        }
    }
    assert_eq!(starts, vec!["http://a".to_string(), "http://b".to_string()]);
    assert_eq!(state.listen_url.as_deref(), Some("http://b"));
    assert_eq!(state.volume, 2);
}
