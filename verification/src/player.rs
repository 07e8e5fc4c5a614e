//! The player's control surface and its actor: volume levels, the commands a
//! handle enqueues, and the state machine the playback worker runs.
//!
//! The handle (`Player`) lives on the callers' side of a command channel; the
//! worker that owns the audio device drains the channel and applies
//! `actor_step` to each message. Everything that decides what the worker does
//! is here, verified; the channel, the network connection and the audio sink
//! are the unverified edge.

use vstd::prelude::*;

verus! {

/// The loudest discrete volume step; levels run from 0 to this value.
pub const MAX_VOLUME: u8 = 9;

/// A requested volume level clamped to the valid range of steps.
pub open spec fn cap_volume_spec(volume: u8) -> u8 {
    if volume <= MAX_VOLUME {
        volume
    } else {
        MAX_VOLUME
    }
}

/// Cap a requested volume to a level between 0 and `MAX_VOLUME`.
pub fn cap_volume(volume: u8) -> (r: u8)
    ensures
        r == cap_volume_spec(volume),
{
    if volume > MAX_VOLUME {
        MAX_VOLUME
    } else {
        volume
    }
}

/// The sink gain for a volume level, as the exact fraction
/// `numerator / denominator`: level 0 is silent, level `MAX_VOLUME` is full
/// gain. The caller that owns the sink divides the two.
pub fn gain_ratio(volume: u8) -> (r: (u8, u8))
    ensures
        r.0 == cap_volume_spec(volume),
        r.1 == MAX_VOLUME,
{
    (cap_volume(volume), MAX_VOLUME)
}

/// Law: for every level `v` up to `MAX_VOLUME` the gain is exactly
/// `v / MAX_VOLUME`, and every level above it is clamped to full gain.
pub proof fn lemma_volume_gain(v: u8)
    ensures
        v <= MAX_VOLUME ==> cap_volume_spec(v) == v,
        v > MAX_VOLUME ==> cap_volume_spec(v) == MAX_VOLUME,
        cap_volume_spec(v) <= MAX_VOLUME,
{
}

/// What can go wrong around playback. Only a missing output device is ever
/// reported synchronously; the rest surface from the worker or from a closed
/// channel.
#[derive(Clone, Copy, PartialEq, Eq, Structural, Debug)]
pub enum PlayerError {
    /// No audio output device could be opened.
    DeviceUnavailable,
    /// Opening or reading the stream's network connection failed.
    ConnectionFailed,
    /// The stream's bytes could not be decoded.
    DecodeFailed,
    /// The worker is gone: the command channel has no receiver any more.
    ChannelClosed,
}

/// A command sent from any caller thread to the playback worker. Commands are
/// consumed strictly in the order they were sent by one producer.
pub enum PlayerMessage {
    /// Tear down whatever plays and start streaming `listen_url` at `volume`.
    Play { listen_url: String, volume: u8 },
    /// Change the gain of the current sink; never rebuilds the pipeline.
    Volume { volume: u8 },
    /// Tear down the pipeline and go idle; the output device stays open so
    /// the next `Play` starts without delay.
    Stop,
}

#[verifier::external_type_specification]
#[verifier::external_body]
#[verifier::reject_recursive_types(T)]
pub struct ExSender<T>(std::sync::mpsc::Sender<T>);

/// Relies on `std::sync::mpsc::Sender::send`: it never blocks (the channel is
/// unbounded) and fails exactly when the receiving end has been dropped.
#[verifier::external_body]
fn send_message(sender: &std::sync::mpsc::Sender<PlayerMessage>, message: PlayerMessage) -> (r: bool) {
    sender.send(message).is_ok()
}

/// The caller-facing handle: a command-channel sender plus a cached copy of
/// the last requested volume. The cache is what `play` stamps into its
/// command; the authoritative state lives with the worker.
pub struct Player {
    sender: std::sync::mpsc::Sender<PlayerMessage>,
    volume: u8,
}

impl Player {
    /// The handle's cached volume level.
    pub closed spec fn spec_volume(self) -> u8 {
        self.volume
    }

    /// The cached volume is always a valid level.
    pub open spec fn wf(self) -> bool {
        self.spec_volume() <= MAX_VOLUME
    }

    /// Wrap the sending half of a command channel whose receiving half the
    /// playback worker drains. The handle starts at full volume.
    pub fn new(sender: std::sync::mpsc::Sender<PlayerMessage>) -> (r: Player)
        ensures
            r.spec_volume() == MAX_VOLUME,
            r.wf(),
    {
        Player { sender, volume: MAX_VOLUME }
    }

    /// The last volume level this handle requested.
    pub fn volume(&self) -> (r: u8)
        ensures
            r == self.spec_volume(),
    {
        self.volume
    }

    /// The command `play` enqueues: start `listen_url` at the handle's cached
    /// volume.
    pub fn play_message(&self, listen_url: String) -> (m: PlayerMessage)
        ensures
            m == (PlayerMessage::Play { listen_url, volume: self.spec_volume() }),
    {
        PlayerMessage::Play { listen_url, volume: self.volume }
    }

    /// The command `set_volume` enqueues after the handle's cache was
    /// updated: adjust the gain to the cached level.
    pub fn volume_message(&self) -> (m: PlayerMessage)
        ensures
            m == (PlayerMessage::Volume { volume: self.spec_volume() }),
    {
        PlayerMessage::Volume { volume: self.volume }
    }

    /// Ask the worker to play the stream at `listen_url`, at the volume this
    /// handle last requested. Non-blocking; it fails only when the worker is
    /// gone.
    pub fn play(&self, listen_url: &str) -> (r: Result<(), PlayerError>)
        ensures
            r matches Err(e) ==> e == PlayerError::ChannelClosed,
    {
        let message = self.play_message(listen_url.to_owned());
        if send_message(&self.sender, message) {
            Ok(())
        } else {
            Err(PlayerError::ChannelClosed)
        }
    }

    /// Ask the worker to silence and drop the current pipeline, keeping the
    /// output device warm for the next `play`. Non-blocking; it fails only
    /// when the worker is gone.
    pub fn stop(&self) -> (r: Result<(), PlayerError>)
        ensures
            r matches Err(e) ==> e == PlayerError::ChannelClosed,
    {
        if send_message(&self.sender, PlayerMessage::Stop) {
            Ok(())
        } else {
            Err(PlayerError::ChannelClosed)
        }
    }

    /// Cache the clamped level and ask the worker to adjust the sink's gain
    /// to it. Non-blocking; it fails only when the worker is gone, and the
    /// cache is updated even then.
    pub fn set_volume(&mut self, volume: u8) -> (r: Result<(), PlayerError>)
        ensures
            final(self).spec_volume() == cap_volume_spec(volume),
            final(self).wf(),
            r matches Err(e) ==> e == PlayerError::ChannelClosed,
    {
        self.volume = cap_volume(volume);
        let message = self.volume_message();
        if send_message(&self.sender, message) {
            Ok(())
        } else {
            Err(PlayerError::ChannelClosed)
        }
    }
}

/// The state the worker holds between commands: which stream is playing, if
/// any, and the volume of its sink.
pub struct ActorState {
    /// The URL of the stream now playing; `None` while idle.
    pub listen_url: Option<String>,
    /// The volume level of the current sink.
    pub volume: u8,
}

/// What the worker must do to its pipeline after applying one command.
#[derive(Clone, Copy, PartialEq, Eq, Structural, Debug)]
pub enum ActorAction {
    /// Drop the current pipeline, if any, and open connection, decoder and
    /// sink for the state's stream at the state's volume.
    StartStream,
    /// Set the current sink's gain from the state's volume; keep the
    /// pipeline.
    AdjustGain,
    /// Drop the current pipeline and render nothing; keep the device open.
    StopStream,
    /// Nothing to do to the pipeline: a volume command arrived while no sink
    /// exists, so the level is only recorded.
    Ignore,
}

/// One transition of the worker's state machine: what the state becomes and
/// what the worker must do to its pipeline.
pub open spec fn actor_step_spec(state: ActorState, message: PlayerMessage) -> (ActorState, ActorAction) {
    match message {
        PlayerMessage::Play { listen_url, volume } => (
            ActorState { listen_url: Some(listen_url), volume },
            ActorAction::StartStream,
        ),
        PlayerMessage::Volume { volume } => (
            ActorState { listen_url: state.listen_url, volume },
            if state.listen_url is Some {
                ActorAction::AdjustGain
            } else {
                ActorAction::Ignore
            },
        ),
        PlayerMessage::Stop => (
            ActorState { listen_url: None, volume: state.volume },
            ActorAction::StopStream,
        ),
    }
}

/// Apply one command to the worker's state: a `Play` supersedes whatever
/// plays and rebuilds the pipeline; a `Volume` only records the level and
/// adjusts the gain of the sink, if one exists; a `Stop` tears the pipeline
/// down and goes idle.
pub fn actor_step(state: ActorState, message: PlayerMessage) -> (r: (ActorState, ActorAction))
    ensures
        r == actor_step_spec(state, message),
{
    match message {
        PlayerMessage::Play { listen_url, volume } => (
            ActorState { listen_url: Some(listen_url), volume },
            ActorAction::StartStream,
        ),
        PlayerMessage::Volume { volume } => {
            let action = if state.listen_url.is_some() {
                ActorAction::AdjustGain
            } else {
                ActorAction::Ignore
            };
            (ActorState { listen_url: state.listen_url, volume }, action)
        },
        PlayerMessage::Stop => (
            ActorState { listen_url: None, volume: state.volume },
            ActorAction::StopStream,
        ),
    }
}

/// The state after a queue of commands has drained, applied strictly in
/// order.
pub open spec fn run_steps(state: ActorState, messages: Seq<PlayerMessage>) -> ActorState
    decreases messages.len(),
{
    if messages.len() == 0 {
        state
    } else {
        run_steps(actor_step_spec(state, messages[0]).0, messages.drop_first())
    }
}

/// The stream that is current after the commands drain: that of the last
/// `Play`, none after a later `Stop`, and the one already playing when
/// neither arrives.
pub open spec fn url_after(current: Option<String>, messages: Seq<PlayerMessage>) -> Option<String>
    decreases messages.len(),
{
    if messages.len() == 0 {
        current
    } else {
        match messages.last() {
            PlayerMessage::Play { listen_url, .. } => Some(listen_url),
            PlayerMessage::Volume { .. } => url_after(current, messages.drop_last()),
            PlayerMessage::Stop => None,
        }
    }
}

/// The volume level that is current after the commands drain: `Play` and
/// `Volume` both carry a level, so the last of them wins; `Stop` keeps it.
pub open spec fn volume_after(current: u8, messages: Seq<PlayerMessage>) -> u8
    decreases messages.len(),
{
    if messages.len() == 0 {
        current
    } else {
        match messages.last() {
            PlayerMessage::Play { volume, .. } => volume,
            PlayerMessage::Volume { volume } => volume,
            PlayerMessage::Stop => volume_after(current, messages.drop_last()),
        }
    }
}

/// Folding one more command is applying it to the drained state.
proof fn lemma_run_steps_snoc(state: ActorState, messages: Seq<PlayerMessage>, message: PlayerMessage)
    ensures
        run_steps(state, messages.push(message))
            == actor_step_spec(run_steps(state, messages), message).0,
    decreases messages.len(),
{
    let extended = messages.push(message);
    if messages.len() == 0 {
        assert(extended[0] == message);
        assert(extended.drop_first() =~= Seq::<PlayerMessage>::empty());
        assert(run_steps(state, extended)
            == run_steps(actor_step_spec(state, message).0, extended.drop_first()));
        assert(run_steps(actor_step_spec(state, message).0, extended.drop_first())
            == actor_step_spec(state, message).0);
        assert(run_steps(state, messages) == state);
    } else {
        assert(extended[0] == messages[0]);
        assert(extended.drop_first() =~= messages.drop_first().push(message));
        lemma_run_steps_snoc(actor_step_spec(state, messages[0]).0, messages.drop_first(), message);
    }
}

/// Law: after any queue of commands drains, applied strictly in order, the
/// worker's state shows exactly the most recently requested stream — none
/// after a final `Stop`, so audio of a superseded or stopped stream is never
/// current again — and the most recently requested volume level.
pub proof fn lemma_commands_drain(state: ActorState, messages: Seq<PlayerMessage>)
    ensures
        run_steps(state, messages).listen_url == url_after(state.listen_url, messages),
        run_steps(state, messages).volume == volume_after(state.volume, messages),
    decreases messages.len(),
{
    if messages.len() > 0 {
        let prefix = messages.drop_last();
        let last = messages.last();
        assert(prefix.push(last) =~= messages);
        lemma_run_steps_snoc(state, prefix, last);
        lemma_commands_drain(state, prefix);
    }
}

/// Law: a `Play` command always supersedes: whatever the state was, the next
/// state plays exactly the requested stream at the requested volume, and the
/// worker rebuilds the pipeline, discarding buffered audio of the old one.
pub proof fn lemma_play_supersedes(state: ActorState, listen_url: String, volume: u8)
    ensures
        actor_step_spec(state, PlayerMessage::Play { listen_url, volume })
            == (ActorState { listen_url: Some(listen_url), volume }, ActorAction::StartStream),
{
}

} // verus!
