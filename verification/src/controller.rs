//! The playback controller's state machine.
//!
//! The controller owns the lifecycle of a playback session — fetcher task,
//! decoder task, sample buffer, audio stream — as one unit. It is written as
//! a step function from state and command to next state and action: the
//! surrounding runtime performs the action (spawn the tasks, cancel them,
//! store the volume) and the state records which resources are live, so that
//! leaks are visible in the model. Commands are handled one at a time, in the
//! order they were issued.

use vstd::prelude::*;

verus! {

/// External control commands, delivered to the controller in issue order.
#[derive(Clone, Copy, PartialEq, Eq, Structural, Debug)]
pub enum PlayerControl {
    /// Set the shared volume percentage.
    Volume(u8),
    /// Start a playback session if none is running.
    Play,
    /// Tear the running session down.
    Pause,
}

/// Whether a playback session is live.
#[derive(Clone, Copy, PartialEq, Eq, Structural, Debug)]
pub enum ControllerState {
    /// No session: nothing fetches, decodes or plays.
    Idle,
    /// A session is running.
    Active,
}

/// What the runtime must do after a command was handled.
#[derive(Clone, Copy, PartialEq, Eq, Structural, Debug)]
pub enum ControllerAction {
    /// Spawn the fetcher and decoder, allocate a fresh sample buffer, and
    /// register and start the audio stream at the carried volume.
    StartSession(u8),
    /// Cancel both tasks — even mid-wait — and stop and release the audio
    /// stream; the sample buffer is discarded with them.
    StopSession,
    /// Store the carried volume where the audio callback reads it.
    SetVolume(u8),
    /// Nothing to do.
    Stay,
}

/// The controller's state: whether a session is live, the volume that
/// persists across sessions, and an account of the resources the runtime
/// holds on the controller's behalf.
#[derive(Clone, Copy, PartialEq, Eq, Structural, Debug)]
pub struct Controller {
    /// Session state.
    pub state: ControllerState,
    /// Volume percentage, 0 to 100; read by the audio callback, written only
    /// here; outlives sessions.
    pub volume: u8,
    /// Whether a fetcher task is live.
    pub fetcher_live: bool,
    /// Whether a decoder task is live.
    pub decoder_live: bool,
    /// Whether an audio stream is registered with the device.
    pub device_registered: bool,
}

/// A command the controller accepts: volume is a percentage.
pub open spec fn cmd_wf(cmd: PlayerControl) -> bool {
    match cmd {
        PlayerControl::Volume(v) => v <= 100,
        _ => true,
    }
}

impl Controller {
    /// The controller's invariant: volume is a percentage, and the fetcher,
    /// the decoder and the audio stream are live exactly while a session is.
    pub open spec fn wf(&self) -> bool {
        &&& self.volume <= 100
        &&& (self.fetcher_live <==> self.state is Active)
        &&& (self.decoder_live <==> self.state is Active)
        &&& (self.device_registered <==> self.state is Active)
    }

    /// A fresh controller: idle, nothing live, at the given volume.
    pub fn new(volume: u8) -> (c: Controller)
        requires
            volume <= 100,
        ensures
            c.wf(),
            c == (Controller {
                state: ControllerState::Idle,
                volume,
                fetcher_live: false,
                decoder_live: false,
                device_registered: false,
            }),
    {
        Controller {
            state: ControllerState::Idle,
            volume,
            fetcher_live: false,
            decoder_live: false,
            device_registered: false,
        }
    }

    /// Handles one control command: steps the state machine and returns the
    /// action the runtime must perform. Play while a session runs and pause
    /// without one are no-ops.
    pub fn handle(&mut self, cmd: PlayerControl) -> (a: ControllerAction)
        requires
            old(self).wf(),
            cmd_wf(cmd),
        ensures
            final(self).wf(),
            *final(self) == step_state(*old(self), cmd),
            a == step_action(*old(self), cmd),
    {
        match cmd {
            PlayerControl::Volume(v) => {
                self.volume = v;
                ControllerAction::SetVolume(v)
            },
            PlayerControl::Play => {
                if matches!(self.state, ControllerState::Idle) {
                    self.state = ControllerState::Active;
                    self.fetcher_live = true;
                    self.decoder_live = true;
                    self.device_registered = true;
                    ControllerAction::StartSession(self.volume)
                } else {
                    ControllerAction::Stay
                }
            },
            PlayerControl::Pause => {
                if matches!(self.state, ControllerState::Active) {
                    self.state = ControllerState::Idle;
                    self.fetcher_live = false;
                    self.decoder_live = false;
                    self.device_registered = false;
                    ControllerAction::StopSession
                } else {
                    ControllerAction::Stay
                }
            },
        }
    }

    /// An unrecoverable failure while a session is live — the fetch dropped,
    /// the decode ended, or the audio stream could not be started — is an
    /// implicit pause: the session is torn down in full and the controller
    /// returns to idle. It does not restart by itself; only an explicit play
    /// command does.
    pub fn session_failed(&mut self) -> (a: ControllerAction)
        requires
            old(self).wf(),
        ensures
            final(self).wf(),
            *final(self) == step_state(*old(self), PlayerControl::Pause),
            a == step_action(*old(self), PlayerControl::Pause),
    {
        self.handle(PlayerControl::Pause)
    }
}

/// The state after handling `cmd` in state `c`.
pub open spec fn step_state(c: Controller, cmd: PlayerControl) -> Controller {
    match cmd {
        PlayerControl::Volume(v) => Controller { volume: v, ..c },
        PlayerControl::Play => if c.state is Idle {
            Controller {
                state: ControllerState::Active,
                fetcher_live: true,
                decoder_live: true,
                device_registered: true,
                ..c
            }
        } else {
            c
        },
        PlayerControl::Pause => if c.state is Active {
            Controller {
                state: ControllerState::Idle,
                fetcher_live: false,
                decoder_live: false,
                device_registered: false,
                ..c
            }
        } else {
            c
        },
    }
}

/// The action the runtime performs after `cmd` is handled in state `c`.
pub open spec fn step_action(c: Controller, cmd: PlayerControl) -> ControllerAction {
    match cmd {
        PlayerControl::Volume(v) => ControllerAction::SetVolume(v),
        PlayerControl::Play => if c.state is Idle {
            ControllerAction::StartSession(c.volume)
        } else {
            ControllerAction::Stay
        },
        PlayerControl::Pause => if c.state is Active {
            ControllerAction::StopSession
        } else {
            ControllerAction::Stay
        },
    }
}

/// Every accepted command preserves the controller's invariant, so in every
/// reachable state the tasks and the device are live exactly while a session
/// is.
pub proof fn lemma_step_preserves_wf(c: Controller, cmd: PlayerControl)
    requires
        c.wf(),
        cmd_wf(cmd),
    ensures
        step_state(c, cmd).wf(),
{
}

/// Play then pause, from idle, round-trips: the session becomes live with
/// the persisting volume, and afterwards the controller is exactly its
/// starting state again — in particular the fetcher, the decoder and the
/// audio stream are all confirmed gone, so nothing leaks.
pub proof fn lemma_play_pause_round_trip(c: Controller)
    requires
        c.wf(),
        c.state is Idle,
    ensures
        step_state(c, PlayerControl::Play).state is Active,
        step_action(c, PlayerControl::Play) == ControllerAction::StartSession(c.volume),
        step_action(step_state(c, PlayerControl::Play), PlayerControl::Pause)
            == ControllerAction::StopSession,
        step_state(step_state(c, PlayerControl::Play), PlayerControl::Pause) == c,
        !step_state(step_state(c, PlayerControl::Play), PlayerControl::Pause).fetcher_live,
        !step_state(step_state(c, PlayerControl::Play), PlayerControl::Pause).decoder_live,
        !step_state(step_state(c, PlayerControl::Play), PlayerControl::Pause).device_registered,
{
}

/// Play while a session runs and pause without one change nothing and ask
/// nothing of the runtime.
pub proof fn lemma_redundant_commands_are_noops(c: Controller)
    requires
        c.wf(),
    ensures
        c.state is Active ==> step_state(c, PlayerControl::Play) == c,
        c.state is Active ==> step_action(c, PlayerControl::Play) == ControllerAction::Stay,
        c.state is Idle ==> step_state(c, PlayerControl::Pause) == c,
        c.state is Idle ==> step_action(c, PlayerControl::Pause) == ControllerAction::Stay,
{
}

} // verus!
