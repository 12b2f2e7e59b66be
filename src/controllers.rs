//! The bridge through which OS media controls drive the playback thread.
use vstd::prelude::*;
use std::sync::mpsc::Sender;
use crate::channel::send;

verus! {

/// How playback repeats.
#[derive(Debug, PartialEq, Eq, Clone, Copy, Structural)]
pub enum RepeatState {
    NotRepeating,
    Repeating,
    RepeatingOne,
}

/// Commands to the playback thread that media controls can issue.
#[derive(Debug, PartialEq, Eq, Clone, Copy, Structural)]
pub enum PlaybackCommand {
    Play,
    Pause,
    Stop,
    Next,
    Previous,
    Jump(usize),
    ToggleShuffle,
    SetRepeat(RepeatState),
}

/// A cloneable handle that sends playback commands. Each method sends one
/// command; when the playback thread is gone the command comes back as the
/// error.
#[derive(Clone)]
pub struct ControllerBridge {
    playback_thread: Sender<PlaybackCommand>,
}

impl ControllerBridge {
    /// The channel the commands go to.
    pub closed spec fn sender(&self) -> Sender<PlaybackCommand> {
        self.playback_thread
    }

    /// A bridge over the playback thread's command channel.
    pub fn new(playback_thread: Sender<PlaybackCommand>) -> (r: ControllerBridge)
        ensures
            r.sender() == playback_thread,
    {
        ControllerBridge { playback_thread }
    }

    /// Sends `Play`.
    pub fn play(&self) -> (r: Result<(), PlaybackCommand>)
        ensures
            r matches Err(c) ==> c == PlaybackCommand::Play,
    {
        send(&self.playback_thread, PlaybackCommand::Play)
    }

    /// Sends `Pause`.
    pub fn pause(&self) -> (r: Result<(), PlaybackCommand>)
        ensures
            r matches Err(c) ==> c == PlaybackCommand::Pause,
    {
        send(&self.playback_thread, PlaybackCommand::Pause)
    }

    /// Sends `Stop`.
    pub fn stop(&self) -> (r: Result<(), PlaybackCommand>)
        ensures
            r matches Err(c) ==> c == PlaybackCommand::Stop,
    {
        send(&self.playback_thread, PlaybackCommand::Stop)
    }

    /// Sends `Next`.
    pub fn next(&self) -> (r: Result<(), PlaybackCommand>)
        ensures
            r matches Err(c) ==> c == PlaybackCommand::Next,
    {
        send(&self.playback_thread, PlaybackCommand::Next)
    }

    /// Sends `Previous`.
    pub fn previous(&self) -> (r: Result<(), PlaybackCommand>)
        ensures
            r matches Err(c) ==> c == PlaybackCommand::Previous,
    {
        send(&self.playback_thread, PlaybackCommand::Previous)
    }

    /// Sends `Jump` to the queue position `index`.
    pub fn jump(&self, index: usize) -> (r: Result<(), PlaybackCommand>)
        ensures
            r matches Err(c) ==> c == PlaybackCommand::Jump(index),
    {
        send(&self.playback_thread, PlaybackCommand::Jump(index))
    }

    /// Sends `ToggleShuffle`.
    pub fn toggle_shuffle(&self) -> (r: Result<(), PlaybackCommand>)
        ensures
            r matches Err(c) ==> c == PlaybackCommand::ToggleShuffle,
    {
        send(&self.playback_thread, PlaybackCommand::ToggleShuffle)
    }

    /// Sends `SetRepeat` with `repeat`.
    pub fn set_repeat(&self, repeat: RepeatState) -> (r: Result<(), PlaybackCommand>)
        ensures
            r matches Err(c) ==> c == PlaybackCommand::SetRepeat(repeat),
    {
        send(&self.playback_thread, PlaybackCommand::SetRepeat(repeat))
    }
}

} // verus!
