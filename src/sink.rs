use vstd::prelude::*;

verus! {

/// An instruction for the audio output, recorded by the engine and carried
/// out, in order, by whoever owns the device.
#[derive(Clone, Debug, PartialEq, Eq)]
pub enum SinkCommand {
    /// Resume output (harmless when already playing).
    Play,
    /// Pause output.
    Pause,
    /// Halt output (harmless when already halted).
    Stop,
    /// Release the current output and start a fresh one-shot output on the file at this path.
    Replace(String),
    /// Rebuild the device, stream and output, keep the volume that was set,
    /// and queue the decoded file at this path on it.
    Reload(String),
}

/// A [`SinkCommand`] with its path seen as a character sequence.
pub ghost enum Command {
    Play,
    Pause,
    Stop,
    Replace(Seq<char>),
    Reload(Seq<char>),
}

impl View for SinkCommand {
    type V = Command;

    open spec fn view(&self) -> Command {
        match self {
            SinkCommand::Play => Command::Play,
            SinkCommand::Pause => Command::Pause,
            SinkCommand::Stop => Command::Stop,
            SinkCommand::Replace(p) => Command::Replace(p@),
            SinkCommand::Reload(p) => Command::Reload(p@),
        }
    }
}

/// The commands of a vector, in order.
pub open spec fn commands_of(v: Seq<SinkCommand>) -> Seq<Command> {
    v.map_values(|c: SinkCommand| c@)
}

} // verus!
