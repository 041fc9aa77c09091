use vstd::prelude::*;
use crate::playlist::{base_name, Track};
use crate::sink::Command;
use crate::status::{played, PlayStatus};

verus! {

/// The abstract state of the playback engine.
pub ghost struct PlayerModel {
    /// The queue; the first track is the one playing.
    pub queue: Seq<Track>,
    /// Elapsed time shown for the first track, as of the last tick.
    pub current_time: u64,
    /// Duration shown for the first track, as of the last tick.
    pub total_time: u64,
    /// Whether the audio output is paused.
    pub output_paused: bool,
    /// Whether any track has ever been enqueued.
    pub initialized: bool,
    /// Plays that each newly enqueued track gets.
    pub repetition: i32,
    /// Commands for the audio output not yet handed out.
    pub commands: Seq<Command>,
}

/// The queue after the first track finished one play: it stays at the front
/// with one play less while it has more than one left, and leaves otherwise.
pub open spec fn advanced(q: Seq<Track>) -> Seq<Track>
    recommends
        q.len() > 0,
{
    if q[0].repetition > 1 {
        q.update(0, Track { repetition: (q[0].repetition - 1) as i32, ..q[0] })
    } else {
        q.drop_first()
    }
}

impl PlayerModel {
    /// The state of a new engine.
    pub open spec fn initial() -> PlayerModel {
        PlayerModel {
            queue: Seq::empty(),
            current_time: 0,
            total_time: 0,
            output_paused: false,
            initialized: false,
            repetition: 1,
            commands: Seq::empty(),
        }
    }

    /// Every play count is at least one.
    pub open spec fn wf(self) -> bool {
        &&& self.repetition >= 1
        &&& forall|i: int| 0 <= i < self.queue.len() ==> #[trigger] self.queue[i].repetition >= 1
    }

    /// Whether the output is actually producing sound.
    pub open spec fn is_playing(self) -> bool {
        self.initialized && !self.output_paused && self.queue.len() > 0
    }

    /// The same state with a command appended for the output.
    pub open spec fn issue(self, c: Command) -> PlayerModel {
        PlayerModel { commands: self.commands.push(c), ..self }
    }

    /// The same state with the first track's status replaced (if there is one).
    pub open spec fn with_front_status(self, s: PlayStatus) -> PlayerModel {
        if self.queue.len() == 0 {
            self
        } else {
            PlayerModel { queue: self.queue.update(0, Track { status: s, ..self.queue[0] }), ..self }
        }
    }

    /// Writing back the status the first track already has changes nothing.
    pub proof fn lemma_same_front_status(self)
        requires
            self.queue.len() > 0,
        ensures
            self.with_front_status(self.queue[0].status) == self,
    {
        assert(self.queue.update(0, Track { status: self.queue[0].status, ..self.queue[0] })
            =~= self.queue);
    }

    /// `play`: output resumes; the first track starts or resumes at `now`.
    pub open spec fn play(self, now: u64) -> PlayerModel {
        let m = PlayerModel { output_paused: false, ..self.issue(Command::Play) };
        if self.queue.len() == 0 {
            m
        } else {
            m.with_front_status(self.queue[0].status.resumed(now))
        }
    }

    /// `pause`: output pauses; a playing first track freezes its elapsed time.
    pub open spec fn pause(self, now: u64) -> PlayerModel {
        let m = PlayerModel { output_paused: true, ..self.issue(Command::Pause) };
        if self.queue.len() == 0 {
            m
        } else {
            m.with_front_status(self.queue[0].status.paused(now))
        }
    }

    /// `resume`: output resumes; only a paused first track changes.
    pub open spec fn resume(self, now: u64) -> PlayerModel {
        let m = PlayerModel { output_paused: false, ..self.issue(Command::Play) };
        if self.queue.len() == 0 {
            m
        } else {
            m.with_front_status(self.queue[0].status.unpaused(now))
        }
    }

    /// `stop`: output halts; no track changes.
    pub open spec fn stop(self) -> PlayerModel {
        self.issue(Command::Stop)
    }

    /// `next`: the queue advances, output halts, and if a track is left it is
    /// loaded on a rebuilt output and played. Nothing happens on an empty queue.
    pub open spec fn next(self, now: u64) -> PlayerModel {
        if self.queue.len() == 0 {
            self
        } else {
            let m = PlayerModel { queue: advanced(self.queue), ..self }.stop();
            if m.queue.len() > 0 {
                PlayerModel { output_paused: false, ..m.issue(Command::Reload(m.queue[0].path)) }.play(
                    now,
                )
            } else {
                m
            }
        }
    }

    /// `tick`: brings the first track's status and the shown times up to `now`,
    /// and advances once when the first track has played to its end.
    pub open spec fn tick(self, now: u64) -> PlayerModel {
        if self.queue.len() == 0 {
            self.stop()
        } else {
            let t = self.queue[0];
            match t.status {
                PlayStatus::Waiting => if self.is_playing() {
                    self.with_front_status(PlayStatus::Playing(now, 0))
                } else {
                    self
                },
                PlayStatus::Playing(started, before) => {
                    let e = played(before, started, now);
                    if e >= t.duration {
                        self.next(now)
                    } else {
                        PlayerModel { current_time: e, total_time: t.duration, ..self }
                    }
                },
                PlayStatus::Stopped(e) => PlayerModel {
                    current_time: e,
                    total_time: t.duration,
                    ..self
                },
            }
        }
    }

    /// The track that enqueueing `path` with this duration adds.
    pub open spec fn new_track(self, path: Seq<char>, duration: u64) -> Track {
        Track {
            name: base_name(path),
            path,
            duration,
            current_pos: 0,
            status: PlayStatus::Waiting,
            repetition: self.repetition,
        }
    }

    /// A successful enqueue of `path` with a known duration. When `once` is
    /// set or nothing is queued, output halts, a fresh output is started on the
    /// file and the queue is cleared; then the track joins the back of the
    /// queue, and the engine plays and ticks once.
    pub open spec fn enqueue(self, path: Seq<char>, duration: u64, once: bool, now: u64) -> PlayerModel {
        let m = if once || self.queue.len() == 0 {
            PlayerModel {
                queue: Seq::empty(),
                output_paused: false,
                ..self.stop().issue(Command::Replace(path))
            }
        } else {
            self
        };
        PlayerModel { queue: m.queue.push(self.new_track(path, duration)), initialized: true, ..m }.play(
            now,
        ).tick(now)
    }

    /// `adjust_repetition`: the play count for new tracks goes up by one, or
    /// down by one while it is above one.
    pub open spec fn adjust_repetition(self, plus: bool) -> PlayerModel {
        if plus {
            PlayerModel { repetition: (self.repetition + 1) as i32, ..self }
        } else if self.repetition > 1 {
            PlayerModel { repetition: (self.repetition - 1) as i32, ..self }
        } else {
            self
        }
    }
}

} // verus!
