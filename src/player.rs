use vstd::prelude::*;
use crate::model::{advanced, PlayerModel};
use crate::playlist::{file_name_of, tracks, PlayList, PlayListItem, Track};
use crate::probe::{accept_probe, probed_duration, PlayError, ProbeReport};
use crate::sink::{commands_of, SinkCommand};
use crate::status::PlayStatus;

verus! {

/// The playback engine: the queue, the play count for new tracks, the times
/// shown for the playing track, and the commands for the audio output that
/// the owner of the device has yet to carry out.
pub struct MusicPlayer {
    current_time: u64,
    total_time: u64,
    play_list: PlayList,
    output_paused: bool,
    initialized: bool,
    repetition: i32,
    commands: Vec<SinkCommand>,
}

impl View for MusicPlayer {
    type V = PlayerModel;

    closed spec fn view(&self) -> PlayerModel {
        PlayerModel {
            queue: tracks(self.play_list.lists@),
            current_time: self.current_time,
            total_time: self.total_time,
            output_paused: self.output_paused,
            initialized: self.initialized,
            repetition: self.repetition,
            commands: commands_of(self.commands@),
        }
    }
}

impl MusicPlayer {
    /// An engine with nothing queued, that gives each new track one play.
    pub fn new() -> (r: Self)
        ensures
            r@ == PlayerModel::initial(),
            r@.wf(),
    {
        let r = MusicPlayer {
            current_time: 0,
            total_time: 0,
            play_list: PlayList { lists: Vec::new() },
            output_paused: false,
            initialized: false,
            repetition: 1,
            commands: Vec::new(),
        };
        assert(r@.queue =~= Seq::empty());
        assert(r@.commands =~= Seq::empty());
        r
    }

    /// Records a command for the audio output.
    fn issue(&mut self, c: SinkCommand)
        ensures
            final(self)@ == old(self)@.issue(c@),
    {
        self.commands.push(c);
        assert(commands_of(self.commands@) =~= commands_of(old(self).commands@).push(c@));
    }

    /// Replaces the status of the first track.
    fn set_front_status(&mut self, s: PlayStatus)
        requires
            old(self).play_list.lists.len() > 0,
        ensures
            final(self)@ == old(self)@.with_front_status(s),
    {
        let mut item = self.play_list.lists.remove(0);
        item.status = s;
        self.play_list.lists.insert(0, item);
        proof {
            let q = old(self)@.queue;
            assert(tracks(self.play_list.lists@) =~= q.update(0, Track { status: s, ..q[0] }));
        }
    }

    /// Starts or resumes output; a waiting first track starts at `now`, a
    /// paused one resumes with its elapsed time kept. Says whether anything
    /// is queued to play.
    pub fn play(&mut self, now: u64) -> (r: bool)
        requires
            old(self)@.wf(),
        ensures
            r == (old(self)@.queue.len() > 0),
            final(self)@ == old(self)@.play(now),
            final(self)@.wf(),
    {
        let nonempty = self.play_list.lists.len() > 0;
        self.issue(SinkCommand::Play);
        self.output_paused = false;
        if self.play_list.lists.len() > 0 {
            let s = self.play_list.lists[0].status;
            assert(s == old(self)@.queue[0].status);
            match s {
                PlayStatus::Waiting => self.set_front_status(PlayStatus::Playing(now, 0)),
                PlayStatus::Playing(_, _) => proof { self@.lemma_same_front_status() },
                PlayStatus::Stopped(e) => self.set_front_status(PlayStatus::Playing(now, e)),
            }
        }
        nonempty
    }

    /// Pauses output; a playing first track freezes its elapsed time at `now`.
    pub fn pause(&mut self, now: u64) -> (r: bool)
        requires
            old(self)@.wf(),
        ensures
            r,
            final(self)@ == old(self)@.pause(now),
            final(self)@.wf(),
    {
        self.issue(SinkCommand::Pause);
        self.output_paused = true;
        if self.play_list.lists.len() > 0 {
            let s = self.play_list.lists[0].status;
            assert(s == old(self)@.queue[0].status);
            match s {
                PlayStatus::Playing(_, _) => {
                    let e = s.elapsed(now);
                    self.set_front_status(PlayStatus::Stopped(e));
                },
                _ => proof { self@.lemma_same_front_status() },
            }
        }
        true
    }

    /// Resumes output; only a paused first track changes, resuming at `now`.
    pub fn resume(&mut self, now: u64) -> (r: bool)
        requires
            old(self)@.wf(),
        ensures
            r,
            final(self)@ == old(self)@.resume(now),
            final(self)@.wf(),
    {
        self.issue(SinkCommand::Play);
        self.output_paused = false;
        if self.play_list.lists.len() > 0 {
            let s = self.play_list.lists[0].status;
            assert(s == old(self)@.queue[0].status);
            match s {
                PlayStatus::Stopped(e) => self.set_front_status(PlayStatus::Playing(now, e)),
                _ => proof { self@.lemma_same_front_status() },
            }
        }
        true
    }

    /// Halts output; no track changes.
    pub fn stop(&mut self) -> (r: bool)
        ensures
            r,
            final(self)@ == old(self)@.stop(),
    {
        self.issue(SinkCommand::Stop);
        true
    }

    /// Whether the output is producing sound: something was ever enqueued,
    /// the output is not paused, and the queue is not empty.
    pub fn is_playing(&self) -> (r: bool)
        ensures
            r == self@.is_playing(),
    {
        self.initialized && !self.output_paused && self.play_list.lists.len() > 0
    }

    /// Moves on from the first track: it stays with one play less while it
    /// has more than one left, and leaves the queue otherwise. Output halts;
    /// if a track is left, it is loaded on a rebuilt output and played.
    /// Fails, changing nothing, on an empty queue.
    pub fn next(&mut self, now: u64) -> (r: bool)
        requires
            old(self)@.wf(),
        ensures
            r == (old(self)@.queue.len() > 0),
            !r ==> final(self)@ == old(self)@,
            final(self)@ == old(self)@.next(now),
            final(self)@.wf(),
    {
        if self.play_list.lists.len() == 0 {
            return false;
        }
        let ghost q = old(self)@.queue;
        let mut top = self.play_list.lists.remove(0);
        assert(top@ == q[0]);
        if top.repetition > 1 {
            top.repetition = top.repetition - 1;
            self.play_list.lists.insert(0, top);
        }
        proof {
            assert(tracks(self.play_list.lists@) =~= advanced(q));
        }
        self.stop();
        if self.play_list.lists.len() > 0 {
            let path = self.play_list.lists[0].path.clone();
            self.issue(SinkCommand::Reload(path));
            self.output_paused = false;
            self.play(now);
        }
        true
    }

    /// Brings the first track up to `now`. A waiting track starts when the
    /// output is playing; a playing track that reached its duration makes the
    /// queue advance once, otherwise its elapsed time and duration become the
    /// shown times; a paused track shows its frozen elapsed time. With nothing
    /// queued, output halts.
    pub fn tick(&mut self, now: u64)
        requires
            old(self)@.wf(),
        ensures
            final(self)@ == old(self)@.tick(now),
            final(self)@.wf(),
    {
        let is_playing = self.is_playing();
        if self.play_list.lists.len() == 0 {
            self.stop();
            return;
        }
        let s = self.play_list.lists[0].status;
        let duration = self.play_list.lists[0].duration;
        assert(s == old(self)@.queue[0].status && duration == old(self)@.queue[0].duration);
        match s {
            PlayStatus::Waiting => {
                if is_playing {
                    self.set_front_status(PlayStatus::Playing(now, 0));
                }
            },
            PlayStatus::Playing(_, _) => {
                let e = s.elapsed(now);
                if e >= duration {
                    self.next(now);
                } else {
                    self.current_time = e;
                    self.total_time = duration;
                }
            },
            PlayStatus::Stopped(e) => {
                self.current_time = e;
                self.total_time = duration;
            },
        }
    }

    /// Enqueues the track at `path`, given what probing its duration found
    /// and whether the file could be opened. Fails with `NotPlayable` when the
    /// probe gives no duration, then with `IoError` when the file could not be
    /// opened, changing nothing either way. Otherwise, when `once` is set or
    /// nothing is queued, output is replaced by a fresh one on this file and
    /// the queue is cleared; the track joins the back of the queue with the
    /// current play count, and the engine plays and ticks once at `now`.
    pub fn play_with_file(
        &mut self,
        path: String,
        probe: ProbeReport,
        readable: bool,
        once: bool,
        now: u64,
    ) -> (r: Result<(), PlayError>)
        requires
            old(self)@.wf(),
        ensures
            probed_duration(probe) is None ==> r == Err::<(), PlayError>(PlayError::NotPlayable),
            probed_duration(probe) is Some && !readable ==> r == Err::<(), PlayError>(
                PlayError::IoError,
            ),
            probed_duration(probe) is Some && readable ==> r is Ok,
            r is Err ==> final(self)@ == old(self)@,
            r is Ok ==> final(self)@ == old(self)@.enqueue(
                path@,
                probed_duration(probe)->Some_0,
                once,
                now,
            ),
            final(self)@.wf(),
    {
        let duration = match accept_probe(probe) {
            Ok(d) => d,
            Err(e) => {
                return Err(e);
            },
        };
        if !readable {
            return Err(PlayError::IoError);
        }
        let name = file_name_of(path.as_str());
        let ghost base = self@;
        if once || self.play_list.lists.len() == 0 {
            self.stop();
            self.issue(SinkCommand::Replace(path.clone()));
            self.output_paused = false;
            self.play_list.lists.clear();
            assert(tracks(self.play_list.lists@) =~= Seq::empty());
        }
        let ghost mid = self@;
        let item = PlayListItem {
            name,
            duration,
            current_pos: 0,
            status: PlayStatus::Waiting,
            path,
            repetition: self.repetition,
        };
        assert(item@ == base.new_track(path@, duration));
        self.play_list.lists.push(item);
        assert(tracks(self.play_list.lists@) =~= mid.queue.push(item@));
        self.initialized = true;
        self.play(now);
        self.tick(now);
        Ok(())
    }

    /// Enqueues the track at `path` as [`MusicPlayer::play_with_file`] does,
    /// and says whether it was enqueued.
    pub fn add_to_list(
        &mut self,
        path: String,
        probe: ProbeReport,
        readable: bool,
        once: bool,
        now: u64,
    ) -> (r: bool)
        requires
            old(self)@.wf(),
        ensures
            r == (probed_duration(probe) is Some && readable),
            !r ==> final(self)@ == old(self)@,
            r ==> final(self)@ == old(self)@.enqueue(
                path@,
                probed_duration(probe)->Some_0,
                once,
                now,
            ),
            final(self)@.wf(),
    {
        self.play_with_file(path, probe, readable, once, now).is_ok()
    }

    /// Raises the play count for new tracks by one, or lowers it by one while
    /// it is above one. Queued tracks keep theirs.
    pub fn adjust_repetition(&mut self, plus: bool) -> (r: bool)
        requires
            old(self)@.wf(),
            plus ==> old(self)@.repetition < i32::MAX,
        ensures
            r,
            final(self)@ == old(self)@.adjust_repetition(plus),
            final(self)@.wf(),
    {
        if plus {
            self.repetition = self.repetition + 1;
        } else if self.repetition > 1 {
            self.repetition = self.repetition - 1;
        }
        true
    }

    /// Hands out the commands for the audio output recorded so far, oldest
    /// first, and forgets them.
    pub fn take_commands(&mut self) -> (r: Vec<SinkCommand>)
        requires
            old(self)@.wf(),
        ensures
            commands_of(r@) == old(self)@.commands,
            final(self)@ == (PlayerModel { commands: Seq::empty(), ..old(self)@ }),
            final(self)@.wf(),
    {
        let mut r: Vec<SinkCommand> = Vec::new();
        r.append(&mut self.commands);
        assert(r@ =~= old(self).commands@);
        assert(commands_of(self.commands@) =~= Seq::empty());
        r
    }

    /// The track playing, if any: the first in the queue.
    pub fn playing_song(&self) -> (r: Option<&PlayListItem>)
        ensures
            r is None <==> self@.queue.len() == 0,
            r is Some ==> r->0@ == self@.queue[0],
    {
        if self.play_list.lists.len() > 0 {
            Some(&self.play_list.lists[0])
        } else {
            None
        }
    }

    /// The queue.
    pub fn play_list(&self) -> (r: &PlayList)
        ensures
            tracks(r.lists@) == self@.queue,
    {
        &self.play_list
    }

    /// Elapsed time shown for the playing track, as of the last tick.
    pub fn current_time(&self) -> (r: u64)
        ensures
            r == self@.current_time,
    {
        self.current_time
    }

    /// Duration shown for the playing track, as of the last tick.
    pub fn total_time(&self) -> (r: u64)
        ensures
            r == self@.total_time,
    {
        self.total_time
    }

    /// Plays that each newly enqueued track gets.
    pub fn repetition(&self) -> (r: i32)
        ensures
            r == self@.repetition,
    {
        self.repetition
    }

    /// Whether any track has ever been enqueued.
    pub fn is_initialized(&self) -> (r: bool)
        ensures
            r == self@.initialized,
    {
        self.initialized
    }
}

} // verus!
