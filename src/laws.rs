use vstd::prelude::*;
use crate::model::{advanced, PlayerModel};
use crate::playlist::Track;
use crate::sink::Command;
use crate::status::{played, PlayStatus};

verus! {

/// An exclusive enqueue of a track with a positive duration leaves that track
/// alone in the queue, playing since `now`, whatever was queued before.
pub proof fn lemma_exclusive_enqueue_replaces(m: PlayerModel, path: Seq<char>, duration: u64, now: u64)
    requires
        m.wf(),
        duration > 0,
    ensures
        m.enqueue(path, duration, true, now).queue == seq![
            Track { status: PlayStatus::Playing(now, 0), ..m.new_track(path, duration) },
        ],
        m.enqueue(path, duration, true, now).is_playing(),
{
    let t = m.new_track(path, duration);
    let c = PlayerModel {
        queue: Seq::empty(),
        output_paused: false,
        ..m.stop().issue(Command::Replace(path))
    };
    let a = PlayerModel { queue: c.queue.push(t), initialized: true, ..c };
    let p = a.play(now);
    assert(a.queue[0] == t);
    assert(p.queue =~= seq![Track { status: PlayStatus::Playing(now, 0), ..t }]);
    assert(played(0, now, now) == 0);
}

/// A track with more than one play left stays at the front of the queue
/// through `next`, with one play less and the same path, name and duration; a
/// track with one play left leaves the queue. The tracks behind keep their order.
pub proof fn lemma_next_repeats_front(m: PlayerModel, now: u64)
    requires
        m.wf(),
        m.queue.len() > 0,
    ensures
        m.queue[0].repetition > 1 ==> {
            let n = m.next(now).queue;
            &&& n.len() == m.queue.len()
            &&& n[0].path == m.queue[0].path
            &&& n[0].name == m.queue[0].name
            &&& n[0].duration == m.queue[0].duration
            &&& n[0].repetition == m.queue[0].repetition - 1
            &&& n.subrange(1, n.len() as int) == m.queue.subrange(1, m.queue.len() as int)
        },
        m.queue[0].repetition == 1 ==> m.next(now).queue.len() == m.queue.len() - 1,
        m.queue[0].repetition == 1 && m.queue.len() > 1 ==> m.next(now).queue[0].path
            == m.queue[1].path,
        m.queue[0].repetition == 1 && m.queue.len() > 1 ==> m.next(now).queue.subrange(
            1,
            m.queue.len() - 1,
        ) == m.queue.subrange(2, m.queue.len() as int),
{
    let q = m.queue;
    let n = m.next(now).queue;
    let adv = advanced(q);
    assert(n.len() == adv.len());
    if adv.len() > 0 {
        assert(forall|i: int| 1 <= i < adv.len() ==> n[i] == adv[i]);
        assert(n[0].path == adv[0].path && n[0].name == adv[0].name && n[0].duration
            == adv[0].duration && n[0].repetition == adv[0].repetition);
    }
    if q[0].repetition > 1 {
        assert(n.subrange(1, n.len() as int) =~= q.subrange(1, q.len() as int));
    } else {
        assert(m.wf() ==> q[0].repetition >= 1);
        if q.len() > 1 {
            assert(n.subrange(1, q.len() - 1) =~= q.subrange(2, q.len() as int));
        }
    }
}

/// Time spent paused never counts as played: a fresh track played at `t0`,
/// paused at `t1`, resumed at `t2` and ticked at `t3` shows `(t1 - t0) +
/// (t3 - t2)`, as long as that is short of its duration.
pub proof fn lemma_paused_time_not_counted(m: PlayerModel, t0: u64, t1: u64, t2: u64, t3: u64)
    requires
        m.wf(),
        m.queue.len() > 0,
        m.queue[0].status == PlayStatus::Waiting,
        t0 <= t1 <= t2 <= t3,
        (t1 - t0) + (t3 - t2) < m.queue[0].duration,
    ensures
        m.play(t0).pause(t1).resume(t2).tick(t3).current_time == (t1 - t0) + (t3 - t2),
        m.play(t0).pause(t1).resume(t2).tick(t3).total_time == m.queue[0].duration,
{
    let a = m.play(t0);
    assert(a.queue[0].status == PlayStatus::Playing(t0, 0));
    let b = a.pause(t1);
    assert(played(0, t0, t1) == t1 - t0);
    assert(b.queue[0].status == PlayStatus::Stopped((t1 - t0) as u64));
    let c = b.resume(t2);
    assert(c.queue[0].status == PlayStatus::Playing(t2, (t1 - t0) as u64));
    assert(c.queue[0].duration == m.queue[0].duration);
    assert(played((t1 - t0) as u64, t2, t3) == (t1 - t0) + (t3 - t2));
}

/// A tick that finds the first track played to its end advances the queue
/// exactly once: it is `next`, the queue moves by one step, and the output
/// gets one halt and at most one reload.
pub proof fn lemma_tick_advances_once(m: PlayerModel, now: u64)
    requires
        m.wf(),
        m.queue.len() > 0,
        m.queue[0].status is Playing,
        m.queue[0].status.elapsed_at(now) >= m.queue[0].duration,
    ensures
        m.tick(now) == m.next(now),
        m.tick(now).queue.len() == advanced(m.queue).len(),
        forall|i: int|
            1 <= i < advanced(m.queue).len() ==> #[trigger] m.tick(now).queue[i] == advanced(
                m.queue,
            )[i],
        advanced(m.queue).len() == 0 ==> m.tick(now).commands == m.commands.push(Command::Stop),
        advanced(m.queue).len() > 0 ==> m.tick(now).commands == m.commands.push(Command::Stop).push(
            Command::Reload(advanced(m.queue)[0].path),
        ).push(Command::Play),
{
}

} // verus!
