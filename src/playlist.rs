use vstd::prelude::*;
use crate::status::PlayStatus;

verus! {

/// One queued track.
#[derive(Clone, Debug)]
pub struct PlayListItem {
    /// Display title: the file name of `path`.
    pub name: String,
    /// Total playable length in nanoseconds, fixed when the track is enqueued.
    pub duration: u64,
    pub current_pos: u64,
    pub status: PlayStatus,
    pub path: String,
    /// Plays left before the queue moves past this track; at least one.
    pub repetition: i32,
}

/// What a queued track is, with its strings seen as character sequences.
pub ghost struct Track {
    pub name: Seq<char>,
    pub path: Seq<char>,
    pub duration: u64,
    pub current_pos: u64,
    pub status: PlayStatus,
    pub repetition: i32,
}

impl View for PlayListItem {
    type V = Track;

    open spec fn view(&self) -> Track {
        Track {
            name: self.name@,
            path: self.path@,
            duration: self.duration,
            current_pos: self.current_pos,
            status: self.status,
            repetition: self.repetition,
        }
    }
}

/// The tracks of a vector of queue entries, in order.
pub open spec fn tracks(v: Seq<PlayListItem>) -> Seq<Track> {
    v.map_values(|t: PlayListItem| t@)
}

/// The playback queue; the first entry is the one playing.
#[derive(Clone, Debug)]
pub struct PlayList {
    pub lists: Vec<PlayListItem>,
}

/// The last component of a path: what follows its last `/`.
pub open spec fn base_name(p: Seq<char>) -> Seq<char>
    decreases p.len(),
{
    if p.len() == 0 {
        p
    } else if p.last() == '/' {
        Seq::empty()
    } else {
        base_name(p.drop_last()).push(p.last())
    }
}

proof fn lemma_base_name_after(p: Seq<char>, k: int)
    requires
        0 <= k <= p.len(),
        k == 0 || p[k - 1] == '/',
        forall|j: int| k <= j < p.len() ==> p[j] != '/',
    ensures
        base_name(p) == p.subrange(k, p.len() as int),
    decreases p.len(),
{
    if p.len() == k {
        if k > 0 {
            assert(p.last() == p[k - 1]);
        }
    } else {
        lemma_base_name_after(p.drop_last(), k);
        assert(p.subrange(k, p.len() as int) =~= p.drop_last().subrange(k, p.len() - 1).push(
            p.last(),
        ));
    }
}

/// The display title of the track at `path`.
pub fn file_name_of(path: &str) -> (r: String)
    ensures
        r@ == base_name(path@),
{
    let n = path.unicode_len();
    let mut k: usize = n;
    while k > 0 && path.get_char(k - 1) != '/'
        invariant
            n == path@.len(),
            k <= n,
            forall|j: int| k <= j < n ==> path@[j] != '/',
        decreases k,
    {
        k = k - 1;
    }
    proof {
        lemma_base_name_after(path@, k as int);
    }
    path.substring_char(k, n).to_owned()
}

} // verus!
