use vstd::prelude::*;

verus! {

/// Why a track could not be enqueued or loaded.
#[derive(Clone, Copy, Debug, PartialEq, Eq, Structural)]
pub enum PlayError {
    /// No reliable duration could be determined.
    NotPlayable,
    /// The file is missing or unreadable.
    IoError,
    /// No audio output device could be acquired.
    DeviceError,
}

/// What a duration probe found out about a file, in nanoseconds.
#[derive(Clone, Copy, Debug, PartialEq, Eq, Structural)]
pub enum ProbeReport {
    /// The metadata or the decoder gave the full duration.
    Complete(u64),
    /// Metadata parsing failed; the duration measured up to the failure.
    Partial(u64),
    /// The format gave no duration at all.
    Unknown,
}

/// The duration that a probe report supports, if any.
pub open spec fn probed_duration(p: ProbeReport) -> Option<u64> {
    match p {
        ProbeReport::Complete(d) => Some(d),
        ProbeReport::Partial(d) => if d > 0 { Some(d) } else { None },
        ProbeReport::Unknown => None,
    }
}

/// Decides the duration of a track from a probe: a complete figure is taken
/// as it is, a partial one only when it is not zero, and no figure is never
/// made up.
pub fn accept_probe(p: ProbeReport) -> (r: Result<u64, PlayError>)
    ensures
        r is Ok <==> probed_duration(p) is Some,
        r is Ok ==> Some(r->Ok_0) == probed_duration(p),
        r is Err ==> r->Err_0 == PlayError::NotPlayable,
{
    match p {
        ProbeReport::Complete(d) => Ok(d),
        ProbeReport::Partial(d) => if d > 0 {
            Ok(d)
        } else {
            Err(PlayError::NotPlayable)
        },
        ProbeReport::Unknown => Err(PlayError::NotPlayable),
    }
}

/// Whether a path names an MP3 file: it ends with `.mp3`.
pub open spec fn names_mp3(path: Seq<char>) -> bool {
    path.len() >= 4 && path.subrange(path.len() - 4, path.len() as int) == seq!['.', 'm', 'p', '3']
}

/// Whether the metadata prober for MP3 files applies to `path`.
pub fn is_mp3_path(path: &str) -> (r: bool)
    ensures
        r == names_mp3(path@),
{
    let n = path.unicode_len();
    if n < 4 {
        return false;
    }
    let ok = path.get_char(n - 4) == '.' && path.get_char(n - 3) == 'm' && path.get_char(n - 2)
        == 'p' && path.get_char(n - 1) == '3';
    proof {
        let tail = path@.subrange(n - 4, n as int);
        if ok {
            assert(tail =~= seq!['.', 'm', 'p', '3']);
        } else {
            if tail == seq!['.', 'm', 'p', '3'] {
                assert(tail[0] == path@[n - 4]);
                assert(tail[1] == path@[n - 3]);
                assert(tail[2] == path@[n - 2]);
                assert(tail[3] == path@[n - 1]);
            }
        }
    }
    ok
}

} // verus!
