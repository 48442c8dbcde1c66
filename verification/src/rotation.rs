//! Rotating log sink: append-only log files, one per rotation window, with a
//! bounded retention policy. Rotation is driven by wall-clock time handed in
//! as a timestamp; which files are kept is decided by rotation order (the
//! window stamp carried in the file name), never by filesystem metadata.
//!
//! The sink here is the verified model of what lies on disk: each element of
//! `files` stands for one on-disk log file, carrying its rotation window and
//! the records written into it. The ghost `history` records every window the
//! sink has ever opened, so the retention invariant can say that the files on
//! disk are exactly the most recent windows.

use vstd::prelude::*;

use crate::bytes::push_all;

verus! {

/// Number of seconds in one day.
pub const SECONDS_PER_DAY: u64 = 86400;

/// Number of seconds in one week.
pub const SECONDS_PER_WEEK: u64 = 604800;

/// The byte that separates the window stamp from the suffix in a file name.
pub const STAMP_SEPARATOR: u8 = 46;

/// How often the active log file is closed and a new one opened.
#[derive(Clone, Copy, PartialEq, Eq, Structural)]
pub enum RotationCadence {
    /// A new file every day.
    Daily,
    /// A new file every week.
    Weekly,
}

/// Length of one rotation window, in seconds.
pub open spec fn cadence_seconds(c: RotationCadence) -> u64 {
    match c {
        RotationCadence::Daily => SECONDS_PER_DAY,
        RotationCadence::Weekly => SECONDS_PER_WEEK,
    }
}

/// The rotation window that the timestamp `now` (seconds since an epoch)
/// falls into: timestamps in the same window share one log file.
pub open spec fn window_of_spec(now: u64, c: RotationCadence) -> u64 {
    now / cadence_seconds(c)
}

/// Computes the rotation window of a timestamp.
pub fn window_of(now: u64, c: RotationCadence) -> (w: u64)
    ensures
        w == window_of_spec(now, c),
{
    match c {
        RotationCadence::Daily => now / SECONDS_PER_DAY,
        RotationCadence::Weekly => now / SECONDS_PER_WEEK,
    }
}

/// How the sink rotates and how many rotated files it may leave on disk.
pub struct RotationPolicy {
    /// Rotation cadence.
    pub cadence: RotationCadence,
    /// When set, never leave more than this many files on disk;
    /// the oldest are evicted first. Must be at least 1 when set.
    pub max_retained_files: Option<usize>,
    /// File-name suffix of every log file (for example `log`).
    pub filename_suffix: Vec<u8>,
}

impl RotationPolicy {
    /// A retention bound of zero files could never hold the active file.
    pub open spec fn wf(&self) -> bool {
        match self.max_retained_files {
            Some(n) => n >= 1,
            None => true,
        }
    }
}

/// One log file: its rotation window and the records appended to it.
pub struct LogFile {
    /// The rotation window this file belongs to.
    pub window: u64,
    /// The records written while this window was current, in write order.
    pub records: Vec<Vec<u8>>,
}

/// The windows of a run of files, in file order.
pub open spec fn windows_of(files: Seq<LogFile>) -> Seq<u64> {
    files.map_values(|f: LogFile| f.window)
}

/// The rotating sink: the verified model of the log files on disk.
pub struct RotatingSink {
    /// Retention and cadence policy, fixed at open time.
    pub policy: RotationPolicy,
    /// The files currently on disk, oldest first; the last one is active.
    pub files: Vec<LogFile>,
    /// Every window ever opened, oldest first.
    pub history: Ghost<Seq<u64>>,
}

impl RotatingSink {
    /// The window of the active (most recent) file.
    pub open spec fn current_window(&self) -> u64 {
        self.files@.last().window
    }

    /// How many files the policy allows on disk at once.
    pub open spec fn retained_bound(&self) -> int {
        match self.policy.max_retained_files {
            Some(n) => n as int,
            None => self.history@.len() as int,
        }
    }

    /// Well-formedness: the sink always holds the active file; the opened
    /// windows strictly increase; the files on disk are exactly the most
    /// recent opened windows, as many as the retention bound allows.
    pub open spec fn wf(&self) -> bool {
        &&& self.policy.wf()
        &&& self.files@.len() > 0
        &&& self.files@.len() <= self.history@.len()
        &&& self.files@.len() <= self.retained_bound()
        &&& self.files@.len() == if self.history@.len() <= self.retained_bound() {
            self.history@.len() as int
        } else {
            self.retained_bound()
        }
        &&& windows_of(self.files@) == self.history@.skip(
            self.history@.len() - self.files@.len(),
        )
        &&& forall|i: int, j: int|
            0 <= i < j < self.history@.len() ==> self.history@[i] < self.history@[j]
    }

    /// Opens the sink: one fresh, empty file for the window of `now`.
    pub fn open(policy: RotationPolicy, now: u64) -> (sink: RotatingSink)
        requires
            policy.wf(),
        ensures
            sink.wf(),
            sink.policy == policy,
            sink.files@.len() == 1,
            sink.files@[0].window == window_of_spec(now, policy.cadence),
            sink.files@[0].records@ == Seq::<Vec<u8>>::empty(),
            sink.history@ == seq![window_of_spec(now, policy.cadence)],
    {
        let w = window_of(now, policy.cadence);
        let mut files: Vec<LogFile> = Vec::new();
        files.push(LogFile { window: w, records: Vec::new() });
        let ghost h: Seq<u64> = seq![w];
        let sink = RotatingSink { policy, files, history: Ghost(h) };
        proof {
            assert(windows_of(sink.files@) =~= sink.history@.skip(0));
        }
        sink
    }

    /// Appends a record to the active file. Only the active file changes.
    pub fn write(&mut self, record: Vec<u8>)
        requires
            old(self).wf(),
        ensures
            final(self).wf(),
            final(self).policy == old(self).policy,
            final(self).history@ == old(self).history@,
            final(self).files@.len() == old(self).files@.len(),
            forall|i: int|
                0 <= i < old(self).files@.len() - 1 ==> final(self).files@[i] == old(
                    self,
                ).files@[i],
            final(self).current_window() == old(self).current_window(),
            final(self).files@.last().records@ == old(self).files@.last().records@.push(record),
    {
        let mut active = self.files.pop().unwrap();
        active.records.push(record);
        self.files.push(active);
        proof {
            assert(self.files@ =~= old(self).files@.update(
                old(self).files@.len() - 1,
                self.files@.last(),
            ));
            assert(windows_of(self.files@) =~= windows_of(old(self).files@));
        }
    }

    /// How many files eviction removes when one more window is opened over
    /// `count` files on disk.
    pub open spec fn evict_count(count: int, max: Option<usize>) -> int {
        match max {
            Some(n) => if count + 1 > n {
                count + 1 - n
            } else {
                0
            },
            None => 0,
        }
    }

    /// Moves the sink to the window of `now`. When the window is unchanged,
    /// nothing happens. When a boundary was crossed, a fresh file is opened
    /// for the new window and the oldest files beyond the retention bound are
    /// evicted; the windows of the evicted files are returned (oldest first)
    /// so the caller can delete them from disk.
    pub fn advance_to(&mut self, now: u64) -> (evicted: Vec<u64>)
        requires
            old(self).wf(),
            window_of_spec(now, old(self).policy.cadence) >= old(self).current_window(),
        ensures
            final(self).wf(),
            final(self).policy == old(self).policy,
            window_of_spec(now, old(self).policy.cadence) == old(self).current_window() ==> {
                &&& *final(self) == *old(self)
                &&& evicted@ == Seq::<u64>::empty()
            },
            window_of_spec(now, old(self).policy.cadence) > old(self).current_window() ==> {
                let w = window_of_spec(now, old(self).policy.cadence);
                let k = RotatingSink::evict_count(
                    old(self).files@.len() as int,
                    old(self).policy.max_retained_files,
                );
                &&& final(self).history@ == old(self).history@.push(w)
                &&& final(self).files@.len() == old(self).files@.len() + 1 - k
                &&& forall|i: int|
                    0 <= i < final(self).files@.len() - 1 ==> final(self).files@[i] == old(
                        self,
                    ).files@[k + i]
                &&& final(self).current_window() == w
                &&& final(self).files@.last().records@ == Seq::<Vec<u8>>::empty()
                &&& evicted@ == windows_of(old(self).files@).take(k)
            },
    {
        let w = window_of(now, self.policy.cadence);
        let current = self.files[self.files.len() - 1].window;
        let mut evicted: Vec<u64> = Vec::new();
        if w == current {
            return evicted;
        }
        self.files.push(LogFile { window: w, records: Vec::new() });
        proof {
            self.history@ = self.history@.push(w);
        }
        let max_opt = self.policy.max_retained_files;
        if let Some(n) = max_opt {
            if self.files.len() > n {
                let oldest = self.files.remove(0);
                evicted.push(oldest.window);
            }
        }
        proof {
            let w_s = window_of_spec(now, old(self).policy.cadence);
            let k = RotatingSink::evict_count(
                old(self).files@.len() as int,
                old(self).policy.max_retained_files,
            );
            let oldh = old(self).history@;
            let oldf = old(self).files@;
            let newh = self.history@;
            let newf = self.files@;
            assert(newh == oldh.push(w_s));
            assert(newf.len() == oldf.len() + 1 - k);
            assert(windows_of(oldf) == oldh.skip(oldh.len() - oldf.len()));
            assert(oldh[oldh.len() - 1] == windows_of(oldf)[oldf.len() - 1]);
            assert(windows_of(oldf)[oldf.len() - 1] == oldf[oldf.len() - 1].window);
            assert forall|i: int| 0 <= i < newf.len() implies windows_of(newf)[i] == newh.skip(
                newh.len() - newf.len(),
            )[i] by {
                assert(windows_of(newf)[i] == newf[i].window);
                if i < newf.len() - 1 {
                    assert(newf[i] == oldf[k + i]);
                    assert(windows_of(oldf)[k + i] == oldf[k + i].window);
                    assert(windows_of(oldf)[k + i] == oldh.skip(oldh.len() - oldf.len())[k + i]);
                    assert(oldh.skip(oldh.len() - oldf.len())[k + i] == oldh[oldh.len()
                        - oldf.len() + k + i]);
                    assert(newh.skip(newh.len() - newf.len())[i] == newh[newh.len() - newf.len()
                        + i]);
                    assert(newh[newh.len() - newf.len() + i] == oldh[oldh.len() - oldf.len() + k
                        + i]);
                } else {
                    assert(newf[i].window == w_s);
                    assert(newh.skip(newh.len() - newf.len())[i] == newh[newh.len() - 1]);
                }
            }
            assert(windows_of(newf) =~= newh.skip(newh.len() - newf.len()));
            assert(evicted@ =~= windows_of(oldf).take(k));
            assert(self.files@.last().records@ =~= Seq::<Vec<u8>>::empty());
        }
        evicted
    }
}

/// Law: rotation retention invariant. In every reachable well-formed sink
/// with `max_retained_files = n`, at most `n` files are on disk, and they are
/// exactly the most recent opened windows, in rotation order: every window
/// that was evicted is older than every window still on disk.
pub proof fn lemma_rotation_retention(sink: RotatingSink, n: usize)
    requires
        sink.wf(),
        sink.policy.max_retained_files == Some(n),
    ensures
        sink.files@.len() <= n,
        windows_of(sink.files@) == sink.history@.skip(sink.history@.len() - sink.files@.len()),
        forall|i: int, j: int|
            0 <= i < sink.history@.len() - sink.files@.len() && sink.history@.len()
                - sink.files@.len() <= j < sink.history@.len() ==> sink.history@[i]
                < sink.history@[j],
{
}

/// The decimal digits of `n`, most significant first.
pub open spec fn dec_digits(n: nat) -> Seq<u8>
    decreases n,
{
    if n < 10 {
        seq![(48 + n) as u8]
    } else {
        dec_digits(n / 10).push((48 + n % 10) as u8)
    }
}

/// Appends the decimal digits of `n` to `out`.
fn push_dec(out: &mut Vec<u8>, n: u64)
    ensures
        final(out)@ == old(out)@ + dec_digits(n as nat),
    decreases n,
{
    if n < 10 {
        out.push(48 + (n as u8));
        proof {
            assert(out@ =~= old(out)@ + dec_digits(n as nat));
        }
    } else {
        push_dec(out, n / 10);
        out.push(48 + ((n % 10) as u8));
        proof {
            assert(out@ =~= old(out)@ + dec_digits(n as nat));
        }
    }
}

/// The name of the log file of window `w`: the decimal window stamp, the
/// stamp separator, then the suffix. Decimal stamps of later windows compare
/// greater numerically, which is the rotation order eviction goes by.
pub open spec fn file_name_spec(w: u64, suffix: Seq<u8>) -> Seq<u8> {
    dec_digits(w as nat) + seq![STAMP_SEPARATOR] + suffix
}

/// Builds the on-disk name of the log file of window `w`.
pub fn file_name_for(w: u64, suffix: &Vec<u8>) -> (name: Vec<u8>)
    ensures
        name@ == file_name_spec(w, suffix@),
{
    let mut name: Vec<u8> = Vec::new();
    push_dec(&mut name, w);
    name.push(STAMP_SEPARATOR);
    push_all(&mut name, suffix);
    proof {
        assert(name@ =~= file_name_spec(w, suffix@));
    }
    name
}

} // verus!
