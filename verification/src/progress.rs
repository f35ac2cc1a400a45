//! Byte-level progress accounting for transfers of known and unknown length.

use vstd::prelude::*;

verus! {

/// Number of bytes that count as a full unit when the length of a stream is
/// not known in advance (one mebibyte).
pub const STREAM_SCALE: u64 = 1048576;

/// Numerator of the ceiling that an estimate for a stream of unknown length
/// never exceeds.
pub const STREAM_CAP_NUM: u64 = 95;

/// Denominator of that ceiling.
pub const STREAM_CAP_DEN: u64 = 100;

/// Least number of bytes at which the estimate for a stream stands at its
/// ceiling.
pub const STREAM_CAP_BYTES: u64 = 996148;

/// A fraction of a transfer, held exactly as `num / den`.
#[derive(Clone, Copy, Debug, PartialEq, Eq, Structural)]
pub struct Progress {
    pub num: u64,
    pub den: u64,
}

impl Progress {
    /// A well-formed fraction lies in the closed interval from zero to one.
    pub open spec fn wf(self) -> bool {
        0 < self.den && self.num <= self.den
    }

    /// The fraction is exactly zero.
    pub open spec fn is_zero(self) -> bool {
        self.num == 0
    }

    /// The fraction is exactly one.
    pub open spec fn is_complete(self) -> bool {
        self.num == self.den
    }

    /// `self <= other` as rational numbers.
    pub open spec fn le(self, other: Progress) -> bool {
        self.num as int * other.den as int <= other.num as int * self.den as int
    }

    /// `self == other` as rational numbers.
    pub open spec fn same_value(self, other: Progress) -> bool {
        self.num as int * other.den as int == other.num as int * self.den as int
    }

    /// The fraction reported at the start of every attempt.
    pub fn zero() -> (p: Progress)
        ensures
            p == (Progress { num: 0, den: 1 }),
            p.wf(),
            p.is_zero(),
    {
        Progress { num: 0, den: 1 }
    }

    /// The fraction reported once an operation has succeeded.
    pub fn complete() -> (p: Progress)
        ensures
            p == (Progress { num: 1, den: 1 }),
            p.wf(),
            p.is_complete(),
    {
        Progress { num: 1, den: 1 }
    }

    /// Whether the fraction has reached one.
    pub fn reached_end(&self) -> (b: bool)
        ensures
            b == (self.num >= self.den),
            self.wf() ==> b == self.is_complete(),
    {
        self.num >= self.den
    }

    /// Compares two fractions by value.
    pub fn at_most(&self, other: &Progress) -> (b: bool)
        ensures
            b == self.le(*other),
    {
        proof {
            lemma_product_fits(self.num, other.den);
            lemma_product_fits(other.num, self.den);
        }
        let left: u128 = (self.num as u128) * (other.den as u128);
        let right: u128 = (other.num as u128) * (self.den as u128);
        left <= right
    }
}

/// The product of two 64-bit values fits in 128 bits.
pub proof fn lemma_product_fits(a: u64, b: u64)
    ensures
        0 <= a as int * b as int <= u128::MAX as int,
{
    assert(0 <= a as int * b as int <= 0xffff_ffff_ffff_ffff * 0xffff_ffff_ffff_ffff)
        by (nonlinear_arith)
        requires
            0 <= a as int <= 0xffff_ffff_ffff_ffff,
            0 <= b as int <= 0xffff_ffff_ffff_ffff,
    ;
}

/// Progress of a transfer of known length `total > 0` after `read` bytes.
pub open spec fn known_progress(total: u64, read: u64) -> Progress {
    Progress { num: if read <= total { read } else { total }, den: total }
}

/// Estimate for a stream of unknown length after `read` bytes: the bytes
/// measured against `STREAM_SCALE`, held at the ceiling once they reach it.
pub open spec fn stream_estimate(read: u64) -> Progress {
    if read as int * STREAM_CAP_DEN as int >= STREAM_CAP_NUM as int * STREAM_SCALE as int {
        Progress { num: STREAM_CAP_NUM, den: STREAM_CAP_DEN }
    } else {
        Progress { num: read, den: STREAM_SCALE }
    }
}

/// What a reader reports after a read call has brought its count to `read`:
/// nothing for a declared length of zero, the exact fraction for a positive
/// declared length, and the capped estimate when no length was declared.
pub open spec fn reported(total: Option<u64>, read: u64) -> Option<Progress> {
    match total {
        Some(t) => if t > 0 {
            Some(known_progress(t, read))
        } else {
            None
        },
        None => Some(stream_estimate(read)),
    }
}

/// A byte count held in 64 bits: the count itself, or the largest value that
/// fits where the count has grown beyond it.
pub open spec fn capped(count: int) -> u64 {
    if count <= u64::MAX {
        count as u64
    } else {
        u64::MAX
    }
}

/// Counts the bytes that pass through one attempt of a transfer and says what
/// is to be reported after each read call.
#[derive(Clone, Copy, Debug, PartialEq, Eq, Structural)]
pub struct ProgressReader {
    /// Declared length in bytes; `None` for a stream of unknown length.
    pub total: Option<u64>,
    /// Bytes read so far.
    pub read: u64,
}

impl ProgressReader {
    /// A reader over a source of declared length `total`.
    pub fn new_file(total: u64) -> (r: ProgressReader)
        ensures
            r == (ProgressReader { total: Some(total), read: 0 }),
    {
        ProgressReader { total: Some(total), read: 0 }
    }

    /// A reader over a source whose length is not known in advance.
    pub fn new_stream() -> (r: ProgressReader)
        ensures
            r == (ProgressReader { total: None, read: 0 }),
    {
        ProgressReader { total: None, read: 0 }
    }

    /// A reader for a download: measured against the announced content length
    /// when one is present and positive, and as a stream otherwise.
    pub fn for_download(content_length: Option<u64>) -> (r: ProgressReader)
        ensures
            r.read == 0,
            r.total == match content_length {
                Some(n) => if n > 0 {
                    Some(n)
                } else {
                    None
                },
                None => None,
            },
    {
        match content_length {
            Some(n) => {
                if n > 0 {
                    ProgressReader::new_file(n)
                } else {
                    ProgressReader::new_stream()
                }
            },
            None => ProgressReader::new_stream(),
        }
    }

    /// What the reader reports in its present state.
    pub open spec fn current(self) -> Option<Progress> {
        reported(self.total, self.read)
    }

    /// Accounts for a read call that returned `bytes_read` bytes and gives the
    /// fraction to hand to the progress callback, if any. The count stops at
    /// the largest value that it can hold.
    pub fn read(&mut self, bytes_read: usize) -> (report: Option<Progress>)
        ensures
            final(self).total == old(self).total,
            final(self).read == capped(old(self).read + bytes_read),
            report == reported(old(self).total, final(self).read),
            report matches Some(p) ==> p.wf(),
            (report, old(self).current()) matches (Some(p), Some(q)) ==> q.le(p),
    {
        let ghost before: u64 = self.read;
        let room: u64 = u64::MAX - self.read;
        self.read = if (bytes_read as u64) <= room {
            self.read + (bytes_read as u64)
        } else {
            u64::MAX
        };
        proof {
            lemma_reports_never_decrease(self.total, before, self.read);
            lemma_report_is_fraction(self.total, self.read);
        }
        self.report()
    }

    /// The fraction that belongs to the present byte count.
    pub fn report(&self) -> (report: Option<Progress>)
        ensures
            report == self.current(),
    {
        match self.total {
            Some(total) => {
                if total > 0 {
                    let num: u64 = if self.read <= total {
                        self.read
                    } else {
                        total
                    };
                    Some(Progress { num, den: total })
                } else {
                    None
                }
            },
            None => {
                if self.read >= STREAM_CAP_BYTES {
                    Some(Progress { num: STREAM_CAP_NUM, den: STREAM_CAP_DEN })
                } else {
                    Some(Progress { num: self.read, den: STREAM_SCALE })
                }
            },
        }
    }
}

/// Every report is a fraction between zero and one.
pub proof fn lemma_report_is_fraction(total: Option<u64>, read: u64)
    ensures
        reported(total, read) matches Some(p) ==> p.wf(),
{
}

/// Within one attempt the reported fraction never decreases: reading more
/// bytes never lowers what is reported, for sources of known and of unknown
/// length alike.
pub proof fn lemma_reports_never_decrease(total: Option<u64>, earlier: u64, later: u64)
    requires
        earlier <= later,
    ensures
        (reported(total, later), reported(total, earlier)) matches (Some(p), Some(q)) ==> q.le(p),
{
    match total {
        Some(t) => {
            if t > 0 {
                let q = known_progress(t, earlier);
                let p = known_progress(t, later);
                assert(q.num as int * t as int <= p.num as int * t as int) by (nonlinear_arith)
                    requires
                        q.num <= p.num,
                        0 <= t,
                ;
            }
        },
        None => {
            let q = stream_estimate(earlier);
            let p = stream_estimate(later);
            assert(q.le(p)) by (nonlinear_arith)
                requires
                    earlier <= later,
                    q == stream_estimate(earlier),
                    p == stream_estimate(later),
            ;
        },
    }
}

/// A transfer of known positive length reports exactly one as soon as all of
/// its bytes have been read, and a successful operation ends on exactly one.
pub proof fn lemma_known_length_ends_on_one(total: u64, read: u64)
    requires
        total > 0,
        read >= total,
    ensures
        reported(Some(total), read) matches Some(p) && p.is_complete(),
        reported(Some(total), read) matches Some(p) && p.same_value(Progress { num: 1, den: 1 }),
{
}

/// A stream of unknown length never reports one, however many bytes it has
/// delivered: only the operation's success sets the fraction to one.
pub proof fn lemma_stream_never_reports_one(read: u64)
    ensures
        reported(None, read) matches Some(p) && p.wf() && !p.is_complete() && !(Progress {
            num: 1,
            den: 1,
        }).le(p),
{
}

/// The number of bytes that the first `k` of the read calls `reads` have
/// returned together.
pub open spec fn bytes_after(reads: Seq<usize>, k: int) -> int
    decreases k,
{
    if k <= 0 {
        0
    } else {
        bytes_after(reads, k - 1) + reads[k - 1]
    }
}

/// The byte count grows with the number of read calls.
pub proof fn lemma_bytes_grow(reads: Seq<usize>, i: int, j: int)
    requires
        0 <= i <= j <= reads.len(),
    ensures
        0 <= bytes_after(reads, i) <= bytes_after(reads, j),
    decreases j,
{
    if j > 0 {
        if i < j {
            lemma_bytes_grow(reads, i, j - 1);
        } else {
            lemma_bytes_grow(reads, i - 1, j - 1);
        }
    }
}

/// Over any sequence of read calls of one attempt, what is reported after a
/// later call is never less than what was reported after an earlier one, and
/// every report is a fraction between zero and one; for a transfer of known
/// positive length, the report is exactly one once the calls have delivered
/// all of its bytes; and for a stream of unknown length no report is one.
pub proof fn lemma_sequence_of_reports(total: Option<u64>, reads: Seq<usize>, i: int, j: int)
    requires
        0 <= i <= j <= reads.len(),
    ensures
        capped(bytes_after(reads, i)) <= capped(bytes_after(reads, j)),
        (reported(total, capped(bytes_after(reads, j))), reported(
            total,
            capped(bytes_after(reads, i)),
        )) matches (Some(p), Some(q)) ==> q.le(p) && p.wf() && q.wf(),
        total matches Some(t) && t > 0 && bytes_after(reads, j) >= t ==> (reported(
            total,
            capped(bytes_after(reads, j)),
        ) matches Some(p) && p.is_complete()),
        total is None ==> (reported(total, capped(bytes_after(reads, j))) matches Some(p)
            && !p.is_complete()),
{
    lemma_bytes_grow(reads, i, j);
    lemma_reports_never_decrease(
        total,
        capped(bytes_after(reads, i)),
        capped(bytes_after(reads, j)),
    );
}

/// A reader that has seen the first `k` read calls of `reads` holds their
/// bytes, counted as `capped` says: one more call takes the count from that
/// of `k` calls to that of `k + 1`.
pub proof fn lemma_count_follows_reads(reads: Seq<usize>, k: int)
    requires
        0 <= k < reads.len(),
    ensures
        capped(capped(bytes_after(reads, k)) + reads[k]) == capped(bytes_after(reads, k + 1)),
{
    lemma_bytes_grow(reads, 0, k);
}

} // verus!
