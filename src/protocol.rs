//! One request and its answer: the bytes written to the loop's standard
//! input, and the reading of its standard output up to the end-of-output
//! marker.
use vstd::prelude::*;
use vstd::utf8::encode_utf8;

use crate::error::Error;

verus! {

/// Opens the async function that wraps the caller's code.
pub const FRAME_OPEN: &'static str = ";(async () =>{\n";

/// Follows the caller's code: the start of the write of the marker.
pub const FRAME_WRITE: &'static str = "; process.stdout.write('";

/// Follows the marker: ends the write, then calls the function.
pub const FRAME_CLOSE: &'static str = "');})();";

/// The code that ends the loop.
pub const STOP_CODE: &'static str = "queue.done()";

/// The bytes sent for `code`: an async function that runs it and then writes
/// `eof` to standard output, called at once.
pub open spec fn framed(code: Seq<char>, eof: Seq<u8>) -> Seq<u8> {
    encode_utf8(FRAME_OPEN@) + encode_utf8(code) + encode_utf8(FRAME_WRITE@) + eof + encode_utf8(
        FRAME_CLOSE@,
    )
}

/// The first `k` bytes of `s` end with `eof`.
pub open spec fn ends_at(s: Seq<u8>, k: int, eof: Seq<u8>) -> bool {
    eof.len() <= k <= s.len() && s.subrange(k - eof.len(), k) == eof
}

/// No prefix of `s` shorter than `k` ends with `eof`.
pub open spec fn no_end_before(s: Seq<u8>, k: int, eof: Seq<u8>) -> bool {
    forall|j: int| 0 <= j < k ==> !#[trigger] ends_at(s, j, eof)
}

/// `eof` occurs nowhere in `s`.
pub open spec fn free_of(s: Seq<u8>, eof: Seq<u8>) -> bool {
    no_end_before(s, s.len() + 1 as int, eof)
}

/// Reading `s` ends after its first `used` bytes, where `eof` first shows up,
/// and answers `out`, what came before that `eof`.
pub open spec fn is_answer(s: Seq<u8>, eof: Seq<u8>, out: Seq<u8>, used: int) -> bool {
    &&& ends_at(s, used, eof)
    &&& no_end_before(s, used, eof)
    &&& out == s.take(used - eof.len())
}

/// Appends `src` to `dst`.
fn push_all(dst: &mut Vec<u8>, src: &[u8])
    ensures
        final(dst)@ == old(dst)@ + src@,
{
    let mut i: usize = 0;
    while i < src.len()
        invariant
            i <= src.len(),
            dst@ == old(dst)@ + src@.take(i as int),
        decreases src.len() - i,
    {
        dst.push(src[i]);
        i = i + 1;
        assert(dst@ =~= old(dst)@ + src@.take(i as int));
    }
    assert(src@.take(src.len() as int) =~= src@);
}

/// The bytes to write to the loop's standard input to run `code` and have
/// its output ended by `eof`.
pub fn frame_request(code: &str, eof: &[u8]) -> (r: Vec<u8>)
    ensures
        r@ == framed(code@, eof@),
{
    let mut r: Vec<u8> = Vec::new();
    push_all(&mut r, FRAME_OPEN.as_bytes());
    push_all(&mut r, code.as_bytes());
    push_all(&mut r, FRAME_WRITE.as_bytes());
    push_all(&mut r, eof);
    push_all(&mut r, FRAME_CLOSE.as_bytes());
    assert(r@ =~= framed(code@, eof@));
    r
}

/// Whether `s` ends with `eof`.
fn ends_with(s: &Vec<u8>, eof: &Vec<u8>) -> (r: bool)
    ensures
        r == ends_at(s@, s@.len() as int, eof@),
{
    if eof.len() > s.len() {
        return false;
    }
    let start = s.len() - eof.len();
    let mut i: usize = 0;
    while i < eof.len()
        invariant
            start + eof.len() == s.len(),
            i <= eof.len(),
            forall|j: int| 0 <= j < i ==> s@[start + j] == eof@[j],
        decreases eof.len() - i,
    {
        if s[start + i] != eof[i] {
            assert(s@.subrange(start as int, s@.len() as int)[i as int] != eof@[i as int]);
            return false;
        }
        i = i + 1;
    }
    assert(s@.subrange(start as int, s@.len() as int) =~= eof@);
    true
}

/// What a scanner holds: the bytes read since the last answer, and the marker.
pub ghost struct ScannerView {
    pub pending: Seq<u8>,
    pub eof: Seq<u8>,
}

/// Reads standard output one byte at a time and cuts it into answers at each
/// end-of-output marker.
pub struct ResponseScanner {
    pending: Vec<u8>,
    eof: Vec<u8>,
}

impl View for ResponseScanner {
    type V = ScannerView;

    closed spec fn view(&self) -> ScannerView {
        ScannerView { pending: self.pending@, eof: self.eof@ }
    }
}

impl ResponseScanner {
    /// The marker is not empty, and the bytes read since the last answer do
    /// not hold it.
    pub open spec fn wf(&self) -> bool {
        self@.eof.len() > 0 && free_of(self@.pending, self@.eof)
    }

    /// A scanner that ends each answer at `eof`, with nothing read yet.
    pub fn new(eof: Vec<u8>) -> (r: ResponseScanner)
        requires
            eof@.len() > 0,
        ensures
            r.wf(),
            r@.pending.len() == 0,
            r@.eof == eof@,
    {
        ResponseScanner { pending: Vec::new(), eof }
    }

    /// Takes one byte of standard output. When it completes the marker, the
    /// bytes before the marker are the answer, and the scanner starts afresh.
    pub fn push(&mut self, b: u8) -> (r: Option<Vec<u8>>)
        requires
            old(self).wf(),
        ensures
            final(self).wf(),
            final(self)@.eof == old(self)@.eof,
            ({
                let s = old(self)@.pending.push(b);
                let eof = old(self)@.eof;
                if ends_at(s, s.len() as int, eof) {
                    &&& r matches Some(out) && out@ == s.take(s.len() - eof.len())
                    &&& final(self)@.pending.len() == 0
                } else {
                    &&& r is None
                    &&& final(self)@.pending == s
                }
            }),
    {
        let ghost s0 = self.pending@;
        self.pending.push(b);
        proof {
            assert forall|j: int| 0 <= j < self.pending@.len() implies !#[trigger] ends_at(
                self.pending@,
                j,
                self.eof@,
            ) by {
                if self.eof@.len() <= j {
                    assert(self.pending@.subrange(j - self.eof@.len(), j) =~= s0.subrange(
                        j - self.eof@.len(),
                        j,
                    ));
                }
                assert(!ends_at(s0, j, self.eof@));
            }
        }
        if ends_with(&self.pending, &self.eof) {
            let n = self.pending.len() - self.eof.len();
            self.pending.truncate(n);
            let mut out: Vec<u8> = Vec::new();
            std::mem::swap(&mut out, &mut self.pending);
            proof {
                assert(out@ =~= s0.push(b).take(n as int));
                assert forall|j: int| 0 <= j < 1 implies !#[trigger] ends_at(self.pending@, j, self.eof@) by {}
            }
            Some(out)
        } else {
            None
        }
    }

    /// Standard output ended before the marker: the bytes read since the last
    /// answer, as an error.
    pub fn end_of_stream(self) -> (e: Error)
        ensures
            e matches Error::UnexpectedEof(p) && p@ == self@.pending,
    {
        Error::UnexpectedEof(self.pending)
    }
}

/// Reads an answer from the bytes `stdout`, one at a time: the bytes before
/// the first `eof`, and how many bytes were taken up to the end of that `eof`.
/// When `eof` never shows up, all of `stdout` comes back in
/// [`Error::UnexpectedEof`].
pub fn pull_result_from_stdout(stdout: &[u8], eof: &[u8]) -> (r: Result<(Vec<u8>, usize), Error>)
    requires
        eof@.len() > 0,
    ensures
        match r {
            Ok((out, used)) => is_answer(stdout@, eof@, out@, used as int),
            Err(e) => free_of(stdout@, eof@) && (e matches Error::UnexpectedEof(p) && p@ == stdout@),
        },
{
    let mut eof_vec: Vec<u8> = Vec::new();
    push_all(&mut eof_vec, eof);
    assert(eof_vec@ =~= eof@);
    let mut scanner = ResponseScanner::new(eof_vec);
    let mut i: usize = 0;
    while i < stdout.len()
        invariant
            i <= stdout.len(),
            scanner.wf(),
            scanner@.eof == eof@,
            scanner@.pending == stdout@.take(i as int),
            no_end_before(stdout@, i + 1, eof@),
        decreases stdout.len() - i,
    {
        let b = stdout[i];
        let ghost before = scanner@.pending;
        let step = scanner.push(b);
        assert(before.push(b) =~= stdout@.take(i + 1));
        proof {
            assert forall|j: int| 0 <= j <= i + 1 implies #[trigger] ends_at(stdout@, j, eof@)
                == ends_at(stdout@.take(i + 1), j, eof@) by {
                if eof@.len() <= j {
                    assert(stdout@.subrange(j - eof@.len(), j) =~= stdout@.take(i + 1).subrange(
                        j - eof@.len(),
                        j,
                    ));
                }
            }
        }
        match step {
            Some(out) => {
                assert(ends_at(stdout@, i + 1, eof@));
                assert(out@ =~= stdout@.take(i + 1 - eof@.len()));
                return Ok((out, i + 1));
            },
            None => {
                assert(!ends_at(stdout@, i + 1, eof@));
            },
        }
        i = i + 1;
    }
    assert(stdout@.take(stdout.len() as int) =~= stdout@);
    Err(scanner.end_of_stream())
}

/// What came before the marker holds no copy of the marker, least of all at
/// its end, whatever the marker's length or content.
pub proof fn lemma_answer_free_of_marker(s: Seq<u8>, eof: Seq<u8>, out: Seq<u8>, used: int)
    requires
        eof.len() > 0,
        is_answer(s, eof, out, used),
    ensures
        free_of(out, eof),
        !(out.len() >= eof.len() && out.subrange(out.len() - eof.len(), out.len() as int) == eof),
{
    assert forall|j: int| 0 <= j < out.len() + 1 implies !#[trigger] ends_at(out, j, eof) by {
        if ends_at(out, j, eof) {
            assert(out.subrange(j - eof.len(), j) =~= s.subrange(j - eof.len(), j));
            assert(ends_at(s, j, eof));
        }
    }
    assert(!ends_at(out, out.len() as int, eof));
}

/// The echo law: when code writes `out` and then the marker, and the marker
/// shows up nowhere before its own place, the answer is exactly `out`,
/// whatever follows on the stream.
pub proof fn lemma_echo(out: Seq<u8>, eof: Seq<u8>, rest: Seq<u8>)
    requires
        eof.len() > 0,
        no_end_before(out + eof, out.len() + eof.len() as int, eof),
    ensures
        is_answer(out + eof + rest, eof, out, out.len() + eof.len() as int),
        forall|o: Seq<u8>, u: int| #[trigger] is_answer(out + eof + rest, eof, o, u) ==> o == out && u
            == out.len() + eof.len(),
{
    let s = out + eof + rest;
    let k: int = (out.len() + eof.len()) as int;
    assert(s.subrange(out.len() as int, k) =~= eof);
    assert(s.take(out.len() as int) =~= out);
    assert forall|j: int| 0 <= j < k implies !#[trigger] ends_at(s, j, eof) by {
        if ends_at(s, j, eof) {
            assert(s.subrange(j - eof.len(), j) =~= (out + eof).subrange(j - eof.len(), j));
            assert(ends_at(out + eof, j, eof));
        }
    }
    assert forall|o: Seq<u8>, u: int| #[trigger] is_answer(s, eof, o, u) implies o == out && u == k by {
        if u < k {
            assert(!ends_at(s, u, eof));
        }
        if u > k {
            assert(ends_at(s, k, eof));
        }
    }
}

} // verus!
