//! The embedded shell session: a model of the pseudo-terminal's line I/O.
//!
//! The caller owns the real pseudo-terminal.  It hands every chunk the
//! background reader produced to [`PtySession::push_chunk`] and carries the
//! writes queued by [`PtySession::send_line`] out via
//! [`PtySession::take_outgoing`]; [`PtySession::drain_output`] turns the
//! queued chunks into display lines without ever blocking.

use vstd::prelude::*;
use vstd::string::StrSliceExecFns;

use crate::text::{lemma_deep_view_push, push_char};

verus! {

/// A chunk with one trailing carriage return removed, as `str::lines` does.
pub open spec fn strip_cr(s: Seq<char>) -> Seq<char> {
    if s.len() > 0 && s[s.len() - 1] == '\r' {
        s.take(s.len() - 1)
    } else {
        s
    }
}

/// The index of the first newline in `s`, or `s.len()` if there is none.
pub open spec fn first_nl(s: Seq<char>) -> int
    decreases s.len(),
{
    if s.len() == 0 {
        0
    } else if s[0] == '\n' {
        0
    } else {
        1 + first_nl(s.skip(1))
    }
}

pub broadcast proof fn lemma_first_nl_bounds(s: Seq<char>)
    ensures
        0 <= #[trigger] first_nl(s) <= s.len(),
    decreases s.len(),
{
    if s.len() > 0 && s[0] != '\n' {
        lemma_first_nl_bounds(s.skip(1));
    }
}

/// `first_nl` coincides with the first index a left-to-right scan stops at.
proof fn lemma_first_nl_at(s: Seq<char>, q: int)
    requires
        0 <= q <= s.len(),
        forall|p: int| 0 <= p < q ==> s[p] != '\n',
        q < s.len() ==> s[q] == '\n',
    ensures
        first_nl(s) == q,
    decreases q,
{
    if s.len() > 0 && s[0] != '\n' {
        let t = s.skip(1);
        assert(forall|p: int| 0 <= p < q - 1 ==> t[p] == s[p + 1]);
        lemma_first_nl_at(t, q - 1);
    }
}

/// What `str::lines` yields on one chunk: segments split at newlines, each
/// with a trailing carriage return removed, and no final empty segment.
pub open spec fn line_segments(s: Seq<char>) -> Seq<Seq<char>>
    decreases s.len(),
    via line_segments_decreases
{
    if s.len() == 0 {
        Seq::empty()
    } else {
        let k = first_nl(s);
        if k >= s.len() {
            seq![strip_cr(s)]
        } else {
            seq![strip_cr(s.take(k))] + line_segments(s.skip(k + 1))
        }
    }
}

#[via_fn]
proof fn line_segments_decreases(s: Seq<char>) {
    broadcast use lemma_first_nl_bounds;

}

/// All display lines produced by a queue of chunks, chunk by chunk.
pub open spec fn drained_lines(chunks: Seq<Seq<char>>) -> Seq<Seq<char>>
    decreases chunks.len(),
{
    if chunks.len() == 0 {
        Seq::empty()
    } else {
        line_segments(chunks[0]) + drained_lines(chunks.skip(1))
    }
}

/// The bytes written for one submitted line: the line plus a newline.
pub open spec fn wire_line(line: Seq<char>) -> Seq<char> {
    line.push('\n')
}

/// The observable state of a session: chunks received and writes queued.
#[verifier::ext_equal]
pub struct SessionModel {
    /// Chunks produced by the shell, not yet drained.
    pub inbox: Seq<Seq<char>>,
    /// Wire writes queued for the pseudo-terminal, not yet carried out.
    pub outbox: Seq<Seq<char>>,
}

/// An interactive shell under a pseudo-terminal, seen as line I/O.
pub struct PtySession {
    inbox: Vec<String>,
    outbox: Vec<String>,
}

impl View for PtySession {
    type V = SessionModel;

    closed spec fn view(&self) -> SessionModel {
        SessionModel { inbox: self.inbox.deep_view(), outbox: self.outbox.deep_view() }
    }
}

impl PtySession {
    /// A fresh session: nothing received, nothing queued.
    pub fn new() -> (s: Self)
        ensures
            s@.inbox.len() == 0,
            s@.outbox.len() == 0,
    {
        let s = PtySession { inbox: Vec::new(), outbox: Vec::new() };
        proof {
            assert(s.inbox.deep_view() =~= Seq::<Seq<char>>::empty());
            assert(s.outbox.deep_view() =~= Seq::<Seq<char>>::empty());
        }
        s
    }

    /// Records one chunk read from the pseudo-terminal.
    pub fn push_chunk(&mut self, chunk: String)
        ensures
            final(self)@.inbox == old(self)@.inbox.push(chunk@),
            final(self)@.outbox == old(self)@.outbox,
    {
        self.inbox.push(chunk);
        proof {
            assert(self.inbox.deep_view() =~= old(self).inbox.deep_view().push(
                self.inbox@[self.inbox@.len() - 1]@,
            ));
        }
    }

    /// Queues one command line, newline appended, for the pseudo-terminal.
    pub fn send_line(&mut self, line: &str)
        ensures
            final(self)@.outbox == old(self)@.outbox.push(wire_line(line@)),
            final(self)@.inbox == old(self)@.inbox,
    {
        let mut w = line.to_owned();
        push_char(&mut w, '\n');
        self.outbox.push(w);
        proof {
            assert(self.outbox.deep_view() =~= old(self).outbox.deep_view().push(
                line@.push('\n'),
            ));
        }
    }

    /// Hands out the queued wire writes, leaving the queue empty.
    pub fn take_outgoing(&mut self) -> (r: Vec<String>)
        ensures
            r.deep_view() == old(self)@.outbox,
            final(self)@.outbox.len() == 0,
            final(self)@.inbox == old(self)@.inbox,
    {
        let mut r: Vec<String> = Vec::new();
        core::mem::swap(&mut r, &mut self.outbox);
        proof {
            assert(self.outbox.deep_view() =~= Seq::<Seq<char>>::empty());
        }
        r
    }

    /// Pops every queued chunk and returns its display lines, in order.
    ///
    /// With nothing received since the last call this returns the empty
    /// vector; it never blocks, since it only inspects queued data.
    pub fn drain_output(&mut self) -> (r: Vec<String>)
        ensures
            r.deep_view() == drained_lines(old(self)@.inbox),
            final(self)@.inbox.len() == 0,
            final(self)@.outbox == old(self)@.outbox,
            old(self)@.inbox.len() == 0 ==> r@.len() == 0,
    {
        let mut out: Vec<String> = Vec::new();
        proof {
            assert(out.deep_view() =~= Seq::<Seq<char>>::empty());
        }
        let n = self.inbox.len();
        let mut ci: usize = 0;
        while ci < n
            invariant
                0 <= ci <= n,
                n == self.inbox@.len(),
                self == old(self),
                out.deep_view() == drained_lines(self@.inbox.take(ci as int)),
            decreases n - ci,
        {
            let ghost prefix = self@.inbox.take(ci as int);
            append_lines(self.inbox[ci].as_str(), &mut out);
            proof {
                lemma_drained_lines_snoc(prefix, self@.inbox[ci as int]);
                assert(self@.inbox.take(ci + 1) =~= prefix.push(self@.inbox[ci as int]));
            }
            ci += 1;
        }
        proof {
            assert(self@.inbox.take(n as int) =~= self@.inbox);
        }
        self.inbox = Vec::new();
        proof {
            assert(self.inbox.deep_view() =~= Seq::<Seq<char>>::empty());
        }
        out
    }
}

/// Draining one more chunk appends that chunk's segments.
proof fn lemma_drained_lines_snoc(chunks: Seq<Seq<char>>, c: Seq<char>)
    ensures
        drained_lines(chunks.push(c)) == drained_lines(chunks) + line_segments(c),
    decreases chunks.len(),
{
    let whole = chunks.push(c);
    if chunks.len() == 0 {
        assert(whole[0] == c);
        assert(whole.skip(1) =~= Seq::<Seq<char>>::empty());
        assert(drained_lines(whole.skip(1)) == Seq::<Seq<char>>::empty());
        assert(drained_lines(whole) == line_segments(c) + Seq::<Seq<char>>::empty());
        assert(line_segments(c) + Seq::<Seq<char>>::empty() =~= line_segments(c));
        assert(drained_lines(chunks) + line_segments(c) =~= line_segments(c));
    } else {
        assert(whole[0] == chunks[0]);
        assert(whole.skip(1) =~= chunks.skip(1).push(c));
        lemma_drained_lines_snoc(chunks.skip(1), c);
        assert(drained_lines(whole) =~= drained_lines(chunks) + line_segments(c));
    }
}

/// Splits one chunk into display lines and appends them to `out`.
fn append_lines(chunk: &str, out: &mut Vec<String>)
    ensures
        final(out).deep_view() == old(out).deep_view() + line_segments(chunk@),
{
    let ghost base = out.deep_view();
    let ghost mut done: Seq<Seq<char>> = Seq::empty();
    let n = chunk.unicode_len();
    let mut i: usize = 0;
    proof {
        assert(base + done =~= base);
        assert(chunk@.skip(0) =~= chunk@);
    }
    while i < n
        invariant
            0 <= i <= n,
            n == chunk@.len(),
            out.deep_view() == base + done,
            line_segments(chunk@) == done + line_segments(chunk@.skip(i as int)),
        decreases n - i,
    {
        let ghost t = chunk@.skip(i as int);
        let mut j: usize = i;
        while j < n && chunk.get_char(j) != '\n'
            invariant
                i <= j <= n,
                n == chunk@.len(),
                forall|p: int| i <= p < j ==> chunk@[p] != '\n',
            decreases n - j,
        {
            j += 1;
        }
        proof {
            assert(forall|p: int| 0 <= p < j - i ==> t[p] == chunk@[i + p]);
            if j < n {
                assert(t[j - i] == chunk@[j as int]);
            }
            lemma_first_nl_at(t, j - i);
        }
        let e: usize = if j > i && chunk.get_char(j - 1) == '\r' {
            j - 1
        } else {
            j
        };
        let ghost pre_out = *out;
        let ghost done_old = done;
        let segment = chunk.substring_char(i, e);
        let owned = segment.to_owned();
        let ghost owned_snap = owned;
        out.push(owned);
        proof {
            let seg = chunk@.subrange(i as int, e as int);
            lemma_deep_view_push(pre_out, *out, owned_snap);
            assert(out.deep_view() == (base + done_old).push(seg));
            done = done_old.push(seg);
            assert(base + done =~= (base + done_old).push(seg));
            if j == n {
                assert(t =~= chunk@.subrange(i as int, n as int));
                if j > i && chunk@[j - 1] == '\r' {
                    assert(t.take(t.len() - 1) =~= seg);
                } else {
                    assert(t =~= seg);
                }
                assert(strip_cr(t) == seg);
                assert(line_segments(t) =~= seq![seg]);
                assert(chunk@.skip(n as int) =~= Seq::<char>::empty());
                assert(line_segments(chunk@.skip(n as int)) == Seq::<Seq<char>>::empty());
                assert(done_old + line_segments(t) =~= done + line_segments(
                    chunk@.skip(n as int),
                ));
            } else {
                let u = t.take(j - i);
                assert(u =~= chunk@.subrange(i as int, j as int));
                if j > i && chunk@[j - 1] == '\r' {
                    assert(u.take(u.len() - 1) =~= seg);
                } else {
                    assert(u =~= seg);
                }
                assert(strip_cr(u) == seg);
                assert(t.skip(j - i + 1) =~= chunk@.skip(j + 1));
                assert(line_segments(t) =~= seq![seg] + line_segments(chunk@.skip(j + 1)));
                assert(done_old + line_segments(t) =~= done + line_segments(chunk@.skip(j + 1)));
            }
        }
        if j < n {
            i = j + 1;
        } else {
            i = n;
        }
    }
    proof {
        assert(chunk@.skip(n as int) =~= Seq::<char>::empty());
        assert(done + line_segments(chunk@.skip(n as int)) =~= done);
        assert(out.deep_view() =~= base + line_segments(chunk@));
    }
}

} // verus!
