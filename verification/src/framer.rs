//! The line framer: turns a stream of byte chunks into trimmed,
//! newline-delimited lines.
//!
//! A [`LineBuffer`] accumulates decoded characters. Each `feed` appends one
//! chunk and yields every line completed by a newline inside it, trimmed of
//! surrounding white space, with lines that are blank after trimming dropped.
//! Whatever follows the last newline stays buffered for the next call;
//! `flush` yields it once at stream end. Between calls the buffer never holds
//! a newline.

use vstd::prelude::*;

use crate::text::trim;

verus! {

/// What `String::from_utf8_lossy` returns for a byte sequence: the decoded
/// characters, with ill-formed UTF-8 replaced. The result depends on the
/// bytes alone.
pub uninterp spec fn decoded(b: Seq<u8>) -> Seq<char>;

/// Relies on `String::from_utf8_lossy`: decodes the chunk, replacing invalid
/// byte sequences instead of failing, and decodes no bytes but the given ones.
#[verifier::external_body]
fn decode_chunk(chunk: &[u8]) -> (r: Vec<char>)
    ensures
        r@ == decoded(chunk@),
        chunk@.len() == 0 ==> r@.len() == 0,
{
    String::from_utf8_lossy(chunk).chars().collect()
}

/// Relies on `String`'s `FromIterator<char>`: collecting characters builds
/// the string holding exactly those characters in order.
#[verifier::external_body]
fn string_of_chars(cs: Vec<char>) -> (r: String)
    ensures
        r@ == cs@,
{
    cs.into_iter().collect()
}

/// No newline anywhere in `s` — the rest-state invariant of a line buffer.
pub open spec fn no_newline(s: Seq<char>) -> bool {
    forall|i: int| 0 <= i < s.len() ==> s[i] != '\n'
}

/// The line yielded for one completed raw segment `p`: its trimmed form if
/// that is non-empty, nothing otherwise.
pub open spec fn line_out(p: Seq<char>) -> Seq<Seq<char>> {
    if trim(p).len() > 0 {
        seq![trim(p)]
    } else {
        Seq::<Seq<char>>::empty()
    }
}

/// The lines yielded while scanning `s` with `pending` already buffered.
pub open spec fn framed_from(pending: Seq<char>, s: Seq<char>) -> Seq<Seq<char>>
    decreases s.len(),
{
    if s.len() == 0 {
        Seq::<Seq<char>>::empty()
    } else if s[0] == '\n' {
        line_out(pending) + framed_from(Seq::<char>::empty(), s.skip(1))
    } else {
        framed_from(pending.push(s[0]), s.skip(1))
    }
}

/// What stays buffered after scanning `s` with `pending` already buffered.
pub open spec fn rest_from(pending: Seq<char>, s: Seq<char>) -> Seq<char>
    decreases s.len(),
{
    if s.len() == 0 {
        pending
    } else if s[0] == '\n' {
        rest_from(Seq::<char>::empty(), s.skip(1))
    } else {
        rest_from(pending.push(s[0]), s.skip(1))
    }
}

/// The lines yielded for a whole stream `s` fed from an empty buffer.
pub open spec fn framed(s: Seq<char>) -> Seq<Seq<char>> {
    framed_from(Seq::<char>::empty(), s)
}

/// What stays buffered after a whole stream `s` fed from an empty buffer.
pub open spec fn rest(s: Seq<char>) -> Seq<char> {
    rest_from(Seq::<char>::empty(), s)
}

/// What one `flush` yields and leaves: the trimmed remainder if non-blank,
/// and an empty buffer either way.
pub open spec fn flush_spec(s: Seq<char>) -> (Option<Seq<char>>, Seq<char>) {
    (
        if trim(s).len() > 0 {
            Some(trim(s))
        } else {
            None
        },
        Seq::<char>::empty(),
    )
}

/// The raw newline-separated segments of `s`, `pending` included in the
/// first: one more segment than there are newlines, untrimmed.
pub open spec fn segments_from(pending: Seq<char>, s: Seq<char>) -> Seq<Seq<char>>
    decreases s.len(),
{
    if s.len() == 0 {
        seq![pending]
    } else if s[0] == '\n' {
        seq![pending] + segments_from(Seq::<char>::empty(), s.skip(1))
    } else {
        segments_from(pending.push(s[0]), s.skip(1))
    }
}

/// The raw newline-separated segments of a whole stream `s`.
pub open spec fn segments(s: Seq<char>) -> Seq<Seq<char>> {
    segments_from(Seq::<char>::empty(), s)
}

/// The given lines joined back together with a single newline between them.
pub open spec fn join_lines(ls: Seq<Seq<char>>) -> Seq<char>
    decreases ls.len(),
{
    if ls.len() == 0 {
        Seq::<char>::empty()
    } else if ls.len() == 1 {
        ls[0]
    } else {
        ls[0] + seq!['\n'] + join_lines(ls.skip(1))
    }
}

/// Each line of `ls` trimmed, with lines that are blank after trimming
/// dropped, order kept.
pub open spec fn kept_trimmed(ls: Seq<Seq<char>>) -> Seq<Seq<char>>
    decreases ls.len(),
{
    if ls.len() == 0 {
        Seq::<Seq<char>>::empty()
    } else {
        line_out(ls[0]) + kept_trimmed(ls.skip(1))
    }
}

/// Framing is insensitive to how the stream is cut into chunks: scanning
/// `s + t` yields the lines of `s` followed by the lines of `t` scanned with
/// `s`'s leftover buffered, and leaves what `t` leaves. No line is ever
/// split across two yields and none is yielded twice, wherever the stream
/// is cut.
pub proof fn lemma_framed_from_concat(p: Seq<char>, s: Seq<char>, t: Seq<char>)
    ensures
        framed_from(p, s + t) == framed_from(p, s) + framed_from(rest_from(p, s), t),
        rest_from(p, s + t) == rest_from(rest_from(p, s), t),
    decreases s.len(),
{
    if s.len() == 0 {
        assert(s + t =~= t);
        assert(framed_from(p, s) + framed_from(rest_from(p, s), t) =~= framed_from(p, t));
    } else {
        let s1 = s.skip(1);
        assert((s + t)[0] == s[0]);
        assert((s + t).skip(1) =~= s1 + t);
        if s[0] == '\n' {
            lemma_framed_from_concat(Seq::<char>::empty(), s1, t);
            assert(line_out(p) + (framed_from(Seq::<char>::empty(), s1) + framed_from(
                rest_from(Seq::<char>::empty(), s1),
                t,
            )) =~= (line_out(p) + framed_from(Seq::<char>::empty(), s1)) + framed_from(
                rest_from(Seq::<char>::empty(), s1),
                t,
            ));
        } else {
            lemma_framed_from_concat(p.push(s[0]), s1, t);
        }
    }
}

/// One more character: a non-newline is simply buffered; a newline completes
/// the buffered segment and yields its trimmed form if non-blank.
proof fn lemma_framed_from_snoc(p: Seq<char>, s: Seq<char>, c: char)
    ensures
        c != '\n' ==> framed_from(p, s.push(c)) == framed_from(p, s) && rest_from(p, s.push(c))
            == rest_from(p, s).push(c),
        c == '\n' ==> framed_from(p, s.push(c)) == framed_from(p, s) + line_out(rest_from(p, s))
            && rest_from(p, s.push(c)) == Seq::<char>::empty(),
{
    assert(s.push(c) =~= s + seq![c]);
    lemma_framed_from_concat(p, s, seq![c]);
    let q = rest_from(p, s);
    let one = seq![c];
    assert(one.len() == 1);
    assert(one[0] == c);
    let tail = one.skip(1);
    assert(tail.len() == 0);
    if c == '\n' {
        assert(framed_from(Seq::<char>::empty(), tail) =~= Seq::<Seq<char>>::empty());
        assert(framed_from(q, one) == line_out(q) + framed_from(Seq::<char>::empty(), tail));
        assert(line_out(q) + Seq::<Seq<char>>::empty() =~= line_out(q));
        assert(rest_from(Seq::<char>::empty(), tail) == Seq::<char>::empty());
        assert(rest_from(q, one) == Seq::<char>::empty());
    } else {
        assert(framed_from(q.push(c), tail) =~= Seq::<Seq<char>>::empty());
        assert(framed_from(q, one) == framed_from(q.push(c), tail));
        assert(framed_from(p, s) + Seq::<Seq<char>>::empty() =~= framed_from(p, s));
        assert(rest_from(q.push(c), tail) == q.push(c));
        assert(rest_from(q, one) == q.push(c));
    }
}

/// A newline-free prefix may equally be taken as already buffered: scanning
/// `p + s` from `q` is scanning `s` from `q + p`.
proof fn lemma_framed_from_clean_prefix(q: Seq<char>, p: Seq<char>, s: Seq<char>)
    requires
        no_newline(p),
    ensures
        framed_from(q, p + s) == framed_from(q + p, s),
        rest_from(q, p + s) == rest_from(q + p, s),
    decreases p.len(),
{
    if p.len() == 0 {
        assert(p + s =~= s);
        assert(q + p =~= q);
    } else {
        assert((p + s)[0] == p[0]);
        assert((p + s).skip(1) =~= p.skip(1) + s);
        lemma_framed_from_clean_prefix(q.push(p[0]), p.skip(1), s);
        assert(q.push(p[0]) + p.skip(1) =~= q + p);
    }
}

proof fn lemma_segments_from_len(p: Seq<char>, s: Seq<char>)
    ensures
        segments_from(p, s).len() >= 1,
    decreases s.len(),
{
    if s.len() > 0 {
        if s[0] == '\n' {
            lemma_segments_from_len(Seq::<char>::empty(), s.skip(1));
        } else {
            lemma_segments_from_len(p.push(s[0]), s.skip(1));
        }
    }
}

/// No character is lost: joining the raw segments of a stream with a single
/// newline between them restores the stream exactly.
pub proof fn lemma_segments_reconstruct(s: Seq<char>)
    ensures
        join_lines(segments(s)) == s,
{
    lemma_segments_reconstruct_from(Seq::<char>::empty(), s);
    assert(Seq::<char>::empty() + s =~= s);
}

proof fn lemma_segments_reconstruct_from(p: Seq<char>, s: Seq<char>)
    ensures
        join_lines(segments_from(p, s)) == p + s,
    decreases s.len(),
{
    if s.len() == 0 {
        assert(segments_from(p, s) =~= seq![p]);
        assert(join_lines(seq![p]) == p);
        assert(p + s =~= p);
    } else if s[0] == '\n' {
        let r = segments_from(Seq::<char>::empty(), s.skip(1));
        lemma_segments_from_len(Seq::<char>::empty(), s.skip(1));
        lemma_segments_reconstruct_from(Seq::<char>::empty(), s.skip(1));
        let whole = seq![p] + r;
        assert(whole.len() >= 2);
        assert(whole[0] == p);
        assert(whole.skip(1) =~= r);
        assert(Seq::<char>::empty() + s.skip(1) =~= s.skip(1));
        assert(p + seq!['\n'] + s.skip(1) =~= p + s);
    } else {
        lemma_segments_reconstruct_from(p.push(s[0]), s.skip(1));
        assert(p.push(s[0]) + s.skip(1) =~= p + s);
    }
}

/// Everything the framer yields for a stream — the lines from every feed,
/// plus the final flush of the leftover — is exactly the raw segments of
/// that stream, each trimmed, with blank segments dropped and order kept.
pub proof fn lemma_emitted_lines(s: Seq<char>)
    ensures
        framed(s) + line_out(rest(s)) == kept_trimmed(segments(s)),
{
    lemma_emitted_lines_from(Seq::<char>::empty(), s);
}

proof fn lemma_emitted_lines_from(p: Seq<char>, s: Seq<char>)
    ensures
        framed_from(p, s) + line_out(rest_from(p, s)) == kept_trimmed(segments_from(p, s)),
    decreases s.len(),
{
    if s.len() == 0 {
        let one = seq![p];
        assert(one.len() == 1);
        assert(one[0] == p);
        let tail = one.skip(1);
        assert(tail.len() == 0);
        assert(kept_trimmed(tail) =~= Seq::<Seq<char>>::empty());
        assert(kept_trimmed(one) == line_out(p) + kept_trimmed(tail));
        assert(line_out(p) + Seq::<Seq<char>>::empty() =~= line_out(p));
        assert(framed_from(p, s) + line_out(p) =~= line_out(p));
    } else if s[0] == '\n' {
        let e = Seq::<char>::empty();
        lemma_emitted_lines_from(e, s.skip(1));
        let whole = seq![p] + segments_from(e, s.skip(1));
        assert(whole.len() >= 1);
        assert(whole[0] == p);
        assert(whole.skip(1) =~= segments_from(e, s.skip(1)));
        assert((line_out(p) + framed_from(e, s.skip(1))) + line_out(rest_from(e, s.skip(1)))
            =~= line_out(p) + (framed_from(e, s.skip(1)) + line_out(rest_from(e, s.skip(1)))));
    } else {
        lemma_emitted_lines_from(p.push(s[0]), s.skip(1));
    }
}

/// After a flush the buffer is empty, so a second flush with no feed in
/// between yields no line.
pub proof fn lemma_flush_idempotent(s: Seq<char>)
    ensures
        flush_spec(flush_spec(s).1).0 is None,
{
}

/// The accumulator of one in-flight streaming request: holds the partial
/// trailing line between chunks, never a completed one.
pub struct LineBuffer {
    buf: Vec<char>,
}

impl View for LineBuffer {
    type V = Seq<char>;

    closed spec fn view(&self) -> Seq<char> {
        self.buf@
    }
}

impl LineBuffer {
    /// The rest-state invariant: no newline is ever buffered.
    pub open spec fn wf(&self) -> bool {
        no_newline(self@)
    }

    /// A fresh, empty buffer for one relay invocation.
    pub fn new() -> (b: LineBuffer)
        ensures
            b@ == Seq::<char>::empty(),
            b.wf(),
    {
        LineBuffer { buf: Vec::new() }
    }

    /// Append one chunk of already-decoded characters and yield every line it
    /// completes: the text before each newline, trimmed, blank lines dropped.
    /// What follows the last newline stays buffered.
    pub fn feed_chars(&mut self, chunk: &Vec<char>) -> (lines: Vec<String>)
        requires
            old(self).wf(),
        ensures
            final(self).wf(),
            final(self)@ == rest(old(self)@ + chunk@),
            lines@.map_values(|l: String| l@) == framed(old(self)@ + chunk@),
    {
        let ghost base = old(self)@;
        let mut lines: Vec<String> = Vec::new();
        proof {
            assert(chunk@.take(0) =~= Seq::<char>::empty());
            assert(lines@.map_values(|l: String| l@) =~= Seq::<Seq<char>>::empty());
        }
        let mut i: usize = 0;
        while i < chunk.len()
            invariant
                old(self).wf(),
                base == old(self)@,
                i <= chunk@.len(),
                self@ == rest_from(base, chunk@.take(i as int)),
                lines@.map_values(|l: String| l@) == framed_from(base, chunk@.take(i as int)),
                self.wf(),
            decreases chunk@.len() - i,
        {
            let c = chunk[i];
            proof {
                assert(chunk@.take((i + 1) as int) =~= chunk@.take(i as int).push(
                    chunk@[i as int],
                ));
                lemma_framed_from_snoc(base, chunk@.take(i as int), chunk@[i as int]);
            }
            if c == '\n' {
                let ghost pending = self@;
                let ghost out_before = lines@;
                let t = crate::text::trim_chars(&self.buf);
                if t.len() > 0 {
                    let line = string_of_chars(t);
                    proof {
                        assert(line@ == trim(pending));
                    }
                    lines.push(line);
                    proof {
                        assert(lines@.map_values(|l: String| l@) =~= out_before.map_values(
                            |l: String| l@,
                        ).push(line@));
                        assert(out_before.map_values(|l: String| l@).push(trim(pending))
                            =~= out_before.map_values(|l: String| l@) + line_out(pending));
                    }
                } else {
                    proof {
                        assert(lines@.map_values(|l: String| l@) + line_out(pending)
                            =~= lines@.map_values(|l: String| l@));
                    }
                }
                self.buf = Vec::new();
            } else {
                self.buf.push(c);
                proof {
                    assert(no_newline(self@));
                }
            }
            i += 1;
        }
        proof {
            assert(chunk@.take(chunk@.len() as int) =~= chunk@);
            lemma_framed_from_clean_prefix(Seq::<char>::empty(), base, chunk@);
            assert(Seq::<char>::empty() + base =~= base);
        }
        lines
    }

    /// Append one chunk of raw bytes — decoded as `String::from_utf8_lossy`
    /// decodes them, with invalid sequences replaced — and yield every line
    /// the chunk completes, as [`Self::feed_chars`] does.
    pub fn feed(&mut self, chunk: &[u8]) -> (lines: Vec<String>)
        requires
            old(self).wf(),
        ensures
            final(self).wf(),
            final(self)@ == rest(old(self)@ + decoded(chunk@)),
            lines@.map_values(|l: String| l@) == framed(old(self)@ + decoded(chunk@)),
    {
        let cs = decode_chunk(chunk);
        self.feed_chars(&cs)
    }

    /// At stream end: yield the trimmed remainder once, if it is non-blank,
    /// and leave the buffer empty either way.
    pub fn flush(&mut self) -> (line: Option<String>)
        ensures
            final(self)@ == flush_spec(old(self)@).1,
            final(self).wf(),
            line is Some <==> flush_spec(old(self)@).0 is Some,
            line matches Some(l) ==> flush_spec(old(self)@).0 == Some(l@),
    {
        let t = crate::text::trim_chars(&self.buf);
        self.buf = Vec::new();
        if t.len() > 0 {
            Some(string_of_chars(t))
        } else {
            None
        }
    }
}

} // verus!
