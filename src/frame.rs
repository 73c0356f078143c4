//! Frame assembly: a growing text buffer cut into blank-line-delimited frames.
use vstd::prelude::*;
use crate::text::{chars_of, string_of_range};

verus! {

/// Whether a frame separator (a blank line, `"\n\n"`) starts at position `i`.
pub open spec fn separator_at(t: Seq<char>, i: int) -> bool {
    0 <= i && i + 1 < t.len() && t[i] == '\n' && t[i + 1] == '\n'
}

/// Scans `t` from position `i`, with the current frame starting at `s`: the
/// complete frames found, and the text left after the last separator.
pub open spec fn frames_from(t: Seq<char>, s: int, i: int) -> (Seq<Seq<char>>, Seq<char>)
    decreases t.len() - i,
{
    if i < 0 || i + 1 >= t.len() {
        (Seq::empty(), t.subrange(s, t.len() as int))
    } else if separator_at(t, i) {
        let rest = frames_from(t, i + 2, i + 2);
        (seq![t.subrange(s, i)] + rest.0, rest.1)
    } else {
        frames_from(t, s, i + 1)
    }
}

/// The frames of `t`, each the text before a separator, and the remainder
/// that no separator has closed yet.
pub open spec fn split_frames(t: Seq<char>) -> (Seq<Seq<char>>, Seq<char>) {
    frames_from(t, 0, 0)
}

/// The views of a vector of strings.
pub open spec fn texts_view(v: Seq<String>) -> Seq<Seq<char>> {
    v.map_values(|s: String| s@)
}

/// The concatenation of a sequence of texts.
pub open spec fn concat_all(ts: Seq<Seq<char>>) -> Seq<char>
    decreases ts.len(),
{
    if ts.len() == 0 {
        Seq::empty()
    } else {
        ts[0] + concat_all(ts.drop_first())
    }
}

/// Feeds the chunks one after another into a buffer that starts as `buf`:
/// the frames that come out, in order, and the buffer left at the end.
pub open spec fn feed_chunks(buf: Seq<char>, chunks: Seq<Seq<char>>) -> (Seq<Seq<char>>, Seq<char>)
    decreases chunks.len(),
{
    if chunks.len() == 0 {
        (Seq::empty(), buf)
    } else {
        let first = split_frames(buf + chunks[0]);
        let rest = feed_chunks(first.1, chunks.drop_first());
        (first.0 + rest.0, rest.1)
    }
}

/// Whether `t` holds a separator anywhere.
pub open spec fn has_separator(t: Seq<char>) -> bool {
    exists|j: int| separator_at(t, j)
}

/// Positions that hold no separator can be skipped without changing the scan.
proof fn lemma_skip(t: Seq<char>, s: int, k: int, i: int)
    requires
        0 <= s <= k <= i <= t.len(),
        forall|j: int| k <= j < i ==> !separator_at(t, j),
    ensures
        frames_from(t, s, k) == frames_from(t, s, i),
    decreases i - k,
{
    if k < i && k + 1 < t.len() {
        assert(!separator_at(t, k));
        lemma_skip(t, s, k + 1, i);
    }
}

/// Dropping a prefix that the scan has already passed shifts the positions
/// and changes nothing else.
proof fn lemma_shift(t: Seq<char>, d: int, s: int, i: int)
    requires
        0 <= d <= s <= i <= t.len(),
    ensures
        frames_from(t, s, i) == frames_from(t.subrange(d, t.len() as int), s - d, i - d),
    decreases t.len() - i,
{
    let u = t.subrange(d, t.len() as int);
    if i + 1 < t.len() {
        assert(separator_at(t, i) == separator_at(u, i - d));
        if separator_at(t, i) {
            lemma_shift(t, d, i + 2, i + 2);
            assert(t.subrange(s, i) == u.subrange(s - d, i - d));
        } else {
            lemma_shift(t, d, s, i + 1);
        }
    } else {
        assert(t.subrange(s, t.len() as int) == u.subrange(s - d, u.len() as int));
    }
}

/// What the scan leaves over holds no separator.
proof fn lemma_rest_has_no_separator(t: Seq<char>, s: int, i: int)
    requires
        0 <= s <= i <= t.len(),
        forall|j: int| s <= j < i ==> !separator_at(t, j),
    ensures
        !has_separator(frames_from(t, s, i).1),
    decreases t.len() - i,
{
    if i + 1 < t.len() {
        if separator_at(t, i) {
            lemma_rest_has_no_separator(t, i + 2, i + 2);
        } else {
            lemma_rest_has_no_separator(t, s, i + 1);
        }
    } else {
        let r = t.subrange(s, t.len() as int);
        assert forall|j: int| !separator_at(r, j) by {
            if separator_at(r, j) {
                assert(separator_at(t, s + j));
            }
        }
    }
}

/// Text appended after a scan position continues the scan where it stopped.
proof fn lemma_extend(x: Seq<char>, b: Seq<char>, s: int, i: int)
    requires
        0 <= s <= i <= x.len(),
        i < x.len() || s == i,
        forall|j: int| s <= j < i ==> !separator_at(x, j),
    ensures
        frames_from(x + b, s, i) == (frames_from(x, s, i).0 + split_frames(frames_from(x, s, i).1 + b).0,
            split_frames(frames_from(x, s, i).1 + b).1),
    decreases x.len() - i,
{
    let xb = x + b;
    if i + 1 < x.len() {
        assert(separator_at(xb, i) == separator_at(x, i));
        if separator_at(x, i) {
            lemma_extend(x, b, i + 2, i + 2);
            assert(xb.subrange(s, i) == x.subrange(s, i));
            let r = frames_from(x, i + 2, i + 2);
            let tail = split_frames(r.1 + b);
            assert(seq![x.subrange(s, i)] + (r.0 + tail.0) == (seq![x.subrange(s, i)] + r.0) + tail.0);
        } else {
            lemma_extend(x, b, s, i + 1);
        }
    } else {
        let r = x.subrange(s, x.len() as int);
        assert(frames_from(x, s, i) == (Seq::<Seq<char>>::empty(), r));
        assert(xb.subrange(s, xb.len() as int) == r + b);
        lemma_shift(xb, s, s, i);
        assert forall|j: int| 0 <= j < i - s implies !separator_at(r + b, j) by {
            assert(separator_at(r + b, j) == separator_at(x, s + j));
        }
        lemma_skip(r + b, 0, 0, i - s);
        assert(Seq::<Seq<char>>::empty() + split_frames(r + b).0 == split_frames(r + b).0);
    }
}

/// Feeding chunks one by one into an assembler whose buffer holds no
/// separator yields the frames, and leaves the buffer, that feeding their
/// concatenation at once would.
pub proof fn lemma_feed_chunks(buf: Seq<char>, chunks: Seq<Seq<char>>)
    requires
        !has_separator(buf),
    ensures
        feed_chunks(buf, chunks) == split_frames(buf + concat_all(chunks)),
    decreases chunks.len(),
{
    if chunks.len() == 0 {
        assert(buf + concat_all(chunks) == buf);
        lemma_skip(buf, 0, 0, buf.len() as int);
    } else {
        let x = buf + chunks[0];
        let first = split_frames(x);
        lemma_rest_has_no_separator(x, 0, 0);
        lemma_feed_chunks(first.1, chunks.drop_first());
        lemma_extend(x, concat_all(chunks.drop_first()), 0, 0);
        assert(x + concat_all(chunks.drop_first()) == buf + concat_all(chunks));
    }
}

/// The frames of a byte stream do not depend on how it was cut into chunks:
/// feeding the chunks one by one into an empty assembler yields the frames,
/// and leaves the buffer, that feeding the whole text at once would.
pub proof fn lemma_chunking_is_invisible(chunks: Seq<Seq<char>>)
    ensures
        feed_chunks(Seq::empty(), chunks) == split_frames(concat_all(chunks)),
{
    lemma_feed_chunks(Seq::empty(), chunks);
    assert(Seq::<char>::empty() + concat_all(chunks) == concat_all(chunks));
}

/// What a feed leaves in the buffer holds no separator.
pub proof fn lemma_buffer_has_no_separator(t: Seq<char>)
    ensures
        !has_separator(split_frames(t).1),
{
    lemma_rest_has_no_separator(t, 0, 0);
}

/// Splitting a text that grew by `b` continues from what the split of the
/// old text left over.
pub proof fn lemma_split_append(x: Seq<char>, b: Seq<char>)
    ensures
        split_frames(x + b) == (split_frames(x).0 + split_frames(split_frames(x).1 + b).0,
            split_frames(split_frames(x).1 + b).1),
{
    lemma_extend(x, b, 0, 0);
}

/// A frame as it can stand on the wire: it holds no separator and does not
/// end with a line feed, which would merge with the separator after it.
pub open spec fn is_plain_frame(f: Seq<char>) -> bool {
    !has_separator(f) && (f.len() == 0 || f.last() != '\n')
}

/// The frames written out one after another, each closed by a separator.
pub open spec fn join_frames(fs: Seq<Seq<char>>) -> Seq<char>
    decreases fs.len(),
{
    if fs.len() == 0 {
        Seq::empty()
    } else {
        fs[0] + seq!['\n', '\n'] + join_frames(fs.drop_first())
    }
}

/// Splitting frames written out with their separators gives them back, with
/// nothing left over.
pub proof fn lemma_split_joined(fs: Seq<Seq<char>>)
    requires
        forall|k: int| 0 <= k < fs.len() ==> is_plain_frame(#[trigger] fs[k]),
    ensures
        split_frames(join_frames(fs)) == (fs, Seq::<char>::empty()),
    decreases fs.len(),
{
    if fs.len() == 0 {
        assert(split_frames(join_frames(fs)) == (Seq::<Seq<char>>::empty(), Seq::<char>::empty()));
        assert(fs == Seq::<Seq<char>>::empty());
    } else {
        let f = fs[0];
        let r = join_frames(fs.drop_first());
        let w = join_frames(fs);
        let n = f.len() as int;
        assert(is_plain_frame(f));
        assert(w == f + seq!['\n', '\n'] + r);
        assert forall|j: int| 0 <= j < n implies !separator_at(w, j) by {
            if j + 1 < n {
                assert(separator_at(w, j) == separator_at(f, j));
            } else {
                assert(w[j] == f.last());
            }
        }
        lemma_skip(w, 0, 0, n);
        assert(separator_at(w, n));
        lemma_shift(w, n + 2, n + 2, n + 2);
        assert(w.subrange(n + 2, w.len() as int) == r);
        assert(w.subrange(0, n) == f);
        lemma_split_joined(fs.drop_first());
        assert(seq![f] + fs.drop_first() == fs);
    }
}

/// Accumulates text and hands out each frame once its separator has arrived.
pub struct FrameAssembler {
    buffer: Vec<char>,
}

impl View for FrameAssembler {
    type V = Seq<char>;

    closed spec fn view(&self) -> Seq<char> {
        self.buffer@
    }
}

impl FrameAssembler {
    /// An assembler with an empty buffer.
    pub fn new() -> (r: FrameAssembler)
        ensures
            r@ == Seq::<char>::empty(),
    {
        FrameAssembler { buffer: Vec::new() }
    }

    /// Appends `text` to the buffer and takes out every complete frame, in
    /// order; what follows the last separator stays for the next call.
    pub fn feed(&mut self, text: &str) -> (frames: Vec<String>)
        ensures
            (texts_view(frames@), final(self)@) == split_frames(old(self)@ + text@),
    {
        let cs = chars_of(text);
        let mut all: Vec<char> = Vec::new();
        std::mem::swap(&mut all, &mut self.buffer);
        let mut k: usize = 0;
        while k < cs.len()
            invariant
                k <= cs@.len(),
                all@ == old(self)@ + cs@.take(k as int),
            decreases cs@.len() - k,
        {
            all.push(cs[k]);
            assert(cs@.take(k + 1) == cs@.take(k as int).push(cs@[k as int]));
            k += 1;
        }
        assert(cs@.take(cs@.len() as int) == cs@);
        let ghost t = all@;
        let mut frames: Vec<String> = Vec::new();
        let mut s: usize = 0;
        let mut i: usize = 0;
        while i < all.len() && all.len() - i >= 2
            invariant
                all@ == t,
                s <= i <= t.len(),
                i < t.len() || s == i,
                split_frames(t) == (texts_view(frames@) + frames_from(t, s as int, i as int).0,
                    frames_from(t, s as int, i as int).1),
            decreases t.len() - i,
        {
            if all[i] == '\n' && all[i + 1] == '\n' {
                let f = string_of_range(&all, s, i);
                let ghost before = frames@;
                frames.push(f);
                proof {
                    let rest = frames_from(t, i + 2, i + 2);
                    assert(texts_view(frames@) == texts_view(before).push(f@));
                    assert(texts_view(before) + (seq![t.subrange(s as int, i as int)] + rest.0)
                        == texts_view(frames@) + rest.0);
                }
                i = i + 2;
                s = i;
            } else {
                i = i + 1;
            }
        }
        let mut rest: Vec<char> = Vec::new();
        let mut j = s;
        while j < all.len()
            invariant
                all@ == t,
                s <= j <= t.len(),
                rest@ == t.subrange(s as int, j as int),
            decreases t.len() - j,
        {
            rest.push(all[j]);
            assert(t.subrange(s as int, j + 1) == t.subrange(s as int, j as int).push(t[j as int]));
            j += 1;
        }
        self.buffer = rest;
        assert(texts_view(frames@) + Seq::<Seq<char>>::empty() == texts_view(frames@));
        frames
    }
}

} // verus!
