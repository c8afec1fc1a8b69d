use vstd::prelude::*;

use crate::types::{Bytes, Frame};

verus! {

/// Start delimiter of a wire frame.
pub const START_BYTE: u8 = 0xAA;

/// End delimiter of a wire frame.
pub const END_BYTE: u8 = 0x99;

/// Escape byte of the wire-level byte-stuffing: on the wire, a literal
/// 0xAA, 0x99 or 0xA9 inside a frame is preceded by 0xA9 and XOR'ed with
/// 0x20.
pub const ESCAPE_BYTE: u8 = 0xA9;

/// Largest number of bytes the parser retains between feeds while waiting
/// for the rest of a partial frame.
pub const MAX_BUFFERED_BYTES: usize = 1024;

/// Reversal of the wire-level byte-stuffing: each escape byte 0xA9 is
/// removed and the byte following it has 0x20 XOR'ed into it. An escape
/// byte with nothing after it is dropped silently.
pub open spec fn destuff(s: Seq<u8>) -> Seq<u8>
    decreases s.len(),
{
    if s.len() == 0 {
        Seq::empty()
    } else if s[0] == 0xA9 {
        if s.len() == 1 {
            Seq::empty()
        } else {
            seq![(s[1] ^ 0x20)] + destuff(s.subrange(2, s.len() as int))
        }
    } else {
        seq![s[0]] + destuff(s.subrange(1, s.len() as int))
    }
}

/// The wire-level byte-stuffing itself: delimiter and escape bytes are
/// prefixed with 0xA9 and XOR'ed with 0x20 so that they can appear
/// literally inside a frame's payload.
pub open spec fn stuff(s: Seq<u8>) -> Seq<u8>
    decreases s.len(),
{
    if s.len() == 0 {
        Seq::empty()
    } else if s[0] == 0xAA || s[0] == 0x99 || s[0] == 0xA9 {
        seq![0xA9u8, (s[0] ^ 0x20)] + stuff(s.subrange(1, s.len() as int))
    } else {
        seq![s[0]] + stuff(s.subrange(1, s.len() as int))
    }
}

/// Index of the first occurrence of `b` in `s` at or after position `i`,
/// or `s.len()` if there is none.
pub open spec fn find_from(s: Seq<u8>, b: u8, i: int) -> int
    decreases s.len() - i,
{
    if i < 0 || i >= s.len() {
        s.len() as int
    } else if s[i] == b {
        i
    } else {
        find_from(s, b, i + 1)
    }
}

/// One pass of the frame scan: the destuffed contents of every complete
/// `0xAA ... 0x99` delimited frame of `s`, in order. A frame begins at the
/// first start delimiter and ends at the next end delimiter at or after it;
/// the scan resumes right after that end delimiter, so frames never
/// overlap.
pub open spec fn frames_of(s: Seq<u8>) -> Seq<Seq<u8>>
    decreases s.len(),
{
    let i = find_from(s, 0xAA, 0);
    let j = find_from(s, 0x99, i + 1);
    if 0 <= i < s.len() && i < j < s.len() {
        seq![destuff(s.subrange(i, j + 1))] + frames_of(s.subrange(j + 1, s.len() as int))
    } else {
        Seq::empty()
    }
}

/// What the scan of one pass retains: everything after the end of the last
/// complete frame, or all of `s` when no complete frame is present. The
/// retained bytes may be the start of a frame spanning into the next chunk.
pub open spec fn scan_rest(s: Seq<u8>) -> Seq<u8>
    decreases s.len(),
{
    let i = find_from(s, 0xAA, 0);
    let j = find_from(s, 0x99, i + 1);
    if 0 <= i < s.len() && i < j < s.len() {
        scan_rest(s.subrange(j + 1, s.len() as int))
    } else {
        s
    }
}

/// The buffer-trim policy: a retained buffer larger than
/// `MAX_BUFFERED_BYTES` is cut back to its first start delimiter, or
/// cleared entirely when it holds none. This bounds memory when no end
/// delimiter ever arrives.
pub open spec fn trim_excess(s: Seq<u8>) -> Seq<u8> {
    if s.len() <= MAX_BUFFERED_BYTES {
        s
    } else {
        let i = find_from(s, 0xAA, 0);
        if i < s.len() {
            s.subrange(i, s.len() as int)
        } else {
            Seq::empty()
        }
    }
}

/// The frames one feed of `chunk` emits when the scratch buffer holds
/// `buffer`.
pub open spec fn feed_frames(buffer: Seq<u8>, chunk: Seq<u8>) -> Seq<Seq<u8>> {
    frames_of(buffer + chunk)
}

/// The scratch buffer one feed of `chunk` leaves behind when it held
/// `buffer`: what the scan retains, cut back by the trim policy.
pub open spec fn feed_rest(buffer: Seq<u8>, chunk: Seq<u8>) -> Seq<u8> {
    trim_excess(scan_rest(buffer + chunk))
}

/// `find_from` returns either an in-range position holding `b` and
/// preceded by no other occurrence, or the length of `s`, and then no
/// position at or after `i` holds `b`.
pub proof fn lemma_find_from(s: Seq<u8>, b: u8, i: int)
    requires
        0 <= i <= s.len(),
    ensures
        i <= find_from(s, b, i) <= s.len(),
        find_from(s, b, i) < s.len() ==> s[find_from(s, b, i)] == b,
        forall|k: int| i <= k < find_from(s, b, i) ==> s[k] != b,
        find_from(s, b, i) == s.len() ==> forall|k: int| i <= k < s.len() ==> s[k] != b,
    decreases s.len() - i,
{
    if i < s.len() && s[i] != b {
        lemma_find_from(s, b, i + 1);
    }
}

/// Searching a suffix finds the same occurrence as searching the whole
/// sequence from the shifted position.
pub proof fn lemma_find_from_shift(s: Seq<u8>, b: u8, p: int, q: int)
    requires
        0 <= p <= q <= s.len(),
    ensures
        find_from(s.subrange(p, s.len() as int), b, q - p) == find_from(s, b, q) - p,
    decreases s.len() - q,
{
    let t = s.subrange(p, s.len() as int);
    if q >= s.len() {
        assert(find_from(t, b, q - p) == t.len());
    } else if s[q] == b {
        assert(t[q - p] == b);
    } else {
        assert(t[q - p] != b);
        lemma_find_from_shift(s, b, p, q + 1);
    }
}

/// Whether `suffix` is a suffix of `s`.
pub open spec fn is_suffix_of(suffix: Seq<u8>, s: Seq<u8>) -> bool {
    exists|k: int| 0 <= k <= s.len() && suffix == s.subrange(k, s.len() as int)
}

/// The frames that feeding the chunks one after another emits, starting
/// from a scratch buffer holding `buffer`, concatenated in feed order.
pub open spec fn run_frames(buffer: Seq<u8>, chunks: Seq<Seq<u8>>) -> Seq<Seq<u8>>
    decreases chunks.len(),
{
    if chunks.len() == 0 {
        Seq::empty()
    } else {
        feed_frames(buffer, chunks.first()) + run_frames(
            feed_rest(buffer, chunks.first()),
            chunks.drop_first(),
        )
    }
}

/// A search that succeeds within `s` is unchanged by appending more bytes;
/// one that fails continues into the appended bytes.
proof fn lemma_find_from_append(s: Seq<u8>, t: Seq<u8>, b: u8, i: int)
    requires
        0 <= i <= s.len(),
    ensures
        find_from(s, b, i) < s.len() ==> find_from(s + t, b, i) == find_from(s, b, i),
        find_from(s, b, i) == s.len() ==> find_from(s + t, b, i) == s.len() + find_from(t, b, 0),
    decreases s.len() - i,
{
    let st = s + t;
    if i == s.len() {
        assert(st.subrange(s.len() as int, st.len() as int) =~= t);
        lemma_find_from_shift(st, b, s.len() as int, s.len() as int);
    } else {
        assert(st[i] == s[i]);
        if s[i] != b {
            lemma_find_from_append(s, t, b, i + 1);
        }
    }
}

/// Scanning `s + t` first yields everything a scan of `s` yields, and then
/// behaves as a scan of what that scan retained followed by `t`.
proof fn lemma_frames_append(s: Seq<u8>, t: Seq<u8>)
    ensures
        frames_of(s + t) == frames_of(s) + frames_of(scan_rest(s) + t),
        scan_rest(s + t) == scan_rest(scan_rest(s) + t),
    decreases s.len(),
{
    let i = find_from(s, 0xAA, 0);
    let j = find_from(s, 0x99, i + 1);
    lemma_find_from(s, 0xAA, 0);
    if 0 <= i < s.len() && i < j < s.len() {
        lemma_find_from(s, 0x99, i + 1);
        lemma_find_from_append(s, t, 0xAA, 0);
        lemma_find_from_append(s, t, 0x99, i + 1);
        let st = s + t;
        assert(find_from(st, 0xAA, 0) == i);
        assert(find_from(st, 0x99, i + 1) == j);
        let tail = s.subrange(j + 1, s.len() as int);
        assert(st.subrange(i, j + 1) =~= s.subrange(i, j + 1));
        assert(st.subrange(j + 1, st.len() as int) =~= tail + t);
        lemma_frames_append(tail, t);
        assert(frames_of(st) == seq![destuff(s.subrange(i, j + 1))] + frames_of(tail + t));
        assert(frames_of(s + t) =~= frames_of(s) + frames_of(scan_rest(s) + t));
    } else {
        assert(scan_rest(s) == s);
        assert(frames_of(s) == Seq::<Seq<u8>>::empty());
        assert(frames_of(s + t) =~= frames_of(s) + frames_of(scan_rest(s) + t));
    }
}

/// A prefix that holds no start delimiter contributes nothing to the scan.
proof fn lemma_skip_prefix(p: Seq<u8>, v: Seq<u8>)
    requires
        forall|k: int| 0 <= k < p.len() ==> p[k] != 0xAA,
    ensures
        frames_of(p + v) == frames_of(v),
{
    let pv = p + v;
    lemma_find_from(p, 0xAA, 0);
    assert(find_from(p, 0xAA, 0) == p.len());
    lemma_find_from_append(p, v, 0xAA, 0);
    let i_v = find_from(v, 0xAA, 0);
    lemma_find_from(v, 0xAA, 0);
    assert(find_from(pv, 0xAA, 0) == p.len() + i_v);
    if i_v < v.len() {
        assert(pv.subrange(p.len() as int, pv.len() as int) =~= v);
        lemma_find_from_shift(pv, 0x99, p.len() as int, p.len() + i_v + 1);
        let j_v = find_from(v, 0x99, i_v + 1);
        lemma_find_from(v, 0x99, i_v + 1);
        assert(find_from(pv, 0x99, p.len() + i_v + 1) == p.len() + j_v);
        if j_v < v.len() {
            assert(pv.subrange(p.len() + i_v, p.len() + j_v + 1) =~= v.subrange(i_v, j_v + 1));
            assert(pv.subrange(p.len() + j_v + 1, pv.len() as int) =~= v.subrange(
                j_v + 1,
                v.len() as int,
            ));
            assert(frames_of(pv) == seq![destuff(v.subrange(i_v, j_v + 1))] + frames_of(
                v.subrange(j_v + 1, v.len() as int),
            ));
        }
    }
}

/// What a scan retains holds no complete frame.
proof fn lemma_scan_rest_no_frame(s: Seq<u8>)
    ensures
        frames_of(scan_rest(s)) == Seq::<Seq<u8>>::empty(),
    decreases s.len(),
{
    let i = find_from(s, 0xAA, 0);
    let j = find_from(s, 0x99, i + 1);
    if 0 <= i < s.len() && i < j < s.len() {
        lemma_scan_rest_no_frame(s.subrange(j + 1, s.len() as int));
    }
}

/// The trim policy never discards a partial frame that could still
/// complete: a buffer without a complete frame still has none after it.
proof fn lemma_trim_excess_no_frame(w: Seq<u8>)
    requires
        frames_of(w) == Seq::<Seq<u8>>::empty(),
    ensures
        frames_of(trim_excess(w)) == Seq::<Seq<u8>>::empty(),
{
    if w.len() > MAX_BUFFERED_BYTES {
        let i = find_from(w, 0xAA, 0);
        lemma_find_from(w, 0xAA, 0);
        if i < w.len() {
            let tr = w.subrange(i, w.len() as int);
            lemma_find_from_shift(w, 0xAA, i, i);
            assert(find_from(tr, 0xAA, 0) == 0);
            let j = find_from(w, 0x99, i + 1);
            lemma_find_from(w, 0x99, i + 1);
            assert(j == w.len());
            lemma_find_from_shift(w, 0x99, i, i + 1);
            assert(find_from(tr, 0x99, 1) == tr.len());
        }
    }
}

/// Trimming the retained buffer changes no frame that any continuation of
/// the stream would produce.
proof fn lemma_trim_excess_frames(w: Seq<u8>, t: Seq<u8>)
    ensures
        frames_of(trim_excess(w) + t) == frames_of(w + t),
{
    if w.len() > MAX_BUFFERED_BYTES {
        let i = find_from(w, 0xAA, 0);
        lemma_find_from(w, 0xAA, 0);
        if i < w.len() {
            let p = w.subrange(0, i);
            let tr = w.subrange(i, w.len() as int);
            assert(forall|k: int| 0 <= k < p.len() ==> p[k] != 0xAA);
            lemma_skip_prefix(p, tr + t);
            assert(p + (tr + t) =~= w + t);
        } else {
            lemma_skip_prefix(w, t);
            assert(trim_excess(w) + t =~= t);
            assert(Seq::<u8>::empty() + t =~= t);
            lemma_skip_prefix(Seq::<u8>::empty(), t);
        }
    }
}

/// Feeding the chunks one by one, starting from a buffer that holds no
/// complete frame, emits exactly the frames of the buffer followed by the
/// concatenated chunks.
proof fn lemma_run_frames(buffer: Seq<u8>, chunks: Seq<Seq<u8>>)
    requires
        frames_of(buffer) == Seq::<Seq<u8>>::empty(),
    ensures
        run_frames(buffer, chunks) == frames_of(buffer + chunks.flatten()),
    decreases chunks.len(),
{
    if chunks.len() == 0 {
        assert(buffer + chunks.flatten() =~= buffer);
    } else {
        let c = chunks.first();
        let rest = chunks.drop_first();
        let held = feed_rest(buffer, c);
        lemma_scan_rest_no_frame(buffer + c);
        lemma_trim_excess_no_frame(scan_rest(buffer + c));
        lemma_run_frames(held, rest);
        lemma_frames_append(buffer + c, rest.flatten());
        lemma_trim_excess_frames(scan_rest(buffer + c), rest.flatten());
        assert((buffer + c) + rest.flatten() =~= buffer + chunks.flatten());
        assert(run_frames(buffer, chunks) == frames_of(buffer + c) + frames_of(
            held + rest.flatten(),
        ));
        assert(frames_of(buffer + chunks.flatten()) == frames_of(buffer + c) + frames_of(
            scan_rest(buffer + c) + rest.flatten(),
        ));
    }
}

/// Chunking invariance: however a byte stream is cut into chunks, feeding
/// the chunks to a fresh parser one by one emits exactly the frames of the
/// concatenated stream, in the same order.
pub proof fn lemma_chunking_invariance(chunks: Seq<Seq<u8>>)
    ensures
        run_frames(Seq::empty(), chunks) == frames_of(chunks.flatten()),
{
    lemma_run_frames(Seq::empty(), chunks);
    assert(Seq::<u8>::empty() + chunks.flatten() =~= chunks.flatten());
}

/// The scan retains a suffix of what it scanned.
proof fn lemma_scan_rest_suffix(s: Seq<u8>)
    ensures
        is_suffix_of(scan_rest(s), s),
    decreases s.len(),
{
    let i = find_from(s, 0xAA, 0);
    let j = find_from(s, 0x99, i + 1);
    if 0 <= i < s.len() && i < j < s.len() {
        let tail = s.subrange(j + 1, s.len() as int);
        lemma_scan_rest_suffix(tail);
        let k = choose|k: int|
            0 <= k <= tail.len() && scan_rest(tail) == tail.subrange(k, tail.len() as int);
        assert(tail.subrange(k, tail.len() as int) =~= s.subrange(j + 1 + k, s.len() as int));
        assert(scan_rest(s) == s.subrange(j + 1 + k, s.len() as int));
    } else {
        assert(s.subrange(0, s.len() as int) =~= s);
        assert(scan_rest(s) == s.subrange(0, s.len() as int));
    }
}

/// Bound on the scratch buffer: after any feed the retained buffer is a
/// suffix of what the buffer and the chunk held, and it either stays
/// within the retained-size bound or begins at a frame start, so its size
/// never exceeds the larger of the bound and the number of bytes since the
/// last frame start.
pub proof fn lemma_buffer_bound(buffer: Seq<u8>, chunk: Seq<u8>)
    ensures
        is_suffix_of(feed_rest(buffer, chunk), buffer + chunk),
        feed_rest(buffer, chunk).len() <= MAX_BUFFERED_BYTES || feed_rest(buffer, chunk)[0]
            == 0xAA,
{
    let s = buffer + chunk;
    let w = scan_rest(s);
    lemma_scan_rest_suffix(s);
    let k = choose|k: int| 0 <= k <= s.len() && w == s.subrange(k, s.len() as int);
    if w.len() <= MAX_BUFFERED_BYTES {
        assert(feed_rest(buffer, chunk) == s.subrange(k, s.len() as int));
    } else {
        let i = find_from(w, 0xAA, 0);
        lemma_find_from(w, 0xAA, 0);
        if i < w.len() {
            assert(w.subrange(i, w.len() as int) =~= s.subrange(k + i, s.len() as int));
            assert(feed_rest(buffer, chunk) == s.subrange(k + i, s.len() as int));
        } else {
            assert(feed_rest(buffer, chunk) =~= s.subrange(s.len() as int, s.len() as int));
            assert(feed_rest(buffer, chunk) == s.subrange(s.len() as int, s.len() as int));
        }
    }
}

/// De-stuffing a sequence free of escape bytes leaves it unchanged.
pub proof fn lemma_destuff_identity(s: Seq<u8>)
    requires
        forall|k: int| 0 <= k < s.len() ==> s[k] != 0xA9,
    ensures
        destuff(s) == s,
    decreases s.len(),
{
    if s.len() > 0 {
        let tail = s.subrange(1, s.len() as int);
        lemma_destuff_identity(tail);
        assert(seq![s[0]] + tail =~= s);
    }
}

/// De-stuffing keeps at least one byte of a nonempty sequence that does
/// not end in a lone escape byte.
proof fn lemma_destuff_min_len(s: Seq<u8>)
    requires
        s.len() >= 1,
        s[s.len() - 1] != 0xA9,
    ensures
        destuff(s).len() >= 1,
{
    if s[0] == 0xA9 {
        assert(s.len() >= 2);
    }
}

/// Shape of every emitted frame: it begins with the start delimiter and is
/// at least two bytes long.
pub proof fn lemma_emitted_frame_shape(s: Seq<u8>, k: int)
    requires
        0 <= k < frames_of(s).len(),
    ensures
        frames_of(s)[k].len() >= 2,
        frames_of(s)[k][0] == 0xAA,
    decreases s.len(),
{
    let i = find_from(s, 0xAA, 0);
    let j = find_from(s, 0x99, i + 1);
    lemma_find_from(s, 0xAA, 0);
    if 0 <= i < s.len() && i < j < s.len() {
        lemma_find_from(s, 0x99, i + 1);
        if k == 0 {
            let m = s.subrange(i, j + 1);
            assert(m[0] == s[i] == 0xAA);
            let m1 = m.subrange(1, m.len() as int);
            assert(m1[m1.len() - 1] == s[j] == 0x99);
            lemma_destuff_min_len(m1);
            assert(destuff(m) == seq![m[0]] + destuff(m1));
        } else {
            lemma_emitted_frame_shape(s.subrange(j + 1, s.len() as int), k - 1);
        }
    }
}

/// A delimited wire frame that carries no escape byte is emitted verbatim:
/// it keeps both delimiters and no interior byte is the escape byte.
pub proof fn lemma_frame_shape_unstuffed(m: Seq<u8>)
    requires
        m.len() >= 2,
        m[0] == 0xAA,
        m[m.len() - 1] == 0x99,
        forall|k: int| 0 <= k < m.len() ==> m[k] != 0xA9,
    ensures
        destuff(m) == m,
        destuff(m)[0] == 0xAA,
        destuff(m)[destuff(m).len() - 1] == 0x99,
        destuff(m).len() >= 2,
        forall|k: int| 0 < k < destuff(m).len() - 1 ==> destuff(m)[k] != 0xA9,
{
    lemma_destuff_identity(m);
}

/// De-stuffing is the inverse of stuffing on any payload.
pub proof fn lemma_destuff_stuff(payload: Seq<u8>)
    ensures
        destuff(stuff(payload)) == payload,
{
    lemma_destuff_stuff_prefix(payload, Seq::empty());
    assert(stuff(payload) + Seq::<u8>::empty() =~= stuff(payload));
    assert(payload + destuff(Seq::empty()) =~= payload);
}

/// De-stuffing consumes a stuffed prefix back to its payload, whatever
/// follows: the escape pairs of the prefix never pair up with a byte of
/// the remainder.
proof fn lemma_destuff_stuff_prefix(payload: Seq<u8>, rest: Seq<u8>)
    ensures
        destuff(stuff(payload) + rest) == payload + destuff(rest),
    decreases payload.len(),
{
    if payload.len() == 0 {
        assert(stuff(payload) + rest =~= rest);
        assert(payload + destuff(rest) =~= destuff(rest));
    } else {
        let b = payload[0];
        let tail = payload.subrange(1, payload.len() as int);
        lemma_destuff_stuff_prefix(tail, rest);
        let w = stuff(payload) + rest;
        if b == 0xAA || b == 0x99 || b == 0xA9 {
            assert(stuff(payload) == seq![0xA9u8, (b ^ 0x20)] + stuff(tail));
            assert(w[0] == 0xA9 && w.len() >= 2);
            assert(w.subrange(2, w.len() as int) =~= stuff(tail) + rest);
            assert((b ^ 0x20) ^ 0x20 == b) by (bit_vector);
            assert(w[1] == (b ^ 0x20));
            assert(destuff(w) == seq![((b ^ 0x20) ^ 0x20)] + (tail + destuff(rest)));
            assert(seq![b] + (tail + destuff(rest)) =~= payload + destuff(rest));
        } else {
            assert(stuff(payload) == seq![b] + stuff(tail));
            assert(w[0] == b && b != 0xA9);
            assert(w.subrange(1, w.len() as int) =~= stuff(tail) + rest);
            assert(destuff(w) == seq![b] + (tail + destuff(rest)));
            assert(seq![b] + (tail + destuff(rest)) =~= payload + destuff(rest));
        }
    }
}

/// A properly stuffed and delimited wire frame is emitted as its payload
/// between the two delimiters: the scan's de-stuffing touches neither
/// delimiter and restores the payload exactly.
pub proof fn lemma_destuff_framed(payload: Seq<u8>)
    ensures
        destuff(seq![0xAAu8] + stuff(payload) + seq![0x99u8]) == seq![0xAAu8] + payload + seq![
            0x99u8,
        ],
{
    let w = seq![0xAAu8] + stuff(payload) + seq![0x99u8];
    assert(w[0] == 0xAA);
    assert(w.subrange(1, w.len() as int) =~= stuff(payload) + seq![0x99u8]);
    lemma_destuff_stuff_prefix(payload, seq![0x99u8]);
    let end: Seq<u8> = seq![0x99u8];
    assert(end.subrange(1, 1) =~= Seq::<u8>::empty());
    assert(destuff(end.subrange(1, 1)) =~= Seq::<u8>::empty());
    assert(destuff(end) =~= end);
    assert(destuff(w) == seq![0xAAu8] + (payload + end));
    assert(seq![0xAAu8] + (payload + end) =~= seq![0xAAu8] + payload + end);
}

/// FrameParser parses frames from a TBS battery monitor or charger.
/// It scans a growing scratch buffer for `0xAA ... 0x99` delimited frames;
/// each feed appends a chunk of bytes, extracts every complete frame, and
/// returns the frames with byte-stuffing reverted.
pub struct FrameParser {
    buffered_bytes: Vec<u8>,
}

impl View for FrameParser {
    type V = Seq<u8>;

    closed spec fn view(&self) -> Seq<u8> {
        self.buffered_bytes@
    }
}

/// Linear scan for the first occurrence of `b` at or after `from`;
/// returns the buffer length when there is none.
fn find_byte(v: &Vec<u8>, b: u8, from: usize) -> (idx: usize)
    requires
        from <= v@.len(),
    ensures
        idx == find_from(v@, b, from as int),
{
    let mut i = from;
    let n = v.len();
    while i < n
        invariant
            from <= i <= n,
            n == v@.len(),
            find_from(v@, b, from as int) == find_from(v@, b, i as int),
        decreases n - i,
    {
        if v[i] == b {
            return i;
        }
        i = i + 1;
    }
    n
}

impl Default for FrameParser {
    fn default() -> (parser: Self)
        ensures
            parser@ == Seq::<u8>::empty(),
    {
        Self::new()
    }
}

impl FrameParser {
    /// A parser with an empty scratch buffer.
    pub fn new() -> (parser: Self)
        ensures
            parser@ == Seq::<u8>::empty(),
    {
        Self { buffered_bytes: Vec::new() }
    }

    /// The number of bytes currently retained in the scratch buffer.
    pub fn buffered_len(&self) -> (n: usize)
        ensures
            n == self@.len(),
    {
        self.buffered_bytes.len()
    }

    /// Appends `chunk` to the scratch buffer, extracts every complete
    /// frame, reverses their byte-stuffing, and returns them in the order
    /// their end delimiters appear. The buffer retains the bytes after the
    /// last complete frame, cut back by the trim policy.
    pub fn feed(&mut self, chunk: Bytes) -> (frames: Vec<Frame>)
        ensures
            frames@.map_values(|f: Frame| f@) == feed_frames(old(self)@, chunk@),
            final(self)@ == feed_rest(old(self)@, chunk@),
    {
        let chunk_len = chunk.0.len();
        let mut k: usize = 0;
        proof {
            assert(self.buffered_bytes@ + chunk@.subrange(0, 0) =~= self.buffered_bytes@);
        }
        while k < chunk_len
            invariant
                k <= chunk_len,
                chunk_len == chunk@.len(),
                self.buffered_bytes@ == old(self)@ + chunk@.subrange(0, k as int),
            decreases chunk_len - k,
        {
            self.buffered_bytes.push(chunk.0[k]);
            proof {
                assert(old(self)@ + chunk@.subrange(0, k as int + 1) =~= (old(self)@
                    + chunk@.subrange(0, k as int)).push(chunk@[k as int]));
            }
            k = k + 1;
        }
        let ghost s = old(self)@ + chunk@;
        proof {
            assert(chunk@.subrange(0, chunk_len as int) =~= chunk@);
        }
        let n = self.buffered_bytes.len();
        let mut frames: Vec<Frame> = Vec::new();
        let mut pos: usize = 0;
        let mut done = false;
        proof {
            assert(s.subrange(0, n as int) =~= s);
            assert(frames@.map_values(|f: Frame| f@) =~= Seq::<Seq<u8>>::empty());
            assert(frames@.map_values(|f: Frame| f@) + frames_of(s) =~= frames_of(s));
        }
        while !done
            invariant
                pos <= n,
                n == s.len(),
                self.buffered_bytes@ == s,
                frames@.map_values(|f: Frame| f@) + frames_of(
                    s.subrange(pos as int, n as int),
                ) == frames_of(s),
                scan_rest(s) == scan_rest(s.subrange(pos as int, n as int)),
                done ==> frames_of(s.subrange(pos as int, n as int)) == Seq::<Seq<u8>>::empty(),
                done ==> scan_rest(s.subrange(pos as int, n as int)) == s.subrange(
                    pos as int,
                    n as int,
                ),
            decreases n - pos + (if done { 0int } else { 1int }),
        {
            let ghost r = s.subrange(pos as int, n as int);
            let i = find_byte(&self.buffered_bytes, START_BYTE, pos);
            proof {
                lemma_find_from(s, 0xAA, pos as int);
                lemma_find_from_shift(s, 0xAA, pos as int, pos as int);
            }
            if i == n {
                done = true;
            } else {
                let j = find_byte(&self.buffered_bytes, END_BYTE, i + 1);
                proof {
                    lemma_find_from(s, 0x99, i as int + 1);
                    lemma_find_from_shift(s, 0x99, pos as int, i as int + 1);
                }
                if j == n {
                    done = true;
                } else {
                    let mut raw: Vec<u8> = Vec::new();
                    let mut t = i;
                    proof {
                        assert(raw@ =~= s.subrange(i as int, i as int));
                    }
                    while t <= j
                        invariant
                            i <= t <= j + 1,
                            j < n,
                            n == s.len(),
                            self.buffered_bytes@ == s,
                            raw@ == s.subrange(i as int, t as int),
                        decreases j + 1 - t,
                    {
                        raw.push(self.buffered_bytes[t]);
                        proof {
                            assert(s.subrange(i as int, t as int + 1) =~= s.subrange(
                                i as int,
                                t as int,
                            ).push(s[t as int]));
                        }
                        t = t + 1;
                    }
                    let destuffed = self.de_bytestuff(raw.as_slice());
                    let ghost frames_before = frames@.map_values(|f: Frame| f@);
                    frames.push(Frame(destuffed));
                    proof {
                        let i_r = i as int - pos;
                        let j_r = j as int - pos;
                        assert(find_from(r, 0xAA, 0) == i_r);
                        assert(find_from(r, 0x99, i_r + 1) == j_r);
                        assert(0 <= i_r < r.len() && i_r < j_r < r.len());
                        assert(r.subrange(i_r, j_r + 1) =~= s.subrange(i as int, j as int + 1));
                        assert(r.subrange(j_r + 1, r.len() as int) =~= s.subrange(
                            j as int + 1,
                            n as int,
                        ));
                        assert(frames_of(r) == seq![destuff(s.subrange(i as int, j as int + 1))]
                            + frames_of(s.subrange(j as int + 1, n as int)));
                        assert(scan_rest(r) == scan_rest(s.subrange(j as int + 1, n as int)));
                        assert(frames@.map_values(|f: Frame| f@) =~= frames_before.push(
                            destuff(s.subrange(i as int, j as int + 1)),
                        ));
                        assert(frames@.map_values(|f: Frame| f@) + frames_of(
                            s.subrange(j as int + 1, n as int),
                        ) =~= frames_before + frames_of(r));
                    }
                    pos = j + 1;
                }
            }
        }
        proof {
            assert(scan_rest(s) == s.subrange(pos as int, n as int));
            assert(frames@.map_values(|f: Frame| f@) + frames_of(
                s.subrange(pos as int, n as int),
            ) =~= frames@.map_values(|f: Frame| f@));
        }
        let tail = self.buffered_bytes.split_off(pos);
        self.buffered_bytes = tail;
        if self.buffered_bytes.len() > MAX_BUFFERED_BYTES {
            let p = find_byte(&self.buffered_bytes, START_BYTE, 0);
            proof {
                lemma_find_from(self.buffered_bytes@, 0xAA, 0);
            }
            if p == self.buffered_bytes.len() {
                self.buffered_bytes.clear();
            } else {
                let tail2 = self.buffered_bytes.split_off(p);
                self.buffered_bytes = tail2;
            }
        }
        frames
    }

    /// Reverses the wire-level byte-stuffing of `bytes`.
    pub fn de_bytestuff(&self, bytes: &[u8]) -> (out: Vec<u8>)
        ensures
            out@ == destuff(bytes@),
    {
        let ghost s = bytes@;
        let mut out: Vec<u8> = Vec::new();
        let mut i: usize = 0;
        let n = bytes.len();
        proof {
            assert(s.subrange(0, n as int) =~= s);
            assert(out@ + destuff(s) =~= destuff(s));
        }
        while i < n
            invariant
                n == s.len(),
                bytes@ == s,
                i <= n,
                out@ + destuff(s.subrange(i as int, n as int)) == destuff(s),
            decreases n - i,
        {
            let ghost rest = s.subrange(i as int, n as int);
            if bytes[i] == ESCAPE_BYTE {
                if i + 1 < n {
                    out.push(bytes[i + 1] ^ 0x20);
                    proof {
                        assert(rest.subrange(2, rest.len() as int) =~= s.subrange(
                            i + 2,
                            n as int,
                        ));
                    }
                    i = i + 2;
                } else {
                    proof {
                        assert(s.subrange(i + 1, n as int) =~= Seq::<u8>::empty());
                    }
                    i = i + 1;
                }
            } else {
                out.push(bytes[i]);
                proof {
                    assert(rest.subrange(1, rest.len() as int) =~= s.subrange(i + 1, n as int));
                }
                i = i + 1;
            }
            proof {
                assert(out@ + destuff(s.subrange(i as int, n as int)) =~= destuff(s));
            }
        }
        proof {
            assert(s.subrange(n as int, n as int) =~= Seq::<u8>::empty());
            assert(out@ =~= destuff(s));
        }
        out
    }
}

} // verus!
