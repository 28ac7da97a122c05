//! Character-boundary arithmetic over UTF-8 byte sequences.
//!
//! The text editor stores its buffer as encoded bytes and its cursor as a
//! byte offset.  Moving the cursor means probing forward or backward for
//! the nearest offset that separates two complete character encodings.
//! This module defines those probe functions at the specification level
//! and proves the facts the editor's contracts rest on: the probes land
//! on character boundaries, adjacent boundaries enclose exactly one
//! character, and probing forward after probing backward (and the other
//! way round) returns to the starting offset.

use vstd::prelude::*;
use vstd::utf8::*;

verus! {

/// The nearest strictly larger stopping offset: the smallest `j > i`
/// that is the end of the sequence or holds a non-continuation byte.
/// This is the offset the cursor reaches when stepping right from `i`.
pub open spec fn next_stop(s: Seq<u8>, i: int) -> int
    recommends
        0 <= i < s.len(),
    decreases s.len() - i when 0 <= i < s.len()
{
    if i + 1 == s.len() || !is_continuation_byte(s[i + 1]) {
        i + 1
    } else {
        next_stop(s, i + 1)
    }
}

/// The nearest strictly smaller stopping offset: the largest `j < i`
/// that is the start of the sequence or holds a non-continuation byte.
/// This is the offset the cursor reaches when stepping left from `i`.
pub open spec fn prev_stop(s: Seq<u8>, i: int) -> int
    recommends
        0 < i <= s.len(),
    decreases i when 0 < i <= s.len()
{
    if i - 1 == 0 || !is_continuation_byte(s[i - 1]) {
        i - 1
    } else {
        prev_stop(s, i - 1)
    }
}

/// In a valid UTF-8 sequence, an offset is a character boundary exactly
/// when it is the end of the sequence or holds a non-continuation byte.
pub proof fn lemma_boundary_byte(s: Seq<u8>)
    requires
        valid_utf8(s),
    ensures
        forall|j: int|
            0 <= j <= s.len() ==> (#[trigger] is_char_boundary(s, j) <==> (j == s.len()
                || !is_continuation_byte(s[j]))),
{
    assert forall|j: int|
        0 <= j <= s.len() implies (#[trigger] is_char_boundary(s, j) <==> (j == s.len()
        || !is_continuation_byte(s[j]))) by {
        if j == s.len() {
            is_char_boundary_start_end_of_seq(s);
        } else {
            is_char_boundary_iff_not_is_continuation_byte(s, j);
        }
    }
}

/// `next_stop` is pinned down by its characteristic properties: it stops
/// at the first qualifying offset after `i`.
pub proof fn lemma_next_stop_unique(s: Seq<u8>, i: int, n: int)
    requires
        0 <= i < s.len(),
        i < n <= s.len(),
        n == s.len() || !is_continuation_byte(s[n]),
        forall|j: int| i < j < n ==> is_continuation_byte(#[trigger] s[j]),
    ensures
        next_stop(s, i) == n,
    decreases s.len() - i,
{
    if i + 1 == s.len() || !is_continuation_byte(s[i + 1]) {
        assert(n == i + 1);
    } else {
        lemma_next_stop_unique(s, i + 1, n);
    }
}

/// `prev_stop` is pinned down by its characteristic properties: it stops
/// at the first qualifying offset before `i`.
pub proof fn lemma_prev_stop_unique(s: Seq<u8>, i: int, p: int)
    requires
        0 < i <= s.len(),
        0 <= p < i,
        p == 0 || !is_continuation_byte(s[p]),
        forall|j: int| p < j < i ==> is_continuation_byte(#[trigger] s[j]),
    ensures
        prev_stop(s, i) == p,
    decreases i,
{
    if i - 1 == 0 || !is_continuation_byte(s[i - 1]) {
        assert(p == i - 1);
    } else {
        lemma_prev_stop_unique(s, i - 1, p);
    }
}

/// What `next_stop` returns: a qualifying offset with only continuation
/// bytes strictly between it and `i`.
pub proof fn lemma_next_stop(s: Seq<u8>, i: int)
    requires
        0 <= i < s.len(),
    ensures
        i < next_stop(s, i) <= s.len(),
        next_stop(s, i) == s.len() || !is_continuation_byte(s[next_stop(s, i)]),
        forall|j: int| i < j < next_stop(s, i) ==> is_continuation_byte(#[trigger] s[j]),
    decreases s.len() - i,
{
    if i + 1 == s.len() || !is_continuation_byte(s[i + 1]) {
    } else {
        lemma_next_stop(s, i + 1);
    }
}

/// What `prev_stop` returns: a qualifying offset with only continuation
/// bytes strictly between it and `i`.
pub proof fn lemma_prev_stop(s: Seq<u8>, i: int)
    requires
        0 < i <= s.len(),
    ensures
        0 <= prev_stop(s, i) < i,
        prev_stop(s, i) == 0 || !is_continuation_byte(s[prev_stop(s, i)]),
        forall|j: int| prev_stop(s, i) < j < i ==> is_continuation_byte(#[trigger] s[j]),
    decreases i,
{
    if i - 1 == 0 || !is_continuation_byte(s[i - 1]) {
    } else {
        lemma_prev_stop(s, i - 1);
    }
}

/// In a valid UTF-8 sequence the probes land on character boundaries.
pub proof fn lemma_stops_are_boundaries(s: Seq<u8>, i: int)
    requires
        valid_utf8(s),
        0 <= i <= s.len(),
    ensures
        i < s.len() ==> is_char_boundary(s, next_stop(s, i)),
        i > 0 ==> is_char_boundary(s, prev_stop(s, i)),
{
    lemma_boundary_byte(s);
    if i < s.len() {
        lemma_next_stop(s, i);
    }
    if i > 0 {
        lemma_prev_stop(s, i);
    }
}

/// Stepping right from the boundary directly below `x` returns to `x`:
/// half of the round-trip law for cursor movement.
pub proof fn lemma_next_of_prev(s: Seq<u8>, x: int)
    requires
        valid_utf8(s),
        is_char_boundary(s, x),
        0 < x <= s.len(),
    ensures
        0 <= prev_stop(s, x) < x,
        is_char_boundary(s, prev_stop(s, x)),
        next_stop(s, prev_stop(s, x)) == x,
{
    lemma_boundary_byte(s);
    lemma_prev_stop(s, x);
    let p = prev_stop(s, x);
    lemma_next_stop_unique(s, p, x);
}

/// Stepping left from the boundary directly above `x` returns to `x`:
/// the other half of the round-trip law for cursor movement.
pub proof fn lemma_prev_of_next(s: Seq<u8>, x: int)
    requires
        valid_utf8(s),
        is_char_boundary(s, x),
        0 <= x < s.len(),
    ensures
        x < next_stop(s, x) <= s.len(),
        is_char_boundary(s, next_stop(s, x)),
        prev_stop(s, next_stop(s, x)) == x,
{
    lemma_boundary_byte(s);
    lemma_next_stop(s, x);
    let n = next_stop(s, x);
    lemma_prev_stop_unique(s, n, x);
}

/// The shape of a single character's encoding: one leading byte followed
/// only by continuation bytes.
pub proof fn lemma_encode_scalar_shape(c: char)
    ensures
        ({
            let e = encode_scalar(c as u32);
            &&& 1 <= e.len() <= 4
            &&& !is_continuation_byte(e[0])
            &&& forall|j: int| 0 < j < e.len() ==> is_continuation_byte(#[trigger] e[j])
        }),
{
    let e = encode_scalar(c as u32);
    let cs = seq![c];
    assert(cs.drop_first() =~= Seq::<char>::empty());
    assert(encode_utf8(Seq::<char>::empty()) =~= Seq::<u8>::empty());
    assert(encode_utf8(cs) =~= e);
    encode_utf8_first_scalar(cs);
    assert(valid_first_scalar(e));
    assert(length_of_first_scalar(e) == e.len());
}

/// Splitting a valid UTF-8 sequence at a character boundary yields two
/// valid UTF-8 sequences.
pub proof fn lemma_split_valid(s: Seq<u8>, i: int)
    requires
        valid_utf8(s),
        is_char_boundary(s, i),
        0 <= i <= s.len(),
    ensures
        valid_utf8(s.subrange(0, i)),
        valid_utf8(s.subrange(i, s.len() as int)),
{
    valid_utf8_split(s, i);
}

/// Concatenating two valid UTF-8 sequences is valid, and the seam is a
/// character boundary.
pub proof fn lemma_concat_boundary(x: Seq<u8>, y: Seq<u8>)
    requires
        valid_utf8(x),
        valid_utf8(y),
    ensures
        valid_utf8(x + y),
        is_char_boundary(x + y, x.len() as int),
{
    valid_utf8_concat(x, y);
    lemma_boundary_byte(x + y);
    if y.len() > 0 {
        lemma_boundary_byte(y);
        assert(is_char_boundary(y, 0));
        assert((x + y)[x.len() as int] == y[0]);
    }
}

/// Splicing one character's encoding into a valid sequence at a
/// character boundary: the result is valid, the seams are boundaries,
/// and the inserted character spans exactly the range between them.
pub proof fn lemma_splice_char(a: Seq<u8>, b: Seq<u8>, c: char)
    requires
        valid_utf8(a),
        valid_utf8(b),
    ensures
        ({
            let e = encode_scalar(c as u32);
            let s = a + e + b;
            &&& valid_utf8(s)
            &&& is_char_boundary(s, a.len() as int)
            &&& is_char_boundary(s, (a.len() + e.len()) as int)
            &&& next_stop(s, a.len() as int) == (a.len() + e.len()) as int
            &&& prev_stop(s, (a.len() + e.len()) as int) == a.len() as int
        }),
{
    let e = encode_scalar(c as u32);
    let s = a + e + b;
    let cs = seq![c];
    assert(cs.drop_first() =~= Seq::<char>::empty());
    assert(encode_utf8(Seq::<char>::empty()) =~= Seq::<u8>::empty());
    assert(encode_utf8(cs) =~= e);
    encode_utf8_valid_utf8(cs);
    assert(valid_utf8(e));
    lemma_encode_scalar_shape(c);
    valid_utf8_concat(a, e);
    assert(a + e + b =~= (a + e) + b);
    valid_utf8_concat(a + e, b);
    assert(valid_utf8(s));
    lemma_boundary_byte(s);
    // the seam before the character
    assert(s[a.len() as int] == e[0]);
    assert(is_char_boundary(s, a.len() as int));
    // the seam after the character
    if b.len() > 0 {
        lemma_boundary_byte(b);
        assert(is_char_boundary(b, 0));
        assert(s[(a.len() + e.len()) as int] == b[0]);
    }
    assert(is_char_boundary(s, (a.len() + e.len()) as int));
    // the character spans exactly the range between the seams
    assert(forall|j: int|
        a.len() < j < (a.len() + e.len()) as int ==> #[trigger] s[j] == e[j - a.len()]);
    lemma_next_stop_unique(s, a.len() as int, (a.len() + e.len()) as int);
    lemma_prev_stop_unique(s, (a.len() + e.len()) as int, a.len() as int);
}

/// Between a character boundary and the next stop lies exactly one
/// character's encoding: the forward probe steps over one character,
/// never more, never part of one.
pub proof fn lemma_one_char_between_stops(s: Seq<u8>, i: int)
    requires
        valid_utf8(s),
        is_char_boundary(s, i),
        0 <= i < s.len(),
    ensures
        next_stop(s, i) <= s.len(),
        valid_utf8(s.subrange(i, next_stop(s, i))),
        decode_utf8(s.subrange(i, next_stop(s, i))).len() == 1,
{
    let tail = s.subrange(i, s.len() as int);
    valid_utf8_split(s, i);
    assert(valid_utf8(tail));
    assert(tail.len() > 0);
    assert(valid_first_scalar(tail));
    let w = length_of_first_scalar(tail);
    assert(1 <= w <= 4);
    // the continuation bytes of the first character, read through `s`
    assert(forall|j: int| 0 < j < w ==> is_continuation_byte(#[trigger] tail[j]));
    assert(forall|j: int| i < j < i + w ==> is_continuation_byte(#[trigger] s[j]));
    // the offset just past the first character qualifies as a stop
    let rest = pop_first_scalar(tail);
    assert(valid_utf8(rest));
    if rest.len() > 0 {
        assert(valid_first_scalar(rest));
        assert(!is_continuation_byte(rest[0]));
        assert(s[i + w] == tail[w]);
        assert(tail[w] == rest[0]);
    } else {
        assert(i + w == s.len());
    }
    lemma_next_stop_unique(s, i, i + w);
    // the piece between the stops is the first character's encoding
    let piece = s.subrange(i, i + w);
    assert(piece =~= take_first_scalar(tail));
    lemma_boundary_byte(tail);
    assert(is_char_boundary(tail, w));
    valid_utf8_split(tail, w);
    assert(piece =~= tail.subrange(0, w));
    assert(valid_utf8(piece));
    // it decodes to a single character
    assert(piece[0] == tail[0]);
    assert(length_of_first_scalar(piece) == w);
    assert(pop_first_scalar(piece) =~= Seq::<u8>::empty());
    assert(decode_utf8(pop_first_scalar(piece)) =~= Seq::<char>::empty());
    assert(decode_utf8(piece) =~= seq![decode_first_scalar(piece) as char]);
}

} // verus!
