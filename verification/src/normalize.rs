//! The output normalizer.
//!
//! The external calculator terminates every output line with a newline and,
//! when a numeric result is too wide for its line width, splits it across
//! physical lines with a two-character backslash-newline continuation
//! marker. Normalization turns such a captured buffer into one contiguous
//! result string: it drops the single trailing line terminator and removes
//! every continuation marker, scanning left to right.

use vstd::prelude::*;

verus! {

/// The two-character line-continuation marker starts at position `i` of `s`.
pub open spec fn marker_at(s: Seq<char>, i: int) -> bool {
    s[i] == '\\' && s[i + 1] == '\n'
}

/// `s` holds no line-continuation marker.
pub open spec fn marker_free(s: Seq<char>) -> bool {
    forall|i: int| 0 <= i && i + 1 < s.len() ==> !marker_at(s, i)
}

/// The line-continuation marker as a sequence.
pub open spec fn marker() -> Seq<char> {
    seq!['\\', '\n']
}

/// `s` with every backslash-newline continuation marker removed, scanning
/// left to right; a pair that a removal makes adjacent is not re-examined.
pub open spec fn strip_markers(s: Seq<char>) -> Seq<char>
    decreases s.len(),
{
    if s.len() < 2 {
        s
    } else if marker_at(s, 0) {
        strip_markers(s.skip(2))
    } else {
        seq![s[0]] + strip_markers(s.skip(1))
    }
}

/// What normalizing a captured, newline-terminated buffer yields: the buffer
/// without its final character, with every continuation marker removed.
pub open spec fn normalized(s: Seq<char>) -> Seq<char>
    recommends
        s.len() >= 1,
{
    strip_markers(s.drop_last())
}

/// Normalizes a captured output buffer: drops the final character (the line
/// terminator the calculator always emits) and removes every
/// backslash-newline continuation marker from what remains.
///
/// The buffer must be non-empty; the classification step only hands this
/// function a stream it has checked to be non-empty.
pub fn handle_output(raw: &Vec<char>) -> (r: Vec<char>)
    requires
        raw@.len() >= 1,
    ensures
        r@ == normalized(raw@),
{
    let end: usize = raw.len() - 1;
    let mut out: Vec<char> = Vec::new();
    let mut i: usize = 0;
    proof {
        assert(raw@.subrange(0, end as int) =~= raw@.take(end as int));
        assert(out@ + strip_markers(raw@.take(end as int))
            =~= strip_markers(raw@.take(end as int)));
    }
    while i < end
        invariant
            i <= end,
            end == raw@.len() - 1,
            out@ + strip_markers(raw@.subrange(i as int, end as int))
                == strip_markers(raw@.take(end as int)),
        decreases end - i,
    {
        let ghost rest = raw@.subrange(i as int, end as int);
        if i + 1 < end && raw[i] == '\\' && raw[i + 1] == '\n' {
            proof {
                assert(marker_at(rest, 0));
                assert(rest.skip(2) =~= raw@.subrange(i + 2, end as int));
            }
            i = i + 2;
        } else {
            let ghost prev = out@;
            out.push(raw[i]);
            proof {
                assert(rest.skip(1) =~= raw@.subrange(i + 1, end as int));
                if rest.len() >= 2 {
                    assert(!marker_at(rest, 0));
                } else {
                    assert(rest =~= seq![rest[0]]);
                    assert(rest.skip(1) =~= Seq::<char>::empty());
                    assert(seq![rest[0]] + strip_markers(rest.skip(1)) =~= rest);
                }
                assert(strip_markers(rest) == seq![rest[0]] + strip_markers(rest.skip(1)));
                assert(prev + (seq![rest[0]] + strip_markers(rest.skip(1)))
                    =~= out@ + strip_markers(rest.skip(1)));
            }
            i = i + 1;
        }
    }
    proof {
        assert(raw@.subrange(end as int, end as int) =~= Seq::<char>::empty());
        assert(out@ + Seq::<char>::empty() =~= out@);
        assert(raw@.take(end as int) =~= raw@.drop_last());
    }
    out
}

/// A marker-free buffer stays marker-free when its first character goes.
proof fn lemma_marker_free_skip(s: Seq<char>)
    requires
        marker_free(s),
        s.len() >= 1,
    ensures
        marker_free(s.skip(1)),
{
    assert forall|i: int| 0 <= i && i + 1 < s.skip(1).len() implies !marker_at(
        s.skip(1),
        i,
    ) by {
        assert(s.skip(1)[i] == s[i + 1]);
        assert(s.skip(1)[i + 1] == s[i + 2]);
        assert(!marker_at(s, i + 1));
    }
}

/// Law: the stripping pass leaves a buffer with no continuation marker
/// unchanged.
pub proof fn lemma_strip_markers_noop(s: Seq<char>)
    requires
        marker_free(s),
    ensures
        strip_markers(s) == s,
    decreases s.len(),
{
    if s.len() >= 2 {
        assert(!marker_at(s, 0));
        lemma_marker_free_skip(s);
        lemma_strip_markers_noop(s.skip(1));
        assert(seq![s[0]] + s.skip(1) =~= s);
    }
}

/// Law (idempotence): normalizing an already-normalized string — one with no
/// continuation marker and no trailing terminator — returns it unchanged,
/// once the single line terminator the calculator always emits is restored.
pub proof fn lemma_normalize_idempotent(s: Seq<char>)
    requires
        marker_free(s),
    ensures
        normalized(s.push('\n')) == s,
{
    assert(s.push('\n').drop_last() =~= s);
    lemma_strip_markers_noop(s);
}

/// Law: a continuation marker placed after a marker-free prefix is removed
/// exactly — the stripping pass yields the prefix joined to the stripped
/// remainder. Applied repeatedly it covers a buffer with any number of
/// markers.
pub proof fn lemma_strip_markers_join(a: Seq<char>, rest: Seq<char>)
    requires
        marker_free(a),
    ensures
        strip_markers(a + marker() + rest) == a + strip_markers(rest),
    decreases a.len(),
{
    let s = a + marker() + rest;
    if a.len() == 0 {
        assert(s =~= marker() + rest);
        assert(marker_at(s, 0));
        assert(s.skip(2) =~= rest);
        assert(a + strip_markers(rest) =~= strip_markers(rest));
    } else {
        assert(s[0] == a[0]);
        if a.len() >= 2 {
            assert(s[1] == a[1]);
            assert(!marker_at(a, 0));
        } else {
            assert(s[1] == '\\');
        }
        assert(!marker_at(s, 0));
        lemma_marker_free_skip(a);
        lemma_strip_markers_join(a.skip(1), rest);
        assert(s.skip(1) =~= a.skip(1) + marker() + rest);
        assert(seq![a[0]] + (a.skip(1) + strip_markers(rest)) =~= a + strip_markers(rest));
    }
}

/// Law (line-continuation round trip, one marker): a raw buffer holding two
/// marker-free pieces split by one continuation marker, terminated by the
/// final newline, normalizes to exactly the concatenation of the two pieces.
pub proof fn lemma_round_trip_one_marker(a: Seq<char>, b: Seq<char>)
    requires
        marker_free(a),
        marker_free(b),
    ensures
        normalized((a + marker() + b).push('\n')) == a + b,
{
    assert((a + marker() + b).push('\n').drop_last() =~= a + marker() + b);
    lemma_strip_markers_join(a, b);
    lemma_strip_markers_noop(b);
}

/// Law (line-continuation round trip, several markers): a result wrapped
/// across three physical lines by two continuation markers normalizes to the
/// contiguous concatenation of the three pieces.
pub proof fn lemma_round_trip_two_markers(a: Seq<char>, b: Seq<char>, c: Seq<char>)
    requires
        marker_free(a),
        marker_free(b),
        marker_free(c),
    ensures
        normalized((a + marker() + b + marker() + c).push('\n')) == a + b + c,
{
    let whole = a + marker() + b + marker() + c;
    assert(whole.push('\n').drop_last() =~= a + marker() + (b + marker() + c));
    lemma_strip_markers_join(a, b + marker() + c);
    lemma_strip_markers_join(b, c);
    lemma_strip_markers_noop(c);
    assert(a + (b + c) =~= a + b + c);
}

/// Law (no marker remains): the join of two marker-free pieces is itself
/// marker-free, unless the seam re-forms a marker — a prefix ending in a
/// backslash followed by a piece starting with a newline.
pub proof fn lemma_marker_free_concat(a: Seq<char>, b: Seq<char>)
    requires
        marker_free(a),
        marker_free(b),
        a.len() == 0 || b.len() == 0 || !(a.last() == '\\' && b[0] == '\n'),
    ensures
        marker_free(a + b),
{
    assert forall|i: int| 0 <= i && i + 1 < (a + b).len() implies !marker_at(a + b, i) by {
        if i + 1 < a.len() {
            assert((a + b)[i] == a[i]);
            assert((a + b)[i + 1] == a[i + 1]);
            assert(!marker_at(a, i));
        } else if i + 1 == a.len() {
            assert((a + b)[i] == a[i]);
            assert(a[i] == a.last());
            assert((a + b)[i + 1] == b[0]);
        } else {
            assert((a + b)[i] == b[i - a.len()]);
            assert((a + b)[i + 1] == b[i + 1 - a.len()]);
            assert(!marker_at(b, i - a.len()));
        }
    }
}

} // verus!
