//! The byte patcher: exact, fixed-length substring replacement over a byte
//! buffer.
//!
//! The scan visits every starting offset `i` with `i + needle.len() <
//! buffer.len()` in ascending order; on an exact match it overwrites the
//! window in place with the replacement and continues from `i + 1`, so
//! adjacent or overlapping candidates after a replacement are matched against
//! the freshly written bytes.  A needle longer than the buffer finds no
//! window and the buffer is left untouched.

use vstd::prelude::*;

verus! {

/// `needle` occurs in `buf` at offset `i`.
pub open spec fn occurs_at(buf: Seq<u8>, needle: Seq<u8>, i: int) -> bool {
    &&& 0 <= i
    &&& i + needle.len() <= buf.len()
    &&& buf.subrange(i, i + needle.len()) == needle
}

/// `needle` occurs somewhere in `buf`.
pub open spec fn occurs(buf: Seq<u8>, needle: Seq<u8>) -> bool {
    exists|i: int| occurs_at(buf, needle, i)
}

/// `buf` with the window of `repl.len()` bytes starting at `i` overwritten by
/// `repl`; every byte outside the window is unchanged and the length is kept.
pub open spec fn splice_at(buf: Seq<u8>, repl: Seq<u8>, i: int) -> Seq<u8> {
    Seq::new(buf.len(), |j: int| if i <= j < i + repl.len() { repl[j - i] } else { buf[j] })
}

/// The forward scan from offset `i`: at each offset whose window lies
/// strictly inside the buffer, replace an exact match in place and move one
/// byte forward, rescanning over just-written bytes.
pub open spec fn patch_from(buf: Seq<u8>, needle: Seq<u8>, repl: Seq<u8>, i: int) -> Seq<u8>
    decreases buf.len() - i,
{
    if i + needle.len() >= buf.len() {
        buf
    } else {
        let next = if buf.subrange(i, i + needle.len()) == needle {
            splice_at(buf, repl, i)
        } else {
            buf
        };
        patch_from(next, needle, repl, i + 1)
    }
}

/// The whole forward scan, from offset 0.
pub open spec fn patch_seq(buf: Seq<u8>, needle: Seq<u8>, repl: Seq<u8>) -> Seq<u8> {
    patch_from(buf, needle, repl, 0)
}

/// Whether the window of `b@.len()` bytes of `a` starting at `idx` equals `b`.
fn window_matches(a: &Vec<u8>, b: &Vec<u8>, idx: usize) -> (r: bool)
    requires
        idx + b@.len() <= a@.len(),
    ensures
        r <==> a@.subrange(idx as int, idx as int + b@.len() as int) == b@,
{
    let ghost w = a@.subrange(idx as int, idx as int + b@.len() as int);
    let alen = a.len();
    let mut j: usize = 0;
    while j < b.len()
        invariant
            j <= b@.len(),
            alen == a@.len(),
            idx + b@.len() <= a@.len(),
            w == a@.subrange(idx as int, idx as int + b@.len() as int),
            forall|k: int| 0 <= k < j ==> a@[idx + k] == b@[k],
        decreases b@.len() - j,
    {
        if a[idx + j] != b[j] {
            proof {
                assert(w[j as int] == a@[idx + j]);
            }
            return false;
        }
        j += 1;
    }
    proof {
        assert(w =~= b@);
    }
    true
}

/// Given that `a` includes the slice `b`, replace each scanned occurrence of
/// `b` with `c`, in place, without changing the buffer's length.
pub fn insert_chars_eq(a: &mut Vec<u8>, b: &Vec<u8>, c: &Vec<u8>)
    requires
        b@.len() == c@.len(),
    ensures
        final(a)@ == patch_seq(old(a)@, b@, c@),
        final(a)@.len() == old(a)@.len(),
{
    let mut idx: usize = 0;
    while b.len() < a.len() - idx
        invariant
            idx <= a@.len(),
            a@.len() == old(a)@.len(),
            b@.len() == c@.len(),
            patch_from(a@, b@, c@, idx as int) == patch_seq(old(a)@, b@, c@),
        decreases a@.len() - idx,
    {
        let ghost pre = a@;
        if window_matches(a, b, idx) {
            let alen = a.len();
            let mut j: usize = 0;
            while j < b.len()
                invariant
                    j <= b@.len(),
                    b@.len() == c@.len(),
                    alen == a@.len(),
                    idx + b@.len() <= a@.len(),
                    a@.len() == pre.len(),
                    forall|k: int| 0 <= k < j ==> a@[idx + k] == c@[k],
                    forall|k: int| 0 <= k < a@.len() && !(idx <= k < idx + j) ==> a@[k] == pre[k],
                decreases b@.len() - j,
            {
                a.set(idx + j, c[j]);
                j += 1;
            }
            proof {
                assert(a@ =~= splice_at(pre, c@, idx as int));
            }
        }
        proof {
            assert(patch_from(a@, b@, c@, idx as int + 1) == patch_from(pre, b@, c@, idx as int));
        }
        idx += 1;
    }
    proof {
        assert(patch_from(a@, b@, c@, idx as int) == a@);
    }
}

/// The scan never changes the buffer's length.
proof fn lemma_patch_from_len(buf: Seq<u8>, needle: Seq<u8>, repl: Seq<u8>, i: int)
    ensures
        patch_from(buf, needle, repl, i).len() == buf.len(),
    decreases buf.len() - i,
{
    if i + needle.len() < buf.len() {
        if buf.subrange(i, i + needle.len()) == needle {
            lemma_patch_from_len(splice_at(buf, repl, i), needle, repl, i + 1);
        } else {
            lemma_patch_from_len(buf, needle, repl, i + 1);
        }
    }
}

/// Length preservation: patching never changes the buffer's length,
/// whatever the needle and the replacement are.
pub proof fn lemma_patch_preserves_len(buf: Seq<u8>, needle: Seq<u8>, repl: Seq<u8>)
    ensures
        patch_seq(buf, needle, repl).len() == buf.len(),
{
    lemma_patch_from_len(buf, needle, repl, 0);
}

/// A scan over a region free of matches leaves the buffer as it is.
proof fn lemma_patch_from_no_match(buf: Seq<u8>, needle: Seq<u8>, repl: Seq<u8>, i: int)
    requires
        forall|j: int| i <= j && j + needle.len() < buf.len()
            ==> #[trigger] buf.subrange(j, j + needle.len()) != needle,
    ensures
        patch_from(buf, needle, repl, i) == buf,
    decreases buf.len() - i,
{
    if i + needle.len() < buf.len() {
        assert(buf.subrange(i, i + needle.len()) != needle);
        lemma_patch_from_no_match(buf, needle, repl, i + 1);
    }
}

/// Scanning from `i` up to `p` over a region free of matches reaches `p`
/// with the buffer unchanged.
proof fn lemma_patch_from_skip(buf: Seq<u8>, needle: Seq<u8>, repl: Seq<u8>, i: int, p: int)
    requires
        i <= p,
        forall|j: int| i <= j < p && j + needle.len() < buf.len()
            ==> #[trigger] buf.subrange(j, j + needle.len()) != needle,
    ensures
        patch_from(buf, needle, repl, i) == patch_from(buf, needle, repl, p),
    decreases p - i,
{
    if i < p {
        if i + needle.len() < buf.len() {
            assert(buf.subrange(i, i + needle.len()) != needle);
        }
        lemma_patch_from_skip(buf, needle, repl, i + 1, p);
    }
}

/// No-match no-op: if the needle does not occur in the buffer, patching
/// leaves the buffer byte-identical to the input.
pub proof fn lemma_patch_no_match(buf: Seq<u8>, needle: Seq<u8>, repl: Seq<u8>)
    requires
        !occurs(buf, needle),
    ensures
        patch_seq(buf, needle, repl) == buf,
{
    assert forall|j: int| 0 <= j && j + needle.len() < buf.len()
        implies #[trigger] buf.subrange(j, j + needle.len()) != needle by {
        assert(!occurs_at(buf, needle, j));
    }
    lemma_patch_from_no_match(buf, needle, repl, 0);
}

/// Patch correctness for a buffer with a single occurrence: when `needle`
/// occurs exactly once, at an offset the scan reaches, and overwriting it
/// creates no fresh occurrence further along the scan, the patched buffer
/// keeps its length, carries `repl` at that offset and is unchanged
/// everywhere else.
pub proof fn lemma_patch_single_match(buf: Seq<u8>, needle: Seq<u8>, repl: Seq<u8>, p: int)
    requires
        needle.len() == repl.len(),
        needle.len() > 0,
        occurs_at(buf, needle, p),
        p + needle.len() < buf.len(),
        forall|i: int| 0 <= i && i + needle.len() <= buf.len() && i != p
            ==> #[trigger] buf.subrange(i, i + needle.len()) != needle,
        forall|i: int| p < i && i + needle.len() < buf.len()
            ==> #[trigger] splice_at(buf, repl, p).subrange(i, i + needle.len()) != needle,
    ensures
        patch_seq(buf, needle, repl) == splice_at(buf, repl, p),
        patch_seq(buf, needle, repl).len() == buf.len(),
        patch_seq(buf, needle, repl).subrange(p, p + needle.len()) == repl,
        forall|j: int| 0 <= j < buf.len() && !(p <= j < p + needle.len())
            ==> patch_seq(buf, needle, repl)[j] == buf[j],
{
    let spliced = splice_at(buf, repl, p);
    lemma_patch_from_skip(buf, needle, repl, 0, p);
    assert(buf.subrange(p, p + needle.len()) == needle);
    assert(patch_from(buf, needle, repl, p) == patch_from(spliced, needle, repl, p + 1));
    lemma_patch_from_no_match(spliced, needle, repl, p + 1);
    assert(patch_seq(buf, needle, repl) == spliced);
    assert(spliced.subrange(p, p + needle.len()) =~= repl);
}

} // verus!
