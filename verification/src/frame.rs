//! Scanning raw byte buffers for the line-feed byte that ends a frame.
//!
//! Both relay directions delimit frames with a final line-feed byte; the
//! specifications here describe where the first such byte sits in a buffer,
//! and the executable scanner locates it.

use vstd::prelude::*;

verus! {

/// The line-feed byte, `\n`: the last byte of every frame on the wire.
pub const LF: u8 = 10;

/// The carriage-return byte, `\r`: the device convention puts it before `LF`.
pub const CR: u8 = 13;

/// True when the buffer holds at least one line-feed byte, so that a complete
/// frame can be taken from it.
pub open spec fn has_lf(b: Seq<u8>) -> bool {
    exists|i: int| 0 <= i < b.len() && b[i] == LF
}

/// Index of the first line-feed byte in the buffer; meaningful only when one
/// is present.
pub open spec fn lf_pos(b: Seq<u8>) -> int
    decreases b.len(),
{
    if b.len() == 0 {
        0
    } else if b[0] == LF {
        0
    } else {
        1 + lf_pos(b.drop_first())
    }
}

/// When a line feed is present, `lf_pos` names a line feed inside the buffer
/// and nothing before it is one.
pub proof fn lemma_lf_pos(b: Seq<u8>)
    requires
        has_lf(b),
    ensures
        0 <= lf_pos(b) < b.len(),
        b[lf_pos(b)] == LF,
        forall|j: int| 0 <= j < lf_pos(b) ==> b[j] != LF,
    decreases b.len(),
{
    if b[0] == LF {
    } else {
        let t = b.drop_first();
        let i = choose|i: int| 0 <= i < b.len() && b[i] == LF;
        assert(t[i - 1] == LF);
        lemma_lf_pos(t);
        assert forall|j: int| 0 <= j < lf_pos(b) implies b[j] != LF by {
            if j > 0 {
                assert(b[j] == t[j - 1]);
            }
        }
    }
}

/// An index that holds a line feed, with none before it, is `lf_pos`.
pub proof fn lemma_lf_pos_is_first(b: Seq<u8>, n: int)
    requires
        0 <= n < b.len(),
        b[n] == LF,
        forall|j: int| 0 <= j < n ==> b[j] != LF,
    ensures
        has_lf(b),
        lf_pos(b) == n,
    decreases b.len(),
{
    assert(has_lf(b));
    if n == 0 {
    } else {
        let t = b.drop_first();
        assert forall|j: int| 0 <= j < n - 1 implies t[j] != LF by {
            assert(t[j] == b[j + 1]);
        }
        assert(t[n - 1] == LF);
        lemma_lf_pos_is_first(t, n - 1);
    }
}

/// Bytes that hold no line feed leave the first line feed of anything behind
/// them where it was: appending input moves no frame boundary that the old
/// bytes did not already contain.
pub proof fn lemma_lf_append(b1: Seq<u8>, b2: Seq<u8>)
    requires
        !has_lf(b1),
        has_lf(b2),
    ensures
        has_lf(b1 + b2),
        lf_pos(b1 + b2) == b1.len() + lf_pos(b2),
{
    lemma_lf_pos(b2);
    let w = b1 + b2;
    let n = b1.len() + lf_pos(b2);
    assert(w[n] == b2[lf_pos(b2)]);
    assert forall|j: int| 0 <= j < n implies w[j] != LF by {
        if j < b1.len() {
            assert(w[j] == b1[j]);
            if b1[j] == LF {
                assert(has_lf(b1));
            }
        } else {
            assert(w[j] == b2[j - b1.len()]);
        }
    }
    lemma_lf_pos_is_first(w, n);
}

/// Finds the first line feed in the buffer, if any.
pub fn find_lf(buf: &Vec<u8>) -> (r: Option<usize>)
    ensures
        match r {
            Some(n) => has_lf(buf@) && n == lf_pos(buf@),
            None => !has_lf(buf@),
        },
{
    let mut i: usize = 0;
    while i < buf.len()
        invariant
            0 <= i <= buf@.len(),
            forall|j: int| 0 <= j < i ==> buf@[j] != LF,
        decreases buf@.len() - i,
    {
        if buf[i] == LF {
            proof {
                lemma_lf_pos_is_first(buf@, i as int);
            }
            return Some(i);
        }
        i = i + 1;
    }
    proof {
        if has_lf(buf@) {
            let k = choose|k: int| 0 <= k < buf@.len() && buf@[k] == LF;
            assert(buf@[k] != LF);
        }
    }
    None
}

} // verus!
