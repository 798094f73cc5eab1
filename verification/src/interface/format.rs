//! Texts shaped for display.
use vstd::prelude::*;

use vstd::utf8::{encode_scalar, encode_utf8};

verus! {

/// Number of bytes of the UTF-8 text of `p` from character `k` on.
pub open spec fn suffix_bytes(p: Seq<char>, k: int) -> int {
    encode_utf8(p.subrange(k, p.len() as int)).len() as int
}

/// Whether character `k` is where a long path is cut for display: the rest
/// fits in 37 bytes, and one character more would not.
pub open spec fn display_cut(p: Seq<char>, k: int) -> bool {
    &&& 0 <= k <= p.len()
    &&& suffix_bytes(p, k) <= 37
    &&& (k == 0 || suffix_bytes(p, k - 1) > 37)
}

fn char_bytes(c: char) -> (n: usize)
    ensures
        n == encode_scalar(c as u32).len(),
        1 <= n <= 4,
{
    let v = c as u32;
    if v <= 0x7F {
        1
    } else if v <= 0x7FF {
        2
    } else if v <= 0xFFFF {
        3
    } else {
        4
    }
}

proof fn lemma_suffix_step(p: Seq<char>, k: int)
    requires
        0 <= k < p.len(),
    ensures
        suffix_bytes(p, k) == encode_scalar(p[k] as u32).len() + suffix_bytes(p, k + 1),
{
    let s = p.subrange(k, p.len() as int);
    assert(s.drop_first() =~= p.subrange(k + 1, p.len() as int));
    assert(s[0] == p[k]);
}

/// A download path as the settings screen shows it: one longer than 40
/// bytes is cut to its last 37 bytes or fewer, at a character boundary,
/// after "...".
pub fn display_path(path: &str) -> (r: String)
    ensures
        encode_utf8(path@).len() <= 40 ==> r@ == path@,
        encode_utf8(path@).len() > 40 ==> exists|k: int| display_cut(path@, k)
            && r@ == "..."@ + path@.subrange(k, path@.len() as int),
{
    let n = path.unicode_len();
    let mut k: usize = n;
    let mut acc: usize = 0;
    assert(path@.subrange(n as int, n as int) =~= Seq::<char>::empty());
    loop
        invariant
            n == path@.len(),
            k <= n,
            acc <= 37,
            acc == suffix_bytes(path@, k as int),
        ensures
            k <= n,
            acc == suffix_bytes(path@, k as int),
            display_cut(path@, k as int),
        decreases k,
    {
        if k == 0 {
            break;
        }
        let w = char_bytes(path.get_char(k - 1));
        proof {
            lemma_suffix_step(path@, k - 1);
        }
        if acc + w > 37 {
            break;
        }
        acc = acc + w;
        k = k - 1;
    }
    let mut j: usize = k;
    let mut total: usize = acc;
    loop
        invariant
            n == path@.len(),
            k <= n,
            j <= k,
            total <= 44,
            total == suffix_bytes(path@, j as int),
        ensures
            total == suffix_bytes(path@, j as int),
            (total > 40) || j == 0,
        decreases j,
    {
        if j == 0 || total > 40 {
            break;
        }
        let w = char_bytes(path.get_char(j - 1));
        proof {
            lemma_suffix_step(path@, j - 1);
            lemma_suffix_monotone(path@, 0, j as int);
        }
        total = total + w;
        j = j - 1;
    }
    proof {
        lemma_suffix_monotone(path@, 0, j as int);
        assert(path@.subrange(0, n as int) =~= path@);
    }
    if total > 40 {
        let rest = path.substring_char(k, n);
        crate::text::owned("...").concat(rest)
    } else {
        crate::text::owned(path)
    }
}

proof fn lemma_suffix_monotone(p: Seq<char>, i: int, j: int)
    requires
        0 <= i <= j <= p.len(),
    ensures
        suffix_bytes(p, i) >= suffix_bytes(p, j),
    decreases j - i,
{
    if i < j {
        lemma_suffix_step(p, i);
        lemma_suffix_monotone(p, i + 1, j);
    }
}

} // verus!
