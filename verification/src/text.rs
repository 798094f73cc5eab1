//! Small verified string helpers shared by the rest of the library.
use vstd::prelude::*;

verus! {

/// Whether `s` starts with `prefix`.
pub open spec fn seq_starts_with(s: Seq<char>, prefix: Seq<char>) -> bool {
    prefix.len() <= s.len() && s.subrange(0, prefix.len() as int) == prefix
}

/// Whether `s` ends with `suffix`.
pub open spec fn seq_ends_with(s: Seq<char>, suffix: Seq<char>) -> bool {
    suffix.len() <= s.len() && s.subrange(s.len() - suffix.len(), s.len() as int) == suffix
}

/// `s` with every non-overlapping occurrence of the non-empty `pat`, scanned
/// from the left, replaced by `rep`.
pub open spec fn replace_all(s: Seq<char>, pat: Seq<char>, rep: Seq<char>) -> Seq<char>
    decreases s.len(),
{
    if pat.len() == 0 || s.len() < pat.len() {
        s
    } else if s.subrange(0, pat.len() as int) == pat {
        rep + replace_all(s.subrange(pat.len() as int, s.len() as int), pat, rep)
    } else {
        seq![s[0]] + replace_all(s.subrange(1, s.len() as int), pat, rep)
    }
}

/// Decimal digits of `n`, most significant first, without leading zeros
/// (`0` is written as a single `'0'`).
pub open spec fn decimal(n: nat) -> Seq<char>
    decreases n,
{
    if n < 10 {
        seq![digit_char(n)]
    } else {
        decimal(n / 10) + seq![digit_char(n % 10)]
    }
}

pub open spec fn digit_char(d: nat) -> char {
    if d == 0 { '0' }
    else if d == 1 { '1' }
    else if d == 2 { '2' }
    else if d == 3 { '3' }
    else if d == 4 { '4' }
    else if d == 5 { '5' }
    else if d == 6 { '6' }
    else if d == 7 { '7' }
    else if d == 8 { '8' }
    else { '9' }
}

/// Decimal digits of `n`, left-padded with `'0'` to at least two characters.
pub open spec fn two_digits(n: nat) -> Seq<char> {
    if n < 10 { seq!['0'] + decimal(n) } else { decimal(n) }
}

/// Appends `c` to `s` (std's `String::push`).
#[verifier::external_body]
pub(crate) fn push_char(s: &mut String, c: char)
    ensures
        final(s)@ == old(s)@.push(c),
{
    s.push(c);
}

/// Removes and returns the last character of `s` (std's `String::pop`).
#[verifier::external_body]
pub(crate) fn pop_char(s: &mut String) -> (r: Option<char>)
    ensures
        old(s)@.len() == 0 ==> r is None && final(s)@ == old(s)@,
        old(s)@.len() > 0 ==> r == Some(old(s)@.last()) && final(s)@ == old(s)@.drop_last(),
{
    s.pop()
}

/// Empties `s` (std's `String::clear`).
#[verifier::external_body]
pub(crate) fn clear_string(s: &mut String)
    ensures
        final(s)@ == Seq::<char>::empty(),
{
    s.clear();
}

/// An owned copy of `s`.
pub fn owned(s: &str) -> (r: String)
    ensures
        r@ == s@,
{
    s.to_owned()
}

/// Character-wise equality of two strings.
pub fn str_eq(a: &str, b: &str) -> (r: bool)
    ensures
        r == (a@ == b@),
{
    let n = a.unicode_len();
    if n != b.unicode_len() {
        return false;
    }
    let mut i: usize = 0;
    while i < n
        invariant
            n == a@.len(),
            n == b@.len(),
            i <= n,
            forall|j: int| 0 <= j < i ==> a@[j] == b@[j],
        decreases n - i,
    {
        if a.get_char(i) != b.get_char(i) {
            return false;
        }
        i = i + 1;
    }
    assert(a@ =~= b@);
    true
}

/// Whether `s` starts with `prefix`.
pub fn starts_with(s: &str, prefix: &str) -> (r: bool)
    ensures
        r == seq_starts_with(s@, prefix@),
{
    let n = s.unicode_len();
    let m = prefix.unicode_len();
    if m > n {
        return false;
    }
    let mut i: usize = 0;
    while i < m
        invariant
            n == s@.len(),
            m == prefix@.len(),
            m <= n,
            i <= m,
            forall|j: int| 0 <= j < i ==> s@[j] == prefix@[j],
        decreases m - i,
    {
        if s.get_char(i) != prefix.get_char(i) {
            assert(s@.subrange(0, m as int)[i as int] != prefix@[i as int]);
            return false;
        }
        i = i + 1;
    }
    assert(s@.subrange(0, m as int) =~= prefix@);
    true
}

/// Whether `s` ends with `suffix`.
pub fn ends_with(s: &str, suffix: &str) -> (r: bool)
    ensures
        r == seq_ends_with(s@, suffix@),
{
    let n = s.unicode_len();
    let m = suffix.unicode_len();
    if m > n {
        return false;
    }
    let off = n - m;
    let mut i: usize = 0;
    while i < m
        invariant
            n == s@.len(),
            m == suffix@.len(),
            m <= n,
            off == n - m,
            i <= m,
            forall|j: int| 0 <= j < i ==> s@[off + j] == suffix@[j],
        decreases m - i,
    {
        if s.get_char(off + i) != suffix.get_char(i) {
            assert(s@.subrange(off as int, n as int)[i as int] != suffix@[i as int]);
            return false;
        }
        i = i + 1;
    }
    assert(s@.subrange(off as int, n as int) =~= suffix@);
    true
}

proof fn lemma_replace_all_step_match(s: Seq<char>, pat: Seq<char>, rep: Seq<char>, i: int)
    requires
        pat.len() > 0,
        0 <= i,
        i + pat.len() <= s.len(),
        s.subrange(i, i + pat.len()) == pat,
    ensures
        replace_all(s.subrange(i, s.len() as int), pat, rep)
            == rep + replace_all(s.subrange(i + pat.len(), s.len() as int), pat, rep),
{
    let t = s.subrange(i, s.len() as int);
    assert(t.subrange(0, pat.len() as int) =~= s.subrange(i, i + pat.len()));
    assert(t.subrange(pat.len() as int, t.len() as int) =~= s.subrange(i + pat.len(), s.len() as int));
}

proof fn lemma_replace_all_step_skip(s: Seq<char>, pat: Seq<char>, rep: Seq<char>, i: int)
    requires
        pat.len() > 0,
        0 <= i,
        i + pat.len() <= s.len(),
        s.subrange(i, i + pat.len()) != pat,
    ensures
        replace_all(s.subrange(i, s.len() as int), pat, rep)
            == seq![s[i]] + replace_all(s.subrange(i + 1, s.len() as int), pat, rep),
{
    let t = s.subrange(i, s.len() as int);
    assert(t.subrange(0, pat.len() as int) =~= s.subrange(i, i + pat.len()));
    assert(t.subrange(1, t.len() as int) =~= s.subrange(i + 1, s.len() as int));
}

/// `template` with every occurrence of `pat` replaced by `rep`
/// (std's `str::replace`, written out).
pub fn replace(template: &str, pat: &str, rep: &str) -> (r: String)
    requires
        pat@.len() > 0,
    ensures
        r@ == replace_all(template@, pat@, rep@),
{
    let n = template.unicode_len();
    let m = pat.unicode_len();
    let mut out = String::new();
    let mut i: usize = 0;
    assert(template@.subrange(0, n as int) =~= template@);
    assert(out@ + replace_all(template@, pat@, rep@) =~= replace_all(template@, pat@, rep@));
    while i < n
        invariant
            n == template@.len(),
            m == pat@.len(),
            m > 0,
            i <= n,
            out@ + replace_all(template@.subrange(i as int, n as int), pat@, rep@)
                == replace_all(template@, pat@, rep@),
        decreases n - i,
    {
        let mut matched = false;
        if m <= n - i {
            let mut j: usize = 0;
            matched = true;
            while j < m
                invariant
                    n == template@.len(),
                    m == pat@.len(),
                    i + m <= n,
                    j <= m,
                    matched == (forall|k: int| 0 <= k < j ==> template@[i + k] == pat@[k]),
                decreases m - j,
            {
                if template.get_char(i + j) != pat.get_char(j) {
                    matched = false;
                    assert(!(template@[i + j as int] == pat@[j as int]));
                }
                j = j + 1;
            }
            if matched {
                assert(template@.subrange(i as int, i + m) =~= pat@);
            } else {
                proof {
                    let k = choose|k: int| 0 <= k < m && template@[i + k] != pat@[k];
                    assert(template@.subrange(i as int, i + m)[k] != pat@[k]);
                }
            }
        }
        if matched {
            proof {
                lemma_replace_all_step_match(template@, pat@, rep@, i as int);
            }
            let ghost before = out@;
            out.append(rep);
            assert(out@ == before + rep@);
            assert(out@ + replace_all(template@.subrange(i + m, n as int), pat@, rep@)
                =~= before + (rep@ + replace_all(template@.subrange(i + m, n as int), pat@, rep@)));
            i = i + m;
        } else {
            let c = template.get_char(i);
            if m <= n - i {
                proof {
                    lemma_replace_all_step_skip(template@, pat@, rep@, i as int);
                }
            } else {
                proof {
                    let t = template@.subrange(i as int, n as int);
                    assert(t.len() < m);
                    let t1 = template@.subrange(i + 1, n as int);
                    assert(replace_all(t, pat@, rep@) == t);
                    assert(replace_all(t1, pat@, rep@) == t1);
                    assert(t =~= seq![c] + t1);
                }
            }
            let ghost before = out@;
            push_char(&mut out, c);
            assert(out@ + replace_all(template@.subrange(i + 1, n as int), pat@, rep@)
                =~= before + (seq![c] + replace_all(template@.subrange(i + 1, n as int), pat@, rep@)));
            i = i + 1;
        }
    }
    assert(template@.subrange(n as int, n as int) =~= Seq::<char>::empty());
    assert(out@ + replace_all(Seq::<char>::empty(), pat@, rep@) =~= out@);
    out
}

fn digit(d: u64) -> (c: char)
    requires
        d < 10,
    ensures
        c == digit_char(d as nat),
{
    if d == 0 { '0' }
    else if d == 1 { '1' }
    else if d == 2 { '2' }
    else if d == 3 { '3' }
    else if d == 4 { '4' }
    else if d == 5 { '5' }
    else if d == 6 { '6' }
    else if d == 7 { '7' }
    else if d == 8 { '8' }
    else { '9' }
}

/// Decimal representation of `n`.
pub fn u64_to_decimal(n: u64) -> (r: String)
    ensures
        r@ == decimal(n as nat),
    decreases n,
{
    if n < 10 {
        let mut s = String::new();
        push_char(&mut s, digit(n));
        assert(s@ =~= decimal(n as nat));
        s
    } else {
        let mut s = u64_to_decimal(n / 10);
        push_char(&mut s, digit(n % 10));
        assert(s@ =~= decimal(n as nat));
        s
    }
}

/// Decimal representation of `n`, left-padded with zeros to two characters
/// (the `{:02}` format).
pub fn two_digit_decimal(n: u64) -> (r: String)
    ensures
        r@ == two_digits(n as nat),
{
    let d = u64_to_decimal(n);
    if n < 10 {
        let mut s = String::new();
        push_char(&mut s, '0');
        s.append(d.as_str());
        assert(s@ =~= two_digits(n as nat));
        s
    } else {
        d
    }
}

} // verus!

verus! {

/// The characters with Unicode's White_Space property, which `char::is_whitespace`
/// and `str::trim` go by: tab to carriage return, space, next line, no-break
/// space, ogham space mark, the spaces from en quad to hair space, the line
/// and paragraph separators, the narrow no-break space, the medium
/// mathematical space and the ideographic space.
pub open spec fn white_space(c: char) -> bool {
    let v = c as u32;
    (0x9 <= v && v <= 0xD) || v == 0x20 || v == 0x85 || v == 0xA0 || v == 0x1680
        || (0x2000 <= v && v <= 0x200A) || v == 0x2028 || v == 0x2029 || v == 0x202F
        || v == 0x205F || v == 0x3000
}

/// Whether `c` is white space (see `white_space`).
pub fn is_white_space(c: char) -> (b: bool)
    ensures
        b == white_space(c),
{
    let v = c as u32;
    (0x9 <= v && v <= 0xD) || v == 0x20 || v == 0x85 || v == 0xA0 || v == 0x1680
        || (0x2000 <= v && v <= 0x200A) || v == 0x2028 || v == 0x2029 || v == 0x202F
        || v == 0x205F || v == 0x3000
}

/// `s` without its leading white space.
pub open spec fn trim_start(s: Seq<char>) -> Seq<char>
    decreases s.len(),
{
    if s.len() > 0 && white_space(s[0]) { trim_start(s.subrange(1, s.len() as int)) } else { s }
}

/// `s` without its trailing white space.
pub open spec fn trim_end(s: Seq<char>) -> Seq<char>
    decreases s.len(),
{
    if s.len() > 0 && white_space(s.last()) { trim_end(s.drop_last()) } else { s }
}

/// `s` without leading and trailing white space (`str::trim`).
pub open spec fn trimmed(s: Seq<char>) -> Seq<char> {
    trim_end(trim_start(s))
}

/// `s` without leading and trailing white space.
pub fn trim(s: &str) -> (r: String)
    ensures
        r@ == trimmed(s@),
{
    let n = s.unicode_len();
    let mut a: usize = 0;
    assert(s@.subrange(0, n as int) =~= s@);
    while a < n && is_white_space(s.get_char(a))
        invariant
            n == s@.len(),
            a <= n,
            trim_start(s@) == trim_start(s@.subrange(a as int, n as int)),
        decreases n - a,
    {
        assert(s@.subrange(a as int, n as int).subrange(1, (n - a) as int) =~= s@.subrange(a + 1, n as int));
        a = a + 1;
    }
    proof {
        let t = s@.subrange(a as int, n as int);
        if a < n {
            assert(t[0] == s@[a as int]);
        }
        assert(trim_start(t) == t);
    }
    let mut b: usize = n;
    while b > a && is_white_space(s.get_char(b - 1))
        invariant
            n == s@.len(),
            a <= b <= n,
            trim_end(s@.subrange(a as int, n as int)) == trim_end(s@.subrange(a as int, b as int)),
        decreases b - a,
    {
        assert(s@.subrange(a as int, b as int).drop_last() =~= s@.subrange(a as int, b - 1));
        b = b - 1;
    }
    proof {
        let t = s@.subrange(a as int, b as int);
        if b > a {
            assert(t.last() == s@[b - 1]);
        }
        assert(trim_end(t) == t);
    }
    let r = s.substring_char(a, b);
    r.to_owned()
}

/// The lines of `s`: the pieces between newline characters (a text ending
/// in a newline has an empty last piece).
pub open spec fn split_lines(s: Seq<char>) -> Seq<Seq<char>>
    decreases s.len(),
{
    if s.len() == 0 {
        seq![Seq::<char>::empty()]
    } else {
        let prev = split_lines(s.drop_last());
        if s.last() == '\n' {
            prev.push(Seq::<char>::empty())
        } else {
            prev.update(prev.len() - 1, prev.last().push(s.last()))
        }
    }
}

/// The trimmed lines that are not empty, in order.
pub open spec fn kept_lines(lines: Seq<Seq<char>>) -> Seq<Seq<char>>
    decreases lines.len(),
{
    if lines.len() == 0 {
        Seq::empty()
    } else {
        let t = trimmed(lines.last());
        kept_lines(lines.drop_last()) + (if t.len() > 0 { seq![t] } else { Seq::empty() })
    }
}

proof fn lemma_split_lines_nonempty(s: Seq<char>)
    ensures
        split_lines(s).len() > 0,
    decreases s.len(),
{
    if s.len() > 0 {
        lemma_split_lines_nonempty(s.drop_last());
    }
}

/// The lines of `s` (as `str::lines` splits them) with surrounding white
/// space removed, leaving out the blank ones.
pub fn nonblank_lines(s: &str) -> (r: Vec<String>)
    ensures
        r@.map_values(|l: String| l@) == kept_lines(split_lines(s@)),
{
    let n = s.unicode_len();
    let mut out: Vec<String> = Vec::new();
    let mut cur = String::new();
    let mut i: usize = 0;
    assert(s@.subrange(0, 0) =~= Seq::<char>::empty());
    while i < n
        invariant
            n == s@.len(),
            i <= n,
            split_lines(s@.subrange(0, i as int)).len() > 0,
            cur@ == split_lines(s@.subrange(0, i as int)).last(),
            out@.map_values(|l: String| l@) == kept_lines(split_lines(s@.subrange(0, i as int)).drop_last()),
        decreases n - i,
    {
        let c = s.get_char(i);
        let ghost pre = s@.subrange(0, i as int);
        let ghost next = s@.subrange(0, i + 1);
        assert(next.drop_last() =~= pre);
        assert(next.last() == c);
        proof {
            lemma_split_lines_nonempty(pre);
        }
        if c == '\n' {
            let t = trim(cur.as_str());
            let ghost before = out@;
            if t.as_str().unicode_len() > 0 {
                out.push(t);
            }
            assert(split_lines(next) == split_lines(pre).push(Seq::<char>::empty()));
            assert(split_lines(next).drop_last() =~= split_lines(pre));
            assert(split_lines(pre) =~= split_lines(pre).drop_last().push(split_lines(pre).last()));
            assert(out@.map_values(|l: String| l@) =~= kept_lines(split_lines(next).drop_last()));
            cur = String::new();
        } else {
            push_char(&mut cur, c);
            let ghost prev = split_lines(pre);
            assert(split_lines(next) == prev.update(prev.len() - 1, prev.last().push(c)));
            assert(split_lines(next).drop_last() =~= prev.drop_last());
        }
        i = i + 1;
    }
    assert(s@.subrange(0, n as int) =~= s@);
    let t = trim(cur.as_str());
    proof {
        lemma_split_lines_nonempty(s@);
    }
    if t.as_str().unicode_len() > 0 {
        out.push(t);
    }
    assert(split_lines(s@) =~= split_lines(s@).drop_last().push(split_lines(s@).last()));
    assert(out@.map_values(|l: String| l@) =~= kept_lines(split_lines(s@)));
    out
}

} // verus!
