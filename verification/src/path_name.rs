//! The last component of a path.
//!
//! A path is read the way std's `Path::file_name` reads it: separators split
//! it into components, empty components and `.` components are skipped, and
//! a path whose last remaining component is `..`, or that has none, has no
//! file name. Raw tar paths are split on `/` alone, as on Unix; zip entry
//! names are split on `/` and `\`, as on Windows, where the zip release is
//! used. The rule does not depend on the platform the code runs on, and
//! drive prefixes such as `C:` get no special meaning.
use vstd::prelude::*;

verus! {

/// Whether `c` separates components: it is `sep` or `alt`.
pub open spec fn is_sep<T>(c: T, sep: T, alt: T) -> bool {
    c == sep || c == alt
}

/// The elements of `p` after its last separator (all of `p` when it has
/// none).
pub open spec fn last_segment<T>(p: Seq<T>, sep: T, alt: T) -> Seq<T>
    decreases p.len(),
{
    if p.len() == 0 || is_sep(p.last(), sep, alt) {
        Seq::empty()
    } else {
        last_segment(p.drop_last(), sep, alt).push(p.last())
    }
}

/// Whether `p` ends in a separator or in a `.` component, either of which
/// the file name skips.
pub open spec fn ends_in_skipped<T>(p: Seq<T>, sep: T, alt: T, dot: T) -> bool {
    p.len() > 0 && (is_sep(p.last(), sep, alt)
        || (p.last() == dot && (p.len() == 1 || is_sep(p[p.len() - 2], sep, alt))))
}

/// The file name of the path `p`, whose components are separated by `sep`
/// or `alt`, and where `dot` is the `.` of `.` and `..`.
pub open spec fn path_file_name<T>(p: Seq<T>, sep: T, alt: T, dot: T) -> Option<Seq<T>>
    decreases p.len(),
{
    if p.len() == 0 {
        None
    } else if ends_in_skipped(p, sep, alt, dot) {
        path_file_name(p.drop_last(), sep, alt, dot)
    } else if last_segment(p, sep, alt) == seq![dot, dot] {
        None
    } else {
        Some(last_segment(p, sep, alt))
    }
}

/// The file name of a raw tar path given as bytes, split on `/` (47); `.`
/// is 46.
pub open spec fn byte_file_name(p: Seq<u8>) -> Option<Seq<u8>> {
    path_file_name(p, 47u8, 47u8, 46u8)
}

/// The file name of a zip entry name, split on `/` and `\`.
pub open spec fn text_file_name(p: Seq<char>) -> Option<Seq<char>> {
    path_file_name(p, '/', '\\', '.')
}

proof fn lemma_segment_step<T>(p: Seq<T>, sep: T, alt: T, start: int, end: int)
    requires
        0 < start <= end <= p.len(),
        !is_sep(p[start - 1], sep, alt),
        last_segment(p.subrange(0, end), sep, alt) == last_segment(p.subrange(0, start), sep, alt)
            + p.subrange(start, end),
    ensures
        last_segment(p.subrange(0, end), sep, alt) == last_segment(p.subrange(0, start - 1), sep, alt)
            + p.subrange(start - 1, end),
{
    let q = p.subrange(0, start);
    assert(q.drop_last() =~= p.subrange(0, start - 1));
    assert(q.last() == p[start - 1]);
    assert(last_segment(q, sep, alt) == last_segment(p.subrange(0, start - 1), sep, alt).push(p[start - 1]));
    assert(last_segment(p.subrange(0, start - 1), sep, alt).push(p[start - 1]) + p.subrange(start, end)
        =~= last_segment(p.subrange(0, start - 1), sep, alt) + p.subrange(start - 1, end));
}

proof fn lemma_segment_start<T>(p: Seq<T>, sep: T, alt: T, start: int)
    requires
        0 <= start <= p.len(),
        start == 0 || is_sep(p[start - 1], sep, alt),
    ensures
        last_segment(p.subrange(0, start), sep, alt) == Seq::<T>::empty(),
{
    let q = p.subrange(0, start);
    if start > 0 {
        assert(q.last() == p[start - 1]);
    }
}

/// The file name of a path given as bytes (see `byte_file_name`).
pub fn file_name_bytes(p: &[u8]) -> (r: Option<Vec<u8>>)
    ensures
        match r {
            Some(v) => byte_file_name(p@) == Some(v@),
            None => byte_file_name(p@) is None,
        },
{
    let mut end: usize = p.len();
    assert(p@.subrange(0, end as int) =~= p@);
    loop
        invariant
            end <= p@.len(),
            byte_file_name(p@.subrange(0, end as int)) == byte_file_name(p@),
        ensures
            0 < end <= p@.len(),
            byte_file_name(p@.subrange(0, end as int)) == byte_file_name(p@),
            !ends_in_skipped(p@.subrange(0, end as int), 47u8, 47u8, 46u8),
        decreases end,
    {
        if end == 0 {
            return None;
        }
        let c = p[end - 1];
        let skipped = c == 47u8 || (c == 46u8 && (end == 1 || p[end - 2] == 47u8));
        if !skipped {
            break;
        }
        assert(p@.subrange(0, end as int).drop_last() =~= p@.subrange(0, end - 1));
        end = end - 1;
    }
    let mut start: usize = end;
    assert(p@.subrange(start as int, end as int) =~= Seq::<u8>::empty());
    assert(last_segment(p@.subrange(0, end as int), 47u8, 47u8) =~= last_segment(p@.subrange(0, start as int), 47u8, 47u8)
        + p@.subrange(start as int, end as int));
    while start > 0 && p[start - 1] != 47u8
        invariant
            start <= end <= p@.len(),
            last_segment(p@.subrange(0, end as int), 47u8, 47u8) == last_segment(p@.subrange(0, start as int), 47u8, 47u8)
                + p@.subrange(start as int, end as int),
        decreases start,
    {
        proof {
            lemma_segment_step(p@, 47u8, 47u8, start as int, end as int);
        }
        start = start - 1;
    }
    proof {
        lemma_segment_start(p@, 47u8, 47u8, start as int);
        assert(last_segment(p@.subrange(0, end as int), 47u8, 47u8) =~= p@.subrange(start as int, end as int));
    }
    if end - start == 2 && p[start] == 46u8 && p[start + 1] == 46u8 {
        assert(p@.subrange(start as int, end as int) =~= seq![46u8, 46u8]);
        return None;
    }
    let mut v: Vec<u8> = Vec::new();
    let mut i: usize = start;
    while i < end
        invariant
            start <= i <= end <= p@.len(),
            v@ == p@.subrange(start as int, i as int),
        decreases end - i,
    {
        v.push(p[i]);
        i = i + 1;
        assert(v@ =~= p@.subrange(start as int, i as int));
    }
    assert(v@ != seq![46u8, 46u8]);
    Some(v)
}

/// The file name of a path given as text (see `text_file_name`).
pub fn file_name_text(p: &str) -> (r: Option<String>)
    ensures
        match r {
            Some(n) => text_file_name(p@) == Some(n@),
            None => text_file_name(p@) is None,
        },
{
    let n = p.unicode_len();
    let mut end: usize = n;
    assert(p@.subrange(0, end as int) =~= p@);
    loop
        invariant
            n == p@.len(),
            end <= n,
            text_file_name(p@.subrange(0, end as int)) == text_file_name(p@),
        ensures
            0 < end <= n,
            text_file_name(p@.subrange(0, end as int)) == text_file_name(p@),
            !ends_in_skipped(p@.subrange(0, end as int), '/', '\\', '.'),
        decreases end,
    {
        if end == 0 {
            return None;
        }
        let c = p.get_char(end - 1);
        let skipped = c == '/' || c == '\\' || (c == '.' && (end == 1 || p.get_char(end - 2) == '/'
            || p.get_char(end - 2) == '\\'));
        if !skipped {
            break;
        }
        assert(p@.subrange(0, end as int).drop_last() =~= p@.subrange(0, end - 1));
        end = end - 1;
    }
    let mut start: usize = end;
    assert(p@.subrange(start as int, end as int) =~= Seq::<char>::empty());
    assert(last_segment(p@.subrange(0, end as int), '/', '\\') =~= last_segment(p@.subrange(0, start as int), '/', '\\')
        + p@.subrange(start as int, end as int));
    while start > 0 && p.get_char(start - 1) != '/' && p.get_char(start - 1) != '\\'
        invariant
            n == p@.len(),
            start <= end <= n,
            last_segment(p@.subrange(0, end as int), '/', '\\') == last_segment(p@.subrange(0, start as int), '/', '\\')
                + p@.subrange(start as int, end as int),
        decreases start,
    {
        proof {
            lemma_segment_step(p@, '/', '\\', start as int, end as int);
        }
        start = start - 1;
    }
    proof {
        lemma_segment_start(p@, '/', '\\', start as int);
        assert(last_segment(p@.subrange(0, end as int), '/', '\\') =~= p@.subrange(start as int, end as int));
    }
    if end - start == 2 && p.get_char(start) == '.' && p.get_char(start + 1) == '.' {
        assert(p@.subrange(start as int, end as int) =~= seq!['.', '.']);
        return None;
    }
    let seg = crate::text::owned(p.substring_char(start, end));
    assert(seg@ != seq!['.', '.']);
    Some(seg)
}

/// Byte-wise equality of two byte strings.
pub fn bytes_eq(a: &[u8], b: &[u8]) -> (r: bool)
    ensures
        r == (a@ == b@),
{
    if a.len() != b.len() {
        return false;
    }
    let mut i: usize = 0;
    while i < a.len()
        invariant
            a@.len() == b@.len(),
            i <= a@.len(),
            forall|j: int| 0 <= j < i ==> a@[j] == b@[j],
        decreases a@.len() - i,
    {
        if a[i] != b[i] {
            return false;
        }
        i = i + 1;
    }
    assert(a@ =~= b@);
    true
}

} // verus!
