use vstd::prelude::*;

verus! {

/// The index of the first `c` in `s` at or after `i`; `s.len()` when there
/// is none.
pub open spec fn find_from(s: Seq<char>, c: char, i: int) -> int
    recommends
        0 <= i,
    decreases s.len() - i,
{
    if i >= s.len() {
        s.len() as int
    } else if s[i] == c {
        i
    } else {
        find_from(s, c, i + 1)
    }
}

/// The `HH:MM` of a timestamp written `YYYY-MM-DDTHH:MM:SS±OFFSET`, by
/// slicing alone: of the text between the first 'T' and the next one, the
/// part before its first ':' and the part from there to the next ':',
/// joined by ':'. `None` when there is no 'T', or no ':' after it.
pub open spec fn display_time(s: Seq<char>) -> Option<Seq<char>> {
    let t = find_from(s, 'T', 0);
    if t >= s.len() {
        None
    } else {
        let seg = s.subrange(t + 1, find_from(s, 'T', t + 1));
        let a = find_from(seg, ':', 0);
        if a >= seg.len() {
            None
        } else {
            Some(seg.subrange(0, a) + seq![':'] + seg.subrange(a + 1, find_from(seg, ':', a + 1)))
        }
    }
}

fn find_char(s: &str, c: char, start: usize) -> (r: usize)
    requires
        start <= s@.len(),
    ensures
        r == find_from(s@, c, start as int),
        start <= r <= s@.len(),
{
    let n = s.unicode_len();
    let mut i = start;
    while i < n
        invariant
            start <= i <= n,
            n == s@.len(),
            find_from(s@, c, start as int) == find_from(s@, c, i as int),
        decreases n - i,
    {
        if s.get_char(i) == c {
            return i;
        }
        i = i + 1;
    }
    i
}

/// Extracts the `HH:MM` of a raw timestamp; `None` where the text does not
/// have the slices that [`display_time`] takes.
pub fn extract_time(raw: &str) -> (r: Option<String>)
    ensures
        match r {
            Some(t) => display_time(raw@) == Some(t@),
            None => display_time(raw@) is None,
        },
{
    let n = raw.unicode_len();
    let t = find_char(raw, 'T', 0);
    if t >= n {
        return None;
    }
    let e = find_char(raw, 'T', t + 1);
    let seg = raw.substring_char(t + 1, e);
    let m = seg.unicode_len();
    let a = find_char(seg, ':', 0);
    if a >= m {
        return None;
    }
    let b = find_char(seg, ':', a + 1);
    let mut out = String::from_str(seg.substring_char(0, a));
    out.push(':');
    out.append(seg.substring_char(a + 1, b));
    Some(out)
}

} // verus!
