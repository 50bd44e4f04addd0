use vstd::prelude::*;

use crate::strings::chars_of;

verus! {

/// How a request carries its content: as form fields, or as a raw body.
#[allow(non_camel_case_types)]
#[derive(Clone, Copy, Debug, PartialEq, Eq, Structural)]
pub enum PostType {
    FORM,
    BODY,
}

/// What `urlencoding::decode` makes of a text: its percent-decoding, or
/// `None` when the decoded bytes are not UTF-8.
pub uninterp spec fn url_decoded(s: Seq<char>) -> Option<Seq<char>>;

/// Relies on `urlencoding::decode`: it percent-decodes as UTF-8, fails only
/// on bytes that are not UTF-8, and hands back a text without '%' as it is.
#[verifier::external_body]
fn url_decode(s: &str) -> (r: Option<String>)
    ensures
        match r {
            Some(t) => url_decoded(s@) == Some(t@),
            None => url_decoded(s@) is None,
        },
        !s@.contains('%') ==> r is Some && r->0@ == s@,
{
    match urlencoding::decode(s) {
        Ok(t) => Some(t.into_owned()),
        Err(_) => None,
    }
}

/// The first index in `[i, end)` holding `c`; `end` when there is none.
pub open spec fn find_in(s: Seq<char>, c: char, i: int, end: int) -> int
    decreases end - i,
{
    if i >= end {
        end
    } else if s[i] == c {
        i
    } else {
        find_in(s, c, i + 1, end)
    }
}

/// A search in `[i, end)` ends inside it or at `end`.
pub proof fn lemma_find_in_bounds(s: Seq<char>, c: char, i: int, end: int)
    requires
        i <= end,
    ensures
        i <= find_in(s, c, i, end) <= end,
    decreases end - i,
{
    if i < end && s[i] != c {
        lemma_find_in_bounds(s, c, i + 1, end);
    }
}

/// The field of the piece `[i, end)` of a form: the text before its first
/// '=' as name, the text from there to the next '=' (or the end) as value;
/// `None` when the piece has no '='.
pub open spec fn field_in(s: Seq<char>, i: int, end: int) -> Option<(Seq<char>, Seq<char>)> {
    let a = find_in(s, '=', i, end);
    if a >= end {
        None
    } else {
        Some((s.subrange(i, a), s.subrange(a + 1, find_in(s, '=', a + 1, end))))
    }
}

/// The fields of the pieces of `s` from `i` on, the pieces being separated
/// by '&'; `None` when a piece has no '='.
pub open spec fn fields_from(s: Seq<char>, i: int) -> Option<Seq<(Seq<char>, Seq<char>)>>
    decreases s.len() - i,
    when 0 <= i <= s.len()
{
    let k = find_in(s, '&', i, s.len() as int);
    match field_in(s, i, k) {
        None => None,
        Some(f) => if k >= s.len() {
            Some(seq![f])
        } else {
            proof {
                lemma_find_in_bounds(s, '&', i, s.len() as int);
            }
            match fields_from(s, k + 1) {
                None => None,
                Some(rest) => Some(seq![f] + rest),
            }
        },
    }
}

/// The fields of a decoded form body `name=value&name=value...`.
pub open spec fn form_fields_of(s: Seq<char>) -> Option<Seq<(Seq<char>, Seq<char>)>> {
    fields_from(s, 0)
}

/// The views of a list of fields.
pub open spec fn field_views(v: Seq<(String, String)>) -> Seq<(Seq<char>, Seq<char>)> {
    v.map_values(|f: (String, String)| (f.0@, f.1@))
}

fn find_in_vec(s: &Vec<char>, c: char, i: usize, end: usize) -> (r: usize)
    requires
        i <= end <= s@.len(),
    ensures
        r == find_in(s@, c, i as int, end as int),
        i <= r <= end,
{
    let mut j = i;
    while j < end
        invariant
            i <= j <= end,
            end <= s@.len(),
            find_in(s@, c, i as int, end as int) == find_in(s@, c, j as int, end as int),
        decreases end - j,
    {
        if s[j] == c {
            return j;
        }
        j = j + 1;
    }
    j
}

fn text_of(s: &Vec<char>, from: usize, to: usize) -> (r: String)
    requires
        from <= to <= s@.len(),
    ensures
        r@ == s@.subrange(from as int, to as int),
{
    let mut out = String::new();
    let mut j = from;
    while j < to
        invariant
            from <= j <= to,
            to <= s@.len(),
            out@ == s@.subrange(from as int, j as int),
        decreases to - j,
    {
        out.push(s[j]);
        assert(out@ =~= s@.subrange(from as int, j + 1));
        j = j + 1;
    }
    out
}

/// Splits a decoded form body into its fields; `None` when a piece has no
/// '='.
pub fn form_pairs(decoded: &str) -> (r: Option<Vec<(String, String)>>)
    ensures
        match r {
            Some(v) => form_fields_of(decoded@) == Some(field_views(v@)),
            None => form_fields_of(decoded@) is None,
        },
{
    let s = chars_of(decoded);
    let n = s.len();
    let mut fields: Vec<(String, String)> = Vec::new();
    let mut i: usize = 0;
    loop
        invariant
            0 <= i <= n,
            n == s@.len(),
            s@ == decoded@,
            form_fields_of(decoded@) == match fields_from(s@, i as int) {
                None => None,
                Some(rest) => Some(field_views(fields@) + rest),
            },
        decreases n - i,
    {
        let k = find_in_vec(&s, '&', i, n);
        let a = find_in_vec(&s, '=', i, k);
        if a >= k {
            return None;
        }
        let b = find_in_vec(&s, '=', a + 1, k);
        let name = text_of(&s, i, a);
        let value = text_of(&s, a + 1, b);
        let ghost f = (name@, value@);
        let ghost before = fields@;
        fields.push((name, value));
        assert(field_views(fields@) =~= field_views(before).push(f));
        if k >= n {
            assert(field_views(fields@) =~= field_views(before) + seq![f]);
            return Some(fields);
        }
        proof {
            match fields_from(s@, k + 1) {
                None => {},
                Some(rest) => {
                    assert(field_views(before) + (seq![f] + rest) =~= field_views(fields@) + rest);
                },
            }
        }
        i = k + 1;
    }
}

/// The fields of a percent-encoded form body, as the form post sends them:
/// `None` when it does not decode or a piece has no '='.
pub fn form_fields(content: &str) -> (r: Option<Vec<(String, String)>>)
    ensures
        match url_decoded(content@) {
            None => r is None,
            Some(d) => match r {
                Some(v) => form_fields_of(d) == Some(field_views(v@)),
                None => form_fields_of(d) is None,
            },
        },
{
    match url_decode(content) {
        Some(decoded) => form_pairs(decoded.as_str()),
        None => None,
    }
}

/// The accented letter that the escape `\u00XY` stands for, among those the
/// service writes escaped (lower-case hex digits only).
pub open spec fn accent_of(x: char, y: char) -> Option<char> {
    if x == 'f' && y == '1' {
        Some('\u{f1}')
    } else if x == 'e' && y == '1' {
        Some('\u{e1}')
    } else if x == 'e' && y == '9' {
        Some('\u{e9}')
    } else if x == 'e' && y == 'd' {
        Some('\u{ed}')
    } else if x == 'f' && y == '3' {
        Some('\u{f3}')
    } else if x == 'f' && y == 'a' {
        Some('\u{fa}')
    } else if x == 'f' && y == 'c' {
        Some('\u{fc}')
    } else if x == 'e' && y == '7' {
        Some('\u{e7}')
    } else if x == 'c' && y == '1' {
        Some('\u{c1}')
    } else if x == 'c' && y == '9' {
        Some('\u{c9}')
    } else if x == 'c' && y == 'd' {
        Some('\u{cd}')
    } else if x == 'd' && y == '3' {
        Some('\u{d3}')
    } else if x == 'd' && y == 'a' {
        Some('\u{da}')
    } else if x == 'd' && y == 'c' {
        Some('\u{dc}')
    } else if x == 'c' && y == '7' {
        Some('\u{c7}')
    } else {
        None
    }
}

/// The letter of an escape `\u00XY` that starts at `i`, if one does.
pub open spec fn escape_at(s: Seq<char>, i: int) -> Option<char> {
    if 0 <= i && i + 6 <= s.len() && s[i] == '\\' && s[i + 1] == 'u' && s[i + 2] == '0' && s[i + 3] == '0' {
        accent_of(s[i + 4], s[i + 5])
    } else {
        None
    }
}

/// `s` from `i` on, with each escape of an accented letter replaced by the
/// letter, scanning from the left.
pub open spec fn accents_decoded_from(s: Seq<char>, i: int) -> Seq<char>
    decreases s.len() - i,
{
    if i < 0 || i >= s.len() {
        Seq::empty()
    } else {
        match escape_at(s, i) {
            Some(c) => seq![c] + accents_decoded_from(s, i + 6),
            None => seq![s[i]] + accents_decoded_from(s, i + 1),
        }
    }
}

pub open spec fn accents_decoded(s: Seq<char>) -> Seq<char> {
    accents_decoded_from(s, 0)
}

fn accent(x: char, y: char) -> (r: Option<char>)
    ensures
        r == accent_of(x, y),
{
    match (x, y) {
        ('f', '1') => Some('\u{f1}'),
        ('e', '1') => Some('\u{e1}'),
        ('e', '9') => Some('\u{e9}'),
        ('e', 'd') => Some('\u{ed}'),
        ('f', '3') => Some('\u{f3}'),
        ('f', 'a') => Some('\u{fa}'),
        ('f', 'c') => Some('\u{fc}'),
        ('e', '7') => Some('\u{e7}'),
        ('c', '1') => Some('\u{c1}'),
        ('c', '9') => Some('\u{c9}'),
        ('c', 'd') => Some('\u{cd}'),
        ('d', '3') => Some('\u{d3}'),
        ('d', 'a') => Some('\u{da}'),
        ('d', 'c') => Some('\u{dc}'),
        ('c', '7') => Some('\u{c7}'),
        _ => None,
    }
}

fn escape(s: &Vec<char>, i: usize) -> (r: Option<char>)
    requires
        i < s@.len(),
    ensures
        r == escape_at(s@, i as int),
{
    if s.len() - i >= 6 && s[i] == '\\' && s[i + 1] == 'u' && s[i + 2] == '0' && s[i + 3] == '0' {
        accent(s[i + 4], s[i + 5])
    } else {
        None
    }
}

/// Replaces the `\u00XY` escapes of the accented letters the service
/// writes escaped by the letters themselves; everything else is kept.
pub fn decode_accents(text: &str) -> (r: String)
    ensures
        r@ == accents_decoded(text@),
{
    let chars = chars_of(text);
    let n = chars.len();
    let mut out = String::new();
    let mut i: usize = 0;
    while i < n
        invariant
            0 <= i <= n,
            n == chars@.len(),
            chars@ == text@,
            out@ + accents_decoded_from(chars@, i as int) == accents_decoded(text@),
        decreases n - i,
    {
        match escape(&chars, i) {
            Some(c) => {
                proof {
                    assert(out@.push(c) + accents_decoded_from(chars@, i + 6) =~= out@ + accents_decoded_from(chars@, i as int));
                }
                out.push(c);
                i = i + 6;
            },
            None => {
                proof {
                    assert(out@.push(chars@[i as int]) + accents_decoded_from(chars@, i + 1) =~= out@ + accents_decoded_from(chars@, i as int));
                }
                out.push(chars[i]);
                i = i + 1;
            },
        }
    }
    assert(out@ =~= accents_decoded(text@));
    out
}

} // verus!
