//! Character-level helpers on strings, with their mathematical meaning.
use vstd::prelude::*;
use vstd::string::*;

verus! {

/// `i` is the position of the first occurrence of `c` in `s`.
pub open spec fn is_first(s: Seq<char>, c: char, i: int) -> bool {
    &&& 0 <= i < s.len()
    &&& s[i] == c
    &&& forall|j: int| 0 <= j < i ==> s[j] != c
}

/// Splits `s` around the first occurrence of `c`, if there is one.
pub open spec fn split_once_spec(s: Seq<char>, c: char) -> Option<(Seq<char>, Seq<char>)> {
    if exists|i: int| is_first(s, c, i) {
        let i = choose|i: int| is_first(s, c, i);
        Some((s.subrange(0, i), s.subrange(i + 1, s.len() as int)))
    } else {
        None
    }
}

/// Position of the first `c` in `s`.
pub fn find_char(s: &str, c: char) -> (r: Option<usize>)
    ensures
        match r {
            Some(i) => is_first(s@, c, i as int),
            None => forall|j: int| 0 <= j < s@.len() ==> s@[j] != c,
        },
{
    let n = s.unicode_len();
    let mut i: usize = 0;
    while i < n
        invariant
            n == s@.len(),
            i <= n,
            forall|j: int| 0 <= j < i ==> s@[j] != c,
        decreases n - i,
    {
        if s.get_char(i) == c {
            return Some(i);
        }
        i = i + 1;
    }
    None
}

/// Splits `s` around the first occurrence of `c`.
pub fn split_once(s: &str, c: char) -> (r: Option<(String, String)>)
    ensures
        match r {
            Some(p) => split_once_spec(s@, c) == Some((p.0@, p.1@)),
            None => split_once_spec(s@, c) is None,
        },
{
    match find_char(s, c) {
        Some(i) => {
            let n = s.unicode_len();
            let head = String::from_str(s.substring_char(0, i));
            let tail = String::from_str(s.substring_char(i + 1, n));
            proof {
                let k = choose|k: int| is_first(s@, c, k);
                assert(is_first(s@, c, k));
                assert(k == i as int) by {
                    if k < i as int {
                        assert(s@[k] == c);
                    } else if k > i as int {
                        assert(s@[i as int] == c);
                    }
                }
            }
            Some((head, tail))
        },
        None => {
            assert(!exists|k: int| is_first(s@, c, k));
            None
        },
    }
}

} // verus!

verus! {

/// Whether two strings hold the same characters.
pub fn str_equal(a: &str, b: &str) -> (r: bool)
    ensures
        r == (a@ == b@),
{
    let n = a.unicode_len();
    if n != b.unicode_len() {
        return false;
    }
    let mut i: usize = 0;
    while i < n
        invariant
            n == a@.len(),
            n == b@.len(),
            i <= n,
            forall|j: int| 0 <= j < i ==> a@[j] == b@[j],
        decreases n - i,
    {
        if a.get_char(i) != b.get_char(i) {
            return false;
        }
        i = i + 1;
    }
    assert(a@ =~= b@);
    true
}

/// `s` without one leading `(` and one trailing `)`, where present.
pub open spec fn strip_parens_spec(s: Seq<char>) -> Seq<char> {
    let a = if s.len() > 0 && s[0] == '(' { s.drop_first() } else { s };
    if a.len() > 0 && a.last() == ')' { a.drop_last() } else { a }
}

/// Removes one leading `(` and one trailing `)`, where present.
pub fn strip_parens(s: &str) -> (r: String)
    ensures
        r@ == strip_parens_spec(s@),
{
    let n = s.unicode_len();
    let start: usize = if n > 0 && s.get_char(0) == '(' { 1 } else { 0 };
    let end: usize = if n > start && s.get_char(n - 1) == ')' { n - 1 } else { n };
    let r = String::from_str(s.substring_char(start, end));
    assert(r@ =~= strip_parens_spec(s@));
    r
}

/// `s` cut at its first `c`, or all of `s` where it has none.
pub open spec fn before_spec(s: Seq<char>, c: char) -> Seq<char> {
    match split_once_spec(s, c) {
        Some(p) => p.0,
        None => s,
    }
}

/// Cuts `s` at its first `c`.
pub fn before(s: &str, c: char) -> (r: String)
    ensures
        r@ == before_spec(s@, c),
{
    match split_once(s, c) {
        Some(p) => p.0,
        None => String::from_str(s),
    }
}

} // verus!

verus! {

/// `i` is the position of the last occurrence of `c` in `s`.
pub open spec fn is_last(s: Seq<char>, c: char, i: int) -> bool {
    &&& 0 <= i < s.len()
    &&& s[i] == c
    &&& forall|j: int| i < j < s.len() ==> s[j] != c
}

/// Where the last line of `s` starts, `s` having no line ending at its end.
pub open spec fn last_line_start(s: Seq<char>) -> int {
    if exists|i: int| is_last(s, '\n', i) {
        (choose|i: int| is_last(s, '\n', i)) + 1
    } else {
        0
    }
}

/// The last line of `s`, as `str::lines` yields them: lines end at `\n` or at
/// the end of `s`, a final `\n` opens no further line, and a `\r` just before
/// that `\n` is not part of the line. None where `s` is empty.
pub open spec fn last_line_spec(s: Seq<char>) -> Option<Seq<char>> {
    if s.len() == 0 {
        None
    } else {
        let t = if s.last() == '\n' { s.drop_last() } else { s };
        let line = t.subrange(last_line_start(t), t.len() as int);
        Some(if s.last() == '\n' && line.len() > 0 && line.last() == '\r' { line.drop_last() } else { line })
    }
}

/// The last line of `s`.
pub fn last_line(s: &str) -> (r: Option<String>)
    ensures
        match r {
            Some(l) => last_line_spec(s@) == Some(l@),
            None => last_line_spec(s@) is None,
        },
{
    let n = s.unicode_len();
    if n == 0 {
        return None;
    }
    let end: usize = if s.get_char(n - 1) == '\n' { n - 1 } else { n };
    let ghost t = if s@.last() == '\n' { s@.drop_last() } else { s@ };
    assert(t =~= s@.subrange(0, end as int));
    let mut start: usize = end;
    while start > 0 && s.get_char(start - 1) != '\n'
        invariant
            start <= end <= n,
            n == s@.len(),
            t == s@.subrange(0, end as int),
            forall|j: int| start <= j < end ==> s@[j] != '\n',
        decreases start,
    {
        start = start - 1;
    }
    proof {
        if start > 0 {
            assert(is_last(t, '\n', start - 1));
            let k = choose|k: int| is_last(t, '\n', k);
            assert(k == start - 1) by {
                if k < start - 1 {
                    assert(t[start - 1] == '\n');
                } else if k > start - 1 {
                    assert(t[k] == '\n');
                }
            }
        } else {
            assert(!exists|k: int| is_last(t, '\n', k)) by {
                if exists|k: int| is_last(t, '\n', k) {
                    let k = choose|k: int| is_last(t, '\n', k);
                    assert(t[k] == '\n');
                }
            }
        }
    }
    let line_end: usize = if end < n && end > start && s.get_char(end - 1) == '\r' { end - 1 } else { end };
    let line = String::from_str(s.substring_char(start, line_end));
    proof {
        let l = t.subrange(start as int, t.len() as int);
        assert(line@ =~= (if s@.last() == '\n' && l.len() > 0 && l.last() == '\r' { l.drop_last() } else { l }));
    }
    Some(line)
}

/// The decimal digits of `n`, most significant first.
pub open spec fn decimal(n: nat) -> Seq<char>
    decreases n,
{
    if n < 10 {
        "0123456789"@.subrange(n as int, n + 1int)
    } else {
        decimal(n / 10) + "0123456789"@.subrange((n % 10) as int, (n % 10) + 1int)
    }
}

/// Appends the decimal digits of `n` to `out`.
pub fn push_decimal(out: &mut String, n: u64)
    ensures
        final(out)@ == old(out)@ + decimal(n as nat),
    decreases n,
{
    let digits = "0123456789";
    proof {
        reveal_strlit("0123456789");
    }
    if n >= 10 {
        push_decimal(out, n / 10);
    }
    let d: usize = (n % 10) as usize;
    out.append(digits.substring_char(d, d + 1));
    assert(old(out)@ + decimal(n as nat) =~= final(out)@) by {
        if n >= 10 {
        }
    }
}

} // verus!
