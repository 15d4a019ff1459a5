use vstd::prelude::*;

use crate::text::push_char;

verus! {

/// A lower-case hexadecimal digit for `n` in `0..16`.
pub open spec fn hex_digit(n: int) -> char {
    if n < 10 {
        ((n + 48) as u8) as char
    } else {
        ((n + 87) as u8) as char
    }
}

/// The value of a lower-case hexadecimal digit, or -1.
pub open spec fn hex_value(c: char) -> int {
    if 48 <= (c as u32) <= 57 {
        (c as u32) - 48
    } else if 97 <= (c as u32) <= 102 {
        (c as u32) - 87
    } else {
        -1
    }
}

/// How one character stands inside a quoted string: quote and backslash are
/// preceded by a backslash, control characters are written `\u00XX`.
pub open spec fn escape_char(c: char) -> Seq<char> {
    if c == '"' {
        seq!['\\', '"']
    } else if c == '\\' {
        seq!['\\', '\\']
    } else if (c as u32) < 32 {
        seq!['\\', 'u', '0', '0', hex_digit(((c as u32) / 16) as int), hex_digit(((c as u32) % 16) as int)]
    } else {
        seq![c]
    }
}

pub open spec fn escaped(s: Seq<char>) -> Seq<char>
    decreases s.len(),
{
    if s.len() == 0 {
        seq![]
    } else {
        escape_char(s[0]) + escaped(s.drop_first())
    }
}

/// A string between double quotes, escaped.
pub open spec fn quoted(s: Seq<char>) -> Seq<char> {
    seq!['"'] + escaped(s) + seq!['"']
}

/// Reads an escaped string up to its closing quote: the characters it stands for
/// and how many characters were read, the closing quote included.
pub open spec fn unescape(t: Seq<char>) -> Option<(Seq<char>, int)>
    decreases t.len(),
{
    if t.len() == 0 {
        None
    } else if t[0] == '"' {
        Some((seq![], 1))
    } else if t[0] == '\\' {
        if t.len() >= 2 && (t[1] == '"' || t[1] == '\\') {
            match unescape(t.skip(2)) {
                Some((s, k)) => Some((seq![t[1]] + s, k + 2)),
                None => None,
            }
        } else if t.len() >= 6 && t[1] == 'u' && t[2] == '0' && t[3] == '0' && 0 <= hex_value(t[4])
            < 2 && 0 <= hex_value(t[5]) {
            match unescape(t.skip(6)) {
                Some((s, k)) => Some(
                    (seq![((16 * hex_value(t[4]) + hex_value(t[5])) as u8) as char] + s, k + 6),
                ),
                None => None,
            }
        } else {
            None
        }
    } else {
        match unescape(t.skip(1)) {
            Some((s, k)) => Some((seq![t[0]] + s, k + 1)),
            None => None,
        }
    }
}

/// Reads one quoted string at the start of `t`.
pub open spec fn parse_quoted(t: Seq<char>) -> Option<(Seq<char>, int)> {
    if t.len() > 0 && t[0] == '"' {
        match unescape(t.skip(1)) {
            Some((s, k)) => Some((s, k + 1)),
            None => None,
        }
    } else {
        None
    }
}

pub proof fn lemma_unescape_bounds(t: Seq<char>)
    ensures
        unescape(t) matches Some((s, k)) ==> 1 <= k <= t.len(),
    decreases t.len(),
{
    if t.len() == 0 || t[0] == '"' {
    } else if t[0] == '\\' {
        if t.len() >= 2 && (t[1] == '"' || t[1] == '\\') {
            lemma_unescape_bounds(t.skip(2));
        } else if t.len() >= 6 {
            lemma_unescape_bounds(t.skip(6));
        }
    } else {
        lemma_unescape_bounds(t.skip(1));
    }
}

/// The quoted forms of `xs`, one after the other.
pub open spec fn concat_quoted(xs: Seq<Seq<char>>) -> Seq<char>
    decreases xs.len(),
{
    if xs.len() == 0 {
        seq![]
    } else {
        quoted(xs[0]) + concat_quoted(xs.drop_first())
    }
}

/// Reads quoted strings one after the other until `t` is used up.
pub open spec fn parse_all(t: Seq<char>) -> Option<Seq<Seq<char>>>
    decreases t.len(),
{
    if t.len() == 0 {
        Some(seq![])
    } else {
        match parse_quoted(t) {
            Some((s, k)) => if 1 <= k <= t.len() {
                match parse_all(t.skip(k)) {
                    Some(ys) => Some(seq![s] + ys),
                    None => None,
                }
            } else {
                None
            },
            None => None,
        }
    }
}

proof fn lemma_hex_round_trip(n: int)
    requires
        0 <= n < 16,
    ensures
        hex_value(hex_digit(n)) == n,
{
    if n < 10 {
        assert((((n + 48) as u8) as char) as u32 == n + 48);
    } else {
        assert((((n + 87) as u8) as char) as u32 == n + 87);
    }
}

proof fn lemma_unescape_char(c: char, rest: Seq<char>)
    ensures
        unescape(escape_char(c) + rest) == (match unescape(rest) {
            Some((s, k)) => Some((seq![c] + s, k + escape_char(c).len())),
            None => None::<(Seq<char>, int)>,
        }),
{
    let t = escape_char(c) + rest;
    let e = escape_char(c);
    if c == '"' || c == '\\' {
        assert(t.skip(2) =~= rest);
    } else if (c as u32) < 32 {
        let v = c as u32;
        lemma_hex_round_trip((v / 16) as int);
        lemma_hex_round_trip((v % 16) as int);
        assert(t.skip(6) =~= rest);
        assert(t[4] == hex_digit((v / 16) as int));
        assert(t[5] == hex_digit((v % 16) as int));
        assert((16 * ((v / 16) as int) + (v % 16) as int) == v as int);
        assert((((v as int) as u8) as char) == c);
    } else {
        assert(t.skip(1) =~= rest);
    }
}

/// An escaped string followed by a closing quote reads back as the string.
pub proof fn lemma_unescape_escaped(s: Seq<char>, rest: Seq<char>)
    ensures
        unescape(escaped(s) + seq!['"'] + rest) == Some((s, escaped(s).len() as int + 1)),
    decreases s.len(),
{
    if s.len() == 0 {
        assert(escaped(s) + seq!['"'] + rest =~= seq!['"'] + rest);
    } else {
        let tail = escaped(s.drop_first()) + seq!['"'] + rest;
        assert(escaped(s) + seq!['"'] + rest =~= escape_char(s[0]) + tail);
        lemma_unescape_char(s[0], tail);
        lemma_unescape_escaped(s.drop_first(), rest);
        assert(seq![s[0]] + s.drop_first() =~= s);
    }
}

/// Quoted strings written one after the other read back as the same strings.
pub proof fn lemma_parse_all_concat_quoted(xs: Seq<Seq<char>>)
    ensures
        parse_all(concat_quoted(xs)) == Some(xs),
    decreases xs.len(),
{
    if xs.len() == 0 {
        assert(xs =~= seq![]);
    } else {
        let t = concat_quoted(xs);
        let rest = concat_quoted(xs.drop_first());
        assert(t =~= seq!['"'] + (escaped(xs[0]) + seq!['"'] + rest));
        assert(t.skip(1) =~= escaped(xs[0]) + seq!['"'] + rest);
        lemma_unescape_escaped(xs[0], rest);
        let k = escaped(xs[0]).len() as int + 2;
        assert(t.skip(k) =~= rest);
        lemma_parse_all_concat_quoted(xs.drop_first());
        assert(seq![xs[0]] + xs.drop_first() =~= xs);
    }
}

pub proof fn lemma_escaped_append(a: Seq<char>, c: char)
    ensures
        escaped(a.push(c)) == escaped(a) + escape_char(c),
    decreases a.len(),
{
    if a.len() == 0 {
        assert(a.push(c).drop_first() =~= seq![]);
        assert(a.push(c)[0] == c);
        assert(escaped(a.push(c).drop_first()) =~= seq![]);
        assert(escaped(a) =~= seq![]);
        assert(escaped(a.push(c)) =~= escaped(a) + escape_char(c));
    } else {
        assert(a.push(c).drop_first() =~= a.drop_first().push(c));
        lemma_escaped_append(a.drop_first(), c);
        assert(escaped(a.push(c)) =~= escaped(a) + escape_char(c));
    }
}

pub proof fn lemma_concat_quoted_append(xs: Seq<Seq<char>>, x: Seq<char>)
    ensures
        concat_quoted(xs.push(x)) == concat_quoted(xs) + quoted(x),
    decreases xs.len(),
{
    if xs.len() == 0 {
        assert(xs.push(x).drop_first() =~= seq![]);
        assert(xs.push(x)[0] == x);
        assert(concat_quoted(xs.push(x).drop_first()) =~= seq![]);
        assert(concat_quoted(xs) =~= seq![]);
        assert(concat_quoted(xs.push(x)) =~= concat_quoted(xs) + quoted(x));
    } else {
        assert(xs.push(x).drop_first() =~= xs.drop_first().push(x));
        lemma_concat_quoted_append(xs.drop_first(), x);
        assert(concat_quoted(xs.push(x)) =~= concat_quoted(xs) + quoted(x));
    }
}

fn hex_char(n: u32) -> (r: char)
    requires
        n < 16,
    ensures
        r == hex_digit(n as int),
{
    if n < 10 {
        ((n + 48) as u8) as char
    } else {
        ((n + 87) as u8) as char
    }
}

/// Appends the escaped form of `c` to `out`.
pub fn push_escaped_char(out: &mut String, c: char)
    ensures
        final(out)@ == old(out)@ + escape_char(c),
{
    let v = c as u32;
    if c == '"' || c == '\\' {
        push_char(out, '\\');
        push_char(out, c);
    } else if v < 32 {
        push_char(out, '\\');
        push_char(out, 'u');
        push_char(out, '0');
        push_char(out, '0');
        push_char(out, hex_char(v / 16));
        push_char(out, hex_char(v % 16));
    } else {
        push_char(out, c);
    }
    assert(final(out)@ =~= old(out)@ + escape_char(c));
}

/// Appends `s` between double quotes, escaped, to `out`.
pub fn push_quoted(out: &mut String, s: &[char])
    ensures
        final(out)@ == old(out)@ + quoted(s@),
{
    let ghost start = out@;
    push_char(out, '"');
    let mut i: usize = 0;
    while i < s.len()
        invariant
            i <= s@.len(),
            out@ == start + seq!['"'] + escaped(s@.take(i as int)),
        decreases s@.len() - i,
    {
        let ghost before = out@;
        push_escaped_char(out, s[i]);
        proof {
            lemma_escaped_append(s@.take(i as int), s@[i as int]);
            assert(s@.take(i as int).push(s@[i as int]) =~= s@.take(i + 1));
        }
        i = i + 1;
    }
    push_char(out, '"');
    assert(s@.take(s@.len() as int) =~= s@);
    assert(out@ =~= start + quoted(s@));
}

fn hex_value_of(c: char) -> (r: i32)
    ensures
        r as int == hex_value(c),
{
    let v = c as u32;
    if 48 <= v && v <= 57 {
        (v - 48) as i32
    } else if 97 <= v && v <= 102 {
        (v - 87) as i32
    } else {
        -1
    }
}

/// Reads the quoted string that starts at position `i` of `t`; returns it and the
/// position after its closing quote.
pub fn read_quoted(t: &[char], i: usize) -> (r: Option<(Vec<char>, usize)>)
    requires
        i <= t@.len(),
    ensures
        match parse_quoted(t@.skip(i as int)) {
            Some((s, k)) => r matches Some((v, j)) && v@ == s && j == i + k,
            None => r is None,
        },
{
    let n = t.len();
    if i >= n || t[i] != '"' {
        return None;
    }
    let ghost u = t@.skip(i as int);
    assert(u.skip(1) =~= t@.skip(i + 1));
    let mut acc: Vec<char> = Vec::new();
    let mut p: usize = i + 1;
    while p < n
        invariant
            n == t@.len(),
            i < p <= n,
            t@[i as int] == '"',
            t@.skip(i as int).skip(1) == t@.skip(i + 1),
            unescape(t@.skip(i + 1)) == (match unescape(t@.skip(p as int)) {
                Some((s, k)) => Some((acc@ + s, k + (p - i - 1))),
                None => None::<(Seq<char>, int)>,
            }),
        decreases n - p,
    {
        let ghost w = t@.skip(p as int);
        assert(w.len() == n - p);
        let c = t[p];
        if c == '"' {
            assert(acc@ + seq![] =~= acc@);
            return Some((acc, p + 1));
        } else if c == '\\' {
            if p + 1 < n && (t[p + 1] == '"' || t[p + 1] == '\\') {
                assert(w.skip(2) =~= t@.skip(p + 2));
                let ghost old_acc = acc@;
                acc.push(t[p + 1]);
                proof {
                    match unescape(t@.skip(p + 2)) {
                        Some((s, k)) => {
                            assert(old_acc + (seq![w[1]] + s) =~= acc@ + s);
                        },
                        None => {},
                    }
                }
                p = p + 2;
            } else if n - p > 5 && t[p + 1] == 'u' && t[p + 2] == '0' && t[p + 3] == '0' {
                let h = hex_value_of(t[p + 4]);
                let l = hex_value_of(t[p + 5]);
                if 0 <= h && h < 2 && 0 <= l {
                    assert(w.skip(6) =~= t@.skip(p + 6));
                    let ghost old_acc = acc@;
                    let code: u8 = (16 * h + l) as u8;
                    acc.push(code as char);
                    proof {
                        match unescape(t@.skip(p + 6)) {
                            Some((s, k)) => {
                                assert(old_acc + (seq![((16 * hex_value(w[4]) + hex_value(w[5])) as u8) as char] + s) =~= acc@ + s);
                            },
                            None => {},
                        }
                    }
                    p = p + 6;
                } else {
                    return None;
                }
            } else {
                return None;
            }
        } else {
            assert(w.skip(1) =~= t@.skip(p + 1));
            let ghost old_acc = acc@;
            acc.push(c);
            proof {
                match unescape(t@.skip(p + 1)) {
                    Some((s, k)) => {
                        assert(old_acc + (seq![w[0]] + s) =~= acc@ + s);
                    },
                    None => {},
                }
            }
            p = p + 1;
        }
    }
    assert(t@.skip(p as int).len() == 0);
    None
}

/// Reads quoted strings one after the other until `t` is used up.
pub fn read_all_quoted(t: &[char]) -> (r: Option<Vec<Vec<char>>>)
    ensures
        match parse_all(t@) {
            Some(xs) => r matches Some(v) && v@.len() == xs.len() && forall|j: int|
                0 <= j < xs.len() ==> #[trigger] v@[j]@ == xs[j],
            None => r is None,
        },
{
    let n = t.len();
    let mut out: Vec<Vec<char>> = Vec::new();
    let mut i: usize = 0;
    assert(t@.skip(0) =~= t@);
    while i < n
        invariant
            n == t@.len(),
            i <= n,
            parse_all(t@) == (match parse_all(t@.skip(i as int)) {
                Some(ys) => Some(out@.map_values(|v: Vec<char>| v@) + ys),
                None => None::<Seq<Seq<char>>>,
            }),
        decreases n - i,
    {
        let ghost w = t@.skip(i as int);
        match read_quoted(t, i) {
            Some((s, j)) => {
                proof {
                    lemma_unescape_bounds(w.skip(1));
                    assert(w.skip(j - i) =~= t@.skip(j as int));
                }
                let ghost before = out@.map_values(|v: Vec<char>| v@);
                out.push(s);
                proof {
                    match parse_all(t@.skip(j as int)) {
                        Some(ys) => {
                            assert(before + (seq![s@] + ys) =~= out@.map_values(|v: Vec<char>| v@) + ys);
                        },
                        None => {},
                    }
                }
                i = j;
            },
            None => {
                return None;
            },
        }
    }
    assert(t@.skip(i as int) =~= seq![]);
    proof {
        let m = out@.map_values(|v: Vec<char>| v@);
        assert(m + seq![] =~= m);
    }
    Some(out)
}

} // verus!
