//! Small text utilities shared by the parsers: splitting on a separator and
//! reading decimal integers.
use vstd::prelude::*;

verus! {

/// The fields of `s` between occurrences of `sep`, as `str::split` yields
/// them: `n` separators give `n + 1` fields, possibly empty.
pub open spec fn split_on(s: Seq<char>, sep: char) -> Seq<Seq<char>>
    decreases s.len(),
{
    if s.len() == 0 {
        seq![Seq::<char>::empty()]
    } else {
        let rest = split_on(s.drop_last(), sep);
        if s.last() == sep {
            rest.push(Seq::<char>::empty())
        } else {
            rest.update(rest.len() - 1, rest.last().push(s.last()))
        }
    }
}

proof fn lemma_split_on_nonempty(s: Seq<char>, sep: char)
    ensures
        split_on(s, sep).len() >= 1,
    decreases s.len(),
{
    if s.len() > 0 {
        lemma_split_on_nonempty(s.drop_last(), sep);
    }
}

/// A text without `sep` is a single field.
pub proof fn lemma_split_on_without_sep(s: Seq<char>, sep: char)
    requires
        !s.contains(sep),
    ensures
        split_on(s, sep) == seq![s],
    decreases s.len(),
{
    if s.len() > 0 {
        let p = s.drop_last();
        assert(!p.contains(sep)) by {
            if p.contains(sep) {
                let k = choose|k: int| 0 <= k < p.len() && p[k] == sep;
                assert(s[k] == sep);
            }
        }
        lemma_split_on_without_sep(p, sep);
        assert(s[s.len() - 1] == s.last());
        assert(p.push(s.last()) =~= s);
    } else {
        assert(s =~= Seq::<char>::empty());
    }
}

/// Joining two texts with `sep` joins their fields.
pub proof fn lemma_split_on_join(x: Seq<char>, y: Seq<char>, sep: char)
    ensures
        split_on(x.push(sep) + y, sep) == split_on(x, sep) + split_on(y, sep),
    decreases y.len(),
{
    let z = x.push(sep) + y;
    if y.len() == 0 {
        assert(z =~= x.push(sep));
        assert(z.drop_last() =~= x);
        assert(split_on(x, sep).push(Seq::<char>::empty()) =~= split_on(x, sep) + split_on(y, sep));
    } else {
        lemma_split_on_join(x, y.drop_last(), sep);
        assert(z.drop_last() =~= x.push(sep) + y.drop_last());
        assert(z.last() == y.last());
        lemma_split_on_nonempty(y.drop_last(), sep);
        let a = split_on(x, sep);
        let b = split_on(y.drop_last(), sep);
        if y.last() == sep {
            assert((a + b).push(Seq::<char>::empty()) =~= a + b.push(Seq::<char>::empty()));
        } else {
            let ab = a + b;
            assert(ab.update(ab.len() - 1, ab.last().push(y.last())) =~= a + b.update(
                b.len() - 1,
                b.last().push(y.last()),
            ));
        }
    }
}

/// Splits `s` at every `sep`.
pub fn split_fields(s: &str, sep: char) -> (r: Vec<String>)
    ensures
        r@.map_values(|f: String| f@) == split_on(s@, sep),
{
    let n = s.unicode_len();
    let mut fields: Vec<String> = Vec::new();
    let mut start: usize = 0;
    let mut i: usize = 0;
    proof {
        assert(s@.subrange(0, 0) =~= Seq::<char>::empty());
        assert(fields@.map_values(|f: String| f@).push(s@.subrange(0, 0)) =~= seq![
            Seq::<char>::empty(),
        ]);
    }
    while i < n
        invariant
            n == s@.len(),
            start <= i <= n,
            fields@.map_values(|f: String| f@).push(s@.subrange(start as int, i as int))
                == split_on(s@.subrange(0, i as int), sep),
        decreases n - i,
    {
        let c = s.get_char(i);
        proof {
            let pre = s@.subrange(0, i as int);
            let next = s@.subrange(0, i + 1);
            assert(next.drop_last() =~= pre);
            assert(next.last() == c);
            lemma_split_on_nonempty(pre, sep);
        }
        if c == sep {
            let piece = s.substring_char(start, i).to_owned();
            fields.push(piece);
            proof {
                assert(s@.subrange(i + 1, i + 1) =~= Seq::<char>::empty());
                assert(fields@.map_values(|f: String| f@) =~= split_on(s@.subrange(0, i as int), sep));
            }
            start = i + 1;
        } else {
            proof {
                assert(s@.subrange(start as int, i + 1) =~= s@.subrange(start as int, i as int).push(c));
                let old_map = fields@.map_values(|f: String| f@);
                let full = old_map.push(s@.subrange(start as int, i as int));
                assert(full.update(full.len() - 1, full.last().push(c)) =~= old_map.push(
                    s@.subrange(start as int, i + 1),
                ));
            }
        }
        i = i + 1;
    }
    let last = s.substring_char(start, n).to_owned();
    fields.push(last);
    proof {
        assert(s@.subrange(0, n as int) =~= s@);
        assert(fields@.map_values(|f: String| f@) =~= split_on(s@, sep));
    }
    fields
}

pub open spec fn is_digit(c: char) -> bool {
    '0' <= c && c <= '9'
}

pub open spec fn all_digits(s: Seq<char>) -> bool {
    forall|i: int| 0 <= i < s.len() ==> is_digit(#[trigger] s[i])
}

/// The number that a run of decimal digits denotes.
pub open spec fn digits_value(s: Seq<char>) -> int
    decreases s.len(),
{
    if s.len() == 0 {
        0
    } else {
        digits_value(s.drop_last()) * 10 + (s.last() as int - '0' as int)
    }
}

/// The integer that `s` spells: an optional `+` or `-` followed by at least
/// one decimal digit and nothing else.
pub open spec fn integer_text(s: Seq<char>) -> Option<int> {
    if s.len() > 0 && (s[0] == '+' || s[0] == '-') {
        let d = s.drop_first();
        if d.len() > 0 && all_digits(d) {
            Some(
                if s[0] == '-' {
                    -digits_value(d)
                } else {
                    digits_value(d)
                },
            )
        } else {
            None
        }
    } else if s.len() > 0 && all_digits(s) {
        Some(digits_value(s))
    } else {
        None
    }
}

/// What reading `s` as an `i32` gives: its integer when that fits.
pub open spec fn i32_text(s: Seq<char>) -> Option<i32> {
    match integer_text(s) {
        Some(v) => if i32::MIN <= v <= i32::MAX {
            Some(v as i32)
        } else {
            None
        },
        None => None,
    }
}

const I32_MAGNITUDE_LIMIT: u64 = 2147483648;

/// Reads `s` as a decimal `i32`, with the syntax of Rust's integer parsing.
pub fn parse_i32(s: &str) -> (r: Option<i32>)
    ensures
        r == i32_text(s@),
{
    let n = s.unicode_len();
    if n == 0 {
        return None;
    }
    let first = s.get_char(0);
    let negative = first == '-';
    let start: usize = if first == '+' || first == '-' { 1 } else { 0 };
    if start == n {
        return None;
    }
    let mut magnitude: u64 = 0;
    let mut over = false;
    let mut i: usize = start;
    proof {
        assert(s@.subrange(start as int, start as int) =~= Seq::<char>::empty());
    }
    while i < n
        invariant
            n == s@.len(),
            start <= i <= n,
            start == 0 || start == 1,
            n > 0,
            s@[0] == first,
            negative == (first == '-'),
            (start == 1) == (first == '+' || first == '-'),
            all_digits(s@.subrange(start as int, i as int)),
            magnitude <= I32_MAGNITUDE_LIMIT,
            over ==> digits_value(s@.subrange(start as int, i as int)) > I32_MAGNITUDE_LIMIT,
            !over ==> magnitude == digits_value(s@.subrange(start as int, i as int)),
            digits_value(s@.subrange(start as int, i as int)) >= 0,
        decreases n - i,
    {
        let c = s.get_char(i);
        let ghost pre = s@.subrange(start as int, i as int);
        let ghost next = s@.subrange(start as int, i + 1);
        proof {
            assert(next.drop_last() =~= pre);
        }
        if !('0' <= c && c <= '9') {
            proof {
                assert(s@.subrange(start as int, n as int)[i - start] == c);
                assert(!all_digits(s@.subrange(start as int, n as int)));
                if start == 1 {
                    assert(s@.drop_first() =~= s@.subrange(1, n as int));
                    assert(!all_digits(s@.drop_first()));
                } else {
                    assert(s@ =~= s@.subrange(0, n as int));
                    assert(!all_digits(s@));
                }
                assert(integer_text(s@).is_none());
            }
            return None;
        }
        let d = (c as u32 - '0' as u32) as u64;
        if !over {
            if magnitude * 10 + d > I32_MAGNITUDE_LIMIT {
                over = true;
            } else {
                magnitude = magnitude * 10 + d;
            }
        }
        proof {
            assert forall|k: int| 0 <= k < next.len() implies is_digit(#[trigger] next[k]) by {
                if k < pre.len() {
                    assert(next[k] == pre[k]);
                }
            }
        }
        i = i + 1;
    }
    proof {
        if start == 1 {
            assert(s@.drop_first() =~= s@.subrange(1, n as int));
        } else {
            assert(s@ =~= s@.subrange(0, n as int));
        }
    }
    if over {
        None
    } else if negative {
        Some((0 - magnitude as i64) as i32)
    } else if magnitude < I32_MAGNITUDE_LIMIT {
        Some(magnitude as i32)
    } else {
        None
    }
}

pub open spec fn digit_char(d: nat) -> char {
    if d == 0 {
        '0'
    } else if d == 1 {
        '1'
    } else if d == 2 {
        '2'
    } else if d == 3 {
        '3'
    } else if d == 4 {
        '4'
    } else if d == 5 {
        '5'
    } else if d == 6 {
        '6'
    } else if d == 7 {
        '7'
    } else if d == 8 {
        '8'
    } else {
        '9'
    }
}

/// The decimal numeral of `n`, without leading zeros.
pub open spec fn decimal(n: nat) -> Seq<char>
    decreases n,
{
    if n < 10 {
        seq![digit_char(n)]
    } else {
        decimal(n / 10).push(digit_char(n % 10))
    }
}

/// The numeral of a signed integer: a `-` before the numeral of its
/// magnitude when it is negative.
pub open spec fn signed_decimal(v: int) -> Seq<char> {
    if v < 0 {
        seq!['-'] + decimal((-v) as nat)
    } else {
        decimal(v as nat)
    }
}

fn digit_str(d: u64) -> (r: &'static str)
    requires
        d < 10,
    ensures
        r@ == seq![digit_char(d as nat)],
{
    proof {
        reveal_strlit("0");
        reveal_strlit("1");
        reveal_strlit("2");
        reveal_strlit("3");
        reveal_strlit("4");
        reveal_strlit("5");
        reveal_strlit("6");
        reveal_strlit("7");
        reveal_strlit("8");
        reveal_strlit("9");
    }
    if d == 0 {
        "0"
    } else if d == 1 {
        "1"
    } else if d == 2 {
        "2"
    } else if d == 3 {
        "3"
    } else if d == 4 {
        "4"
    } else if d == 5 {
        "5"
    } else if d == 6 {
        "6"
    } else if d == 7 {
        "7"
    } else if d == 8 {
        "8"
    } else {
        "9"
    }
}

/// Appends the decimal numeral of `n` to `out`.
pub fn append_decimal(out: &mut String, n: u64)
    ensures
        final(out)@ == old(out)@ + decimal(n as nat),
    decreases n,
{
    if n >= 10 {
        append_decimal(out, n / 10);
    }
    out.append(digit_str(n % 10));
    proof {
        if n >= 10 {
            assert(old(out)@ + decimal((n / 10) as nat) + seq![digit_char((n % 10) as nat)] =~= old(out)@
                + decimal(n as nat));
        } else {
            assert(n % 10 == n);
        }
    }
}

/// Appends the numeral of the signed integer `v` to `out`.
pub fn append_signed_decimal(out: &mut String, v: i64)
    ensures
        final(out)@ == old(out)@ + signed_decimal(v as int),
{
    if v < 0 {
        proof {
            reveal_strlit("-");
        }
        out.append("-");
        let magnitude: u64 = if v == i64::MIN {
            9223372036854775808u64
        } else {
            (0 - v) as u64
        };
        append_decimal(out, magnitude);
        proof {
            assert(old(out)@ + seq!['-'] + decimal(magnitude as nat) =~= old(out)@ + (seq!['-']
                + decimal(magnitude as nat)));
        }
    } else {
        append_decimal(out, v as u64);
    }
}

/// A copy of a list of strings.
pub fn clone_strings(v: &Vec<String>) -> (r: Vec<String>)
    ensures
        r@ == v@,
{
    let mut out: Vec<String> = Vec::new();
    let mut i: usize = 0;
    while i < v.len()
        invariant
            i <= v.len(),
            out@ == v@.subrange(0, i as int),
        decreases v.len() - i,
    {
        out.push(v[i].clone());
        i = i + 1;
        assert(out@ =~= v@.subrange(0, i as int));
    }
    assert(v@.subrange(0, i as int) =~= v@);
    out
}

/// A path field that names no component: empty (from a repeated or
/// trailing `/`) or `.`.
pub open spec fn is_skipped_field(f: Seq<char>) -> bool {
    f.len() == 0 || f == seq!['.']
}

/// The last field of `fields` that names a component, if any.
pub open spec fn last_component(fields: Seq<Seq<char>>) -> Option<Seq<char>>
    decreases fields.len(),
{
    if fields.len() == 0 {
        None
    } else if is_skipped_field(fields.last()) {
        last_component(fields.drop_last())
    } else {
        Some(fields.last())
    }
}

/// The file name of a path: its last component once empty and `.`
/// components are dropped, or `unknown` when there is none or it is `..`.
pub open spec fn base_name(path: Seq<char>) -> Seq<char> {
    match last_component(split_on(path, '/')) {
        Some(f) => if f == seq!['.', '.'] {
            seq!['u', 'n', 'k', 'n', 'o', 'w', 'n']
        } else {
            f
        },
        None => seq!['u', 'n', 'k', 'n', 'o', 'w', 'n'],
    }
}

fn is_dots(s: &str, n: usize) -> (r: bool)
    requires
        n == 1 || n == 2,
    ensures
        r == (s@ == Seq::new(n as nat, |i: int| '.')),
{
    if s.unicode_len() != n {
        return false;
    }
    let mut i: usize = 0;
    while i < n
        invariant
            i <= n,
            s@.len() == n,
            forall|k: int| 0 <= k < i ==> s@[k] == '.',
        decreases n - i,
    {
        if s.get_char(i) != '.' {
            return false;
        }
        i = i + 1;
    }
    assert(s@ =~= Seq::new(n as nat, |i: int| '.'));
    true
}

pub fn path_base_name(path: &str) -> (r: String)
    ensures
        r@ == base_name(path@),
{
    let parts = split_fields(path, '/');
    let ghost fields = parts@.map_values(|f: String| f@);
    let mut j: usize = parts.len();
    proof {
        assert(fields.subrange(0, j as int) =~= fields);
    }
    while j > 0
        invariant
            j <= parts.len(),
            fields == parts@.map_values(|f: String| f@),
            fields == split_on(path@, '/'),
            last_component(fields.subrange(0, j as int)) == last_component(fields),
        decreases j,
    {
        let f = &parts[j - 1];
        let skipped = f.unicode_len() == 0 || is_dots(f.as_str(), 1);
        proof {
            assert(seq!['.'] =~= Seq::new(1, |i: int| '.'));
            assert(fields[j - 1] == f@);
            let sub = fields.subrange(0, j as int);
            assert(sub.drop_last() =~= fields.subrange(0, j - 1));
            assert(sub.last() == f@);
        }
        if !skipped {
            let dotdot = is_dots(f.as_str(), 2);
            proof {
                assert(seq!['.', '.'] =~= Seq::new(2, |i: int| '.'));
            }
            if dotdot {
                proof {
                    reveal_strlit("unknown");
                }
                return "unknown".to_owned();
            }
            return f.clone();
        }
        j = j - 1;
    }
    proof {
        reveal_strlit("unknown");
        assert(fields.subrange(0, 0) =~= Seq::<Seq<char>>::empty());
    }
    "unknown".to_owned()
}

} // verus!
