//! Text primitives over `str`/`String` with their meaning stated over
//! `Seq<char>`: whitespace trimming, integer parsing and formatting,
//! comma-separated lists and ASCII case-insensitive search.

use vstd::prelude::*;

verus! {

/// The Unicode `White_Space` property, which `char::is_whitespace` tests.
pub open spec fn is_whitespace(c: char) -> bool {
    let u = c as u32;
    ||| 0x09 <= u <= 0x0D
    ||| u == 0x20
    ||| u == 0x85
    ||| u == 0xA0
    ||| u == 0x1680
    ||| 0x2000 <= u <= 0x200A
    ||| u == 0x2028
    ||| u == 0x2029
    ||| u == 0x202F
    ||| u == 0x205F
    ||| u == 0x3000
}

/// `s` without its leading whitespace.
pub open spec fn trim_start(s: Seq<char>) -> Seq<char>
    decreases s.len(),
{
    if s.len() > 0 && is_whitespace(s[0]) {
        trim_start(s.drop_first())
    } else {
        s
    }
}

/// `s` without its trailing whitespace.
pub open spec fn trim_end(s: Seq<char>) -> Seq<char>
    decreases s.len(),
{
    if s.len() > 0 && is_whitespace(s.last()) {
        trim_end(s.drop_last())
    } else {
        s
    }
}

/// `s` without leading and trailing whitespace, as `str::trim` returns it.
pub open spec fn trim(s: Seq<char>) -> Seq<char> {
    trim_end(trim_start(s))
}

/// Tells whether `c` is whitespace.
pub fn is_whitespace_char(c: char) -> (b: bool)
    ensures
        b == is_whitespace(c),
{
    let u = c as u32;
    (0x09 <= u && u <= 0x0D) || u == 0x20 || u == 0x85 || u == 0xA0 || u == 0x1680 || (0x2000
        <= u && u <= 0x200A) || u == 0x2028 || u == 0x2029 || u == 0x202F || u == 0x205F || u
        == 0x3000
}

proof fn lemma_trim_start_at(s: Seq<char>, lo: int)
    requires
        0 <= lo <= s.len(),
        forall|k: int| 0 <= k < lo ==> is_whitespace(#[trigger] s[k]),
        lo == s.len() || !is_whitespace(s[lo]),
    ensures
        trim_start(s) == s.subrange(lo, s.len() as int),
    decreases lo,
{
    if lo > 0 {
        let t = s.drop_first();
        assert forall|k: int| 0 <= k < lo - 1 implies is_whitespace(#[trigger] t[k]) by {
            assert(t[k] == s[k + 1]);
        }
        lemma_trim_start_at(t, lo - 1);
        assert(t.subrange(lo - 1, t.len() as int) =~= s.subrange(lo, s.len() as int));
    } else {
        assert(s.subrange(0, s.len() as int) =~= s);
    }
}

proof fn lemma_trim_end_at(s: Seq<char>, hi: int)
    requires
        0 <= hi <= s.len(),
        forall|k: int| hi <= k < s.len() ==> is_whitespace(#[trigger] s[k]),
        hi == 0 || !is_whitespace(s[hi - 1]),
    ensures
        trim_end(s) == s.subrange(0, hi),
    decreases s.len() - hi,
{
    if hi < s.len() {
        let t = s.drop_last();
        assert forall|k: int| hi <= k < t.len() implies is_whitespace(#[trigger] t[k]) by {
            assert(t[k] == s[k]);
        }
        lemma_trim_end_at(t, hi);
        assert(t.subrange(0, hi) =~= s.subrange(0, hi));
    } else {
        assert(s.subrange(0, hi) =~= s);
    }
}

/// `s` without leading and trailing whitespace (`str::trim`).
pub fn trim_str(s: &str) -> (r: &str)
    ensures
        r@ == trim(s@),
{
    let n = s.unicode_len();
    let mut lo: usize = 0;
    while lo < n && is_whitespace_char(s.get_char(lo))
        invariant
            n == s@.len(),
            lo <= n,
            forall|k: int| 0 <= k < lo ==> is_whitespace(#[trigger] s@[k]),
        decreases n - lo,
    {
        lo = lo + 1;
    }
    let mut hi: usize = n;
    while hi > lo && is_whitespace_char(s.get_char(hi - 1))
        invariant
            n == s@.len(),
            lo <= hi <= n,
            forall|k: int| hi <= k < n ==> is_whitespace(#[trigger] s@[k]),
        decreases hi,
    {
        hi = hi - 1;
    }
    proof {
        lemma_trim_start_at(s@, lo as int);
        let t = s@.subrange(lo as int, n as int);
        assert forall|k: int| hi - lo <= k < t.len() implies is_whitespace(#[trigger] t[k]) by {
            assert(t[k] == s@[k + lo]);
        }
        if hi > lo {
            assert(t[hi - lo - 1] == s@[hi - 1]);
        }
        lemma_trim_end_at(t, hi - lo);
        assert(t.subrange(0, hi - lo) =~= s@.subrange(lo as int, hi as int));
    }
    s.substring_char(lo, hi)
}


/// Whether `c` is one of the ASCII digits `0`..`9`.
pub open spec fn is_digit(c: char) -> bool {
    0x30 <= (c as u32) <= 0x39
}

/// The value of the digit `c`.
pub open spec fn digit_value(c: char) -> int {
    (c as u32) - 0x30
}

/// The value of a string of decimal digits, most significant first.
pub open spec fn digits_value(s: Seq<char>) -> int
    decreases s.len(),
{
    if s.len() == 0 {
        0
    } else {
        digits_value(s.drop_last()) * 10 + digit_value(s.last())
    }
}

pub open spec fn all_digits(s: Seq<char>) -> bool {
    forall|i: int| 0 <= i < s.len() ==> is_digit(#[trigger] s[i])
}

/// The integer that `s` spells: an optional `+` or `-`, then at least one
/// digit and nothing else, as `FromStr` for the integer types reads it.
pub open spec fn parse_int(s: Seq<char>) -> Option<int> {
    if s.len() > 0 && (s[0] == '-' || s[0] == '+') {
        let body = s.drop_first();
        if body.len() > 0 && all_digits(body) {
            if s[0] == '-' {
                Some(-digits_value(body))
            } else {
                Some(digits_value(body))
            }
        } else {
            None
        }
    } else if s.len() > 0 && all_digits(s) {
        Some(digits_value(s))
    } else {
        None
    }
}

/// What `str::parse::<i64>` gives for `s`: the integer it spells, when
/// that integer fits in an `i64`.
pub open spec fn parse_i64(s: Seq<char>) -> Option<i64> {
    match parse_int(s) {
        Some(v) => if i64::MIN <= v <= i64::MAX {
            Some(v as i64)
        } else {
            None
        },
        None => None,
    }
}

proof fn lemma_digits_value_nonneg(s: Seq<char>)
    requires
        all_digits(s),
    ensures
        digits_value(s) >= 0,
    decreases s.len(),
{
    if s.len() > 0 {
        assert(is_digit(s[s.len() - 1]));
        lemma_digits_value_nonneg(s.drop_last());
    }
}

proof fn lemma_digits_value_grows(s: Seq<char>, i: int)
    requires
        all_digits(s),
        0 <= i <= s.len(),
    ensures
        digits_value(s.take(i)) <= digits_value(s),
    decreases s.len() - i,
{
    if i < s.len() {
        lemma_digits_value_grows(s, i + 1);
        assert(s.take(i + 1).drop_last() =~= s.take(i));
        assert(is_digit(s.take(i + 1).last()));
        lemma_digits_value_nonneg(s.take(i));
    } else {
        assert(s.take(i) =~= s);
    }
}

/// Parses a decimal integer, as `str::parse::<i64>` does.
pub fn parse_i64_str(s: &str) -> (r: Option<i64>)
    ensures
        r == parse_i64(s@),
{
    let n = s.unicode_len();
    if n == 0 {
        return None;
    }
    let first = s.get_char(0);
    let negative = first == '-';
    let start: usize = if first == '-' || first == '+' {
        1
    } else {
        0
    };
    if start == n {
        return None;
    }
    let ghost body = s@.subrange(start as int, n as int);
    let mut acc: u128 = 0;
    let mut i: usize = start;
    while i < n
        invariant
            start <= i <= n,
            n == s@.len(),
            1 <= n,
            start < n,
            first == s@[0],
            negative == (first == '-'),
            start == (if first == '-' || first == '+' { 1usize } else { 0usize }),
            body == s@.subrange(start as int, n as int),
            all_digits(body.take(i - start)),
            acc == digits_value(body.take(i - start)),
            acc <= 0x8000_0000_0000_0000u128,
        decreases n - i,
    {
        let c = s.get_char(i);
        let u = c as u32;
        if u < 0x30 || u > 0x39 {
            proof {
                assert(body[i - start] == c);
                assert(!all_digits(body));
                assert(s@[0] == '-' || s@[0] == '+' ==> s@.drop_first() =~= body);
                assert(!(s@[0] == '-' || s@[0] == '+') ==> s@ =~= body);
            }
            return None;
        }
        proof {
            assert(body.take(i - start + 1).drop_last() =~= body.take(i - start));
            assert(body.take(i - start + 1).last() == c);
            assert forall|k: int| 0 <= k < i - start + 1 implies is_digit(
                #[trigger] body.take(i - start + 1)[k],
            ) by {
                if k < i - start {
                    assert(body.take(i - start + 1)[k] == body.take(i - start)[k]);
                }
            }
        }
        acc = acc * 10 + (u - 0x30) as u128;
        i = i + 1;
        if acc > 0x8000_0000_0000_0000u128 {
            proof {
                let t = body.take(i - start);
                let rest_ok = all_digits(body);
                if rest_ok {
                    lemma_digits_value_grows(body, i - start);
                }
                assert(s@[0] == '-' || s@[0] == '+' ==> s@.drop_first() =~= body);
                assert(!(s@[0] == '-' || s@[0] == '+') ==> s@ =~= body);
            }
            return None;
        }
    }
    proof {
        assert(body.take(n - start) =~= body);
        assert(s@[0] == '-' || s@[0] == '+' ==> s@.drop_first() =~= body);
        assert(!(s@[0] == '-' || s@[0] == '+') ==> s@ =~= body);
    }
    if negative {
        let v: i128 = -(acc as i128);
        if v < -0x8000_0000_0000_0000i128 {
            None
        } else {
            Some(v as i64)
        }
    } else {
        if acc > 0x7FFF_FFFF_FFFF_FFFFu128 {
            None
        } else {
            Some(acc as i64)
        }
    }
}


/// Whether every character of `s` is whitespace.
pub open spec fn all_whitespace(s: Seq<char>) -> bool {
    forall|i: int| 0 <= i < s.len() ==> is_whitespace(#[trigger] s[i])
}

proof fn lemma_trim_start_after_whitespace(p: Seq<char>, x: Seq<char>)
    requires
        all_whitespace(p),
    ensures
        trim_start(p + x) == trim_start(x),
    decreases p.len(),
{
    if p.len() > 0 {
        let t = p.drop_first();
        assert(all_whitespace(t)) by {
            assert forall|i: int| 0 <= i < t.len() implies is_whitespace(#[trigger] t[i]) by {
                assert(t[i] == p[i + 1]);
            }
        }
        assert(is_whitespace(p[0]));
        assert((p + x)[0] == p[0]);
        assert((p + x).drop_first() =~= t + x);
        lemma_trim_start_after_whitespace(t, x);
    } else {
        assert(p + x =~= x);
    }
}

proof fn lemma_trim_end_before_whitespace(x: Seq<char>, q: Seq<char>)
    requires
        all_whitespace(q),
    ensures
        trim_end(x + q) == trim_end(x),
    decreases q.len(),
{
    if q.len() > 0 {
        let t = q.drop_last();
        assert(all_whitespace(t)) by {
            assert forall|i: int| 0 <= i < t.len() implies is_whitespace(#[trigger] t[i]) by {
                assert(t[i] == q[i]);
            }
        }
        assert(is_whitespace(q[q.len() - 1]));
        assert((x + q).last() == q.last());
        assert((x + q).drop_last() =~= x + t);
        lemma_trim_end_before_whitespace(x, t);
    } else {
        assert(x + q =~= x);
    }
}

proof fn lemma_trim_before_whitespace(x: Seq<char>, q: Seq<char>)
    requires
        all_whitespace(q),
    ensures
        trim(x + q) == trim(x),
    decreases x.len(),
{
    if x.len() == 0 {
        assert(x + q =~= q);
        lemma_trim_start_after_whitespace(q, Seq::<char>::empty());
        assert(q + Seq::<char>::empty() =~= q);
        assert(trim_start(Seq::<char>::empty()) =~= Seq::<char>::empty());
    } else if is_whitespace(x[0]) {
        let t = x.drop_first();
        assert((x + q)[0] == x[0]);
        assert((x + q).drop_first() =~= t + q);
        lemma_trim_before_whitespace(t, q);
    } else {
        assert((x + q)[0] == x[0]);
        lemma_trim_end_before_whitespace(x, q);
    }
}

/// Whitespace added before and after a text does not change it once
/// trimmed.
pub proof fn lemma_trim_padded(p: Seq<char>, x: Seq<char>, q: Seq<char>)
    requires
        all_whitespace(p),
        all_whitespace(q),
    ensures
        trim(p + x + q) == trim(x),
{
    assert(p + x + q =~= p + (x + q));
    lemma_trim_start_after_whitespace(p, x + q);
    lemma_trim_before_whitespace(x, q);
}

/// The ten decimal digits, in order.
pub open spec fn digit_chars() -> Seq<char> {
    seq!['0', '1', '2', '3', '4', '5', '6', '7', '8', '9']
}

/// The decimal digits of `n`, most significant first, without leading zeros.
pub open spec fn nat_decimal(n: nat) -> Seq<char>
    decreases n,
{
    if n < 10 {
        seq![digit_chars()[n as int]]
    } else {
        nat_decimal(n / 10).push(digit_chars()[(n % 10) as int])
    }
}

/// `v` written in decimal, with a leading `-` when negative, as `Display`
/// writes an integer.
pub open spec fn decimal(v: int) -> Seq<char> {
    if v < 0 {
        seq!['-'] + nat_decimal((-v) as nat)
    } else {
        nat_decimal(v as nat)
    }
}

proof fn lemma_digit_chars()
    ensures
        forall|k: int|
            0 <= k < 10 ==> is_digit(#[trigger] digit_chars()[k]) && digit_value(digit_chars()[k])
                == k,
{
    let d = digit_chars();
    assert(d[0] == '0' && d[1] == '1' && d[2] == '2' && d[3] == '3' && d[4] == '4');
    assert(d[5] == '5' && d[6] == '6' && d[7] == '7' && d[8] == '8' && d[9] == '9');
    assert(digit_value('0') == 0 && digit_value('1') == 1 && digit_value('2') == 2);
    assert(digit_value('3') == 3 && digit_value('4') == 4 && digit_value('5') == 5);
    assert(digit_value('6') == 6 && digit_value('7') == 7 && digit_value('8') == 8);
    assert(digit_value('9') == 9);
}

proof fn lemma_nat_decimal(n: nat)
    ensures
        nat_decimal(n).len() > 0,
        all_digits(nat_decimal(n)),
        digits_value(nat_decimal(n)) == n,
    decreases n,
{
    lemma_digit_chars();
    if n < 10 {
        let s = nat_decimal(n);
        assert(s.drop_last() =~= Seq::<char>::empty());
        assert(s.last() == digit_chars()[n as int]);
        assert(digits_value(s) == digits_value(s.drop_last()) * 10 + digit_value(s.last()));
    } else {
        lemma_nat_decimal(n / 10);
        let s = nat_decimal(n);
        assert(s.drop_last() =~= nat_decimal(n / 10));
        assert(s.last() == digit_chars()[(n % 10) as int]);
        assert(digits_value(s) == digits_value(s.drop_last()) * 10 + digit_value(s.last()));
        assert((n / 10) * 10 + n % 10 == n);
        assert(is_digit(s.last()));
        assert forall|i: int| 0 <= i < s.len() implies is_digit(#[trigger] s[i]) by {
            if i < s.len() - 1 {
                assert(s[i] == nat_decimal(n / 10)[i]);
            }
        }
    }
}

proof fn lemma_no_outer_whitespace(s: Seq<char>)
    requires
        s.len() > 0,
        !is_whitespace(s[0]),
        !is_whitespace(s.last()),
    ensures
        trim(s) == s,
{
}

/// Formatting an `i64` and parsing the text back gives the same integer,
/// and the text has no surrounding whitespace to trim.
pub proof fn lemma_decimal_round_trip(v: i64)
    ensures
        parse_i64(decimal(v as int)) == Some(v),
        trim(decimal(v as int)) == decimal(v as int),
{
    let s = decimal(v as int);
    if v < 0 {
        let nd = nat_decimal((-v) as nat);
        lemma_nat_decimal((-v) as nat);
        assert(s.drop_first() =~= nd);
        assert(s[0] == '-');
        assert(is_digit(nd.last()));
        assert(s.last() == nd.last());
    } else {
        lemma_nat_decimal(v as nat);
        assert(is_digit(s[0]));
        assert(is_digit(s.last()));
    }
    lemma_no_outer_whitespace(s);
}

fn append_nat_decimal(out: &mut String, n: u64)
    ensures
        final(out)@ == old(out)@ + nat_decimal(n as nat),
    decreases n,
{
    if n >= 10 {
        append_nat_decimal(out, n / 10);
    }
    let d = (n % 10) as usize;
    let digits = "0123456789";
    proof {
        reveal_strlit("0123456789");
        assert(digits@ =~= digit_chars());
    }
    let piece = digits.substring_char(d, d + 1);
    proof {
        assert(piece@ =~= seq![digit_chars()[d as int]]);
    }
    out.append(piece);
    proof {
        if n >= 10 {
            assert(final(out)@ =~= old(out)@ + nat_decimal(n as nat));
        } else {
            assert(final(out)@ =~= old(out)@ + nat_decimal(n as nat));
        }
    }
}

/// Writes `v` in decimal (`i64::to_string`).
pub fn format_i64(v: i64) -> (r: String)
    ensures
        r@ == decimal(v as int),
{
    let mut out = String::new();
    let magnitude: u64 = if v < 0 {
        let minus = "-";
        proof {
            reveal_strlit("-");
        }
        out.append(minus);
        (-(v as i128)) as u64
    } else {
        v as u64
    };
    append_nat_decimal(&mut out, magnitude);
    proof {
        if v < 0 {
            assert(out@ =~= decimal(v as int));
        } else {
            assert(out@ =~= decimal(v as int));
        }
    }
    out
}


/// `items` joined with `sep` between each neighbouring pair (`slice::join`).
pub open spec fn join(items: Seq<Seq<char>>, sep: Seq<char>) -> Seq<char>
    decreases items.len(),
{
    if items.len() == 0 {
        Seq::empty()
    } else if items.len() == 1 {
        items[0]
    } else {
        join(items.drop_last(), sep) + sep + items.last()
    }
}

/// Joins `items` with `sep` between each neighbouring pair.
pub fn join_strings(items: &Vec<String>, sep: &str) -> (r: String)
    ensures
        r@ == join(items.deep_view(), sep@),
{
    let ghost all = items.deep_view();
    let mut out = String::new();
    let n = items.len();
    let mut i: usize = 0;
    while i < n
        invariant
            n == items.len(),
            i <= n,
            all == items.deep_view(),
            out@ == join(all.take(i as int), sep@),
        decreases n - i,
    {
        proof {
            assert(all.take(i + 1).drop_last() =~= all.take(i as int));
            assert(all[i as int] == items[i as int]@);
        }
        if i > 0 {
            out.append(sep);
        }
        out.append(items[i].as_str());
        proof {
            if i == 0 {
                assert(out@ =~= join(all.take(i + 1), sep@));
            } else {
                assert(out@ =~= join(all.take(i + 1), sep@));
            }
        }
        i = i + 1;
    }
    proof {
        assert(all.take(n as int) =~= all);
    }
    out
}

/// The pieces of `s` cut at each `sep`, read left to right: the pieces
/// already closed by a separator, and the piece still open.
pub open spec fn split_state(s: Seq<char>, sep: char) -> (Seq<Seq<char>>, Seq<char>)
    decreases s.len(),
{
    if s.len() == 0 {
        (Seq::empty(), Seq::empty())
    } else {
        let prev = split_state(s.drop_last(), sep);
        if s.last() == sep {
            (prev.0.push(prev.1), Seq::empty())
        } else {
            (prev.0, prev.1.push(s.last()))
        }
    }
}

/// The pieces of `s` between the occurrences of `sep` (`str::split`):
/// one more than the number of separators, empty pieces included.
pub open spec fn split(s: Seq<char>, sep: char) -> Seq<Seq<char>> {
    let st = split_state(s, sep);
    st.0.push(st.1)
}

/// Each piece trimmed, the pieces left empty by trimming dropped.
pub open spec fn trimmed_nonempty(pieces: Seq<Seq<char>>) -> Seq<Seq<char>>
    decreases pieces.len(),
{
    if pieces.len() == 0 {
        Seq::empty()
    } else {
        let rest = trimmed_nonempty(pieces.drop_last());
        let t = trim(pieces.last());
        if t.len() == 0 {
            rest
        } else {
            rest.push(t)
        }
    }
}

/// The entries of a comma-separated list: each piece between commas,
/// trimmed, the empty ones left out.
pub open spec fn comma_list(s: Seq<char>) -> Seq<Seq<char>> {
    trimmed_nonempty(split(s, ','))
}

/// The entries of a comma-separated list: each piece between commas,
/// trimmed, the empty ones left out.
pub fn parse_comma_list(s: &str) -> (r: Vec<String>)
    ensures
        r.deep_view() == comma_list(s@),
{
    let n = s.unicode_len();
    let mut out: Vec<String> = Vec::new();
    let mut start: usize = 0;
    let mut i: usize = 0;
    let ghost mut closed: Seq<Seq<char>> = Seq::empty();
    while i < n
        invariant
            n == s@.len(),
            start <= i <= n,
            split_state(s@.take(i as int), ',') == (closed, s@.subrange(start as int, i as int)),
            out.deep_view() == trimmed_nonempty(closed),
        decreases n - i,
    {
        let c = s.get_char(i);
        proof {
            assert(s@.take(i + 1).drop_last() =~= s@.take(i as int));
            assert(s@.take(i + 1).last() == c);
        }
        if c == ',' {
            let piece = trim_str(s.substring_char(start, i));
            let ghost before = out.deep_view();
            if piece.unicode_len() > 0 {
                out.push(String::from_str(piece));
                proof {
                    assert(out.deep_view() =~= before.push(piece@));
                }
            }
            proof {
                let closed_next = closed.push(s@.subrange(start as int, i as int));
                assert(closed_next.drop_last() =~= closed);
                closed = closed_next;
            }
            start = i + 1;
            proof {
                assert(s@.subrange(start as int, i + 1) =~= Seq::<char>::empty());
            }
        } else {
            proof {
                assert(s@.subrange(start as int, i + 1) =~= s@.subrange(start as int, i as int).push(
                    c,
                ));
            }
        }
        i = i + 1;
    }
    let piece = trim_str(s.substring_char(start, n));
    let ghost before = out.deep_view();
    if piece.unicode_len() > 0 {
        out.push(String::from_str(piece));
        proof {
            assert(out.deep_view() =~= before.push(piece@));
        }
    }
    proof {
        assert(s@.take(n as int) =~= s@);
        let pieces = split(s@, ',');
        assert(pieces.drop_last() =~= closed);
        assert(pieces.last() == s@.subrange(start as int, n as int));
    }
    out
}

proof fn lemma_split_state_plain(q: Seq<char>, sep: char)
    requires
        !q.contains(sep),
    ensures
        split_state(q, sep) == (Seq::<Seq<char>>::empty(), q),
    decreases q.len(),
{
    if q.len() > 0 {
        assert(!q.drop_last().contains(sep)) by {
            if q.drop_last().contains(sep) {
                let k = choose|k: int| 0 <= k < q.drop_last().len() && q.drop_last()[k] == sep;
                assert(q[k] == sep);
            }
        }
        lemma_split_state_plain(q.drop_last(), sep);
        assert(q[q.len() - 1] != sep);
        assert(q.drop_last().push(q.last()) =~= q);
    }
}

proof fn lemma_split_state_after_sep(p: Seq<char>, q: Seq<char>, sep: char)
    requires
        !q.contains(sep),
    ensures
        split_state(p.push(sep) + q, sep) == (split(p, sep), q),
    decreases q.len(),
{
    if q.len() == 0 {
        assert(p.push(sep) + q =~= p.push(sep));
        assert(p.push(sep).drop_last() =~= p);
    } else {
        assert(!q.drop_last().contains(sep)) by {
            if q.drop_last().contains(sep) {
                let k = choose|k: int| 0 <= k < q.drop_last().len() && q.drop_last()[k] == sep;
                assert(q[k] == sep);
            }
        }
        lemma_split_state_after_sep(p, q.drop_last(), sep);
        let whole = p.push(sep) + q;
        assert(whole.drop_last() =~= p.push(sep) + q.drop_last());
        assert(whole.last() == q.last());
        assert(q[q.len() - 1] != sep);
        assert(q.drop_last().push(q.last()) =~= q);
    }
}

proof fn lemma_no_sep_in_whitespace(p: Seq<char>)
    requires
        all_whitespace(p),
    ensures
        !p.contains(','),
{
    if p.contains(',') {
        let k = choose|k: int| 0 <= k < p.len() && p[k] == ',';
        assert(is_whitespace(p[k]));
    }
}

proof fn lemma_split_state_before_plain(x: Seq<char>, q: Seq<char>, sep: char)
    requires
        !q.contains(sep),
    ensures
        split_state(x + q, sep) == (split_state(x, sep).0, split_state(x, sep).1 + q),
    decreases q.len(),
{
    if q.len() == 0 {
        assert(x + q =~= x);
        assert(split_state(x, sep).1 + q =~= split_state(x, sep).1);
    } else {
        let t = q.drop_last();
        assert(!t.contains(sep)) by {
            if t.contains(sep) {
                let k = choose|k: int| 0 <= k < t.len() && t[k] == sep;
                assert(q[k] == sep);
            }
        }
        assert(q[q.len() - 1] != sep);
        assert((x + q).drop_last() =~= x + t);
        assert((x + q).last() == q.last());
        lemma_split_state_before_plain(x, t, sep);
        assert((split_state(x, sep).1 + t).push(q.last()) =~= split_state(x, sep).1 + q);
    }
}

proof fn lemma_split_state_after_plain(p: Seq<char>, s: Seq<char>, sep: char)
    requires
        !p.contains(sep),
    ensures
        ({
            let st = split_state(s, sep);
            let st2 = split_state(p + s, sep);
            if st.0.len() == 0 {
                st2.0.len() == 0 && st2.1 == p + st.1
            } else {
                &&& st2.0.len() == st.0.len()
                &&& st2.0[0] == p + st.0[0]
                &&& forall|i: int| 0 < i < st.0.len() ==> st2.0[i] == st.0[i]
                &&& st2.1 == st.1
            }
        }),
    decreases s.len(),
{
    if s.len() == 0 {
        lemma_split_state_plain(p, sep);
        assert(p + s =~= p);
        assert(p + Seq::<char>::empty() =~= p);
    } else {
        let front = s.drop_last();
        let ch = s.last();
        lemma_split_state_after_plain(p, front, sep);
        assert((p + s).drop_last() =~= p + front);
        assert((p + s).last() == ch);
        let st = split_state(front, sep);
        let st2 = split_state(p + front, sep);
        if ch == sep {
            if st.0.len() == 0 {
                assert(split_state(s, sep).0 =~= seq![st.1]);
                assert(split_state(p + s, sep).0 =~= seq![p + st.1]);
            } else {
                let d = split_state(s, sep).0;
                let d2 = split_state(p + s, sep).0;
                assert(d == st.0.push(st.1));
                assert(d2 == st2.0.push(st2.1));
                assert forall|i: int| 0 < i < d.len() implies d2[i] == d[i] by {
                    if i < st.0.len() {
                        assert(d2[i] == st2.0[i]);
                        assert(d[i] == st.0[i]);
                    }
                }
            }
        } else {
            if st.0.len() == 0 {
                assert((p + st.1).push(ch) =~= p + st.1.push(ch));
            }
        }
    }
}

proof fn lemma_trimmed_nonempty_alike(a: Seq<Seq<char>>, b: Seq<Seq<char>>)
    requires
        a.len() == b.len(),
        forall|i: int| 0 <= i < a.len() ==> trim(#[trigger] a[i]) == trim(b[i]),
    ensures
        trimmed_nonempty(a) == trimmed_nonempty(b),
    decreases a.len(),
{
    if a.len() > 0 {
        let fa = a.drop_last();
        let fb = b.drop_last();
        assert forall|i: int| 0 <= i < fa.len() implies trim(#[trigger] fa[i]) == trim(fb[i]) by {
            assert(fa[i] == a[i] && fb[i] == b[i]);
        }
        lemma_trimmed_nonempty_alike(fa, fb);
        assert(trim(a[a.len() - 1]) == trim(b[b.len() - 1]));
    }
}

/// Whitespace added before and after a comma-separated list does not
/// change its entries.
pub proof fn lemma_comma_list_padded(p: Seq<char>, s: Seq<char>, q: Seq<char>)
    requires
        all_whitespace(p),
        all_whitespace(q),
    ensures
        comma_list(p + s + q) == comma_list(s),
{
    let e = Seq::<char>::empty();
    lemma_no_sep_in_whitespace(p);
    lemma_no_sep_in_whitespace(q);
    lemma_split_state_before_plain(p + s, q, ',');
    lemma_split_state_after_plain(p, s, ',');
    let st = split_state(s, ',');
    let st2 = split_state(p + s, ',');
    let a = split(p + s + q, ',');
    let b = split(s, ',');
    assert(a == st2.0.push(st2.1 + q));
    assert(b == st.0.push(st.1));
    assert(all_whitespace(e));
    assert forall|i: int| 0 <= i < a.len() implies trim(#[trigger] a[i]) == trim(b[i]) by {
        if st.0.len() == 0 {
            assert(a[i] == p + st.1 + q);
            lemma_trim_padded(p, st.1, q);
        } else if i == 0 {
            assert(a[i] == p + st.0[0] + e);
            assert(p + st.0[0] + e =~= p + st.0[0]);
            lemma_trim_padded(p, st.0[0], e);
        } else if i == a.len() - 1 {
            assert(a[i] == e + st.1 + q);
            assert(e + st.1 + q =~= st.1 + q);
            lemma_trim_padded(e, st.1, q);
        } else {
            assert(a[i] == st2.0[i]);
        }
    }
    lemma_trimmed_nonempty_alike(a, b);
}

/// The entries that `comma_list` keeps from one list item: trimmed text,
/// not empty, with no comma in it.
pub open spec fn is_list_entry(a: Seq<char>) -> bool {
    &&& a.len() > 0
    &&& trim(a) == a
    &&& !a.contains(',')
}

proof fn lemma_trim_after_space(a: Seq<char>)
    requires
        trim(a) == a,
    ensures
        trim(seq![' '] + a) == a,
{
    let s = seq![' '] + a;
    assert(s.drop_first() =~= a);
    assert(is_whitespace(s[0]));
    assert(trim_start(s) == trim_start(a));
}

/// Reading back a list written with `", "` between its entries gives the
/// same entries, when each is trimmed, non-empty and free of commas.
pub proof fn lemma_comma_list_of_join(items: Seq<Seq<char>>)
    requires
        forall|i: int| 0 <= i < items.len() ==> is_list_entry(#[trigger] items[i]),
    ensures
        comma_list(join(items, seq![',', ' '])) == items,
    decreases items.len(),
{
    let sep = seq![',', ' '];
    if items.len() == 0 {
        let s = join(items, sep);
        assert(s =~= Seq::<char>::empty());
        assert(split(s, ',') =~= seq![Seq::<char>::empty()]);
        assert(split(s, ',').drop_last() =~= Seq::<Seq<char>>::empty());
        assert(trim(Seq::<char>::empty()) =~= Seq::<char>::empty());
        assert(trimmed_nonempty(Seq::<Seq<char>>::empty()) =~= Seq::<Seq<char>>::empty());
        assert(trimmed_nonempty(split(s, ',')) =~= items);
    } else if items.len() == 1 {
        let a = items[0];
        assert(is_list_entry(a));
        lemma_split_state_plain(a, ',');
        assert(split(a, ',') =~= seq![a]);
        assert(seq![a].drop_last() =~= Seq::<Seq<char>>::empty());
        assert(trimmed_nonempty(Seq::<Seq<char>>::empty()) =~= Seq::<Seq<char>>::empty());
        assert(seq![a].last() == a);
        assert(trimmed_nonempty(seq![a]) =~= Seq::<Seq<char>>::empty().push(a));
        assert(trimmed_nonempty(seq![a]) =~= items);
    } else {
        let front = items.drop_last();
        let a = items.last();
        assert(is_list_entry(items[items.len() - 1]));
        assert forall|i: int| 0 <= i < front.len() implies is_list_entry(#[trigger] front[i]) by {
            assert(front[i] == items[i]);
        }
        lemma_comma_list_of_join(front);
        let p = join(front, sep);
        let q = seq![' '] + a;
        assert(!q.contains(',')) by {
            if q.contains(',') {
                let k = choose|k: int| 0 <= k < q.len() && q[k] == ',';
                assert(k > 0);
                assert(a[k - 1] == ',');
            }
        }
        assert(join(items, sep) =~= p.push(',') + q);
        lemma_split_state_after_sep(p, q, ',');
        let pieces = split(join(items, sep), ',');
        assert(pieces =~= split(p, ',').push(q));
        assert(pieces.drop_last() =~= split(p, ','));
        lemma_trim_after_space(a);
        assert(comma_list(join(items, sep)) =~= front.push(a));
        assert(front.push(a) =~= items);
    }
}


/// The code point of `c` after ASCII uppercasing (`char::to_ascii_uppercase`):
/// `a`..`z` move to `A`..`Z`, every other character stays.
pub open spec fn upper_code(c: char) -> u32 {
    let u = c as u32;
    if 0x61 <= u <= 0x7A {
        (u - 0x20) as u32
    } else {
        u
    }
}

/// The code points of `s` after ASCII uppercasing (`str::to_ascii_uppercase`).
pub open spec fn upper_codes(s: Seq<char>) -> Seq<u32> {
    s.map_values(|c: char| upper_code(c))
}

/// The code points of `s`.
pub open spec fn codes(s: Seq<char>) -> Seq<u32> {
    s.map_values(|c: char| c as u32)
}

/// Whether `needle` occurs in `hay` as a contiguous run.
pub open spec fn has_infix(hay: Seq<u32>, needle: Seq<u32>) -> bool {
    exists|i: int| 0 <= i <= hay.len() - needle.len() && #[trigger] hay.subrange(i, i + needle.len()) == needle
}

/// Whether `needle` occurs in `hay` once `hay` is uppercased in ASCII
/// (`hay.to_ascii_uppercase().contains(needle)`).
pub fn upper_contains(hay: &str, needle: &str) -> (r: bool)
    ensures
        r == has_infix(upper_codes(hay@), codes(needle@)),
{
    let h = hay.unicode_len();
    let n = needle.unicode_len();
    let ghost uh = upper_codes(hay@);
    let ghost cn = codes(needle@);
    if n > h {
        return false;
    }
    if n == 0 {
        proof {
            assert(uh.subrange(0int, 0int + cn.len()) =~= cn);
        }
        return true;
    }
    let mut i: usize = 0;
    while i < h - n + 1
        invariant
            h == hay@.len(),
            n == needle@.len(),
            n <= h,
            h - n + 1 <= usize::MAX,
            i <= h - n + 1,
            uh == upper_codes(hay@),
            cn == codes(needle@),
            forall|k: int| 0 <= k < i ==> #[trigger] uh.subrange(k, k + n) != cn,
        decreases h - n + 1 - i,
    {
        let mut j: usize = 0;
        let mut matched = true;
        while j < n
            invariant
                h == hay@.len(),
                n == needle@.len(),
                i + n <= h,
                j <= n,
                uh == upper_codes(hay@),
                cn == codes(needle@),
                matched ==> forall|k: int| 0 <= k < j ==> uh[i + k] == cn[k],
                !matched ==> uh.subrange(i as int, i + n) != cn,
            decreases n - j,
        {
            if matched {
                let hc = hay.get_char(i + j) as u32;
                let up = if 0x61 <= hc && hc <= 0x7A {
                    hc - 0x20
                } else {
                    hc
                };
                let nc = needle.get_char(j) as u32;
                if up != nc {
                    matched = false;
                    proof {
                        assert(uh[i + j] == up);
                        assert(cn[j as int] == nc);
                        assert(uh.subrange(i as int, i + n)[j as int] == uh[i + j]);
                    }
                }
            }
            j = j + 1;
        }
        if matched {
            proof {
                assert(uh.subrange(i as int, i + n) =~= cn);
            }
            return true;
        }
        i = i + 1;
    }
    false
}


/// Whether `a` and `b` hold the same characters.
pub fn str_equals(a: &str, b: &str) -> (r: bool)
    ensures
        r == (a@ == b@),
{
    let n = a.unicode_len();
    if n != b.unicode_len() {
        return false;
    }
    let mut i: usize = 0;
    while i < n
        invariant
            n == a@.len(),
            n == b@.len(),
            i <= n,
            forall|k: int| 0 <= k < i ==> a@[k] == b@[k],
        decreases n - i,
    {
        if a.get_char(i) != b.get_char(i) {
            return false;
        }
        i = i + 1;
    }
    proof {
        assert(a@ =~= b@);
    }
    true
}

} // verus!
