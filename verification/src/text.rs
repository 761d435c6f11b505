//! Character-level helpers shared by the parsers and the reply builders:
//! decimal numerals, whitespace, token splitting and string assembly.

use vstd::prelude::*;

verus! {

/// The characters of `s`, one per element.
pub fn chars_of(s: &str) -> (v: Vec<char>)
    ensures
        v@ == s@,
{
    let mut v: Vec<char> = Vec::new();
    for c in it: s.chars()
        invariant
            v@ == it.seq().take(it.index() as int),
    {
        v.push(c);
    }
    v
}

/// Calls `String::push`. Claimed, as its documentation says: the character
/// is appended at the end of the string.
#[verifier::external_body]
pub(crate) fn push_char(s: &mut String, c: char)
    ensures
        final(s)@ == old(s)@.push(c),
{
    s.push(c);
}

/// A string holding exactly the characters of `v`.
pub fn string_of(v: &Vec<char>) -> (s: String)
    ensures
        s@ == v@,
{
    let mut s = String::new();
    let n = v.len();
    for i in 0..n
        invariant
            n == v@.len(),
            s@ == v@.take(i as int),
    {
        push_char(&mut s, v[i]);
        assert(v@.take(i + 1) =~= v@.take(i as int).push(v@[i as int]));
    }
    assert(v@.take(n as int) =~= v@);
    s
}

/// Appends the characters of `t` to `s`.
pub fn push_str(s: &mut String, t: &str)
    ensures
        final(s)@ == old(s)@ + t@,
{
    let ghost start = s@;
    for c in it: t.chars()
        invariant
            s@ == start + it.seq().take(it.index() as int),
    {
        push_char(s, c);
        assert(start + it.seq().take(it.index() + 1) =~= (start + it.seq().take(it.index() as int)).push(c));
    }
}

/// Whether two texts consist of the same characters.
pub fn same_text(a: &str, b: &str) -> (r: bool)
    ensures
        r == (a@ == b@),
{
    let x = chars_of(a);
    let y = chars_of(b);
    if x.len() != y.len() {
        assert(x@.len() != y@.len());
        return false;
    }
    let n = x.len();
    for i in 0..n
        invariant
            n == x@.len(),
            n == y@.len(),
            x@ == a@,
            y@ == b@,
            forall|j: int| 0 <= j < i ==> x@[j] == y@[j],
    {
        if x[i] != y[i] {
            assert(x@[i as int] != y@[i as int]);
            return false;
        }
    }
    assert(x@ =~= y@);
    true
}

/// The characters of `v` from `from` up to, not including, `to`, as a string.
pub fn string_of_range(v: &Vec<char>, from: usize, to: usize) -> (s: String)
    requires
        from <= to <= v@.len(),
    ensures
        s@ == v@.subrange(from as int, to as int),
{
    let mut s = String::new();
    let mut i = from;
    while i < to
        invariant
            from <= i <= to <= v@.len(),
            s@ == v@.subrange(from as int, i as int),
        decreases to - i,
    {
        push_char(&mut s, v[i]);
        assert(v@.subrange(from as int, i + 1) =~= v@.subrange(from as int, i as int).push(v@[i as int]));
        i = i + 1;
    }
    s
}

/// Whether `lit` occurs in `s` starting at position `p`.
pub open spec fn occurs_at(s: Seq<char>, p: int, lit: Seq<char>) -> bool {
    0 <= p && p + lit.len() <= s.len() && s.subrange(p, p + lit.len()) == lit
}

/// Whether `lit` occurs in `v` starting at position `p`.
pub fn occurs_at_exec(v: &Vec<char>, p: usize, lit: &Vec<char>) -> (r: bool)
    ensures
        r == occurs_at(v@, p as int, lit@),
{
    let len = v.len();
    if lit.len() > len || p > len - lit.len() {
        return false;
    }
    let n = lit.len();
    for i in 0..n
        invariant
            n == lit@.len(),
            len == v@.len(),
            p + n <= len,
            forall|j: int| 0 <= j < i ==> v@[p + j] == lit@[j],
    {
        if v[p + i] != lit[i] {
            assert(v@.subrange(p as int, p + n)[i as int] != lit@[i as int]);
            return false;
        }
    }
    assert(v@.subrange(p as int, p + n) =~= lit@);
    true
}

// ---------------------------------------------------------------------
// Decimal numerals
// ---------------------------------------------------------------------

/// The ASCII digit for `d` (meant for `d < 10`).
pub open spec fn digit_char(d: nat) -> char {
    (48 + d) as char
}

/// Whether `c` is one of the ASCII digits `0`..`9`.
pub open spec fn is_digit(c: char) -> bool {
    '0' <= c && c <= '9'
}

/// The numeric value of an ASCII digit.
pub open spec fn digit_value(c: char) -> nat {
    ((c as u32) - 48) as nat
}

/// The decimal numeral of `n`, without sign or leading zeros, as
/// `to_string` writes it.
pub open spec fn decimal(n: nat) -> Seq<char>
    decreases n,
{
    if n < 10 {
        seq![digit_char(n)]
    } else {
        decimal(n / 10).push(digit_char(n % 10))
    }
}

fn digit_of(d: u64) -> (c: char)
    requires
        d < 10,
    ensures
        c == digit_char(d as nat),
{
    let b: u8 = d as u8;
    assert((48 + b) as char == digit_char(d as nat));
    (48u8 + b) as char
}

/// The decimal numeral of `n`.
pub fn decimal_string(n: u64) -> (s: String)
    ensures
        s@ == decimal(n as nat),
{
    let mut rest: u64 = n;
    let mut acc: Vec<char> = Vec::new();
    loop
        invariant_except_break
            rest > 0 || n == 0,
            decimal(n as nat) == decimal(rest as nat) + acc@,
        ensures
            decimal(n as nat) == acc@,
        decreases rest,
    {
        if rest < 10 {
            let c = digit_of(rest);
            acc.insert(0, c);
            assert(acc@ =~= seq![c] + (acc@.drop_first()));
            assert(decimal(rest as nat) =~= seq![c]);
            break;
        }
        let c = digit_of(rest % 10);
        let ghost old_acc = acc@;
        acc.insert(0, c);
        assert(decimal(rest as nat) == decimal((rest / 10) as nat).push(c));
        assert(decimal((rest / 10) as nat).push(c) + old_acc =~= decimal((rest / 10) as nat) + acc@);
        rest = rest / 10;
    }
    string_of(&acc)
}

// ---------------------------------------------------------------------
// Reading unsigned numbers
// ---------------------------------------------------------------------

/// The value of a string of decimal digits.
pub open spec fn digits_value(s: Seq<char>) -> nat
    decreases s.len(),
{
    if s.len() == 0 {
        0
    } else {
        digits_value(s.drop_last()) * 10 + digit_value(s.last())
    }
}

/// Whether every character of `s` is a decimal digit.
pub open spec fn all_digits(s: Seq<char>) -> bool {
    forall|i: int| 0 <= i < s.len() ==> is_digit(#[trigger] s[i])
}

/// What `str::parse` gives for `s` for an unsigned type whose largest value
/// is `max`: an optional `+`, then one or more decimal digits whose value
/// is at most `max`.
pub open spec fn spec_parse_unsigned(s: Seq<char>, max: nat) -> Option<nat> {
    let body = if s.len() > 0 && s[0] == '+' {
        s.drop_first()
    } else {
        s
    };
    if body.len() > 0 && all_digits(body) && digits_value(body) <= max {
        Some(digits_value(body))
    } else {
        None
    }
}

/// What `str::parse::<u32>` gives for `s`.
pub open spec fn spec_parse_u32(s: Seq<char>) -> Option<u32> {
    match spec_parse_unsigned(s, u32::MAX as nat) {
        Some(v) => Some(v as u32),
        None => None,
    }
}

/// What `str::parse::<u64>` gives for `s`.
pub open spec fn spec_parse_u64(s: Seq<char>) -> Option<u64> {
    match spec_parse_unsigned(s, u64::MAX as nat) {
        Some(v) => Some(v as u64),
        None => None,
    }
}

proof fn lemma_digits_value_grows(s: Seq<char>, k: int)
    requires
        0 <= k <= s.len(),
    ensures
        digits_value(s.take(k)) <= digits_value(s),
    decreases s.len(),
{
    if k < s.len() {
        lemma_digits_value_grows(s.drop_last(), k);
        assert(s.drop_last().take(k) =~= s.take(k));
    } else {
        assert(s.take(k) =~= s);
    }
}

/// Reads an unsigned number no larger than `max` the way `str::parse` does.
pub fn parse_unsigned(s: &Vec<char>, max: u64) -> (r: Option<u64>)
    ensures
        match r {
            Some(v) => spec_parse_unsigned(s@, max as nat) == Some(v as nat),
            None => spec_parse_unsigned(s@, max as nat) is None,
        },
{
    let n = s.len();
    let start: usize = if n > 0 && s[0] == '+' { 1 } else { 0 };
    let ghost body = if s@.len() > 0 && s@[0] == '+' { s@.drop_first() } else { s@ };
    assert(body =~= s@.subrange(start as int, n as int));
    if start >= n {
        return None;
    }
    let mut value: u128 = 0;
    let mut i = start;
    while i < n
        invariant
            start <= i <= n == s@.len(),
            body == s@.subrange(start as int, n as int),
            body == (if s@.len() > 0 && s@[0] == '+' { s@.drop_first() } else { s@ }),
            all_digits(s@.subrange(start as int, i as int)),
            value as nat == digits_value(s@.subrange(start as int, i as int)),
            value <= max,
        decreases n - i,
    {
        let c = s[i];
        if !('0' <= c && c <= '9') {
            assert(body[i - start] == c);
            assert(!is_digit(body[i - start]));
            assert(!all_digits(body));
            return None;
        }
        let d: u128 = (c as u32 - 48) as u128;
        proof {
            let prefix = s@.subrange(start as int, i + 1);
            assert(prefix.drop_last() =~= s@.subrange(start as int, i as int));
            assert(prefix.last() == c);
        }
        value = value * 10 + d;
        proof {
            let prefix = s@.subrange(start as int, i + 1);
            assert(digit_value(prefix.last()) == d);
            assert(digits_value(prefix) == value);
        }
        if value > max as u128 {
            proof {
                let k = i + 1 - start;
                assert(body.take(k) =~= s@.subrange(start as int, i + 1));
                lemma_digits_value_grows(body, k);
                assert(digits_value(body) > max);
            }
            return None;
        }
        i = i + 1;
    }
    assert(s@.subrange(start as int, n as int) =~= body);
    Some(value as u64)
}

/// Reads an unsigned 32-bit number the way `str::parse::<u32>` does.
pub fn parse_u32(s: &Vec<char>) -> (r: Option<u32>)
    ensures
        r == spec_parse_u32(s@),
{
    match parse_unsigned(s, 4294967295u64) {
        Some(v) => Some(v as u32),
        None => None,
    }
}

/// Reads an unsigned 64-bit number the way `str::parse::<u64>` does.
pub fn parse_u64(s: &Vec<char>) -> (r: Option<u64>)
    ensures
        r == spec_parse_u64(s@),
{
    parse_unsigned(s, 18446744073709551615u64)
}

proof fn lemma_digit_char(d: nat)
    requires
        d < 10,
    ensures
        is_digit(digit_char(d)),
        digit_value(digit_char(d)) == d,
{
    assert(((48 + d) as char) as u32 == 48 + d);
}

/// Every decimal numeral reads back as the number it was written for.
pub proof fn lemma_decimal_digits(n: nat)
    ensures
        decimal(n).len() > 0,
        all_digits(decimal(n)),
        digits_value(decimal(n)) == n,
    decreases n,
{
    lemma_digit_char(n % 10);
    if n >= 10 {
        lemma_decimal_digits(n / 10);
        let d = decimal(n);
        assert(d.drop_last() =~= decimal(n / 10));
        assert(d.last() == digit_char(n % 10));
        assert(digits_value(d) == digits_value(decimal(n / 10)) * 10 + digit_value(d.last()));
        assert(n == (n / 10) * 10 + n % 10) by (nonlinear_arith);
        assert(d.drop_last() =~= decimal(n / 10));
        assert(all_digits(d)) by {
            assert forall|i: int| 0 <= i < d.len() implies is_digit(#[trigger] d[i]) by {
                if i < d.len() - 1 {
                    assert(d[i] == decimal(n / 10)[i]);
                }
            }
        }
    } else {
        let d = decimal(n);
        assert(d.drop_last() =~= Seq::<char>::empty());
        assert(digits_value(d.drop_last()) == 0);
        assert(d.last() == digit_char(n));
        assert(digits_value(d) == digit_value(d.last()));
    }
}

/// `parse::<u32>` reads `to_string` of a 32-bit number back.
pub proof fn lemma_parse_decimal(n: u32)
    ensures
        spec_parse_u32(decimal(n as nat)) == Some(n),
{
    lemma_decimal_digits(n as nat);
}

// ---------------------------------------------------------------------
// Whitespace and words
// ---------------------------------------------------------------------

/// The characters with the Unicode `White_Space` property, which
/// `char::is_whitespace` tests for.
pub open spec fn is_white_space(c: char) -> bool {
    ('\u{9}' <= c && c <= '\u{D}') || c == ' ' || c == '\u{85}' || c == '\u{A0}' || c == '\u{1680}'
        || ('\u{2000}' <= c && c <= '\u{200A}') || c == '\u{2028}' || c == '\u{2029}' || c == '\u{202F}'
        || c == '\u{205F}' || c == '\u{3000}'
}

/// Whether `c` is white space.
pub fn is_whitespace(c: char) -> (r: bool)
    ensures
        r == is_white_space(c),
{
    ('\u{9}' <= c && c <= '\u{D}') || c == ' ' || c == '\u{85}' || c == '\u{A0}' || c == '\u{1680}'
        || ('\u{2000}' <= c && c <= '\u{200A}') || c == '\u{2028}' || c == '\u{2029}' || c == '\u{202F}'
        || c == '\u{205F}' || c == '\u{3000}'
}

/// The maximal runs of characters that are not white space, in order, as
/// `str::split_whitespace` yields them.
pub open spec fn words(s: Seq<char>) -> Seq<Seq<char>>
    decreases s.len(),
{
    if s.len() == 0 {
        Seq::empty()
    } else if is_white_space(s.last()) {
        words(s.drop_last())
    } else if s.len() >= 2 && !is_white_space(s[s.len() - 2]) {
        let w = words(s.drop_last());
        w.update(w.len() - 1, w.last().push(s.last()))
    } else {
        words(s.drop_last()).push(seq![s.last()])
    }
}

/// The views of a vector of character vectors.
pub open spec fn views_of(v: Seq<Vec<char>>) -> Seq<Seq<char>> {
    v.map_values(|w: Vec<char>| w@)
}

/// Splits `s` at white space, dropping empty pieces.
pub fn split_whitespace(s: &Vec<char>) -> (r: Vec<Vec<char>>)
    ensures
        views_of(r@) == words(s@),
{
    let mut out: Vec<Vec<char>> = Vec::new();
    let n = s.len();
    let mut in_word = false;
    for i in 0..n
        invariant
            n == s@.len(),
            views_of(out@) == words(s@.take(i as int)),
            in_word == (i > 0 && !is_white_space(s@[i - 1])),
            in_word ==> out@.len() > 0,
    {
        let c = s[i];
        let ghost prefix = s@.take(i + 1);
        proof {
            assert(prefix.drop_last() =~= s@.take(i as int));
            assert(prefix.last() == c);
            if i > 0 {
                assert(prefix[prefix.len() - 2] == s@[i - 1]);
            }
        }
        if is_whitespace(c) {
            in_word = false;
        } else if in_word {
            let last = out.len() - 1;
            let mut w = out.remove(last);
            w.push(c);
            out.push(w);
            assert(views_of(out@) =~= words(prefix));
            in_word = true;
        } else {
            let mut w: Vec<char> = Vec::new();
            w.push(c);
            out.push(w);
            assert(views_of(out@) =~= words(prefix));
            in_word = true;
        }
    }
    assert(s@.take(n as int) =~= s@);
    out
}

proof fn lemma_words_append_word(p: Seq<char>, y: Seq<char>)
    requires
        p.len() == 0 || is_white_space(p.last()),
        y.len() > 0,
        forall|i: int| 0 <= i < y.len() ==> !is_white_space(#[trigger] y[i]),
    ensures
        words(p + y) == words(p).push(y),
    decreases y.len(),
{
    let s = p + y;
    assert(s.drop_last() =~= p + y.drop_last());
    assert(s.last() == y.last());
    if y.len() == 1 {
        assert(p + y.drop_last() =~= p);
        assert(seq![y.last()] =~= y);
    } else {
        lemma_words_append_word(p, y.drop_last());
        assert(s[s.len() - 2] == y[y.len() - 2]);
        assert(y.drop_last().push(y.last()) =~= y);
        let w = words(p).push(y.drop_last());
        assert(w.update(w.len() - 1, w.last().push(s.last())) =~= words(p).push(y));
    }
}

/// A text made of two numerals separated by a space splits into exactly
/// those two numerals.
pub proof fn lemma_words_of_two_numerals(a: nat, b: nat)
    ensures
        words(decimal(a) + " "@ + decimal(b)) == seq![decimal(a), decimal(b)],
{
    lemma_decimal_digits(a);
    lemma_decimal_digits(b);
    let x = decimal(a);
    let y = decimal(b);
    assert forall|i: int| 0 <= i < x.len() implies !is_white_space(#[trigger] x[i]) by {
        assert(is_digit(x[i]));
    }
    assert forall|i: int| 0 <= i < y.len() implies !is_white_space(#[trigger] y[i]) by {
        assert(is_digit(y[i]));
    }
    lemma_words_append_word(Seq::empty(), x);
    assert(Seq::<char>::empty() + x =~= x);
    assert(words(Seq::<char>::empty()) =~= Seq::<Seq<char>>::empty());
    let xs = x + " "@;
    assert(" "@ =~= seq![' ']) by {
        reveal_strlit(" ");
    }
    assert(xs.drop_last() =~= x);
    assert(xs.last() == ' ');
    assert(words(xs) == words(x));
    lemma_words_append_word(xs, y);
    assert(seq![x].push(y) =~= seq![x, y]);
}

proof fn lemma_words_nonempty(s: Seq<char>)
    requires
        s.len() > 0,
        !is_white_space(s.last()),
    ensures
        words(s).len() > 0,
    decreases s.len(),
{
    if s.len() >= 2 && !is_white_space(s[s.len() - 2]) {
        assert(s.drop_last().last() == s[s.len() - 2]);
        lemma_words_nonempty(s.drop_last());
    }
}

/// Splitting at white space works piece by piece: the words of two texts
/// joined by a white-space character are the words of the first followed by
/// the words of the second. No word is lost, cut or merged.
pub proof fn lemma_words_join(a: Seq<char>, c: char, b: Seq<char>)
    requires
        is_white_space(c),
    ensures
        words(a + seq![c] + b) == words(a) + words(b),
    decreases b.len(),
{
    let ac = a + seq![c];
    assert(a + seq![c] + b =~= ac + b);
    if b.len() == 0 {
        assert(ac + b =~= ac);
        assert(ac.drop_last() =~= a);
        assert(words(a) + words(b) =~= words(a));
    } else {
        let whole = ac + b;
        let bd = b.drop_last();
        assert(whole.drop_last() =~= ac + bd);
        assert(whole.last() == b.last());
        assert(a + seq![c] + bd =~= ac + bd);
        lemma_words_join(a, c, bd);
        let wa = words(a);
        let wb = words(bd);
        if is_white_space(b.last()) {
        } else {
            let cont = whole.len() >= 2 && !is_white_space(whole[whole.len() - 2]);
            if b.len() >= 2 {
                assert(whole[whole.len() - 2] == b[b.len() - 2]);
            } else {
                assert(whole[whole.len() - 2] == c);
            }
            assert(cont == (b.len() >= 2 && !is_white_space(b[b.len() - 2])));
            if cont {
                assert(bd.last() == b[b.len() - 2]);
                lemma_words_nonempty(bd);
                assert((wa + wb).update((wa + wb).len() - 1, (wa + wb).last().push(b.last()))
                    =~= wa + wb.update(wb.len() - 1, wb.last().push(b.last())));
            } else {
                assert((wa + wb).push(seq![b.last()]) =~= wa + wb.push(seq![b.last()]));
            }
        }
    }
}

/// A text without white space, not empty, is one word.
pub proof fn lemma_words_single(s: Seq<char>)
    requires
        s.len() > 0,
        forall|i: int| 0 <= i < s.len() ==> !is_white_space(#[trigger] s[i]),
    ensures
        words(s) == seq![s],
    decreases s.len(),
{
    let t = s.drop_last();
    assert(!is_white_space(s[s.len() - 1]));
    if s.len() == 1 {
        assert(t =~= Seq::<char>::empty());
        assert(words(t) == Seq::<Seq<char>>::empty());
        assert(seq![s.last()] =~= s);
        assert(Seq::<Seq<char>>::empty().push(seq![s.last()]) =~= seq![s]);
    } else {
        assert forall|i: int| 0 <= i < t.len() implies !is_white_space(#[trigger] t[i]) by {
            assert(t[i] == s[i]);
        }
        lemma_words_single(t);
        assert(!is_white_space(s[s.len() - 2]));
        assert(s.last() == s[s.len() - 1]);
        assert(t.last() == s[s.len() - 2]);
        assert(t.push(s.last()) =~= s);
        assert(seq![t].last() == t);
        assert(seq![t].update(0, t.push(s.last())) =~= seq![s]);
    }
}

} // verus!
