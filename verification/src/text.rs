//! Character-level text utilities used by the dispatcher: equality,
//! ASCII case folding, trimming, tokenization and small-number parsing.
//! All of them are specified over the `Seq<char>` view of `&str`.
use vstd::prelude::*;
use vstd::string::*;

verus! {

/// Character-for-character equality of two string slices.
pub fn str_eq(a: &str, b: &str) -> (r: bool)
    ensures
        r == (a@ == b@),
{
    let alen = a.unicode_len();
    let blen = b.unicode_len();
    if alen != blen {
        return false;
    }
    let mut i: usize = 0;
    while i < alen
        invariant
            0 <= i <= alen,
            alen == a@.len(),
            alen == b@.len(),
            forall|j: int| 0 <= j < i ==> a@[j] == b@[j],
        decreases alen - i,
    {
        let ca = a.get_char(i);
        let cb = b.get_char(i);
        if ca != cb {
            return false;
        }
        i += 1;
    }
    proof {
        assert(a@ =~= b@);
    }
    true
}

/// ASCII lower-casing of a single character; other characters are unchanged.
pub open spec fn lower_char(c: char) -> char {
    if c == 'A' {
        'a'
    } else if c == 'B' {
        'b'
    } else if c == 'C' {
        'c'
    } else if c == 'D' {
        'd'
    } else if c == 'E' {
        'e'
    } else if c == 'F' {
        'f'
    } else if c == 'G' {
        'g'
    } else if c == 'H' {
        'h'
    } else if c == 'I' {
        'i'
    } else if c == 'J' {
        'j'
    } else if c == 'K' {
        'k'
    } else if c == 'L' {
        'l'
    } else if c == 'M' {
        'm'
    } else if c == 'N' {
        'n'
    } else if c == 'O' {
        'o'
    } else if c == 'P' {
        'p'
    } else if c == 'Q' {
        'q'
    } else if c == 'R' {
        'r'
    } else if c == 'S' {
        's'
    } else if c == 'T' {
        't'
    } else if c == 'U' {
        'u'
    } else if c == 'V' {
        'v'
    } else if c == 'W' {
        'w'
    } else if c == 'X' {
        'x'
    } else if c == 'Y' {
        'y'
    } else if c == 'Z' {
        'z'
    } else {
        c
    }
}

/// ASCII lower-casing of a character sequence.
pub open spec fn lower_chars(s: Seq<char>) -> Seq<char> {
    s.map_values(|c: char| lower_char(c))
}

pub fn lower_char_exec(c: char) -> (r: char)
    ensures
        r == lower_char(c),
{
    match c {
        'A' => 'a',
        'B' => 'b',
        'C' => 'c',
        'D' => 'd',
        'E' => 'e',
        'F' => 'f',
        'G' => 'g',
        'H' => 'h',
        'I' => 'i',
        'J' => 'j',
        'K' => 'k',
        'L' => 'l',
        'M' => 'm',
        'N' => 'n',
        'O' => 'o',
        'P' => 'p',
        'Q' => 'q',
        'R' => 'r',
        'S' => 's',
        'T' => 't',
        'U' => 'u',
        'V' => 'v',
        'W' => 'w',
        'X' => 'x',
        'Y' => 'y',
        'Z' => 'z',
        _ => c,
    }
}

/// True when `token`, lower-cased ASCII-wise, equals `canonical`.
/// `canonical` is expected to be already lower case.
pub fn token_matches(token: &str, canonical: &str) -> (r: bool)
    ensures
        r == (lower_chars(token@) == canonical@),
{
    let tlen = token.unicode_len();
    let clen = canonical.unicode_len();
    proof {
        assert(lower_chars(token@).len() == token@.len());
    }
    if tlen != clen {
        return false;
    }
    let mut i: usize = 0;
    while i < tlen
        invariant
            0 <= i <= tlen,
            tlen == token@.len(),
            tlen == canonical@.len(),
            forall|j: int| 0 <= j < i ==> lower_char(token@[j]) == canonical@[j],
        decreases tlen - i,
    {
        let ct = lower_char_exec(token.get_char(i));
        let cc = canonical.get_char(i);
        if ct != cc {
            proof {
                assert(lower_chars(token@)[i as int] != canonical@[i as int]);
            }
            return false;
        }
        i += 1;
    }
    proof {
        assert(lower_chars(token@) =~= canonical@);
    }
    true
}

/// ASCII whitespace, the separator the dispatcher recognizes.
pub open spec fn is_space(c: char) -> bool {
    c == ' ' || c == '\t' || c == '\n' || c == '\r'
}

pub fn is_space_exec(c: char) -> (r: bool)
    ensures
        r == is_space(c),
{
    c == ' ' || c == '\t' || c == '\n' || c == '\r'
}

/// The sequence with leading and trailing whitespace removed.
pub open spec fn trim_spec(s: Seq<char>) -> Seq<char>
    decreases s.len(),
{
    if s.len() > 0 && is_space(s[0]) {
        trim_spec(s.drop_first())
    } else if s.len() > 0 && is_space(s.last()) {
        trim_spec(s.drop_last())
    } else {
        s
    }
}

proof fn lemma_trim_all_space(s: Seq<char>)
    requires
        forall|i: int| 0 <= i < s.len() ==> is_space(s[i]),
    ensures
        trim_spec(s) == Seq::<char>::empty(),
    decreases s.len(),
{
    if s.len() > 0 {
        assert(forall|i: int| 0 <= i < s.drop_first().len() ==> s.drop_first()[i] == s[i + 1]);
        lemma_trim_all_space(s.drop_first());
    } else {
        assert(s =~= Seq::<char>::empty());
    }
}

proof fn lemma_trim_range(s: Seq<char>, a: int, b: int)
    requires
        0 <= a < b <= s.len(),
        forall|i: int| 0 <= i < a ==> is_space(s[i]),
        forall|i: int| b <= i < s.len() ==> is_space(s[i]),
        !is_space(s[a]),
        !is_space(s[b - 1]),
    ensures
        trim_spec(s) == s.subrange(a, b),
    decreases s.len(),
{
    if a > 0 {
        let t = s.drop_first();
        assert(forall|i: int| 0 <= i < t.len() ==> t[i] == s[i + 1]);
        lemma_trim_range(t, a - 1, b - 1);
        assert(t.subrange(a - 1, b - 1) =~= s.subrange(a, b));
    } else if b < s.len() {
        let t = s.drop_last();
        assert(forall|i: int| 0 <= i < t.len() ==> t[i] == s[i]);
        assert(is_space(s.last()));
        lemma_trim_range(t, a, b);
        assert(t.subrange(a, b) =~= s.subrange(a, b));
    } else {
        assert(s.subrange(0, s.len() as int) =~= s);
    }
}

/// Removes leading and trailing ASCII whitespace.
pub fn trim<'a>(s: &'a str) -> (r: &'a str)
    ensures
        r@ == trim_spec(s@),
{
    let len = s.unicode_len();
    let mut a: usize = 0;
    while a < len && is_space_exec(s.get_char(a))
        invariant
            0 <= a <= len,
            len == s@.len(),
            forall|i: int| 0 <= i < a ==> is_space(s@[i]),
        decreases len - a,
    {
        a += 1;
    }
    if a == len {
        proof {
            lemma_trim_all_space(s@);
        }
        let r = s.substring_char(0, 0);
        proof {
            assert(r@ =~= Seq::<char>::empty());
        }
        return r;
    }
    let mut b: usize = len;
    while b > a && is_space_exec(s.get_char(b - 1))
        invariant
            a <= b <= len,
            len == s@.len(),
            a < len,
            !is_space(s@[a as int]),
            forall|i: int| b <= i < len ==> is_space(s@[i]),
        decreases b,
    {
        b -= 1;
    }
    proof {
        assert(b > a);
        assert(!is_space(s@[b - 1]));
        lemma_trim_range(s@, a as int, b as int);
    }
    s.substring_char(a, b)
}

/// The length of the maximal non-whitespace prefix.
pub open spec fn token_len(s: Seq<char>) -> int
    decreases s.len(),
{
    if s.len() == 0 || is_space(s[0]) {
        0
    } else {
        1 + token_len(s.drop_first())
    }
}

pub proof fn lemma_token_len_bounds(s: Seq<char>)
    ensures
        0 <= token_len(s) <= s.len(),
        s.len() > 0 && !is_space(s[0]) ==> 1 <= token_len(s),
    decreases s.len(),
{
    if s.len() > 0 && !is_space(s[0]) {
        lemma_token_len_bounds(s.drop_first());
    }
}

/// `token_len` is pinned by a scan: `k` non-space characters followed by
/// the end or a space.
pub proof fn lemma_token_len_scan(s: Seq<char>, k: int)
    requires
        0 <= k <= s.len(),
        forall|i: int| 0 <= i < k ==> !is_space(s[i]),
        k == s.len() || is_space(s[k]),
    ensures
        token_len(s) == k,
    decreases s.len(),
{
    if k > 0 {
        let t = s.drop_first();
        assert(forall|i: int| 0 <= i < t.len() ==> t[i] == s[i + 1]);
        lemma_token_len_scan(t, k - 1);
    }
}

/// The whitespace-separated tokens of a sequence, in order.
pub open spec fn tokenize_spec(s: Seq<char>) -> Seq<Seq<char>>
    decreases s.len(),
    via tokenize_spec_decreases
{
    if s.len() == 0 {
        Seq::empty()
    } else if is_space(s[0]) {
        tokenize_spec(s.drop_first())
    } else {
        seq![s.take(token_len(s))] + tokenize_spec(s.skip(token_len(s)))
    }
}

#[via_fn]
proof fn tokenize_spec_decreases(s: Seq<char>) {
    lemma_token_len_bounds(s);
}

/// Splits on ASCII whitespace; the result carries no empty tokens.
pub fn tokenize(s: &str) -> (tokens: Vec<String>)
    ensures
        tokens.deep_view() == tokenize_spec(s@),
{
    let len = s.unicode_len();
    let mut tokens: Vec<String> = Vec::new();
    let mut i: usize = 0;
    proof {
        assert(s@.skip(0) =~= s@);
        assert(tokens.deep_view() =~= Seq::<Seq<char>>::empty());
        assert(tokens.deep_view() + tokenize_spec(s@) =~= tokenize_spec(s@));
    }
    while i < len
        invariant
            0 <= i <= len,
            len == s@.len(),
            tokens.deep_view() + tokenize_spec(s@.skip(i as int)) == tokenize_spec(s@),
        decreases len - i,
    {
        let ghost tail = s@.skip(i as int);
        proof {
            assert(tail[0] == s@[i as int]);
            assert(tail.drop_first() =~= s@.skip(i as int + 1));
        }
        let c = s.get_char(i);
        if is_space_exec(c) {
            proof {
                assert(tokenize_spec(tail) == tokenize_spec(s@.skip(i as int + 1)));
            }
            i += 1;
        } else {
            let start = i;
            let mut j: usize = i + 1;
            while j < len && !is_space_exec(s.get_char(j))
                invariant
                    start < j <= len,
                    len == s@.len(),
                    forall|m: int| start <= m < j ==> !is_space(s@[m]),
                decreases len - j,
            {
                j += 1;
            }
            let tok_slice = s.substring_char(start, j);
            let tok = String::from_str(tok_slice);
            let ghost pre = tokens.deep_view();
            tokens.push(tok);
            proof {
                assert(tokens.deep_view() =~= pre.push(s@.subrange(start as int, j as int)));
                assert(forall|m: int| 0 <= m < (j - start) ==> tail[m] == s@[m + start]);
                lemma_token_len_scan(tail, j - start);
                assert(tail.take(j - start) =~= s@.subrange(start as int, j as int));
                assert(tail.skip(j - start) =~= s@.skip(j as int));
                assert(tokenize_spec(tail) == seq![s@.subrange(start as int, j as int)]
                    + tokenize_spec(s@.skip(j as int)));
                assert(pre.push(s@.subrange(start as int, j as int)) + tokenize_spec(
                    s@.skip(j as int),
                ) =~= pre + tokenize_spec(tail));
            }
            i = j;
        }
    }
    proof {
        assert(s@.skip(len as int) =~= Seq::<char>::empty());
        assert(tokenize_spec(Seq::<char>::empty()) == Seq::<Seq<char>>::empty());
        assert(tokens.deep_view() + Seq::<Seq<char>>::empty() =~= tokens.deep_view());
    }
    tokens
}

/// The value of a decimal digit, or -1 for any other character.
pub open spec fn digit_val(c: char) -> int {
    if c == '0' {
        0
    } else if c == '1' {
        1
    } else if c == '2' {
        2
    } else if c == '3' {
        3
    } else if c == '4' {
        4
    } else if c == '5' {
        5
    } else if c == '6' {
        6
    } else if c == '7' {
        7
    } else if c == '8' {
        8
    } else if c == '9' {
        9
    } else {
        -1
    }
}

pub open spec fn is_digit(c: char) -> bool {
    digit_val(c) >= 0
}

pub fn digit_val_exec(c: char) -> (r: Option<usize>)
    ensures
        r matches Some(v) ==> is_digit(c) && v == digit_val(c),
        r is None ==> !is_digit(c),
{
    match c {
        '0' => Some(0),
        '1' => Some(1),
        '2' => Some(2),
        '3' => Some(3),
        '4' => Some(4),
        '5' => Some(5),
        '6' => Some(6),
        '7' => Some(7),
        '8' => Some(8),
        '9' => Some(9),
        _ => None,
    }
}

/// The number written by a digit sequence, most significant digit first.
pub open spec fn digits_value(s: Seq<char>) -> int
    decreases s.len(),
{
    if s.len() == 0 {
        0
    } else {
        digits_value(s.drop_last()) * 10 + digit_val(s.last())
    }
}

pub open spec fn pow10(n: int) -> int
    decreases n,
{
    if n <= 0 {
        1
    } else {
        10 * pow10(n - 1)
    }
}

proof fn lemma_digits_value_bound(s: Seq<char>)
    requires
        forall|i: int| 0 <= i < s.len() ==> is_digit(s[i]),
    ensures
        0 <= digits_value(s) < pow10(s.len() as int),
    decreases s.len(),
{
    if s.len() > 0 {
        let t = s.drop_last();
        assert(forall|i: int| 0 <= i < t.len() ==> t[i] == s[i]);
        lemma_digits_value_bound(t);
        assert(0 <= digit_val(s.last()) <= 9);
    }
}

/// A whole decimal number of one to six digits; anything else is rejected.
/// Six digits are more than any bounded selection a prompt can list.
pub open spec fn parse_number_spec(s: Seq<char>) -> Option<int> {
    if 1 <= s.len() <= 6 && (forall|i: int| 0 <= i < s.len() ==> is_digit(s[i])) {
        Some(digits_value(s))
    } else {
        None
    }
}

pub fn parse_number(s: &str) -> (r: Option<usize>)
    ensures
        r matches Some(v) ==> parse_number_spec(s@) == Some(v as int),
        r is None ==> parse_number_spec(s@) is None,
{
    let len = s.unicode_len();
    if len < 1 || len > 6 {
        return None;
    }
    let mut acc: usize = 0;
    let mut i: usize = 0;
    proof {
        assert(s@.take(0) =~= Seq::<char>::empty());
    }
    while i < len
        invariant
            0 <= i <= len,
            1 <= len <= 6,
            len == s@.len(),
            forall|j: int| 0 <= j < i ==> is_digit(s@[j]),
            acc == digits_value(s@.take(i as int)),
        decreases len - i,
    {
        let c = s.get_char(i);
        match digit_val_exec(c) {
            None => {
                proof {
                    assert(!is_digit(s@[i as int]));
                }
                return None;
            },
            Some(d) => {
                proof {
                    let taken = s@.take(i as int);
                    assert(forall|j: int| 0 <= j < taken.len() ==> taken[j] == s@[j]);
                    lemma_digits_value_bound(taken);
                    assert(pow10(5) == 100000) by {
                        assert(pow10(0) == 1);
                        assert(pow10(1) == 10);
                        assert(pow10(2) == 100);
                        assert(pow10(3) == 1000);
                        assert(pow10(4) == 10000);
                    }
                    assert(pow10(i as int) <= 100000) by {
                        assert(pow10(0) == 1);
                        assert(pow10(1) == 10);
                        assert(pow10(2) == 100);
                        assert(pow10(3) == 1000);
                        assert(pow10(4) == 10000);
                        assert(pow10(5) == 100000);
                    }
                    assert(acc <= 99999);
                }
                acc = acc * 10 + d;
                proof {
                    let t2 = s@.take(i as int + 1);
                    assert(t2.drop_last() =~= s@.take(i as int));
                    assert(t2.last() == s@[i as int]);
                }
            },
        }
        i += 1;
    }
    proof {
        assert(s@.take(len as int) =~= s@);
    }
    Some(acc)
}

/// A whole decimal number of one to ten digits that fits in `u32`;
/// anything else is rejected.
pub open spec fn parse_u32_spec(s: Seq<char>) -> Option<int> {
    if 1 <= s.len() <= 10 && (forall|i: int| 0 <= i < s.len() ==> is_digit(s[i]))
        && digits_value(s) <= u32::MAX {
        Some(digits_value(s))
    } else {
        None
    }
}

pub fn parse_u32(s: &str) -> (r: Option<u32>)
    ensures
        r matches Some(v) ==> parse_u32_spec(s@) == Some(v as int),
        r is None ==> parse_u32_spec(s@) is None,
{
    let len = s.unicode_len();
    if len < 1 || len > 10 {
        return None;
    }
    let mut acc: u64 = 0;
    let mut i: usize = 0;
    proof {
        assert(s@.take(0) =~= Seq::<char>::empty());
    }
    while i < len
        invariant
            0 <= i <= len,
            1 <= len <= 10,
            len == s@.len(),
            forall|j: int| 0 <= j < i ==> is_digit(s@[j]),
            acc == digits_value(s@.take(i as int)),
        decreases len - i,
    {
        let c = s.get_char(i);
        match digit_val_exec(c) {
            None => {
                proof {
                    assert(!is_digit(s@[i as int]));
                }
                return None;
            },
            Some(d) => {
                proof {
                    let taken = s@.take(i as int);
                    assert(forall|j: int| 0 <= j < taken.len() ==> taken[j] == s@[j]);
                    lemma_digits_value_bound(taken);
                    assert(pow10(9) == 1000000000) by {
                        assert(pow10(0) == 1);
                        assert(pow10(1) == 10);
                        assert(pow10(2) == 100);
                        assert(pow10(3) == 1000);
                        assert(pow10(4) == 10000);
                        assert(pow10(5) == 100000);
                        assert(pow10(6) == 1000000);
                        assert(pow10(7) == 10000000);
                        assert(pow10(8) == 100000000);
                    }
                    assert(pow10(i as int) <= 1000000000) by {
                        assert(pow10(0) == 1);
                        assert(pow10(1) == 10);
                        assert(pow10(2) == 100);
                        assert(pow10(3) == 1000);
                        assert(pow10(4) == 10000);
                        assert(pow10(5) == 100000);
                        assert(pow10(6) == 1000000);
                        assert(pow10(7) == 10000000);
                        assert(pow10(8) == 100000000);
                        assert(pow10(9) == 1000000000);
                    }
                    assert(acc <= 999999999);
                }
                acc = acc * 10 + (d as u64);
                proof {
                    let t2 = s@.take(i as int + 1);
                    assert(t2.drop_last() =~= s@.take(i as int));
                    assert(t2.last() == s@[i as int]);
                }
            },
        }
        i += 1;
    }
    proof {
        assert(s@.take(len as int) =~= s@);
    }
    if acc <= u32::MAX as u64 {
        Some(acc as u32)
    } else {
        None
    }
}

/// Characters the messaging gateway's inline-formatting markup reserves.
pub open spec fn is_markdown_special(c: char) -> bool {
    ||| c == '_'
    ||| c == '*'
    ||| c == '['
    ||| c == ']'
    ||| c == '('
    ||| c == ')'
    ||| c == '~'
    ||| c == '`'
    ||| c == '>'
    ||| c == '#'
    ||| c == '+'
    ||| c == '-'
    ||| c == '='
    ||| c == '|'
    ||| c == '{'
    ||| c == '}'
    ||| c == '.'
    ||| c == '!'
}

pub fn is_markdown_special_exec(c: char) -> (r: bool)
    ensures
        r == is_markdown_special(c),
{
    match c {
        '_' | '*' | '[' | ']' | '(' | ')' | '~' | '`' | '>' | '#' | '+' | '-' | '=' | '|' | '{'
            | '}' | '.' | '!' => true,
        _ => false,
    }
}

/// A reserved character is preceded by a backslash; others pass unchanged.
pub open spec fn escape_unit(c: char) -> Seq<char> {
    if is_markdown_special(c) {
        seq!['\\', c]
    } else {
        seq![c]
    }
}

/// The markup-escaped form of a sequence.
pub open spec fn escape_spec(s: Seq<char>) -> Seq<char>
    decreases s.len(),
{
    if s.len() == 0 {
        Seq::empty()
    } else {
        escape_spec(s.drop_last()) + escape_unit(s.last())
    }
}

/// Escapes every reserved markup character with a preceding backslash.
pub fn escape_markdown_v2(s: &str) -> (r: String)
    ensures
        r@ == escape_spec(s@),
{
    let len = s.unicode_len();
    let mut out = String::new();
    let mut i: usize = 0;
    proof {
        assert(s@.take(0) =~= Seq::<char>::empty());
        assert(out@ =~= escape_spec(s@.take(0)));
    }
    while i < len
        invariant
            0 <= i <= len,
            len == s@.len(),
            out@ == escape_spec(s@.take(i as int)),
        decreases len - i,
    {
        let ghost pre = out@;
        let c = s.get_char(i);
        if is_markdown_special_exec(c) {
            out.append("\\");
            proof {
                reveal_strlit("\\");
            }
        }
        let piece = s.substring_char(i, i + 1);
        out.append(piece);
        proof {
            let t2 = s@.take(i as int + 1);
            assert(t2.drop_last() =~= s@.take(i as int));
            assert(t2.last() == s@[i as int]);
            assert(piece@ =~= seq![s@[i as int]]);
            if is_markdown_special(s@[i as int]) {
                assert("\\"@ =~= seq!['\\']);
                assert(out@ =~= pre + escape_unit(s@[i as int]));
            } else {
                assert(out@ =~= pre + escape_unit(s@[i as int]));
            }
        }
        i += 1;
    }
    proof {
        assert(s@.take(len as int) =~= s@);
    }
    out
}

} // verus!
