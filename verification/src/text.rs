use vstd::prelude::*;

verus! {

/// `String::push` of the standard library appends one character to the string: the
/// characters afterwards are those before followed by `ch`.
pub assume_specification[ String::push ](s: &mut String, ch: char)
    ensures
        final(s)@ == old(s)@.push(ch),
;

/// The character of a digit in base sixteen or less, lower case.
pub open spec fn digit_char(d: nat) -> char {
    if d < 10 {
        (48 + d) as char
    } else {
        (97 + (d - 10)) as char
    }
}

/// Decimal digits of `n`, most significant first, without leading zeros.
pub open spec fn dec(n: nat) -> Seq<char>
    decreases n,
{
    if n < 10 {
        seq![digit_char(n)]
    } else {
        dec(n / 10).push(digit_char(n % 10))
    }
}

/// Lower-case hexadecimal digits of `n`, most significant first, without leading zeros.
pub open spec fn hex(n: nat) -> Seq<char>
    decreases n,
{
    if n < 16 {
        seq![digit_char(n)]
    } else {
        hex(n / 16).push(digit_char(n % 16))
    }
}

pub fn digit_to_char(d: u8) -> (c: char)
    requires
        d < 16,
    ensures
        c == digit_char(d as nat),
{
    if d < 10 {
        (48u8 + d) as char
    } else {
        (97u8 + (d - 10)) as char
    }
}

/// Appends the decimal digits of `n`.
pub fn push_dec(out: &mut String, n: u128)
    ensures
        final(out)@ == old(out)@ + dec(n as nat),
    decreases n,
{
    if n >= 10 {
        push_dec(out, n / 10);
    }
    let d = (n % 10) as u8;
    out.push(digit_to_char(d));
}

/// Appends the lower-case hexadecimal digits of `n`.
pub fn push_hex(out: &mut String, n: u128)
    ensures
        final(out)@ == old(out)@ + hex(n as nat),
    decreases n,
{
    if n >= 16 {
        push_hex(out, n / 16);
    }
    let d = (n % 16) as u8;
    out.push(digit_to_char(d));
}

/// Decimal text of a signed integer: a minus sign, then the digits of its magnitude.
pub open spec fn sdec(v: int) -> Seq<char> {
    if v < 0 {
        seq!['-'] + dec((-v) as nat)
    } else {
        dec(v as nat)
    }
}

/// Appends the decimal text of a signed 64-bit integer.
pub fn push_i64(out: &mut String, v: i64)
    ensures
        final(out)@ == old(out)@ + sdec(v as int),
{
    if v < 0 {
        out.push('-');
        let m: i128 = -(v as i128);
        push_dec(out, m as u128);
    } else {
        push_dec(out, v as u128);
    }
}

/// The decimal text of an unsigned integer, as its own string.
pub fn dec_string(n: u128) -> (s: String)
    ensures
        s@ == dec(n as nat),
{
    let mut s = String::new();
    push_dec(&mut s, n);
    s
}

/// Whether `s` begins with `prefix`.
pub open spec fn has_prefix(s: Seq<char>, prefix: Seq<char>) -> bool {
    prefix.len() <= s.len() && s.take(prefix.len() as int) == prefix
}

/// Whether `s` begins with `prefix`.
pub fn starts_with(s: &str, prefix: &str) -> (r: bool)
    ensures
        r == has_prefix(s@, prefix@),
{
    let n = s.unicode_len();
    let m = prefix.unicode_len();
    if m > n {
        return false;
    }
    let mut i: usize = 0;
    while i < m
        invariant
            n == s@.len(),
            m == prefix@.len(),
            m <= n,
            i <= m,
            forall|j: int| 0 <= j < i ==> s@[j] == prefix@[j],
        decreases m - i,
    {
        if s.get_char(i) != prefix.get_char(i) {
            assert(s@.take(m as int)[i as int] != prefix@[i as int]);
            return false;
        }
        i = i + 1;
    }
    assert(s@.take(m as int) =~= prefix@);
    true
}

/// Whether two strings hold the same characters.
pub fn str_eq(a: &str, b: &str) -> (r: bool)
    ensures
        r == (a@ == b@),
{
    if a.unicode_len() != b.unicode_len() {
        return false;
    }
    let r = starts_with(a, b);
    assert(a@.take(b@.len() as int) =~= a@);
    r
}

/// Whether `c` is white space in the sense of Unicode's `White_Space` property.
pub open spec fn is_white_space(c: char) -> bool {
    let v = c as u32;
    (0x09 <= v && v <= 0x0d) || v == 0x20 || v == 0x85 || v == 0xa0 || v == 0x1680
        || (0x2000 <= v && v <= 0x200a) || v == 0x2028 || v == 0x2029 || v == 0x202f
        || v == 0x205f || v == 0x3000
}

fn char_is_white_space(c: char) -> (r: bool)
    ensures
        r == is_white_space(c),
{
    let v = c as u32;
    (0x09 <= v && v <= 0x0d) || v == 0x20 || v == 0x85 || v == 0xa0 || v == 0x1680
        || (0x2000 <= v && v <= 0x200a) || v == 0x2028 || v == 0x2029 || v == 0x202f
        || v == 0x205f || v == 0x3000
}

/// Whether `c` separates tokens: a comma, or white space.
pub open spec fn is_delim(c: char, comma: bool) -> bool {
    if comma { c == ',' } else { is_white_space(c) }
}

fn char_is_delim(c: char, comma: bool) -> (r: bool)
    ensures
        r == is_delim(c, comma),
{
    if comma { c == ',' } else { char_is_white_space(c) }
}

/// Whether `t` is one of the tokens of `s`, which are separated by commas (`comma`) or by white space.
pub open spec fn has_token(s: Seq<char>, t: Seq<char>, comma: bool) -> bool {
    exists|i: int| #![trigger s.subrange(i, i + t.len())] {
        &&& 0 <= i
        &&& i + t.len() <= s.len()
        &&& s.subrange(i, i + t.len()) == t
        &&& (i == 0 || is_delim(s[i - 1], comma))
        &&& (i + t.len() == s.len() || is_delim(s[i + t.len()], comma))
    }
}

fn matches_at(s: &str, n: usize, i: usize, t: &str, m: usize) -> (r: bool)
    requires
        n == s@.len(),
        m == t@.len(),
        i + m <= n,
    ensures
        r == (s@.subrange(i as int, i + m) == t@),
{
    let mut k: usize = 0;
    while k < m
        invariant
            n == s@.len(),
            m == t@.len(),
            i + m <= n,
            k <= m,
            forall|j: int| 0 <= j < k ==> s@[i + j] == t@[j],
        decreases m - k,
    {
        if s.get_char(i + k) != t.get_char(k) {
            assert(s@.subrange(i as int, i + m)[k as int] != t@[k as int]);
            return false;
        }
        k = k + 1;
    }
    assert(s@.subrange(i as int, i + m) =~= t@);
    true
}

/// Whether `word` is one of the tokens of `text`, separated by commas (`comma`) or by white space.
pub fn contains_token(text: &str, word: &str, comma: bool) -> (r: bool)
    ensures
        r == has_token(text@, word@, comma),
{
    let n = text.unicode_len();
    let m = word.unicode_len();
    if m > n {
        return false;
    }
    let last = n - m;
    let mut i: usize = 0;
    loop
        invariant
            n == text@.len(),
            m == word@.len(),
            m <= n,
            last == n - m,
            i <= last,
            forall|j: int| 0 <= j < i ==> !({
                &&& #[trigger] text@.subrange(j, j + m) == word@
                &&& (j == 0 || is_delim(text@[j - 1], comma))
                &&& (j + m == n || is_delim(text@[j + m], comma))
            }),
        ensures
            forall|j: int| 0 <= j <= last ==> !({
                &&& #[trigger] text@.subrange(j, j + m) == word@
                &&& (j == 0 || is_delim(text@[j - 1], comma))
                &&& (j + m == n || is_delim(text@[j + m], comma))
            }),
        decreases last - i,
    {
        let before = i == 0 || char_is_delim(text.get_char(i - 1), comma);
        let after = i + m == n || char_is_delim(text.get_char(i + m), comma);
        if before && after && matches_at(text, n, i, word, m) {
            return true;
        }
        if i == last {
            break;
        }
        i = i + 1;
    }
    proof {
        if has_token(text@, word@, comma) {
            let j = choose|j: int| #![trigger text@.subrange(j, j + word@.len())] {
                &&& 0 <= j
                &&& j + word@.len() <= text@.len()
                &&& text@.subrange(j, j + word@.len()) == word@
                &&& (j == 0 || is_delim(text@[j - 1], comma))
                &&& (j + word@.len() == text@.len() || is_delim(text@[j + word@.len()], comma))
            };
            assert(j <= last);
        }
    }
    false
}


/// The items joined with commas between them.
pub open spec fn join_commas(items: Seq<Seq<char>>) -> Seq<char>
    decreases items.len(),
{
    if items.len() == 0 {
        Seq::empty()
    } else if items.len() == 1 {
        items[0]
    } else {
        join_commas(items.drop_last()) + seq![','] + items.last()
    }
}

/// Whether `s` holds no comma.
pub open spec fn comma_free(s: Seq<char>) -> bool {
    forall|k: int| 0 <= k < s.len() ==> #[trigger] s[k] != ','
}

proof fn lemma_token_in_part(a: Seq<char>, b: Seq<char>, t: Seq<char>, i: int)
    requires
        0 <= i,
        i + t.len() <= a.len(),
        (a + b).subrange(i, i + t.len()) == t,
        i == 0 || is_delim((a + b)[i - 1], true),
        i + t.len() == (a + b).len() || is_delim((a + b)[i + t.len()], true),
        b.len() > 0 ==> b[0] == ',',
    ensures
        has_token(a, t, true),
{
    let s = a + b;
    assert(a.subrange(i, i + t.len()) =~= s.subrange(i, i + t.len()));
    if i > 0 {
        assert(a[i - 1] == s[i - 1]);
    }
    if i + t.len() < a.len() {
        assert(a[i + t.len()] == s[i + t.len()]);
    }
}

/// In a list of comma-free items joined by commas, a non-empty comma-free word is one of
/// the comma-separated tokens exactly when it is one of the items.
pub proof fn lemma_token_of_comma_list(items: Seq<Seq<char>>, t: Seq<char>)
    requires
        items.len() > 0,
        forall|i: int| 0 <= i < items.len() ==> comma_free(#[trigger] items[i]),
        t.len() > 0,
        comma_free(t),
    ensures
        has_token(join_commas(items), t, true) <==> items.contains(t),
    decreases items.len(),
{
    let s = join_commas(items);
    if items.len() == 1 {
        let x = items[0];
        assert(comma_free(x));
        if x == t {
            let i: int = 0;
            assert(s.subrange(i, i + t.len()) =~= t);
            assert(has_token(s, t, true));
        }
        if has_token(s, t, true) {
            let i = choose|i: int| #![trigger s.subrange(i, i + t.len())] {
                &&& 0 <= i
                &&& i + t.len() <= s.len()
                &&& s.subrange(i, i + t.len()) == t
                &&& (i == 0 || is_delim(s[i - 1], true))
                &&& (i + t.len() == s.len() || is_delim(s[i + t.len()], true))
            };
            assert(i == 0);
            assert(i + t.len() == s.len());
            assert(s.subrange(0, s.len() as int) =~= s);
            assert(items[0] == t);
        }
        if items.contains(t) {
            assert(items[0] == t);
        }
    } else {
        let p = items.drop_last();
        let a = join_commas(p);
        let b = items.last();
        assert(forall|i: int| 0 <= i < p.len() ==> #[trigger] p[i] == items[i]);
        lemma_token_of_comma_list(p, t);
        assert(comma_free(b)) by { assert(b == items[items.len() - 1]); }
        assert(s == a + seq![','] + b);
        let ab = seq![','] + b;
        assert(s =~= a + ab);
        if has_token(s, t, true) {
            let i = choose|i: int| #![trigger s.subrange(i, i + t.len())] {
                &&& 0 <= i
                &&& i + t.len() <= s.len()
                &&& s.subrange(i, i + t.len()) == t
                &&& (i == 0 || is_delim(s[i - 1], true))
                &&& (i + t.len() == s.len() || is_delim(s[i + t.len()], true))
            };
            if i + t.len() <= a.len() {
                lemma_token_in_part(a, ab, t, i);
                let k = choose|k: int| 0 <= k < p.len() && p[k] == t;
                assert(items[k] == t);
            } else if i > a.len() {
                assert(i == a.len() + 1) by {
                    if i > a.len() + 1 {
                        assert(s[i - 1] == b[i - 1 - a.len() - 1]);
                    }
                }
                assert(i + t.len() == s.len()) by {
                    if i + t.len() < s.len() {
                        assert(s[i + t.len()] == b[i + t.len() - a.len() - 1]);
                    }
                }
                assert(s.subrange(i, i + t.len()) =~= b);
                assert(items[items.len() - 1] == t);
            } else {
                assert(s[a.len() as int] == ',');
                assert(t[a.len() - i] == s.subrange(i, i + t.len())[a.len() - i]);
            }
        }
        if items.contains(t) {
            let k = choose|k: int| 0 <= k < items.len() && items[k] == t;
            if k == items.len() - 1 {
                let i: int = a.len() as int + 1;
                assert(s.subrange(i, i + t.len()) =~= t);
                assert(s[i - 1] == ',');
                assert(has_token(s, t, true));
            } else {
                assert(p[k] == t);
                assert(p.contains(t));
                let i = choose|i: int| #![trigger a.subrange(i, i + t.len())] {
                    &&& 0 <= i
                    &&& i + t.len() <= a.len()
                    &&& a.subrange(i, i + t.len()) == t
                    &&& (i == 0 || is_delim(a[i - 1], true))
                    &&& (i + t.len() == a.len() || is_delim(a[i + t.len()], true))
                };
                assert(s.subrange(i, i + t.len()) =~= a.subrange(i, i + t.len()));
                if i > 0 {
                    assert(s[i - 1] == a[i - 1]);
                }
                assert(s[i + t.len()] == if i + t.len() == a.len() { ',' } else { a[i + t.len()] });
                assert(has_token(s, t, true));
            }
        }
    }
}

} // verus!
