use vstd::prelude::*;
use crate::text::{digit_char, digit_to_char, dec, sdec, push_dec, push_i64};

verus! {

/// Whether `c` belongs to the Unicode general category Cc (control codes).
pub open spec fn is_control(c: char) -> bool {
    (c as u32) < 0x20 || (0x7f <= (c as u32) && (c as u32) <= 0x9f)
}

pub fn char_is_control(c: char) -> (r: bool)
    ensures
        r == is_control(c),
{
    let v = c as u32;
    v < 0x20 || (0x7f <= v && v <= 0x9f)
}

/// The JSON text that stands for one character inside a string literal.
pub open spec fn escape_char(c: char) -> Seq<char> {
    if c == '"' {
        seq!['\\', '"']
    } else if c == '\\' {
        seq!['\\', '\\']
    } else if c == '\n' {
        seq!['\\', 'n']
    } else if c == '\r' {
        seq!['\\', 'r']
    } else if c == '\t' {
        seq!['\\', 't']
    } else if is_control(c) {
        let v = c as u32;
        seq!['\\', 'u', digit_char(((v / 4096) % 16) as nat), digit_char(((v / 256) % 16) as nat),
            digit_char(((v / 16) % 16) as nat), digit_char((v % 16) as nat)]
    } else {
        seq![c]
    }
}

/// The escaped body of a JSON string literal.
pub open spec fn escape_seq(s: Seq<char>) -> Seq<char>
    decreases s.len(),
{
    if s.len() == 0 {
        Seq::empty()
    } else {
        escape_seq(s.drop_last()) + escape_char(s.last())
    }
}

/// A JSON string literal holding `s`.
pub open spec fn quote(s: Seq<char>) -> Seq<char> {
    seq!['"'] + escape_seq(s) + seq!['"']
}

fn push_escaped(out: &mut String, c: char)
    ensures
        final(out)@ == old(out)@ + escape_char(c),
{
    if c == '"' {
        out.push('\\');
        out.push('"');
    } else if c == '\\' {
        out.push('\\');
        out.push('\\');
    } else if c == '\n' {
        out.push('\\');
        out.push('n');
    } else if c == '\r' {
        out.push('\\');
        out.push('r');
    } else if c == '\t' {
        out.push('\\');
        out.push('t');
    } else if char_is_control(c) {
        let v = c as u32;
        out.push('\\');
        out.push('u');
        out.push(digit_to_char(((v / 4096) % 16) as u8));
        out.push(digit_to_char(((v / 256) % 16) as u8));
        out.push(digit_to_char(((v / 16) % 16) as u8));
        out.push(digit_to_char((v % 16) as u8));
    } else {
        out.push(c);
    }
}

/// Appends `value` as a JSON string literal.
pub fn push_quoted(out: &mut String, value: &str)
    ensures
        final(out)@ == old(out)@ + quote(value@),
{
    out.push('"');
    let ghost start = out@;
    let n = value.unicode_len();
    let mut i: usize = 0;
    while i < n
        invariant
            n == value@.len(),
            i <= n,
            out@ == start + escape_seq(value@.take(i as int)),
        decreases n - i,
    {
        let ch = value.get_char(i);
        proof {
            assert(value@.take(i + 1).drop_last() =~= value@.take(i as int));
        }
        push_escaped(out, ch);
        i = i + 1;
    }
    proof {
        assert(value@.take(n as int) =~= value@);
    }
    out.push('"');
}

/// A JSON string literal holding `value`, with quotes, backslashes and control characters escaped.
pub fn json_quote(value: &str) -> (r: String)
    ensures
        r@ == quote(value@),
{
    let mut out = String::new();
    push_quoted(&mut out, value);
    out
}

proof fn lemma_escape_char_no_control(c: char)
    ensures
        forall|k: int| 0 <= k < escape_char(c).len() ==> !is_control(#[trigger] escape_char(c)[k]),
        escape_char(c).len() >= 1,
        escape_char(c).len() == 1 <==> !(c == '"' || c == '\\' || is_control(c)),
        !(c == '"' || c == '\\' || is_control(c)) ==> escape_char(c) == seq![c],
{
    if is_control(c) && !(c == '\n' || c == '\r' || c == '\t') {
        let v = c as u32;
        assert(((v / 4096) % 16) < 16 && ((v / 256) % 16) < 16 && ((v / 16) % 16) < 16 && (v % 16) < 16);
    }
}

proof fn lemma_escape_seq_no_control(s: Seq<char>)
    ensures
        forall|k: int| 0 <= k < escape_seq(s).len() ==> !is_control(#[trigger] escape_seq(s)[k]),
        (forall|k: int| 0 <= k < s.len() ==> !(#[trigger] s[k] == '"' || s[k] == '\\' || is_control(s[k])))
            ==> escape_seq(s) == s,
    decreases s.len(),
{
    if s.len() > 0 {
        lemma_escape_seq_no_control(s.drop_last());
        lemma_escape_char_no_control(s.last());
        let a = escape_seq(s.drop_last());
        let b = escape_char(s.last());
        assert forall|k: int| 0 <= k < (a + b).len() implies !is_control(#[trigger] (a + b)[k]) by {
            if k < a.len() {
                assert((a + b)[k] == a[k]);
            } else {
                assert((a + b)[k] == b[k - a.len()]);
            }
        }
        if forall|k: int| 0 <= k < s.len() ==> !(#[trigger] s[k] == '"' || s[k] == '\\' || is_control(s[k])) {
            assert(s.last() == s[s.len() - 1]);
            assert forall|k: int| 0 <= k < s.drop_last().len() implies
                !(#[trigger] s.drop_last()[k] == '"' || s.drop_last()[k] == '\\' || is_control(s.drop_last()[k])) by {
                assert(s.drop_last()[k] == s[k]);
            }
            assert(s.drop_last().push(s.last()) =~= s);
        }
    }
}

/// A JSON string literal starts and ends with a quote and holds no control character;
/// text without quotes, backslashes and control characters stands in it as it is.
pub proof fn lemma_quote_shape(s: Seq<char>)
    ensures
        quote(s).len() >= 2,
        quote(s)[0] == '"',
        quote(s).last() == '"',
        forall|k: int| 0 <= k < quote(s).len() ==> !is_control(#[trigger] quote(s)[k]),
        (forall|k: int| 0 <= k < s.len() ==> !(#[trigger] s[k] == '"' || s[k] == '\\' || is_control(s[k])))
            ==> quote(s) == seq!['"'] + s + seq!['"'],
{
    lemma_escape_seq_no_control(s);
    let e = escape_seq(s);
    let q = quote(s);
    assert forall|k: int| 0 <= k < q.len() implies !is_control(#[trigger] q[k]) by {
        if k == 0 {
        } else if k < e.len() + 1 {
            assert(q[k] == e[k - 1]);
        } else {
            assert(q[k] == '"');
        }
    }
}

/// The value of a hexadecimal digit, of either case.
pub open spec fn hex_digit_value(c: char) -> Option<nat> {
    if '0' <= c && c <= '9' {
        Some((c as nat - 48) as nat)
    } else if 'a' <= c && c <= 'f' {
        Some((c as nat - 87) as nat)
    } else if 'A' <= c && c <= 'F' {
        Some((c as nat - 55) as nat)
    } else {
        None
    }
}

/// The value of four hexadecimal digits.
pub open spec fn hex4_value(t: Seq<char>) -> Option<nat> {
    match (hex_digit_value(t[0]), hex_digit_value(t[1]), hex_digit_value(t[2]), hex_digit_value(t[3])) {
        (Some(a), Some(b), Some(c), Some(d)) => Some(a * 4096 + b * 256 + c * 16 + d),
        _ => None,
    }
}

/// The text that the body `t` of a JSON string literal stands for, as JSON reads it, or
/// `None` where `t` is not a valid body. `\u` escapes of surrogate halves are not read.
pub open spec fn unescape(t: Seq<char>) -> Option<Seq<char>>
    decreases t.len(),
{
    if t.len() == 0 {
        Some(Seq::empty())
    } else if t[0] == '\\' {
        if t.len() < 2 {
            None
        } else {
            let e = t[1];
            let simple: Option<char> = if e == '"' { Some('"') } else if e == '\\' { Some('\\') }
                else if e == '/' { Some('/') } else if e == 'n' { Some('\n') } else if e == 'r' { Some('\r') }
                else if e == 't' { Some('\t') } else if e == 'b' { Some('\x08') } else if e == 'f' { Some('\x0c') }
                else { None };
            match simple {
                Some(c) => match unescape(t.skip(2)) {
                    Some(r) => Some(seq![c] + r),
                    None => None,
                },
                None => if e == 'u' && t.len() >= 6 {
                    match hex4_value(t.subrange(2, 6)) {
                        Some(v) => if v < 0xD800 || (0xE000 <= v && v < 0x10000) {
                            match unescape(t.skip(6)) {
                                Some(r) => Some(seq![v as char] + r),
                                None => None,
                            }
                        } else {
                            None
                        },
                        None => None,
                    }
                } else {
                    None
                },
            }
        }
    } else if t[0] == '"' || (t[0] as u32) < 0x20 {
        None
    } else {
        match unescape(t.skip(1)) {
            Some(r) => Some(seq![t[0]] + r),
            None => None,
        }
    }
}

proof fn lemma_hex_digit_value(d: nat)
    requires
        d < 16,
    ensures
        hex_digit_value(digit_char(d)) == Some(d),
{
}

proof fn lemma_unescape_char(c: char, rest: Seq<char>)
    ensures
        unescape(escape_char(c) + rest) == match unescape(rest) {
            Some(r) => Some(seq![c] + r),
            None => None::<Seq<char>>,
        },
{
    let t = escape_char(c) + rest;
    if c == '"' || c == '\\' || c == '\n' || c == '\r' || c == '\t' {
        assert(t.skip(2) =~= rest);
    } else if is_control(c) {
        let v = c as u32;
        let d1 = ((v / 4096) % 16) as nat;
        let d2 = ((v / 256) % 16) as nat;
        let d3 = ((v / 16) % 16) as nat;
        let d4 = (v % 16) as nat;
        lemma_hex_digit_value(d1);
        lemma_hex_digit_value(d2);
        lemma_hex_digit_value(d3);
        lemma_hex_digit_value(d4);
        assert(t.subrange(2, 6) =~= seq![digit_char(d1), digit_char(d2), digit_char(d3), digit_char(d4)]);
        assert(d1 == 0 && d2 == 0);
        assert(d3 * 16 + d4 == v);
        assert((v as char) == c);
        assert(t.skip(6) =~= rest);
    } else {
        assert(t.skip(1) =~= rest);
    }
}

proof fn lemma_escape_seq_front(s: Seq<char>)
    requires
        s.len() > 0,
    ensures
        escape_seq(s) == escape_char(s[0]) + escape_seq(s.skip(1)),
    decreases s.len(),
{
    if s.len() == 1 {
        assert(s.drop_last() =~= Seq::<char>::empty());
        assert(s.skip(1) =~= Seq::<char>::empty());
        assert(escape_seq(s.skip(1)) =~= Seq::<char>::empty());
        assert(escape_seq(s) =~= escape_char(s[0]));
    } else {
        lemma_escape_seq_front(s.drop_last());
        assert(s.drop_last().skip(1) =~= s.skip(1).drop_last());
        assert(s.skip(1).last() == s.last());
        assert(escape_seq(s) =~= escape_char(s[0]) + escape_seq(s.skip(1)));
    }
}

/// Reading the body of a JSON string literal written by `quote` gives the text back.
pub proof fn lemma_unescape_escape(s: Seq<char>)
    ensures
        unescape(escape_seq(s)) == Some(s),
    decreases s.len(),
{
    if s.len() == 0 {
        assert(escape_seq(s) =~= Seq::<char>::empty());
    } else {
        lemma_escape_seq_front(s);
        lemma_unescape_escape(s.skip(1));
        lemma_unescape_char(s[0], escape_seq(s.skip(1)));
        assert(seq![s[0]] + s.skip(1) =~= s);
    }
}

/// The text of one `"key":value` member.
pub open spec fn member_text(key: Seq<char>, value: Seq<char>) -> Seq<char> {
    quote(key) + seq![':'] + value
}

/// Members joined by commas, in order.
pub open spec fn members_text(members: Seq<(Seq<char>, Seq<char>)>) -> Seq<char>
    decreases members.len(),
{
    if members.len() == 0 {
        Seq::empty()
    } else if members.len() == 1 {
        member_text(members[0].0, members[0].1)
    } else {
        members_text(members.drop_last()) + seq![','] + member_text(members.last().0, members.last().1)
    }
}

/// The JSON object text holding the given members in order.
pub open spec fn object_text(members: Seq<(Seq<char>, Seq<char>)>) -> Seq<char> {
    seq!['{'] + members_text(members) + seq!['}']
}

/// The state of an object under construction after one more member:
/// a comma unless it is the first member, then the member itself.
pub open spec fn push_member(st: (Seq<char>, bool), key: Seq<char>, value: Seq<char>) -> (Seq<char>, bool) {
    (st.0 + (if st.1 { Seq::<char>::empty() } else { seq![','] }) + member_text(key, value), false)
}

/// The state of a fresh object.
pub open spec fn empty_object_state() -> (Seq<char>, bool) {
    (seq!['{'], true)
}

/// The state reached from a fresh object by adding `members` in order.
pub open spec fn members_state(members: Seq<(Seq<char>, Seq<char>)>) -> (Seq<char>, bool)
    decreases members.len(),
{
    if members.len() == 0 {
        empty_object_state()
    } else {
        push_member(members_state(members.drop_last()), members.last().0, members.last().1)
    }
}

/// The text produced by closing an object in state `st`.
pub open spec fn finished_text(st: (Seq<char>, bool)) -> Seq<char> {
    st.0 + seq!['}']
}

/// JSON text of a boolean.
pub open spec fn bool_text(b: bool) -> Seq<char> {
    if b { seq!['t', 'r', 'u', 'e'] } else { seq!['f', 'a', 'l', 's', 'e'] }
}

/// A JSON object under construction; members are written in the order they are added.
pub struct JsonObject {
    out: String,
    first: bool,
}

impl View for JsonObject {
    type V = (Seq<char>, bool);

    closed spec fn view(&self) -> (Seq<char>, bool) {
        (self.out@, self.first)
    }
}

impl JsonObject {
    pub fn new() -> (r: Self)
        ensures
            r@ == empty_object_state(),
    {
        let mut out = String::new();
        out.push('{');
        JsonObject { out, first: true }
    }

    fn push_field_key(&mut self, key: &str)
        ensures
            final(self)@ == (old(self)@.0 + (if old(self)@.1 { Seq::<char>::empty() } else { seq![','] })
                + quote(key@) + seq![':'], false),
    {
        if !self.first {
            self.out.push(',');
        }
        self.first = false;
        push_quoted(&mut self.out, key);
        self.out.push(':');
    }

    /// Adds a member whose value is the JSON string `value`.
    pub fn field_str(&mut self, key: &str, value: &str)
        ensures
            final(self)@ == push_member(old(self)@, key@, quote(value@)),
    {
        self.push_field_key(key);
        push_quoted(&mut self.out, value);
    }

    /// Adds a member whose value is `true` or `false`.
    pub fn field_bool(&mut self, key: &str, value: bool)
        ensures
            final(self)@ == push_member(old(self)@, key@, bool_text(value)),
    {
        self.push_field_key(key);
        if value {
            self.out.push('t');
            self.out.push('r');
            self.out.push('u');
            self.out.push('e');
        } else {
            self.out.push('f');
            self.out.push('a');
            self.out.push('l');
            self.out.push('s');
            self.out.push('e');
        }
    }

    /// Adds a member whose value is the decimal number `value`.
    pub fn field_i64(&mut self, key: &str, value: i64)
        ensures
            final(self)@ == push_member(old(self)@, key@, sdec(value as int)),
    {
        self.push_field_key(key);
        push_i64(&mut self.out, value);
    }

    /// Adds a member whose value is the decimal number `value`.
    pub fn field_u64(&mut self, key: &str, value: u64)
        ensures
            final(self)@ == push_member(old(self)@, key@, dec(value as nat)),
    {
        self.push_field_key(key);
        push_dec(&mut self.out, value as u128);
    }

    /// Adds a member whose value is the text `raw_json`, written as it is.
    pub fn field_raw(&mut self, key: &str, raw_json: &str)
        ensures
            final(self)@ == push_member(old(self)@, key@, raw_json@),
    {
        self.push_field_key(key);
        self.out.append(raw_json);
    }

    /// Closes the object and returns its text.
    pub fn finish(self) -> (r: String)
        ensures
            r@ == finished_text(self@),
    {
        let mut out = self.out;
        out.push('}');
        out
    }
}

/// Building an object: a fresh object, members added one by one, then closed,
/// gives `{`, the members as `"key":value` joined by commas, and `}`.
pub proof fn lemma_object_text(members: Seq<(Seq<char>, Seq<char>)>)
    ensures
        finished_text(members_state(members)) == object_text(members),
        members_state(members).0 == seq!['{'] + members_text(members),
        members_state(members).1 == (members.len() == 0),
    decreases members.len(),
{
    if members.len() > 0 {
        lemma_object_text(members.drop_last());
        assert(members_state(members).0 =~= seq!['{'] + members_text(members));
    }
    assert(finished_text(members_state(members)) =~= object_text(members));
}

} // verus!
