use vstd::prelude::*;
use crate::text::{digit_char, digit_to_char, dec, hex, sdec, push_dec, push_hex, push_i64};
use crate::json::{quote, bool_text, object_text, push_quoted, JsonObject, members_state,
    lemma_object_text};

verus! {

/// The kind of the elements of an array member.
#[derive(PartialEq, Eq, Structural, Clone, Copy, Debug)]
pub enum ElemKind {
    /// `u64`, written as a decimal number.
    U64,
    /// 16-byte UUID, written as a string.
    Uuid,
    /// Counter configuration record (28 bytes), written as an object.
    CounterConfig,
    /// Per-GPU mapping attributes record (36 bytes), written as an object.
    GpuAttributes,
}

/// How one member of a decoded parameter block is read and written.
#[derive(PartialEq, Eq, Structural, Clone, Copy, Debug)]
pub enum FieldKind {
    /// `u64` written as a `"0x..."` string.
    Hex64,
    /// `u32` written as a `"0x..."` string.
    Hex32,
    /// `u64` written as a number.
    U64,
    /// `u32` written as a number.
    U32,
    /// `i32` written as a number.
    I32,
    /// 16-byte UUID written as a string.
    Uuid,
    /// `u8` written as `true` when it is not zero.
    Flag8,
    /// `u32` written as `true` when it is not zero.
    Flag32,
    /// An array whose length is held in a count field, clamped to `max`.
    List { elem: ElemKind, count_at: usize, count_wide: bool, max: usize },
    /// Whether the count field exceeds `max`.
    Truncated { count_at: usize, count_wide: bool, max: usize },
}

/// One member of a decoded parameter block: its key, its kind and its byte offset.
#[derive(Clone, Copy, Debug)]
pub struct FieldDesc {
    pub key: &'static str,
    pub kind: FieldKind,
    pub at: usize,
}

/// The byte at `i`, or zero past the end.
pub open spec fn byte_at(b: Seq<u8>, i: int) -> nat {
    if 0 <= i < b.len() { b[i] as nat } else { 0 }
}

/// The little-endian unsigned value of the `n` bytes from `at`.
pub open spec fn le(b: Seq<u8>, at: int, n: nat) -> nat
    decreases n,
{
    if n == 0 { 0 } else { byte_at(b, at) + 256 * le(b, at + 1, (n - 1) as nat) }
}

pub open spec fn pow256(n: nat) -> nat
    decreases n,
{
    if n == 0 { 1 } else { 256 * pow256((n - 1) as nat) }
}

/// Two's complement reading of a 32-bit value.
pub open spec fn signed32(v: nat) -> int {
    if v >= 0x8000_0000 { v - 0x1_0000_0000 } else { v as int }
}

/// `0x` followed by the lower-case hexadecimal digits of `n`.
pub open spec fn hex0x(n: nat) -> Seq<char> {
    seq!['0', 'x'] + hex(n)
}

/// Two lower-case hexadecimal digits of a byte.
pub open spec fn hex_pair(x: nat) -> Seq<char> {
    seq![digit_char(x / 16), digit_char(x % 16)]
}

/// The first `k` bytes of the UUID at `at`, in the 8-4-4-4-12 grouping.
pub open spec fn uuid_prefix(b: Seq<u8>, at: int, k: nat) -> Seq<char>
    decreases k,
{
    if k == 0 {
        Seq::empty()
    } else {
        let i = k - 1;
        uuid_prefix(b, at, i as nat)
            + (if i == 4 || i == 6 || i == 8 || i == 10 { seq!['-'] } else { Seq::<char>::empty() })
            + hex_pair(byte_at(b, at + i))
    }
}

/// How many of the group separators of a UUID's text come before the digits of byte `i`.
pub open spec fn uuid_dashes_before(i: int) -> int {
    (if i >= 4 { 1int } else { 0 }) + (if i >= 6 { 1int } else { 0 }) + (if i >= 8 { 1int } else { 0 })
        + (if i >= 10 { 1int } else { 0 })
}

/// Where the two digits of byte `i` stand in a UUID's text.
pub open spec fn uuid_digit_pos(i: int) -> int {
    2 * i + uuid_dashes_before(i)
}

/// Whether `c` is a lower-case hexadecimal digit.
pub open spec fn is_hex_lower(c: char) -> bool {
    ('0' <= c && c <= '9') || ('a' <= c && c <= 'f')
}

proof fn lemma_uuid_prefix(b: Seq<u8>, at: int, k: nat)
    requires
        k <= 16,
    ensures
        uuid_prefix(b, at, k).len() == if k == 0 { 0 } else { uuid_digit_pos(k - 1) + 2 },
        forall|i: int| 0 <= i < k ==> {
            &&& #[trigger] uuid_prefix(b, at, k)[uuid_digit_pos(i)] == digit_char(byte_at(b, at + i) / 16)
            &&& uuid_prefix(b, at, k)[uuid_digit_pos(i) + 1] == digit_char(byte_at(b, at + i) % 16)
        },
        forall|i: int| 0 <= i < k && (i == 4 || i == 6 || i == 8 || i == 10)
            ==> #[trigger] uuid_prefix(b, at, k)[uuid_digit_pos(i) - 1] == '-',
    decreases k,
{
    if k > 0 {
        let j = k - 1;
        lemma_uuid_prefix(b, at, j as nat);
        let prev = uuid_prefix(b, at, j as nat);
        let dash = if j == 4 || j == 6 || j == 8 || j == 10 { seq!['-'] } else { Seq::<char>::empty() };
        let cur = uuid_prefix(b, at, k);
        assert(cur == prev + dash + hex_pair(byte_at(b, at + j)));
        assert forall|i: int| 0 <= i < k implies {
            &&& #[trigger] cur[uuid_digit_pos(i)] == digit_char(byte_at(b, at + i) / 16)
            &&& cur[uuid_digit_pos(i) + 1] == digit_char(byte_at(b, at + i) % 16)
        } by {
            if i < j {
                assert(prev[uuid_digit_pos(i)] == digit_char(byte_at(b, at + i) / 16));
            }
        }
        assert forall|i: int| 0 <= i < k && (i == 4 || i == 6 || i == 8 || i == 10)
            implies #[trigger] cur[uuid_digit_pos(i) - 1] == '-' by {
            if i < j {
                assert(prev[uuid_digit_pos(i) - 1] == '-');
            }
        }
    }
}

/// The text of a UUID has 36 characters: lower-case hexadecimal digits, with group
/// separators `-` at 8, 13, 18 and 23. Byte `i` stands as its two digits, high half
/// first, at `uuid_digit_pos(i)`.
pub proof fn lemma_uuid_text_shape(b: Seq<u8>)
    requires
        b.len() == 16,
    ensures
        uuid_text(b, 0).len() == 36,
        forall|k: int| 0 <= k < 36 ==> (#[trigger] uuid_text(b, 0)[k] == '-' <==> (k == 8 || k == 13 || k == 18 || k == 23)),
        forall|k: int| 0 <= k < 36 && !(k == 8 || k == 13 || k == 18 || k == 23) ==> is_hex_lower(#[trigger] uuid_text(b, 0)[k]),
        forall|i: int| 0 <= i < 16 ==> {
            &&& #[trigger] uuid_text(b, 0)[uuid_digit_pos(i)] == digit_char(b[i] as nat / 16)
            &&& uuid_text(b, 0)[uuid_digit_pos(i) + 1] == digit_char(b[i] as nat % 16)
        },
{
    lemma_uuid_prefix(b, 0, 16);
    let t = uuid_text(b, 0);
    assert forall|i: int| 0 <= i < 16 implies is_hex_lower(#[trigger] t[uuid_digit_pos(i)])
        && is_hex_lower(t[uuid_digit_pos(i) + 1]) by {
        assert(t[uuid_digit_pos(i)] == digit_char(byte_at(b, i) / 16));
        assert(t[uuid_digit_pos(i) + 1] == digit_char(byte_at(b, i) % 16));
        assert(byte_at(b, i) / 16 < 16);
    }
    assert forall|k: int| 0 <= k < 36 implies {
        &&& (#[trigger] t[k] == '-' <==> (k == 8 || k == 13 || k == 18 || k == 23))
        &&& (!(k == 8 || k == 13 || k == 18 || k == 23) ==> is_hex_lower(t[k]))
    } by {
        if k == 8 || k == 13 || k == 18 || k == 23 {
            let i = if k == 8 { 4int } else if k == 13 { 6int } else if k == 18 { 8int } else { 10int };
            assert(t[uuid_digit_pos(i) - 1] == '-');
        } else {
            let i = if k < 8 { k / 2 } else if k < 13 { (k - 1) / 2 } else if k < 18 { (k - 2) / 2 }
                else if k < 23 { (k - 3) / 2 } else { (k - 4) / 2 };
            assert(0 <= i < 16);
            assert(k == uuid_digit_pos(i) || k == uuid_digit_pos(i) + 1);
            assert(is_hex_lower(t[uuid_digit_pos(i)]));
            assert(is_hex_lower(t[uuid_digit_pos(i) + 1]));
        }
    }
}

/// Two UUIDs with the same text are the same UUID.
pub proof fn lemma_uuid_text_injective(a: Seq<u8>, b: Seq<u8>)
    requires
        a.len() == 16,
        b.len() == 16,
        uuid_text(a, 0) == uuid_text(b, 0),
    ensures
        a == b,
{
    lemma_uuid_text_shape(a);
    lemma_uuid_text_shape(b);
    assert forall|i: int| 0 <= i < 16 implies a[i] == b[i] by {
        let ta = uuid_text(a, 0);
        assert(ta[uuid_digit_pos(i)] == digit_char(a[i] as nat / 16));
        assert(ta[uuid_digit_pos(i)] == digit_char(b[i] as nat / 16));
        assert(ta[uuid_digit_pos(i) + 1] == digit_char(a[i] as nat % 16));
        assert(ta[uuid_digit_pos(i) + 1] == digit_char(b[i] as nat % 16));
        lemma_digit_char_injective(a[i] as nat / 16, b[i] as nat / 16);
        lemma_digit_char_injective(a[i] as nat % 16, b[i] as nat % 16);
    }
    assert(a =~= b);
}

proof fn lemma_digit_char_injective(x: nat, y: nat)
    requires
        x < 16,
        y < 16,
        digit_char(x) == digit_char(y),
    ensures
        x == y,
{
    assert((digit_char(x) as u32) == (if x < 10 { 48 + x as int } else { 97 + (x - 10) }));
    assert((digit_char(y) as u32) == (if y < 10 { 48 + y as int } else { 97 + (y - 10) }));
}

/// The text of the 16-byte UUID at `at`.
pub open spec fn uuid_text(b: Seq<u8>, at: int) -> Seq<char> {
    uuid_prefix(b, at, 16)
}

/// All bytes as lower-case hexadecimal pairs, without separators.
pub open spec fn hex_bytes_text(b: Seq<u8>) -> Seq<char>
    decreases b.len(),
{
    if b.len() == 0 {
        Seq::empty()
    } else {
        hex_bytes_text(b.drop_last()) + hex_pair(b.last() as nat)
    }
}

pub open spec fn elem_size(e: ElemKind) -> nat {
    match e {
        ElemKind::U64 => 8,
        ElemKind::Uuid => 16,
        ElemKind::CounterConfig => 28,
        ElemKind::GpuAttributes => 36,
    }
}

/// The text of one array element at `at`.
pub open spec fn elem_text(e: ElemKind, b: Seq<u8>, at: int) -> Seq<char> {
    match e {
        ElemKind::U64 => dec(le(b, at, 8)),
        ElemKind::Uuid => quote(uuid_text(b, at)),
        ElemKind::CounterConfig => object_text(seq![
            ("scope"@, dec(le(b, at, 4))),
            ("name"@, dec(le(b, at + 4, 4))),
            ("gpu_uuid"@, quote(uuid_text(b, at + 8))),
            ("state"@, dec(le(b, at + 24, 4))),
        ]),
        ElemKind::GpuAttributes => object_text(seq![
            ("gpu_uuid"@, quote(uuid_text(b, at))),
            ("gpuMappingType"@, dec(le(b, at + 16, 4))),
            ("gpuCachingType"@, dec(le(b, at + 20, 4))),
            ("gpuFormatType"@, dec(le(b, at + 24, 4))),
            ("gpuElementBits"@, dec(le(b, at + 28, 4))),
            ("gpuCompressionType"@, dec(le(b, at + 32, 4))),
        ]),
    }
}

/// The first `k` elements of the array at `at`, joined by commas.
pub open spec fn items_text(e: ElemKind, b: Seq<u8>, at: int, k: nat) -> Seq<char>
    decreases k,
{
    if k == 0 {
        Seq::empty()
    } else if k == 1 {
        elem_text(e, b, at)
    } else {
        items_text(e, b, at, (k - 1) as nat) + seq![','] + elem_text(e, b, at + (k - 1) * elem_size(e))
    }
}

/// The value of a count field.
pub open spec fn count_value(b: Seq<u8>, count_at: int, wide: bool) -> nat {
    le(b, count_at, if wide { 8 } else { 4 })
}

/// A count clamped to `max`.
pub open spec fn clamped(count: nat, max: nat) -> nat {
    if count > max { max } else { count }
}

/// The JSON text of one member's value.
pub open spec fn value_text(d: FieldDesc, b: Seq<u8>) -> Seq<char> {
    let at = d.at as int;
    match d.kind {
        FieldKind::Hex64 => quote(hex0x(le(b, at, 8))),
        FieldKind::Hex32 => quote(hex0x(le(b, at, 4))),
        FieldKind::U64 => dec(le(b, at, 8)),
        FieldKind::U32 => dec(le(b, at, 4)),
        FieldKind::I32 => sdec(signed32(le(b, at, 4))),
        FieldKind::Uuid => quote(uuid_text(b, at)),
        FieldKind::Flag8 => bool_text(byte_at(b, at) != 0),
        FieldKind::Flag32 => bool_text(le(b, at, 4) != 0),
        FieldKind::List { elem, count_at, count_wide, max } => seq!['['] + items_text(
            elem,
            b,
            at,
            clamped(count_value(b, count_at as int, count_wide), max as nat),
        ) + seq![']'],
        FieldKind::Truncated { count_at, count_wide, max } => bool_text(
            count_value(b, count_at as int, count_wide) > max,
        ),
    }
}

/// The members written for a parameter block laid out as `layout`.
pub open spec fn layout_members(layout: Seq<FieldDesc>, b: Seq<u8>) -> Seq<(Seq<char>, Seq<char>)> {
    layout.map_values(|d: FieldDesc| (d.key@, value_text(d, b)))
}

pub fn get_byte(b: &[u8], i: u128) -> (r: u8)
    ensures
        r as nat == byte_at(b@, i as int),
{
    if i < b.len() as u128 {
        b[i as usize]
    } else {
        0
    }
}

proof fn lemma_le_bound(b: Seq<u8>, at: int, n: nat)
    ensures
        le(b, at, n) < pow256(n),
    decreases n,
{
    if n > 0 {
        lemma_le_bound(b, at + 1, (n - 1) as nat);
    }
}

proof fn lemma_pow256_mono(m: nat, n: nat)
    requires
        m <= n,
    ensures
        pow256(m) <= pow256(n),
    decreases n,
{
    if m < n {
        lemma_pow256_mono(m, (n - 1) as nat);
    }
}

/// Reads the little-endian value of the `n` bytes from `at`.
pub fn read_le(b: &[u8], at: u128, n: u8) -> (r: u64)
    requires
        n <= 8,
        at + n <= u128::MAX,
    ensures
        r as nat == le(b@, at as int, n as nat),
    decreases n,
{
    if n == 0 {
        0
    } else {
        let rest = read_le(b, at + 1, n - 1);
        proof {
            lemma_le_bound(b@, at + 1, (n - 1) as nat);
            lemma_pow256_mono((n - 1) as nat, 7);
            reveal_with_fuel(pow256, 8);
        }
        get_byte(b, at) as u64 + 256 * rest
    }
}

fn read_i32(b: &[u8], at: u128) -> (r: i64)
    requires
        at + 4 <= u128::MAX,
    ensures
        r as int == signed32(le(b@, at as int, 4)),
{
    let v = read_le(b, at, 4);
    proof {
        lemma_le_bound(b@, at as int, 4);
        reveal_with_fuel(pow256, 5);
    }
    if v >= 0x8000_0000 {
        v as i64 - 0x1_0000_0000
    } else {
        v as i64
    }
}

/// A hexadecimal digit, or `?` for a value above fifteen.
pub fn hex_nibble(nibble: u8) -> (c: char)
    ensures
        nibble < 16 ==> c == digit_char(nibble as nat),
        nibble >= 16 ==> c == '?',
{
    if nibble < 16 {
        digit_to_char(nibble)
    } else {
        '?'
    }
}

fn push_hex_pair(out: &mut String, x: u8)
    ensures
        final(out)@ == old(out)@ + hex_pair(x as nat),
{
    out.push(hex_nibble(x / 16));
    out.push(hex_nibble(x % 16));
}

/// Appends the text of the 16-byte UUID at `at`.
pub fn push_uuid(out: &mut String, b: &[u8], at: u128)
    requires
        at + 16 <= u128::MAX,
    ensures
        final(out)@ == old(out)@ + uuid_text(b@, at as int),
{
    let ghost start = out@;
    let mut k: u128 = 0;
    while k < 16
        invariant
            k <= 16,
            at + 16 <= u128::MAX,
            out@ == start + uuid_prefix(b@, at as int, k as nat),
        decreases 16 - k,
    {
        if k == 4 || k == 6 || k == 8 || k == 10 {
            out.push('-');
        }
        push_hex_pair(out, get_byte(b, at + k));
        k = k + 1;
    }
}

/// The text of a 16-byte UUID: lower-case hexadecimal in the 8-4-4-4-12 grouping.
pub fn format_uuid(uuid: &[u8; 16]) -> (r: String)
    ensures
        r@ == uuid_text(uuid@, 0),
{
    let mut out = String::new();
    push_uuid(&mut out, uuid.as_slice(), 0);
    out
}

/// Appends all bytes as lower-case hexadecimal pairs.
pub fn push_hex_bytes(out: &mut String, b: &[u8])
    ensures
        final(out)@ == old(out)@ + hex_bytes_text(b@),
{
    let ghost start = out@;
    let mut i: usize = 0;
    while i < b.len()
        invariant
            i <= b.len(),
            out@ == start + hex_bytes_text(b@.take(i as int)),
        decreases b.len() - i,
    {
        proof {
            assert(b@.take(i + 1).drop_last() =~= b@.take(i as int));
        }
        push_hex_pair(out, b[i]);
        i = i + 1;
    }
    proof {
        assert(b@.take(b.len() as int) =~= b@);
    }
}

fn elem_size_of(e: ElemKind) -> (r: u128)
    ensures
        r as nat == elem_size(e),
{
    match e {
        ElemKind::U64 => 8,
        ElemKind::Uuid => 16,
        ElemKind::CounterConfig => 28,
        ElemKind::GpuAttributes => 36,
    }
}

fn hex0x_string(v: u64) -> (r: String)
    ensures
        r@ == hex0x(v as nat),
{
    let mut s = String::new();
    s.push('0');
    s.push('x');
    push_hex(&mut s, v as u128);
    s
}

fn uuid_string(b: &[u8], at: u128) -> (r: String)
    requires
        at + 16 <= u128::MAX,
    ensures
        r@ == uuid_text(b@, at as int),
{
    let mut s = String::new();
    push_uuid(&mut s, b, at);
    s
}

fn counter_config_text(b: &[u8], at: u128) -> (r: String)
    requires
        at + 64 <= u128::MAX,
    ensures
        r@ == elem_text(ElemKind::CounterConfig, b@, at as int),
{
    let ghost m = seq![
        ("scope"@, dec(le(b@, at as int, 4))),
        ("name"@, dec(le(b@, at + 4, 4))),
        ("gpu_uuid"@, quote(uuid_text(b@, at + 8))),
        ("state"@, dec(le(b@, at + 24, 4))),
    ];
    let mut obj = JsonObject::new();
    obj.field_u64("scope", read_le(b, at, 4));
    assert(m.take(1).drop_last() =~= Seq::<(Seq<char>, Seq<char>)>::empty());
    assert(members_state(Seq::<(Seq<char>, Seq<char>)>::empty()) == crate::json::empty_object_state());
    assert(obj@ == members_state(m.take(1)));
    obj.field_u64("name", read_le(b, at + 4, 4));
    assert(m.take(2).drop_last() =~= m.take(1));
    assert(obj@ == members_state(m.take(2)));
    let u = uuid_string(b, at + 8);
    obj.field_str("gpu_uuid", u.as_str());
    assert(m.take(3).drop_last() =~= m.take(2));
    assert(obj@ == members_state(m.take(3)));
    obj.field_u64("state", read_le(b, at + 24, 4));
    assert(m.take(4).drop_last() =~= m.take(3));
    assert(m.take(4) =~= m);
    proof {
        lemma_object_text(m);
    }
    obj.finish()
}

fn gpu_attributes_text(b: &[u8], at: u128) -> (r: String)
    requires
        at + 64 <= u128::MAX,
    ensures
        r@ == elem_text(ElemKind::GpuAttributes, b@, at as int),
{
    let ghost m = seq![
        ("gpu_uuid"@, quote(uuid_text(b@, at as int))),
        ("gpuMappingType"@, dec(le(b@, at + 16, 4))),
        ("gpuCachingType"@, dec(le(b@, at + 20, 4))),
        ("gpuFormatType"@, dec(le(b@, at + 24, 4))),
        ("gpuElementBits"@, dec(le(b@, at + 28, 4))),
        ("gpuCompressionType"@, dec(le(b@, at + 32, 4))),
    ];
    let mut obj = JsonObject::new();
    let u = uuid_string(b, at);
    obj.field_str("gpu_uuid", u.as_str());
    assert(m.take(1).drop_last() =~= Seq::<(Seq<char>, Seq<char>)>::empty());
    assert(members_state(Seq::<(Seq<char>, Seq<char>)>::empty()) == crate::json::empty_object_state());
    assert(obj@ == members_state(m.take(1)));
    obj.field_u64("gpuMappingType", read_le(b, at + 16, 4));
    assert(m.take(2).drop_last() =~= m.take(1));
    assert(obj@ == members_state(m.take(2)));
    obj.field_u64("gpuCachingType", read_le(b, at + 20, 4));
    assert(m.take(3).drop_last() =~= m.take(2));
    assert(obj@ == members_state(m.take(3)));
    obj.field_u64("gpuFormatType", read_le(b, at + 24, 4));
    assert(m.take(4).drop_last() =~= m.take(3));
    assert(obj@ == members_state(m.take(4)));
    obj.field_u64("gpuElementBits", read_le(b, at + 28, 4));
    assert(m.take(5).drop_last() =~= m.take(4));
    assert(obj@ == members_state(m.take(5)));
    obj.field_u64("gpuCompressionType", read_le(b, at + 32, 4));
    assert(m.take(6).drop_last() =~= m.take(5));
    assert(obj@ == members_state(m.take(6)));
    assert(m.take(6) =~= m);
    proof {
        lemma_object_text(m);
    }
    obj.finish()
}

fn push_elem(out: &mut String, e: ElemKind, b: &[u8], at: u128)
    requires
        at + 64 <= u128::MAX,
    ensures
        final(out)@ == old(out)@ + elem_text(e, b@, at as int),
{
    match e {
        ElemKind::U64 => {
            let v = read_le(b, at, 8);
            push_dec(out, v as u128);
        },
        ElemKind::Uuid => {
            let u = uuid_string(b, at);
            push_quoted(out, u.as_str());
        },
        ElemKind::CounterConfig => {
            let t = counter_config_text(b, at);
            out.append(t.as_str());
        },
        ElemKind::GpuAttributes => {
            let t = gpu_attributes_text(b, at);
            out.append(t.as_str());
        },
    }
}

fn read_count(b: &[u8], count_at: usize, wide: bool) -> (r: u64)
    ensures
        r as nat == count_value(b@, count_at as int, wide),
{
    if wide {
        read_le(b, count_at as u128, 8)
    } else {
        read_le(b, count_at as u128, 4)
    }
}

/// A count clamped to `max`, and whether it was over `max`.
pub fn clamp_count(count: u64, max: usize) -> (r: (usize, bool))
    ensures
        r.0 as nat == clamped(count as nat, max as nat),
        r.1 == (count > max),
{
    if count as u128 > max as u128 {
        (max, true)
    } else {
        (count as usize, false)
    }
}

fn push_items(out: &mut String, e: ElemKind, b: &[u8], at: usize, k: usize)
    ensures
        final(out)@ == old(out)@ + items_text(e, b@, at as int, k as nat),
{
    let ghost start = out@;
    let size = elem_size_of(e);
    let mut i: usize = 0;
    while i < k
        invariant
            i <= k,
            size as nat == elem_size(e),
            out@ == start + items_text(e, b@, at as int, i as nat),
        decreases k - i,
    {
        if i > 0 {
            out.push(',');
        }
        assert((i as u128) * size <= 0xffff_ffff_ffff_ffff * 36) by (nonlinear_arith)
            requires
                i <= 0xffff_ffff_ffff_ffff,
                size <= 36,
        ;
        let off = at as u128 + (i as u128) * size;
        push_elem(out, e, b, off);
        i = i + 1;
    }
}

/// Appends the JSON text of one member's value.
pub fn push_value(out: &mut String, d: FieldDesc, b: &[u8])
    ensures
        final(out)@ == old(out)@ + value_text(d, b@),
{
    let at = d.at as u128;
    match d.kind {
        FieldKind::Hex64 => {
            let s = hex0x_string(read_le(b, at, 8));
            push_quoted(out, s.as_str());
        },
        FieldKind::Hex32 => {
            let s = hex0x_string(read_le(b, at, 4));
            push_quoted(out, s.as_str());
        },
        FieldKind::U64 => {
            push_dec(out, read_le(b, at, 8) as u128);
        },
        FieldKind::U32 => {
            push_dec(out, read_le(b, at, 4) as u128);
        },
        FieldKind::I32 => {
            push_i64(out, read_i32(b, at));
        },
        FieldKind::Uuid => {
            let u = uuid_string(b, at);
            push_quoted(out, u.as_str());
        },
        FieldKind::Flag8 => {
            push_bool(out, get_byte(b, at) != 0);
        },
        FieldKind::Flag32 => {
            push_bool(out, read_le(b, at, 4) != 0);
        },
        FieldKind::List { elem, count_at, count_wide, max } => {
            let (k, _) = clamp_count(read_count(b, count_at, count_wide), max);
            out.push('[');
            push_items(out, elem, b, d.at, k);
            out.push(']');
        },
        FieldKind::Truncated { count_at, count_wide, max } => {
            let (_, truncated) = clamp_count(read_count(b, count_at, count_wide), max);
            push_bool(out, truncated);
        },
    }
}

fn push_bool(out: &mut String, v: bool)
    ensures
        final(out)@ == old(out)@ + bool_text(v),
{
    if v {
        out.push('t');
        out.push('r');
        out.push('u');
        out.push('e');
    } else {
        out.push('f');
        out.push('a');
        out.push('l');
        out.push('s');
        out.push('e');
    }
}

/// Adds the members of a parameter block laid out as `layout` to `obj`, in order.
pub(crate) fn push_layout_members(
    obj: &mut JsonObject,
    layout: &Vec<FieldDesc>,
    b: &[u8],
    Ghost(prior): Ghost<Seq<(Seq<char>, Seq<char>)>>,
)
    requires
        old(obj)@ == members_state(prior),
    ensures
        final(obj)@ == members_state(prior + layout_members(layout@, b@)),
{
    let mut i: usize = 0;
    while i < layout.len()
        invariant
            i <= layout.len(),
            obj@ == members_state(prior + layout_members(layout@.take(i as int), b@)),
        decreases layout.len() - i,
    {
        let d = layout[i];
        let mut v = String::new();
        push_value(&mut v, d, b);
        obj.field_raw(d.key, v.as_str());
        proof {
            let lhs = prior + layout_members(layout@.take(i + 1), b@);
            assert(lhs.drop_last() =~= prior + layout_members(layout@.take(i as int), b@));
            assert(lhs.last() == (d.key@, value_text(d, b@)));
        }
        i = i + 1;
    }
    assert(layout@.take(layout.len() as int) =~= layout@);
}

} // verus!
