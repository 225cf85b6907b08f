use vstd::prelude::*;
use crate::config::{LeftMetaMode, TimeUnit};
use crate::text::{dec, sdec, push_dec, push_i64};

verus! {

/// The name of a time unit: `us` or `ns`.
pub open spec fn unit_text(unit: TimeUnit) -> Seq<char> {
    match unit {
        TimeUnit::Us => seq!['u', 's'],
        TimeUnit::Ns => seq!['n', 's'],
    }
}

/// The name of a time unit.
pub fn unit_name(unit: TimeUnit) -> (r: &'static str)
    ensures
        r@ == unit_text(unit),
{
    match unit {
        TimeUnit::Us => {
            proof { reveal_strlit("us"); }
            "us"
        },
        TimeUnit::Ns => {
            proof { reveal_strlit("ns"); }
            "ns"
        },
    }
}

/// A duration in nanoseconds expressed in `unit`, rounded down.
pub open spec fn in_unit(nanos: nat, unit: TimeUnit) -> nat {
    match unit {
        TimeUnit::Ns => nanos,
        TimeUnit::Us => nanos / 1000,
    }
}

/// A time since the Unix epoch, given in nanoseconds, in the configured unit.
pub fn timestamp_in_unit(nanos: u128, unit: TimeUnit) -> (r: u128)
    ensures
        r as nat == in_unit(nanos as nat, unit),
{
    match unit {
        TimeUnit::Ns => nanos,
        TimeUnit::Us => nanos / 1000,
    }
}

/// The `tid=...` and `ts=...` parts, separated by a space, before the separator.
pub open spec fn meta_fields(tid: i32, timestamp: u128, meta: LeftMetaMode, unit: TimeUnit) -> Seq<char> {
    let t = if meta.spec_include_tid() { seq!['t', 'i', 'd', '='] + sdec(tid as int) } else { Seq::<char>::empty() };
    if meta.spec_include_timestamp() {
        t + (if t.len() > 0 { seq![' '] } else { Seq::<char>::empty() })
            + seq!['t', 's', '='] + dec(timestamp as nat) + unit_text(unit)
    } else {
        t
    }
}

/// The left prefix of a trace line: the fields followed by `  |  `, or nothing.
pub open spec fn left_meta_prefix(tid: i32, timestamp: u128, meta: LeftMetaMode, unit: TimeUnit) -> Seq<char> {
    let f = meta_fields(tid, timestamp, meta, unit);
    if f.len() == 0 { f } else { f + seq![' ', ' ', '|', ' ', ' '] }
}

fn push_str_chars(out: &mut String, s: &str)
    ensures
        final(out)@ == old(out)@ + s@,
{
    out.append(s);
}

/// The left prefix of a trace line for the given thread id and timestamp.
pub fn format_left_meta_prefix(tid: i32, timestamp: u128, meta: LeftMetaMode, unit: TimeUnit) -> (r: String)
    ensures
        r@ == left_meta_prefix(tid, timestamp, meta, unit),
{
    let mut out = String::new();
    if meta.include_tid() {
        out.push('t');
        out.push('i');
        out.push('d');
        out.push('=');
        push_i64(&mut out, tid as i64);
    }
    let ghost t = out@;
    if meta.include_timestamp() {
        if out.as_str().unicode_len() > 0 {
            out.push(' ');
        }
        out.push('t');
        out.push('s');
        out.push('=');
        push_dec(&mut out, timestamp);
        push_str_chars(&mut out, unit_name(unit));
    }
    proof {
        if meta.spec_include_timestamp() {
            assert(out@ =~= meta_fields(tid, timestamp, meta, unit));
        }
    }
    if out.as_str().unicode_len() == 0 {
        String::new()
    } else {
        out.push(' ');
        out.push(' ');
        out.push('|');
        out.push(' ');
        out.push(' ');
        out
    }
}

/// `line` with the left prefix in front of it.
pub fn prepend_left_meta(line: &str, tid: i32, timestamp: u128, meta: LeftMetaMode, unit: TimeUnit) -> (r: String)
    ensures
        r@ == left_meta_prefix(tid, timestamp, meta, unit) + line@,
{
    let mut out = format_left_meta_prefix(tid, timestamp, meta, unit);
    out.append(line);
    out
}

/// With the left meta switched off a line is written as it is; otherwise the prefix
/// ends with the separator `  |  `.
pub proof fn lemma_left_meta_prefix_shape(tid: i32, timestamp: u128, meta: LeftMetaMode, unit: TimeUnit)
    ensures
        meta == LeftMetaMode::Off ==> left_meta_prefix(tid, timestamp, meta, unit) == Seq::<char>::empty(),
        meta != LeftMetaMode::Off ==> ({
            let p = left_meta_prefix(tid, timestamp, meta, unit);
            &&& p.len() >= 5
            &&& p.subrange(p.len() - 5, p.len() as int) == seq![' ', ' ', '|', ' ', ' ']
        }),
{
    let f = meta_fields(tid, timestamp, meta, unit);
    if meta != LeftMetaMode::Off {
        if meta.spec_include_tid() {
            assert(f.len() > 0) by {
                reveal_with_fuel(crate::text::dec, 2);
            }
        } else {
            assert(f.len() > 0);
        }
        let p = left_meta_prefix(tid, timestamp, meta, unit);
        assert(p.subrange(p.len() - 5, p.len() as int) =~= seq![' ', ' ', '|', ' ', ' ']);
    }
}

} // verus!
