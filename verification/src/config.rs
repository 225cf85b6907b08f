use vstd::prelude::*;
use crate::text::{has_token, contains_token, str_eq, join_commas, comma_free, lemma_token_of_comma_list, dec, digit_char};

verus! {

/// How much of an intercepted ioctl is decoded.
#[derive(PartialEq, Eq, Structural, Clone, Copy, Debug)]
pub enum IoctlDecodeMode {
    Full,
    Header,
    Off,
}

/// The unit in which timestamps and durations are written.
#[derive(PartialEq, Eq, Structural, Clone, Copy, Debug)]
pub enum TimeUnit {
    Us,
    Ns,
}

/// What the left-hand prefix of a trace line holds.
#[derive(PartialEq, Eq, Structural, Clone, Copy, Debug)]
pub enum LeftMetaMode {
    Off,
    Tid,
    Timestamp,
    TidTimestamp,
}

impl LeftMetaMode {
    pub open spec fn spec_include_tid(self) -> bool {
        self == LeftMetaMode::Tid || self == LeftMetaMode::TidTimestamp
    }

    pub open spec fn spec_include_timestamp(self) -> bool {
        self == LeftMetaMode::Timestamp || self == LeftMetaMode::TidTimestamp
    }

    /// Whether the prefix holds the thread id.
    #[verifier::when_used_as_spec(spec_include_tid)]
    pub fn include_tid(self) -> (r: bool)
        ensures
            r == self.spec_include_tid(),
    {
        match self {
            LeftMetaMode::Tid | LeftMetaMode::TidTimestamp => true,
            _ => false,
        }
    }

    /// Whether the prefix holds the timestamp.
    #[verifier::when_used_as_spec(spec_include_timestamp)]
    pub fn include_timestamp(self) -> (r: bool)
        ensures
            r == self.spec_include_timestamp(),
    {
        match self {
            LeftMetaMode::Timestamp | LeftMetaMode::TidTimestamp => true,
            _ => false,
        }
    }
}

/// Where trace lines are written.
#[derive(PartialEq, Eq, Structural, Clone, Copy, Debug)]
pub enum OutputMode {
    File,
    Stdout,
}

/// The family of an intercepted call.
#[derive(PartialEq, Eq, Structural, Clone, Copy, Debug)]
pub enum TraceDomain {
    Cudart,
    Driver,
    Syscall,
}

/// Which families of calls are traced.
#[derive(Clone, Copy, Debug)]
pub struct TraceMask {
    pub cudart: bool,
    pub driver: bool,
    pub syscall: bool,
}

impl TraceMask {
    /// Whether calls of `domain` are traced.
    pub open spec fn spec_enabled(self, domain: TraceDomain) -> bool {
        match domain {
            TraceDomain::Cudart => self.cudart,
            TraceDomain::Driver => self.driver,
            TraceDomain::Syscall => self.syscall,
        }
    }

    /// Whether calls of `domain` are traced.
    pub fn enabled(&self, domain: TraceDomain) -> (r: bool)
        ensures
            r == self.spec_enabled(domain),
    {
        match domain {
            TraceDomain::Cudart => self.cudart,
            TraceDomain::Driver => self.driver,
            TraceDomain::Syscall => self.syscall,
        }
    }
}

/// The value of a setting, or `None` where it is not set.
pub open spec fn opt_view(v: Option<&str>) -> Option<Seq<char>> {
    match v {
        Some(s) => Some(s@),
        None => None,
    }
}

/// `LIB_CUDATRACE_TRACE`: `all` (the default) or a comma-separated list of `cudart`, `driver`, `syscall`.
pub open spec fn trace_mask_of(v: Option<Seq<char>>) -> TraceMask {
    match v {
        None => TraceMask { cudart: true, driver: true, syscall: true },
        Some(s) => if s == "all"@ {
            TraceMask { cudart: true, driver: true, syscall: true }
        } else {
            TraceMask {
                cudart: has_token(s, "cudart"@, true),
                driver: has_token(s, "driver"@, true),
                syscall: has_token(s, "syscall"@, true),
            }
        },
    }
}

pub fn parse_trace_mask(v: Option<&str>) -> (r: TraceMask)
    ensures
        r == trace_mask_of(opt_view(v)),
{
    match v {
        None => TraceMask { cudart: true, driver: true, syscall: true },
        Some(s) => if str_eq(s, "all") {
            TraceMask { cudart: true, driver: true, syscall: true }
        } else {
            TraceMask {
                cudart: contains_token(s, "cudart", true),
                driver: contains_token(s, "driver", true),
                syscall: contains_token(s, "syscall", true),
            }
        },
    }
}

/// `LIB_CUDATRACE_OUTPUT`: `stdout`, or `file` (the default).
pub open spec fn output_mode_of(v: Option<Seq<char>>) -> OutputMode {
    if v == Some("stdout"@) { OutputMode::Stdout } else { OutputMode::File }
}

pub fn parse_output_mode(v: Option<&str>) -> (r: OutputMode)
    ensures
        r == output_mode_of(opt_view(v)),
{
    match v {
        Some(s) => if str_eq(s, "stdout") { OutputMode::Stdout } else { OutputMode::File },
        None => OutputMode::File,
    }
}

/// `LIB_CUDATRACE_IOCTL_DECODE`: `header`, `off`, or `full` (the default).
pub open spec fn ioctl_decode_of(v: Option<Seq<char>>) -> IoctlDecodeMode {
    if v == Some("header"@) {
        IoctlDecodeMode::Header
    } else if v == Some("off"@) {
        IoctlDecodeMode::Off
    } else {
        IoctlDecodeMode::Full
    }
}

pub fn parse_ioctl_decode(v: Option<&str>) -> (r: IoctlDecodeMode)
    ensures
        r == ioctl_decode_of(opt_view(v)),
{
    match v {
        Some(s) => if str_eq(s, "header") {
            IoctlDecodeMode::Header
        } else if str_eq(s, "off") {
            IoctlDecodeMode::Off
        } else {
            IoctlDecodeMode::Full
        },
        None => IoctlDecodeMode::Full,
    }
}

/// `LIB_CUDATRACE_TIME_UNIT`: `ns`, or `us` (the default).
pub open spec fn time_unit_of(v: Option<Seq<char>>) -> TimeUnit {
    if v == Some("ns"@) { TimeUnit::Ns } else { TimeUnit::Us }
}

pub fn parse_time_unit(v: Option<&str>) -> (r: TimeUnit)
    ensures
        r == time_unit_of(opt_view(v)),
{
    match v {
        Some(s) => if str_eq(s, "ns") { TimeUnit::Ns } else { TimeUnit::Us },
        None => TimeUnit::Us,
    }
}

/// `LIB_CUDATRACE_LEFT_META`: `off` (the default), or the items `tid` and `ts` (or `timestamp`),
/// separated by a comma.
pub open spec fn left_meta_of(v: Option<Seq<char>>) -> LeftMetaMode {
    match v {
        None => LeftMetaMode::Off,
        Some(s) => {
            let tid = has_token(s, "tid"@, true);
            let ts = has_token(s, "ts"@, true) || has_token(s, "timestamp"@, true);
            if tid && ts {
                LeftMetaMode::TidTimestamp
            } else if tid {
                LeftMetaMode::Tid
            } else if ts {
                LeftMetaMode::Timestamp
            } else {
                LeftMetaMode::Off
            }
        },
    }
}

pub fn parse_left_meta(v: Option<&str>) -> (r: LeftMetaMode)
    ensures
        r == left_meta_of(opt_view(v)),
{
    match v {
        None => LeftMetaMode::Off,
        Some(s) => {
            let tid = contains_token(s, "tid", true);
            let ts = contains_token(s, "ts", true) || contains_token(s, "timestamp", true);
            if tid && ts {
                LeftMetaMode::TidTimestamp
            } else if tid {
                LeftMetaMode::Tid
            } else if ts {
                LeftMetaMode::Timestamp
            } else {
                LeftMetaMode::Off
            }
        },
    }
}

/// `LIB_CUDATRACE_PTRACE_DEBUG`: on for `1`, `true`, `yes` or `on`.
pub open spec fn flag_of(v: Option<Seq<char>>) -> bool {
    v == Some("1"@) || v == Some("true"@) || v == Some("yes"@) || v == Some("on"@)
}

pub fn parse_flag(v: Option<&str>) -> (r: bool)
    ensures
        r == flag_of(opt_view(v)),
{
    match v {
        Some(s) => str_eq(s, "1") || str_eq(s, "true") || str_eq(s, "yes") || str_eq(s, "on"),
        None => false,
    }
}

/// The value of a decimal digit character.
pub open spec fn digit_value(c: char) -> int {
    (c as u32) - 48
}

pub open spec fn is_digit(c: char) -> bool {
    48 <= (c as u32) && (c as u32) <= 57
}

/// The number written by the decimal digits `s`.
pub open spec fn dec_value(s: Seq<char>) -> nat
    decreases s.len(),
{
    if s.len() == 0 { 0 } else { (dec_value(s.drop_last()) * 10 + digit_value(s.last())) as nat }
}

/// `LIB_CUDATRACE_MAX_BLOB`: a decimal number of bytes, `256` by default or where the value
/// is not a number that fits.
pub open spec fn max_blob_of(v: Option<Seq<char>>) -> nat {
    match v {
        Some(s) => if s.len() > 0 && (forall|i: int| 0 <= i < s.len() ==> is_digit(#[trigger] s[i]))
            && dec_value(s) <= usize::MAX {
            dec_value(s)
        } else {
            256
        },
        None => 256,
    }
}

proof fn lemma_dec_value_mono(s: Seq<char>, i: int)
    requires
        0 <= i <= s.len(),
        forall|j: int| 0 <= j < s.len() ==> is_digit(#[trigger] s[j]),
    ensures
        dec_value(s.take(i)) <= dec_value(s),
    decreases s.len() - i,
{
    if i < s.len() {
        lemma_dec_value_mono(s, i + 1);
        assert(s.take(i + 1).drop_last() =~= s.take(i));
    } else {
        assert(s.take(i) =~= s);
    }
}

pub fn parse_max_blob(v: Option<&str>) -> (r: usize)
    ensures
        r as nat == max_blob_of(opt_view(v)),
{
    match v {
        None => 256,
        Some(s) => {
            let n = s.unicode_len();
            if n == 0 {
                return 256;
            }
            let mut acc: usize = 0;
            let mut i: usize = 0;
            while i < n
                invariant
                    opt_view(v) == Some(s@),
                    n == s@.len(),
                    i <= n,
                    acc as nat == dec_value(s@.take(i as int)),
                    forall|j: int| 0 <= j < i ==> is_digit(#[trigger] s@[j]),
                decreases n - i,
            {
                let c = s.get_char(i);
                let cv = c as u32;
                if cv < 48 || cv > 57 {
                    assert(!is_digit(s@[i as int]));
                    assert(!(forall|j: int| 0 <= j < s@.len() ==> is_digit(#[trigger] s@[j])));
                    assert(max_blob_of(opt_view(v)) == 256);
                    return 256;
                }
                let d = (cv - 48) as usize;
                assert(s@.take(i + 1).drop_last() =~= s@.take(i as int));
                if acc > (usize::MAX - d) / 10 {
                    proof {
                        assert(dec_value(s@.take(i + 1)) > usize::MAX) by (nonlinear_arith)
                            requires
                                acc > (usize::MAX - d) / 10,
                                dec_value(s@.take(i + 1)) == acc * 10 + d,
                                d <= 9,
                        ;
                        if forall|j: int| 0 <= j < n ==> is_digit(#[trigger] s@[j]) {
                            lemma_dec_value_mono(s@, i + 1);
                            assert(dec_value(s@) > usize::MAX);
                        }
                        assert(max_blob_of(opt_view(v)) == 256);
                    }
                    return 256;
                }
                acc = acc * 10 + d;
                i = i + 1;
            }
            assert(s@.take(n as int) =~= s@);
            acc
        },
    }
}

/// The settings of a tracing run.
pub struct Config {
    pub output: OutputMode,
    pub path: String,
    pub trace: TraceMask,
    pub ioctl_decode: IoctlDecodeMode,
    pub max_blob: usize,
    pub time_unit: TimeUnit,
    pub left_meta: LeftMetaMode,
    pub ptrace_debug: bool,
}

impl Config {
    /// The settings given by the values of the `LIB_CUDATRACE_*` variables, each `None` where unset.
    pub fn from_values(
        output: Option<&str>,
        path: Option<&str>,
        trace: Option<&str>,
        ioctl_decode: Option<&str>,
        max_blob: Option<&str>,
        time_unit: Option<&str>,
        left_meta: Option<&str>,
        ptrace_debug: Option<&str>,
    ) -> (r: Self)
        ensures
            r.output == output_mode_of(opt_view(output)),
            r.path@ == match path { Some(p) => p@, None => "./cudatrace.output"@ },
            r.trace == trace_mask_of(opt_view(trace)),
            r.ioctl_decode == ioctl_decode_of(opt_view(ioctl_decode)),
            r.max_blob as nat == max_blob_of(opt_view(max_blob)),
            r.time_unit == time_unit_of(opt_view(time_unit)),
            r.left_meta == left_meta_of(opt_view(left_meta)),
            r.ptrace_debug == flag_of(opt_view(ptrace_debug)),
    {
        let mut p = String::new();
        match path {
            Some(x) => p.append(x),
            None => p.append("./cudatrace.output"),
        }
        Config {
            output: parse_output_mode(output),
            path: p,
            trace: parse_trace_mask(trace),
            ioctl_decode: parse_ioctl_decode(ioctl_decode),
            max_blob: parse_max_blob(max_blob),
            time_unit: parse_time_unit(time_unit),
            left_meta: parse_left_meta(left_meta),
            ptrace_debug: parse_flag(ptrace_debug),
        }
    }

    /// Whether calls of `domain` are traced.
    pub fn trace_enabled(&self, domain: TraceDomain) -> (r: bool)
        ensures
            r == self.trace.spec_enabled(domain),
    {
        self.trace.enabled(domain)
    }
}


proof fn lemma_word_comma_free(w: &str)
    requires
        w@ == "cudart"@ || w@ == "driver"@ || w@ == "syscall"@ || w@ == "tid"@ || w@ == "ts"@
            || w@ == "timestamp"@,
    ensures
        comma_free(w@),
        w@.len() > 0,
{
    reveal_strlit("cudart");
    reveal_strlit("driver");
    reveal_strlit("syscall");
    reveal_strlit("tid");
    reveal_strlit("ts");
    reveal_strlit("timestamp");
    assert forall|k: int| 0 <= k < w@.len() implies #[trigger] w@[k] != ',' by {
        if w@ == "cudart"@ {
            assert(w@ =~= seq!['c', 'u', 'd', 'a', 'r', 't']);
        } else if w@ == "driver"@ {
            assert(w@ =~= seq!['d', 'r', 'i', 'v', 'e', 'r']);
        } else if w@ == "syscall"@ {
            assert(w@ =~= seq!['s', 'y', 's', 'c', 'a', 'l', 'l']);
        } else if w@ == "tid"@ {
            assert(w@ =~= seq!['t', 'i', 'd']);
        } else if w@ == "ts"@ {
            assert(w@ =~= seq!['t', 's']);
        } else {
            assert(w@ =~= seq!['t', 'i', 'm', 'e', 's', 't', 'a', 'm', 'p']);
        }
    }
}

/// `LIB_CUDATRACE_TRACE` set to a comma-separated list (other than `all`) traces exactly
/// the families named in the list: each of `cudart`, `driver` and `syscall` is traced
/// when, and only when, it is one of the list's items.
pub proof fn lemma_trace_mask_of_list(items: Seq<Seq<char>>)
    requires
        items.len() > 0,
        forall|i: int| 0 <= i < items.len() ==> comma_free(#[trigger] items[i]),
        join_commas(items) != "all"@,
    ensures
        trace_mask_of(Some(join_commas(items))).cudart == items.contains("cudart"@),
        trace_mask_of(Some(join_commas(items))).driver == items.contains("driver"@),
        trace_mask_of(Some(join_commas(items))).syscall == items.contains("syscall"@),
{
    lemma_word_comma_free("cudart");
    lemma_word_comma_free("driver");
    lemma_word_comma_free("syscall");
    lemma_token_of_comma_list(items, "cudart"@);
    lemma_token_of_comma_list(items, "driver"@);
    lemma_token_of_comma_list(items, "syscall"@);
}


/// `LIB_CUDATRACE_LEFT_META` set to a comma-separated list puts the thread id in the
/// prefix exactly when `tid` is an item, and the timestamp exactly when `ts` or
/// `timestamp` is one.
pub proof fn lemma_left_meta_of_list(items: Seq<Seq<char>>)
    requires
        items.len() > 0,
        forall|i: int| 0 <= i < items.len() ==> comma_free(#[trigger] items[i]),
    ensures
        ({
            let tid = items.contains("tid"@);
            let ts = items.contains("ts"@) || items.contains("timestamp"@);
            left_meta_of(Some(join_commas(items))) == if tid && ts {
                LeftMetaMode::TidTimestamp
            } else if tid {
                LeftMetaMode::Tid
            } else if ts {
                LeftMetaMode::Timestamp
            } else {
                LeftMetaMode::Off
            }
        }),
{
    lemma_word_comma_free("tid");
    lemma_word_comma_free("ts");
    lemma_word_comma_free("timestamp");
    lemma_token_of_comma_list(items, "tid"@);
    lemma_token_of_comma_list(items, "ts"@);
    lemma_token_of_comma_list(items, "timestamp"@);
}


/// With no variable set, a run writes per-thread files under `./cudatrace.output`, traces
/// every family of calls, decodes ioctls fully with blobs of up to 256 bytes, measures in
/// microseconds, writes no left prefix and no tracer debug output; `all` traces every family.
pub proof fn lemma_defaults()
    ensures
        output_mode_of(None) == OutputMode::File,
        trace_mask_of(None) == (TraceMask { cudart: true, driver: true, syscall: true }),
        trace_mask_of(Some("all"@)) == (TraceMask { cudart: true, driver: true, syscall: true }),
        ioctl_decode_of(None) == IoctlDecodeMode::Full,
        max_blob_of(None) == 256,
        time_unit_of(None) == TimeUnit::Us,
        left_meta_of(None) == LeftMetaMode::Off,
        !flag_of(None),
{
}

proof fn lemma_dec_digits(n: nat)
    ensures
        dec(n).len() > 0,
        forall|i: int| 0 <= i < dec(n).len() ==> is_digit(#[trigger] dec(n)[i]),
        dec_value(dec(n)) == n,
    decreases n,
{
    if n < 10 {
        assert(dec(n) == seq![digit_char(n)]);
        assert(dec(n).drop_last() =~= Seq::<char>::empty());
        assert((digit_char(n) as u32) == 48 + n);
        assert(dec_value(dec(n)) == dec_value(Seq::<char>::empty()) * 10 + digit_value(digit_char(n)));
    } else {
        lemma_dec_digits(n / 10);
        let d = (n % 10) as nat;
        assert((digit_char(d) as u32) == 48 + d);
        assert(dec(n).drop_last() =~= dec(n / 10));
        assert(dec(n).last() == digit_char(d));
        assert((n / 10) * 10 + n % 10 == n) by (nonlinear_arith);
        assert(dec_value(dec(n)) == dec_value(dec(n / 10)) * 10 + digit_value(digit_char(d)));
        assert forall|i: int| 0 <= i < dec(n).len() implies is_digit(#[trigger] dec(n)[i]) by {
            if i < dec(n).len() - 1 {
                assert(dec(n)[i] == dec(n / 10)[i]);
            }
        }
    }
}

/// A blob limit written in decimal is read back as the same number, wherever it fits.
pub proof fn lemma_max_blob_reads_decimal(n: nat)
    requires
        n <= usize::MAX,
    ensures
        max_blob_of(Some(dec(n))) == n,
{
    lemma_dec_digits(n);
}

} // verus!
