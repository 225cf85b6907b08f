use vstd::prelude::*;
use crate::config::OutputMode;
use crate::text::{sdec, push_i64};
use vstd::string::StringSliceAdditionalSpecFns;

verus! {

/// Where trace lines go.
pub enum LoggerTarget {
    Stdout,
    /// One file per thread, named after `base_path` and the thread id.
    ThreadFiles { base_path: String },
}

/// The logger's settings, taken from the configuration.
pub struct LoggerSettings {
    pub target: LoggerTarget,
}

impl LoggerSettings {
    /// Standard output, or one file per thread under the configured path.
    pub fn from_config(output: OutputMode, path: &str) -> (r: Self)
        ensures
            output == OutputMode::Stdout ==> r.target is Stdout,
            output == OutputMode::File ==> (r.target matches LoggerTarget::ThreadFiles { base_path } && base_path@ == path@),
    {
        match output {
            OutputMode::Stdout => LoggerSettings { target: LoggerTarget::Stdout },
            OutputMode::File => {
                let mut base_path = String::new();
                base_path.append(path);
                LoggerSettings { target: LoggerTarget::ThreadFiles { base_path } }
            },
        }
    }
}

/// The path of one thread's output file: `<base_path>.tid-<tid>`.
pub open spec fn thread_path(base_path: Seq<char>, tid: int) -> Seq<char> {
    base_path + seq!['.', 't', 'i', 'd', '-'] + sdec(tid)
}

/// The path of one thread's output file: `<base_path>.tid-<tid>`.
pub fn thread_output_path(base_path: &str, tid: i64) -> (r: String)
    ensures
        r@ == thread_path(base_path@, tid as int),
{
    let mut out = String::new();
    out.append(base_path);
    out.push('.');
    out.push('t');
    out.push('i');
    out.push('d');
    out.push('-');
    push_i64(&mut out, tid);
    assert(out@ =~= thread_path(base_path@, tid as int));
    out
}

/// The error number of an interrupted system call.
pub const EINTR: i32 = 4;

/// What to do after one `write` of the remaining bytes.
#[derive(PartialEq, Eq, Structural, Clone, Copy, Debug)]
pub enum WriteProgress {
    /// Write again what is left, which starts `n` bytes further on.
    Advance(usize),
    /// The call was interrupted: write the same bytes again.
    Retry,
    /// The write failed.
    Failed,
}

/// The decision after `write` returned `written` (and the error number `errno` when it
/// returned a negative value) for `remaining` bytes.
pub fn write_progress(remaining: usize, written: isize, errno: i32) -> (r: WriteProgress)
    requires
        written < 0 || written as int <= remaining as int,
    ensures
        written < 0 && errno == EINTR ==> r == WriteProgress::Retry,
        written < 0 && errno != EINTR ==> r == WriteProgress::Failed,
        written >= 0 ==> r == WriteProgress::Advance(written as usize),
{
    if written < 0 {
        if errno == EINTR { WriteProgress::Retry } else { WriteProgress::Failed }
    } else {
        WriteProgress::Advance(written as usize)
    }
}

/// The bytes written for one trace line: its UTF-8 bytes and a newline.
pub fn line_bytes(line: &str) -> (r: Vec<u8>)
    ensures
        r@ == line.spec_bytes().push(10u8),
{
    let b = line.as_bytes();
    let mut v: Vec<u8> = Vec::new();
    let mut i: usize = 0;
    while i < b.len()
        invariant
            i <= b.len(),
            b@ == line.spec_bytes(),
            v@ == b@.take(i as int),
        decreases b.len() - i,
    {
        v.push(b[i]);
        i = i + 1;
        assert(v@ =~= b@.take(i as int));
    }
    assert(b@.take(b.len() as int) =~= b@);
    v.push(10u8);
    v
}

/// Where the next trace line of a thread goes.
pub enum LogAction {
    /// To standard output, under the process-wide lock.
    Stdout,
    /// To the thread's open file.
    ThreadFile(i32),
    /// Open the thread's file at `path` first (falling back to standard output if that fails).
    OpenThreadFile { path: String },
}

/// Where the next trace line of thread `tid` goes, given the settings and the thread's
/// open file, if any.
pub fn log_action(settings: &LoggerSettings, sink: Option<i32>, tid: i64) -> (r: LogAction)
    ensures
        settings.target is Stdout ==> r is Stdout,
        settings.target is ThreadFiles ==> match sink {
            Some(fd) => r == LogAction::ThreadFile(fd),
            None => (r matches LogAction::OpenThreadFile { path }
                && path@ == thread_path(settings.target->base_path@, tid as int)),
        },
{
    match &settings.target {
        LoggerTarget::Stdout => LogAction::Stdout,
        LoggerTarget::ThreadFiles { base_path } => match sink {
            Some(fd) => LogAction::ThreadFile(fd),
            None => LogAction::OpenThreadFile { path: thread_output_path(base_path.as_str(), tid) },
        },
    }
}

} // verus!
