use vstd::prelude::*;
use crate::text::{dec, sdec, push_dec, push_i64, has_token, contains_token};

verus! {

/// Whether the kernel's list of available tracers offers `function_graph`.
pub fn tracers_support_function_graph(available: &str) -> (r: bool)
    ensures
        r == has_token(available@, "function_graph"@, false),
{
    contains_token(available, "function_graph", false)
}

/// The bytes written to a control file: the value, or a single newline for an empty value.
pub open spec fn payload(value: Seq<char>) -> Seq<char> {
    if value.len() == 0 { seq!['\n'] } else { value }
}

/// The text written to a control file: the value, or a single newline for an empty value.
pub fn control_payload(value: &str) -> (r: String)
    ensures
        r@ == payload(value@),
{
    let mut out = String::new();
    if value.unicode_len() == 0 {
        out.push('\n');
    } else {
        out.append(value);
    }
    out
}

/// One step of driving the kernel's function-graph tracer.
pub enum ControlStep {
    /// Write `value` to the control file `file`; a failure ends the sequence with an error.
    Write { file: &'static str, value: String },
    /// Set the graph function filter as far as the kernel allows it: clear it, then
    /// set it to the function if there is one; failures are passed over.
    GraphFunction { function: Option<String> },
    /// Read the trace buffer.
    ReadTrace,
}

/// A control step, as values.
pub enum StepView {
    Write(Seq<char>, Seq<char>),
    GraphFunction(Option<Seq<char>>),
    ReadTrace,
}

impl View for ControlStep {
    type V = StepView;

    open spec fn view(&self) -> StepView {
        match self {
            ControlStep::Write { file, value } => StepView::Write(file@, value@),
            ControlStep::GraphFunction { function } => StepView::GraphFunction(
                match function { Some(f) => Some(f@), None => None },
            ),
            ControlStep::ReadTrace => StepView::ReadTrace,
        }
    }
}

pub open spec fn steps_view(steps: Seq<ControlStep>) -> Seq<StepView> {
    steps.map_values(|s: ControlStep| s@)
}

pub open spec fn w(file: Seq<char>, value: Seq<char>) -> StepView {
    StepView::Write(file, value)
}

fn write_step(file: &'static str, value: &str) -> (r: ControlStep)
    ensures
        r@ == w(file@, value@),
{
    let mut v = String::new();
    v.append(value);
    ControlStep::Write { file, value: v }
}

fn opt_string(s: Option<&str>) -> (r: Option<String>)
    ensures
        match r { Some(v) => s is Some && v@ == s.unwrap()@, None => s is None },
{
    match s {
        Some(x) => {
            let mut v = String::new();
            v.append(x);
            Some(v)
        },
        None => None,
    }
}

/// The steps that start a capture of the thread `tid`.
pub open spec fn begin_capture_plan(tid: i32, graph_function: Option<Seq<char>>) -> Seq<StepView> {
    seq![
        w("tracing_on"@, "0"@),
        w("set_ftrace_pid"@, ""@),
        w("set_ftrace_pid"@, sdec(tid as int)),
        StepView::GraphFunction(graph_function),
        w("current_tracer"@, "function_graph"@),
        w("trace"@, ""@),
        w("tracing_on"@, "1"@),
    ]
}

/// The steps that start a capture of the thread `tid`: stop tracing, filter on the
/// thread, set the graph function, select the function-graph tracer, clear the buffer
/// and start tracing.
pub fn begin_capture_steps(tid: i32, graph_function: Option<&str>) -> (r: Vec<ControlStep>)
    ensures
        steps_view(r@) == begin_capture_plan(tid, match graph_function { Some(g) => Some(g@), None => None }),
{
    let mut pid = String::new();
    push_i64(&mut pid, tid as i64);
    let r = vec![
        write_step("tracing_on", "0"),
        write_step("set_ftrace_pid", ""),
        write_step("set_ftrace_pid", pid.as_str()),
        ControlStep::GraphFunction { function: opt_string(graph_function) },
        write_step("current_tracer", "function_graph"),
        write_step("trace", ""),
        write_step("tracing_on", "1"),
    ];
    assert(steps_view(r@) =~= begin_capture_plan(tid, match graph_function { Some(g) => Some(g@), None => None }));
    r
}

/// The steps that end a capture and read its result.
pub open spec fn end_capture_plan() -> Seq<StepView> {
    seq![
        w("tracing_on"@, "0"@),
        StepView::ReadTrace,
        w("trace"@, ""@),
        StepView::GraphFunction(None),
        w("set_ftrace_pid"@, ""@),
    ]
}

/// The steps that end a capture: stop tracing, read the buffer, clear it, clear the
/// graph function and the thread filter.
pub fn end_capture_steps() -> (r: Vec<ControlStep>)
    ensures
        steps_view(r@) == end_capture_plan(),
{
    let r = vec![
        write_step("tracing_on", "0"),
        ControlStep::ReadTrace,
        write_step("trace", ""),
        ControlStep::GraphFunction { function: None },
        write_step("set_ftrace_pid", ""),
    ];
    assert(steps_view(r@) =~= end_capture_plan());
    r
}

/// The steps that bring the tracer back to rest.
pub open spec fn reset_plan() -> Seq<StepView> {
    seq![
        w("tracing_on"@, "0"@),
        StepView::GraphFunction(None),
        w("set_ftrace_pid"@, ""@),
        w("current_tracer"@, "nop"@),
        w("trace"@, ""@),
    ]
}

/// The steps that bring the tracer back to rest: stop tracing, clear the graph
/// function and the thread filter, select no tracer and clear the buffer.
pub fn reset_steps() -> (r: Vec<ControlStep>)
    ensures
        steps_view(r@) == reset_plan(),
{
    let r = vec![
        write_step("tracing_on", "0"),
        ControlStep::GraphFunction { function: None },
        write_step("set_ftrace_pid", ""),
        write_step("current_tracer", "nop"),
        write_step("trace", ""),
    ];
    assert(steps_view(r@) =~= reset_plan());
    r
}

/// The writes that check up front that the control files can be written.
pub open spec fn access_check_plan() -> Seq<StepView> {
    seq![
        w("tracing_on"@, "0"@),
        w("set_ftrace_pid"@, ""@),
        w("current_tracer"@, "nop"@),
        w("trace"@, ""@),
    ]
}

/// The writes that check up front that the control files can be written.
pub fn access_check_steps() -> (r: Vec<ControlStep>)
    ensures
        steps_view(r@) == access_check_plan(),
{
    let r = vec![
        write_step("tracing_on", "0"),
        write_step("set_ftrace_pid", ""),
        write_step("current_tracer", "nop"),
        write_step("trace", ""),
    ];
    assert(steps_view(r@) =~= access_check_plan());
    r
}

/// The control files that must exist under the tracing root.
pub open spec fn required_files() -> Seq<Seq<char>> {
    seq![
        "available_tracers"@,
        "current_tracer"@,
        "set_ftrace_pid"@,
        "trace"@,
        "tracing_on"@,
        "buffer_size_kb"@,
    ]
}

/// The control files that must exist under the tracing root.
pub fn required_tracefs_files() -> (r: Vec<&'static str>)
    ensures
        r@.map_values(|f: &'static str| f@) == required_files(),
{
    let r = vec![
        "available_tracers",
        "current_tracer",
        "set_ftrace_pid",
        "trace",
        "tracing_on",
        "buffer_size_kb",
    ];
    assert(r@.map_values(|f: &'static str| f@) =~= required_files());
    r
}

/// The step that sets the per-CPU buffer size, in kilobytes.
pub fn runtime_config_step(buffer_kb: u64) -> (r: ControlStep)
    ensures
        r@ == w("buffer_size_kb"@, dec(buffer_kb as nat)),
{
    let mut v = String::new();
    push_dec(&mut v, buffer_kb as u128);
    ControlStep::Write { file: "buffer_size_kb", value: v }
}

/// The directories where the kernel's tracing file system may be mounted, in the order tried.
pub open spec fn tracefs_roots() -> Seq<Seq<char>> {
    seq!["/sys/kernel/tracing"@, "/sys/kernel/debug/tracing"@]
}

/// The directories where the kernel's tracing file system may be mounted, in the order tried.
pub fn tracefs_root_candidates() -> (r: Vec<&'static str>)
    ensures
        r@.map_values(|f: &'static str| f@) == tracefs_roots(),
{
    let r = vec!["/sys/kernel/tracing", "/sys/kernel/debug/tracing"];
    assert(r@.map_values(|f: &'static str| f@) =~= tracefs_roots());
    r
}

/// What carrying out one control step gave.
pub enum StepResult {
    /// The step was carried out.
    Done,
    /// The step failed, with this message.
    Failed(String),
    /// The step read the trace buffer, which held this text.
    Read(String),
}

/// What carrying out one control step gave, as values.
pub enum StepResultView {
    Done,
    Failed(Seq<char>),
    Read(Seq<char>),
}

impl View for StepResult {
    type V = StepResultView;

    open spec fn view(&self) -> StepResultView {
        match self {
            StepResult::Done => StepResultView::Done,
            StepResult::Failed(m) => StepResultView::Failed(m@),
            StepResult::Read(t) => StepResultView::Read(t@),
        }
    }
}

pub open spec fn results_view(results: Seq<StepResult>) -> Seq<StepResultView> {
    results.map_values(|r: StepResult| r@)
}

/// What to do next while carrying out a sequence of control steps.
pub enum RunDecision {
    /// Carry out the step at this index.
    Perform(usize),
    /// Stop: the sequence failed with this error, or succeeded with what was read, if anything.
    Finish(Result<Option<String>, String>),
}

/// What to do next, as values.
pub enum RunDecisionView {
    Perform(nat),
    Finish(Result<Option<Seq<char>>, Seq<char>>),
}

impl View for RunDecision {
    type V = RunDecisionView;

    open spec fn view(&self) -> RunDecisionView {
        match self {
            RunDecision::Perform(i) => RunDecisionView::Perform(*i as nat),
            RunDecision::Finish(Ok(Some(t))) => RunDecisionView::Finish(Ok(Some(t@))),
            RunDecision::Finish(Ok(None)) => RunDecisionView::Finish(Ok(None)),
            RunDecision::Finish(Err(e)) => RunDecisionView::Finish(Err(e@)),
        }
    }
}

/// Whether a failure of the step ends the sequence: every step but setting the graph
/// function, which is only attempted.
pub open spec fn mandatory(step: StepView) -> bool {
    !(step is GraphFunction)
}

/// The error of the first of the first `n` steps whose failure ends the sequence.
pub open spec fn first_error(steps: Seq<StepView>, results: Seq<StepResultView>, n: int) -> Option<Seq<char>>
    decreases n,
{
    if n <= 0 {
        None
    } else {
        match first_error(steps, results, n - 1) {
            Some(e) => Some(e),
            None => match results[n - 1] {
                StepResultView::Failed(m) => if mandatory(steps[n - 1]) { Some(m) } else { None },
                _ => None,
            },
        }
    }
}

/// The text read by the last of the first `n` steps that read the trace buffer.
pub open spec fn last_read(results: Seq<StepResultView>, n: int) -> Option<Seq<char>>
    decreases n,
{
    if n <= 0 {
        None
    } else {
        match results[n - 1] {
            StepResultView::Read(t) => Some(t),
            _ => last_read(results, n - 1),
        }
    }
}

/// What to do after the steps so far gave `results`, in order: stop with the error of the
/// first step whose failure ends the sequence; else carry out the next step; else, with
/// every step carried out, stop with success and the text read, if any.
pub open spec fn run_decision(steps: Seq<StepView>, results: Seq<StepResultView>) -> RunDecisionView {
    match first_error(steps, results, results.len() as int) {
        Some(e) => RunDecisionView::Finish(Err(e)),
        None => if results.len() < steps.len() {
            RunDecisionView::Perform(results.len())
        } else {
            RunDecisionView::Finish(Ok(last_read(results, results.len() as int)))
        },
    }
}

proof fn lemma_first_error_stays(steps: Seq<StepView>, results: Seq<StepResultView>, n: int, m: int)
    requires
        0 <= n <= m,
        first_error(steps, results, n) is Some,
    ensures
        first_error(steps, results, m) == first_error(steps, results, n),
    decreases m,
{
    if m > n {
        lemma_first_error_stays(steps, results, n, m - 1);
    }
}

fn copy_string(s: &String) -> (r: String)
    ensures
        r@ == s@,
{
    let mut r = String::new();
    r.append(s.as_str());
    r
}

/// What to do next while carrying out `steps`, once the first `results.len()` of them
/// gave `results`.
pub fn next_run_decision(steps: &[ControlStep], results: &[StepResult]) -> (r: RunDecision)
    requires
        results.len() <= steps.len(),
    ensures
        r@ == run_decision(steps_view(steps@), results_view(results@)),
{
    let ghost sv = steps_view(steps@);
    let ghost rv = results_view(results@);
    let mut i: usize = 0;
    let mut read: Option<String> = None;
    while i < results.len()
        invariant
            i <= results.len() <= steps.len(),
            sv == steps_view(steps@),
            rv == results_view(results@),
            first_error(sv, rv, i as int) is None,
            match last_read(rv, i as int) {
                Some(t) => read matches Some(x) && x@ == t,
                None => read is None,
            },
        decreases results.len() - i,
    {
        assert(rv[i as int] == results[i as int]@);
        assert(sv[i as int] == steps[i as int]@);
        match &results[i] {
            StepResult::Failed(m) => {
                let is_graph = match &steps[i] {
                    ControlStep::GraphFunction { .. } => true,
                    _ => false,
                };
                if !is_graph {
                    proof {
                        lemma_first_error_stays(sv, rv, i + 1, results.len() as int);
                    }
                    return RunDecision::Finish(Err(copy_string(m)));
                }
            },
            StepResult::Read(t) => {
                read = Some(copy_string(t));
            },
            StepResult::Done => {},
        }
        i += 1;
    }
    if results.len() < steps.len() {
        RunDecision::Perform(results.len())
    } else {
        match read {
            Some(t) => RunDecision::Finish(Ok(Some(t))),
            None => RunDecision::Finish(Ok(None)),
        }
    }
}

/// Once a step whose failure ends the sequence has failed, the sequence ends with that
/// step's error, whatever the later steps would have given: no later step is carried out.
pub proof fn lemma_failure_ends_run(steps: Seq<StepView>, results: Seq<StepResultView>, more: Seq<StepResultView>, i: int)
    requires
        0 <= i < results.len(),
        forall|j: int| 0 <= j < i ==> !(#[trigger] results[j] is Failed && mandatory(steps[j])),
        results[i] is Failed,
        mandatory(steps[i]),
    ensures
        run_decision(steps, results + more) == RunDecisionView::Finish(Err(results[i]->Failed_0)),
{
    let all = results + more;
    lemma_no_error_before(steps, all, i);
    assert(all[i] == results[i]);
    assert(first_error(steps, all, i + 1) == Some(results[i]->Failed_0));
    lemma_first_error_stays(steps, all, i + 1, all.len() as int);
}

proof fn lemma_no_error_before(steps: Seq<StepView>, results: Seq<StepResultView>, n: int)
    requires
        0 <= n <= results.len(),
        forall|j: int| 0 <= j < n ==> !(#[trigger] results[j] is Failed && mandatory(steps[j])),
    ensures
        first_error(steps, results, n) is None,
    decreases n,
{
    if n > 0 {
        lemma_no_error_before(steps, results, n - 1);
    }
}

proof fn lemma_error_is_a_failure(steps: Seq<StepView>, results: Seq<StepResultView>, n: int)
    requires
        0 <= n <= results.len(),
        first_error(steps, results, n) is None,
    ensures
        forall|j: int| 0 <= j < n ==> !(#[trigger] results[j] is Failed && mandatory(steps[j])),
    decreases n,
{
    if n > 0 {
        lemma_error_is_a_failure(steps, results, n - 1);
    }
}

/// A sequence goes on, one step after another, only while no step whose failure ends it
/// has failed; it ends in success only once every step was carried out with no such failure.
pub proof fn lemma_run_goes_on_only_without_failure(steps: Seq<StepView>, results: Seq<StepResultView>)
    requires
        results.len() <= steps.len(),
    ensures
        run_decision(steps, results) is Finish && run_decision(steps, results)->Finish_0 is Ok
            ==> results.len() == steps.len(),
        !(run_decision(steps, results) is Finish && run_decision(steps, results)->Finish_0 is Err) ==> {
            &&& forall|j: int| 0 <= j < results.len() ==> !(#[trigger] results[j] is Failed && mandatory(steps[j]))
        },
        run_decision(steps, results) is Perform ==> run_decision(steps, results)->Perform_0 == results.len(),
{
    if first_error(steps, results, results.len() as int) is None {
        lemma_error_is_a_failure(steps, results, results.len() as int);
    }
}

/// The contents of the control files after a sequence of steps all succeeded, from
/// `files`. Setting the graph function touches its control file only where it exists.
pub open spec fn apply_step(files: Map<Seq<char>, Seq<char>>, step: StepView) -> Map<Seq<char>, Seq<char>> {
    match step {
        StepView::Write(f, v) => files.insert(f, payload(v)),
        StepView::GraphFunction(g) => if files.dom().contains("set_graph_function"@) {
            files.insert("set_graph_function"@, match g { Some(x) => payload(x), None => payload(Seq::empty()) })
        } else {
            files
        },
        StepView::ReadTrace => files,
    }
}

/// The contents of the control files after every step of `plan` succeeded, from `files`.
pub open spec fn apply_plan(files: Map<Seq<char>, Seq<char>>, plan: Seq<StepView>) -> Map<Seq<char>, Seq<char>>
    decreases plan.len(),
{
    if plan.len() == 0 {
        files
    } else {
        apply_step(apply_plan(files, plan.drop_last()), plan.last())
    }
}

/// Bringing the tracer to rest leaves tracing off, no thread filter, no tracer selected,
/// the buffer cleared and the graph function (where it exists) cleared; doing it again
/// changes nothing.
pub proof fn lemma_reset_is_idempotent(files: Map<Seq<char>, Seq<char>>)
    ensures
        ({
            let once = apply_plan(files, reset_plan());
            &&& once["tracing_on"@] == "0"@
            &&& once["set_ftrace_pid"@] == seq!['\n']
            &&& once["current_tracer"@] == "nop"@
            &&& once["trace"@] == seq!['\n']
            &&& files.dom().contains("set_graph_function"@) ==> once["set_graph_function"@] == seq!['\n']
            &&& apply_plan(once, reset_plan()) == once
        }),
{
    reveal_strlit("tracing_on");
    reveal_strlit("set_ftrace_pid");
    reveal_strlit("current_tracer");
    reveal_strlit("trace");
    reveal_strlit("set_graph_function");
    reveal_strlit("0");
    reveal_strlit("nop");
    let p = reset_plan();
    assert(p.drop_last().drop_last().drop_last().drop_last().drop_last() =~= Seq::<StepView>::empty());
    reveal_strlit("");
    let p4 = p.drop_last();
    let p3 = p4.drop_last();
    let p2 = p3.drop_last();
    let p1 = p2.drop_last();
    assert(p1 =~= seq![w("tracing_on"@, "0"@)]);
    assert(p1.drop_last() =~= Seq::<StepView>::empty());
    assert forall|m: Map<Seq<char>, Seq<char>>| #[trigger] apply_plan(m, p) == reset_contents(m) by {
        assert(apply_plan(m, p1.drop_last()) == m);
        let m1 = apply_plan(m, p1);
        assert(m1 == m.insert("tracing_on"@, "0"@));
        let m2 = apply_plan(m, p2);
        assert(m2 == apply_step(m1, StepView::GraphFunction(None)));
        let m3 = apply_plan(m, p3);
        assert(m3 == m2.insert("set_ftrace_pid"@, seq!['\n']));
        let m4 = apply_plan(m, p4);
        assert(m4 == m3.insert("current_tracer"@, "nop"@));
        assert(apply_plan(m, p) == m4.insert("trace"@, seq!['\n']));
    }
    let keys = seq!["tracing_on"@, "set_graph_function"@, "set_ftrace_pid"@, "current_tracer"@, "trace"@];
    assert forall|i: int, j: int| 0 <= i < j < 5 implies keys[i] != keys[j] by {
        assert(keys[i][0] != keys[j][0] || keys[i].len() != keys[j].len() || keys[i][4] != keys[j][4]);
    }
    let once = apply_plan(files, p);
    assert(once == reset_contents(files));
    assert(keys[0] != keys[4] && keys[2] != keys[3] && keys[2] != keys[4] && keys[3] != keys[4]);
    assert(keys[1] != keys[2] && keys[1] != keys[3] && keys[1] != keys[4] && keys[0] != keys[1]);
    assert(once["tracing_on"@] == "0"@);
    assert(reset_contents(once) =~= once);
}

proof fn lemma_apply_push(m: Map<Seq<char>, Seq<char>>, a: Seq<StepView>, st: StepView)
    ensures
        apply_plan(m, a.push(st)) == apply_step(apply_plan(m, a), st),
{
    assert(a.push(st).drop_last() =~= a);
}

proof fn lemma_control_keys_distinct()
    ensures
        "tracing_on"@ != "set_ftrace_pid"@,
        "tracing_on"@ != "current_tracer"@,
        "tracing_on"@ != "trace"@,
        "tracing_on"@ != "set_graph_function"@,
        "set_ftrace_pid"@ != "current_tracer"@,
        "set_ftrace_pid"@ != "trace"@,
        "set_ftrace_pid"@ != "set_graph_function"@,
        "current_tracer"@ != "trace"@,
        "current_tracer"@ != "set_graph_function"@,
        "trace"@ != "set_graph_function"@,
{
    reveal_strlit("tracing_on");
    reveal_strlit("set_ftrace_pid");
    reveal_strlit("current_tracer");
    reveal_strlit("trace");
    reveal_strlit("set_graph_function");
    assert("tracing_on"@.len() == 10 && "set_ftrace_pid"@.len() == 14 && "current_tracer"@.len() == 14);
    assert("trace"@.len() == 5 && "set_graph_function"@.len() == 18);
    assert("set_ftrace_pid"@[0] != "current_tracer"@[0]);
}

proof fn lemma_dec_not_empty(v: int)
    ensures
        sdec(v).len() > 0,
{
    let n: nat = if v < 0 { (-v) as nat } else { v as nat };
    assert(dec(n).len() > 0);
}

/// Starting a capture stops tracing first and starts it again only with its last write;
/// once every write succeeded, the thread filter holds the thread id, the function-graph
/// tracer is selected, the buffer is cleared, the graph function (where it exists) is the
/// one asked for, and tracing is on.
pub proof fn lemma_begin_capture_effect(files: Map<Seq<char>, Seq<char>>, tid: i32, g: Option<Seq<char>>)
    ensures
        ({
            let plan = begin_capture_plan(tid, g);
            let after = apply_plan(files, plan);
            &&& plan[0] == w("tracing_on"@, "0"@)
            &&& plan.last() == w("tracing_on"@, "1"@)
            &&& forall|i: int| 0 < i < plan.len() - 1 ==> !(#[trigger] plan[i] matches StepView::Write(f, _) && f == "tracing_on"@)
            &&& after["tracing_on"@] == "1"@
            &&& after["set_ftrace_pid"@] == sdec(tid as int)
            &&& after["current_tracer"@] == "function_graph"@
            &&& after["trace"@] == seq!['\n']
            &&& files.dom().contains("set_graph_function"@) ==> after["set_graph_function"@] == match g {
                Some(x) => payload(x),
                None => seq!['\n'],
            }
        }),
{
    lemma_control_keys_distinct();
    lemma_dec_not_empty(tid as int);
    reveal_strlit("");
    reveal_strlit("1");
    reveal_strlit("function_graph");
    let plan = begin_capture_plan(tid, g);
    let s0 = w("tracing_on"@, "0"@);
    let s1 = w("set_ftrace_pid"@, ""@);
    let s2 = w("set_ftrace_pid"@, sdec(tid as int));
    let s3 = StepView::GraphFunction(g);
    let s4 = w("current_tracer"@, "function_graph"@);
    let s5 = w("trace"@, ""@);
    let s6 = w("tracing_on"@, "1"@);
    let e = Seq::<StepView>::empty();
    assert(plan =~= e.push(s0).push(s1).push(s2).push(s3).push(s4).push(s5).push(s6));
    lemma_apply_push(files, e, s0);
    lemma_apply_push(files, e.push(s0), s1);
    lemma_apply_push(files, e.push(s0).push(s1), s2);
    lemma_apply_push(files, e.push(s0).push(s1).push(s2), s3);
    lemma_apply_push(files, e.push(s0).push(s1).push(s2).push(s3), s4);
    lemma_apply_push(files, e.push(s0).push(s1).push(s2).push(s3).push(s4), s5);
    lemma_apply_push(files, e.push(s0).push(s1).push(s2).push(s3).push(s4).push(s5), s6);
    assert(apply_plan(files, e) == files);
    reveal_strlit("tracing_on");
    reveal_strlit("set_ftrace_pid");
    reveal_strlit("current_tracer");
    reveal_strlit("trace");
    assert(payload(sdec(tid as int)) == sdec(tid as int));
}

/// Ending a capture stops tracing before it reads the buffer; once every write succeeded,
/// tracing is off, the buffer is cleared, and the thread filter and the graph function
/// (where it exists) are cleared.
pub proof fn lemma_end_capture_effect(files: Map<Seq<char>, Seq<char>>)
    ensures
        ({
            let plan = end_capture_plan();
            let after = apply_plan(files, plan);
            &&& plan[0] == w("tracing_on"@, "0"@)
            &&& plan[1] == StepView::ReadTrace
            &&& after["tracing_on"@] == "0"@
            &&& after["trace"@] == seq!['\n']
            &&& after["set_ftrace_pid"@] == seq!['\n']
            &&& files.dom().contains("set_graph_function"@) ==> after["set_graph_function"@] == seq!['\n']
        }),
{
    lemma_control_keys_distinct();
    reveal_strlit("");
    reveal_strlit("0");
    let plan = end_capture_plan();
    let s0 = w("tracing_on"@, "0"@);
    let s1 = StepView::ReadTrace;
    let s2 = w("trace"@, ""@);
    let s3 = StepView::GraphFunction(None);
    let s4 = w("set_ftrace_pid"@, ""@);
    let e = Seq::<StepView>::empty();
    assert(plan =~= e.push(s0).push(s1).push(s2).push(s3).push(s4));
    lemma_apply_push(files, e, s0);
    lemma_apply_push(files, e.push(s0), s1);
    lemma_apply_push(files, e.push(s0).push(s1), s2);
    lemma_apply_push(files, e.push(s0).push(s1).push(s2), s3);
    lemma_apply_push(files, e.push(s0).push(s1).push(s2).push(s3), s4);
    assert(apply_plan(files, e) == files);
}

/// Checking access to the tracer reports, by its path under the root, the first control
/// file that is missing, in the order `available_tracers`, `current_tracer`,
/// `set_ftrace_pid`, `trace`, `tracing_on`, `buffer_size_kb`; with all of them present, it
/// reports a kernel whose tracers do not include `function_graph`; otherwise it goes on with
/// writes that stop tracing, clear the thread filter, select no tracer and clear the buffer.
pub proof fn lemma_access_checks(root: Seq<char>, exists: Seq<bool>, available: Seq<char>)
    ensures
        ({
            let names = seq!["available_tracers"@, "current_tracer"@, "set_ftrace_pid"@, "trace"@,
                "tracing_on"@, "buffer_size_kb"@];
            let all_present = forall|j: int| 0 <= j < 6 ==> #[trigger] present(exists, j);
            &&& forall|i: int| 0 <= i < 6 && !present(exists, i) && (forall|j: int| 0 <= j < i ==> #[trigger] present(exists, j))
                ==> #[trigger] access_outcome(root, exists, available) == Err::<Seq<StepView>, Seq<char>>(
                    "required tracefs file missing: "@ + root + seq!['/'] + names[i])
            &&& all_present && !has_token(available, "function_graph"@, false)
                ==> access_outcome(root, exists, available) == Err::<Seq<StepView>, Seq<char>>("kernel does not expose function_graph tracer"@)
            &&& all_present && has_token(available, "function_graph"@, false)
                ==> access_outcome(root, exists, available) == Ok::<Seq<StepView>, Seq<char>>(seq![
                    w("tracing_on"@, "0"@),
                    w("set_ftrace_pid"@, ""@),
                    w("current_tracer"@, "nop"@),
                    w("trace"@, ""@),
                ])
        }),
{
    lemma_first_missing_from(exists, 0);
    let names = seq!["available_tracers"@, "current_tracer"@, "set_ftrace_pid"@, "trace"@,
        "tracing_on"@, "buffer_size_kb"@];
    assert(required_files() == names);
    assert forall|i: int| 0 <= i < 6 && !present(exists, i) && (forall|j: int| 0 <= j < i ==> #[trigger] present(exists, j))
        implies #[trigger] access_outcome(root, exists, available) == Err::<Seq<StepView>, Seq<char>>(
            "required tracefs file missing: "@ + root + seq!['/'] + names[i]) by {
        match first_missing(exists) {
            Some(k) => {
                if k < i {
                    assert(present(exists, k));
                }
                if k > i {
                    assert(present(exists, i));
                }
            },
            None => {
                assert(present(exists, i));
            },
        }
    }
    if forall|j: int| 0 <= j < 6 ==> #[trigger] present(exists, j) {
        match first_missing(exists) {
            Some(k) => {
                assert(present(exists, k));
            },
            None => {},
        }
    }
}

/// The contents of the control files after bringing the tracer to rest from `files`.
spec fn reset_contents(files: Map<Seq<char>, Seq<char>>) -> Map<Seq<char>, Seq<char>> {
    let m1 = files.insert("tracing_on"@, "0"@);
    let m2 = if m1.dom().contains("set_graph_function"@) { m1.insert("set_graph_function"@, seq!['\n']) } else { m1 };
    m2.insert("set_ftrace_pid"@, seq!['\n']).insert("current_tracer"@, "nop"@).insert("trace"@, seq!['\n'])
}

/// The tracing root in use: the first of `tracefs_roots()` that is a directory, where
/// `is_dir[i]` tells whether the i-th is one.
pub open spec fn chosen_root(is_dir: Seq<bool>) -> Option<Seq<char>> {
    if is_dir.len() > 0 && is_dir[0] {
        Some(tracefs_roots()[0])
    } else if is_dir.len() > 1 && is_dir[1] {
        Some(tracefs_roots()[1])
    } else {
        None
    }
}

/// The tracing root in use: the first of `tracefs_root_candidates()` that is a directory,
/// where `is_dir[i]` tells whether the i-th is one.
pub fn detect_tracefs_root(is_dir: &[bool]) -> (r: Option<&'static str>)
    ensures
        match chosen_root(is_dir@) {
            Some(p) => r matches Some(q) && q@ == p,
            None => r is None,
        },
{
    let roots = tracefs_root_candidates();
    proof {
        assert(roots@.map_values(|f: &'static str| f@).len() == roots@.len());
        assert(roots@.map_values(|f: &'static str| f@)[0] == roots@[0]@);
        assert(roots@.map_values(|f: &'static str| f@)[1] == roots@[1]@);
    }
    if is_dir.len() > 0 && is_dir[0] {
        Some(roots[0])
    } else if is_dir.len() > 1 && is_dir[1] {
        Some(roots[1])
    } else {
        None
    }
}

/// The tracing root in use is `/sys/kernel/tracing` whenever that is a directory, else
/// `/sys/kernel/debug/tracing` where that is one; there is none only when neither is.
pub proof fn lemma_root_is_first_directory(is_dir: Seq<bool>)
    ensures
        is_dir.len() > 0 && is_dir[0] ==> chosen_root(is_dir) == Some("/sys/kernel/tracing"@),
        !(is_dir.len() > 0 && is_dir[0]) && is_dir.len() > 1 && is_dir[1]
            ==> chosen_root(is_dir) == Some("/sys/kernel/debug/tracing"@),
        chosen_root(is_dir) is None <==> forall|i: int| 0 <= i < is_dir.len() && i < 2 ==> !#[trigger] is_dir[i],
{
    if chosen_root(is_dir) is None {
        assert forall|i: int| 0 <= i < is_dir.len() && i < 2 implies !#[trigger] is_dir[i] by {
            if i == 0 {} else {}
        }
    }
    if is_dir.len() > 0 && is_dir[0] {
        assert(!(forall|i: int| 0 <= i < is_dir.len() && i < 2 ==> !#[trigger] is_dir[i]));
    }
    if is_dir.len() > 1 && is_dir[1] {
        assert(!(forall|i: int| 0 <= i < is_dir.len() && i < 2 ==> !#[trigger] is_dir[i]));
    }
}

/// Whether the i-th required control file is reported present.
pub open spec fn present(exists: Seq<bool>, i: int) -> bool {
    i < exists.len() && exists[i]
}

/// The first required control file, at `i` or after it, that is not reported present.
pub open spec fn first_missing_from(exists: Seq<bool>, i: int) -> Option<int>
    decreases required_files().len() - i,
{
    if i < 0 || i >= required_files().len() {
        None
    } else if !present(exists, i) {
        Some(i)
    } else {
        first_missing_from(exists, i + 1)
    }
}

/// The first required control file that is not reported present.
pub open spec fn first_missing(exists: Seq<bool>) -> Option<int> {
    first_missing_from(exists, 0)
}

proof fn lemma_first_missing_from(exists: Seq<bool>, i: int)
    requires
        0 <= i <= required_files().len(),
    ensures
        match first_missing_from(exists, i) {
            Some(j) => i <= j < required_files().len() && !present(exists, j)
                && forall|m: int| i <= m < j ==> present(exists, m),
            None => forall|m: int| i <= m < required_files().len() ==> present(exists, m),
        },
    decreases required_files().len() - i,
{
    if i < required_files().len() {
        lemma_first_missing_from(exists, i + 1);
    }
}

/// The index of the first required control file that is not reported present.
fn first_missing_file(exists: &[bool]) -> (r: Option<usize>)
    ensures
        match first_missing(exists@) {
            Some(i) => r == Some(i as usize),
            None => r is None,
        },
{
    proof {
        lemma_first_missing_from(exists@, 0);
    }
    let n: usize = 6;
    let mut i: usize = 0;
    while i < n
        invariant
            n == required_files().len(),
            i <= n,
            forall|m: int| 0 <= m < i ==> present(exists@, m),
        decreases n - i,
    {
        if !(i < exists.len() && exists[i]) {
            proof {
                lemma_first_missing_from(exists@, 0);
                assert(!present(exists@, i as int));
                match first_missing(exists@) {
                    Some(j) => {
                        if j < i {
                            assert(present(exists@, j));
                        }
                    },
                    None => {
                        assert(present(exists@, i as int));
                    },
                }
            }
            return Some(i);
        }
        i += 1;
    }
    None
}

/// The error reported when the control file `file` is missing under `root`.
pub open spec fn missing_file_message(root: Seq<char>, file: Seq<char>) -> Seq<char> {
    "required tracefs file missing: "@ + root + seq!['/'] + file
}

/// What checking access to the tracer gives: the error for the first missing control file;
/// else, where `available` does not offer the function-graph tracer, that error; else the
/// writes that check that the control files can be written.
pub open spec fn access_outcome(root: Seq<char>, exists: Seq<bool>, available: Seq<char>) -> Result<Seq<StepView>, Seq<char>> {
    match first_missing(exists) {
        Some(i) => Err(missing_file_message(root, required_files()[i])),
        None => if !has_token(available, "function_graph"@, false) {
            Err("kernel does not expose function_graph tracer"@)
        } else {
            Ok(access_check_plan())
        },
    }
}

/// The controller of the function-graph tracer under a tracing root. Its methods give the
/// control steps to carry out, in order.
pub struct TraceFsController {
    root: String,
}

impl TraceFsController {
    /// The tracing root.
    pub closed spec fn root_view(&self) -> Seq<char> {
        self.root@
    }

    /// A controller for the tracing root in use, where `is_dir[i]` tells whether the i-th of
    /// `tracefs_root_candidates()` is a directory; the error given when none is.
    pub fn init_or_fail(is_dir: &[bool]) -> (r: Result<Self, String>)
        ensures
            chosen_root(is_dir@) is None ==> (r matches Err(e)
                && e@ == "tracefs is not available under /sys/kernel/tracing or /sys/kernel/debug/tracing"@),
            chosen_root(is_dir@) is Some ==> (r matches Ok(c) && c.root_view() == chosen_root(is_dir@).unwrap()),
    {
        match detect_tracefs_root(is_dir) {
            None => {
                let mut e = String::new();
                e.append("tracefs is not available under /sys/kernel/tracing or /sys/kernel/debug/tracing");
                Err(e)
            },
            Some(r) => {
                let mut s = String::new();
                s.append(r);
                Ok(TraceFsController { root: s })
            },
        }
    }

    /// The error for the first required control file that is missing, in the order of
    /// `required_tracefs_files()`, where `exists[i]` tells whether the i-th of them exists.
    pub fn missing_file_error(&self, exists: &[bool]) -> (r: Option<String>)
        ensures
            match first_missing(exists@) {
                Some(i) => r matches Some(e) && e@ == missing_file_message(self.root_view(), required_files()[i]),
                None => r is None,
            },
    {
        match first_missing_file(exists) {
            Some(i) => {
                let files = required_tracefs_files();
                proof {
                    lemma_first_missing_from(exists@, 0);
                    assert(files@.map_values(|f: &'static str| f@).len() == files@.len());
                    assert(files@.map_values(|f: &'static str| f@)[i as int] == files@[i as int]@);
                }
                let mut e = String::new();
                e.append("required tracefs file missing: ");
                let p = self.path(files[i]);
                e.append(p.as_str());
                Some(e)
            },
            None => None,
        }
    }

    /// Checks that the tracer can be driven: every required control file exists (see
    /// `missing_file_error`), and `available`, the text of `available_tracers`, offers the
    /// function-graph tracer. On success, gives the writes that check up front that the
    /// control files can be written.
    pub fn validate_access(&self, exists: &[bool], available: &str) -> (r: Result<Vec<ControlStep>, String>)
        ensures
            match access_outcome(self.root_view(), exists@, available@) {
                Ok(plan) => r matches Ok(steps) && steps_view(steps@) == plan,
                Err(msg) => r matches Err(e) && e@ == msg,
            },
    {
        match self.missing_file_error(exists) {
            Some(e) => Err(e),
            None => {
                if !tracers_support_function_graph(available) {
                    let mut e = String::new();
                    e.append("kernel does not expose function_graph tracer");
                    Err(e)
                } else {
                    Ok(access_check_steps())
                }
            },
        }
    }

    /// The path of the control file `file` under the root.
    pub fn path(&self, file: &str) -> (r: String)
        ensures
            r@ == self.root_view() + seq!['/'] + file@,
    {
        let mut s = String::new();
        s.append(self.root.as_str());
        s.push('/');
        s.append(file);
        s
    }

    /// The steps that start a capture of the thread `tid`.
    pub fn begin_capture(&self, tid: i32, graph_function: Option<&str>) -> (r: Vec<ControlStep>)
        ensures
            steps_view(r@) == begin_capture_plan(tid, match graph_function { Some(g) => Some(g@), None => None }),
    {
        begin_capture_steps(tid, graph_function)
    }

    /// The steps that end a capture and read the trace.
    pub fn end_capture_and_read(&self) -> (r: Vec<ControlStep>)
        ensures
            steps_view(r@) == end_capture_plan(),
    {
        end_capture_steps()
    }

    /// The steps that bring the tracer back to rest.
    pub fn reset_state(&self) -> (r: Vec<ControlStep>)
        ensures
            steps_view(r@) == reset_plan(),
    {
        reset_steps()
    }
}

} // verus!
