use vstd::prelude::*;
use crate::text::str_eq;
use crate::reentry::{BypassDepth, hooks_blocked};
use crate::graph::{CallStack, FrameView, LineStyle, SpanToken, enter, exit, enter_frames, enter_lines,
    exit_frames, exit_lines, lines_view};

verus! {

/// The count recorded for `k`; the last entry for a key wins, and an absent key counts zero.
pub open spec fn count_in(entries: Seq<(Seq<char>, u32)>, k: Seq<char>) -> u32
    decreases entries.len(),
{
    if entries.len() == 0 {
        0
    } else if entries.last().0 == k {
        entries.last().1
    } else {
        count_in(entries.drop_last(), k)
    }
}

/// `v + 1`, staying at the maximum.
pub open spec fn sat_inc32(v: u32) -> u32 {
    if v == u32::MAX { v } else { (v + 1) as u32 }
}

/// How many function-graph windows have been opened for each function.
pub struct WindowSeqTable {
    entries: Vec<(String, u32)>,
}

impl WindowSeqTable {
    pub closed spec fn entries_view(&self) -> Seq<(Seq<char>, u32)> {
        self.entries@.map_values(|e: (String, u32)| (e.0@, e.1))
    }

    /// The number of windows opened so far for `func`.
    pub open spec fn count(&self, func: Seq<char>) -> u32 {
        count_in(self.entries_view(), func)
    }

    /// No window opened yet.
    pub fn new() -> (r: Self)
        ensures
            forall|k: Seq<char>| r.count(k) == 0,
    {
        let r = WindowSeqTable { entries: Vec::new() };
        assert(r.entries_view() =~= Seq::<(Seq<char>, u32)>::empty());
        r
    }
}

proof fn lemma_count_at_last_match(e: Seq<(Seq<char>, u32)>, i: int, k: Seq<char>)
    requires
        0 <= i < e.len(),
        e[i].0 == k,
        forall|j: int| i < j < e.len() ==> e[j].0 != k,
    ensures
        count_in(e, k) == e[i].1,
    decreases e.len(),
{
    if i < e.len() - 1 {
        lemma_count_at_last_match(e.drop_last(), i, k);
    }
}

proof fn lemma_count_absent(e: Seq<(Seq<char>, u32)>, k: Seq<char>)
    requires
        forall|j: int| 0 <= j < e.len() ==> e[j].0 != k,
    ensures
        count_in(e, k) == 0,
    decreases e.len(),
{
    if e.len() > 0 {
        lemma_count_absent(e.drop_last(), k);
    }
}

proof fn lemma_count_update(e: Seq<(Seq<char>, u32)>, i: int, k: Seq<char>, v: u32, k2: Seq<char>)
    requires
        0 <= i < e.len(),
        e[i].0 == k,
        forall|j: int| i < j < e.len() ==> e[j].0 != k,
    ensures
        count_in(e.update(i, (k, v)), k2) == if k2 == k { v } else { count_in(e, k2) },
    decreases e.len(),
{
    let u = e.update(i, (k, v));
    if i == e.len() - 1 {
        assert(u.drop_last() =~= e.drop_last());
    } else {
        assert(u.drop_last() =~= e.drop_last().update(i, (k, v)));
        lemma_count_update(e.drop_last(), i, k, v, k2);
    }
}

/// The sequence number of the next window for `func`: one more than the count so far
/// (staying at the maximum), which becomes the new count.
pub fn next_fgraph_window_seq(table: &mut WindowSeqTable, func: &str) -> (r: u32)
    ensures
        r == sat_inc32(old(table).count(func@)),
        final(table).count(func@) == r,
        forall|k: Seq<char>| k != func@ ==> #[trigger] final(table).count(k) == old(table).count(k),
{
    let ghost e = table.entries_view();
    let n = table.entries.len();
    let mut j: usize = n;
    let mut found: Option<usize> = None;
    while j > 0
        invariant_except_break
            found is None,
            forall|m: int| j <= m < n ==> e[m].0 != func@,
        invariant
            j <= n,
            n == table.entries@.len(),
            e == table.entries_view(),
        ensures
            found matches Some(i) ==> i < n && e[i as int].0 == func@
                && forall|m: int| i < m < n ==> e[m].0 != func@,
            found is None ==> forall|m: int| 0 <= m < n ==> e[m].0 != func@,
        decreases j,
    {
        let m = j - 1;
        assert(e[m as int] == (table.entries[m as int].0@, table.entries[m as int].1));
        if str_eq(table.entries[m].0.as_str(), func) {
            found = Some(m);
            break;
        }
        j = m;
    }
    let mut key = String::new();
    key.append(func);
    match found {
        Some(i) => {
            proof {
                lemma_count_at_last_match(e, i as int, func@);
            }
            let cur = table.entries[i].1;
            let next = if cur == u32::MAX { cur } else { cur + 1 };
            table.entries.set(i, (key, next));
            proof {
                assert(table.entries_view() =~= e.update(i as int, (func@, next)));
                assert forall|k: Seq<char>| true implies #[trigger] count_in(table.entries_view(), k)
                    == if k == func@ { next } else { count_in(e, k) } by {
                    lemma_count_update(e, i as int, func@, next, k);
                }
            }
            next
        },
        None => {
            proof {
                lemma_count_absent(e, func@);
            }
            table.entries.push((key, 1));
            proof {
                let e2 = table.entries_view();
                assert(e2 =~= e.push((func@, 1u32)));
                assert(e2.drop_last() =~= e);
            }
            1
        },
    }
}

/// How many function-graph windows are open on the current thread.
pub struct FgraphWindowDepth {
    depth: usize,
}

impl View for FgraphWindowDepth {
    type V = usize;

    closed spec fn view(&self) -> usize {
        self.depth
    }
}

impl FgraphWindowDepth {
    pub fn new() -> (r: Self)
        ensures
            r@ == 0,
    {
        FgraphWindowDepth { depth: 0 }
    }

    /// One more window is open (staying at the maximum); returns the new depth.
    pub fn open(&mut self) -> (r: usize)
        ensures
            r == final(self)@,
            r == if old(self)@ == usize::MAX { old(self)@ } else { (old(self)@ + 1) as usize },
    {
        self.depth = if self.depth == usize::MAX { self.depth } else { self.depth + 1 };
        self.depth
    }

    /// One window fewer is open (staying at zero); returns the new depth.
    pub fn close(&mut self) -> (r: usize)
        ensures
            r == final(self)@,
            r == if old(self)@ == 0 { 0 } else { (old(self)@ - 1) as usize },
    {
        self.depth = if self.depth == 0 { 0 } else { self.depth - 1 };
        self.depth
    }
}

/// What one thread keeps between intercepted calls.
pub struct ThreadTraceState {
    pub stack: CallStack,
    pub bypass: BypassDepth,
    pub window: FgraphWindowDepth,
}

impl ThreadTraceState {
    pub fn new() -> (r: Self)
        ensures
            r.stack.frames_view() == Seq::<FrameView>::empty(),
            r.bypass@ == 0,
            r.window@ == 0,
    {
        ThreadTraceState { stack: CallStack::new(), bypass: BypassDepth::new(), window: FgraphWindowDepth::new() }
    }
}

/// The facts about the configuration and the process that decide how a call is traced.
#[derive(Clone, Copy)]
pub struct ScopeConfig {
    /// The current thread is the tracer itself.
    pub internal_tracer: bool,
    /// Function-graph capture is enabled and matches the function.
    pub window_match: bool,
    /// Tracing is enabled for the call's domain.
    pub trace_enabled: bool,
    /// Opening lines are written as soon as a call is entered.
    pub eager_open: bool,
    pub style: LineStyle,
}

/// What the caller has to carry out after entering or finishing a scope.
pub struct ScopeEffects {
    /// A window was opened: the new window depth and the window's sequence number.
    pub window_enter: Option<(usize, u32)>,
    /// A window was closed: the new window depth.
    pub window_exit: Option<usize>,
    /// Trace lines to write, in order.
    pub lines: Vec<String>,
}

/// The tracing of one intercepted call.
pub struct TraceScope {
    span: Option<SpanToken>,
    fgraph_window_matched: bool,
}

impl View for TraceScope {
    /// Whether the call is on the call stack, and whether it opened a window.
    type V = (bool, bool);

    closed spec fn view(&self) -> (bool, bool) {
        (self.span is Some, self.fgraph_window_matched)
    }
}

/// What entering the tracing of a call does, from the thread's state `os` and window
/// numbers `oq` before it to `fs` and `fq` after it, with `r` the scope and effects returned
/// and `args` the text of the call's arguments. Nothing happens for the tracer's own thread;
/// otherwise, unless hooks are blocked, a matching call opens a function-graph window, and a
/// call in a traced domain is entered on the call stack. What the call does not open stays
/// as it was.
pub open spec fn scope_entered(
    os: ThreadTraceState,
    fs: ThreadTraceState,
    oq: WindowSeqTable,
    fq: WindowSeqTable,
    cfg: ScopeConfig,
    func: Seq<char>,
    args: Seq<char>,
    now_ts: u128,
    now: u128,
    r: (TraceScope, ScopeEffects),
) -> bool {
    let blocked = os.bypass@ > 0;
    let window = !cfg.internal_tracer && !blocked && cfg.window_match;
    let span = !cfg.internal_tracer && !blocked && cfg.trace_enabled;
    &&& r.0@ == (span, window)
    &&& fs.bypass@ == os.bypass@
    &&& (window ==> {
        &&& fq.count(func) == sat_inc32(oq.count(func))
        &&& forall|k: Seq<char>| k != func ==> #[trigger] fq.count(k) == oq.count(k)
        &&& fs.window@ == if os.window@ == usize::MAX { os.window@ } else { (os.window@ + 1) as usize }
        &&& r.1.window_enter == Some((fs.window@, fq.count(func)))
    })
    &&& (!window ==> {
        &&& forall|k: Seq<char>| #[trigger] fq.count(k) == oq.count(k)
        &&& fs.window@ == os.window@
        &&& r.1.window_enter is None
    })
    &&& (span ==> {
        &&& fs.stack.frames_view() == enter_frames(os.stack.frames_view(), func, args, now_ts, now, cfg.eager_open)
        &&& lines_view(r.1.lines@) == enter_lines(os.stack.frames_view(), func, args, now_ts, cfg.eager_open, cfg.style)
    })
    &&& (!span ==> {
        &&& fs.stack.frames_view() == os.stack.frames_view()
        &&& r.1.lines@.len() == 0
    })
    &&& r.1.window_exit is None
}

/// Whether the tracing of a call is entered on the call stack.
pub open spec fn span_opened(os: ThreadTraceState, cfg: ScopeConfig) -> bool {
    !cfg.internal_tracer && !(os.bypass@ > 0) && cfg.trace_enabled
}

/// What entering the tracing of a call with lazily built arguments does: as
/// `scope_entered`, with the text that `build_args` returned where the call is entered on
/// the call stack (the only case in which it is called).
pub open spec fn lazy_scope_entered<F: FnOnce() -> String>(
    os: ThreadTraceState,
    fs: ThreadTraceState,
    oq: WindowSeqTable,
    fq: WindowSeqTable,
    cfg: ScopeConfig,
    func: Seq<char>,
    build_args: F,
    now_ts: u128,
    now: u128,
    r: (TraceScope, ScopeEffects),
) -> bool {
    &&& span_opened(os, cfg) ==> exists|a: String| #[trigger] build_args.ensures((), a)
        && scope_entered(os, fs, oq, fq, cfg, func, a@, now_ts, now, r)
    &&& !span_opened(os, cfg) ==> scope_entered(os, fs, oq, fq, cfg, func, Seq::empty(), now_ts, now, r)
}

impl TraceScope {
    /// Enters the tracing of a call. Nothing happens for the tracer's own thread.
    /// Otherwise, unless hooks are blocked, a matching call opens a function-graph window,
    /// and a call in a traced domain is entered on the call stack.
    pub fn enter(
        state: &mut ThreadTraceState,
        seqs: &mut WindowSeqTable,
        cfg: ScopeConfig,
        func: &str,
        args: String,
        now_ts: u128,
        now: u128,
    ) -> (r: (TraceScope, ScopeEffects))
        ensures
            scope_entered(*old(state), *final(state), *old(seqs), *final(seqs), cfg, func@, args@, now_ts, now, r),
    {
        if cfg.internal_tracer {
            return (TraceScope { span: None, fgraph_window_matched: false },
                ScopeEffects { window_enter: None, window_exit: None, lines: Vec::new() });
        }
        let blocked = hooks_blocked(&state.bypass);
        let mut window_enter: Option<(usize, u32)> = None;
        let matched = !blocked && cfg.window_match;
        if matched {
            let seq = next_fgraph_window_seq(seqs, func);
            let depth = state.window.open();
            window_enter = Some((depth, seq));
        }
        if !cfg.trace_enabled || blocked {
            return (TraceScope { span: None, fgraph_window_matched: matched },
                ScopeEffects { window_enter, window_exit: None, lines: Vec::new() });
        }
        let (span, lines) = enter(&mut state.stack, func, args, now_ts, now, cfg.eager_open, cfg.style);
        (TraceScope { span: Some(span), fgraph_window_matched: matched },
            ScopeEffects { window_enter, window_exit: None, lines })
    }

    /// Whether entering the tracing of a call now would enter it on the call stack, which is
    /// when the arguments' text is needed.
    pub fn opens_span(state: &ThreadTraceState, cfg: ScopeConfig) -> (r: bool)
        ensures
            r == span_opened(*state, cfg),
    {
        !cfg.internal_tracer && !hooks_blocked(&state.bypass) && cfg.trace_enabled
    }

    /// As `enter`, with the arguments' text built only when the call is entered on the stack.
    pub fn enter_lazy<F: FnOnce() -> String>(
        state: &mut ThreadTraceState,
        seqs: &mut WindowSeqTable,
        cfg: ScopeConfig,
        func: &str,
        build_args: F,
        now_ts: u128,
        now: u128,
    ) -> (r: (TraceScope, ScopeEffects))
        requires
            build_args.requires(()),
        ensures
            lazy_scope_entered(*old(state), *final(state), *old(seqs), *final(seqs), cfg, func@, build_args, now_ts, now, r),
    {
        let blocked = hooks_blocked(&state.bypass);
        if !cfg.internal_tracer && !blocked && cfg.trace_enabled {
            let args = build_args();
            TraceScope::enter(state, seqs, cfg, func, args, now_ts, now)
        } else {
            TraceScope::enter(state, seqs, cfg, func, String::new(), now_ts, now)
        }
    }

    /// Finishes the tracing of a call that returned `ret`: closes its window, if it opened one,
    /// and exits it from the call stack, if it was entered there.
    pub fn finish(self, state: &mut ThreadTraceState, ret: &str, now: u128, force_brace: bool, style: LineStyle) -> (r: ScopeEffects)
        ensures
            final(state).bypass@ == old(state).bypass@,
            self@.1 ==> final(state).window@ == (if old(state).window@ == 0 { 0 } else { (old(state).window@ - 1) as usize })
                && r.window_exit == Some(final(state).window@),
            !self@.1 ==> final(state).window@ == old(state).window@ && r.window_exit is None,
            self@.0 ==> final(state).stack.frames_view() == exit_frames(old(state).stack.frames_view())
                && lines_view(r.lines@) == exit_lines(old(state).stack.frames_view(), ret@, now, force_brace, style),
            !self@.0 ==> final(state).stack.frames_view() == old(state).stack.frames_view() && r.lines@.len() == 0,
            r.window_enter is None,
    {
        let mut window_exit: Option<usize> = None;
        if self.fgraph_window_matched {
            window_exit = Some(state.window.close());
        }
        match self.span {
            Some(span) => {
                let lines = exit(&mut state.stack, span, ret, now, force_brace, style);
                ScopeEffects { window_enter: None, window_exit, lines }
            },
            None => ScopeEffects { window_enter: None, window_exit, lines: Vec::new() },
        }
    }
}

/// Entering the tracing of a call with a builder that always gives the text `a` does just
/// what entering it with the arguments `a` does.
pub proof fn lemma_lazy_with_fixed_args<F: FnOnce() -> String>(
    os: ThreadTraceState,
    fs: ThreadTraceState,
    oq: WindowSeqTable,
    fq: WindowSeqTable,
    cfg: ScopeConfig,
    func: Seq<char>,
    build_args: F,
    a: Seq<char>,
    now_ts: u128,
    now: u128,
    r: (TraceScope, ScopeEffects),
)
    requires
        forall|s: String| #[trigger] build_args.ensures((), s) ==> s@ == a,
        lazy_scope_entered(os, fs, oq, fq, cfg, func, build_args, now_ts, now, r),
    ensures
        scope_entered(os, fs, oq, fq, cfg, func, a, now_ts, now, r),
{
    if span_opened(os, cfg) {
        let s = choose|s: String| #[trigger] build_args.ensures((), s)
            && scope_entered(os, fs, oq, fq, cfg, func, s@, now_ts, now, r);
        assert(s@ == a);
    }
}

/// Opening and then closing a function-graph window gives the window depth back,
/// unless it was at the maximum.
pub proof fn lemma_window_depth_restores(d: usize)
    requires
        d < usize::MAX,
    ensures
        ({
            let opened = (d + 1) as usize;
            (if opened == 0 { 0 } else { (opened - 1) as usize }) == d
        }),
{
}

/// Windows of one function are numbered one after another: after the window numbered `n`
/// (below the maximum) the next one gets `n + 1`, and the first one gets `1`.
pub proof fn lemma_window_numbers_consecutive(n: u32)
    requires
        n < u32::MAX,
    ensures
        sat_inc32(n) == n + 1,
        sat_inc32(0) == 1,
{
}

} // verus!
