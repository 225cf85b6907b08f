use vstd::prelude::*;
use crate::config::{LeftMetaMode, TimeUnit};
use crate::text::{dec, push_dec};
use crate::line_meta::{left_meta_prefix, prepend_left_meta, unit_name, unit_text, in_unit, timestamp_in_unit};

verus! {

/// `d` tab characters.
pub open spec fn indent(d: nat) -> Seq<char> {
    Seq::new(d, |i: int| '\t')
}

/// `func(args) {`: the line that opens a call that has nested calls.
pub open spec fn open_line(depth: nat, func: Seq<char>, args: Seq<char>) -> Seq<char> {
    indent(depth) + func + seq!['('] + args + seq![')', ' ', '{']
}

/// `  /* value unit */`: the elapsed time at the end of a line.
pub open spec fn elapsed_text(value: nat, unit: Seq<char>) -> Seq<char> {
    seq![' ', ' ', '/', '*', ' '] + dec(value) + seq![' '] + unit + seq![' ', '*', '/']
}

/// `} = ret  /* value unit */`: the line that closes a call that had nested calls.
pub open spec fn close_line(depth: nat, ret: Seq<char>, value: nat, unit: Seq<char>) -> Seq<char> {
    indent(depth) + seq!['}', ' ', '=', ' '] + ret + elapsed_text(value, unit)
}

/// `func(args) = ret  /* value unit */`: the one line of a call without nested calls.
pub open spec fn leaf_line(depth: nat, func: Seq<char>, args: Seq<char>, ret: Seq<char>, value: nat, unit: Seq<char>) -> Seq<char> {
    indent(depth) + func + seq!['('] + args + seq![')', ' ', '=', ' '] + ret + elapsed_text(value, unit)
}

fn push_indent(out: &mut String, depth: usize)
    ensures
        final(out)@ == old(out)@ + indent(depth as nat),
{
    let ghost start = out@;
    let mut i: usize = 0;
    while i < depth
        invariant
            i <= depth,
            out@ == start + indent(i as nat),
        decreases depth - i,
    {
        out.push('\t');
        i = i + 1;
        assert(indent(i as nat) =~= indent((i - 1) as nat).push('\t'));
    }
}

fn push_elapsed(out: &mut String, value: u128, unit: &str)
    ensures
        final(out)@ == old(out)@ + elapsed_text(value as nat, unit@),
{
    out.push(' ');
    out.push(' ');
    out.push('/');
    out.push('*');
    out.push(' ');
    push_dec(out, value);
    out.push(' ');
    out.append(unit);
    out.push(' ');
    out.push('*');
    out.push('/');
    assert(out@ =~= old(out)@ + elapsed_text(value as nat, unit@));
}

/// The line that opens a call that has nested calls.
pub fn format_open_line(depth: usize, func: &str, args: &str) -> (r: String)
    ensures
        r@ == open_line(depth as nat, func@, args@),
{
    let mut out = String::new();
    push_indent(&mut out, depth);
    out.append(func);
    out.push('(');
    out.append(args);
    out.push(')');
    out.push(' ');
    out.push('{');
    assert(out@ =~= open_line(depth as nat, func@, args@));
    out
}

/// The line that closes a call that had nested calls.
pub fn format_close_line(depth: usize, ret: &str, elapsed_value: u128, elapsed_unit: &str) -> (r: String)
    ensures
        r@ == close_line(depth as nat, ret@, elapsed_value as nat, elapsed_unit@),
{
    let mut out = String::new();
    push_indent(&mut out, depth);
    out.push('}');
    out.push(' ');
    out.push('=');
    out.push(' ');
    out.append(ret);
    push_elapsed(&mut out, elapsed_value, elapsed_unit);
    assert(out@ =~= close_line(depth as nat, ret@, elapsed_value as nat, elapsed_unit@));
    out
}

/// The one line of a call without nested calls.
pub fn format_leaf_line(
    depth: usize,
    func: &str,
    args: &str,
    ret: &str,
    elapsed_value: u128,
    elapsed_unit: &str,
) -> (r: String)
    ensures
        r@ == leaf_line(depth as nat, func@, args@, ret@, elapsed_value as nat, elapsed_unit@),
{
    let mut out = String::new();
    push_indent(&mut out, depth);
    out.append(func);
    out.push('(');
    out.append(args);
    out.push(')');
    out.push(' ');
    out.push('=');
    out.push(' ');
    out.append(ret);
    push_elapsed(&mut out, elapsed_value, elapsed_unit);
    assert(out@ =~= leaf_line(depth as nat, func@, args@, ret@, elapsed_value as nat, elapsed_unit@));
    out
}

/// What a frame of the call stack holds, as values.
pub struct FrameView {
    pub func: Seq<char>,
    pub args: Seq<char>,
    pub depth: nat,
    pub started_ts: u128,
    pub started_at: u128,
    pub has_child: bool,
    pub enter_printed: bool,
}

/// A call in progress on the current thread.
pub struct Frame {
    func: String,
    args: String,
    depth: usize,
    started_ts: u128,
    started_at: u128,
    has_child: bool,
    enter_printed: bool,
}

impl View for Frame {
    type V = FrameView;

    closed spec fn view(&self) -> FrameView {
        FrameView {
            func: self.func@,
            args: self.args@,
            depth: self.depth as nat,
            started_ts: self.started_ts,
            started_at: self.started_at,
            has_child: self.has_child,
            enter_printed: self.enter_printed,
        }
    }
}

/// The token handed out when a call is entered and given back when it exits.
pub struct SpanToken;

/// How trace lines are prefixed: the thread id, the left-meta mode and the time unit.
#[derive(Clone, Copy)]
pub struct LineStyle {
    pub tid: i32,
    pub meta: LeftMetaMode,
    pub unit: TimeUnit,
}

/// The calls in progress on one thread, outermost first.
pub struct CallStack {
    frames: Vec<Frame>,
}

/// Each frame's depth is its position; every frame below the top has a nested call,
/// and a frame with a nested call has had its opening line written.
pub open spec fn stack_wf(s: Seq<FrameView>) -> bool {
    forall|i: int| 0 <= i < s.len() ==> {
        &&& #[trigger] s[i].depth == i
        &&& (i < s.len() - 1 ==> s[i].has_child)
        &&& (s[i].has_child ==> s[i].enter_printed)
    }
}

/// A trace line with its left prefix.
pub open spec fn styled(style: LineStyle, ts: u128, line: Seq<char>) -> Seq<char> {
    left_meta_prefix(style.tid, ts, style.meta, style.unit) + line
}

/// The caller of a new call learns that it has a nested call and counts as opened.
pub open spec fn mark_child(f: FrameView) -> FrameView {
    FrameView { has_child: true, enter_printed: true, ..f }
}

/// The frames below a new call: its caller, if any, marked as having a nested call.
pub open spec fn with_caller_marked(s: Seq<FrameView>) -> Seq<FrameView> {
    if s.len() > 0 && !s.last().has_child { s.update(s.len() - 1, mark_child(s.last())) } else { s }
}

/// The frames after entering a call.
pub open spec fn enter_frames(s: Seq<FrameView>, func: Seq<char>, args: Seq<char>, now_ts: u128, now: u128, eager_open: bool) -> Seq<FrameView> {
    with_caller_marked(s).push(FrameView {
        func,
        args,
        depth: s.len(),
        started_ts: now_ts,
        started_at: now,
        has_child: false,
        enter_printed: eager_open,
    })
}

/// The lines written when entering a call: the caller's opening line where this is
/// its first nested call and it is not opened yet, then the call's own opening line
/// where opening lines are written eagerly.
pub open spec fn enter_lines(s: Seq<FrameView>, func: Seq<char>, args: Seq<char>, now_ts: u128, eager_open: bool, style: LineStyle) -> Seq<Seq<char>> {
    let parent_line = if s.len() > 0 && !s.last().has_child && !s.last().enter_printed {
        seq![styled(style, s.last().started_ts, open_line(s.last().depth, s.last().func, s.last().args))]
    } else {
        Seq::empty()
    };
    parent_line + if eager_open {
        seq![styled(style, now_ts, open_line(s.len(), func, args))]
    } else {
        Seq::empty()
    }
}

/// The time elapsed since `started_at`, in the configured unit.
pub open spec fn elapsed_in_unit(started_at: u128, now: u128, unit: TimeUnit) -> nat {
    in_unit(if now >= started_at { (now - started_at) as nat } else { 0 }, unit)
}

/// The lines written when the innermost call exits: for a call with nested calls
/// (or when braces are forced) its opening line if not yet written, then its closing
/// line; otherwise its single line.
pub open spec fn exit_lines(s: Seq<FrameView>, ret: Seq<char>, now: u128, force_brace: bool, style: LineStyle) -> Seq<Seq<char>> {
    if s.len() == 0 {
        Seq::empty()
    } else {
        let f = s.last();
        let v = elapsed_in_unit(f.started_at, now, style.unit);
        let u = unit_text(style.unit);
        if force_brace || f.has_child {
            (if !f.enter_printed { seq![styled(style, f.started_ts, open_line(f.depth, f.func, f.args))] } else { Seq::empty() })
                + seq![styled(style, f.started_ts, close_line(f.depth, ret, v, u))]
        } else {
            seq![styled(style, f.started_ts, leaf_line(f.depth, f.func, f.args, ret, v, u))]
        }
    }
}

/// The frames after the innermost call exits.
pub open spec fn exit_frames(s: Seq<FrameView>) -> Seq<FrameView> {
    if s.len() == 0 { s } else { s.drop_last() }
}

pub open spec fn lines_view(lines: Seq<String>) -> Seq<Seq<char>> {
    lines.map_values(|l: String| l@)
}

impl CallStack {
    pub closed spec fn frames_view(&self) -> Seq<FrameView> {
        self.frames@.map_values(|f: Frame| f@)
    }

    #[verifier::type_invariant]
    closed spec fn inv(&self) -> bool {
        stack_wf(self.frames_view())
    }

    /// An empty call stack.
    pub fn new() -> (r: Self)
        ensures
            r.frames_view() == Seq::<FrameView>::empty(),
    {
        let r = CallStack { frames: Vec::new() };
        assert(r.frames_view() =~= Seq::<FrameView>::empty());
        r
    }

    /// The number of calls in progress.
    pub fn depth(&self) -> (r: usize)
        ensures
            r as nat == self.frames_view().len(),
    {
        self.frames.len()
    }
}

/// Entering a call keeps the call stack well formed.
pub proof fn lemma_enter_keeps_wf(s: Seq<FrameView>, func: Seq<char>, args: Seq<char>, now_ts: u128, now: u128, eager_open: bool)
    requires
        stack_wf(s),
    ensures
        stack_wf(enter_frames(s, func, args, now_ts, now, eager_open)),
        enter_frames(s, func, args, now_ts, now, eager_open).len() == s.len() + 1,
{
    let t = enter_frames(s, func, args, now_ts, now, eager_open);
    assert forall|i: int| 0 <= i < t.len() implies {
        &&& #[trigger] t[i].depth == i
        &&& (i < t.len() - 1 ==> t[i].has_child)
        &&& (t[i].has_child ==> t[i].enter_printed)
    } by {
        if i < s.len() {
            assert(s[i].depth == i);
        }
    }
}

/// The innermost call exiting keeps the call stack well formed.
pub proof fn lemma_exit_keeps_wf(s: Seq<FrameView>)
    requires
        stack_wf(s),
    ensures
        stack_wf(exit_frames(s)),
{
    let t = exit_frames(s);
    assert forall|i: int| 0 <= i < t.len() implies {
        &&& #[trigger] t[i].depth == i
        &&& (i < t.len() - 1 ==> t[i].has_child)
        &&& (t[i].has_child ==> t[i].enter_printed)
    } by {
        assert(s[i].depth == i);
    }
}

fn styled_line(style: LineStyle, ts: u128, line: String) -> (r: String)
    ensures
        r@ == styled(style, ts, line@),
{
    prepend_left_meta(line.as_str(), style.tid, ts, style.meta, style.unit)
}

/// Enters a call: records it on `stack` and returns the lines to write now.
pub fn enter(
    stack: &mut CallStack,
    func: &str,
    args: String,
    now_ts: u128,
    now: u128,
    eager_open: bool,
    style: LineStyle,
) -> (r: (SpanToken, Vec<String>))
    ensures
        final(stack).frames_view() == enter_frames(old(stack).frames_view(), func@, args@, now_ts, now, eager_open),
        lines_view(r.1@) == enter_lines(old(stack).frames_view(), func@, args@, now_ts, eager_open, style),
{
    proof { use_type_invariant(&*stack); }
    let ghost s = stack.frames_view();
    let mut lines: Vec<String> = Vec::new();
    let n = stack.frames.len();
    let mut frames: Vec<Frame> = Vec::new();
    std::mem::swap(&mut frames, &mut stack.frames);
    assert(frames@.map_values(|f: Frame| f@) =~= s);
    if n > 0 {
        let parent = frames.pop().unwrap();
        let mut parent = parent;
        if !parent.has_child {
            parent.has_child = true;
            if !parent.enter_printed {
                parent.enter_printed = true;
                let l = format_open_line(parent.depth, parent.func.as_str(), parent.args.as_str());
                lines.push(styled_line(style, parent.started_ts, l));
            }
        }
        frames.push(parent);
    }
    let ghost mid = frames@.map_values(|f: Frame| f@);
    proof {
        assert(mid =~= with_caller_marked(s));
    }
    if eager_open {
        let l = format_open_line(n, func, args.as_str());
        lines.push(styled_line(style, now_ts, l));
    }
    let mut fname = String::new();
    fname.append(func);
    frames.push(Frame {
        func: fname,
        args,
        depth: n,
        started_ts: now_ts,
        started_at: now,
        has_child: false,
        enter_printed: eager_open,
    });
    proof {
        assert(frames@.map_values(|f: Frame| f@) =~= enter_frames(s, func@, args@, now_ts, now, eager_open));
        lemma_enter_keeps_wf(s, func@, args@, now_ts, now, eager_open);
        assert(lines_view(lines@) =~= enter_lines(s, func@, args@, now_ts, eager_open, style));
    }
    stack.frames = frames;
    (SpanToken, lines)
}

/// A duration in nanoseconds in the configured unit, with the unit's name.
pub fn duration_for_config(nanos: u128, unit: TimeUnit) -> (r: (u128, &'static str))
    ensures
        r.0 as nat == in_unit(nanos as nat, unit),
        r.1@ == unit_text(unit),
{
    (timestamp_in_unit(nanos, unit), unit_name(unit))
}

/// The innermost call exits with the returned value `ret`: it leaves `stack`, and the
/// lines to write now are returned. An empty stack stays as it is and writes nothing.
pub fn exit(stack: &mut CallStack, _token: SpanToken, ret: &str, now: u128, force_brace: bool, style: LineStyle) -> (r: Vec<String>)
    ensures
        final(stack).frames_view() == exit_frames(old(stack).frames_view()),
        lines_view(r@) == exit_lines(old(stack).frames_view(), ret@, now, force_brace, style),
{
    proof { use_type_invariant(&*stack); }
    let ghost s = stack.frames_view();
    let mut frames: Vec<Frame> = Vec::new();
    std::mem::swap(&mut frames, &mut stack.frames);
    assert(frames@.map_values(|f: Frame| f@) =~= s);
    let mut lines: Vec<String> = Vec::new();
    match frames.pop() {
        None => {
            proof {
                assert(frames@.map_values(|f: Frame| f@) =~= s);
                assert(lines_view(lines@) =~= Seq::<Seq<char>>::empty());
            }
            stack.frames = frames;
            lines
        },
        Some(f) => {
            proof {
                assert(frames@.map_values(|f: Frame| f@) =~= s.drop_last());
                lemma_exit_keeps_wf(s);
            }
            let elapsed: u128 = if now >= f.started_at { now - f.started_at } else { 0 };
            let (value, unit) = duration_for_config(elapsed, style.unit);
            if force_brace || f.has_child {
                if !f.enter_printed {
                    let l = format_open_line(f.depth, f.func.as_str(), f.args.as_str());
                    lines.push(styled_line(style, f.started_ts, l));
                }
                let l = format_close_line(f.depth, ret, value, unit);
                lines.push(styled_line(style, f.started_ts, l));
            } else {
                let l = format_leaf_line(f.depth, f.func.as_str(), f.args.as_str(), ret, value, unit);
                lines.push(styled_line(style, f.started_ts, l));
            }
            proof {
                assert(lines_view(lines@) =~= exit_lines(s, ret@, now, force_brace, style));
            }
            stack.frames = frames;
            lines
        },
    }
}

/// A call without nested calls, entered and then exited (opening lines not forced),
/// writes exactly one line, its `func(args) = ret  /* time */` line, and leaves the
/// stack as before except that its caller now counts as having a nested call.
pub proof fn lemma_leaf_call(
    s: Seq<FrameView>,
    func: Seq<char>,
    args: Seq<char>,
    ret: Seq<char>,
    now_ts: u128,
    start: u128,
    end: u128,
    style: LineStyle,
)
    requires
        stack_wf(s),
    ensures
        exit_frames(enter_frames(s, func, args, now_ts, start, false)) == with_caller_marked(s),
        exit_lines(enter_frames(s, func, args, now_ts, start, false), ret, end, false, style) == seq![
            styled(style, now_ts, leaf_line(s.len(), func, args, ret, elapsed_in_unit(start, end, style.unit), unit_text(style.unit))),
        ],
{
    let t = enter_frames(s, func, args, now_ts, start, false);
    assert(t.drop_last() =~= with_caller_marked(s));
}

/// A call with one nested call, none of them forced open: entering the nested call
/// writes the outer call's opening line, the nested call exits with its single line,
/// and the outer call then writes only its closing line. The outer call is opened
/// exactly once and the stack ends as it would after a call without nesting.
pub proof fn lemma_nested_call_opens_once(
    s: Seq<FrameView>,
    outer: (Seq<char>, Seq<char>),
    inner: (Seq<char>, Seq<char>),
    outer_ret: Seq<char>,
    inner_ret: Seq<char>,
    t0: u128,
    t1: u128,
    t2: u128,
    t3: u128,
    ts0: u128,
    ts1: u128,
    style: LineStyle,
)
    requires
        stack_wf(s),
    ensures ({
        let s1 = enter_frames(s, outer.0, outer.1, ts0, t0, false);
        let s2 = enter_frames(s1, inner.0, inner.1, ts1, t1, false);
        let s3 = exit_frames(s2);
        &&& enter_lines(s1, inner.0, inner.1, ts1, false, style) == seq![styled(style, ts0, open_line(s.len(), outer.0, outer.1))]
        &&& exit_lines(s2, inner_ret, t2, false, style) == seq![
            styled(style, ts1, leaf_line(s.len() + 1, inner.0, inner.1, inner_ret, elapsed_in_unit(t1, t2, style.unit), unit_text(style.unit))),
        ]
        &&& exit_lines(s3, outer_ret, t3, false, style) == seq![
            styled(style, ts0, close_line(s.len(), outer_ret, elapsed_in_unit(t0, t3, style.unit), unit_text(style.unit))),
        ]
        &&& exit_frames(s3) == with_caller_marked(s)
    }),
{
    let s1 = enter_frames(s, outer.0, outer.1, ts0, t0, false);
    let s2 = enter_frames(s1, inner.0, inner.1, ts1, t1, false);
    let s3 = exit_frames(s2);
    lemma_enter_keeps_wf(s, outer.0, outer.1, ts0, t0, false);
    assert(s2.drop_last() =~= with_caller_marked(s1));
    assert(s3.last() == mark_child(s1.last()));
    assert(s3.drop_last() =~= with_caller_marked(s));
    assert(enter_lines(s1, inner.0, inner.1, ts1, false, style) =~= seq![styled(style, ts0, open_line(s.len(), outer.0, outer.1))]);
    assert(exit_lines(s3, outer_ret, t3, false, style) =~= seq![
        styled(style, ts0, close_line(s.len(), outer_ret, elapsed_in_unit(t0, t3, style.unit), unit_text(style.unit))),
    ]);
}


/// A call as it happens on one thread: entered as `func(args)` at the clock reading
/// `start` (and the timestamp `ts`), making the nested calls `children` in order, then
/// returning `ret` at the clock reading `end`.
pub struct CallTree {
    pub func: Seq<char>,
    pub args: Seq<char>,
    pub ret: Seq<char>,
    pub ts: u128,
    pub start: u128,
    pub end: u128,
    pub children: Seq<CallTree>,
}

/// The frames and the lines written, in order, when the call `c` is entered on the stack
/// `s`, makes its nested calls and exits.
pub open spec fn run_call(s: Seq<FrameView>, c: CallTree, eager_open: bool, force_brace: bool, style: LineStyle) -> (Seq<FrameView>, Seq<Seq<char>>)
    decreases c, 0nat,
{
    let s1 = enter_frames(s, c.func, c.args, c.ts, c.start, eager_open);
    let l1 = enter_lines(s, c.func, c.args, c.ts, eager_open, style);
    let inner = run_calls(s1, c.children, c.children.len(), eager_open, force_brace, style);
    let s2 = inner.0;
    (exit_frames(s2), l1 + inner.1 + exit_lines(s2, c.ret, c.end, force_brace, style))
}

/// The frames and the lines written when the first `n` calls of `cs` are made, one
/// after another, on the stack `s`.
pub open spec fn run_calls(s: Seq<FrameView>, cs: Seq<CallTree>, n: nat, eager_open: bool, force_brace: bool, style: LineStyle) -> (Seq<FrameView>, Seq<Seq<char>>)
    decreases cs, n,
{
    if n == 0 || n > cs.len() {
        (s, Seq::empty())
    } else {
        let before = run_calls(s, cs, (n - 1) as nat, eager_open, force_brace, style);
        let last = run_call(before.0, cs[n - 1], eager_open, force_brace, style);
        (last.0, before.1 + last.1)
    }
}

/// The lines that stand for the call `c` at `depth` in the trace: a call without nested
/// calls (and braces not forced) is one `func(args) = ret` line; any other call is its
/// opening line, the lines of its nested calls one level deeper, and its closing line.
pub open spec fn render(c: CallTree, depth: nat, force_brace: bool, style: LineStyle) -> Seq<Seq<char>>
    decreases c, 0nat,
{
    let value = elapsed_in_unit(c.start, c.end, style.unit);
    if c.children.len() == 0 && !force_brace {
        seq![styled(style, c.ts, leaf_line(depth, c.func, c.args, c.ret, value, unit_text(style.unit)))]
    } else {
        seq![styled(style, c.ts, open_line(depth, c.func, c.args))]
            + render_all(c.children, c.children.len(), depth + 1, force_brace, style)
            + seq![styled(style, c.ts, close_line(depth, c.ret, value, unit_text(style.unit)))]
    }
}

/// The lines that stand for the first `n` calls of `cs`, one after another, at `depth`.
pub open spec fn render_all(cs: Seq<CallTree>, n: nat, depth: nat, force_brace: bool, style: LineStyle) -> Seq<Seq<char>>
    decreases cs, n,
{
    if n == 0 || n > cs.len() {
        Seq::empty()
    } else {
        render_all(cs, (n - 1) as nat, depth, force_brace, style) + render(cs[n - 1], depth, force_brace, style)
    }
}

/// The caller's opening line, written when its first nested call is entered while it is
/// not opened yet.
pub open spec fn pending_open(s: Seq<FrameView>, style: LineStyle) -> Seq<Seq<char>> {
    if s.len() > 0 && !s.last().has_child && !s.last().enter_printed {
        seq![styled(style, s.last().started_ts, open_line(s.last().depth, s.last().func, s.last().args))]
    } else {
        Seq::empty()
    }
}

proof fn lemma_caller_marked_wf(s: Seq<FrameView>)
    requires
        stack_wf(s),
    ensures
        stack_wf(with_caller_marked(s)),
        with_caller_marked(with_caller_marked(s)) == with_caller_marked(s),
        forall|style: LineStyle| #[trigger] pending_open(with_caller_marked(s), style) == Seq::<Seq<char>>::empty(),
        with_caller_marked(s).len() == s.len(),
{
    let t = with_caller_marked(s);
    assert forall|i: int| 0 <= i < t.len() implies {
        &&& #[trigger] t[i].depth == i
        &&& (i < t.len() - 1 ==> t[i].has_child)
        &&& (t[i].has_child ==> t[i].enter_printed)
    } by {
        assert(s[i].depth == i);
    }
    assert(with_caller_marked(t) =~= t);
}

proof fn lemma_run_call(s: Seq<FrameView>, c: CallTree, eager_open: bool, force_brace: bool, style: LineStyle)
    requires
        stack_wf(s),
        eager_open ==> force_brace,
    ensures
        run_call(s, c, eager_open, force_brace, style)
            == (with_caller_marked(s), pending_open(s, style) + render(c, s.len(), force_brace, style)),
    decreases c, 0nat,
{
    let s1 = enter_frames(s, c.func, c.args, c.ts, c.start, eager_open);
    let l1 = enter_lines(s, c.func, c.args, c.ts, eager_open, style);
    lemma_enter_keeps_wf(s, c.func, c.args, c.ts, c.start, eager_open);
    assert(s1.drop_last() =~= with_caller_marked(s));
    let n = c.children.len();
    let value = elapsed_in_unit(c.start, c.end, style.unit);
    let u = unit_text(style.unit);
    let open_c = styled(style, c.ts, open_line(s.len(), c.func, c.args));
    let close_c = styled(style, c.ts, close_line(s.len(), c.ret, value, u));
    assert(l1 =~= pending_open(s, style) + if eager_open { seq![open_c] } else { Seq::empty() });
    if n == 0 {
        assert(run_calls(s1, c.children, n, eager_open, force_brace, style) == (s1, Seq::<Seq<char>>::empty()));
        assert(render_all(c.children, n, s.len() + 1, force_brace, style) =~= Seq::<Seq<char>>::empty());
        assert(s1.last().depth == s.len() && s1.last().started_ts == c.ts && s1.last().started_at == c.start);
        assert(s1.last().func == c.func && s1.last().args == c.args && !s1.last().has_child);
        assert(s1.last().enter_printed == eager_open);
        let r = run_call(s, c, eager_open, force_brace, style);
        assert(r.1 =~= pending_open(s, style) + render(c, s.len(), force_brace, style));
    } else {
        lemma_run_calls(s1, c.children, n, eager_open, force_brace, style);
        let inner = run_calls(s1, c.children, n, eager_open, force_brace, style);
        let s2 = inner.0;
        assert(s2 == with_caller_marked(s1));
        assert(pending_open(s1, style) =~= if eager_open { Seq::empty() } else { seq![open_c] });
        assert(s2.last() == mark_child(s1.last()));
        assert(s2.drop_last() =~= with_caller_marked(s));
        assert(exit_lines(s2, c.ret, c.end, force_brace, style) =~= seq![close_c]);
        let r = run_call(s, c, eager_open, force_brace, style);
        assert(r.1 =~= pending_open(s, style) + render(c, s.len(), force_brace, style));
    }
}

proof fn lemma_run_calls(s: Seq<FrameView>, cs: Seq<CallTree>, n: nat, eager_open: bool, force_brace: bool, style: LineStyle)
    requires
        stack_wf(s),
        eager_open ==> force_brace,
        0 < n <= cs.len(),
    ensures
        run_calls(s, cs, n, eager_open, force_brace, style)
            == (with_caller_marked(s), pending_open(s, style) + render_all(cs, n, s.len(), force_brace, style)),
    decreases cs, n,
{
    let before = run_calls(s, cs, (n - 1) as nat, eager_open, force_brace, style);
    if n == 1 {
        assert(before == (s, Seq::<Seq<char>>::empty()));
        lemma_run_call(s, cs[0], eager_open, force_brace, style);
        assert(render_all(cs, 0, s.len(), force_brace, style) =~= Seq::<Seq<char>>::empty());
        let r = run_calls(s, cs, n, eager_open, force_brace, style);
        assert(r.1 =~= pending_open(s, style) + render_all(cs, n, s.len(), force_brace, style));
    } else {
        lemma_run_calls(s, cs, (n - 1) as nat, eager_open, force_brace, style);
        lemma_caller_marked_wf(s);
        let m = with_caller_marked(s);
        lemma_run_call(m, cs[n - 1], eager_open, force_brace, style);
        assert(pending_open(m, style) == Seq::<Seq<char>>::empty());
        let r = run_calls(s, cs, n, eager_open, force_brace, style);
        assert(r.1 =~= pending_open(s, style) + render_all(cs, n, s.len(), force_brace, style));
    }
}

/// A whole run of calls on a thread that starts with no call in progress, each call
/// entered and exited in nested order, ends with no call in progress and writes exactly
/// the rendering of its calls: a call without nested calls (braces not forced) as one
/// line, any other call as an opening line before, and a closing line after, the lines of
/// its nested calls, each call indented by its depth. Where opening lines are written
/// eagerly, braces are forced too; this changes when opening lines are written, not what
/// is written.
pub proof fn lemma_balanced_run(calls: Seq<CallTree>, eager_open: bool, force_brace: bool, style: LineStyle)
    requires
        eager_open ==> force_brace,
    ensures
        run_calls(Seq::empty(), calls, calls.len(), eager_open, force_brace, style)
            == (Seq::<FrameView>::empty(), render_all(calls, calls.len(), 0, force_brace, style)),
{
    let e = Seq::<FrameView>::empty();
    assert(stack_wf(e));
    if calls.len() > 0 {
        lemma_run_calls(e, calls, calls.len(), eager_open, force_brace, style);
        assert(with_caller_marked(e) == e);
        assert(pending_open(e, style) =~= Seq::<Seq<char>>::empty());
        assert(pending_open(e, style) + render_all(calls, calls.len(), 0, force_brace, style)
            =~= render_all(calls, calls.len(), 0, force_brace, style));
    } else {
        assert(render_all(calls, 0, 0, force_brace, style) =~= Seq::<Seq<char>>::empty());
    }
}

} // verus!
