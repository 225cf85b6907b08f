use vstd::prelude::*;

verus! {

/// `v + 1`, staying at the maximum.
pub open spec fn sat_inc(v: u32) -> u32 {
    if v == u32::MAX { v } else { (v + 1) as u32 }
}

/// `v - 1`, staying at zero.
pub open spec fn sat_dec(v: u32) -> u32 {
    if v == 0 { 0 } else { (v - 1) as u32 }
}

/// How many bypass scopes are open on the current thread.
pub struct BypassDepth {
    depth: u32,
}

impl View for BypassDepth {
    type V = u32;

    closed spec fn view(&self) -> u32 {
        self.depth
    }
}

impl BypassDepth {
    /// No bypass scope is open.
    pub fn new() -> (r: Self)
        ensures
            r@ == 0,
    {
        BypassDepth { depth: 0 }
    }

    /// The number of open bypass scopes.
    pub fn get(&self) -> (r: u32)
        ensures
            r == self@,
    {
        self.depth
    }
}

/// A scope in which intercepted calls are passed through without tracing.
pub struct HookBypassGuard {
    active: bool,
}

impl View for HookBypassGuard {
    type V = bool;

    /// Whether the guard counted itself in the depth and must count itself out.
    closed spec fn view(&self) -> bool {
        self.active
    }
}

impl HookBypassGuard {
    /// Opens a bypass scope: the depth grows by one (staying at the maximum).
    pub fn enter(depth: &mut BypassDepth) -> (r: Self)
        ensures
            final(depth)@ == sat_inc(old(depth)@),
            r@,
    {
        depth.depth = if depth.depth == u32::MAX { depth.depth } else { depth.depth + 1 };
        HookBypassGuard { active: true }
    }

    /// A guard for a thread whose depth can no longer be reached; it changes nothing.
    pub fn unavailable() -> (r: Self)
        ensures
            !r@,
    {
        HookBypassGuard { active: false }
    }

    /// Closes the bypass scope: the depth shrinks by one (staying at zero) if the guard counted itself in.
    pub fn release(self, depth: &mut BypassDepth)
        ensures
            self@ ==> final(depth)@ == sat_dec(old(depth)@),
            !self@ ==> final(depth)@ == old(depth)@,
    {
        if self.active {
            depth.depth = if depth.depth == 0 { 0 } else { depth.depth - 1 };
        }
    }
}

/// Whether intercepted calls are to be passed through untraced: some bypass scope is open.
pub fn hooks_blocked(depth: &BypassDepth) -> (r: bool)
    ensures
        r == (depth@ > 0),
{
    depth.depth > 0
}

/// Opening and then closing a bypass scope gives the depth back, unless it was at the maximum;
/// while the scope is open, hooks are blocked.
pub proof fn lemma_bypass_scope_restores(d: u32)
    requires
        d < u32::MAX,
    ensures
        sat_dec(sat_inc(d)) == d,
        sat_inc(d) > 0,
{
}


/// The bypass depth after a series of guard events from `d`: `true` opens a guard,
/// `false` releases one that counted itself in.
pub open spec fn depth_after(d: u32, events: Seq<bool>) -> u32
    decreases events.len(),
{
    if events.len() == 0 {
        d
    } else {
        let before = depth_after(d, events.drop_last());
        if events.last() { sat_inc(before) } else { sat_dec(before) }
    }
}

/// How many guards are alive after a series of guard events: those opened less those released.
pub open spec fn alive_after(events: Seq<bool>) -> int
    decreases events.len(),
{
    if events.len() == 0 {
        0
    } else {
        alive_after(events.drop_last()) + if events.last() { 1int } else { -1int }
    }
}

/// On a thread that starts with no bypass scope, where each release is that of a guard
/// still alive and fewer than `u32::MAX` guards are ever alive at once, the depth is the
/// number of guards alive, so hooks are blocked exactly while some guard is alive.
pub proof fn lemma_blocked_iff_guard_alive(events: Seq<bool>)
    requires
        forall|k: int| 0 <= k <= events.len() ==> 0 <= #[trigger] alive_after(events.take(k)) < u32::MAX,
    ensures
        depth_after(0, events) == alive_after(events),
        (depth_after(0, events) > 0) <==> alive_after(events) > 0,
    decreases events.len(),
{
    assert(events.take(events.len() as int) =~= events);
    if events.len() > 0 {
        let p = events.drop_last();
        assert forall|k: int| 0 <= k <= p.len() implies 0 <= #[trigger] alive_after(p.take(k)) < u32::MAX by {
            assert(p.take(k) =~= events.take(k));
        }
        lemma_blocked_iff_guard_alive(p);
    }
}

} // verus!
