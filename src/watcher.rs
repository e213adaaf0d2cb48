//! The process watcher: a state machine that is fed process-list scans and
//! decides which discoveries to report and when to scan again.
use crate::target::TargetPathSet;
use vstd::prelude::*;

verus! {

/// How long a watch may go without a find.
#[derive(Clone, Copy, Debug, PartialEq, Eq, Structural)]
pub enum Timeout {
    /// The watch never expires; only a stop ends it.
    Never,
    /// The watch expires once this many milliseconds have passed without a
    /// find.
    After { ms: u64 },
}

/// The parameters of one watch session.
#[derive(Clone, Copy, Debug, PartialEq, Eq, Structural)]
pub struct WatchSpec {
    /// Milliseconds between two scans; never 0.
    pub polling_ms: u64,
    pub timeout: Timeout,
    /// Whether the session ends with its first discovery.
    pub oneshot: bool,
}

impl WatchSpec {
    pub open spec fn wf(&self) -> bool {
        self.polling_ms > 0
    }
}

/// What a watch session reports.
#[derive(Clone, Copy, Debug, PartialEq, Eq, Structural)]
pub enum DiscoveryEvent {
    /// A target process with this identifier was found.
    Found { pid: u32 },
    /// The watch expired without a find.
    TimedOut,
}

/// What the driver of a watcher does next.
#[derive(Clone, Copy, Debug, PartialEq, Eq, Structural)]
pub enum Next {
    /// Scan the process list after this many milliseconds.
    ScanAfter { ms: u64 },
    /// The session is over.
    Finish,
}

/// One entry of the process list.
#[derive(Debug)]
pub struct ProcessEntry {
    pub pid: u32,
    pub image_path: String,
}

/// The state of a watch session, as the contracts see it.
pub enum WatchPhase {
    Idle,
    /// Watching, with the targets seen by the last scan.
    Watching { seen: Seq<u32> },
    Resolved { pid: u32 },
    TimedOut,
    Stopped,
}

/// An event fed to a watch session, as the contracts see it.
pub enum WatchInput {
    Start,
    /// A scan that found these target processes, this many milliseconds
    /// after the session started.
    Observed { found: Seq<u32>, elapsed_ms: u64 },
    /// A scan that could not read the process list.
    ScanFailed { elapsed_ms: u64 },
    Stop,
}

/// The identifiers of the entries whose image path is a target, in order.
pub open spec fn matching(targets: TargetPathSet, entries: Seq<ProcessEntry>) -> Seq<u32>
    decreases entries.len(),
{
    if entries.len() == 0 {
        Seq::empty()
    } else {
        let rest = matching(targets, entries.drop_last());
        if targets.matches_path(entries.last().image_path@) {
            rest.push(entries.last().pid)
        } else {
            rest
        }
    }
}

/// The identifiers of `found` that `seen` does not hold, each once, in the
/// order of their first occurrence.
pub open spec fn fresh(found: Seq<u32>, seen: Seq<u32>) -> Seq<u32>
    decreases found.len(),
{
    if found.len() == 0 {
        Seq::empty()
    } else {
        let rest = fresh(found.drop_last(), seen);
        let p = found.last();
        if seen.contains(p) || found.drop_last().contains(p) {
            rest
        } else {
            rest.push(p)
        }
    }
}

/// A discovery for each identifier.
pub open spec fn found_events(pids: Seq<u32>) -> Seq<DiscoveryEvent> {
    pids.map_values(|p: u32| DiscoveryEvent::Found { pid: p })
}

/// Whether a scan at `elapsed_ms` with no new find ends the session.
pub open spec fn expired(ws: WatchSpec, elapsed_ms: u64) -> bool {
    match ws.timeout {
        Timeout::Never => false,
        Timeout::After { ms } => elapsed_ms >= ms,
    }
}

/// A scan result with these new targets, at `elapsed_ms`; `seen` is what the
/// session remembers afterwards.
pub open spec fn after_scan(ws: WatchSpec, new: Seq<u32>, seen: Seq<u32>, elapsed_ms: u64) -> (
    WatchPhase,
    Seq<DiscoveryEvent>,
    Next,
) {
    if new.len() > 0 {
        if ws.oneshot {
            (
                WatchPhase::Resolved { pid: new[0] },
                seq![DiscoveryEvent::Found { pid: new[0] }],
                Next::Finish,
            )
        } else {
            (WatchPhase::Watching { seen }, found_events(new), Next::ScanAfter { ms: ws.polling_ms })
        }
    } else if expired(ws, elapsed_ms) {
        (WatchPhase::TimedOut, seq![DiscoveryEvent::TimedOut], Next::Finish)
    } else {
        (WatchPhase::Watching { seen }, Seq::empty(), Next::ScanAfter { ms: ws.polling_ms })
    }
}

/// One transition: the next phase, the events to deliver in order, and what
/// to do next.
pub open spec fn step(ws: WatchSpec, phase: WatchPhase, input: WatchInput) -> (
    WatchPhase,
    Seq<DiscoveryEvent>,
    Next,
) {
    match phase {
        WatchPhase::Idle => match input {
            WatchInput::Start => (WatchPhase::Watching { seen: Seq::empty() }, Seq::empty(), Next::ScanAfter { ms: 0 }),
            WatchInput::Stop => (WatchPhase::Stopped, Seq::empty(), Next::Finish),
            _ => (WatchPhase::Idle, Seq::empty(), Next::Finish),
        },
        WatchPhase::Watching { seen } => match input {
            WatchInput::Start => (WatchPhase::Watching { seen }, Seq::empty(), Next::ScanAfter { ms: ws.polling_ms }),
            WatchInput::Observed { found, elapsed_ms } => after_scan(ws, fresh(found, seen), found, elapsed_ms),
            WatchInput::ScanFailed { elapsed_ms } => after_scan(ws, Seq::empty(), seen, elapsed_ms),
            WatchInput::Stop => (WatchPhase::Stopped, Seq::empty(), Next::Finish),
        },
        _ => (phase, Seq::empty(), Next::Finish),
    }
}

/// Feeds the inputs one after the other: the last phase and every event
/// delivered, in order.
pub open spec fn run_inputs(ws: WatchSpec, phase: WatchPhase, inputs: Seq<WatchInput>) -> (
    WatchPhase,
    Seq<DiscoveryEvent>,
)
    decreases inputs.len(),
{
    if inputs.len() == 0 {
        (phase, Seq::empty())
    } else {
        let (p, d, _n) = step(ws, phase, inputs[0]);
        let (q, e) = run_inputs(ws, p, inputs.drop_first());
        (q, d + e)
    }
}

/// The state of a watch session.
#[derive(Debug)]
pub enum WatchState {
    /// Created, not started yet.
    Idle,
    /// Scanning; `seen` holds the targets that the last scan found.
    Watching { seen: Vec<u32> },
    /// A one-shot session found this process.
    Resolved { pid: u32 },
    /// A session expired without a find.
    TimedOut,
    /// A session was stopped from outside.
    Stopped,
}

impl WatchState {
    pub open spec fn phase(&self) -> WatchPhase {
        match self {
            WatchState::Idle => WatchPhase::Idle,
            WatchState::Watching { seen } => WatchPhase::Watching { seen: seen@ },
            WatchState::Resolved { pid } => WatchPhase::Resolved { pid: *pid },
            WatchState::TimedOut => WatchPhase::TimedOut,
            WatchState::Stopped => WatchPhase::Stopped,
        }
    }
}

/// An event fed to a watch session.
#[derive(Debug)]
pub enum WatchEvent {
    /// Begin watching.
    Start,
    /// The process list, read this many milliseconds after the start.
    Scanned { processes: Vec<ProcessEntry>, elapsed_ms: u64 },
    /// A target process known by its identifier, without a scan.
    Known { pid: u32, elapsed_ms: u64 },
    /// The process list could not be read this time.
    ScanFailed { elapsed_ms: u64 },
    /// Stop watching.
    Stop,
}

/// What an event amounts to, given the targets.
pub open spec fn input_of(targets: TargetPathSet, event: WatchEvent) -> WatchInput {
    match event {
        WatchEvent::Start => WatchInput::Start,
        WatchEvent::Scanned { processes, elapsed_ms } => WatchInput::Observed {
            found: matching(targets, processes@),
            elapsed_ms,
        },
        WatchEvent::Known { pid, elapsed_ms } => WatchInput::Observed { found: seq![pid], elapsed_ms },
        WatchEvent::ScanFailed { elapsed_ms } => WatchInput::ScanFailed { elapsed_ms },
        WatchEvent::Stop => WatchInput::Stop,
    }
}

/// What one event led to: the events to deliver, in order, and what to do
/// next.
#[derive(Debug)]
pub struct WatchStep {
    pub deliver: Vec<DiscoveryEvent>,
    pub next: Next,
}

/// The identifiers of the processes whose image path is a target, in the
/// order of the list.
pub fn matching_pids(targets: &TargetPathSet, processes: &Vec<ProcessEntry>) -> (r: Vec<u32>)
    ensures
        r@ == matching(*targets, processes@),
{
    let mut r: Vec<u32> = Vec::new();
    let mut i: usize = 0;
    while i < processes.len()
        invariant
            i <= processes@.len(),
            r@ == matching(*targets, processes@.subrange(0, i as int)),
        decreases processes@.len() - i,
    {
        assert(processes@.subrange(0, i + 1).drop_last() =~= processes@.subrange(0, i as int));
        let e = &processes[i];
        if targets.is_target(e.image_path.as_str()) {
            r.push(e.pid);
        }
        i = i + 1;
    }
    assert(processes@.subrange(0, processes@.len() as int) =~= processes@);
    r
}

/// Whether `v` holds `p` among its first `n` entries.
fn holds_pid(v: &Vec<u32>, n: usize, p: u32) -> (r: bool)
    requires
        n <= v@.len(),
    ensures
        r == v@.subrange(0, n as int).contains(p),
{
    let mut i: usize = 0;
    while i < n
        invariant
            i <= n <= v@.len(),
            !v@.subrange(0, i as int).contains(p),
        decreases n - i,
    {
        if v[i] == p {
            assert(v@.subrange(0, n as int)[i as int] == p);
            return true;
        }
        assert(v@.subrange(0, i + 1) =~= v@.subrange(0, i as int).push(v@[i as int]));
        i = i + 1;
    }
    false
}

/// The identifiers of `found` that `seen` does not hold, each once, in the
/// order of their first occurrence.
pub fn fresh_pids(found: &Vec<u32>, seen: &Vec<u32>) -> (r: Vec<u32>)
    ensures
        r@ == fresh(found@, seen@),
{
    let mut r: Vec<u32> = Vec::new();
    let mut i: usize = 0;
    while i < found.len()
        invariant
            i <= found@.len(),
            r@ == fresh(found@.subrange(0, i as int), seen@),
        decreases found@.len() - i,
    {
        let p = found[i];
        let in_seen = holds_pid(seen, seen.len(), p);
        let earlier = holds_pid(found, i, p);
        assert(seen@.subrange(0, seen@.len() as int) =~= seen@);
        assert(found@.subrange(0, i + 1).drop_last() =~= found@.subrange(0, i as int));
        if !in_seen && !earlier {
            r.push(p);
        }
        i = i + 1;
    }
    assert(found@.subrange(0, found@.len() as int) =~= found@);
    r
}

/// A discovery for each identifier.
fn found_event_list(pids: &Vec<u32>) -> (r: Vec<DiscoveryEvent>)
    ensures
        r@ == found_events(pids@),
{
    let mut r: Vec<DiscoveryEvent> = Vec::new();
    let mut i: usize = 0;
    while i < pids.len()
        invariant
            i <= pids@.len(),
            r@ == found_events(pids@.subrange(0, i as int)),
        decreases pids@.len() - i,
    {
        r.push(DiscoveryEvent::Found { pid: pids[i] });
        i = i + 1;
        assert(r@ =~= found_events(pids@.subrange(0, i as int)));
    }
    assert(pids@.subrange(0, pids@.len() as int) =~= pids@);
    r
}

/// A session that watches for the target processes.
#[derive(Debug)]
pub struct ProcessWatcher {
    pub targets: TargetPathSet,
    pub spec: WatchSpec,
    pub state: WatchState,
}

impl ProcessWatcher {
    pub open spec fn wf(&self) -> bool {
        self.spec.wf()
    }

    /// A session that has not started, or `None` where the polling interval
    /// is 0.
    pub fn new(targets: TargetPathSet, polling_ms: u64, timeout: Timeout, oneshot: bool) -> (r:
        Option<ProcessWatcher>)
        ensures
            r is Some <==> polling_ms > 0,
            r matches Some(w) ==> {
                &&& w.wf()
                &&& w.targets == targets
                &&& w.spec == (WatchSpec { polling_ms, timeout, oneshot })
                &&& w.state.phase() == WatchPhase::Idle
            },
    {
        if polling_ms == 0 {
            None
        } else {
            Some(ProcessWatcher {
                targets,
                spec: WatchSpec { polling_ms, timeout, oneshot },
                state: WatchState::Idle,
            })
        }
    }

    fn conclude(&mut self, new: Vec<u32>, seen: Vec<u32>, elapsed_ms: u64) -> (r: WatchStep)
        ensures
            final(self).targets == old(self).targets,
            final(self).spec == old(self).spec,
            (final(self).state.phase(), r.deliver@, r.next) == after_scan(
                old(self).spec,
                new@,
                seen@,
                elapsed_ms,
            ),
    {
        if new.len() > 0 {
            if self.spec.oneshot {
                let pid = new[0];
                self.state = WatchState::Resolved { pid };
                let deliver: Vec<DiscoveryEvent> = vec![DiscoveryEvent::Found { pid }];
                assert(deliver@ =~= seq![DiscoveryEvent::Found { pid }]);
                WatchStep { deliver, next: Next::Finish }
            } else {
                let deliver = found_event_list(&new);
                self.state = WatchState::Watching { seen };
                WatchStep { deliver, next: Next::ScanAfter { ms: self.spec.polling_ms } }
            }
        } else {
            let expired = match self.spec.timeout {
                Timeout::Never => false,
                Timeout::After { ms } => elapsed_ms >= ms,
            };
            if expired {
                self.state = WatchState::TimedOut;
                let deliver: Vec<DiscoveryEvent> = vec![DiscoveryEvent::TimedOut];
                assert(deliver@ =~= seq![DiscoveryEvent::TimedOut]);
                WatchStep { deliver, next: Next::Finish }
            } else {
                self.state = WatchState::Watching { seen };
                WatchStep { deliver: Vec::new(), next: Next::ScanAfter { ms: self.spec.polling_ms } }
            }
        }
    }

    /// Feeds one event to the session: it moves as `step` says and returns
    /// the events to deliver and what to do next.
    pub fn step(&mut self, event: WatchEvent) -> (r: WatchStep)
        ensures
            final(self).targets == old(self).targets,
            final(self).spec == old(self).spec,
            (final(self).state.phase(), r.deliver@, r.next) == step(
                old(self).spec,
                old(self).state.phase(),
                input_of(old(self).targets, event),
            ),
    {
        let mut state = WatchState::Stopped;
        std::mem::swap(&mut state, &mut self.state);
        match state {
            WatchState::Idle => match event {
                WatchEvent::Start => {
                    self.state = WatchState::Watching { seen: Vec::new() };
                    WatchStep { deliver: Vec::new(), next: Next::ScanAfter { ms: 0 } }
                },
                WatchEvent::Stop => WatchStep { deliver: Vec::new(), next: Next::Finish },
                _ => {
                    self.state = WatchState::Idle;
                    WatchStep { deliver: Vec::new(), next: Next::Finish }
                },
            },
            WatchState::Watching { seen } => match event {
                WatchEvent::Start => {
                    self.state = WatchState::Watching { seen };
                    WatchStep { deliver: Vec::new(), next: Next::ScanAfter { ms: self.spec.polling_ms } }
                },
                WatchEvent::Scanned { processes, elapsed_ms } => {
                    let found = matching_pids(&self.targets, &processes);
                    let new = fresh_pids(&found, &seen);
                    self.conclude(new, found, elapsed_ms)
                },
                WatchEvent::Known { pid, elapsed_ms } => {
                    let found: Vec<u32> = vec![pid];
                    assert(found@ =~= seq![pid]);
                    let new = fresh_pids(&found, &seen);
                    self.conclude(new, found, elapsed_ms)
                },
                WatchEvent::ScanFailed { elapsed_ms } => {
                    let new: Vec<u32> = Vec::new();
                    assert(new@ =~= Seq::<u32>::empty());
                    self.conclude(new, seen, elapsed_ms)
                },
                WatchEvent::Stop => WatchStep { deliver: Vec::new(), next: Next::Finish },
            },
            other => {
                self.state = other;
                WatchStep { deliver: Vec::new(), next: Next::Finish }
            },
        }
    }
}

/// Whether an input is a scan that found no target.
pub open spec fn finds_nothing(input: WatchInput) -> bool {
    ||| input matches WatchInput::Observed { found, .. } && found.len() == 0
    ||| input is ScanFailed
}

/// When a scan input was taken; 0 for the other inputs.
pub open spec fn elapsed_of(input: WatchInput) -> u64 {
    match input {
        WatchInput::Observed { elapsed_ms, .. } => elapsed_ms,
        WatchInput::ScanFailed { elapsed_ms } => elapsed_ms,
        _ => 0,
    }
}

/// A session that has ended delivers nothing more, whatever it is fed.
pub proof fn lemma_ended_delivers_nothing(ws: WatchSpec, phase: WatchPhase, inputs: Seq<WatchInput>)
    requires
        phase is Resolved || phase is TimedOut || phase is Stopped,
    ensures
        run_inputs(ws, phase, inputs) == (phase, Seq::<DiscoveryEvent>::empty()),
    decreases inputs.len(),
{
    if inputs.len() > 0 {
        lemma_ended_delivers_nothing(ws, phase, inputs.drop_first());
        assert(Seq::<DiscoveryEvent>::empty() + Seq::<DiscoveryEvent>::empty() =~= Seq::<
            DiscoveryEvent,
        >::empty());
    }
}

proof fn lemma_watching_expires_once(
    ws: WatchSpec,
    seen: Seq<u32>,
    inputs: Seq<WatchInput>,
    k: int,
)
    requires
        ws.oneshot,
        ws.timeout is After,
        forall|i: int| 0 <= i < inputs.len() ==> finds_nothing(#[trigger] inputs[i]),
        0 <= k < inputs.len(),
        elapsed_of(inputs[k]) >= ws.timeout->ms,
    ensures
        run_inputs(ws, WatchPhase::Watching { seen }, inputs) == (
            WatchPhase::TimedOut,
            seq![DiscoveryEvent::TimedOut],
        ),
    decreases inputs.len(),
{
    let first = inputs[0];
    assert(finds_nothing(first));
    let (p, d, _n) = step(ws, WatchPhase::Watching { seen }, first);
    if let WatchInput::Observed { found, .. } = first {
        assert(fresh(found, seen) =~= Seq::<u32>::empty());
    }
    let rest = inputs.drop_first();
    if elapsed_of(first) >= ws.timeout->ms {
        lemma_ended_delivers_nothing(ws, WatchPhase::TimedOut, rest);
        assert(d + Seq::<DiscoveryEvent>::empty() =~= seq![DiscoveryEvent::TimedOut]);
    } else {
        assert(k > 0);
        assert(forall|i: int| 0 <= i < rest.len() ==> rest[i] == inputs[i + 1]);
        let seen2 = match first {
            WatchInput::Observed { found, .. } => found,
            _ => seen,
        };
        assert(p == WatchPhase::Watching { seen: seen2 });
        lemma_watching_expires_once(ws, seen2, rest, k - 1);
        assert(d =~= Seq::<DiscoveryEvent>::empty());
        assert(d + seq![DiscoveryEvent::TimedOut] =~= seq![DiscoveryEvent::TimedOut]);
    }
}

/// A started one-shot watch with a timeout, whose scans find no target,
/// delivers exactly one expiry, and nothing before it, as soon as one scan
/// comes at or after the timeout; it has then ended.
pub proof fn lemma_oneshot_times_out_once(ws: WatchSpec, scans: Seq<WatchInput>, k: int)
    requires
        ws.wf(),
        ws.oneshot,
        ws.timeout is After,
        forall|i: int| 0 <= i < scans.len() ==> finds_nothing(#[trigger] scans[i]),
        0 <= k < scans.len(),
        elapsed_of(scans[k]) >= ws.timeout->ms,
    ensures
        run_inputs(ws, WatchPhase::Idle, seq![WatchInput::Start] + scans) == (
            WatchPhase::TimedOut,
            seq![DiscoveryEvent::TimedOut],
        ),
{
    let inputs = seq![WatchInput::Start] + scans;
    assert(inputs.drop_first() =~= scans);
    lemma_watching_expires_once(ws, Seq::empty(), scans, k);
    assert(Seq::<DiscoveryEvent>::empty() + seq![DiscoveryEvent::TimedOut] =~= seq![
        DiscoveryEvent::TimedOut,
    ]);
}

/// A persistent watch with no timeout reports a newly started target exactly
/// once and keeps watching; while that process lives it is not reported
/// again, and a later process with another identifier is reported in turn.
pub proof fn lemma_persistent_reports_each_start(
    ws: WatchSpec,
    seen: Seq<u32>,
    p: u32,
    q: u32,
    t1: u64,
    t2: u64,
    t3: u64,
)
    requires
        ws.wf(),
        !ws.oneshot,
        ws.timeout == Timeout::Never,
        !seen.contains(p),
        p != q,
    ensures
        step(ws, WatchPhase::Watching { seen }, WatchInput::Observed { found: seq![p], elapsed_ms: t1 })
            == (
            WatchPhase::Watching { seen: seq![p] },
            seq![DiscoveryEvent::Found { pid: p }],
            Next::ScanAfter { ms: ws.polling_ms },
        ),
        step(ws, WatchPhase::Watching { seen: seq![p] }, WatchInput::Observed { found: seq![p], elapsed_ms: t2 })
            == (
            WatchPhase::Watching { seen: seq![p] },
            Seq::<DiscoveryEvent>::empty(),
            Next::ScanAfter { ms: ws.polling_ms },
        ),
        step(ws, WatchPhase::Watching { seen: seq![p] }, WatchInput::Observed { found: seq![q], elapsed_ms: t3 })
            == (
            WatchPhase::Watching { seen: seq![q] },
            seq![DiscoveryEvent::Found { pid: q }],
            Next::ScanAfter { ms: ws.polling_ms },
        ),
{
    assert(seq![p].drop_last() =~= Seq::<u32>::empty());
    assert(seq![q].drop_last() =~= Seq::<u32>::empty());
    assert(fresh(Seq::<u32>::empty(), seen) =~= Seq::<u32>::empty());
    assert(fresh(Seq::<u32>::empty(), seq![p]) =~= Seq::<u32>::empty());
    assert(!Seq::<u32>::empty().contains(p));
    assert(!Seq::<u32>::empty().contains(q));
    assert(seq![p].last() == p);
    assert(seq![q].last() == q);
    assert(fresh(seq![p], seen) =~= seq![p]);
    assert(seq![p].contains(p)) by {
        assert(seq![p][0] == p);
    }
    assert(fresh(seq![p], seq![p]) =~= Seq::<u32>::empty());
    assert(!seq![p].contains(q)) by {
        if seq![p].contains(q) {
            let i = choose|i: int| 0 <= i < 1 && seq![p][i] == q;
        }
    }
    assert(fresh(seq![q], seq![p]) =~= seq![q]);
    assert(found_events(seq![p]) =~= seq![DiscoveryEvent::Found { pid: p }]);
    assert(found_events(seq![q]) =~= seq![DiscoveryEvent::Found { pid: q }]);
}

/// A scan reports exactly the targets that the last scan did not see: each
/// identifier it found that is not in `seen`, once, and nothing else.
pub proof fn lemma_fresh_reports_each_new_pid_once(found: Seq<u32>, seen: Seq<u32>)
    ensures
        forall|p: u32| fresh(found, seen).contains(p) <==> (found.contains(p) && !seen.contains(p)),
        fresh(found, seen).no_duplicates(),
    decreases found.len(),
{
    if found.len() > 0 {
        let init = found.drop_last();
        let last = found.last();
        lemma_fresh_reports_each_new_pid_once(init, seen);
        let rest = fresh(init, seen);
        assert(found =~= init.push(last));
        assert forall|p: u32| fresh(found, seen).contains(p) <==> (found.contains(p) && !seen.contains(p)) by {
            if found.contains(p) {
                let i = choose|i: int| 0 <= i < found.len() && found[i] == p;
                if i < init.len() {
                    assert(init[i] == p);
                }
            }
            if init.contains(p) {
                let i = choose|i: int| 0 <= i < init.len() && init[i] == p;
                assert(found[i] == p);
            }
            if !(seen.contains(last) || init.contains(last)) {
                assert(rest.push(last)[rest.len() as int] == last);
                if rest.push(last).contains(p) && p != last {
                    let i = choose|i: int| 0 <= i < rest.len() + 1 && rest.push(last)[i] == p;
                    assert(rest[i] == p);
                }
                if rest.contains(p) {
                    let i = choose|i: int| 0 <= i < rest.len() && rest[i] == p;
                    assert(rest.push(last)[i] == p);
                }
            }
            assert(found[found.len() - 1] == last);
        }
        if !(seen.contains(last) || init.contains(last)) {
            assert(!rest.contains(last));
            assert forall|i: int, j: int| 0 <= i < j < rest.len() + 1 implies rest.push(last)[i]
                != rest.push(last)[j] by {
                if j == rest.len() {
                    assert(rest[i] == rest.push(last)[i]);
                }
            }
        }
    }
}

} // verus!
