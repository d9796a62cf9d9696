//! Graduated response enforcement.
//!
//! Soft → SIGSTOP the process; Medium → SIGSTOP the process tree;
//! Kill → SIGKILL the process tree. Flagged processes are remembered with a
//! time-to-live and swept once it has elapsed. PID 1 and the agent itself
//! are never flagged or signalled directly.

use vstd::prelude::*;

use vstd::std_specs::hash::spec_keys_iter;
use vstd::std_specs::iter::IteratorSpec;

use std::collections::HashMap;
use std::time::{Duration, Instant};

pub use crate::action::Action;

use crate::action::action_code;

use crate::detection::FileHollow;
use crate::process_tree::{collect_descendants, descendant_list, descendant_order, ProcessLink};
use crate::text::{decimal, push_decimal};
use vstd::string::*;

verus! {

broadcast use vstd::std_specs::hash::group_hash_axioms;

/// `std::time::Instant`, a reading of the monotonic clock, held opaquely.
#[verifier::external_type_specification]
#[verifier::external_body]
pub struct ExInstant(Instant);

/// `Instant::now()`: a reading of the monotonic clock; nothing is stated
/// of it.
#[verifier::external_body]
fn clock_now() -> (t: Instant) {
    Instant::now()
}

/// `Instant::elapsed`: the time since `start` on the monotonic clock. Its
/// value depends on when it is called, so nothing is stated of it.
#[verifier::external_body]
fn elapsed_since(start: &Instant) -> (d: Duration) {
    start.elapsed()
}

/// `Duration::as_nanos`, narrowed to 64 bits (enough for about 584
/// years). `Duration` is opaque here, so nothing is stated of the result.
#[verifier::external_body]
fn whole_nanos(d: &Duration) -> (ns: u64) {
    d.as_nanos() as u64
}

/// Nanoseconds on the monotonic clock since `start`.
fn nanos_since(start: &Instant) -> (ns: u64) {
    let d = elapsed_since(start);
    whole_nanos(&d)
}

/// A record of an enforcement decision.
#[derive(Debug, Clone)]
pub struct EnforcementRecord {
    pub pid: u32,
    pub action: Action,
    pub reason: String,
    pub process_hash: String,
    pub applied_at: u64,
    pub ttl_secs: u64,
}

/// What is remembered about a flagged process.
#[derive(Debug, Clone, Copy, PartialEq, Eq, Structural)]
pub struct FlagEntry {
    pub action: Action,
    /// When the flag was set, in nanoseconds on the controller's clock.
    pub flagged_at_ns: u64,
    pub ttl_secs: u64,
}

impl FlagEntry {
    /// Whether this flag's time-to-live has fully elapsed at `now_ns`.
    pub fn is_expired(&self, now_ns: u64) -> (r: bool)
        ensures
            r == expired(*self, now_ns),
    {
        let elapsed = if now_ns >= self.flagged_at_ns {
            now_ns - self.flagged_at_ns
        } else {
            0
        };
        elapsed / 1_000_000_000 >= self.ttl_secs
    }
}

/// Nanoseconds from `then` to `now`, zero if `now` is earlier.
pub open spec fn elapsed_ns(then: u64, now: u64) -> int {
    if now >= then {
        now - then
    } else {
        0
    }
}

/// The flag's time-to-live has fully elapsed at `now_ns`.
pub open spec fn expired(e: FlagEntry, now_ns: u64) -> bool {
    elapsed_ns(e.flagged_at_ns, now_ns) / 1_000_000_000 >= e.ttl_secs
}

/// The flags still live at `now_ns`.
pub open spec fn live_flags(m: Map<u32, FlagEntry>, now_ns: u64) -> Map<u32, FlagEntry> {
    Map::new(|pid: u32| m.contains_key(pid) && !expired(m[pid], now_ns), |pid: u32| m[pid])
}

/// The pids whose flags have expired at `now_ns`.
pub open spec fn expired_pids(m: Map<u32, FlagEntry>, now_ns: u64) -> Set<u32> {
    Set::new(|pid: u32| m.contains_key(pid) && expired(m[pid], now_ns))
}

/// The signal number of SIGSTOP.
pub const SIGSTOP: i32 = 19;

/// The signal number of SIGKILL.
pub const SIGKILL: i32 = 9;

/// One signal to deliver to one process.
#[derive(Debug, Clone, Copy, PartialEq, Eq, Structural)]
pub struct SignalStep {
    pub pid: u32,
    pub signal: i32,
}

/// The outcome of a userspace containment decision: whether it applies,
/// and the signals to deliver, in order.
#[derive(Debug, Clone)]
pub struct UserspacePlan {
    pub applied: bool,
    pub signals: Vec<SignalStep>,
}

/// `signal` for every pid of `pids`, in order.
pub open spec fn signal_all(pids: Seq<u32>, signal: i32) -> Seq<SignalStep> {
    pids.map_values(|p: u32| SignalStep { pid: p, signal })
}

/// The signals for `action` against `pid`, whose descendants are `d`:
/// nothing for Allow; SIGSTOP to `pid` for Soft; SIGSTOP to every
/// descendant and then `pid` for Medium; SIGKILL to the descendants in
/// reverse discovery order and then `pid` for Kill.
pub open spec fn planned_signals(pid: u32, action: Action, d: Seq<u32>) -> Seq<SignalStep> {
    match action {
        Action::Allow => Seq::empty(),
        Action::Soft => seq![SignalStep { pid, signal: SIGSTOP }],
        Action::Medium => signal_all(d, SIGSTOP).push(SignalStep { pid, signal: SIGSTOP }),
        Action::Kill => signal_all(d.reverse(), SIGKILL).push(SignalStep { pid, signal: SIGKILL }),
    }
}

/// `signal` for every pid of `pids`, in order.
fn signals_for(pids: &Vec<u32>, signal: i32) -> (v: Vec<SignalStep>)
    ensures
        v@ == signal_all(pids@, signal),
{
    let n = pids.len();
    let mut v: Vec<SignalStep> = Vec::new();
    for i in 0..n
        invariant
            n == pids@.len(),
            v@ == signal_all(pids@.subrange(0, i as int), signal),
    {
        v.push(SignalStep { pid: pids[i], signal });
        proof {
            assert(v@ =~= signal_all(pids@.subrange(0, i + 1), signal));
        }
    }
    proof {
        assert(pids@.subrange(0, n as int) =~= pids@);
    }
    v
}

/// `signal` for every pid of `pids`, last to first.
fn signals_for_reversed(pids: &Vec<u32>, signal: i32) -> (v: Vec<SignalStep>)
    ensures
        v@ == signal_all(pids@.reverse(), signal),
{
    let n = pids.len();
    let mut v: Vec<SignalStep> = Vec::new();
    let mut i = n;
    while i > 0
        invariant
            n == pids@.len(),
            i <= n,
            v@ == signal_all(pids@.subrange(i as int, n as int).reverse(), signal),
        decreases i,
    {
        i = i - 1;
        v.push(SignalStep { pid: pids[i], signal });
        proof {
            assert(v@ =~= signal_all(pids@.subrange(i as int, n as int).reverse(), signal));
        }
    }
    proof {
        assert(pids@.subrange(0, n as int) =~= pids@);
    }
    v
}

/// Time-to-live of the flag set on a detected process, in seconds.
pub const FLAG_TTL_SECS: u64 = 60;

/// The audit reason recorded for a detection.
pub open spec fn reason_text(risk: u8, name: Seq<char>) -> Seq<char> {
    "risk="@ + decimal(risk as nat) + " name="@ + name
}

/// The audit reason for a detected process: `risk=<r> name=<name>`.
pub fn containment_reason(hollow: &FileHollow) -> (r: String)
    ensures
        r@ == reason_text(hollow.risk, hollow.process_name@),
{
    let mut r = String::from_str("risk=");
    push_decimal(&mut r, hollow.risk as u64);
    r.append(" name=");
    r.append(hollow.process_name.as_str());
    proof {
        assert(r@ =~= reason_text(hollow.risk, hollow.process_name@));
    }
    r
}

/// The decision taken on one detection.
#[derive(Debug, Clone)]
pub struct Response {
    pub action: Action,
    pub reason: String,
    pub plan: UserspacePlan,
}

/// The graduated response for a risk score.
pub open spec fn action_for(risk: u8) -> Action {
    if risk <= 3 {
        Action::Allow
    } else if risk <= 6 {
        Action::Soft
    } else if risk <= 8 {
        Action::Medium
    } else {
        Action::Kill
    }
}

/// The flagged-process set (mirrors the kernel action map) and the pids
/// that must never be flagged.
pub struct EnforcementController {
    flagged: HashMap<u32, FlagEntry>,
    whitelist: Vec<u32>,
    clock: Instant,
}

impl EnforcementController {
    /// The flags currently held, by pid.
    pub closed spec fn flags(&self) -> Map<u32, FlagEntry> {
        self.flagged@
    }

    /// The pids that are never flagged.
    pub closed spec fn protected(&self) -> Seq<u32> {
        self.whitelist@
    }

    /// No protected pid holds a flag.
    pub open spec fn no_protected_flagged(&self) -> bool {
        forall|pid: u32| #[trigger] self.flags().contains_key(pid) ==> !self.protected().contains(pid)
    }

    #[verifier::type_invariant]
    closed spec fn inv(self) -> bool {
        forall|pid: u32| #[trigger] self.flagged@.contains_key(pid) ==> !self.whitelist@.contains(pid)
    }

    /// A controller with no flags whose whitelist holds PID 1 and
    /// `self_pid`, the agent's own process id.
    pub fn new(self_pid: u32) -> (c: Self)
        ensures
            c.flags() == Map::<u32, FlagEntry>::empty(),
            c.protected() == seq![1u32, self_pid],
    {
        let mut whitelist = Vec::new();
        whitelist.push(1);
        whitelist.push(self_pid);
        let c = EnforcementController { flagged: HashMap::new(), whitelist, clock: clock_now() };
        proof {
            assert(c.whitelist@ =~= seq![1u32, self_pid]);
        }
        c
    }

    /// Whether `pid` is protected from flagging and signalling.
    pub fn is_whitelisted(&self, pid: u32) -> (r: bool)
        ensures
            r == self.protected().contains(pid),
    {
        let n = self.whitelist.len();
        for i in 0..n
            invariant
                n == self.whitelist@.len(),
                forall|k: int| 0 <= k < i ==> self.whitelist@[k] != pid,
        {
            if self.whitelist[i] == pid {
                return true;
            }
        }
        false
    }

    /// Flags `pid` with `action` for `ttl_secs` seconds, as of `now_ns` on
    /// the controller's clock, replacing any earlier flag; a whitelisted
    /// pid is refused and nothing changes.
    pub fn flag_at(&mut self, pid: u32, action: Action, ttl_secs: u64, now_ns: u64)
        ensures
            final(self).no_protected_flagged(),
            final(self).protected() == old(self).protected(),
            old(self).protected().contains(pid) ==> final(self).flags() == old(self).flags(),
            !old(self).protected().contains(pid) ==> final(self).flags() == old(self).flags().insert(
                pid,
                FlagEntry { action, flagged_at_ns: now_ns, ttl_secs },
            ),
    {
        proof {
            use_type_invariant(&*self);
        }
        if self.is_whitelisted(pid) {
            return;
        }
        let entry = FlagEntry { action, flagged_at_ns: now_ns, ttl_secs };
        let mut flagged = HashMap::new();
        std::mem::swap(&mut flagged, &mut self.flagged);
        flagged.insert(pid, entry);
        self.flagged = flagged;
        proof {
            use_type_invariant(&*self);
        }
    }

    /// Removes every flag whose time-to-live has elapsed at `now_ns`;
    /// returns the removed pids, each once.
    pub fn sweep_at(&mut self, now_ns: u64) -> (expired: Vec<u32>)
        ensures
            final(self).no_protected_flagged(),
            final(self).protected() == old(self).protected(),
            final(self).flags() == live_flags(old(self).flags(), now_ns),
            expired@.no_duplicates(),
            expired@.to_set() == expired_pids(old(self).flags(), now_ns),
    {
        proof {
            use_type_invariant(&*self);
        }
        let mut keys: Vec<u32> = Vec::new();
        let ghost m = self.flagged@;
        for k in it: self.flagged.keys()
            invariant
                keys@ == it.seq().take(it.index()).map_values(|r: &u32| *r),
                it.seq() == spec_keys_iter(&self.flagged).remaining(),
        {
            proof {
                assert(keys@.push(*k) =~= it.seq().take(it.index() + 1).map_values(|r: &u32| *r));
            }
            keys.push(*k);
        }
        proof {
            assert(keys@ =~= spec_keys_iter(&self.flagged).remaining().unref());
            assert(keys@.to_set() == m.dom());
            assert(keys@.no_duplicates());
        }
        let mut live = HashMap::new();
        std::mem::swap(&mut live, &mut self.flagged);
        let mut gone: Vec<u32> = Vec::new();
        let n = keys.len();
        for i in 0..n
            invariant
                n == keys@.len(),
                keys@.to_set() == m.dom(),
                keys@.no_duplicates(),
                live@ == Map::new(
                    |pid: u32|
                        m.contains_key(pid) && !(keys@.subrange(0, i as int).contains(pid) && expired(
                            m[pid],
                            now_ns,
                        )),
                    |pid: u32| m[pid],
                ),
                gone@.no_duplicates(),
                forall|pid: u32|
                    gone@.contains(pid) <==> (keys@.subrange(0, i as int).contains(pid) && expired(
                        m[pid],
                        now_ns,
                    )),
        {
            let pid = keys[i];
            proof {
                assert(keys@.to_set().contains(pid));
                assert(!keys@.subrange(0, i as int).contains(pid)) by {
                    if keys@.subrange(0, i as int).contains(pid) {
                        let j = choose|j: int| 0 <= j < i && keys@[j] == pid;
                        assert(keys@[j] == keys@[i as int]);
                    }
                }
                assert(keys@.subrange(0, i + 1) =~= keys@.subrange(0, i as int).push(pid));
                assert forall|q: u32|
                    keys@.subrange(0, i + 1).contains(q) <==> (keys@.subrange(0, i as int).contains(q)
                        || q == pid) by {
                    if keys@.subrange(0, i + 1).contains(q) {
                        let j = choose|j: int| 0 <= j < i + 1 && #[trigger] keys@.subrange(0, i + 1)[j] == q;
                        if j < i {
                            assert(keys@.subrange(0, i as int)[j] == q);
                        }
                    }
                    if keys@.subrange(0, i as int).contains(q) {
                        let j = choose|j: int| 0 <= j < i && #[trigger] keys@.subrange(0, i as int)[j] == q;
                        assert(keys@.subrange(0, i + 1)[j] == q);
                    }
                    if q == pid {
                        assert(keys@.subrange(0, i + 1)[i as int] == q);
                    }
                }
            }
            let ghost before = live@;
            let ghost old_gone = gone@;
            assert(before.contains_key(pid));
            let entry = *live.get(&pid).unwrap();
            assert(entry == m[pid]);
            if entry.is_expired(now_ns) {
                live.remove(&pid);
                assert(live@ == before.remove(pid));
                assert(!gone@.contains(pid));
                gone.push(pid);
                assert forall|q: u32| gone@.contains(q) <==> (old_gone.contains(q) || q == pid) by {
                    if gone@.contains(q) {
                        let j = choose|j: int| 0 <= j < gone@.len() && #[trigger] gone@[j] == q;
                        if j < old_gone.len() {
                            assert(old_gone[j] == q);
                        }
                    }
                    if old_gone.contains(q) {
                        let j = choose|j: int| 0 <= j < old_gone.len() && #[trigger] old_gone[j] == q;
                        assert(gone@[j] == q);
                    }
                    if q == pid {
                        assert(gone@[old_gone.len() as int] == q);
                    }
                }
            } else {
                assert(live@ == before);
            }
            proof {
                assert forall|q: u32|
                    gone@.contains(q) <==> (keys@.subrange(0, i + 1).contains(q) && expired(
                        m[q],
                        now_ns,
                    )) by {
                    assert(old_gone.contains(q) <==> (keys@.subrange(0, i as int).contains(q)
                        && expired(m[q], now_ns)));
                }
                assert(live@ =~= Map::new(
                    |q: u32|
                        m.contains_key(q) && !(keys@.subrange(0, i + 1).contains(q) && expired(
                            m[q],
                            now_ns,
                        )),
                    |q: u32| m[q],
                ));
            }
        }
        proof {
            assert(keys@.subrange(0, n as int) =~= keys@);
            assert(live@ =~= live_flags(m, now_ns));
            assert(gone@.to_set() =~= expired_pids(m, now_ns));
        }
        self.flagged = live;
        proof {
            use_type_invariant(&*self);
        }
        gone
    }

    /// Flags `pid` with `action` for `ttl_secs` seconds from now, replacing
    /// any earlier flag; a whitelisted pid is refused and nothing changes.
    /// `reason` is carried for the audit log only.
    pub fn flag(&mut self, pid: u32, action: Action, ttl_secs: u64, reason: &str)
        ensures
            final(self).no_protected_flagged(),
            final(self).protected() == old(self).protected(),
            old(self).protected().contains(pid) ==> final(self).flags() == old(self).flags(),
            !old(self).protected().contains(pid) ==> exists|now_ns: u64|
                final(self).flags() == old(self).flags().insert(
                    pid,
                    FlagEntry { action, flagged_at_ns: now_ns, ttl_secs },
                ),
    {
        let now_ns = nanos_since(&self.clock);
        self.flag_at(pid, action, ttl_secs, now_ns);
    }

    /// Expires the flags whose time-to-live has elapsed; returns the
    /// expired pids (for clearing the kernel map), each once.
    pub fn sweep(&mut self) -> (expired: Vec<u32>)
        ensures
            final(self).no_protected_flagged(),
            final(self).protected() == old(self).protected(),
            exists|now_ns: u64|
                {
                    &&& final(self).flags() == live_flags(old(self).flags(), now_ns)
                    &&& expired@.to_set() == expired_pids(old(self).flags(), now_ns)
                },
            expired@.no_duplicates(),
    {
        let now_ns = nanos_since(&self.clock);
        self.sweep_at(now_ns)
    }

    /// Userspace containment of `pid` under `action`, against a snapshot
    /// of the process table: refused (not applied, no signals) for a
    /// whitelisted pid; otherwise applied with the signals of
    /// `planned_signals`, the descendants being those the depth-first
    /// traversal of `processes` finds, in its order.
    pub fn apply_userspace(&self, pid: u32, action: Action, processes: &Vec<ProcessLink>) -> (plan: UserspacePlan)
        ensures
            self.protected().contains(pid) ==> !plan.applied && plan.signals@ == Seq::<SignalStep>::empty(),
            !self.protected().contains(pid) ==> plan.applied,
            !self.protected().contains(pid) ==> plan.signals@ == planned_signals(
                pid,
                action,
                descendant_order(processes@, pid),
            ),
            !self.protected().contains(pid) && (action == Action::Medium || action == Action::Kill)
                ==> descendant_list(processes@, pid, descendant_order(processes@, pid)),
    {
        if self.is_whitelisted(pid) {
            return UserspacePlan { applied: false, signals: Vec::new() };
        }
        match action {
            Action::Allow => UserspacePlan { applied: true, signals: Vec::new() },
            Action::Soft => {
                let mut signals = Vec::new();
                signals.push(SignalStep { pid, signal: SIGSTOP });
                proof {
                    assert(signals@ =~= planned_signals(pid, action, Seq::empty()));
                }
                UserspacePlan { applied: true, signals }
            },
            Action::Medium => {
                let children = collect_descendants(pid, processes);
                let mut signals = signals_for(&children, SIGSTOP);
                signals.push(SignalStep { pid, signal: SIGSTOP });
                assert(signals@ == planned_signals(pid, action, children@));
                UserspacePlan { applied: true, signals }
            },
            Action::Kill => {
                let children = collect_descendants(pid, processes);
                let mut signals = signals_for_reversed(&children, SIGKILL);
                signals.push(SignalStep { pid, signal: SIGKILL });
                assert(signals@ == planned_signals(pid, action, children@));
                UserspacePlan { applied: true, signals }
            },
        }
    }

    /// One cycle's response to a detected process: choose the graduated
    /// action for its risk, flag it for `FLAG_TTL_SECS` seconds with its
    /// audit reason, then plan its userspace containment against the
    /// process table `processes`.
    pub fn respond(&mut self, hollow: &FileHollow, processes: &Vec<ProcessLink>) -> (r: Response)
        ensures
            r.action == action_for(hollow.risk),
            r.reason@ == reason_text(hollow.risk, hollow.process_name@),
            final(self).protected() == old(self).protected(),
            final(self).no_protected_flagged(),
            old(self).protected().contains(hollow.pid) ==> final(self).flags() == old(self).flags(),
            !old(self).protected().contains(hollow.pid) ==> exists|now_ns: u64|
                final(self).flags() == old(self).flags().insert(
                    hollow.pid,
                    FlagEntry { action: r.action, flagged_at_ns: now_ns, ttl_secs: FLAG_TTL_SECS },
                ),
            old(self).protected().contains(hollow.pid) ==> !r.plan.applied && r.plan.signals@
                == Seq::<SignalStep>::empty(),
            !old(self).protected().contains(hollow.pid) ==> r.plan.applied,
            !old(self).protected().contains(hollow.pid) ==> r.plan.signals@ == planned_signals(
                hollow.pid,
                r.action,
                descendant_order(processes@, hollow.pid),
            ),
            !old(self).protected().contains(hollow.pid) && (r.action == Action::Medium || r.action
                == Action::Kill) ==> descendant_list(
                processes@,
                hollow.pid,
                descendant_order(processes@, hollow.pid),
            ),
    {
        let action = Self::action_for_risk(hollow.risk);
        let reason = containment_reason(hollow);
        self.flag(hollow.pid, action, FLAG_TTL_SECS, reason.as_str());
        let plan = self.apply_userspace(hollow.pid, action, processes);
        Response { action, reason, plan }
    }

    /// The graduated response for a risk score: Allow for 0–3, Soft for
    /// 4–6, Medium for 7–8 and Kill for 9 and above.
    pub fn action_for_risk(risk: u8) -> (a: Action)
        ensures
            a == action_for(risk),
    {
        if risk <= 3 {
            Action::Allow
        } else if risk <= 6 {
            Action::Soft
        } else if risk <= 8 {
            Action::Medium
        } else {
            Action::Kill
        }
    }
}

/// The response is graduated: a higher risk never gets a milder action.
pub proof fn lemma_response_is_graduated(lower: u8, higher: u8)
    requires
        lower <= higher,
    ensures
        action_code(action_for(lower)) <= action_code(action_for(higher)),
{
}

/// A flag just set on `pid` survives a sweep at `now_ns` exactly while its
/// time-to-live has not elapsed, and then it is unchanged.
pub proof fn lemma_flag_then_sweep(m: Map<u32, FlagEntry>, pid: u32, e: FlagEntry, now_ns: u64)
    ensures
        live_flags(m.insert(pid, e), now_ns).contains_key(pid) <==> !expired(e, now_ns),
        !expired(e, now_ns) ==> live_flags(m.insert(pid, e), now_ns)[pid] == e,
        expired(e, now_ns) <==> expired_pids(m.insert(pid, e), now_ns).contains(pid),
{
}

/// A flag with a positive time-to-live survives a sweep at the instant it
/// was set.
pub proof fn lemma_fresh_flag_survives(e: FlagEntry)
    requires
        e.ttl_secs > 0,
    ensures
        !expired(e, e.flagged_at_ns),
{
}

/// Once a flag has expired it stays expired at every later instant.
pub proof fn lemma_expiry_is_permanent(e: FlagEntry, earlier: u64, later: u64)
    requires
        earlier <= later,
        expired(e, earlier),
    ensures
        expired(e, later),
{
    assert(elapsed_ns(e.flagged_at_ns, earlier) <= elapsed_ns(e.flagged_at_ns, later));
    vstd::arithmetic::div_mod::lemma_div_is_ordered(
        elapsed_ns(e.flagged_at_ns, earlier),
        elapsed_ns(e.flagged_at_ns, later),
        1_000_000_000,
    );
}

/// A second sweep at the same instant finds nothing more to expire.
pub proof fn lemma_sweep_settles(m: Map<u32, FlagEntry>, now_ns: u64)
    ensures
        live_flags(live_flags(m, now_ns), now_ns) == live_flags(m, now_ns),
        expired_pids(live_flags(m, now_ns), now_ns) == Set::<u32>::empty(),
{
    assert(live_flags(live_flags(m, now_ns), now_ns) =~= live_flags(m, now_ns));
    assert(expired_pids(live_flags(m, now_ns), now_ns) =~= Set::<u32>::empty());
}

/// The graduated response table: risk 0–3 is allowed, 4–6 gets Soft
/// (SIGSTOP), 7–8 Medium (SIGSTOP tree) and 9 and above Kill (SIGKILL
/// tree).
pub proof fn lemma_response_table(risk: u8)
    ensures
        risk <= 3 ==> action_code(action_for(risk)) == 0,
        4 <= risk <= 6 ==> action_code(action_for(risk)) == 1,
        7 <= risk <= 8 ==> action_code(action_for(risk)) == 2,
        9 <= risk ==> action_code(action_for(risk)) == 3,
{
}

} // verus!
