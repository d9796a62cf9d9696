//! Command-line controls of the agent.
//!
//! `--dry-run` evaluates the detector and reports the intended actions
//! without loading eBPF, connecting to NATS, signalling processes or
//! publishing invariants. `--once` completes one scan cycle and exits.

use vstd::prelude::*;
use vstd::string::*;

verus! {

/// The agent's run controls.
#[derive(Debug, Clone, Copy, PartialEq, Eq, Structural)]
pub struct RunOptions {
    pub dry_run: bool,
    pub once: bool,
}

/// Some argument is exactly `flag`.
pub open spec fn has_flag(args: Seq<Seq<char>>, flag: Seq<char>) -> bool {
    exists|i: int| 0 <= i < args.len() && #[trigger] args[i] == flag
}

/// The views of a sequence of strings.
pub open spec fn arg_views(args: Seq<String>) -> Seq<Seq<char>> {
    args.map_values(|a: String| a@)
}

impl RunOptions {
    /// The controls named by `args` (the arguments after the program
    /// name): `--dry-run` and `--once` switch their control on; any other
    /// argument is ignored.
    pub fn from_args(args: &Vec<String>) -> (o: RunOptions)
        ensures
            o.dry_run == has_flag(arg_views(args@), "--dry-run"@),
            o.once == has_flag(arg_views(args@), "--once"@),
    {
        let dry = String::from_str("--dry-run");
        let once = String::from_str("--once");
        let mut o = RunOptions { dry_run: false, once: false };
        let n = args.len();
        for i in 0..n
            invariant
                n == args@.len(),
                dry@ == "--dry-run"@,
                once@ == "--once"@,
                o.dry_run == exists|k: int| 0 <= k < i && args@[k]@ == "--dry-run"@,
                o.once == exists|k: int| 0 <= k < i && args@[k]@ == "--once"@,
        {
            if args[i] == dry {
                o.dry_run = true;
            }
            if args[i] == once {
                o.once = true;
            }
        }
        proof {
            assert(o.dry_run == has_flag(arg_views(args@), "--dry-run"@)) by {
                if o.dry_run {
                    let k = choose|k: int| 0 <= k < n && args@[k]@ == "--dry-run"@;
                    assert(arg_views(args@)[k] == "--dry-run"@);
                }
                if has_flag(arg_views(args@), "--dry-run"@) {
                    let k = choose|k: int| 0 <= k < arg_views(args@).len() && #[trigger] arg_views(args@)[k] == "--dry-run"@;
                    assert(args@[k]@ == "--dry-run"@);
                }
            }
            assert(o.once == has_flag(arg_views(args@), "--once"@)) by {
                if o.once {
                    let k = choose|k: int| 0 <= k < n && args@[k]@ == "--once"@;
                    assert(arg_views(args@)[k] == "--once"@);
                }
                if has_flag(arg_views(args@), "--once"@) {
                    let k = choose|k: int| 0 <= k < arg_views(args@).len() && #[trigger] arg_views(args@)[k] == "--once"@;
                    assert(args@[k]@ == "--once"@);
                }
            }
        }
        o
    }

    /// Whether the run may act on the system: load eBPF, connect to NATS,
    /// signal processes and publish invariants. A dry run does none.
    pub fn enforces(&self) -> (r: bool)
        ensures
            r == !self.dry_run,
    {
        !self.dry_run
    }

    /// Whether the agent keeps scanning after the current cycle.
    pub fn continues(&self) -> (r: bool)
        ensures
            r == !self.once,
    {
        !self.once
    }
}

} // verus!
