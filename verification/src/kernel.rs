//! Decisions of the optional kernel enforcement path: where the compiled
//! eBPF object is looked for, and when the kernel program kills.

use vstd::prelude::*;
use vstd::string::*;

use crate::action::{action_code, Action};

verus! {

/// Action code at or above which the kernel program sends SIGKILL.
pub const ACTION_KILL: u8 = 3;

/// The default places of the eBPF object, in search order.
pub open spec fn default_object_paths() -> Seq<Seq<char>> {
    seq![
        "./ahr-ebpf.o"@,
        "./target/bpfel-unknown-none/release/ahr-ebpf"@,
        "/usr/lib/ahr-endpoint/ahr-ebpf.o"@,
    ]
}

/// The search order: the path named by the environment, if any, first,
/// then the defaults.
pub open spec fn object_search_order(env_path: Option<Seq<char>>) -> Seq<Seq<char>> {
    match env_path {
        Some(p) => seq![p] + default_object_paths(),
        None => default_object_paths(),
    }
}

/// The names held in a sequence of strings.
pub open spec fn string_views(v: Seq<String>) -> Seq<Seq<char>> {
    v.map_values(|s: String| s@)
}

/// The places to look for the eBPF object, in order: `env_path` (the value
/// of `AHR_EBPF_OBJECT`, when set), then the defaults.
pub fn object_candidates(env_path: Option<String>) -> (v: Vec<String>)
    ensures
        string_views(v@) == object_search_order(
            match env_path {
                Some(p) => Some(p@),
                None => None,
            },
        ),
{
    let mut v: Vec<String> = Vec::new();
    match env_path {
        Some(p) => {
            v.push(p);
        },
        None => {},
    }
    v.push(String::from_str("./ahr-ebpf.o"));
    v.push(String::from_str("./target/bpfel-unknown-none/release/ahr-ebpf"));
    v.push(String::from_str("/usr/lib/ahr-endpoint/ahr-ebpf.o"));
    proof {
        assert(string_views(v@) =~= object_search_order(
            match env_path {
                Some(p) => Some(p@),
                None => None,
            },
        ));
    }
    v
}

/// The first of `paths` that is an existing file, given `is_file[i]` for
/// each `paths[i]`.
pub fn first_existing(paths: &Vec<String>, is_file: &Vec<bool>) -> (r: Option<usize>)
    requires
        paths@.len() == is_file@.len(),
    ensures
        match r {
            Some(i) => i < paths@.len() && is_file@[i as int] && forall|j: int| 0 <= j < i ==> !is_file@[j],
            None => forall|j: int| 0 <= j < paths@.len() ==> !is_file@[j],
        },
{
    let n = is_file.len();
    for i in 0..n
        invariant
            n == is_file@.len(),
            n == paths@.len(),
            forall|j: int| 0 <= j < i ==> !is_file@[j],
    {
        if is_file[i] {
            return Some(i);
        }
    }
    None
}

/// The kernel program's decision for a process whose action-map entry is
/// `entry`: kill exactly when an entry at or above Kill is present.
pub fn kernel_should_kill(entry: Option<u8>) -> (kill: bool)
    ensures
        kill == (entry matches Some(a) && a >= ACTION_KILL),
{
    match entry {
        Some(a) => a >= ACTION_KILL,
        None => false,
    }
}

/// The kernel kills a flagged process exactly when userspace flagged it
/// with `Kill`.
pub proof fn lemma_kernel_kills_only_kill(a: Action)
    ensures
        (action_code(a) >= ACTION_KILL) <==> a == Action::Kill,
{
}

} // verus!
