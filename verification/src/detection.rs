//! Behavioral detection of ransomware-like processes.
//!
//! A process is flagged when its lowercased name carries a suspicious
//! indicator and it is under CPU or memory pressure. The scan works on a
//! snapshot of the process table taken by the caller.

use vstd::prelude::*;
use vstd::string::*;
use vstd::utf8::encode_utf8;

use rand::Rng;
use sha2::{Digest, Sha256};
use std::time::Duration;

use crate::action::Action;
use crate::enforcement::action_for;
use crate::measure::{exceeds, f32_bits_gt, CPU_THRESHOLD_BITS};
use crate::text::{chars_of, contains_chars, contains_seq, hex_lower, hex_lower_string};

verus! {

/// What a full Unicode lowercase mapping (`str::to_lowercase`) makes of a
/// string.
pub uninterp spec fn unicode_lowercase(s: Seq<char>) -> Seq<char>;

/// `str::to_lowercase`: the result is the Unicode lowercase mapping of `s`,
/// a function of `s` alone.
#[verifier::external_body]
fn to_lowercase(s: &str) -> (r: String)
    ensures
        r@ == unicode_lowercase(s@),
{
    s.to_lowercase()
}

/// The SHA-256 digest of a byte string.
pub uninterp spec fn sha256_digest(data: Seq<u8>) -> Seq<u8>;

/// `sha2::Sha256::digest`: the 32-byte SHA-256 digest of `data`.
#[verifier::external_body]
fn sha256(data: &[u8]) -> (r: Vec<u8>)
    ensures
        r@ == sha256_digest(data@),
        r@.len() == 32,
{
    Sha256::digest(data).to_vec()
}

/// `rand::thread_rng().gen_range(lo..=hi)`: a value drawn from the
/// thread-local generator, between `lo` and `hi` inclusive. Which value is
/// drawn is left open.
#[verifier::external_body]
fn random_between(lo: u64, hi: u64) -> (r: u64)
    requires
        lo <= hi,
    ensures
        lo <= r <= hi,
{
    rand::thread_rng().gen_range(lo..=hi)
}

/// The `Duration` of `ms` milliseconds.
pub uninterp spec fn duration_of_millis(ms: u64) -> Duration;

/// `Duration::from_millis`: the duration of exactly `ms` milliseconds.
#[verifier::external_body]
fn duration_from_millis(ms: u64) -> (d: Duration)
    ensures
        d == duration_of_millis(ms),
{
    Duration::from_millis(ms)
}

/// One row of a process-table snapshot.
#[derive(Debug, Clone)]
pub struct ProcessSample {
    pub pid: u32,
    pub name: String,
    /// CPU usage in percent, as an `f32` bit pattern.
    pub cpu_usage_bits: u32,
    /// Resident memory in bytes.
    pub memory: u64,
}

/// A process flagged by the detector.
#[derive(Debug, Clone)]
pub struct FileHollow {
    pub pid: u32,
    pub risk: u8,
    /// Lowercase hex SHA-256 of the name's UTF-8 bytes followed by the pid
    /// as four little-endian bytes.
    pub process_hash: String,
    pub process_name: String,
    pub is_decoy: bool,
}

/// Suspicious name indicators, matched against the lowercased name.
pub open spec fn name_hit(lower: Seq<char>) -> bool {
    contains_seq(lower, "ransom"@) || contains_seq(lower, "encrypt"@) || contains_seq(
        lower,
        "locker"@,
    ) || contains_seq(lower, "cryptor"@) || contains_seq(lower, "cmd"@) || contains_seq(
        lower,
        "powershell"@,
    ) || contains_seq(lower, "pwsh"@)
}

/// Indicators that on their own put a flagged process at risk 9.
pub open spec fn strong_hit(lower: Seq<char>) -> bool {
    contains_seq(lower, "ransom"@) || contains_seq(lower, "encrypt"@)
}

/// The risk of a process from its lowercased name and its CPU and memory
/// pressure, or `None` when it is not flagged.
pub open spec fn signal_risk(lower: Seq<char>, cpu_hot: bool, mem_hot: bool) -> Option<u8> {
    if name_hit(lower) && (cpu_hot || mem_hot) {
        Some(
            if strong_hit(lower) {
                9
            } else if cpu_hot && mem_hot {
                8
            } else {
                7
            },
        )
    } else {
        None
    }
}

/// More than 40 % CPU.
pub open spec fn cpu_hot(p: ProcessSample) -> bool {
    f32_bits_gt(p.cpu_usage_bits, CPU_THRESHOLD_BITS)
}

/// More than 500 000 000 bytes of memory.
pub open spec fn mem_hot(p: ProcessSample) -> bool {
    p.memory > 500_000_000
}

/// The risk of a sampled process, or `None` when it is not flagged.
pub open spec fn sample_risk(p: ProcessSample) -> Option<u8> {
    signal_risk(unicode_lowercase(p.name@), cpu_hot(p), mem_hot(p))
}

/// The four little-endian bytes of `v`.
pub open spec fn le_bytes(v: u32) -> Seq<u8> {
    seq![
        (v % 256) as u8,
        ((v / 256) % 256) as u8,
        ((v / 65536) % 256) as u8,
        ((v / 16777216) % 256) as u8,
    ]
}

/// The bytes hashed to identify a process: its name in UTF-8, then its pid.
pub open spec fn identity_bytes(name: Seq<char>, pid: u32) -> Seq<u8> {
    encode_utf8(name) + le_bytes(pid)
}

/// The identity hash text of a process.
pub open spec fn identity_hash(name: Seq<char>, pid: u32) -> Seq<char> {
    hex_lower(sha256_digest(identity_bytes(name, pid)))
}

/// `h` is the hollow that the detector reports for the sampled process `p`.
pub open spec fn reports(p: ProcessSample, h: FileHollow) -> bool {
    &&& sample_risk(p) == Some(h.risk)
    &&& h.pid == p.pid
    &&& h.process_name@ == p.name@
    &&& h.process_hash@ == identity_hash(p.name@, p.pid)
    &&& h.process_hash@.len() == 64
    &&& !h.is_decoy
}

/// The base dispatch delay range in milliseconds for a risk band.
pub open spec fn base_delay_range(risk: u8) -> (u64, u64) {
    if 8 <= risk <= 10 {
        (50, 400)
    } else if 6 <= risk <= 7 {
        (300, 1_200)
    } else if 4 <= risk <= 5 {
        (800, 3_000)
    } else {
        (1_500, 6_000)
    }
}

/// `risk` is within one of a band boundary (4, 6 or 8).
pub open spec fn near_boundary(risk: u8) -> bool {
    3 <= risk <= 9
}

/// Extra delay near a band boundary.
pub open spec fn boundary_padding(risk: u8) -> u64 {
    if near_boundary(risk) {
        600
    } else {
        0
    }
}

/// The bytes identifying a process: the name's UTF-8 bytes, then the pid.
fn identity_bytes_of(name: &str, pid: u32) -> (v: Vec<u8>)
    ensures
        v@ == identity_bytes(name@, pid),
{
    let bytes = name.as_bytes();
    let n = bytes.len();
    let mut v: Vec<u8> = Vec::new();
    for i in 0..n
        invariant
            n == bytes@.len(),
            v@ == bytes@.subrange(0, i as int),
    {
        v.push(bytes[i]);
        proof {
            assert(v@ =~= bytes@.subrange(0, i + 1));
        }
    }
    v.push((pid % 256) as u8);
    v.push(((pid / 256) % 256) as u8);
    v.push(((pid / 65536) % 256) as u8);
    v.push(((pid / 16777216) % 256) as u8);
    proof {
        assert(bytes@.subrange(0, n as int) =~= bytes@);
        assert(v@ =~= identity_bytes(name@, pid));
    }
    v
}

/// Whether `lower` contains the keyword `word`.
fn has_word(lower: &Vec<char>, word: &str) -> (r: bool)
    ensures
        r == contains_seq(lower@, word@),
{
    contains_chars(lower, &chars_of(word))
}

/// The risk for a lowercased process name and its CPU and memory
/// pressure: `None` unless the name carries a suspicious indicator and
/// CPU or memory is hot; then 9 for "ransom"/"encrypt", else 8 when both
/// CPU and memory are hot, else 7.
pub fn risk_for_signals(name_lower: &str, cpu_hot: bool, mem_hot: bool) -> (r: Option<u8>)
    ensures
        r == signal_risk(name_lower@, cpu_hot, mem_hot),
{
    let l = chars_of(name_lower);
    let strong = has_word(&l, "ransom") || has_word(&l, "encrypt");
    let hit = strong || has_word(&l, "locker") || has_word(&l, "cryptor") || has_word(&l, "cmd")
        || has_word(&l, "powershell") || has_word(&l, "pwsh");
    if hit && (cpu_hot || mem_hot) {
        let mut risk: u8 = 5;
        if strong {
            risk = 9;
        } else if cpu_hot && mem_hot {
            risk = 8;
        } else if hit {
            risk = 7;
        }
        Some(risk)
    } else {
        None
    }
}

/// Lowercase hex SHA-256 of the name's UTF-8 bytes followed by the pid's
/// four little-endian bytes.
pub fn identity_hash_of(name: &str, pid: u32) -> (h: String)
    ensures
        h@ == identity_hash(name@, pid),
        h@.len() == 64,
{
    let data = identity_bytes_of(name, pid);
    let digest = sha256(data.as_slice());
    hex_lower_string(digest.as_slice())
}

/// The hollow for one sampled process, or `None` when it shows no
/// high-risk signal.
pub fn assess_process(p: &ProcessSample) -> (r: Option<FileHollow>)
    ensures
        match r {
            None => sample_risk(*p) is None,
            Some(h) => reports(*p, h),
        },
{
    let lower = to_lowercase(p.name.as_str());
    let cpu = exceeds(p.cpu_usage_bits, CPU_THRESHOLD_BITS);
    let mem = p.memory > 500_000_000;
    match risk_for_signals(lower.as_str(), cpu, mem) {
        None => None,
        Some(risk) => {
            let hash = identity_hash_of(p.name.as_str(), p.pid);
            Some(FileHollow {
                pid: p.pid,
                risk,
                process_hash: hash,
                process_name: p.name.clone(),
                is_decoy: false,
            })
        },
    }
}

/// Scans a process-table snapshot, in order, for high-risk behavioral
/// signals; reports the first process that shows one.
pub fn detect_ransomware_behavior(processes: &Vec<ProcessSample>) -> (r: Option<FileHollow>)
    ensures
        match r {
            None => forall|i: int| 0 <= i < processes@.len() ==> sample_risk(#[trigger] processes@[i]) is None,
            Some(h) => exists|i: int|
                0 <= i < processes@.len() && reports(#[trigger] processes@[i], h) && forall|j: int|
                    0 <= j < i ==> sample_risk(#[trigger] processes@[j]) is None,
        },
{
    let n = processes.len();
    for i in 0..n
        invariant
            n == processes@.len(),
            forall|j: int| 0 <= j < i ==> sample_risk(#[trigger] processes@[j]) is None,
    {
        match assess_process(&processes[i]) {
            Some(h) => {
                assert(reports(processes@[i as int], h));
                return Some(h);
            },
            None => {},
        }
    }
    None
}

impl FileHollow {
    /// Base dispatch delay range in milliseconds for the risk band: higher
    /// risk gives a shorter delay, and every band has some jitter.
    fn base_delay_range_ms(&self) -> (r: (u64, u64))
        ensures
            r == base_delay_range(self.risk),
    {
        if 8 <= self.risk && self.risk <= 10 {
            (50, 400)
        } else if 6 <= self.risk && self.risk <= 7 {
            (300, 1_200)
        } else if 4 <= self.risk && self.risk <= 5 {
            (800, 3_000)
        } else {
            (1_500, 6_000)
        }
    }

    /// Extra jitter when the score is within one of a band boundary
    /// (4, 6 or 8), where a latency step would reveal the cutover.
    fn boundary_padding_ms(&self) -> (pad: u64)
        ensures
            pad == boundary_padding(self.risk),
    {
        let r = self.risk;
        let near = (3 <= r && r <= 5) || (5 <= r && r <= 7) || (7 <= r && r <= 9);
        if near {
            600
        } else {
            0
        }
    }

    /// The dispatch delay for a value `draw` taken from the band's base
    /// range: zero for a decoy, otherwise the draw plus boundary padding.
    pub fn jittered_delay_ms(&self, draw: u64) -> (ms: u64)
        requires
            draw <= u64::MAX - 600,
        ensures
            ms == if self.is_decoy { 0 } else { draw + boundary_padding(self.risk) },
    {
        if self.is_decoy {
            return 0;
        }
        draw + self.boundary_padding_ms()
    }

    /// The acceptable dispatch delays: zero for a decoy, otherwise within
    /// the base range of the band shifted by the boundary padding.
    pub open spec fn delay_allowed(self, ms: u64) -> bool {
        if self.is_decoy {
            ms == 0
        } else {
            base_delay_range(self.risk).0 + boundary_padding(self.risk) <= ms <= base_delay_range(
                self.risk,
            ).1 + boundary_padding(self.risk)
        }
    }

    /// The jittered delay, in milliseconds, to wait before dispatching the
    /// response: a random draw from the band's range plus boundary padding;
    /// decoys get none. Which draw comes is left to chance.
    pub fn dispatch_delay_ms(&self) -> (ms: u64)
        ensures
            self.delay_allowed(ms),
    {
        if self.is_decoy {
            return 0;
        }
        let (lo, hi) = self.base_delay_range_ms();
        let draw = random_between(lo, hi);
        self.jittered_delay_ms(draw)
    }

    /// The jittered delay to wait before dispatching the response, as a
    /// `Duration` of `dispatch_delay_ms` milliseconds.
    pub fn dispatch_delay(&self) -> (d: Duration)
        ensures
            exists|ms: u64| self.delay_allowed(ms) && d == duration_of_millis(ms),
    {
        let ms = self.dispatch_delay_ms();
        duration_from_millis(ms)
    }
}

/// On the 0–10 risk scale a higher risk band never waits longer: both
/// ends of the base delay range shrink (or stay) as the risk grows.
pub proof fn lemma_higher_risk_shorter_delay(lower: u8, higher: u8)
    requires
        lower <= higher <= 10,
    ensures
        base_delay_range(higher).0 <= base_delay_range(lower).0,
        base_delay_range(higher).1 <= base_delay_range(lower).1,
{
}

/// Every band has jitter: the base range is never a single value.
pub proof fn lemma_every_band_jitters(risk: u8)
    ensures
        base_delay_range(risk).0 < base_delay_range(risk).1,
{
}

/// A high-risk (8–10) non-decoy response waits between 50 and 1000 ms.
pub proof fn lemma_high_risk_delay_bounded(h: FileHollow, ms: u64)
    requires
        h.delay_allowed(ms),
        !h.is_decoy,
        8 <= h.risk <= 10,
    ensures
        50 <= ms <= 1000,
{
}

/// Every detected process is at risk 7–9, so its graduated response is
/// Medium or Kill containment.
pub proof fn lemma_detection_leads_to_containment(p: ProcessSample, h: FileHollow)
    requires
        reports(p, h),
    ensures
        7 <= h.risk <= 9,
        action_for(h.risk) == Action::Medium || action_for(h.risk) == Action::Kill,
{
}

/// Each of the seven suspicious indicators — "ransom", "encrypt",
/// "locker", "cryptor", "cmd", "powershell", "pwsh" — in a lowercased
/// name flags a process under CPU or memory pressure, at risk 9 for
/// "ransom"/"encrypt", else 8 with both pressures, else 7; without an
/// indicator or without pressure nothing is flagged.
pub proof fn lemma_indicators_flag(lower: Seq<char>, cpu_hot: bool, mem_hot: bool)
    ensures
        ({
            let any = contains_seq(lower, "ransom"@) || contains_seq(lower, "encrypt"@)
                || contains_seq(lower, "locker"@) || contains_seq(lower, "cryptor"@)
                || contains_seq(lower, "cmd"@) || contains_seq(lower, "powershell"@)
                || contains_seq(lower, "pwsh"@);
            let strong = contains_seq(lower, "ransom"@) || contains_seq(lower, "encrypt"@);
            &&& any && (cpu_hot || mem_hot) ==> (signal_risk(lower, cpu_hot, mem_hot) matches Some(r)
                && 7 <= r <= 9)
            &&& strong && (cpu_hot || mem_hot) ==> signal_risk(lower, cpu_hot, mem_hot) == Some(9u8)
            &&& any && !strong && cpu_hot && mem_hot ==> signal_risk(lower, cpu_hot, mem_hot) == Some(
                8u8,
            )
            &&& any && !strong && (cpu_hot != mem_hot) ==> signal_risk(lower, cpu_hot, mem_hot)
                == Some(7u8)
            &&& !any ==> signal_risk(lower, cpu_hot, mem_hot) is None
            &&& !(cpu_hot || mem_hot) ==> signal_risk(lower, cpu_hot, mem_hot) is None
        }),
{
}

} // verus!
