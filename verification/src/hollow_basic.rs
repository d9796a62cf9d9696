//! The first `FileHollow` scoring model: a single additive risk score over
//! activity and threat-context signals, and a risk-only recommendation.
//!
//! It shares the privilege and action vocabulary of `crate::hollow`.

use vstd::prelude::*;
use vstd::string::*;

pub use crate::hollow::{EndpointAction, UserPrivilege};

use crate::hollow::{add_points, points, ttp_listed};
use crate::imports::{names_of, ImportSet};
use crate::measure::{exceeds, f32_bits_gt, ENTROPY_THRESHOLD_BITS, PEER_RISK_THRESHOLD_BITS};
use crate::text::{decimal, push_decimal, push_short_prefix, push_tenths, short_prefix, tenths_text};

verus! {

/// Telemetry and verdict for one observed process.
#[derive(Debug, Clone)]
pub struct FileHollow {
    /// sha256(exe_path + cmdline + parent).
    pub proc_hash: String,
    /// Average entropy of the last writes, as an `f32` bit pattern.
    pub entropy_delta_bits: u32,
    /// Files written per second.
    pub write_velocity: u32,
    pub rename_burst: bool,
    pub backup_tamper: bool,
    pub c2_contact: bool,
    pub decoy_touched: bool,
    /// Risk on the 1–10 scale.
    pub risk_score: u8,
    /// Unix timestamp of the last observation.
    pub last_seen: u64,
    pub is_decoy: bool,
    /// Similarity to known ransomware families, as an `f32` bit pattern.
    pub peer_risk_bits: u32,
    /// Adjacent endpoints seen with the same process hash.
    pub propagation_score: u32,
    /// MITRE ATT&CK technique identifiers.
    pub mitre_ttp: Vec<String>,
    pub threat_intel_match: bool,
    pub user_privilege: UserPrivilege,
    pub geo_fencing_risk: bool,
    pub clipboard_monitor: bool,
    pub process_tree_depth: u16,
    pub suspicious_imports: ImportSet,
    pub signed_status: bool,
    pub injected_dll_count: u8,
    /// Normalized composite score in tenths (5 stands for 0.5).
    pub anomaly_tenths: u8,
}

impl FileHollow {
    /// Points from file and network activity signals.
    pub open spec fn activity_points(self) -> int {
        points(f32_bits_gt(self.entropy_delta_bits, ENTROPY_THRESHOLD_BITS), 3) + points(
            self.write_velocity > 50,
            2,
        ) + points(self.rename_burst, 2) + points(self.backup_tamper, 3) + points(
            self.c2_contact,
            3,
        ) + points(self.decoy_touched, 2)
    }

    /// Points from threat context signals.
    pub open spec fn context_points(self) -> int {
        points(f32_bits_gt(self.peer_risk_bits, PEER_RISK_THRESHOLD_BITS), 2) + points(
            self.propagation_score > 3,
            2,
        ) + points(self.threat_intel_match, 3) + points(self.geo_fencing_risk, 1) + points(
            self.clipboard_monitor,
            1,
        ) + points(self.injected_dll_count > 2, 2)
    }

    /// The score before clamping.
    pub open spec fn raw_score(self) -> int {
        1 + self.activity_points() + self.context_points()
    }

    /// The risk score that `update_risk_score` assigns.
    pub open spec fn scored_risk(self) -> u8 {
        if self.raw_score() > 10 {
            10
        } else if self.raw_score() < 1 {
            1
        } else {
            self.raw_score() as u8
        }
    }

    /// Every field but the score and the anomaly agrees.
    pub open spec fn same_observations(self, other: FileHollow) -> bool {
        &&& self.proc_hash == other.proc_hash
        &&& self.entropy_delta_bits == other.entropy_delta_bits
        &&& self.write_velocity == other.write_velocity
        &&& self.rename_burst == other.rename_burst
        &&& self.backup_tamper == other.backup_tamper
        &&& self.c2_contact == other.c2_contact
        &&& self.decoy_touched == other.decoy_touched
        &&& self.last_seen == other.last_seen
        &&& self.is_decoy == other.is_decoy
        &&& self.peer_risk_bits == other.peer_risk_bits
        &&& self.propagation_score == other.propagation_score
        &&& self.mitre_ttp == other.mitre_ttp
        &&& self.threat_intel_match == other.threat_intel_match
        &&& self.user_privilege == other.user_privilege
        &&& self.geo_fencing_risk == other.geo_fencing_risk
        &&& self.clipboard_monitor == other.clipboard_monitor
        &&& self.process_tree_depth == other.process_tree_depth
        &&& self.suspicious_imports == other.suspicious_imports
        &&& self.signed_status == other.signed_status
        &&& self.injected_dll_count == other.injected_dll_count
    }

    /// The response for this hollow's risk.
    pub open spec fn recommended(self) -> EndpointAction {
        if 8 <= self.risk_score <= 10 {
            EndpointAction::KillTree
        } else if 6 <= self.risk_score <= 7 {
            EndpointAction::IsolateHost
        } else if 4 <= self.risk_score <= 5 {
            EndpointAction::SuspendProc
        } else {
            EndpointAction::LogOnly
        }
    }

    /// The one-line summary text.
    pub open spec fn summary_text(self) -> Seq<char> {
        "FileHollow["@ + short_prefix(self.proc_hash@) + "] Risk:"@ + decimal(
            self.risk_score as nat,
        ) + " Anomaly:"@ + tenths_text(self.anomaly_tenths) + " TTPs:"@ + decimal(
            self.mitre_ttp@.len(),
        )
    }

    /// A fresh hollow for `proc_hash`: no signals, risk 1, standard
    /// privilege, unsigned, no imports or techniques.
    pub fn new(proc_hash: String) -> (h: Self)
        ensures
            h.proc_hash == proc_hash,
            h.entropy_delta_bits == 0,
            h.write_velocity == 0,
            !h.rename_burst,
            !h.backup_tamper,
            !h.c2_contact,
            !h.decoy_touched,
            h.risk_score == 1,
            h.last_seen == 0,
            !h.is_decoy,
            h.peer_risk_bits == 0,
            h.propagation_score == 0,
            h.mitre_ttp@ == Seq::<String>::empty(),
            !h.threat_intel_match,
            h.user_privilege == UserPrivilege::Standard,
            !h.geo_fencing_risk,
            !h.clipboard_monitor,
            h.process_tree_depth == 0,
            h.suspicious_imports@ == Set::<Seq<char>>::empty(),
            !h.signed_status,
            h.injected_dll_count == 0,
            h.anomaly_tenths == 0,
    {
        FileHollow {
            proc_hash,
            entropy_delta_bits: 0,
            write_velocity: 0,
            rename_burst: false,
            backup_tamper: false,
            c2_contact: false,
            decoy_touched: false,
            risk_score: 1,
            last_seen: 0,
            is_decoy: false,
            peer_risk_bits: 0,
            propagation_score: 0,
            mitre_ttp: Vec::new(),
            threat_intel_match: false,
            user_privilege: UserPrivilege::Standard,
            geo_fencing_risk: false,
            clipboard_monitor: false,
            process_tree_depth: 0,
            suspicious_imports: ImportSet::new(),
            signed_status: false,
            injected_dll_count: 0,
            anomaly_tenths: 0,
        }
    }

    /// Recalculates the risk score: 1 plus the points of every signal that
    /// fired, clamped to 1..=10; the anomaly score is the risk in tenths.
    pub fn update_risk_score(&mut self)
        ensures
            final(self).same_observations(*old(self)),
            final(self).risk_score == old(self).scored_risk(),
            final(self).anomaly_tenths == old(self).scored_risk(),
    {
        let score = self.total_points();
        let clamped = if score > 10 {
            10
        } else if score < 1 {
            1
        } else {
            score
        };
        self.risk_score = clamped;
        self.anomaly_tenths = clamped;
    }

    /// 1 plus the points of every signal that fired.
    fn total_points(&self) -> (score: u8)
        ensures
            score == self.raw_score(),
    {
        let a = self.activity_total();
        let c = self.context_total();
        1 + a + c
    }

    /// The points of the activity signals that fired.
    fn activity_total(&self) -> (score: u8)
        ensures
            score == self.activity_points(),
    {
        let mut score: u8 = 0;
        add_points(&mut score, exceeds(self.entropy_delta_bits, ENTROPY_THRESHOLD_BITS), 3);
        add_points(&mut score, self.write_velocity > 50, 2);
        add_points(&mut score, self.rename_burst, 2);
        add_points(&mut score, self.backup_tamper, 3);
        add_points(&mut score, self.c2_contact, 3);
        add_points(&mut score, self.decoy_touched, 2);
        score
    }

    /// The points of the threat context signals that fired.
    fn context_total(&self) -> (score: u8)
        ensures
            score == self.context_points(),
    {
        let mut score: u8 = 0;
        add_points(&mut score, exceeds(self.peer_risk_bits, PEER_RISK_THRESHOLD_BITS), 2);
        add_points(&mut score, self.propagation_score > 3, 2);
        add_points(&mut score, self.threat_intel_match, 3);
        add_points(&mut score, self.geo_fencing_risk, 1);
        add_points(&mut score, self.clipboard_monitor, 1);
        add_points(&mut score, self.injected_dll_count > 2, 2);
        score
    }

    /// The response for the risk score: kill the process tree at 8–10,
    /// isolate the host at 6–7, suspend the process at 4–5, otherwise log.
    pub fn recommended_action(&self) -> (a: EndpointAction)
        ensures
            a == self.recommended(),
    {
        let r = self.risk_score;
        if 8 <= r && r <= 10 {
            EndpointAction::KillTree
        } else if 6 <= r && r <= 7 {
            EndpointAction::IsolateHost
        } else if 4 <= r && r <= 5 {
            EndpointAction::SuspendProc
        } else {
            EndpointAction::LogOnly
        }
    }

    /// Whether `ttp` is one of the recorded MITRE techniques.
    pub fn has_ttp(&self, ttp: &str) -> (r: bool)
        ensures
            r == names_of(self.mitre_ttp@).contains(ttp@),
    {
        ttp_listed(&self.mitre_ttp, ttp)
    }

    /// One-line threat summary for logs:
    /// `FileHollow[<hash prefix>] Risk:<r> Anomaly:<a> TTPs:<n>`.
    pub fn summary(&self) -> (s: String)
        ensures
            s@ == self.summary_text(),
    {
        let mut out = String::from_str("FileHollow[");
        push_short_prefix(&mut out, self.proc_hash.as_str());
        out.append("] Risk:");
        push_decimal(&mut out, self.risk_score as u64);
        out.append(" Anomaly:");
        push_tenths(&mut out, self.anomaly_tenths);
        out.append(" TTPs:");
        push_decimal(&mut out, self.mitre_ttp.len() as u64);
        proof {
            assert(out@ =~= self.summary_text());
        }
        out
    }
}

/// The assigned risk score is always on the 1–10 scale.
pub proof fn lemma_score_in_range(h: FileHollow)
    ensures
        1 <= h.scored_risk() <= 10,
{
}

/// The recommendation escalates with the risk: a higher score never gets
/// a milder action on the LogOnly < SuspendProc < IsolateHost < KillTree
/// ladder.
pub proof fn lemma_recommendation_escalates(lower: FileHollow, higher: FileHollow)
    requires
        1 <= lower.risk_score <= higher.risk_score <= 10,
    ensures
        severity(lower.recommended()) <= severity(higher.recommended()),
{
}

/// Position of a primary action on the escalation ladder.
pub open spec fn severity(a: EndpointAction) -> int {
    match a {
        EndpointAction::LogOnly => 0,
        EndpointAction::SuspendProc => 1,
        EndpointAction::IsolateHost => 2,
        EndpointAction::KillTree => 3,
        _ => 4,
    }
}

/// Raising entropy_delta_bits across its threshold (write entropy above 0.7) adds exactly 3 to a hollow's unclamped risk score, all
/// else being equal.
pub proof fn lemma_entropy_weight(h: FileHollow, high: u32, low: u32)
    requires
        f32_bits_gt(high, ENTROPY_THRESHOLD_BITS),
        !f32_bits_gt(low, ENTROPY_THRESHOLD_BITS),
    ensures
        (FileHollow { entropy_delta_bits: high, ..h }).raw_score() == (FileHollow { entropy_delta_bits: low, ..h }).raw_score() + 3,
{
}

/// Raising write_velocity from at most 50 to above it (a write velocity above 50 files/s) adds exactly 2 to a hollow's unclamped risk score, all
/// else being equal.
pub proof fn lemma_velocity_weight(h: FileHollow, high: u32, low: u32)
    requires
        high > 50,
        low <= 50,
    ensures
        (FileHollow { write_velocity: high, ..h }).raw_score() == (FileHollow { write_velocity: low, ..h }).raw_score() + 2,
{
}

/// Setting a mass rename burst adds exactly 2 to a hollow's unclamped risk score, all
/// else being equal.
pub proof fn lemma_rename_burst_weight(h: FileHollow)
    ensures
        (FileHollow { rename_burst: true, ..h }).raw_score() == (FileHollow { rename_burst: false, ..h }).raw_score() + 2,
{
}

/// Setting backup tampering adds exactly 3 to a hollow's unclamped risk score, all
/// else being equal.
pub proof fn lemma_backup_tamper_weight(h: FileHollow)
    ensures
        (FileHollow { backup_tamper: true, ..h }).raw_score() == (FileHollow { backup_tamper: false, ..h }).raw_score() + 3,
{
}

/// Setting outbound C2 contact adds exactly 3 to a hollow's unclamped risk score, all
/// else being equal.
pub proof fn lemma_c2_contact_weight(h: FileHollow)
    ensures
        (FileHollow { c2_contact: true, ..h }).raw_score() == (FileHollow { c2_contact: false, ..h }).raw_score() + 3,
{
}

/// Setting a touched honeypot directory adds exactly 2 to a hollow's unclamped risk score, all
/// else being equal.
pub proof fn lemma_decoy_touched_weight(h: FileHollow)
    ensures
        (FileHollow { decoy_touched: true, ..h }).raw_score() == (FileHollow { decoy_touched: false, ..h }).raw_score() + 2,
{
}

/// Raising peer_risk_bits across its threshold (similarity above 0.6 to known ransomware families) adds exactly 2 to a hollow's unclamped risk score, all
/// else being equal.
pub proof fn lemma_peer_risk_weight(h: FileHollow, high: u32, low: u32)
    requires
        f32_bits_gt(high, PEER_RISK_THRESHOLD_BITS),
        !f32_bits_gt(low, PEER_RISK_THRESHOLD_BITS),
    ensures
        (FileHollow { peer_risk_bits: high, ..h }).raw_score() == (FileHollow { peer_risk_bits: low, ..h }).raw_score() + 2,
{
}

/// Raising propagation_score from at most 3 to above it (propagation to more than 3 adjacent endpoints) adds exactly 2 to a hollow's unclamped risk score, all
/// else being equal.
pub proof fn lemma_propagation_weight(h: FileHollow, high: u32, low: u32)
    requires
        high > 3,
        low <= 3,
    ensures
        (FileHollow { propagation_score: high, ..h }).raw_score() == (FileHollow { propagation_score: low, ..h }).raw_score() + 2,
{
}

/// Setting a threat-intel hash match adds exactly 3 to a hollow's unclamped risk score, all
/// else being equal.
pub proof fn lemma_threat_intel_weight(h: FileHollow)
    ensures
        (FileHollow { threat_intel_match: true, ..h }).raw_score() == (FileHollow { threat_intel_match: false, ..h }).raw_score() + 3,
{
}

/// Setting an anomalous login geo/ASN adds exactly 1 to a hollow's unclamped risk score, all
/// else being equal.
pub proof fn lemma_geo_fencing_weight(h: FileHollow)
    ensures
        (FileHollow { geo_fencing_risk: true, ..h }).raw_score() == (FileHollow { geo_fencing_risk: false, ..h }).raw_score() + 1,
{
}

/// Setting clipboard wallet-swap behavior adds exactly 1 to a hollow's unclamped risk score, all
/// else being equal.
pub proof fn lemma_clipboard_weight(h: FileHollow)
    ensures
        (FileHollow { clipboard_monitor: true, ..h }).raw_score() == (FileHollow { clipboard_monitor: false, ..h }).raw_score() + 1,
{
}

/// Raising injected_dll_count from at most 2 to above it (more than 2 injected DLLs) adds exactly 2 to a hollow's unclamped risk score, all
/// else being equal.
pub proof fn lemma_injected_dlls_weight(h: FileHollow, high: u8, low: u8)
    requires
        high > 2,
        low <= 2,
    ensures
        (FileHollow { injected_dll_count: high, ..h }).raw_score() == (FileHollow { injected_dll_count: low, ..h }).raw_score() + 2,
{
}

/// A hollow on which no signal fires has an unclamped score of 1;
/// signature, imports, decoy status and tree depth play no part in this
/// model.
pub proof fn lemma_quiet_hollow_scores_one(h: FileHollow)
    requires
        !f32_bits_gt(h.entropy_delta_bits, ENTROPY_THRESHOLD_BITS),
        h.write_velocity <= 50,
        !h.rename_burst,
        !h.backup_tamper,
        !h.c2_contact,
        !h.decoy_touched,
        !f32_bits_gt(h.peer_risk_bits, PEER_RISK_THRESHOLD_BITS),
        h.propagation_score <= 3,
        !h.threat_intel_match,
        !h.geo_fencing_risk,
        !h.clipboard_monitor,
        h.injected_dll_count <= 2,
    ensures
        h.raw_score() == 1,
        h.scored_risk() == 1,
{
}

/// The risk is the unclamped score capped at 10.
pub proof fn lemma_score_caps_raw(h: FileHollow)
    ensures
        h.raw_score() >= 1,
        h.scored_risk() == if h.raw_score() > 10 {
            10
        } else {
            h.raw_score()
        },
{
}

/// The response by risk band: KillTree at 8–10, IsolateHost at 6–7,
/// SuspendProc at 4–5, otherwise LogOnly.
pub proof fn lemma_recommendation_table(h: FileHollow)
    ensures
        8 <= h.risk_score <= 10 ==> h.recommended() == EndpointAction::KillTree,
        6 <= h.risk_score <= 7 ==> h.recommended() == EndpointAction::IsolateHost,
        4 <= h.risk_score <= 5 ==> h.recommended() == EndpointAction::SuspendProc,
        (h.risk_score < 4 || h.risk_score > 10) ==> h.recommended() == EndpointAction::LogOnly,
{
}

} // verus!
