//! The extended `FileHollow` scoring model: per-signal risk scoring with
//! recorded reasons, decoy suppression, injection-API signals,
//! privilege-aware recommendations and companion actions.
//!
//! Measurements that telemetry reports as `f32` are held by their bit
//! patterns (see `crate::measure`), and the anomaly score is held in tenths.

use vstd::prelude::*;
use vstd::string::*;

use crate::imports::{names_of, ImportSet};
use crate::measure::{exceeds, f32_bits_gt, ENTROPY_THRESHOLD_BITS, PEER_RISK_THRESHOLD_BITS};
use crate::text::{decimal, push_decimal, push_short_prefix, push_tenths, short_prefix, tenths_text};

verus! {

/// Privilege of the account a process runs as.
#[derive(Debug, Clone, Copy, PartialEq, Eq, Structural)]
pub enum UserPrivilege {
    Standard,
    Admin,
    DomainAdmin,
}

/// A response that the endpoint may take or recommend.
#[derive(Debug, Clone, Copy, PartialEq, Eq, Structural)]
pub enum EndpointAction {
    LogOnly,
    SuspendProc,
    KillTree,
    IsolateHost,
    SnapshotLock,
    Sinkhole,
    RevokeSession,
    TriggerMfaReprompt,
    SendSocWebhook,
    FlagForHumanReview,
    QuarantineFile,
    MemoryDump,
}

/// The variant name of an action, as `{:?}` prints it.
pub open spec fn action_name(a: EndpointAction) -> Seq<char> {
    match a {
        EndpointAction::LogOnly => "LogOnly"@,
        EndpointAction::SuspendProc => "SuspendProc"@,
        EndpointAction::KillTree => "KillTree"@,
        EndpointAction::IsolateHost => "IsolateHost"@,
        EndpointAction::SnapshotLock => "SnapshotLock"@,
        EndpointAction::Sinkhole => "Sinkhole"@,
        EndpointAction::RevokeSession => "RevokeSession"@,
        EndpointAction::TriggerMfaReprompt => "TriggerMfaReprompt"@,
        EndpointAction::SendSocWebhook => "SendSocWebhook"@,
        EndpointAction::FlagForHumanReview => "FlagForHumanReview"@,
        EndpointAction::QuarantineFile => "QuarantineFile"@,
        EndpointAction::MemoryDump => "MemoryDump"@,
    }
}

impl EndpointAction {
    /// The variant name of this action.
    pub fn name(&self) -> (s: &'static str)
        ensures
            s@ == action_name(*self),
    {
        match self {
            EndpointAction::LogOnly => "LogOnly",
            EndpointAction::SuspendProc => "SuspendProc",
            EndpointAction::KillTree => "KillTree",
            EndpointAction::IsolateHost => "IsolateHost",
            EndpointAction::SnapshotLock => "SnapshotLock",
            EndpointAction::Sinkhole => "Sinkhole",
            EndpointAction::RevokeSession => "RevokeSession",
            EndpointAction::TriggerMfaReprompt => "TriggerMfaReprompt",
            EndpointAction::SendSocWebhook => "SendSocWebhook",
            EndpointAction::FlagForHumanReview => "FlagForHumanReview",
            EndpointAction::QuarantineFile => "QuarantineFile",
            EndpointAction::MemoryDump => "MemoryDump",
        }
    }
}

/// Windows API imports commonly seen in process-injection and credential
/// theft chains.
pub open spec fn injection_api_names() -> Seq<Seq<char>> {
    seq![
        "VirtualAllocEx"@,
        "WriteProcessMemory"@,
        "CreateRemoteThread"@,
        "NtUnmapViewOfSection"@,
        "SetThreadContext"@,
        "QueueUserAPC"@,
    ]
}

/// The injection API names as strings.
fn injection_apis() -> (v: Vec<String>)
    ensures
        names_of(v@) == injection_api_names(),
{
    let mut v: Vec<String> = Vec::new();
    v.push(String::from_str("VirtualAllocEx"));
    v.push(String::from_str("WriteProcessMemory"));
    v.push(String::from_str("CreateRemoteThread"));
    v.push(String::from_str("NtUnmapViewOfSection"));
    v.push(String::from_str("SetThreadContext"));
    v.push(String::from_str("QueueUserAPC"));
    proof {
        assert(names_of(v@) =~= injection_api_names());
    }
    v
}

/// Some imported name is a known injection API.
pub open spec fn has_injection_api(imports: Set<Seq<char>>) -> bool {
    exists|s: Seq<char>| imports.contains(s) && #[trigger] injection_api_names().contains(s)
}

/// Telemetry and verdict for one observed process.
#[derive(Debug, Clone)]
pub struct FileHollow {
    /// sha256(exe_path + cmdline + parent).
    pub proc_hash: String,
    /// Average entropy of the last writes, as an `f32` bit pattern.
    pub entropy_delta_bits: u32,
    /// Files written per second.
    pub write_velocity: u32,
    pub rename_burst: bool,
    pub backup_tamper: bool,
    pub c2_contact: bool,
    pub decoy_touched: bool,
    /// Risk on the 1–10 scale.
    pub risk_score: u8,
    /// Unix timestamp of the last observation.
    pub last_seen: u64,
    pub is_decoy: bool,
    /// Similarity to known ransomware families, as an `f32` bit pattern.
    pub peer_risk_bits: u32,
    /// Adjacent endpoints seen with the same process hash.
    pub propagation_score: u32,
    /// MITRE ATT&CK technique identifiers.
    pub mitre_ttp: Vec<String>,
    pub threat_intel_match: bool,
    pub user_privilege: UserPrivilege,
    pub geo_fencing_risk: bool,
    pub clipboard_monitor: bool,
    pub process_tree_depth: u16,
    pub suspicious_imports: ImportSet,
    pub signed_status: bool,
    pub injected_dll_count: u8,
    /// Normalized composite score in tenths (5 stands for 0.5).
    pub anomaly_tenths: u8,
    /// Human-readable reasons behind the last risk score computation.
    pub score_reasons: Vec<String>,
}

/// Contribution `p` when `c` holds.
pub open spec fn points(c: bool, p: int) -> int {
    if c {
        p
    } else {
        0
    }
}

/// The single reason `text` when `c` holds.
pub open spec fn reason(c: bool, text: Seq<char>) -> Seq<Seq<char>> {
    if c {
        seq![text]
    } else {
        Seq::empty()
    }
}

/// Points for the signature / injection-import combination.
pub open spec fn signature_points(signed: bool, injection: bool) -> int {
    if !signed && injection {
        3
    } else if !signed {
        1
    } else if injection {
        1
    } else {
        0
    }
}

/// Reason recorded for the signature / injection-import combination.
pub open spec fn signature_reason(signed: bool, injection: bool) -> Seq<Seq<char>> {
    if !signed && injection {
        seq!["unsigned binary using process-injection APIs (+3)"@]
    } else if !signed {
        seq!["unsigned binary (+1)"@]
    } else if injection {
        seq!["signed binary using process-injection APIs (still notable) (+1)"@]
    } else {
        Seq::empty()
    }
}

impl FileHollow {
    pub open spec fn high_entropy(self) -> bool {
        f32_bits_gt(self.entropy_delta_bits, ENTROPY_THRESHOLD_BITS)
    }

    pub open spec fn similar_to_family(self) -> bool {
        f32_bits_gt(self.peer_risk_bits, PEER_RISK_THRESHOLD_BITS)
    }

    pub open spec fn injection_imports(self) -> bool {
        has_injection_api(self.suspicious_imports@)
    }

    /// Points from file and network activity signals.
    pub open spec fn activity_points(self) -> int {
        points(self.high_entropy(), 3) + points(self.write_velocity > 50, 2) + points(
            self.rename_burst,
            2,
        ) + points(self.backup_tamper, 3) + points(self.c2_contact, 3) + points(
            self.decoy_touched,
            2,
        )
    }

    /// Points from threat context signals.
    pub open spec fn context_points(self) -> int {
        points(self.similar_to_family(), 2) + points(self.propagation_score > 3, 2) + points(
            self.threat_intel_match,
            3,
        ) + points(self.geo_fencing_risk, 1) + points(self.clipboard_monitor, 1) + points(
            self.injected_dll_count > 2,
            2,
        )
    }

    /// Points from the binary itself: signature, imports and tree depth.
    pub open spec fn binary_points(self) -> int {
        signature_points(self.signed_status, self.injection_imports()) + points(
            self.process_tree_depth > 6,
            1,
        )
    }

    /// The score before clamping, for a hollow that is not a decoy.
    pub open spec fn raw_score(self) -> int {
        1 + self.activity_points() + self.context_points() + self.binary_points()
    }

    /// Reasons from file and network activity signals.
    pub open spec fn activity_reasons(self) -> Seq<Seq<char>> {
        reason(self.high_entropy(), "high write entropy (mass encryption pattern) (+3)"@)
            + reason(self.write_velocity > 50, "abnormal write velocity (+2)"@)
            + reason(self.rename_burst, "mass rename burst (+2)"@)
            + reason(self.backup_tamper, "shadow copy / backup tampering (+3)"@)
            + reason(self.c2_contact, "outbound C2 contact (+3)"@)
            + reason(self.decoy_touched, "honeypot directory touched (+2)"@)
    }

    /// Reasons from threat context signals.
    pub open spec fn context_reasons(self) -> Seq<Seq<char>> {
        reason(self.similar_to_family(), "high similarity to known ransomware families (+2)"@)
            + reason(self.propagation_score > 3, "propagating to adjacent endpoints (+2)"@)
            + reason(self.threat_intel_match, "threat intel hash match (+3)"@)
            + reason(self.geo_fencing_risk, "anomalous login geo/ASN (+1)"@)
            + reason(self.clipboard_monitor, "clipboard wallet-swap behavior (+1)"@)
            + reason(self.injected_dll_count > 2, "multiple injected DLLs (+2)"@)
    }

    /// Reasons from the binary itself.
    pub open spec fn binary_reasons(self) -> Seq<Seq<char>> {
        signature_reason(self.signed_status, self.injection_imports()) + reason(
            self.process_tree_depth > 6,
            "unusually deep process tree (+1)"@,
        )
    }

    /// The risk score that `update_risk_score` assigns.
    pub open spec fn scored_risk(self) -> u8 {
        if self.is_decoy {
            1
        } else if self.raw_score() > 10 {
            10
        } else if self.raw_score() < 1 {
            1
        } else {
            self.raw_score() as u8
        }
    }

    /// The reasons that `update_risk_score` records, in order.
    pub open spec fn scored_reasons(self) -> Seq<Seq<char>> {
        if self.is_decoy {
            seq!["is_decoy: score suppressed (honeypot asset)"@]
        } else {
            self.activity_reasons() + self.context_reasons() + self.binary_reasons()
        }
    }

    /// Every field but the score, the anomaly and the reasons agrees.
    pub open spec fn same_observations(self, other: FileHollow) -> bool {
        &&& self.proc_hash == other.proc_hash
        &&& self.entropy_delta_bits == other.entropy_delta_bits
        &&& self.write_velocity == other.write_velocity
        &&& self.rename_burst == other.rename_burst
        &&& self.backup_tamper == other.backup_tamper
        &&& self.c2_contact == other.c2_contact
        &&& self.decoy_touched == other.decoy_touched
        &&& self.last_seen == other.last_seen
        &&& self.is_decoy == other.is_decoy
        &&& self.peer_risk_bits == other.peer_risk_bits
        &&& self.propagation_score == other.propagation_score
        &&& self.mitre_ttp == other.mitre_ttp
        &&& self.threat_intel_match == other.threat_intel_match
        &&& self.user_privilege == other.user_privilege
        &&& self.geo_fencing_risk == other.geo_fencing_risk
        &&& self.clipboard_monitor == other.clipboard_monitor
        &&& self.process_tree_depth == other.process_tree_depth
        &&& self.suspicious_imports == other.suspicious_imports
        &&& self.signed_status == other.signed_status
        &&& self.injected_dll_count == other.injected_dll_count
    }

    /// Every field but the score, the anomaly, the reasons and the imports
    /// agrees.
    pub open spec fn same_observations_except_imports(self, other: FileHollow) -> bool {
        &&& self.proc_hash == other.proc_hash
        &&& self.entropy_delta_bits == other.entropy_delta_bits
        &&& self.write_velocity == other.write_velocity
        &&& self.rename_burst == other.rename_burst
        &&& self.backup_tamper == other.backup_tamper
        &&& self.c2_contact == other.c2_contact
        &&& self.decoy_touched == other.decoy_touched
        &&& self.last_seen == other.last_seen
        &&& self.is_decoy == other.is_decoy
        &&& self.peer_risk_bits == other.peer_risk_bits
        &&& self.propagation_score == other.propagation_score
        &&& self.mitre_ttp == other.mitre_ttp
        &&& self.threat_intel_match == other.threat_intel_match
        &&& self.user_privilege == other.user_privilege
        &&& self.geo_fencing_risk == other.geo_fencing_risk
        &&& self.clipboard_monitor == other.clipboard_monitor
        &&& self.process_tree_depth == other.process_tree_depth
        &&& self.signed_status == other.signed_status
        &&& self.injected_dll_count == other.injected_dll_count
    }

    /// The primary response for this hollow's risk and privilege context.
    pub open spec fn recommended(self) -> EndpointAction {
        if self.is_decoy {
            EndpointAction::LogOnly
        } else if 8 <= self.risk_score <= 10 {
            match self.user_privilege {
                UserPrivilege::DomainAdmin => EndpointAction::RevokeSession,
                UserPrivilege::Admin => EndpointAction::IsolateHost,
                UserPrivilege::Standard => EndpointAction::KillTree,
            }
        } else if 6 <= self.risk_score <= 7 {
            if self.user_privilege == UserPrivilege::DomainAdmin {
                EndpointAction::TriggerMfaReprompt
            } else {
                EndpointAction::IsolateHost
            }
        } else if 4 <= self.risk_score <= 5 {
            EndpointAction::SuspendProc
        } else {
            EndpointAction::LogOnly
        }
    }

    /// The secondary actions fired alongside the primary one, in order.
    pub open spec fn companions(self) -> Seq<EndpointAction> {
        if self.is_decoy {
            Seq::empty()
        } else {
            (if self.risk_score >= 6 { seq![EndpointAction::SendSocWebhook] } else { Seq::empty() })
                + (if self.risk_score >= 7 && !self.signed_status {
                seq![EndpointAction::QuarantineFile]
            } else {
                Seq::empty()
            }) + (if self.risk_score >= 8 { seq![EndpointAction::MemoryDump] } else { Seq::empty() })
                + (if self.risk_score >= 4 && self.risk_score < 8 {
                seq![EndpointAction::FlagForHumanReview]
            } else {
                Seq::empty()
            })
        }
    }

    /// The one-line summary text.
    pub open spec fn summary_text(self) -> Seq<char> {
        "FileHollow["@ + short_prefix(self.proc_hash@) + "] Risk:"@ + decimal(
            self.risk_score as nat,
        ) + " Anomaly:"@ + tenths_text(self.anomaly_tenths) + " TTPs:"@ + decimal(
            self.mitre_ttp@.len(),
        ) + " Action:"@ + action_name(self.recommended())
    }

    /// A fresh hollow for `proc_hash`: no signals, risk 1, standard
    /// privilege, unsigned, no imports, techniques or reasons.
    pub fn new(proc_hash: String) -> (h: Self)
        ensures
            h.proc_hash == proc_hash,
            h.entropy_delta_bits == 0,
            h.write_velocity == 0,
            !h.rename_burst,
            !h.backup_tamper,
            !h.c2_contact,
            !h.decoy_touched,
            h.risk_score == 1,
            h.last_seen == 0,
            !h.is_decoy,
            h.peer_risk_bits == 0,
            h.propagation_score == 0,
            h.mitre_ttp@ == Seq::<String>::empty(),
            !h.threat_intel_match,
            h.user_privilege == UserPrivilege::Standard,
            !h.geo_fencing_risk,
            !h.clipboard_monitor,
            h.process_tree_depth == 0,
            h.suspicious_imports@ == Set::<Seq<char>>::empty(),
            !h.signed_status,
            h.injected_dll_count == 0,
            h.anomaly_tenths == 0,
            h.score_reasons@ == Seq::<String>::empty(),
    {
        FileHollow {
            proc_hash,
            entropy_delta_bits: 0,
            write_velocity: 0,
            rename_burst: false,
            backup_tamper: false,
            c2_contact: false,
            decoy_touched: false,
            risk_score: 1,
            last_seen: 0,
            is_decoy: false,
            peer_risk_bits: 0,
            propagation_score: 0,
            mitre_ttp: Vec::new(),
            threat_intel_match: false,
            user_privilege: UserPrivilege::Standard,
            geo_fencing_risk: false,
            clipboard_monitor: false,
            process_tree_depth: 0,
            suspicious_imports: ImportSet::new(),
            signed_status: false,
            injected_dll_count: 0,
            anomaly_tenths: 0,
            score_reasons: Vec::new(),
        }
    }

    /// Recalculates the risk score from all signals and records why.
    ///
    /// A decoy never escalates: its score is held at 1 (anomaly 0.1) with
    /// a single suppression reason. Otherwise the score is 1 plus the
    /// points of every signal that fired, clamped to 1..=10, and the
    /// anomaly score is the risk in tenths.
    pub fn update_risk_score(&mut self)
        ensures
            final(self).same_observations(*old(self)),
            final(self).risk_score == old(self).scored_risk(),
            final(self).anomaly_tenths == old(self).scored_risk(),
            names_of(final(self).score_reasons@) == old(self).scored_reasons(),
    {
        let mut reasons: Vec<String> = Vec::new();
        if self.is_decoy {
            push_reason(&mut reasons, "is_decoy: score suppressed (honeypot asset)");
            self.risk_score = 1;
            self.anomaly_tenths = 1;
            self.score_reasons = reasons;
            proof {
                assert(names_of(self.score_reasons@) =~= old(self).scored_reasons());
            }
            return;
        }
        let mut score: u8 = 1;
        self.tally_activity(&mut score, &mut reasons);
        self.tally_context(&mut score, &mut reasons);
        self.tally_binary(&mut score, &mut reasons);
        proof {
            assert(names_of(reasons@) =~= self.scored_reasons());
        }
        let clamped = if score > 10 {
            10
        } else if score < 1 {
            1
        } else {
            score
        };
        self.risk_score = clamped;
        self.anomaly_tenths = clamped;
        self.score_reasons = reasons;
    }

    /// Adds the activity signals to a running score and reason list.
    #[verifier::rlimit(60)]
    fn tally_activity(&self, score: &mut u8, reasons: &mut Vec<String>)
        requires
            *old(score) <= 100,
        ensures
            *final(score) == *old(score) + self.activity_points(),
            names_of(final(reasons)@) == names_of(old(reasons)@) + self.activity_reasons(),
    {
        let ghost start = names_of(reasons@);
        tally(
            exceeds(self.entropy_delta_bits, ENTROPY_THRESHOLD_BITS),
            3,
            "high write entropy (mass encryption pattern) (+3)",
            score,
            reasons,
        );
        tally(self.write_velocity > 50, 2, "abnormal write velocity (+2)", score, reasons);
        tally(self.rename_burst, 2, "mass rename burst (+2)", score, reasons);
        tally(self.backup_tamper, 3, "shadow copy / backup tampering (+3)", score, reasons);
        tally(self.c2_contact, 3, "outbound C2 contact (+3)", score, reasons);
        tally(self.decoy_touched, 2, "honeypot directory touched (+2)", score, reasons);
        proof {
            assert(names_of(reasons@) =~= start + self.activity_reasons());
        }
    }

    /// Adds the threat context signals to a running score and reason list.
    #[verifier::rlimit(60)]
    fn tally_context(&self, score: &mut u8, reasons: &mut Vec<String>)
        requires
            *old(score) <= 100,
        ensures
            *final(score) == *old(score) + self.context_points(),
            names_of(final(reasons)@) == names_of(old(reasons)@) + self.context_reasons(),
    {
        let ghost start = names_of(reasons@);
        tally(
            exceeds(self.peer_risk_bits, PEER_RISK_THRESHOLD_BITS),
            2,
            "high similarity to known ransomware families (+2)",
            score,
            reasons,
        );
        tally(
            self.propagation_score > 3,
            2,
            "propagating to adjacent endpoints (+2)",
            score,
            reasons,
        );
        tally(self.threat_intel_match, 3, "threat intel hash match (+3)", score, reasons);
        tally(self.geo_fencing_risk, 1, "anomalous login geo/ASN (+1)", score, reasons);
        tally(self.clipboard_monitor, 1, "clipboard wallet-swap behavior (+1)", score, reasons);
        tally(self.injected_dll_count > 2, 2, "multiple injected DLLs (+2)", score, reasons);
        proof {
            assert(names_of(reasons@) =~= start + self.context_reasons());
        }
    }

    /// Adds the signature, import and tree-depth signals to a running
    /// score and reason list. An unsigned binary with injection-capable
    /// imports weighs more than either signal alone.
    fn tally_binary(&self, score: &mut u8, reasons: &mut Vec<String>)
        requires
            *old(score) <= 100,
        ensures
            *final(score) == *old(score) + self.binary_points(),
            names_of(final(reasons)@) == names_of(old(reasons)@) + self.binary_reasons(),
    {
        let ghost start = names_of(reasons@);
        let has_injection_api = self.suspicious_imports.any_of(&injection_apis());
        assert(has_injection_api == self.injection_imports());
        if !self.signed_status && has_injection_api {
            tally(true, 3, "unsigned binary using process-injection APIs (+3)", score, reasons);
        } else if !self.signed_status {
            tally(true, 1, "unsigned binary (+1)", score, reasons);
        } else if has_injection_api {
            tally(
                true,
                1,
                "signed binary using process-injection APIs (still notable) (+1)",
                score,
                reasons,
            );
        }
        let ghost mid = names_of(reasons@);
        assert(mid =~= start + signature_reason(self.signed_status, self.injection_imports()));
        tally(self.process_tree_depth > 6, 1, "unusually deep process tree (+1)", score, reasons);
        proof {
            assert(names_of(reasons@) =~= start + self.binary_reasons());
        }
    }

    /// The primary response, from the risk score and the account's
    /// privilege: a decoy only logs; at 8–10 a domain admin session is
    /// revoked, an admin host isolated and a standard process tree killed;
    /// at 6–7 a domain admin is asked to re-authenticate and any other
    /// host isolated; at 4–5 the process is suspended; otherwise logged.
    pub fn recommended_action(&self) -> (a: EndpointAction)
        ensures
            a == self.recommended(),
    {
        if self.is_decoy {
            return EndpointAction::LogOnly;
        }
        let r = self.risk_score;
        if 8 <= r && r <= 10 {
            match self.user_privilege {
                UserPrivilege::DomainAdmin => EndpointAction::RevokeSession,
                UserPrivilege::Admin => EndpointAction::IsolateHost,
                UserPrivilege::Standard => EndpointAction::KillTree,
            }
        } else if 6 <= r && r <= 7 {
            match self.user_privilege {
                UserPrivilege::DomainAdmin => EndpointAction::TriggerMfaReprompt,
                _ => EndpointAction::IsolateHost,
            }
        } else if 4 <= r && r <= 5 {
            EndpointAction::SuspendProc
        } else {
            EndpointAction::LogOnly
        }
    }

    /// Secondary actions worth firing alongside the primary one: a SOC
    /// webhook from risk 6, file quarantine from 7 when unsigned, a memory
    /// dump from 8, and human review for 4–7. A decoy gets none.
    pub fn companion_actions(&self) -> (actions: Vec<EndpointAction>)
        ensures
            actions@ == self.companions(),
    {
        let mut actions: Vec<EndpointAction> = Vec::new();
        if self.is_decoy {
            return actions;
        }
        if self.risk_score >= 6 {
            actions.push(EndpointAction::SendSocWebhook);
        }
        if self.risk_score >= 7 && !self.signed_status {
            actions.push(EndpointAction::QuarantineFile);
        }
        if self.risk_score >= 8 {
            actions.push(EndpointAction::MemoryDump);
        }
        if self.risk_score >= 4 && self.risk_score < 8 {
            actions.push(EndpointAction::FlagForHumanReview);
        }
        assert(actions@ =~= self.companions());
        actions
    }

    /// Whether `ttp` is one of the recorded MITRE techniques.
    pub fn has_ttp(&self, ttp: &str) -> (r: bool)
        ensures
            r == names_of(self.mitre_ttp@).contains(ttp@),
    {
        ttp_listed(&self.mitre_ttp, ttp)
    }

    /// One-line threat summary for logs:
    /// `FileHollow[<hash prefix>] Risk:<r> Anomaly:<a> TTPs:<n> Action:<action>`.
    pub fn summary(&self) -> (s: String)
        ensures
            s@ == self.summary_text(),
    {
        let mut out = String::from_str("FileHollow[");
        push_short_prefix(&mut out, self.proc_hash.as_str());
        out.append("] Risk:");
        push_decimal(&mut out, self.risk_score as u64);
        out.append(" Anomaly:");
        push_tenths(&mut out, self.anomaly_tenths);
        out.append(" TTPs:");
        push_decimal(&mut out, self.mitre_ttp.len() as u64);
        out.append(" Action:");
        out.append(self.recommended_action().name());
        proof {
            assert(out@ =~= self.summary_text());
        }
        out
    }
}

/// Adds `pts` to the score when `fired`.
pub(crate) fn add_points(score: &mut u8, fired: bool, pts: u8)
    requires
        *old(score) + pts <= 255,
    ensures
        *final(score) == *old(score) + points(fired, pts as int),
{
    if fired {
        *score = *score + pts;
    }
}

/// Adds `pts` to the score and records `text` when `fired`.
fn tally(fired: bool, pts: u8, text: &str, score: &mut u8, reasons: &mut Vec<String>)
    requires
        *old(score) + pts <= 255,
    ensures
        *final(score) == *old(score) + points(fired, pts as int),
        names_of(final(reasons)@) == names_of(old(reasons)@) + reason(fired, text@),
{
    if fired {
        *score = *score + pts;
        push_reason(reasons, text);
    }
    proof {
        assert(names_of(reasons@) =~= names_of(old(reasons)@) + reason(fired, text@));
    }
}

/// Appends the reason `text` to `reasons`.
fn push_reason(reasons: &mut Vec<String>, text: &str)
    ensures
        names_of(final(reasons)@) == names_of(old(reasons)@).push(text@),
{
    reasons.push(String::from_str(text));
    proof {
        assert(names_of(reasons@) =~= names_of(old(reasons)@).push(text@));
    }
}

/// Whether `ttp` is one of the names in `ttps`.
pub fn ttp_listed(ttps: &Vec<String>, ttp: &str) -> (r: bool)
    ensures
        r == names_of(ttps@).contains(ttp@),
{
    let key = String::from_str(ttp);
    let n = ttps.len();
    for i in 0..n
        invariant
            n == ttps@.len(),
            key@ == ttp@,
            forall|k: int| 0 <= k < i ==> ttps@[k]@ != ttp@,
    {
        if ttps[i] == key {
            proof {
                assert(names_of(ttps@)[i as int] == ttp@);
            }
            return true;
        }
    }
    proof {
        if names_of(ttps@).contains(ttp@) {
            let k = choose|k: int| 0 <= k < names_of(ttps@).len() && names_of(ttps@)[k] == ttp@;
            assert(ttps@[k]@ == ttp@);
        }
    }
    false
}

/// A decoy never escalates: its score is 1, its only action is LogOnly
/// and it gets no companion actions.
pub proof fn lemma_decoy_never_escalates(h: FileHollow)
    requires
        h.is_decoy,
    ensures
        h.scored_risk() == 1,
        h.recommended() == EndpointAction::LogOnly,
        h.companions() == Seq::<EndpointAction>::empty(),
{
}

/// The assigned risk score is always on the 1–10 scale.
pub proof fn lemma_score_in_range(h: FileHollow)
    ensures
        1 <= h.scored_risk() <= 10,
{
}

/// An unsigned binary with injection-capable imports scores at least as
/// high as the same unsigned binary without them, and strictly higher
/// unless the latter already scores the maximum.
pub proof fn lemma_injection_outweighs_unsigned_alone(plain: FileHollow, injecting: FileHollow)
    requires
        injecting.same_observations_except_imports(plain),
        !plain.is_decoy,
        !plain.signed_status,
        !plain.injection_imports(),
        injecting.injection_imports(),
    ensures
        injecting.scored_risk() >= plain.scored_risk(),
        plain.scored_risk() < 10 ==> injecting.scored_risk() > plain.scored_risk(),
{
}

/// Of the four signature/import combinations, an unsigned binary with
/// injection imports weighs most, and a signed one without them least.
pub proof fn lemma_signature_weights()
    ensures
        signature_points(false, true) > signature_points(false, false),
        signature_points(false, true) > signature_points(true, true),
        signature_points(true, false) < signature_points(true, true),
        signature_points(true, false) < signature_points(false, false),
{
}

/// A high-risk domain-admin session is revoked rather than its process
/// tree killed; a medium-risk one is asked to re-authenticate.
pub proof fn lemma_domain_admin_revokes_session(h: FileHollow)
    requires
        !h.is_decoy,
        h.user_privilege == UserPrivilege::DomainAdmin,
    ensures
        8 <= h.risk_score <= 10 ==> h.recommended() == EndpointAction::RevokeSession,
        6 <= h.risk_score <= 7 ==> h.recommended() == EndpointAction::TriggerMfaReprompt,
        h.recommended() != EndpointAction::KillTree,
{
}

/// A KillTree recommendation always ships a SOC webhook and a memory dump.
pub proof fn lemma_kill_tree_has_companions(h: FileHollow)
    requires
        h.recommended() == EndpointAction::KillTree,
    ensures
        h.companions().contains(EndpointAction::SendSocWebhook),
        h.companions().contains(EndpointAction::MemoryDump),
{
    let c = h.companions();
    assert(c[0] == EndpointAction::SendSocWebhook);
    if h.signed_status {
        assert(c[1] == EndpointAction::MemoryDump);
    } else {
        assert(c[2] == EndpointAction::MemoryDump);
    }
}

/// A reason listed in the front part of a list stays listed.
proof fn lemma_listed_in_front(a: Seq<Seq<char>>, b: Seq<Seq<char>>, x: Seq<char>)
    requires
        a.contains(x),
    ensures
        (a + b).contains(x),
{
    let i = choose|i: int| 0 <= i < a.len() && a[i] == x;
    assert((a + b)[i] == x);
}

/// A reason listed in the back part of a list stays listed.
proof fn lemma_listed_in_back(a: Seq<Seq<char>>, b: Seq<Seq<char>>, x: Seq<char>)
    requires
        b.contains(x),
    ensures
        (a + b).contains(x),
{
    let i = choose|i: int| 0 <= i < b.len() && b[i] == x;
    assert((a + b)[a.len() + i] == x);
}

/// A reason that one of six consecutive groups lists is listed by the
/// six together.
proof fn lemma_listed_in_six(
    r1: Seq<Seq<char>>,
    r2: Seq<Seq<char>>,
    r3: Seq<Seq<char>>,
    r4: Seq<Seq<char>>,
    r5: Seq<Seq<char>>,
    r6: Seq<Seq<char>>,
    x: Seq<char>,
)
    requires
        r1.contains(x) || r2.contains(x) || r3.contains(x) || r4.contains(x) || r5.contains(x)
            || r6.contains(x),
    ensures
        (r1 + r2 + r3 + r4 + r5 + r6).contains(x),
{
    if r1.contains(x) {
        lemma_listed_in_front(r1, r2, x);
    } else if r2.contains(x) {
        lemma_listed_in_back(r1, r2, x);
    }
    if r1.contains(x) || r2.contains(x) {
        lemma_listed_in_front(r1 + r2, r3, x);
    } else if r3.contains(x) {
        lemma_listed_in_back(r1 + r2, r3, x);
    }
    if r1.contains(x) || r2.contains(x) || r3.contains(x) {
        lemma_listed_in_front(r1 + r2 + r3, r4, x);
    } else if r4.contains(x) {
        lemma_listed_in_back(r1 + r2 + r3, r4, x);
    }
    if r1.contains(x) || r2.contains(x) || r3.contains(x) || r4.contains(x) {
        lemma_listed_in_front(r1 + r2 + r3 + r4, r5, x);
    } else if r5.contains(x) {
        lemma_listed_in_back(r1 + r2 + r3 + r4, r5, x);
    }
    if r1.contains(x) || r2.contains(x) || r3.contains(x) || r4.contains(x) || r5.contains(x) {
        lemma_listed_in_front(r1 + r2 + r3 + r4 + r5, r6, x);
    } else {
        lemma_listed_in_back(r1 + r2 + r3 + r4 + r5, r6, x);
    }
}

/// A fired reason is listed by itself.
proof fn lemma_fired_reason_listed(text: Seq<char>)
    ensures
        reason(true, text).contains(text),
{
    assert(reason(true, text)[0] == text);
}

/// Every reason of the activity group is among the recorded reasons.
proof fn lemma_activity_reason_recorded(h: FileHollow, text: Seq<char>)
    requires
        !h.is_decoy,
        reason(h.high_entropy(), "high write entropy (mass encryption pattern) (+3)"@).contains(text)
            || reason(h.write_velocity > 50, "abnormal write velocity (+2)"@).contains(text)
            || reason(h.rename_burst, "mass rename burst (+2)"@).contains(text)
            || reason(h.backup_tamper, "shadow copy / backup tampering (+3)"@).contains(text)
            || reason(h.c2_contact, "outbound C2 contact (+3)"@).contains(text)
            || reason(h.decoy_touched, "honeypot directory touched (+2)"@).contains(text),
    ensures
        h.scored_reasons().contains(text),
{
    lemma_listed_in_six(
        reason(h.high_entropy(), "high write entropy (mass encryption pattern) (+3)"@),
        reason(h.write_velocity > 50, "abnormal write velocity (+2)"@),
        reason(h.rename_burst, "mass rename burst (+2)"@),
        reason(h.backup_tamper, "shadow copy / backup tampering (+3)"@),
        reason(h.c2_contact, "outbound C2 contact (+3)"@),
        reason(h.decoy_touched, "honeypot directory touched (+2)"@),
        text,
    );
    lemma_listed_in_front(h.activity_reasons(), h.context_reasons(), text);
    lemma_listed_in_front(h.activity_reasons() + h.context_reasons(), h.binary_reasons(), text);
}

/// Every reason of the threat context group is among the recorded reasons.
proof fn lemma_context_reason_recorded(h: FileHollow, text: Seq<char>)
    requires
        !h.is_decoy,
        reason(h.similar_to_family(), "high similarity to known ransomware families (+2)"@).contains(text)
            || reason(h.propagation_score > 3, "propagating to adjacent endpoints (+2)"@).contains(text)
            || reason(h.threat_intel_match, "threat intel hash match (+3)"@).contains(text)
            || reason(h.geo_fencing_risk, "anomalous login geo/ASN (+1)"@).contains(text)
            || reason(h.clipboard_monitor, "clipboard wallet-swap behavior (+1)"@).contains(text)
            || reason(h.injected_dll_count > 2, "multiple injected DLLs (+2)"@).contains(text),
    ensures
        h.scored_reasons().contains(text),
{
    lemma_listed_in_six(
        reason(h.similar_to_family(), "high similarity to known ransomware families (+2)"@),
        reason(h.propagation_score > 3, "propagating to adjacent endpoints (+2)"@),
        reason(h.threat_intel_match, "threat intel hash match (+3)"@),
        reason(h.geo_fencing_risk, "anomalous login geo/ASN (+1)"@),
        reason(h.clipboard_monitor, "clipboard wallet-swap behavior (+1)"@),
        reason(h.injected_dll_count > 2, "multiple injected DLLs (+2)"@),
        text,
    );
    lemma_listed_in_back(h.activity_reasons(), h.context_reasons(), text);
    lemma_listed_in_front(h.activity_reasons() + h.context_reasons(), h.binary_reasons(), text);
}

/// Every reason of the binary group is among the recorded reasons.
proof fn lemma_binary_reason_recorded(h: FileHollow, text: Seq<char>)
    requires
        !h.is_decoy,
        signature_reason(h.signed_status, h.injection_imports()).contains(text) || reason(
            h.process_tree_depth > 6,
            "unusually deep process tree (+1)"@,
        ).contains(text),
    ensures
        h.scored_reasons().contains(text),
{
    if signature_reason(h.signed_status, h.injection_imports()).contains(text) {
        lemma_listed_in_front(
            signature_reason(h.signed_status, h.injection_imports()),
            reason(h.process_tree_depth > 6, "unusually deep process tree (+1)"@),
            text,
        );
    } else {
        lemma_listed_in_back(
            signature_reason(h.signed_status, h.injection_imports()),
            reason(h.process_tree_depth > 6, "unusually deep process tree (+1)"@),
            text,
        );
    }
    lemma_listed_in_back(h.activity_reasons() + h.context_reasons(), h.binary_reasons(), text);
}
/// Raising entropy_delta_bits across its threshold (write entropy above 0.7) adds exactly 3 to a hollow's unclamped risk score, all
/// else being equal.
pub proof fn lemma_entropy_weight(h: FileHollow, high: u32, low: u32)
    requires
        f32_bits_gt(high, ENTROPY_THRESHOLD_BITS),
        !f32_bits_gt(low, ENTROPY_THRESHOLD_BITS),
    ensures
        (FileHollow { entropy_delta_bits: high, ..h }).raw_score() == (FileHollow { entropy_delta_bits: low, ..h }).raw_score() + 3,
{
}
/// With write entropy above 0.7, a non-decoy hollow records the reason "high write entropy (mass encryption pattern) (+3)".
pub proof fn lemma_entropy_reason(h: FileHollow, high: u32, low: u32)
    requires
        !h.is_decoy,
        f32_bits_gt(high, ENTROPY_THRESHOLD_BITS),
        !f32_bits_gt(low, ENTROPY_THRESHOLD_BITS),
    ensures
        (FileHollow { entropy_delta_bits: high, ..h }).scored_reasons().contains("high write entropy (mass encryption pattern) (+3)"@),
{
    lemma_fired_reason_listed("high write entropy (mass encryption pattern) (+3)"@);
    lemma_activity_reason_recorded((FileHollow { entropy_delta_bits: high, ..h }), "high write entropy (mass encryption pattern) (+3)"@);
}
/// Raising write_velocity from at most 50 to above it (a write velocity above 50 files/s) adds exactly 2 to a hollow's unclamped risk score, all
/// else being equal.
pub proof fn lemma_velocity_weight(h: FileHollow, high: u32, low: u32)
    requires
        high > 50,
        low <= 50,
    ensures
        (FileHollow { write_velocity: high, ..h }).raw_score() == (FileHollow { write_velocity: low, ..h }).raw_score() + 2,
{
}
/// With a write velocity above 50 files/s, a non-decoy hollow records the reason "abnormal write velocity (+2)".
pub proof fn lemma_velocity_reason(h: FileHollow, high: u32, low: u32)
    requires
        !h.is_decoy,
        high > 50,
        low <= 50,
    ensures
        (FileHollow { write_velocity: high, ..h }).scored_reasons().contains("abnormal write velocity (+2)"@),
{
    lemma_fired_reason_listed("abnormal write velocity (+2)"@);
    lemma_activity_reason_recorded((FileHollow { write_velocity: high, ..h }), "abnormal write velocity (+2)"@);
}
/// Setting a mass rename burst adds exactly 2 to a hollow's unclamped risk score, all
/// else being equal.
pub proof fn lemma_rename_burst_weight(h: FileHollow)
    requires
    ensures
        (FileHollow { rename_burst: true, ..h }).raw_score() == (FileHollow { rename_burst: false, ..h }).raw_score() + 2,
{
}
/// With a mass rename burst, a non-decoy hollow records the reason "mass rename burst (+2)".
pub proof fn lemma_rename_burst_reason(h: FileHollow)
    requires
        !h.is_decoy,
    ensures
        (FileHollow { rename_burst: true, ..h }).scored_reasons().contains("mass rename burst (+2)"@),
{
    lemma_fired_reason_listed("mass rename burst (+2)"@);
    lemma_activity_reason_recorded((FileHollow { rename_burst: true, ..h }), "mass rename burst (+2)"@);
}
/// Setting backup tampering adds exactly 3 to a hollow's unclamped risk score, all
/// else being equal.
pub proof fn lemma_backup_tamper_weight(h: FileHollow)
    requires
    ensures
        (FileHollow { backup_tamper: true, ..h }).raw_score() == (FileHollow { backup_tamper: false, ..h }).raw_score() + 3,
{
}
/// With backup tampering, a non-decoy hollow records the reason "shadow copy / backup tampering (+3)".
pub proof fn lemma_backup_tamper_reason(h: FileHollow)
    requires
        !h.is_decoy,
    ensures
        (FileHollow { backup_tamper: true, ..h }).scored_reasons().contains("shadow copy / backup tampering (+3)"@),
{
    lemma_fired_reason_listed("shadow copy / backup tampering (+3)"@);
    lemma_activity_reason_recorded((FileHollow { backup_tamper: true, ..h }), "shadow copy / backup tampering (+3)"@);
}
/// Setting outbound C2 contact adds exactly 3 to a hollow's unclamped risk score, all
/// else being equal.
pub proof fn lemma_c2_contact_weight(h: FileHollow)
    requires
    ensures
        (FileHollow { c2_contact: true, ..h }).raw_score() == (FileHollow { c2_contact: false, ..h }).raw_score() + 3,
{
}
/// With outbound C2 contact, a non-decoy hollow records the reason "outbound C2 contact (+3)".
pub proof fn lemma_c2_contact_reason(h: FileHollow)
    requires
        !h.is_decoy,
    ensures
        (FileHollow { c2_contact: true, ..h }).scored_reasons().contains("outbound C2 contact (+3)"@),
{
    lemma_fired_reason_listed("outbound C2 contact (+3)"@);
    lemma_activity_reason_recorded((FileHollow { c2_contact: true, ..h }), "outbound C2 contact (+3)"@);
}
/// Setting a touched honeypot directory adds exactly 2 to a hollow's unclamped risk score, all
/// else being equal.
pub proof fn lemma_decoy_touched_weight(h: FileHollow)
    requires
    ensures
        (FileHollow { decoy_touched: true, ..h }).raw_score() == (FileHollow { decoy_touched: false, ..h }).raw_score() + 2,
{
}
/// With a touched honeypot directory, a non-decoy hollow records the reason "honeypot directory touched (+2)".
pub proof fn lemma_decoy_touched_reason(h: FileHollow)
    requires
        !h.is_decoy,
    ensures
        (FileHollow { decoy_touched: true, ..h }).scored_reasons().contains("honeypot directory touched (+2)"@),
{
    lemma_fired_reason_listed("honeypot directory touched (+2)"@);
    lemma_activity_reason_recorded((FileHollow { decoy_touched: true, ..h }), "honeypot directory touched (+2)"@);
}
/// Raising peer_risk_bits across its threshold (similarity above 0.6 to known ransomware families) adds exactly 2 to a hollow's unclamped risk score, all
/// else being equal.
pub proof fn lemma_peer_risk_weight(h: FileHollow, high: u32, low: u32)
    requires
        f32_bits_gt(high, PEER_RISK_THRESHOLD_BITS),
        !f32_bits_gt(low, PEER_RISK_THRESHOLD_BITS),
    ensures
        (FileHollow { peer_risk_bits: high, ..h }).raw_score() == (FileHollow { peer_risk_bits: low, ..h }).raw_score() + 2,
{
}
/// With similarity above 0.6 to known ransomware families, a non-decoy hollow records the reason "high similarity to known ransomware families (+2)".
pub proof fn lemma_peer_risk_reason(h: FileHollow, high: u32, low: u32)
    requires
        !h.is_decoy,
        f32_bits_gt(high, PEER_RISK_THRESHOLD_BITS),
        !f32_bits_gt(low, PEER_RISK_THRESHOLD_BITS),
    ensures
        (FileHollow { peer_risk_bits: high, ..h }).scored_reasons().contains("high similarity to known ransomware families (+2)"@),
{
    lemma_fired_reason_listed("high similarity to known ransomware families (+2)"@);
    lemma_context_reason_recorded((FileHollow { peer_risk_bits: high, ..h }), "high similarity to known ransomware families (+2)"@);
}
/// Raising propagation_score from at most 3 to above it (propagation to more than 3 adjacent endpoints) adds exactly 2 to a hollow's unclamped risk score, all
/// else being equal.
pub proof fn lemma_propagation_weight(h: FileHollow, high: u32, low: u32)
    requires
        high > 3,
        low <= 3,
    ensures
        (FileHollow { propagation_score: high, ..h }).raw_score() == (FileHollow { propagation_score: low, ..h }).raw_score() + 2,
{
}
/// With propagation to more than 3 adjacent endpoints, a non-decoy hollow records the reason "propagating to adjacent endpoints (+2)".
pub proof fn lemma_propagation_reason(h: FileHollow, high: u32, low: u32)
    requires
        !h.is_decoy,
        high > 3,
        low <= 3,
    ensures
        (FileHollow { propagation_score: high, ..h }).scored_reasons().contains("propagating to adjacent endpoints (+2)"@),
{
    lemma_fired_reason_listed("propagating to adjacent endpoints (+2)"@);
    lemma_context_reason_recorded((FileHollow { propagation_score: high, ..h }), "propagating to adjacent endpoints (+2)"@);
}
/// Setting a threat-intel hash match adds exactly 3 to a hollow's unclamped risk score, all
/// else being equal.
pub proof fn lemma_threat_intel_weight(h: FileHollow)
    requires
    ensures
        (FileHollow { threat_intel_match: true, ..h }).raw_score() == (FileHollow { threat_intel_match: false, ..h }).raw_score() + 3,
{
}
/// With a threat-intel hash match, a non-decoy hollow records the reason "threat intel hash match (+3)".
pub proof fn lemma_threat_intel_reason(h: FileHollow)
    requires
        !h.is_decoy,
    ensures
        (FileHollow { threat_intel_match: true, ..h }).scored_reasons().contains("threat intel hash match (+3)"@),
{
    lemma_fired_reason_listed("threat intel hash match (+3)"@);
    lemma_context_reason_recorded((FileHollow { threat_intel_match: true, ..h }), "threat intel hash match (+3)"@);
}
/// Setting an anomalous login geo/ASN adds exactly 1 to a hollow's unclamped risk score, all
/// else being equal.
pub proof fn lemma_geo_fencing_weight(h: FileHollow)
    requires
    ensures
        (FileHollow { geo_fencing_risk: true, ..h }).raw_score() == (FileHollow { geo_fencing_risk: false, ..h }).raw_score() + 1,
{
}
/// With an anomalous login geo/ASN, a non-decoy hollow records the reason "anomalous login geo/ASN (+1)".
pub proof fn lemma_geo_fencing_reason(h: FileHollow)
    requires
        !h.is_decoy,
    ensures
        (FileHollow { geo_fencing_risk: true, ..h }).scored_reasons().contains("anomalous login geo/ASN (+1)"@),
{
    lemma_fired_reason_listed("anomalous login geo/ASN (+1)"@);
    lemma_context_reason_recorded((FileHollow { geo_fencing_risk: true, ..h }), "anomalous login geo/ASN (+1)"@);
}
/// Setting clipboard wallet-swap behavior adds exactly 1 to a hollow's unclamped risk score, all
/// else being equal.
pub proof fn lemma_clipboard_weight(h: FileHollow)
    requires
    ensures
        (FileHollow { clipboard_monitor: true, ..h }).raw_score() == (FileHollow { clipboard_monitor: false, ..h }).raw_score() + 1,
{
}
/// With clipboard wallet-swap behavior, a non-decoy hollow records the reason "clipboard wallet-swap behavior (+1)".
pub proof fn lemma_clipboard_reason(h: FileHollow)
    requires
        !h.is_decoy,
    ensures
        (FileHollow { clipboard_monitor: true, ..h }).scored_reasons().contains("clipboard wallet-swap behavior (+1)"@),
{
    lemma_fired_reason_listed("clipboard wallet-swap behavior (+1)"@);
    lemma_context_reason_recorded((FileHollow { clipboard_monitor: true, ..h }), "clipboard wallet-swap behavior (+1)"@);
}
/// Raising injected_dll_count from at most 2 to above it (more than 2 injected DLLs) adds exactly 2 to a hollow's unclamped risk score, all
/// else being equal.
pub proof fn lemma_injected_dlls_weight(h: FileHollow, high: u8, low: u8)
    requires
        high > 2,
        low <= 2,
    ensures
        (FileHollow { injected_dll_count: high, ..h }).raw_score() == (FileHollow { injected_dll_count: low, ..h }).raw_score() + 2,
{
}
/// With more than 2 injected DLLs, a non-decoy hollow records the reason "multiple injected DLLs (+2)".
pub proof fn lemma_injected_dlls_reason(h: FileHollow, high: u8, low: u8)
    requires
        !h.is_decoy,
        high > 2,
        low <= 2,
    ensures
        (FileHollow { injected_dll_count: high, ..h }).scored_reasons().contains("multiple injected DLLs (+2)"@),
{
    lemma_fired_reason_listed("multiple injected DLLs (+2)"@);
    lemma_context_reason_recorded((FileHollow { injected_dll_count: high, ..h }), "multiple injected DLLs (+2)"@);
}
/// Raising process_tree_depth from at most 6 to above it (a process tree deeper than 6) adds exactly 1 to a hollow's unclamped risk score, all
/// else being equal.
pub proof fn lemma_tree_depth_weight(h: FileHollow, high: u16, low: u16)
    requires
        high > 6,
        low <= 6,
    ensures
        (FileHollow { process_tree_depth: high, ..h }).raw_score() == (FileHollow { process_tree_depth: low, ..h }).raw_score() + 1,
{
}
/// With a process tree deeper than 6, a non-decoy hollow records the reason "unusually deep process tree (+1)".
pub proof fn lemma_tree_depth_reason(h: FileHollow, high: u16, low: u16)
    requires
        !h.is_decoy,
        high > 6,
        low <= 6,
    ensures
        (FileHollow { process_tree_depth: high, ..h }).scored_reasons().contains("unusually deep process tree (+1)"@),
{
    lemma_fired_reason_listed("unusually deep process tree (+1)"@);
    lemma_binary_reason_recorded((FileHollow { process_tree_depth: high, ..h }), "unusually deep process tree (+1)"@);
}
/// Dropping the signature of a non-decoy hollow adds exactly 1 to its
/// unclamped score, or 2 when its imports include an injection API.
pub proof fn lemma_unsigned_weight(h: FileHollow)
    ensures
        (FileHollow { signed_status: false, ..h }).raw_score() == (FileHollow {
            signed_status: true,
            ..h
        }).raw_score() + if h.injection_imports() {
            2int
        } else {
            1int
        },
{
}

/// Injection-capable imports add exactly 2 to the unclamped score of an
/// unsigned binary and exactly 1 to that of a signed one, all else being
/// equal.
pub proof fn lemma_injection_import_weight(plain: FileHollow, injecting: FileHollow)
    requires
        injecting.same_observations_except_imports(plain),
        !plain.injection_imports(),
        injecting.injection_imports(),
    ensures
        injecting.raw_score() == plain.raw_score() + if plain.signed_status {
            1int
        } else {
            2int
        },
{
}

/// A non-decoy hollow records which signature/import combination it
/// shows: unsigned with injection imports, unsigned alone, or signed with
/// injection imports.
pub proof fn lemma_signature_reason(h: FileHollow)
    requires
        !h.is_decoy,
    ensures
        !h.signed_status && h.injection_imports() ==> h.scored_reasons().contains(
            "unsigned binary using process-injection APIs (+3)"@,
        ),
        !h.signed_status && !h.injection_imports() ==> h.scored_reasons().contains(
            "unsigned binary (+1)"@,
        ),
        h.signed_status && h.injection_imports() ==> h.scored_reasons().contains(
            "signed binary using process-injection APIs (still notable) (+1)"@,
        ),
{
    let sr = signature_reason(h.signed_status, h.injection_imports());
    if !h.signed_status && h.injection_imports() {
        assert(sr[0] == "unsigned binary using process-injection APIs (+3)"@);
        lemma_binary_reason_recorded(h, "unsigned binary using process-injection APIs (+3)"@);
    } else if !h.signed_status {
        assert(sr[0] == "unsigned binary (+1)"@);
        lemma_binary_reason_recorded(h, "unsigned binary (+1)"@);
    } else if h.injection_imports() {
        assert(sr[0] == "signed binary using process-injection APIs (still notable) (+1)"@);
        lemma_binary_reason_recorded(
            h,
            "signed binary using process-injection APIs (still notable) (+1)"@,
        );
    }
}

/// A non-decoy hollow on which no signal fires — signed, no injection
/// imports, and every activity, context and depth signal quiet — has an
/// unclamped score of 1 and records no reason.
pub proof fn lemma_quiet_hollow_scores_one(h: FileHollow)
    requires
        !h.is_decoy,
        !f32_bits_gt(h.entropy_delta_bits, ENTROPY_THRESHOLD_BITS),
        h.write_velocity <= 50,
        !h.rename_burst,
        !h.backup_tamper,
        !h.c2_contact,
        !h.decoy_touched,
        !f32_bits_gt(h.peer_risk_bits, PEER_RISK_THRESHOLD_BITS),
        h.propagation_score <= 3,
        !h.threat_intel_match,
        !h.geo_fencing_risk,
        !h.clipboard_monitor,
        h.injected_dll_count <= 2,
        h.signed_status,
        !h.injection_imports(),
        h.process_tree_depth <= 6,
    ensures
        h.raw_score() == 1,
        h.scored_risk() == 1,
        h.scored_reasons().len() == 0,
{
}

/// A non-decoy hollow's risk is its unclamped score, capped at 10.
pub proof fn lemma_score_caps_raw(h: FileHollow)
    requires
        !h.is_decoy,
    ensures
        h.raw_score() >= 1,
        h.scored_risk() == if h.raw_score() > 10 {
            10
        } else {
            h.raw_score()
        },
{
}

/// The primary response of a non-decoy hollow, by risk band and privilege:
/// at 8–10 a standard account's tree is killed, an admin's host isolated
/// and a domain admin's session revoked; at 6–7 a domain admin is asked to
/// re-authenticate and any other account's host is isolated; at 4–5 the
/// process is suspended; otherwise the event is only logged.
pub proof fn lemma_recommendation_table(h: FileHollow)
    requires
        !h.is_decoy,
    ensures
        8 <= h.risk_score <= 10 && h.user_privilege == UserPrivilege::Standard ==> h.recommended()
            == EndpointAction::KillTree,
        8 <= h.risk_score <= 10 && h.user_privilege == UserPrivilege::Admin ==> h.recommended()
            == EndpointAction::IsolateHost,
        8 <= h.risk_score <= 10 && h.user_privilege == UserPrivilege::DomainAdmin
            ==> h.recommended() == EndpointAction::RevokeSession,
        6 <= h.risk_score <= 7 && h.user_privilege != UserPrivilege::DomainAdmin ==> h.recommended()
            == EndpointAction::IsolateHost,
        6 <= h.risk_score <= 7 && h.user_privilege == UserPrivilege::DomainAdmin ==> h.recommended()
            == EndpointAction::TriggerMfaReprompt,
        4 <= h.risk_score <= 5 ==> h.recommended() == EndpointAction::SuspendProc,
        (h.risk_score < 4 || h.risk_score > 10) ==> h.recommended() == EndpointAction::LogOnly,
{
}

/// Which companion actions a non-decoy hollow fires: a SOC webhook exactly
/// from risk 6, quarantine exactly from 7 when unsigned, a memory dump
/// exactly from 8, and human review exactly for risks 4–7 whatever the
/// signature; each at most once.
pub proof fn lemma_companion_rules(h: FileHollow)
    requires
        !h.is_decoy,
    ensures
        h.companions().contains(EndpointAction::SendSocWebhook) <==> h.risk_score >= 6,
        h.companions().contains(EndpointAction::QuarantineFile) <==> (h.risk_score >= 7
            && !h.signed_status),
        h.companions().contains(EndpointAction::MemoryDump) <==> h.risk_score >= 8,
        h.companions().contains(EndpointAction::FlagForHumanReview) <==> (4 <= h.risk_score < 8),
        h.companions().no_duplicates(),
        forall|a: EndpointAction|
            #[trigger] h.companions().contains(a) ==> a == EndpointAction::SendSocWebhook || a
                == EndpointAction::QuarantineFile || a == EndpointAction::MemoryDump || a
                == EndpointAction::FlagForHumanReview,
{
    let c = h.companions();
    let w = if h.risk_score >= 6 { seq![EndpointAction::SendSocWebhook] } else { Seq::empty() };
    let q = if h.risk_score >= 7 && !h.signed_status {
        seq![EndpointAction::QuarantineFile]
    } else {
        Seq::empty()
    };
    let m = if h.risk_score >= 8 { seq![EndpointAction::MemoryDump] } else { Seq::empty() };
    let f = if h.risk_score >= 4 && h.risk_score < 8 {
        seq![EndpointAction::FlagForHumanReview]
    } else {
        Seq::empty()
    };
    assert(c =~= w + q + m + f);
    assert forall|a: EndpointAction| c.contains(a) <==> (w.contains(a) || q.contains(a) || m.contains(a) || f.contains(a)) by {
        if c.contains(a) {
            let i = choose|i: int| 0 <= i < c.len() && c[i] == a;
            if i < w.len() {
                assert(w[i] == a);
            } else if i < w.len() + q.len() {
                assert(q[i - w.len()] == a);
            } else if i < w.len() + q.len() + m.len() {
                assert(m[i - w.len() - q.len()] == a);
            } else {
                assert(f[i - w.len() - q.len() - m.len()] == a);
            }
        }
        if w.contains(a) {
            assert(c[0] == a);
        }
        if q.contains(a) {
            assert(c[w.len() as int] == a);
        }
        if m.contains(a) {
            assert(c[(w.len() + q.len()) as int] == a);
        }
        if f.contains(a) {
            assert(c[(w.len() + q.len() + m.len()) as int] == a);
        }
    }
    assert(w.contains(EndpointAction::SendSocWebhook) <==> h.risk_score >= 6) by {
        if h.risk_score >= 6 {
            assert(w[0] == EndpointAction::SendSocWebhook);
        }
    }
    assert(q.contains(EndpointAction::QuarantineFile) <==> (h.risk_score >= 7 && !h.signed_status)) by {
        if h.risk_score >= 7 && !h.signed_status {
            assert(q[0] == EndpointAction::QuarantineFile);
        }
    }
    assert(m.contains(EndpointAction::MemoryDump) <==> h.risk_score >= 8) by {
        if h.risk_score >= 8 {
            assert(m[0] == EndpointAction::MemoryDump);
        }
    }
    assert(f.contains(EndpointAction::FlagForHumanReview) <==> (4 <= h.risk_score < 8)) by {
        if 4 <= h.risk_score < 8 {
            assert(f[0] == EndpointAction::FlagForHumanReview);
        }
    }
}

} // verus!
