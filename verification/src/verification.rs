//! What a verifier reports about a detached signature, and what that makes
//! of the message that carried it.

use vstd::prelude::*;
use vstd::string::StringExecFns;
use vstd::utf8::{decode_utf8, valid_utf8};
use crate::message::{Message, MessageKind, MessageKindView, MessageView, signed};
use crate::text::str_eq;

verus! {

/// What a verifier found for one signature.
#[derive(Clone, Copy, Debug, PartialEq, Eq, Structural)]
pub enum SignatureStatus {
    /// The signature is by a known key and fits the signed text.
    Good,
    /// The signature does not fit the signed text.
    Bad,
    /// The key that made the signature is not known.
    KeyMissing,
}

/// The code with which GnuPG reports a signature that holds.
pub const GPG_ERR_NO_ERROR: u32 = 0;

/// The code with which GnuPG reports a signature by a key that it does not
/// have.
pub const GPG_ERR_NO_PUBKEY: u32 = 9;

impl SignatureStatus {
    /// The status that a code of GnuPG stands for: only a signature
    /// without error is good, a missing key leaves the matter open, and
    /// anything else counts against the signature.
    pub open spec fn of_code(code: u32) -> SignatureStatus {
        if code == GPG_ERR_NO_ERROR {
            SignatureStatus::Good
        } else if code == GPG_ERR_NO_PUBKEY {
            SignatureStatus::KeyMissing
        } else {
            SignatureStatus::Bad
        }
    }

    /// The status that a code of GnuPG stands for.
    pub fn from_code(code: u32) -> (r: SignatureStatus)
        ensures
            r == Self::of_code(code),
    {
        if code == GPG_ERR_NO_ERROR {
            SignatureStatus::Good
        } else if code == GPG_ERR_NO_PUBKEY {
            SignatureStatus::KeyMissing
        } else {
            SignatureStatus::Bad
        }
    }
}

/// A verifier's report on one signature: who made it, and whether it holds.
#[derive(Debug, PartialEq, Eq)]
pub struct SignatureCheck {
    /// The identity of the signing key
    pub signer: String,
    pub status: SignatureStatus,
}

/// A `SignatureCheck` as a mathematical value.
pub struct SignatureCheckView {
    pub signer: Seq<char>,
    pub status: SignatureStatus,
}

impl View for SignatureCheck {
    type V = SignatureCheckView;

    open spec fn view(&self) -> SignatureCheckView {
        SignatureCheckView { signer: self.signer@, status: self.status }
    }
}

/// How far a message can be trusted.
#[derive(Debug, PartialEq, Eq)]
pub enum VerificationOutcome {
    /// Every signature holds; the first is by `signer_identity`.
    Valid { signer_identity: String },
    /// The signature does not hold.
    Invalid { reason: String },
    /// Nothing can be said of the signature.
    Unverifiable { reason: String },
}

/// A `VerificationOutcome` as a mathematical value.
pub enum VerificationOutcomeView {
    Valid { signer_identity: Seq<char> },
    Invalid { reason: Seq<char> },
    Unverifiable { reason: Seq<char> },
}

impl View for VerificationOutcome {
    type V = VerificationOutcomeView;

    open spec fn view(&self) -> VerificationOutcomeView {
        match self {
            VerificationOutcome::Valid { signer_identity } => VerificationOutcomeView::Valid {
                signer_identity: signer_identity@,
            },
            VerificationOutcome::Invalid { reason } => VerificationOutcomeView::Invalid {
                reason: reason@,
            },
            VerificationOutcome::Unverifiable { reason } => VerificationOutcomeView::Unverifiable {
                reason: reason@,
            },
        }
    }
}

/// Whether some check of a report has the given status.
pub open spec fn some_status(checks: Seq<SignatureCheckView>, status: SignatureStatus) -> bool {
    exists|i: int| 0 <= i < checks.len() && (#[trigger] checks[i]).status == status
}

/// What a verifier reports: the signature it looked at, the text it held
/// the signature against, and what it found.
#[derive(Debug, PartialEq, Eq)]
pub struct VerifierReport {
    pub signature: String,
    pub signed_text: String,
    /// The checks of the signatures that were found, or why the verifier
    /// could not look
    pub checks: Result<Vec<SignatureCheck>, String>,
}

/// A `VerifierReport` as a mathematical value.
pub struct VerifierReportView {
    pub signature: Seq<char>,
    pub signed_text: Seq<char>,
    pub checks: Result<Seq<SignatureCheckView>, Seq<char>>,
}

/// What a verifier found, as a mathematical value.
pub open spec fn checks_view(checks: Result<Vec<SignatureCheck>, String>) -> Result<
    Seq<SignatureCheckView>,
    Seq<char>,
> {
    match checks {
        Ok(list) => Ok(list@.map_values(|c: SignatureCheck| c@)),
        Err(reason) => Err(reason@),
    }
}

impl View for VerifierReport {
    type V = VerifierReportView;

    open spec fn view(&self) -> VerifierReportView {
        VerifierReportView {
            signature: self.signature@,
            signed_text: self.signed_text@,
            checks: checks_view(self.checks),
        }
    }
}

impl VerifierReportView {
    /// Whether the report is about a message: the verifier looked at the
    /// message's signature, and held it against the canonical text of the
    /// message's kind.
    pub open spec fn is_about(self, m: MessageView) -> bool {
        self.signature == m.signature && self.signed_text == m.kind.canonical_text()
    }
}

/// The outcome that a report stands for. A verifier that could not look
/// leaves the message unverifiable, for the reason it gave. A bad signature
/// makes it invalid, and so does a report without signatures. Else an
/// unknown key leaves it unverifiable. Else every signature is good, and the
/// message is valid.
pub open spec fn outcome_of(report: Result<Seq<SignatureCheckView>, Seq<char>>) -> VerificationOutcomeView {
    match report {
        Err(reason) => VerificationOutcomeView::Unverifiable { reason },
        Ok(checks) => if checks.len() == 0 {
            VerificationOutcomeView::Invalid { reason: "no signature"@ }
        } else if some_status(checks, SignatureStatus::Bad) {
            VerificationOutcomeView::Invalid { reason: "bad signature"@ }
        } else if some_status(checks, SignatureStatus::KeyMissing) {
            VerificationOutcomeView::Unverifiable { reason: "unknown signer key"@ }
        } else {
            VerificationOutcomeView::Valid { signer_identity: checks[0].signer }
        },
    }
}

/// What verifying gives: the kind of the message, untouched, and the outcome
/// that the report stands for if it is about the message. A report about
/// anything else says nothing of the message.
pub open spec fn verified(m: MessageView, report: VerifierReportView) -> (
    MessageKindView,
    VerificationOutcomeView,
) {
    (
        m.kind,
        if report.is_about(m) {
            outcome_of(report.checks)
        } else {
            VerificationOutcomeView::Unverifiable { reason: "the report is about another message"@ }
        },
    )
}

/// Whether every check of a report is good.
pub open spec fn all_good(checks: Seq<SignatureCheckView>) -> bool {
    forall|i: int| 0 <= i < checks.len() ==> (#[trigger] checks[i]).status == SignatureStatus::Good
}

/// Whether a verifier looked, found a signature, and found every signature
/// good.
pub open spec fn all_signatures_good(checks: Result<Seq<SignatureCheckView>, Seq<char>>) -> bool {
    checks matches Ok(list) && list.len() > 0 && all_good(list)
}

/// Round trip: a kind that is signed, and whose signature the verifier
/// reports as good over the kind's canonical text, comes back unchanged and
/// `Valid`, with the first signer's identity.
pub proof fn lemma_sign_verify_round_trip(kind: MessageKindView, signature: Seq<u8>, report: VerifierReportView)
    requires
        kind.valid(),
        valid_utf8(signature),
        report.signature == decode_utf8(signature),
        report.signed_text == kind.canonical_text(),
        all_signatures_good(report.checks),
    ensures
        signed(kind, Some(signature)) matches Ok(m) && verified(m, report) == (
            kind,
            VerificationOutcomeView::Valid { signer_identity: report.checks->Ok_0[0].signer },
        ),
{
}

/// A message is `Valid` only by a report that is about it and in which
/// every signature is good. So a message whose signature or whose kind's
/// canonical text is not what the verifier looked at is never `Valid`, and
/// neither is one with a signature that the verifier found bad.
pub proof fn lemma_valid_only_by_good_report_about_message(m: MessageView, report: VerifierReportView)
    ensures
        verified(m, report).0 == m.kind,
        verified(m, report).1 is Valid <==> (report.is_about(m) && all_signatures_good(report.checks)),
        (report.is_about(m) && (report.checks matches Ok(checks) && some_status(
            checks,
            SignatureStatus::Bad,
        ))) ==> verified(m, report).1 is Invalid,
{
    lemma_valid_only_if_all_good(report.checks);
}

/// The outcome is `Valid` only for a report in which every signature is
/// good, and there is one: a signature that does not fit, a missing key or
/// a verifier that could not look never gives `Valid`.
pub proof fn lemma_valid_only_if_all_good(report: Result<Seq<SignatureCheckView>, Seq<char>>)
    ensures
        outcome_of(report) is Valid <==> all_signatures_good(report),
        (report matches Ok(checks) && some_status(checks, SignatureStatus::Bad)) ==> outcome_of(
            report,
        ) is Invalid,
{
    if let Ok(checks) = report {
        if checks.len() > 0 && !some_status(checks, SignatureStatus::Bad) && !some_status(
            checks,
            SignatureStatus::KeyMissing,
        ) {
            assert forall|i: int| 0 <= i < checks.len() implies (#[trigger] checks[i]).status
                == SignatureStatus::Good by {
                match checks[i].status {
                    SignatureStatus::Good => {},
                    SignatureStatus::Bad => {},
                    SignatureStatus::KeyMissing => {},
                }
            }
        }
    }
}

/// Whether some check has the given status.
fn has_status(checks: &Vec<SignatureCheck>, status: SignatureStatus) -> (r: bool)
    ensures
        r == some_status(checks@.map_values(|c: SignatureCheck| c@), status),
{
    let ghost views = checks@.map_values(|c: SignatureCheck| c@);
    let mut i: usize = 0;
    while i < checks.len()
        invariant
            i <= checks.len(),
            views == checks@.map_values(|c: SignatureCheck| c@),
            forall|k: int| 0 <= k < i ==> (#[trigger] views[k]).status != status,
        decreases checks.len() - i,
    {
        if checks[i].status == status {
            assert(views[i as int].status == status);
            return true;
        }
        i += 1;
    }
    false
}

/// The outcome that a verifier's report stands for.
pub fn judge(report: &Result<Vec<SignatureCheck>, String>) -> (r: VerificationOutcome)
    ensures
        r@ == outcome_of(checks_view(*report)),
{
    match report {
        Err(reason) => VerificationOutcome::Unverifiable { reason: reason.clone() },
        Ok(checks) => {
            if checks.len() == 0 {
                VerificationOutcome::Invalid { reason: String::from_str("no signature") }
            } else if has_status(checks, SignatureStatus::Bad) {
                VerificationOutcome::Invalid { reason: String::from_str("bad signature") }
            } else if has_status(checks, SignatureStatus::KeyMissing) {
                VerificationOutcome::Unverifiable { reason: String::from_str("unknown signer key") }
            } else {
                VerificationOutcome::Valid { signer_identity: checks[0].signer.clone() }
            }
        },
    }
}

impl Message {
    /// Verifies the message by the report that a verifier made of
    /// `self.signature()` over `self.kind().canonical()`. The kind comes back
    /// as it is in the message, whatever the outcome.
    pub fn verify(&self, report: &VerifierReport) -> (r: (MessageKind, VerificationOutcome))
        ensures
            (r.0@, r.1@) == verified(self@, report@),
    {
        let kind = self.kind().clone();
        let text = kind.canonical();
        let outcome = if str_eq(report.signature.as_str(), self.signature()) && str_eq(
            report.signed_text.as_str(),
            text.as_str(),
        ) {
            judge(&report.checks)
        } else {
            VerificationOutcome::Unverifiable {
                reason: String::from_str("the report is about another message"),
            }
        };
        (kind, outcome)
    }
}

} // verus!
