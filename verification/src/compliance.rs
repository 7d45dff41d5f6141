//! The compliance engine: issuer scoring and bond approval.

use crate::text::spec_decimal;
use crate::text::u64_to_decimal;
use vstd::prelude::*;
use vstd::string::StringExecFns;
use vstd::utf8::encode_utf8;

verus! {

/// Placeholder for a future ledger- or clock-provided timestamp.
pub const MOCK_TIMESTAMP: u64 = 1705420800;

/// Score threshold at or above which an issuer is recommended and a bond
/// may be approved.
pub const DEFAULT_APPROVAL_THRESHOLD: u8 = 97;

/// Verification result from the issuer check.
#[derive(Clone, Debug)]
pub struct VerificationResult {
    /// Compliance score, 0-100.
    pub score: u8,
    /// Deviation from a perfect score, in hundredths: `100 - score`
    /// hundredths is the fraction `(100 - score) / 100`.
    pub deviation_centi: u8,
    /// GST registration status.
    pub gst_valid: bool,
    /// Reported turnover, in whole currency units.
    pub turnover: u64,
    /// Recommendation for approval.
    pub recommended: bool,
}

/// Approval result after bond verification.
#[derive(Clone, Debug)]
pub struct ApprovalResult {
    /// Final approval status.
    pub approved: bool,
    /// Transaction reference; the empty string when not approved.
    pub tx_id: String,
    /// The score used in the decision.
    pub oracle_score: u8,
}

/// Bond verification request.
#[derive(Clone, Debug)]
pub struct BondApprovalRequest {
    /// Caller-supplied bond identifier; no uniqueness enforced.
    pub bond_id: String,
    /// The issuer's tax identifier.
    pub pan: String,
    /// Proposed yield, in thousandths of a percent: 10000 is 10%.
    pub yield_milli_percent: i64,
    /// Face value, in whole currency units.
    pub face_value: u64,
}

/// The compliance engine. Its only state is the immutable approval
/// threshold, fixed at construction; there is no setter.
pub struct BondFiCompliance {
    approval_threshold: u8,
}

/// The compliance score of an identifier: 98 for a long identifier with the
/// `AA` prefix, 75 for any other long identifier, 45 otherwise. Length is
/// the identifier's UTF-8 byte length, and the prefix its two leading
/// bytes, as in `str::len` and `str::starts_with`.
pub open spec fn spec_score(id: Seq<char>) -> u8 {
    let b = encode_utf8(id);
    if b.len() > 8 && b[0] == 65 && b[1] == 65 {
        98
    } else if b.len() > 8 {
        75
    } else {
        45
    }
}

/// The shared scoring rule, a pure function of the identifier alone.
pub fn compliance_score(identifier: &str) -> (score: u8)
    ensures
        score == spec_score(identifier@),
{
    let b: &[u8] = identifier.as_bytes();
    if b.len() > 8 {
        if b[0] == 65 && b[1] == 65 {
            98
        } else {
            75
        }
    } else {
        45
    }
}

/// Whether a proposed yield passes the business check: between 5% and 15%,
/// both ends included, stated over thousandths of a percent.
pub open spec fn spec_yield_valid(yield_milli_percent: i64) -> bool {
    5000 <= yield_milli_percent <= 15000
}

/// Whether a face value passes the business check: between 10 000 and
/// 100 000 000 whole currency units, both ends included.
pub open spec fn spec_face_value_valid(face_value: u64) -> bool {
    10000 <= face_value <= 100000000
}

/// The transaction reference for an approved bond:
/// `weil-tx-{bond_id}-{timestamp}`.
pub open spec fn spec_tx_id(bond_id: Seq<char>, timestamp: nat) -> Seq<char> {
    "weil-tx-"@ + bond_id + "-"@ + spec_decimal(timestamp)
}

/// Mock timestamp generator, standing in for a real clock or ledger read.
fn chrono_mock() -> (r: u64)
    ensures
        r == MOCK_TIMESTAMP,
{
    MOCK_TIMESTAMP
}

/// Builds the transaction reference for an approved bond.
fn make_tx_id(bond_id: &str, timestamp: u64) -> (r: String)
    ensures
        r@ == spec_tx_id(bond_id@, timestamp as nat),
{
    let mut s = String::from_str("weil-tx-");
    s.append(bond_id);
    s.append("-");
    let ts = u64_to_decimal(timestamp);
    s.append(ts.as_str());
    proof {
        assert(s@ =~= spec_tx_id(bond_id@, timestamp as nat));
    }
    s
}

impl BondFiCompliance {
    /// The engine's approval threshold.
    pub closed spec fn spec_approval_threshold(&self) -> u8 {
        self.approval_threshold
    }

    /// Read the approval threshold; the engine offers no way to change it.
    pub fn approval_threshold(&self) -> (r: u8)
        ensures
            r == self.spec_approval_threshold(),
    {
        self.approval_threshold
    }

    /// Create a new compliance engine with the default threshold.
    pub fn new() -> (r: Self)
        ensures
            r.spec_approval_threshold() == DEFAULT_APPROVAL_THRESHOLD,
    {
        BondFiCompliance { approval_threshold: 97 }
    }

    /// Verify an issuer by its tax identifier. Total over strings: every
    /// input, the empty string included, produces a well-defined result.
    pub fn verify_issuer(&self, pan: String) -> (r: VerificationResult)
        ensures
            r.score == spec_score(pan@),
            r.deviation_centi == 100 - spec_score(pan@),
            r.gst_valid == (encode_utf8(pan@).len() > 8),
            r.turnover == if spec_score(pan@) > 90 {
                500000000u64
            } else {
                100000000u64
            },
            r.recommended == (spec_score(pan@) >= self.spec_approval_threshold()),
    {
        let score: u8 = compliance_score(pan.as_str());
        VerificationResult {
            score,
            deviation_centi: 100 - score,
            gst_valid: pan.as_str().as_bytes().len() > 8,
            turnover: if score > 90 {
                500_000_000
            } else {
                100_000_000
            },
            recommended: score >= self.approval_threshold,
        }
    }

    /// Approve a bond: the yield, the face value and the issuer's score must
    /// all pass their checks. Total over its numeric domain: out-of-range
    /// inputs fail the corresponding check rather than signalling an error.
    pub fn approve_bond(
        &self,
        bond_id: String,
        pan: String,
        yield_milli_percent: i64,
        face_value: u64,
    ) -> (r: ApprovalResult)
        ensures
            r.oracle_score == spec_score(pan@),
            r.approved == (spec_yield_valid(yield_milli_percent) && spec_face_value_valid(
                face_value,
            ) && spec_score(pan@) >= self.spec_approval_threshold()),
            r.approved ==> r.tx_id@ == spec_tx_id(bond_id@, MOCK_TIMESTAMP as nat),
            !r.approved ==> r.tx_id@ == Seq::<char>::empty(),
            r.approved <==> r.tx_id@.len() > 0,
    {
        let score: u8 = compliance_score(pan.as_str());

        let yield_valid: bool = yield_milli_percent >= 5_000 && yield_milli_percent <= 15_000;
        let face_value_valid: bool = face_value >= 10_000 && face_value <= 100_000_000;
        let score_valid: bool = score >= self.approval_threshold;

        let approved: bool = yield_valid && face_value_valid && score_valid;

        let tx_id: String = if approved {
            make_tx_id(bond_id.as_str(), chrono_mock())
        } else {
            String::new()
        };
        proof {
            reveal_strlit("weil-tx-");
        }

        ApprovalResult { approved, tx_id, oracle_score: score }
    }
}

impl Default for BondFiCompliance {
    /// The default engine carries the default threshold.
    fn default() -> (r: Self)
        ensures
            r.spec_approval_threshold() == DEFAULT_APPROVAL_THRESHOLD,
    {
        Self::new()
    }
}

/// Law: every identifier scores exactly 45, 75 or 98, and which of the three
/// it is is fully determined by the two predicates "UTF-8 length over 8
/// bytes" and "the two leading bytes spell `AA`".
pub proof fn lemma_score_values(id: Seq<char>)
    ensures
        spec_score(id) == 45 || spec_score(id) == 75 || spec_score(id) == 98,
        (spec_score(id) == 98) <==> (encode_utf8(id).len() > 8 && encode_utf8(id)[0] == 65
            && encode_utf8(id)[1] == 65),
        (spec_score(id) == 75) <==> (encode_utf8(id).len() > 8 && !(encode_utf8(id)[0] == 65
            && encode_utf8(id)[1] == 65)),
        (spec_score(id) == 45) <==> !(encode_utf8(id).len() > 8),
{
}

/// Law: the high turnover tier is reported exactly for score 98, since 98 is
/// the only score above 90.
pub proof fn lemma_turnover_tier(id: Seq<char>)
    ensures
        (spec_score(id) > 90) <==> (spec_score(id) == 98),
{
}

/// Law: a verification result and an approval result derived from the same
/// identifier carry the same score.
pub proof fn lemma_score_equivalence(v: VerificationResult, a: ApprovalResult, id: Seq<char>)
    requires
        v.score == spec_score(id),
        a.oracle_score == spec_score(id),
    ensures
        v.score == a.oracle_score,
{
}

} // verus!
