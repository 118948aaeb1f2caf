//! Claim proofs: predicates over confidential data, proved without revealing
//! the data. Each claim type owns the fields it reads from the claim value.

use crate::crypto::sha256;
use crate::crypto::sha256_of;
use crate::encoding::decimal;
use crate::encoding::decimal_string;
use crate::encoding::hex_chars;
use crate::encoding::hex_encode;
use vstd::prelude::*;
use vstd::utf8::encode_utf8;

verus! {

#[verifier::external_type_specification]
#[verifier::external_body]
pub struct ExJsonValue(serde_json::Value);

/// Relies on `serde_json::Value::get`: the member at `key` of a JSON object.
#[verifier::external_body]
fn json_get<'a>(v: &'a serde_json::Value, key: &str) -> (r: Option<&'a serde_json::Value>) {
    v.get(key)
}

/// Relies on `serde_json::Value::as_str`: the text of a JSON string.
#[verifier::external_body]
fn json_as_str(v: &serde_json::Value) -> (r: Option<String>) {
    v.as_str().map(|s| s.to_string())
}

/// Relies on `serde_json::Value::as_u64`: a JSON number that is a `u64`.
#[verifier::external_body]
fn json_as_u64(v: &serde_json::Value) -> (r: Option<u64>) {
    v.as_u64()
}

/// The largest timestamp a range claim may name; an absent upper bound means it.
pub const TIMESTAMP_SENTINEL: u64 = 9999999999;

/// The supported claim types.
#[derive(PartialEq, Eq, Structural, Clone, Copy, Debug)]
pub enum ClaimKind {
    Keyword,
    Timestamp,
    FileHash,
}

/// The claim type a tag names, if any.
pub open spec fn claim_kind_of(tag: Seq<char>) -> Option<ClaimKind> {
    if tag == "keyword"@ {
        Some(ClaimKind::Keyword)
    } else if tag == "timestamp"@ {
        Some(ClaimKind::Timestamp)
    } else if tag == "file_hash"@ {
        Some(ClaimKind::FileHash)
    } else {
        None
    }
}

fn str_equal(a: &str, b: &str) -> (r: bool)
    ensures
        r == (a@ == b@),
{
    let n = a.unicode_len();
    if n != b.unicode_len() {
        return false;
    }
    let mut i: usize = 0;
    while i < n
        invariant
            n == a@.len(),
            n == b@.len(),
            i <= n,
            forall|j: int| 0 <= j < i ==> a@[j] == b@[j],
        decreases n - i,
    {
        if a.get_char(i) != b.get_char(i) {
            return false;
        }
        i = i + 1;
    }
    assert(a@ =~= b@);
    true
}

impl ClaimKind {
    /// Resolves a claim-type tag.
    pub fn from_tag(tag: &str) -> (r: Option<ClaimKind>)
        ensures
            r == claim_kind_of(tag@),
    {
        if str_equal(tag, "keyword") {
            Some(ClaimKind::Keyword)
        } else if str_equal(tag, "timestamp") {
            Some(ClaimKind::Timestamp)
        } else if str_equal(tag, "file_hash") {
            Some(ClaimKind::FileHash)
        } else {
            None
        }
    }
}

/// The fields of a claim description that some claim type reads.
pub struct ClaimValue {
    pub keyword: Option<String>,
    pub min: Option<u64>,
    pub max: Option<u64>,
    pub hash: Option<String>,
}

impl ClaimValue {
    /// Reads the known fields of a JSON claim description; a field that is
    /// absent or of another JSON type is left out.
    pub fn from_json(v: &serde_json::Value) -> (r: ClaimValue) {
        let keyword = match json_get(v, "keyword") {
            Some(f) => json_as_str(f),
            None => None,
        };
        let min = match json_get(v, "min") {
            Some(f) => json_as_u64(f),
            None => None,
        };
        let max = match json_get(v, "max") {
            Some(f) => json_as_u64(f),
            None => None,
        };
        let hash = match json_get(v, "hash") {
            Some(f) => json_as_str(f),
            None => None,
        };
        ClaimValue { keyword, min, max, hash }
    }
}

/// A Groth16-shaped proof object: two points of G1 and one of G2.
pub struct ProofObject {
    pub pi_a: (String, String),
    pub pi_b: ((String, String), (String, String)),
    pub pi_c: (String, String),
}

impl ProofObject {
    /// The coordinates in order: `pi_a`, `pi_b` row by row, `pi_c`.
    pub open spec fn coords(&self) -> Seq<Seq<char>> {
        seq![
            self.pi_a.0@,
            self.pi_a.1@,
            self.pi_b.0.0@,
            self.pi_b.0.1@,
            self.pi_b.1.0@,
            self.pi_b.1.1@,
            self.pi_c.0@,
            self.pi_c.1@,
        ]
    }
}

/// The proof object each claim type yields until a circuit backend proves it.
pub open spec fn placeholder_coords(kind: ClaimKind) -> Seq<Seq<char>> {
    match kind {
        ClaimKind::Keyword => seq![
            "0x1234"@,
            "0x5678"@,
            "0xabcd"@,
            "0xef01"@,
            "0x2345"@,
            "0x6789"@,
            "0x9876"@,
            "0x5432"@,
        ],
        ClaimKind::Timestamp => seq![
            "0x1111"@,
            "0x2222"@,
            "0x3333"@,
            "0x4444"@,
            "0x5555"@,
            "0x6666"@,
            "0x7777"@,
            "0x8888"@,
        ],
        ClaimKind::FileHash => seq![
            "0xaaaa"@,
            "0xbbbb"@,
            "0xcccc"@,
            "0xdddd"@,
            "0xeeee"@,
            "0xffff"@,
            "0x0000"@,
            "0x1111"@,
        ],
    }
}

fn proof_of(a0: &str, a1: &str, b00: &str, b01: &str, b10: &str, b11: &str, c0: &str, c1: &str) -> (r:
    ProofObject)
    ensures
        r.coords() == seq![a0@, a1@, b00@, b01@, b10@, b11@, c0@, c1@],
{
    ProofObject {
        pi_a: (a0.to_string(), a1.to_string()),
        pi_b: ((b00.to_string(), b01.to_string()), (b10.to_string(), b11.to_string())),
        pi_c: (c0.to_string(), c1.to_string()),
    }
}

fn placeholder_proof(kind: ClaimKind) -> (r: ProofObject)
    ensures
        r.coords() == placeholder_coords(kind),
{
    match kind {
        ClaimKind::Keyword => proof_of(
            "0x1234",
            "0x5678",
            "0xabcd",
            "0xef01",
            "0x2345",
            "0x6789",
            "0x9876",
            "0x5432",
        ),
        ClaimKind::Timestamp => proof_of(
            "0x1111",
            "0x2222",
            "0x3333",
            "0x4444",
            "0x5555",
            "0x6666",
            "0x7777",
            "0x8888",
        ),
        ClaimKind::FileHash => proof_of(
            "0xaaaa",
            "0xbbbb",
            "0xcccc",
            "0xdddd",
            "0xeeee",
            "0xffff",
            "0x0000",
            "0x1111",
        ),
    }
}

/// A proof and the public signals a verifier checks it against.
pub struct ZKProofResult {
    pub proof: ProofObject,
    pub public_signals: Vec<String>,
}

impl ZKProofResult {
    pub open spec fn signals(&self) -> Seq<Seq<char>> {
        self.public_signals@.map_values(|s: String| s@)
    }
}

/// Why a claim could not be proved.
pub enum ClaimError {
    /// The claim type is not one this service proves.
    UnsupportedOperation(String),
    /// The claim value lacks the named field, or holds it empty.
    Validation(String),
}

/// The public commitment to a searched keyword.
pub open spec fn keyword_signal(keyword: Seq<char>) -> Seq<char> {
    "keyword_hash_"@ + hex_chars(sha256_of(encode_utf8(keyword)))
}

/// The field each claim type requires.
pub open spec fn required_field(kind: ClaimKind) -> Seq<char> {
    match kind {
        ClaimKind::Keyword => "keyword"@,
        ClaimKind::Timestamp => Seq::empty(),
        ClaimKind::FileHash => "hash"@,
    }
}

/// The public signals of a claim over `data`, or `None` where the claim
/// value lacks what its type requires.
pub open spec fn expected_signals(kind: ClaimKind, v: ClaimValue, data: Seq<u8>) -> Option<
    Seq<Seq<char>>,
> {
    match kind {
        ClaimKind::Keyword => match v.keyword {
            Some(k) => if k@.len() > 0 {
                Some(seq![keyword_signal(k@)])
            } else {
                None
            },
            None => None,
        },
        ClaimKind::Timestamp => Some(
            seq![
                decimal(
                    match v.min {
                        Some(m) => m as nat,
                        None => 0,
                    },
                ),
                decimal(
                    match v.max {
                        Some(m) => m as nat,
                        None => TIMESTAMP_SENTINEL as nat,
                    },
                ),
            ],
        ),
        ClaimKind::FileHash => match v.hash {
            Some(h) => Some(seq![h@, hex_chars(sha256_of(data))]),
            None => None,
        },
    }
}

/// What proving a claim of type `kind` over `data` yields.
pub open spec fn proof_outcome(
    kind: ClaimKind,
    v: ClaimValue,
    data: Seq<u8>,
    r: Result<ZKProofResult, ClaimError>,
) -> bool {
    match expected_signals(kind, v, data) {
        Some(sig) => r matches Ok(p) && p.signals() == sig && p.proof.coords() == placeholder_coords(
            kind,
        ),
        None => r matches Err(ClaimError::Validation(f)) && f@ == required_field(kind),
    }
}

/// Routes a claim to its prover.
pub struct ZKProofService;

impl ZKProofService {
    pub fn new() -> (r: Self) {
        ZKProofService
    }

    /// Proves the claim `claim_type` describes by `claim_value` over
    /// `confidential_data`. The data never appears in the result.
    pub fn generate(&self, claim_type: &str, claim_value: &ClaimValue, confidential_data: &[u8]) -> (r:
        Result<ZKProofResult, ClaimError>)
        ensures
            match claim_kind_of(claim_type@) {
                Some(kind) => proof_outcome(kind, *claim_value, confidential_data@, r),
                None => r matches Err(ClaimError::UnsupportedOperation(t)) && t@ == claim_type@,
            },
    {
        match ClaimKind::from_tag(claim_type) {
            Some(ClaimKind::Keyword) => self.generate_keyword_proof(claim_value),
            Some(ClaimKind::Timestamp) => self.generate_timestamp_proof(claim_value),
            Some(ClaimKind::FileHash) => self.generate_hash_proof(claim_value, confidential_data),
            None => Err(ClaimError::UnsupportedOperation(claim_type.to_string())),
        }
    }

    /// Commits to the searched keyword.
    fn generate_keyword_proof(&self, claim_value: &ClaimValue) -> (r: Result<ZKProofResult, ClaimError>)
        ensures
            proof_outcome(ClaimKind::Keyword, *claim_value, Seq::empty(), r),
    {
        let keyword = match &claim_value.keyword {
            Some(k) => k,
            None => return Err(ClaimError::Validation("keyword".to_string())),
        };
        if keyword.as_str().is_empty() {
            return Err(ClaimError::Validation("keyword".to_string()));
        }
        let hash = hex_encode(sha256(keyword.as_str().as_bytes()).as_slice());
        let signal = "keyword_hash_".to_string().concat(hash.as_str());
        let public_signals = vec![signal];
        let r = ZKProofResult { proof: placeholder_proof(ClaimKind::Keyword), public_signals };
        assert(r.signals() =~= seq![keyword_signal(keyword@)]);
        Ok(r)
    }

    /// Publishes the range bounds, defaulting absent ones.
    fn generate_timestamp_proof(&self, claim_value: &ClaimValue) -> (r: Result<ZKProofResult, ClaimError>)
        ensures
            proof_outcome(ClaimKind::Timestamp, *claim_value, Seq::empty(), r),
    {
        let min = match claim_value.min {
            Some(m) => m,
            None => 0,
        };
        let max = match claim_value.max {
            Some(m) => m,
            None => TIMESTAMP_SENTINEL,
        };
        let public_signals = vec![decimal_string(min), decimal_string(max)];
        let r = ZKProofResult { proof: placeholder_proof(ClaimKind::Timestamp), public_signals };
        assert(r.signals() =~= seq![decimal(min as nat), decimal(max as nat)]);
        assert(r.proof.coords() == placeholder_coords(ClaimKind::Timestamp));
        assert(expected_signals(ClaimKind::Timestamp, *claim_value, Seq::empty()) == Some(
            seq![decimal(min as nat), decimal(max as nat)],
        ));
        Ok(r)
    }

    /// Publishes the expected digest beside the digest of the data.
    fn generate_hash_proof(&self, claim_value: &ClaimValue, data: &[u8]) -> (r: Result<
        ZKProofResult,
        ClaimError,
    >)
        ensures
            proof_outcome(ClaimKind::FileHash, *claim_value, data@, r),
    {
        let expected = match &claim_value.hash {
            Some(h) => h,
            None => return Err(ClaimError::Validation("hash".to_string())),
        };
        let actual = hex_encode(sha256(data).as_slice());
        let public_signals = vec![expected.clone(), actual];
        let r = ZKProofResult { proof: placeholder_proof(ClaimKind::FileHash), public_signals };
        assert(r.signals() =~= seq![expected@, hex_chars(sha256_of(data@))]);
        Ok(r)
    }
}

/// A file-hash claim whose expected digest is the digest of the data itself
/// publishes two equal signals: the expected digest and the computed one.
pub proof fn file_hash_signals_agree(v: ClaimValue, data: Seq<u8>)
    requires
        v.hash matches Some(h) && h@ == hex_chars(sha256_of(data)),
    ensures
        expected_signals(ClaimKind::FileHash, v, data) matches Some(sig) && sig.len() == 2 && sig[0]
            == sig[1] && sig[1] == hex_chars(sha256_of(data)),
{
}

} // verus!
