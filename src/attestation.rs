//! Attestations: the enclave's measurements, the digest that binds a request
//! to them, and the signed document that carries both.

use crate::clock::unix_now;
use crate::crypto::sha256;
use crate::crypto::sha256_of;
use crate::encoding::base64_encode;
use crate::encoding::base64_of;
use crate::encoding::frame;
use crate::encoding::hex_chars;
use crate::encoding::hex_encode;
use crate::encoding::lemma_read_u64_be;
use crate::encoding::lemma_read_u64_be_prefix;
use crate::encoding::lemma_take_frame;
use crate::encoding::push_frame;
use crate::encoding::push_u64_be;
use crate::encoding::read_u64_be;
use crate::encoding::take_frame;
use crate::encoding::u64_be;
use vstd::prelude::*;
use vstd::slice::slice_subrange;
use vstd::slice::slice_to_vec;
use vstd::utf8::encode_utf8;

verus! {

/// The value of a measurement register derived from an identity input:
/// the hexadecimal text of its SHA-256 digest.
pub open spec fn register_of(identity: Seq<u8>) -> Seq<char> {
    hex_chars(sha256_of(identity))
}

/// Register 0: the enclave image identifier.
pub open spec fn register0_of(image_id: Seq<char>) -> Seq<char> {
    register_of(encode_utf8(image_id))
}

/// Register 1: the build version tag.
pub open spec fn register1() -> Seq<char> {
    register_of(encode_utf8("v1.0.0"@))
}

/// Register 2: the enclave name tag.
pub open spec fn register2() -> Seq<char> {
    register_of(encode_utf8("nautilus-tee"@))
}

/// The bytes that the binding digest is taken over: the three fields, each
/// length-prefixed, so that no two distinct triples give the same bytes.
pub open spec fn binding_message(vault_id: Seq<u8>, operation: Seq<u8>, register0: Seq<u8>) -> Seq<u8> {
    frame(vault_id) + frame(operation) + frame(register0)
}

/// The binding digest as it stands in a document: `sha256:` and the hex digest.
pub open spec fn binding_digest(vault_id: Seq<u8>, operation: Seq<u8>, register0: Seq<u8>) -> Seq<char> {
    "sha256:"@ + hex_chars(sha256_of(binding_message(vault_id, operation, register0)))
}

/// The canonical bytes of a document with the given fields.
pub open spec fn document_bytes(
    module_id: Seq<u8>,
    digest: Seq<u8>,
    timestamp: u64,
    operation: Seq<u8>,
    vault_id: Seq<u8>,
) -> Seq<u8> {
    frame(module_id) + frame(digest) + u64_be(timestamp) + frame(operation) + frame(vault_id)
}

/// The binding digest that an enclave with image `image_id` puts in a document
/// for `operation` on `vault_id`.
pub open spec fn issued_digest(image_id: Seq<char>, vault_id: Seq<char>, operation: Seq<char>) -> Seq<
    char,
> {
    binding_digest(encode_utf8(vault_id), encode_utf8(operation), encode_utf8(register0_of(image_id)))
}

/// Every field of the document issued for this request fits its eight-byte
/// length prefix.
pub open spec fn issued_fields_fit(image_id: Seq<char>, vault_id: Seq<char>, operation: Seq<char>) -> bool {
    &&& encode_utf8(image_id).len() <= u64::MAX
    &&& encode_utf8(vault_id).len() <= u64::MAX
    &&& encode_utf8(operation).len() <= u64::MAX
    &&& encode_utf8(issued_digest(image_id, vault_id, operation)).len() <= u64::MAX
}

/// The canonical bytes of the document that an enclave with image `image_id`
/// issues at `timestamp` for `operation` on `vault_id`.
pub open spec fn issued_document(
    image_id: Seq<char>,
    vault_id: Seq<char>,
    operation: Seq<char>,
    timestamp: u64,
) -> Seq<u8> {
    document_bytes(
        encode_utf8(image_id),
        encode_utf8(issued_digest(image_id, vault_id, operation)),
        timestamp,
        encode_utf8(operation),
        encode_utf8(vault_id),
    )
}

/// The enclave's software identity: three digest registers in hexadecimal.
pub struct Measurements {
    pub pcr0: String,
    pub pcr1: String,
    pub pcr2: String,
}

impl Measurements {
    /// These are the measurements of an enclave with image `image_id`.
    pub open spec fn of_image(&self, image_id: Seq<char>) -> bool {
        &&& self.pcr0@ == register0_of(image_id)
        &&& self.pcr1@ == register1()
        &&& self.pcr2@ == register2()
    }
}

/// The enclave facts that travel beside an attestation.
pub struct EnclaveInfo {
    pub image_id: String,
    pub measurements: Measurements,
    pub timestamp: u64,
}

/// An issued attestation: the base64 document, the base64 signature over the
/// document's bytes, and the enclave facts.
pub struct Attestation {
    pub document: String,
    pub signature: String,
    pub enclave_info: EnclaveInfo,
}

impl Attestation {
    /// This is the attestation that an enclave with image `image_id` issues at
    /// `timestamp` for `operation` on `vault_id`.
    pub open spec fn issued(
        &self,
        image_id: Seq<char>,
        vault_id: Seq<char>,
        operation: Seq<char>,
        timestamp: u64,
    ) -> bool {
        let doc = issued_document(image_id, vault_id, operation, timestamp);
        &&& self.document@ == base64_of(doc)
        &&& self.signature@ == base64_of(sha256_of(doc))
        &&& self.enclave_info.image_id@ == image_id
        &&& self.enclave_info.measurements.of_image(image_id)
        &&& self.enclave_info.timestamp == timestamp
    }
}

/// The payload that is signed, before transport encoding.
pub struct AttestationDocument {
    pub module_id: String,
    pub digest: String,
    pub timestamp: u64,
    pub operation: String,
    pub vault_id: String,
}

impl AttestationDocument {
    /// The canonical bytes of this document.
    pub open spec fn spec_bytes(&self) -> Seq<u8> {
        document_bytes(
            encode_utf8(self.module_id@),
            encode_utf8(self.digest@),
            self.timestamp,
            encode_utf8(self.operation@),
            encode_utf8(self.vault_id@),
        )
    }

    /// Canonical encoding: each text field length-prefixed, the timestamp in
    /// eight big-endian bytes, in declaration order.
    pub fn to_bytes(&self) -> (r: Vec<u8>)
        ensures
            r@ == self.spec_bytes(),
    {
        let mut out: Vec<u8> = Vec::new();
        push_frame(&mut out, self.module_id.as_str().as_bytes());
        push_frame(&mut out, self.digest.as_str().as_bytes());
        push_u64_be(&mut out, self.timestamp);
        push_frame(&mut out, self.operation.as_str().as_bytes());
        push_frame(&mut out, self.vault_id.as_str().as_bytes());
        assert(out@ =~= self.spec_bytes());
        out
    }
}

/// Computes the binding digest of a request against register 0.
pub fn compute_binding_digest(vault_id: &[u8], operation: &[u8], register0: &[u8]) -> (r: String)
    ensures
        r@ == binding_digest(vault_id@, operation@, register0@),
{
    let mut message: Vec<u8> = Vec::new();
    push_frame(&mut message, vault_id);
    push_frame(&mut message, operation);
    push_frame(&mut message, register0);
    assert(message@ =~= binding_message(vault_id@, operation@, register0@));
    let hash = sha256(message.as_slice());
    let hex = hex_encode(hash.as_slice());
    let prefix = "sha256:".to_string();
    prefix.concat(hex.as_str())
}

/// The fields of a decoded document: module id, digest, timestamp,
/// operation and vault id.
pub type DocumentFields = (Seq<u8>, Seq<u8>, u64, Seq<u8>, Seq<u8>);

/// Reads back the fields of a document's canonical bytes; `None` where the
/// bytes are not exactly one well-formed document.
pub open spec fn decode_document_bytes(b: Seq<u8>) -> Option<DocumentFields> {
    match take_frame(b) {
        Some((m, r1)) => match take_frame(r1) {
            Some((d, r2)) => if r2.len() < 8 {
                None
            } else {
                match take_frame(r2.subrange(8, r2.len() as int)) {
                    Some((o, r3)) => match take_frame(r3) {
                        Some((v, r4)) => if r4.len() == 0 {
                            Some((m, d, read_u64_be(r2), o, v))
                        } else {
                            None
                        },
                        None => None,
                    },
                    None => None,
                }
            },
            None => None,
        },
        None => None,
    }
}

/// A verifier's check of a document: it decodes, and the digest it carries is
/// the binding digest of its vault id and operation against `register0`.
pub open spec fn binding_verifies(document: Seq<u8>, register0: Seq<u8>) -> bool {
    match decode_document_bytes(document) {
        Some(f) => f.1 == encode_utf8(binding_digest(f.4, f.3, register0)),
        None => false,
    }
}

/// A document read back from its canonical bytes.
pub struct DecodedDocument {
    pub module_id: Vec<u8>,
    pub digest: Vec<u8>,
    pub timestamp: u64,
    pub operation: Vec<u8>,
    pub vault_id: Vec<u8>,
}

impl DecodedDocument {
    pub open spec fn fields(&self) -> DocumentFields {
        (self.module_id@, self.digest@, self.timestamp, self.operation@, self.vault_id@)
    }
}

fn read_u64_at(b: &[u8]) -> (r: u64)
    requires
        b@.len() >= 8,
    ensures
        r == read_u64_be(b@),
{
    proof {
        reveal(read_u64_be);
    }
    ((b[0] as u64) << 56u64) | ((b[1] as u64) << 48u64) | ((b[2] as u64) << 40u64) | ((b[3] as u64)
        << 32u64) | ((b[4] as u64) << 24u64) | ((b[5] as u64) << 16u64) | ((b[6] as u64) << 8u64)
        | (b[7] as u64)
}

fn split_frame(b: &[u8]) -> (r: Option<(&[u8], &[u8])>)
    ensures
        match take_frame(b@) {
            Some((x, rest)) => r matches Some((p, q)) && p@ == x && q@ == rest,
            None => r is None,
        },
{
    if b.len() < 8 {
        return None;
    }
    let n = read_u64_at(b);
    if ((b.len() - 8) as u64) < n {
        return None;
    }
    let end: usize = 8 + n as usize;
    Some((slice_subrange(b, 8, end), slice_subrange(b, end, b.len())))
}

/// Reads a document back from its canonical bytes.
pub fn decode_document(bytes: &[u8]) -> (r: Option<DecodedDocument>)
    ensures
        match decode_document_bytes(bytes@) {
            Some(f) => r matches Some(d) && d.fields() == f,
            None => r is None,
        },
{
    let (m, r1) = match split_frame(bytes) {
        Some(p) => p,
        None => return None,
    };
    let (d, r2) = match split_frame(r1) {
        Some(p) => p,
        None => return None,
    };
    if r2.len() < 8 {
        return None;
    }
    let timestamp = read_u64_at(r2);
    let (o, r3) = match split_frame(slice_subrange(r2, 8, r2.len())) {
        Some(p) => p,
        None => return None,
    };
    let (v, r4) = match split_frame(r3) {
        Some(p) => p,
        None => return None,
    };
    if r4.len() != 0 {
        return None;
    }
    Some(
        DecodedDocument {
            module_id: slice_to_vec(m),
            digest: slice_to_vec(d),
            timestamp,
            operation: slice_to_vec(o),
            vault_id: slice_to_vec(v),
        },
    )
}

fn bytes_equal(a: &[u8], b: &[u8]) -> (r: bool)
    ensures
        r == (a@ == b@),
{
    if a.len() != b.len() {
        return false;
    }
    let mut i: usize = 0;
    while i < a.len()
        invariant
            a@.len() == b@.len(),
            i <= a@.len(),
            a@.subrange(0, i as int) == b@.subrange(0, i as int),
        decreases a@.len() - i,
    {
        if a[i] != b[i] {
            assert(a@[i as int] != b@[i as int]);
            return false;
        }
        assert(a@.subrange(0, i + 1) =~= a@.subrange(0, i as int).push(a@[i as int]));
        assert(b@.subrange(0, i + 1) =~= b@.subrange(0, i as int).push(b@[i as int]));
        i = i + 1;
    }
    assert(a@ =~= a@.subrange(0, i as int));
    assert(b@ =~= b@.subrange(0, i as int));
    true
}

/// Decodes `document` and checks that its digest binds its vault id and
/// operation to `register0`.
pub fn verify_binding(document: &[u8], register0: &str) -> (r: bool)
    ensures
        r == binding_verifies(document@, encode_utf8(register0@)),
{
    match decode_document(document) {
        Some(d) => {
            let expected = compute_binding_digest(
                d.vault_id.as_slice(),
                d.operation.as_slice(),
                register0.as_bytes(),
            );
            bytes_equal(d.digest.as_slice(), expected.as_str().as_bytes())
        },
        None => false,
    }
}

/// Issues attestations for the enclave image it was configured with.
pub struct AttestationService {
    image_id: String,
}

impl AttestationService {
    /// The enclave image identifier.
    pub closed spec fn image(&self) -> Seq<char> {
        self.image_id@
    }

    pub fn new(image_id: String) -> (r: Self)
        ensures
            r.image() == image_id@,
    {
        AttestationService { image_id }
    }

    /// The current measurements, derived from the image identifier and the
    /// fixed version and name tags.
    pub fn get_pcr_measurements(&self) -> (r: Measurements)
        ensures
            r.of_image(self.image()),
    {
        let pcr0 = hex_encode(sha256(self.image_id.as_str().as_bytes()).as_slice());
        let pcr1 = hex_encode(sha256("v1.0.0".as_bytes()).as_slice());
        let pcr2 = hex_encode(sha256("nautilus-tee".as_bytes()).as_slice());
        Measurements { pcr0, pcr1, pcr2 }
    }

    /// Signs the document bytes. This software stand-in for the hardware
    /// signer yields the SHA-256 digest of the bytes.
    fn sign_document(&self, document: &[u8]) -> (r: Vec<u8>)
        ensures
            r@ == sha256_of(document@),
    {
        sha256(document)
    }

    /// Issues the attestation for `operation` on `vault_id` at `timestamp`.
    /// With the software signer nothing here can fail.
    pub fn generate_at(&self, vault_id: &str, operation: &str, timestamp: u64) -> (r: Result<
        Attestation,
        String,
    >)
        ensures
            r matches Ok(a) && a.issued(self.image(), vault_id@, operation@, timestamp),
    {
        let measurements = self.get_pcr_measurements();
        let digest = compute_binding_digest(
            vault_id.as_bytes(),
            operation.as_bytes(),
            measurements.pcr0.as_str().as_bytes(),
        );
        let document = AttestationDocument {
            module_id: self.image_id.clone(),
            digest,
            timestamp,
            operation: operation.to_string(),
            vault_id: vault_id.to_string(),
        };
        let document_bytes = document.to_bytes();
        let signature = self.sign_document(document_bytes.as_slice());
        Ok(
            Attestation {
                document: base64_encode(document_bytes.as_slice()),
                signature: base64_encode(signature.as_slice()),
                enclave_info: EnclaveInfo {
                    image_id: self.image_id.clone(),
                    measurements,
                    timestamp,
                },
            },
        )
    }

    /// Issues the attestation for `operation` on `vault_id`, stamped with the
    /// current time.
    pub fn generate(&self, vault_id: &str, operation: &str) -> (r: Result<Attestation, String>)
        ensures
            r matches Ok(a) && a.issued(
                self.image(),
                vault_id@,
                operation@,
                a.enclave_info.timestamp,
            ),
    {
        let now = unix_now();
        self.generate_at(vault_id, operation, now)
    }
}

/// Decoding the canonical bytes of a document gives back its fields.
pub proof fn lemma_decode_document_bytes(
    m: Seq<u8>,
    d: Seq<u8>,
    ts: u64,
    o: Seq<u8>,
    v: Seq<u8>,
)
    requires
        m.len() <= u64::MAX,
        d.len() <= u64::MAX,
        o.len() <= u64::MAX,
        v.len() <= u64::MAX,
    ensures
        decode_document_bytes(document_bytes(m, d, ts, o, v)) == Some((m, d, ts, o, v)),
{
    let b = document_bytes(m, d, ts, o, v);
    let r3 = frame(o) + frame(v);
    let r2 = u64_be(ts) + r3;
    let r1 = frame(d) + r2;
    assert(b =~= frame(m) + r1);
    lemma_take_frame(m, r1);
    assert(take_frame(b) == Some((m, r1)));
    lemma_take_frame(d, r2);
    assert(take_frame(r1) == Some((d, r2)));
    lemma_read_u64_be_prefix(u64_be(ts), r3);
    lemma_read_u64_be(ts);
    assert(read_u64_be(r2) == ts);
    assert(r2.subrange(8, r2.len() as int) =~= r3);
    lemma_take_frame(o, frame(v));
    assert(take_frame(r3) == Some((o, frame(v))));
    assert(frame(v) =~= frame(v) + Seq::<u8>::empty());
    lemma_take_frame(v, Seq::<u8>::empty());
}

/// Round-trip integrity: decoding an issued document and recomputing the
/// binding digest over its vault id and operation against register 0 gives
/// the digest that the document carries.
pub proof fn issued_document_verifies(
    image_id: Seq<char>,
    vault_id: Seq<char>,
    operation: Seq<char>,
    timestamp: u64,
)
    requires
        issued_fields_fit(image_id, vault_id, operation),
    ensures
        binding_verifies(
            issued_document(image_id, vault_id, operation, timestamp),
            encode_utf8(register0_of(image_id)),
        ),
{
    lemma_decode_document_bytes(
        encode_utf8(image_id),
        encode_utf8(issued_digest(image_id, vault_id, operation)),
        timestamp,
        encode_utf8(operation),
        encode_utf8(vault_id),
    );
}

/// An attestation issued for one request at two instants carries the same
/// module id, measurements and binding digest: only the timestamp differs.
pub proof fn issued_stable_across_time(
    image_id: Seq<char>,
    vault_id: Seq<char>,
    operation: Seq<char>,
    t1: u64,
    t2: u64,
    a1: Attestation,
    a2: Attestation,
)
    requires
        issued_fields_fit(image_id, vault_id, operation),
        a1.issued(image_id, vault_id, operation, t1),
        a2.issued(image_id, vault_id, operation, t2),
    ensures
        a1.enclave_info.image_id@ == a2.enclave_info.image_id@,
        a1.enclave_info.measurements.pcr0@ == a2.enclave_info.measurements.pcr0@,
        a1.enclave_info.measurements.pcr1@ == a2.enclave_info.measurements.pcr1@,
        a1.enclave_info.measurements.pcr2@ == a2.enclave_info.measurements.pcr2@,
        decode_document_bytes(issued_document(image_id, vault_id, operation, t1)) == Some(
            (
                encode_utf8(image_id),
                encode_utf8(issued_digest(image_id, vault_id, operation)),
                t1,
                encode_utf8(operation),
                encode_utf8(vault_id),
            ),
        ),
        decode_document_bytes(issued_document(image_id, vault_id, operation, t2)) == Some(
            (
                encode_utf8(image_id),
                encode_utf8(issued_digest(image_id, vault_id, operation)),
                t2,
                encode_utf8(operation),
                encode_utf8(vault_id),
            ),
        ),
{
    lemma_decode_document_bytes(
        encode_utf8(image_id),
        encode_utf8(issued_digest(image_id, vault_id, operation)),
        t1,
        encode_utf8(operation),
        encode_utf8(vault_id),
    );
    lemma_decode_document_bytes(
        encode_utf8(image_id),
        encode_utf8(issued_digest(image_id, vault_id, operation)),
        t2,
        encode_utf8(operation),
        encode_utf8(vault_id),
    );
}

/// Distinct requests are hashed over distinct bytes: the length prefixes let
/// no two (vault id, operation, register 0) triples share a binding message.
/// That their digests differ then rests on the collision resistance of SHA-256.
pub proof fn binding_message_injective(
    v1: Seq<u8>,
    o1: Seq<u8>,
    r1: Seq<u8>,
    v2: Seq<u8>,
    o2: Seq<u8>,
    r2: Seq<u8>,
)
    requires
        v1.len() <= u64::MAX,
        o1.len() <= u64::MAX,
        r1.len() <= u64::MAX,
        v2.len() <= u64::MAX,
        o2.len() <= u64::MAX,
        r2.len() <= u64::MAX,
        binding_message(v1, o1, r1) == binding_message(v2, o2, r2),
    ensures
        v1 == v2,
        o1 == o2,
        r1 == r2,
{
    let b = binding_message(v1, o1, r1);
    assert(b =~= frame(v1) + (frame(o1) + (frame(r1) + Seq::<u8>::empty())));
    assert(b =~= frame(v2) + (frame(o2) + (frame(r2) + Seq::<u8>::empty())));
    lemma_take_frame(v1, frame(o1) + (frame(r1) + Seq::<u8>::empty()));
    lemma_take_frame(v2, frame(o2) + (frame(r2) + Seq::<u8>::empty()));
    lemma_take_frame(o1, frame(r1) + Seq::<u8>::empty());
    lemma_take_frame(o2, frame(r2) + Seq::<u8>::empty());
    lemma_take_frame(r1, Seq::<u8>::empty());
    lemma_take_frame(r2, Seq::<u8>::empty());
}

/// Measurements are reproducible: any two taken of one image are identical.
pub proof fn measurements_reproducible(image_id: Seq<char>, m1: Measurements, m2: Measurements)
    requires
        m1.of_image(image_id),
        m2.of_image(image_id),
    ensures
        m1.pcr0@ == m2.pcr0@,
        m1.pcr1@ == m2.pcr1@,
        m1.pcr2@ == m2.pcr2@,
{
}

} // verus!
