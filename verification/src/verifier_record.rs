//! The verifier record: the quote of an enclave that checks the quotes of others.

use crate::bytes::{
    bool_byte, i64_le_bytes, lemma_i64_le_bytes_of_value, lemma_i64_le_round_trip, push_bytes,
    push_i64_le, read_array, read_i64_le, starts_with_at, zeros,
};
use crate::constants::VERIFIER_TAG;
use crate::error::SwitchboardError;
use crate::pubkey::{lemma_pubkey_ext, Pubkey};
use vstd::prelude::*;

verus! {

/// The number of bytes of a stored verifier record, type tag included.
pub const VERIFIER_RECORD_LEN: usize = 418;

/// A verifier record. The fields stand in the order in which they are stored.
#[derive(Debug, Clone, Copy, PartialEq, Eq)]
pub struct VerifierAccountData {
    /// The key with which the verifier enclave signs.
    pub enclave_signer: Pubkey,
    /// The measurement of the code inside the verifier enclave.
    pub mr_enclave: [u8; 32],
    pub verification_status: u8,
    pub verification_timestamp: i64,
    pub valid_until: i64,
    /// The queue that the verifier serves.
    pub attestation_queue: Pubkey,
    /// Whether the verifier has joined its queue.
    pub is_on_queue: bool,
    /// When the verifier last reported that it is alive.
    pub last_heartbeat: i64,
    pub authority: Pubkey,
    /// Reserved for fields to come; zero in a record as first created.
    pub _ebuf: [u8; 256],
}

impl VerifierAccountData {
    /// The stored bytes of the record: the type tag, then the fields in
    /// order, integers least significant byte first, then the reserved bytes.
    pub open spec fn encoding(&self) -> Seq<u8> {
        VERIFIER_TAG@ + self.enclave_signer@
            + self.mr_enclave@
            + seq![self.verification_status]
            + i64_le_bytes(self.verification_timestamp as int)
            + i64_le_bytes(self.valid_until as int)
            + self.attestation_queue@
            + seq![bool_byte(self.is_on_queue)]
            + i64_le_bytes(self.last_heartbeat as int)
            + self.authority@
            + self._ebuf@
    }

    /// Whether `data` begins with the type tag of a verifier record.
    pub open spec fn has_tag(data: Seq<u8>) -> bool {
        data.len() >= 8 && data.subrange(0, 8) == VERIFIER_TAG@
    }

    /// Whether `data` begins with a whole, readable verifier record.
    pub open spec fn readable(data: Seq<u8>) -> bool {
        &&& Self::has_tag(data)
        &&& data.len() >= VERIFIER_RECORD_LEN
        &&& data[121] <= 1
    }

    /// The record that `data` begins with, where it begins with a readable
    /// one: the record whose stored bytes are the first bytes of `data`.
    pub open spec fn parse(data: Seq<u8>) -> Option<Self> {
        if Self::readable(data) {
            Some(
                choose|q: VerifierAccountData|
                    q.encoding() == data.subrange(0, VERIFIER_RECORD_LEN as int),
            )
        } else {
            None
        }
    }

    /// A record as it is first created: the given fields, and every reserved
    /// byte zero.
    pub fn create(
        enclave_signer: Pubkey,
        mr_enclave: [u8; 32],
        verification_status: u8,
        verification_timestamp: i64,
        valid_until: i64,
        attestation_queue: Pubkey,
        is_on_queue: bool,
        last_heartbeat: i64,
        authority: Pubkey,
    ) -> (r: Self)
        ensures
            r.enclave_signer == enclave_signer,
            r.mr_enclave == mr_enclave,
            r.verification_status == verification_status,
            r.verification_timestamp == verification_timestamp,
            r.valid_until == valid_until,
            r.attestation_queue == attestation_queue,
            r.is_on_queue == is_on_queue,
            r.last_heartbeat == last_heartbeat,
            r.authority == authority,
            r._ebuf@ == zeros(256),
    {
        let r = VerifierAccountData {
            enclave_signer,
            mr_enclave,
            verification_status,
            verification_timestamp,
            valid_until,
            attestation_queue,
            is_on_queue,
            last_heartbeat,
            authority,
            _ebuf: [0u8; 256],
        };
        assert(r._ebuf@ =~= zeros(256));
        r
    }

    /// Reads a verifier record from the bytes of a stored record. The bytes must
    /// begin with the type tag, else the record is of another type; after it
    /// the whole record must follow, with 0 or 1 in the byte of each flag.
    /// What follows the record is not looked at.
    pub fn new_from_bytes(data: &[u8]) -> (r: Result<Self, SwitchboardError>)
        ensures
            r is Ok <==> Self::readable(data@),
            r matches Ok(q) ==> q.encoding() == data@.subrange(
                0,
                VERIFIER_RECORD_LEN as int,
            ),
            r matches Ok(q) ==> Self::parse(data@) == Some(q),
            r matches Err(e) ==> e == (if Self::has_tag(data@) {
                SwitchboardError::SerializationFailure
            } else {
                SwitchboardError::RecordTypeMismatch
            }),
    {
        if data.len() < 8 {
            return Err(SwitchboardError::RecordTypeMismatch);
        }
        if !starts_with_at(data, 0, VERIFIER_TAG.as_slice()) {
            return Err(SwitchboardError::RecordTypeMismatch);
        }
        if data.len() < VERIFIER_RECORD_LEN {
            return Err(SwitchboardError::SerializationFailure);
        }
        if data[121] > 1 {
            return Err(SwitchboardError::SerializationFailure);
        }
        let ghost d = data@;
        let enclave_signer = Pubkey::read(data, 8);
        let ghost a1 = VERIFIER_TAG@ + enclave_signer@;
        assert(a1 =~= d.subrange(0, 40));
        let mr_enclave = read_array::<32>(data, 40);
        let ghost a2 = a1 + mr_enclave@;
        assert(a2 =~= d.subrange(0, 72));
        let verification_status = data[72];
        let ghost a3 = a2 + seq![verification_status];
        assert(a3 =~= d.subrange(0, 73));
        let verification_timestamp = read_i64_le(data, 73);
        proof {
            lemma_i64_le_bytes_of_value(d.subrange(73, 81));
        }
        let ghost a4 = a3 + i64_le_bytes(verification_timestamp as int);
        assert(a4 =~= d.subrange(0, 81));
        let valid_until = read_i64_le(data, 81);
        proof {
            lemma_i64_le_bytes_of_value(d.subrange(81, 89));
        }
        let ghost a5 = a4 + i64_le_bytes(valid_until as int);
        assert(a5 =~= d.subrange(0, 89));
        let attestation_queue = Pubkey::read(data, 89);
        let ghost a6 = a5 + attestation_queue@;
        assert(a6 =~= d.subrange(0, 121));
        let is_on_queue = data[121] == 1;
        let ghost a7 = a6 + seq![bool_byte(is_on_queue)];
        assert(a7 =~= d.subrange(0, 122));
        let last_heartbeat = read_i64_le(data, 122);
        proof {
            lemma_i64_le_bytes_of_value(d.subrange(122, 130));
        }
        let ghost a8 = a7 + i64_le_bytes(last_heartbeat as int);
        assert(a8 =~= d.subrange(0, 130));
        let authority = Pubkey::read(data, 130);
        let ghost a9 = a8 + authority@;
        assert(a9 =~= d.subrange(0, 162));
        let _ebuf = read_array::<256>(data, 162);
        let ghost a10 = a9 + _ebuf@;
        assert(a10 =~= d.subrange(0, 418));
        let q = VerifierAccountData {
            enclave_signer,
            mr_enclave,
            verification_status,
            verification_timestamp,
            valid_until,
            attestation_queue,
            is_on_queue,
            last_heartbeat,
            authority,
            _ebuf,
        };
        proof {
            lemma_verifier_encoding_injective(Self::parse(d)->0, q);
        }
        Ok(q)
    }

    /// The stored bytes of the record.
    pub fn encode(&self) -> (r: Vec<u8>)
        ensures
            r@ == self.encoding(),
            r@.len() == VERIFIER_RECORD_LEN,
    {
        let mut out: Vec<u8> = Vec::new();
        push_bytes(&mut out, VERIFIER_TAG.as_slice());
        assert(out@ =~= VERIFIER_TAG@);
        push_bytes(&mut out, self.enclave_signer.bytes.as_slice());
        push_bytes(&mut out, self.mr_enclave.as_slice());
        out.push(self.verification_status);
        push_i64_le(&mut out, self.verification_timestamp);
        push_i64_le(&mut out, self.valid_until);
        push_bytes(&mut out, self.attestation_queue.bytes.as_slice());
        out.push(if self.is_on_queue { 1 } else { 0 });
        push_i64_le(&mut out, self.last_heartbeat);
        push_bytes(&mut out, self.authority.bytes.as_slice());
        push_bytes(&mut out, self._ebuf.as_slice());
        out
    }

    /// Reads a record from its stored bytes without the type tag: exactly
    /// the fields and the reserved bytes, no more and no less.
    pub fn new_from_body(body: &[u8]) -> (r: Option<Self>)
        ensures
            r is Some <==> body@.len() + 8 == VERIFIER_RECORD_LEN && Self::readable(
                VERIFIER_TAG@ + body@,
            ),
            r matches Some(q) ==> q.encoding() == VERIFIER_TAG@ + body@,
    {
        if body.len() != VERIFIER_RECORD_LEN - 8 {
            return None;
        }
        let mut data: Vec<u8> = Vec::new();
        push_bytes(&mut data, VERIFIER_TAG.as_slice());
        push_bytes(&mut data, body);
        assert(data@ =~= VERIFIER_TAG@ + body@);
        assert(data@.subrange(0, VERIFIER_RECORD_LEN as int) =~= data@);
        match Self::new_from_bytes(data.as_slice()) {
            Ok(q) => Some(q),
            Err(_) => None,
        }
    }

    /// Whether every field of the record is zero.
    pub open spec fn is_zeroed(&self) -> bool {
        &&& self.enclave_signer@ == zeros(32)
        &&& self.mr_enclave@ == zeros(32)
        &&& self.verification_status == 0
        &&& self.verification_timestamp == 0
        &&& self.valid_until == 0
        &&& self.attestation_queue@ == zeros(32)
        &&& !self.is_on_queue
        &&& self.last_heartbeat == 0
        &&& self.authority@ == zeros(32)
        &&& self._ebuf@ == zeros(256)
    }
}

impl Default for VerifierAccountData {
    /// The record whose every field is zero.
    fn default() -> (r: Self)
        ensures
            r.is_zeroed(),
    {
        let r = VerifierAccountData {
            enclave_signer: Pubkey::default(),
            mr_enclave: [0u8; 32],
            verification_status: 0,
            verification_timestamp: 0,
            valid_until: 0,
            attestation_queue: Pubkey::default(),
            is_on_queue: false,
            last_heartbeat: 0,
            authority: Pubkey::default(),
            _ebuf: [0u8; 256],
        };
        assert(r.mr_enclave@ =~= zeros(32));
        assert(r._ebuf@ =~= zeros(256));
        r
    }
}

/// Where each field of a verifier record stands in its stored bytes.
pub proof fn lemma_verifier_fields(q: VerifierAccountData)
    ensures
        q.encoding().len() == VERIFIER_RECORD_LEN,
        q.encoding().subrange(0, 8) == VERIFIER_TAG@,
        q.encoding().subrange(8, 40) == q.enclave_signer@,
        q.encoding().subrange(40, 72) == q.mr_enclave@,
        q.encoding()[72] == q.verification_status,
        q.encoding().subrange(73, 81) == i64_le_bytes(
            q.verification_timestamp as int,
        ),
        q.encoding().subrange(81, 89) == i64_le_bytes(
            q.valid_until as int,
        ),
        q.encoding().subrange(89, 121) == q.attestation_queue@,
        q.encoding()[121] == bool_byte(q.is_on_queue),
        q.encoding().subrange(122, 130) == i64_le_bytes(
            q.last_heartbeat as int,
        ),
        q.encoding().subrange(130, 162) == q.authority@,
        q.encoding().subrange(162, 418) == q._ebuf@,
{
    let e = q.encoding();
    lemma_i64_le_round_trip(q.verification_timestamp as int);
    lemma_i64_le_round_trip(q.valid_until as int);
    lemma_i64_le_round_trip(q.last_heartbeat as int);
    assert(e.len() == 418);
    assert(e.subrange(0, 8) =~= VERIFIER_TAG@);
    assert(e.subrange(8, 40) =~= q.enclave_signer@);
    assert(e.subrange(40, 72) =~= q.mr_enclave@);
    assert(e.subrange(73, 81) =~= i64_le_bytes(
        q.verification_timestamp as int,
    ));
    assert(e.subrange(81, 89) =~= i64_le_bytes(
        q.valid_until as int,
    ));
    assert(e.subrange(89, 121) =~= q.attestation_queue@);
    assert(e.subrange(122, 130) =~= i64_le_bytes(
        q.last_heartbeat as int,
    ));
    assert(e.subrange(130, 162) =~= q.authority@);
    assert(e.subrange(162, 418) =~= q._ebuf@);
}

/// Two verifier records with the same stored bytes are the same record.
pub proof fn lemma_verifier_encoding_injective(
    a: VerifierAccountData,
    b: VerifierAccountData,
)
    requires
        a.encoding() == b.encoding(),
    ensures
        a == b,
{
    lemma_verifier_fields(a);
    lemma_verifier_fields(b);
    lemma_pubkey_ext(a.enclave_signer, b.enclave_signer);
    assert(a.mr_enclave@ == b.mr_enclave@);
    assert(a.mr_enclave == b.mr_enclave);
    lemma_i64_le_round_trip(a.verification_timestamp as int);
    lemma_i64_le_round_trip(b.verification_timestamp as int);
    lemma_i64_le_round_trip(a.valid_until as int);
    lemma_i64_le_round_trip(b.valid_until as int);
    lemma_pubkey_ext(a.attestation_queue, b.attestation_queue);
    assert(a.is_on_queue == b.is_on_queue);
    lemma_i64_le_round_trip(a.last_heartbeat as int);
    lemma_i64_le_round_trip(b.last_heartbeat as int);
    lemma_pubkey_ext(a.authority, b.authority);
    assert(a._ebuf@ == b._ebuf@);
    assert(a._ebuf == b._ebuf);
}

/// The stored bytes of any verifier record can be read, and reading them
/// gives the record back, field for field.
pub proof fn lemma_verifier_round_trip(
    q: VerifierAccountData,
    read: VerifierAccountData,
)
    ensures
        VerifierAccountData::readable(q.encoding()),
        VerifierAccountData::parse(q.encoding()) == Some(q),
        read.encoding() == q.encoding().subrange(0, VERIFIER_RECORD_LEN as int) ==> read
            == q,
{
    lemma_verifier_fields(q);
    assert(q.encoding().subrange(0, VERIFIER_RECORD_LEN as int) =~= q.encoding());
    if read.encoding() == q.encoding() {
        lemma_verifier_encoding_injective(read, q);
    }
    lemma_verifier_encoding_injective(
        VerifierAccountData::parse(q.encoding())->0,
        q,
    );
}

} // verus!
