//! The attestation queue record: the measurements that a trust domain
//! accepts, and the rules of its verifiers.

use crate::bytes::{
    i64_le_bytes, lemma_i64_le_bytes_of_value, lemma_i64_le_round_trip,
    lemma_u32_le_bytes_of_value, lemma_u32_le_round_trip, push_bytes, push_i64_le, push_u32_le,
    read_array, read_i64_le, read_u32_le, starts_with_at, u32_le_bytes, zeros,
};
use crate::constants::QUEUE_TAG;
use crate::error::SwitchboardError;
use crate::pubkey::{lemma_pubkey_ext, Pubkey};
use vstd::prelude::*;

verus! {

/// The number of bytes of a stored queue record, type tag included.
pub const QUEUE_RECORD_LEN: usize = 1344;

/// An attestation queue record. The fields stand in the order in which they
/// are stored.
#[derive(Debug, Clone, Copy, PartialEq, Eq)]
pub struct AttestationQueueAccountData {
    /// Who manages the queue and grants its permissions.
    pub authority: Pubkey,
    /// The allow-list: up to thirty-two measurements of thirty-two bytes each,
    /// one after the other.
    pub mr_enclaves: [u8; 1024],
    /// How many measurements of the allow-list are in use.
    pub mr_enclaves_len: u32,
    /// What a verifier is paid for one verification.
    pub reward: u32,
    /// For how many seconds a verification holds.
    pub max_quote_verification_age: i64,
    /// After how many seconds without a heartbeat a verifier counts as gone.
    pub verifier_timeout: i64,
    /// Reserved for fields to come; zero in a record as first created.
    pub _ebuf: [u8; 256],
}

impl AttestationQueueAccountData {
    /// The stored bytes of the record: the type tag, then the fields in
    /// order, integers least significant byte first, then the reserved bytes.
    pub open spec fn encoding(&self) -> Seq<u8> {
        QUEUE_TAG@ + self.authority@
            + self.mr_enclaves@
            + u32_le_bytes(self.mr_enclaves_len as int)
            + u32_le_bytes(self.reward as int)
            + i64_le_bytes(self.max_quote_verification_age as int)
            + i64_le_bytes(self.verifier_timeout as int)
            + self._ebuf@
    }

    /// Whether `data` begins with the type tag of a queue record.
    pub open spec fn has_tag(data: Seq<u8>) -> bool {
        data.len() >= 8 && data.subrange(0, 8) == QUEUE_TAG@
    }

    /// Whether `data` begins with a whole, readable queue record.
    pub open spec fn readable(data: Seq<u8>) -> bool {
        &&& Self::has_tag(data)
        &&& data.len() >= QUEUE_RECORD_LEN
    }

    /// The record that `data` begins with, where it begins with a readable
    /// one: the record whose stored bytes are the first bytes of `data`.
    pub open spec fn parse(data: Seq<u8>) -> Option<Self> {
        if Self::readable(data) {
            Some(
                choose|q: AttestationQueueAccountData|
                    q.encoding() == data.subrange(0, QUEUE_RECORD_LEN as int),
            )
        } else {
            None
        }
    }

    /// A record as it is first created: the given fields, and every reserved
    /// byte zero.
    pub fn create(
        authority: Pubkey,
        mr_enclaves: [u8; 1024],
        mr_enclaves_len: u32,
        reward: u32,
        max_quote_verification_age: i64,
        verifier_timeout: i64,
    ) -> (r: Self)
        ensures
            r.authority == authority,
            r.mr_enclaves == mr_enclaves,
            r.mr_enclaves_len == mr_enclaves_len,
            r.reward == reward,
            r.max_quote_verification_age == max_quote_verification_age,
            r.verifier_timeout == verifier_timeout,
            r._ebuf@ == zeros(256),
    {
        let r = AttestationQueueAccountData {
            authority,
            mr_enclaves,
            mr_enclaves_len,
            reward,
            max_quote_verification_age,
            verifier_timeout,
            _ebuf: [0u8; 256],
        };
        assert(r._ebuf@ =~= zeros(256));
        r
    }

    /// Reads a queue record from the bytes of a stored record. The bytes must
    /// begin with the type tag, else the record is of another type; after it
    /// the whole record must follow.
    /// What follows the record is not looked at.
    pub fn new_from_bytes(data: &[u8]) -> (r: Result<Self, SwitchboardError>)
        ensures
            r is Ok <==> Self::readable(data@),
            r matches Ok(q) ==> q.encoding() == data@.subrange(
                0,
                QUEUE_RECORD_LEN as int,
            ),
            r matches Ok(q) ==> Self::parse(data@) == Some(q),
            r matches Err(e) ==> e == (if Self::has_tag(data@) {
                SwitchboardError::SerializationFailure
            } else {
                SwitchboardError::RecordTypeMismatch
            }),
    {
        if data.len() < 8 {
            return Err(SwitchboardError::RecordTypeMismatch);
        }
        if !starts_with_at(data, 0, QUEUE_TAG.as_slice()) {
            return Err(SwitchboardError::RecordTypeMismatch);
        }
        if data.len() < QUEUE_RECORD_LEN {
            return Err(SwitchboardError::SerializationFailure);
        }
        let ghost d = data@;
        let authority = Pubkey::read(data, 8);
        let ghost a1 = QUEUE_TAG@ + authority@;
        assert(a1 =~= d.subrange(0, 40));
        let mr_enclaves = read_array::<1024>(data, 40);
        let ghost a2 = a1 + mr_enclaves@;
        assert(a2 =~= d.subrange(0, 1064));
        let mr_enclaves_len = read_u32_le(data, 1064);
        proof {
            lemma_u32_le_bytes_of_value(d.subrange(1064, 1068));
        }
        let ghost a3 = a2 + u32_le_bytes(mr_enclaves_len as int);
        assert(a3 =~= d.subrange(0, 1068));
        let reward = read_u32_le(data, 1068);
        proof {
            lemma_u32_le_bytes_of_value(d.subrange(1068, 1072));
        }
        let ghost a4 = a3 + u32_le_bytes(reward as int);
        assert(a4 =~= d.subrange(0, 1072));
        let max_quote_verification_age = read_i64_le(data, 1072);
        proof {
            lemma_i64_le_bytes_of_value(d.subrange(1072, 1080));
        }
        let ghost a5 = a4 + i64_le_bytes(max_quote_verification_age as int);
        assert(a5 =~= d.subrange(0, 1080));
        let verifier_timeout = read_i64_le(data, 1080);
        proof {
            lemma_i64_le_bytes_of_value(d.subrange(1080, 1088));
        }
        let ghost a6 = a5 + i64_le_bytes(verifier_timeout as int);
        assert(a6 =~= d.subrange(0, 1088));
        let _ebuf = read_array::<256>(data, 1088);
        let ghost a7 = a6 + _ebuf@;
        assert(a7 =~= d.subrange(0, 1344));
        let q = AttestationQueueAccountData {
            authority,
            mr_enclaves,
            mr_enclaves_len,
            reward,
            max_quote_verification_age,
            verifier_timeout,
            _ebuf,
        };
        proof {
            lemma_queue_encoding_injective(Self::parse(d)->0, q);
        }
        Ok(q)
    }

    /// The stored bytes of the record.
    pub fn encode(&self) -> (r: Vec<u8>)
        ensures
            r@ == self.encoding(),
            r@.len() == QUEUE_RECORD_LEN,
    {
        let mut out: Vec<u8> = Vec::new();
        push_bytes(&mut out, QUEUE_TAG.as_slice());
        assert(out@ =~= QUEUE_TAG@);
        push_bytes(&mut out, self.authority.bytes.as_slice());
        push_bytes(&mut out, self.mr_enclaves.as_slice());
        push_u32_le(&mut out, self.mr_enclaves_len);
        push_u32_le(&mut out, self.reward);
        push_i64_le(&mut out, self.max_quote_verification_age);
        push_i64_le(&mut out, self.verifier_timeout);
        push_bytes(&mut out, self._ebuf.as_slice());
        out
    }

    /// Reads a record from its stored bytes without the type tag: exactly
    /// the fields and the reserved bytes, no more and no less.
    pub fn new_from_body(body: &[u8]) -> (r: Option<Self>)
        ensures
            r is Some <==> body@.len() + 8 == QUEUE_RECORD_LEN && Self::readable(
                QUEUE_TAG@ + body@,
            ),
            r matches Some(q) ==> q.encoding() == QUEUE_TAG@ + body@,
    {
        if body.len() != QUEUE_RECORD_LEN - 8 {
            return None;
        }
        let mut data: Vec<u8> = Vec::new();
        push_bytes(&mut data, QUEUE_TAG.as_slice());
        push_bytes(&mut data, body);
        assert(data@ =~= QUEUE_TAG@ + body@);
        assert(data@.subrange(0, QUEUE_RECORD_LEN as int) =~= data@);
        match Self::new_from_bytes(data.as_slice()) {
            Ok(q) => Some(q),
            Err(_) => None,
        }
    }

    /// Whether every field of the record is zero.
    pub open spec fn is_zeroed(&self) -> bool {
        &&& self.authority@ == zeros(32)
        &&& self.mr_enclaves@ == zeros(1024)
        &&& self.mr_enclaves_len == 0
        &&& self.reward == 0
        &&& self.max_quote_verification_age == 0
        &&& self.verifier_timeout == 0
        &&& self._ebuf@ == zeros(256)
    }

    /// The measurement in place `i` of the allow-list.
    pub open spec fn measurement(&self, i: int) -> Seq<u8> {
        self.mr_enclaves@.subrange(32 * i, 32 * i + 32)
    }

    /// How many places of the allow-list are in use: never more than the
    /// thirty-two that there are.
    pub open spec fn allowed_len(&self) -> int {
        if self.mr_enclaves_len > 32 {
            32
        } else {
            self.mr_enclaves_len as int
        }
    }

    /// Whether the measurement is on the allow-list.
    pub open spec fn allows(&self, mr_enclave: Seq<u8>) -> bool {
        exists|i: int| 0 <= i < self.allowed_len() && #[trigger] self.measurement(i) == mr_enclave
    }

    /// Whether the measurement is on the allow-list.
    pub fn has_mr_enclave(&self, mr_enclave: &[u8; 32]) -> (r: bool)
        ensures
            r == self.allows(mr_enclave@),
    {
        let n: usize = if self.mr_enclaves_len > 32 {
            32
        } else {
            self.mr_enclaves_len as usize
        };
        let mut i: usize = 0;
        while i < n
            invariant
                i <= n,
                n == self.allowed_len(),
                forall|j: int| 0 <= j < i ==> #[trigger] self.measurement(j) != mr_enclave@,
            decreases n - i,
        {
            if starts_with_at(self.mr_enclaves.as_slice(), 32 * i, mr_enclave.as_slice()) {
                assert(self.measurement(i as int) == mr_enclave@);
                return true;
            }
            assert(self.measurement(i as int) != mr_enclave@);
            i += 1;
        }
        false
    }

    /// Puts a measurement on the allow-list, in the first place that is not
    /// in use. A full list stays as it is, and the answer is `false`.
    pub fn add_mr_enclave(&mut self, mr_enclave: &[u8; 32]) -> (r: bool)
        ensures
            r == (old(self).mr_enclaves_len < 32),
            !r ==> *final(self) == *old(self),
            r ==> final(self).mr_enclaves_len == old(self).mr_enclaves_len + 1,
            r ==> final(self).measurement(old(self).mr_enclaves_len as int) == mr_enclave@,
            r ==> forall|j: int|
                0 <= j < 32 && j != old(self).mr_enclaves_len ==> #[trigger] final(
                    self
                ).measurement(j) == old(self).measurement(j),
            r ==> final(self).allows(mr_enclave@),
            final(self).authority == old(self).authority,
            final(self).reward == old(self).reward,
            final(self).max_quote_verification_age == old(self).max_quote_verification_age,
            final(self).verifier_timeout == old(self).verifier_timeout,
            final(self)._ebuf == old(self)._ebuf,
    {
        if self.mr_enclaves_len >= 32 {
            return false;
        }
        let at: usize = 32 * (self.mr_enclaves_len as usize);
        let mut k: usize = 0;
        while k < 32
            invariant
                k <= 32,
                at == 32 * old(self).mr_enclaves_len,
                old(self).mr_enclaves_len < 32,
                self.mr_enclaves_len == old(self).mr_enclaves_len,
                self.authority == old(self).authority,
                self.reward == old(self).reward,
                self.max_quote_verification_age == old(self).max_quote_verification_age,
                self.verifier_timeout == old(self).verifier_timeout,
                self._ebuf == old(self)._ebuf,
                forall|j: int| 0 <= j < k ==> self.mr_enclaves@[at + j] == mr_enclave@[j],
                forall|j: int|
                    0 <= j < 1024 && !(at <= j < at + 32) ==> self.mr_enclaves@[j] == old(
                        self
                    ).mr_enclaves@[j],
            decreases 32 - k,
        {
            self.mr_enclaves[at + k] = mr_enclave[k];
            k += 1;
        }
        self.mr_enclaves_len = self.mr_enclaves_len + 1;
        proof {
            let place = old(self).mr_enclaves_len as int;
            assert(self.measurement(place) =~= mr_enclave@);
            assert forall|j: int| 0 <= j < 32 && j != place implies #[trigger] self.measurement(j)
                == old(self).measurement(j) by {
                assert(self.measurement(j) =~= old(self).measurement(j));
            }
        }
        true
    }
}

impl Default for AttestationQueueAccountData {
    /// The record whose every field is zero.
    fn default() -> (r: Self)
        ensures
            r.is_zeroed(),
    {
        let r = AttestationQueueAccountData {
            authority: Pubkey::default(),
            mr_enclaves: [0u8; 1024],
            mr_enclaves_len: 0,
            reward: 0,
            max_quote_verification_age: 0,
            verifier_timeout: 0,
            _ebuf: [0u8; 256],
        };
        assert(r.mr_enclaves@ =~= zeros(1024));
        assert(r._ebuf@ =~= zeros(256));
        r
    }
}

/// Where each field of a queue record stands in its stored bytes.
pub proof fn lemma_queue_fields(q: AttestationQueueAccountData)
    ensures
        q.encoding().len() == QUEUE_RECORD_LEN,
        q.encoding().subrange(0, 8) == QUEUE_TAG@,
        q.encoding().subrange(8, 40) == q.authority@,
        q.encoding().subrange(40, 1064) == q.mr_enclaves@,
        q.encoding().subrange(1064, 1068) == u32_le_bytes(
            q.mr_enclaves_len as int,
        ),
        q.encoding().subrange(1068, 1072) == u32_le_bytes(
            q.reward as int,
        ),
        q.encoding().subrange(1072, 1080) == i64_le_bytes(
            q.max_quote_verification_age as int,
        ),
        q.encoding().subrange(1080, 1088) == i64_le_bytes(
            q.verifier_timeout as int,
        ),
        q.encoding().subrange(1088, 1344) == q._ebuf@,
{
    let e = q.encoding();
    lemma_u32_le_round_trip(q.mr_enclaves_len as int);
    lemma_u32_le_round_trip(q.reward as int);
    lemma_i64_le_round_trip(q.max_quote_verification_age as int);
    lemma_i64_le_round_trip(q.verifier_timeout as int);
    assert(e.len() == 1344);
    assert(e.subrange(0, 8) =~= QUEUE_TAG@);
    assert(e.subrange(8, 40) =~= q.authority@);
    assert(e.subrange(40, 1064) =~= q.mr_enclaves@);
    assert(e.subrange(1064, 1068) =~= u32_le_bytes(
        q.mr_enclaves_len as int,
    ));
    assert(e.subrange(1068, 1072) =~= u32_le_bytes(
        q.reward as int,
    ));
    assert(e.subrange(1072, 1080) =~= i64_le_bytes(
        q.max_quote_verification_age as int,
    ));
    assert(e.subrange(1080, 1088) =~= i64_le_bytes(
        q.verifier_timeout as int,
    ));
    assert(e.subrange(1088, 1344) =~= q._ebuf@);
}

/// Two queue records with the same stored bytes are the same record.
pub proof fn lemma_queue_encoding_injective(
    a: AttestationQueueAccountData,
    b: AttestationQueueAccountData,
)
    requires
        a.encoding() == b.encoding(),
    ensures
        a == b,
{
    lemma_queue_fields(a);
    lemma_queue_fields(b);
    lemma_pubkey_ext(a.authority, b.authority);
    assert(a.mr_enclaves@ == b.mr_enclaves@);
    assert(a.mr_enclaves == b.mr_enclaves);
    lemma_u32_le_round_trip(a.mr_enclaves_len as int);
    lemma_u32_le_round_trip(b.mr_enclaves_len as int);
    lemma_u32_le_round_trip(a.reward as int);
    lemma_u32_le_round_trip(b.reward as int);
    lemma_i64_le_round_trip(a.max_quote_verification_age as int);
    lemma_i64_le_round_trip(b.max_quote_verification_age as int);
    lemma_i64_le_round_trip(a.verifier_timeout as int);
    lemma_i64_le_round_trip(b.verifier_timeout as int);
    assert(a._ebuf@ == b._ebuf@);
    assert(a._ebuf == b._ebuf);
}

/// The stored bytes of any queue record can be read, and reading them
/// gives the record back, field for field.
pub proof fn lemma_queue_round_trip(
    q: AttestationQueueAccountData,
    read: AttestationQueueAccountData,
)
    ensures
        AttestationQueueAccountData::readable(q.encoding()),
        AttestationQueueAccountData::parse(q.encoding()) == Some(q),
        read.encoding() == q.encoding().subrange(0, QUEUE_RECORD_LEN as int) ==> read
            == q,
{
    lemma_queue_fields(q);
    assert(q.encoding().subrange(0, QUEUE_RECORD_LEN as int) =~= q.encoding());
    if read.encoding() == q.encoding() {
        lemma_queue_encoding_injective(read, q);
    }
    lemma_queue_encoding_injective(
        AttestationQueueAccountData::parse(q.encoding())->0,
        q,
    );
}

} // verus!
