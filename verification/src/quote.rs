//! The quote record: the measurement of one enclave, how far it has been
//! verified, and until when that holds.

use crate::address::{derive_address, derive_spec};
use crate::bytes::{
    bool_byte, i64_le_bytes, lemma_i64_le_bytes_of_value, lemma_i64_le_round_trip, push_bytes,
    push_i64_le, read_array, read_i64_le, starts_with_at, zeros,
};
use crate::constants::{attestation_program_id, ATTESTATION_PROGRAM_ID, QUOTE_SEED, QUOTE_TAG};
use crate::error::SwitchboardError;
use crate::instruction::Account;
use crate::pubkey::{lemma_pubkey_ext, Pubkey};
use crate::status::StatusFlags;
use vstd::prelude::*;

verus! {

/// The number of bytes of a stored quote record, type tag included.
pub const QUOTE_RECORD_LEN: usize = 1259;

/// The number of reserved bytes at the end of a quote record.
pub const QUOTE_RESERVED_LEN: usize = 992;

/// A quote record. The fields stand in the order in which they are stored.
#[derive(Debug, Clone, Copy, PartialEq, Eq)]
pub struct QuoteAccountData {
    /// For a function: the signing key that the enclave made for its run,
    /// where it is not the all-zero address.
    pub delegated_secured_signer: Pubkey,
    pub bump: u8,
    /// Set for every quote but those of functions.
    pub quote_registry: [u8; 32],
    /// The key under which the quote's data is found in outside storage.
    pub registry_key: [u8; 64],
    /// The queue whose allow-list the measurement is held against.
    pub attestation_queue: Pubkey,
    /// The measurement of the code inside the enclave.
    pub mr_enclave: [u8; 32],
    pub verification_status: u8,
    pub verification_timestamp: i64,
    pub valid_until: i64,
    /// Set for verifiers.
    pub is_on_queue: bool,
    /// When the quote last reported that it is alive.
    pub last_heartbeat: i64,
    pub owner: Pubkey,
    pub created_at: i64,
    pub _ebuf: [u8; 992],
}

impl QuoteAccountData {
    /// The stored bytes of the record: the type tag, then the fields in
    /// order, integers least significant byte first, then the reserved bytes.
    pub open spec fn encoding(&self) -> Seq<u8> {
        QUOTE_TAG@ + self.delegated_secured_signer@ + seq![self.bump] + self.quote_registry@
            + self.registry_key@ + self.attestation_queue@ + self.mr_enclave@
            + seq![self.verification_status] + i64_le_bytes(self.verification_timestamp as int)
            + i64_le_bytes(self.valid_until as int) + seq![bool_byte(self.is_on_queue)]
            + i64_le_bytes(self.last_heartbeat as int) + self.owner@ + i64_le_bytes(
            self.created_at as int,
        ) + self._ebuf@
    }

    /// Whether `data` begins with the type tag of a quote record.
    pub open spec fn has_tag(data: Seq<u8>) -> bool {
        data.len() >= 8 && data.subrange(0, 8) == QUOTE_TAG@
    }

    /// Whether `data` begins with a whole, readable quote record.
    pub open spec fn readable(data: Seq<u8>) -> bool {
        &&& Self::has_tag(data)
        &&& data.len() >= QUOTE_RECORD_LEN
        &&& data[218] <= 1
    }

    /// The record that `data` begins with, where it begins with a readable
    /// one: the record whose stored bytes are the first bytes of `data`.
    pub open spec fn parse(data: Seq<u8>) -> Option<Self> {
        if Self::readable(data) {
            Some(
                choose|q: QuoteAccountData|
                    q.encoding() == data.subrange(0, QUOTE_RECORD_LEN as int),
            )
        } else {
            None
        }
    }

    /// What holds of every quote record that this library writes: its status
    /// byte denotes a set of flags, and it is valid no shorter than up to
    /// the time at which it was verified.
    pub open spec fn well_formed(&self) -> bool {
        &&& self.spec_status() is Some
        &&& self.valid_until >= self.verification_timestamp
    }

    /// The status flags of the record, where the stored byte denotes a set.
    pub open spec fn spec_status(&self) -> Option<StatusFlags> {
        StatusFlags::spec_from_bits(self.verification_status)
    }

    /// Whether the quote counts as verified at `now`: the override decides
    /// alone; without it, success must be the flag that is set and the
    /// validity deadline must still lie ahead.
    pub open spec fn spec_is_verified(&self, now: i64) -> bool {
        match self.spec_status() {
            Some(s) => s.overridden || (s.spec_is_trusted() && self.valid_until > now),
            None => false,
        }
    }

    /// A record as it is first created: every time zero, no flag set, and
    /// every reserved byte zero.
    pub fn create(
        bump: u8,
        attestation_queue: Pubkey,
        mr_enclave: [u8; 32],
        owner: Pubkey,
        created_at: i64,
    ) -> (r: Self)
        ensures
            r.bump == bump,
            r.attestation_queue == attestation_queue,
            r.mr_enclave == mr_enclave,
            r.owner == owner,
            r.created_at == created_at,
            r.delegated_secured_signer@ == zeros(32),
            r.quote_registry@ == zeros(32),
            r.registry_key@ == zeros(64),
            r.verification_status == 0,
            r.verification_timestamp == 0,
            r.valid_until == 0,
            !r.is_on_queue,
            r.last_heartbeat == 0,
            r._ebuf@ == zeros(992),
            r.well_formed(),
    {
        let r = QuoteAccountData {
            delegated_secured_signer: Pubkey::default(),
            bump,
            quote_registry: [0u8; 32],
            registry_key: [0u8; 64],
            attestation_queue,
            mr_enclave,
            verification_status: 0,
            verification_timestamp: 0,
            valid_until: 0,
            is_on_queue: false,
            last_heartbeat: 0,
            owner,
            created_at,
            _ebuf: [0u8; 992],
        };
        assert(r.quote_registry@ =~= zeros(32));
        assert(r.registry_key@ =~= zeros(64));
        assert(r._ebuf@ =~= zeros(992));
        r
    }

    /// Reads the quote record that a handed-over record holds.
    pub fn new(quote_account_info: &Account<Vec<u8>>) -> (r: Result<Self, SwitchboardError>)
        ensures
            r is Ok <==> Self::readable(quote_account_info.data@),
            r matches Ok(q) ==> Self::parse(quote_account_info.data@) == Some(q),
            r matches Ok(q) ==> q.encoding() == quote_account_info.data@.subrange(
                0,
                QUOTE_RECORD_LEN as int,
            ),
            r matches Err(e) ==> e == (if Self::has_tag(quote_account_info.data@) {
                SwitchboardError::SerializationFailure
            } else {
                SwitchboardError::RecordTypeMismatch
            }),
    {
        Self::new_from_bytes(quote_account_info.data.as_slice())
    }

    /// Reads a quote record from the bytes of a stored record. The bytes must
    /// begin with the type tag of a quote record, else the record is of
    /// another type; after it the whole record must follow, with 0 or 1 in
    /// the byte of the flag. What follows the record is not looked at.
    pub fn new_from_bytes(data: &[u8]) -> (r: Result<Self, SwitchboardError>)
        ensures
            r is Ok <==> Self::readable(data@),
            r matches Ok(q) ==> q.encoding() == data@.subrange(0, QUOTE_RECORD_LEN as int),
            r matches Ok(q) ==> Self::parse(data@) == Some(q),
            r matches Err(e) ==> e == (if Self::has_tag(data@) {
                SwitchboardError::SerializationFailure
            } else {
                SwitchboardError::RecordTypeMismatch
            }),
    {
        if data.len() < 8 {
            return Err(SwitchboardError::RecordTypeMismatch);
        }
        if !starts_with_at(data, 0, QUOTE_TAG.as_slice()) {
            return Err(SwitchboardError::RecordTypeMismatch);
        }
        if data.len() < QUOTE_RECORD_LEN {
            return Err(SwitchboardError::SerializationFailure);
        }
        if data[218] > 1 {
            return Err(SwitchboardError::SerializationFailure);
        }
        let ghost d = data@;
        let delegated_secured_signer = Pubkey::read(data, 8);
        let ghost a1 = QUOTE_TAG@ + delegated_secured_signer@;
        assert(a1 =~= d.subrange(0, 40));
        let bump = data[40];
        let ghost a2 = a1 + seq![bump];
        assert(a2 =~= d.subrange(0, 41));
        let quote_registry = read_array::<32>(data, 41);
        let ghost a3 = a2 + quote_registry@;
        assert(a3 =~= d.subrange(0, 73));
        let registry_key = read_array::<64>(data, 73);
        let ghost a4 = a3 + registry_key@;
        assert(a4 =~= d.subrange(0, 137));
        let attestation_queue = Pubkey::read(data, 137);
        let ghost a5 = a4 + attestation_queue@;
        assert(a5 =~= d.subrange(0, 169));
        let mr_enclave = read_array::<32>(data, 169);
        let ghost a6 = a5 + mr_enclave@;
        assert(a6 =~= d.subrange(0, 201));
        let verification_status = data[201];
        let ghost a7 = a6 + seq![verification_status];
        assert(a7 =~= d.subrange(0, 202));
        let verification_timestamp = read_i64_le(data, 202);
        proof {
            lemma_i64_le_bytes_of_value(d.subrange(202, 210));
        }
        let ghost a8 = a7 + i64_le_bytes(verification_timestamp as int);
        assert(a8 =~= d.subrange(0, 210));
        let valid_until = read_i64_le(data, 210);
        proof {
            lemma_i64_le_bytes_of_value(d.subrange(210, 218));
        }
        let ghost a9 = a8 + i64_le_bytes(valid_until as int);
        assert(a9 =~= d.subrange(0, 218));
        let is_on_queue = data[218] == 1;
        let ghost a10 = a9 + seq![bool_byte(is_on_queue)];
        assert(a10 =~= d.subrange(0, 219));
        let last_heartbeat = read_i64_le(data, 219);
        proof {
            lemma_i64_le_bytes_of_value(d.subrange(219, 227));
        }
        let ghost a11 = a10 + i64_le_bytes(last_heartbeat as int);
        assert(a11 =~= d.subrange(0, 227));
        let owner = Pubkey::read(data, 227);
        let ghost a12 = a11 + owner@;
        assert(a12 =~= d.subrange(0, 259));
        let created_at = read_i64_le(data, 259);
        proof {
            lemma_i64_le_bytes_of_value(d.subrange(259, 267));
        }
        let ghost a13 = a12 + i64_le_bytes(created_at as int);
        assert(a13 =~= d.subrange(0, 267));
        let _ebuf = read_array::<992>(data, 267);
        let ghost a14 = a13 + _ebuf@;
        assert(a14 =~= d.subrange(0, 1259));
        let q = QuoteAccountData {
            delegated_secured_signer,
            bump,
            quote_registry,
            registry_key,
            attestation_queue,
            mr_enclave,
            verification_status,
            verification_timestamp,
            valid_until,
            is_on_queue,
            last_heartbeat,
            owner,
            created_at,
            _ebuf,
        };
        proof {
            lemma_quote_encoding_injective(Self::parse(d)->0, q);
        }
        Ok(q)
    }

    /// The stored bytes of the record.
    pub fn encode(&self) -> (r: Vec<u8>)
        ensures
            r@ == self.encoding(),
            r@.len() == QUOTE_RECORD_LEN,
    {
        let mut out: Vec<u8> = Vec::new();
        push_bytes(&mut out, QUOTE_TAG.as_slice());
        assert(out@ =~= QUOTE_TAG@);
        push_bytes(&mut out, self.delegated_secured_signer.bytes.as_slice());
        out.push(self.bump);
        push_bytes(&mut out, self.quote_registry.as_slice());
        push_bytes(&mut out, self.registry_key.as_slice());
        push_bytes(&mut out, self.attestation_queue.bytes.as_slice());
        push_bytes(&mut out, self.mr_enclave.as_slice());
        out.push(self.verification_status);
        push_i64_le(&mut out, self.verification_timestamp);
        push_i64_le(&mut out, self.valid_until);
        out.push(
            if self.is_on_queue {
                1
            } else {
                0
            },
        );
        push_i64_le(&mut out, self.last_heartbeat);
        push_bytes(&mut out, self.owner.bytes.as_slice());
        push_i64_le(&mut out, self.created_at);
        push_bytes(&mut out, self._ebuf.as_slice());
        out
    }

    /// The address at which the quote of the function `function_pubkey` is
    /// stored, by the bump that this record holds.
    pub fn get_pda_pubkey(&self, function_pubkey: &Pubkey) -> (r: Result<Pubkey, SwitchboardError>)
        ensures
            match r {
                Ok(k) => derive_spec(
                    QUOTE_SEED@,
                    seq![*function_pubkey],
                    self.bump,
                    ATTESTATION_PROGRAM_ID@,
                ) == Some(k@),
                Err(e) => e == SwitchboardError::AddressDerivationFailure && derive_spec(
                    QUOTE_SEED@,
                    seq![*function_pubkey],
                    self.bump,
                    ATTESTATION_PROGRAM_ID@,
                ) is None,
            },
    {
        let mut keys: Vec<Pubkey> = Vec::new();
        keys.push(*function_pubkey);
        assert(keys@ =~= seq![*function_pubkey]);
        let program = attestation_program_id();
        derive_address(QUOTE_SEED.as_slice(), &keys, self.bump, &program)
    }

    /// The status flags of the record, where the stored byte denotes a set.
    pub fn status(&self) -> (r: Option<StatusFlags>)
        ensures
            r == self.spec_status(),
    {
        StatusFlags::from_bits(self.verification_status)
    }

    /// Whether the quote counts as verified at `now`.
    pub fn is_verified(&self, now: i64) -> (r: bool)
        ensures
            r == self.spec_is_verified(now),
    {
        match self.status() {
            Some(s) => s.overridden || (s.is_trusted() && self.valid_until > now),
            None => false,
        }
    }
}

/// Where each field of a quote record stands in its stored bytes.
pub proof fn lemma_quote_fields(q: QuoteAccountData)
    ensures
        q.encoding().len() == QUOTE_RECORD_LEN,
        q.encoding().subrange(0, 8) == QUOTE_TAG@,
        q.encoding().subrange(8, 40) == q.delegated_secured_signer@,
        q.encoding()[40] == q.bump,
        q.encoding().subrange(41, 73) == q.quote_registry@,
        q.encoding().subrange(73, 137) == q.registry_key@,
        q.encoding().subrange(137, 169) == q.attestation_queue@,
        q.encoding().subrange(169, 201) == q.mr_enclave@,
        q.encoding()[201] == q.verification_status,
        q.encoding().subrange(202, 210) == i64_le_bytes(q.verification_timestamp as int),
        q.encoding().subrange(210, 218) == i64_le_bytes(q.valid_until as int),
        q.encoding()[218] == bool_byte(q.is_on_queue),
        q.encoding().subrange(219, 227) == i64_le_bytes(q.last_heartbeat as int),
        q.encoding().subrange(227, 259) == q.owner@,
        q.encoding().subrange(259, 267) == i64_le_bytes(q.created_at as int),
        q.encoding().subrange(267, 1259) == q._ebuf@,
{
    let e = q.encoding();
    lemma_i64_le_round_trip(q.verification_timestamp as int);
    lemma_i64_le_round_trip(q.valid_until as int);
    lemma_i64_le_round_trip(q.last_heartbeat as int);
    lemma_i64_le_round_trip(q.created_at as int);
    assert(e.len() == 1259);
    assert(e.subrange(0, 8) =~= QUOTE_TAG@);
    assert(e.subrange(8, 40) =~= q.delegated_secured_signer@);
    assert(e.subrange(41, 73) =~= q.quote_registry@);
    assert(e.subrange(73, 137) =~= q.registry_key@);
    assert(e.subrange(137, 169) =~= q.attestation_queue@);
    assert(e.subrange(169, 201) =~= q.mr_enclave@);
    assert(e.subrange(202, 210) =~= i64_le_bytes(q.verification_timestamp as int));
    assert(e.subrange(210, 218) =~= i64_le_bytes(q.valid_until as int));
    assert(e.subrange(219, 227) =~= i64_le_bytes(q.last_heartbeat as int));
    assert(e.subrange(227, 259) =~= q.owner@);
    assert(e.subrange(259, 267) =~= i64_le_bytes(q.created_at as int));
    assert(e.subrange(267, 1259) =~= q._ebuf@);
}

/// Two quote records with the same stored bytes are the same record.
pub proof fn lemma_quote_encoding_injective(a: QuoteAccountData, b: QuoteAccountData)
    requires
        a.encoding() == b.encoding(),
    ensures
        a == b,
{
    lemma_quote_fields(a);
    lemma_quote_fields(b);
    lemma_pubkey_ext(a.delegated_secured_signer, b.delegated_secured_signer);
    lemma_pubkey_ext(a.attestation_queue, b.attestation_queue);
    lemma_pubkey_ext(a.owner, b.owner);
    lemma_i64_le_round_trip(a.verification_timestamp as int);
    lemma_i64_le_round_trip(b.verification_timestamp as int);
    lemma_i64_le_round_trip(a.valid_until as int);
    lemma_i64_le_round_trip(b.valid_until as int);
    lemma_i64_le_round_trip(a.last_heartbeat as int);
    lemma_i64_le_round_trip(b.last_heartbeat as int);
    lemma_i64_le_round_trip(a.created_at as int);
    lemma_i64_le_round_trip(b.created_at as int);
    assert(a.quote_registry@ == b.quote_registry@);
    assert(a.quote_registry == b.quote_registry);
    assert(a.registry_key@ == b.registry_key@);
    assert(a.registry_key == b.registry_key);
    assert(a.mr_enclave@ == b.mr_enclave@);
    assert(a.mr_enclave == b.mr_enclave);
    assert(a._ebuf@ == b._ebuf@);
    assert(a._ebuf == b._ebuf);
    assert(a.is_on_queue == b.is_on_queue);
}

/// The stored bytes of any quote record can be read, and reading them gives
/// the record back, field for field.
pub proof fn lemma_quote_round_trip(q: QuoteAccountData, read: QuoteAccountData)
    ensures
        QuoteAccountData::readable(q.encoding()),
        QuoteAccountData::parse(q.encoding()) == Some(q),
        read.encoding() == q.encoding().subrange(0, QUOTE_RECORD_LEN as int) ==> read == q,
{
    lemma_quote_fields(q);
    assert(q.encoding().subrange(0, QUOTE_RECORD_LEN as int) =~= q.encoding());
    if read.encoding() == q.encoding() {
        lemma_quote_encoding_injective(read, q);
    }
    lemma_quote_encoding_injective(QuoteAccountData::parse(q.encoding())->0, q);
}

} // verus!
