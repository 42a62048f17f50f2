//! The permission record: what a queue lets one verifier or function do.

use crate::bytes::{
    i64_le_bytes, lemma_i64_le_bytes_of_value, lemma_i64_le_round_trip,
    lemma_u32_le_bytes_of_value, lemma_u32_le_round_trip, push_bytes, push_i64_le, push_u32_le,
    read_array, read_i64_le, read_u32_le, starts_with_at, u32_le_bytes, zeros,
};
use crate::address::{find, find_spec};
use crate::constants::{attestation_program_id, ATTESTATION_PROGRAM_ID, PERMISSION_SEED, PERMISSION_TAG};
use crate::error::SwitchboardError;
use crate::pubkey::{lemma_pubkey_ext, Pubkey};
use vstd::prelude::*;

verus! {

/// The number of bytes of a stored permission record, type tag included.
pub const PERMISSION_RECORD_LEN: usize = 373;

/// A permission record. Its address follows from the queue authority, the
/// queue and the subject; no record points to it. The fields stand in the
/// order in which they are stored.
#[derive(Debug, Clone, Copy, PartialEq, Eq)]
pub struct AttestationPermissionAccountData {
    /// The authority of the queue that grants.
    pub authority: Pubkey,
    /// The granted rights, one bit each.
    pub permissions: u32,
    /// The queue that grants.
    pub granter: Pubkey,
    /// The verifier or function that is granted.
    pub grantee: Pubkey,
    pub expiration: i64,
    pub bump: u8,
    /// Reserved for fields to come; zero in a record as first created.
    pub _ebuf: [u8; 256],
}

impl AttestationPermissionAccountData {
    /// The stored bytes of the record: the type tag, then the fields in
    /// order, integers least significant byte first, then the reserved bytes.
    pub open spec fn encoding(&self) -> Seq<u8> {
        PERMISSION_TAG@ + self.authority@
            + u32_le_bytes(self.permissions as int)
            + self.granter@
            + self.grantee@
            + i64_le_bytes(self.expiration as int)
            + seq![self.bump]
            + self._ebuf@
    }

    /// Whether `data` begins with the type tag of a permission record.
    pub open spec fn has_tag(data: Seq<u8>) -> bool {
        data.len() >= 8 && data.subrange(0, 8) == PERMISSION_TAG@
    }

    /// Whether `data` begins with a whole, readable permission record.
    pub open spec fn readable(data: Seq<u8>) -> bool {
        &&& Self::has_tag(data)
        &&& data.len() >= PERMISSION_RECORD_LEN
    }

    /// The record that `data` begins with, where it begins with a readable
    /// one: the record whose stored bytes are the first bytes of `data`.
    pub open spec fn parse(data: Seq<u8>) -> Option<Self> {
        if Self::readable(data) {
            Some(
                choose|q: AttestationPermissionAccountData|
                    q.encoding() == data.subrange(0, PERMISSION_RECORD_LEN as int),
            )
        } else {
            None
        }
    }

    /// A record as it is first created: the given fields, and every reserved
    /// byte zero.
    pub fn create(
        authority: Pubkey,
        permissions: u32,
        granter: Pubkey,
        grantee: Pubkey,
        expiration: i64,
        bump: u8,
    ) -> (r: Self)
        ensures
            r.authority == authority,
            r.permissions == permissions,
            r.granter == granter,
            r.grantee == grantee,
            r.expiration == expiration,
            r.bump == bump,
            r._ebuf@ == zeros(256),
    {
        let r = AttestationPermissionAccountData {
            authority,
            permissions,
            granter,
            grantee,
            expiration,
            bump,
            _ebuf: [0u8; 256],
        };
        assert(r._ebuf@ =~= zeros(256));
        r
    }

    /// Reads a permission record from the bytes of a stored record. The bytes must
    /// begin with the type tag, else the record is of another type; after it
    /// the whole record must follow.
    /// What follows the record is not looked at.
    pub fn new_from_bytes(data: &[u8]) -> (r: Result<Self, SwitchboardError>)
        ensures
            r is Ok <==> Self::readable(data@),
            r matches Ok(q) ==> q.encoding() == data@.subrange(
                0,
                PERMISSION_RECORD_LEN as int,
            ),
            r matches Ok(q) ==> Self::parse(data@) == Some(q),
            r matches Err(e) ==> e == (if Self::has_tag(data@) {
                SwitchboardError::SerializationFailure
            } else {
                SwitchboardError::RecordTypeMismatch
            }),
    {
        if data.len() < 8 {
            return Err(SwitchboardError::RecordTypeMismatch);
        }
        if !starts_with_at(data, 0, PERMISSION_TAG.as_slice()) {
            return Err(SwitchboardError::RecordTypeMismatch);
        }
        if data.len() < PERMISSION_RECORD_LEN {
            return Err(SwitchboardError::SerializationFailure);
        }
        let ghost d = data@;
        let authority = Pubkey::read(data, 8);
        let ghost a1 = PERMISSION_TAG@ + authority@;
        assert(a1 =~= d.subrange(0, 40));
        let permissions = read_u32_le(data, 40);
        proof {
            lemma_u32_le_bytes_of_value(d.subrange(40, 44));
        }
        let ghost a2 = a1 + u32_le_bytes(permissions as int);
        assert(a2 =~= d.subrange(0, 44));
        let granter = Pubkey::read(data, 44);
        let ghost a3 = a2 + granter@;
        assert(a3 =~= d.subrange(0, 76));
        let grantee = Pubkey::read(data, 76);
        let ghost a4 = a3 + grantee@;
        assert(a4 =~= d.subrange(0, 108));
        let expiration = read_i64_le(data, 108);
        proof {
            lemma_i64_le_bytes_of_value(d.subrange(108, 116));
        }
        let ghost a5 = a4 + i64_le_bytes(expiration as int);
        assert(a5 =~= d.subrange(0, 116));
        let bump = data[116];
        let ghost a6 = a5 + seq![bump];
        assert(a6 =~= d.subrange(0, 117));
        let _ebuf = read_array::<256>(data, 117);
        let ghost a7 = a6 + _ebuf@;
        assert(a7 =~= d.subrange(0, 373));
        let q = AttestationPermissionAccountData {
            authority,
            permissions,
            granter,
            grantee,
            expiration,
            bump,
            _ebuf,
        };
        proof {
            lemma_permission_encoding_injective(Self::parse(d)->0, q);
        }
        Ok(q)
    }

    /// The stored bytes of the record.
    pub fn encode(&self) -> (r: Vec<u8>)
        ensures
            r@ == self.encoding(),
            r@.len() == PERMISSION_RECORD_LEN,
    {
        let mut out: Vec<u8> = Vec::new();
        push_bytes(&mut out, PERMISSION_TAG.as_slice());
        assert(out@ =~= PERMISSION_TAG@);
        push_bytes(&mut out, self.authority.bytes.as_slice());
        push_u32_le(&mut out, self.permissions);
        push_bytes(&mut out, self.granter.bytes.as_slice());
        push_bytes(&mut out, self.grantee.bytes.as_slice());
        push_i64_le(&mut out, self.expiration);
        out.push(self.bump);
        push_bytes(&mut out, self._ebuf.as_slice());
        out
    }

    /// Reads a record from its stored bytes without the type tag: exactly
    /// the fields and the reserved bytes, no more and no less.
    pub fn new_from_body(body: &[u8]) -> (r: Option<Self>)
        ensures
            r is Some <==> body@.len() + 8 == PERMISSION_RECORD_LEN && Self::readable(
                PERMISSION_TAG@ + body@,
            ),
            r matches Some(q) ==> q.encoding() == PERMISSION_TAG@ + body@,
    {
        if body.len() != PERMISSION_RECORD_LEN - 8 {
            return None;
        }
        let mut data: Vec<u8> = Vec::new();
        push_bytes(&mut data, PERMISSION_TAG.as_slice());
        push_bytes(&mut data, body);
        assert(data@ =~= PERMISSION_TAG@ + body@);
        assert(data@.subrange(0, PERMISSION_RECORD_LEN as int) =~= data@);
        match Self::new_from_bytes(data.as_slice()) {
            Ok(q) => Some(q),
            Err(_) => None,
        }
    }

    /// Whether every field of the record is zero.
    pub open spec fn is_zeroed(&self) -> bool {
        &&& self.authority@ == zeros(32)
        &&& self.permissions == 0
        &&& self.granter@ == zeros(32)
        &&& self.grantee@ == zeros(32)
        &&& self.expiration == 0
        &&& self.bump == 0
        &&& self._ebuf@ == zeros(256)
    }

    /// Whether the right is among the granted ones: whether its bit is set.
    pub open spec fn spec_has(&self, permission: SwitchboardAttestationPermission) -> bool {
        match permission {
            SwitchboardAttestationPermission::PermitNodeheartbeat => self.permissions % 2 == 1,
            SwitchboardAttestationPermission::PermitQueueUsage => (self.permissions / 2) % 2 == 1,
        }
    }

    /// Whether the right is among the granted ones.
    pub fn has(&self, permission: SwitchboardAttestationPermission) -> (r: bool)
        ensures
            r == self.spec_has(permission),
    {
        match permission {
            SwitchboardAttestationPermission::PermitNodeheartbeat => self.permissions % 2 == 1,
            SwitchboardAttestationPermission::PermitQueueUsage => (self.permissions / 2) % 2 == 1,
        }
    }

    /// Whether this is the record by which the queue `attestation_queue`
    /// under `authority` grants something to `grantee`.
    pub open spec fn is_for(&self, authority: Pubkey, attestation_queue: Pubkey, grantee: Pubkey)
        -> bool {
        &&& self.authority@ == authority@
        &&& self.granter@ == attestation_queue@
        &&& self.grantee@ == grantee@
    }

    /// The keys in the seed list of a permission record: the authority of the
    /// queue, the queue, and the subject.
    pub open spec fn seed_keys(authority: Pubkey, attestation_queue: Pubkey, grantee: Pubkey)
        -> Seq<Pubkey> {
        seq![authority, attestation_queue, grantee]
    }

    /// The address of the permission record by which the queue
    /// `attestation_queue` under `authority` grants something to `grantee`.
    pub fn get_pda(authority: &Pubkey, attestation_queue: &Pubkey, grantee: &Pubkey) -> (r: Result<
        Pubkey,
        SwitchboardError,
    >)
        ensures
            match r {
                Ok(k) => find_spec(
                    PERMISSION_SEED@,
                    Self::seed_keys(*authority, *attestation_queue, *grantee),
                    ATTESTATION_PROGRAM_ID@,
                ) matches Some((address, _)) && address == k@,
                Err(e) => e == SwitchboardError::AddressDerivationFailure && find_spec(
                    PERMISSION_SEED@,
                    Self::seed_keys(*authority, *attestation_queue, *grantee),
                    ATTESTATION_PROGRAM_ID@,
                ) is None,
            },
    {
        let mut keys: Vec<Pubkey> = Vec::new();
        keys.push(*authority);
        keys.push(*attestation_queue);
        keys.push(*grantee);
        assert(keys@ =~= Self::seed_keys(*authority, *attestation_queue, *grantee));
        let program = attestation_program_id();
        match find(PERMISSION_SEED.as_slice(), &keys, &program) {
            Ok((k, _)) => Ok(k),
            Err(e) => Err(e),
        }
    }
}

impl Default for AttestationPermissionAccountData {
    /// The record whose every field is zero.
    fn default() -> (r: Self)
        ensures
            r.is_zeroed(),
    {
        let r = AttestationPermissionAccountData {
            authority: Pubkey::default(),
            permissions: 0,
            granter: Pubkey::default(),
            grantee: Pubkey::default(),
            expiration: 0,
            bump: 0,
            _ebuf: [0u8; 256],
        };
        assert(r._ebuf@ =~= zeros(256));
        r
    }
}

/// Where each field of a permission record stands in its stored bytes.
pub proof fn lemma_permission_fields(q: AttestationPermissionAccountData)
    ensures
        q.encoding().len() == PERMISSION_RECORD_LEN,
        q.encoding().subrange(0, 8) == PERMISSION_TAG@,
        q.encoding().subrange(8, 40) == q.authority@,
        q.encoding().subrange(40, 44) == u32_le_bytes(
            q.permissions as int,
        ),
        q.encoding().subrange(44, 76) == q.granter@,
        q.encoding().subrange(76, 108) == q.grantee@,
        q.encoding().subrange(108, 116) == i64_le_bytes(
            q.expiration as int,
        ),
        q.encoding()[116] == q.bump,
        q.encoding().subrange(117, 373) == q._ebuf@,
{
    let e = q.encoding();
    lemma_u32_le_round_trip(q.permissions as int);
    lemma_i64_le_round_trip(q.expiration as int);
    assert(e.len() == 373);
    assert(e.subrange(0, 8) =~= PERMISSION_TAG@);
    assert(e.subrange(8, 40) =~= q.authority@);
    assert(e.subrange(40, 44) =~= u32_le_bytes(
        q.permissions as int,
    ));
    assert(e.subrange(44, 76) =~= q.granter@);
    assert(e.subrange(76, 108) =~= q.grantee@);
    assert(e.subrange(108, 116) =~= i64_le_bytes(
        q.expiration as int,
    ));
    assert(e.subrange(117, 373) =~= q._ebuf@);
}

/// Two permission records with the same stored bytes are the same record.
pub proof fn lemma_permission_encoding_injective(
    a: AttestationPermissionAccountData,
    b: AttestationPermissionAccountData,
)
    requires
        a.encoding() == b.encoding(),
    ensures
        a == b,
{
    lemma_permission_fields(a);
    lemma_permission_fields(b);
    lemma_pubkey_ext(a.authority, b.authority);
    lemma_u32_le_round_trip(a.permissions as int);
    lemma_u32_le_round_trip(b.permissions as int);
    lemma_pubkey_ext(a.granter, b.granter);
    lemma_pubkey_ext(a.grantee, b.grantee);
    lemma_i64_le_round_trip(a.expiration as int);
    lemma_i64_le_round_trip(b.expiration as int);
    assert(a._ebuf@ == b._ebuf@);
    assert(a._ebuf == b._ebuf);
}

/// The stored bytes of any permission record can be read, and reading them
/// gives the record back, field for field.
pub proof fn lemma_permission_round_trip(
    q: AttestationPermissionAccountData,
    read: AttestationPermissionAccountData,
)
    ensures
        AttestationPermissionAccountData::readable(q.encoding()),
        AttestationPermissionAccountData::parse(q.encoding()) == Some(q),
        read.encoding() == q.encoding().subrange(0, PERMISSION_RECORD_LEN as int) ==> read
            == q,
{
    lemma_permission_fields(q);
    assert(q.encoding().subrange(0, PERMISSION_RECORD_LEN as int) =~= q.encoding());
    if read.encoding() == q.encoding() {
        lemma_permission_encoding_injective(read, q);
    }
    lemma_permission_encoding_injective(
        AttestationPermissionAccountData::parse(q.encoding())->0,
        q,
    );
}

/// A right that a queue can grant.
#[derive(Copy, Clone, Debug, PartialEq, Eq)]
pub enum SwitchboardAttestationPermission {
    /// A verifier may report that it is alive, and so take part in the queue.
    PermitNodeheartbeat,
    /// A function may have its runs verified by the queue.
    PermitQueueUsage,
}

impl SwitchboardAttestationPermission {
    /// The bit that stands for the right among the granted ones.
    pub open spec fn spec_bit(self) -> u32 {
        match self {
            SwitchboardAttestationPermission::PermitNodeheartbeat => 1,
            SwitchboardAttestationPermission::PermitQueueUsage => 2,
        }
    }

    /// The bit that stands for the right among the granted ones.
    pub fn bit(self) -> (r: u32)
        ensures
            r == self.spec_bit(),
    {
        match self {
            SwitchboardAttestationPermission::PermitNodeheartbeat => 1,
            SwitchboardAttestationPermission::PermitQueueUsage => 2,
        }
    }
}

} // verus!
