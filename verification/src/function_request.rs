//! The function request record: one run of a function, asked for once.

use crate::bytes::{
    bool_byte, lemma_u64_le_bytes_of_value, lemma_u64_le_round_trip, push_bytes, push_u64_le,
    read_array, read_u64_le, starts_with_at, u64_le_bytes, zeros,
};
use crate::constants::FUNCTION_REQUEST_TAG;
use crate::error::SwitchboardError;
use crate::pubkey::{lemma_pubkey_ext, Pubkey};
use vstd::prelude::*;

verus! {

/// The number of bytes of a stored function request record, type tag included.
pub const FUNCTION_REQUEST_RECORD_LEN: usize = 409;

/// A function request record. It is created for each request and closed
/// when the request is settled or abandoned. The fields stand in the order
/// in which they are stored.
#[derive(Debug, Clone, Copy, PartialEq, Eq)]
pub struct FunctionRequestAccountData {
    /// The function that is asked to run.
    pub function: Pubkey,
    /// The token holding that pays for the run.
    pub escrow: Pubkey,
    /// Who asked for the run and may close the request.
    pub authority: Pubkey,
    /// Whether a request is open: set when the run is asked for, cleared when
    /// its verification is settled.
    pub is_active: bool,
    /// The slot of the request that is open, or that was open last.
    pub request_slot: u64,
    /// The hash of the parameters that the container is started with.
    pub container_params_hash: [u8; 32],
    /// The slot from which anyone may close the request.
    pub garbage_collection_slot: u64,
    /// Reserved for fields to come; zero in a record as first created.
    pub _ebuf: [u8; 256],
}

impl FunctionRequestAccountData {
    /// The stored bytes of the record: the type tag, then the fields in
    /// order, integers least significant byte first, then the reserved bytes.
    pub open spec fn encoding(&self) -> Seq<u8> {
        FUNCTION_REQUEST_TAG@ + self.function@
            + self.escrow@
            + self.authority@
            + seq![bool_byte(self.is_active)]
            + u64_le_bytes(self.request_slot as int)
            + self.container_params_hash@
            + u64_le_bytes(self.garbage_collection_slot as int)
            + self._ebuf@
    }

    /// Whether `data` begins with the type tag of a function request record.
    pub open spec fn has_tag(data: Seq<u8>) -> bool {
        data.len() >= 8 && data.subrange(0, 8) == FUNCTION_REQUEST_TAG@
    }

    /// Whether `data` begins with a whole, readable function request record.
    pub open spec fn readable(data: Seq<u8>) -> bool {
        &&& Self::has_tag(data)
        &&& data.len() >= FUNCTION_REQUEST_RECORD_LEN
        &&& data[104] <= 1
    }

    /// The record that `data` begins with, where it begins with a readable
    /// one: the record whose stored bytes are the first bytes of `data`.
    pub open spec fn parse(data: Seq<u8>) -> Option<Self> {
        if Self::readable(data) {
            Some(
                choose|q: FunctionRequestAccountData|
                    q.encoding() == data.subrange(0, FUNCTION_REQUEST_RECORD_LEN as int),
            )
        } else {
            None
        }
    }

    /// A record as it is first created: the given fields, and every reserved
    /// byte zero.
    pub fn create(
        function: Pubkey,
        escrow: Pubkey,
        authority: Pubkey,
        is_active: bool,
        request_slot: u64,
        container_params_hash: [u8; 32],
        garbage_collection_slot: u64,
    ) -> (r: Self)
        ensures
            r.function == function,
            r.escrow == escrow,
            r.authority == authority,
            r.is_active == is_active,
            r.request_slot == request_slot,
            r.container_params_hash == container_params_hash,
            r.garbage_collection_slot == garbage_collection_slot,
            r._ebuf@ == zeros(256),
    {
        let r = FunctionRequestAccountData {
            function,
            escrow,
            authority,
            is_active,
            request_slot,
            container_params_hash,
            garbage_collection_slot,
            _ebuf: [0u8; 256],
        };
        assert(r._ebuf@ =~= zeros(256));
        r
    }

    /// Reads a function request record from the bytes of a stored record. The bytes must
    /// begin with the type tag, else the record is of another type; after it
    /// the whole record must follow, with 0 or 1 in the byte of each flag.
    /// What follows the record is not looked at.
    pub fn new_from_bytes(data: &[u8]) -> (r: Result<Self, SwitchboardError>)
        ensures
            r is Ok <==> Self::readable(data@),
            r matches Ok(q) ==> q.encoding() == data@.subrange(
                0,
                FUNCTION_REQUEST_RECORD_LEN as int,
            ),
            r matches Ok(q) ==> Self::parse(data@) == Some(q),
            r matches Err(e) ==> e == (if Self::has_tag(data@) {
                SwitchboardError::SerializationFailure
            } else {
                SwitchboardError::RecordTypeMismatch
            }),
    {
        if data.len() < 8 {
            return Err(SwitchboardError::RecordTypeMismatch);
        }
        if !starts_with_at(data, 0, FUNCTION_REQUEST_TAG.as_slice()) {
            return Err(SwitchboardError::RecordTypeMismatch);
        }
        if data.len() < FUNCTION_REQUEST_RECORD_LEN {
            return Err(SwitchboardError::SerializationFailure);
        }
        if data[104] > 1 {
            return Err(SwitchboardError::SerializationFailure);
        }
        let ghost d = data@;
        let function = Pubkey::read(data, 8);
        let ghost a1 = FUNCTION_REQUEST_TAG@ + function@;
        assert(a1 =~= d.subrange(0, 40));
        let escrow = Pubkey::read(data, 40);
        let ghost a2 = a1 + escrow@;
        assert(a2 =~= d.subrange(0, 72));
        let authority = Pubkey::read(data, 72);
        let ghost a3 = a2 + authority@;
        assert(a3 =~= d.subrange(0, 104));
        let is_active = data[104] == 1;
        let ghost a4 = a3 + seq![bool_byte(is_active)];
        assert(a4 =~= d.subrange(0, 105));
        let request_slot = read_u64_le(data, 105);
        proof {
            lemma_u64_le_bytes_of_value(d.subrange(105, 113));
        }
        let ghost a5 = a4 + u64_le_bytes(request_slot as int);
        assert(a5 =~= d.subrange(0, 113));
        let container_params_hash = read_array::<32>(data, 113);
        let ghost a6 = a5 + container_params_hash@;
        assert(a6 =~= d.subrange(0, 145));
        let garbage_collection_slot = read_u64_le(data, 145);
        proof {
            lemma_u64_le_bytes_of_value(d.subrange(145, 153));
        }
        let ghost a7 = a6 + u64_le_bytes(garbage_collection_slot as int);
        assert(a7 =~= d.subrange(0, 153));
        let _ebuf = read_array::<256>(data, 153);
        let ghost a8 = a7 + _ebuf@;
        assert(a8 =~= d.subrange(0, 409));
        let q = FunctionRequestAccountData {
            function,
            escrow,
            authority,
            is_active,
            request_slot,
            container_params_hash,
            garbage_collection_slot,
            _ebuf,
        };
        proof {
            lemma_function_request_encoding_injective(Self::parse(d)->0, q);
        }
        Ok(q)
    }

    /// The stored bytes of the record.
    pub fn encode(&self) -> (r: Vec<u8>)
        ensures
            r@ == self.encoding(),
            r@.len() == FUNCTION_REQUEST_RECORD_LEN,
    {
        let mut out: Vec<u8> = Vec::new();
        push_bytes(&mut out, FUNCTION_REQUEST_TAG.as_slice());
        assert(out@ =~= FUNCTION_REQUEST_TAG@);
        push_bytes(&mut out, self.function.bytes.as_slice());
        push_bytes(&mut out, self.escrow.bytes.as_slice());
        push_bytes(&mut out, self.authority.bytes.as_slice());
        out.push(if self.is_active { 1 } else { 0 });
        push_u64_le(&mut out, self.request_slot);
        push_bytes(&mut out, self.container_params_hash.as_slice());
        push_u64_le(&mut out, self.garbage_collection_slot);
        push_bytes(&mut out, self._ebuf.as_slice());
        out
    }

    /// Reads a record from its stored bytes without the type tag: exactly
    /// the fields and the reserved bytes, no more and no less.
    pub fn new_from_body(body: &[u8]) -> (r: Option<Self>)
        ensures
            r is Some <==> body@.len() + 8 == FUNCTION_REQUEST_RECORD_LEN && Self::readable(
                FUNCTION_REQUEST_TAG@ + body@,
            ),
            r matches Some(q) ==> q.encoding() == FUNCTION_REQUEST_TAG@ + body@,
    {
        if body.len() != FUNCTION_REQUEST_RECORD_LEN - 8 {
            return None;
        }
        let mut data: Vec<u8> = Vec::new();
        push_bytes(&mut data, FUNCTION_REQUEST_TAG.as_slice());
        push_bytes(&mut data, body);
        assert(data@ =~= FUNCTION_REQUEST_TAG@ + body@);
        assert(data@.subrange(0, FUNCTION_REQUEST_RECORD_LEN as int) =~= data@);
        match Self::new_from_bytes(data.as_slice()) {
            Ok(q) => Some(q),
            Err(_) => None,
        }
    }

    /// Whether every field of the record is zero.
    pub open spec fn is_zeroed(&self) -> bool {
        &&& self.function@ == zeros(32)
        &&& self.escrow@ == zeros(32)
        &&& self.authority@ == zeros(32)
        &&& !self.is_active
        &&& self.request_slot == 0
        &&& self.container_params_hash@ == zeros(32)
        &&& self.garbage_collection_slot == 0
        &&& self._ebuf@ == zeros(256)
    }
}

impl Default for FunctionRequestAccountData {
    /// The record whose every field is zero.
    fn default() -> (r: Self)
        ensures
            r.is_zeroed(),
    {
        let r = FunctionRequestAccountData {
            function: Pubkey::default(),
            escrow: Pubkey::default(),
            authority: Pubkey::default(),
            is_active: false,
            request_slot: 0,
            container_params_hash: [0u8; 32],
            garbage_collection_slot: 0,
            _ebuf: [0u8; 256],
        };
        assert(r.container_params_hash@ =~= zeros(32));
        assert(r._ebuf@ =~= zeros(256));
        r
    }
}

/// Where each field of a function request record stands in its stored bytes.
pub proof fn lemma_function_request_fields(q: FunctionRequestAccountData)
    ensures
        q.encoding().len() == FUNCTION_REQUEST_RECORD_LEN,
        q.encoding().subrange(0, 8) == FUNCTION_REQUEST_TAG@,
        q.encoding().subrange(8, 40) == q.function@,
        q.encoding().subrange(40, 72) == q.escrow@,
        q.encoding().subrange(72, 104) == q.authority@,
        q.encoding()[104] == bool_byte(q.is_active),
        q.encoding().subrange(105, 113) == u64_le_bytes(
            q.request_slot as int,
        ),
        q.encoding().subrange(113, 145) == q.container_params_hash@,
        q.encoding().subrange(145, 153) == u64_le_bytes(
            q.garbage_collection_slot as int,
        ),
        q.encoding().subrange(153, 409) == q._ebuf@,
{
    let e = q.encoding();
    lemma_u64_le_round_trip(q.request_slot as int);
    lemma_u64_le_round_trip(q.garbage_collection_slot as int);
    assert(e.len() == 409);
    assert(e.subrange(0, 8) =~= FUNCTION_REQUEST_TAG@);
    assert(e.subrange(8, 40) =~= q.function@);
    assert(e.subrange(40, 72) =~= q.escrow@);
    assert(e.subrange(72, 104) =~= q.authority@);
    assert(e.subrange(105, 113) =~= u64_le_bytes(
        q.request_slot as int,
    ));
    assert(e.subrange(113, 145) =~= q.container_params_hash@);
    assert(e.subrange(145, 153) =~= u64_le_bytes(
        q.garbage_collection_slot as int,
    ));
    assert(e.subrange(153, 409) =~= q._ebuf@);
}

/// Two function request records with the same stored bytes are the same record.
pub proof fn lemma_function_request_encoding_injective(
    a: FunctionRequestAccountData,
    b: FunctionRequestAccountData,
)
    requires
        a.encoding() == b.encoding(),
    ensures
        a == b,
{
    lemma_function_request_fields(a);
    lemma_function_request_fields(b);
    lemma_pubkey_ext(a.function, b.function);
    lemma_pubkey_ext(a.escrow, b.escrow);
    lemma_pubkey_ext(a.authority, b.authority);
    assert(a.is_active == b.is_active);
    lemma_u64_le_round_trip(a.request_slot as int);
    lemma_u64_le_round_trip(b.request_slot as int);
    assert(a.container_params_hash@ == b.container_params_hash@);
    assert(a.container_params_hash == b.container_params_hash);
    lemma_u64_le_round_trip(a.garbage_collection_slot as int);
    lemma_u64_le_round_trip(b.garbage_collection_slot as int);
    assert(a._ebuf@ == b._ebuf@);
    assert(a._ebuf == b._ebuf);
}

/// The stored bytes of any function request record can be read, and reading them
/// gives the record back, field for field.
pub proof fn lemma_function_request_round_trip(
    q: FunctionRequestAccountData,
    read: FunctionRequestAccountData,
)
    ensures
        FunctionRequestAccountData::readable(q.encoding()),
        FunctionRequestAccountData::parse(q.encoding()) == Some(q),
        read.encoding() == q.encoding().subrange(0, FUNCTION_REQUEST_RECORD_LEN as int) ==> read
            == q,
{
    lemma_function_request_fields(q);
    assert(q.encoding().subrange(0, FUNCTION_REQUEST_RECORD_LEN as int) =~= q.encoding());
    if read.encoding() == q.encoding() {
        lemma_function_request_encoding_injective(read, q);
    }
    lemma_function_request_encoding_injective(
        FunctionRequestAccountData::parse(q.encoding())->0,
        q,
    );
}

} // verus!
