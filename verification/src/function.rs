//! The function record: a registered function that runs again and again.

use crate::bytes::{
    i64_le_bytes, lemma_i64_le_bytes_of_value, lemma_i64_le_round_trip,
    lemma_u32_le_bytes_of_value, lemma_u32_le_round_trip, push_bytes, push_i64_le, push_u32_le,
    read_array, read_i64_le, read_u32_le, starts_with_at, u32_le_bytes, zeros,
};
use crate::constants::FUNCTION_TAG;
use crate::error::SwitchboardError;
use crate::pubkey::{lemma_pubkey_ext, Pubkey};
use vstd::prelude::*;

verus! {

/// The number of bytes of a stored function record, type tag included.
pub const FUNCTION_RECORD_LEN: usize = 404;

/// A function record. It is created when the function is registered and
/// changed by every verification that succeeds; nothing here deletes it.
/// The fields stand in the order in which they are stored.
#[derive(Debug, Clone, Copy, PartialEq, Eq)]
pub struct FunctionAccountData {
    /// The hash that identifies the container and the code of the function.
    pub container_hash: [u8; 32],
    /// The wallet record that holds the escrow of the function.
    pub escrow_wallet: Pubkey,
    /// The token holding that belongs to the escrow wallet.
    pub escrow_token_wallet: Pubkey,
    /// The queue whose verifiers check the runs of the function.
    pub attestation_queue: Pubkey,
    /// The seconds from one run on the schedule to the next; zero for a
    /// function that runs on no schedule.
    pub schedule_interval: u32,
    /// The time before which the function may not run again.
    pub next_allowed_timestamp: i64,
    /// Reserved for fields to come; zero in a record as first created.
    pub _ebuf: [u8; 256],
}

impl FunctionAccountData {
    /// The stored bytes of the record: the type tag, then the fields in
    /// order, integers least significant byte first, then the reserved bytes.
    pub open spec fn encoding(&self) -> Seq<u8> {
        FUNCTION_TAG@ + self.container_hash@
            + self.escrow_wallet@
            + self.escrow_token_wallet@
            + self.attestation_queue@
            + u32_le_bytes(self.schedule_interval as int)
            + i64_le_bytes(self.next_allowed_timestamp as int)
            + self._ebuf@
    }

    /// Whether `data` begins with the type tag of a function record.
    pub open spec fn has_tag(data: Seq<u8>) -> bool {
        data.len() >= 8 && data.subrange(0, 8) == FUNCTION_TAG@
    }

    /// Whether `data` begins with a whole, readable function record.
    pub open spec fn readable(data: Seq<u8>) -> bool {
        &&& Self::has_tag(data)
        &&& data.len() >= FUNCTION_RECORD_LEN
    }

    /// The record that `data` begins with, where it begins with a readable
    /// one: the record whose stored bytes are the first bytes of `data`.
    pub open spec fn parse(data: Seq<u8>) -> Option<Self> {
        if Self::readable(data) {
            Some(
                choose|q: FunctionAccountData|
                    q.encoding() == data.subrange(0, FUNCTION_RECORD_LEN as int),
            )
        } else {
            None
        }
    }

    /// A record as it is first created: the given fields, and every reserved
    /// byte zero.
    pub fn create(
        container_hash: [u8; 32],
        escrow_wallet: Pubkey,
        escrow_token_wallet: Pubkey,
        attestation_queue: Pubkey,
        schedule_interval: u32,
        next_allowed_timestamp: i64,
    ) -> (r: Self)
        ensures
            r.container_hash == container_hash,
            r.escrow_wallet == escrow_wallet,
            r.escrow_token_wallet == escrow_token_wallet,
            r.attestation_queue == attestation_queue,
            r.schedule_interval == schedule_interval,
            r.next_allowed_timestamp == next_allowed_timestamp,
            r._ebuf@ == zeros(256),
    {
        let r = FunctionAccountData {
            container_hash,
            escrow_wallet,
            escrow_token_wallet,
            attestation_queue,
            schedule_interval,
            next_allowed_timestamp,
            _ebuf: [0u8; 256],
        };
        assert(r._ebuf@ =~= zeros(256));
        r
    }

    /// Reads a function record from the bytes of a stored record. The bytes must
    /// begin with the type tag, else the record is of another type; after it
    /// the whole record must follow.
    /// What follows the record is not looked at.
    pub fn new_from_bytes(data: &[u8]) -> (r: Result<Self, SwitchboardError>)
        ensures
            r is Ok <==> Self::readable(data@),
            r matches Ok(q) ==> q.encoding() == data@.subrange(
                0,
                FUNCTION_RECORD_LEN as int,
            ),
            r matches Ok(q) ==> Self::parse(data@) == Some(q),
            r matches Err(e) ==> e == (if Self::has_tag(data@) {
                SwitchboardError::SerializationFailure
            } else {
                SwitchboardError::RecordTypeMismatch
            }),
    {
        if data.len() < 8 {
            return Err(SwitchboardError::RecordTypeMismatch);
        }
        if !starts_with_at(data, 0, FUNCTION_TAG.as_slice()) {
            return Err(SwitchboardError::RecordTypeMismatch);
        }
        if data.len() < FUNCTION_RECORD_LEN {
            return Err(SwitchboardError::SerializationFailure);
        }
        let ghost d = data@;
        let container_hash = read_array::<32>(data, 8);
        let ghost a1 = FUNCTION_TAG@ + container_hash@;
        assert(a1 =~= d.subrange(0, 40));
        let escrow_wallet = Pubkey::read(data, 40);
        let ghost a2 = a1 + escrow_wallet@;
        assert(a2 =~= d.subrange(0, 72));
        let escrow_token_wallet = Pubkey::read(data, 72);
        let ghost a3 = a2 + escrow_token_wallet@;
        assert(a3 =~= d.subrange(0, 104));
        let attestation_queue = Pubkey::read(data, 104);
        let ghost a4 = a3 + attestation_queue@;
        assert(a4 =~= d.subrange(0, 136));
        let schedule_interval = read_u32_le(data, 136);
        proof {
            lemma_u32_le_bytes_of_value(d.subrange(136, 140));
        }
        let ghost a5 = a4 + u32_le_bytes(schedule_interval as int);
        assert(a5 =~= d.subrange(0, 140));
        let next_allowed_timestamp = read_i64_le(data, 140);
        proof {
            lemma_i64_le_bytes_of_value(d.subrange(140, 148));
        }
        let ghost a6 = a5 + i64_le_bytes(next_allowed_timestamp as int);
        assert(a6 =~= d.subrange(0, 148));
        let _ebuf = read_array::<256>(data, 148);
        let ghost a7 = a6 + _ebuf@;
        assert(a7 =~= d.subrange(0, 404));
        let q = FunctionAccountData {
            container_hash,
            escrow_wallet,
            escrow_token_wallet,
            attestation_queue,
            schedule_interval,
            next_allowed_timestamp,
            _ebuf,
        };
        proof {
            lemma_function_encoding_injective(Self::parse(d)->0, q);
        }
        Ok(q)
    }

    /// The stored bytes of the record.
    pub fn encode(&self) -> (r: Vec<u8>)
        ensures
            r@ == self.encoding(),
            r@.len() == FUNCTION_RECORD_LEN,
    {
        let mut out: Vec<u8> = Vec::new();
        push_bytes(&mut out, FUNCTION_TAG.as_slice());
        assert(out@ =~= FUNCTION_TAG@);
        push_bytes(&mut out, self.container_hash.as_slice());
        push_bytes(&mut out, self.escrow_wallet.bytes.as_slice());
        push_bytes(&mut out, self.escrow_token_wallet.bytes.as_slice());
        push_bytes(&mut out, self.attestation_queue.bytes.as_slice());
        push_u32_le(&mut out, self.schedule_interval);
        push_i64_le(&mut out, self.next_allowed_timestamp);
        push_bytes(&mut out, self._ebuf.as_slice());
        out
    }

    /// Reads a record from its stored bytes without the type tag: exactly
    /// the fields and the reserved bytes, no more and no less.
    pub fn new_from_body(body: &[u8]) -> (r: Option<Self>)
        ensures
            r is Some <==> body@.len() + 8 == FUNCTION_RECORD_LEN && Self::readable(
                FUNCTION_TAG@ + body@,
            ),
            r matches Some(q) ==> q.encoding() == FUNCTION_TAG@ + body@,
    {
        if body.len() != FUNCTION_RECORD_LEN - 8 {
            return None;
        }
        let mut data: Vec<u8> = Vec::new();
        push_bytes(&mut data, FUNCTION_TAG.as_slice());
        push_bytes(&mut data, body);
        assert(data@ =~= FUNCTION_TAG@ + body@);
        assert(data@.subrange(0, FUNCTION_RECORD_LEN as int) =~= data@);
        match Self::new_from_bytes(data.as_slice()) {
            Ok(q) => Some(q),
            Err(_) => None,
        }
    }

    /// Whether every field of the record is zero.
    pub open spec fn is_zeroed(&self) -> bool {
        &&& self.container_hash@ == zeros(32)
        &&& self.escrow_wallet@ == zeros(32)
        &&& self.escrow_token_wallet@ == zeros(32)
        &&& self.attestation_queue@ == zeros(32)
        &&& self.schedule_interval == 0
        &&& self.next_allowed_timestamp == 0
        &&& self._ebuf@ == zeros(256)
    }

    /// Whether the function runs on a schedule.
    pub open spec fn is_scheduled(&self) -> bool {
        self.schedule_interval > 0
    }

    /// The seconds that must pass after a run before the next: the interval
    /// of the schedule, or one second for a function that runs on none.
    pub open spec fn step(&self) -> int {
        if self.schedule_interval > 0 {
            self.schedule_interval as int
        } else {
            1
        }
    }

    /// The time before which the function may not run again after a run at
    /// `now`: one step after `now`, and never beyond the end of time.
    pub open spec fn advanced(&self, now: i64) -> i64 {
        if now + self.step() > i64::MAX {
            i64::MAX
        } else {
            (now + self.step()) as i64
        }
    }

    /// The time before which the function may not run again after a run at
    /// `now`. It is later than `now` wherever a later time exists.
    pub fn advance(&self, now: i64) -> (r: i64)
        ensures
            r == self.advanced(now),
            r >= now,
            now < i64::MAX ==> r > now,
    {
        let step: i64 = if self.schedule_interval > 0 {
            self.schedule_interval as i64
        } else {
            1
        };
        if now > i64::MAX - step {
            i64::MAX
        } else {
            now + step
        }
    }

    /// The time of the next run on the schedule after a run at `now`, if the
    /// function has a schedule.
    pub open spec fn spec_next_execution_timestamp(&self, now: i64) -> Option<i64> {
        if self.is_scheduled() {
            Some(self.advanced(now))
        } else {
            None
        }
    }

    /// The time of the next run on the schedule after a run at `now`, if the
    /// function has a schedule.
    pub fn get_next_execution_timestamp(&self, now: i64) -> (r: Option<i64>)
        ensures
            r == self.spec_next_execution_timestamp(now),
    {
        if self.schedule_interval > 0 {
            Some(self.advance(now))
        } else {
            None
        }
    }
}

impl Default for FunctionAccountData {
    /// The record whose every field is zero.
    fn default() -> (r: Self)
        ensures
            r.is_zeroed(),
    {
        let r = FunctionAccountData {
            container_hash: [0u8; 32],
            escrow_wallet: Pubkey::default(),
            escrow_token_wallet: Pubkey::default(),
            attestation_queue: Pubkey::default(),
            schedule_interval: 0,
            next_allowed_timestamp: 0,
            _ebuf: [0u8; 256],
        };
        assert(r.container_hash@ =~= zeros(32));
        assert(r._ebuf@ =~= zeros(256));
        r
    }
}

/// Where each field of a function record stands in its stored bytes.
pub proof fn lemma_function_fields(q: FunctionAccountData)
    ensures
        q.encoding().len() == FUNCTION_RECORD_LEN,
        q.encoding().subrange(0, 8) == FUNCTION_TAG@,
        q.encoding().subrange(8, 40) == q.container_hash@,
        q.encoding().subrange(40, 72) == q.escrow_wallet@,
        q.encoding().subrange(72, 104) == q.escrow_token_wallet@,
        q.encoding().subrange(104, 136) == q.attestation_queue@,
        q.encoding().subrange(136, 140) == u32_le_bytes(
            q.schedule_interval as int,
        ),
        q.encoding().subrange(140, 148) == i64_le_bytes(
            q.next_allowed_timestamp as int,
        ),
        q.encoding().subrange(148, 404) == q._ebuf@,
{
    let e = q.encoding();
    lemma_u32_le_round_trip(q.schedule_interval as int);
    lemma_i64_le_round_trip(q.next_allowed_timestamp as int);
    assert(e.len() == 404);
    assert(e.subrange(0, 8) =~= FUNCTION_TAG@);
    assert(e.subrange(8, 40) =~= q.container_hash@);
    assert(e.subrange(40, 72) =~= q.escrow_wallet@);
    assert(e.subrange(72, 104) =~= q.escrow_token_wallet@);
    assert(e.subrange(104, 136) =~= q.attestation_queue@);
    assert(e.subrange(136, 140) =~= u32_le_bytes(
        q.schedule_interval as int,
    ));
    assert(e.subrange(140, 148) =~= i64_le_bytes(
        q.next_allowed_timestamp as int,
    ));
    assert(e.subrange(148, 404) =~= q._ebuf@);
}

/// Two function records with the same stored bytes are the same record.
pub proof fn lemma_function_encoding_injective(
    a: FunctionAccountData,
    b: FunctionAccountData,
)
    requires
        a.encoding() == b.encoding(),
    ensures
        a == b,
{
    lemma_function_fields(a);
    lemma_function_fields(b);
    assert(a.container_hash@ == b.container_hash@);
    assert(a.container_hash == b.container_hash);
    lemma_pubkey_ext(a.escrow_wallet, b.escrow_wallet);
    lemma_pubkey_ext(a.escrow_token_wallet, b.escrow_token_wallet);
    lemma_pubkey_ext(a.attestation_queue, b.attestation_queue);
    lemma_u32_le_round_trip(a.schedule_interval as int);
    lemma_u32_le_round_trip(b.schedule_interval as int);
    lemma_i64_le_round_trip(a.next_allowed_timestamp as int);
    lemma_i64_le_round_trip(b.next_allowed_timestamp as int);
    assert(a._ebuf@ == b._ebuf@);
    assert(a._ebuf == b._ebuf);
}

/// The stored bytes of any function record can be read, and reading them
/// gives the record back, field for field.
pub proof fn lemma_function_round_trip(
    q: FunctionAccountData,
    read: FunctionAccountData,
)
    ensures
        FunctionAccountData::readable(q.encoding()),
        FunctionAccountData::parse(q.encoding()) == Some(q),
        read.encoding() == q.encoding().subrange(0, FUNCTION_RECORD_LEN as int) ==> read
            == q,
{
    lemma_function_fields(q);
    assert(q.encoding().subrange(0, FUNCTION_RECORD_LEN as int) =~= q.encoding());
    if read.encoding() == q.encoding() {
        lemma_function_encoding_injective(read, q);
    }
    lemma_function_encoding_injective(
        FunctionAccountData::parse(q.encoding())->0,
        q,
    );
}

} // verus!
