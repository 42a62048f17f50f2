//! Reading typed records out of the bytes that the record store returns.

use crate::constants::{
    FUNCTION_REQUEST_TAG, FUNCTION_TAG, PERMISSION_TAG, QUEUE_TAG, QUOTE_TAG, VERIFIER_TAG,
    WALLET_TAG,
};
use crate::error::SwitchboardError;
use crate::function::{FunctionAccountData, FUNCTION_RECORD_LEN};
use crate::function_request::{FunctionRequestAccountData, FUNCTION_REQUEST_RECORD_LEN};
use crate::permission::{AttestationPermissionAccountData, PERMISSION_RECORD_LEN};
use crate::queue::{AttestationQueueAccountData, QUEUE_RECORD_LEN};
use crate::quote::{QuoteAccountData, QUOTE_RECORD_LEN};
use crate::verifier_record::{VerifierAccountData, VERIFIER_RECORD_LEN};
use crate::wallet::{SwitchboardWallet, WALLET_RECORD_LEN};
use vstd::prelude::*;

verus! {

/// A type of record with a stored form: a type tag of eight bytes, then a
/// fixed layout.
pub trait Record: Sized {
    /// The type tag.
    spec fn tag() -> Seq<u8>;

    /// The number of stored bytes, type tag included.
    spec fn stored_len() -> nat;

    /// The stored bytes of a record.
    spec fn stored(&self) -> Seq<u8>;

    /// Whether `data` begins with a whole, readable record of this type.
    spec fn can_read(data: Seq<u8>) -> bool;

    /// The record that `data` begins with, where it begins with a readable
    /// one.
    spec fn parsed(data: Seq<u8>) -> Option<Self>;

    /// The number of stored bytes, type tag included.
    fn record_len() -> (r: usize)
        ensures
            r == Self::stored_len(),
            r >= 8,
    ;

    /// Reads a record from the beginning of `data`.
    fn read(data: &[u8]) -> (r: Result<Self, SwitchboardError>)
        ensures
            r is Ok <==> Self::can_read(data@),
            r is Ok ==> has_tag(data@, Self::tag()) && data@.len() >= Self::stored_len(),
            r matches Ok(q) ==> q.stored() == data@.subrange(0, Self::stored_len() as int),
            r matches Ok(q) ==> Self::parsed(data@) == Some(q),
            r matches Err(e) ==> e == (if has_tag(data@, Self::tag()) {
                SwitchboardError::SerializationFailure
            } else {
                SwitchboardError::RecordTypeMismatch
            }),
    ;
}

/// Whether `data` begins with the type tag `tag`.
pub open spec fn has_tag(data: Seq<u8>, tag: Seq<u8>) -> bool {
    data.len() >= 8 && data.subrange(0, 8) == tag
}

impl Record for QuoteAccountData {
    open spec fn tag() -> Seq<u8> {
        QUOTE_TAG@
    }

    open spec fn stored_len() -> nat {
        QUOTE_RECORD_LEN as nat
    }

    open spec fn stored(&self) -> Seq<u8> {
        self.encoding()
    }

    open spec fn can_read(data: Seq<u8>) -> bool {
        QuoteAccountData::readable(data)
    }

    open spec fn parsed(data: Seq<u8>) -> Option<Self> {
        QuoteAccountData::parse(data)
    }

    fn record_len() -> (r: usize) {
        QUOTE_RECORD_LEN
    }

    fn read(data: &[u8]) -> (r: Result<Self, SwitchboardError>) {
        QuoteAccountData::new_from_bytes(data)
    }
}

impl Record for FunctionAccountData {
    open spec fn tag() -> Seq<u8> {
        FUNCTION_TAG@
    }

    open spec fn stored_len() -> nat {
        FUNCTION_RECORD_LEN as nat
    }

    open spec fn stored(&self) -> Seq<u8> {
        self.encoding()
    }

    open spec fn can_read(data: Seq<u8>) -> bool {
        FunctionAccountData::readable(data)
    }

    open spec fn parsed(data: Seq<u8>) -> Option<Self> {
        FunctionAccountData::parse(data)
    }

    fn record_len() -> (r: usize) {
        FUNCTION_RECORD_LEN
    }

    fn read(data: &[u8]) -> (r: Result<Self, SwitchboardError>) {
        FunctionAccountData::new_from_bytes(data)
    }
}

impl Record for FunctionRequestAccountData {
    open spec fn tag() -> Seq<u8> {
        FUNCTION_REQUEST_TAG@
    }

    open spec fn stored_len() -> nat {
        FUNCTION_REQUEST_RECORD_LEN as nat
    }

    open spec fn stored(&self) -> Seq<u8> {
        self.encoding()
    }

    open spec fn can_read(data: Seq<u8>) -> bool {
        FunctionRequestAccountData::readable(data)
    }

    open spec fn parsed(data: Seq<u8>) -> Option<Self> {
        FunctionRequestAccountData::parse(data)
    }

    fn record_len() -> (r: usize) {
        FUNCTION_REQUEST_RECORD_LEN
    }

    fn read(data: &[u8]) -> (r: Result<Self, SwitchboardError>) {
        FunctionRequestAccountData::new_from_bytes(data)
    }
}

impl Record for VerifierAccountData {
    open spec fn tag() -> Seq<u8> {
        VERIFIER_TAG@
    }

    open spec fn stored_len() -> nat {
        VERIFIER_RECORD_LEN as nat
    }

    open spec fn stored(&self) -> Seq<u8> {
        self.encoding()
    }

    open spec fn can_read(data: Seq<u8>) -> bool {
        VerifierAccountData::readable(data)
    }

    open spec fn parsed(data: Seq<u8>) -> Option<Self> {
        VerifierAccountData::parse(data)
    }

    fn record_len() -> (r: usize) {
        VERIFIER_RECORD_LEN
    }

    fn read(data: &[u8]) -> (r: Result<Self, SwitchboardError>) {
        VerifierAccountData::new_from_bytes(data)
    }
}

impl Record for AttestationQueueAccountData {
    open spec fn tag() -> Seq<u8> {
        QUEUE_TAG@
    }

    open spec fn stored_len() -> nat {
        QUEUE_RECORD_LEN as nat
    }

    open spec fn stored(&self) -> Seq<u8> {
        self.encoding()
    }

    open spec fn can_read(data: Seq<u8>) -> bool {
        AttestationQueueAccountData::readable(data)
    }

    open spec fn parsed(data: Seq<u8>) -> Option<Self> {
        AttestationQueueAccountData::parse(data)
    }

    fn record_len() -> (r: usize) {
        QUEUE_RECORD_LEN
    }

    fn read(data: &[u8]) -> (r: Result<Self, SwitchboardError>) {
        AttestationQueueAccountData::new_from_bytes(data)
    }
}

impl Record for AttestationPermissionAccountData {
    open spec fn tag() -> Seq<u8> {
        PERMISSION_TAG@
    }

    open spec fn stored_len() -> nat {
        PERMISSION_RECORD_LEN as nat
    }

    open spec fn stored(&self) -> Seq<u8> {
        self.encoding()
    }

    open spec fn can_read(data: Seq<u8>) -> bool {
        AttestationPermissionAccountData::readable(data)
    }

    open spec fn parsed(data: Seq<u8>) -> Option<Self> {
        AttestationPermissionAccountData::parse(data)
    }

    fn record_len() -> (r: usize) {
        PERMISSION_RECORD_LEN
    }

    fn read(data: &[u8]) -> (r: Result<Self, SwitchboardError>) {
        AttestationPermissionAccountData::new_from_bytes(data)
    }
}

impl Record for SwitchboardWallet {
    open spec fn tag() -> Seq<u8> {
        WALLET_TAG@
    }

    open spec fn stored_len() -> nat {
        WALLET_RECORD_LEN as nat
    }

    open spec fn stored(&self) -> Seq<u8> {
        self.encoding()
    }

    open spec fn can_read(data: Seq<u8>) -> bool {
        SwitchboardWallet::readable(data)
    }

    open spec fn parsed(data: Seq<u8>) -> Option<Self> {
        SwitchboardWallet::parse(data)
    }

    fn record_len() -> (r: usize) {
        WALLET_RECORD_LEN
    }

    fn read(data: &[u8]) -> (r: Result<Self, SwitchboardError>) {
        SwitchboardWallet::new_from_bytes(data)
    }
}

/// The bytes of a fetch that may have failed.
pub open spec fn fetched_bytes(fetched: Option<Vec<u8>>) -> Option<Seq<u8>> {
    match fetched {
        Some(data) => Some(data@),
        None => None,
    }
}

/// What `fetch_anchor_account` answers for what a fetch returned: a fetch
/// that failed is a network failure; bytes that do not begin with the type
/// tag are a record of another type; bytes that begin with it and cannot be
/// read are a serialization failure; else the record that the bytes begin
/// with.
pub open spec fn fetched_record<T: Record>(fetched: Option<Seq<u8>>) -> Result<
    T,
    SwitchboardError,
> {
    match fetched {
        None => Err(SwitchboardError::NetworkFailure),
        Some(data) => if !has_tag(data, T::tag()) {
            Err(SwitchboardError::RecordTypeMismatch)
        } else if !T::can_read(data) {
            Err(SwitchboardError::SerializationFailure)
        } else {
            Ok(T::parsed(data)->0)
        },
    }
}

/// What `load_account` answers for what a fetch returned: as
/// `fetched_record`, but bytes that hold more than the record are a
/// serialization failure too.
pub open spec fn loaded_record<T: Record>(fetched: Option<Seq<u8>>) -> Result<T, SwitchboardError> {
    match fetched {
        None => Err(SwitchboardError::NetworkFailure),
        Some(data) => if !has_tag(data, T::tag()) {
            Err(SwitchboardError::RecordTypeMismatch)
        } else if data.len() != T::stored_len() || !T::can_read(data) {
            Err(SwitchboardError::SerializationFailure)
        } else {
            Ok(T::parsed(data)->0)
        },
    }
}

/// Reads a record of a fixed layout from what a fetch returned. A fetch that
/// failed is a network failure; bytes that do not begin with the type tag are
/// a record of another type; and the bytes must hold the record exactly,
/// with nothing after it.
pub fn load_account<T: Record>(fetched: &Option<Vec<u8>>) -> (r: Result<T, SwitchboardError>)
    ensures
        r == loaded_record::<T>(fetched_bytes(*fetched)),
        r matches Ok(q) ==> Some(q.stored()) == fetched_bytes(*fetched),
{
    match fetched {
        None => Err(SwitchboardError::NetworkFailure),
        Some(data) => {
            match T::read(data.as_slice()) {
                Ok(q) => {
                    if data.len() != T::record_len() {
                        Err(SwitchboardError::SerializationFailure)
                    } else {
                        assert(data@.subrange(0, T::stored_len() as int) =~= data@);
                        Ok(q)
                    }
                },
                Err(e) => Err(e),
            }
        },
    }
}

/// Reads a record from the beginning of what a fetch returned. A fetch that
/// failed is a network failure; bytes that do not begin with the type tag are
/// a record of another type; what follows the record is not looked at.
pub fn fetch_anchor_account<T: Record>(fetched: &Option<Vec<u8>>) -> (r: Result<
    T,
    SwitchboardError,
>)
    ensures
        r == fetched_record::<T>(fetched_bytes(*fetched)),
        r matches Ok(q) ==> fetched_bytes(*fetched) matches Some(data) && q.stored()
            == data.subrange(0, T::stored_len() as int),
{
    match fetched {
        None => Err(SwitchboardError::NetworkFailure),
        Some(data) => T::read(data.as_slice()),
    }
}

} // verus!
