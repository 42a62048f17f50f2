//! The wallet record: a named escrow that several parties may fund.

use crate::bytes::{push_bytes, read_array, starts_with_at, zeros};
use crate::address::{derive_address, derive_spec};
use crate::constants::{attestation_program_id, ATTESTATION_PROGRAM_ID, WALLET_TAG};
use crate::error::SwitchboardError;
use crate::pubkey::{lemma_pubkey_ext, Pubkey};
use vstd::prelude::*;

verus! {

/// The number of bytes of a stored wallet record, type tag included.
pub const WALLET_RECORD_LEN: usize = 425;

/// A wallet record. Its address follows from the mint, the queue, the
/// authority and the name. The fields stand in the order in which they are
/// stored.
#[derive(Debug, Clone, Copy, PartialEq, Eq)]
pub struct SwitchboardWallet {
    pub bump: u8,
    /// The mint of the tokens that the wallet holds.
    pub mint: Pubkey,
    pub attestation_queue: Pubkey,
    pub authority: Pubkey,
    /// The name of the wallet, padded with zero bytes.
    pub name: [u8; 32],
    /// The token holding that belongs to the wallet.
    pub token_wallet: Pubkey,
    /// Reserved for fields to come; zero in a record as first created.
    pub _ebuf: [u8; 256],
}

impl SwitchboardWallet {
    /// The stored bytes of the record: the type tag, then the fields in
    /// order, integers least significant byte first, then the reserved bytes.
    pub open spec fn encoding(&self) -> Seq<u8> {
        WALLET_TAG@ + seq![self.bump]
            + self.mint@
            + self.attestation_queue@
            + self.authority@
            + self.name@
            + self.token_wallet@
            + self._ebuf@
    }

    /// Whether `data` begins with the type tag of a wallet record.
    pub open spec fn has_tag(data: Seq<u8>) -> bool {
        data.len() >= 8 && data.subrange(0, 8) == WALLET_TAG@
    }

    /// Whether `data` begins with a whole, readable wallet record.
    pub open spec fn readable(data: Seq<u8>) -> bool {
        &&& Self::has_tag(data)
        &&& data.len() >= WALLET_RECORD_LEN
    }

    /// The record that `data` begins with, where it begins with a readable
    /// one: the record whose stored bytes are the first bytes of `data`.
    pub open spec fn parse(data: Seq<u8>) -> Option<Self> {
        if Self::readable(data) {
            Some(
                choose|q: SwitchboardWallet|
                    q.encoding() == data.subrange(0, WALLET_RECORD_LEN as int),
            )
        } else {
            None
        }
    }

    /// A record as it is first created: the given fields, and every reserved
    /// byte zero.
    pub fn create(
        bump: u8,
        mint: Pubkey,
        attestation_queue: Pubkey,
        authority: Pubkey,
        name: [u8; 32],
        token_wallet: Pubkey,
    ) -> (r: Self)
        ensures
            r.bump == bump,
            r.mint == mint,
            r.attestation_queue == attestation_queue,
            r.authority == authority,
            r.name == name,
            r.token_wallet == token_wallet,
            r._ebuf@ == zeros(256),
    {
        let r = SwitchboardWallet {
            bump,
            mint,
            attestation_queue,
            authority,
            name,
            token_wallet,
            _ebuf: [0u8; 256],
        };
        assert(r._ebuf@ =~= zeros(256));
        r
    }

    /// Reads a wallet record from the bytes of a stored record. The bytes must
    /// begin with the type tag, else the record is of another type; after it
    /// the whole record must follow.
    /// What follows the record is not looked at.
    pub fn new_from_bytes(data: &[u8]) -> (r: Result<Self, SwitchboardError>)
        ensures
            r is Ok <==> Self::readable(data@),
            r matches Ok(q) ==> q.encoding() == data@.subrange(
                0,
                WALLET_RECORD_LEN as int,
            ),
            r matches Ok(q) ==> Self::parse(data@) == Some(q),
            r matches Err(e) ==> e == (if Self::has_tag(data@) {
                SwitchboardError::SerializationFailure
            } else {
                SwitchboardError::RecordTypeMismatch
            }),
    {
        if data.len() < 8 {
            return Err(SwitchboardError::RecordTypeMismatch);
        }
        if !starts_with_at(data, 0, WALLET_TAG.as_slice()) {
            return Err(SwitchboardError::RecordTypeMismatch);
        }
        if data.len() < WALLET_RECORD_LEN {
            return Err(SwitchboardError::SerializationFailure);
        }
        let ghost d = data@;
        let bump = data[8];
        let ghost a1 = WALLET_TAG@ + seq![bump];
        assert(a1 =~= d.subrange(0, 9));
        let mint = Pubkey::read(data, 9);
        let ghost a2 = a1 + mint@;
        assert(a2 =~= d.subrange(0, 41));
        let attestation_queue = Pubkey::read(data, 41);
        let ghost a3 = a2 + attestation_queue@;
        assert(a3 =~= d.subrange(0, 73));
        let authority = Pubkey::read(data, 73);
        let ghost a4 = a3 + authority@;
        assert(a4 =~= d.subrange(0, 105));
        let name = read_array::<32>(data, 105);
        let ghost a5 = a4 + name@;
        assert(a5 =~= d.subrange(0, 137));
        let token_wallet = Pubkey::read(data, 137);
        let ghost a6 = a5 + token_wallet@;
        assert(a6 =~= d.subrange(0, 169));
        let _ebuf = read_array::<256>(data, 169);
        let ghost a7 = a6 + _ebuf@;
        assert(a7 =~= d.subrange(0, 425));
        let q = SwitchboardWallet {
            bump,
            mint,
            attestation_queue,
            authority,
            name,
            token_wallet,
            _ebuf,
        };
        proof {
            lemma_wallet_encoding_injective(Self::parse(d)->0, q);
        }
        Ok(q)
    }

    /// The stored bytes of the record.
    pub fn encode(&self) -> (r: Vec<u8>)
        ensures
            r@ == self.encoding(),
            r@.len() == WALLET_RECORD_LEN,
    {
        let mut out: Vec<u8> = Vec::new();
        push_bytes(&mut out, WALLET_TAG.as_slice());
        assert(out@ =~= WALLET_TAG@);
        out.push(self.bump);
        push_bytes(&mut out, self.mint.bytes.as_slice());
        push_bytes(&mut out, self.attestation_queue.bytes.as_slice());
        push_bytes(&mut out, self.authority.bytes.as_slice());
        push_bytes(&mut out, self.name.as_slice());
        push_bytes(&mut out, self.token_wallet.bytes.as_slice());
        push_bytes(&mut out, self._ebuf.as_slice());
        out
    }

    /// Reads a record from its stored bytes without the type tag: exactly
    /// the fields and the reserved bytes, no more and no less.
    pub fn new_from_body(body: &[u8]) -> (r: Option<Self>)
        ensures
            r is Some <==> body@.len() + 8 == WALLET_RECORD_LEN && Self::readable(
                WALLET_TAG@ + body@,
            ),
            r matches Some(q) ==> q.encoding() == WALLET_TAG@ + body@,
    {
        if body.len() != WALLET_RECORD_LEN - 8 {
            return None;
        }
        let mut data: Vec<u8> = Vec::new();
        push_bytes(&mut data, WALLET_TAG.as_slice());
        push_bytes(&mut data, body);
        assert(data@ =~= WALLET_TAG@ + body@);
        assert(data@.subrange(0, WALLET_RECORD_LEN as int) =~= data@);
        match Self::new_from_bytes(data.as_slice()) {
            Ok(q) => Some(q),
            Err(_) => None,
        }
    }

    /// Whether every field of the record is zero.
    pub open spec fn is_zeroed(&self) -> bool {
        &&& self.bump == 0
        &&& self.mint@ == zeros(32)
        &&& self.attestation_queue@ == zeros(32)
        &&& self.authority@ == zeros(32)
        &&& self.name@ == zeros(32)
        &&& self.token_wallet@ == zeros(32)
        &&& self._ebuf@ == zeros(256)
    }

    /// The keys after the mint in the seed list of the wallet: the queue, the
    /// authority and the name.
    pub open spec fn seed_keys(&self) -> Seq<Pubkey> {
        seq![self.attestation_queue, self.authority, Pubkey { bytes: self.name }]
    }

    /// The address of the wallet: what the mint, the queue, the authority,
    /// the name and the bump give.
    pub fn get_pda_pubkey(&self) -> (r: Result<Pubkey, SwitchboardError>)
        ensures
            match r {
                Ok(k) => derive_spec(
                    self.mint@,
                    self.seed_keys(),
                    self.bump,
                    ATTESTATION_PROGRAM_ID@,
                ) == Some(k@),
                Err(e) => e == SwitchboardError::AddressDerivationFailure && derive_spec(
                    self.mint@,
                    self.seed_keys(),
                    self.bump,
                    ATTESTATION_PROGRAM_ID@,
                ) is None,
            },
    {
        let mut keys: Vec<Pubkey> = Vec::new();
        keys.push(self.attestation_queue);
        keys.push(self.authority);
        keys.push(Pubkey { bytes: self.name });
        assert(keys@ =~= self.seed_keys());
        let program = attestation_program_id();
        derive_address(self.mint.bytes.as_slice(), &keys, self.bump, &program)
    }
}

impl Default for SwitchboardWallet {
    /// The record whose every field is zero.
    fn default() -> (r: Self)
        ensures
            r.is_zeroed(),
    {
        let r = SwitchboardWallet {
            bump: 0,
            mint: Pubkey::default(),
            attestation_queue: Pubkey::default(),
            authority: Pubkey::default(),
            name: [0u8; 32],
            token_wallet: Pubkey::default(),
            _ebuf: [0u8; 256],
        };
        assert(r.name@ =~= zeros(32));
        assert(r._ebuf@ =~= zeros(256));
        r
    }
}

/// Where each field of a wallet record stands in its stored bytes.
pub proof fn lemma_wallet_fields(q: SwitchboardWallet)
    ensures
        q.encoding().len() == WALLET_RECORD_LEN,
        q.encoding().subrange(0, 8) == WALLET_TAG@,
        q.encoding()[8] == q.bump,
        q.encoding().subrange(9, 41) == q.mint@,
        q.encoding().subrange(41, 73) == q.attestation_queue@,
        q.encoding().subrange(73, 105) == q.authority@,
        q.encoding().subrange(105, 137) == q.name@,
        q.encoding().subrange(137, 169) == q.token_wallet@,
        q.encoding().subrange(169, 425) == q._ebuf@,
{
    let e = q.encoding();
    assert(e.len() == 425);
    assert(e.subrange(0, 8) =~= WALLET_TAG@);
    assert(e.subrange(9, 41) =~= q.mint@);
    assert(e.subrange(41, 73) =~= q.attestation_queue@);
    assert(e.subrange(73, 105) =~= q.authority@);
    assert(e.subrange(105, 137) =~= q.name@);
    assert(e.subrange(137, 169) =~= q.token_wallet@);
    assert(e.subrange(169, 425) =~= q._ebuf@);
}

/// Two wallet records with the same stored bytes are the same record.
pub proof fn lemma_wallet_encoding_injective(
    a: SwitchboardWallet,
    b: SwitchboardWallet,
)
    requires
        a.encoding() == b.encoding(),
    ensures
        a == b,
{
    lemma_wallet_fields(a);
    lemma_wallet_fields(b);
    lemma_pubkey_ext(a.mint, b.mint);
    lemma_pubkey_ext(a.attestation_queue, b.attestation_queue);
    lemma_pubkey_ext(a.authority, b.authority);
    assert(a.name@ == b.name@);
    assert(a.name == b.name);
    lemma_pubkey_ext(a.token_wallet, b.token_wallet);
    assert(a._ebuf@ == b._ebuf@);
    assert(a._ebuf == b._ebuf);
}

/// The stored bytes of any wallet record can be read, and reading them
/// gives the record back, field for field.
pub proof fn lemma_wallet_round_trip(
    q: SwitchboardWallet,
    read: SwitchboardWallet,
)
    ensures
        SwitchboardWallet::readable(q.encoding()),
        SwitchboardWallet::parse(q.encoding()) == Some(q),
        read.encoding() == q.encoding().subrange(0, WALLET_RECORD_LEN as int) ==> read
            == q,
{
    lemma_wallet_fields(q);
    assert(q.encoding().subrange(0, WALLET_RECORD_LEN as int) =~= q.encoding());
    if read.encoding() == q.encoding() {
        lemma_wallet_encoding_injective(read, q);
    }
    lemma_wallet_encoding_injective(
        SwitchboardWallet::parse(q.encoding())->0,
        q,
    );
}

} // verus!
