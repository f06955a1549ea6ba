//! The data model: the offer descriptor, the escrow record, and their
//! bit-exact little-endian layouts, together with the digest that seeds the
//! derivation of the escrow-controlled address.

use vstd::prelude::*;
use vstd::bytes::{
    lemma_auto_spec_u64_to_from_le_bytes, spec_u64_from_le_bytes, spec_u64_to_le_bytes,
    u64_from_le_bytes, u64_to_le_bytes,
};
use vstd::slice::slice_subrange;
use crate::bytes_util::{bytes_eq, copy_range, extend_bytes};

verus! {

/// An account address: 32 raw bytes.
#[derive(Debug)]
pub struct Address {
    pub bytes: Vec<u8>,
}

impl View for Address {
    type V = Seq<u8>;

    open spec fn view(&self) -> Seq<u8> {
        self.bytes@
    }
}

impl Address {
    /// A well-formed address holds exactly 32 bytes.
    pub open spec fn wf(&self) -> bool {
        self@.len() == 32
    }

    /// A fresh copy of the same address.
    pub fn dup(&self) -> (r: Address)
        ensures
            r@ == self@,
    {
        Address { bytes: crate::bytes_util::copy_bytes(self.bytes.as_slice()) }
    }

    /// True iff the two addresses are the same.
    pub fn eq_addr(&self, other: &Address) -> (r: bool)
        ensures
            r == (self@ == other@),
    {
        bytes_eq(self.bytes.as_slice(), other.bytes.as_slice())
    }
}

impl PartialEq for Address {
    fn eq(&self, other: &Self) -> (r: bool) {
        self.eq_addr(other)
    }
}

impl vstd::std_specs::cmp::PartialEqSpecImpl for Address {
    open spec fn obeys_eq_spec() -> bool {
        true
    }

    open spec fn eq_spec(&self, other: &Address) -> bool {
        self@ == other@
    }
}

/// The mathematical value of an offer descriptor.
pub ghost struct OfferTerms {
    pub token_type: Seq<u8>,
    pub token_qty: u64,
    pub strike_type: Seq<u8>,
    pub strike_qty: u64,
}

/// The canonical terms of one swap: the asset and quantity offered, and the
/// asset and quantity demanded in return.  Immutable once an offer exists.
#[derive(Debug)]
pub struct OfferData {
    pub token_type: Address,
    pub token_qty: u64,
    pub strike_type: Address,
    pub strike_qty: u64,
}

impl View for OfferData {
    type V = OfferTerms;

    open spec fn view(&self) -> OfferTerms {
        OfferTerms {
            token_type: self.token_type@,
            token_qty: self.token_qty,
            strike_type: self.strike_type@,
            strike_qty: self.strike_qty,
        }
    }
}

/// Well-formed terms name each asset by a 32-byte address.
pub open spec fn offer_terms_wf(t: OfferTerms) -> bool {
    &&& t.token_type.len() == 32
    &&& t.strike_type.len() == 32
}

/// The 80-byte layout of an offer descriptor: offered asset (32 bytes),
/// offered quantity (8 bytes little-endian), demanded asset (32 bytes),
/// demanded quantity (8 bytes little-endian).
pub open spec fn spec_offer_bytes(t: OfferTerms) -> Seq<u8> {
    t.token_type + spec_u64_to_le_bytes(t.token_qty) + t.strike_type + spec_u64_to_le_bytes(
        t.strike_qty,
    )
}

/// The terms read back from an 80-byte descriptor layout.
pub open spec fn spec_parse_offer(s: Seq<u8>) -> OfferTerms
    recommends
        s.len() == 80,
{
    OfferTerms {
        token_type: s.subrange(0, 32),
        token_qty: spec_u64_from_le_bytes(s.subrange(32, 40)),
        strike_type: s.subrange(40, 72),
        strike_qty: spec_u64_from_le_bytes(s.subrange(72, 80)),
    }
}

/// Encoding then decoding an offer descriptor gives back the same terms.
pub proof fn lemma_offer_round_trip(t: OfferTerms)
    requires
        offer_terms_wf(t),
    ensures
        spec_offer_bytes(t).len() == 80,
        spec_parse_offer(spec_offer_bytes(t)) == t,
{
    lemma_auto_spec_u64_to_from_le_bytes();
    let s = spec_offer_bytes(t);
    assert(s.subrange(0, 32) =~= t.token_type);
    assert(s.subrange(32, 40) =~= spec_u64_to_le_bytes(t.token_qty));
    assert(s.subrange(40, 72) =~= t.strike_type);
    assert(s.subrange(72, 80) =~= spec_u64_to_le_bytes(t.strike_qty));
}

/// Decoding then re-encoding any 80-byte buffer reproduces it exactly: the
/// layout has no padding and no unused bits.
pub proof fn lemma_offer_bytes_round_trip(s: Seq<u8>)
    requires
        s.len() == 80,
    ensures
        spec_offer_bytes(spec_parse_offer(s)) == s,
{
    lemma_auto_spec_u64_to_from_le_bytes();
    assert(spec_offer_bytes(spec_parse_offer(s)) =~= s);
}

impl OfferData {
    /// Well-formed: both asset identifiers are 32-byte addresses.
    pub open spec fn wf(&self) -> bool {
        offer_terms_wf(self@)
    }

    /// Reads a descriptor from its 80-byte layout.  Encoding is total and
    /// decoding of a full-length buffer never fails; a shorter buffer is
    /// rejected upstream as malformed input.
    pub fn from_bytes(src: &[u8]) -> (r: OfferData)
        requires
            src@.len() == 80,
        ensures
            r@ == spec_parse_offer(src@),
            r.wf(),
    {
        let token_type = Address { bytes: copy_range(src, 0, 32) };
        let token_qty = u64_from_le_bytes(slice_subrange(src, 32, 40));
        let strike_type = Address { bytes: copy_range(src, 40, 72) };
        let strike_qty = u64_from_le_bytes(slice_subrange(src, 72, 80));
        OfferData { token_type, token_qty, strike_type, strike_qty }
    }

    /// Writes the descriptor in its 80-byte layout.
    pub fn to_bytes(&self) -> (r: Vec<u8>)
        requires
            self.wf(),
        ensures
            r@ == spec_offer_bytes(self@),
            r@.len() == 80,
    {
        proof {
            lemma_auto_spec_u64_to_from_le_bytes();
        }
        let mut out: Vec<u8> = Vec::new();
        extend_bytes(&mut out, self.token_type.bytes.as_slice());
        let qty = u64_to_le_bytes(self.token_qty);
        extend_bytes(&mut out, qty.as_slice());
        extend_bytes(&mut out, self.strike_type.bytes.as_slice());
        let qty2 = u64_to_le_bytes(self.strike_qty);
        extend_bytes(&mut out, qty2.as_slice());
        out
    }

    /// The derivation seed of this descriptor: the digest of its encoding.
    pub fn get_seed(&self) -> (r: Vec<u8>)
        requires
            self.wf(),
        ensures
            r@ == sha256_of(spec_offer_bytes(self@)),
            r@.len() == 32,
    {
        let bytes = self.to_bytes();
        get_seed(bytes.as_slice())
    }

    /// A fresh copy of the same descriptor.
    pub fn dup(&self) -> (r: OfferData)
        ensures
            r@ == self@,
    {
        OfferData {
            token_type: self.token_type.dup(),
            token_qty: self.token_qty,
            strike_type: self.strike_type.dup(),
            strike_qty: self.strike_qty,
        }
    }
}

impl PartialEq for OfferData {
    fn eq(&self, other: &Self) -> (r: bool) {
        self.token_type.eq_addr(&other.token_type) && self.token_qty == other.token_qty
            && self.strike_type.eq_addr(&other.strike_type)
            && self.strike_qty == other.strike_qty
    }
}

impl vstd::std_specs::cmp::PartialEqSpecImpl for OfferData {
    open spec fn obeys_eq_spec() -> bool {
        true
    }

    open spec fn eq_spec(&self, other: &OfferData) -> bool {
        self@ == other@
    }
}

/// The mathematical value of an escrow record.
pub ghost struct EscrowRecord {
    pub offer_data: OfferTerms,
    pub seller_main: Seq<u8>,
    pub seller_temp: Seq<u8>,
    pub seller_receive: Seq<u8>,
}

/// The persisted state of one active offer: its terms and the three
/// participant accounts relevant to settlement.
#[derive(Debug)]
pub struct EscrowPDA {
    pub offer_data: OfferData,
    pub seller_main: Address,
    pub seller_temp: Address,
    pub seller_receive: Address,
}

impl View for EscrowPDA {
    type V = EscrowRecord;

    open spec fn view(&self) -> EscrowRecord {
        EscrowRecord {
            offer_data: self.offer_data@,
            seller_main: self.seller_main@,
            seller_temp: self.seller_temp@,
            seller_receive: self.seller_receive@,
        }
    }
}

/// Well-formed: every address is 32 bytes.
pub open spec fn record_wf(r: EscrowRecord) -> bool {
    &&& offer_terms_wf(r.offer_data)
    &&& r.seller_main.len() == 32
    &&& r.seller_temp.len() == 32
    &&& r.seller_receive.len() == 32
}

/// The 176-byte layout of an escrow record: the three addresses, then the
/// 80-byte offer descriptor.
pub open spec fn spec_record_bytes(r: EscrowRecord) -> Seq<u8> {
    r.seller_main + r.seller_temp + r.seller_receive + spec_offer_bytes(r.offer_data)
}

/// The record read back from a 176-byte layout.
pub open spec fn spec_parse_record(s: Seq<u8>) -> EscrowRecord
    recommends
        s.len() == 176,
{
    EscrowRecord {
        seller_main: s.subrange(0, 32),
        seller_temp: s.subrange(32, 64),
        seller_receive: s.subrange(64, 96),
        offer_data: spec_parse_offer(s.subrange(96, 176)),
    }
}

/// Encoding then decoding an escrow record gives back the same record.
pub proof fn lemma_record_round_trip(r: EscrowRecord)
    requires
        record_wf(r),
    ensures
        spec_record_bytes(r).len() == 176,
        spec_parse_record(spec_record_bytes(r)) == r,
{
    lemma_offer_round_trip(r.offer_data);
    let s = spec_record_bytes(r);
    assert(s.subrange(0, 32) =~= r.seller_main);
    assert(s.subrange(32, 64) =~= r.seller_temp);
    assert(s.subrange(64, 96) =~= r.seller_receive);
    assert(s.subrange(96, 176) =~= spec_offer_bytes(r.offer_data));
}

/// Decoding then re-encoding any 176-byte buffer reproduces it exactly.
pub proof fn lemma_record_bytes_round_trip(s: Seq<u8>)
    requires
        s.len() == 176,
    ensures
        spec_record_bytes(spec_parse_record(s)) == s,
{
    lemma_offer_bytes_round_trip(s.subrange(96, 176));
    assert(spec_record_bytes(spec_parse_record(s)) =~= s);
}

impl EscrowPDA {
    /// Well-formed: every address held by the record is 32 bytes.
    pub open spec fn wf(&self) -> bool {
        record_wf(self@)
    }

    /// Reads a record from its persisted form.  A buffer of any length other
    /// than 176 bytes is malformed input: a fatal, named rejection.
    pub fn unpack_from_slice(src: &[u8]) -> (r: Result<EscrowPDA, crate::error::EscrowError>)
        ensures
            src@.len() == 176 ==> (r matches Ok(rec) && rec@ == spec_parse_record(src@)
                && rec.wf()),
            src@.len() != 176 ==> r === Err(crate::error::EscrowError::MalformedRecord),
    {
        if src.len() != 176 {
            return Err(crate::error::EscrowError::MalformedRecord);
        }
        let seller_main = Address { bytes: copy_range(src, 0, 32) };
        let seller_temp = Address { bytes: copy_range(src, 32, 64) };
        let seller_receive = Address { bytes: copy_range(src, 64, 96) };
        let offer_data = OfferData::from_bytes(slice_subrange(src, 96, 176));
        Ok(EscrowPDA { offer_data, seller_main, seller_temp, seller_receive })
    }

    /// Writes the record in its 176-byte layout, replacing `dst`'s contents.
    pub fn pack_into_slice(&self, dst: &mut Vec<u8>)
        requires
            self.wf(),
        ensures
            final(dst)@ == spec_record_bytes(self@),
            final(dst)@.len() == 176,
    {
        proof {
            lemma_record_round_trip(self@);
        }
        dst.clear();
        extend_bytes(dst, self.seller_main.bytes.as_slice());
        extend_bytes(dst, self.seller_temp.bytes.as_slice());
        extend_bytes(dst, self.seller_receive.bytes.as_slice());
        let offer = self.offer_data.to_bytes();
        extend_bytes(dst, offer.as_slice());
    }
}

impl PartialEq for EscrowPDA {
    fn eq(&self, other: &Self) -> (r: bool) {
        self.offer_data == other.offer_data
            && self.seller_main.eq_addr(&other.seller_main)
            && self.seller_temp.eq_addr(&other.seller_temp)
            && self.seller_receive.eq_addr(&other.seller_receive)
    }
}

impl vstd::std_specs::cmp::PartialEqSpecImpl for EscrowPDA {
    open spec fn obeys_eq_spec() -> bool {
        true
    }

    open spec fn eq_spec(&self, other: &EscrowPDA) -> bool {
        self@ == other@
    }
}

/// What the digest of a byte string is.  The digest depends on the input
/// bytes alone, so re-derivation at Accept or Cancel time reproduces the seed
/// computed at Create time.
pub uninterp spec fn sha256_of(data: Seq<u8>) -> Seq<u8>;

/// The derivation seed of an encoded offer descriptor.
///
/// Relies on `sha2::Sha256` (via the `Digest` trait): the 32-byte SHA-256
/// digest of the input, a pure function of the input bytes.
#[verifier::external_body]
pub fn get_seed(bytes: &[u8]) -> (r: Vec<u8>)
    ensures
        r@ == sha256_of(bytes@),
        r@.len() == 32,
{
    <sha2::Sha256 as sha2::Digest>::digest(bytes).to_vec()
}

} // verus!
