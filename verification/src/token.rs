//! The ledger-native non-fungible-token record and its exact wire codec.
//!
//! Every field keeps its raw wire representation: the flag word and the
//! scrambled taxon are carried verbatim, the token identifier and the URI
//! stay in their hexadecimal string form with casing and leading zeros
//! untouched, and an absent URI is kept distinct from an empty one.

use vstd::prelude::*;

use crate::error::DecodeError;
use crate::wire::Field;
use crate::wire::WireEntry;
use crate::wire::WireEntryView;
use crate::wire::WireObject;
use crate::wire::WireValue;
use crate::wire::WireValueView;
use crate::wire::entry_views;
use crate::wire::has_field;
use crate::wire::keys_unique;
use crate::wire::lemma_lookup_absent;
use crate::wire::lemma_lookup_present;
use crate::wire::spec_optional_text;
use crate::wire::spec_require_num;
use crate::wire::spec_require_text;

verus! {

/// One non-fungible token entry as the ledger stores it.
#[derive(Clone, Debug)]
pub struct NFToken {
    /// A bit-map of boolean flags enabled for this token; its semantics
    /// belong to the ledger protocol, this layer only round-trips it.
    pub flags: u32,
    /// The account that issued this token.
    pub issuer: String,
    /// The unique identifier of this token, in hexadecimal: its natural key.
    pub nftoken_id: String,
    /// The token's taxon as transmitted, in its scrambled form; this layer
    /// preserves it verbatim and never descrambles it.
    pub nftoken_taxon: u32,
    /// The URI data of this token, in hexadecimal. Absence is semantically
    /// distinct from an empty value.
    pub uri: Option<String>,
    /// The token sequence number, unique only within its issuer's namespace.
    pub nft_serial: u32,
}

/// The mathematical shape of an [`NFToken`].
pub struct NFTokenView {
    pub flags: u32,
    pub issuer: Seq<char>,
    pub nftoken_id: Seq<char>,
    pub nftoken_taxon: u32,
    pub uri: Option<Seq<char>>,
    pub nft_serial: u32,
}

impl View for NFToken {
    type V = NFTokenView;

    open spec fn view(&self) -> NFTokenView {
        NFTokenView {
            flags: self.flags,
            issuer: self.issuer@,
            nftoken_id: self.nftoken_id@,
            nftoken_taxon: self.nftoken_taxon,
            uri: match &self.uri {
                Option::Some(u) => Option::Some(u@),
                Option::None => Option::None,
            },
            nft_serial: self.nft_serial,
        }
    }
}

/// The record object a token encodes to, field by field in wire order; the
/// `URI` field is written only when the token has one.
pub open spec fn spec_encode_nftoken(t: NFTokenView) -> Seq<WireEntryView> {
    match t.uri {
        Option::Some(u) => seq![
            WireEntryView { key: Field::Flags, value: WireValueView::Num(t.flags) },
            WireEntryView { key: Field::Issuer, value: WireValueView::Text(t.issuer) },
            WireEntryView { key: Field::NftokenId, value: WireValueView::Text(t.nftoken_id) },
            WireEntryView { key: Field::NftokenTaxon, value: WireValueView::Num(t.nftoken_taxon) },
            WireEntryView { key: Field::Uri, value: WireValueView::Text(u) },
            WireEntryView { key: Field::NftSerial, value: WireValueView::Num(t.nft_serial) },
        ],
        Option::None => seq![
            WireEntryView { key: Field::Flags, value: WireValueView::Num(t.flags) },
            WireEntryView { key: Field::Issuer, value: WireValueView::Text(t.issuer) },
            WireEntryView { key: Field::NftokenId, value: WireValueView::Text(t.nftoken_id) },
            WireEntryView { key: Field::NftokenTaxon, value: WireValueView::Num(t.nftoken_taxon) },
            WireEntryView { key: Field::NftSerial, value: WireValueView::Num(t.nft_serial) },
        ],
    }
}

/// What decoding a record object yields: a token whose required fields were
/// all present and well-typed, or the first decode error in wire field
/// order. No required field is ever substituted by a placeholder.
pub open spec fn spec_decode_nftoken(entries: Seq<WireEntryView>) -> Result<
    NFTokenView,
    DecodeError,
> {
    match spec_require_num(entries, Field::Flags) {
        Result::Err(e) => Result::Err(e),
        Result::Ok(flags) => match spec_require_text(entries, Field::Issuer) {
            Result::Err(e) => Result::Err(e),
            Result::Ok(issuer) => match spec_require_text(entries, Field::NftokenId) {
                Result::Err(e) => Result::Err(e),
                Result::Ok(nftoken_id) => match spec_require_num(entries, Field::NftokenTaxon) {
                    Result::Err(e) => Result::Err(e),
                    Result::Ok(nftoken_taxon) => match spec_optional_text(entries, Field::Uri) {
                        Result::Err(e) => Result::Err(e),
                        Result::Ok(uri) => match spec_require_num(entries, Field::NftSerial) {
                            Result::Err(e) => Result::Err(e),
                            Result::Ok(nft_serial) => Result::Ok(
                                NFTokenView {
                                    flags,
                                    issuer,
                                    nftoken_id,
                                    nftoken_taxon,
                                    uri,
                                    nft_serial,
                                },
                            ),
                        },
                    },
                },
            },
        },
    }
}

impl NFToken {
    /// Encode this token into its wire record object.
    pub fn encode(&self) -> (o: WireObject)
        ensures
            o@ == spec_encode_nftoken(self@),
    {
        let mut entries: Vec<WireEntry> = Vec::new();
        entries.push(WireEntry { key: Field::Flags, value: WireValue::Num(self.flags) });
        entries.push(
            WireEntry { key: Field::Issuer, value: WireValue::Text(self.issuer.clone()) },
        );
        entries.push(
            WireEntry { key: Field::NftokenId, value: WireValue::Text(self.nftoken_id.clone()) },
        );
        entries.push(
            WireEntry { key: Field::NftokenTaxon, value: WireValue::Num(self.nftoken_taxon) },
        );
        if let Option::Some(u) = &self.uri {
            entries.push(WireEntry { key: Field::Uri, value: WireValue::Text(u.clone()) });
        }
        entries.push(WireEntry { key: Field::NftSerial, value: WireValue::Num(self.nft_serial) });
        let o = WireObject { entries };
        proof {
            assert(o@ =~= spec_encode_nftoken(self@));
        }
        o
    }

    /// Decode a token from a wire record object.
    pub fn decode(obj: &WireObject) -> (r: Result<NFToken, DecodeError>)
        ensures
            match r {
                Result::Ok(t) => spec_decode_nftoken(obj@) == Result::<
                    NFTokenView,
                    DecodeError,
                >::Ok(t@),
                Result::Err(e) => spec_decode_nftoken(obj@) == Result::<
                    NFTokenView,
                    DecodeError,
                >::Err(e),
            },
    {
        let flags = match obj.require_num(Field::Flags) {
            Result::Ok(v) => v,
            Result::Err(e) => {
                return Err(e);
            },
        };
        let issuer = match obj.require_text(Field::Issuer) {
            Result::Ok(v) => v,
            Result::Err(e) => {
                return Err(e);
            },
        };
        let nftoken_id = match obj.require_text(Field::NftokenId) {
            Result::Ok(v) => v,
            Result::Err(e) => {
                return Err(e);
            },
        };
        let nftoken_taxon = match obj.require_num(Field::NftokenTaxon) {
            Result::Ok(v) => v,
            Result::Err(e) => {
                return Err(e);
            },
        };
        let uri = match obj.optional_text(Field::Uri) {
            Result::Ok(v) => v,
            Result::Err(e) => {
                return Err(e);
            },
        };
        let nft_serial = match obj.require_num(Field::NftSerial) {
            Result::Ok(v) => v,
            Result::Err(e) => {
                return Err(e);
            },
        };
        Ok(NFToken { flags, issuer, nftoken_id, nftoken_taxon, uri, nft_serial })
    }
}

/// The encoded record never holds two fields of the same name.
pub proof fn lemma_encode_nftoken_keys_unique(t: NFTokenView)
    ensures
        keys_unique(spec_encode_nftoken(t)),
{
}

/// A record object without its `NFTokenID` — whatever else it holds, as long
/// as the fields read before it are well-typed — fails decoding with the
/// error naming exactly that field; no token with a placeholder identifier
/// is ever produced.
pub proof fn lemma_missing_token_id_fails(entries: Seq<WireEntryView>)
    requires
        spec_require_num(entries, Field::Flags) is Ok,
        spec_require_text(entries, Field::Issuer) is Ok,
        !has_field(entries, Field::NftokenId),
    ensures
        spec_decode_nftoken(entries) == Result::<NFTokenView, DecodeError>::Err(
            DecodeError::MissingField(Field::NftokenId),
        ),
{
}

/// Round-trip fidelity: decoding an encoded token yields the identical
/// token — every field byte for byte, the hexadecimal casing of its
/// identifier included, and an absent URI stays distinct from an empty one.
pub proof fn lemma_nftoken_round_trip(t: NFTokenView)
    ensures
        spec_decode_nftoken(spec_encode_nftoken(t)) == Result::<NFTokenView, DecodeError>::Ok(t),
{
    let e = spec_encode_nftoken(t);
    lemma_lookup_present(e, Field::Flags, 0);
    lemma_lookup_present(e, Field::Issuer, 1);
    lemma_lookup_present(e, Field::NftokenId, 2);
    lemma_lookup_present(e, Field::NftokenTaxon, 3);
    match t.uri {
        Option::Some(u) => {
            lemma_lookup_present(e, Field::Uri, 4);
            lemma_lookup_present(e, Field::NftSerial, 5);
        },
        Option::None => {
            lemma_lookup_absent(e, Field::Uri);
            lemma_lookup_present(e, Field::NftSerial, 4);
        },
    }
}

} // verus!
