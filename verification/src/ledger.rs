//! Pinning a query to a ledger version, and reading back which version the
//! node actually used.
//!
//! The request side is a closed choice — shortcut, explicit index, or
//! explicit hash — so a conflicting combination is unrepresentable and no
//! precedence order ever has to be guessed at serialization time. The chosen
//! variant's field is flattened into the top level of the enclosing request
//! body, matching the node's flat JSON-RPC convention.

use vstd::prelude::*;

use crate::body::BodyEntryView;
use crate::body::ResponseBody;
use crate::body::spec_body_optional_flag;
use crate::body::spec_body_optional_num;
use crate::body::spec_body_optional_text;
use crate::error::DecodeError;
use crate::wire::Field;
use crate::wire::WireEntry;
use crate::wire::WireEntryView;
use crate::wire::WireValue;
use crate::wire::WireValueView;
use crate::wire::entry_views;
use crate::wire::has_field;
use crate::wire::keys_unique;
use crate::wire::lookup;

verus! {

/// A symbolic reference to a well-known ledger state.
#[derive(Clone, Copy, Debug, PartialEq, Eq, Structural)]
pub enum LedgerShortcut {
    Validated,
    Closed,
    Current,
}

/// The wire spelling of each shortcut.
pub open spec fn spec_shortcut_text(s: LedgerShortcut) -> Seq<char> {
    match s {
        LedgerShortcut::Validated => "validated"@,
        LedgerShortcut::Closed => "closed"@,
        LedgerShortcut::Current => "current"@,
    }
}

impl LedgerShortcut {
    /// The wire spelling of this shortcut.
    pub fn wire_text(self) -> (r: String)
        ensures
            r@ == spec_shortcut_text(self),
    {
        match self {
            LedgerShortcut::Validated => "validated".to_owned(),
            LedgerShortcut::Closed => "closed".to_owned(),
            LedgerShortcut::Current => "current".to_owned(),
        }
    }
}

/// How a request pins the ledger version it reads from. At most one way is
/// ever chosen; leaving it unspecified lets the node pick a shortcut of its
/// own.
#[derive(Clone, Debug)]
pub enum RetrieveLedgerSpec {
    Unspecified,
    Shortcut(LedgerShortcut),
    Index(u32),
    Hash(String),
}

/// The mathematical shape of a [`RetrieveLedgerSpec`].
pub enum RetrieveLedgerSpecView {
    Unspecified,
    Shortcut(LedgerShortcut),
    Index(u32),
    Hash(Seq<char>),
}

impl View for RetrieveLedgerSpec {
    type V = RetrieveLedgerSpecView;

    open spec fn view(&self) -> RetrieveLedgerSpecView {
        match self {
            RetrieveLedgerSpec::Unspecified => RetrieveLedgerSpecView::Unspecified,
            RetrieveLedgerSpec::Shortcut(s) => RetrieveLedgerSpecView::Shortcut(*s),
            RetrieveLedgerSpec::Index(i) => RetrieveLedgerSpecView::Index(*i),
            RetrieveLedgerSpec::Hash(h) => RetrieveLedgerSpecView::Hash(h@),
        }
    }
}

impl Default for RetrieveLedgerSpec {
    /// The default pin is no pin at all.
    fn default() -> (r: RetrieveLedgerSpec)
        ensures
            r@ == RetrieveLedgerSpecView::Unspecified,
    {
        RetrieveLedgerSpec::Unspecified
    }
}

/// The top-level fields a ledger pin flattens into the request body: the
/// shortcut and the explicit index share the `ledger_index` field (text for
/// the one, number for the other), the hash goes to `ledger_hash`, and an
/// unspecified pin contributes nothing.
pub open spec fn spec_ledger_spec_fields(s: RetrieveLedgerSpecView) -> Seq<WireEntryView> {
    match s {
        RetrieveLedgerSpecView::Unspecified => Seq::empty(),
        RetrieveLedgerSpecView::Shortcut(sc) => seq![
            WireEntryView {
                key: Field::LedgerIndex,
                value: WireValueView::Text(spec_shortcut_text(sc)),
            },
        ],
        RetrieveLedgerSpecView::Index(i) => seq![
            WireEntryView { key: Field::LedgerIndex, value: WireValueView::Num(i) },
        ],
        RetrieveLedgerSpecView::Hash(h) => seq![
            WireEntryView { key: Field::LedgerHash, value: WireValueView::Text(h) },
        ],
    }
}

impl RetrieveLedgerSpec {
    /// Serialize this pin into the fields it flattens into the request body.
    pub fn encode_fields(&self) -> (r: Vec<WireEntry>)
        ensures
            entry_views(r@) == spec_ledger_spec_fields(self@),
    {
        let r: Vec<WireEntry> = match self {
            RetrieveLedgerSpec::Unspecified => Vec::new(),
            RetrieveLedgerSpec::Shortcut(sc) => vec![
                WireEntry { key: Field::LedgerIndex, value: WireValue::Text(sc.wire_text()) },
            ],
            RetrieveLedgerSpec::Index(i) => vec![
                WireEntry { key: Field::LedgerIndex, value: WireValue::Num(*i) },
            ],
            RetrieveLedgerSpec::Hash(h) => vec![
                WireEntry { key: Field::LedgerHash, value: WireValue::Text(h.clone()) },
            ],
        };
        proof {
            assert(entry_views(r@) =~= spec_ledger_spec_fields(self@));
        }
        r
    }
}

/// Ledger-pin exclusivity: whichever variant is chosen, the flattened fields
/// hold exactly that variant's field and none of the others — never both
/// `ledger_index` and `ledger_hash`, and nothing at all for an unspecified
/// pin. The fields of a pin also never collide among themselves.
pub proof fn lemma_ledger_spec_exclusive(s: RetrieveLedgerSpecView)
    ensures
        keys_unique(spec_ledger_spec_fields(s)),
        match s {
            RetrieveLedgerSpecView::Unspecified => spec_ledger_spec_fields(s).len() == 0,
            RetrieveLedgerSpecView::Shortcut(sc) => spec_ledger_spec_fields(s).len() == 1 && lookup(
                spec_ledger_spec_fields(s),
                Field::LedgerIndex,
            ) == Some(WireValueView::Text(spec_shortcut_text(sc))) && !has_field(
                spec_ledger_spec_fields(s),
                Field::LedgerHash,
            ),
            RetrieveLedgerSpecView::Index(i) => spec_ledger_spec_fields(s).len() == 1 && lookup(
                spec_ledger_spec_fields(s),
                Field::LedgerIndex,
            ) == Some(WireValueView::Num(i)) && !has_field(
                spec_ledger_spec_fields(s),
                Field::LedgerHash,
            ),
            RetrieveLedgerSpecView::Hash(h) => spec_ledger_spec_fields(s).len() == 1 && lookup(
                spec_ledger_spec_fields(s),
                Field::LedgerHash,
            ) == Some(WireValueView::Text(h)) && !has_field(
                spec_ledger_spec_fields(s),
                Field::LedgerIndex,
            ),
        },
{
    reveal_with_fuel(lookup, 3);
}

/// The node's echo of which ledger version actually answered the query: an
/// index, a hash, and whether that ledger is fully validated. Each part is
/// echoed only when the node sent it. Read-only; built only by decoding.
#[derive(Clone, Debug)]
pub struct ReturnLedgerSpec {
    pub ledger_index: Option<u32>,
    pub ledger_hash: Option<String>,
    pub validated: Option<bool>,
}

/// The mathematical shape of a [`ReturnLedgerSpec`].
pub struct ReturnLedgerSpecView {
    pub ledger_index: Option<u32>,
    pub ledger_hash: Option<Seq<char>>,
    pub validated: Option<bool>,
}

impl View for ReturnLedgerSpec {
    type V = ReturnLedgerSpecView;

    open spec fn view(&self) -> ReturnLedgerSpecView {
        ReturnLedgerSpecView {
            ledger_index: self.ledger_index,
            ledger_hash: match &self.ledger_hash {
                Option::Some(h) => Option::Some(h@),
                Option::None => Option::None,
            },
            validated: self.validated,
        }
    }
}

/// What decoding the ledger echo of a response body yields: whichever of
/// `ledger_index`, `ledger_hash` and `validated` the node sent, each absent
/// when missing; a present field of the wrong wire type is a decode error.
pub open spec fn spec_decode_return_ledger_spec(entries: Seq<BodyEntryView>) -> Result<
    ReturnLedgerSpecView,
    DecodeError,
> {
    match spec_body_optional_num(entries, Field::LedgerIndex) {
        Result::Err(e) => Result::Err(e),
        Result::Ok(ledger_index) => match spec_body_optional_text(entries, Field::LedgerHash) {
            Result::Err(e) => Result::Err(e),
            Result::Ok(ledger_hash) => match spec_body_optional_flag(entries, Field::Validated) {
                Result::Err(e) => Result::Err(e),
                Result::Ok(validated) => Result::Ok(
                    ReturnLedgerSpecView { ledger_index, ledger_hash, validated },
                ),
            },
        },
    }
}

/// Decode the ledger echo flattened into a response body.
pub fn decode_return_ledger_spec(body: &ResponseBody) -> (r: Result<
    ReturnLedgerSpec,
    DecodeError,
>)
    ensures
        match r {
            Result::Ok(ls) => spec_decode_return_ledger_spec(body@) == Result::<
                ReturnLedgerSpecView,
                DecodeError,
            >::Ok(ls@),
            Result::Err(e) => spec_decode_return_ledger_spec(body@) == Result::<
                ReturnLedgerSpecView,
                DecodeError,
            >::Err(e),
        },
{
    let ledger_index = match body.optional_num(Field::LedgerIndex) {
        Result::Ok(v) => v,
        Result::Err(e) => {
            return Err(e);
        },
    };
    let ledger_hash = match body.optional_text(Field::LedgerHash) {
        Result::Ok(v) => v,
        Result::Err(e) => {
            return Err(e);
        },
    };
    let validated = match body.optional_flag(Field::Validated) {
        Result::Ok(v) => v,
        Result::Err(e) => {
            return Err(e);
        },
    };
    Ok(ReturnLedgerSpec { ledger_index, ledger_hash, validated })
}

} // verus!
