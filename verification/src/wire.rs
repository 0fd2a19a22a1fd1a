//! The flat wire model shared by every ledger-read query.
//!
//! The node speaks a flat JSON-RPC convention: a request body is a single
//! top-level object of scalar fields, and a response body is a top-level
//! object of scalar fields plus arrays of record objects. Field names use a
//! non-uniform mix of capitalized and lower-case spellings, so they are kept
//! in an explicit per-field table rather than derived by a case rule.

use vstd::prelude::*;

use crate::error::DecodeError;

verus! {

/// Internal identifier for each wire field this layer reads or writes.
///
/// The wire spelling of each field lives in [`spec_wire_name`] and
/// [`Field::wire_name`]; nothing derives a spelling from the variant name.
#[derive(Clone, Copy, Debug, PartialEq, Eq, Structural)]
pub enum Field {
    Account,
    LedgerIndex,
    LedgerHash,
    Validated,
    Marker,
    Limit,
    AccountNfts,
    Flags,
    Issuer,
    NftokenId,
    NftokenTaxon,
    Uri,
    NftSerial,
}

/// The exact wire spelling of each field, mixed casing preserved verbatim.
pub open spec fn spec_wire_name(f: Field) -> Seq<char> {
    match f {
        Field::Account => "account"@,
        Field::LedgerIndex => "ledger_index"@,
        Field::LedgerHash => "ledger_hash"@,
        Field::Validated => "validated"@,
        Field::Marker => "marker"@,
        Field::Limit => "limit"@,
        Field::AccountNfts => "account_nfts"@,
        Field::Flags => "Flags"@,
        Field::Issuer => "Issuer"@,
        Field::NftokenId => "NFTokenID"@,
        Field::NftokenTaxon => "NFTokenTaxon"@,
        Field::Uri => "URI"@,
        Field::NftSerial => "nft_serial"@,
    }
}

impl Field {
    /// The wire spelling of this field.
    pub fn wire_name(self) -> (r: String)
        ensures
            r@ == spec_wire_name(self),
    {
        match self {
            Field::Account => "account".to_owned(),
            Field::LedgerIndex => "ledger_index".to_owned(),
            Field::LedgerHash => "ledger_hash".to_owned(),
            Field::Validated => "validated".to_owned(),
            Field::Marker => "marker".to_owned(),
            Field::Limit => "limit".to_owned(),
            Field::AccountNfts => "account_nfts".to_owned(),
            Field::Flags => "Flags".to_owned(),
            Field::Issuer => "Issuer".to_owned(),
            Field::NftokenId => "NFTokenID".to_owned(),
            Field::NftokenTaxon => "NFTokenTaxon".to_owned(),
            Field::Uri => "URI".to_owned(),
            Field::NftSerial => "nft_serial".to_owned(),
        }
    }
}

/// Distinct fields never share a wire spelling, so flattening several
/// components into one body can never silently overwrite a field of another.
pub proof fn lemma_wire_names_injective(f1: Field, f2: Field)
    requires
        f1 != f2,
    ensures
        spec_wire_name(f1) != spec_wire_name(f2),
{
    broadcast use vstd::string::group_string_axioms;

    reveal_strlit("account");
    reveal_strlit("ledger_index");
    reveal_strlit("ledger_hash");
    reveal_strlit("validated");
    reveal_strlit("marker");
    reveal_strlit("limit");
    reveal_strlit("account_nfts");
    reveal_strlit("Flags");
    reveal_strlit("Issuer");
    reveal_strlit("NFTokenID");
    reveal_strlit("NFTokenTaxon");
    reveal_strlit("URI");
    reveal_strlit("nft_serial");
    // Any two distinct names differ in length or in their first character.
    assert(spec_wire_name(f1).len() != spec_wire_name(f2).len() || spec_wire_name(f1)[0]
        != spec_wire_name(f2)[0]);
}

/// A scalar wire value: the only value shapes the flat bodies of this layer
/// carry. Hex-encoded data stays in its string form so that re-serialization
/// reproduces the original bytes, casing and leading zeros included.
#[derive(Clone, Debug)]
pub enum WireValue {
    Num(u32),
    Text(String),
    Flag(bool),
}

/// The mathematical shape of a [`WireValue`]: text becomes its character
/// sequence.
pub enum WireValueView {
    Num(u32),
    Text(Seq<char>),
    Flag(bool),
}

impl View for WireValue {
    type V = WireValueView;

    open spec fn view(&self) -> WireValueView {
        match self {
            WireValue::Num(n) => WireValueView::Num(*n),
            WireValue::Text(s) => WireValueView::Text(s@),
            WireValue::Flag(b) => WireValueView::Flag(*b),
        }
    }
}

/// One named scalar field of a flat body.
#[derive(Clone, Debug)]
pub struct WireEntry {
    pub key: Field,
    pub value: WireValue,
}

/// The mathematical shape of a [`WireEntry`].
pub struct WireEntryView {
    pub key: Field,
    pub value: WireValueView,
}

impl View for WireEntry {
    type V = WireEntryView;

    open spec fn view(&self) -> WireEntryView {
        WireEntryView { key: self.key, value: self.value@ }
    }
}

/// The views of a sequence of entries, element by element.
pub open spec fn entry_views(s: Seq<WireEntry>) -> Seq<WireEntryView> {
    s.map(|i: int, e: WireEntry| e@)
}

/// A flat object of scalar fields: the body of a request, or one record
/// object inside a response.
#[derive(Clone, Debug)]
pub struct WireObject {
    pub entries: Vec<WireEntry>,
}

impl View for WireObject {
    type V = Seq<WireEntryView>;

    open spec fn view(&self) -> Seq<WireEntryView> {
        entry_views(self.entries@)
    }
}

/// The value of the first entry named `f`, if any.
pub open spec fn lookup(entries: Seq<WireEntryView>, f: Field) -> Option<WireValueView>
    decreases entries.len(),
{
    if entries.len() == 0 {
        None
    } else if entries[0].key == f {
        Some(entries[0].value)
    } else {
        lookup(entries.drop_first(), f)
    }
}

/// Whether an entry named `f` is present.
pub open spec fn has_field(entries: Seq<WireEntryView>, f: Field) -> bool {
    lookup(entries, f) is Some
}

/// No two entries share a key, so every lookup is unambiguous.
pub open spec fn keys_unique(entries: Seq<WireEntryView>) -> bool {
    forall|i: int, j: int|
        0 <= i < j < entries.len() ==> entries[i].key != entries[j].key
}

/// A lookup that skipped a non-matching head inspects the tail.
proof fn lemma_lookup_step(entries: Seq<WireEntryView>, f: Field, i: int)
    requires
        0 <= i < entries.len(),
        entries[i].key != f,
        lookup(entries, f) == lookup(entries.skip(i), f),
    ensures
        lookup(entries, f) == lookup(entries.skip(i + 1), f),
{
    assert(entries.skip(i)[0] == entries[i]);
    assert(entries.skip(i).drop_first() =~= entries.skip(i + 1));
}

/// When entry `i` is the first one named `f`, the lookup finds it.
pub proof fn lemma_lookup_present(entries: Seq<WireEntryView>, f: Field, i: int)
    requires
        0 <= i < entries.len(),
        entries[i].key == f,
        forall|j: int| 0 <= j < i ==> entries[j].key != f,
    ensures
        lookup(entries, f) == Some(entries[i].value),
    decreases i,
{
    if i > 0 {
        assert forall|j: int| 0 <= j < i - 1 implies entries.drop_first()[j].key != f by {
            assert(entries.drop_first()[j] == entries[j + 1]);
        }
        assert(entries.drop_first()[i - 1] == entries[i]);
        lemma_lookup_present(entries.drop_first(), f, i - 1);
    }
}

/// When no entry is named `f`, the lookup comes back empty.
pub proof fn lemma_lookup_absent(entries: Seq<WireEntryView>, f: Field)
    requires
        forall|j: int| 0 <= j < entries.len() ==> entries[j].key != f,
    ensures
        lookup(entries, f) is None,
    decreases entries.len(),
{
    if entries.len() > 0 {
        assert forall|j: int| 0 <= j < entries.drop_first().len() implies entries.drop_first()[j].key
            != f by {
            assert(entries.drop_first()[j] == entries[j + 1]);
        }
        lemma_lookup_absent(entries.drop_first(), f);
    }
}

/// A required numeric field: its value, or the decode error naming it.
pub open spec fn spec_require_num(entries: Seq<WireEntryView>, f: Field) -> Result<
    u32,
    DecodeError,
> {
    match lookup(entries, f) {
        Option::None => Result::Err(DecodeError::MissingField(f)),
        Option::Some(v) => match v {
            WireValueView::Num(n) => Result::Ok(n),
            _ => Result::Err(DecodeError::WrongType(f)),
        },
    }
}

/// A required text field: its characters, or the decode error naming it.
pub open spec fn spec_require_text(entries: Seq<WireEntryView>, f: Field) -> Result<
    Seq<char>,
    DecodeError,
> {
    match lookup(entries, f) {
        Option::None => Result::Err(DecodeError::MissingField(f)),
        Option::Some(v) => match v {
            WireValueView::Text(s) => Result::Ok(s),
            _ => Result::Err(DecodeError::WrongType(f)),
        },
    }
}

/// An optional text field: absence is a legitimate outcome, never an error;
/// presence with a non-text value is a wrong-type error.
pub open spec fn spec_optional_text(entries: Seq<WireEntryView>, f: Field) -> Result<
    Option<Seq<char>>,
    DecodeError,
> {
    match lookup(entries, f) {
        Option::None => Result::Ok(Option::None),
        Option::Some(v) => match v {
            WireValueView::Text(s) => Result::Ok(Option::Some(s)),
            _ => Result::Err(DecodeError::WrongType(f)),
        },
    }
}

impl WireObject {
    /// A reference to the value of the first entry named `f`, if any.
    pub fn get(&self, f: Field) -> (r: Option<&WireValue>)
        ensures
            match r {
                Option::Some(v) => lookup(self@, f) == Some(v@),
                Option::None => lookup(self@, f) is None,
            },
    {
        let n: usize = self.entries.len();
        let mut i: usize = 0;
        proof {
            assert(self@.skip(0) =~= self@);
        }
        while i < n
            invariant
                n == self.entries.len(),
                0 <= i <= n,
                lookup(self@, f) == lookup(self@.skip(i as int), f),
            decreases n - i,
        {
            if self.entries[i].key == f {
                return Some(&self.entries[i].value);
            }
            proof {
                lemma_lookup_step(self@, f, i as int);
            }
            i += 1;
        }
        proof {
            assert(self@.skip(n as int) =~= Seq::<WireEntryView>::empty());
        }
        None
    }

    /// Read a required numeric field.
    pub fn require_num(&self, f: Field) -> (r: Result<u32, DecodeError>)
        ensures
            r == spec_require_num(self@, f),
    {
        match self.get(f) {
            Option::None => Err(DecodeError::MissingField(f)),
            Option::Some(WireValue::Num(n)) => Ok(*n),
            Option::Some(_) => Err(DecodeError::WrongType(f)),
        }
    }

    /// Read a required text field; the returned string is an exact copy.
    pub fn require_text(&self, f: Field) -> (r: Result<String, DecodeError>)
        ensures
            match r {
                Result::Ok(s) => spec_require_text(self@, f) == Result::<
                    Seq<char>,
                    DecodeError,
                >::Ok(s@),
                Result::Err(e) => spec_require_text(self@, f) == Result::<
                    Seq<char>,
                    DecodeError,
                >::Err(e),
            },
    {
        match self.get(f) {
            Option::None => Err(DecodeError::MissingField(f)),
            Option::Some(WireValue::Text(s)) => Ok(s.clone()),
            Option::Some(_) => Err(DecodeError::WrongType(f)),
        }
    }

    /// Read an optional text field; absence yields `None`, never an error.
    pub fn optional_text(&self, f: Field) -> (r: Result<Option<String>, DecodeError>)
        ensures
            match r {
                Result::Ok(Option::Some(s)) => spec_optional_text(self@, f) == Result::<
                    Option<Seq<char>>,
                    DecodeError,
                >::Ok(Some(s@)),
                Result::Ok(Option::None) => spec_optional_text(self@, f) == Result::<
                    Option<Seq<char>>,
                    DecodeError,
                >::Ok(None),
                Result::Err(e) => spec_optional_text(self@, f) == Result::<
                    Option<Seq<char>>,
                    DecodeError,
                >::Err(e),
            },
    {
        match self.get(f) {
            Option::None => Ok(None),
            Option::Some(WireValue::Text(s)) => Ok(Some(s.clone())),
            Option::Some(_) => Err(DecodeError::WrongType(f)),
        }
    }
}

} // verus!

