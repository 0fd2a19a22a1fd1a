//! The account-NFT enumeration query: the worked example composing the
//! shared shaping machinery — a ledger pin, a cursor, and exact decoding of
//! token records out of the node's response body.

use vstd::prelude::*;

use crate::body::BodyEntryView;
use crate::body::ResponseBody;
use crate::body::object_views;
use crate::body::spec_body_require_array;
use crate::error::DecodeError;
use crate::ledger::RetrieveLedgerSpec;
use crate::ledger::RetrieveLedgerSpecView;
use crate::ledger::ReturnLedgerSpec;
use crate::ledger::ReturnLedgerSpecView;
use crate::ledger::spec_decode_return_ledger_spec;
use crate::ledger::spec_ledger_spec_fields;
use crate::ledger::decode_return_ledger_spec;
use crate::pagination::RequestPagination;
use crate::pagination::RequestPaginationView;
use crate::pagination::ResponsePagination;
use crate::pagination::ResponsePaginationView;
use crate::pagination::decode_response_pagination;
use crate::pagination::spec_decode_response_pagination;
use crate::pagination::spec_request_pagination_fields;
use crate::request::Request;
use crate::request::WithLedgerSpec;
use crate::request::WithRequestPagination;
use crate::request::WithResponsePagination;
use crate::token::NFToken;
use crate::token::NFTokenView;
use crate::token::spec_decode_nftoken;
use crate::wire::Field;
use crate::wire::WireEntry;
use crate::wire::WireEntryView;
use crate::wire::WireObject;
use crate::wire::WireValue;
use crate::wire::WireValueView;
use crate::wire::entry_views;
use crate::wire::keys_unique;
use crate::wire::lemma_lookup_present;
use crate::wire::lookup;

verus! {

/// A request for the list of tokens owned by one account, pinned to a ledger
/// version and resumable through the cursor.
#[derive(Clone, Debug)]
pub struct AccountNftsRequest {
    /// The unique identifier of an account, typically the account's address.
    /// The request returns the list of tokens owned by this account.
    pub account: String,
    pub ledger_spec: RetrieveLedgerSpec,
    pub pagination: RequestPagination,
}

/// The mathematical shape of an [`AccountNftsRequest`].
pub struct AccountNftsRequestView {
    pub account: Seq<char>,
    pub ledger_spec: RetrieveLedgerSpecView,
    pub pagination: RequestPaginationView,
}

impl View for AccountNftsRequest {
    type V = AccountNftsRequestView;

    open spec fn view(&self) -> AccountNftsRequestView {
        AccountNftsRequestView {
            account: self.account@,
            ledger_spec: self.ledger_spec@,
            pagination: self.pagination@,
        }
    }
}

/// The top-level body this request serializes to: the method-specific
/// `account` field merged with the flattened ledger-pin and cursor fields.
pub open spec fn spec_account_nfts_request_fields(r: AccountNftsRequestView) -> Seq<
    WireEntryView,
> {
    seq![WireEntryView { key: Field::Account, value: WireValueView::Text(r.account) }]
        + spec_ledger_spec_fields(r.ledger_spec) + spec_request_pagination_fields(r.pagination)
}

impl AccountNftsRequest {
    /// A fresh request for `account`: no ledger pin and no cursor yet.
    pub fn new(account: &str) -> (r: AccountNftsRequest)
        ensures
            r@.account == account@,
            r@.ledger_spec is Unspecified,
            r@.pagination.marker is None,
            r@.pagination.limit is None,
    {
        AccountNftsRequest {
            account: account.to_owned(),
            ledger_spec: RetrieveLedgerSpec::default(),
            pagination: RequestPagination::default(),
        }
    }
}

impl Request for AccountNftsRequest {
    type Response = AccountNftsResponse;

    open spec fn spec_method(&self) -> Seq<char> {
        "account_nfts"@
    }

    open spec fn spec_body(&self) -> Seq<WireEntryView> {
        spec_account_nfts_request_fields(self@)
    }

    fn method(&self) -> (r: String) {
        "account_nfts".to_owned()
    }

    fn body(&self) -> (r: WireObject) {
        let mut entries: Vec<WireEntry> = Vec::new();
        entries.push(
            WireEntry { key: Field::Account, value: WireValue::Text(self.account.clone()) },
        );
        let mut ledger_fields = self.ledger_spec.encode_fields();
        let mut pagination_fields = self.pagination.encode_fields();
        proof {
            assert(entry_views(entries@) =~= seq![
                WireEntryView { key: Field::Account, value: WireValueView::Text(self@.account) },
            ]);
        }
        let ghost lf = ledger_fields@;
        let ghost pf = pagination_fields@;
        entries.append(&mut ledger_fields);
        entries.append(&mut pagination_fields);
        let r = WireObject { entries };
        proof {
            assert(r@ =~= spec_account_nfts_request_fields(self@)) by {
                assert forall|i: int| 0 <= i < lf.len() implies entry_views(lf)[i] == lf[i]@ by {}
                assert forall|i: int| 0 <= i < pf.len() implies entry_views(pf)[i] == pf[i]@ by {}
            }
        }
        r
    }
}

impl WithLedgerSpec for AccountNftsRequest {
    open spec fn spec_ledger_spec(&self) -> RetrieveLedgerSpec {
        self.ledger_spec
    }

    open spec fn with_ledger_spec(self, s: RetrieveLedgerSpec) -> AccountNftsRequest {
        AccountNftsRequest { ledger_spec: s, ..self }
    }

    fn as_ledger_spec(&self) -> (r: &RetrieveLedgerSpec) {
        &self.ledger_spec
    }

    fn as_ledger_spec_mut(&mut self) -> (r: &mut RetrieveLedgerSpec) {
        &mut self.ledger_spec
    }
}

impl WithRequestPagination for AccountNftsRequest {
    open spec fn spec_pagination(&self) -> RequestPagination {
        self.pagination
    }

    open spec fn with_pagination(self, p: RequestPagination) -> AccountNftsRequest {
        AccountNftsRequest { pagination: p, ..self }
    }

    fn as_pagination(&self) -> (r: &RequestPagination) {
        &self.pagination
    }

    fn as_pagination_mut(&mut self) -> (r: &mut RequestPagination) {
        &mut self.pagination
    }
}

/// Key-collision freedom of the flattening merge: however the pin and the
/// cursor are set, the serialized body never holds two fields of one name.
pub proof fn lemma_request_fields_keys_unique(r: AccountNftsRequestView)
    ensures
        keys_unique(spec_account_nfts_request_fields(r)),
{
    let fields = spec_account_nfts_request_fields(r);
    let lsf = spec_ledger_spec_fields(r.ledger_spec);
    let pgf = spec_request_pagination_fields(r.pagination);
    assert forall|i: int, j: int| 0 <= i < j < fields.len() implies fields[i].key
        != fields[j].key by {
        assert(fields[0].key == Field::Account);
        assert(forall|k: int|
            1 <= k < 1 + lsf.len() ==> fields[k].key == lsf[k - 1].key && (fields[k].key
                == Field::LedgerIndex || fields[k].key == Field::LedgerHash));
        assert(forall|k: int|
            1 + lsf.len() <= k < fields.len() ==> fields[k].key == pgf[k - 1 - lsf.len()].key && (
            fields[k].key == Field::Marker || fields[k].key == Field::Limit));
    }
}

/// Pagination echo: a request carrying a continuation marker — one copied
/// verbatim from a prior response — serializes to a body whose `marker`
/// field holds exactly that marker.
pub proof fn lemma_request_carries_marker(r: AccountNftsRequestView, m: Seq<char>)
    requires
        r.pagination.marker == Some(m),
    ensures
        lookup(spec_account_nfts_request_fields(r), Field::Marker) == Some(
            WireValueView::Text(m),
        ),
{
    let fields = spec_account_nfts_request_fields(r);
    let lsf = spec_ledger_spec_fields(r.ledger_spec);
    let i = 1 + lsf.len() as int;
    assert(fields[i].key == Field::Marker && fields[i].value == WireValueView::Text(m));
    assert(forall|k: int|
        1 <= k < i ==> fields[k].key == lsf[k - 1].key && (fields[k].key == Field::LedgerIndex
            || fields[k].key == Field::LedgerHash));
    lemma_lookup_present(fields, Field::Marker, i);
}

/// One token record for each owner account, with the echoed ledger reference
/// and cursor state.
#[derive(Clone, Debug)]
pub struct AccountNftsResponse {
    pub account_nfts: Vec<NFToken>,
    pub ledger_spec: ReturnLedgerSpec,
    pub pagination: ResponsePagination,
}

/// The mathematical shape of an [`AccountNftsResponse`].
pub struct AccountNftsResponseView {
    pub account_nfts: Seq<NFTokenView>,
    pub ledger_spec: ReturnLedgerSpecView,
    pub pagination: ResponsePaginationView,
}

/// The views of a sequence of tokens, element by element.
pub open spec fn token_views(s: Seq<NFToken>) -> Seq<NFTokenView> {
    s.map(|i: int, t: NFToken| t@)
}

impl View for AccountNftsResponse {
    type V = AccountNftsResponseView;

    open spec fn view(&self) -> AccountNftsResponseView {
        AccountNftsResponseView {
            account_nfts: token_views(self.account_nfts@),
            ledger_spec: self.ledger_spec@,
            pagination: self.pagination@,
        }
    }
}

/// What decoding a sequence of record objects yields: every token in the
/// node's order, or the first record's decode error.
pub open spec fn spec_decode_tokens(objs: Seq<Seq<WireEntryView>>) -> Result<
    Seq<NFTokenView>,
    DecodeError,
>
    decreases objs.len(),
{
    if objs.len() == 0 {
        Result::Ok(Seq::empty())
    } else {
        match spec_decode_nftoken(objs[0]) {
            Result::Err(e) => Result::Err(e),
            Result::Ok(t) => match spec_decode_tokens(objs.drop_first()) {
                Result::Err(e) => Result::Err(e),
                Result::Ok(ts) => Result::Ok(seq![t] + ts),
            },
        }
    }
}

/// Decode every record object of the `account_nfts` array, in order.
fn decode_tokens(objs: &Vec<WireObject>) -> (r: Result<Vec<NFToken>, DecodeError>)
    ensures
        match r {
            Result::Ok(ts) => spec_decode_tokens(object_views(objs@)) == Result::<
                Seq<NFTokenView>,
                DecodeError,
            >::Ok(token_views(ts@)),
            Result::Err(e) => spec_decode_tokens(object_views(objs@)) == Result::<
                Seq<NFTokenView>,
                DecodeError,
            >::Err(e),
        },
{
    let ghost full = object_views(objs@);
    let n: usize = objs.len();
    let mut acc: Vec<NFToken> = Vec::new();
    let mut i: usize = 0;
    proof {
        assert(full.skip(0) =~= full);
        let ghost d = spec_decode_tokens(full);
        if d is Ok {
            assert(token_views(acc@) + d->Ok_0 =~= d->Ok_0);
        }
    }
    while i < n
        invariant
            n == objs.len(),
            full == object_views(objs@),
            0 <= i <= n,
            spec_decode_tokens(full) == (match spec_decode_tokens(full.skip(i as int)) {
                Result::<Seq<NFTokenView>, DecodeError>::Ok(ts) => Result::<
                    Seq<NFTokenView>,
                    DecodeError,
                >::Ok(token_views(acc@) + ts),
                Result::<Seq<NFTokenView>, DecodeError>::Err(e) => Result::<
                    Seq<NFTokenView>,
                    DecodeError,
                >::Err(e),
            }),
        decreases n - i,
    {
        proof {
            assert(full.skip(i as int)[0] == full[i as int]);
            assert(full[i as int] == objs@[i as int]@);
            assert(full.skip(i as int).drop_first() =~= full.skip(i as int + 1));
        }
        match NFToken::decode(&objs[i]) {
            Result::Ok(t) => {
                let ghost old_acc = acc@;
                let ghost tv = t@;
                acc.push(t);
                proof {
                    assert(token_views(acc@) =~= token_views(old_acc) + seq![tv]);
                    let ghost rest = spec_decode_tokens(full.skip(i as int + 1));
                    if rest is Ok {
                        assert((token_views(old_acc) + seq![tv]) + rest->Ok_0 =~= token_views(
                            old_acc,
                        ) + (seq![tv] + rest->Ok_0));
                    }
                }
            },
            Result::Err(e) => {
                return Err(e);
            },
        }
        i += 1;
    }
    proof {
        assert(full.skip(n as int) =~= Seq::<Seq<WireEntryView>>::empty());
        assert(token_views(acc@) + Seq::<NFTokenView>::empty() =~= token_views(acc@));
    }
    Ok(acc)
}

/// What decoding a whole response body yields: the decoded token records
/// plus the flattened ledger echo and cursor echo, or the first decode
/// error. A body without the `account_nfts` array fails; absent echo fields
/// do not.
pub open spec fn spec_decode_account_nfts_response(entries: Seq<BodyEntryView>) -> Result<
    AccountNftsResponseView,
    DecodeError,
> {
    match spec_body_require_array(entries, Field::AccountNfts) {
        Result::Err(e) => Result::Err(e),
        Result::Ok(objs) => match spec_decode_tokens(objs) {
            Result::Err(e) => Result::Err(e),
            Result::Ok(account_nfts) => match spec_decode_return_ledger_spec(entries) {
                Result::Err(e) => Result::Err(e),
                Result::Ok(ledger_spec) => match spec_decode_response_pagination(entries) {
                    Result::Err(e) => Result::Err(e),
                    Result::Ok(pagination) => Result::Ok(
                        AccountNftsResponseView { account_nfts, ledger_spec, pagination },
                    ),
                },
            },
        },
    }
}

impl AccountNftsResponse {
    /// Decode a response body into the paired response value.
    pub fn decode(body: &ResponseBody) -> (r: Result<AccountNftsResponse, DecodeError>)
        ensures
            match r {
                Result::Ok(resp) => spec_decode_account_nfts_response(body@) == Result::<
                    AccountNftsResponseView,
                    DecodeError,
                >::Ok(resp@),
                Result::Err(e) => spec_decode_account_nfts_response(body@) == Result::<
                    AccountNftsResponseView,
                    DecodeError,
                >::Err(e),
            },
    {
        let objs = match body.require_array(Field::AccountNfts) {
            Result::Ok(v) => v,
            Result::Err(e) => {
                return Err(e);
            },
        };
        let account_nfts = match decode_tokens(objs) {
            Result::Ok(v) => v,
            Result::Err(e) => {
                return Err(e);
            },
        };
        let ledger_spec = match decode_return_ledger_spec(body) {
            Result::Ok(v) => v,
            Result::Err(e) => {
                return Err(e);
            },
        };
        let pagination = match decode_response_pagination(body) {
            Result::Ok(v) => v,
            Result::Err(e) => {
                return Err(e);
            },
        };
        Ok(AccountNftsResponse { account_nfts, ledger_spec, pagination })
    }
}

impl WithResponsePagination for AccountNftsResponse {
    open spec fn spec_pagination(&self) -> ResponsePagination {
        self.pagination
    }

    fn as_pagination(&self) -> (r: &ResponsePagination) {
        &self.pagination
    }
}

} // verus!
