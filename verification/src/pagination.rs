//! The cursor contract threaded through every query whose result set may be
//! split across calls.
//!
//! The marker is an opaque, node-issued continuation token: this layer never
//! generates, inspects or mutates one, it only copies the node's value
//! verbatim into the next request. Absence of a marker in a response means
//! the result set is exhausted.

use vstd::prelude::*;

use crate::body::BodyEntryView;
use crate::body::body_lookup;
use crate::body::spec_body_optional_num;
use crate::body::spec_body_optional_text;
use crate::error::DecodeError;
use crate::wire::Field;
use crate::wire::WireEntry;
use crate::wire::WireEntryView;
use crate::wire::WireValue;
use crate::wire::WireValueView;
use crate::wire::entry_views;
use crate::wire::keys_unique;

verus! {

/// The request side of the cursor contract: an opaque continuation token
/// from a prior response, and the greatest number of records wanted per
/// call. Both are optional.
#[derive(Clone, Debug)]
pub struct RequestPagination {
    pub marker: Option<String>,
    pub limit: Option<u32>,
}

/// The mathematical shape of a [`RequestPagination`].
pub struct RequestPaginationView {
    pub marker: Option<Seq<char>>,
    pub limit: Option<u32>,
}

impl View for RequestPagination {
    type V = RequestPaginationView;

    open spec fn view(&self) -> RequestPaginationView {
        RequestPaginationView {
            marker: match &self.marker {
                Option::Some(m) => Option::Some(m@),
                Option::None => Option::None,
            },
            limit: self.limit,
        }
    }
}

impl Default for RequestPagination {
    /// No cursor and no limit: the first call of a paginated query.
    fn default() -> (r: RequestPagination)
        ensures
            r@.marker is None,
            r@.limit is None,
    {
        RequestPagination { marker: None, limit: None }
    }
}

/// The top-level fields the cursor flattens into the request body: the
/// marker verbatim under `marker`, the limit under `limit`, each only when
/// present.
pub open spec fn spec_request_pagination_fields(p: RequestPaginationView) -> Seq<WireEntryView> {
    (match p.marker {
        Option::Some(m) => seq![WireEntryView { key: Field::Marker, value: WireValueView::Text(m) }],
        Option::None => Seq::empty(),
    }) + (match p.limit {
        Option::Some(l) => seq![WireEntryView { key: Field::Limit, value: WireValueView::Num(l) }],
        Option::None => Seq::empty(),
    })
}

impl RequestPagination {
    /// Serialize the cursor into the fields it flattens into the request
    /// body.
    pub fn encode_fields(&self) -> (r: Vec<WireEntry>)
        ensures
            entry_views(r@) == spec_request_pagination_fields(self@),
    {
        let mut r: Vec<WireEntry> = Vec::new();
        if let Option::Some(m) = &self.marker {
            r.push(WireEntry { key: Field::Marker, value: WireValue::Text(m.clone()) });
        }
        if let Option::Some(l) = &self.limit {
            r.push(WireEntry { key: Field::Limit, value: WireValue::Num(*l) });
        }
        proof {
            assert(entry_views(r@) =~= spec_request_pagination_fields(self@));
        }
        r
    }
}

/// The fields of a cursor never collide among themselves.
pub proof fn lemma_request_pagination_keys_unique(p: RequestPaginationView)
    ensures
        keys_unique(spec_request_pagination_fields(p)),
{
}

/// The response side of the cursor contract: the limit the node actually
/// applied, and — only when further records remain — a fresh continuation
/// token for the next call. Read-only; built only by decoding.
#[derive(Clone, Debug)]
pub struct ResponsePagination {
    pub limit: Option<u32>,
    pub marker: Option<String>,
}

/// The mathematical shape of a [`ResponsePagination`].
pub struct ResponsePaginationView {
    pub limit: Option<u32>,
    pub marker: Option<Seq<char>>,
}

impl View for ResponsePagination {
    type V = ResponsePaginationView;

    open spec fn view(&self) -> ResponsePaginationView {
        ResponsePaginationView {
            limit: self.limit,
            marker: match &self.marker {
                Option::Some(m) => Option::Some(m@),
                Option::None => Option::None,
            },
        }
    }
}

/// What decoding the pagination echo of a response body yields: the applied
/// `limit` and the continuation `marker`, each absent when the node sent
/// none; a present field of the wrong wire type is a decode error.
pub open spec fn spec_decode_response_pagination(entries: Seq<BodyEntryView>) -> Result<
    ResponsePaginationView,
    DecodeError,
> {
    match spec_body_optional_num(entries, Field::Limit) {
        Result::Err(e) => Result::Err(e),
        Result::Ok(limit) => match spec_body_optional_text(entries, Field::Marker) {
            Result::Err(e) => Result::Err(e),
            Result::Ok(marker) => Result::Ok(ResponsePaginationView { limit, marker }),
        },
    }
}

/// Decode the pagination echo flattened into a response body.
pub fn decode_response_pagination(body: &crate::body::ResponseBody) -> (r: Result<
    ResponsePagination,
    DecodeError,
>)
    ensures
        match r {
            Result::Ok(p) => spec_decode_response_pagination(body@) == Result::<
                ResponsePaginationView,
                DecodeError,
            >::Ok(p@),
            Result::Err(e) => spec_decode_response_pagination(body@) == Result::<
                ResponsePaginationView,
                DecodeError,
            >::Err(e),
        },
{
    let limit = match body.optional_num(Field::Limit) {
        Result::Ok(l) => l,
        Result::Err(e) => {
            return Err(e);
        },
    };
    let marker = match body.optional_text(Field::Marker) {
        Result::Ok(m) => m,
        Result::Err(e) => {
            return Err(e);
        },
    };
    Ok(ResponsePagination { limit, marker })
}

/// Pagination termination: a response body with no `marker` field decodes —
/// whenever its `limit` field is well-typed — to "no further pages": an
/// absent continuation token, never an error.
pub proof fn lemma_absent_marker_means_exhausted(entries: Seq<BodyEntryView>)
    requires
        body_lookup(entries, Field::Marker) is None,
        spec_body_optional_num(entries, Field::Limit) is Ok,
    ensures
        spec_decode_response_pagination(entries) matches Ok(p) && p.marker is None,
{
}

} // verus!
