//! The capabilities shared by every query type, as explicit contracts rather
//! than per-type duplication: producing a routable method identifier and a
//! serializable body, pinning a ledger version, and threading the cursor.

use vstd::prelude::*;

use crate::ledger::RetrieveLedgerSpec;
use crate::pagination::RequestPagination;
use crate::pagination::ResponsePagination;
use crate::wire::WireEntryView;
use crate::wire::WireObject;

verus! {

/// What every concrete query type supplies: a method identifier string used
/// by the surrounding envelope to route the call, and a serializable body
/// with every embedded capability's fields flattened into its top level.
pub trait Request: Sized {
    /// The paired response type this query decodes into.
    type Response;

    /// The method identifier, mathematically.
    spec fn spec_method(&self) -> Seq<char>;

    /// The serialized body, mathematically.
    spec fn spec_body(&self) -> Seq<WireEntryView>;

    /// The method identifier routing this query.
    fn method(&self) -> (r: String)
        ensures
            r@ == self.spec_method(),
    ;

    /// Serialize the body, flattening the embedded capabilities' fields into
    /// the top level.
    fn body(&self) -> (r: WireObject)
        ensures
            r@ == self.spec_body(),
    ;
}

/// The ledger-pinning capability of a request type: read and mutable access
/// to the embedded [`RetrieveLedgerSpec`].
pub trait WithLedgerSpec: Sized {
    /// The embedded ledger pin, mathematically.
    spec fn spec_ledger_spec(&self) -> RetrieveLedgerSpec;

    /// This request with its ledger pin replaced and all else unchanged.
    spec fn with_ledger_spec(self, s: RetrieveLedgerSpec) -> Self;

    /// Read the embedded ledger pin.
    fn as_ledger_spec(&self) -> (r: &RetrieveLedgerSpec)
        ensures
            *r == self.spec_ledger_spec(),
    ;

    /// Borrow the embedded ledger pin for writing, so a caller can choose
    /// the one variant of the pin before serializing.
    fn as_ledger_spec_mut(&mut self) -> (r: &mut RetrieveLedgerSpec)
        ensures
            *r == old(self).spec_ledger_spec(),
            *final(self) == old(self).with_ledger_spec(*final(r)),
    ;
}

/// The pagination capability of a request type: read and mutable access to
/// the embedded [`RequestPagination`].
pub trait WithRequestPagination: Sized {
    /// The embedded cursor, mathematically.
    spec fn spec_pagination(&self) -> RequestPagination;

    /// This request with its cursor replaced and all else unchanged.
    spec fn with_pagination(self, p: RequestPagination) -> Self;

    /// Read the embedded cursor.
    fn as_pagination(&self) -> (r: &RequestPagination)
        ensures
            *r == self.spec_pagination(),
    ;

    /// Borrow the embedded cursor for writing, so a caller can copy a
    /// node-issued marker verbatim into the follow-up request.
    fn as_pagination_mut(&mut self) -> (r: &mut RequestPagination)
        ensures
            *r == old(self).spec_pagination(),
            *final(self) == old(self).with_pagination(*final(r)),
    ;
}

/// The pagination capability of a response type: read-only access to the
/// echoed [`ResponsePagination`].
pub trait WithResponsePagination {
    /// The echoed cursor state, mathematically.
    spec fn spec_pagination(&self) -> ResponsePagination;

    /// Read the echoed cursor state.
    fn as_pagination(&self) -> (r: &ResponsePagination)
        ensures
            *r == self.spec_pagination(),
    ;
}

} // verus!
