//! The top-level shape of a decoded response body: a flat object whose
//! fields are either scalars (the flattened ledger echo and pagination echo)
//! or arrays of record objects (the method's result records).

use vstd::prelude::*;

use crate::error::DecodeError;
use crate::wire::Field;
use crate::wire::WireEntryView;
use crate::wire::WireObject;
use crate::wire::WireValue;
use crate::wire::WireValueView;

verus! {

/// A top-level value of a response body.
#[derive(Clone, Debug)]
pub enum BodyValue {
    Scalar(WireValue),
    Array(Vec<WireObject>),
}

/// The views of a sequence of record objects, element by element.
pub open spec fn object_views(s: Seq<WireObject>) -> Seq<Seq<WireEntryView>> {
    s.map(|i: int, o: WireObject| o@)
}

/// The mathematical shape of a [`BodyValue`].
pub enum BodyValueView {
    Scalar(WireValueView),
    Array(Seq<Seq<WireEntryView>>),
}

impl View for BodyValue {
    type V = BodyValueView;

    open spec fn view(&self) -> BodyValueView {
        match self {
            BodyValue::Scalar(v) => BodyValueView::Scalar(v@),
            BodyValue::Array(objs) => BodyValueView::Array(object_views(objs@)),
        }
    }
}

/// One named top-level field of a response body.
#[derive(Clone, Debug)]
pub struct BodyEntry {
    pub key: Field,
    pub value: BodyValue,
}

/// The mathematical shape of a [`BodyEntry`].
pub struct BodyEntryView {
    pub key: Field,
    pub value: BodyValueView,
}

impl View for BodyEntry {
    type V = BodyEntryView;

    open spec fn view(&self) -> BodyEntryView {
        BodyEntryView { key: self.key, value: self.value@ }
    }
}

/// A whole response body as handed in by the transport boundary.
#[derive(Clone, Debug)]
pub struct ResponseBody {
    pub entries: Vec<BodyEntry>,
}

impl View for ResponseBody {
    type V = Seq<BodyEntryView>;

    open spec fn view(&self) -> Seq<BodyEntryView> {
        self.entries@.map(|i: int, e: BodyEntry| e@)
    }
}

/// The value of the first top-level field named `f`, if any.
pub open spec fn body_lookup(entries: Seq<BodyEntryView>, f: Field) -> Option<BodyValueView>
    decreases entries.len(),
{
    if entries.len() == 0 {
        None
    } else if entries[0].key == f {
        Some(entries[0].value)
    } else {
        body_lookup(entries.drop_first(), f)
    }
}

/// An optional top-level numeric field: absence is not an error.
pub open spec fn spec_body_optional_num(entries: Seq<BodyEntryView>, f: Field) -> Result<
    Option<u32>,
    DecodeError,
> {
    match body_lookup(entries, f) {
        Option::None => Result::Ok(Option::None),
        Option::Some(v) => match v {
            BodyValueView::Scalar(WireValueView::Num(n)) => Result::Ok(Option::Some(n)),
            _ => Result::Err(DecodeError::WrongType(f)),
        },
    }
}

/// An optional top-level text field: absence is not an error.
pub open spec fn spec_body_optional_text(entries: Seq<BodyEntryView>, f: Field) -> Result<
    Option<Seq<char>>,
    DecodeError,
> {
    match body_lookup(entries, f) {
        Option::None => Result::Ok(Option::None),
        Option::Some(v) => match v {
            BodyValueView::Scalar(WireValueView::Text(s)) => Result::Ok(Option::Some(s)),
            _ => Result::Err(DecodeError::WrongType(f)),
        },
    }
}

/// An optional top-level boolean field: absence is not an error.
pub open spec fn spec_body_optional_flag(entries: Seq<BodyEntryView>, f: Field) -> Result<
    Option<bool>,
    DecodeError,
> {
    match body_lookup(entries, f) {
        Option::None => Result::Ok(Option::None),
        Option::Some(v) => match v {
            BodyValueView::Scalar(WireValueView::Flag(b)) => Result::Ok(Option::Some(b)),
            _ => Result::Err(DecodeError::WrongType(f)),
        },
    }
}

/// A required top-level array field: the record objects it holds, or the
/// decode error naming it.
pub open spec fn spec_body_require_array(entries: Seq<BodyEntryView>, f: Field) -> Result<
    Seq<Seq<WireEntryView>>,
    DecodeError,
> {
    match body_lookup(entries, f) {
        Option::None => Result::Err(DecodeError::MissingField(f)),
        Option::Some(v) => match v {
            BodyValueView::Array(objs) => Result::Ok(objs),
            _ => Result::Err(DecodeError::WrongType(f)),
        },
    }
}

/// A lookup that skipped a non-matching head inspects the tail.
proof fn lemma_body_lookup_step(entries: Seq<BodyEntryView>, f: Field, i: int)
    requires
        0 <= i < entries.len(),
        entries[i].key != f,
        body_lookup(entries, f) == body_lookup(entries.skip(i), f),
    ensures
        body_lookup(entries, f) == body_lookup(entries.skip(i + 1), f),
{
    assert(entries.skip(i)[0] == entries[i]);
    assert(entries.skip(i).drop_first() =~= entries.skip(i + 1));
}

impl ResponseBody {
    /// A reference to the value of the first top-level field named `f`.
    pub fn get(&self, f: Field) -> (r: Option<&BodyValue>)
        ensures
            match r {
                Option::Some(v) => body_lookup(self@, f) == Some(v@),
                Option::None => body_lookup(self@, f) is None,
            },
    {
        let n: usize = self.entries.len();
        let mut i: usize = 0;
        proof {
            assert(self@.skip(0) =~= self@);
        }
        while i < n
            invariant
                n == self.entries.len(),
                0 <= i <= n,
                body_lookup(self@, f) == body_lookup(self@.skip(i as int), f),
            decreases n - i,
        {
            if self.entries[i].key == f {
                return Some(&self.entries[i].value);
            }
            proof {
                lemma_body_lookup_step(self@, f, i as int);
            }
            i += 1;
        }
        proof {
            assert(self@.skip(n as int) =~= Seq::<BodyEntryView>::empty());
        }
        None
    }

    /// Read an optional top-level numeric field.
    pub fn optional_num(&self, f: Field) -> (r: Result<Option<u32>, DecodeError>)
        ensures
            r == spec_body_optional_num(self@, f),
    {
        match self.get(f) {
            Option::None => Ok(None),
            Option::Some(BodyValue::Scalar(WireValue::Num(n))) => Ok(Some(*n)),
            Option::Some(_) => Err(DecodeError::WrongType(f)),
        }
    }

    /// Read an optional top-level text field.
    pub fn optional_text(&self, f: Field) -> (r: Result<Option<String>, DecodeError>)
        ensures
            match r {
                Result::Ok(Option::Some(s)) => spec_body_optional_text(self@, f) == Result::<
                    Option<Seq<char>>,
                    DecodeError,
                >::Ok(Some(s@)),
                Result::Ok(Option::None) => spec_body_optional_text(self@, f) == Result::<
                    Option<Seq<char>>,
                    DecodeError,
                >::Ok(None),
                Result::Err(e) => spec_body_optional_text(self@, f) == Result::<
                    Option<Seq<char>>,
                    DecodeError,
                >::Err(e),
            },
    {
        match self.get(f) {
            Option::None => Ok(None),
            Option::Some(BodyValue::Scalar(WireValue::Text(s))) => Ok(Some(s.clone())),
            Option::Some(_) => Err(DecodeError::WrongType(f)),
        }
    }

    /// Read an optional top-level boolean field.
    pub fn optional_flag(&self, f: Field) -> (r: Result<Option<bool>, DecodeError>)
        ensures
            r == spec_body_optional_flag(self@, f),
    {
        match self.get(f) {
            Option::None => Ok(None),
            Option::Some(BodyValue::Scalar(WireValue::Flag(b))) => Ok(Some(*b)),
            Option::Some(_) => Err(DecodeError::WrongType(f)),
        }
    }

    /// Read a required top-level array field.
    pub fn require_array(&self, f: Field) -> (r: Result<&Vec<WireObject>, DecodeError>)
        ensures
            match r {
                Result::Ok(objs) => spec_body_require_array(self@, f) == Result::<
                    Seq<Seq<WireEntryView>>,
                    DecodeError,
                >::Ok(object_views(objs@)),
                Result::Err(e) => spec_body_require_array(self@, f) == Result::<
                    Seq<Seq<WireEntryView>>,
                    DecodeError,
                >::Err(e),
            },
    {
        match self.get(f) {
            Option::None => Err(DecodeError::MissingField(f)),
            Option::Some(BodyValue::Array(objs)) => Ok(objs),
            Option::Some(_) => Err(DecodeError::WrongType(f)),
        }
    }
}

} // verus!
