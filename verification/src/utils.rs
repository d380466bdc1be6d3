//! Integer domain types, the attribute-list encoding, and the shared decoders
//! for raw native query replies.

use vstd::prelude::*;

use crate::egl;

verus! {

/// Why an integer from the native side was rejected.
#[derive(Debug, Copy, Clone, PartialEq, Eq, Structural)]
pub enum IntegerError {
    Zero,
    Negative,
}

/// An integer known to be strictly positive.
#[derive(Debug, Copy, Clone)]
pub struct PositiveInteger {
    value: i32,
}

impl PositiveInteger {
    #[verifier::type_invariant]
    spec fn type_inv(self) -> bool {
        self.value > 0
    }

    pub closed spec fn spec_value(&self) -> int {
        self.value as int
    }

    /// The positive integer holding `v`: the spec-level constructor the
    /// contracts build results with.
    pub closed spec fn spec_new(v: int) -> PositiveInteger {
        PositiveInteger { value: v as i32 }
    }

    pub proof fn lemma_spec_new_value(v: int)
        requires
            0 < v <= i32::MAX,
        ensures
            PositiveInteger::spec_new(v).spec_value() == v,
    {
    }

    /// Constructor for trusted, programmer-supplied literals; native-sourced
    /// values go through `try_convert` instead.
    pub fn new(value: i32) -> (r: PositiveInteger)
        requires
            value > 0,
        ensures
            r == PositiveInteger::spec_new(value as int),
            r.spec_value() == value,
    {
        PositiveInteger { value }
    }

    pub fn value(&self) -> (v: i32)
        ensures
            v == self.spec_value(),
            v > 0,
    {
        proof {
            use_type_invariant(self);
        }
        self.value
    }

    pub fn try_convert(value: i32) -> (r: Result<PositiveInteger, IntegerError>)
        ensures
            value > 0 ==> r == Ok::<PositiveInteger, IntegerError>(
                PositiveInteger::spec_new(value as int),
            ),
            value > 0 ==> (r matches Ok(p) && p.spec_value() == value),
            value == 0 ==> r == Err::<PositiveInteger, IntegerError>(IntegerError::Zero),
            value < 0 ==> r == Err::<PositiveInteger, IntegerError>(IntegerError::Negative),
    {
        if 0 < value {
            Ok(PositiveInteger { value })
        } else if value == 0 {
            Err(IntegerError::Zero)
        } else {
            Err(IntegerError::Negative)
        }
    }
}

/// An integer known to be non-negative.
#[derive(Debug, Copy, Clone)]
pub struct UnsignedInteger {
    value: i32,
}

impl UnsignedInteger {
    #[verifier::type_invariant]
    spec fn type_inv(self) -> bool {
        self.value >= 0
    }

    pub closed spec fn spec_value(&self) -> int {
        self.value as int
    }

    /// The non-negative integer holding `v`: the spec-level constructor the
    /// contracts build results with.
    pub closed spec fn spec_new(v: int) -> UnsignedInteger {
        UnsignedInteger { value: v as i32 }
    }

    pub proof fn lemma_spec_new_value(v: int)
        requires
            0 <= v <= i32::MAX,
        ensures
            UnsignedInteger::spec_new(v).spec_value() == v,
    {
    }

    /// Constructor for trusted, programmer-supplied literals; native-sourced
    /// values go through `try_convert` instead.
    pub fn new(value: i32) -> (r: UnsignedInteger)
        requires
            value >= 0,
        ensures
            r == UnsignedInteger::spec_new(value as int),
            r.spec_value() == value,
    {
        UnsignedInteger { value }
    }

    pub fn value(&self) -> (v: i32)
        ensures
            v == self.spec_value(),
            v >= 0,
    {
        proof {
            use_type_invariant(self);
        }
        self.value
    }

    pub fn try_convert(value: i32) -> (r: Result<UnsignedInteger, IntegerError>)
        ensures
            value >= 0 ==> r == Ok::<UnsignedInteger, IntegerError>(
                UnsignedInteger::spec_new(value as int),
            ),
            value >= 0 ==> (r matches Ok(u) && u.spec_value() == value),
            value < 0 ==> r == Err::<UnsignedInteger, IntegerError>(IntegerError::Negative),
    {
        if 0 <= value {
            Ok(UnsignedInteger { value })
        } else {
            Err(IntegerError::Negative)
        }
    }
}

/// Why a typed query over the native boundary failed.
#[derive(Debug, Copy, Clone, PartialEq, Eq, Structural)]
pub enum QueryError {
    QueryError,
    BooleanError,
    EnumError,
    IntegerError(IntegerError),
}

pub type QueryResult<T> = Result<T, QueryError>;

/// Raw outcome of one native attribute query: the call's boolean result and
/// the value the call wrote (meaningful only when the call succeeded).
#[derive(Debug, Copy, Clone, PartialEq, Eq, Structural)]
pub struct QueryReply {
    pub ok: bool,
    pub value: i32,
}

impl QueryReply {
    pub fn succeeded(value: i32) -> (r: QueryReply)
        ensures
            r == (QueryReply { ok: true, value }),
    {
        QueryReply { ok: true, value }
    }

    pub fn failed() -> (r: QueryReply)
        ensures
            r == (QueryReply { ok: false, value: 0 }),
    {
        QueryReply { ok: false, value: 0 }
    }
}

/// A raw reply passes through unchanged; a failed native call is the query
/// error.
pub fn query_attrib(reply: QueryReply) -> (r: QueryResult<i32>)
    ensures
        reply.ok ==> r == Ok::<i32, QueryError>(reply.value),
        !reply.ok ==> r == Err::<i32, QueryError>(QueryError::QueryError),
{
    if reply.ok {
        Ok(reply.value)
    } else {
        Err(QueryError::QueryError)
    }
}

pub fn query_positive_integer(reply: QueryReply) -> (r: QueryResult<PositiveInteger>)
    ensures
        !reply.ok ==> r == Err::<PositiveInteger, QueryError>(QueryError::QueryError),
        reply.ok && reply.value > 0 ==> (r matches Ok(p) && p.spec_value() == reply.value),
        reply.ok && reply.value == 0 ==> r == Err::<PositiveInteger, QueryError>(
            QueryError::IntegerError(IntegerError::Zero),
        ),
        reply.ok && reply.value < 0 ==> r == Err::<PositiveInteger, QueryError>(
            QueryError::IntegerError(IntegerError::Negative),
        ),
{
    let value = query_attrib(reply)?;
    match PositiveInteger::try_convert(value) {
        Ok(p) => Ok(p),
        Err(e) => Err(QueryError::IntegerError(e)),
    }
}

pub fn query_unsigned_integer(reply: QueryReply) -> (r: QueryResult<UnsignedInteger>)
    ensures
        !reply.ok ==> r == Err::<UnsignedInteger, QueryError>(QueryError::QueryError),
        reply.ok && reply.value >= 0 ==> (r matches Ok(u) && u.spec_value() == reply.value),
        reply.ok && reply.value < 0 ==> r == Err::<UnsignedInteger, QueryError>(
            QueryError::IntegerError(IntegerError::Negative),
        ),
{
    let value = query_attrib(reply)?;
    match UnsignedInteger::try_convert(value) {
        Ok(u) => Ok(u),
        Err(e) => Err(QueryError::IntegerError(e)),
    }
}

/// A zero value means "buffer absent", not an error.
pub fn query_positive_integer_or_zero(reply: QueryReply) -> (r: QueryResult<
    Option<PositiveInteger>,
>)
    ensures
        !reply.ok ==> r == Err::<Option<PositiveInteger>, QueryError>(QueryError::QueryError),
        reply.ok && reply.value > 0 ==> (r matches Ok(o) && o matches Some(p)
            && p.spec_value() == reply.value),
        reply.ok && reply.value == 0 ==> r == Ok::<Option<PositiveInteger>, QueryError>(None),
        reply.ok && reply.value < 0 ==> r == Err::<Option<PositiveInteger>, QueryError>(
            QueryError::IntegerError(IntegerError::Negative),
        ),
{
    let value = query_attrib(reply)?;
    match PositiveInteger::try_convert(value) {
        Ok(p) => Ok(Some(p)),
        Err(IntegerError::Zero) => Ok(None),
        Err(e) => Err(QueryError::IntegerError(e)),
    }
}

pub fn query_boolean(reply: QueryReply) -> (r: QueryResult<bool>)
    ensures
        !reply.ok ==> r == Err::<bool, QueryError>(QueryError::QueryError),
        reply.ok && reply.value == egl::TRUE ==> r == Ok::<bool, QueryError>(true),
        reply.ok && reply.value == egl::FALSE ==> r == Ok::<bool, QueryError>(false),
        reply.ok && reply.value != egl::TRUE && reply.value != egl::FALSE ==> r == Err::<
            bool,
            QueryError,
        >(QueryError::BooleanError),
{
    let value = query_attrib(reply)?;
    if value == egl::TRUE {
        Ok(true)
    } else if value == egl::FALSE {
        Ok(false)
    } else {
        Err(QueryError::BooleanError)
    }
}

/// Raw outcome of one fallible native call that reports success as a
/// boolean: the call's result, and the raw error-query value fetched after a
/// failure (meaningful only then).
#[derive(Debug, Copy, Clone, PartialEq, Eq, Structural)]
pub struct NativeCallReply {
    pub ok: bool,
    pub raw_error: i32,
}

impl NativeCallReply {
    pub fn succeeded() -> (r: NativeCallReply)
        ensures
            r == (NativeCallReply { ok: true, raw_error: 0 }),
    {
        NativeCallReply { ok: true, raw_error: 0 }
    }

    pub fn failed(raw_error: i32) -> (r: NativeCallReply)
        ensures
            r == (NativeCallReply { ok: false, raw_error }),
    {
        NativeCallReply { ok: false, raw_error }
    }
}

/// Accumulates (attribute, value) pairs for a native attribute list.
pub struct AttributeListBuilder {
    list: Vec<i32>,
}

impl AttributeListBuilder {
    /// The pairs added so far, flattened in order.
    pub closed spec fn entries(&self) -> Seq<i32> {
        self.list@
    }

    pub fn new() -> (r: AttributeListBuilder)
        ensures
            r.entries() == Seq::<i32>::empty(),
    {
        AttributeListBuilder { list: Vec::new() }
    }

    pub fn add(&mut self, attribute: i32, value: i32)
        ensures
            final(self).entries() == old(self).entries().push(attribute).push(value),
    {
        self.list.push(attribute);
        self.list.push(value);
    }

    /// Appends the terminating sentinel and freezes the list.
    pub fn build(self) -> (r: AttributeList)
        ensures
            r@ == self.entries().push(egl::NONE),
    {
        let mut list = self.list;
        list.push(egl::NONE);
        AttributeList { list }
    }
}

/// A finished attribute list: pairs followed by the terminating sentinel,
/// immutable and readable for the native call boundary.
pub struct AttributeList {
    list: Vec<i32>,
}

impl View for AttributeList {
    type V = Seq<i32>;

    closed spec fn view(&self) -> Seq<i32> {
        self.list@
    }
}

impl AttributeList {
    /// A list holding only the terminating sentinel.
    pub fn empty() -> (r: AttributeList)
        ensures
            r@ == seq![egl::NONE],
    {
        let mut list: Vec<i32> = Vec::new();
        list.push(egl::NONE);
        assert(list@ =~= seq![egl::NONE]);
        AttributeList { list }
    }

    /// The encoded list, for handing to the native call.
    pub fn entries(&self) -> (r: &Vec<i32>)
        ensures
            r@ == self@,
    {
        &self.list
    }
}

} // verus!
