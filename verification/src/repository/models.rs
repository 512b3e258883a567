//! Validated value types and the `Fact` entity.
//!
//! Each value type wraps a primitive and enforces its validity invariant at
//! construction: construction is the only way to obtain an instance.

use vstd::prelude::*;

verus! {

/// The length in bytes of the UTF-8 encoding of a character sequence.
///
/// Titles and bodies are bounded by their encoded size, not their number of
/// characters, so a multi-byte text near the limit is rejected rather than
/// silently truncated.
pub open spec fn byte_len(s: Seq<char>) -> nat {
    vstd::utf8::encode_utf8(s).len()
}

/// A title is valid when its encoding holds between 1 and 64 bytes.
pub open spec fn title_ok(s: Seq<char>) -> bool {
    1 <= byte_len(s) <= 64
}

/// A body is valid when its encoding holds between 1 and 2048 bytes.
pub open spec fn body_ok(s: Seq<char>) -> bool {
    1 <= byte_len(s) <= 2048
}

/// A positive integer identifier for a fact.
#[derive(Clone, Copy, Debug, PartialEq, Eq, Structural)]
pub struct FactId(i32);

#[derive(Clone, Copy, Debug, PartialEq, Eq, Structural)]
pub enum FactIdError {
    NonPositive,
}

impl View for FactId {
    type V = i32;

    closed spec fn view(&self) -> i32 {
        self.0
    }
}

impl FactId {
    /// The identifier invariant: the wrapped integer is positive.
    pub open spec fn wf(&self) -> bool {
        self@ > 0
    }

    /// Builds an identifier from a raw integer, rejecting non-positive values.
    pub fn new(raw: i32) -> (r: Result<Self, FactIdError>)
        ensures
            match r {
                Ok(id) => raw > 0 && id@ == raw && id.wf(),
                Err(e) => raw <= 0 && e == FactIdError::NonPositive,
            },
    {
        if raw > 0 {
            Ok(FactId(raw))
        } else {
            Err(FactIdError::NonPositive)
        }
    }

    /// The wrapped integer.
    pub fn value(&self) -> (r: i32)
        ensures
            r == self@,
    {
        self.0
    }
}

impl FactIdError {
    /// A human-readable description of the failure.
    pub fn message(&self) -> (r: String)
        ensures
            r@ == self.spec_message(),
    {
        match self {
            FactIdError::NonPositive => "Id is non-positive".to_owned(),
        }
    }

    pub open spec fn spec_message(&self) -> Seq<char> {
        match self {
            FactIdError::NonPositive => "Id is non-positive"@,
        }
    }
}

/// A non-empty title of at most 64 bytes.
#[derive(Debug)]
pub struct FactTitle(String);

#[derive(Clone, Copy, Debug, PartialEq, Eq, Structural)]
pub enum FactTitleError {
    TooLong { length: usize },
    IsEmpty,
}

impl View for FactTitle {
    type V = Seq<char>;

    closed spec fn view(&self) -> Seq<char> {
        self.0@
    }
}

impl Clone for FactTitle {
    fn clone(&self) -> (r: Self)
        ensures
            r == *self,
    {
        FactTitle(self.0.clone())
    }
}

impl PartialEq for FactTitle {
    fn eq(&self, other: &Self) -> bool {
        self.0 == other.0
    }
}

impl vstd::std_specs::cmp::PartialEqSpecImpl for FactTitle {
    open spec fn obeys_eq_spec() -> bool {
        true
    }

    open spec fn eq_spec(&self, other: &Self) -> bool {
        self@ == other@
    }
}

impl FactTitle {
    /// The title invariant.
    pub open spec fn wf(&self) -> bool {
        title_ok(self@)
    }

    /// Builds a title, rejecting an empty text and one over 64 bytes.
    pub fn new(raw: &str) -> (r: Result<Self, FactTitleError>)
        ensures
            match r {
                Ok(t) => title_ok(raw@) && t@ == raw@,
                Err(FactTitleError::IsEmpty) => byte_len(raw@) == 0,
                Err(FactTitleError::TooLong { length }) => byte_len(raw@) > 64 && length == byte_len(
                    raw@,
                ),
            },
    {
        let length = raw.as_bytes().len();
        if length == 0 {
            return Err(FactTitleError::IsEmpty);
        }
        if length > 64 {
            return Err(FactTitleError::TooLong { length });
        }
        Ok(FactTitle(raw.to_owned()))
    }

    /// The wrapped text.
    pub fn as_str(&self) -> (r: &str)
        ensures
            r@ == self@,
    {
        self.0.as_str()
    }
}

impl FactTitleError {
    /// A human-readable description of the failure.
    pub fn message(&self) -> (r: String)
        ensures
            r@ == self.spec_message(),
    {
        match self {
            FactTitleError::TooLong { length: _ } => "Title is very long".to_owned(),
            FactTitleError::IsEmpty => "Empty title is not allowed".to_owned(),
        }
    }

    pub open spec fn spec_message(&self) -> Seq<char> {
        match self {
            FactTitleError::TooLong { length: _ } => "Title is very long"@,
            FactTitleError::IsEmpty => "Empty title is not allowed"@,
        }
    }
}

/// A non-empty body of at most 2048 bytes.
#[derive(Debug)]
pub struct FactBody(String);

#[derive(Clone, Copy, Debug, PartialEq, Eq, Structural)]
pub enum FactBodyError {
    TooLong { length: usize },
    IsEmpty,
}

impl View for FactBody {
    type V = Seq<char>;

    closed spec fn view(&self) -> Seq<char> {
        self.0@
    }
}

impl Clone for FactBody {
    fn clone(&self) -> (r: Self)
        ensures
            r == *self,
    {
        FactBody(self.0.clone())
    }
}

impl PartialEq for FactBody {
    fn eq(&self, other: &Self) -> bool {
        self.0 == other.0
    }
}

impl vstd::std_specs::cmp::PartialEqSpecImpl for FactBody {
    open spec fn obeys_eq_spec() -> bool {
        true
    }

    open spec fn eq_spec(&self, other: &Self) -> bool {
        self@ == other@
    }
}

impl FactBody {
    /// The body invariant.
    pub open spec fn wf(&self) -> bool {
        body_ok(self@)
    }

    /// Builds a body, rejecting an empty text and one over 2048 bytes.
    pub fn new(raw: &str) -> (r: Result<Self, FactBodyError>)
        ensures
            match r {
                Ok(b) => body_ok(raw@) && b@ == raw@,
                Err(FactBodyError::IsEmpty) => byte_len(raw@) == 0,
                Err(FactBodyError::TooLong { length }) => byte_len(raw@) > 2048 && length == byte_len(
                    raw@,
                ),
            },
    {
        let length = raw.as_bytes().len();
        if length == 0 {
            return Err(FactBodyError::IsEmpty);
        }
        if length > 2048 {
            return Err(FactBodyError::TooLong { length });
        }
        Ok(FactBody(raw.to_owned()))
    }

    /// The wrapped text.
    pub fn as_str(&self) -> (r: &str)
        ensures
            r@ == self@,
    {
        self.0.as_str()
    }
}

impl FactBodyError {
    /// A human-readable description of the failure.
    pub fn message(&self) -> (r: String)
        ensures
            r@ == self.spec_message(),
    {
        match self {
            FactBodyError::TooLong { length: _ } => "Body is very long".to_owned(),
            FactBodyError::IsEmpty => "Empty body is not allowed".to_owned(),
        }
    }

    pub open spec fn spec_message(&self) -> Seq<char> {
        match self {
            FactBodyError::TooLong { length: _ } => "Body is very long"@,
            FactBodyError::IsEmpty => "Empty body is not allowed"@,
        }
    }
}

/// The identified title/body pair served by every backend.
///
/// All three fields are already-validated value types: a `Fact` cannot exist
/// in an invalid state.
#[derive(Debug)]
pub struct Fact {
    id: FactId,
    title: FactTitle,
    body: FactBody,
}

/// The error of `Fact::new`: the first failing field's wrapped error, in the
/// order id, title, body.
#[derive(Clone, Copy, Debug, PartialEq, Eq, Structural)]
pub enum FactError {
    InvalidId { inner: FactIdError },
    InvalidTitle { inner: FactTitleError },
    InvalidBody { inner: FactBodyError },
}

impl FactError {
    /// A human-readable description of the failing field's error.
    pub fn message(&self) -> (r: String)
        ensures
            r@ == self.spec_message(),
    {
        match self {
            FactError::InvalidId { inner } => inner.message(),
            FactError::InvalidTitle { inner } => inner.message(),
            FactError::InvalidBody { inner } => inner.message(),
        }
    }

    pub open spec fn spec_message(&self) -> Seq<char> {
        match self {
            FactError::InvalidId { inner } => inner.spec_message(),
            FactError::InvalidTitle { inner } => inner.spec_message(),
            FactError::InvalidBody { inner } => inner.spec_message(),
        }
    }
}

impl Clone for Fact {
    fn clone(&self) -> (r: Self)
        ensures
            r == *self,
    {
        Fact { id: self.id, title: self.title.clone(), body: self.body.clone() }
    }
}

impl PartialEq for Fact {
    fn eq(&self, other: &Self) -> bool {
        self.id == other.id && self.title == other.title && self.body == other.body
    }
}

impl vstd::std_specs::cmp::PartialEqSpecImpl for Fact {
    open spec fn obeys_eq_spec() -> bool {
        true
    }

    open spec fn eq_spec(&self, other: &Self) -> bool {
        self.spec_id() == other.spec_id() && self.spec_title()@ == other.spec_title()@
            && self.spec_body()@ == other.spec_body()@
    }
}

impl Fact {
    pub closed spec fn spec_id(&self) -> FactId {
        self.id
    }

    pub closed spec fn spec_title(&self) -> FactTitle {
        self.title
    }

    pub closed spec fn spec_body(&self) -> FactBody {
        self.body
    }

    /// The entity invariant: every field satisfies its own invariant.
    pub open spec fn wf(&self) -> bool {
        self.spec_id().wf() && self.spec_title().wf() && self.spec_body().wf()
    }

    /// Composes three raw inputs, running all three validators, and fails
    /// with the first failing field's wrapped error, in the order id, title,
    /// body.
    pub fn new(id: i32, title: &str, body: &str) -> (r: Result<Self, FactError>)
        ensures
            match r {
                Ok(f) => {
                    &&& id > 0
                    &&& title_ok(title@)
                    &&& body_ok(body@)
                    &&& f.spec_id()@ == id
                    &&& f.spec_title()@ == title@
                    &&& f.spec_body()@ == body@
                    &&& f.wf()
                },
                Err(FactError::InvalidId { inner }) => id <= 0 && inner
                    == FactIdError::NonPositive,
                Err(FactError::InvalidTitle { inner }) => id > 0 && !title_ok(title@) && match inner {
                    FactTitleError::IsEmpty => byte_len(title@) == 0,
                    FactTitleError::TooLong { length } => byte_len(title@) > 64 && length
                        == byte_len(title@),
                },
                Err(FactError::InvalidBody { inner }) => id > 0 && title_ok(title@) && !body_ok(
                    body@,
                ) && match inner {
                    FactBodyError::IsEmpty => byte_len(body@) == 0,
                    FactBodyError::TooLong { length } => byte_len(body@) > 2048 && length
                        == byte_len(body@),
                },
            },
    {
        let id = match FactId::new(id) {
            Ok(id) => id,
            Err(inner) => {
                return Err(FactError::InvalidId { inner });
            },
        };
        let title = match FactTitle::new(title) {
            Ok(title) => title,
            Err(inner) => {
                return Err(FactError::InvalidTitle { inner });
            },
        };
        let body = match FactBody::new(body) {
            Ok(body) => body,
            Err(inner) => {
                return Err(FactError::InvalidBody { inner });
            },
        };
        Ok(Fact { id, title, body })
    }

    /// Composes three pre-validated components; nothing can fail here.
    pub fn from_parts(id: FactId, title: &FactTitle, body: &FactBody) -> (r: Self)
        requires
            id.wf(),
            title.wf(),
            body.wf(),
        ensures
            r.spec_id() == id,
            r.spec_title() == *title,
            r.spec_body() == *body,
            r.wf(),
    {
        Fact { id, title: title.clone(), body: body.clone() }
    }

    pub fn id(&self) -> (r: FactId)
        ensures
            r == self.spec_id(),
    {
        self.id
    }

    pub fn title(&self) -> (r: &FactTitle)
        ensures
            *r == self.spec_title(),
    {
        &self.title
    }

    pub fn body(&self) -> (r: &FactBody)
        ensures
            *r == self.spec_body(),
    {
        &self.body
    }
}

/// A write intent: a validated title and body without an identifier, which
/// storage assigns on `create`.
#[derive(Debug)]
pub struct CreateFactRequest {
    title: FactTitle,
    body: FactBody,
}

impl Clone for CreateFactRequest {
    fn clone(&self) -> (r: Self)
        ensures
            r == *self,
    {
        CreateFactRequest { title: self.title.clone(), body: self.body.clone() }
    }
}

/// The error of building a `CreateFactRequest` from raw input: the failing
/// field's wrapped error, title first.
#[derive(Clone, Copy, Debug, PartialEq, Eq, Structural)]
pub enum CreateFactRequestError {
    InvalidTitle { inner: FactTitleError },
    InvalidBody { inner: FactBodyError },
}

impl CreateFactRequestError {
    /// A human-readable description of the failing field's error.
    pub fn message(&self) -> (r: String)
        ensures
            r@ == self.spec_message(),
    {
        match self {
            CreateFactRequestError::InvalidTitle { inner } => inner.message(),
            CreateFactRequestError::InvalidBody { inner } => inner.message(),
        }
    }

    pub open spec fn spec_message(&self) -> Seq<char> {
        match self {
            CreateFactRequestError::InvalidTitle { inner } => inner.spec_message(),
            CreateFactRequestError::InvalidBody { inner } => inner.spec_message(),
        }
    }
}

impl CreateFactRequest {
    pub closed spec fn spec_title(&self) -> FactTitle {
        self.title
    }

    pub closed spec fn spec_body(&self) -> FactBody {
        self.body
    }

    /// The request invariant.
    pub open spec fn wf(&self) -> bool {
        self.spec_title().wf() && self.spec_body().wf()
    }

    /// Composes two pre-validated components; there is no raw-string
    /// overload, so no further validation can fail here.
    pub fn new(title: &FactTitle, body: &FactBody) -> (r: Self)
        ensures
            r.spec_title() == *title,
            r.spec_body() == *body,
    {
        CreateFactRequest { title: title.clone(), body: body.clone() }
    }

    pub fn title(&self) -> (r: &FactTitle)
        ensures
            *r == self.spec_title(),
    {
        &self.title
    }

    pub fn body(&self) -> (r: &FactBody)
        ensures
            *r == self.spec_body(),
    {
        &self.body
    }
}

} // verus!
