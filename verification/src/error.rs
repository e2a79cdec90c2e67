//! The error channel of the boundary.
//!
//! Every fallible operation takes an [`ErrorSlot`]: the model of the
//! nullable out-parameter through which a caller asks for failure detail.
//! On failure the operation builds one [`DFError`] — a stable category
//! together with a NUL-terminated message buffer — and stores it in the
//! slot; on success the slot is left untouched.

use vstd::prelude::*;
use vstd::string::StrSliceExecFns;
use vstd::utf8::encode_utf8;

verus! {

/// Category of a failure reported across the boundary.
///
/// The order of the constructors is part of the layout contract with
/// foreign callers and must never be rearranged: a new category is only
/// ever appended. `Avro` and `JIT` hold their positions for that reason,
/// although no failure of this engine build maps to them.
#[derive(Copy, Clone, PartialEq, Eq, Structural, Debug)]
pub enum DFErrorCode {
    Arrow,
    Parquet,
    Avro,
    ObjectStore,
    IO,
    SQL,
    NotImplemented,
    Internal,
    Plan,
    Schema,
    Execution,
    ResourcesExhausted,
    External,
    JIT,
    Context,
    Substrait,
    Configuration,
    ExecutionJoin,
    Diagnostic,
    Collection,
    Shared,
    Ffi,
}

/// One constructor per failure variant of the engine's error type, so that
/// the category mapping below is a total function the verifier checks.
#[derive(Copy, Clone, PartialEq, Eq, Structural, Debug)]
pub enum EngineErrorKind {
    Arrow,
    Parquet,
    ObjectStore,
    Io,
    Sql,
    NotImplemented,
    Internal,
    Plan,
    Configuration,
    Schema,
    Execution,
    ExecutionJoin,
    ResourcesExhausted,
    External,
    Context,
    Substrait,
    Diagnostic,
    Collection,
    Shared,
    Ffi,
}

/// An engine failure reduced to plain values: its variant and its rendered
/// description.
pub struct EngineError {
    pub kind: EngineErrorKind,
    pub message: String,
}

impl EngineError {
    pub fn new(kind: EngineErrorKind, message: String) -> (r: EngineError)
        ensures
            r.kind == kind,
            r.message == message,
    {
        EngineError { kind, message }
    }
}

/// The total mapping from an engine failure kind to the category reported
/// across the boundary. Every kind has exactly one category, and no kind
/// falls back to a category that stands for another origin.
pub open spec fn category_of(kind: EngineErrorKind) -> DFErrorCode {
    match kind {
        EngineErrorKind::Arrow => DFErrorCode::Arrow,
        EngineErrorKind::Parquet => DFErrorCode::Parquet,
        EngineErrorKind::ObjectStore => DFErrorCode::ObjectStore,
        EngineErrorKind::Io => DFErrorCode::IO,
        EngineErrorKind::Sql => DFErrorCode::SQL,
        EngineErrorKind::NotImplemented => DFErrorCode::NotImplemented,
        EngineErrorKind::Internal => DFErrorCode::Internal,
        EngineErrorKind::Plan => DFErrorCode::Plan,
        EngineErrorKind::Configuration => DFErrorCode::Configuration,
        EngineErrorKind::Schema => DFErrorCode::Schema,
        EngineErrorKind::Execution => DFErrorCode::Execution,
        EngineErrorKind::ExecutionJoin => DFErrorCode::ExecutionJoin,
        EngineErrorKind::ResourcesExhausted => DFErrorCode::ResourcesExhausted,
        EngineErrorKind::External => DFErrorCode::External,
        EngineErrorKind::Context => DFErrorCode::Context,
        EngineErrorKind::Substrait => DFErrorCode::Substrait,
        EngineErrorKind::Diagnostic => DFErrorCode::Diagnostic,
        EngineErrorKind::Collection => DFErrorCode::Collection,
        EngineErrorKind::Shared => DFErrorCode::Shared,
        EngineErrorKind::Ffi => DFErrorCode::Ffi,
    }
}

/// Executable form of [`category_of`].
pub fn error_code_of(kind: EngineErrorKind) -> (code: DFErrorCode)
    ensures
        code == category_of(kind),
{
    match kind {
        EngineErrorKind::Arrow => DFErrorCode::Arrow,
        EngineErrorKind::Parquet => DFErrorCode::Parquet,
        EngineErrorKind::ObjectStore => DFErrorCode::ObjectStore,
        EngineErrorKind::Io => DFErrorCode::IO,
        EngineErrorKind::Sql => DFErrorCode::SQL,
        EngineErrorKind::NotImplemented => DFErrorCode::NotImplemented,
        EngineErrorKind::Internal => DFErrorCode::Internal,
        EngineErrorKind::Plan => DFErrorCode::Plan,
        EngineErrorKind::Configuration => DFErrorCode::Configuration,
        EngineErrorKind::Schema => DFErrorCode::Schema,
        EngineErrorKind::Execution => DFErrorCode::Execution,
        EngineErrorKind::ExecutionJoin => DFErrorCode::ExecutionJoin,
        EngineErrorKind::ResourcesExhausted => DFErrorCode::ResourcesExhausted,
        EngineErrorKind::External => DFErrorCode::External,
        EngineErrorKind::Context => DFErrorCode::Context,
        EngineErrorKind::Substrait => DFErrorCode::Substrait,
        EngineErrorKind::Diagnostic => DFErrorCode::Diagnostic,
        EngineErrorKind::Collection => DFErrorCode::Collection,
        EngineErrorKind::Shared => DFErrorCode::Shared,
        EngineErrorKind::Ffi => DFErrorCode::Ffi,
    }
}

/// The category mapping never collapses two failure origins into one
/// category: distinct kinds always map to distinct categories.
pub proof fn lemma_category_distinct(a: EngineErrorKind, b: EngineErrorKind)
    ensures
        category_of(a) == category_of(b) ==> a == b,
{
}

/// The byte encoding of a piece of text, as it crosses the boundary.
pub open spec fn text_bytes(text: Seq<char>) -> Seq<u8> {
    encode_utf8(text)
}

/// Whether a byte buffer holds a NUL byte anywhere.
pub open spec fn has_nul(bytes: Seq<u8>) -> bool {
    exists|i: int| 0 <= i < bytes.len() && bytes[i] == 0u8
}

/// A categorized failure record handed across the boundary: a stable
/// category code and an owned, NUL-terminated message buffer.
#[derive(Debug)]
pub struct DFError {
    code: DFErrorCode,
    message: Vec<u8>,
}

impl DFError {
    pub closed spec fn category(self) -> DFErrorCode {
        self.code
    }

    pub closed spec fn message_bytes(self) -> Seq<u8> {
        self.message@
    }

    /// A record is well formed when its message buffer is exactly one
    /// NUL-terminated string: a final NUL byte and no NUL before it.
    pub open spec fn wf(self) -> bool {
        &&& self.message_bytes().len() >= 1
        &&& self.message_bytes().last() == 0u8
        &&& forall|i: int|
            0 <= i < self.message_bytes().len() - 1 ==> self.message_bytes()[i] != 0u8
    }

    /// Build a record from a category and a description. Construction
    /// fails exactly when the description holds an embedded NUL byte,
    /// which could not round-trip into a NUL-terminated buffer.
    pub fn new(code: DFErrorCode, text: &str) -> (r: Option<DFError>)
        ensures
            match r {
                Some(e) => {
                    &&& !has_nul(text_bytes(text@))
                    &&& e.category() == code
                    &&& e.message_bytes() == text_bytes(text@).push(0u8)
                    &&& e.wf()
                },
                None => has_nul(text_bytes(text@)),
            },
    {
        let mut bytes: Vec<u8> = text.as_bytes_vec();
        let mut i: usize = 0;
        while i < bytes.len()
            invariant
                bytes@ == text_bytes(text@),
                i <= bytes.len(),
                forall|j: int| 0 <= j < i ==> bytes@[j] != 0u8,
            decreases bytes.len() - i,
        {
            if bytes[i] == 0 {
                return None;
            }
            i = i + 1;
        }
        bytes.push(0u8);
        Some(DFError { code, message: bytes })
    }
}

/// Read the category of a record.
pub fn df_error_get_code(error: &DFError) -> (code: DFErrorCode)
    ensures
        code == error.category(),
{
    error.code
}

/// Read the NUL-terminated message buffer of a record.
pub fn df_error_get_message(error: &DFError) -> (message: &Vec<u8>)
    ensures
        message@ == error.message_bytes(),
{
    &error.message
}

/// Release a record. Dropping the box frees the record and its message
/// buffer exactly once.
pub fn df_error_free(_error: Option<Box<DFError>>) {
}

/// What one attempt to store a failure does to a slot: nothing when the
/// caller asked for no detail, nothing when the message cannot round-trip
/// into a NUL-terminated buffer, and otherwise exactly one well-formed
/// record with the given category and message.
pub open spec fn slot_set(pre: ErrorSlot, post: ErrorSlot, code: DFErrorCode, text: Seq<u8>) -> bool {
    &&& post.wants_detail() == pre.wants_detail()
    &&& !pre.wants_detail() ==> post == pre
    &&& pre.wants_detail() && has_nul(text) ==> post == pre
    &&& pre.wants_detail() && !has_nul(text) ==> {
        &&& post.stored() matches Some(e)
        &&& post.stored()->0.category() == code
        &&& post.stored()->0.message_bytes() == text.push(0u8)
    }
}

/// The slot protocol preserves well-formedness: if every record a slot
/// held before an attempt to store a failure was well formed, the same
/// holds afterwards — a caller can never receive a record whose message
/// is not one NUL-terminated string.
pub proof fn lemma_slot_stores_well_formed(
    pre: ErrorSlot,
    post: ErrorSlot,
    code: DFErrorCode,
    text: Seq<u8>,
)
    requires
        slot_set(pre, post, code, text),
        pre.stored() matches Some(e) ==> e.wf(),
    ensures
        post.stored() matches Some(e) ==> e.wf(),
{
    if pre.wants_detail() && !has_nul(text) {
        let e = post.stored()->0;
        assert(e.message_bytes() == text.push(0u8));
        assert(e.message_bytes().last() == 0u8);
        assert(forall|i: int|
            0 <= i < e.message_bytes().len() - 1 ==> e.message_bytes()[i] == text[i]);
    }
}

/// Categorization is faithful across the slot protocol: a failure of
/// kind `kind` whose rendered message can round-trip, reported into a
/// slot that asked for detail, is stored under exactly the category that
/// kind maps to — with the message terminated in place — and under no
/// other kind's category.
pub proof fn lemma_reported_category_faithful(
    pre: ErrorSlot,
    post: ErrorSlot,
    kind: EngineErrorKind,
    text: Seq<char>,
)
    requires
        pre.wants_detail(),
        !has_nul(text_bytes(text)),
        slot_set(pre, post, category_of(kind), text_bytes(text)),
    ensures
        post.stored() is Some,
        post.stored()->0.category() == category_of(kind),
        post.stored()->0.message_bytes() == text_bytes(text).push(0u8),
        forall|other: EngineErrorKind|
            post.stored()->0.category() == category_of(other) ==> other == kind,
{
    assert forall|other: EngineErrorKind|
        post.stored()->0.category() == category_of(other) implies other == kind by {
        lemma_category_distinct(kind, other);
    }
}

/// Some engine failure was stored in the slot, under the category its kind
/// maps to — or the slot was left alone because the caller asked for no
/// detail or the message could not round-trip.
pub open spec fn engine_failure_reported(pre: ErrorSlot, post: ErrorSlot) -> bool {
    exists|kind: EngineErrorKind, text: Seq<char>|
        slot_set(pre, post, category_of(kind), text_bytes(text))
}

/// The model of the nullable error out-parameter of every fallible
/// boundary operation. A slot built with `wants_detail == false` stands
/// for a caller that passed no slot at all: nothing is ever stored in it.
pub struct ErrorSlot {
    wants_detail: bool,
    stored: Option<DFError>,
}

impl ErrorSlot {
    pub closed spec fn wants_detail(self) -> bool {
        self.wants_detail
    }

    pub closed spec fn stored(self) -> Option<DFError> {
        self.stored
    }

    pub fn new(wants_detail: bool) -> (slot: ErrorSlot)
        ensures
            slot.wants_detail() == wants_detail,
            slot.stored() is None,
    {
        ErrorSlot { wants_detail, stored: None }
    }

    /// Store one failure in the slot, overwriting any earlier record.
    pub fn set(&mut self, code: DFErrorCode, text: &str)
        ensures
            slot_set(*old(self), *final(self), code, text_bytes(text@)),
    {
        if !self.wants_detail {
            return;
        }
        match DFError::new(code, text) {
            Some(e) => {
                self.stored = Some(e);
            },
            None => {},
        }
    }

    /// Whether a record is currently stored.
    pub fn is_set(&self) -> (b: bool)
        ensures
            b == (self.stored() is Some),
    {
        self.stored.is_some()
    }

    /// Hand the stored record out, leaving the slot empty.
    pub fn take(&mut self) -> (r: Option<DFError>)
        ensures
            r == old(self).stored(),
            final(self).stored() is None,
            final(self).wants_detail() == old(self).wants_detail(),
    {
        self.stored.take()
    }
}

/// Report a failure to decode foreign text: string-conversion failures
/// carry the external category.
pub fn report_invalid_text(error: &mut ErrorSlot, detail: &str)
    ensures
        slot_set(*old(error), *final(error), DFErrorCode::External, text_bytes(detail@)),
{
    error.set(DFErrorCode::External, detail);
}

/// Report a failure to build or read a columnar exchange structure: such
/// failures carry the columnar-format category.
pub fn report_exchange_failure(error: &mut ErrorSlot, detail: &str)
    ensures
        slot_set(*old(error), *final(error), DFErrorCode::Arrow, text_bytes(detail@)),
{
    error.set(DFErrorCode::Arrow, detail);
}

/// Unwrap an engine result across the boundary: hand the value through on
/// success, and on failure report the categorized error into the slot and
/// hand back nothing. The slot is untouched on success.
pub fn into_df_error<V>(result: Result<V, EngineError>, error: &mut ErrorSlot) -> (r: Option<V>)
    ensures
        match result {
            Ok(v) => r == Some(v) && *final(error) == *old(error),
            Err(e) => r is None && slot_set(
                *old(error),
                *final(error),
                category_of(e.kind),
                text_bytes(e.message@),
            ),
        },
        result is Err ==> engine_failure_reported(*old(error), *final(error)),
{
    match result {
        Ok(v) => Some(v),
        Err(e) => {
            let code = error_code_of(e.kind);
            let ghost kind = e.kind;
            let ghost text = e.message@;
            error.set(code, e.message.as_str());
            proof {
                assert(slot_set(*old(error), *error, category_of(kind), text_bytes(text)));
            }
            None
        },
    }
}

} // verus!
