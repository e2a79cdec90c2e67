//! The session handle: one engine execution context and the boundary
//! operations that run against it.
//!
//! Every fallible operation here keeps the slot protocol: on success the
//! error slot is untouched; on failure the documented sentinel comes back
//! and the slot holds the categorized failure (when the caller asked for
//! detail and the message could round-trip).

use vstd::prelude::*;
use vstd::string::StringExecFns;
use arrow::datatypes::Schema;
use datafusion::execution::context::SessionContext;
use crate::data_frame::DFDataFrame;
use crate::engine;
use crate::engine::EngineBatch;
use crate::error::DFErrorCode;
use crate::error::EngineError;
use crate::error::ErrorSlot;
use crate::error::category_of;
use crate::error::engine_failure_reported;
use crate::error::into_df_error;
use crate::error::slot_set;
use crate::error::text_bytes;
use crate::options::DFCSVReadOptions;
use crate::options::DFParquetReadOptions;
use crate::schema::partition_columns_to_engine;
use crate::schema::schema_to_engine;

verus! {

/// Owns one engine execution context; the root object every result or
/// registration is created from.
pub struct DFSessionContext {
    pub(crate) context: SessionContext,
}

impl DFSessionContext {
    /// Wrap an engine context in a session handle.
    pub fn new(context: SessionContext) -> DFSessionContext {
        DFSessionContext { context }
    }
}

/// Create a fresh, empty session. Always succeeds.
pub fn df_session_context_new() -> DFSessionContext {
    DFSessionContext::new(engine::engine_context_new())
}

/// Release a session. Results already produced from it stay valid on
/// their own.
pub fn df_session_context_free(_context: Option<Box<DFSessionContext>>) {
}

/// Plan the given SQL text against the session. On success the slot is
/// untouched and a lazy result handle comes back; on failure nothing
/// comes back and the slot reports the engine failure.
pub fn df_session_context_sql(context: &DFSessionContext, sql: &str, error: &mut ErrorSlot) -> (r:
    Option<DFDataFrame>)
    ensures
        r is Some ==> *final(error) == *old(error),
        r is None ==> engine_failure_reported(*old(error), *final(error)),
{
    let result = engine::classify_result(engine::engine_sql(&context.context, sql));
    match into_df_error(result, error) {
        Some(data_frame) => Some(DFDataFrame::new(data_frame)),
        None => None,
    }
}

/// The message stored when a deregistration names no registered table.
pub open spec fn missing_table_message(name: Seq<char>) -> Seq<char> {
    "table not found: "@ + name
}

/// Either the named table was missing and the slot reports that under the
/// query-plan category, or the engine itself failed and the slot reports
/// the engine failure.
pub open spec fn deregister_failure_reported(
    pre: ErrorSlot,
    post: ErrorSlot,
    name: Seq<char>,
) -> bool {
    ||| slot_set(pre, post, DFErrorCode::Plan, text_bytes(missing_table_message(name)))
    ||| engine_failure_reported(pre, post)
}

/// Decide the boundary result of a deregistration outcome. A present
/// table deregisters silently; a missing one is reported under the
/// query-plan category; an engine failure is reported as such.
pub fn deregister_outcome(
    outcome: Result<bool, EngineError>,
    name: &str,
    error: &mut ErrorSlot,
) -> (r: bool)
    ensures
        match outcome {
            Ok(true) => r == true && *final(error) == *old(error),
            Ok(false) => r == false && slot_set(
                *old(error),
                *final(error),
                DFErrorCode::Plan,
                text_bytes(missing_table_message(name@)),
            ),
            Err(e) => r == false && slot_set(
                *old(error),
                *final(error),
                category_of(e.kind),
                text_bytes(e.message@),
            ),
        },
{
    match outcome {
        Ok(true) => true,
        Ok(false) => {
            let mut message = String::from_str("table not found: ");
            message.append(name);
            error.set(DFErrorCode::Plan, message.as_str());
            false
        },
        Err(e) => {
            into_df_error::<bool>(Err(e), error);
            false
        },
    }
}

/// Remove a previously registered table. Hands back `true` exactly when a
/// table of that name was registered; a missing table or an engine
/// failure hands back `false` with the slot populated accordingly.
pub fn df_session_context_deregister(
    context: &DFSessionContext,
    name: &str,
    error: &mut ErrorSlot,
) -> (r: bool)
    ensures
        r ==> *final(error) == *old(error),
        !r ==> deregister_failure_reported(*old(error), *final(error), name@),
{
    let outcome = engine::classify_result(engine::engine_deregister(&context.context, name));
    deregister_outcome(outcome, name, error)
}

/// Build an in-memory table named `name` from the given batches, sharing
/// one schema, and register it. Each batch is consumed. Fails when the
/// batches do not fit the schema or the registration itself fails.
pub fn df_session_context_register_record_batches(
    context: &DFSessionContext,
    name: &str,
    schema: Schema,
    record_batches: Vec<EngineBatch>,
    error: &mut ErrorSlot,
) -> (r: bool)
    ensures
        r ==> *final(error) == *old(error),
        !r ==> engine_failure_reported(*old(error), *final(error)),
{
    let result = engine::classify_result(
        engine::engine_register_batches(&context.context, name, schema, record_batches),
    );
    match into_df_error(result, error) {
        Some(_) => true,
        None => false,
    }
}

/// Register a CSV-backed table under `name`, reading from `url`, with the
/// given options or the engine defaults when none are passed.
pub fn df_session_context_register_csv(
    context: &DFSessionContext,
    name: &str,
    url: &str,
    options: Option<&DFCSVReadOptions>,
    error: &mut ErrorSlot,
) -> (r: bool)
    ensures
        r ==> *final(error) == *old(error),
        !r ==> engine_failure_reported(*old(error), *final(error)),
{
    let defaults = DFCSVReadOptions::new();
    let opts = match options {
        Some(o) => o,
        None => &defaults,
    };
    let schema_value: Option<Schema> = match &opts.schema {
        Some(model) => Some(schema_to_engine(model)),
        None => None,
    };
    let partition_cols = match &opts.table_partition_columns {
        Some(model) => partition_columns_to_engine(model),
        None => Vec::new(),
    };
    let result = engine::classify_result(
        engine::engine_register_csv(
            &context.context,
            name,
            url,
            opts.has_header,
            opts.delimiter,
            opts.schema_infer_max_records,
            opts.file_extension.as_str(),
            schema_value.as_ref(),
            partition_cols,
        ),
    );
    match into_df_error(result, error) {
        Some(_) => true,
        None => false,
    }
}

/// Register a Parquet-backed table under `name`, reading from `url`, with
/// the given options or the engine defaults when none are passed.
pub fn df_session_context_register_parquet(
    context: &DFSessionContext,
    name: &str,
    url: &str,
    options: Option<&DFParquetReadOptions>,
    error: &mut ErrorSlot,
) -> (r: bool)
    ensures
        r ==> *final(error) == *old(error),
        !r ==> engine_failure_reported(*old(error), *final(error)),
{
    let defaults = DFParquetReadOptions::new();
    let opts = match options {
        Some(o) => o,
        None => &defaults,
    };
    let partition_cols = match &opts.table_partition_columns {
        Some(model) => partition_columns_to_engine(model),
        None => Vec::new(),
    };
    let result = engine::classify_result(
        engine::engine_register_parquet(
            &context.context,
            name,
            url,
            opts.file_extension.as_str(),
            opts.pruning,
            partition_cols,
        ),
    );
    match into_df_error(result, error) {
        Some(_) => true,
        None => false,
    }
}

} // verus!
