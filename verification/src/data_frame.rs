//! The result handle: one lazy query result, and the operations that
//! materialize it — printing, exporting as columnar exchange structures,
//! or writing to a Parquet file.
//!
//! The handle caches nothing: each of these operations independently runs
//! the plan to completion, so repeating one re-executes the plan.

use vstd::prelude::*;
use arrow::ffi::FFI_ArrowArray;
use arrow::ffi::FFI_ArrowSchema;
use datafusion::dataframe::DataFrame;
use crate::engine;
use crate::engine::EngineBatch;
use crate::error::ErrorSlot;
use crate::error::engine_failure_reported;
use crate::error::into_df_error;
use crate::options::DFParquetWriterProperties;

verus! {

/// Owns one lazy query result.
pub struct DFDataFrame {
    pub(crate) data_frame: DataFrame,
}

impl DFDataFrame {
    /// Wrap an engine data frame in a result handle.
    pub fn new(data_frame: DataFrame) -> DFDataFrame {
        DFDataFrame { data_frame }
    }
}

/// Release a result handle. Exchange structures already exported from it
/// stay valid on their own and are released through their own callbacks.
pub fn df_data_frame_free(_data_frame: Option<Box<DFDataFrame>>) {
}

/// Execute the result and print a tabular rendering to standard output.
/// Either the run succeeds and the slot is untouched, or the slot reports
/// the engine failure.
pub fn df_data_frame_show(data_frame: &DFDataFrame, error: &mut ErrorSlot)
    ensures
        *final(error) == *old(error) || engine_failure_reported(*old(error), *final(error)),
{
    let result = engine::classify_result(engine::engine_show(&data_frame.data_frame));
    let _ = into_df_error(result, error);
}

/// Execute the result and hand back its materialized batches. This is
/// the compute half of an export: exporting wraps exactly these batches
/// into columnar exchange structures.
pub fn df_data_frame_collect(data_frame: &DFDataFrame, error: &mut ErrorSlot) -> (r: Option<
    Vec<EngineBatch>,
>)
    ensures
        r is Some ==> *final(error) == *old(error),
        r is None ==> engine_failure_reported(*old(error), *final(error)),
{
    let collected = engine::classify_result(engine::engine_collect(&data_frame.data_frame));
    into_df_error(collected, error)
}

/// Everything one export hands back: one columnar exchange array per
/// materialized batch, and — exactly when there is at least one batch —
/// the schema descriptor they all share.
pub struct DFExportedBatches {
    pub schema: Option<FFI_ArrowSchema>,
    pub arrays: Vec<FFI_ArrowArray>,
}

/// Wrap already-materialized batches into columnar exchange structures:
/// exactly one exchange array per batch, in order, with the schema of the
/// first batch exported once and shared by all of them. Fails only when
/// that schema cannot be rendered as an exchange descriptor; then nothing
/// is handed back — no partially built export escapes — and the slot
/// reports the failure.
pub fn export_batches(batches: Vec<EngineBatch>, error: &mut ErrorSlot) -> (r: Option<
    DFExportedBatches,
>)
    ensures
        r matches Some(exported) ==> {
            &&& exported.arrays@.len() == batches@.len()
            &&& (exported.schema is Some <==> batches@.len() > 0)
            &&& *final(error) == *old(error)
        },
        r is None ==> engine_failure_reported(*old(error), *final(error)),
        batches@.len() == 0 ==> r is Some,
{
    let mut batches = batches;
    if batches.len() == 0 {
        return Some(DFExportedBatches { schema: None, arrays: Vec::new() });
    }
    let schema = engine::engine_batch_schema(&batches[0]);
    let exchange_schema = engine::classify_arrow_result(
        engine::engine_schema_to_exchange(&schema),
    );
    let exchange_schema = match into_df_error(exchange_schema, error) {
        Some(s) => s,
        None => {
            return None;
        },
    };
    let ghost total = batches@.len();
    let mut arrays: Vec<FFI_ArrowArray> = Vec::new();
    while batches.len() > 0
        invariant
            arrays@.len() + batches@.len() == total,
        decreases batches@.len(),
    {
        let batch = batches.remove(0);
        arrays.push(engine::engine_batch_to_exchange(batch));
    }
    Some(DFExportedBatches { schema: Some(exchange_schema), arrays })
}

/// Execute the result and export it: collect the materialized batches,
/// then wrap them through [`export_batches`], whose contract pins one
/// exchange array per batch and the schema exported exactly when at least
/// one batch came back.
pub fn df_data_frame_export(data_frame: &DFDataFrame, error: &mut ErrorSlot) -> (r: Option<
    DFExportedBatches,
>)
    ensures
        r matches Some(exported) ==> {
            &&& (exported.schema is Some <==> exported.arrays@.len() > 0)
            &&& *final(error) == *old(error)
        },
        r is None ==> engine_failure_reported(*old(error), *final(error)),
{
    let batches = match df_data_frame_collect(data_frame, error) {
        Some(batches) => batches,
        None => {
            return None;
        },
    };
    export_batches(batches, error)
}

/// Execute the result and write it to `path` as a Parquet file, with the
/// given writer properties or the engine defaults when none are passed.
pub fn df_data_frame_write_parquet(
    data_frame: &DFDataFrame,
    path: &str,
    writer_properties: Option<&DFParquetWriterProperties>,
    error: &mut ErrorSlot,
) -> (r: bool)
    ensures
        r ==> *final(error) == *old(error),
        !r ==> engine_failure_reported(*old(error), *final(error)),
{
    let result = match writer_properties {
        Some(properties) => match properties.max_row_group_size {
            Some(size) => engine::engine_write_parquet_sized(
                &data_frame.data_frame,
                path,
                size,
            ),
            None => engine::engine_write_parquet_default(&data_frame.data_frame, path),
        },
        None => engine::engine_write_parquet_default(&data_frame.data_frame, path),
    };
    match into_df_error(engine::classify_result(result), error) {
        Some(_) => true,
        None => false,
    }
}

} // verus!
