//! Trusted declarations of the engine items the boundary calls.
//!
//! Each wrapper makes one engine call and converts its arguments and
//! result; the asynchronous ones drive the call to completion on a fresh,
//! single-use runtime, so that every boundary operation is synchronous.
//! Nothing here is verified: the verifier believes the contracts, and a
//! reader should hold each against the named engine function.

use vstd::prelude::*;
use arrow::datatypes::DataType;
use arrow::datatypes::Field;
use arrow::datatypes::Schema;
use arrow::error::ArrowError;
use arrow::ffi::FFI_ArrowArray;
use arrow::ffi::FFI_ArrowSchema;
use arrow::record_batch::RecordBatch;
use datafusion::dataframe::DataFrame;
use datafusion::dataframe::DataFrameWriteOptions;
use datafusion::datasource::MemTable;
use datafusion::error::DataFusionError;
use datafusion::execution::context::SessionContext;
use datafusion::execution::options::CsvReadOptions;
use datafusion::execution::options::ParquetReadOptions;
use crate::error::EngineError;
use crate::error::EngineErrorKind;
use crate::error::EngineErrorKind as Kind;
use datafusion::error::DataFusionError::{
    ArrowError as ArrowFailure, Collection, Configuration, Context, Diagnostic, Execution,
    ExecutionJoin, External, Ffi, Internal, IoError, NotImplemented, ObjectStore,
    ParquetError, Plan, ResourcesExhausted, SchemaError, Shared, Substrait, SQL,
};

verus! {

#[verifier::external_type_specification]
#[verifier::external_body]
pub struct ExSessionContext(SessionContext);

#[verifier::external_type_specification]
#[verifier::external_body]
pub struct ExDataFrame(DataFrame);

#[verifier::external_type_specification]
#[verifier::external_body]
pub struct ExDataFusionError(DataFusionError);

#[verifier::external_type_specification]
#[verifier::external_body]
pub struct ExArrowError(ArrowError);

#[verifier::external_type_specification]
#[verifier::external_body]
pub struct ExSchema(Schema);

/// One materialized record batch, held opaquely. Verus refuses a direct
/// declaration of the engine's batch type (its impls lean on a trait
/// object), so the batch sits in a hidden field instead; unverified
/// callers wrap and unwrap it through the public field.
#[verifier::external_body]
pub struct EngineBatch {
    pub batch: RecordBatch,
}

#[verifier::external_type_specification]
#[verifier::external_body]
pub struct ExDataType(DataType);

#[verifier::external_type_specification]
#[verifier::external_body]
pub struct ExField(Field);

#[verifier::external_type_specification]
#[verifier::external_body]
pub struct ExFFIArrowArray(FFI_ArrowArray);

#[verifier::external_type_specification]
#[verifier::external_body]
pub struct ExFFIArrowSchema(FFI_ArrowSchema);

/// Relies on SessionContext::new: builds a fresh, empty execution context.
#[verifier::external_body]
pub(crate) fn engine_context_new() -> SessionContext {
    SessionContext::new()
}

/// Relies on SessionContext::sql, run to completion on a fresh tokio
/// runtime: plans the query text and hands back a lazy data frame.
#[verifier::external_body]
pub(crate) fn engine_sql(ctx: &SessionContext, text: &str) -> Result<DataFrame, DataFusionError> {
    match tokio::runtime::Runtime::new() {
        Ok(rt) => rt.block_on(ctx.sql(text)),
        Err(e) => Err(DataFusionError::IoError(e)),
    }
}

/// Relies on SessionContext::deregister_table: removes the named table,
/// handing back whether a table of that name was registered at all.
#[verifier::external_body]
pub(crate) fn engine_deregister(ctx: &SessionContext, name: &str) -> Result<
    bool,
    DataFusionError,
> {
    ctx.deregister_table(name).map(|table| table.is_some())
}

/// Relies on SessionContext::register_csv, run to completion on a fresh
/// tokio runtime, with CsvReadOptions assembled from the plain arguments.
#[verifier::external_body]
pub(crate) fn engine_register_csv(
    ctx: &SessionContext,
    name: &str,
    url: &str,
    has_header: bool,
    delimiter: u8,
    schema_infer_max_records: usize,
    file_extension: &str,
    schema: Option<&Schema>,
    table_partition_cols: Vec<(String, DataType)>,
) -> Result<(), DataFusionError> {
    let mut options = CsvReadOptions::new();
    options.has_header = has_header;
    options.delimiter = delimiter;
    options.schema_infer_max_records = schema_infer_max_records;
    options.file_extension = file_extension;
    options.schema = schema;
    options.table_partition_cols = table_partition_cols;
    match tokio::runtime::Runtime::new() {
        Ok(rt) => rt.block_on(ctx.register_csv(name, url, options)),
        Err(e) => Err(DataFusionError::IoError(e)),
    }
}

/// Relies on SessionContext::register_parquet, run to completion on a
/// fresh tokio runtime, with ParquetReadOptions assembled from the plain
/// arguments.
#[verifier::external_body]
pub(crate) fn engine_register_parquet(
    ctx: &SessionContext,
    name: &str,
    url: &str,
    file_extension: &str,
    parquet_pruning: Option<bool>,
    table_partition_cols: Vec<(String, DataType)>,
) -> Result<(), DataFusionError> {
    let mut options = ParquetReadOptions::default();
    options.file_extension = file_extension;
    options.parquet_pruning = parquet_pruning;
    options.table_partition_cols = table_partition_cols;
    match tokio::runtime::Runtime::new() {
        Ok(rt) => rt.block_on(ctx.register_parquet(name, url, options)),
        Err(e) => Err(DataFusionError::IoError(e)),
    }
}

/// Relies on MemTable::try_new and SessionContext::register_table:
/// builds an in-memory table from the batches and registers it under the
/// given name.
#[verifier::external_body]
pub(crate) fn engine_register_batches(
    ctx: &SessionContext,
    name: &str,
    schema: Schema,
    batches: Vec<EngineBatch>,
) -> Result<(), DataFusionError> {
    let batches: Vec<RecordBatch> = batches.into_iter().map(|b| b.batch).collect();
    let table = MemTable::try_new(std::sync::Arc::new(schema), vec![batches])?;
    ctx.register_table(name, std::sync::Arc::new(table)).map(|_| ())
}

/// Relies on DataFrame::collect, run to completion on a fresh tokio
/// runtime: executes the plan and materializes its record batches.
#[verifier::external_body]
pub(crate) fn engine_collect(df: &DataFrame) -> Result<Vec<EngineBatch>, DataFusionError> {
    match tokio::runtime::Runtime::new() {
        Ok(rt) => rt.block_on(df.clone().collect()).map(
            |batches| batches.into_iter().map(|batch| EngineBatch { batch }).collect(),
        ),
        Err(e) => Err(DataFusionError::IoError(e)),
    }
}

/// Relies on DataFrame::show, run to completion on a fresh tokio runtime:
/// executes the plan and prints a tabular rendering to standard output.
#[verifier::external_body]
pub(crate) fn engine_show(df: &DataFrame) -> Result<(), DataFusionError> {
    match tokio::runtime::Runtime::new() {
        Ok(rt) => rt.block_on(df.clone().show()),
        Err(e) => Err(DataFusionError::IoError(e)),
    }
}

/// Relies on DataFrame::write_parquet, run to completion on a fresh tokio
/// runtime, with the engine's default writer configuration.
#[verifier::external_body]
pub(crate) fn engine_write_parquet_default(df: &DataFrame, path: &str) -> Result<
    (),
    DataFusionError,
> {
    match tokio::runtime::Runtime::new() {
        Ok(rt) => rt.block_on(
            df.clone().write_parquet(path, DataFrameWriteOptions::new(), None),
        ).map(|_| ()),
        Err(e) => Err(DataFusionError::IoError(e)),
    }
}

/// Relies on DataFrame::write_parquet, run to completion on a fresh tokio
/// runtime, with the given cap on rows per output row group.
#[verifier::external_body]
pub(crate) fn engine_write_parquet_sized(df: &DataFrame, path: &str, max_row_group_size: usize) -> Result<
    (),
    DataFusionError,
> {
    let mut options = datafusion::config::TableParquetOptions::default();
    options.global.max_row_group_size = max_row_group_size;
    match tokio::runtime::Runtime::new() {
        Ok(rt) => rt.block_on(
            df.clone().write_parquet(path, DataFrameWriteOptions::new(), Some(options)),
        ).map(|_| ()),
        Err(e) => Err(DataFusionError::IoError(e)),
    }
}

/// Relies on RecordBatch::schema: hands back a copy of the batch's schema.
#[verifier::external_body]
pub(crate) fn engine_batch_schema(batch: &EngineBatch) -> Schema {
    batch.batch.schema().as_ref().clone()
}

/// Relies on StructArray::from(RecordBatch) and FFI_ArrowArray::new:
/// moves one batch into one columnar exchange array without copying its
/// buffers. Dropping the result runs its release callback exactly once.
#[verifier::external_body]
pub(crate) fn engine_batch_to_exchange(batch: EngineBatch) -> FFI_ArrowArray {
    let array = arrow::array::StructArray::from(batch.batch);
    let data = <arrow::array::StructArray as arrow::array::Array>::to_data(&array);
    FFI_ArrowArray::new(&data)
}

/// Relies on FFI_ArrowSchema::try_from(&Schema): renders a schema as a
/// columnar exchange descriptor.
#[verifier::external_body]
pub(crate) fn engine_schema_to_exchange(schema: &Schema) -> Result<FFI_ArrowSchema, ArrowError> {
    FFI_ArrowSchema::try_from(schema)
}

/// Relies on the variant set of DataFusionError: tells the variants
/// apart, one arm each — the match is exhaustive, so a new engine
/// failure variant fails this crate's build rather than being collapsed
/// into a leftover category.
#[verifier::external_body]
pub(crate) fn engine_error_kind(e: &DataFusionError) -> EngineErrorKind {
    match e {
        ArrowFailure(..) => Kind::Arrow, ParquetError(..) => Kind::Parquet,
        ObjectStore(..) => Kind::ObjectStore, IoError(..) => Kind::Io,
        SQL(..) => Kind::Sql, NotImplemented(..) => Kind::NotImplemented,
        Internal(..) => Kind::Internal, Plan(..) => Kind::Plan,
        Configuration(..) => Kind::Configuration, SchemaError(..) => Kind::Schema,
        Execution(..) => Kind::Execution, ExecutionJoin(..) => Kind::ExecutionJoin,
        ResourcesExhausted(..) => Kind::ResourcesExhausted, External(..) => Kind::External,
        Context(..) => Kind::Context, Substrait(..) => Kind::Substrait,
        Diagnostic(..) => Kind::Diagnostic, Collection(..) => Kind::Collection,
        Shared(..) => Kind::Shared, Ffi(..) => Kind::Ffi,
    }
}

/// Relies on DataFusionError's Display rendering for the message; the
/// kind comes from telling the variants apart above.
#[verifier::external_body]
pub(crate) fn engine_classify(e: DataFusionError) -> EngineError {
    let kind = engine_error_kind(&e);
    EngineError { kind, message: e.to_string() }
}

/// Relies on ArrowError's Display rendering; every such failure is
/// reported under the columnar-format kind.
#[verifier::external_body]
pub(crate) fn engine_classify_arrow(e: ArrowError) -> EngineError {
    EngineError { kind: EngineErrorKind::Arrow, message: e.to_string() }
}

/// The engine field Field::new builds from a name, a type and a
/// nullability flag: a value of its arguments alone.
pub uninterp spec fn field_of(name: Seq<char>, data_type: DataType, nullable: bool) -> Field;

/// The engine schema Schema::new builds from a field list: a value of
/// its argument alone.
pub uninterp spec fn schema_of(fields: Seq<Field>) -> Schema;

/// Relies on the derived Clone of arrow's DataType: hands back the same
/// type value.
#[verifier::external_body]
pub(crate) fn engine_clone_data_type(data_type: &DataType) -> (r: DataType)
    ensures
        r == *data_type,
{
    data_type.clone()
}

/// Relies on Field::new: builds one engine schema field, a function of
/// its arguments alone.
#[verifier::external_body]
pub(crate) fn engine_field(name: &str, data_type: DataType, nullable: bool) -> (r: Field)
    ensures
        r == field_of(name@, data_type, nullable),
{
    Field::new(name, data_type, nullable)
}

/// Relies on Schema::new: builds the engine schema carrying exactly the
/// given fields, a function of its argument alone.
#[verifier::external_body]
pub(crate) fn engine_schema(fields: Vec<Field>) -> (r: Schema)
    ensures
        r == schema_of(fields@),
{
    Schema::new(fields)
}

/// Sort an engine result into the boundary's plain form: the success
/// value passes through unchanged, a failure is reduced to its kind and
/// rendered message.
pub(crate) fn classify_result<V>(result: Result<V, DataFusionError>) -> (r: Result<
    V,
    EngineError,
>)
    ensures
        result is Ok <==> r is Ok,
        result matches Ok(v) ==> r == Ok::<V, EngineError>(v),
{
    match result {
        Ok(v) => Ok(v),
        Err(e) => Err(engine_classify(e)),
    }
}

/// Sort a columnar-format result into the boundary's plain form.
pub(crate) fn classify_arrow_result<V>(result: Result<V, ArrowError>) -> (r: Result<
    V,
    EngineError,
>)
    ensures
        result is Ok <==> r is Ok,
        result matches Ok(v) ==> r == Ok::<V, EngineError>(v),
{
    match result {
        Ok(v) => Ok(v),
        Err(e) => Err(engine_classify_arrow(e)),
    }
}

} // verus!
