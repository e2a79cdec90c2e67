//! The schema model the boundary reads: column names and nullability as
//! plain values, each column's engine type carried through as an opaque
//! value.
//!
//! Read-options handles describe schemas and partition columns in these
//! types; the trusted layer turns them into the engine's own schema
//! values only at registration time, and the derivations below pin that
//! conversion field for field.

use vstd::prelude::*;
use arrow::datatypes::DataType;
use arrow::datatypes::Field;
use arrow::datatypes::Schema;
use crate::engine::engine_clone_data_type;
use crate::engine::engine_field;
use crate::engine::engine_schema;
use crate::engine::field_of;
use crate::engine::schema_of;

verus! {

/// One column of a schema: its name, engine type and nullability. The
/// type is an engine value the boundary carries through unread; the
/// name and nullability are what the boundary's own logic works on.
#[derive(Debug)]
pub struct ColumnField {
    pub name: String,
    pub data_type: DataType,
    pub nullable: bool,
}

/// A schema-shaped list of columns. This is the one logical source for
/// both the schema view handed back to callers and the flat name/type
/// list the engine consumes.
#[derive(Debug)]
pub struct ColumnSchema {
    pub fields: Vec<ColumnField>,
}

/// The engine schema fields a model stands for, field for field.
pub open spec fn fields_of_model(model: ColumnSchema) -> Seq<Field> {
    Seq::new(
        model.fields@.len(),
        |i: int|
            field_of(
                model.fields@[i].name@,
                model.fields@[i].data_type,
                model.fields@[i].nullable,
            ),
    )
}

/// Derive the flat name/type list the engine's partition-column option
/// takes from the schema-shaped view, keeping the two consistent: same
/// length, same names and the very same type values, in order.
pub fn partition_columns_to_engine(model: &ColumnSchema) -> (cols: Vec<(String, DataType)>)
    ensures
        cols@.len() == model.fields@.len(),
        forall|i: int|
            0 <= i < cols@.len() ==> cols@[i].0@ == model.fields@[i].name@ && cols@[i].1
                == model.fields@[i].data_type,
{
    let mut cols: Vec<(String, DataType)> = Vec::new();
    let mut i: usize = 0;
    while i < model.fields.len()
        invariant
            i <= model.fields@.len(),
            cols@.len() == i,
            forall|j: int|
                0 <= j < i ==> cols@[j].0@ == model.fields@[j].name@ && cols@[j].1
                    == model.fields@[j].data_type,
        decreases model.fields@.len() - i,
    {
        let field = &model.fields[i];
        let name = field.name.clone();
        let data_type = engine_clone_data_type(&field.data_type);
        cols.push((name, data_type));
        i = i + 1;
    }
    cols
}

/// Build the engine schema value the model stands for: exactly one
/// engine field per column, in order, each carrying the column's name,
/// type and nullability.
pub fn schema_to_engine(model: &ColumnSchema) -> (s: Schema)
    ensures
        s == schema_of(fields_of_model(*model)),
{
    let mut fields: Vec<Field> = Vec::new();
    let mut i: usize = 0;
    while i < model.fields.len()
        invariant
            i <= model.fields@.len(),
            fields@.len() == i,
            forall|j: int| 0 <= j < i ==> fields@[j] == fields_of_model(*model)[j],
        decreases model.fields@.len() - i,
    {
        let field = &model.fields[i];
        let data_type = engine_clone_data_type(&field.data_type);
        fields.push(engine_field(field.name.as_str(), data_type, field.nullable));
        i = i + 1;
    }
    proof {
        assert(fields@ =~= fields_of_model(*model));
    }
    engine_schema(fields)
}

} // verus!
