//! The schema of the listing table and the column-major batches that carry
//! its rows.

use vstd::prelude::*;
use vstd::string::*;
use crate::descriptor::{clone_opt_text, DescriptorView, ObjectDescriptor};

verus! {

/// The type of a column's cells.
#[derive(Debug, Clone, Copy, PartialEq, Eq, Structural)]
pub enum DataType {
    Utf8,
    TimestampMillisecond,
    UInt64,
}

/// One column of a schema.
#[derive(Debug)]
pub struct Field {
    pub name: String,
    pub data_type: DataType,
    pub nullable: bool,
}

/// A schema column with its name as a character sequence.
pub struct FieldView {
    pub name: Seq<char>,
    pub data_type: DataType,
    pub nullable: bool,
}

impl View for Field {
    type V = FieldView;

    open spec fn view(&self) -> FieldView {
        FieldView { name: self.name@, data_type: self.data_type, nullable: self.nullable }
    }
}

impl Clone for Field {
    fn clone(&self) -> (r: Self)
        ensures
            r@ == self@,
    {
        Field { name: self.name.clone(), data_type: self.data_type, nullable: self.nullable }
    }
}

/// A schema as the sequence of its columns' views.
pub open spec fn schema_view(schema: Seq<Field>) -> Seq<FieldView> {
    Seq::new(schema.len(), |i: int| schema[i]@)
}

/// The declared schema of the listing table: five columns, in this order.
pub open spec fn table_schema_spec() -> Seq<FieldView> {
    seq![
        FieldView { name: "location"@, data_type: DataType::Utf8, nullable: false },
        FieldView {
            name: "last_modified"@,
            data_type: DataType::TimestampMillisecond,
            nullable: false,
        },
        FieldView { name: "size"@, data_type: DataType::UInt64, nullable: false },
        FieldView { name: "e_tag"@, data_type: DataType::Utf8, nullable: true },
        FieldView { name: "version"@, data_type: DataType::Utf8, nullable: true },
    ]
}

/// The declared schema of the listing table.
pub fn table_schema() -> (schema: Vec<Field>)
    ensures
        schema_view(schema@) == table_schema_spec(),
{
    let mut schema: Vec<Field> = Vec::new();
    schema.push(
        Field { name: String::from_str("location"), data_type: DataType::Utf8, nullable: false },
    );
    schema.push(
        Field {
            name: String::from_str("last_modified"),
            data_type: DataType::TimestampMillisecond,
            nullable: false,
        },
    );
    schema.push(
        Field { name: String::from_str("size"), data_type: DataType::UInt64, nullable: false },
    );
    schema.push(
        Field { name: String::from_str("e_tag"), data_type: DataType::Utf8, nullable: true },
    );
    schema.push(
        Field { name: String::from_str("version"), data_type: DataType::Utf8, nullable: true },
    );
    assert(schema_view(schema@) =~= table_schema_spec());
    schema
}

/// Copies a schema.
pub fn copy_schema(schema: &Vec<Field>) -> (out: Vec<Field>)
    ensures
        schema_view(out@) == schema_view(schema@),
{
    let mut out: Vec<Field> = Vec::new();
    let mut i: usize = 0;
    while i < schema.len()
        invariant
            i <= schema@.len(),
            out@.len() == i,
            forall|j: int| 0 <= j < i ==> out@[j]@ == schema@[j]@,
        decreases schema@.len() - i,
    {
        out.push(schema[i].clone());
        i = i + 1;
    }
    assert(schema_view(out@) =~= schema_view(schema@));
    out
}

/// The columns of `schema` picked by `projection`, in the order it names them.
pub open spec fn projected(schema: Seq<FieldView>, projection: Seq<usize>) -> Seq<FieldView>
    recommends
        forall|k: int| 0 <= k < projection.len() ==> projection[k] < schema.len(),
{
    Seq::new(projection.len(), |k: int| schema[projection[k] as int])
}

/// Position `k` of `projection` is the first that names no column among
/// `columns` many.
pub open spec fn first_out_of_bounds(projection: Seq<usize>, columns: nat, k: int) -> bool {
    &&& 0 <= k < projection.len()
    &&& projection[k] >= columns
    &&& forall|j: int| 0 <= j < k ==> projection[j] < columns
}

/// A projection names a column that the schema does not have.
#[derive(Debug, Clone, Copy, PartialEq, Eq, Structural)]
pub struct ProjectionError {
    /// The first offending column index.
    pub index: usize,
    /// The number of columns in the schema.
    pub columns: usize,
}

/// Applies an optional column projection to a schema. Without a projection
/// the schema is returned as it is. The first index that names no column is
/// reported.
pub fn project_schema(schema: &Vec<Field>, projection: Option<&Vec<usize>>) -> (r: Result<
    Vec<Field>,
    ProjectionError,
>)
    ensures
        projection is None ==> r is Ok && schema_view(r->Ok_0@) == schema_view(schema@),
        projection is Some ==> (r is Ok <==> forall|k: int|
            0 <= k < projection->Some_0@.len() ==> projection->Some_0@[k] < schema@.len()),
        projection is Some && r is Ok ==> schema_view(r->Ok_0@) == projected(
            schema_view(schema@),
            projection->Some_0@,
        ),
        r is Err ==> r->Err_0.columns == schema@.len() && exists|k: int| #[trigger]
            first_out_of_bounds(projection->Some_0@, schema@.len(), k)
                && projection->Some_0@[k] == r->Err_0.index,
{
    match projection {
        None => Ok(copy_schema(schema)),
        Some(p) => {
            let mut out: Vec<Field> = Vec::new();
            let mut k: usize = 0;
            while k < p.len()
                invariant
                    projection == Some(p),
                    k <= p@.len(),
                    out@.len() == k,
                    forall|j: int| 0 <= j < k ==> p@[j] < schema@.len(),
                    forall|j: int| 0 <= j < k ==> out@[j]@ == schema@[p@[j] as int]@,
                decreases p@.len() - k,
            {
                let index: usize = p[k];
                if index >= schema.len() {
                    assert(first_out_of_bounds(projection->Some_0@, schema@.len(), k as int));
                    return Err(ProjectionError { index, columns: schema.len() });
                }
                out.push(schema[index].clone());
                k = k + 1;
            }
            assert(schema_view(out@) =~= projected(schema_view(schema@), p@));
            Ok(out)
        },
    }
}

/// One cell of a batch.
pub enum CellView {
    Null,
    Utf8(Seq<char>),
    TimestampMillisecond(i64),
    UInt64(u64),
}

/// One column of a batch: its cells, all of one type, each possibly absent.
#[derive(Debug)]
pub enum Column {
    Utf8(Vec<Option<String>>),
    TimestampMillisecond(Vec<Option<i64>>),
    UInt64(Vec<Option<u64>>),
}

impl Column {
    /// The type of the column's cells.
    pub open spec fn data_type(&self) -> DataType {
        match self {
            Column::Utf8(_) => DataType::Utf8,
            Column::TimestampMillisecond(_) => DataType::TimestampMillisecond,
            Column::UInt64(_) => DataType::UInt64,
        }
    }

    /// The column's cells, top to bottom.
    pub open spec fn cells(&self) -> Seq<CellView> {
        match self {
            Column::Utf8(v) => Seq::new(
                v@.len(),
                |i: int|
                    match v@[i] {
                        Some(s) => CellView::Utf8(s@),
                        None => CellView::Null,
                    },
            ),
            Column::TimestampMillisecond(v) => Seq::new(
                v@.len(),
                |i: int|
                    match v@[i] {
                        Some(t) => CellView::TimestampMillisecond(t),
                        None => CellView::Null,
                    },
            ),
            Column::UInt64(v) => Seq::new(
                v@.len(),
                |i: int|
                    match v@[i] {
                        Some(n) => CellView::UInt64(n),
                        None => CellView::Null,
                    },
            ),
        }
    }

    /// The number of cells.
    pub fn len(&self) -> (n: usize)
        ensures
            n == self.cells().len(),
    {
        match self {
            Column::Utf8(v) => v.len(),
            Column::TimestampMillisecond(v) => v.len(),
            Column::UInt64(v) => v.len(),
        }
    }
}

/// A string cell that may be absent.
pub open spec fn text_cell(s: Option<Seq<char>>) -> CellView {
    match s {
        Some(t) => CellView::Utf8(t),
        None => CellView::Null,
    }
}

/// The five cells of the row that stands for one descriptor, in column order.
pub open spec fn row_of(d: DescriptorView) -> Seq<CellView> {
    seq![
        CellView::Utf8(d.location),
        CellView::TimestampMillisecond(d.last_modified),
        CellView::UInt64(d.size),
        text_cell(d.e_tag),
        text_cell(d.version),
    ]
}

/// The views of a run of descriptors.
pub open spec fn descriptor_views(list: Seq<ObjectDescriptor>) -> Seq<DescriptorView> {
    Seq::new(list.len(), |i: int| list[i]@)
}

/// A batch of rows, held column by column beside the schema it was built for.
#[derive(Debug)]
pub struct RecordBatch {
    pub schema: Vec<Field>,
    pub columns: Vec<Column>,
}

impl RecordBatch {
    /// The batch agrees with its own schema: one column per field, each of
    /// the field's type, none with an absent cell unless the field is
    /// nullable, and all of one length.
    pub open spec fn conforms(&self) -> bool {
        &&& self.columns@.len() == self.schema@.len()
        &&& forall|c: int|
            0 <= c < self.columns@.len() ==> {
                &&& (#[trigger] self.columns@[c]).data_type() == self.schema@[c].data_type
                &&& self.columns@[c].cells().len() == self.spec_num_rows()
                &&& !self.schema@[c].nullable ==> forall|i: int|
                    0 <= i < self.columns@[c].cells().len() ==> self.columns@[c].cells()[i]
                        != CellView::Null
            }
    }

    /// The number of rows: the length of the first column, 0 without columns.
    pub open spec fn spec_num_rows(&self) -> nat {
        if self.columns@.len() == 0 {
            0
        } else {
            self.columns@[0].cells().len()
        }
    }

    /// The batch holds exactly these descriptors, one per row and in this
    /// order, each spread over the five columns.
    pub open spec fn holds(&self, rows: Seq<DescriptorView>) -> bool {
        &&& self.columns@.len() == 5
        &&& forall|c: int|
            0 <= c < 5 ==> (#[trigger] self.columns@[c]).cells().len() == rows.len()
        &&& forall|c: int, i: int|
            0 <= c < 5 && 0 <= i < rows.len() ==> (#[trigger] self.columns@[c].cells()[i])
                == row_of(rows[i])[c]
    }

    /// The number of rows.
    pub fn num_rows(&self) -> (n: usize)
        ensures
            n == self.spec_num_rows(),
    {
        if self.columns.len() == 0 {
            0
        } else {
            self.columns[0].len()
        }
    }
}

/// Turns a run of descriptors into one batch of the declared schema: row `i`
/// is descriptor `i`, with its location, modification time, size, e-tag and
/// version in the five columns.
pub fn to_record_batch(meta_list: &Vec<ObjectDescriptor>) -> (batch: RecordBatch)
    ensures
        schema_view(batch.schema@) == table_schema_spec(),
        batch.conforms(),
        batch.holds(descriptor_views(meta_list@)),
        batch.spec_num_rows() == meta_list@.len(),
{
    let mut location: Vec<Option<String>> = Vec::new();
    let mut last_modified: Vec<Option<i64>> = Vec::new();
    let mut size: Vec<Option<u64>> = Vec::new();
    let mut e_tag: Vec<Option<String>> = Vec::new();
    let mut version: Vec<Option<String>> = Vec::new();
    let mut i: usize = 0;
    while i < meta_list.len()
        invariant
            i <= meta_list@.len(),
            location@.len() == i,
            last_modified@.len() == i,
            size@.len() == i,
            e_tag@.len() == i,
            version@.len() == i,
            forall|j: int|
                0 <= j < i ==> location@[j] is Some && (#[trigger] location@[j])->Some_0@
                    == meta_list@[j].location@,
            forall|j: int|
                0 <= j < i ==> (#[trigger] last_modified@[j]) == Some(
                    meta_list@[j].last_modified,
                ),
            forall|j: int| 0 <= j < i ==> (#[trigger] size@[j]) == Some(meta_list@[j].size),
            forall|j: int|
                0 <= j < i ==> crate::descriptor::opt_text(#[trigger] e_tag@[j])
                    == crate::descriptor::opt_text(meta_list@[j].e_tag),
            forall|j: int|
                0 <= j < i ==> crate::descriptor::opt_text(#[trigger] version@[j])
                    == crate::descriptor::opt_text(meta_list@[j].version),
        decreases meta_list@.len() - i,
    {
        let meta = &meta_list[i];
        location.push(Some(meta.location.clone()));
        last_modified.push(Some(meta.last_modified));
        size.push(Some(meta.size));
        e_tag.push(clone_opt_text(&meta.e_tag));
        version.push(clone_opt_text(&meta.version));
        i = i + 1;
    }
    let schema = table_schema();
    let mut columns: Vec<Column> = Vec::new();
    columns.push(Column::Utf8(location));
    columns.push(Column::TimestampMillisecond(last_modified));
    columns.push(Column::UInt64(size));
    columns.push(Column::Utf8(e_tag));
    columns.push(Column::Utf8(version));
    let batch = RecordBatch { schema, columns };
    proof {
        let rows = descriptor_views(meta_list@);
        let spec = table_schema_spec();
        assert(schema_view(batch.schema@).len() == 5);
        assert forall|c: int| 0 <= c < 5 implies batch.schema@[c]@ == spec[c] by {
            assert(schema_view(batch.schema@)[c] == spec[c]);
        }
        assert forall|c: int, k: int| 0 <= c < 5 && 0 <= k < rows.len() implies (
        #[trigger] batch.columns@[c].cells()[k]) == row_of(rows[k])[c] by {
            assert(rows[k] == meta_list@[k]@);
        }
        assert(batch.holds(rows));
        assert(batch.conforms());
    }
    batch
}

} // verus!
