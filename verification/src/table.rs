//! The listing table and the plan that scans it.

use vstd::prelude::*;
use vstd::string::*;
use regex::Regex;
use crate::batch::{
    copy_schema, first_out_of_bounds, project_schema, projected, schema_view, table_schema,
    table_schema_spec, Field, ProjectionError,
};
use crate::descriptor::{clone_opt_text, opt_text};
use crate::pattern::{clone_filter, compile, regex_compiles, regex_source};
use crate::scan::{
    items_show, listing_view, scan_polled, scan_rows, to_sendable_stream, ListingEvent,
    ScanOutcome,
};

verus! {

/// Why a table could not be made.
#[derive(Debug)]
pub enum TableError {
    /// The filename pattern is no regular expression.
    InvalidPattern { pattern: String },
}

/// What a table declares of its rows.
#[derive(Debug)]
pub enum Constraint {
    /// The columns at these positions of the schema identify a row.
    PrimaryKey(Vec<usize>),
}

/// The kind of a table.
#[derive(Debug, Clone, Copy, PartialEq, Eq, Structural)]
pub enum TableType {
    Base,
}

/// What a table does with a predicate that the engine offers it.
#[derive(Debug, Clone, Copy, PartialEq, Eq, Structural)]
pub enum TableProviderFilterPushDown {
    /// The table does not apply the predicate; the engine must.
    Unsupported,
}

/// How a plan produces its rows.
#[derive(Debug, Clone, Copy, PartialEq, Eq, Structural)]
pub struct PlanProperties {
    /// The number of partitions the plan's output comes in.
    pub partitions: usize,
    /// Whether the output is finite.
    pub bounded: bool,
}

/// A table whose rows are the objects of a store.
#[derive(Debug)]
pub struct ObjectStoreMetadataTable {
    /// Directory-like prefix handed to the backend as it is.
    pub prefix: Option<String>,
    /// Filter on the final segment of each location, applied to what the
    /// backend lists.
    pub filename_regex: Option<Regex>,
}

impl ObjectStoreMetadataTable {
    /// Makes a table. The filename pattern is compiled here, once; a pattern
    /// that is no regular expression is the only reason to fail.
    pub fn try_new(prefix: Option<String>, filename_regex: Option<String>) -> (r: Result<
        Self,
        TableError,
    >)
        ensures
            r is Ok <==> (filename_regex is None || regex_compiles(filename_regex->Some_0@)),
            r is Ok ==> {
                &&& opt_text(r->Ok_0.prefix) == opt_text(prefix)
                &&& r->Ok_0.filename_regex is Some <==> filename_regex is Some
                &&& filename_regex is Some ==> regex_source(r->Ok_0.filename_regex->Some_0)
                    == filename_regex->Some_0@
            },
            r is Err ==> (r->Err_0 matches TableError::InvalidPattern { pattern } && pattern@
                == filename_regex->Some_0@),
    {
        match filename_regex {
            None => Ok(ObjectStoreMetadataTable { prefix, filename_regex: None }),
            Some(pattern) => match compile(pattern.as_str()) {
                Some(re) => Ok(ObjectStoreMetadataTable { prefix, filename_regex: Some(re) }),
                None => Err(TableError::InvalidPattern { pattern }),
            },
        }
    }

    /// The table's one constraint: the location, column 0, identifies a row.
    /// It is a promise of the backend, not enforced here.
    pub fn constraints(&self) -> (r: Vec<Constraint>)
        ensures
            r@.len() == 1,
            r@[0] matches Constraint::PrimaryKey(columns) && columns@ == seq![0usize],
    {
        let mut key: Vec<usize> = Vec::new();
        key.push(0);
        let mut r: Vec<Constraint> = Vec::new();
        r.push(Constraint::PrimaryKey(key));
        r
    }

    /// The declared schema.
    pub fn schema(&self) -> (schema: Vec<Field>)
        ensures
            schema_view(schema@) == table_schema_spec(),
    {
        table_schema()
    }

    /// The kind of the table.
    pub fn table_type(&self) -> (t: TableType)
        ensures
            t == TableType::Base,
    {
        TableType::Base
    }

    /// Plans a scan. The projection picks columns of the declared schema for
    /// the plan's output schema; the limit, the prefix and the filename
    /// pattern go into the plan as they are. Only a projection that names a
    /// column the schema does not have is refused.
    pub fn scan(&self, projection: Option<&Vec<usize>>, limit: Option<usize>) -> (r: Result<
        ObjectStoreMetadataExec,
        ProjectionError,
    >)
        ensures
            r is Ok <==> (projection is None || forall|k: int|
                0 <= k < projection->Some_0@.len() ==> projection->Some_0@[k] < 5),
            r is Ok ==> {
                &&& r->Ok_0.limit == limit
                &&& opt_text(r->Ok_0.prefix) == opt_text(self.prefix)
                &&& r->Ok_0.filename_regex == self.filename_regex
                &&& schema_view(r->Ok_0.projected_schema@) == match projection {
                    None => table_schema_spec(),
                    Some(p) => projected(table_schema_spec(), p@),
                }
            },
            r is Err ==> r->Err_0.columns == 5 && exists|k: int| #[trigger]
                first_out_of_bounds(projection->Some_0@, 5, k) && projection->Some_0@[k]
                    == r->Err_0.index,
    {
        let schema = table_schema();
        assert(schema@.len() == schema_view(schema@).len());
        match project_schema(&schema, projection) {
            Ok(projected_schema) => Ok(
                ObjectStoreMetadataExec::new(
                    projected_schema,
                    limit,
                    clone_opt_text(&self.prefix),
                    clone_filter(&self.filename_regex),
                ),
            ),
            Err(e) => Err(e),
        }
    }

    /// Says of each of `filters` predicates that the table does not apply it.
    pub fn supports_filters_pushdown(&self, filters: usize) -> (r: Vec<
        TableProviderFilterPushDown,
    >)
        ensures
            r@.len() == filters,
            forall|i: int|
                0 <= i < filters ==> r@[i] == TableProviderFilterPushDown::Unsupported,
    {
        let mut r: Vec<TableProviderFilterPushDown> = Vec::new();
        let mut i: usize = 0;
        while i < filters
            invariant
                i <= filters,
                r@.len() == i,
                forall|j: int| 0 <= j < i ==> r@[j] == TableProviderFilterPushDown::Unsupported,
            decreases filters - i,
        {
            r.push(TableProviderFilterPushDown::Unsupported);
            i = i + 1;
        }
        r
    }
}

/// The plan of one scan of the listing table.
#[derive(Debug)]
pub struct ObjectStoreMetadataExec {
    /// The schema of the plan's output.
    pub projected_schema: Vec<Field>,
    /// The most rows the engine wants.
    pub limit: Option<usize>,
    /// Prefix handed to the backend as it is.
    pub prefix: Option<String>,
    /// Filter on the final segment of each location.
    pub filename_regex: Option<Regex>,
}

impl ObjectStoreMetadataExec {
    /// A plan that holds what it is given.
    pub fn new(
        projected_schema: Vec<Field>,
        limit: Option<usize>,
        prefix: Option<String>,
        filename_regex: Option<Regex>,
    ) -> (plan: Self)
        ensures
            plan.projected_schema == projected_schema,
            plan.limit == limit,
            plan.prefix == prefix,
            plan.filename_regex == filename_regex,
    {
        ObjectStoreMetadataExec { projected_schema, limit, prefix, filename_regex }
    }

    /// The plan's name.
    pub fn name(&self) -> (name: &'static str)
        ensures
            name@ == "ObjectStoreMetadataExec"@,
    {
        "ObjectStoreMetadataExec"
    }

    /// One line that describes the plan: its name and its prefix, the empty
    /// text standing for no prefix.
    pub fn fmt_as(&self) -> (line: String)
        ensures
            line@ == "ObjectStoreMetadataExec"@ + " prefix="@ + match self.prefix {
                Some(p) => p@,
                None => Seq::<char>::empty(),
            },
    {
        let mut line = String::from_str(self.name());
        line.append(" prefix=");
        match &self.prefix {
            Some(p) => {
                line.append(p.as_str());
            },
            None => {
                assert(line@ + Seq::<char>::empty() =~= line@);
            },
        }
        line
    }

    /// The schema of the plan's output.
    pub fn schema(&self) -> (schema: Vec<Field>)
        ensures
            schema_view(schema@) == schema_view(self.projected_schema@),
    {
        copy_schema(&self.projected_schema)
    }

    /// The plan produces one partition, and a finite one.
    pub fn properties(&self) -> (p: PlanProperties)
        ensures
            p == (PlanProperties { partitions: 1, bounded: true }),
    {
        PlanProperties { partitions: 1, bounded: true }
    }

    /// The number of plans below this one: none.
    pub fn children(&self) -> (n: usize)
        ensures
            n == 0,
    {
        0
    }

    /// The plan with other plans below it: itself, whatever is offered,
    /// since it has none.
    pub fn with_new_children(self, children: usize) -> (plan: Self)
        ensures
            plan == self,
    {
        self
    }

    /// Runs the plan over what the backend lists under the plan's prefix.
    pub fn execute(&self, listing: &Vec<ListingEvent>) -> (outcome: ScanOutcome)
        ensures
            items_show(
                outcome.items@,
                scan_rows(listing_view(listing@), self.filename_regex, self.limit),
            ),
            outcome.polled == scan_polled(
                listing_view(listing@),
                self.filename_regex,
                self.limit,
            ),
    {
        to_sendable_stream(listing, self.limit, &self.filename_regex)
    }
}

} // verus!
