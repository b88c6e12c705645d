//! The scan of a listing: which descriptors become rows, in which order, and
//! where the scan stops.

use vstd::prelude::*;
use regex::Regex;
use crate::batch::{descriptor_views, schema_view, table_schema_spec, to_record_batch, RecordBatch};
use crate::descriptor::{filename, final_segment, DescriptorView, ObjectDescriptor};
use crate::pattern::{is_match, regex_accepts};

verus! {

/// Whether a location passes the filename filter: without a pattern every
/// location does; with one, the location must have a final segment, and the
/// pattern must match it.
pub open spec fn in_scan(location: Seq<char>, pattern: Option<Regex>) -> bool {
    match pattern {
        None => true,
        Some(p) => match final_segment(location) {
            Some(segment) => regex_accepts(p, segment),
            None => false,
        },
    }
}

/// Decides whether the object at `location` belongs to the scan.
pub fn filename_in_scan(location: &str, filename_regex: &Option<Regex>) -> (r: bool)
    ensures
        r == in_scan(location@, *filename_regex),
{
    match filename_regex {
        Some(re) => match filename(location) {
            Some(segment) => is_match(re, segment.as_str()),
            None => false,
        },
        None => true,
    }
}

/// A scan that could not go on.
#[derive(Debug)]
pub enum ScanError {
    /// The backend failed while listing; the text is its own report.
    Execution(String),
}

impl ScanError {
    /// The text of the error.
    pub open spec fn spec_message(&self) -> Seq<char> {
        match self {
            ScanError::Execution(m) => m@,
        }
    }

    /// The text of the error.
    pub fn message(&self) -> (m: String)
        ensures
            m@ == self.spec_message(),
    {
        match self {
            ScanError::Execution(m) => m.clone(),
        }
    }
}

/// What the backend hands over for one listed entry: a descriptor, or the
/// text of its failure.
pub type ListingEvent = Result<ObjectDescriptor, String>;

/// An entry of a listing, or an item of a scan's output, as plain data.
pub type EntryView = Result<DescriptorView, Seq<char>>;

/// The plain data of one listing entry.
pub open spec fn event_view(event: ListingEvent) -> EntryView {
    match event {
        Ok(d) => Ok(d@),
        Err(m) => Err(m@),
    }
}

/// The plain data of a listing.
pub open spec fn listing_view(listing: Seq<ListingEvent>) -> Seq<EntryView> {
    Seq::new(listing.len(), |i: int| event_view(listing[i]))
}

/// Whether a scan with this limit stops once `emitted` rows are out.
pub open spec fn limit_reached(limit: Option<usize>, emitted: nat) -> bool {
    limit is Some && emitted >= limit->Some_0
}

/// What a scan puts out from entry `i` of the listing on, `emitted` rows
/// being out already. A failure ends the scan and is its last item. An entry
/// that the filter turns away leaves no trace. Any other entry becomes a row,
/// and the scan stops behind it where the limit is reached.
pub open spec fn scan_from(
    listing: Seq<EntryView>,
    pattern: Option<Regex>,
    limit: Option<usize>,
    i: int,
    emitted: nat,
) -> Seq<EntryView>
    decreases listing.len() - i,
{
    if i < 0 || i >= listing.len() {
        Seq::empty()
    } else {
        match listing[i] {
            Err(m) => seq![Err(m)],
            Ok(d) => if !in_scan(d.location, pattern) {
                scan_from(listing, pattern, limit, i + 1, emitted)
            } else if limit_reached(limit, emitted + 1) {
                seq![Ok(d)]
            } else {
                seq![Ok(d)] + scan_from(listing, pattern, limit, i + 1, emitted + 1)
            },
        }
    }
}

/// How far into the listing a scan reads from entry `i` on: the position
/// just behind the last entry it asks the backend for.
pub open spec fn polled_from(
    listing: Seq<EntryView>,
    pattern: Option<Regex>,
    limit: Option<usize>,
    i: int,
    emitted: nat,
) -> int
    decreases listing.len() - i,
{
    if i < 0 || i >= listing.len() {
        listing.len() as int
    } else {
        match listing[i] {
            Err(m) => i + 1,
            Ok(d) => if !in_scan(d.location, pattern) {
                polled_from(listing, pattern, limit, i + 1, emitted)
            } else if limit_reached(limit, emitted + 1) {
                i + 1
            } else {
                polled_from(listing, pattern, limit, i + 1, emitted + 1)
            },
        }
    }
}

/// The output of a whole scan: one item per row, and a failure last if the
/// backend failed.
pub open spec fn scan_rows(
    listing: Seq<EntryView>,
    pattern: Option<Regex>,
    limit: Option<usize>,
) -> Seq<EntryView> {
    scan_from(listing, pattern, limit, 0, 0)
}

/// The number of listing entries a whole scan asks the backend for.
pub open spec fn scan_polled(
    listing: Seq<EntryView>,
    pattern: Option<Regex>,
    limit: Option<usize>,
) -> int {
    polled_from(listing, pattern, limit, 0, 0)
}

/// An output item shows what the scan owes: a batch of the declared schema
/// with the one row of the descriptor, or the failure with the backend's text.
pub open spec fn item_shows(item: Result<RecordBatch, ScanError>, entry: EntryView) -> bool {
    match item {
        Ok(batch) => {
            &&& entry is Ok
            &&& schema_view(batch.schema@) == table_schema_spec()
            &&& batch.conforms()
            &&& batch.holds(seq![entry->Ok_0])
        },
        Err(e) => entry is Err && e.spec_message() == entry->Err_0,
    }
}

/// The output items show these entries, one for one.
pub open spec fn items_show(items: Seq<Result<RecordBatch, ScanError>>, entries: Seq<EntryView>) -> bool {
    &&& items.len() == entries.len()
    &&& forall|k: int| 0 <= k < items.len() ==> item_shows(#[trigger] items[k], entries[k])
}

/// The position of a scan between two entries of a listing.
#[derive(Debug)]
pub struct ScanCursor {
    /// The row limit of the scan, if it has one.
    pub limit: Option<usize>,
    /// Rows put out so far; the count stops at the largest number it can hold.
    pub emitted: usize,
    /// Whether the scan is over: no further entry may be asked for.
    pub finished: bool,
}

impl ScanCursor {
    /// A cursor before the first entry.
    pub fn new(limit: Option<usize>) -> (cursor: Self)
        ensures
            cursor.limit == limit,
            cursor.emitted == 0,
            !cursor.finished,
    {
        ScanCursor { limit, emitted: 0, finished: false }
    }

    /// Ends the scan from outside, as when the consumer wants no more rows:
    /// no further entry may be asked for.
    pub fn stop(&mut self)
        ensures
            final(self).finished,
            final(self).limit == old(self).limit,
            final(self).emitted == old(self).emitted,
    {
        self.finished = true;
    }

    /// Takes the next entry of the listing and says what to put out for it:
    /// nothing, a one-row batch, or the failure that ends the scan.
    pub fn step(&mut self, event: &ListingEvent, filename_regex: &Option<Regex>) -> (out: Option<
        Result<RecordBatch, ScanError>,
    >)
        requires
            !old(self).finished,
        ensures
            final(self).limit == old(self).limit,
            match event_view(*event) {
                Err(m) => {
                    &&& out is Some
                    &&& item_shows(out->Some_0, Err(m))
                    &&& final(self).finished
                    &&& final(self).emitted == old(self).emitted
                },
                Ok(d) => if in_scan(d.location, *filename_regex) {
                    &&& out is Some
                    &&& item_shows(out->Some_0, Ok(d))
                    &&& final(self).emitted == if old(self).emitted < usize::MAX {
                        old(self).emitted + 1
                    } else {
                        old(self).emitted as int
                    }
                    &&& final(self).finished == limit_reached(
                        old(self).limit,
                        (old(self).emitted + 1) as nat,
                    )
                } else {
                    &&& out is None
                    &&& final(self).emitted == old(self).emitted
                    &&& !final(self).finished
                },
            },
    {
        match event {
            Err(m) => {
                self.finished = true;
                Some(Err(ScanError::Execution(m.clone())))
            },
            Ok(meta) => {
                if !filename_in_scan(meta.location.as_str(), filename_regex) {
                    return None;
                }
                let mut one: Vec<ObjectDescriptor> = Vec::new();
                one.push(meta.clone());
                let batch = to_record_batch(&one);
                assert(descriptor_views(one@) =~= seq![meta@]);
                if self.emitted < usize::MAX {
                    self.emitted = self.emitted + 1;
                }
                match self.limit {
                    Some(limit) => {
                        if self.emitted >= limit {
                            self.finished = true;
                        }
                    },
                    None => {},
                }
                Some(Ok(batch))
            },
        }
    }
}

/// What a scan of a whole listing gave.
#[derive(Debug)]
pub struct ScanOutcome {
    /// The batches in the order of the listing, with the failure last if the
    /// backend failed.
    pub items: Vec<Result<RecordBatch, ScanError>>,
    /// How many entries of the listing the scan asked for.
    pub polled: usize,
}

/// Scans a listing: every entry that passes the filename filter becomes a
/// one-row batch, in the order of the listing; the scan stops behind the row
/// that reaches the limit, and at the first failure of the backend, which it
/// hands on as its last item.
pub fn to_sendable_stream(
    listing: &Vec<ListingEvent>,
    limit: Option<usize>,
    filename_regex: &Option<Regex>,
) -> (outcome: ScanOutcome)
    ensures
        items_show(
            outcome.items@,
            scan_rows(listing_view(listing@), *filename_regex, limit),
        ),
        outcome.polled == scan_polled(listing_view(listing@), *filename_regex, limit),
{
    let ghost entries = listing_view(listing@);
    let ghost pattern = *filename_regex;
    let ghost mut done: Seq<EntryView> = Seq::empty();
    let mut cursor = ScanCursor::new(limit);
    let mut items: Vec<Result<RecordBatch, ScanError>> = Vec::new();
    let mut i: usize = 0;
    while i < listing.len() && !cursor.finished
        invariant
            entries == listing_view(listing@),
            pattern == *filename_regex,
            i <= listing@.len(),
            cursor.limit == limit,
            cursor.emitted <= i,
            items_show(items@, done),
            scan_rows(entries, pattern, limit) == if cursor.finished {
                done
            } else {
                done + scan_from(entries, pattern, limit, i as int, cursor.emitted as nat)
            },
            scan_polled(entries, pattern, limit) == if cursor.finished {
                i as int
            } else {
                polled_from(entries, pattern, limit, i as int, cursor.emitted as nat)
            },
        decreases listing@.len() - i,
    {
        let ghost before = done;
        let ghost rest = scan_from(entries, pattern, limit, i as int, cursor.emitted as nat);
        assert(entries[i as int] == event_view(listing@[i as int]));
        let out = cursor.step(&listing[i], filename_regex);
        match out {
            Some(item) => {
                proof {
                    done = done.push(entries[i as int]);
                    if cursor.finished {
                        assert(before + rest =~= done);
                    } else {
                        assert(before + rest =~= done + scan_from(
                            entries,
                            pattern,
                            limit,
                            i + 1,
                            cursor.emitted as nat,
                        ));
                    }
                }
                items.push(item);
            },
            None => {},
        }
        i = i + 1;
    }
    proof {
        if !cursor.finished {
            assert(done + Seq::<EntryView>::empty() =~= done);
        }
    }
    ScanOutcome { items, polled: i }
}

} // verus!
