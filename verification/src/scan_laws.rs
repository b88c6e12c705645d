//! What holds of every scan: which rows a listing gives that the backend
//! delivers without failure, where a limit stops it, and what a failure of
//! the backend leaves of it.

use vstd::prelude::*;
use regex::Regex;
use crate::pattern::regex_accepts;
use crate::descriptor::{final_segment, DescriptorView};
use crate::scan::{
    in_scan, limit_reached, polled_from, scan_from, scan_polled, scan_rows, EntryView,
};

verus! {

/// A listing that the backend delivers without failure.
pub open spec fn delivered(descriptors: Seq<DescriptorView>) -> Seq<EntryView> {
    Seq::new(descriptors.len(), |i: int| Ok(descriptors[i]))
}

/// The filename filter as a predicate on descriptors.
pub open spec fn passes(pattern: Option<Regex>) -> spec_fn(DescriptorView) -> bool {
    |d: DescriptorView| in_scan(d.location, pattern)
}

/// The rows that a limit lets through, `emitted` rows being out already: all
/// of them without a limit; with one, as many as are still missing, and at
/// least one, since the limit is looked at only behind a row.
pub open spec fn allowed(rows: Seq<DescriptorView>, limit: Option<usize>, emitted: nat) -> Seq<
    DescriptorView,
> {
    match limit {
        None => rows,
        Some(n) => {
            let missing = if n - emitted >= 1 {
                n - emitted
            } else {
                1
            };
            if missing <= rows.len() {
                rows.take(missing)
            } else {
                rows
            }
        },
    }
}

/// How many of the entries from `from` up to, not including, `to` pass the
/// filter.
pub open spec fn count_passing(
    descriptors: Seq<DescriptorView>,
    pattern: Option<Regex>,
    from: int,
    to: int,
) -> nat
    decreases to - from,
{
    if from < 0 || from >= to || to > descriptors.len() {
        0
    } else {
        let here: nat = if in_scan(descriptors[from].location, pattern) {
            1
        } else {
            0
        };
        here + count_passing(descriptors, pattern, from + 1, to)
    }
}

proof fn lemma_scan_from_delivered(
    descriptors: Seq<DescriptorView>,
    pattern: Option<Regex>,
    limit: Option<usize>,
    i: int,
    emitted: nat,
)
    requires
        0 <= i <= descriptors.len(),
        limit is Some ==> emitted == 0 || emitted < limit->Some_0,
    ensures
        scan_from(delivered(descriptors), pattern, limit, i, emitted) == delivered(
            allowed(descriptors.skip(i).filter(passes(pattern)), limit, emitted),
        ),
    decreases descriptors.len() - i,
{
    let listing = delivered(descriptors);
    let f = passes(pattern);
    let tail = descriptors.skip(i);
    if i == descriptors.len() {
        tail.lemma_filter_len(f);
        assert(scan_from(listing, pattern, limit, i, emitted) =~= delivered(
            allowed(tail.filter(f), limit, emitted),
        ));
    } else {
        let d = descriptors[i];
        let rest = descriptors.skip(i + 1);
        assert(tail =~= seq![d] + rest);
        rest.lemma_filter_prepend(d, f);
        rest.lemma_filter_len(f);
        assert(listing[i] == Ok::<DescriptorView, Seq<char>>(d));
        if !in_scan(d.location, pattern) {
            lemma_scan_from_delivered(descriptors, pattern, limit, i + 1, emitted);
            assert(tail.filter(f) =~= rest.filter(f));
        } else if limit_reached(limit, emitted + 1) {
            let kept = seq![d] + rest.filter(f);
            assert(tail.filter(f) == kept);
            assert(allowed(kept, limit, emitted) =~= seq![d]);
            assert(scan_from(listing, pattern, limit, i, emitted) =~= delivered(seq![d]));
        } else {
            lemma_scan_from_delivered(descriptors, pattern, limit, i + 1, emitted + 1);
            let kept = seq![d] + rest.filter(f);
            assert(tail.filter(f) == kept);
            assert(allowed(kept, limit, emitted) =~= seq![d] + allowed(
                rest.filter(f),
                limit,
                emitted + 1,
            ));
            assert(scan_from(listing, pattern, limit, i, emitted) =~= delivered(
                allowed(kept, limit, emitted),
            ));
        }
    }
}

/// Of a listing delivered without failure, a scan puts out the descriptors
/// that pass the filename filter, in the order of the listing, up to the
/// limit.
pub proof fn lemma_scan_rows_delivered(
    descriptors: Seq<DescriptorView>,
    pattern: Option<Regex>,
    limit: Option<usize>,
)
    ensures
        scan_rows(delivered(descriptors), pattern, limit) == delivered(
            allowed(descriptors.filter(passes(pattern)), limit, 0),
        ),
{
    lemma_scan_from_delivered(descriptors, pattern, limit, 0, 0);
    assert(descriptors.skip(0) =~= descriptors);
}

/// Without a filename pattern and without a limit, a scan puts out exactly
/// one row per descriptor of the listing, in the order of the listing.
pub proof fn lemma_scan_lists_every_descriptor(descriptors: Seq<DescriptorView>)
    ensures
        scan_rows(delivered(descriptors), None, None) == delivered(descriptors),
        scan_rows(delivered(descriptors), None, None).len() == descriptors.len(),
{
    lemma_scan_rows_delivered(descriptors, None, None);
    lemma_filter_keeps_all(descriptors, passes(None));
}

proof fn lemma_filter_keeps_all(s: Seq<DescriptorView>, f: spec_fn(DescriptorView) -> bool)
    requires
        forall|i: int| 0 <= i < s.len() ==> f(#[trigger] s[i]),
    ensures
        s.filter(f) == s,
    decreases s.len(),
{
    reveal(Seq::filter);
    if s.len() > 0 {
        let front = s.drop_last();
        assert forall|i: int| 0 <= i < front.len() implies f(#[trigger] front[i]) by {
            assert(front[i] == s[i]);
        }
        lemma_filter_keeps_all(front, f);
        assert(front.push(s.last()) =~= s);
    }
}

/// Without a limit, a scan puts out a descriptor if and only if the pattern
/// matches the final segment of its location: its output is the listing with
/// the other descriptors left out.
pub proof fn lemma_scan_keeps_matching_filenames(
    descriptors: Seq<DescriptorView>,
    pattern: Regex,
)
    ensures
        scan_rows(delivered(descriptors), Some(pattern), None) == delivered(
            descriptors.filter(passes(Some(pattern))),
        ),
        forall|d: DescriptorView|
            scan_rows(delivered(descriptors), Some(pattern), None).contains(Ok(d)) <==> (
            descriptors.contains(d) && final_segment(d.location) is Some
                && regex_accepts(pattern, final_segment(d.location)->Some_0)),
{
    let f = passes(Some(pattern));
    lemma_scan_rows_delivered(descriptors, Some(pattern), None);
    let kept = descriptors.filter(f);
    let out = delivered(kept);
    assert forall|d: DescriptorView| out.contains(Ok(d)) <==> (descriptors.contains(d)
        && final_segment(d.location) is Some && regex_accepts(
        pattern,
        final_segment(d.location)->Some_0,
    )) by {
        if out.contains(Ok(d)) {
            let k = choose|k: int| 0 <= k < out.len() && out[k] == Ok::<_, Seq<char>>(d);
            assert(kept[k] == d);
            descriptors.lemma_filter_pred(f, k);
            descriptors.lemma_filter_contains_rev(f, d);
        }
        if descriptors.contains(d) && f(d) {
            let j = choose|j: int| 0 <= j < descriptors.len() && descriptors[j] == d;
            descriptors.lemma_filter_contains(f, j);
            let k = choose|k: int| 0 <= k < kept.len() && kept[k] == d;
            assert(out[k] == Ok::<_, Seq<char>>(d));
        }
    }
}

/// A location without a final segment passes no filename pattern.
pub proof fn lemma_no_segment_never_passes(location: Seq<char>, pattern: Regex)
    requires
        final_segment(location) is None,
    ensures
        !in_scan(location, Some(pattern)),
{
}

proof fn lemma_polled_from_delivered(
    descriptors: Seq<DescriptorView>,
    pattern: Option<Regex>,
    n: usize,
    i: int,
    emitted: nat,
)
    requires
        0 <= i <= descriptors.len(),
        emitted < n,
        emitted + count_passing(descriptors, pattern, i, descriptors.len() as int) >= n,
    ensures
        i < polled_from(delivered(descriptors), pattern, Some(n), i, emitted) <= descriptors.len(),
        emitted + count_passing(
            descriptors,
            pattern,
            i,
            polled_from(delivered(descriptors), pattern, Some(n), i, emitted),
        ) == n,
        in_scan(
            descriptors[polled_from(delivered(descriptors), pattern, Some(n), i, emitted)
                - 1].location,
            pattern,
        ),
    decreases descriptors.len() - i,
{
    let listing = delivered(descriptors);
    let len = descriptors.len() as int;
    if i < len {
        let d = descriptors[i];
        assert(listing[i] == Ok::<DescriptorView, Seq<char>>(d));
        if !in_scan(d.location, pattern) {
            lemma_polled_from_delivered(descriptors, pattern, n, i + 1, emitted);
        } else if limit_reached(Some(n), emitted + 1) {
            assert(count_passing(descriptors, pattern, i + 1, i + 1) == 0);
        } else {
            lemma_polled_from_delivered(descriptors, pattern, n, i + 1, emitted + 1);
        }
    }
}

proof fn lemma_count_is_filter_len(
    descriptors: Seq<DescriptorView>,
    pattern: Option<Regex>,
    i: int,
)
    requires
        0 <= i <= descriptors.len(),
    ensures
        count_passing(descriptors, pattern, i, descriptors.len() as int) == descriptors.skip(
            i,
        ).filter(passes(pattern)).len(),
    decreases descriptors.len() - i,
{
    let f = passes(pattern);
    let tail = descriptors.skip(i);
    if i == descriptors.len() {
        tail.lemma_filter_len(f);
    } else {
        let rest = descriptors.skip(i + 1);
        assert(tail =~= seq![descriptors[i]] + rest);
        rest.lemma_filter_prepend(descriptors[i], f);
        lemma_count_is_filter_len(descriptors, pattern, i + 1);
    }
}

/// With a positive limit `n` and a listing, delivered without failure, that
/// holds at least `n` descriptors which pass the filter, a scan puts out
/// exactly `n` rows, the first `n` that pass, and asks the backend for no
/// entry behind the one that became row `n`.
pub proof fn lemma_scan_stops_at_limit(
    descriptors: Seq<DescriptorView>,
    pattern: Option<Regex>,
    n: usize,
)
    requires
        1 <= n <= descriptors.filter(passes(pattern)).len(),
    ensures
        scan_rows(delivered(descriptors), pattern, Some(n)).len() == n,
        scan_rows(delivered(descriptors), pattern, Some(n)) == delivered(
            descriptors.filter(passes(pattern)).take(n as int),
        ),
        1 <= scan_polled(delivered(descriptors), pattern, Some(n)) <= descriptors.len(),
        count_passing(
            descriptors,
            pattern,
            0,
            scan_polled(delivered(descriptors), pattern, Some(n)),
        ) == n,
        in_scan(
            descriptors[scan_polled(delivered(descriptors), pattern, Some(n)) - 1].location,
            pattern,
        ),
{
    lemma_scan_rows_delivered(descriptors, pattern, Some(n));
    lemma_count_is_filter_len(descriptors, pattern, 0);
    assert(descriptors.skip(0) =~= descriptors);
    lemma_polled_from_delivered(descriptors, pattern, n, 0, 0);
}

/// Without a filename pattern, a positive limit below the size of the
/// listing gives exactly that many rows: the first descriptors of the
/// listing, and the backend is asked for no more than those.
pub proof fn lemma_scan_takes_first_rows(descriptors: Seq<DescriptorView>, n: usize)
    requires
        1 <= n < descriptors.len(),
    ensures
        scan_rows(delivered(descriptors), None, Some(n)) == delivered(descriptors.take(n as int)),
        scan_polled(delivered(descriptors), None, Some(n)) == n,
{
    lemma_filter_keeps_all(descriptors, passes(None));
    lemma_scan_stops_at_limit(descriptors, None, n);
    let q = scan_polled(delivered(descriptors), None, Some(n));
    lemma_count_all(descriptors, 0, q);
}

proof fn lemma_failure_from(
    descriptors: Seq<DescriptorView>,
    message: Seq<char>,
    rest: Seq<EntryView>,
    pattern: Option<Regex>,
    i: int,
    emitted: nat,
)
    requires
        0 <= i <= descriptors.len(),
    ensures
        scan_from(
            delivered(descriptors) + seq![Err(message)] + rest,
            pattern,
            None,
            i,
            emitted,
        ) == scan_from(delivered(descriptors), pattern, None, i, emitted) + seq![Err(message)],
    decreases descriptors.len() - i,
{
    let before = delivered(descriptors);
    let listing = before + seq![Err(message)] + rest;
    if i == descriptors.len() {
        assert(listing[i] == Err::<DescriptorView, Seq<char>>(message));
        assert(scan_from(listing, pattern, None, i, emitted) =~= scan_from(
            before,
            pattern,
            None,
            i,
            emitted,
        ) + seq![Err(message)]);
    } else {
        assert(listing[i] == before[i]);
        if in_scan(descriptors[i].location, pattern) {
            lemma_failure_from(descriptors, message, rest, pattern, i + 1, emitted + 1);
            assert(scan_from(listing, pattern, None, i, emitted) =~= scan_from(
                before,
                pattern,
                None,
                i,
                emitted,
            ) + seq![Err(message)]);
        } else {
            lemma_failure_from(descriptors, message, rest, pattern, i + 1, emitted);
        }
    }
}

/// A failure of the backend ends a scan without a limit: the rows of what
/// was listed before it stay as they are, the failure follows them as the
/// last item, and nothing of what the backend might list behind it shows.
pub proof fn lemma_failure_ends_scan(
    descriptors: Seq<DescriptorView>,
    message: Seq<char>,
    rest: Seq<EntryView>,
    pattern: Option<Regex>,
)
    ensures
        scan_rows(delivered(descriptors) + seq![Err(message)] + rest, pattern, None) == scan_rows(
            delivered(descriptors),
            pattern,
            None,
        ) + seq![Err(message)],
        scan_polled(delivered(descriptors) + seq![Err(message)] + rest, pattern, None)
            == descriptors.len() + 1,
{
    lemma_failure_from(descriptors, message, rest, pattern, 0, 0);
    lemma_failure_polled(descriptors, message, rest, pattern, 0, 0);
}

proof fn lemma_failure_polled(
    descriptors: Seq<DescriptorView>,
    message: Seq<char>,
    rest: Seq<EntryView>,
    pattern: Option<Regex>,
    i: int,
    emitted: nat,
)
    requires
        0 <= i <= descriptors.len(),
    ensures
        polled_from(
            delivered(descriptors) + seq![Err(message)] + rest,
            pattern,
            None,
            i,
            emitted,
        ) == descriptors.len() + 1,
    decreases descriptors.len() - i,
{
    let before = delivered(descriptors);
    let listing = before + seq![Err(message)] + rest;
    if i == descriptors.len() {
        assert(listing[i] == Err::<DescriptorView, Seq<char>>(message));
    } else {
        assert(listing[i] == before[i]);
        if in_scan(descriptors[i].location, pattern) {
            lemma_failure_polled(descriptors, message, rest, pattern, i + 1, emitted + 1);
        } else {
            lemma_failure_polled(descriptors, message, rest, pattern, i + 1, emitted);
        }
    }
}

proof fn lemma_count_all(descriptors: Seq<DescriptorView>, from: int, to: int)
    requires
        0 <= from <= to <= descriptors.len(),
    ensures
        count_passing(descriptors, None, from, to) == to - from,
    decreases to - from,
{
    if from < to {
        lemma_count_all(descriptors, from + 1, to);
    }
}

} // verus!
