//! Object descriptors as the listing backend reports them, and the final
//! segment of a location.

use vstd::prelude::*;
use vstd::string::*;

verus! {

/// One listed object.
#[derive(Debug)]
pub struct ObjectDescriptor {
    /// Path of the object, segments separated by `/`.
    pub location: String,
    /// Time of the last modification, in milliseconds since the Unix epoch.
    pub last_modified: i64,
    /// Size in bytes.
    pub size: u64,
    /// Content fingerprint, where the backend assigns one.
    pub e_tag: Option<String>,
    /// Version token, where the backend assigns one.
    pub version: Option<String>,
}

/// What a descriptor says, with its strings as character sequences.
pub struct DescriptorView {
    pub location: Seq<char>,
    pub last_modified: i64,
    pub size: u64,
    pub e_tag: Option<Seq<char>>,
    pub version: Option<Seq<char>>,
}

/// An optional string as an optional character sequence.
pub open spec fn opt_text(s: Option<String>) -> Option<Seq<char>> {
    match s {
        Some(t) => Some(t@),
        None => None,
    }
}

impl View for ObjectDescriptor {
    type V = DescriptorView;

    open spec fn view(&self) -> DescriptorView {
        DescriptorView {
            location: self.location@,
            last_modified: self.last_modified,
            size: self.size,
            e_tag: opt_text(self.e_tag),
            version: opt_text(self.version),
        }
    }
}

/// Copies an optional string.
pub fn clone_opt_text(s: &Option<String>) -> (r: Option<String>)
    ensures
        opt_text(r) == opt_text(*s),
{
    match s {
        Some(t) => Some(t.clone()),
        None => None,
    }
}

impl Clone for ObjectDescriptor {
    fn clone(&self) -> (r: Self)
        ensures
            r@ == self@,
    {
        ObjectDescriptor {
            location: self.location.clone(),
            last_modified: self.last_modified,
            size: self.size,
            e_tag: clone_opt_text(&self.e_tag),
            version: clone_opt_text(&self.version),
        }
    }
}

/// Where the final segment of `s` starts: just behind its last `/`, or at 0
/// where it has none.
pub open spec fn segment_start(s: Seq<char>) -> int
    decreases s.len(),
{
    if s.len() == 0 {
        0
    } else if s.last() == '/' {
        s.len() as int
    } else {
        segment_start(s.drop_last())
    }
}

/// The final path segment of a location: what follows its last `/`. A
/// location that is empty or ends in `/` has none.
pub open spec fn final_segment(s: Seq<char>) -> Option<Seq<char>> {
    let start = segment_start(s);
    if start == s.len() {
        None
    } else {
        Some(s.subrange(start, s.len() as int))
    }
}

/// The start of the final segment lies within the location, no `/` follows
/// it, and a `/` stands just before it unless it is the start of the location.
pub proof fn lemma_segment_start(s: Seq<char>)
    ensures
        0 <= segment_start(s) <= s.len(),
        forall|i: int| segment_start(s) <= i < s.len() ==> s[i] != '/',
        segment_start(s) > 0 ==> s[segment_start(s) - 1] == '/',
    decreases s.len(),
{
    if s.len() > 0 && s.last() != '/' {
        let t = s.drop_last();
        lemma_segment_start(t);
        assert forall|i: int| segment_start(s) <= i < s.len() implies s[i] != '/' by {
            if i < t.len() {
                assert(t[i] == s[i]);
            }
        }
    }
}

/// A position behind which no `/` stands, and which is 0 or just behind a
/// `/`, is the start of the final segment.
pub proof fn lemma_segment_start_unique(s: Seq<char>, k: int)
    requires
        0 <= k <= s.len(),
        forall|i: int| k <= i < s.len() ==> s[i] != '/',
        k > 0 ==> s[k - 1] == '/',
    ensures
        segment_start(s) == k,
    decreases s.len(),
{
    if s.len() > 0 && s.last() != '/' {
        let t = s.drop_last();
        assert forall|i: int| k <= i < t.len() implies t[i] != '/' by {
            assert(t[i] == s[i]);
        }
        if k > 0 {
            assert(t[k - 1] == s[k - 1]);
        }
        lemma_segment_start_unique(t, k);
    }
}

/// The final segment, where a location has one, is not empty, holds no `/`
/// and ends the location; what stands before it is empty or ends in `/`. A
/// location without one is empty or ends in `/`.
pub proof fn lemma_final_segment(location: Seq<char>)
    ensures
        match final_segment(location) {
            Some(segment) => {
                &&& segment.len() > 0
                &&& forall|i: int| 0 <= i < segment.len() ==> segment[i] != '/'
                &&& exists|dir: Seq<char>|
                    location == dir + segment && (dir.len() == 0 || dir.last() == '/')
            },
            None => location.len() == 0 || location.last() == '/',
        },
{
    lemma_segment_start(location);
    let start = segment_start(location);
    if start < location.len() {
        let segment = location.subrange(start, location.len() as int);
        let dir = location.subrange(0, start);
        assert(location =~= dir + segment);
        assert(dir.len() == 0 || dir.last() == '/');
    }
}

/// The final path segment of `location`, if it has one.
pub fn filename(location: &str) -> (r: Option<String>)
    ensures
        opt_text(r) == final_segment(location@),
{
    let n: usize = location.unicode_len();
    let mut start: usize = n;
    while start > 0 && location.get_char(start - 1) != '/'
        invariant
            start <= n,
            n == location@.len(),
            forall|i: int| start <= i < n ==> location@[i] != '/',
        decreases start,
    {
        start = start - 1;
    }
    proof {
        lemma_segment_start_unique(location@, start as int);
    }
    if start == n {
        None
    } else {
        let seg = location.substring_char(start, n);
        Some(String::from_str(seg))
    }
}

} // verus!
