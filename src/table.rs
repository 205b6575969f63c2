//! The application table: the byte range of each application inside the
//! storage image, read once from the descriptor that the packaging step lays
//! out as `count, start_0, end_0, ..., start_{n-1}, end_{n-1}`.
use vstd::prelude::*;
use crate::config::MAX_APP_NUM;

verus! {

/// Why a descriptor was refused.
#[derive(Clone, Copy, Debug, PartialEq, Eq, Structural)]
pub enum TableError {
    /// The descriptor ends before its count word or before its last range.
    Truncated,
    /// The count word exceeds `MAX_APP_NUM`.
    TooManyApps { count: usize },
    /// The range of application `index` is empty, starts before the end of
    /// the previous one, or reaches past the end of the image.
    BadRange { index: usize },
}

/// Start offset of range `i` in descriptor `w`.
pub open spec fn start_word(w: Seq<usize>, i: int) -> usize {
    w[1 + 2 * i]
}

/// End offset of range `i` in descriptor `w`.
pub open spec fn end_word(w: Seq<usize>, i: int) -> usize {
    w[2 + 2 * i]
}

/// Whether the count word is present, within bounds, and followed by all of
/// its ranges.
pub open spec fn header_ok(w: Seq<usize>) -> bool {
    &&& w.len() >= 1
    &&& w[0] <= MAX_APP_NUM
    &&& w.len() >= 1 + 2 * w[0]
}

/// Whether range `i` of `w` is non-empty, lies in an image of `image_len`
/// bytes, and does not start before the previous range ends.
pub open spec fn range_ok(w: Seq<usize>, i: int, image_len: nat) -> bool {
    &&& start_word(w, i) < end_word(w, i)
    &&& end_word(w, i) <= image_len
    &&& i > 0 ==> end_word(w, i - 1) <= start_word(w, i)
}

/// Whether `w` is a well-formed descriptor for an image of `image_len` bytes.
pub open spec fn descriptor_ok(w: Seq<usize>, image_len: nat) -> bool {
    header_ok(w) && forall|i: int| 0 <= i < w[0] ==> #[trigger] range_ok(w, i, image_len)
}

/// The ranges that a well-formed descriptor lists.
pub open spec fn descriptor_ranges(w: Seq<usize>) -> Seq<(usize, usize)> {
    Seq::new(w[0] as nat, |i: int| (start_word(w, i), end_word(w, i)))
}

/// Whether `r` is a table of applications in an image of `image_len` bytes:
/// at most `MAX_APP_NUM` non-empty ranges in order, none past the image.
pub open spec fn ranges_ok(r: Seq<(usize, usize)>, image_len: nat) -> bool {
    &&& r.len() <= MAX_APP_NUM
    &&& forall|i: int| 0 <= i < r.len() ==> #[trigger] r[i].0 < r[i].1 && r[i].1 <= image_len
    &&& forall|i: int| 0 < i < r.len() ==> r[i - 1].1 <= #[trigger] r[i].0
}

/// The byte range of every embedded application, in order.
pub struct AppTable {
    ranges: Vec<(usize, usize)>,
}

impl View for AppTable {
    type V = Seq<(usize, usize)>;

    closed spec fn view(&self) -> Seq<(usize, usize)> {
        self.ranges@
    }
}

impl AppTable {
    /// Reads a descriptor for an image of `image_len` bytes. It is accepted
    /// exactly when it is well formed; otherwise the error names the first
    /// defect: a missing word, a count too large, or the first bad range.
    pub fn from_descriptor(words: &Vec<usize>, image_len: usize) -> (r: Result<AppTable, TableError>)
        ensures
            r is Ok <==> descriptor_ok(words@, image_len as nat),
            r matches Ok(t) ==> t@ == descriptor_ranges(words@) && ranges_ok(t@, image_len as nat),
            r == Err::<AppTable, TableError>(TableError::Truncated) <==> (words@.len() == 0 || (
                words@[0] <= MAX_APP_NUM && words@.len() < 1 + 2 * words@[0])),
            r matches Err(TableError::TooManyApps { .. }) <==> (words@.len() >= 1 && words@[0]
                > MAX_APP_NUM),
            r matches Err(TableError::TooManyApps { count }) ==> count == words@[0],
            r matches Err(TableError::BadRange { index }) ==> header_ok(words@) && index
                < words@[0] && !range_ok(words@, index as int, image_len as nat) && forall|j: int|
                0 <= j < index ==> #[trigger] range_ok(words@, j, image_len as nat),
            header_ok(words@) && !descriptor_ok(words@, image_len as nat) ==> r is Err && !(r
                matches Err(TableError::Truncated)) && !(r matches Err(TableError::TooManyApps {
                .. })),
    {
        if words.len() == 0 {
            return Err(TableError::Truncated);
        }
        let count = words[0];
        if count > MAX_APP_NUM {
            return Err(TableError::TooManyApps { count });
        }
        if words.len() < 1 + 2 * count {
            return Err(TableError::Truncated);
        }
        let mut ranges: Vec<(usize, usize)> = Vec::new();
        let mut i: usize = 0;
        while i < count
            invariant
                header_ok(words@),
                count == words@[0],
                i <= count,
                ranges@ == descriptor_ranges(words@).take(i as int),
                forall|j: int| 0 <= j < i ==> #[trigger] range_ok(words@, j, image_len as nat),
            decreases count - i,
        {
            let start = words[1 + 2 * i];
            let end = words[2 + 2 * i];
            if !(start < end && end <= image_len && (i == 0 || words[2 * i] <= start)) {
                assert(!range_ok(words@, i as int, image_len as nat));
                return Err(TableError::BadRange { index: i });
            }
            assert(range_ok(words@, i as int, image_len as nat));
            ranges.push((start, end));
            assert(ranges@ =~= descriptor_ranges(words@).take(i + 1));
            i = i + 1;
        }
        let t = AppTable { ranges };
        assert(t@ =~= descriptor_ranges(words@));
        assert forall|k: int| 0 < k < t@.len() implies t@[k - 1].1 <= #[trigger] t@[k].0 by {
            assert(range_ok(words@, k, image_len as nat));
        }
        assert forall|k: int| 0 <= k < t@.len() implies #[trigger] t@[k].0 < t@[k].1 && t@[k].1
            <= image_len by {
            assert(range_ok(words@, k, image_len as nat));
        }
        Ok(t)
    }

    /// Number of applications.
    pub fn count(&self) -> (r: usize)
        ensures
            r == self@.len(),
    {
        self.ranges.len()
    }

    /// Start and end offset of application `i`.
    pub fn range(&self, i: usize) -> (r: (usize, usize))
        requires
            i < self@.len(),
        ensures
            r == self@[i as int],
    {
        self.ranges[i]
    }
}

} // verus!
