//! The labels under which the traffic of a file is counted.
//!
//! A file of a timeline lies at
//! `.../tenants/<tenant>/timelines/<timeline>/<file>`.  Its traffic is
//! counted under the names of its tenant and its timeline, that of any other
//! file under `*`.

use vstd::prelude::*;
use vstd::string::StrSliceExecFns;

verus! {

/// The name of the directory that holds the tenants.
pub const TENANTS_SEGMENT_NAME: &'static str = "tenants";

/// The label of a file that belongs to no timeline.
pub const ANY_LABEL: &'static str = "*";

/// The parts of `s` between the occurrences of `sep`: one more part than
/// there are separators, empty parts included.
pub open spec fn split(s: Seq<char>, sep: char) -> Seq<Seq<char>>
    decreases s.len(),
{
    if s.len() == 0 {
        seq![Seq::empty()]
    } else {
        let before = split(s.drop_last(), sep);
        if s.last() == sep {
            before.push(Seq::empty())
        } else {
            before.drop_last().push(before.last().push(s.last()))
        }
    }
}

/// The labels of the file at `path`, tenant first: the names of the tenant
/// and of the timeline if the fifth part of the path from the end is the
/// directory of the tenants, and `*` twice if not.
pub open spec fn labels_of(path: Seq<char>) -> (Seq<char>, Seq<char>) {
    let parts = split(path, '/');
    if parts.len() > 5 && parts[parts.len() - 5] == TENANTS_SEGMENT_NAME@ {
        (parts[parts.len() - 4], parts[parts.len() - 2])
    } else {
        (ANY_LABEL@, ANY_LABEL@)
    }
}

/// `starts` holds where the parts of the first `upto` characters of `s`
/// begin: each part but the last ends before the separator that the next one
/// follows, and the last ends at `upto`.
spec fn marks(s: Seq<char>, upto: int, starts: Seq<usize>) -> bool {
    let parts = split(s.take(upto), '/');
    &&& starts.len() == parts.len()
    &&& forall|k: int| 0 <= k < starts.len() ==> 0 <= #[trigger] starts[k] <= upto
    &&& forall|k: int|
        0 <= k < starts.len() - 1 ==> starts[k] < #[trigger] starts[k + 1] && parts[k]
            == s.subrange(starts[k] as int, starts[k + 1] - 1)
    &&& parts.last() == s.subrange(starts.last() as int, upto)
}

/// Where the parts of a path begin, in characters.
fn part_starts(path: &str) -> (starts: Vec<usize>)
    ensures
        starts@.len() > 0,
        marks(path@, path@.len() as int, starts@),
{
    let n = path.unicode_len();
    let mut starts: Vec<usize> = Vec::new();
    starts.push(0);
    let mut i: usize = 0;
    proof {
        assert(path@.take(0) =~= Seq::<char>::empty());
        assert(split(path@.take(0), '/') =~= seq![Seq::<char>::empty()]);
        assert(path@.subrange(0, 0) =~= Seq::<char>::empty());
    }
    while i < n
        invariant
            n == path@.len(),
            i <= n,
            starts@.len() > 0,
            marks(path@, i as int, starts@),
        decreases n - i,
    {
        let c = path.get_char(i);
        let ghost old_starts = starts@;
        let ghost before = split(path@.take(i as int), '/');
        proof {
            assert(path@.take(i + 1).drop_last() =~= path@.take(i as int));
            assert(path@.take(i + 1).last() == c);
        }
        if c == '/' {
            starts.push(i + 1);
            proof {
                let parts = split(path@.take(i + 1), '/');
                assert(parts == before.push(Seq::empty()));
                assert(path@.subrange(i + 1, i + 1) =~= Seq::<char>::empty());
                assert forall|k: int| 0 <= k < starts@.len() - 1 implies starts@[k]
                    < #[trigger] starts@[k + 1] && parts[k] == path@.subrange(
                    starts@[k] as int,
                    starts@[k + 1] - 1,
                ) by {
                    if k < old_starts.len() - 1 {
                        assert(old_starts[k] < old_starts[k + 1]);
                    }
                }
            }
        } else {
            proof {
                let parts = split(path@.take(i + 1), '/');
                assert(parts == before.drop_last().push(before.last().push(c)));
                assert(path@.subrange(starts@.last() as int, i as int).push(c) =~= path@.subrange(
                    starts@.last() as int,
                    i + 1,
                ));
                assert forall|k: int| 0 <= k < starts@.len() - 1 implies starts@[k]
                    < #[trigger] starts@[k + 1] && parts[k] == path@.subrange(
                    starts@[k] as int,
                    starts@[k + 1] - 1,
                ) by {
                    assert(old_starts[k] < old_starts[k + 1]);
                }
            }
        }
        i += 1;
    }
    proof {
        assert(path@.take(n as int) =~= path@);
    }
    starts
}

/// The labels of the file at `path`, tenant first.
pub fn metric_labels(path: &str) -> (labels: (String, String))
    ensures
        (labels.0@, labels.1@) == labels_of(path@),
{
    let starts = part_starts(path);
    let count = starts.len();
    proof {
        assert(path@.take(path@.len() as int) =~= path@);
    }
    if count > 5 {
        let ghost parts = split(path@, '/');
        proof {
            assert(starts@[count - 5] < starts@[count - 5 + 1]);
            assert(starts@[count - 4] < starts@[count - 4 + 1]);
            assert(starts@[count - 3] < starts@[count - 3 + 1]);
            assert(starts@[count - 2] < starts@[count - 2 + 1]);
        }
        let segment = path.substring_char(starts[count - 5], starts[count - 4] - 1);
        if segment.to_owned() == TENANTS_SEGMENT_NAME.to_owned() {
            let tenant = path.substring_char(starts[count - 4], starts[count - 3] - 1);
            let timeline = path.substring_char(starts[count - 2], starts[count - 1] - 1);
            return (tenant.to_owned(), timeline.to_owned());
        }
    }
    (ANY_LABEL.to_owned(), ANY_LABEL.to_owned())
}

} // verus!
