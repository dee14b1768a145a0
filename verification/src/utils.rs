//! The short name of a store path.

use crate::text::chars_of;
use vstd::prelude::*;
use vstd::string::*;

verus! {

/// What follows the last `/` of a path that holds a `/`.  A path without
/// `/` has no such part; for it the function gives the path itself, and
/// [`spec_store_path_base`] does not ask for it.
pub open spec fn spec_last_segment(path: Seq<char>) -> Seq<char>
    decreases path.len(),
{
    if path.len() == 0 {
        path
    } else if path.last() == '/' {
        Seq::empty()
    } else {
        spec_last_segment(path.drop_last()).push(path.last())
    }
}

/// What follows the first `-` of a segment; nothing where it has none.
pub open spec fn spec_after_dash(segment: Seq<char>) -> Seq<char>
    decreases segment.len(),
{
    if segment.len() == 0 {
        segment
    } else if segment[0] == '-' {
        segment.drop_first()
    } else {
        spec_after_dash(segment.drop_first())
    }
}

/// A name without its ending `.drv`, if it has that ending; one ending is
/// taken off, not several.
pub open spec fn spec_strip_drv(name: Seq<char>) -> Seq<char> {
    if name.len() >= 4 && name.subrange(name.len() - 4, name.len() as int) == ".drv"@ {
        name.subrange(0, name.len() - 4)
    } else {
        name
    }
}

/// The short name of a store path: of the part behind the last `/`, what
/// follows the first `-`, without an ending `.drv`.  A path without `/` has
/// the empty name.
pub open spec fn spec_store_path_base(path: Seq<char>) -> Seq<char> {
    if path.contains('/') {
        spec_strip_drv(spec_after_dash(spec_last_segment(path)))
    } else {
        Seq::empty()
    }
}

/// The last segment of a path begins behind its last `/`.
pub proof fn lemma_last_segment(path: Seq<char>, start: int)
    requires
        0 <= start <= path.len(),
        start == 0 || path[start - 1] == '/',
        forall|i: int| start <= i < path.len() ==> path[i] != '/',
    ensures
        spec_last_segment(path) == path.subrange(start, path.len() as int),
    decreases path.len(),
{
    if path.len() == 0 {
        assert(path.subrange(start, path.len() as int) =~= path);
    } else if start == path.len() {
        assert(path.subrange(start, path.len() as int) =~= Seq::<char>::empty());
    } else {
        lemma_last_segment(path.drop_last(), start);
        assert(path.drop_last().subrange(start, path.len() - 1).push(path.last())
            =~= path.subrange(start, path.len() as int));
    }
}

/// What follows the first `-` of a segment begins behind that `-`.
pub proof fn lemma_after_dash(segment: Seq<char>, dash: int)
    requires
        0 <= dash <= segment.len(),
        forall|i: int| 0 <= i < dash ==> segment[i] != '-',
        dash < segment.len() ==> segment[dash] == '-',
    ensures
        dash < segment.len() ==> spec_after_dash(segment) == segment.subrange(
            dash + 1,
            segment.len() as int,
        ),
        dash == segment.len() ==> spec_after_dash(segment) == Seq::<char>::empty(),
    decreases segment.len(),
{
    if segment.len() == 0 {
    } else if dash == 0 {
        assert(segment.drop_first() =~= segment.subrange(1, segment.len() as int));
    } else {
        lemma_after_dash(segment.drop_first(), dash - 1);
        if dash < segment.len() {
            assert(segment.drop_first().subrange(dash, segment.len() - 1) =~= segment.subrange(
                dash + 1,
                segment.len() as int,
            ));
        }
    }
}

/// The short name of a store path, for display.
///
/// Of the part of `path` behind its last `/`, this is what follows the
/// first `-`, without one ending `.drv`.  The name is empty where `path`
/// has no `/`, and where the part behind the last `/` has no `-`.
pub fn store_path_base(path: &str) -> (base: String)
    ensures
        base@ == spec_store_path_base(path@),
{
    let chars = chars_of(path);
    let n = chars.len();
    let mut start: usize = n;
    while start > 0 && chars[start - 1] != '/'
        invariant
            start <= n,
            n == chars.len(),
            forall|i: int| start <= i < n ==> chars@[i] != '/',
        decreases start,
    {
        start -= 1;
    }
    if start == 0 {
        assert(!path@.contains('/'));
        return String::new();
    }
    assert(path@[start - 1] == '/');
    let mut dash: usize = start;
    while dash < n && chars[dash] != '-'
        invariant
            start <= dash <= n,
            n == chars.len(),
            forall|i: int| start <= i < dash ==> chars@[i] != '-',
        decreases n - dash,
    {
        dash += 1;
    }
    let ghost segment = path@.subrange(start as int, n as int);
    proof {
        lemma_last_segment(path@, start as int);
        lemma_after_dash(segment, dash - start);
    }
    if dash == n {
        return String::new();
    }
    let from: usize = dash + 1;
    let ghost name = path@.subrange(from as int, n as int);
    proof {
        reveal_strlit(".drv");
        assert(segment.subrange(dash - start + 1, segment.len() as int) =~= name);
    }
    let stripped: bool = n - from >= 4 && chars[n - 4] == '.' && chars[n - 3] == 'd' && chars[n
        - 2] == 'r' && chars[n - 1] == 'v';
    let to: usize = if stripped {
        n - 4
    } else {
        n
    };
    proof {
        let tail = name.subrange(name.len() - 4, name.len() as int);
        if stripped {
            assert(tail =~= ".drv"@);
            assert(name.subrange(0, name.len() - 4) =~= path@.subrange(from as int, to as int));
        } else if name.len() >= 4 {
            assert(tail[0] == chars@[n - 4] && tail[1] == chars@[n - 3] && tail[2] == chars@[n
                - 2] && tail[3] == chars@[n - 1]);
            assert(".drv"@[0] == '.' && ".drv"@[1] == 'd' && ".drv"@[2] == 'r' && ".drv"@[3]
                == 'v');
        }
    }
    path.substring_char(from, to).to_owned()
}

} // verus!
