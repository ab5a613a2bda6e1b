//! Surfacing saved clips: each path the backend reports is reduced to the bare
//! file name before it is handed to the consumer.
use vstd::prelude::*;

verus! {

/// A directory separator, in either of the two spellings paths use.
pub open spec fn is_separator(c: char) -> bool {
    c == '/' || c == '\\'
}

/// Where the file name of `p` starts: just past its last separator, or at 0
/// when it has none.
pub open spec fn name_start(p: Seq<char>) -> int
    decreases p.len(),
{
    if p.len() == 0 {
        0
    } else if is_separator(p.last()) {
        p.len() as int
    } else {
        name_start(p.drop_last())
    }
}

/// The file name of `p`: what follows its last separator.
pub open spec fn display_name(p: Seq<char>) -> Seq<char> {
    p.subrange(name_start(p), p.len() as int)
}

/// Forwards saved clips to the consumer.
#[derive(Debug, PartialEq, Eq)]
pub struct VlcManager {}

impl VlcManager {
    pub fn new() -> (r: VlcManager) {
        VlcManager {}
    }

    /// The name under which a clip saved at `path` is shown: the path with
    /// its directory components stripped.
    pub fn clip_name(&self, path: &str) -> (r: String)
        ensures
            r@ == display_name(path@),
    {
        let n = path.unicode_len();
        let mut start: usize = 0;
        let mut i: usize = 0;
        while i < n
            invariant
                n == path@.len(),
                0 <= start <= i <= n,
                start == name_start(path@.subrange(0, i as int)),
            decreases n - i,
        {
            let c = path.get_char(i);
            proof {
                let q = path@.subrange(0, i + 1);
                assert(q.drop_last() =~= path@.subrange(0, i as int));
                assert(q.last() == c);
            }
            if c == '/' || c == '\\' {
                start = i + 1;
            }
            i = i + 1;
        }
        proof {
            assert(path@.subrange(0, n as int) =~= path@);
        }
        path.substring_char(start, n).to_owned()
    }
}

} // verus!
