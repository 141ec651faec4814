//! Path text. The pipeline addresses its output tree with plain
//! `/`-separated path strings; the caller that touches the filesystem
//! turns them into platform paths.

use vstd::prelude::*;

verus! {

/// `a` and `b` joined with a single separator.
pub open spec fn join_path(a: Seq<char>, b: Seq<char>) -> Seq<char> {
    a + seq!['/'] + b
}

/// A chapter's target directory: `root/comic_name/chapter_name`.
pub open spec fn chapter_dir_spec(root: Seq<char>, comic: Seq<char>, chapter: Seq<char>) -> Seq<
    char,
> {
    join_path(join_path(root, comic), chapter)
}

/// Joins two path components with a separator.
pub fn path_join(a: &str, b: &str) -> (r: String)
    ensures
        r@ == join_path(a@, b@),
{
    proof {
        reveal_strlit("/");
    }
    let mut s = a.to_owned();
    s.append("/");
    s.append(b);
    proof {
        assert(s@ =~= join_path(a@, b@));
    }
    s
}

/// Builds a chapter's target directory path.
pub fn chapter_dir(root: &str, comic_name: &str, chapter_name: &str) -> (r: String)
    ensures
        r@ == chapter_dir_spec(root@, comic_name@, chapter_name@),
{
    let base = path_join(root, comic_name);
    path_join(base.as_str(), chapter_name)
}

} // verus!
