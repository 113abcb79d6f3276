//! Paths as the library writes them: texts with `/` between their parts,
//! relative to a root that the caller knows.

use vstd::prelude::*;

verus! {

/// `name` below the directory `base`.
pub open spec fn join_spec(base: Seq<char>, name: Seq<char>) -> Seq<char> {
    if base.len() == 0 {
        name
    } else {
        base + "/"@ + name
    }
}

/// The path of `name` below the directory `base`, with `/` between them.
/// Below the empty path a name stands for itself.
pub fn join_path(base: &str, name: &str) -> (r: String)
    ensures
        r@ == join_spec(base@, name@),
{
    if base.unicode_len() == 0 {
        name.to_owned()
    } else {
        base.to_owned().concat("/").concat(name)
    }
}

/// `path` lies below the directory `dir`.
pub open spec fn lies_below(path: Seq<char>, dir: Seq<char>) -> bool {
    path.len() > dir.len() + 1 && path.subrange(0, dir.len() as int + 1) == dir + "/"@
}

/// A text put behind a directory and a separator lies below the directory.
pub proof fn lemma_below(dir: Seq<char>, tail: Seq<char>, rest: Seq<char>)
    requires
        tail == "/"@ + rest,
        rest.len() > 0,
    ensures
        lies_below(dir + tail, dir),
{
    reveal_strlit("/");
    assert((dir + tail).subrange(0, dir.len() as int + 1) =~= dir + "/"@);
}

/// A path that lies below a directory has a separator right behind the
/// directory's name.
pub proof fn lemma_separator_behind(path: Seq<char>, dir: Seq<char>)
    requires
        lies_below(path, dir),
    ensures
        path.len() > dir.len() + 1,
        path[dir.len() as int] == '/',
{
    reveal_strlit("/");
    let head = path.subrange(0, dir.len() as int + 1);
    assert(head[dir.len() as int] == (dir + "/"@)[dir.len() as int]);
}

/// `path` names a file with the extension `ext`: it ends in a dot and
/// `ext`, and the dot does not begin the file's name.
pub open spec fn has_extension_spec(path: Seq<char>, ext: Seq<char>) -> bool {
    let dot = path.len() - ext.len() - 1;
    &&& dot >= 1
    &&& path.subrange(dot + 1, path.len() as int) == ext
    &&& path[dot] == '.'
    &&& path[dot - 1] != '/'
}

/// Whether `path` names a file with the extension `ext`. The path has `/`
/// between its parts and none at its end.
pub fn has_extension(path: &str, ext: &str) -> (r: bool)
    ensures
        r == has_extension_spec(path@, ext@),
{
    let n = path.unicode_len();
    let m = ext.unicode_len();
    if n < 2 || m > n - 2 {
        return false;
    }
    let dot: usize = n - m - 1;
    if path.get_char(dot) != '.' || path.get_char(dot - 1) == '/' {
        return false;
    }
    let mut i: usize = 0;
    while i < m
        invariant
            i <= m,
            n == path@.len(),
            m == ext@.len(),
            dot == n - m - 1,
            dot >= 1,
            forall|j: int| 0 <= j < i ==> path@[dot + 1 + j] == ext@[j],
        decreases m - i,
    {
        if path.get_char(dot + 1 + i) != ext.get_char(i) {
            proof {
                assert(path@.subrange(dot + 1, path@.len() as int)[i as int] == path@[dot + 1 + i]);
            }
            return false;
        }
        i += 1;
    }
    proof {
        assert(path@.subrange(dot + 1, path@.len() as int) =~= ext@);
    }
    true
}

} // verus!
