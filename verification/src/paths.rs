use vstd::prelude::*;
use vstd::string::{StrSliceExecFns, StringExecFns};

verus! {

/// The destination directory joined with a relative path: one '/' separator
/// stands between them unless the destination is empty or already ends with
/// a separator.
pub open spec fn joined(dest: Seq<char>, rel: Seq<char>) -> Seq<char> {
    if dest.len() > 0 && dest.last() != '/' {
        dest + seq!['/'] + rel
    } else {
        dest + rel
    }
}

/// The path with every trailing '/' removed.
pub open spec fn strip_trailing_slashes(p: Seq<char>) -> Seq<char>
    decreases p.len(),
{
    if p.len() > 0 && p.last() == '/' {
        strip_trailing_slashes(p.drop_last())
    } else {
        p
    }
}

/// The suffix of the path after its last '/'; the whole path if it holds none.
pub open spec fn after_last_slash(p: Seq<char>) -> Seq<char>
    decreases p.len(),
{
    if p.len() == 0 {
        p
    } else if p.last() == '/' {
        Seq::empty()
    } else {
        after_last_slash(p.drop_last()).push(p.last())
    }
}

/// The last component of the path: trailing separators are ignored, and a
/// path made of nothing but separators (or of nothing at all) has none.
pub open spec fn file_name_chars(p: Seq<char>) -> Option<Seq<char>> {
    let q = after_last_slash(strip_trailing_slashes(p));
    if q.len() == 0 {
        None
    } else {
        Some(q)
    }
}

/// Joining never escapes the destination prefix: whatever the relative
/// path, the joined path begins with the destination, and adds at most one
/// separator before the relative part.
pub proof fn lemma_joined_prefix(dest: Seq<char>, rel: Seq<char>)
    ensures
        joined(dest, rel).len() >= dest.len() + rel.len(),
        joined(dest, rel).len() <= dest.len() + rel.len() + 1,
        joined(dest, rel).take(dest.len() as int) == dest,
{
    assert(joined(dest, rel).take(dest.len() as int) =~= dest);
}

pub fn join_under(dest: &str, rel: &str) -> (r: String)
    ensures
        r@ == joined(dest@, rel@),
{
    let n = dest.unicode_len();
    let mut s = dest.to_owned();
    if n > 0 && dest.get_char(n - 1) != '/' {
        s.append("/");
        proof {
            reveal_strlit("/");
            assert(s@ =~= dest@ + seq!['/']);
        }
    }
    s.append(rel);
    proof {
        if n > 0 && dest@.last() != '/' {
            assert(s@ =~= dest@ + seq!['/'] + rel@);
        }
    }
    s
}

pub fn file_name_of(path: &str) -> (r: Option<String>)
    ensures
        match r {
            Some(s) => file_name_chars(path@) == Some(s@),
            None => file_name_chars(path@) is None,
        },
{
    let ghost p = path@;
    let n = path.unicode_len();
    let mut end = n;
    proof {
        assert(p.take(n as int) =~= p);
    }
    while end > 0 && path.get_char(end - 1) == '/'
        invariant
            end <= n == p.len(),
            p == path@,
            strip_trailing_slashes(p) == strip_trailing_slashes(p.take(end as int)),
        decreases end,
    {
        proof {
            assert(p.take(end as int).last() == p[end - 1]);
            assert(p.take(end as int).drop_last() =~= p.take(end - 1));
        }
        end -= 1;
    }
    proof {
        assert(strip_trailing_slashes(p) == p.take(end as int)) by {
            if end > 0 {
                assert(p.take(end as int).last() == p[end - 1]);
            }
        }
    }
    let stripped_end = end;
    let ghost se = stripped_end as int;
    let mut start = stripped_end;
    proof {
        assert(after_last_slash(p.take(se)) =~= after_last_slash(p.take(se)) + p.subrange(se, se));
    }
    while start > 0 && path.get_char(start - 1) != '/'
        invariant
            start <= stripped_end <= n == p.len(),
            p == path@,
            se == stripped_end as int,
            after_last_slash(p.take(se)) =~= after_last_slash(p.take(start as int)) + p.subrange(
                start as int,
                se,
            ),
        decreases start,
    {
        proof {
            let q = p.take(start as int);
            assert(q.last() == p[start - 1]);
            assert(q.drop_last() =~= p.take(start - 1));
            assert(after_last_slash(q) == after_last_slash(p.take(start - 1)).push(p[start - 1]));
            assert(after_last_slash(p.take(start - 1)) + p.subrange(start - 1, se)
                =~= after_last_slash(q) + p.subrange(start as int, se));
        }
        start -= 1;
    }
    proof {
        assert(after_last_slash(p.take(start as int)) =~= Seq::<char>::empty()) by {
            if start > 0 {
                assert(p.take(start as int).last() == p[start - 1]);
            }
        }
        assert(after_last_slash(p.take(se)) =~= p.subrange(start as int, se));
    }
    if start == stripped_end {
        None
    } else {
        Some(path.substring_char(start, stripped_end).to_owned())
    }
}

} // verus!
