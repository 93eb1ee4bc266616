//! Path handling for fan-out installs: extracting the base file name of a
//! source path and joining it onto a destination directory.  Paths are
//! treated as plain character sequences with `'/'` as the separator.

use vstd::prelude::*;

verus! {

/// `s` with every trailing separator and every trailing `.` component
/// removed: a final `'/'` is always dropped, and a final `'.'` is dropped
/// when it stands as a whole component (at the start of the path or right
/// after a separator).  A trailing `..` component stays: only its final
/// `'.'` has a `'.'` before it, so neither branch applies.
pub open spec fn strip_trailing_cur_dirs(s: Seq<char>) -> Seq<char>
    decreases s.len(),
{
    if s.len() > 0 && s.last() == '/' {
        strip_trailing_cur_dirs(s.drop_last())
    } else if s.len() > 0 && s.last() == '.' && (s.len() == 1 || s[s.len() - 2] == '/') {
        strip_trailing_cur_dirs(s.drop_last())
    } else {
        s
    }
}

/// The suffix of `s` after its last `'/'`; all of `s` if it has none.
pub open spec fn after_last_slash(s: Seq<char>) -> Seq<char>
    decreases s.len(),
{
    if s.len() == 0 {
        s
    } else if s.last() == '/' {
        Seq::empty()
    } else {
        after_last_slash(s.drop_last()).push(s.last())
    }
}

/// The base file name of the path `s`: its last component, once trailing
/// separators and `.` components are dropped.  A path with no such
/// component — empty, a run of separators and `.` components only, or one
/// ending in a `..` component — has no base name.
pub open spec fn basename_of(s: Seq<char>) -> Option<Seq<char>> {
    let t = after_last_slash(strip_trailing_cur_dirs(s));
    if t.len() == 0 || t == seq!['.', '.'] {
        None::<Seq<char>>
    } else {
        Some(t)
    }
}

/// The path naming `name` inside the directory `dir`: the two joined with
/// a single separator, with none added after an empty `dir` or one that
/// already ends in a separator.
pub open spec fn join_of(dir: Seq<char>, name: Seq<char>) -> Seq<char> {
    if dir.len() == 0 {
        name
    } else if dir.last() == '/' {
        dir + name
    } else {
        dir + seq!['/'] + name
    }
}

/// Extracts the base file name of `s`, exactly as `basename_of` describes.
pub fn basename(s: &str) -> (r: Option<String>)
    ensures
        r matches Some(b) ==> basename_of(s@) == Some(b@),
        r is None ==> basename_of(s@) is None,
{
    let n = s.unicode_len();
    proof {
        assert(s@.subrange(0, n as int) =~= s@);
    }
    let mut end = n;
    while end > 0 && (s.get_char(end - 1) == '/' || (s.get_char(end - 1) == '.' && (end == 1
        || s.get_char(end - 2) == '/')))
        invariant
            end <= n,
            n == s@.len(),
            strip_trailing_cur_dirs(s@) == strip_trailing_cur_dirs(s@.subrange(0, end as int)),
        decreases end,
    {
        proof {
            assert(s@.subrange(0, end as int).drop_last() =~= s@.subrange(0, end - 1));
        }
        end = end - 1;
    }
    let ghost stripped = s@.subrange(0, end as int);
    proof {
        assert(strip_trailing_cur_dirs(stripped) =~= stripped);
    }
    let mut start = end;
    proof {
        assert(after_last_slash(stripped) =~= after_last_slash(s@.subrange(0, start as int))
            + s@.subrange(start as int, end as int));
    }
    while start > 0 && s.get_char(start - 1) != '/'
        invariant
            start <= end <= n,
            n == s@.len(),
            stripped == s@.subrange(0, end as int),
            after_last_slash(stripped) == after_last_slash(s@.subrange(0, start as int))
                + s@.subrange(start as int, end as int),
        decreases start,
    {
        proof {
            let pre = s@.subrange(0, start as int);
            assert(pre.drop_last() =~= s@.subrange(0, start - 1));
            assert(after_last_slash(pre) == after_last_slash(s@.subrange(0, start - 1)).push(
                s@[start - 1],
            ));
            assert(after_last_slash(s@.subrange(0, start - 1)).push(s@[start - 1]) + s@.subrange(
                start as int,
                end as int,
            ) =~= after_last_slash(s@.subrange(0, start - 1)) + s@.subrange(
                start - 1,
                end as int,
            ));
        }
        start = start - 1;
    }
    let ghost t = after_last_slash(strip_trailing_cur_dirs(s@));
    proof {
        if start == 0 {
            assert(s@.subrange(0, 0) =~= Seq::<char>::empty());
            assert(after_last_slash(Seq::<char>::empty()) + s@.subrange(0, end as int)
                =~= s@.subrange(0, end as int));
        } else {
            assert(s@.subrange(0, start as int).last() == '/');
            assert(Seq::<char>::empty() + s@.subrange(start as int, end as int) =~= s@.subrange(
                start as int,
                end as int,
            ));
        }
        assert(t == s@.subrange(start as int, end as int));
    }
    if end == start {
        proof {
            assert(t.len() == 0);
        }
        return None;
    }
    let comp = s.substring_char(start, end);
    let len = end - start;
    if len == 2 && comp.get_char(0) == '.' && comp.get_char(1) == '.' {
        proof {
            assert(t =~= seq!['.', '.']);
        }
        None
    } else {
        proof {
            if t == seq!['.', '.'] {
                assert(t.len() == 2 && t[0] == '.' && t[1] == '.');
            }
        }
        Some(comp.to_owned())
    }
}

/// Joins `name` onto the directory `dir`, exactly as `join_of` describes.
pub fn join_path(dir: &str, name: &str) -> (r: String)
    ensures
        r@ == join_of(dir@, name@),
{
    let n = dir.unicode_len();
    if n == 0 {
        name.to_owned()
    } else if dir.get_char(n - 1) == '/' {
        let mut s = dir.to_owned();
        s.append(name);
        s
    } else {
        let mut s = dir.to_owned();
        s.append("/");
        s.append(name);
        proof {
            reveal_strlit("/");
            assert("/"@ =~= seq!['/']);
            assert((dir@ + "/"@) + name@ =~= dir@ + seq!['/'] + name@);
        }
        s
    }
}

} // verus!
