//! Reading the branch listings that `git branch` prints.
use vstd::prelude::*;
use crate::text::{
    chars_of, lines, lines_of, replace, replace_chars, rows, views, split_once, split_once_chars, string_of,
    trim, trim_chars, trim_start_char, trim_start_char_chars,
};

verus! {

/// A line of `git branch` without the current-branch marker, trimmed.
pub open spec fn local_branch_name(line: Seq<char>) -> Seq<char> {
    trim(replace(line, "* "@, Seq::empty()))
}

/// A line of `git branch -r` without the current-branch marker and the
/// `origin/` prefix, trimmed.
pub open spec fn remote_branch_name(line: Seq<char>) -> Seq<char> {
    trim(replace(replace(line, "* "@, Seq::empty()), "origin/"@, Seq::empty()))
}

/// The branch names in the output of `git branch`, one per line.
pub open spec fn local_branch_names(stdout: Seq<char>) -> Seq<Seq<char>> {
    lines(stdout).map_values(|l: Seq<char>| local_branch_name(l))
}

/// The branch names in the output of `git branch -r`, one per line.
pub open spec fn remote_branch_names(stdout: Seq<char>) -> Seq<Seq<char>> {
    lines(stdout).map_values(|l: Seq<char>| remote_branch_name(l))
}

/// A branch entry without surrounding white space and leading `*` marks.
pub open spec fn cleaned_entry(s: Seq<char>) -> Seq<char> {
    trim(trim_start_char(trim(s), '*'))
}

/// For a local branch entry `<kind>/<name>` with `kind == tpe`, its name:
/// the kind is what comes before the first `/`.
pub open spec fn kind_name(s: Seq<char>, tpe: Seq<char>) -> Option<Seq<char>> {
    match split_once(cleaned_entry(s), '/') {
        Some(parts) => if parts.0 == tpe {
            Some(parts.1)
        } else {
            None
        },
        None => None,
    }
}

/// The names of the branch entries of kind `tpe`, in listing order.
pub open spec fn kind_names_in(v: Seq<Seq<char>>, tpe: Seq<char>) -> Seq<Seq<char>>
    decreases v.len(),
{
    if v.len() == 0 {
        Seq::empty()
    } else {
        let rest = kind_names_in(v.drop_last(), tpe);
        match kind_name(v.last(), tpe) {
            Some(name) => rest.push(name),
            None => rest,
        }
    }
}

/// For a remote branch entry `<remote>/<kind>/<name>` with `kind == tpe`,
/// its name: the first `/`-separated part is taken as the remote, the
/// second as the kind, and the name is all that follows (`splitn(3, '/')`).
pub open spec fn remote_kind_name(s: Seq<char>, tpe: Seq<char>) -> Option<Seq<char>> {
    match split_once(cleaned_entry(s), '/') {
        Some(parts) => match split_once(parts.1, '/') {
            Some(inner) => if inner.0 == tpe {
                Some(inner.1)
            } else {
                None
            },
            None => None,
        },
        None => None,
    }
}

/// The names of the remote branch entries of kind `tpe`, in listing order.
pub open spec fn remote_kind_names_in(v: Seq<Seq<char>>, tpe: Seq<char>) -> Seq<Seq<char>>
    decreases v.len(),
{
    if v.len() == 0 {
        Seq::empty()
    } else {
        let rest = remote_kind_names_in(v.drop_last(), tpe);
        match remote_kind_name(v.last(), tpe) {
            Some(name) => rest.push(name),
            None => rest,
        }
    }
}

/// Whether two character sequences are equal.
pub fn same_chars(a: &[char], b: &[char]) -> (r: bool)
    ensures
        r == (a@ == b@),
{
    if a.len() != b.len() {
        return false;
    }
    let mut i: usize = 0;
    while i < a.len()
        invariant
            i <= a.len() == b.len(),
            forall|j: int| 0 <= j < i ==> a@[j] == b@[j],
        decreases a.len() - i,
    {
        if a[i] != b[i] {
            return false;
        }
        i = i + 1;
    }
    assert(a@ =~= b@);
    true
}

/// Whether `v` holds a string equal to `s`.
pub fn contains_string(v: &[String], s: &String) -> (r: bool)
    ensures
        r == views(v@).contains(s@),
{
    let mut i: usize = 0;
    while i < v.len()
        invariant
            i <= v.len(),
            forall|j: int| 0 <= j < i ==> v@[j]@ != s@,
        decreases v.len() - i,
    {
        if v[i] == *s {
            assert(views(v@)[i as int] == s@);
            return true;
        }
        i = i + 1;
    }
    assert(!views(v@).contains(s@)) by {
        if views(v@).contains(s@) {
            let j = choose|j: int| 0 <= j < v@.len() && #[trigger] views(v@)[j] == s@;
            assert(v@[j]@ == s@);
        }
    }
    false
}

/// The branch names in a listing, with `marker` and `prefix` removed from
/// each line, trimmed.
fn branch_names(stdout: &str, remove_origin: bool) -> (r: Vec<String>)
    ensures
        views(r@) == if remove_origin {
            remote_branch_names(stdout@)
        } else {
            local_branch_names(stdout@)
        },
{
    proof {
        reveal_strlit("* ");
        reveal_strlit("origin/");
    }
    let marker = chars_of("* ");
    let origin = chars_of("origin/");
    let nothing: Vec<char> = Vec::new();
    let text = chars_of(stdout);
    let all_lines = lines_of(text.as_slice());
    let ghost expected = if remove_origin {
        remote_branch_names(stdout@)
    } else {
        local_branch_names(stdout@)
    };
    let mut r: Vec<String> = Vec::new();
    let mut i: usize = 0;
    while i < all_lines.len()
        invariant
            i <= all_lines.len(),
            rows(all_lines@) == lines(stdout@),
            marker@ == "* "@,
            origin@ == "origin/"@,
            marker.len() > 0,
            origin.len() > 0,
            nothing@ == Seq::<char>::empty(),
            expected.len() == all_lines.len(),
            expected == if remove_origin {
                remote_branch_names(stdout@)
            } else {
                local_branch_names(stdout@)
            },
            r@.len() == i,
            forall|j: int| 0 <= j < i ==> r@[j]@ == expected[j],
        decreases all_lines.len() - i,
    {
        let line = &all_lines[i];
        assert(line@ == lines(stdout@)[i as int]);
        let unmarked = replace_chars(line.as_slice(), marker.as_slice(), nothing.as_slice());
        let cleaned = if remove_origin {
            replace_chars(unmarked.as_slice(), origin.as_slice(), nothing.as_slice())
        } else {
            unmarked
        };
        let name = trim_chars(cleaned.as_slice());
        r.push(string_of(name.as_slice()));
        i = i + 1;
    }
    assert(views(r@) =~= expected);
    r
}

/// The branch names in the output of `git branch`.
pub fn parse_local_branches(stdout: &str) -> (r: Vec<String>)
    ensures
        views(r@) == local_branch_names(stdout@),
{
    branch_names(stdout, false)
}

/// The branch names in the output of `git branch -r`.
pub fn parse_remote_branches(stdout: &str) -> (r: Vec<String>)
    ensures
        views(r@) == remote_branch_names(stdout@),
{
    branch_names(stdout, true)
}

/// The cleaned characters of a branch entry.
fn cleaned_chars(s: &String) -> (r: Vec<char>)
    ensures
        r@ == cleaned_entry(s@),
{
    let chars = chars_of(s.as_str());
    let t = trim_chars(chars.as_slice());
    let u = trim_start_char_chars(t.as_slice(), '*');
    trim_chars(u.as_slice())
}

/// The name of a branch entry of kind `tpe`.
pub fn kind_entry(s: &String, tpe: &String) -> (r: Option<String>)
    ensures
        match r {
            Some(name) => kind_name(s@, tpe@) == Some(name@),
            None => kind_name(s@, tpe@) is None,
        },
{
    let cleaned = cleaned_chars(s);
    let kind = chars_of(tpe.as_str());
    match split_once_chars(cleaned.as_slice(), '/') {
        Some(parts) => {
            if same_chars(parts.0.as_slice(), kind.as_slice()) {
                Some(string_of(parts.1.as_slice()))
            } else {
                None
            }
        },
        None => None,
    }
}

/// The name of a remote branch entry of kind `tpe`.
pub fn remote_kind_entry(s: &String, tpe: &String) -> (r: Option<String>)
    ensures
        match r {
            Some(name) => remote_kind_name(s@, tpe@) == Some(name@),
            None => remote_kind_name(s@, tpe@) is None,
        },
{
    let cleaned = cleaned_chars(s);
    let kind = chars_of(tpe.as_str());
    match split_once_chars(cleaned.as_slice(), '/') {
        Some(parts) => match split_once_chars(parts.1.as_slice(), '/') {
            Some(inner) => {
                if same_chars(inner.0.as_slice(), kind.as_slice()) {
                    Some(string_of(inner.1.as_slice()))
                } else {
                    None
                }
            },
            None => None,
        },
        None => None,
    }
}

/// The names of the remote entries of `branches` of kind `tpe`.
pub fn remote_kind_names(branches: &[String], tpe: &String) -> (r: Vec<String>)
    ensures
        views(r@) == remote_kind_names_in(views(branches@), tpe@),
{
    let ghost all = views(branches@);
    let mut r: Vec<String> = Vec::new();
    let mut i: usize = 0;
    assert(all.take(0) == Seq::<Seq<char>>::empty());
    while i < branches.len()
        invariant
            i <= branches.len(),
            all == views(branches@),
            views(r@) == remote_kind_names_in(all.take(i as int), tpe@),
        decreases branches.len() - i,
    {
        assert(all.take(i + 1).drop_last() == all.take(i as int));
        assert(all.take(i + 1).last() == branches@[i as int]@);
        match remote_kind_entry(&branches[i], tpe) {
            Some(name) => {
                let ghost before = views(r@);
                r.push(name);
                assert(views(r@) =~= before.push(name@));
            },
            None => {},
        }
        i = i + 1;
    }
    assert(all.take(branches.len() as int) == all);
    r
}

/// The names of the entries of `branches` of kind `tpe`.
pub fn kind_names(branches: &[String], tpe: &String) -> (r: Vec<String>)
    ensures
        views(r@) == kind_names_in(views(branches@), tpe@),
{
    let ghost all = views(branches@);
    let mut r: Vec<String> = Vec::new();
    let mut i: usize = 0;
    assert(all.take(0) == Seq::<Seq<char>>::empty());
    while i < branches.len()
        invariant
            i <= branches.len(),
            all == views(branches@),
            views(r@) == kind_names_in(all.take(i as int), tpe@),
        decreases branches.len() - i,
    {
        assert(all.take(i + 1).drop_last() == all.take(i as int));
        assert(all.take(i + 1).last() == branches@[i as int]@);
        match kind_entry(&branches[i], tpe) {
            Some(name) => {
                let ghost before = views(r@);
                r.push(name);
                assert(views(r@) =~= before.push(name@));
            },
            None => {},
        }
        i = i + 1;
    }
    assert(all.take(branches.len() as int) == all);
    r
}

} // verus!
