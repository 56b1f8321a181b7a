//! Finding an executable on the search path: the variable's value is split
//! into directories, and the first listed directory that holds an entry of
//! the wanted name gives the result.
use vstd::prelude::*;
use crate::command::same_text;
use crate::tokens::texts;

verus! {

/// The fields completed so far and the field in progress after reading `s`.
pub open spec fn split_scan(s: Seq<char>) -> (Seq<Seq<char>>, Seq<char>)
    decreases s.len(),
{
    if s.len() == 0 {
        (Seq::empty(), Seq::empty())
    } else {
        let (done, cur) = split_scan(s.drop_last());
        if s.last() == ':' {
            (done.push(cur), Seq::empty())
        } else {
            (done, cur.push(s.last()))
        }
    }
}

/// The colon-separated fields of `s`, empty ones included; an empty `s`
/// has one empty field.
pub open spec fn search_fields(s: Seq<char>) -> Seq<Seq<char>> {
    split_scan(s).0.push(split_scan(s).1)
}

/// Splits the value of the search-path variable into its directories.
pub fn split_search_path(var: &str) -> (r: Vec<String>)
    ensures
        texts(r@) == search_fields(var@),
{
    let n = var.unicode_len();
    let mut out: Vec<String> = Vec::new();
    let mut start: usize = 0;
    let mut i: usize = 0;
    while i < n
        invariant
            n == var@.len(),
            start <= i <= n,
            texts(out@) == split_scan(var@.subrange(0, i as int)).0,
            split_scan(var@.subrange(0, i as int)).1 == var@.subrange(start as int, i as int),
        decreases n - i,
    {
        let c = var.get_char(i);
        let ghost pre = var@.subrange(0, i as int);
        assert(var@.subrange(0, i + 1).drop_last() =~= pre);
        if c == ':' {
            let f = String::from_str(var.substring_char(start, i));
            out.push(f);
            assert(texts(out@) =~= split_scan(pre).0.push(split_scan(pre).1));
            start = i + 1;
            assert(var@.subrange(start as int, i + 1) =~= Seq::<char>::empty());
        } else {
            assert(var@.subrange(start as int, i + 1) =~= var@.subrange(
                start as int,
                i as int,
            ).push(c));
        }
        i = i + 1;
    }
    assert(var@.subrange(0, n as int) =~= var@);
    let f = String::from_str(var.substring_char(start, n));
    out.push(f);
    assert(texts(out@) =~= search_fields(var@));
    out
}

/// The path of the entry `name` inside the directory `dir`: a separator is
/// put between them unless `dir` is empty or already ends in one.
pub open spec fn joined(dir: Seq<char>, name: Seq<char>) -> Seq<char> {
    if dir.len() == 0 {
        name
    } else if dir.last() == '/' {
        dir + name
    } else {
        dir + seq!['/'] + name
    }
}

/// The path of the entry `name` inside the directory `dir`.
pub fn join_path(dir: &str, name: &str) -> (r: String)
    ensures
        r@ == joined(dir@, name@),
{
    let n = dir.unicode_len();
    if n == 0 {
        String::from_str(name)
    } else if dir.get_char(n - 1) == '/' {
        String::from_str(dir).concat(name)
    } else {
        proof {
            reveal_strlit("/");
        }
        let r = String::from_str(dir).concat("/").concat(name);
        assert(r@ =~= joined(dir@, name@));
        r
    }
}

/// One directory of the search path, as the caller found it: its path, and
/// the names of its entries when it is a directory that could be read.
pub struct SearchDir {
    pub path: String,
    pub entries: Option<Vec<String>>,
}

/// Whether the directory `d` was read and lists an entry named `name`.
pub open spec fn lists(d: SearchDir, name: Seq<char>) -> bool {
    match d.entries {
        Some(es) => texts(es@).contains(name),
        None => false,
    }
}

/// The path that `name` resolves to in the directories `ds`, searched in
/// order: the first that lists it wins.
pub open spec fn resolve_spec(name: Seq<char>, ds: Seq<SearchDir>) -> Option<Seq<char>>
    decreases ds.len(),
{
    if ds.len() == 0 {
        None
    } else if lists(ds[0], name) {
        Some(joined(ds[0].path@, name))
    } else {
        resolve_spec(name, ds.drop_first())
    }
}

/// Whether `entries` holds the name `name`.
fn has_entry(entries: &Vec<String>, name: &str) -> (r: bool)
    ensures
        r == texts(entries@).contains(name@),
{
    let mut i: usize = 0;
    while i < entries.len()
        invariant
            i <= entries@.len(),
            forall|k: int| 0 <= k < i ==> entries@[k]@ != name@,
        decreases entries@.len() - i,
    {
        if same_text(entries[i].as_str(), name) {
            assert(texts(entries@)[i as int] == name@);
            return true;
        }
        i = i + 1;
    }
    assert forall|k: int| 0 <= k < texts(entries@).len() implies texts(entries@)[k] != name@ by {
        assert(texts(entries@)[k] == entries@[k]@);
    }
    false
}

/// Resolves `name` against the listed search directories, in order; a
/// directory that could not be read is skipped.
pub fn resolve_in(name: &str, dirs: &Vec<SearchDir>) -> (r: Option<String>)
    ensures
        match r {
            Some(p) => resolve_spec(name@, dirs@) == Some(p@),
            None => resolve_spec(name@, dirs@) is None,
        },
{
    let mut i: usize = 0;
    assert(dirs@.subrange(0, dirs@.len() as int) =~= dirs@);
    while i < dirs.len()
        invariant
            i <= dirs@.len(),
            resolve_spec(name@, dirs@) == resolve_spec(
                name@,
                dirs@.subrange(i as int, dirs@.len() as int),
            ),
        decreases dirs@.len() - i,
    {
        let ghost rest = dirs@.subrange(i as int, dirs@.len() as int);
        assert(rest[0] == dirs@[i as int]);
        assert(rest.drop_first() =~= dirs@.subrange(i + 1, dirs@.len() as int));
        let d = &dirs[i];
        let found = match &d.entries {
            Some(es) => has_entry(es, name),
            None => false,
        };
        if found {
            return Some(join_path(d.path.as_str(), name));
        }
        i = i + 1;
    }
    None
}

/// Resolution depends on nothing but the name and what the directories
/// list: two lookups of one name against one unchanged listing agree.
pub proof fn lemma_resolution_repeatable(name: Seq<char>, a: Seq<SearchDir>, b: Seq<SearchDir>)
    requires
        a == b,
    ensures
        resolve_spec(name, a) == resolve_spec(name, b),
{
}

} // verus!
