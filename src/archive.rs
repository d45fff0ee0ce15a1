//! Planning the extraction of archive entries: each entry becomes a
//! directory, a file, or is rejected when its path would leave the
//! destination root.
use vstd::prelude::*;
use crate::text::chars_of;

verus! {

pub open spec fn is_sep(c: char) -> bool {
    c == '/' || c == '\\'
}

/// The depth reached by entering path component `seg` at `depth`; `None`
/// when a `..` climbs above the root.
pub open spec fn enter(depth: nat, seg: Seq<char>) -> Option<nat> {
    if seg == seq!['.', '.'] {
        if depth == 0 {
            None
        } else {
            Some((depth - 1) as nat)
        }
    } else if seg.len() == 0 || seg == seq!['.'] {
        Some(depth)
    } else {
        Some(depth + 1)
    }
}

/// Walks the rest `s` of a path, from `depth` and the partly read component
/// `seg`; `None` when the path climbs above the root at some point.
pub open spec fn walk(s: Seq<char>, depth: nat, seg: Seq<char>) -> Option<nat>
    decreases s.len(),
{
    if s.len() == 0 {
        enter(depth, seg)
    } else if is_sep(s[0]) {
        match enter(depth, seg) {
            Some(d) => walk(s.drop_first(), d, Seq::empty()),
            None => None,
        }
    } else {
        walk(s.drop_first(), depth, seg.push(s[0]))
    }
}

/// `name` is a relative path, free of drive and NUL characters, that never
/// climbs above the root it is resolved against.
pub open spec fn stays_inside(name: Seq<char>) -> bool {
    &&& !(name.len() > 0 && is_sep(name[0]))
    &&& forall|i: int| #![trigger name[i]] 0 <= i < name.len() ==> name[i] != ':' && name[i] != '\0'
    &&& walk(name, 0, Seq::empty()) is Some
}

/// What the installer does with one entry.
#[derive(Clone, Copy, Debug, PartialEq, Eq, Structural)]
pub enum EntryPlan {
    /// Nothing is written for this entry.
    Reject,
    /// Create the directory tree.
    MakeDirectory,
    /// Create the parent directories, then write the file.
    WriteFile,
}

/// The plan for an entry named `name`; `enclosed` is the archive reader's
/// own verdict that the name is a safe relative path.
pub open spec fn plan_of(name: Seq<char>, enclosed: bool) -> EntryPlan {
    if !enclosed || !stays_inside(name) {
        EntryPlan::Reject
    } else if name.len() > 0 && name.last() == '/' {
        EntryPlan::MakeDirectory
    } else {
        EntryPlan::WriteFile
    }
}

fn enter_step(depth: usize, seg: &Vec<char>) -> (r: Option<usize>)
    requires
        depth < usize::MAX,
    ensures
        match r {
            Some(d) => enter(depth as nat, seg@) == Some(d as nat),
            None => enter(depth as nat, seg@) is None,
        },
{
    if seg.len() == 2 && seg[0] == '.' && seg[1] == '.' {
        assert(seg@ =~= seq!['.', '.']);
        if depth == 0 {
            None
        } else {
            Some(depth - 1)
        }
    } else if seg.len() == 0 || (seg.len() == 1 && seg[0] == '.') {
        proof {
            if seg.len() == 1 {
                assert(seg@ =~= seq!['.']);
            }
            assert(seg@ != seq!['.', '.']) by {
                if seg@ == seq!['.', '.'] {
                    assert(seg@.len() == 2);
                }
            }
        }
        Some(depth)
    } else {
        proof {
            assert(seg@ != seq!['.', '.']) by {
                if seg@ == seq!['.', '.'] {
                    assert(seg@[0] == '.' && seg@[1] == '.');
                }
            }
            assert(seg@ != seq!['.']) by {
                if seg@ == seq!['.'] {
                    assert(seg@[0] == '.');
                }
            }
        }
        Some(depth + 1)
    }
}

/// Whether the entry name `name` stays inside the destination root.
pub fn entry_stays_inside(name: &str) -> (r: bool)
    ensures
        r == stays_inside(name@),
{
    let s = chars_of(name);
    if s.len() > 0 && (s[0] == '/' || s[0] == '\\') {
        return false;
    }
    let mut i: usize = 0;
    let mut depth: usize = 0;
    let mut seg: Vec<char> = Vec::new();
    assert(s@.subrange(0, s.len() as int) =~= s@);
    while i < s.len()
        invariant
            s@ == name@,
            i <= s.len(),
            2 * depth + seg.len() <= i,
            forall|k: int| 0 <= k < i ==> #[trigger] s@[k] != ':' && s@[k] != '\0',
            walk(s@, 0, Seq::empty()) == walk(
                s@.subrange(i as int, s.len() as int),
                depth as nat,
                seg@,
            ),
        decreases s.len() - i,
    {
        let ch = s[i];
        if ch == ':' || ch == '\0' {
            assert(!(s@[i as int] != ':' && s@[i as int] != '\0'));
            return false;
        }
        let ghost rest = s@.subrange(i as int, s.len() as int);
        assert(rest.drop_first() =~= s@.subrange(i + 1, s.len() as int));
        assert(rest[0] == ch);
        if ch == '/' || ch == '\\' {
            match enter_step(depth, &seg) {
                Some(d) => {
                    depth = d;
                    seg = Vec::new();
                    assert(seg@ =~= Seq::<char>::empty());
                },
                None => {
                    assert(is_sep(rest[0]));
                    assert(walk(rest, depth as nat, seg@) is None);
                    return false;
                },
            }
        } else {
            seg.push(ch);
        }
        i += 1;
    }
    assert(s@.subrange(s.len() as int, s.len() as int) =~= Seq::<char>::empty());
    enter_step(depth, &seg).is_some()
}

/// The plan for the entry named `name`.
pub fn plan_entry(name: &str, enclosed: bool) -> (r: EntryPlan)
    ensures
        r == plan_of(name@, enclosed),
{
    if !enclosed || !entry_stays_inside(name) {
        return EntryPlan::Reject;
    }
    let s = chars_of(name);
    if s.len() > 0 && s[s.len() - 1] == '/' {
        EntryPlan::MakeDirectory
    } else {
        EntryPlan::WriteFile
    }
}

/// The plans for a whole archive, entry by entry: one entry's plan depends on
/// that entry alone.
pub fn plan_entries(names: &Vec<String>, enclosed: &Vec<bool>) -> (r: Vec<EntryPlan>)
    requires
        names.len() == enclosed.len(),
    ensures
        r.len() == names.len(),
        forall|i: int| 0 <= i < r.len() ==> #[trigger] r@[i] == plan_of(names@[i]@, enclosed@[i]),
{
    let mut r: Vec<EntryPlan> = Vec::new();
    for i in 0..names.len()
        invariant
            names.len() == enclosed.len(),
            r.len() == i,
            forall|k: int| 0 <= k < i ==> #[trigger] r@[k] == plan_of(names@[k]@, enclosed@[k]),
    {
        r.push(plan_entry(names[i].as_str(), enclosed[i]));
    }
    r
}

/// A name that starts by climbing to the parent of the root is rejected.
pub proof fn lemma_leading_parent_escapes(rest: Seq<char>)
    ensures
        !stays_inside(seq!['.', '.', '/'] + rest),
{
    let s = seq!['.', '.', '/'] + rest;
    let s1 = seq!['.', '/'] + rest;
    let s2 = seq!['/'] + rest;
    assert(s.drop_first() =~= s1);
    assert(s1.drop_first() =~= s2);
    assert(s[0] == '.' && s1[0] == '.' && s2[0] == '/');
    assert(seq!['.'].push('.') =~= seq!['.', '.']);
    assert(Seq::<char>::empty().push('.') =~= seq!['.']);
    assert(enter(0, seq!['.', '.']) is None);
    assert(walk(s2, 0, seq!['.', '.']) is None);
    assert(walk(s1, 0, seq!['.']) is None);
    assert(walk(s, 0, Seq::empty()) is None);
}

/// An entry whose path would leave the destination is rejected, whatever the
/// reader said of it, and an entry that stays inside and that the reader
/// accepts is extracted.
pub proof fn lemma_archive_safety(name: Seq<char>, enclosed: bool)
    ensures
        !stays_inside(name) ==> plan_of(name, enclosed) == EntryPlan::Reject,
        stays_inside(name) && enclosed ==> plan_of(name, enclosed) != EntryPlan::Reject,
{
}

} // verus!
