//! Paths as Unix writes them: components with slashes between them.
use vstd::prelude::*;

use crate::text::{chars_of, concat, concat3};

verus! {

/// `name` below `dir`; an absolute name stands for itself.
pub open spec fn below(dir: Seq<char>, name: Seq<char>) -> Seq<char> {
    if name.len() > 0 && name[0] == '/' {
        name
    } else if dir.len() == 0 || dir.last() == '/' {
        dir + name
    } else {
        dir + "/"@ + name
    }
}

/// The path without the slashes and the `.` components at its end, which name nothing.
/// A slash or a `.` at the beginning stays.
pub open spec fn shortened(p: Seq<char>) -> Seq<char>
    decreases p.len(),
{
    if p.len() >= 2 && (p.last() == '/' || (p.last() == '.' && p[p.len() - 2] == '/')) {
        shortened(p.drop_last())
    } else {
        p
    }
}

/// What stands behind the last slash, or all of it where there is none.
pub open spec fn last_component(p: Seq<char>) -> Seq<char>
    decreases p.len(),
{
    if p.len() == 0 || p.last() == '/' {
        Seq::empty()
    } else {
        last_component(p.drop_last()).push(p.last())
    }
}

/// Whether the path ends in the name of a file or a directory, and not in the root or
/// in a step up or nowhere.
pub open spec fn names_a_file(p: Seq<char>) -> bool {
    let c = last_component(shortened(p));
    c.len() > 0 && c != "."@ && c != ".."@
}

/// The path of what holds the file that `p` names.
pub open spec fn parent(p: Seq<char>) -> Seq<char> {
    let s = shortened(p);
    shortened(s.take(s.len() - last_component(s).len()))
}

/// The path with another name for the file; a path that names none is gone below.
pub open spec fn renamed(p: Seq<char>, name: Seq<char>) -> Seq<char> {
    if names_a_file(p) {
        below(parent(p), name)
    } else {
        below(p, name)
    }
}

/// The last component is no longer than the path.
proof fn last_component_fits(p: Seq<char>)
    ensures
        last_component(p).len() <= p.len(),
        last_component(p) == p.skip(p.len() - last_component(p).len()),
    decreases p.len(),
{
    if p.len() > 0 && p.last() != '/' {
        last_component_fits(p.drop_last());
        assert(last_component(p) =~= p.skip(p.len() - last_component(p).len()));
    } else {
        assert(last_component(p) =~= p.skip(p.len() as int));
    }
}

/// `name` below `dir`.
pub fn join(dir: &str, name: &str) -> (r: String)
    ensures
        r@ == below(dir@, name@),
{
    let d = chars_of(dir);
    let n = chars_of(name);
    if n.len() > 0 && n[0] == '/' {
        name.to_owned()
    } else if d.len() == 0 || d[d.len() - 1] == '/' {
        concat(dir, name)
    } else {
        concat3(dir, "/", name)
    }
}

/// How much of the path is left when its end is shortened.
fn shortened_len(p: &Vec<char>, end: usize) -> (r: usize)
    requires
        end <= p@.len(),
    ensures
        r <= end,
        p@.take(r as int) == shortened(p@.take(end as int)),
{
    let mut k: usize = end;
    while k >= 2 && (p[k - 1] == '/' || (p[k - 1] == '.' && p[k - 2] == '/'))
        invariant
            k <= end <= p@.len(),
            shortened(p@.take(k as int)) == shortened(p@.take(end as int)),
        decreases k,
    {
        assert(p@.take(k as int).drop_last() =~= p@.take(k - 1));
        k -= 1;
    }
    k
}

/// How long the last component of the first `end` characters is.
fn last_component_len(p: &Vec<char>, end: usize) -> (r: usize)
    requires
        end <= p@.len(),
    ensures
        r <= end,
        r == last_component(p@.take(end as int)).len(),
    decreases end,
{
    if end == 0 || p[end - 1] == '/' {
        0
    } else {
        assert(p@.take(end as int).drop_last() =~= p@.take(end - 1));
        last_component_len(p, end - 1) + 1
    }
}

/// The path with another name for the file.
pub fn with_file_name(path: &str, name: &str) -> (r: String)
    ensures
        r@ == renamed(path@, name@),
{
    let p = chars_of(path);
    proof {
        assert(p@.take(p@.len() as int) =~= p@);
        reveal_strlit(".");
        reveal_strlit("..");
    }
    let k = shortened_len(&p, p.len());
    let c = last_component_len(&p, k);
    let ghost s = shortened(path@);
    proof {
        last_component_fits(s);
    }
    let plain = c > 0 && !(c == 1 && p[k - 1] == '.') && !(c == 2 && p[k - 1] == '.' && p[k - 2]
        == '.');
    proof {
        let l = last_component(s);
        assert(l == s.skip(s.len() - l.len()));
        if c == 1 {
            assert(l[0] == p@[k - 1]);
            assert(l == "."@ <==> l[0] == '.') by {
                if l[0] == '.' {
                    assert(l =~= "."@);
                }
            }
        } else if c == 2 {
            assert(l[0] == p@[k - 2]);
            assert(l[1] == p@[k - 1]);
            assert(l == ".."@ <==> l[0] == '.' && l[1] == '.') by {
                if l[0] == '.' && l[1] == '.' {
                    assert(l =~= ".."@);
                }
            }
        }
        assert(plain == names_a_file(path@));
    }
    if plain {
        let m = shortened_len(&p, k - c);
        assert(p@.take(k - c) =~= s.take(s.len() - last_component(s).len()));
        join(path.substring_char(0, m), name)
    } else {
        join(path, name)
    }
}

/// A name without slashes that is neither empty nor a step.
pub open spec fn plain_name(name: Seq<char>) -> bool {
    name.len() > 0 && !name.contains('/') && name != "."@ && name != ".."@
}

/// The last component of a path below a directory is the plain name there.
proof fn last_component_below(dir: Seq<char>, name: Seq<char>)
    requires
        !name.contains('/'),
        dir.len() == 0 || dir.last() == '/',
    ensures
        last_component(dir + name) == name,
    decreases name.len(),
{
    if name.len() == 0 {
        assert(dir + name =~= dir);
        assert(last_component(dir + name) =~= name);
    } else {
        assert(name.contains(name.last()));
        assert forall|c: char| name.drop_last().contains(c) implies name.contains(c) by {
            let i = choose|i: int| 0 <= i < name.drop_last().len() && name.drop_last()[i] == c;
            assert(name[i] == c);
        }
        last_component_below(dir, name.drop_last());
        assert((dir + name).drop_last() =~= dir + name.drop_last());
        assert((dir + name).last() == name.last());
        assert(last_component(dir + name) =~= name);
    }
}

/// Another name for a file stands where the file stood: in a directory whose path has
/// nothing superfluous at its end.
pub proof fn renaming_stays_in_the_directory(
    dir: Seq<char>,
    name: Seq<char>,
    other: Seq<char>,
)
    requires
        shortened(dir) == dir,
        plain_name(name),
    ensures
        renamed(below(dir, name), other) == below(dir, other),
{
    reveal_strlit("/");
    reveal_strlit(".");
    reveal_strlit("..");
    assert(name.contains(name[0]));
    assert(name.contains(name.last()));
    let head = if dir.len() == 0 || dir.last() == '/' {
        dir
    } else {
        dir + "/"@
    };
    let p = below(dir, name);
    assert(p =~= head + name);
    last_component_below(head, name);
    if name.len() == 1 {
        assert(name.last() == '.' ==> name =~= "."@);
    } else {
        assert(p[p.len() - 2] == name[name.len() - 2]);
        assert(name.contains(name[name.len() - 2]));
    }
    assert(shortened(p) == p);
    assert(p.take(p.len() - name.len()) =~= head);
    if dir.len() == 0 || dir.last() == '/' {
        assert(shortened(head) == dir);
    } else {
        assert(head.drop_last() =~= dir);
        assert(shortened(head) == shortened(dir));
    }
}

/// What names nothing at the end of a path does not count: slashes, and steps that stay.
/// Everything else does.
pub proof fn superfluous_ends_do_not_count(p: Seq<char>)
    requires
        p.len() > 0,
    ensures
        shortened(p + "/"@) == shortened(p),
        shortened(p + "/."@) == shortened(p),
        p.last() != '/' && p.last() != '.' ==> shortened(p) == p,
{
    reveal_strlit("/");
    reveal_strlit("/.");
    assert((p + "/"@).drop_last() =~= p);
    assert((p + "/."@).drop_last() =~= p + "/"@);
}

/// A path that ends in a step up names no file: another name is gone below it.
pub proof fn steps_up_are_kept(dir: Seq<char>, other: Seq<char>)
    requires
        dir.len() > 0,
    ensures
        renamed(dir + "/.."@, other) == below(dir + "/.."@, other),
        renamed("/"@, other) == below("/"@, other),
        renamed(Seq::empty(), other) == below(Seq::empty(), other),
{
    reveal_strlit("/");
    reveal_strlit("/..");
    reveal_strlit("..");
    let p = dir + "/.."@;
    assert(p.last() == '.' && p[p.len() - 2] == '.');
    assert(shortened(p) == p);
    assert(!".."@.contains('/'));
    last_component_below(dir + "/"@, ".."@);
    assert(p =~= dir + "/"@ + ".."@);
    assert(shortened("/"@) == "/"@);
    assert(last_component("/"@) == Seq::<char>::empty());
    assert(last_component(Seq::<char>::empty()) == Seq::<char>::empty());
}

/// A name stands below its directory, with one slash between them; an absolute name stands
/// for itself.
pub proof fn names_stand_below_their_directory(dir: Seq<char>, name: Seq<char>)
    requires
        name.len() > 0,
    ensures
        name[0] == '/' ==> below(dir, name) == name,
        name[0] != '/' && dir.len() > 0 && dir.last() != '/' ==> below(dir, name) == dir + seq!['/']
            + name,
        name[0] != '/' ==> below(dir + seq!['/'], name) == dir + seq!['/'] + name,
        name[0] != '/' ==> below(Seq::empty(), name) == name,
{
    reveal_strlit("/");
    assert("/"@ =~= seq!['/']);
    assert((dir + seq!['/']).last() == '/');
    assert(Seq::<char>::empty() + name =~= name);
}

} // verus!
