//! Paths as sequences of components: separators split them, empty and `.`
//! components are skipped, and a leading separator makes a path absolute.

use vstd::prelude::*;
use vstd::string::StrSliceExecFns;
use vstd::string::StringExecFns;
use crate::text::str_equals;

verus! {

/// The segments between separators, empty ones included.
pub open spec fn segments(s: Seq<char>) -> Seq<Seq<char>>
    decreases s.len(),
{
    if s.len() == 0 {
        seq![Seq::empty()]
    } else if s.last() == '/' {
        segments(s.drop_last()).push(Seq::empty())
    } else {
        let p = segments(s.drop_last());
        p.update(p.len() - 1, p.last().push(s.last()))
    }
}

/// A segment that names a component: neither empty nor `.`.
pub open spec fn is_component(seg: Seq<char>) -> bool {
    seg.len() > 0 && seg != "."@
}

/// The segments that name components, in order.
pub open spec fn kept(segs: Seq<Seq<char>>) -> Seq<Seq<char>>
    decreases segs.len(),
{
    if segs.len() == 0 {
        Seq::empty()
    } else if is_component(segs.last()) {
        kept(segs.drop_last()).push(segs.last())
    } else {
        kept(segs.drop_last())
    }
}

/// The components of a path.
pub open spec fn components(s: Seq<char>) -> Seq<Seq<char>> {
    kept(segments(s))
}

/// A path that starts at the root.
pub open spec fn is_absolute(s: Seq<char>) -> bool {
    s.len() > 0 && s[0] == '/'
}

/// `path` lies within (or is) `root`: both start at the root or neither
/// does, and the components of `root` begin those of `path`.
pub open spec fn within_path(path: Seq<char>, root: Seq<char>) -> bool {
    &&& is_absolute(path) == is_absolute(root)
    &&& components(root).len() <= components(path).len()
    &&& components(path).subrange(0, components(root).len() as int) == components(root)
}

/// Two paths name the same place, component by component.
pub open spec fn same_path(a: Seq<char>, b: Seq<char>) -> bool {
    is_absolute(a) == is_absolute(b) && components(a) == components(b)
}

pub open spec fn views(v: Seq<String>) -> Seq<Seq<char>> {
    v.map_values(|x: String| x@)
}

proof fn lemma_segments_step(s: Seq<char>, start: int, i: int, done: Seq<Seq<char>>)
    requires
        0 <= start <= i < s.len(),
        segments(s.subrange(0, i)) == done.push(s.subrange(start, i)),
    ensures
        s[i] == '/' ==> segments(s.subrange(0, i + 1)) == done.push(s.subrange(start, i)).push(Seq::empty()),
        s[i] != '/' ==> segments(s.subrange(0, i + 1)) == done.push(s.subrange(start, i + 1)),
{
    let t = s.subrange(0, i + 1);
    assert(t.drop_last() =~= s.subrange(0, i));
    assert(t.last() == s[i]);
    if s[i] != '/' {
        assert(s.subrange(start, i).push(s[i]) =~= s.subrange(start, i + 1));
        assert(done.push(s.subrange(start, i)).update(done.len() as int, s.subrange(start, i + 1))
            =~= done.push(s.subrange(start, i + 1)));
    }
}

fn keep_segment(out: &mut Vec<String>, seg: &str)
    ensures
        is_component(seg@) ==> views(final(out)@) == views(old(out)@).push(seg@),
        !is_component(seg@) ==> final(out)@ == old(out)@,
{
    proof {
        reveal_strlit(".");
    }
    if seg.unicode_len() > 0 && !str_equals(seg, ".") {
        out.push(String::from_str(seg));
        assert(views(final(out)@) =~= views(old(out)@).push(seg@));
    }
}

/// The components of a path.
pub fn path_components(s: &str) -> (r: Vec<String>)
    ensures
        views(r@) == components(s@),
{
    let n = s.unicode_len();
    let mut out: Vec<String> = Vec::new();
    let mut start: usize = 0;
    let mut i: usize = 0;
    let ghost mut done: Seq<Seq<char>> = Seq::empty();
    assert(s@.subrange(0, 0) =~= Seq::<char>::empty());
    assert(s@.subrange(0, 0) =~= s@.subrange(0, 0));
    proof {
        assert(segments(s@.subrange(0, 0)) == seq![Seq::<char>::empty()]);
        assert(seq![Seq::<char>::empty()] =~= done.push(s@.subrange(0, 0)));
        assert(views(out@) =~= kept(done));
    }
    while i < n
        invariant
            n == s@.len(),
            start <= i <= n,
            segments(s@.subrange(0, i as int)) == done.push(s@.subrange(start as int, i as int)),
            views(out@) == kept(done),
        decreases n - i,
    {
        proof { lemma_segments_step(s@, start as int, i as int, done); }
        if s.get_char(i) == '/' {
            let seg = s.substring_char(start, i);
            keep_segment(&mut out, seg);
            proof {
                let d2 = done.push(seg@);
                assert(d2.drop_last() =~= done);
                done = d2;
                assert(s@.subrange(i as int + 1, i as int + 1) =~= Seq::<char>::empty());
            }
            start = i + 1;
        }
        i = i + 1;
    }
    let seg = s.substring_char(start, n);
    keep_segment(&mut out, seg);
    proof {
        let d2 = done.push(seg@);
        assert(d2.drop_last() =~= done);
        assert(s@.subrange(0, n as int) =~= s@);
    }
    out
}

fn absolute(s: &str) -> (r: bool)
    ensures
        r == is_absolute(s@),
{
    s.unicode_len() > 0 && s.get_char(0) == '/'
}

/// Whether the components of `prefix` begin those of `whole`.
fn components_begin(whole: &Vec<String>, prefix: &Vec<String>) -> (r: bool)
    ensures
        r == (views(prefix@).len() <= views(whole@).len()
            && views(whole@).subrange(0, views(prefix@).len() as int) == views(prefix@)),
{
    let m = prefix.len();
    if m > whole.len() {
        return false;
    }
    let mut i: usize = 0;
    while i < m
        invariant
            m == prefix@.len(),
            m <= whole@.len(),
            i <= m,
            forall|j: int| 0 <= j < i ==> whole@[j]@ == prefix@[j]@,
        decreases m - i,
    {
        if !str_equals(whole[i].as_str(), prefix[i].as_str()) {
            assert(views(whole@).subrange(0, m as int)[i as int] != views(prefix@)[i as int]);
            return false;
        }
        i = i + 1;
    }
    assert(views(whole@).subrange(0, m as int) =~= views(prefix@));
    true
}

/// Whether `path` lies within (or is) `root`, compared by components.
pub fn path_within(path: &str, root: &str) -> (r: bool)
    ensures
        r == within_path(path@, root@),
{
    if absolute(path) != absolute(root) {
        return false;
    }
    let p = path_components(path);
    let q = path_components(root);
    components_begin(&p, &q)
}

/// Whether two paths name the same place, compared by components.
pub fn paths_equal(a: &str, b: &str) -> (r: bool)
    ensures
        r == same_path(a@, b@),
{
    if absolute(a) != absolute(b) {
        return false;
    }
    let p = path_components(a);
    let q = path_components(b);
    if p.len() != q.len() {
        assert(views(p@).len() != views(q@).len());
        return false;
    }
    let r = components_begin(&p, &q);
    proof {
        if r {
            assert(views(p@).subrange(0, views(q@).len() as int) =~= views(p@));
        } else {
            assert(views(p@).len() == views(q@).len());
            if views(p@) == views(q@) {
                assert(views(p@).subrange(0, views(q@).len() as int) =~= views(p@));
            }
        }
    }
    r
}

} // verus!
