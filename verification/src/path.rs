//! Paths of Unix as text, with `/` between their components.
use vstd::prelude::*;
use vstd::string::*;

use crate::text::{chars_of, same, string_between};

verus! {

/// The texts of a sequence of strings.
pub open spec fn texts(v: Seq<String>) -> Seq<Seq<char>> {
    Seq::new(v.len(), |i: int| v[i]@)
}

/// An absolute path starts at the root.
pub open spec fn absolute(p: Seq<char>) -> bool {
    p.len() > 0 && p[0] == '/'
}

/// `part` taken relative to `base`: an absolute part replaces the base, and a
/// separator is put between the two where the base does not end in one already.
pub open spec fn joined(base: Seq<char>, part: Seq<char>) -> Seq<char> {
    if absolute(part) {
        part
    } else if base.len() == 0 || base.last() == '/' {
        base + part
    } else {
        base.push('/') + part
    }
}

/// Does the path start at the root?
pub fn is_absolute(p: &str) -> (b: bool)
    ensures
        b == absolute(p@),
{
    !p.is_empty() && p.get_char(0) == '/'
}

/// Joins `part` to `base`.
pub fn join(base: &str, part: &str) -> (r: String)
    ensures
        r@ == joined(base@, part@),
{
    let mut r = String::new();
    if is_absolute(part) {
        r.append(part);
        assert(r@ =~= part@);
        return r;
    }
    r.append(base);
    assert(r@ =~= base@);
    let n: usize = base.unicode_len();
    if n > 0 && base.get_char(n - 1) != '/' {
        r.push('/');
    }
    r.append(part);
    r
}

/// Where the segment of `p` that starts at `from` ends: at the next separator, or at
/// the end of `p`.
pub open spec fn segment_end(p: Seq<char>, from: int) -> int
    decreases p.len() - from,
{
    if from >= p.len() || p[from] == '/' {
        from
    } else {
        segment_end(p, from + 1)
    }
}

/// Empty segments name nothing, nor does `.` except at the front of a relative path.
pub open spec fn names_something(segment: Seq<char>, first: bool) -> bool {
    segment.len() > 0 && (segment == "."@ ==> first)
}

/// The segments of `p` from `from` on that name something.
pub open spec fn parts_from(p: Seq<char>, from: int) -> Seq<Seq<char>>
    decreases p.len() - from + 1,
    when 0 <= from
    via parts_from_ends
{
    if from > p.len() {
        Seq::empty()
    } else {
        let e = segment_end(p, from);
        let segment = p.subrange(from, e);
        let rest = parts_from(p, e + 1);
        if names_something(segment, from == 0) {
            seq![segment] + rest
        } else {
            rest
        }
    }
}

proof fn lemma_segment_end(p: Seq<char>, from: int)
    requires
        0 <= from <= p.len(),
    ensures
        from <= segment_end(p, from) <= p.len(),
    decreases p.len() - from,
{
    if from < p.len() && p[from] != '/' {
        lemma_segment_end(p, from + 1);
    }
}

#[via_fn]
proof fn parts_from_ends(p: Seq<char>, from: int) {
    if from <= p.len() {
        lemma_segment_end(p, from);
    }
}

/// The components of a path below the root.
pub open spec fn parts(p: Seq<char>) -> Seq<Seq<char>> {
    parts_from(p, 0)
}

/// Two paths are the same: both or neither start at the root, and their components agree.
pub open spec fn same_path(a: Seq<char>, b: Seq<char>) -> bool {
    absolute(a) == absolute(b) && parts(a) == parts(b)
}

/// The components of a path below the root.
pub fn components(p: &str) -> (r: Vec<String>)
    ensures
        texts(r@) == parts(p@),
{
    let v = chars_of(p);
    let mut r: Vec<String> = Vec::new();
    let mut from: usize = 0;
    assert(texts(r@) + parts_from(p@, 0) =~= parts(p@));
    loop
        invariant_except_break
            texts(r@) + parts_from(p@, from as int) == parts(p@),
        invariant
            v@ == p@,
            from <= v@.len(),
        ensures
            texts(r@) == parts(p@),
        decreases v@.len() - from,
    {
        let mut e: usize = from;
        while e < v.len() && v[e] != '/'
            invariant
                from <= e <= v@.len(),
                segment_end(v@, from as int) == segment_end(v@, e as int),
            decreases v@.len() - e,
        {
            e = e + 1;
        }
        let segment = string_between(&v, from, e);
        let ghost before = r@;
        let ghost rest = parts_from(p@, e + 1);
        if !segment.as_str().is_empty() && (from == 0 || !same(segment.as_str(), ".")) {
            r.push(segment);
            assert(texts(r@) =~= texts(before).push(segment@));
            assert(texts(r@) + rest =~= texts(before) + (seq![segment@] + rest));
        }
        assert(texts(r@) + rest == parts(p@));
        if e >= v.len() {
            assert(rest =~= Seq::<Seq<char>>::empty());
            assert(texts(r@) + rest =~= texts(r@));
            break;
        }
        from = e + 1;
    }
    r
}

/// Do two paths have the same root and the same components?
pub fn paths_equal(a: &str, b: &str) -> (r: bool)
    ensures
        r == same_path(a@, b@),
{
    if is_absolute(a) != is_absolute(b) {
        return false;
    }
    let x = components(a);
    let y = components(b);
    if x.len() != y.len() {
        assert(parts(a@).len() != parts(b@).len());
        return false;
    }
    for i in 0..x.len()
        invariant
            x@.len() == y@.len(),
            texts(x@) == parts(a@),
            texts(y@) == parts(b@),
            forall|k: int| 0 <= k < i ==> x@[k]@ == y@[k]@,
    {
        if !same(x[i].as_str(), y[i].as_str()) {
            assert(parts(a@)[i as int] != parts(b@)[i as int]);
            return false;
        }
    }
    assert(texts(x@) =~= texts(y@));
    true
}

/// The last component of `p`, where it names a file: not the root, `.` or `..`.
pub open spec fn last_name(p: Seq<char>) -> Option<Seq<char>> {
    let c = parts(p);
    if c.len() == 0 || c.last() == "."@ || c.last() == ".."@ {
        None
    } else {
        Some(c.last())
    }
}

/// The name of the file that `p` leads to.
pub fn file_name(p: &str) -> (r: Option<String>)
    ensures
        match r {
            Some(name) => last_name(p@) == Some(name@),
            None => last_name(p@) is None,
        },
{
    let mut c = components(p);
    let ghost before = c@;
    match c.pop() {
        None => None,
        Some(name) => {
            assert(parts(p@).last() == name@);
            if same(name.as_str(), ".") || same(name.as_str(), "..") {
                None
            } else {
                Some(name)
            }
        },
    }
}

/// `p` without the separators and `.` segments at its end, the root kept.
pub open spec fn tail_trimmed(p: Seq<char>) -> Seq<char>
    decreases p.len(),
{
    if p.len() > 1 && (p.last() == '/' || (p.last() == '.' && p[p.len() - 2] == '/')) {
        tail_trimmed(p.drop_last())
    } else {
        p
    }
}

/// The length of `p` up to its last separator, that included; zero without one.
pub open spec fn dir_len(p: Seq<char>) -> int
    decreases p.len(),
{
    if p.len() == 0 || p.last() == '/' {
        p.len() as int
    } else {
        dir_len(p.drop_last())
    }
}

/// The path of the directory that holds the last component of `p`; none for the root
/// and for the empty path.
pub open spec fn parent_path(p: Seq<char>) -> Option<Seq<char>> {
    let t = tail_trimmed(p);
    if t.len() == 0 || t == "/"@ {
        None
    } else {
        Some(tail_trimmed(t.take(dir_len(t))))
    }
}

fn tail_end(v: &Vec<char>, n: usize) -> (e: usize)
    requires
        n <= v@.len(),
    ensures
        e <= n,
        v@.take(e as int) == tail_trimmed(v@.take(n as int)),
{
    let mut e: usize = n;
    while e > 1 && (v[e - 1] == '/' || (v[e - 1] == '.' && v[e - 2] == '/'))
        invariant
            e <= n <= v@.len(),
            tail_trimmed(v@.take(e as int)) == tail_trimmed(v@.take(n as int)),
        decreases e,
    {
        assert(v@.take(e as int).drop_last() =~= v@.take(e - 1));
        e = e - 1;
    }
    e
}

/// The directory part of `p`.
pub fn parent(p: &str) -> (r: Option<String>)
    ensures
        match r {
            Some(dir) => parent_path(p@) == Some(dir@),
            None => parent_path(p@) is None,
        },
{
    proof {
        reveal_strlit("/");
    }
    let v = chars_of(p);
    assert(v@.take(v@.len() as int) =~= v@);
    let e: usize = tail_end(&v, v.len());
    let ghost t = tail_trimmed(p@);
    if e == 0 {
        return None;
    }
    if e == 1 && v[0] == '/' {
        assert(t =~= "/"@);
        return None;
    }
    assert(t.len() == e && t[0] == v@[0]);
    assert("/"@.len() == 1 && "/"@[0] == '/');
    assert(t != "/"@);
    let mut k: usize = e;
    while k > 0 && v[k - 1] != '/'
        invariant
            k <= e <= v@.len(),
            dir_len(v@.take(k as int)) == dir_len(v@.take(e as int)),
        decreases k,
    {
        assert(v@.take(k as int).drop_last() =~= v@.take(k - 1));
        k = k - 1;
    }
    assert(dir_len(t) == k);
    assert(t.take(k as int) =~= v@.take(k as int));
    let d: usize = tail_end(&v, k);
    let r = string_between(&v, 0, d);
    assert(r@ =~= v@.take(d as int));
    Some(r)
}

/// A name is put behind a folder with one slash between them; a path that starts at the root is
/// taken as it is.
pub proof fn a_part_is_put_behind_its_base(base: Seq<char>, part: Seq<char>)
    ensures
        part.len() > 0 && part[0] == '/' ==> joined(base, part) == part,
        !(part.len() > 0 && part[0] == '/') ==> {
            &&& base.len() == 0 ==> joined(base, part) == part
            &&& base.len() > 0 && base.last() == '/' ==> joined(base, part) == base + part
            &&& base.len() > 0 && base.last() != '/' ==> joined(base, part) == base + seq!['/']
                + part
        },
{
    if base.len() == 0 {
        assert(base + part =~= part);
    }
    assert(base.push('/') + part =~= base + seq!['/'] + part);
}

/// A name of a file: something without a slash that is not `.` or `..`.
pub open spec fn plain_name(name: Seq<char>) -> bool {
    &&& name.len() > 0
    &&& forall|i: int| 0 <= i < name.len() ==> #[trigger] name[i] != '/'
    &&& name != seq!['.'] && name != seq!['.', '.']
}

proof fn lemma_segment_end_at(p: Seq<char>, from: int, to: int)
    requires
        0 <= from <= to <= p.len(),
        forall|i: int| from <= i < to ==> #[trigger] p[i] != '/',
        to < p.len() ==> p[to] == '/',
    ensures
        segment_end(p, from) == to,
    decreases to - from,
{
    if from < to {
        lemma_segment_end_at(p, from + 1, to);
    }
}

proof fn lemma_segment_end_before(p: Seq<char>, from: int, slash: int)
    requires
        0 <= from <= slash < p.len(),
        p[slash] == '/',
    ensures
        from <= segment_end(p, from) <= slash,
    decreases slash - from,
{
    if p[from] != '/' {
        lemma_segment_end_before(p, from + 1, slash);
    }
}

proof fn lemma_last_part(p: Seq<char>, from: int, k: int)
    requires
        0 <= from <= k < p.len(),
        0 < k,
        p[k - 1] == '/',
        plain_name(p.skip(k)),
    ensures
        parts_from(p, from).len() > 0,
        parts_from(p, from).last() == p.skip(k),
    decreases k - from,
{
    reveal_strlit(".");
    let name = p.skip(k);
    if from == k {
        assert forall|i: int| k <= i < p.len() implies #[trigger] p[i] != '/' by {
            assert(name[i - k] == p[i]);
        }
        lemma_segment_end_at(p, k, p.len() as int);
        assert(p.subrange(k, p.len() as int) =~= name);
        assert("."@ =~= seq!['.']);
        assert(parts_from(p, p.len() as int + 1) =~= Seq::<Seq<char>>::empty());
        assert(parts_from(p, k) =~= seq![name]);
    } else {
        lemma_segment_end_before(p, from, k - 1);
        let e = segment_end(p, from);
        lemma_last_part(p, e + 1, k);
    }
}

proof fn lemma_dir_len_of(p: Seq<char>, k: int)
    requires
        0 < k <= p.len(),
        p[k - 1] == '/',
        forall|i: int| k <= i < p.len() ==> #[trigger] p[i] != '/',
    ensures
        dir_len(p) == k,
    decreases p.len(),
{
    if p.len() > k {
        assert(p.last() == p[p.len() - 1]);
        lemma_dir_len_of(p.drop_last(), k);
    }
}

/// A file in a folder has the folder for its directory and its name for its name. The folder is
/// one that ends neither in a slash nor in a dot of its own.
pub proof fn a_file_is_known_by_its_folder_and_its_name(folder: Seq<char>, name: Seq<char>)
    requires
        folder.len() > 0,
        folder.last() != '/' && folder.last() != '.',
        plain_name(name),
    ensures
        parent_path(joined(folder, name)) == Some(folder),
        last_name(joined(folder, name)) == Some(name),
{
    reveal_strlit("/");
    reveal_strlit(".");
    reveal_strlit("..");
    let p = joined(folder, name);
    let k = folder.len() + 1;
    assert(name[0] != '/');
    assert(p =~= folder.push('/') + name);
    assert(p.skip(k as int) =~= name);
    assert("."@ =~= seq!['.'] && ".."@ =~= seq!['.', '.']);
    lemma_last_part(p, 0, k as int);
    assert(p.last() == name[name.len() - 1]);
    assert(tail_trimmed(p) == p) by {
        if p.last() == '.' && p[p.len() - 2] == '/' {
            if name.len() > 1 {
                assert(p[p.len() - 2] == name[name.len() - 2]);
            } else {
                assert(name =~= seq!['.']);
            }
        }
    }
    assert forall|i: int| k <= i < p.len() implies #[trigger] p[i] != '/' by {
        assert(p[i] == name[i - k]);
    }
    lemma_dir_len_of(p, k as int);
    assert(p.take(k as int) =~= folder.push('/'));
    assert(folder.push('/').drop_last() =~= folder);
    assert(tail_trimmed(folder.push('/')) == tail_trimmed(folder));
    assert(p != "/"@) by {
        assert("/"@.len() == 1);
    }
}

/// Two names in one folder are one file only where they are one name.
pub proof fn names_in_a_folder_are_told_apart(folder: Seq<char>, a: Seq<char>, b: Seq<char>)
    requires
        folder.len() > 0,
        folder.last() != '/' && folder.last() != '.',
        plain_name(a),
        plain_name(b),
        same_path(joined(folder, a), joined(folder, b)),
    ensures
        a == b,
{
    a_file_is_known_by_its_folder_and_its_name(folder, a);
    a_file_is_known_by_its_folder_and_its_name(folder, b);
}

proof fn lemma_parts_shift(a: Seq<char>, b: Seq<char>, rest: Seq<char>, i: int)
    requires
        0 < a.len(),
        0 < b.len(),
        0 <= i,
    ensures
        parts_from(a + rest, a.len() + i) == parts_from(b + rest, b.len() + i),
    decreases rest.len() - i + 1,
{
    let (p, q) = (a + rest, b + rest);
    if i <= rest.len() {
        lemma_segment_end(rest, i);
        let e = segment_end(rest, i);
        lemma_end_shift(a, rest, i);
        lemma_end_shift(b, rest, i);
        assert(p.subrange(a.len() + i, a.len() + e) =~= rest.subrange(i, e));
        assert(q.subrange(b.len() + i, b.len() + e) =~= rest.subrange(i, e));
        lemma_parts_shift(a, b, rest, e + 1);
        assert(a.len() + (e + 1) == a.len() + e + 1 && b.len() + (e + 1) == b.len() + e + 1);
    }
}

proof fn lemma_end_shift(a: Seq<char>, rest: Seq<char>, i: int)
    requires
        0 <= i <= rest.len(),
    ensures
        segment_end(a + rest, a.len() + i) == a.len() + segment_end(rest, i),
    decreases rest.len() - i,
{
    if i < rest.len() && rest[i] != '/' {
        assert((a + rest)[a.len() + i] == rest[i]);
        lemma_end_shift(a, rest, i + 1);
    } else if i < rest.len() {
        assert((a + rest)[a.len() + i] == rest[i]);
    }
}

proof fn lemma_parts_front(dir: Seq<char>, x: Seq<char>, y: Seq<char>, from: int)
    requires
        0 <= from <= dir.len(),
        parts_from(dir.push('/') + x, dir.len() as int + 1) == parts_from(
            dir.push('/') + y,
            dir.len() as int + 1,
        ),
    ensures
        parts_from(dir.push('/') + x, from) == parts_from(dir.push('/') + y, from),
    decreases dir.len() - from,
{
    let (p, q) = (dir.push('/') + x, dir.push('/') + y);
    let k = dir.len() as int;
    assert(p[k] == '/' && q[k] == '/');
    lemma_segment_end_before(p, from, k);
    lemma_same_end(p, q, from, k);
    let e = segment_end(p, from);
    assert(p.subrange(from, e) =~= q.subrange(from, e));
    if e < k {
        lemma_parts_front(dir, x, y, e + 1);
    }
}

proof fn lemma_same_end(p: Seq<char>, q: Seq<char>, from: int, slash: int)
    requires
        0 <= from <= slash < p.len(),
        slash < q.len(),
        p[slash] == '/',
        forall|i: int| 0 <= i <= slash ==> #[trigger] p[i] == q[i],
    ensures
        segment_end(p, from) == segment_end(q, from),
    decreases slash - from,
{
    assert(p[from] == q[from]);
    if p[from] != '/' {
        lemma_same_end(p, q, from + 1, slash);
    }
}

/// A second slash and a dot between two slashes lead nowhere else.
pub proof fn slashes_and_dots_lead_nowhere_else(dir: Seq<char>, rest: Seq<char>)
    requires
        dir.len() > 0,
    ensures
        same_path(dir + seq!['/', '/'] + rest, dir + seq!['/'] + rest),
        same_path(dir + seq!['/', '.', '/'] + rest, dir + seq!['/'] + rest),
{
    reveal_strlit(".");
    let front = dir.push('/');
    let k = front.len() as int;
    let plain = front + rest;
    assert("."@ =~= seq!['.']);
    assert(dir + seq!['/'] + rest =~= plain);
    let doubled = front + (seq!['/'] + rest);
    assert(dir + seq!['/', '/'] + rest =~= doubled);
    assert(doubled =~= front.push('/') + rest);
    lemma_segment_end_at(doubled, k, k);
    assert(doubled.subrange(k, k).len() == 0);
    lemma_parts_shift(front, front.push('/'), rest, 0);
    lemma_parts_front(dir, seq!['/'] + rest, rest, 0);
    let dotted = front + (seq!['.', '/'] + rest);
    assert(dir + seq!['/', '.', '/'] + rest =~= dotted);
    assert(dotted =~= front.push('.').push('/') + rest);
    lemma_segment_end_at(dotted, k, k + 1);
    assert(dotted.subrange(k, k + 1) =~= seq!['.']);
    lemma_parts_shift(front, front.push('.').push('/'), rest, 0);
    lemma_parts_front(dir, seq!['.', '/'] + rest, rest, 0);
}

} // verus!
