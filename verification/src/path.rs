use vstd::prelude::*;

verus! {

/// The path separator.
pub open spec fn is_separator(c: char) -> bool {
    c == '/'
}

/// `s` split at every '/': a path with `k` separators has `k + 1` parts, some maybe empty.
pub open spec fn parts(s: Seq<char>) -> Seq<Seq<char>>
    decreases s.len(),
{
    if s.len() == 0 {
        seq![Seq::<char>::empty()]
    } else {
        let r = parts(s.drop_last());
        if is_separator(s.last()) {
            r.push(Seq::<char>::empty())
        } else {
            r.update(r.len() - 1, r.last().push(s.last()))
        }
    }
}

/// A part that names something: neither empty (doubled or trailing '/') nor ".".
pub open spec fn is_named_part(p: Seq<char>) -> bool {
    p.len() != 0 && p != seq!['.']
}

/// The last named part of a list of parts, if there is one.
pub open spec fn last_named(ps: Seq<Seq<char>>) -> Option<Seq<char>>
    decreases ps.len(),
{
    if ps.len() == 0 {
        None
    } else if is_named_part(ps.last()) {
        Some(ps.last())
    } else {
        last_named(ps.drop_last())
    }
}

/// The final component of a path: its last named part, unless that part is "..".
/// This is what `Path::file_name` gives for a path with '/' separators.
pub open spec fn file_name_of(s: Seq<char>) -> Option<Seq<char>> {
    match last_named(parts(s)) {
        Some(c) => if c == seq!['.', '.'] {
            None
        } else {
            Some(c)
        },
        None => None,
    }
}

proof fn lemma_parts_nonempty(s: Seq<char>)
    ensures
        parts(s).len() >= 1,
    decreases s.len(),
{
    if s.len() > 0 {
        lemma_parts_nonempty(s.drop_last());
    }
}

/// Collects the characters of `s`.
fn chars_of(s: &str) -> (v: Vec<char>)
    ensures
        v@ == s@,
{
    let mut v: Vec<char> = Vec::new();
    for c in it: s.chars()
        invariant
            v@ == it.seq().take(it.index() as int),
            it.seq() == s@,
    {
        v.push(c);
    }
    v
}


/// Whether the characters `v[a..b]` form a named part.
fn is_named_range(v: &Vec<char>, a: usize, b: usize) -> (r: bool)
    requires
        a <= b <= v.len(),
    ensures
        r == is_named_part(v@.subrange(a as int, b as int)),
{
    if a == b {
        return false;
    }
    if b - a == 1 && v[a] == '.' {
        assert(v@.subrange(a as int, b as int) =~= seq!['.']);
        return false;
    }
    assert(b - a != 1 ==> v@.subrange(a as int, b as int).len() != seq!['.'].len());
    assert(b - a == 1 ==> v@.subrange(a as int, b as int)[0] != seq!['.'][0]);
    true
}

/// The position `[a, b)` of the final component of the characters `v`, if there is one.
fn final_component_range(v: &Vec<char>) -> (r: Option<(usize, usize)>)
    ensures
        match r {
            Some((a, b)) => a <= b <= v.len() && file_name_of(v@) == Some(
                v@.subrange(a as int, b as int),
            ),
            None => file_name_of(v@) is None,
        },
{
    let n = v.len();
    let mut st: usize = 0;
    let mut best: Option<(usize, usize)> = None;
    let mut i: usize = 0;
    proof {
        assert(v@.take(0) =~= Seq::<char>::empty());
    }
    while i < n
        invariant
            n == v.len(),
            st <= i <= n,
            parts(v@.take(i as int)).len() >= 1,
            parts(v@.take(i as int)).last() =~= v@.subrange(st as int, i as int),
            last_named(parts(v@.take(i as int)).drop_last()) == (match best {
                Some((a, b)) => Some(v@.subrange(a as int, b as int)),
                None => None,
            }),
            best matches Some((a, b)) ==> a <= b <= i,
        decreases n - i,
    {
        let ghost t = v@.take(i as int);
        let ghost t2 = v@.take(i + 1);
        let ghost r = parts(t);
        assert(t2.drop_last() =~= t);
        assert(t2.last() == v@[i as int]);
        if v[i] == '/' {
            assert(parts(t2) == r.push(Seq::<char>::empty()));
            assert(parts(t2).drop_last() =~= r);
            if is_named_range(v, st, i) {
                best = Some((st, i));
            }
            st = i + 1;
        } else {
            let ghost x = r.last().push(v@[i as int]);
            assert(parts(t2) == r.update(r.len() - 1, x));
            assert(parts(t2).drop_last() =~= r.drop_last());
            assert(x =~= v@.subrange(st as int, i + 1));
        }
        i = i + 1;
    }
    assert(v@.take(n as int) =~= v@);
    let last: Option<(usize, usize)> = if is_named_range(v, st, n) {
        Some((st, n))
    } else {
        best
    };
    match last {
        Some((a, b)) => {
            if b - a == 2 && v[a] == '.' && v[a + 1] == '.' {
                assert(v@.subrange(a as int, b as int) =~= seq!['.', '.']);
                None
            } else {
                assert(b - a != 2 ==> v@.subrange(a as int, b as int).len() != seq!['.', '.'].len());
                assert(b - a == 2 && v@[a as int] != '.' ==> v@.subrange(a as int, b as int)[0] != seq!['.', '.'][0]);
                assert(b - a == 2 && v@[a + 1] != '.' ==> v@.subrange(a as int, b as int)[1] != seq!['.', '.'][1]);
                Some((a, b))
            }
        },
        None => None,
    }
}

/// The final component of `path`, as `Path::file_name` gives it for '/'-separated paths:
/// the last part between separators that is neither empty nor ".", unless it is "..".
/// `None` for "", "/", "." and paths that end in "..".
pub fn file_name(path: &str) -> (r: Option<String>)
    ensures
        match r {
            Some(n) => file_name_of(path@) == Some(n@),
            None => file_name_of(path@) is None,
        },
{
    let v = chars_of(path);
    match final_component_range(&v) {
        Some((a, b)) => Some(String::from_str(path.substring_char(a, b))),
        None => None,
    }
}


proof fn lemma_parts_have_no_separator(s: Seq<char>)
    ensures
        forall|k: int, j: int|
            0 <= k < parts(s).len() && 0 <= j < parts(s)[k].len() ==> !is_separator(
                #[trigger] parts(s)[k][j],
            ),
    decreases s.len(),
{
    if s.len() > 0 {
        lemma_parts_have_no_separator(s.drop_last());
        lemma_parts_nonempty(s.drop_last());
        let r = parts(s.drop_last());
        if !is_separator(s.last()) {
            assert forall|k: int, j: int|
                0 <= k < parts(s).len() && 0 <= j < parts(s)[k].len() implies !is_separator(
                #[trigger] parts(s)[k][j],
            ) by {
                if k == r.len() - 1 {
                    if j < r.last().len() {
                        assert(parts(s)[k][j] == r[k][j]);
                    }
                } else {
                    assert(parts(s)[k] == r[k]);
                }
            }
        } else {
            assert forall|k: int, j: int|
                0 <= k < parts(s).len() && 0 <= j < parts(s)[k].len() implies !is_separator(
                #[trigger] parts(s)[k][j],
            ) by {
                assert(k < r.len());
                assert(parts(s)[k] == r[k]);
            }
        }
    }
}

proof fn lemma_last_named_is_member(ps: Seq<Seq<char>>)
    ensures
        last_named(ps) matches Some(c) ==> is_named_part(c) && exists|k: int|
            0 <= k < ps.len() && ps[k] == c,
    decreases ps.len(),
{
    if ps.len() > 0 && !is_named_part(ps.last()) {
        lemma_last_named_is_member(ps.drop_last());
        if let Some(c) = last_named(ps.drop_last()) {
            let k = choose|k: int| 0 <= k < ps.drop_last().len() && ps.drop_last()[k] == c;
            assert(ps[k] == c);
        }
    } else if ps.len() > 0 {
        assert(ps[ps.len() - 1] == ps.last());
    }
}

/// A file name is a single component: non-empty, free of '/', and neither "." nor "..".
pub proof fn law_file_name_is_single_component(s: Seq<char>)
    ensures
        file_name_of(s) matches Some(n) ==> {
            &&& n.len() > 0
            &&& forall|j: int| 0 <= j < n.len() ==> !is_separator(#[trigger] n[j])
            &&& n != seq!['.']
            &&& n != seq!['.', '.']
        },
{
    lemma_parts_have_no_separator(s);
    lemma_last_named_is_member(parts(s));
    if let Some(n) = file_name_of(s) {
        let k = choose|k: int| 0 <= k < parts(s).len() && parts(s)[k] == n;
        assert forall|j: int| 0 <= j < n.len() implies !is_separator(#[trigger] n[j]) by {
            assert(parts(s)[k][j] == n[j]);
        }
    }
}

/// A trailing "/" or "/." does not change the file name ("foo.txt/." names "foo.txt").
pub proof fn law_file_name_ignores_trailing_separator(s: Seq<char>)
    ensures
        file_name_of(s.push('/')) == file_name_of(s),
        file_name_of(s.push('/').push('.')) == file_name_of(s),
{
    let t = s.push('/');
    assert(t.drop_last() =~= s);
    assert(parts(t) == parts(s).push(Seq::<char>::empty()));
    assert(parts(t).drop_last() =~= parts(s));
    let u = t.push('.');
    assert(u.drop_last() =~= t);
    let x = parts(t).last().push('.');
    assert(parts(u) == parts(t).update(parts(t).len() - 1, x));
    assert(x =~= seq!['.']);
    assert(parts(u).drop_last() =~= parts(t).drop_last());
}

proof fn lemma_parts_append_part(d: Seq<char>, n: Seq<char>)
    requires
        forall|j: int| 0 <= j < n.len() ==> !is_separator(#[trigger] n[j]),
    ensures
        parts(d + n) =~= parts(d).update(parts(d).len() - 1, parts(d).last() + n),
    decreases n.len(),
{
    lemma_parts_nonempty(d);
    if n.len() == 0 {
        assert(d + n =~= d);
        assert(parts(d).last() + n =~= parts(d).last());
    } else {
        let m = n.drop_last();
        assert forall|j: int| 0 <= j < m.len() implies !is_separator(#[trigger] m[j]) by {
            assert(m[j] == n[j]);
        }
        lemma_parts_append_part(d, m);
        assert((d + n).drop_last() =~= d + m);
        assert((d + n).last() == n.last());
        assert(!is_separator(n[n.len() - 1]));
        let r = parts(d + m);
        assert(parts(d + n) == r.update(r.len() - 1, r.last().push(n.last())));
        assert(r.last() == parts(d).last() + m);
        assert(r.last().push(n.last()) =~= parts(d).last() + n);
        assert(parts(d + n) =~= parts(d).update(parts(d).len() - 1, parts(d).last() + n));
    }
}

/// The file name of `dir/name` is `name`, whenever `name` is a single named component.
pub proof fn law_file_name_of_joined_path(dir: Seq<char>, name: Seq<char>)
    requires
        is_named_part(name),
        name != seq!['.', '.'],
        forall|j: int| 0 <= j < name.len() ==> !is_separator(#[trigger] name[j]),
    ensures
        file_name_of(dir.push('/') + name) == Some(name),
        file_name_of(name) == Some(name),
{
    let t = dir.push('/');
    assert(t.drop_last() =~= dir);
    assert(parts(t) == parts(dir).push(Seq::<char>::empty()));
    lemma_parts_append_part(t, name);
    assert(Seq::<char>::empty() + name =~= name);
    assert(parts(t + name).last() =~= name);
    lemma_parts_append_part(Seq::<char>::empty(), name);
    assert(Seq::<char>::empty() + name =~= name);
    assert(parts(name).last() =~= name);
}


/// Only '/' separates components: whatever `dir` is, the file name of `dir/name` is
/// `name` for every `name` free of '/' that is neither empty, "." nor "..", spaces and
/// every other character included; and such a `name` alone is its own file name.
pub proof fn law_only_slash_separates_components(dir: Seq<char>, name: Seq<char>)
    requires
        name.len() > 0,
        name != seq!['.'],
        name != seq!['.', '.'],
        forall|j: int| 0 <= j < name.len() ==> #[trigger] name[j] != '/',
    ensures
        file_name_of(dir + seq!['/'] + name) == Some(name),
        file_name_of(name) == Some(name),
{
    assert forall|j: int| 0 <= j < name.len() implies !is_separator(#[trigger] name[j]) by {
        assert(name[j] != '/');
    }
    assert(dir + seq!['/'] =~= dir.push('/'));
    law_file_name_of_joined_path(dir, name);
}

} // verus!
