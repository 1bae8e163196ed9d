//! Reading a request path of the registry's read API.
use vstd::prelude::*;
use vstd::string::*;

verus! {

/// The `/`-separated segments of `s`, empty ones included.
pub open spec fn split_slash(s: Seq<char>) -> Seq<Seq<char>>
    decreases s.len(),
{
    if s.len() == 0 {
        seq![Seq::<char>::empty()]
    } else {
        let p = split_slash(s.drop_last());
        if s.last() == '/' {
            p.push(Seq::<char>::empty())
        } else {
            p.update(p.len() - 1, p.last().push(s.last()))
        }
    }
}

/// The segments joined back with `/`.
pub open spec fn join_slash(segs: Seq<Seq<char>>) -> Seq<char>
    decreases segs.len(),
{
    if segs.len() == 0 {
        Seq::empty()
    } else if segs.len() == 1 {
        segs[0]
    } else {
        join_slash(segs.drop_last()) + "/"@ + segs.last()
    }
}

pub open spec fn strs_view(v: Seq<&str>) -> Seq<Seq<char>> {
    v.map_values(|s: &str| s@)
}

/// `i` is the first position of `d` in `segs`.
pub open spec fn is_first_segment(segs: Seq<Seq<char>>, d: Seq<char>, i: int) -> bool {
    &&& 0 <= i < segs.len()
    &&& segs[i] == d
    &&& forall|j: int| 0 <= j < i ==> segs[j] != d
}

/// The repository name and the reference around the first segment equal to
/// `delimiter`: all segments before it, joined, and the one right after it.
/// There must be at least one segment on each side.
pub open spec fn repo_ref_spec(segs: Seq<Seq<char>>, delimiter: Seq<char>) -> Option<
    (Seq<char>, Seq<char>),
> {
    if segs.contains(delimiter) {
        let i = choose|i: int| is_first_segment(segs, delimiter, i);
        if 0 < i && i < segs.len() - 1 {
            Some((join_slash(segs.subrange(0, i)), segs[i + 1]))
        } else {
            None
        }
    } else {
        None
    }
}

proof fn lemma_split_nonempty(s: Seq<char>)
    ensures
        split_slash(s).len() >= 1,
    decreases s.len(),
{
    if s.len() > 0 {
        lemma_split_nonempty(s.drop_last());
    }
}

proof fn lemma_first_segment(segs: Seq<Seq<char>>, d: Seq<char>, i: int)
    requires
        is_first_segment(segs, d, i),
    ensures
        (choose|k: int| is_first_segment(segs, d, k)) == i,
        segs.contains(d),
{
    let k = choose|k: int| is_first_segment(segs, d, k);
    assert(is_first_segment(segs, d, k));
    if k < i {
        assert(segs[k] != d);
    } else if k > i {
        assert(segs[i] != d);
    }
}

/// Whether two strings hold the same characters.
pub fn str_eq(a: &str, b: &str) -> (r: bool)
    ensures
        r == (a@ == b@),
{
    let n = a.unicode_len();
    if n != b.unicode_len() {
        return false;
    }
    let mut i: usize = 0;
    while i < n
        invariant
            n == a@.len(),
            n == b@.len(),
            i <= n,
            forall|j: int| 0 <= j < i ==> a@[j] == b@[j],
        decreases n - i,
    {
        if a.get_char(i) != b.get_char(i) {
            return false;
        }
        i = i + 1;
    }
    assert(a@ =~= b@);
    true
}

/// The `/`-separated segments of `path`.
pub fn split_path(path: &str) -> (r: Vec<&str>)
    ensures
        strs_view(r@) == split_slash(path@),
{
    let n = path.unicode_len();
    let mut segs: Vec<&str> = Vec::new();
    let mut start: usize = 0;
    let mut i: usize = 0;
    assert(path@.subrange(0, 0) =~= Seq::<char>::empty());
    assert(strs_view(segs@) =~= Seq::<Seq<char>>::empty());
    assert(split_slash(Seq::<char>::empty()) == seq![Seq::<char>::empty()]);
    assert(strs_view(segs@).push(path@.subrange(0, 0)) =~= split_slash(path@.subrange(0, 0)));
    while i < n
        invariant
            n == path@.len(),
            start <= i <= n,
            strs_view(segs@).push(path@.subrange(start as int, i as int)) == split_slash(
                path@.subrange(0, i as int),
            ),
        decreases n - i,
    {
        let c = path.get_char(i);
        let ghost before = path@.subrange(0, i as int);
        let ghost after = path@.subrange(0, i + 1);
        assert(after.drop_last() =~= before);
        assert(after.last() == c);
        proof {
            lemma_split_nonempty(before);
        }
        if c == '/' {
            let ghost old_segs = strs_view(segs@);
            segs.push(path.substring_char(start, i));
            assert(strs_view(segs@) =~= old_segs.push(path@.subrange(start as int, i as int)));
            start = i + 1;
            assert(path@.subrange(start as int, i + 1) =~= Seq::<char>::empty());
            assert(strs_view(segs@).push(path@.subrange(start as int, i + 1)) =~= split_slash(after));
        } else {
            assert(path@.subrange(start as int, i + 1) =~= path@.subrange(start as int, i as int).push(c));
            assert(strs_view(segs@).push(path@.subrange(start as int, i + 1)) =~= split_slash(after));
        }
        i = i + 1;
    }
    let ghost old_segs = strs_view(segs@);
    segs.push(path.substring_char(start, n));
    assert(path@.subrange(0, n as int) =~= path@);
    assert(strs_view(segs@) =~= old_segs.push(path@.subrange(start as int, n as int)));
    segs
}

/// The segments `path[0..end]` joined with `/`.
fn join_prefix(path: &[&str], end: usize) -> (r: String)
    requires
        end <= path@.len(),
    ensures
        r@ == join_slash(strs_view(path@).subrange(0, end as int)),
{
    let mut out = String::new();
    let mut i: usize = 0;
    assert(strs_view(path@).subrange(0, 0) =~= Seq::<Seq<char>>::empty());
    while i < end
        invariant
            end <= path@.len(),
            i <= end,
            out@ == join_slash(strs_view(path@).subrange(0, i as int)),
        decreases end - i,
    {
        let ghost sub = strs_view(path@).subrange(0, i + 1);
        assert(sub.drop_last() =~= strs_view(path@).subrange(0, i as int));
        if i > 0 {
            out.append("/");
        }
        out.append(path[i]);
        proof {
            if i == 0 {
                assert(out@ =~= sub[0]);
            }
        }
        i = i + 1;
    }
    out
}

/// Splits path segments around the first one equal to `delimiter`: the
/// segments before it joined with `/` name the repository, and the segment
/// after it is the reference. `None` when the delimiter is missing, first,
/// or last.
pub fn parse_repo_ref(path: &[&str], delimiter: &str) -> (r: Option<(String, String)>)
    ensures
        match r {
            Some((name, reference)) => repo_ref_spec(strs_view(path@), delimiter@) == Some(
                (name@, reference@),
            ),
            None => repo_ref_spec(strs_view(path@), delimiter@) is None,
        },
{
    let n = path.len();
    let mut i: usize = 0;
    while i < n
        invariant
            n == path@.len(),
            i <= n,
            forall|j: int| 0 <= j < i ==> strs_view(path@)[j] != delimiter@,
        decreases n - i,
    {
        if str_eq(path[i], delimiter) {
            proof {
                lemma_first_segment(strs_view(path@), delimiter@, i as int);
            }
            if i > 0 && i + 1 < n {
                let name = join_prefix(path, i);
                let reference = String::from_str(path[i + 1]);
                return Some((name, reference));
            }
            return None;
        }
        i = i + 1;
    }
    assert(!strs_view(path@).contains(delimiter@));
    None
}

/// What a request path below `/v2/` asks for.
#[derive(Clone, Debug, PartialEq, Eq)]
pub enum Route {
    /// `<name>/manifests/<reference>`
    Manifest { name: String, reference: String },
    /// `<name>/blobs/<digest>`
    Blob { name: String, digest: String },
    /// `<name>/tags/list`
    TagList { name: String },
    /// Anything else.
    Unsupported,
}

/// Reads a request path below `/v2/`. The manifest form is tried first,
/// then the blob form, then the tag-list form.
pub fn route(path: &str) -> (r: Route)
    ensures
        ({
            let segs = split_slash(path@);
            let m = repo_ref_spec(segs, "manifests"@);
            let b = repo_ref_spec(segs, "blobs"@);
            let t = repo_ref_spec(segs, "tags"@);
            if m is Some {
                r matches Route::Manifest { name, reference } && m == Some((name@, reference@))
            } else if b is Some {
                r matches Route::Blob { name, digest } && b == Some((name@, digest@))
            } else if t is Some && t.unwrap().1 == "list"@ {
                r matches Route::TagList { name } && name@ == t.unwrap().0
            } else {
                r == Route::Unsupported
            }
        }),
{
    let segs = split_path(path);
    if let Some((name, reference)) = parse_repo_ref(segs.as_slice(), "manifests") {
        return Route::Manifest { name, reference };
    }
    if let Some((name, digest)) = parse_repo_ref(segs.as_slice(), "blobs") {
        return Route::Blob { name, digest };
    }
    if let Some((name, cmd)) = parse_repo_ref(segs.as_slice(), "tags") {
        if str_eq(cmd.as_str(), "list") {
            return Route::TagList { name };
        }
    }
    Route::Unsupported
}

} // verus!
