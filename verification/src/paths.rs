//! Path layout and redirect correctness.
//!
//! The derived manifest and the wrapper units live under
//! `<project>/target/cargo-dylib/`, two directory levels below the real
//! manifest. The functions here compute those locations from the real
//! manifest's path, and the resolution model at the bottom proves that the
//! redirected binary source path written into the derived manifest resolves
//! to the very file the real manifest's binary target names.

use vstd::prelude::*;
use vstd::string::StrSliceExecFns;
use vstd::string::StringExecFns;

verus! {

/// The directory part of a slash-separated path: everything before the last
/// slash; the empty sequence when the path holds no slash.
pub open spec fn parent_dir_of(p: Seq<char>) -> Seq<char>
    decreases p.len(),
{
    if p.len() == 0 {
        p
    } else if p.last() == '/' {
        p.drop_last()
    } else {
        parent_dir_of(p.drop_last())
    }
}

/// The wrapper root: the directory holding the derived manifest and every
/// wrapper unit, two levels below the real manifest's directory.
pub open spec fn wrapper_root_of(real_manifest_path: Seq<char>) -> Seq<char> {
    parent_dir_of(real_manifest_path) + "/target/cargo-dylib"@
}

/// Where the derived manifest is written, inside the wrapper root.
pub open spec fn derived_manifest_path_of(real_manifest_path: Seq<char>) -> Seq<char> {
    wrapper_root_of(real_manifest_path) + "/Cargo.toml"@
}

/// The directory of one wrapper unit under the wrapper root.
pub open spec fn wrapper_dir_of(root: Seq<char>, dyn_name: Seq<char>) -> Seq<char> {
    root + seq!['/'] + dyn_name
}

proof fn lemma_parent_dir_at(p: Seq<char>, k: int)
    requires
        0 <= k < p.len(),
        p[k] == '/',
        forall|j: int| k < j < p.len() ==> p[j] != '/',
    ensures
        parent_dir_of(p) == p.take(k),
    decreases p.len(),
{
    if k == p.len() - 1 {
        assert(p.drop_last() =~= p.take(k));
    } else {
        assert(p.last() == p[p.len() - 1]);
        assert(p.last() != '/');
        let q = p.drop_last();
        assert(q[k] == p[k]);
        assert forall|j: int| k < j < q.len() implies q[j] != '/' by {
            assert(q[j] == p[j]);
        }
        lemma_parent_dir_at(q, k);
        assert(q.take(k) =~= p.take(k));
    }
}

proof fn lemma_parent_dir_none(p: Seq<char>)
    requires
        forall|j: int| 0 <= j < p.len() ==> p[j] != '/',
    ensures
        parent_dir_of(p) == Seq::<char>::empty(),
    decreases p.len(),
{
    if p.len() == 0 {
        assert(p =~= Seq::<char>::empty());
    } else {
        assert(p.last() == p[p.len() - 1]);
        let q = p.drop_last();
        assert forall|j: int| 0 <= j < q.len() implies q[j] != '/' by {
            assert(q[j] == p[j]);
        }
        lemma_parent_dir_none(q);
    }
}

/// The directory part of a slash-separated path, as `parent_dir_of` states
/// it: the original manifest path with its file name and the slash before it
/// removed.
pub fn parent_dir(path: &str) -> (r: String)
    ensures
        r@ == parent_dir_of(path@),
{
    let n = path.unicode_len();
    let mut last: usize = n;
    let mut i: usize = 0;
    while i < n
        invariant
            n == path@.len(),
            i <= n,
            last == n || (last < i && path@[last as int] == '/'),
            last == n ==> forall|j: int| 0 <= j < i ==> path@[j] != '/',
            last < n ==> forall|j: int| last < j < i ==> path@[j] != '/',
        decreases n - i,
    {
        if path.get_char(i) == '/' {
            last = i;
        }
        i = i + 1;
    }
    if last == n {
        proof {
            lemma_parent_dir_none(path@);
        }
        String::new()
    } else {
        proof {
            lemma_parent_dir_at(path@, last as int);
        }
        let r = path.substring_char(0, last);
        r.to_owned()
    }
}

/// Computes the wrapper root and the derived manifest path from the real
/// manifest's path.
pub fn derived_paths(real_manifest_path: &str) -> (r: (String, String))
    ensures
        r.0@ == wrapper_root_of(real_manifest_path@),
        r.1@ == derived_manifest_path_of(real_manifest_path@),
{
    let mut root = parent_dir(real_manifest_path);
    root.append("/target/cargo-dylib");
    let mut manifest_path = root.clone();
    manifest_path.append("/Cargo.toml");
    (root, manifest_path)
}

/// Computes the directory of one wrapper unit under the wrapper root.
pub fn wrapper_dir(root: &str, dyn_name: &str) -> (r: String)
    ensures
        r@ == wrapper_dir_of(root@, dyn_name@),
{
    let mut r = root.to_owned();
    r.append("/");
    r.append(dyn_name);
    proof {
        reveal_strlit("/");
        assert(r@ =~= wrapper_dir_of(root@, dyn_name@));
    }
    r
}

// --- resolution model ---
//
// A slash-separated path is modelled as its sequence of segments; resolving
// a relative path against a base directory pushes ordinary segments and pops
// one directory level for each `..` segment.

/// Index of the first slash in `s`; `s.len()` when there is none.
pub open spec fn first_slash(s: Seq<char>) -> nat
    decreases s.len(),
{
    if s.len() == 0 {
        0
    } else if s[0] == '/' {
        0
    } else {
        1 + first_slash(s.skip(1))
    }
}

proof fn lemma_first_slash_bounds(s: Seq<char>)
    ensures
        first_slash(s) <= s.len(),
        first_slash(s) < s.len() ==> s[first_slash(s) as int] == '/',
        forall|j: int| 0 <= j < first_slash(s) ==> s[j] != '/',
    decreases s.len(),
{
    if s.len() == 0 {
    } else if s[0] == '/' {
    } else {
        lemma_first_slash_bounds(s.skip(1));
        let k = first_slash(s) as int;
        if k < s.len() {
            assert(s.skip(1)[k - 1] == s[k]);
        }
        assert forall|j: int| 0 <= j < k implies s[j] != '/' by {
            if j > 0 {
                assert(s.skip(1)[j - 1] == s[j]);
            }
        }
    }
}

proof fn lemma_first_slash_at(s: Seq<char>, k: int)
    requires
        0 <= k <= s.len(),
        k < s.len() ==> s[k] == '/',
        forall|j: int| 0 <= j < k ==> s[j] != '/',
        k == s.len() ==> forall|j: int| 0 <= j < s.len() ==> s[j] != '/',
    ensures
        first_slash(s) == k,
    decreases s.len(),
{
    if s.len() == 0 {
    } else if s[0] == '/' {
        assert(k == 0);
    } else {
        assert(k > 0);
        let q = s.skip(1);
        assert forall|j: int| 0 <= j < k - 1 implies q[j] != '/' by {
            assert(q[j] == s[j + 1]);
        }
        if k - 1 < q.len() {
            assert(q[k - 1] == s[k]);
        }
        if k == s.len() {
            assert forall|j: int| 0 <= j < q.len() implies q[j] != '/' by {
                assert(q[j] == s[j + 1]);
            }
        }
        lemma_first_slash_at(q, k - 1);
    }
}

/// The segments of a slash-separated path, in order; separators themselves
/// do not appear. A path without a slash is one segment, and each slash ends
/// a (possibly empty) segment before it.
pub open spec fn path_segments(s: Seq<char>) -> Seq<Seq<char>>
    decreases s.len(),
{
    let k = first_slash(s);
    if k >= s.len() {
        seq![s]
    } else {
        seq![s.take(k as int)] + path_segments(s.skip(k as int + 1))
    }
}

/// Splitting distributes over a slash: the segments of `a + "/" + b` are the
/// segments of `a` followed by the segments of `b`.
pub proof fn lemma_segments_of_concat(a: Seq<char>, b: Seq<char>)
    ensures
        path_segments(a + seq!['/'] + b) == path_segments(a) + path_segments(b),
    decreases a.len(),
{
    let s = a + seq!['/'] + b;
    lemma_first_slash_bounds(a);
    let ka = first_slash(a) as int;
    if ka >= a.len() {
        // no slash inside `a`: the first slash of `s` is the joining one
        assert forall|j: int| 0 <= j < a.len() implies s[j] != '/' by {
            assert(s[j] == a[j]);
        }
        assert(s[a.len() as int] == '/');
        lemma_first_slash_at(s, a.len() as int);
        assert(s.take(a.len() as int) =~= a);
        assert(s.skip(a.len() as int + 1) =~= b);
        assert(path_segments(s) == seq![a] + path_segments(b));
        assert(path_segments(a) == seq![a]);
    } else {
        // the first slash of `s` is the first slash of `a`
        assert forall|j: int| 0 <= j < ka implies s[j] != '/' by {
            assert(s[j] == a[j]);
        }
        assert(s[ka] == a[ka]);
        lemma_first_slash_at(s, ka);
        assert(s.take(ka) =~= a.take(ka));
        let a_rest = a.skip(ka + 1);
        assert(s.skip(ka + 1) =~= a_rest + seq!['/'] + b);
        lemma_segments_of_concat(a_rest, b);
        assert(path_segments(s) == seq![a.take(ka)] + (path_segments(a_rest) + path_segments(b)));
        assert(path_segments(a) == seq![a.take(ka)] + path_segments(a_rest));
        assert(seq![a.take(ka)] + (path_segments(a_rest) + path_segments(b)) =~= (seq![a.take(ka)]
            + path_segments(a_rest)) + path_segments(b));
    }
}

/// The segment that names the parent directory.
pub open spec fn parent_marker() -> Seq<char> {
    seq!['.', '.']
}

/// Resolves a relative path, given as segments, against a base directory,
/// given as segments: a `..` segment removes the last base segment (at the
/// root it is ignored), any other segment is appended.
pub open spec fn resolve(base: Seq<Seq<char>>, rel: Seq<Seq<char>>) -> Seq<Seq<char>>
    decreases rel.len(),
{
    if rel.len() == 0 {
        base
    } else {
        let step = if rel[0] == parent_marker() {
            if base.len() > 0 {
                base.drop_last()
            } else {
                base
            }
        } else {
            base.push(rel[0])
        };
        resolve(step, rel.skip(1))
    }
}

proof fn lemma_resolve_parent_twice(
    base: Seq<Seq<char>>,
    t: Seq<char>,
    c: Seq<char>,
    rest: Seq<Seq<char>>,
)
    ensures
        resolve(base + seq![t, c], seq![parent_marker(), parent_marker()] + rest) == resolve(
            base,
            rest,
        ),
{
    let rel = seq![parent_marker(), parent_marker()] + rest;
    assert(rel[0] == parent_marker());
    assert((base + seq![t, c]).drop_last() =~= base + seq![t]);
    assert(rel.skip(1) =~= seq![parent_marker()] + rest);
    let rel1 = seq![parent_marker()] + rest;
    assert(rel1[0] == parent_marker());
    assert((base + seq![t]).drop_last() =~= base);
    assert(rel1.skip(1) =~= rest);
    assert(resolve(base + seq![t, c], rel) == resolve(base + seq![t], rel1));
    assert(resolve(base + seq![t], rel1) == resolve(base, rest));
}

/// Law: redirect correctness. The redirected source path written into the
/// derived manifest — `../../` followed by the real binary target's source
/// path — resolves, relative to the wrapper root where the derived manifest
/// lives, to the same file as that source path resolves to relative to the
/// real manifest's directory.
pub proof fn lemma_redirect_resolves(real_dir: Seq<char>, source: Seq<char>)
    ensures
        resolve(path_segments(real_dir + "/target/cargo-dylib"@), path_segments("../../"@ + source))
            == resolve(path_segments(real_dir), path_segments(source)),
{
    reveal_strlit("/target/cargo-dylib");
    reveal_strlit("target");
    reveal_strlit("cargo-dylib");
    reveal_strlit("target/cargo-dylib");
    reveal_strlit("../../");
    reveal_strlit("..");

    // the derived directory's segments: the real directory's, then `target`
    // and `cargo-dylib`
    assert(real_dir + "/target/cargo-dylib"@ =~= real_dir + seq!['/'] + "target/cargo-dylib"@);
    lemma_segments_of_concat(real_dir, "target/cargo-dylib"@);
    assert("target/cargo-dylib"@ =~= "target"@ + seq!['/'] + "cargo-dylib"@);
    lemma_segments_of_concat("target"@, "cargo-dylib"@);
    assert forall|j: int| 0 <= j < "target"@.len() implies "target"@[j] != '/' by {}
    lemma_first_slash_at("target"@, "target"@.len() as int);
    assert(path_segments("target"@) == seq!["target"@]);
    assert forall|j: int| 0 <= j < "cargo-dylib"@.len() implies "cargo-dylib"@[j] != '/' by {}
    lemma_first_slash_at("cargo-dylib"@, "cargo-dylib"@.len() as int);
    assert(path_segments("cargo-dylib"@) == seq!["cargo-dylib"@]);
    assert(path_segments(real_dir + "/target/cargo-dylib"@) == path_segments(real_dir) + (
    seq!["target"@] + seq!["cargo-dylib"@]));
    assert(path_segments(real_dir) + (seq!["target"@] + seq!["cargo-dylib"@]) =~= path_segments(
        real_dir,
    ) + seq!["target"@, "cargo-dylib"@]);

    // the redirected path's segments: `..`, `..`, then the source's
    assert("../../"@ + source =~= ".."@ + seq!['/'] + (".."@ + seq!['/'] + source));
    lemma_segments_of_concat(".."@, ".."@ + seq!['/'] + source);
    lemma_segments_of_concat(".."@, source);
    assert forall|j: int| 0 <= j < ".."@.len() implies ".."@[j] != '/' by {}
    lemma_first_slash_at(".."@, ".."@.len() as int);
    assert(path_segments(".."@) == seq![".."@]);
    assert(path_segments("../../"@ + source) == seq![".."@] + (seq![".."@] + path_segments(
        source,
    )));
    assert(".."@ == parent_marker());
    assert(seq![".."@] + (seq![".."@] + path_segments(source)) =~= seq![
        parent_marker(),
        parent_marker(),
    ] + path_segments(source));

    lemma_resolve_parent_twice(
        path_segments(real_dir),
        "target"@,
        "cargo-dylib"@,
        path_segments(source),
    );
}

} // verus!
