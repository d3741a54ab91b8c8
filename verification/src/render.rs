//! Rendering of manifests to their on-disk textual form.
//!
//! The engine writes two kinds of manifest: the minimal one of each wrapper
//! unit and the derived manifest of the whole project. Both are plain text in
//! the toolchain's manifest format; the exact text is pinned down by the spec
//! functions here, and the executable renderers are proved to produce it.

use crate::manifest::{BinTargetModel, DepDetail, DepSpec, DepSpecModel, ManifestModel,
    ProjectManifest};
use crate::text::{push_quoted, push_str, quoted};
use vstd::prelude::*;
use vstd::string::StringExecFns;

verus! {

/// The items joined by the separator: empty for no items, the single item for
/// one, and otherwise every item with the separator in between.
pub open spec fn joined(items: Seq<Seq<char>>, sep: Seq<char>) -> Seq<char>
    decreases items.len(),
{
    if items.len() == 0 {
        Seq::empty()
    } else if items.len() == 1 {
        items[0]
    } else {
        joined(items.drop_last(), sep) + sep + items.last()
    }
}

/// A list of quoted strings in brackets: `["a", "b"]`.
pub open spec fn rendered_string_list(items: Seq<Seq<char>>) -> Seq<char> {
    "["@ + joined(items.map_values(|s: Seq<char>| quoted(s)), ", "@) + "]"@
}

/// The `key = value` entries of a detailed dependency record, in fixed order:
/// version, path, package, features, optional; absent fields contribute no
/// entry, an empty feature list none, and `optional` one only when set.
pub open spec fn detail_entries(d: crate::manifest::DepDetailModel) -> Seq<Seq<char>> {
    (match d.version {
        Some(v) => seq!["version = "@ + quoted(v)],
        None => Seq::empty(),
    }) + (match d.path {
        Some(p) => seq!["path = "@ + quoted(p)],
        None => Seq::empty(),
    }) + (match d.package {
        Some(p) => seq!["package = "@ + quoted(p)],
        None => Seq::empty(),
    }) + (if d.features.len() > 0 {
        seq!["features = "@ + rendered_string_list(d.features)]
    } else {
        Seq::empty()
    }) + (if d.optional {
        seq!["optional = true"@]
    } else {
        Seq::empty()
    })
}

/// The value of one dependency entry: a quoted version requirement for a bare
/// specification, an inline table for a detailed record.
pub open spec fn rendered_dep_value(spec: DepSpecModel) -> Seq<char> {
    match spec {
        DepSpecModel::Simple(version) => quoted(version),
        DepSpecModel::Detailed(d) => {
            if detail_entries(d).len() == 0 {
                "{}"@
            } else {
                "{ "@ + joined(detail_entries(d), ", "@) + " }"@
            }
        },
    }
}

/// One line of a `[dependencies]` section: `"name" = value`.
pub open spec fn rendered_dep_line(name: Seq<char>, spec: DepSpecModel) -> Seq<char> {
    quoted(name) + " = "@ + rendered_dep_value(spec) + "\n"@
}

/// The lines of a dependency mapping, in declaration order.
pub open spec fn rendered_dep_lines(deps: Seq<(Seq<char>, DepSpecModel)>) -> Seq<char>
    decreases deps.len(),
{
    if deps.len() == 0 {
        Seq::empty()
    } else {
        rendered_dep_lines(deps.drop_last()) + rendered_dep_line(deps.last().0, deps.last().1)
    }
}

/// The `[package]` section of a manifest.
pub open spec fn rendered_package_section(m: ManifestModel) -> Seq<char> {
    "[package]\nname = "@ + quoted(m.package_name) + "\nversion = "@ + quoted(m.package_version)
        + "\nedition = "@ + quoted(m.edition) + "\n"@
}

/// One `[[bin]]` section.
pub open spec fn rendered_bin_section(b: BinTargetModel) -> Seq<char> {
    "\n[[bin]]\nname = "@ + quoted(b.name) + "\n"@ + (match b.path {
        Some(p) => "path = "@ + quoted(p) + "\n"@,
        None => Seq::empty(),
    })
}

/// The `[[bin]]` sections of every binary target, in order.
pub open spec fn rendered_bin_sections(bins: Seq<BinTargetModel>) -> Seq<char>
    decreases bins.len(),
{
    if bins.len() == 0 {
        Seq::empty()
    } else {
        rendered_bin_sections(bins.drop_last()) + rendered_bin_section(bins.last())
    }
}

/// The full text of a manifest: package section, dependency section, then the
/// binary targets.
pub open spec fn rendered_manifest(m: ManifestModel) -> Seq<char> {
    rendered_package_section(m) + "\n[dependencies]\n"@ + rendered_dep_lines(m.dependencies)
        + rendered_bin_sections(m.bins)
}

/// Appends the items joined by `sep`.
pub fn push_joined(out: &mut String, items: &Vec<String>, sep: &str)
    ensures
        final(out)@ == old(out)@ + joined(items.deep_view(), sep@),
{
    let n = items.len();
    let mut i: usize = 0;
    while i < n
        invariant
            n == items.len(),
            i <= n,
            out@ == old(out)@ + joined(items.deep_view().take(i as int), sep@),
        decreases n - i,
    {
        if i > 0 {
            push_str(out, sep);
        }
        push_str(out, items[i].as_str());
        proof {
            let pre = items.deep_view().take(i as int);
            let cur = items.deep_view().take(i + 1);
            assert(cur.drop_last() =~= pre);
            assert(cur.last() == items.deep_view()[i as int]);
            if i == 0 {
                assert(joined(cur, sep@) == cur.last());
            }
            assert(out@ =~= old(out)@ + joined(cur, sep@));
        }
        i = i + 1;
    }
    proof {
        assert(items.deep_view().take(n as int) =~= items.deep_view());
    }
}

/// The string as a quoted manifest string of its own.
pub fn quoted_string(s: &str) -> (r: String)
    ensures
        r@ == quoted(s@),
{
    let mut out = String::new();
    push_quoted(&mut out, s);
    proof {
        assert(out@ =~= quoted(s@));
    }
    out
}

/// Appends a bracketed list of the items, each quoted.
pub fn push_string_list(out: &mut String, items: &Vec<String>)
    ensures
        final(out)@ == old(out)@ + rendered_string_list(items.deep_view()),
{
    let ghost start = out@;
    let n = items.len();
    let mut quoted_items: Vec<String> = Vec::new();
    let mut i: usize = 0;
    while i < n
        invariant
            n == items.len(),
            i <= n,
            quoted_items.len() == i,
            forall|k: int| 0 <= k < i ==> (#[trigger] quoted_items@[k])@ == quoted(items@[k]@),
        decreases n - i,
    {
        let ghost prev = quoted_items@;
        quoted_items.push(quoted_string(items[i].as_str()));
        proof {
            assert forall|k: int| 0 <= k < i + 1 implies (#[trigger] quoted_items@[k])@ == quoted(
                items@[k]@,
            ) by {
                if k < i {
                    assert(quoted_items@[k] == prev[k]);
                }
            }
        }
        i = i + 1;
    }
    proof {
        assert forall|k: int| 0 <= k < n implies #[trigger] quoted_items.deep_view()[k]
            == quoted_items@[k]@ by {}
        assert forall|k: int| 0 <= k < n implies #[trigger] items.deep_view()[k] == items@[k]@ by {}
        assert(quoted_items.deep_view() =~= items.deep_view().map_values(
            |s: Seq<char>| quoted(s),
        ));
    }
    push_str(out, "[");
    push_joined(out, &quoted_items, ", ");
    push_str(out, "]");
    assert(out@ =~= start + rendered_string_list(items.deep_view()));
}

/// Appends the rendered value of one dependency specification.
pub fn push_dep_value(out: &mut String, spec: &DepSpec)
    ensures
        final(out)@ == old(out)@ + rendered_dep_value(spec@),
{
    let ghost start = out@;
    match spec {
        DepSpec::Simple(version) => {
            push_quoted(out, version.as_str());
        },
        DepSpec::Detailed(detail) => {
            let entries = detail_entry_strings(detail);
            if entries.len() == 0 {
                push_str(out, "{}");
            } else {
                push_str(out, "{ ");
                push_joined(out, &entries, ", ");
                push_str(out, " }");
                assert(out@ =~= start + rendered_dep_value(spec@));
            }
        },
    }
}

/// The `key = value` entries of a detailed record, one string per entry.
fn detail_entry_strings(detail: &DepDetail) -> (entries: Vec<String>)
    ensures
        entries.deep_view() == detail_entries(detail@),
{
    let mut entries: Vec<String> = Vec::new();
    if let Some(v) = &detail.version {
        let mut e = String::new();
        push_str(&mut e, "version = ");
        push_quoted(&mut e, v.as_str());
        entries.push(e);
    }
    if let Some(p) = &detail.path {
        let mut e = String::new();
        push_str(&mut e, "path = ");
        push_quoted(&mut e, p.as_str());
        entries.push(e);
    }
    if let Some(p) = &detail.package {
        let mut e = String::new();
        push_str(&mut e, "package = ");
        push_quoted(&mut e, p.as_str());
        entries.push(e);
    }
    if detail.features.len() > 0 {
        let mut e = String::new();
        push_str(&mut e, "features = ");
        push_string_list(&mut e, &detail.features);
        entries.push(e);
    }
    if detail.optional {
        entries.push(String::from_str("optional = true"));
    }
    proof {
        assert(entries.deep_view() =~~= detail_entries(detail@));
    }
    entries
}

/// Appends one line of a `[dependencies]` section.
pub fn push_dep_line(out: &mut String, name: &str, spec: &DepSpec)
    ensures
        final(out)@ == old(out)@ + rendered_dep_line(name@, spec@),
{
    let ghost start = out@;
    push_quoted(out, name);
    push_str(out, " = ");
    push_dep_value(out, spec);
    push_str(out, "\n");
    assert(out@ =~= start + rendered_dep_line(name@, spec@));
}

/// Renders a whole manifest to its on-disk text.
pub fn render_manifest(m: &ProjectManifest) -> (r: String)
    ensures
        r@ == rendered_manifest(m@),
{
    let mut out = String::new();
    push_str(&mut out, "[package]\nname = ");
    push_quoted(&mut out, m.package_name.as_str());
    push_str(&mut out, "\nversion = ");
    push_quoted(&mut out, m.package_version.as_str());
    push_str(&mut out, "\nedition = ");
    push_quoted(&mut out, m.edition.as_str());
    push_str(&mut out, "\n");
    assert(out@ =~= rendered_package_section(m@));

    push_str(&mut out, "\n[dependencies]\n");
    let ghost deps_start = out@;
    let n = m.dependencies.len();
    let mut i: usize = 0;
    while i < n
        invariant
            n == m.dependencies.len(),
            i <= n,
            out@ == deps_start + rendered_dep_lines(m@.dependencies.take(i as int)),
        decreases n - i,
    {
        let pair = &m.dependencies[i];
        push_dep_line(&mut out, pair.0.as_str(), &pair.1);
        proof {
            let cur = m@.dependencies.take(i + 1);
            assert(cur.drop_last() =~= m@.dependencies.take(i as int));
            assert(cur.last() == m@.dependencies[i as int]);
            assert(out@ =~= deps_start + rendered_dep_lines(cur));
        }
        i = i + 1;
    }
    proof {
        assert(m@.dependencies.take(n as int) =~= m@.dependencies);
    }

    let ghost bins_start = out@;
    let nb = m.bins.len();
    let mut j: usize = 0;
    while j < nb
        invariant
            nb == m.bins.len(),
            j <= nb,
            out@ == bins_start + rendered_bin_sections(m@.bins.take(j as int)),
        decreases nb - j,
    {
        let ghost section_start = out@;
        let bin = &m.bins[j];
        push_str(&mut out, "\n[[bin]]\nname = ");
        push_quoted(&mut out, bin.name.as_str());
        push_str(&mut out, "\n");
        if let Some(p) = &bin.path {
            push_str(&mut out, "path = ");
            push_quoted(&mut out, p.as_str());
            push_str(&mut out, "\n");
        }
        proof {
            assert(out@ =~= section_start + rendered_bin_section(m@.bins[j as int]));
            let cur = m@.bins.take(j + 1);
            assert(cur.drop_last() =~= m@.bins.take(j as int));
            assert(cur.last() == m@.bins[j as int]);
            assert(out@ =~= bins_start + rendered_bin_sections(cur));
        }
        j = j + 1;
    }
    proof {
        assert(m@.bins.take(nb as int) =~= m@.bins);
        assert(out@ =~= rendered_manifest(m@));
    }
    out
}

} // verus!
