//! Parsers for the package manager's text output: package listings, search
//! results with summaries, and the details block of one package.

use vstd::prelude::*;

use crate::pkg::{from_ident_view, joined_ident, pkg_views, Package, PkgView};
use crate::text::{has_prefix, lemma_split_by_nonempty, numeric_value, sep_pred, split_char,
    split_str, str_eq, str_starts_with, tokenize, tokens_of, trim_str, trimmed, views_of};

verus! {

/// The mathematical content of a details block.
#[verifier::ext_equal]
pub struct DetailsView {
    pub description: Seq<char>,
    pub license: Seq<char>,
    pub size: u64,
    pub url: Seq<char>,
}

/// The enrichment fields read from one `show` invocation.
#[derive(Debug, Default, PartialEq)]
pub struct AptDetails {
    pub description: String,
    pub license: String,
    pub size: u64,
    pub url: String,
}

impl View for AptDetails {
    type V = DetailsView;

    open spec fn view(&self) -> DetailsView {
        DetailsView {
            description: self.description@,
            license: self.license@,
            size: self.size,
            url: self.url@,
        }
    }
}

/// The multiplier of a size unit: binary kilo/mega/giga, 1 for anything else.
pub open spec fn unit_mult(u: Seq<char>) -> nat {
    if u == "kB"@ || u == "KB"@ {
        1024
    } else if u == "MB"@ {
        1048576
    } else if u == "GB"@ {
        1073741824
    } else {
        1
    }
}

/// The size in bytes a size string denotes: its first token read as a
/// decimal number, scaled by the unit in its second token, capped at
/// `u64::MAX`.
pub open spec fn size_value(s: Seq<char>) -> u64 {
    let toks = tokens_of(s);
    if toks.len() == 0 {
        0
    } else {
        let v = numeric_value(toks[0]);
        let m = if toks.len() > 1 {
            unit_mult(toks[1])
        } else {
            1
        };
        if v * m > u64::MAX {
            u64::MAX
        } else {
            (v * m) as u64
        }
    }
}

/// Reads a size such as `4230 kB` as a byte count.
pub fn parse_size(size_str: &str) -> (r: u64)
    ensures
        r == size_value(size_str@),
{
    let toks = tokenize(size_str);
    if toks.len() == 0 {
        return 0;
    }
    let v = crate::text::parse_decimal(toks[0].as_str());
    let m: u64 = if toks.len() > 1 {
        let u = toks[1].as_str();
        if str_eq(u, "kB") || str_eq(u, "KB") {
            1024
        } else if str_eq(u, "MB") {
            1048576
        } else if str_eq(u, "GB") {
            1073741824
        } else {
            1
        }
    } else {
        1
    };
    proof {
        assert(views_of(toks@)[0] == tokens_of(size_str@)[0]);
    }
    match v.checked_mul(m) {
        Some(x) => x,
        None => u64::MAX,
    }
}

/// Lines the list parser passes over.
pub open spec fn skip_list_line(line: Seq<char>) -> bool {
    line.len() == 0 || has_prefix(line, "Listing..."@) || has_prefix(line, "WARNING:"@)
}

/// Lines the search parser passes over.
pub open spec fn skip_search_line(line: Seq<char>) -> bool {
    line.len() == 0 || has_prefix(line, "Sorting..."@) || has_prefix(line, "Full Text Search..."@)
        || has_prefix(line, "WARNING:"@)
}

/// The record one listing line describes: the name before any `/`, then
/// version and architecture, rejoined into an identifier with origin `apt`.
pub open spec fn line_package(line: Seq<char>, status: Seq<char>, summary: Seq<char>) -> PkgView {
    let toks = tokens_of(line);
    let name = split_char(toks[0], '/')[0];
    from_ident_view(joined_ident(name, toks[1], toks[2], "apt"@), status, summary)
}

/// The records of a package listing: one per line with at least three
/// tokens, header and warning lines skipped, all with the given status.
pub open spec fn list_models(lines: Seq<Seq<char>>, status: Seq<char>) -> Seq<PkgView>
    decreases lines.len(),
{
    if lines.len() == 0 {
        Seq::empty()
    } else {
        let rest = list_models(lines.drop_first(), status);
        if skip_list_line(lines[0]) || tokens_of(lines[0]).len() < 3 {
            rest
        } else {
            seq![line_package(lines[0], status, Seq::empty())] + rest
        }
    }
}

/// Parses the output of a package listing; every record carries `status`.
#[verifier::loop_isolation(false)]
pub fn parse_apt_list(output: &str, status: &str) -> (r: Vec<Package>)
    ensures
        pkg_views(r@) == list_models(split_char(output@, '\n'), status@),
{
    let lines = split_str(output, '\n');
    let ghost lv = views_of(lines@);
    let mut out: Vec<Package> = Vec::new();
    let mut i: usize = 0;
    proof {
        assert(lv.subrange(0, lv.len() as int) =~= lv);
        assert(pkg_views(out@) + list_models(lv, status@) =~= list_models(lv, status@));
    }
    while i < lines.len()
        invariant
            i <= lines.len(),
            pkg_views(out@) + list_models(lv.subrange(i as int, lv.len() as int), status@)
                == list_models(lv, status@),
        decreases lines.len() - i,
    {
        let ghost suffix = lv.subrange(i as int, lv.len() as int);
        proof {
            assert(suffix[0] == lv[i as int]);
            assert(suffix.drop_first() =~= lv.subrange(i + 1, lv.len() as int));
        }
        let line = lines[i].as_str();
        let skip = line.unicode_len() == 0 || str_starts_with(line, "Listing...")
            || str_starts_with(line, "WARNING:");
        if !skip {
            let toks = tokenize(line);
            if toks.len() >= 3 {
                let name_parts = split_str(toks[0].as_str(), '/');
                proof {
                    lemma_split_by_nonempty(toks@[0]@, sep_pred('/'));
                }
                let id = crate::pkg::make_ident(
                    name_parts[0].as_str(),
                    toks[1].as_str(),
                    toks[2].as_str(),
                    "apt",
                );
                let pkg = Package::from_packagekit(id.as_str(), status, "");
                let ghost old_out = out@;
                out.push(pkg);
                proof {
                    reveal_strlit("");
                    assert(""@ =~= Seq::<char>::empty());
                    assert(pkg@ =~= line_package(lv[i as int], status@, Seq::empty()));
                    assert(pkg_views(out@) =~= pkg_views(old_out).push(pkg@));
                    assert(pkg_views(old_out) + list_models(suffix, status@) =~= pkg_views(out@)
                        + list_models(suffix.drop_first(), status@));
                }
            }
        }
        i = i + 1;
    }
    proof {
        assert(lv.subrange(lv.len() as int, lv.len() as int) =~= Seq::<Seq<char>>::empty());
        assert(pkg_views(out@) + Seq::<PkgView>::empty() =~= pkg_views(out@));
    }
    out
}

/// The records of a search listing: as in a package listing, but a line
/// indented by two spaces after a record is that record's summary, and every
/// record's status is `Available`.
pub open spec fn search_models(lines: Seq<Seq<char>>) -> Seq<PkgView>
    decreases lines.len(),
{
    if lines.len() == 0 {
        Seq::empty()
    } else if skip_search_line(lines[0]) || tokens_of(lines[0]).len() < 3 {
        search_models(lines.drop_first())
    } else {
        let has_sum = lines.len() > 1 && has_prefix(lines[1], "  "@);
        let summary = if has_sum {
            trimmed(lines[1])
        } else {
            Seq::empty()
        };
        let pkg = line_package(lines[0], "Available"@, summary);
        if has_sum {
            seq![pkg] + search_models(lines.subrange(2, lines.len() as int))
        } else {
            seq![pkg] + search_models(lines.drop_first())
        }
    }
}

/// Parses the output of a package search, pairing each record with the
/// indented summary line that may follow it.
#[verifier::loop_isolation(false)]
pub fn parse_apt_search(output: &str) -> (r: Vec<Package>)
    ensures
        pkg_views(r@) == search_models(split_char(output@, '\n')),
{
    let lines = split_str(output, '\n');
    let ghost lv = views_of(lines@);
    let mut out: Vec<Package> = Vec::new();
    let mut i: usize = 0;
    proof {
        assert(lv.subrange(0, lv.len() as int) =~= lv);
        assert(pkg_views(out@) + search_models(lv) =~= search_models(lv));
    }
    while i < lines.len()
        invariant
            i <= lines.len(),
            pkg_views(out@) + search_models(lv.subrange(i as int, lv.len() as int))
                == search_models(lv),
        decreases lines.len() - i,
    {
        let ghost suffix = lv.subrange(i as int, lv.len() as int);
        proof {
            assert(suffix[0] == lv[i as int]);
            assert(suffix.drop_first() =~= lv.subrange(i + 1, lv.len() as int));
        }
        let line = lines[i].as_str();
        let skip = line.unicode_len() == 0 || str_starts_with(line, "Sorting...")
            || str_starts_with(line, "Full Text Search...") || str_starts_with(line, "WARNING:");
        let mut step: usize = 1;
        if !skip {
            let toks = tokenize(line);
            if toks.len() >= 3 {
                let has_sum = i + 1 < lines.len() && str_starts_with(lines[i + 1].as_str(), "  ");
                proof {
                    assert(has_sum == (suffix.len() > 1 && has_prefix(suffix[1], "  "@)));
                }
                let summary = if has_sum {
                    trim_str(lines[i + 1].as_str())
                } else {
                    String::new()
                };
                let name_parts = split_str(toks[0].as_str(), '/');
                proof {
                    lemma_split_by_nonempty(toks@[0]@, sep_pred('/'));
                }
                let id = crate::pkg::make_ident(
                    name_parts[0].as_str(),
                    toks[1].as_str(),
                    toks[2].as_str(),
                    "apt",
                );
                let pkg = Package::from_packagekit(id.as_str(), "Available", summary.as_str());
                let ghost old_out = out@;
                out.push(pkg);
                if has_sum {
                    step = 2;
                }
                proof {
                    assert(pkg@ =~= line_package(
                        suffix[0],
                        "Available"@,
                        if has_sum {
                            trimmed(suffix[1])
                        } else {
                            Seq::<char>::empty()
                        },
                    ));
                    assert(pkg_views(out@) =~= pkg_views(old_out).push(pkg@));
                    if has_sum {
                        assert(suffix.subrange(2, suffix.len() as int) =~= lv.subrange(
                            i + 2,
                            lv.len() as int,
                        ));
                        assert(pkg_views(old_out) + search_models(suffix) =~= pkg_views(out@)
                            + search_models(lv.subrange(i + 2, lv.len() as int)));
                    } else {
                        assert(pkg_views(old_out) + search_models(suffix) =~= pkg_views(out@)
                            + search_models(suffix.drop_first()));
                    }
                }
            }
        }
        i = i + step;
    }
    proof {
        assert(lv.subrange(lv.len() as int, lv.len() as int) =~= Seq::<Seq<char>>::empty());
        assert(pkg_views(out@) + Seq::<PkgView>::empty() =~= pkg_views(out@));
    }
    out
}

/// The empty details block.
pub open spec fn init_details() -> DetailsView {
    DetailsView { description: Seq::empty(), license: Seq::empty(), size: 0, url: Seq::empty() }
}

/// One line's effect on the details being accumulated; the flag records
/// whether a description block is open.
pub open spec fn show_line_step(st: (DetailsView, bool), line: Seq<char>) -> (DetailsView, bool) {
    let d = st.0;
    let in_desc = st.1;
    if has_prefix(line, "Homepage: "@) {
        (DetailsView { url: trimmed(line.subrange(10, line.len() as int)), ..d }, false)
    } else if has_prefix(line, "Installed-Size: "@) {
        (DetailsView { size: size_value(line.subrange(16, line.len() as int)), ..d }, false)
    } else if has_prefix(line, "Description: "@) {
        (DetailsView { description: trimmed(line.subrange(13, line.len() as int)), ..d }, true)
    } else if in_desc && has_prefix(line, " "@) {
        let desc = if d.description.len() == 0 {
            trimmed(line)
        } else {
            d.description + seq!['\n'] + trimmed(line)
        };
        (DetailsView { description: desc, ..d }, true)
    } else if !has_prefix(line, " "@) && line.len() > 0 && in_desc {
        (d, false)
    } else {
        (d, in_desc)
    }
}

/// The details block the given lines accumulate onto `st`.
pub open spec fn show_models(lines: Seq<Seq<char>>, st: (DetailsView, bool)) -> DetailsView
    decreases lines.len(),
{
    if lines.len() == 0 {
        st.0
    } else {
        show_models(lines.drop_first(), show_line_step(st, lines[0]))
    }
}

/// A license never stays empty: it defaults to `Unknown`.
pub open spec fn finalize_details(d: DetailsView) -> DetailsView {
    if d.license.len() == 0 {
        DetailsView { license: "Unknown"@, ..d }
    } else {
        d
    }
}

/// The details block a whole `show` output denotes.
pub open spec fn show_model(s: Seq<char>) -> DetailsView {
    finalize_details(show_models(split_char(s, '\n'), (init_details(), false)))
}

/// Parses the details block of one package: homepage, installed size with
/// unit conversion, and the indented multi-line description.
#[verifier::loop_isolation(false)]
pub fn parse_apt_show(output: &str) -> (r: AptDetails)
    ensures
        r@ == show_model(output@),
{
    let lines = split_str(output, '\n');
    let ghost lv = views_of(lines@);
    let mut details = AptDetails {
        description: String::new(),
        license: String::new(),
        size: 0,
        url: String::new(),
    };
    let mut in_description = false;
    let mut i: usize = 0;
    proof {
        assert(details@ =~= init_details());
        assert(lv.subrange(0, lv.len() as int) =~= lv);
    }
    while i < lines.len()
        invariant
            i <= lines.len(),
            show_models(lv.subrange(i as int, lv.len() as int), (details@, in_description))
                == show_models(lv, (init_details(), false)),
        decreases lines.len() - i,
    {
        let ghost suffix = lv.subrange(i as int, lv.len() as int);
        let ghost st = (details@, in_description);
        proof {
            assert(suffix[0] == lv[i as int]);
            assert(suffix.drop_first() =~= lv.subrange(i + 1, lv.len() as int));
        }
        let line = lines[i].as_str();
        let n = line.unicode_len();
        if str_starts_with(line, "Homepage: ") {
            proof {
                reveal_strlit("Homepage: ");
            }
            details.url = trim_str(line.substring_char(10, n));
            in_description = false;
        } else if str_starts_with(line, "Installed-Size: ") {
            proof {
                reveal_strlit("Installed-Size: ");
            }
            details.size = parse_size(line.substring_char(16, n));
            in_description = false;
        } else if str_starts_with(line, "Description: ") {
            proof {
                reveal_strlit("Description: ");
            }
            details.description = trim_str(line.substring_char(13, n));
            in_description = true;
        } else if in_description && str_starts_with(line, " ") {
            let t = trim_str(line);
            if details.description.as_str().unicode_len() == 0 {
                details.description = t;
            } else {
                details.description.append("\n");
                details.description.append(t.as_str());
                proof {
                    reveal_strlit("\n");
                    assert("\n"@ =~= seq!['\n']);
                }
            }
        } else if !str_starts_with(line, " ") && n > 0 && in_description {
            in_description = false;
        }
        proof {
            assert((details@, in_description) == show_line_step(st, suffix[0]));
        }
        i = i + 1;
    }
    proof {
        assert(lv.subrange(lv.len() as int, lv.len() as int) =~= Seq::<Seq<char>>::empty());
    }
    if details.license.as_str().unicode_len() == 0 {
        details.license = "Unknown".to_owned();
    }
    proof {
        assert(details@ =~= show_model(output@));
    }
    details
}

} // verus!
