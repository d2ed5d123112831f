//! The package record: one package as the interface shows it, with a
//! lazily-enriched detail subset, keyed by a composite identifier
//! `name;version;architecture;origin`.

use vstd::prelude::*;

use crate::text::{count_sep, join_char, lemma_join_split, lemma_split_count,
    lemma_split_by_nonempty, sep_pred, split_char, split_str};

verus! {

/// The delimiter of the composite identifier.
pub open spec fn ident_sep() -> char {
    ';'
}

/// The mathematical content of a package record.
#[verifier::ext_equal]
pub struct PkgView {
    pub id: Seq<char>,
    pub name: Seq<char>,
    pub version: Seq<char>,
    pub arch: Seq<char>,
    pub data: Seq<char>,
    pub status: Seq<char>,
    pub summary: Seq<char>,
    pub description: Seq<char>,
    pub license: Seq<char>,
    pub size: u64,
    pub url: Seq<char>,
}

/// One package as displayed and acted on.  The enrichment fields
/// (`description`, `license`, `size`, `url`) stay empty until a details
/// fetch resolves, and are then always set together.
#[derive(Debug, PartialEq)]
pub struct Package {
    pub id: String,
    pub name: String,
    pub version: String,
    pub arch: String,
    pub data: String,
    pub status: String,
    pub summary: String,
    pub description: String,
    pub license: String,
    pub size: u64,
    pub url: String,
}

impl View for Package {
    type V = PkgView;

    open spec fn view(&self) -> PkgView {
        PkgView {
            id: self.id@,
            name: self.name@,
            version: self.version@,
            arch: self.arch@,
            data: self.data@,
            status: self.status@,
            summary: self.summary@,
            description: self.description@,
            license: self.license@,
            size: self.size,
            url: self.url@,
        }
    }
}

impl Clone for Package {
    fn clone(&self) -> (res: Self)
        ensures
            res == *self,
    {
        Package {
            id: self.id.clone(),
            name: self.name.clone(),
            version: self.version.clone(),
            arch: self.arch.clone(),
            data: self.data.clone(),
            status: self.status.clone(),
            summary: self.summary.clone(),
            description: self.description.clone(),
            license: self.license.clone(),
            size: self.size,
            url: self.url.clone(),
        }
    }
}

/// The placeholder a missing identifier field decodes to.
pub open spec fn missing_field() -> Seq<char> {
    seq!['?']
}

/// The `k`-th semicolon-separated field of an identifier, or `?` where the
/// identifier has fewer fields.
pub open spec fn ident_field(id: Seq<char>, k: int) -> Seq<char> {
    let parts = split_char(id, ';');
    if 0 <= k < parts.len() {
        parts[k]
    } else {
        missing_field()
    }
}

/// The views of a sequence of packages.
pub open spec fn pkg_views(s: Seq<Package>) -> Seq<PkgView> {
    s.map_values(|p: Package| p@)
}

impl Package {
    /// Builds a record from a composite identifier, decomposing it into its
    /// four fields; the enrichment fields start empty.
    pub fn from_packagekit(id: &str, status: &str, summary: &str) -> (r: Package)
        ensures
            r@ == from_ident_view(id@, status@, summary@),
    {
        let parts = split_str(id, ';');
        proof {
            lemma_split_by_nonempty(id@, sep_pred(';'));
            reveal_strlit("?");
            assert("?"@ =~= missing_field());
        }
        let name = if parts.len() > 0 {
            parts[0].clone()
        } else {
            "?".to_owned()
        };
        let version = if parts.len() > 1 {
            parts[1].clone()
        } else {
            "?".to_owned()
        };
        let arch = if parts.len() > 2 {
            parts[2].clone()
        } else {
            "?".to_owned()
        };
        let data = if parts.len() > 3 {
            parts[3].clone()
        } else {
            "?".to_owned()
        };
        let r = Package {
            id: id.to_owned(),
            name,
            version,
            arch,
            data,
            status: status.to_owned(),
            summary: summary.to_owned(),
            description: String::new(),
            license: String::new(),
            size: 0,
            url: String::new(),
        };
        proof {
            assert(r@ =~= from_ident_view(id@, status@, summary@));
        }
        r
    }

    /// Sets the four enrichment fields together, from one details result.
    pub fn update_details(&mut self, description: &str, license: &str, size: u64, url: &str)
        ensures
            final(self)@ == (PkgView {
                description: description@,
                license: license@,
                size: size,
                url: url@,
                ..old(self)@
            }),
    {
        self.description = description.to_owned();
        self.license = license.to_owned();
        self.size = size;
        self.url = url.to_owned();
    }
}

/// The record `from_packagekit` yields: the identifier kept whole, its four
/// fields decomposed, and the enrichment group empty.
pub open spec fn from_ident_view(id: Seq<char>, status: Seq<char>, summary: Seq<char>) -> PkgView {
    PkgView {
        id: id,
        name: ident_field(id, 0),
        version: ident_field(id, 1),
        arch: ident_field(id, 2),
        data: ident_field(id, 3),
        status: status,
        summary: summary,
        description: Seq::empty(),
        license: Seq::empty(),
        size: 0,
        url: Seq::empty(),
    }
}

/// Joins the four identifier fields with the identifier separator.
pub fn make_ident(name: &str, version: &str, arch: &str, data: &str) -> (r: String)
    ensures
        r@ == joined_ident(name@, version@, arch@, data@),
{
    let mut r = name.to_owned();
    r.append(";");
    r.append(version);
    r.append(";");
    r.append(arch);
    r.append(";");
    r.append(data);
    proof {
        reveal_strlit(";");
        assert(";"@ =~= seq![ident_sep()]);
        assert(r@ =~= joined_ident(name@, version@, arch@, data@));
    }
    r
}

/// Four fields joined by the identifier separator.
pub open spec fn joined_ident(
    name: Seq<char>,
    version: Seq<char>,
    arch: Seq<char>,
    data: Seq<char>,
) -> Seq<char> {
    name + seq![ident_sep()] + version + seq![ident_sep()] + arch + seq![ident_sep()] + data
}

/// Law: an identifier with exactly three semicolons decomposes into four
/// fields that joined back give exactly the identifier.
pub proof fn lemma_ident_round_trip(id: Seq<char>)
    requires
        count_sep(id, ident_sep()) == 3,
    ensures
        joined_ident(
            ident_field(id, 0),
            ident_field(id, 1),
            ident_field(id, 2),
            ident_field(id, 3),
        ) == id,
{
    lemma_split_count(id, ident_sep());
    lemma_join_split(id, ident_sep());
    let parts = split_char(id, ident_sep());
    assert(parts.len() == 4);
    reveal_with_fuel(join_char, 5);
    assert(parts.drop_first() =~= seq![parts[1], parts[2], parts[3]]);
    assert(parts.drop_first().drop_first() =~= seq![parts[2], parts[3]]);
    assert(parts.drop_first().drop_first().drop_first() =~= seq![parts[3]]);
    assert(join_char(parts, ident_sep()) =~= parts[0] + seq![ident_sep()] + (parts[1] + seq![
        ident_sep(),
    ] + (parts[2] + seq![ident_sep()] + parts[3])));
    assert(joined_ident(
        ident_field(id, 0),
        ident_field(id, 1),
        ident_field(id, 2),
        ident_field(id, 3),
    ) =~= id);
}

} // verus!
