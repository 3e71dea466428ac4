//! The well-typed data model: provide-relations and the normalized
//! package record, together with the record normalizer.

use vstd::prelude::*;
use crate::deserializers::{
    clone_strings, empty_is_none, flexible_bool, list_ok, list_val, normalize_resource, num_ok,
    num_err, num_val, opt_str_ok, opt_str_val, optional_u64, ovw, req_str_err, req_str_ok,
    req_str_val, required_string, res_val, string_list, svw, tri_err, tri_ok, tri_val,
    MalformedKind, MalformedRecord,
};
use crate::json::{json_value_text, jv_text};
use crate::raw::{lookup1, lookup2, RawField, RawRecord};
use crate::text::{eq_str, find1, find2, find_char, find_pair, ws_only};

verus! {

/// How a provide-relation's alias is to be resolved by a consumer.
#[derive(Debug, Clone, Copy, PartialEq, Eq)]
pub enum ProvideStrategy {
    KeepTargetOnly,
    KeepBoth,
    Alias,
}

/// A structured provide-relation: one package name provides or aliases
/// another, under an optional strategy.
#[derive(Debug, Default, Clone, PartialEq)]
pub struct PackageProvide {
    pub name: String,
    pub target: Option<String>,
    pub strategy: Option<ProvideStrategy>,
}

/// The mathematical value of a provide-relation.
#[verifier::ext_equal]
pub struct ProvideV {
    pub name: Seq<char>,
    pub target: Option<Seq<char>>,
    pub strategy: Option<ProvideStrategy>,
}

/// The value of one provide-relation.
pub open spec fn pv(p: PackageProvide) -> ProvideV {
    ProvideV { name: p.name@, target: ovw(p.target), strategy: p.strategy }
}

/// The values of a sequence of provide-relations.
pub open spec fn pvs(ps: Seq<PackageProvide>) -> Seq<ProvideV> {
    ps.map_values(|p: PackageProvide| pv(p))
}

/// What parsing a provide-string yields: the first `==` splits into a
/// keep-both relation, else the first `=>` into a keep-target-only
/// relation, else the first `:` into an alias; a string with none of the
/// separators is a bare name without target or strategy.
pub open spec fn spec_provide(s: Seq<char>) -> ProvideV {
    if find2(s, '=', '=') >= 0 {
        let i = find2(s, '=', '=');
        ProvideV {
            name: s.subrange(0, i),
            target: Some(s.subrange(i + 2, s.len() as int)),
            strategy: Some(ProvideStrategy::KeepBoth),
        }
    } else if find2(s, '=', '>') >= 0 {
        let i = find2(s, '=', '>');
        ProvideV {
            name: s.subrange(0, i),
            target: Some(s.subrange(i + 2, s.len() as int)),
            strategy: Some(ProvideStrategy::KeepTargetOnly),
        }
    } else if find1(s, ':') >= 0 {
        let i = find1(s, ':');
        ProvideV {
            name: s.subrange(0, i),
            target: Some(s.subrange(i + 1, s.len() as int)),
            strategy: Some(ProvideStrategy::Alias),
        }
    } else {
        ProvideV { name: s, target: None, strategy: None }
    }
}

impl PackageProvide {
    /// Parses one provide-string at its first separator: `==` keeps both
    /// names, `=>` keeps the target only, `:` declares an alias; with no
    /// separator the whole string is the name.
    pub fn from_string(provide: &str) -> (r: Self)
        ensures
            pv(r) == spec_provide(provide@),
    {
        let n = provide.unicode_len();
        if let Some(i) = find_pair(provide, '=', '=') {
            let r = PackageProvide {
                name: String::from_str(provide.substring_char(0, i)),
                target: Some(String::from_str(provide.substring_char(i + 2, n))),
                strategy: Some(ProvideStrategy::KeepBoth),
            };
            proof {
                assert(pv(r) =~= spec_provide(provide@));
            }
            r
        } else if let Some(i) = find_pair(provide, '=', '>') {
            let r = PackageProvide {
                name: String::from_str(provide.substring_char(0, i)),
                target: Some(String::from_str(provide.substring_char(i + 2, n))),
                strategy: Some(ProvideStrategy::KeepTargetOnly),
            };
            proof {
                assert(pv(r) =~= spec_provide(provide@));
            }
            r
        } else if let Some(i) = find_char(provide, ':') {
            let r = PackageProvide {
                name: String::from_str(provide.substring_char(0, i)),
                target: Some(String::from_str(provide.substring_char(i + 1, n))),
                strategy: Some(ProvideStrategy::Alias),
            };
            proof {
                assert(pv(r) =~= spec_provide(provide@));
            }
            r
        } else {
            let r = PackageProvide {
                name: String::from_str(provide),
                target: None,
                strategy: None,
            };
            proof {
                assert(pv(r) =~= spec_provide(provide@));
            }
            r
        }
    }
}

/// Whether a provide-string is a usable provide declaration for a package
/// named `pkg`: it carries one of the separators, or it is the package's
/// own name verbatim; anything else is dropped.
pub open spec fn usable_provide(s: Seq<char>, pkg: Seq<char>) -> bool {
    find2(s, '=', '=') >= 0 || find2(s, '=', '>') >= 0 || find1(s, ':') >= 0 || s == pkg
}

/// The provide-relations derived from a list of provide-strings: the
/// usable ones parsed, in order; the rest dropped.
pub open spec fn spec_derive(strs: Seq<Seq<char>>, pkg: Seq<char>) -> Seq<ProvideV>
    decreases strs.len(),
{
    if strs.len() == 0 {
        Seq::empty()
    } else {
        let rest = spec_derive(strs.drop_last(), pkg);
        if usable_provide(strs.last(), pkg) {
            rest.push(spec_provide(strs.last()))
        } else {
            rest
        }
    }
}

/// Derives the structured provide-relations of a package from its raw
/// provide-strings, dropping the unusable ones.
pub fn derive_provides(provides: &Vec<String>, pkg_name: &str) -> (r: Vec<PackageProvide>)
    ensures
        pvs(r@) == spec_derive(svw(provides@), pkg_name@),
{
    let mut r: Vec<PackageProvide> = Vec::new();
    let n = provides.len();
    proof {
        assert(svw(provides@).subrange(0, 0) =~= Seq::<Seq<char>>::empty());
        assert(pvs(r@) =~= Seq::<ProvideV>::empty());
    }
    for i in 0..n
        invariant
            n == provides@.len(),
            pvs(r@) == spec_derive(svw(provides@).subrange(0, i as int), pkg_name@),
    {
        let ghost pre = svw(provides@).subrange(0, i as int);
        let s = &provides[i];
        let usable = find_pair(s.as_str(), '=', '=').is_some()
            || find_pair(s.as_str(), '=', '>').is_some()
            || find_char(s.as_str(), ':').is_some()
            || eq_str(s.as_str(), pkg_name);
        proof {
            let cur = svw(provides@).subrange(0, i + 1);
            assert(cur.drop_last() =~= pre);
            assert(cur.last() == provides@[i as int]@);
        }
        if usable {
            let p = PackageProvide::from_string(s.as_str());
            r.push(p);
            proof {
                let cur = svw(provides@).subrange(0, i + 1);
                assert(pvs(r@) =~= spec_derive(cur, pkg_name@));
            }
        } else {
            proof {
                let cur = svw(provides@).subrange(0, i + 1);
                assert(!usable_provide(cur.last(), pkg_name@));
                assert(pvs(r@) =~= spec_derive(cur, pkg_name@));
            }
        }
    }
    proof {
        assert(svw(provides@).subrange(0, n as int) =~= svw(provides@));
    }
    r
}

/// Copies an optional string; the copy has the same view.
fn clone_opt(o: &Option<String>) -> (r: Option<String>)
    ensures
        ovw(r) == ovw(*o),
{
    match o {
        Some(s) => Some(s.clone()),
        None => None,
    }
}

/// The normalized in-memory representation of one package, as the import
/// engine consumes it. Every optional string field that normalization
/// produced is either absent or non-blank; collection fields are always
/// present, an upstream omission being the empty collection.
#[derive(Debug, Default, PartialEq)]
pub struct RemotePackage {
    pub disabled: Option<bool>,
    pub disabled_reason: String,
    pub rank: Option<u64>,
    pub pkg: Option<String>,
    pub pkg_id: String,
    pub pkg_name: String,
    pub pkg_family: Option<String>,
    pub pkg_type: Option<String>,
    pub pkg_webpage: Option<String>,
    pub description: String,
    pub version: String,
    pub version_upstream: Option<String>,
    pub download_url: String,
    pub size_raw: Option<u64>,
    pub ghcr_pkg: Option<String>,
    pub ghcr_size_raw: Option<u64>,
    pub ghcr_files: Vec<String>,
    pub ghcr_blob: Option<String>,
    pub ghcr_url: Option<String>,
    pub src_urls: Vec<String>,
    pub homepages: Vec<String>,
    pub licenses: Vec<String>,
    pub maintainers: Vec<String>,
    pub notes: Vec<String>,
    pub tags: Vec<String>,
    pub bsum: Option<String>,
    pub shasum: Option<String>,
    pub build_id: Option<String>,
    pub build_date: Option<String>,
    pub build_action: Option<String>,
    pub build_script: Option<String>,
    pub build_log: Option<String>,
    pub categories: Vec<String>,
    pub provides: Vec<String>,
    pub icon: Option<String>,
    pub desktop: Option<String>,
    pub appstream: Option<String>,
    pub app_id: Option<String>,
    pub download_count: Option<u64>,
    pub download_count_week: Option<u64>,
    pub download_count_month: Option<u64>,
    pub repology: Vec<String>,
    pub snapshots: Vec<String>,
    pub replaces: Vec<String>,
    pub deprecated: Option<bool>,
    pub portable: Option<bool>,
    pub desktop_integration: Option<bool>,
    pub recurse_provides: Option<bool>,
    pub soar_syms: Option<bool>,
}

/// The mathematical value of a package record: every field as its view.
#[verifier::ext_equal]
pub struct RemotePackageV {
    pub disabled: Option<bool>,
    pub disabled_reason: Seq<char>,
    pub rank: Option<u64>,
    pub pkg: Option<Seq<char>>,
    pub pkg_id: Seq<char>,
    pub pkg_name: Seq<char>,
    pub pkg_family: Option<Seq<char>>,
    pub pkg_type: Option<Seq<char>>,
    pub pkg_webpage: Option<Seq<char>>,
    pub description: Seq<char>,
    pub version: Seq<char>,
    pub version_upstream: Option<Seq<char>>,
    pub download_url: Seq<char>,
    pub size_raw: Option<u64>,
    pub ghcr_pkg: Option<Seq<char>>,
    pub ghcr_size_raw: Option<u64>,
    pub ghcr_files: Seq<Seq<char>>,
    pub ghcr_blob: Option<Seq<char>>,
    pub ghcr_url: Option<Seq<char>>,
    pub src_urls: Seq<Seq<char>>,
    pub homepages: Seq<Seq<char>>,
    pub licenses: Seq<Seq<char>>,
    pub maintainers: Seq<Seq<char>>,
    pub notes: Seq<Seq<char>>,
    pub tags: Seq<Seq<char>>,
    pub bsum: Option<Seq<char>>,
    pub shasum: Option<Seq<char>>,
    pub build_id: Option<Seq<char>>,
    pub build_date: Option<Seq<char>>,
    pub build_action: Option<Seq<char>>,
    pub build_script: Option<Seq<char>>,
    pub build_log: Option<Seq<char>>,
    pub categories: Seq<Seq<char>>,
    pub provides: Seq<Seq<char>>,
    pub icon: Option<Seq<char>>,
    pub desktop: Option<Seq<char>>,
    pub appstream: Option<Seq<char>>,
    pub app_id: Option<Seq<char>>,
    pub download_count: Option<u64>,
    pub download_count_week: Option<u64>,
    pub download_count_month: Option<u64>,
    pub repology: Seq<Seq<char>>,
    pub snapshots: Seq<Seq<char>>,
    pub replaces: Seq<Seq<char>>,
    pub deprecated: Option<bool>,
    pub portable: Option<bool>,
    pub desktop_integration: Option<bool>,
    pub recurse_provides: Option<bool>,
    pub soar_syms: Option<bool>,
}

/// The value of one package record.
pub open spec fn rv(p: RemotePackage) -> RemotePackageV {
    RemotePackageV {
        disabled: p.disabled,
        disabled_reason: p.disabled_reason@,
        rank: p.rank,
        pkg: ovw(p.pkg),
        pkg_id: p.pkg_id@,
        pkg_name: p.pkg_name@,
        pkg_family: ovw(p.pkg_family),
        pkg_type: ovw(p.pkg_type),
        pkg_webpage: ovw(p.pkg_webpage),
        description: p.description@,
        version: p.version@,
        version_upstream: ovw(p.version_upstream),
        download_url: p.download_url@,
        size_raw: p.size_raw,
        ghcr_pkg: ovw(p.ghcr_pkg),
        ghcr_size_raw: p.ghcr_size_raw,
        ghcr_files: svw(p.ghcr_files@),
        ghcr_blob: ovw(p.ghcr_blob),
        ghcr_url: ovw(p.ghcr_url),
        src_urls: svw(p.src_urls@),
        homepages: svw(p.homepages@),
        licenses: svw(p.licenses@),
        maintainers: svw(p.maintainers@),
        notes: svw(p.notes@),
        tags: svw(p.tags@),
        bsum: ovw(p.bsum),
        shasum: ovw(p.shasum),
        build_id: ovw(p.build_id),
        build_date: ovw(p.build_date),
        build_action: ovw(p.build_action),
        build_script: ovw(p.build_script),
        build_log: ovw(p.build_log),
        categories: svw(p.categories@),
        provides: svw(p.provides@),
        icon: ovw(p.icon),
        desktop: ovw(p.desktop),
        appstream: ovw(p.appstream),
        app_id: ovw(p.app_id),
        download_count: p.download_count,
        download_count_week: p.download_count_week,
        download_count_month: p.download_count_month,
        repology: svw(p.repology@),
        snapshots: svw(p.snapshots@),
        replaces: svw(p.replaces@),
        deprecated: p.deprecated,
        portable: p.portable,
        desktop_integration: p.desktop_integration,
        recurse_provides: p.recurse_provides,
        soar_syms: p.soar_syms,
    }
}

/// Two records hold the same values exactly when their views agree.
pub proof fn lemma_rp_eq_is_rv_eq(a: RemotePackage, b: RemotePackage)
    ensures
        rp_eq(a, b) == (rv(a) == rv(b)),
{
    if rp_eq(a, b) {
        assert(rv(a) =~= rv(b));
    }
}

/// Whether an optional string is absent or has visible content: the
/// normalized form never carries an empty or whitespace-only string.
pub open spec fn opt_not_blank(o: Option<String>) -> bool {
    match o {
        Some(s) => !ws_only(s@),
        None => true,
    }
}

/// The invariant normalization establishes: every optional string field
/// is either absent or non-blank — absence and emptiness are one state.
pub open spec fn rp_wf(p: RemotePackage) -> bool {
    &&& opt_not_blank(p.pkg)
    &&& opt_not_blank(p.pkg_family)
    &&& opt_not_blank(p.pkg_type)
    &&& opt_not_blank(p.pkg_webpage)
    &&& opt_not_blank(p.version_upstream)
    &&& opt_not_blank(p.ghcr_pkg)
    &&& opt_not_blank(p.ghcr_blob)
    &&& opt_not_blank(p.ghcr_url)
    &&& opt_not_blank(p.bsum)
    &&& opt_not_blank(p.shasum)
    &&& opt_not_blank(p.build_id)
    &&& opt_not_blank(p.build_date)
    &&& opt_not_blank(p.build_action)
    &&& opt_not_blank(p.build_script)
    &&& opt_not_blank(p.build_log)
    &&& opt_not_blank(p.icon)
    &&& opt_not_blank(p.desktop)
    &&& opt_not_blank(p.appstream)
    &&& opt_not_blank(p.app_id)
}

/// Two package records hold the same values, field by field.
pub open spec fn rp_eq(a: RemotePackage, b: RemotePackage) -> bool {
    &&& a.disabled == b.disabled
    &&& a.disabled_reason@ == b.disabled_reason@
    &&& a.rank == b.rank
    &&& ovw(a.pkg) == ovw(b.pkg)
    &&& a.pkg_id@ == b.pkg_id@
    &&& a.pkg_name@ == b.pkg_name@
    &&& ovw(a.pkg_family) == ovw(b.pkg_family)
    &&& ovw(a.pkg_type) == ovw(b.pkg_type)
    &&& ovw(a.pkg_webpage) == ovw(b.pkg_webpage)
    &&& a.description@ == b.description@
    &&& a.version@ == b.version@
    &&& ovw(a.version_upstream) == ovw(b.version_upstream)
    &&& a.download_url@ == b.download_url@
    &&& a.size_raw == b.size_raw
    &&& ovw(a.ghcr_pkg) == ovw(b.ghcr_pkg)
    &&& a.ghcr_size_raw == b.ghcr_size_raw
    &&& svw(a.ghcr_files@) == svw(b.ghcr_files@)
    &&& ovw(a.ghcr_blob) == ovw(b.ghcr_blob)
    &&& ovw(a.ghcr_url) == ovw(b.ghcr_url)
    &&& svw(a.src_urls@) == svw(b.src_urls@)
    &&& svw(a.homepages@) == svw(b.homepages@)
    &&& svw(a.licenses@) == svw(b.licenses@)
    &&& svw(a.maintainers@) == svw(b.maintainers@)
    &&& svw(a.notes@) == svw(b.notes@)
    &&& svw(a.tags@) == svw(b.tags@)
    &&& ovw(a.bsum) == ovw(b.bsum)
    &&& ovw(a.shasum) == ovw(b.shasum)
    &&& ovw(a.build_id) == ovw(b.build_id)
    &&& ovw(a.build_date) == ovw(b.build_date)
    &&& ovw(a.build_action) == ovw(b.build_action)
    &&& ovw(a.build_script) == ovw(b.build_script)
    &&& ovw(a.build_log) == ovw(b.build_log)
    &&& svw(a.categories@) == svw(b.categories@)
    &&& svw(a.provides@) == svw(b.provides@)
    &&& ovw(a.icon) == ovw(b.icon)
    &&& ovw(a.desktop) == ovw(b.desktop)
    &&& ovw(a.appstream) == ovw(b.appstream)
    &&& ovw(a.app_id) == ovw(b.app_id)
    &&& a.download_count == b.download_count
    &&& a.download_count_week == b.download_count_week
    &&& a.download_count_month == b.download_count_month
    &&& svw(a.repology@) == svw(b.repology@)
    &&& svw(a.snapshots@) == svw(b.snapshots@)
    &&& svw(a.replaces@) == svw(b.replaces@)
    &&& a.deprecated == b.deprecated
    &&& a.portable == b.portable
    &&& a.desktop_integration == b.desktop_integration
    &&& a.recurse_provides == b.recurse_provides
    &&& a.soar_syms == b.soar_syms
}

impl Clone for RemotePackage {
    /// The copy holds the same values as the original, field by field.
    fn clone(&self) -> (r: Self)
        ensures
            rp_eq(r, *self),
    {
        RemotePackage {
            disabled: self.disabled,
            disabled_reason: self.disabled_reason.clone(),
            rank: self.rank,
            pkg: clone_opt(&self.pkg),
            pkg_id: self.pkg_id.clone(),
            pkg_name: self.pkg_name.clone(),
            pkg_family: clone_opt(&self.pkg_family),
            pkg_type: clone_opt(&self.pkg_type),
            pkg_webpage: clone_opt(&self.pkg_webpage),
            description: self.description.clone(),
            version: self.version.clone(),
            version_upstream: clone_opt(&self.version_upstream),
            download_url: self.download_url.clone(),
            size_raw: self.size_raw,
            ghcr_pkg: clone_opt(&self.ghcr_pkg),
            ghcr_size_raw: self.ghcr_size_raw,
            ghcr_files: clone_strings(&self.ghcr_files),
            ghcr_blob: clone_opt(&self.ghcr_blob),
            ghcr_url: clone_opt(&self.ghcr_url),
            src_urls: clone_strings(&self.src_urls),
            homepages: clone_strings(&self.homepages),
            licenses: clone_strings(&self.licenses),
            maintainers: clone_strings(&self.maintainers),
            notes: clone_strings(&self.notes),
            tags: clone_strings(&self.tags),
            bsum: clone_opt(&self.bsum),
            shasum: clone_opt(&self.shasum),
            build_id: clone_opt(&self.build_id),
            build_date: clone_opt(&self.build_date),
            build_action: clone_opt(&self.build_action),
            build_script: clone_opt(&self.build_script),
            build_log: clone_opt(&self.build_log),
            categories: clone_strings(&self.categories),
            provides: clone_strings(&self.provides),
            icon: clone_opt(&self.icon),
            desktop: clone_opt(&self.desktop),
            appstream: clone_opt(&self.appstream),
            app_id: clone_opt(&self.app_id),
            download_count: self.download_count,
            download_count_week: self.download_count_week,
            download_count_month: self.download_count_month,
            repology: clone_strings(&self.repology),
            snapshots: clone_strings(&self.snapshots),
            replaces: clone_strings(&self.replaces),
            deprecated: self.deprecated,
            portable: self.portable,
            desktop_integration: self.desktop_integration,
            recurse_provides: self.recurse_provides,
            soar_syms: self.soar_syms,
        }
    }
}

/// Whether every field of the raw record passes its coercion.
pub open spec fn record_ok(r: RawRecord) -> bool {
    let f = r.fields@;
    &&& tri_ok(lookup2(f, "disabled"@, "_disabled"@))
    &&& num_ok(lookup1(f, "rank"@))
    &&& opt_str_ok(lookup1(f, "pkg"@))
    &&& req_str_ok(lookup1(f, "pkg_id"@))
    &&& req_str_ok(lookup1(f, "pkg_name"@))
    &&& opt_str_ok(lookup1(f, "pkg_family"@))
    &&& opt_str_ok(lookup1(f, "pkg_type"@))
    &&& opt_str_ok(lookup1(f, "pkg_webpage"@))
    &&& req_str_ok(lookup1(f, "description"@))
    &&& req_str_ok(lookup1(f, "version"@))
    &&& opt_str_ok(lookup1(f, "version_upstream"@))
    &&& req_str_ok(lookup1(f, "download_url"@))
    &&& num_ok(lookup1(f, "size_raw"@))
    &&& opt_str_ok(lookup1(f, "ghcr_pkg"@))
    &&& num_ok(lookup1(f, "ghcr_size_raw"@))
    &&& list_ok(lookup1(f, "ghcr_files"@))
    &&& opt_str_ok(lookup1(f, "ghcr_blob"@))
    &&& opt_str_ok(lookup1(f, "ghcr_url"@))
    &&& list_ok(lookup2(f, "src_urls"@, "src_url"@))
    &&& list_ok(lookup2(f, "homepages"@, "homepage"@))
    &&& list_ok(lookup2(f, "licenses"@, "license"@))
    &&& list_ok(lookup2(f, "maintainers"@, "maintainer"@))
    &&& list_ok(lookup2(f, "notes"@, "note"@))
    &&& list_ok(lookup2(f, "tags"@, "tag"@))
    &&& opt_str_ok(lookup1(f, "bsum"@))
    &&& opt_str_ok(lookup1(f, "shasum"@))
    &&& opt_str_ok(lookup1(f, "build_id"@))
    &&& opt_str_ok(lookup1(f, "build_date"@))
    &&& opt_str_ok(lookup2(f, "build_action"@, "build_gha"@))
    &&& opt_str_ok(lookup1(f, "build_script"@))
    &&& opt_str_ok(lookup1(f, "build_log"@))
    &&& list_ok(lookup2(f, "categories"@, "category"@))
    &&& list_ok(lookup1(f, "provides"@))
    &&& opt_str_ok(lookup1(f, "app_id"@))
    &&& num_ok(lookup1(f, "download_count"@))
    &&& num_ok(lookup1(f, "download_count_week"@))
    &&& num_ok(lookup1(f, "download_count_month"@))
    &&& list_ok(lookup1(f, "repology"@))
    &&& list_ok(lookup1(f, "snapshots"@))
    &&& list_ok(lookup1(f, "replaces"@))
    &&& tri_ok(lookup1(f, "deprecated"@))
    &&& tri_ok(lookup1(f, "portable"@))
    &&& tri_ok(lookup1(f, "desktop_integration"@))
    &&& tri_ok(lookup1(f, "recurse_provides"@))
    &&& tri_ok(lookup1(f, "soar_syms"@))
}

/// Whether the normalized record holds exactly the coerced values of the
/// raw record.
pub open spec fn rec_matches(r: RawRecord, p: RemotePackage) -> bool {
    let f = r.fields@;
    &&& p.disabled == tri_val(lookup2(f, "disabled"@, "_disabled"@))
    &&& p.disabled_reason@ == jv_text(lookup2(f, "disabled_reason"@, "_disabled_reason"@))
    &&& p.rank == num_val(lookup1(f, "rank"@))
    &&& ovw(p.pkg) == opt_str_val(lookup1(f, "pkg"@))
    &&& p.pkg_id@ == req_str_val(lookup1(f, "pkg_id"@))
    &&& p.pkg_name@ == req_str_val(lookup1(f, "pkg_name"@))
    &&& ovw(p.pkg_family) == opt_str_val(lookup1(f, "pkg_family"@))
    &&& ovw(p.pkg_type) == opt_str_val(lookup1(f, "pkg_type"@))
    &&& ovw(p.pkg_webpage) == opt_str_val(lookup1(f, "pkg_webpage"@))
    &&& p.description@ == req_str_val(lookup1(f, "description"@))
    &&& p.version@ == req_str_val(lookup1(f, "version"@))
    &&& ovw(p.version_upstream) == opt_str_val(lookup1(f, "version_upstream"@))
    &&& p.download_url@ == req_str_val(lookup1(f, "download_url"@))
    &&& p.size_raw == num_val(lookup1(f, "size_raw"@))
    &&& ovw(p.ghcr_pkg) == opt_str_val(lookup1(f, "ghcr_pkg"@))
    &&& p.ghcr_size_raw == num_val(lookup1(f, "ghcr_size_raw"@))
    &&& svw(p.ghcr_files@) == list_val(lookup1(f, "ghcr_files"@))
    &&& ovw(p.ghcr_blob) == opt_str_val(lookup1(f, "ghcr_blob"@))
    &&& ovw(p.ghcr_url) == opt_str_val(lookup1(f, "ghcr_url"@))
    &&& svw(p.src_urls@) == list_val(lookup2(f, "src_urls"@, "src_url"@))
    &&& svw(p.homepages@) == list_val(lookup2(f, "homepages"@, "homepage"@))
    &&& svw(p.licenses@) == list_val(lookup2(f, "licenses"@, "license"@))
    &&& svw(p.maintainers@) == list_val(lookup2(f, "maintainers"@, "maintainer"@))
    &&& svw(p.notes@) == list_val(lookup2(f, "notes"@, "note"@))
    &&& svw(p.tags@) == list_val(lookup2(f, "tags"@, "tag"@))
    &&& ovw(p.bsum) == opt_str_val(lookup1(f, "bsum"@))
    &&& ovw(p.shasum) == opt_str_val(lookup1(f, "shasum"@))
    &&& ovw(p.build_id) == opt_str_val(lookup1(f, "build_id"@))
    &&& ovw(p.build_date) == opt_str_val(lookup1(f, "build_date"@))
    &&& ovw(p.build_action) == opt_str_val(lookup2(f, "build_action"@, "build_gha"@))
    &&& ovw(p.build_script) == opt_str_val(lookup1(f, "build_script"@))
    &&& ovw(p.build_log) == opt_str_val(lookup1(f, "build_log"@))
    &&& svw(p.categories@) == list_val(lookup2(f, "categories"@, "category"@))
    &&& svw(p.provides@) == list_val(lookup1(f, "provides"@))
    &&& ovw(p.icon) == res_val(lookup1(f, "icon"@))
    &&& ovw(p.desktop) == res_val(lookup1(f, "desktop"@))
    &&& ovw(p.appstream) == res_val(lookup1(f, "appstream"@))
    &&& ovw(p.app_id) == opt_str_val(lookup1(f, "app_id"@))
    &&& p.download_count == num_val(lookup1(f, "download_count"@))
    &&& p.download_count_week == num_val(lookup1(f, "download_count_week"@))
    &&& p.download_count_month == num_val(lookup1(f, "download_count_month"@))
    &&& svw(p.repology@) == list_val(lookup1(f, "repology"@))
    &&& svw(p.snapshots@) == list_val(lookup1(f, "snapshots"@))
    &&& svw(p.replaces@) == list_val(lookup1(f, "replaces"@))
    &&& p.deprecated == tri_val(lookup1(f, "deprecated"@))
    &&& p.portable == tri_val(lookup1(f, "portable"@))
    &&& p.desktop_integration == tri_val(lookup1(f, "desktop_integration"@))
    &&& p.recurse_provides == tri_val(lookup1(f, "recurse_provides"@))
    &&& p.soar_syms == tri_val(lookup1(f, "soar_syms"@))
}

/// Whether the named field of the raw record indeed fails its coercion
/// with the given reason.
pub open spec fn err_matches(r: RawRecord, field: Seq<char>, k: MalformedKind) -> bool {
    let f = r.fields@;
    ||| field == "disabled"@ && !tri_ok(lookup2(f, "disabled"@, "_disabled"@)) && tri_err(
        lookup2(f, "disabled"@, "_disabled"@), k)
    ||| field == "rank"@ && !num_ok(lookup1(f, "rank"@)) && num_err(lookup1(f, "rank"@), k)
    ||| field == "pkg"@ && !opt_str_ok(lookup1(f, "pkg"@)) && k == MalformedKind::WrongType
    ||| field == "pkg_id"@ && !req_str_ok(lookup1(f, "pkg_id"@)) && req_str_err(
        lookup1(f, "pkg_id"@), k)
    ||| field == "pkg_name"@ && !req_str_ok(lookup1(f, "pkg_name"@)) && req_str_err(
        lookup1(f, "pkg_name"@), k)
    ||| field == "pkg_family"@ && !opt_str_ok(lookup1(f, "pkg_family"@)) && k
        == MalformedKind::WrongType
    ||| field == "pkg_type"@ && !opt_str_ok(lookup1(f, "pkg_type"@)) && k
        == MalformedKind::WrongType
    ||| field == "pkg_webpage"@ && !opt_str_ok(lookup1(f, "pkg_webpage"@)) && k
        == MalformedKind::WrongType
    ||| field == "description"@ && !req_str_ok(lookup1(f, "description"@)) && req_str_err(
        lookup1(f, "description"@), k)
    ||| field == "version"@ && !req_str_ok(lookup1(f, "version"@)) && req_str_err(
        lookup1(f, "version"@), k)
    ||| field == "version_upstream"@ && !opt_str_ok(lookup1(f, "version_upstream"@)) && k
        == MalformedKind::WrongType
    ||| field == "download_url"@ && !req_str_ok(lookup1(f, "download_url"@)) && req_str_err(
        lookup1(f, "download_url"@), k)
    ||| field == "size_raw"@ && !num_ok(lookup1(f, "size_raw"@)) && num_err(
        lookup1(f, "size_raw"@), k)
    ||| field == "ghcr_pkg"@ && !opt_str_ok(lookup1(f, "ghcr_pkg"@)) && k
        == MalformedKind::WrongType
    ||| field == "ghcr_size_raw"@ && !num_ok(lookup1(f, "ghcr_size_raw"@)) && num_err(
        lookup1(f, "ghcr_size_raw"@), k)
    ||| field == "ghcr_files"@ && !list_ok(lookup1(f, "ghcr_files"@)) && k
        == MalformedKind::WrongType
    ||| field == "ghcr_blob"@ && !opt_str_ok(lookup1(f, "ghcr_blob"@)) && k
        == MalformedKind::WrongType
    ||| field == "ghcr_url"@ && !opt_str_ok(lookup1(f, "ghcr_url"@)) && k
        == MalformedKind::WrongType
    ||| field == "src_urls"@ && !list_ok(lookup2(f, "src_urls"@, "src_url"@)) && k
        == MalformedKind::WrongType
    ||| field == "homepages"@ && !list_ok(lookup2(f, "homepages"@, "homepage"@)) && k
        == MalformedKind::WrongType
    ||| field == "licenses"@ && !list_ok(lookup2(f, "licenses"@, "license"@)) && k
        == MalformedKind::WrongType
    ||| field == "maintainers"@ && !list_ok(lookup2(f, "maintainers"@, "maintainer"@)) && k
        == MalformedKind::WrongType
    ||| field == "notes"@ && !list_ok(lookup2(f, "notes"@, "note"@)) && k
        == MalformedKind::WrongType
    ||| field == "tags"@ && !list_ok(lookup2(f, "tags"@, "tag"@)) && k == MalformedKind::WrongType
    ||| field == "bsum"@ && !opt_str_ok(lookup1(f, "bsum"@)) && k == MalformedKind::WrongType
    ||| field == "shasum"@ && !opt_str_ok(lookup1(f, "shasum"@)) && k == MalformedKind::WrongType
    ||| field == "build_id"@ && !opt_str_ok(lookup1(f, "build_id"@)) && k
        == MalformedKind::WrongType
    ||| field == "build_date"@ && !opt_str_ok(lookup1(f, "build_date"@)) && k
        == MalformedKind::WrongType
    ||| field == "build_action"@ && !opt_str_ok(lookup2(f, "build_action"@, "build_gha"@)) && k
        == MalformedKind::WrongType
    ||| field == "build_script"@ && !opt_str_ok(lookup1(f, "build_script"@)) && k
        == MalformedKind::WrongType
    ||| field == "build_log"@ && !opt_str_ok(lookup1(f, "build_log"@)) && k
        == MalformedKind::WrongType
    ||| field == "categories"@ && !list_ok(lookup2(f, "categories"@, "category"@)) && k
        == MalformedKind::WrongType
    ||| field == "provides"@ && !list_ok(lookup1(f, "provides"@)) && k
        == MalformedKind::WrongType
    ||| field == "app_id"@ && !opt_str_ok(lookup1(f, "app_id"@)) && k == MalformedKind::WrongType
    ||| field == "download_count"@ && !num_ok(lookup1(f, "download_count"@)) && num_err(
        lookup1(f, "download_count"@), k)
    ||| field == "download_count_week"@ && !num_ok(lookup1(f, "download_count_week"@)) && num_err(
        lookup1(f, "download_count_week"@), k)
    ||| field == "download_count_month"@ && !num_ok(lookup1(f, "download_count_month"@))
        && num_err(lookup1(f, "download_count_month"@), k)
    ||| field == "repology"@ && !list_ok(lookup1(f, "repology"@)) && k
        == MalformedKind::WrongType
    ||| field == "snapshots"@ && !list_ok(lookup1(f, "snapshots"@)) && k
        == MalformedKind::WrongType
    ||| field == "replaces"@ && !list_ok(lookup1(f, "replaces"@)) && k
        == MalformedKind::WrongType
    ||| field == "deprecated"@ && !tri_ok(lookup1(f, "deprecated"@)) && tri_err(
        lookup1(f, "deprecated"@), k)
    ||| field == "portable"@ && !tri_ok(lookup1(f, "portable"@)) && tri_err(
        lookup1(f, "portable"@), k)
    ||| field == "desktop_integration"@ && !tri_ok(lookup1(f, "desktop_integration"@)) && tri_err(
        lookup1(f, "desktop_integration"@), k)
    ||| field == "recurse_provides"@ && !tri_ok(lookup1(f, "recurse_provides"@)) && tri_err(
        lookup1(f, "recurse_provides"@), k)
    ||| field == "soar_syms"@ && !tri_ok(lookup1(f, "soar_syms"@)) && tri_err(
        lookup1(f, "soar_syms"@), k)
}

impl RemotePackage {
    /// Normalizes one raw record, applying every coercion rule; fails on
    /// the first field whose raw value no reading of that field accepts,
    /// naming the field and the reason. Succeeds exactly when every field
    /// passes its coercion.
    #[verifier::rlimit(100)]
    pub fn from_raw(raw: &RawRecord) -> (r: Result<RemotePackage, MalformedRecord>)
        ensures
            r.is_ok() == record_ok(*raw),
            r matches Ok(p) ==> rec_matches(*raw, p),
            r matches Ok(p) ==> rp_wf(p),
            r matches Err(e) ==> err_matches(*raw, e.field@, e.kind),
    {
        let disabled = match flexible_bool(raw.get2("disabled", "_disabled")) {
            Ok(v) => v,
            Err(kind) => return Err(MalformedRecord { field: String::from_str("disabled"), kind }),
        };
        let disabled_reason = json_value_text(raw.get2("disabled_reason", "_disabled_reason"));
        let rank = match optional_u64(raw.get1("rank")) {
            Ok(v) => v,
            Err(kind) => return Err(MalformedRecord { field: String::from_str("rank"), kind }),
        };
        let pkg = match empty_is_none(raw.get1("pkg")) {
            Ok(v) => v,
            Err(kind) => return Err(MalformedRecord { field: String::from_str("pkg"), kind }),
        };
        let pkg_id = match required_string(raw.get1("pkg_id")) {
            Ok(v) => v,
            Err(kind) => return Err(MalformedRecord { field: String::from_str("pkg_id"), kind }),
        };
        let pkg_name = match required_string(raw.get1("pkg_name")) {
            Ok(v) => v,
            Err(kind) => return Err(MalformedRecord { field: String::from_str("pkg_name"), kind }),
        };
        let pkg_family = match empty_is_none(raw.get1("pkg_family")) {
            Ok(v) => v,
            Err(kind) => return Err(MalformedRecord {
                field: String::from_str("pkg_family"),
                kind,
            }),
        };
        let pkg_type = match empty_is_none(raw.get1("pkg_type")) {
            Ok(v) => v,
            Err(kind) => return Err(MalformedRecord { field: String::from_str("pkg_type"), kind }),
        };
        let pkg_webpage = match empty_is_none(raw.get1("pkg_webpage")) {
            Ok(v) => v,
            Err(kind) => return Err(MalformedRecord {
                field: String::from_str("pkg_webpage"),
                kind,
            }),
        };
        let description = match required_string(raw.get1("description")) {
            Ok(v) => v,
            Err(kind) => return Err(MalformedRecord {
                field: String::from_str("description"),
                kind,
            }),
        };
        let version = match required_string(raw.get1("version")) {
            Ok(v) => v,
            Err(kind) => return Err(MalformedRecord { field: String::from_str("version"), kind }),
        };
        let version_upstream = match empty_is_none(raw.get1("version_upstream")) {
            Ok(v) => v,
            Err(kind) => return Err(MalformedRecord {
                field: String::from_str("version_upstream"),
                kind,
            }),
        };
        let download_url = match required_string(raw.get1("download_url")) {
            Ok(v) => v,
            Err(kind) => return Err(MalformedRecord {
                field: String::from_str("download_url"),
                kind,
            }),
        };
        let size_raw = match optional_u64(raw.get1("size_raw")) {
            Ok(v) => v,
            Err(kind) => return Err(MalformedRecord { field: String::from_str("size_raw"), kind }),
        };
        let ghcr_pkg = match empty_is_none(raw.get1("ghcr_pkg")) {
            Ok(v) => v,
            Err(kind) => return Err(MalformedRecord { field: String::from_str("ghcr_pkg"), kind }),
        };
        let ghcr_size_raw = match optional_u64(raw.get1("ghcr_size_raw")) {
            Ok(v) => v,
            Err(kind) => return Err(MalformedRecord {
                field: String::from_str("ghcr_size_raw"),
                kind,
            }),
        };
        let ghcr_files = match string_list(raw.get1("ghcr_files")) {
            Ok(v) => v,
            Err(kind) => return Err(MalformedRecord {
                field: String::from_str("ghcr_files"),
                kind,
            }),
        };
        let ghcr_blob = match empty_is_none(raw.get1("ghcr_blob")) {
            Ok(v) => v,
            Err(kind) => return Err(MalformedRecord {
                field: String::from_str("ghcr_blob"),
                kind,
            }),
        };
        let ghcr_url = match empty_is_none(raw.get1("ghcr_url")) {
            Ok(v) => v,
            Err(kind) => return Err(MalformedRecord { field: String::from_str("ghcr_url"), kind }),
        };
        let src_urls = match string_list(raw.get2("src_urls", "src_url")) {
            Ok(v) => v,
            Err(kind) => return Err(MalformedRecord { field: String::from_str("src_urls"), kind }),
        };
        let homepages = match string_list(raw.get2("homepages", "homepage")) {
            Ok(v) => v,
            Err(kind) => return Err(MalformedRecord {
                field: String::from_str("homepages"),
                kind,
            }),
        };
        let licenses = match string_list(raw.get2("licenses", "license")) {
            Ok(v) => v,
            Err(kind) => return Err(MalformedRecord { field: String::from_str("licenses"), kind }),
        };
        let maintainers = match string_list(raw.get2("maintainers", "maintainer")) {
            Ok(v) => v,
            Err(kind) => return Err(MalformedRecord {
                field: String::from_str("maintainers"),
                kind,
            }),
        };
        let notes = match string_list(raw.get2("notes", "note")) {
            Ok(v) => v,
            Err(kind) => return Err(MalformedRecord { field: String::from_str("notes"), kind }),
        };
        let tags = match string_list(raw.get2("tags", "tag")) {
            Ok(v) => v,
            Err(kind) => return Err(MalformedRecord { field: String::from_str("tags"), kind }),
        };
        let bsum = match empty_is_none(raw.get1("bsum")) {
            Ok(v) => v,
            Err(kind) => return Err(MalformedRecord { field: String::from_str("bsum"), kind }),
        };
        let shasum = match empty_is_none(raw.get1("shasum")) {
            Ok(v) => v,
            Err(kind) => return Err(MalformedRecord { field: String::from_str("shasum"), kind }),
        };
        let build_id = match empty_is_none(raw.get1("build_id")) {
            Ok(v) => v,
            Err(kind) => return Err(MalformedRecord { field: String::from_str("build_id"), kind }),
        };
        let build_date = match empty_is_none(raw.get1("build_date")) {
            Ok(v) => v,
            Err(kind) => return Err(MalformedRecord {
                field: String::from_str("build_date"),
                kind,
            }),
        };
        let build_action = match empty_is_none(raw.get2("build_action", "build_gha")) {
            Ok(v) => v,
            Err(kind) => return Err(MalformedRecord {
                field: String::from_str("build_action"),
                kind,
            }),
        };
        let build_script = match empty_is_none(raw.get1("build_script")) {
            Ok(v) => v,
            Err(kind) => return Err(MalformedRecord {
                field: String::from_str("build_script"),
                kind,
            }),
        };
        let build_log = match empty_is_none(raw.get1("build_log")) {
            Ok(v) => v,
            Err(kind) => return Err(MalformedRecord {
                field: String::from_str("build_log"),
                kind,
            }),
        };
        let categories = match string_list(raw.get2("categories", "category")) {
            Ok(v) => v,
            Err(kind) => return Err(MalformedRecord {
                field: String::from_str("categories"),
                kind,
            }),
        };
        let provides = match string_list(raw.get1("provides")) {
            Ok(v) => v,
            Err(kind) => return Err(MalformedRecord { field: String::from_str("provides"), kind }),
        };
        let icon = normalize_resource(raw.get1("icon"));
        let desktop = normalize_resource(raw.get1("desktop"));
        let appstream = normalize_resource(raw.get1("appstream"));
        let app_id = match empty_is_none(raw.get1("app_id")) {
            Ok(v) => v,
            Err(kind) => return Err(MalformedRecord { field: String::from_str("app_id"), kind }),
        };
        let download_count = match optional_u64(raw.get1("download_count")) {
            Ok(v) => v,
            Err(kind) => return Err(MalformedRecord {
                field: String::from_str("download_count"),
                kind,
            }),
        };
        let download_count_week = match optional_u64(raw.get1("download_count_week")) {
            Ok(v) => v,
            Err(kind) => return Err(MalformedRecord {
                field: String::from_str("download_count_week"),
                kind,
            }),
        };
        let download_count_month = match optional_u64(raw.get1("download_count_month")) {
            Ok(v) => v,
            Err(kind) => return Err(MalformedRecord {
                field: String::from_str("download_count_month"),
                kind,
            }),
        };
        let repology = match string_list(raw.get1("repology")) {
            Ok(v) => v,
            Err(kind) => return Err(MalformedRecord { field: String::from_str("repology"), kind }),
        };
        let snapshots = match string_list(raw.get1("snapshots")) {
            Ok(v) => v,
            Err(kind) => return Err(MalformedRecord {
                field: String::from_str("snapshots"),
                kind,
            }),
        };
        let replaces = match string_list(raw.get1("replaces")) {
            Ok(v) => v,
            Err(kind) => return Err(MalformedRecord { field: String::from_str("replaces"), kind }),
        };
        let deprecated = match flexible_bool(raw.get1("deprecated")) {
            Ok(v) => v,
            Err(kind) => return Err(MalformedRecord {
                field: String::from_str("deprecated"),
                kind,
            }),
        };
        let portable = match flexible_bool(raw.get1("portable")) {
            Ok(v) => v,
            Err(kind) => return Err(MalformedRecord { field: String::from_str("portable"), kind }),
        };
        let desktop_integration = match flexible_bool(raw.get1("desktop_integration")) {
            Ok(v) => v,
            Err(kind) => return Err(MalformedRecord {
                field: String::from_str("desktop_integration"),
                kind,
            }),
        };
        let recurse_provides = match flexible_bool(raw.get1("recurse_provides")) {
            Ok(v) => v,
            Err(kind) => return Err(MalformedRecord {
                field: String::from_str("recurse_provides"),
                kind,
            }),
        };
        let soar_syms = match flexible_bool(raw.get1("soar_syms")) {
            Ok(v) => v,
            Err(kind) => return Err(MalformedRecord {
                field: String::from_str("soar_syms"),
                kind,
            }),
        };
        Ok(RemotePackage {
            disabled,
            disabled_reason,
            rank,
            pkg,
            pkg_id,
            pkg_name,
            pkg_family,
            pkg_type,
            pkg_webpage,
            description,
            version,
            version_upstream,
            download_url,
            size_raw,
            ghcr_pkg,
            ghcr_size_raw,
            ghcr_files,
            ghcr_blob,
            ghcr_url,
            src_urls,
            homepages,
            licenses,
            maintainers,
            notes,
            tags,
            bsum,
            shasum,
            build_id,
            build_date,
            build_action,
            build_script,
            build_log,
            categories,
            provides,
            icon,
            desktop,
            appstream,
            app_id,
            download_count,
            download_count_week,
            download_count_month,
            repology,
            snapshots,
            replaces,
            deprecated,
            portable,
            desktop_integration,
            recurse_provides,
            soar_syms,
        })
    }
}

} // verus!
