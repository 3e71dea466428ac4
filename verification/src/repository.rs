//! The import engine: consumes normalized package records and builds a
//! deduplicated relational store state inside one in-memory value, which
//! a caller persists atomically.
//!
//! The store keeps one repository row (first write wins), maintainer rows
//! unique by contact, package rows unique by the natural key
//! `(pkg_id, pkg_name, version)`, and package-maintainer links unique by
//! pair. Re-importing a record whose natural key is already present
//! changes nothing: in particular no maintainer processing happens for it.

use vstd::prelude::*;
use crate::deserializers::svw;
use crate::models::{
    derive_provides, pvs, rp_eq, rv, spec_derive, PackageProvide, ProvideV, RemotePackage,
    RemotePackageV,
};
use crate::text::{eq_str, find1, find_char, lemma_find1_props};

verus! {

/// The destination feed's identity.
#[derive(Debug, Clone, PartialEq)]
pub struct RepoRow {
    pub name: String,
    pub etag: String,
}

/// One maintainer entity; the contact is its unique key.
#[derive(Debug, Clone, PartialEq)]
pub struct MaintainerRow {
    pub id: u64,
    pub name: String,
    pub contact: String,
}

/// One package-maintainer association.
#[derive(Debug, Clone, Copy, PartialEq, Eq)]
pub struct LinkRow {
    pub maintainer_id: u64,
    pub package_id: u64,
}

/// One stored package: the normalized record and its derived
/// provide-relations.
#[derive(Debug, Clone, PartialEq)]
pub struct PackageRow {
    pub id: u64,
    pub record: RemotePackage,
    pub provides: Vec<PackageProvide>,
}

/// The outcome of one package insert: a fresh row, or a natural-key
/// conflict that was skipped.
#[derive(Debug, Clone, Copy, PartialEq, Eq)]
pub enum InsertOutcome {
    Inserted(u64),
    AlreadyExists,
}

/// The whole store state for one destination feed.
#[derive(Debug, Clone, PartialEq)]
pub struct PackageRepository {
    pub repo_name: String,
    pub repo: Option<RepoRow>,
    pub maintainers: Vec<MaintainerRow>,
    pub packages: Vec<PackageRow>,
    pub links: Vec<LinkRow>,
}

/// The mathematical value of a maintainer row.
#[verifier::ext_equal]
pub struct MaintainerV {
    pub id: u64,
    pub name: Seq<char>,
    pub contact: Seq<char>,
}

/// The value of one maintainer row.
pub open spec fn mv(m: MaintainerRow) -> MaintainerV {
    MaintainerV { id: m.id, name: m.name@, contact: m.contact@ }
}

/// The values of a sequence of maintainer rows.
pub open spec fn mvs(ms: Seq<MaintainerRow>) -> Seq<MaintainerV> {
    ms.map_values(|m: MaintainerRow| mv(m))
}

/// Two records share the natural key `(pkg_id, pkg_name, version)`.
pub open spec fn same_key(a: RemotePackage, b: RemotePackage) -> bool {
    a.pkg_id@ == b.pkg_id@ && a.pkg_name@ == b.pkg_name@ && a.version@ == b.version@
}

/// A row with the record's natural key is already stored.
pub open spec fn has_key(ps: Seq<PackageRow>, r: RemotePackage) -> bool {
    exists|i: int| 0 <= i < ps.len() && same_key((#[trigger] ps[i]).record, r)
}

/// The store's invariant: row ids are their one-based positions,
/// maintainer contacts are unique, natural keys are unique, links are
/// unique pairs and refer to existing rows.
pub open spec fn wf(s: PackageRepository) -> bool {
    &&& forall|i: int| 0 <= i < s.maintainers@.len() ==> (#[trigger] s.maintainers@[i]).id == i + 1
    &&& forall|i: int, j: int|
        0 <= i < j < s.maintainers@.len() ==> (#[trigger] s.maintainers@[i]).contact@ != (
        #[trigger] s.maintainers@[j]).contact@
    &&& forall|i: int| 0 <= i < s.packages@.len() ==> (#[trigger] s.packages@[i]).id == i + 1
    &&& forall|i: int, j: int|
        0 <= i < j < s.packages@.len() ==> !same_key(
            (#[trigger] s.packages@[i]).record,
            (#[trigger] s.packages@[j]).record,
        )
    &&& forall|i: int|
        0 <= i < s.links@.len() ==> 1 <= (#[trigger] s.links@[i]).maintainer_id
            <= s.maintainers@.len() && 1 <= s.links@[i].package_id <= s.packages@.len()
    &&& forall|i: int, j: int|
        0 <= i < j < s.links@.len() ==> (#[trigger] s.links@[i]) != (#[trigger] s.links@[j])
}

// --- maintainer strings --------------------------------------------------

/// A maintainer string of the strict shape `name (contact)`: a non-empty
/// name without parentheses, one space, an opening parenthesis, a
/// non-empty contact without parentheses, and a closing parenthesis as
/// the last character, with nothing after it.
pub open spec fn maint_shape(s: Seq<char>) -> bool {
    let i = find1(s, '(');
    &&& i >= 2
    &&& s[i - 1] == ' '
    &&& forall|k: int| 0 <= k < i - 1 ==> s[k] != ')'
    &&& s.len() >= i + 3
    &&& s[s.len() - 1] == ')'
    &&& forall|k: int| i + 1 <= k < s.len() - 1 ==> s[k] != ')' && s[k] != '('
}

/// The name part of a well-shaped maintainer string.
pub open spec fn maint_name(s: Seq<char>) -> Seq<char> {
    s.subrange(0, find1(s, '(') - 1)
}

/// The contact part of a well-shaped maintainer string.
pub open spec fn maint_contact(s: Seq<char>) -> Seq<char> {
    s.subrange(find1(s, '(') + 1, s.len() - 1)
}

/// The declarative reading of the strict maintainer pattern: the string
/// is a non-empty parenthesis-free name, one space, an opening
/// parenthesis, a non-empty parenthesis-free contact, and a closing
/// parenthesis, nothing after.
pub open spec fn maint_split(s: Seq<char>, n: Seq<char>, c: Seq<char>) -> bool {
    &&& s == n + seq![' ', '('] + c + seq![')']
    &&& n.len() > 0
    &&& c.len() > 0
    &&& forall|i: int| 0 <= i < n.len() ==> n[i] != '(' && #[trigger] n[i] != ')'
    &&& forall|i: int| 0 <= i < c.len() ==> c[i] != '(' && #[trigger] c[i] != ')'
}

/// Law: a maintainer string matches the strict shape exactly when it
/// splits as `name (contact)`, and then the split is unique and is what
/// resolution returns.
pub proof fn lemma_maint_shape_is_split(s: Seq<char>)
    ensures
        maint_shape(s) <==> exists|n: Seq<char>, c: Seq<char>| maint_split(s, n, c),
        maint_shape(s) ==> maint_split(s, maint_name(s), maint_contact(s)),
        forall|n: Seq<char>, c: Seq<char>|
            maint_split(s, n, c) ==> n == maint_name(s) && c == maint_contact(s),
{
    lemma_find1_props(s, '(');
    if maint_shape(s) {
        let i = find1(s, '(');
        let n = maint_name(s);
        let c = maint_contact(s);
        assert forall|t: int| 0 <= t < n.len() implies n[t] != '(' && #[trigger] n[t] != ')' by {
            assert(n[t] == s[t]);
        }
        assert forall|t: int| 0 <= t < c.len() implies c[t] != '(' && #[trigger] c[t] != ')' by {
            assert(c[t] == s[i + 1 + t]);
        }
        assert(s =~= n + seq![' ', '('] + c + seq![')']);
        assert(maint_split(s, n, c));
    }
    assert forall|n: Seq<char>, c: Seq<char>| maint_split(s, n, c) implies maint_shape(s) && n
        == maint_name(s) && c == maint_contact(s) by {
        let w = n + seq![' ', '('] + c + seq![')'];
        assert(s.len() == n.len() + c.len() + 3);
        assert forall|t: int| 0 <= t < s.len() implies s[t] == w[t] by {}
        assert(s[n.len() as int + 1] == '(');
        assert forall|k: int| 0 <= k < n.len() + 1 implies s[k] != '(' by {
            if k < n.len() {
                assert(s[k] == n[k]);
            } else {
                assert(s[k] == ' ');
            }
        }
        crate::text::lemma_find1_at(s, '(', n.len() as int + 1);
        let i: int = n.len() as int + 1;
        assert(s[i - 1] == ' ');
        assert forall|k: int| 0 <= k < i - 1 implies s[k] != ')' by {
            assert(s[k] == n[k]);
        }
        assert(s[s.len() - 1] == ')');
        assert forall|k: int| i + 1 <= k < s.len() - 1 implies s[k] != ')' && s[k] != '(' by {
            assert(s[k] == c[k - i - 1]);
        }
        assert(maint_shape(s));
        assert(n =~= maint_name(s));
        assert(c =~= maint_contact(s));
    }
}

/// What a maintainer string resolves to, if anything.
pub open spec fn parse_maint(s: Seq<char>) -> Option<(Seq<char>, Seq<char>)> {
    if maint_shape(s) {
        Some((maint_name(s), maint_contact(s)))
    } else {
        None
    }
}

/// The index of the first maintainer with the given contact, or `-1`.
pub open spec fn contact_find(ms: Seq<MaintainerV>, c: Seq<char>) -> int
    decreases ms.len(),
{
    if ms.len() == 0 {
        -1
    } else if ms[0].contact == c {
        0
    } else {
        let r = contact_find(ms.drop_first(), c);
        if r < 0 {
            -1
        } else {
            r + 1
        }
    }
}

pub proof fn lemma_contact_find_at(ms: Seq<MaintainerV>, c: Seq<char>, i: int)
    requires
        0 <= i < ms.len(),
        ms[i].contact == c,
        forall|j: int| 0 <= j < i ==> (#[trigger] ms[j]).contact != c,
    ensures
        contact_find(ms, c) == i,
    decreases ms.len(),
{
    if i > 0 {
        assert(ms[0].contact != c);
        assert forall|j: int| 0 <= j < i - 1 implies (#[trigger] ms.drop_first()[j]).contact != c by {
            assert(ms[j + 1].contact != c);
        }
        lemma_contact_find_at(ms.drop_first(), c, i - 1);
        assert(ms.drop_first()[i - 1] == ms[i]);
    }
}

pub proof fn lemma_contact_find_none(ms: Seq<MaintainerV>, c: Seq<char>)
    requires
        forall|j: int| 0 <= j < ms.len() ==> (#[trigger] ms[j]).contact != c,
    ensures
        contact_find(ms, c) == -1,
    decreases ms.len(),
{
    if ms.len() > 0 {
        assert(ms[0].contact != c);
        assert forall|j: int| 0 <= j < ms.len() - 1 implies (#[trigger] ms.drop_first()[j]).contact
            != c by {
            assert(ms[j + 1].contact != c);
        }
        lemma_contact_find_none(ms.drop_first(), c);
    }
}

/// The effect of one maintainer string on the maintainer rows and links
/// of a freshly inserted package `pid`: a non-matching string changes
/// nothing; a matching one resolves or creates the maintainer by contact
/// and links it to the package, a duplicate link being dropped.
pub open spec fn step_maint(
    ms: Seq<MaintainerV>,
    ls: Seq<LinkRow>,
    s: Seq<char>,
    pid: u64,
) -> (Seq<MaintainerV>, Seq<LinkRow>) {
    match parse_maint(s) {
        None => (ms, ls),
        Some((n, c)) => {
            let j = contact_find(ms, c);
            let ms2 = if j >= 0 {
                ms
            } else {
                ms.push(MaintainerV { id: (ms.len() + 1) as u64, name: n, contact: c })
            };
            let mid = if j >= 0 {
                ms[j].id
            } else {
                (ms.len() + 1) as u64
            };
            let l = LinkRow { maintainer_id: mid, package_id: pid };
            let ls2 = if ls.contains(l) {
                ls
            } else {
                ls.push(l)
            };
            (ms2, ls2)
        },
    }
}

/// The effect of a package's maintainer strings, in order.
pub open spec fn apply_maints(
    ms: Seq<MaintainerV>,
    ls: Seq<LinkRow>,
    strs: Seq<Seq<char>>,
    pid: u64,
) -> (Seq<MaintainerV>, Seq<LinkRow>)
    decreases strs.len(),
{
    if strs.len() == 0 {
        (ms, ls)
    } else {
        let prev = apply_maints(ms, ls, strs.drop_last(), pid);
        step_maint(prev.0, prev.1, strs.last(), pid)
    }
}

/// The total number of maintainer strings across a batch.
pub open spec fn total_maints(rs: Seq<RemotePackage>) -> nat
    decreases rs.len(),
{
    if rs.len() == 0 {
        0
    } else {
        total_maints(rs.drop_last()) + rs.last().maintainers@.len()
    }
}

proof fn lemma_total_maints_prefix(rs: Seq<RemotePackage>, i: int, j: int)
    requires
        0 <= i <= j <= rs.len(),
    ensures
        total_maints(rs.subrange(0, i)) <= total_maints(rs.subrange(0, j)),
    decreases j - i,
{
    if i < j {
        lemma_total_maints_prefix(rs, i, j - 1);
        assert(rs.subrange(0, j).drop_last() =~= rs.subrange(0, j - 1));
    }
}

/// Law: a well-formed store never holds two maintainer rows with the
/// same contact — however many packages list that contact, exactly one
/// maintainer entity exists for it.
pub proof fn lemma_contact_unique(s: PackageRepository, i: int, j: int)
    requires
        wf(s),
        0 <= i < s.maintainers@.len(),
        0 <= j < s.maintainers@.len(),
        s.maintainers@[i].contact@ == s.maintainers@[j].contact@,
    ensures
        i == j,
{
}

/// Law: a well-formed store never holds two package rows with the same
/// natural key — however often a record is imported, one row exists for
/// its key.
pub proof fn lemma_natural_key_unique(s: PackageRepository, i: int, j: int)
    requires
        wf(s),
        0 <= i < s.packages@.len(),
        0 <= j < s.packages@.len(),
        same_key(s.packages@[i].record, s.packages@[j].record),
    ensures
        i == j,
{
}

/// A prefix of a prefix is a prefix: rows once stored stay in place.
proof fn lemma_prefix_trans<T>(a: Seq<T>, b: Seq<T>, c: Seq<T>)
    requires
        a.len() <= b.len() <= c.len(),
        b.subrange(0, a.len() as int) == a,
        c.subrange(0, b.len() as int) == b,
    ensures
        c.subrange(0, a.len() as int) == a,
{
    assert forall|i: int| 0 <= i < a.len() implies c[i] == a[i] by {
        assert(b.subrange(0, a.len() as int)[i] == b[i]);
        assert(c.subrange(0, b.len() as int)[i] == c[i]);
    }
    assert(c.subrange(0, a.len() as int) =~= a);
}

/// Every record of the batch already has its natural key in the store,
/// and the repository row exists: the state an import leaves behind, and
/// the state in which a repeated import changes nothing.
pub open spec fn saturated(s: PackageRepository, metadata: Seq<RemotePackage>) -> bool {
    s.repo is Some && forall|k: int|
        0 <= k < metadata.len() ==> has_key(s.packages@, #[trigger] metadata[k])
}

/// The mathematical value of a stored package row.
#[verifier::ext_equal]
pub struct PackageV {
    pub id: u64,
    pub record: RemotePackageV,
    pub provides: Seq<ProvideV>,
}

/// The value of one package row.
pub open spec fn pkv(row: PackageRow) -> PackageV {
    PackageV { id: row.id, record: rv(row.record), provides: pvs(row.provides@) }
}

/// The values of a sequence of package rows.
pub open spec fn pkvs(ps: Seq<PackageRow>) -> Seq<PackageV> {
    ps.map_values(|row: PackageRow| pkv(row))
}

/// A row with the record's natural key, over row values.
pub open spec fn has_key_v(ps: Seq<PackageV>, r: RemotePackage) -> bool {
    exists|i: int|
        0 <= i < ps.len() && (#[trigger] ps[i]).record.pkg_id == r.pkg_id@
            && ps[i].record.pkg_name == r.pkg_name@ && ps[i].record.version == r.version@
}

/// The effect of importing one record on the store's values: a record
/// whose natural key is present changes nothing; a fresh record appends
/// its row, with the next id and its derived provide-relations, and
/// applies its maintainer strings.
pub open spec fn step_import(
    ps: Seq<PackageV>,
    ms: Seq<MaintainerV>,
    ls: Seq<LinkRow>,
    r: RemotePackage,
) -> (Seq<PackageV>, Seq<MaintainerV>, Seq<LinkRow>) {
    if has_key_v(ps, r) {
        (ps, ms, ls)
    } else {
        let id = (ps.len() + 1) as u64;
        let row = PackageV {
            id,
            record: rv(r),
            provides: spec_derive(svw(r.provides@), r.pkg_name@),
        };
        let ml = apply_maints(ms, ls, svw(r.maintainers@), id);
        (ps.push(row), ml.0, ml.1)
    }
}

/// The effect of a batch of records, in input order.
pub open spec fn apply_import(
    ps: Seq<PackageV>,
    ms: Seq<MaintainerV>,
    ls: Seq<LinkRow>,
    rs: Seq<RemotePackage>,
) -> (Seq<PackageV>, Seq<MaintainerV>, Seq<LinkRow>)
    decreases rs.len(),
{
    if rs.len() == 0 {
        (ps, ms, ls)
    } else {
        let prev = apply_import(ps, ms, ls, rs.drop_last());
        step_import(prev.0, prev.1, prev.2, rs.last())
    }
}

/// Key presence reads the same on rows and on their values.
proof fn lemma_has_key_v(ps: Seq<PackageRow>, r: RemotePackage)
    ensures
        has_key(ps, r) == has_key_v(pkvs(ps), r),
{
    if has_key(ps, r) {
        let i = choose|i: int| 0 <= i < ps.len() && same_key((#[trigger] ps[i]).record, r);
        assert(pkvs(ps)[i] == pkv(ps[i]));
        assert(has_key_v(pkvs(ps), r));
    }
    if has_key_v(pkvs(ps), r) {
        let i = choose|i: int|
            0 <= i < pkvs(ps).len() && (#[trigger] pkvs(ps)[i]).record.pkg_id == r.pkg_id@
                && pkvs(ps)[i].record.pkg_name == r.pkg_name@ && pkvs(ps)[i].record.version
                == r.version@;
        assert(pkvs(ps)[i] == pkv(ps[i]));
        assert(same_key(ps[i].record, r));
        assert(has_key(ps, r));
    }
}

/// Whether the vector holds the given link.
fn contains_link(links: &Vec<LinkRow>, mid: u64, pid: u64) -> (r: bool)
    ensures
        r == links@.contains(LinkRow { maintainer_id: mid, package_id: pid }),
{
    let n = links.len();
    for i in 0..n
        invariant
            n == links@.len(),
            forall|k: int|
                0 <= k < i ==> (#[trigger] links@[k]) != (LinkRow {
                    maintainer_id: mid,
                    package_id: pid,
                }),
    {
        if links[i].maintainer_id == mid && links[i].package_id == pid {
            assert(links@[i as int] == (LinkRow { maintainer_id: mid, package_id: pid }));
            return true;
        }
    }
    assert(!links@.contains(LinkRow { maintainer_id: mid, package_id: pid }));
    false
}

impl PackageRepository {
    /// An empty store for the named destination feed.
    pub fn new(repo_name: String) -> (s: Self)
        ensures
            wf(s),
            s.repo_name@ == repo_name@,
            s.repo is None,
            s.maintainers@.len() == 0,
            s.packages@.len() == 0,
            s.links@.len() == 0,
    {
        PackageRepository {
            repo_name,
            repo: None,
            maintainers: Vec::new(),
            packages: Vec::new(),
            links: Vec::new(),
        }
    }

    /// Registers the repository identity once: if a repository row
    /// already exists, whatever its name and etag, nothing changes —
    /// the first write wins and an etag is never refreshed.
    pub fn get_or_create_repo(&mut self, name: &str, etag: &str)
        ensures
            old(self).repo is Some ==> *final(self) == *old(self),
            final(self).repo is Some,
            old(self).repo is None ==> final(self).repo.unwrap().name@ == name@
                && final(self).repo.unwrap().etag@ == etag@,
            final(self).repo_name == old(self).repo_name,
            final(self).maintainers == old(self).maintainers,
            final(self).packages == old(self).packages,
            final(self).links == old(self).links,
    {
        if self.repo.is_none() {
            self.repo = Some(
                RepoRow { name: String::from_str(name), etag: String::from_str(etag) },
            );
        }
    }

    /// Resolves a maintainer by contact, creating the row on first
    /// sighting; returns the maintainer's id. An existing contact is
    /// reused whatever name it arrives under this time.
    pub fn get_or_create_maintainer(&mut self, name: &str, contact: &str) -> (id: u64)
        requires
            wf(*old(self)),
            old(self).maintainers@.len() < 0xffff_ffff_ffff_ffff,
        ensures
            wf(*final(self)),
            final(self).repo == old(self).repo,
            final(self).repo_name == old(self).repo_name,
            final(self).packages == old(self).packages,
            final(self).links == old(self).links,
            contact_find(mvs(old(self).maintainers@), contact@) >= 0 ==> *final(self) == *old(self) && id == mvs(old(self).maintainers@)[contact_find(
                mvs(old(self).maintainers@),
                contact@,
            )].id,
            contact_find(mvs(old(self).maintainers@), contact@) < 0 ==> mvs(
                final(self).maintainers@,
            ) == mvs(old(self).maintainers@).push(
                MaintainerV {
                    id: (old(self).maintainers@.len() + 1) as u64,
                    name: name@,
                    contact: contact@,
                },
            ) && id == (old(self).maintainers@.len() + 1) as u64,
            1 <= id <= final(self).maintainers@.len(),
            old(self).maintainers@.len() <= final(self).maintainers@.len() <= old(
                self,
            ).maintainers@.len() + 1,
            final(self).maintainers@.subrange(0, old(self).maintainers@.len() as int) == old(
                self,
            ).maintainers@,
    {
        let n = self.maintainers.len();
        for i in 0..n
            invariant
                n == self.maintainers@.len(),
                wf(*old(self)),
                *self == *old(self),
                forall|k: int|
                    0 <= k < i ==> (#[trigger] self.maintainers@[k]).contact@ != contact@,
        {
            if eq_str(self.maintainers[i].contact.as_str(), contact) {
                proof {
                    assert forall|j: int| 0 <= j < i implies (#[trigger] mvs(
                        self.maintainers@,
                    )[j]).contact != contact@ by {
                        assert(mvs(self.maintainers@)[j] == mv(self.maintainers@[j]));
                    }
                    assert(mvs(self.maintainers@)[i as int].contact == contact@);
                    lemma_contact_find_at(mvs(self.maintainers@), contact@, i as int);
                    assert(self.maintainers@.subrange(0, self.maintainers@.len() as int)
                        =~= self.maintainers@);
                }
                return self.maintainers[i].id;
            }
        }
        proof {
            assert forall|j: int| 0 <= j < mvs(self.maintainers@).len() implies (#[trigger] mvs(
                self.maintainers@,
            )[j]).contact != contact@ by {
                assert(mvs(self.maintainers@)[j] == mv(self.maintainers@[j]));
            }
            lemma_contact_find_none(mvs(self.maintainers@), contact@);
        }
        let id = self.maintainers.len() as u64 + 1;
        self.maintainers.push(
            MaintainerRow { id, name: String::from_str(name), contact: String::from_str(contact) },
        );
        proof {
            assert(mvs(final(self).maintainers@) =~= mvs(old(self).maintainers@).push(
                MaintainerV {
                    id: (old(self).maintainers@.len() + 1) as u64,
                    name: name@,
                    contact: contact@,
                },
            ));
            assert forall|a: int, b: int|
                0 <= a < b < final(self).maintainers@.len() implies (#[trigger] final(self).maintainers@[a]).contact@ != (#[trigger] final(self).maintainers@[b]).contact@ by {
                if b == final(self).maintainers@.len() - 1 {
                    assert(final(self).maintainers@[a] == old(self).maintainers@[a]);
                }
            }
            assert(final(self).maintainers@.subrange(0, old(self).maintainers@.len() as int)
                =~= old(self).maintainers@);
        }
        id
    }

    /// Resolves a maintainer string of the strict shape `name (contact)`;
    /// any other string resolves to nothing and is dropped by the caller.
    pub fn extract_name_and_contact(&self, input: &str) -> (r: Option<(String, String)>)
        ensures
            (r is Some) == maint_shape(input@),
            r matches Some(p) ==> p.0@ == maint_name(input@) && p.1@ == maint_contact(input@),
    {
        let n = input.unicode_len();
        let i = match find_char(input, '(') {
            Some(i) => i,
            None => {
                return None;
            },
        };
        if i < 2 {
            return None;
        }
        if input.get_char(i - 1) != ' ' {
            return None;
        }
        for k in 0..i - 1
            invariant
                n == input@.len(),
                2 <= i < n,
                find1(input@, '(') == i,
                forall|t: int| 0 <= t < k ==> input@[t] != ')',
        {
            if input.get_char(k) == ')' {
                return None;
            }
        }
        if n - i < 3 {
            return None;
        }
        if input.get_char(n - 1) != ')' {
            return None;
        }
        for k in i + 1..n - 1
            invariant
                n == input@.len(),
                2 <= i < n,
                n - i >= 3,
                find1(input@, '(') == i,
                forall|t: int| i + 1 <= t < k ==> input@[t] != ')' && input@[t] != '(',
        {
            let c = input.get_char(k);
            if c == ')' || c == '(' {
                return None;
            }
        }
        let name = String::from_str(input.substring_char(0, i - 1));
        let contact = String::from_str(input.substring_char(i + 1, n - 1));
        Some((name, contact))
    }

    /// Inserts one package row keyed by its natural key. On a key
    /// conflict the store is left entirely unchanged: no maintainer
    /// processing happens for a record that is already present. Only a
    /// fresh insert derives the provide-relations and resolves, creates
    /// and links the record's well-shaped maintainers.
    pub fn insert_package(&mut self, package: &RemotePackage) -> (r: InsertOutcome)
        requires
            wf(*old(self)),
            old(self).packages@.len() < 0xffff_ffff_ffff_ffff,
            old(self).maintainers@.len() + package.maintainers@.len() < 0xffff_ffff_ffff_ffff,
        ensures
            wf(*final(self)),
            final(self).repo == old(self).repo,
            final(self).repo_name == old(self).repo_name,
            has_key(old(self).packages@, *package) ==> *final(self) == *old(self) && r
                == InsertOutcome::AlreadyExists,
            !has_key(old(self).packages@, *package) ==> final(self).packages@ == old(self).packages@.push(final(self).packages@.last()) && final(self).packages@.last().id == old(self).packages@.len() + 1 && rp_eq(final(self).packages@.last().record, *package) && pvs(
                final(self).packages@.last().provides@,
            ) == spec_derive(svw(package.provides@), package.pkg_name@) && r
                == InsertOutcome::Inserted((old(self).packages@.len() + 1) as u64) && mvs(
                final(self).maintainers@,
            ) == apply_maints(
                mvs(old(self).maintainers@),
                old(self).links@,
                svw(package.maintainers@),
                (old(self).packages@.len() + 1) as u64,
            ).0 && final(self).links@ == apply_maints(
                mvs(old(self).maintainers@),
                old(self).links@,
                svw(package.maintainers@),
                (old(self).packages@.len() + 1) as u64,
            ).1,
            old(self).packages@.len() <= final(self).packages@.len(),
            final(self).packages@.subrange(0, old(self).packages@.len() as int) == old(self).packages@,
            final(self).packages@.len() <= old(self).packages@.len() + 1,
            final(self).maintainers@.len() <= old(self).maintainers@.len()
                + package.maintainers@.len(),
            old(self).maintainers@.len() <= final(self).maintainers@.len(),
            final(self).maintainers@.subrange(0, old(self).maintainers@.len() as int) == old(
                self,
            ).maintainers@,
            old(self).links@.len() <= final(self).links@.len() <= old(self).links@.len()
                + package.maintainers@.len(),
            final(self).links@.subrange(0, old(self).links@.len() as int) == old(self).links@,
    {
        let n = self.packages.len();
        for i in 0..n
            invariant
                n == self.packages@.len(),
                wf(*old(self)),
                *self == *old(self),
                forall|k: int|
                    0 <= k < i ==> !same_key((#[trigger] self.packages@[k]).record, *package),
        {
            let row = &self.packages[i];
            if eq_str(row.record.pkg_id.as_str(), package.pkg_id.as_str()) && eq_str(
                row.record.pkg_name.as_str(),
                package.pkg_name.as_str(),
            ) && eq_str(row.record.version.as_str(), package.version.as_str()) {
                proof {
                    assert(same_key(self.packages@[i as int].record, *package));
                    assert(self.packages@.subrange(0, self.packages@.len() as int)
                        =~= self.packages@);
                    assert(self.maintainers@.subrange(0, self.maintainers@.len() as int)
                        =~= self.maintainers@);
                    assert(self.links@.subrange(0, self.links@.len() as int) =~= self.links@);
                }
                return InsertOutcome::AlreadyExists;
            }
        }
        proof {
            assert(!has_key(self.packages@, *package));
        }
        let id = self.packages.len() as u64 + 1;
        let provides = derive_provides(&package.provides, package.pkg_name.as_str());
        let row = PackageRow { id, record: package.clone(), provides };
        self.packages.push(row);
        let ghost packs = self.packages@;
        let ghost m0 = mvs(old(self).maintainers@);
        let ghost l0 = old(self).links@;
        let ghost strs = svw(package.maintainers@);
        proof {
            assert(strs.subrange(0, 0) =~= Seq::<Seq<char>>::empty());
            assert(packs.subrange(0, old(self).packages@.len() as int) =~= old(self).packages@);
            assert(self.maintainers@.subrange(0, self.maintainers@.len() as int)
                =~= self.maintainers@);
            assert(self.links@.subrange(0, self.links@.len() as int) =~= self.links@);
        }
        let m = package.maintainers.len();
        for k in 0..m
            invariant
                m == package.maintainers@.len(),
                strs == svw(package.maintainers@),
                m0 == mvs(old(self).maintainers@),
                l0 == old(self).links@,
                old(self).packages@.len() < 0xffff_ffff_ffff_ffff,
                old(self).maintainers@.len() + package.maintainers@.len()
                    < 0xffff_ffff_ffff_ffff,
                self.packages@ == packs,
                packs == old(self).packages@.push(packs.last()),
                packs.last().id == old(self).packages@.len() + 1,
                packs.last().id == id,
                rp_eq(packs.last().record, *package),
                pvs(packs.last().provides@) == spec_derive(svw(package.provides@),
                    package.pkg_name@),
                id == old(self).packages@.len() + 1,
                self.repo == old(self).repo,
                self.repo_name == old(self).repo_name,
                wf(*self),
                mvs(self.maintainers@) == apply_maints(m0, l0, strs.subrange(0, k as int), id).0,
                self.links@ == apply_maints(m0, l0, strs.subrange(0, k as int), id).1,
                self.maintainers@.len() <= old(self).maintainers@.len() + k,
                old(self).maintainers@.len() <= self.maintainers@.len(),
                self.maintainers@.subrange(0, old(self).maintainers@.len() as int) == old(
                    self,
                ).maintainers@,
                old(self).links@.len() <= self.links@.len(),
                self.links@.len() <= old(self).links@.len() + k,
                self.links@.subrange(0, old(self).links@.len() as int) == old(self).links@,
                wf(*old(self)),
        {
            let ghost pre = apply_maints(m0, l0, strs.subrange(0, k as int), id);
            proof {
                assert(strs.subrange(0, k + 1).drop_last() =~= strs.subrange(0, k as int));
                assert(strs.subrange(0, k + 1).last() == package.maintainers@[k as int]@);
            }
            let s = &package.maintainers[k];
            match self.extract_name_and_contact(s.as_str()) {
                Some(nc) => {
                    let (mname, mcontact) = nc;
                    let ghost mbefore = self.maintainers@;
                    let mid = self.get_or_create_maintainer(mname.as_str(), mcontact.as_str());
                    proof {
                        if contact_find(pre.0, mcontact@) < 0 {
                            assert(mvs(self.maintainers@) == pre.0.push(
                                MaintainerV {
                                    id: (pre.0.len() + 1) as u64,
                                    name: mname@,
                                    contact: mcontact@,
                                },
                            ));
                        }
                    }
                    let ghost lbefore = self.links@;
                    if !contains_link(&self.links, mid, id) {
                        self.links.push(LinkRow { maintainer_id: mid, package_id: id });
                    }
                    proof {
                        lemma_prefix_trans(old(self).maintainers@, mbefore, self.maintainers@);
                        assert(self.links@.subrange(0, lbefore.len() as int) =~= lbefore);
                        lemma_prefix_trans(old(self).links@, lbefore, self.links@);
                        let cur = apply_maints(m0, l0, strs.subrange(0, k + 1), id);
                        assert(cur == step_maint(pre.0, pre.1, strs.subrange(0, k + 1).last(),
                            id));
                        assert(parse_maint(package.maintainers@[k as int]@) == Some(
                            (mname@, mcontact@),
                        ));
                        assert(mvs(self.maintainers@) =~= cur.0);
                        assert(self.links@ =~= cur.1);
                        assert forall|a: int, b: int|
                            0 <= a < b < self.links@.len() implies (#[trigger] self.links@[a]) != (
                            #[trigger] self.links@[b]) by {}
                    }
                },
                None => {
                    proof {
                        let cur = apply_maints(m0, l0, strs.subrange(0, k + 1), id);
                        assert(parse_maint(package.maintainers@[k as int]@) is None);
                        assert(cur == pre);
                    }
                },
            }
        }
        proof {
            assert(strs.subrange(0, m as int) =~= strs);
        }
        InsertOutcome::Inserted(id)
    }

    /// Imports a batch of normalized records for this store's feed, in
    /// input order: the repository identity is registered once (first
    /// write wins), then each record is inserted under its natural key,
    /// a conflicting record being skipped entirely.
    ///
    /// Importing is idempotent: the import leaves the store saturated for
    /// the batch, and importing a batch into a store already saturated
    /// for it — in particular, importing the identical batch twice —
    /// changes nothing, so row and link counts stay what one import made
    /// them.
    ///
    /// The resulting table values are exactly the fold of `step_import`
    /// over the batch: the rows are the prior rows followed by the first
    /// occurrence of each fresh natural key, in input order, each with
    /// its derived provide-relations and with its maintainer strings
    /// resolved, deduplicated by contact and linked.
    pub fn import_packages(&mut self, metadata: &[RemotePackage], etag: &str)
        requires
            wf(*old(self)),
            old(self).packages@.len() + metadata@.len() < 0xffff_ffff_ffff_ffff,
            old(self).maintainers@.len() + total_maints(metadata@) < 0xffff_ffff_ffff_ffff,
        ensures
            wf(*final(self)),
            final(self).repo_name == old(self).repo_name,
            final(self).repo is Some,
            old(self).repo is Some ==> final(self).repo == old(self).repo,
            old(self).repo is None ==> final(self).repo.unwrap().name@ == old(self).repo_name@
                && final(self).repo.unwrap().etag@ == etag@,
            saturated(*final(self), metadata@),
            final(self).packages@.subrange(0, old(self).packages@.len() as int) == old(self).packages@,
            old(self).packages@.len() <= final(self).packages@.len() <= old(self).packages@.len()
                + metadata@.len(),
            final(self).maintainers@.subrange(0, old(self).maintainers@.len() as int) == old(
                self,
            ).maintainers@,
            old(self).maintainers@.len() <= final(self).maintainers@.len() <= old(
                self,
            ).maintainers@.len() + total_maints(metadata@),
            final(self).links@.subrange(0, old(self).links@.len() as int) == old(self).links@,
            old(self).links@.len() <= final(self).links@.len() <= old(self).links@.len()
                + total_maints(metadata@),
            pkvs(final(self).packages@) == apply_import(
                pkvs(old(self).packages@),
                mvs(old(self).maintainers@),
                old(self).links@,
                metadata@,
            ).0,
            mvs(final(self).maintainers@) == apply_import(
                pkvs(old(self).packages@),
                mvs(old(self).maintainers@),
                old(self).links@,
                metadata@,
            ).1,
            final(self).links@ == apply_import(
                pkvs(old(self).packages@),
                mvs(old(self).maintainers@),
                old(self).links@,
                metadata@,
            ).2,
            saturated(*old(self), metadata@) ==> *final(self) == *old(self),
    {
        let name = self.repo_name.clone();
        self.get_or_create_repo(name.as_str(), etag);
        let ghost s0 = *old(self);
        let n = metadata.len();
        proof {
            assert(self.packages@.subrange(0, s0.packages@.len() as int) =~= s0.packages@);
            assert(self.maintainers@.subrange(0, s0.maintainers@.len() as int)
                =~= s0.maintainers@);
            assert(self.links@.subrange(0, s0.links@.len() as int) =~= s0.links@);
            assert(metadata@.subrange(0, 0) =~= Seq::<RemotePackage>::empty());
        }
        for k in 0..n
            invariant
                n == metadata@.len(),
                wf(*self),
                wf(s0),
                s0 == *old(self),
                s0.packages@.len() + metadata@.len() < 0xffff_ffff_ffff_ffff,
                s0.maintainers@.len() + total_maints(metadata@) < 0xffff_ffff_ffff_ffff,
                self.repo_name == s0.repo_name,
                self.repo is Some,
                s0.repo is Some ==> self.repo == s0.repo,
                s0.repo is None ==> self.repo.unwrap().name@ == s0.repo_name@
                    && self.repo.unwrap().etag@ == etag@,
                s0.packages@.len() <= self.packages@.len(),
                self.packages@.subrange(0, s0.packages@.len() as int) == s0.packages@,
                self.packages@.len() <= s0.packages@.len() + k,
                self.maintainers@.len() <= s0.maintainers@.len() + total_maints(
                    metadata@.subrange(0, k as int)),
                s0.maintainers@.len() <= self.maintainers@.len(),
                self.maintainers@.subrange(0, s0.maintainers@.len() as int) == s0.maintainers@,
                s0.links@.len() <= self.links@.len(),
                self.links@.len() <= s0.links@.len() + total_maints(
                    metadata@.subrange(0, k as int)),
                self.links@.subrange(0, s0.links@.len() as int) == s0.links@,
                pkvs(self.packages@) == apply_import(
                    pkvs(s0.packages@),
                    mvs(s0.maintainers@),
                    s0.links@,
                    metadata@.subrange(0, k as int),
                ).0,
                mvs(self.maintainers@) == apply_import(
                    pkvs(s0.packages@),
                    mvs(s0.maintainers@),
                    s0.links@,
                    metadata@.subrange(0, k as int),
                ).1,
                self.links@ == apply_import(
                    pkvs(s0.packages@),
                    mvs(s0.maintainers@),
                    s0.links@,
                    metadata@.subrange(0, k as int),
                ).2,
                forall|j: int| 0 <= j < k ==> has_key(self.packages@, #[trigger] metadata@[j]),
                saturated(s0, metadata@) ==> *self == s0,
        {
            let ghost before = *self;
            proof {
                assert(metadata@.subrange(0, k + 1).drop_last() =~= metadata@.subrange(0, k as int));
                assert(metadata@.subrange(0, k + 1).last() == metadata@[k as int]);
                lemma_total_maints_prefix(metadata@, k + 1, n as int);
                assert(metadata@.subrange(0, n as int) =~= metadata@);
            }
            self.insert_package(&metadata[k]);
            proof {
                assert forall|j: int| 0 <= j < k + 1 implies has_key(
                    self.packages@,
                    #[trigger] metadata@[j],
                ) by {
                    if j < k {
                        let i = choose|i: int|
                            0 <= i < before.packages@.len() && same_key(
                                (#[trigger] before.packages@[i]).record,
                                metadata@[j],
                            );
                        assert(self.packages@.subrange(0, before.packages@.len() as int)
                            == before.packages@);
                        assert(self.packages@[i] == before.packages@[i]);
                    } else {
                        if has_key(before.packages@, metadata@[k as int]) {
                            assert(*self == before);
                        } else {
                            let last = self.packages@.len() - 1;
                            assert(self.packages@.last() == self.packages@[last]);
                            assert(rp_eq(self.packages@[last].record, metadata@[k as int]));
                            assert(same_key(self.packages@[last].record, metadata@[k as int]));
                        }
                    }
                }
                assert forall|t: int| 0 <= t < s0.packages@.len() implies self.packages@[t]
                    == s0.packages@[t] by {
                    assert(before.packages@.subrange(0, s0.packages@.len() as int)[t]
                        == before.packages@[t]);
                    assert(self.packages@.subrange(0, before.packages@.len() as int)[t]
                        == self.packages@[t]);
                }
                assert(self.packages@.subrange(0, s0.packages@.len() as int) =~= s0.packages@);
                lemma_prefix_trans(s0.maintainers@, before.maintainers@, self.maintainers@);
                lemma_prefix_trans(s0.links@, before.links@, self.links@);
                let b0 = pkvs(s0.packages@);
                let b1 = mvs(s0.maintainers@);
                let b2 = s0.links@;
                let pre3 = apply_import(b0, b1, b2, metadata@.subrange(0, k as int));
                let cur3 = apply_import(b0, b1, b2, metadata@.subrange(0, k + 1));
                assert(cur3 == step_import(pre3.0, pre3.1, pre3.2, metadata@[k as int]));
                lemma_has_key_v(before.packages@, metadata@[k as int]);
                if has_key(before.packages@, metadata@[k as int]) {
                    assert(*self == before);
                    assert(pkvs(self.packages@) == cur3.0);
                    assert(mvs(self.maintainers@) == cur3.1);
                    assert(self.links@ == cur3.2);
                } else {
                    assert(!has_key_v(pre3.0, metadata@[k as int]));
                    let lastrow = self.packages@.last();
                    assert(rp_eq(lastrow.record, metadata@[k as int]));
                    assert(rv(lastrow.record) =~= rv(metadata@[k as int]));
                    assert(pkv(lastrow) =~= (PackageV {
                        id: (pre3.0.len() + 1) as u64,
                        record: rv(metadata@[k as int]),
                        provides: spec_derive(
                            svw(metadata@[k as int].provides@),
                            metadata@[k as int].pkg_name@,
                        ),
                    }));
                    assert(pkvs(self.packages@) =~= pkvs(before.packages@).push(pkv(lastrow)));
                    assert(pkvs(self.packages@) == cur3.0);
                    assert(mvs(self.maintainers@) == cur3.1);
                    assert(self.links@ == cur3.2);
                }
                if saturated(s0, metadata@) {
                    assert(before == s0);
                    assert(has_key(before.packages@, metadata@[k as int]));
                    assert(*self == before);
                }
            }
        }
        proof {
            assert(metadata@.subrange(0, n as int) =~= metadata@);
        }
    }
}

} // verus!
