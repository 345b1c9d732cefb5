//! The software repository: package records, the expansion of a declarative
//! package description into upload records, and what an upload sends.

use vstd::prelude::*;

use crate::director::TargetFormat;
use crate::error::Error;
use crate::keyed::{
    keys_distinct, lemma_push_distinct, lemma_update_distinct, lemma_value_absent,
    lemma_value_present, lemma_value_update, position, value_at,
};
use crate::render::TableResult;
use crate::text::{concat, join, joined, texts};
use vstd::utf8::encode_utf8;

verus! {

/// The serialization of the URL that `url::Url::parse` reads from `s`; none
/// where it rejects `s`.
pub uninterp spec fn url_text(s: Seq<char>) -> Option<Seq<char>>;

/// Relies on `url::Url::parse`, and on the conversion of a `Url` into its
/// serialization.
#[verifier::external_body]
fn parse_url(s: &str) -> (r: Result<String, url::ParseError>)
    ensures
        match r {
            Ok(u) => url_text(s@) == Some(u@),
            Err(_) => url_text(s@) is None,
        },
{
    match url::Url::parse(s) {
        Ok(u) => Ok(u.into()),
        Err(e) => Err(e),
    }
}

/// A byte that percent-encoding leaves as it is: an ASCII letter or digit,
/// `-`, `.`, `_` or `~`.
pub open spec fn is_unreserved(b: u8) -> bool {
    ||| 0x30 <= b <= 0x39
    ||| 0x41 <= b <= 0x5a
    ||| 0x61 <= b <= 0x7a
    ||| b == 0x2d
    ||| b == 0x2e
    ||| b == 0x5f
    ||| b == 0x7e
}

/// The upper-case hexadecimal digit of `d`, below 16.
pub open spec fn hex_digit(d: u8) -> char {
    if d < 10 {
        (0x30 + d) as u8 as char
    } else {
        (0x37 + d) as u8 as char
    }
}

/// `bytes` percent-encoded: each byte that is not unreserved becomes `%`
/// and its two upper-case hexadecimal digits.
pub open spec fn percent_encoded(bytes: Seq<u8>) -> Seq<char>
    decreases bytes.len(),
{
    if bytes.len() == 0 {
        seq![]
    } else {
        let b = bytes.last();
        percent_encoded(bytes.drop_last()) + if is_unreserved(b) {
            seq![b as char]
        } else {
            seq!['%', hex_digit(b / 16), hex_digit(b % 16)]
        }
    }
}

/// Relies on `urlencoding::encode`, which percent-encodes every byte of the
/// UTF-8 form of `s` except ASCII letters, digits, `-`, `.`, `_` and `~`.
#[verifier::external_body]
fn url_encode(s: &str) -> (r: String)
    ensures
        r@ == percent_encoded(encode_utf8(s@)),
{
    urlencoding::encode(s).into_owned()
}

/// Where the data of a target is: a filesystem path, or a remote URL (held as
/// its serialization).
#[derive(Debug, PartialEq, Eq)]
pub enum RepoTarget {
    Path(String),
    Url(String),
}

/// Metadata of one version of a package, as a package description gives it.
#[derive(Debug)]
pub struct PackageMetadata {
    pub format: TargetFormat,
    pub hardware: Vec<String>,
    pub path: Option<String>,
    pub url: Option<String>,
}

/// A mapping from package names to versions to metadata, in the order given.
#[derive(Debug)]
pub struct TargetPackages {
    pub packages: Vec<(String, Vec<(String, PackageMetadata)>)>,
}

/// A package target for uploading to the repository.
#[derive(Debug)]
pub struct TufPackage {
    pub name: String,
    pub version: String,
    pub format: TargetFormat,
    pub hardware: Vec<String>,
    pub target: RepoTarget,
}

/// A collection of package targets for uploading.
#[derive(Debug)]
pub struct TufPackages {
    pub packages: Vec<TufPackage>,
}

/// The message of the error for an upload given neither `--path` nor `--url`.
pub open spec fn no_target_arg_message() -> Seq<char> {
    "Either --path or --url flag is required"@
}

/// The message of the error for an upload given both `--path` and `--url`.
pub open spec fn two_target_args_message() -> Seq<char> {
    "Either --path or --url expected. Not both."@
}

impl RepoTarget {
    /// `r` is the target that the `--path` and `--url` arguments give:
    /// exactly one of them must be present, and a URL must parse.
    pub open spec fn from_args_gives(
        path: Option<String>,
        url: Option<String>,
        r: Result<RepoTarget, Error>,
    ) -> bool {
        match (path, url) {
            (Some(p), None) => r == Ok::<RepoTarget, Error>(RepoTarget::Path(p)),
            (None, Some(u)) => match url_text(u@) {
                Some(t) => r matches Ok(RepoTarget::Url(x)) && x@ == t,
                None => r matches Err(e) && e is Url,
            },
            (None, None) => r matches Err(e) && e.is_args(no_target_arg_message()),
            (Some(_), Some(_)) => r matches Err(e) && e.is_args(two_target_args_message()),
        }
    }

    /// The target named by the `--path` or `--url` argument.
    pub fn from_args(path: Option<String>, url: Option<String>) -> (r: Result<RepoTarget, Error>)
        ensures
            RepoTarget::from_args_gives(path, url, r),
    {
        match (path, url) {
            (Some(p), None) => Ok(RepoTarget::Path(p)),
            (None, Some(u)) => match parse_url(u.as_str()) {
                Ok(t) => Ok(RepoTarget::Url(t)),
                Err(e) => Err(Error::Url(e)),
            },
            (None, None) => Err(Error::Args("Either --path or --url flag is required".to_owned())),
            (Some(_), Some(_)) => Err(
                Error::Args("Either --path or --url expected. Not both.".to_owned()),
            ),
        }
    }
}

impl TufPackage {
    /// A package record from upload arguments; the format flags are read
    /// before the location.
    pub fn from_args(
        name: String,
        version: String,
        binary: bool,
        ostree: bool,
        hardware: Vec<String>,
        path: Option<String>,
        url: Option<String>,
    ) -> (r: Result<TufPackage, Error>)
        ensures
            !binary && !ostree ==> (r matches Err(e) && e.is_args(
                "Either --binary or --ostree flag is required"@,
            )),
            binary || ostree ==> match r {
                Ok(p) => {
                    &&& p.name == name
                    &&& p.version == version
                    &&& p.format == (if binary {
                        TargetFormat::Binary
                    } else {
                        TargetFormat::Ostree
                    })
                    &&& p.hardware == hardware
                    &&& RepoTarget::from_args_gives(path, url, Ok(p.target))
                },
                Err(e) => RepoTarget::from_args_gives(path, url, Err(e)),
            },
    {
        let format = match TargetFormat::from_args(binary, ostree) {
            Ok(f) => f,
            Err(e) => return Err(e),
        };
        let target = match RepoTarget::from_args(path, url) {
            Ok(t) => t,
            Err(e) => return Err(e),
        };
        Ok(TufPackage { name, version, format, hardware, target })
    }

    /// The repository entry the package is uploaded as: `name-version`.
    pub fn entry_name(&self) -> (r: String)
        ensures
            r@ == self.name@ + "-"@ + self.version@,
    {
        let mut r = concat(self.name.as_str(), "-");
        r.append(self.version.as_str());
        r
    }

    /// `q` is the query of this package's upload: its name and version
    /// percent-encoded, its hardware ids joined by commas, and its format.
    pub open spec fn upload_query_is(&self, q: Seq<(String, String)>) -> bool {
        &&& q.len() == 4
        &&& q[0].0@ == "name"@
        &&& q[0].1@ == percent_encoded(encode_utf8(self.name@))
        &&& q[1].0@ == "version"@
        &&& q[1].1@ == percent_encoded(encode_utf8(self.version@))
        &&& q[2].0@ == "hardwareIds"@
        &&& q[2].1@ == joined(texts(self.hardware@), ","@)
        &&& q[3].0@ == "targetFormat"@
        &&& q[3].1@ == self.format.text()
    }

    /// The query parameters of this package's upload.
    pub fn upload_query(&self) -> (r: Vec<(String, String)>)
        ensures
            self.upload_query_is(r@),
    {
        let mut q: Vec<(String, String)> = Vec::new();
        q.push(("name".to_owned(), url_encode(self.name.as_str())));
        q.push(("version".to_owned(), url_encode(self.version.as_str())));
        q.push(("hardwareIds".to_owned(), join(&self.hardware, ",")));
        q.push(("targetFormat".to_owned(), self.format.to_string()));
        q
    }
}

/// One target of the repository's target list.
#[derive(Debug)]
pub struct TargetInfo {
    pub key: String,
    pub name: String,
    pub version: String,
    pub hardware_ids: Vec<String>,
    pub uri: Option<String>,
    pub target_format: TargetFormat,
    pub updated_at: String,
}

/// The column titles of the package listing.
pub open spec fn package_columns() -> Seq<Seq<char>> {
    seq![
        "name"@,
        "name"@,
        "version"@,
        "hardware ids"@,
        "uri"@,
        "target_format"@,
        "updated at"@,
    ]
}

/// The row of the package listing that shows `t`.
pub open spec fn package_row_of(t: TargetInfo) -> Seq<Seq<char>> {
    seq![
        t.key@,
        t.name@,
        t.version@,
        joined(texts(t.hardware_ids@), ", "@),
        match t.uri {
            Some(u) => u@,
            None => "None"@,
        },
        t.target_format.label(),
        t.updated_at@,
    ]
}

/// The software repository.
pub struct Reposerver;

impl Reposerver {
    /// The repository entry fetched for a package version: `name_version`.
    pub fn fetch_entry(name: &str, version: &str) -> (r: String)
        ensures
            r@ == name@ + "_"@ + version@,
    {
        let mut r = concat(name, "_");
        r.append(version);
        r
    }

    /// The column titles of the package listing.
    pub fn package_header() -> (r: Vec<String>)
        ensures
            texts(r@) == package_columns(),
    {
        let mut r: Vec<String> = Vec::new();
        r.push("name".to_owned());
        r.push("name".to_owned());
        r.push("version".to_owned());
        r.push("hardware ids".to_owned());
        r.push("uri".to_owned());
        r.push("target_format".to_owned());
        r.push("updated at".to_owned());
        assert(texts(r@) =~= package_columns());
        r
    }

    /// The row of the package listing that shows `t`.
    pub fn package_row(t: TargetInfo) -> (r: Vec<String>)
        ensures
            texts(r@) == package_row_of(t),
    {
        let ghost g = t;
        let hwids = join(&t.hardware_ids, ", ");
        let uri = match t.uri {
            Some(u) => u,
            None => "None".to_owned(),
        };
        let format = t.target_format.to_label();
        let mut r: Vec<String> = Vec::new();
        r.push(t.key);
        r.push(t.name);
        r.push(t.version);
        r.push(hwids);
        r.push(uri);
        r.push(format);
        r.push(t.updated_at);
        assert(texts(r@) =~= package_row_of(g));
        r
    }

    /// The table of the repository's targets, backed by the response it was
    /// read from: one row for each target, in order.
    pub fn packages_table(
        headers: Vec<(String, String)>,
        raw: Vec<u8>,
        targets: Vec<TargetInfo>,
    ) -> (r: TableResult)
        ensures
            r.headers == headers,
            r.raw == raw,
            texts(r.header@) == package_columns(),
            r.rows@.len() == targets@.len(),
            forall|k: int| 0 <= k < targets@.len() ==> texts(#[trigger] r.rows@[k]@) == package_row_of(targets@[k]),
    {
        let ghost all = targets@;
        let mut rest = targets;
        let total = rest.len();
        assert(all.len() == total);
        let mut rows: Vec<Vec<String>> = Vec::new();
        let mut i: usize = 0;
        while rest.len() > 0
            invariant
                rest.len() + i == all.len(),
                all.len() <= usize::MAX,
                rest@ == all.skip(i as int),
                rows@.len() == i,
                forall|k: int| 0 <= k < i ==> texts(#[trigger] rows@[k]@) == package_row_of(all[k]),
            decreases rest.len(),
        {
            let t = rest.remove(0);
            assert(rest@ =~= all.skip(i + 1));
            rows.push(Reposerver::package_row(t));
            i += 1;
        }
        TableResult::new(headers, raw, Reposerver::package_header(), rows)
    }
}

/// The (name, version, metadata) triples of the versions of package `name`.
pub open spec fn versions_of(name: String, versions: Seq<(String, PackageMetadata)>) -> Seq<
    (String, String, PackageMetadata),
> {
    versions.map_values(|vm: (String, PackageMetadata)| (name, vm.0, vm.1))
}

/// Every (name, version, metadata) triple of `ps`, in order.
pub open spec fn entries_of(ps: Seq<(String, Vec<(String, PackageMetadata)>)>) -> Seq<
    (String, String, PackageMetadata),
>
    decreases ps.len(),
{
    if ps.len() == 0 {
        seq![]
    } else {
        entries_of(ps.drop_last()) + versions_of(ps.last().0, ps.last().1@)
    }
}

/// The number of (name, version) pairs in `ps`.
pub open spec fn pair_count(ps: Seq<(String, Vec<(String, PackageMetadata)>)>) -> nat
    decreases ps.len(),
{
    if ps.len() == 0 {
        0
    } else {
        pair_count(ps.drop_last()) + ps.last().1@.len()
    }
}

impl TargetPackages {
    /// Every (name, version, metadata) triple, in order.
    pub open spec fn entries(&self) -> Seq<(String, String, PackageMetadata)> {
        entries_of(self.packages@)
    }

    /// Package names are distinct, and so are the versions of each package.
    pub open spec fn wf(&self) -> bool {
        &&& keys_distinct(self.packages@)
        &&& forall|i: int| 0 <= i < self.packages@.len() ==> keys_distinct(#[trigger] self.packages@[i].1@)
    }

    /// The metadata of version `version` of package `name`.
    pub open spec fn lookup(&self, name: Seq<char>, version: Seq<char>) -> Option<PackageMetadata> {
        match value_at(self.packages@, name) {
            Some(vs) => value_at(vs@, version),
            None => None,
        }
    }

    /// An empty description.
    pub fn new() -> (r: TargetPackages)
        ensures
            r.wf(),
            r.packages@.len() == 0,
    {
        TargetPackages { packages: Vec::new() }
    }

    /// Sets the metadata of version `version` of package `name`. Packages
    /// already present keep their places; a new package comes after them.
    pub fn insert(&mut self, name: String, version: String, meta: PackageMetadata)
        requires
            old(self).wf(),
        ensures
            final(self).wf(),
            final(self).lookup(name@, version@) == Some(meta),
            forall|n: Seq<char>, v: Seq<char>|
                !(n == name@ && v == version@) ==> #[trigger] final(self).lookup(n, v)
                    == old(self).lookup(n, v),
            forall|i: int|
                0 <= i < old(self).packages@.len() ==> #[trigger] final(self).packages@[i].0
                    == old(self).packages@[i].0,
            ({
                let (before, after) = (old(self).packages@, final(self).packages@);
                after.len() == before.len() || (after.len() == before.len() + 1 && after.last().0
                    == name)
            }),
    {
        let ghost before = self.packages@;
        match position(&self.packages, &name) {
            None => {
                let ghost n = name@;
                let mut vs: Vec<(String, PackageMetadata)> = Vec::new();
                vs.push((version, meta));
                assert(keys_distinct(vs@));
                let ghost entry = (name, vs);
                self.packages.push((name, vs));
                proof {
                    lemma_push_distinct(before, entry);
                    assert(self.packages@ == before.push(entry));
                    assert(self.packages@.drop_last() =~= before);
                    assert forall|i: int| 0 <= i < self.packages@.len() implies keys_distinct(
                        #[trigger] self.packages@[i].1@,
                    ) by {
                        if i < before.len() {
                            assert(self.packages@[i] == before[i]);
                        }
                    };
                    assert(vs@.drop_last() =~= Seq::<(String, PackageMetadata)>::empty());
                    lemma_value_absent(before, n);
                    assert forall|m: Seq<char>, v: Seq<char>|
                        !(m == name@ && v == version@) implies #[trigger] self.lookup(m, v)
                        == old(self).lookup(m, v) by {
                        assert(self.packages@.last() == entry);
                        if m != n {
                            assert(value_at(self.packages@, m) == value_at(before, m));
                        } else {
                            assert(value_at(self.packages@, m) == Some(entry.1));
                            assert(entry.1@.last().0@ == version@);
                            assert(value_at(entry.1@, v) == value_at(entry.1@.drop_last(), v));
                        }
                    };
                }
            },
            Some(i) => {
                let (n, mut vs) = self.packages.remove(i);
                let ghost old_vs = vs@;
                match position(&vs, &version) {
                    None => {
                        let ghost x = (version, meta);
                        vs.push((version, meta));
                        proof {
                            lemma_push_distinct(old_vs, x);
                            assert(vs@.drop_last() =~= old_vs);
                        }
                    },
                    Some(j) => {
                        let ghost x = (version, meta);
                        vs.remove(j);
                        vs.insert(j, (version, meta));
                        proof {
                            assert(vs@ =~= old_vs.update(j as int, x));
                            lemma_value_present(vs@, j as int);
                            assert forall|v: Seq<char>| v != version@ implies value_at(vs@, v)
                                == value_at(old_vs, v) by {
                                lemma_value_update(old_vs, j as int, x, v);
                            };
                            lemma_update_distinct(old_vs, j as int, x);
                        }
                    },
                }
                assert(value_at(vs@, version@) == Some(meta));
                assert(forall|v: Seq<char>| v != version@ ==> value_at(vs@, v) == value_at(old_vs, v));
                assert(keys_distinct(vs@));
                let ghost entry = (n, vs);
                self.packages.insert(i, (n, vs));
                proof {
                    assert(self.packages@ =~= before.update(i as int, entry));
                    lemma_value_present(before, i as int);
                    lemma_update_distinct(before, i as int, entry);
                    lemma_value_present(self.packages@, i as int);
                    assert forall|m: Seq<char>| m != name@ implies value_at(self.packages@, m)
                        == value_at(before, m) by {
                        lemma_value_update(before, i as int, entry, m);
                    };
                    assert forall|k: int| 0 <= k < self.packages@.len() implies keys_distinct(
                        #[trigger] self.packages@[k].1@,
                    ) by {
                        if k != i {
                            assert(self.packages@[k] == before[k]);
                        }
                    };
                    assert forall|m: Seq<char>, v: Seq<char>|
                        !(m == name@ && v == version@) implies #[trigger] self.lookup(m, v)
                        == old(self).lookup(m, v) by {
                        if m != name@ {
                            lemma_value_update(before, i as int, entry, m);
                        }
                    };
                }
            },
        }
    }
}

/// The metadata locates its data validly: by a path alone, or by a URL alone
/// that parses.
pub open spec fn location_ok(meta: PackageMetadata) -> bool {
    match (meta.path, meta.url) {
        (Some(_), None) => true,
        (None, Some(u)) => url_text(u@) is Some,
        _ => false,
    }
}

/// The message of the error for metadata with neither path nor URL.
pub open spec fn no_location_message() -> Seq<char> {
    "One of `path` or `url` required."@
}

/// The message of the error for metadata with both a path and a URL.
pub open spec fn two_locations_message() -> Seq<char> {
    "Either `path` or `url` expected. Not both."@
}

/// `e` is the error for metadata whose location is not valid.
pub open spec fn location_error(meta: PackageMetadata, e: Error) -> bool {
    match (meta.path, meta.url) {
        (None, None) => e.is_parse(no_location_message()),
        (Some(_), Some(_)) => e.is_parse(two_locations_message()),
        (None, Some(_)) => e is Url,
        (Some(_), None) => false,
    }
}

/// `p` is the record of version `version` of package `name` with `meta`.
pub open spec fn is_record(p: TufPackage, name: String, version: String, meta: PackageMetadata) -> bool {
    &&& p.name == name
    &&& p.version == version
    &&& p.format == meta.format
    &&& p.hardware == meta.hardware
    &&& match p.target {
        RepoTarget::Path(x) => meta.path == Some(x) && meta.url is None,
        RepoTarget::Url(x) => meta.path is None && (meta.url matches Some(u) && url_text(u@)
            == Some(x@)),
    }
}

/// `ps` is the expansion of `es`: every triple is valid and has its own
/// record, at the same position.
pub open spec fn expanded(es: Seq<(String, String, PackageMetadata)>, ps: Seq<TufPackage>) -> bool {
    &&& ps.len() == es.len()
    &&& forall|k: int| 0 <= k < es.len() ==> location_ok(#[trigger] es[k].2)
    &&& forall|k: int| 0 <= k < es.len() ==> is_record(#[trigger] ps[k], es[k].0, es[k].1, es[k].2)
}

/// The triple at `k` is the first of `es` that is not valid, and `e` is its error.
pub open spec fn fails_at(es: Seq<(String, String, PackageMetadata)>, k: int, e: Error) -> bool {
    &&& 0 <= k < es.len()
    &&& forall|j: int| 0 <= j < k ==> location_ok(#[trigger] es[j].2)
    &&& !location_ok(es[k].2)
    &&& location_error(es[k].2, e)
}

/// `r` is the result of expanding `es`: all records, or the error of the
/// first triple that is not valid.
pub open spec fn expands(es: Seq<(String, String, PackageMetadata)>, r: Result<Seq<TufPackage>, Error>) -> bool {
    match r {
        Ok(ps) => expanded(es, ps),
        Err(e) => exists|k: int| fails_at(es, k, e),
    }
}

/// The result of a vector-valued computation, as a sequence.
pub open spec fn seq_result<T>(r: Result<Vec<T>, Error>) -> Result<Seq<T>, Error> {
    match r {
        Ok(v) => Ok(v@),
        Err(e) => Err(e),
    }
}

impl TufPackages {
    /// Expands a package description into one record for each (name,
    /// version) pair, in order; the first pair without a valid location fails
    /// the whole expansion.
    pub fn from(targets: TargetPackages) -> (r: Result<TufPackages, Error>)
        ensures
            expands(
                targets.entries(),
                match r {
                    Ok(t) => Ok(t.packages@),
                    Err(e) => Err(e),
                },
            ),
    {
        let ghost all = targets.packages@;
        let mut rest = targets.packages;
        let total = rest.len();
        assert(all.len() == total);
        let mut out: Vec<TufPackage> = Vec::new();
        let mut i: usize = 0;
        while rest.len() > 0
            invariant
                i <= all.len(),
                rest.len() + i == all.len(),
                all.len() <= usize::MAX,
                all == targets.packages@,
                rest@ == all.skip(i as int),
                expanded(entries_of(all.take(i as int)), out@),
            decreases rest.len(),
        {
            let ghost done = entries_of(all.take(i as int));
            let (name, versions) = rest.remove(0);
            assert(all.take(i + 1).drop_last() =~= all.take(i as int));
            assert(all.take(i + 1).last() == (name, versions));
            assert(entries_of(all.take(i + 1)) == done + versions_of(name, versions@));
            assert(rest@ =~= all.skip(i + 1));
            let ghost local = versions_of(name, versions@);
            match TufPackages::to_packages(name, versions) {
                Ok(mut v) => {
                    let ghost prior = out@;
                    let ghost got = v@;
                    out.append(&mut v);
                    assert forall|k: int| 0 <= k < done.len() + local.len() implies location_ok(
                        #[trigger] (done + local)[k].2,
                    ) && is_record(out@[k], (done + local)[k].0, (done + local)[k].1, (done + local)[k].2) by {
                        if k < done.len() {
                            assert((done + local)[k] == done[k]);
                            assert(out@[k] == prior[k]);
                        } else {
                            assert((done + local)[k] == local[k - done.len()]);
                            assert(out@[k] == got[k - done.len()]);
                        }
                    };
                },
                Err(e) => {
                    proof {
                        let k0 = choose|k0: int| fails_at(local, k0, e);
                        let es = done + local;
                        let k = done.len() + k0;
                        assert(es[k] == local[k0]);
                        assert forall|j: int| 0 <= j < k implies location_ok(#[trigger] es[j].2) by {
                            if j < done.len() {
                                assert(es[j] == done[j]);
                            } else {
                                assert(es[j] == local[j - done.len()]);
                            }
                        };
                        assert(fails_at(es, k, e));
                        lemma_fails_in_prefix(all, (i + 1) as int, k, e);
                    }
                    return Err(e);
                },
            }
            i += 1;
        }
        assert(all.take(i as int) =~= all);
        Ok(TufPackages { packages: out })
    }

    /// The records of the versions of package `name`.
    fn to_packages(name: String, versions: Vec<(String, PackageMetadata)>) -> (r: Result<
        Vec<TufPackage>,
        Error,
    >)
        ensures
            expands(versions_of(name, versions@), seq_result(r)),
    {
        let ghost all = versions@;
        let ghost es = versions_of(name, all);
        let mut rest = versions;
        let total = rest.len();
        assert(all.len() == total);
        let mut out: Vec<TufPackage> = Vec::new();
        let mut i: usize = 0;
        while rest.len() > 0
            invariant
                i <= all.len(),
                rest.len() + i == all.len(),
                all.len() <= usize::MAX,
                es == versions_of(name, all),
                all == versions@,
                rest@ == all.skip(i as int),
                out@.len() == i,
                forall|k: int| 0 <= k < i ==> location_ok(#[trigger] es[k].2),
                forall|k: int| 0 <= k < i ==> is_record(#[trigger] out@[k], es[k].0, es[k].1, es[k].2),
            decreases rest.len(),
        {
            let (version, meta) = rest.remove(0);
            assert(rest@ =~= all.skip(i + 1));
            assert(es[i as int] == (name, version, meta));
            match TufPackages::to_package(name.clone(), version, meta) {
                Ok(p) => {
                    out.push(p);
                },
                Err(e) => {
                    assert(fails_at(es, i as int, e));
                    return Err(e);
                },
            }
            i += 1;
        }
        Ok(out)
    }

    /// The record of version `version` of package `name` with `meta`.
    fn to_package(name: String, version: String, meta: PackageMetadata) -> (r: Result<
        TufPackage,
        Error,
    >)
        ensures
            match r {
                Ok(p) => location_ok(meta) && is_record(p, name, version, meta),
                Err(e) => !location_ok(meta) && location_error(meta, e),
            },
    {
        let ghost m = meta;
        let PackageMetadata { format, hardware, path, url } = meta;
        let target = match (path, url) {
            (Some(p), None) => RepoTarget::Path(p),
            (None, Some(u)) => match parse_url(u.as_str()) {
                Ok(t) => RepoTarget::Url(t),
                Err(e) => return Err(Error::Url(e)),
            },
            (None, None) => return Err(Error::Parse("One of `path` or `url` required.".to_owned())),
            (Some(_), Some(_)) => return Err(
                Error::Parse("Either `path` or `url` expected. Not both.".to_owned()),
            ),
        };
        Ok(TufPackage { name, version, format, hardware, target })
    }
}

/// Expanding a description gives exactly one record for each (name,
/// version) pair, each carrying that pair's own metadata: the pair at
/// position `j` of package `i` has the record at its place in the order.
pub proof fn expansion_is_one_record_per_pair(t: TargetPackages, ps: Seq<TufPackage>)
    requires
        expands(t.entries(), Ok(ps)),
    ensures
        ps.len() == pair_count(t.packages@),
        forall|i: int, j: int|
            0 <= i < t.packages@.len() && 0 <= j < t.packages@[i].1@.len() ==> is_record(
                #[trigger] ps[pair_count(t.packages@.take(i)) + j],
                t.packages@[i].0,
                #[trigger] t.packages@[i].1@[j].0,
                t.packages@[i].1@[j].1,
            ),
{
    let outer = t.packages@;
    lemma_entries_len(outer);
    assert forall|i: int, j: int|
        0 <= i < outer.len() && 0 <= j < outer[i].1@.len() implies is_record(
        #[trigger] ps[pair_count(outer.take(i)) + j],
        outer[i].0,
        #[trigger] outer[i].1@[j].0,
        outer[i].1@[j].1,
    ) by {
        let a = entries_of(outer.take(i));
        assert(outer.take(i + 1).drop_last() =~= outer.take(i));
        assert(outer.take(i + 1).last() == outer[i]);
        let b = entries_of(outer.take(i + 1));
        lemma_entries_len(outer.take(i));
        lemma_entries_prefix(outer, i + 1);
        assert(b[a.len() + j] == (outer[i].0, outer[i].1@[j].0, outer[i].1@[j].1));
        assert(t.entries()[a.len() + j] == b[a.len() + j]);
    };
}

/// A package version that names both a path and a URL, or neither, makes
/// the whole expansion fail; no record of the description is produced.
pub proof fn both_or_neither_location_fails(
    t: TargetPackages,
    k: int,
    r: Result<Seq<TufPackage>, Error>,
)
    requires
        0 <= k < t.entries().len(),
        (t.entries()[k].2.path is Some) == (t.entries()[k].2.url is Some),
        expands(t.entries(), r),
    ensures
        r is Err,
        !location_ok(t.entries()[k].2),
{
    if r is Ok {
        assert(location_ok(t.entries()[k].2));
    }
}

/// The number of triples of `ps` is its number of (name, version) pairs.
proof fn lemma_entries_len(ps: Seq<(String, Vec<(String, PackageMetadata)>)>)
    ensures
        entries_of(ps).len() == pair_count(ps),
    decreases ps.len(),
{
    if ps.len() > 0 {
        lemma_entries_len(ps.drop_last());
    }
}

/// The triples of a prefix of `ps` begin the triples of `ps`.
proof fn lemma_entries_prefix(ps: Seq<(String, Vec<(String, PackageMetadata)>)>, n: int)
    requires
        0 <= n <= ps.len(),
    ensures
        entries_of(ps.take(n)).len() <= entries_of(ps).len(),
        forall|k: int|
            0 <= k < entries_of(ps.take(n)).len() ==> #[trigger] entries_of(ps)[k] == entries_of(
                ps.take(n),
            )[k],
    decreases ps.len() - n,
{
    if n < ps.len() {
        assert(ps.take(n + 1).drop_last() =~= ps.take(n));
        lemma_entries_prefix(ps, n + 1);
    } else {
        assert(ps.take(n) =~= ps);
    }
}

/// A failure found in the entries of a prefix of `ps` is a failure of all of them.
proof fn lemma_fails_in_prefix(
    ps: Seq<(String, Vec<(String, PackageMetadata)>)>,
    n: int,
    k: int,
    e: Error,
)
    requires
        0 <= n <= ps.len(),
        fails_at(entries_of(ps.take(n)), k, e),
    ensures
        fails_at(entries_of(ps), k, e),
    decreases ps.len() - n,
{
    if n < ps.len() {
        let a = entries_of(ps.take(n));
        assert(ps.take(n + 1).drop_last() =~= ps.take(n));
        let b = entries_of(ps.take(n + 1));
        assert(b == a + versions_of(ps.take(n + 1).last().0, ps.take(n + 1).last().1@));
        assert forall|j: int| 0 <= j <= k implies #[trigger] b[j] == a[j] by {};
        assert(fails_at(b, k, e));
        lemma_fails_in_prefix(ps, n + 1, k, e);
    } else {
        assert(ps.take(n) =~= ps);
    }
}

} // verus!
