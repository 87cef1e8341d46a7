//! The asset registry: built once from an ordered list of declared assets,
//! immutable thereafter. Construction computes each asset's content-derived
//! fingerprint and versioned URL and rejects duplicate request paths; queries
//! resolve a request path to (MIME string, content bytes) and a declared
//! field name to its versioned URL.

use vstd::prelude::*;
use vstd::string::StringExecFns;

use crate::content_type::{ContentType, RegistryError};
use crate::decimal::{decimal_digits, u64_to_decimal};
use crate::fingerprint::{fingerprint, fingerprint_of};

verus! {

/// How a registry forms versioned URLs. Fixed per registry, not per asset.
#[derive(Clone, Copy, Debug, PartialEq, Eq, Structural)]
pub enum UrlPolicy {
    /// `<path>?v=<fingerprint>`, with the fingerprint rendered in decimal.
    ContentFingerprint,
    /// `<path>` unchanged: no cache-busting suffix.
    Plain,
}

/// One declared asset, as handed in by the build-time embedding collaborator:
/// the declared field name, the request path, the semantic content type, and
/// the embedded content bytes.
#[derive(Debug)]
pub struct AssetDecl {
    pub name: String,
    pub path: String,
    pub content_type: ContentType,
    pub content: Vec<u8>,
}

/// One constructed asset of a registry: the declaration's data together with
/// the computed fingerprint and versioned URL.
#[derive(Debug)]
pub struct Asset {
    pub name: String,
    pub path: String,
    pub content_type: ContentType,
    pub content: Vec<u8>,
    pub fingerprint: u64,
    pub versioned_url: String,
}

/// The versioned URL of an asset at `path` with fingerprint `fp`, under the
/// given policy.
pub open spec fn spec_versioned_url(path: Seq<char>, fp: u64, policy: UrlPolicy) -> Seq<char> {
    match policy {
        UrlPolicy::ContentFingerprint => path + "?v="@ + decimal_digits(fp as nat),
        UrlPolicy::Plain => path,
    }
}

/// The constructed asset `a` is exactly what declaration `d` prescribes under
/// `policy`: the declared data carried over unchanged, the fingerprint
/// computed over the declared content, and the versioned URL formed from the
/// declared path and that fingerprint.
pub open spec fn asset_matches_decl(a: Asset, d: AssetDecl, policy: UrlPolicy) -> bool {
    &&& a.name@ == d.name@
    &&& a.path@ == d.path@
    &&& a.content_type == d.content_type
    &&& a.content@ == d.content@
    &&& a.fingerprint == fingerprint_of(d.content@)
    &&& a.versioned_url@ == spec_versioned_url(d.path@, fingerprint_of(d.content@), policy)
}

/// No two declarations share a request path.
pub open spec fn paths_distinct(decls: Seq<AssetDecl>) -> bool {
    forall|i: int, j: int|
        0 <= i < j < decls.len() ==> (#[trigger] decls[i]).path@ != (#[trigger] decls[j]).path@
}

/// The immutable registry of one declared asset set.
#[derive(Debug)]
pub struct Registry {
    assets: Vec<Asset>,
    policy: UrlPolicy,
}

impl View for Registry {
    type V = Seq<Asset>;

    closed spec fn view(&self) -> Seq<Asset> {
        self.assets@
    }
}

/// `reg` is the registry that construction from `decls` under `policy`
/// yields: one asset per declaration, in declaration order, each matching its
/// declaration.
pub open spec fn built_from(reg: Registry, decls: Seq<AssetDecl>, policy: UrlPolicy) -> bool {
    &&& reg.spec_policy() == policy
    &&& reg@.len() == decls.len()
    &&& forall|i: int| 0 <= i < decls.len() ==> asset_matches_decl(#[trigger] reg@[i], decls[i], policy)
}

impl Registry {
    /// The URL policy this registry was built with.
    pub closed spec fn spec_policy(self) -> UrlPolicy {
        self.policy
    }

    /// Well-formedness: paths are unique, every fingerprint is the
    /// fingerprint of the asset's own content, and every versioned URL is
    /// formed from the asset's path and fingerprint under the registry's
    /// policy. Construction establishes this; the registry never changes
    /// afterwards.
    pub open spec fn wf(self) -> bool {
        &&& forall|i: int, j: int|
            0 <= i < j < self@.len() ==> (#[trigger] self@[i]).path@ != (#[trigger] self@[j]).path@
        &&& forall|i: int|
            0 <= i < self@.len() ==> (#[trigger] self@[i]).fingerprint == fingerprint_of(
                self@[i].content@,
            )
        &&& forall|i: int|
            0 <= i < self@.len() ==> (#[trigger] self@[i]).versioned_url@ == spec_versioned_url(
                self@[i].path@,
                self@[i].fingerprint,
                self.spec_policy(),
            )
    }

    /// Some asset of this registry has request path `p`.
    pub open spec fn spec_has_path(self, p: Seq<char>) -> bool {
        exists|k: int| 0 <= k < self@.len() && (#[trigger] self@[k]).path@ == p
    }

    /// Some asset of this registry was declared under field name `n`.
    pub open spec fn spec_has_name(self, n: Seq<char>) -> bool {
        exists|k: int| 0 <= k < self@.len() && (#[trigger] self@[k]).name@ == n
    }

    /// Builds the registry for `decls` under `policy`. Succeeds if and only
    /// if the declared request paths are pairwise distinct; a duplicate path
    /// is detected here, at construction time, and no registry is produced
    /// from it. On success every asset carries its declaration's data, the
    /// fingerprint of its content, and the versioned URL the policy
    /// prescribes.
    pub fn build(decls: Vec<AssetDecl>, policy: UrlPolicy) -> (r: Result<Registry, RegistryError>)
        ensures
            r is Ok <==> paths_distinct(decls@),
            r is Ok ==> r->Ok_0.wf() && built_from(r->Ok_0, decls@, policy),
            r is Err ==> r == Err::<Registry, RegistryError>(RegistryError::DuplicatePath),
    {
        let n = decls.len();
        let mut i: usize = 0;
        while i < n
            invariant
                i <= n,
                n == decls@.len(),
                forall|a: int, b: int|
                    0 <= a < b < n && a < i ==> (#[trigger] decls@[a]).path@ != (
                    #[trigger] decls@[b]).path@,
            decreases n - i,
        {
            let mut j = i + 1;
            while j < n
                invariant
                    i < j <= n,
                    n == decls@.len(),
                    forall|b: int| i < b < j ==> (#[trigger] decls@[b]).path@ != decls@[i as int].path@,
                decreases n - j,
            {
                if decls[i].path.eq(&decls[j].path) {
                    proof {
                        assert(decls@[i as int].path@ == decls@[j as int].path@);
                        assert(!paths_distinct(decls@));
                    }
                    return Err(RegistryError::DuplicatePath);
                }
                j = j + 1;
            }
            i = i + 1;
        }
        assert(paths_distinct(decls@));
        let ghost orig = decls@;
        let mut rest = decls;
        let mut assets: Vec<Asset> = Vec::new();
        while rest.len() > 0
            invariant
                assets@.len() + rest@.len() == orig.len(),
                rest@ == orig.skip(assets@.len() as int),
                forall|m: int|
                    0 <= m < assets@.len() ==> asset_matches_decl(
                        #[trigger] assets@[m],
                        orig[m],
                        policy,
                    ),
            decreases rest@.len(),
        {
            let ghost k = assets@.len() as int;
            let d = rest.remove(0);
            proof {
                assert(d == orig[k]);
                assert(rest@ =~= orig.skip(k + 1));
            }
            let fp = fingerprint(&d.content);
            let url = versioned_url_string(&d.path, fp, policy);
            let asset = Asset {
                name: d.name,
                path: d.path,
                content_type: d.content_type,
                content: d.content,
                fingerprint: fp,
                versioned_url: url,
            };
            assets.push(asset);
        }
        let reg = Registry { assets, policy };
        proof {
            assert forall|i2: int, j2: int| 0 <= i2 < j2 < reg@.len() implies (
            #[trigger] reg@[i2]).path@ != (#[trigger] reg@[j2]).path@ by {
                assert(asset_matches_decl(reg@[i2], orig[i2], policy));
                assert(asset_matches_decl(reg@[j2], orig[j2], policy));
            }
            assert(reg.wf());
        }
        Ok(reg)
    }

    /// Resolves an exact request path to the MIME string and the shared,
    /// read-only content bytes of the asset declared at that path. Returns
    /// `None` exactly when no asset has that path; equality is exact, with no
    /// partial matching or normalization. Never fails otherwise.
    pub fn resolve_by_path<'a>(&'a self, path: &str) -> (r: Option<(&'static str, &'a Vec<u8>)>)
        ensures
            match r {
                Some(found) => exists|k: int|
                    0 <= k < self@.len() && (#[trigger] self@[k]).path@ == path@ && found.0@
                        == self@[k].content_type.spec_mime() && found.1@ == self@[k].content@,
                None => !self.spec_has_path(path@),
            },
    {
        let q: String = path.to_owned();
        let mut i: usize = 0;
        while i < self.assets.len()
            invariant
                i <= self.assets.len(),
                q@ == path@,
                forall|k: int| 0 <= k < i ==> (#[trigger] self.assets@[k]).path@ != path@,
            decreases self.assets.len() - i,
        {
            if self.assets[i].path.eq(&q) {
                let m = self.assets[i].content_type.mime();
                let c = &self.assets[i].content;
                proof {
                    assert((i as int) < self@.len() && self@[i as int].path@ == path@ && m@
                        == self@[i as int].content_type.spec_mime() && c@
                        == self@[i as int].content@);
                }
                return Some((m, c));
            }
            i = i + 1;
        }
        None
    }

    /// Returns the precomputed versioned URL of the asset declared under
    /// field name `name`, or `None` when no asset was declared under it. A
    /// pure table lookup: nothing is recomputed.
    pub fn versioned_url_of<'a>(&'a self, name: &str) -> (r: Option<&'a String>)
        ensures
            match r {
                Some(u) => exists|k: int|
                    0 <= k < self@.len() && (#[trigger] self@[k]).name@ == name@ && u@
                        == self@[k].versioned_url@,
                None => !self.spec_has_name(name@),
            },
    {
        let q: String = name.to_owned();
        let mut i: usize = 0;
        while i < self.assets.len()
            invariant
                i <= self.assets.len(),
                q@ == name@,
                forall|k: int| 0 <= k < i ==> (#[trigger] self.assets@[k]).name@ != name@,
            decreases self.assets.len() - i,
        {
            if self.assets[i].name.eq(&q) {
                let u = &self.assets[i].versioned_url;
                proof {
                    assert((i as int) < self@.len() && self@[i as int].name@ == name@ && u@
                        == self@[i as int].versioned_url@);
                }
                return Some(u);
            }
            i = i + 1;
        }
        None
    }

    /// The number of assets in this registry.
    pub fn len(&self) -> (n: usize)
        ensures
            n == self@.len(),
    {
        self.assets.len()
    }
}

/// Renders the versioned URL for `path` and fingerprint `fp` under `policy`.
fn versioned_url_string(path: &String, fp: u64, policy: UrlPolicy) -> (s: String)
    ensures
        s@ == spec_versioned_url(path@, fp, policy),
{
    match policy {
        UrlPolicy::ContentFingerprint => {
            let mut s = path.clone();
            s.append("?v=");
            let digits = u64_to_decimal(fp);
            s.append(digits.as_str());
            proof {
                assert(s@ =~= spec_versioned_url(path@, fp, policy));
            }
            s
        },
        UrlPolicy::Plain => path.clone(),
    }
}

/// Construction is deterministic: two registries built from the same
/// declarations under the same policy agree on every asset's name, path,
/// content type, content, fingerprint, and versioned URL. However many
/// callers trigger construction, all observe the same values.
pub proof fn lemma_built_from_deterministic(
    r1: Registry,
    r2: Registry,
    decls: Seq<AssetDecl>,
    policy: UrlPolicy,
)
    requires
        built_from(r1, decls, policy),
        built_from(r2, decls, policy),
    ensures
        r1@.len() == r2@.len(),
        forall|i: int|
            0 <= i < r1@.len() ==> {
                &&& (#[trigger] r1@[i]).name@ == r2@[i].name@
                &&& r1@[i].path@ == r2@[i].path@
                &&& r1@[i].content_type == r2@[i].content_type
                &&& r1@[i].content@ == r2@[i].content@
                &&& r1@[i].fingerprint == r2@[i].fingerprint
                &&& r1@[i].versioned_url@ == r2@[i].versioned_url@
            },
{
    assert forall|i: int| 0 <= i < r1@.len() implies {
        &&& (#[trigger] r1@[i]).name@ == r2@[i].name@
        &&& r1@[i].path@ == r2@[i].path@
        &&& r1@[i].content_type == r2@[i].content_type
        &&& r1@[i].content@ == r2@[i].content@
        &&& r1@[i].fingerprint == r2@[i].fingerprint
        &&& r1@[i].versioned_url@ == r2@[i].versioned_url@
    } by {
        assert(asset_matches_decl(r1@[i], decls[i], policy));
        assert(asset_matches_decl(r2@[i], decls[i], policy));
    }
}

/// Fingerprints depend on content bytes alone: two assets with identical
/// content have identical fingerprints whatever their declared types, while
/// assets of distinct semantic types are served under distinct MIME strings.
pub proof fn lemma_stable_across_content_types(a1: Asset, a2: Asset)
    requires
        a1.fingerprint == fingerprint_of(a1.content@),
        a2.fingerprint == fingerprint_of(a2.content@),
        a1.content@ == a2.content@,
        a1.content_type != a2.content_type,
    ensures
        a1.fingerprint == a2.fingerprint,
        a1.content_type.spec_mime() != a2.content_type.spec_mime(),
{
    crate::content_type::lemma_mime_distinct(a1.content_type, a2.content_type);
}

} // verus!
