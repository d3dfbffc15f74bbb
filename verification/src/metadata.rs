//! Release metadata: typed views of the two JSON documents the pipeline
//! fetches, with explicit missing-field errors instead of chained lookups.
//!
//! The runtime metadata endpoint returns an array whose first element
//! carries the download link, the expected digest and the release name.
//! The application release endpoint returns an object with an `assets`
//! array; the matching asset's digest field may carry a `sha256:` prefix.

use vstd::prelude::*;
use vstd::string::StrSliceExecFns;
use vstd::string::StringExecFns;

use crate::errors::MetaField;
use crate::errors::SFError;
use crate::text::starts_with;

verus! {

/// The fields the pipeline reads from the runtime release metadata; each
/// may be absent from the document.
pub struct RuntimeRelease {
    /// `binary.package.checksum` of element 0: the expected hex digest.
    pub checksum: Option<String>,
    /// `binary.package.link` of element 0: the download URL.
    pub link: Option<String>,
    /// `release_name` of element 0: names the archive's root directory.
    pub release_name: Option<String>,
}

/// One element of the application release's `assets` array.
pub struct AssetMeta {
    /// The asset's file name.
    pub name: Option<String>,
    /// The asset's digest field, possibly prefixed `sha256:`.
    pub digest: Option<String>,
}

/// The mathematical content of an optional string.
pub open spec fn opt_str_view(o: Option<String>) -> Option<Seq<char>> {
    match o {
        Option::Some(s) => Option::Some(s@),
        Option::None => Option::None,
    }
}

/// The runtime release fields held in `body`, in the order (checksum,
/// link, release name), or `None` when `body` is not a JSON document.
/// The parser is outside code; this name stands for its result, which
/// depends on `body` alone.
pub uninterp spec fn runtime_release_of(body: Seq<char>) -> Option<
    (Option<Seq<char>>, Option<Seq<char>>, Option<Seq<char>>),
>;

/// The (name, digest) pairs of the `assets` array held in `body`, or
/// `None` when `body` is not a JSON document with an `assets` array. The
/// parser is outside code; this name stands for its result, which depends
/// on `body` alone.
pub uninterp spec fn release_assets_of(body: Seq<char>) -> Option<
    Seq<(Option<Seq<char>>, Option<Seq<char>>)>,
>;

/// The mathematical content of a parsed asset list.
pub open spec fn assets_view(assets: Seq<AssetMeta>) -> Seq<
    (Option<Seq<char>>, Option<Seq<char>>),
> {
    assets.map_values(|a: AssetMeta| (opt_str_view(a.name), opt_str_view(a.digest)))
}

/// Relies on `serde_json::from_str::<Value>` and `Value`'s index and
/// `as_str` accessors: reads the three runtime release fields out of the
/// document; `None` when the body is not JSON.
#[verifier::external_body]
pub(crate) fn parse_runtime_release(body: &str) -> (r: Option<RuntimeRelease>)
    ensures
        match r {
            Some(rel) => runtime_release_of(body@) == Option::Some(
                (opt_str_view(rel.checksum), opt_str_view(rel.link), opt_str_view(rel.release_name)),
            ),
            None => runtime_release_of(body@) is None,
        },
{
    let v: serde_json::Value = serde_json::from_str(body).ok()?;
    Some(RuntimeRelease {
        checksum: v[0]["binary"]["package"]["checksum"].as_str().map(|s| s.to_string()),
        link: v[0]["binary"]["package"]["link"].as_str().map(|s| s.to_string()),
        release_name: v[0]["release_name"].as_str().map(|s| s.to_string()),
    })
}

/// Relies on `serde_json::from_str::<Value>` and `Value`'s accessors:
/// reads the (name, digest) pairs of the `assets` array; `None` when the
/// body is not JSON or has no `assets` array.
#[verifier::external_body]
pub(crate) fn parse_release_assets(body: &str) -> (r: Option<Vec<AssetMeta>>)
    ensures
        match r {
            Some(assets) => release_assets_of(body@) == Option::Some(assets_view(assets@)),
            None => release_assets_of(body@) is None,
        },
{
    let v: serde_json::Value = serde_json::from_str(body).ok()?;
    let arr = v["assets"].as_array()?;
    let mut out = Vec::new();
    for a in arr {
        out.push(AssetMeta {
            name: a["name"].as_str().map(|s| s.to_string()),
            digest: a["digest"].as_str().map(|s| s.to_string()),
        });
    }
    Some(out)
}

/// A fully resolved runtime artifact description.
pub struct RuntimeArtifact {
    /// Expected hex digest of the archive.
    pub checksum: String,
    /// Download URL of the archive.
    pub url: String,
    /// Release name; the archive's root directory is derived from it.
    pub release_name: String,
}

/// Resolves the runtime release metadata `body` into an artifact
/// description, reporting the first missing field in the order checksum,
/// link, release name.
pub fn runtime_release_from_json(body: &str) -> (r: Result<RuntimeArtifact, SFError>)
    ensures
        match runtime_release_of(body@) {
            Option::None => r == Result::<RuntimeArtifact, SFError>::Err(
                SFError::MetadataUnparseable,
            ),
            Option::Some(t) => match r {
                Ok(a) => t == (
                    Option::Some(a.checksum@),
                    Option::Some(a.url@),
                    Option::Some(a.release_name@),
                ),
                Err(e) => {
                    &&& (t.0 is None ==> e == SFError::JsonFieldInvalid(MetaField::RuntimeChecksum))
                    &&& (t.0 is Some && t.1 is None ==> e == SFError::JsonFieldInvalid(
                        MetaField::RuntimeLink,
                    ))
                    &&& (t.0 is Some && t.1 is Some && t.2 is None ==> e
                        == SFError::JsonFieldInvalid(MetaField::ReleaseName))
                    &&& !(t.0 is Some && t.1 is Some && t.2 is Some)
                },
            },
        },
{
    match parse_runtime_release(body) {
        None => Err(SFError::MetadataUnparseable),
        Some(rel) => {
            match rel.checksum {
                None => Err(SFError::JsonFieldInvalid(MetaField::RuntimeChecksum)),
                Some(checksum) => match rel.link {
                    None => Err(SFError::JsonFieldInvalid(MetaField::RuntimeLink)),
                    Some(url) => match rel.release_name {
                        None => Err(SFError::JsonFieldInvalid(MetaField::ReleaseName)),
                        Some(release_name) => Ok(RuntimeArtifact { checksum, url, release_name }),
                    },
                },
            }
        },
    }
}

/// `a` is the asset named `name`.
pub open spec fn asset_matches(a: AssetMeta, name: Seq<char>) -> bool {
    match a.name {
        Option::Some(n) => n@ == name,
        Option::None => false,
    }
}

/// The first asset named `name`, searching front to back.
pub open spec fn find_asset(assets: Seq<AssetMeta>, name: Seq<char>) -> Option<AssetMeta>
    decreases assets.len(),
{
    if assets.len() == 0 {
        Option::None
    } else if asset_matches(assets[0], name) {
        Option::Some(assets[0])
    } else {
        find_asset(assets.drop_first(), name)
    }
}

/// `digest` with an optional leading `sha256:` tag removed.
pub open spec fn strip_sha256_prefix(digest: Seq<char>) -> Seq<char> {
    if starts_with(digest, "sha256:"@) {
        digest.skip("sha256:"@.len() as int)
    } else {
        digest
    }
}

/// Looks up the expected digest of the asset named `file_name`,
/// accepting an optional `sha256:` prefix on the digest field.
pub fn find_asset_digest(assets: &Vec<AssetMeta>, file_name: &str) -> (r: Result<String, SFError>)
    ensures
        match find_asset(assets@, file_name@) {
            Option::None => r == Result::<String, SFError>::Err(
                SFError::JsonFieldInvalid(MetaField::AssetEntry),
            ),
            Option::Some(a) => match a.digest {
                Option::None => r == Result::<String, SFError>::Err(
                    SFError::JsonFieldInvalid(MetaField::AssetDigest),
                ),
                Option::Some(d) => r matches Ok(out) && out@ == strip_sha256_prefix(d@),
            },
        },
{
    let n = assets.len();
    let mut i: usize = 0;
    proof {
        assert(assets@.skip(0) =~= assets@);
    }
    while i < n
        invariant
            n == assets@.len(),
            0 <= i <= n,
            find_asset(assets@.skip(i as int), file_name@) == find_asset(assets@, file_name@),
        decreases n - i,
    {
        proof {
            assert(assets@.skip(i as int)[0] == assets@[i as int]);
        }
        let matched = match &assets[i].name {
            Some(asset_name) => crate::text::str_eq(asset_name.as_str(), file_name),
            None => false,
        };
        if matched {
            proof {
                assert(asset_matches(assets@.skip(i as int)[0], file_name@));
                assert(find_asset(assets@, file_name@) == Option::Some(assets@[i as int]));
            }
            match &assets[i].digest {
                None => {
                    return Err(SFError::JsonFieldInvalid(MetaField::AssetDigest));
                },
                Some(digest) => {
                    let digest: String = digest.clone();
                    if crate::text::str_starts_with(digest.as_str(), "sha256:") {
                        let tag_len: usize = "sha256:".unicode_len();
                        let total: usize = digest.as_str().unicode_len();
                        let stripped = digest.as_str().substring_char(tag_len, total).to_owned();
                        proof {
                            assert(stripped@ =~= digest@.skip("sha256:"@.len() as int));
                        }
                        return Ok(stripped);
                    } else {
                        return Ok(digest);
                    }
                },
            }
        }
        proof {
            assert(!asset_matches(assets@.skip(i as int)[0], file_name@));
            assert(assets@.skip(i as int).drop_first() =~= assets@.skip(i as int + 1));
        }
        i = i + 1;
    }
    proof {
        assert(assets@.skip(n as int) =~= Seq::<AssetMeta>::empty());
    }
    Err(SFError::JsonFieldInvalid(MetaField::AssetEntry))
}

} // verus!
