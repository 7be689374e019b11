//! Package repositories: the metadata a repository serves, the lookup
//! of packages in it, and the URL arithmetic around both.

use vstd::prelude::*;
use crate::error::StackableError;
use crate::package::{Package, StackablePackage};
use crate::urls::{join_url, parse_url, url_joined, url_normalized, url_push_segment,
    url_with_segment};

verus! {

/// One product version as the raw repository metadata lists it.
pub struct ProductEntry {
    pub version: String,
    pub path: String,
}

/// The raw metadata document a repository serves: per product, the
/// versions it provides.
pub struct RepoData {
    pub version: String,
    pub parcels: Vec<(String, Vec<ProductEntry>)>,
}

/// The digested metadata the agent works with: per product, the
/// packages it can install.
pub struct RepositoryContent {
    pub version: String,
    pub parcels: Vec<(String, Vec<StackablePackage>)>,
}

/// Whether the content lists the package's product at its version.
pub open spec fn spec_provides(content: &RepositoryContent, package: &Package) -> bool {
    exists|i: int, j: int|
        0 <= i < content.parcels@.len() && 0 <= j < (#[trigger] content.parcels@[i]).1@.len()
            && content.parcels@[i].0@ == package.product@
            && (#[trigger] content.parcels@[i].1@[j]).version@ == package.version@
}

/// Digest the raw metadata: each listed version of each product becomes
/// a package of that product and version (the download link and hashes
/// are filled in when the package is fetched).
pub fn content_from_repo_data(data: RepoData) -> (r: RepositoryContent)
    ensures
        r.version@ == data.version@,
        r.parcels@.len() == data.parcels@.len(),
        forall|i: int|
            0 <= i < data.parcels@.len() ==> {
                &&& (#[trigger] r.parcels@[i]).0@ == data.parcels@[i].0@
                &&& r.parcels@[i].1@.len() == data.parcels@[i].1@.len()
                &&& forall|j: int|
                    0 <= j < data.parcels@[i].1@.len() ==> {
                        &&& (#[trigger] r.parcels@[i].1@[j]).product@ == data.parcels@[i].0@
                        &&& r.parcels@[i].1@[j].version@ == data.parcels@[i].1@[j].version@
                        &&& r.parcels@[i].1@[j].link@.len() == 0
                        &&& r.parcels@[i].1@[j].hashes@.len() == 0
                    }
            },
{
    let RepoData { version, parcels } = data;
    let mut out: Vec<(String, Vec<StackablePackage>)> = Vec::new();
    let mut rest = parcels;
    let ghost all = rest@;
    proof {
        assert(rest@.len() == rest.len());
    }
    let mut done: usize = 0;
    while rest.len() > 0
        invariant
            0 <= done <= all.len() <= usize::MAX,
            rest@ =~= all.skip(done as int),
            out@.len() == done,
            forall|i: int|
                0 <= i < done ==> {
                    &&& (#[trigger] out@[i]).0@ == all[i].0@
                    &&& out@[i].1@.len() == all[i].1@.len()
                    &&& forall|j: int|
                        0 <= j < all[i].1@.len() ==> {
                            &&& (#[trigger] out@[i].1@[j]).product@ == all[i].0@
                            &&& out@[i].1@[j].version@ == all[i].1@[j].version@
                            &&& out@[i].1@[j].link@.len() == 0
                            &&& out@[i].1@[j].hashes@.len() == 0
                        }
                },
        decreases rest@.len(),
    {
        let (product, versions) = rest.remove(0);
        proof {
            assert(all[done as int] == all.skip(done as int)[0]);
        }
        let mut packages: Vec<StackablePackage> = Vec::new();
        let mut vrest = versions;
        let ghost vall = vrest@;
        proof {
            assert(vrest@.len() == vrest.len());
        }
        let mut vdone: usize = 0;
        while vrest.len() > 0
            invariant
                0 <= vdone <= vall.len() <= usize::MAX,
                vrest@ =~= vall.skip(vdone as int),
                packages@.len() == vdone,
                product@ == all[done as int].0@,
                forall|j: int|
                    0 <= j < vdone ==> {
                        &&& (#[trigger] packages@[j]).product@ == product@
                        &&& packages@[j].version@ == vall[j].version@
                        &&& packages@[j].link@.len() == 0
                        &&& packages@[j].hashes@.len() == 0
                    },
            decreases vrest@.len(),
        {
            let entry = vrest.remove(0);
            proof {
                assert(vall[vdone as int] == vall.skip(vdone as int)[0]);
            }
            packages.push(
                StackablePackage {
                    product: product.clone(),
                    version: entry.version,
                    link: String::new(),
                    hashes: Vec::new(),
                },
            );
            vdone = vdone + 1;
        }
        out.push((product, packages));
        done = done + 1;
    }
    proof {
        assert(all.skip(done as int).len() == 0);
        assert(done == all.len());
    }
    RepositoryContent { version, parcels: out }
}

/// A repository the agent knows: its name, its base URL (held as the
/// normalized serialization), and its metadata once fetched.
pub struct StackableRepoProvider {
    pub name: String,
    pub base_url: String,
    pub content: Option<RepositoryContent>,
}

/// The first value stored under the key, if any.
pub open spec fn spec_first_prop(props: Seq<(String, String)>, key: Seq<char>) -> Option<Seq<char>>
    decreases props.len(),
{
    if props.len() == 0 {
        None
    } else if props[0].0@ == key {
        Some(props[0].1@)
    } else {
        spec_first_prop(props.drop_first(), key)
    }
}

impl StackableRepoProvider {
    /// A new repository handle. Accepted exactly when the base URL
    /// parses as an absolute URL; it is held normalized.
    pub fn new(name: String, base_url: String) -> (r: Result<
        StackableRepoProvider,
        StackableError,
    >)
        ensures
            match r {
                Ok(p) => {
                    &&& url_normalized(base_url@) == Some(p.base_url@)
                    &&& p.name@ == name@
                    &&& p.content is None
                },
                Err(e) => url_normalized(base_url@) is None && e is UrlParseError,
            },
    {
        match parse_url(base_url.as_str()) {
            Some(normalized) => Ok(
                StackableRepoProvider { name, base_url: normalized, content: None },
            ),
            None => Err(StackableError::UrlParseError { url: base_url }),
        }
    }

    /// Read a repository handle out of a cluster repository object:
    /// its name, and the `url` property as base URL. Rejected without a
    /// `url` property, or with one that does not parse.
    pub fn from_properties(name: String, properties: &Vec<(String, String)>) -> (r: Result<
        StackableRepoProvider,
        StackableError,
    >)
        ensures
            match r {
                Ok(p) => {
                    &&& spec_first_prop(properties@, "url"@) matches Some(u) && url_normalized(u)
                        == Some(p.base_url@)
                    &&& p.name@ == name@
                    &&& p.content is None
                },
                Err(e) => match spec_first_prop(properties@, "url"@) {
                    None => e is RepositoryConversionError,
                    Some(u) => url_normalized(u) is None && e is UrlParseError,
                },
            },
    {
        let url_key = String::from_str("url");
        proof {
            assert(properties@.skip(0) =~= properties@);
        }
        let mut i: usize = 0;
        while i < properties.len()
            invariant
                0 <= i <= properties@.len(),
                url_key@ == "url"@,
                spec_first_prop(properties@, "url"@) == spec_first_prop(
                    properties@.skip(i as int),
                    "url"@,
                ),
            decreases properties@.len() - i,
        {
            proof {
                assert(properties@.skip(i as int)[0] == properties@[i as int]);
                assert(properties@.skip(i as int).drop_first() =~= properties@.skip(i + 1));
            }
            if properties[i].0.eq(&url_key) {
                return Self::new(name, properties[i].1.clone());
            }
            i = i + 1;
        }
        proof {
            assert(properties@.skip(properties@.len() as int).len() == 0);
        }
        Err(StackableError::RepositoryConversionError)
    }

    /// Remember fetched metadata.
    pub fn set_content(&mut self, content: RepositoryContent)
        ensures
            final(self).content == Some(content),
            final(self).name@ == old(self).name@,
            final(self).base_url@ == old(self).base_url@,
    {
        self.content = Some(content);
    }

    /// The URL the repository's metadata document lives at: the base
    /// URL with the segment `metadata.json` appended.
    pub fn metadata_url(&self) -> (r: Result<String, StackableError>)
        ensures
            match r {
                Ok(u) => url_with_segment(self.base_url@, "metadata.json"@) == Some(u@),
                Err(e) => url_with_segment(self.base_url@, "metadata.json"@) is None
                    && e is UrlParseError,
            },
    {
        match url_push_segment(self.base_url.as_str(), "metadata.json") {
            Some(u) => Ok(u),
            None => Err(StackableError::UrlParseError { url: self.base_url.clone() }),
        }
    }

    /// Whether this repository provides the package, judged from its
    /// fetched metadata; asking before the metadata is fetched is an
    /// error.
    pub fn provides_package(&self, package: &Package) -> (r: Result<bool, StackableError>)
        ensures
            match r {
                Ok(b) => self.content matches Some(c) && b == spec_provides(&c, package),
                Err(e) => self.content is None && e is RuntimeError,
            },
    {
        match &self.content {
            None => Err(
                StackableError::RuntimeError {
                    msg: String::from_str("Repository metadata has not been fetched"),
                },
            ),
            Some(content) => {
                let mut i: usize = 0;
                while i < content.parcels.len()
                    invariant
                        0 <= i <= content.parcels@.len(),
                        self.content == Some(*content),
                        forall|k: int, j: int|
                            0 <= k < i && 0 <= j < (#[trigger] content.parcels@[k]).1@.len() ==> !(
                            content.parcels@[k].0@ == package.product@ && (#[trigger] content
                                .parcels@[k].1@[j]).version@ == package.version@),
                    decreases content.parcels@.len() - i,
                {
                    if content.parcels[i].0.eq(&package.product) {
                        let versions = &content.parcels[i].1;
                        let mut j: usize = 0;
                        while j < versions.len()
                            invariant
                                0 <= j <= versions@.len(),
                                self.content == Some(*content),
                                versions@ == content.parcels@[i as int].1@,
                                i < content.parcels@.len(),
                                content.parcels@[i as int].0@ == package.product@,
                                forall|m: int|
                                    0 <= m < j ==> (#[trigger] versions@[m]).version@
                                        != package.version@,
                            decreases versions@.len() - j,
                        {
                            if versions[j].version.eq(&package.version) {
                                proof {
                                    assert((#[trigger] content.parcels@[i as int].1@[j as int])
                                        .version@ == package.version@);
                                    assert(spec_provides(&content, package));
                                }
                                return Ok(true);
                            }
                            j = j + 1;
                        }
                    }
                    i = i + 1;
                }
                Ok(false)
            },
        }
    }

    /// The package's entry in the fetched metadata; an error names a
    /// package the repository does not provide.
    pub fn get_package(&self, package: &Package) -> (r: Result<StackablePackage, StackableError>)
        ensures
            match r {
                Ok(sp) => {
                    &&& self.content matches Some(c) && spec_provides(&c, package)
                    &&& sp.product@ == package.product@
                    &&& sp.version@ == package.version@
                },
                Err(e) => e is RuntimeError && match self.content {
                    Some(c) => !spec_provides(&c, package),
                    None => true,
                },
            },
    {
        match &self.content {
            None => Err(
                StackableError::RuntimeError {
                    msg: String::from_str("Repository metadata has not been fetched"),
                },
            ),
            Some(content) => {
                let mut i: usize = 0;
                while i < content.parcels.len()
                    invariant
                        0 <= i <= content.parcels@.len(),
                        self.content == Some(*content),
                        forall|k: int, j: int|
                            0 <= k < i && 0 <= j < (#[trigger] content.parcels@[k]).1@.len() ==> !(
                            content.parcels@[k].0@ == package.product@ && (#[trigger] content
                                .parcels@[k].1@[j]).version@ == package.version@),
                    decreases content.parcels@.len() - i,
                {
                    if content.parcels[i].0.eq(&package.product) {
                        let versions = &content.parcels[i].1;
                        let mut j: usize = 0;
                        while j < versions.len()
                            invariant
                                0 <= j <= versions@.len(),
                                self.content == Some(*content),
                                versions@ == content.parcels@[i as int].1@,
                                i < content.parcels@.len(),
                                content.parcels@[i as int].0@ == package.product@,
                                forall|m: int|
                                    0 <= m < j ==> (#[trigger] versions@[m]).version@
                                        != package.version@,
                            decreases versions@.len() - j,
                        {
                            if versions[j].version.eq(&package.version) {
                                proof {
                                    assert((#[trigger] content.parcels@[i as int].1@[j as int])
                                        .version@ == package.version@);
                                    assert(spec_provides(&content, package));
                                }
                                let sp = &versions[j];
                                return Ok(
                                    StackablePackage {
                                        product: package.product.clone(),
                                        version: package.version.clone(),
                                        link: sp.link.clone(),
                                        hashes: Vec::new(),
                                    },
                                );
                            }
                            j = j + 1;
                        }
                    }
                    i = i + 1;
                }
                Err(
                    StackableError::RuntimeError {
                        msg: String::from_str("Package not provided by this repository"),
                    },
                )
            },
        }
    }

    /// Resolve a possibly-relative path against the repository's base
    /// URL. A path that is itself an absolute URL is returned unchanged;
    /// anything else is joined onto the base.
    pub fn resolve_url(&self, path: String) -> (r: Result<String, StackableError>)
        ensures
            match r {
                Ok(u) => {
                    if url_normalized(path@) is Some {
                        u@ == path@
                    } else {
                        url_joined(self.base_url@, path@) == Some(u@)
                    }
                },
                Err(e) => {
                    &&& url_normalized(path@) is None
                    &&& url_joined(self.base_url@, path@) is None
                    &&& e is UrlParseError
                },
            },
    {
        match parse_url(path.as_str()) {
            Some(_) => Ok(path),
            None => match join_url(self.base_url.as_str(), path.as_str()) {
                Some(u) => Ok(u),
                None => Err(StackableError::UrlParseError { url: path }),
            },
        }
    }
}

/// Which of the fetched repositories provides the package: the first
/// one that does, as the search visits them in order.
pub fn select_repository(repos: &Vec<StackableRepoProvider>, package: &Package) -> (r: Option<
    usize,
>)
    ensures
        match r {
            Some(i) => {
                &&& i < repos@.len()
                &&& repos@[i as int].content matches Some(c) && spec_provides(&c, package)
                &&& forall|k: int|
                    0 <= k < i ==> match (#[trigger] repos@[k]).content {
                        Some(c) => !spec_provides(&c, package),
                        None => true,
                    }
            },
            None => forall|k: int|
                0 <= k < repos@.len() ==> match (#[trigger] repos@[k]).content {
                    Some(c) => !spec_provides(&c, package),
                    None => true,
                },
        },
{
    let mut i: usize = 0;
    while i < repos.len()
        invariant
            0 <= i <= repos@.len(),
            forall|k: int|
                0 <= k < i ==> match (#[trigger] repos@[k]).content {
                    Some(c) => !spec_provides(&c, package),
                    None => true,
                },
        decreases repos@.len() - i,
    {
        match repos[i].provides_package(package) {
            Ok(true) => {
                return Some(i);
            },
            _ => {},
        }
        i = i + 1;
    }
    None
}

} // verus!
