//! Packages: what a pod's single container image names, and the names
//! under which a downloaded package is stored on disk.
//!
//! An image reference is `oci://` followed by a product path, a colon and
//! a version (the scheme prefix may be absent); the last colon separates
//! product from version, and both parts must be non-empty.

use vstd::prelude::*;
use crate::error::StackableError;

verus! {

/// What a container image reference asks for: a product at a version.
pub struct Package {
    pub product: String,
    pub version: String,
}

/// The scheme prefix an image reference may carry.
pub open spec fn spec_scheme_prefix() -> Seq<char> {
    "oci://"@
}

pub open spec fn spec_has_scheme(s: Seq<char>) -> bool {
    s.len() >= 6 && s.subrange(0, 6) == spec_scheme_prefix()
}

/// The image reference with its scheme prefix, if any, removed.
pub open spec fn spec_strip_scheme(s: Seq<char>) -> Seq<char> {
    if spec_has_scheme(s) {
        s.skip(6)
    } else {
        s
    }
}

/// The index of the last colon in `s`, or -1 when there is none.
pub open spec fn spec_last_colon(s: Seq<char>) -> int
    decreases s.len(),
{
    if s.len() == 0 {
        -1
    } else if s[s.len() - 1] == ':' {
        s.len() - 1
    } else {
        spec_last_colon(s.take(s.len() - 1))
    }
}

/// An image reference is well-formed when, after stripping the scheme,
/// a colon splits it into a non-empty product and a non-empty version.
pub open spec fn spec_image_ok(s: Seq<char>) -> bool {
    let t = spec_strip_scheme(s);
    0 < spec_last_colon(t) < t.len() - 1
}

pub open spec fn spec_image_product(s: Seq<char>) -> Seq<char> {
    let t = spec_strip_scheme(s);
    t.take(spec_last_colon(t))
}

pub open spec fn spec_image_version(s: Seq<char>) -> Seq<char> {
    let t = spec_strip_scheme(s);
    t.skip(spec_last_colon(t) + 1)
}

/// The message a malformed image reference is rejected with.
pub open spec fn spec_image_err_msg(s: Seq<char>) -> Seq<char> {
    let t = spec_strip_scheme(s);
    if spec_last_colon(t) == -1 {
        "No version found in package reference"@
    } else if spec_last_colon(t) == 0 {
        "Empty product in package reference"@
    } else {
        "Empty version in package reference"@
    }
}

/// When every position at or past `i` is colon-free, the last colon of
/// `s` is the last colon of its first `i` characters.
pub proof fn lemma_last_colon_take(s: Seq<char>, i: int)
    requires
        0 <= i <= s.len(),
        forall|j: int| i <= j < s.len() ==> s[j] != ':',
    ensures
        spec_last_colon(s) == spec_last_colon(s.take(i)),
    decreases s.len() - i,
{
    if i < s.len() {
        assert(s.take(s.len() - 1) =~= s.take(i).take(i) + s.subrange(i, s.len() - 1)) by {
            assert(s.take(s.len() - 1) =~= s.take(s.len() - 1));
        }
        assert(s.take(s.len() - 1).take(i) =~= s.take(i));
        lemma_last_colon_take(s.take(s.len() - 1), i);
    } else {
        assert(s.take(i) =~= s);
    }
}

impl Package {
    pub open spec fn spec_eq(&self, other: &Package) -> bool {
        self.product@ == other.product@ && self.version@ == other.version@
    }

    pub fn clone_pkg(&self) -> (p: Package)
        ensures
            p.product@ == self.product@,
            p.version@ == self.version@,
    {
        Package { product: self.product.clone(), version: self.version.clone() }
    }

    /// Read a container image reference into a package. The reference is
    /// accepted exactly when, after an optional `oci://` prefix, its last
    /// colon splits it into a non-empty product and version.
    pub fn from_image_string(s: &str) -> (r: Result<Package, StackableError>)
        ensures
            match r {
                Ok(p) => {
                    &&& spec_image_ok(s@)
                    &&& p.product@ == spec_image_product(s@)
                    &&& p.version@ == spec_image_version(s@)
                },
                Err(e) => {
                    &&& !spec_image_ok(s@)
                    &&& e matches StackableError::PackageParseError { msg }
                        && msg@ == spec_image_err_msg(s@)
                },
            },
    {
        let len = s.unicode_len();
        let t: &str = if len >= 6 && s.get_char(0) == 'o' && s.get_char(1) == 'c' && s.get_char(2)
            == 'i' && s.get_char(3) == ':' && s.get_char(4) == '/' && s.get_char(5) == '/' {
            proof {
                reveal_strlit("oci://");
                assert(s@.subrange(0, 6) =~= spec_scheme_prefix());
            }
            s.substring_char(6, len)
        } else {
            proof {
                reveal_strlit("oci://");
                if spec_has_scheme(s@) {
                    assert(s@.subrange(0, 6)[0] == 'o');
                    assert(s@.subrange(0, 6)[1] == 'c');
                    assert(s@.subrange(0, 6)[2] == 'i');
                    assert(s@.subrange(0, 6)[3] == ':');
                    assert(s@.subrange(0, 6)[4] == '/');
                    assert(s@.subrange(0, 6)[5] == '/');
                }
            }
            s
        };
        proof {
            assert(t@ == spec_strip_scheme(s@));
        }
        let tlen = t.unicode_len();
        let mut i: usize = tlen;
        let mut found = false;
        while i > 0 && !found
            invariant
                0 <= i <= tlen,
                tlen == t@.len(),
                forall|j: int| i <= j < t@.len() ==> t@[j] != ':',
                found ==> 0 < i && t@[i - 1] == ':',
            decreases i, (if found { 0int } else { 1int }),
        {
            if t.get_char(i - 1) == ':' {
                found = true;
            } else {
                i = i - 1;
            }
        }
        proof {
            lemma_last_colon_take(t@, i as int);
        }
        if !found {
            proof {
                assert(t@.take(0) =~= Seq::<char>::empty());
            }
            return Err(
                StackableError::PackageParseError {
                    msg: String::from_str("No version found in package reference"),
                },
            );
        }
        proof {
            assert(t@.take(i as int)[i - 1] == ':');
            assert(spec_last_colon(t@.take(i as int)) == i - 1);
        }
        if i == 1 {
            return Err(
                StackableError::PackageParseError {
                    msg: String::from_str("Empty product in package reference"),
                },
            );
        }
        if i == tlen {
            return Err(
                StackableError::PackageParseError {
                    msg: String::from_str("Empty version in package reference"),
                },
            );
        }
        let product = t.substring_char(0, i - 1);
        let version = t.substring_char(i, tlen);
        proof {
            assert(product@ =~= spec_image_product(s@));
            assert(version@ =~= spec_image_version(s@));
        }
        Ok(Package { product: String::from_str(product), version: String::from_str(version) })
    }
}

/// A package as a repository's metadata lists it.
pub struct StackablePackage {
    pub product: String,
    pub version: String,
    pub link: String,
    pub hashes: Vec<(String, String)>,
}

impl StackablePackage {
    /// The directory a package unpacks into: `product-version`.
    pub open spec fn spec_directory_name(&self) -> Seq<char> {
        self.product@ + "-"@ + self.version@
    }

    /// The archive file name of a package: `product-version.tar.gz`.
    pub open spec fn spec_file_name(&self) -> Seq<char> {
        self.spec_directory_name() + ".tar.gz"@
    }

    pub fn get_directory_name(&self) -> (r: String)
        ensures
            r@ == self.spec_directory_name(),
    {
        let mut out = self.product.clone();
        out.append("-");
        out.append(self.version.as_str());
        out
    }

    pub fn get_file_name(&self) -> (r: String)
        ensures
            r@ == self.spec_file_name(),
    {
        let mut out = self.get_directory_name();
        out.append(".tar.gz");
        out
    }
}

} // verus!
