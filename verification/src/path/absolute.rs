//! Validated wrappers around host-native paths that are known to be absolute.
//!
//! The native path types are opaque here; the only fact this module relies on
//! is whether a given path is absolute under the host's convention, obtained
//! once at construction from `std::path::Path::is_absolute`.

use vstd::prelude::*;

use std::path::Path;
use std::path::PathBuf;

verus! {

#[verifier::external_type_specification]
#[verifier::external_body]
pub struct ExPathBuf(PathBuf);

#[verifier::external_type_specification]
#[verifier::external_body]
pub struct ExPath(Path);

/// Whether a native path is absolute under the host's convention: the result
/// of `std::path::Path::is_absolute`, which depends only on the path value
/// and on the convention the crate was built for.
pub uninterp spec fn path_is_absolute(p: &Path) -> bool;

/// The borrowed form of an owned native path: the result of
/// `std::path::PathBuf::as_path`, which depends on the path value alone.
pub uninterp spec fn buf_as_path(p: &PathBuf) -> &Path;

/// Relies on `std::path::Path::is_absolute`: reports whether the path is
/// absolute under the host's convention.
pub assume_specification[ Path::is_absolute ](p: &Path) -> (r: bool)
    ensures
        r == path_is_absolute(p),
;

/// Relies on `std::path::PathBuf::as_path`: coerces the owned path to its
/// borrowed form; the path value itself is unchanged.
pub assume_specification<'a>[ PathBuf::as_path ](p: &'a PathBuf) -> (r: &'a Path)
    ensures
        r == buf_as_path(p),
;

/// An owned native path that is absolute under the host's convention.
///
/// The invariant is established once, at construction, and the value is never
/// mutated afterwards.
#[derive(PartialEq, Eq)]
pub struct AbsolutePathBuf {
    buf: PathBuf,
}

impl AbsolutePathBuf {
    /// The wrapped native path value.
    pub closed spec fn spec_buf(&self) -> PathBuf {
        self.buf
    }

    #[verifier::type_invariant]
    spec fn wf(self) -> bool {
        path_is_absolute(buf_as_path(&self.buf))
    }

    /// Validated construction: wraps `p` exactly when `p` is absolute, and
    /// yields nothing otherwise.
    pub fn new(p: PathBuf) -> (r: Option<AbsolutePathBuf>)
        ensures
            r is Some <==> path_is_absolute(buf_as_path(&p)),
            r matches Some(a) ==> a.spec_buf() == p,
    {
        if p.as_path().is_absolute() {
            Some(AbsolutePathBuf { buf: p })
        } else {
            None
        }
    }

    /// Construction without a run-time check: the caller must already know
    /// that `p` is absolute, and verification enforces exactly that, so the
    /// invariant can never be bypassed.
    pub fn new_unchecked(p: PathBuf) -> (r: AbsolutePathBuf)
        requires
            path_is_absolute(buf_as_path(&p)),
        ensures
            r.spec_buf() == p,
    {
        AbsolutePathBuf { buf: p }
    }

    /// Read-only access to the wrapped native path.
    pub fn as_path_buf(&self) -> (r: &PathBuf)
        ensures
            *r == self.spec_buf(),
            path_is_absolute(buf_as_path(r)),
    {
        proof {
            use_type_invariant(self);
        }
        &self.buf
    }

    /// A non-owning view of the same absolute path, valid while `self` lives.
    pub fn as_absolute_path(&self) -> (r: AbsolutePath<'_>)
        ensures
            r.spec_path() == buf_as_path(&self.spec_buf()),
    {
        proof {
            use_type_invariant(self);
        }
        AbsolutePath { p: self.buf.as_path() }
    }
}

/// A borrowed native path that is absolute under the host's convention, with
/// the same invariant as [`AbsolutePathBuf`] but no ownership.
#[derive(PartialEq, Eq)]
pub struct AbsolutePath<'a> {
    p: &'a Path,
}

impl<'a> AbsolutePath<'a> {
    /// The referenced native path.
    pub closed spec fn spec_path(&self) -> &'a Path {
        self.p
    }

    #[verifier::type_invariant]
    spec fn wf(self) -> bool {
        path_is_absolute(self.p)
    }

    /// Validated construction: wraps `p` exactly when `p` is absolute, and
    /// yields nothing otherwise.
    pub fn new(p: &'a Path) -> (r: Option<AbsolutePath<'a>>)
        ensures
            r is Some <==> path_is_absolute(p),
            r matches Some(a) ==> a.spec_path() == p,
    {
        if p.is_absolute() {
            Some(AbsolutePath { p })
        } else {
            None
        }
    }

    /// Construction without a run-time check: the caller must already know
    /// that `p` is absolute, and verification enforces exactly that.
    pub fn new_unchecked(p: &'a Path) -> (r: AbsolutePath<'a>)
        requires
            path_is_absolute(p),
        ensures
            r.spec_path() == p,
    {
        AbsolutePath { p }
    }

    /// Read-only access to the referenced native path.
    pub fn as_path(&self) -> (r: &'a Path)
        ensures
            r == self.spec_path(),
            path_is_absolute(r),
    {
        proof {
            use_type_invariant(self);
        }
        self.p
    }
}

} // verus!
