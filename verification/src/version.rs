//! A semantic version held as plain values.

use crate::text::{decimal, to_decimal};
use vstd::prelude::*;
use vstd::string::*;

verus! {

/// A semantic version: three numbers, a pre-release tag and build metadata.
/// The two texts are empty where the version has none; they are stored without
/// the `-` and `+` that introduce them in the written form.
#[derive(Clone, Debug, PartialEq, Eq)]
pub struct Version {
    pub major: u64,
    pub minor: u64,
    pub patch: u64,
    pub pre: String,
    pub build: String,
}

/// The mathematical value of a [`Version`].
pub struct VersionView {
    pub major: u64,
    pub minor: u64,
    pub patch: u64,
    pub pre: Seq<char>,
    pub build: Seq<char>,
}

impl View for Version {
    type V = VersionView;

    open spec fn view(&self) -> VersionView {
        VersionView {
            major: self.major,
            minor: self.minor,
            patch: self.patch,
            pre: self.pre@,
            build: self.build@,
        }
    }
}

impl VersionView {
    /// The written form: the three numbers with dots between them, then the
    /// pre-release tag behind a hyphen and the build metadata behind a plus
    /// sign, each only where it is not empty.
    pub open spec fn written(self) -> Seq<char> {
        decimal(self.major as nat) + "."@ + decimal(self.minor as nat) + "."@ + decimal(
            self.patch as nat,
        ) + (if self.pre.len() == 0 {
            Seq::<char>::empty()
        } else {
            "-"@ + self.pre
        }) + (if self.build.len() == 0 {
            Seq::<char>::empty()
        } else {
            "+"@ + self.build
        })
    }
}

impl Version {
    /// The written form of the version.
    pub fn to_string(&self) -> (s: String)
        ensures
            s@ == self@.written(),
    {
        let mut s = to_decimal(self.major);
        s.append(".");
        let minor = to_decimal(self.minor);
        s.append(minor.as_str());
        s.append(".");
        let patch = to_decimal(self.patch);
        s.append(patch.as_str());
        let ghost numbers = s@;
        if !self.pre.as_str().is_empty() {
            s.append("-");
            s.append(self.pre.as_str());
            proof {
                assert(s@ =~= numbers + ("-"@ + self.pre@));
            }
        } else {
            proof {
                assert(s@ =~= numbers + Seq::<char>::empty());
            }
        }
        let ghost tagged = s@;
        if !self.build.as_str().is_empty() {
            s.append("+");
            s.append(self.build.as_str());
            proof {
                assert(s@ =~= tagged + ("+"@ + self.build@));
            }
        } else {
            proof {
                assert(s@ =~= tagged + Seq::<char>::empty());
            }
        }
        s
    }

    /// A version without pre-release tag and build metadata.
    pub fn new(major: u64, minor: u64, patch: u64) -> (v: Version)
        ensures
            v@ == (VersionView { major, minor, patch, pre: Seq::empty(), build: Seq::empty() }),
    {
        Version { major, minor, patch, pre: String::new(), build: String::new() }
    }

    /// A version with the given pre-release tag and build metadata.
    pub fn with_tags(major: u64, minor: u64, patch: u64, pre: &str, build: &str) -> (v: Version)
        ensures
            v@ == (VersionView { major, minor, patch, pre: pre@, build: build@ }),
    {
        Version { major, minor, patch, pre: pre.to_owned(), build: build.to_owned() }
    }
}

} // verus!
