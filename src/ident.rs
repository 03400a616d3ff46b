//! Identity of an installed package, and which of two builds is newer.
use crate::text::str_eq;
use vstd::prelude::*;

verus! {

/// Identity of an installed package: origin, name, version as its numeric
/// parts, and release stamp.
#[derive(Debug, PartialEq, Eq)]
pub struct PackageIdent {
    pub origin: String,
    pub name: String,
    pub version: Vec<u64>,
    pub release: u64,
}

pub struct IdentView {
    pub origin: Seq<char>,
    pub name: Seq<char>,
    pub version: Seq<u64>,
    pub release: u64,
}

impl View for PackageIdent {
    type V = IdentView;

    open spec fn view(&self) -> IdentView {
        IdentView {
            origin: self.origin@,
            name: self.name@,
            version: self.version@,
            release: self.release,
        }
    }
}

/// Whether version `a` sorts before version `b`: at the first part where
/// they differ `a`'s is smaller, or `a` is a proper prefix of `b`.
pub open spec fn version_lt(a: Seq<u64>, b: Seq<u64>) -> bool {
    ||| exists|i: int|
        0 <= i < a.len() && i < b.len() && a.take(i) == b.take(i) && #[trigger] a[i] < b[i]
    ||| a.len() < b.len() && a == b.take(a.len() as int)
}

/// Whether `candidate` is a newer build of the same package as `current`.
/// The origin does not take part: only the name, then the version, then the
/// release.
pub open spec fn newer(candidate: IdentView, current: IdentView) -> bool {
    &&& candidate.name == current.name
    &&& (version_lt(current.version, candidate.version) || (current.version == candidate.version
        && current.release < candidate.release))
}

fn version_less(a: &Vec<u64>, b: &Vec<u64>) -> (r: bool)
    ensures
        r == version_lt(a@, b@),
{
    let mut i: usize = 0;
    while i < a.len() && i < b.len()
        invariant
            i <= a@.len(),
            i <= b@.len(),
            a@.take(i as int) == b@.take(i as int),
        decreases a@.len() - i,
    {
        if a[i] != b[i] {
            if a[i] < b[i] {
                return true;
            } else {
                assert forall|j: int|
                    0 <= j < a@.len() && j < b@.len() && a@.take(j) == b@.take(j) implies !(
                    #[trigger] a@[j] < b@[j]) by {
                    if j < i {
                        assert(a@[j] == a@.take(i as int)[j]);
                        assert(b@[j] == b@.take(i as int)[j]);
                    } else if j > i {
                        assert(a@[i as int] == a@.take(j)[i as int]);
                        assert(b@[i as int] == b@.take(j)[i as int]);
                    }
                };
                proof {
                    if a@.len() < b@.len() && a@ == b@.take(a@.len() as int) {
                        assert(a@[i as int] == b@.take(a@.len() as int)[i as int]);
                    }
                }
                return false;
            }
        }
        assert(a@.take(i + 1) =~= a@.take(i as int).push(a@[i as int]));
        assert(b@.take(i + 1) =~= b@.take(i as int).push(b@[i as int]));
        i = i + 1;
    }
    assert forall|j: int|
        0 <= j < a@.len() && j < b@.len() && a@.take(j) == b@.take(j) implies !(
        #[trigger] a@[j] < b@[j]) by {
        assert(a@[j] == a@.take(i as int)[j]);
        assert(b@[j] == b@.take(i as int)[j]);
    };
    if i == a.len() {
        assert(a@.take(i as int) =~= a@);
        i < b.len()
    } else {
        false
    }
}

fn versions_equal(a: &Vec<u64>, b: &Vec<u64>) -> (r: bool)
    ensures
        r == (a@ == b@),
{
    if a.len() != b.len() {
        return false;
    }
    let mut i: usize = 0;
    while i < a.len()
        invariant
            a@.len() == b@.len(),
            i <= a@.len(),
            forall|j: int| 0 <= j < i ==> a@[j] == b@[j],
        decreases a@.len() - i,
    {
        if a[i] != b[i] {
            return false;
        }
        i = i + 1;
    }
    assert(a@ =~= b@);
    true
}

impl PackageIdent {
    /// Whether `self` is a newer build of the same package as `current`.
    pub fn is_newer_than(&self, current: &PackageIdent) -> (r: bool)
        ensures
            r == newer(self@, current@),
    {
        if !str_eq(self.name.as_str(), current.name.as_str()) {
            return false;
        }
        if version_less(&current.version, &self.version) {
            return true;
        }
        versions_equal(&current.version, &self.version) && current.release < self.release
    }
}

} // verus!
