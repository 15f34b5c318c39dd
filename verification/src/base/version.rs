//! Semantic versions.

use crate::text::decimal_text;
use crate::text::push_decimal;
use crate::text::string_of;
use vstd::prelude::*;

verus! {

/// The version of the wallet standard that this library speaks.
pub const WALLET_STANDARD_VERSION: &'static str = "1.0.0";

/// A semantic version of three small numbers.
#[derive(Debug, PartialEq, Eq, Structural, PartialOrd, Ord, Hash, Clone, Copy)]
pub struct SemverVersion {
    major: u8,
    minor: u8,
    patch: u8,
}

/// Something that reports the version of the wallet standard it follows,
/// `1.0.0` unless it says otherwise.
pub trait Version {
    /// The version that is reported.
    fn version(&self) -> (v: SemverVersion)
        default_ensures
            v.numbers() == (1u8, 0u8, 0u8),
    {
        SemverVersion { major: 1, minor: 0, patch: 0 }
    }
}

impl Version for SemverVersion {

}

impl SemverVersion {
    /// The three numbers of the version.
    pub closed spec fn numbers(&self) -> (u8, u8, u8) {
        (self.major, self.minor, self.patch)
    }

    /// The version with the numbers `major`, `minor` and `patch`.
    pub closed spec fn from_numbers(major: u8, minor: u8, patch: u8) -> SemverVersion {
        SemverVersion { major, minor, patch }
    }

    /// A version is the version with its numbers.
    pub proof fn lemma_from_numbers(self)
        ensures
            self == SemverVersion::from_numbers(
                self.numbers().0,
                self.numbers().1,
                self.numbers().2,
            ),
    {
    }

    /// The version as text: the three numbers in decimal, joined by dots.
    pub open spec fn text(&self) -> Seq<char> {
        decimal_text(self.numbers().0 as nat) + seq!['.'] + decimal_text(self.numbers().1 as nat)
            + seq!['.'] + decimal_text(self.numbers().2 as nat)
    }

    /// The version `1.0.0`.
    pub fn new() -> (v: SemverVersion)
        ensures
            v.numbers() == (1u8, 0u8, 0u8),
    {
        SemverVersion { major: 1, minor: 0, patch: 0 }
    }

    /// The same version with another major number.
    pub fn set_major(self, major: u8) -> (v: SemverVersion)
        ensures
            v.numbers() == (major, self.numbers().1, self.numbers().2),
    {
        SemverVersion { major, minor: self.minor, patch: self.patch }
    }

    /// The same version with another minor number.
    pub fn set_minor(self, minor: u8) -> (v: SemverVersion)
        ensures
            v.numbers() == (self.numbers().0, minor, self.numbers().2),
    {
        SemverVersion { major: self.major, minor, patch: self.patch }
    }

    /// The same version with another patch number.
    pub fn set_patch(self, patch: u8) -> (v: SemverVersion)
        ensures
            v.numbers() == (self.numbers().0, self.numbers().1, patch),
    {
        SemverVersion { major: self.major, minor: self.minor, patch }
    }

    /// The major number.
    pub fn major(&self) -> (n: u8)
        ensures
            n == self.numbers().0,
    {
        self.major
    }

    /// The minor number.
    pub fn minor(&self) -> (n: u8)
        ensures
            n == self.numbers().1,
    {
        self.minor
    }

    /// The patch number.
    pub fn patch(&self) -> (n: u8)
        ensures
            n == self.numbers().2,
    {
        self.patch
    }

    /// The version as text, in the form `major.minor.patch`.
    pub fn stringify_version(&self) -> (s: String)
        ensures
            s@ == self.text(),
    {
        let mut chars: Vec<char> = Vec::new();
        push_decimal(&mut chars, self.major);
        chars.push('.');
        push_decimal(&mut chars, self.minor);
        chars.push('.');
        push_decimal(&mut chars, self.patch);
        proof {
            assert(chars@ =~= self.text());
        }
        string_of(chars.as_slice())
    }
}

impl Default for SemverVersion {
    /// The version `1.0.0`.
    fn default() -> (v: SemverVersion)
        ensures
            v.numbers() == (1u8, 0u8, 0u8),
    {
        SemverVersion { major: 1, minor: 0, patch: 0 }
    }
}

} // verus!
