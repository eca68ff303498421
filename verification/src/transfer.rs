//! What a sink is told about a file, and what it answers before the first byte.
use vstd::prelude::*;

verus! {

/// A digest algorithm that a caller may supply a checksum of.
#[derive(Debug, Clone, Copy, PartialEq, Eq, Structural)]
pub enum Algorithm {
    Sha1,
    Md5,
}

impl Algorithm {
    /// The name under which a digest of this algorithm is recorded.
    pub open spec fn spec_name(self) -> Seq<char> {
        match self {
            Algorithm::Sha1 => "sha1"@,
            Algorithm::Md5 => "md5"@,
        }
    }

    /// The name under which a digest of this algorithm is recorded.
    pub fn name(self) -> (r: &'static str)
        ensures
            r@ == self.spec_name(),
    {
        match self {
            Algorithm::Sha1 => "sha1",
            Algorithm::Md5 => "md5",
        }
    }
}

/// The digest that a file is expected to have, as lowercase hex.
#[derive(Debug)]
pub enum Checksum {
    Sha1(String),
    Md5(String),
}

/// A checksum as an algorithm and the characters of its digest.
pub struct ChecksumView {
    pub algorithm: Algorithm,
    pub hex: Seq<char>,
}

impl View for Checksum {
    type V = ChecksumView;

    open spec fn view(&self) -> ChecksumView {
        match self {
            Checksum::Sha1(hex) => ChecksumView { algorithm: Algorithm::Sha1, hex: hex@ },
            Checksum::Md5(hex) => ChecksumView { algorithm: Algorithm::Md5, hex: hex@ },
        }
    }
}

/// An optional checksum, seen through its view.
pub open spec fn checksum_view(c: Option<&Checksum>) -> Option<ChecksumView> {
    match c {
        Some(c) => Some(c@),
        None => None,
    }
}

impl Clone for Checksum {
    fn clone(&self) -> (r: Self)
        ensures
            r == *self,
    {
        match self {
            Checksum::Sha1(hex) => Checksum::Sha1(hex.clone()),
            Checksum::Md5(hex) => Checksum::Md5(hex.clone()),
        }
    }
}

impl Checksum {
    /// Which of the two algorithms this is a digest of.
    pub fn kind(&self) -> (r: Algorithm)
        ensures
            r == self@.algorithm,
    {
        match self {
            Checksum::Sha1(_) => Algorithm::Sha1,
            Checksum::Md5(_) => Algorithm::Md5,
        }
    }

    /// The name of the algorithm.
    pub fn algorithm(&self) -> (r: &'static str)
        ensures
            r@ == self@.algorithm.spec_name(),
    {
        self.kind().name()
    }

    /// The digest itself, as a string.
    fn value(&self) -> (r: &String)
        ensures
            r@ == self@.hex,
    {
        match self {
            Checksum::Sha1(hex) => hex,
            Checksum::Md5(hex) => hex,
        }
    }

    /// The digest itself.
    pub fn hex(&self) -> (r: &str)
        ensures
            r@ == self@.hex,
    {
        self.value().as_str()
    }

    /// Another digest of the same algorithm.
    pub fn with_value(&self, hex: String) -> (r: Checksum)
        ensures
            r@ == (ChecksumView { algorithm: self@.algorithm, hex: hex@ }),
    {
        match self {
            Checksum::Sha1(_) => Checksum::Sha1(hex),
            Checksum::Md5(_) => Checksum::Md5(hex),
        }
    }

    /// Whether two checksums carry the same digest. The algorithms are not compared.
    pub(crate) fn same_hex(&self, other: &Checksum) -> (r: bool)
        ensures
            r == (self@.hex == other@.hex),
    {
        *self.value() == *other.value()
    }
}

/// The digest to run over a stream of bytes, before any byte has gone into it.
#[derive(Debug, Clone, Copy, PartialEq, Eq, Structural)]
pub struct Hasher {
    pub algorithm: Algorithm,
}

impl Hasher {
    /// The hasher that a stream is checked with: the algorithm of the expected
    /// checksum, or none where no checksum is expected.
    pub fn for_checksum(checksum: Option<&Checksum>) -> (r: Option<Hasher>)
        ensures
            r == hasher_for(checksum_view(checksum)),
    {
        match checksum {
            Some(c) => Some(Hasher { algorithm: c.kind() }),
            None => None,
        }
    }
}

/// The hasher that goes with an expected checksum.
pub open spec fn hasher_for(checksum: Option<ChecksumView>) -> Option<Hasher> {
    match checksum {
        Some(c) => Some(Hasher { algorithm: c.algorithm }),
        None => None,
    }
}

/// The view of a file that a sink sees: no URL and no caller data.
#[derive(Debug, Clone, Copy)]
pub struct Target<'a> {
    pub name: &'a str,
    pub size: u64,
    pub checksum: Option<&'a Checksum>,
}

/// What a sink answers before the first byte is fetched.
#[derive(Debug)]
pub enum Prepared<L> {
    /// The destination already holds the file.
    Skip { location: L },
    /// The file is to be fetched from byte `received` on; `partial` has seen
    /// the bytes before that.
    Resume { received: u64, partial: Option<Hasher> },
}

} // verus!
