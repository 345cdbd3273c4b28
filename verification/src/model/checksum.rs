use vstd::prelude::*;

verus! {

/// A content hash over the raw bytes of an archive, as the index writes it.
///
/// It serves to compare archives, never to identify a package.
#[derive(Debug, PartialEq, Eq, Hash)]
pub struct Checksum {
    pub digest: String,
}

impl View for Checksum {
    type V = Seq<char>;

    open spec fn view(&self) -> Seq<char> {
        self.digest@
    }
}

impl DeepView for Checksum {
    type V = Seq<char>;

    open spec fn deep_view(&self) -> Seq<char> {
        self.digest@
    }
}

impl Clone for Checksum {
    fn clone(&self) -> (copy: Self)
        ensures
            copy@ == self@,
    {
        Checksum { digest: self.digest.clone() }
    }
}

impl Checksum {
    /// The checksum that `digest` spells.
    pub fn new(digest: String) -> (checksum: Self)
        ensures
            checksum@ == digest@,
    {
        Checksum { digest }
    }

    /// Whether two checksums are the same hash.
    pub fn same(&self, other: &Checksum) -> (yes: bool)
        ensures
            yes == (self@ == other@),
    {
        self.digest == other.digest
    }

    /// The checksum as text.
    pub fn to_string(&self) -> (text: String)
        ensures
            text@ == self@,
    {
        self.digest.clone()
    }
}

} // verus!
