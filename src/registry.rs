use vstd::prelude::*;

verus! {

/// Number of characters of a description that the table shows.
pub const DESCRIPTION_WIDTH: usize = 50;

/// One entry of the catalog: an installable language server.
#[derive(Debug)]
pub struct Package {
    pub name: String,
    pub description: String,
}

/// Install status of a package. It is reserved: nothing moves a package
/// out of `Pending` yet.
#[derive(Clone, Copy, Debug, PartialEq, Eq, Structural)]
pub enum PackageStatus {
    Pending,
    NotInstalled,
    Installed,
}

/// The text of a description as the table shows it: the first
/// `DESCRIPTION_WIDTH` characters, or all of them when there are no more.
pub open spec fn truncated(s: Seq<char>) -> Seq<char> {
    if s.len() <= DESCRIPTION_WIDTH {
        s
    } else {
        s.subrange(0, DESCRIPTION_WIDTH as int)
    }
}

/// Cuts `description` to its first `DESCRIPTION_WIDTH` characters
/// (code points, not bytes).
pub fn truncate_description(description: &str) -> (r: String)
    ensures
        r@ == truncated(description@),
{
    let n = description.unicode_len();
    if n <= DESCRIPTION_WIDTH {
        description.to_owned()
    } else {
        description.substring_char(0, DESCRIPTION_WIDTH).to_owned()
    }
}

impl Package {
    pub fn new(name: String, description: String) -> (r: Package)
        ensures
            r.name@ == name@,
            r.description@ == description@,
    {
        Package { name, description }
    }

    /// The description as the table shows it.
    pub fn display_description(&self) -> (r: String)
        ensures
            r@ == truncated(self.description@),
    {
        truncate_description(self.description.as_str())
    }

    /// Install status of this package; always `Pending`, since no
    /// installation check exists.
    pub fn check_installed(&self) -> (r: PackageStatus)
        ensures
            r == PackageStatus::Pending,
    {
        PackageStatus::Pending
    }
}

/// A description that fits is shown whole; a longer one is cut to exactly
/// its first `DESCRIPTION_WIDTH` characters, which it begins with.
pub proof fn lemma_truncated_boundary(s: Seq<char>)
    ensures
        s.len() <= DESCRIPTION_WIDTH ==> truncated(s) == s,
        s.len() > DESCRIPTION_WIDTH ==> truncated(s).len() == DESCRIPTION_WIDTH,
        s.len() > DESCRIPTION_WIDTH ==> forall|i: int|
            0 <= i < DESCRIPTION_WIDTH ==> #[trigger] truncated(s)[i] == s[i],
        truncated(truncated(s)) == truncated(s),
{
}

} // verus!
