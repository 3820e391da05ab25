use vstd::prelude::*;

verus! {

/// The characters a freshly generated identifier is drawn from (nanoid's URL-safe alphabet).
pub open spec fn is_safe_id_char(c: char) -> bool {
    c == '_' || c == '-' || ('0' <= c && c <= '9') || ('a' <= c && c <= 'z') || ('A' <= c && c <= 'Z')
}

/// Length of a freshly generated identifier.
pub const NANOID_LEN: usize = 21;

/// What every freshly generated identifier looks like: 21 characters of the URL-safe alphabet.
pub open spec fn is_fresh_id(s: Seq<char>) -> bool {
    &&& s.len() == NANOID_LEN
    &&& forall|i: int| 0 <= i < s.len() ==> is_safe_id_char(#[trigger] s[i])
}

/// Calls `nanoid::format` with nanoid's default random source, its URL-safe alphabet
/// and size 21 (what `nanoid!()` expands to). The source keeps drawing random bytes until the
/// string holds 21 characters, each taken from the alphabet; which ones is up to chance.
#[verifier::external_body]
fn random_nanoid() -> (s: String)
    ensures
        is_fresh_id(s@),
{
    nanoid::format(nanoid::rngs::default, &nanoid::alphabet::SAFE, NANOID_LEN)
}

/// An identifier of a stored record (a user, dictionary, entry or module).
#[derive(Debug)]
pub struct Nanoid(pub String);

impl View for Nanoid {
    type V = Seq<char>;

    open spec fn view(&self) -> Seq<char> {
        self.0@
    }
}

impl Clone for Nanoid {
    fn clone(&self) -> (r: Self)
        ensures
            r@ == self@,
    {
        Nanoid(self.0.clone())
    }
}

impl PartialEq for Nanoid {
    fn eq(&self, other: &Self) -> (b: bool) {
        self.0 == other.0
    }
}

impl vstd::std_specs::cmp::PartialEqSpecImpl for Nanoid {
    open spec fn obeys_eq_spec() -> bool {
        true
    }

    open spec fn eq_spec(&self, other: &Nanoid) -> bool {
        self@ == other@
    }
}

impl Default for Nanoid {
    /// A new random identifier.
    fn default() -> (r: Self)
        ensures
            is_fresh_id(r@),
    {
        Nanoid(random_nanoid())
    }
}

impl Nanoid {
    /// The identifier as a string.
    pub fn as_string(&self) -> (s: String)
        ensures
            s@ == self@,
    {
        self.0.clone()
    }
}

} // verus!
