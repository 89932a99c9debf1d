//! Paths as text: components separated by `/`, absolute when the text starts
//! with `/`.

use vstd::prelude::*;

verus! {

/// The character that separates the components of a path.
pub const SEPARATOR: char = '/';

/// A path is absolute when it starts with the separator.
pub open spec fn is_absolute(path: Seq<char>) -> bool {
    path.len() > 0 && path[0] == SEPARATOR
}

/// `name` adjoined to `base`: an absolute `name` replaces `base`; otherwise
/// `name` follows `base`, with one separator in between unless `base` is empty
/// or already ends with one.
pub open spec fn joined(base: Seq<char>, name: Seq<char>) -> Seq<char> {
    if is_absolute(name) {
        name
    } else if base.len() == 0 || base.last() == SEPARATOR {
        base + name
    } else {
        base + seq![SEPARATOR] + name
    }
}

/// Adjoining anything to an absolute path gives an absolute path.
pub proof fn lemma_joined_absolute(base: Seq<char>, name: Seq<char>)
    requires
        is_absolute(base),
    ensures
        is_absolute(joined(base, name)),
{
}

/// Adjoining a relative name keeps the base as a prefix and the name as the
/// suffix of the result.
pub proof fn lemma_joined_relative(base: Seq<char>, name: Seq<char>)
    requires
        !is_absolute(name),
    ensures
        base.is_prefix_of(joined(base, name)),
        name.is_suffix_of(joined(base, name)),
{
    let j = joined(base, name);
    assert(j.subrange(0, base.len() as int) =~= base);
    assert(j.subrange(j.len() - name.len(), j.len() as int) =~= name);
}

/// Whether `path` starts with the separator.
pub fn starts_at_root(path: &str) -> (r: bool)
    ensures
        r == is_absolute(path@),
{
    let n: usize = path.unicode_len();
    n > 0 && path.get_char(0) == SEPARATOR
}

/// Whether `path` ends with the separator.
pub fn ends_with_separator(path: &str) -> (r: bool)
    ensures
        r == (path@.len() > 0 && path@.last() == SEPARATOR),
{
    let n: usize = path.unicode_len();
    n > 0 && path.get_char(n - 1) == SEPARATOR
}

/// `name` adjoined to `base`.
pub fn join(base: &str, name: &str) -> (r: String)
    ensures
        r@ == joined(base@, name@),
{
    if starts_at_root(name) {
        String::from_str(name)
    } else {
        let mut text = String::from_str(base);
        if base.unicode_len() > 0 && !ends_with_separator(base) {
            proof {
                reveal_strlit("/");
            }
            text.append("/");
            assert("/"@ =~= seq![SEPARATOR]);
        }
        text.append(name);
        text
    }
}

/// A path that is known to be absolute.
#[derive(Debug, PartialEq, Eq)]
pub struct AbsolutePath {
    text: String,
}

impl View for AbsolutePath {
    type V = Seq<char>;

    closed spec fn view(&self) -> Seq<char> {
        self.text@
    }
}

impl AbsolutePath {
    #[verifier::type_invariant]
    spec fn rooted(self) -> bool {
        is_absolute(self.text@)
    }

    /// Accepts `text` exactly when it is an absolute path.
    pub fn new(text: String) -> (r: Option<AbsolutePath>)
        ensures
            r is Some <==> is_absolute(text@),
            r matches Some(p) ==> p@ == text@,
    {
        if starts_at_root(text.as_str()) {
            Some(AbsolutePath { text })
        } else {
            None
        }
    }

    /// The path as text.
    pub fn as_str(&self) -> (r: &str)
        ensures
            r@ == self@,
            is_absolute(r@),
    {
        proof {
            use_type_invariant(self);
        }
        self.text.as_str()
    }

    /// The path as owned text.
    pub fn to_text(&self) -> (r: String)
        ensures
            r@ == self@,
            is_absolute(r@),
    {
        proof {
            use_type_invariant(self);
        }
        self.text.clone()
    }

    /// `name` adjoined to this path.
    pub fn join(&self, name: &str) -> (r: AbsolutePath)
        ensures
            r@ == joined(self@, name@),
            is_absolute(r@),
    {
        proof {
            use_type_invariant(self);
            lemma_joined_absolute(self@, name@);
        }
        AbsolutePath { text: join(self.text.as_str(), name) }
    }
}

impl Clone for AbsolutePath {
    fn clone(&self) -> (r: AbsolutePath)
        ensures
            r@ == self@,
    {
        proof {
            use_type_invariant(self);
        }
        AbsolutePath { text: self.text.clone() }
    }
}

} // verus!
