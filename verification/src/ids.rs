//! Random identifiers for clusters and nodes, and home-relative paths.

use vstd::prelude::*;

verus! {

/// The length of a generated identifier.
pub const ID_LENGTH: usize = 16;

/// An ASCII letter or digit.
pub open spec fn is_alphanumeric(c: char) -> bool {
    ('a' <= c && c <= 'z') || ('A' <= c && c <= 'Z') || ('0' <= c && c <= '9')
}

/// Draws one byte from `rand::distr::Alphanumeric` with the thread's
/// generator and returns it as a one-character string. The contract claims
/// what rand documents: an ASCII letter or digit; which one is left to
/// chance.
#[verifier::external_body]
fn random_alphanumeric() -> (s: String)
    ensures
        s@.len() == 1,
        is_alphanumeric(s@[0]),
{
    char::from(rand::Rng::sample(&mut rand::rng(), rand::distr::Alphanumeric)).to_string()
}

/// A fresh random identifier: `ID_LENGTH` ASCII letters and digits.
pub fn generate_id() -> (id: String)
    ensures
        id@.len() == ID_LENGTH,
        forall|i: int| 0 <= i < id@.len() ==> is_alphanumeric(#[trigger] id@[i]),
{
    let mut id = String::new();
    let mut n: usize = 0;
    while n < ID_LENGTH
        invariant
            n <= ID_LENGTH,
            id@.len() == n,
            forall|i: int| 0 <= i < id@.len() ==> is_alphanumeric(#[trigger] id@[i]),
        decreases ID_LENGTH - n,
    {
        let one = random_alphanumeric();
        id.append(one.as_str());
        n = n + 1;
    }
    id
}

/// `path` with a leading `~` replaced by the home directory, when it starts
/// with `~/` and the home directory is known.
pub open spec fn expanded(path: Seq<char>, home: Option<Seq<char>>) -> Seq<char> {
    if path.len() >= 2 && path[0] == '~' && path[1] == '/' && home is Some {
        home.unwrap() + path.subrange(1, path.len() as int)
    } else {
        path
    }
}

/// Expands a leading `~/` with the home directory (`HOME`, read by the
/// caller).
pub fn expand_tilde(path: &str, home: Option<String>) -> (r: String)
    ensures
        r@ == expanded(path@, match home {
            Some(h) => Some(h@),
            None => None,
        }),
{
    let n = path.unicode_len();
    if n >= 2 && path.get_char(0) == '~' && path.get_char(1) == '/' {
        match home {
            Some(h) => {
                let mut r = h;
                r.append(path.substring_char(1, n));
                return r;
            },
            None => {},
        }
    }
    String::from_str(path)
}

} // verus!
