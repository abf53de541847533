//! Short tokens: a newtype over the token text, the strategy that draws them,
//! and the default strategy of uniformly random base62 characters.

use rand::Rng;
use vstd::prelude::*;
use crate::text::push_char;

verus! {

/// Length of every generated token: 62^7 (about 3.5e12) possible tokens.
pub const TOKEN_LENGTH: usize = 7;

/// Number of characters in the base62 alphabet.
pub const ALPHABET_LEN: usize = 62;

/// The `i`-th character of the base62 alphabet `A..Z a..z 0..9`.
pub open spec fn spec_alphabet_char(i: int) -> char {
    if i < 26 {
        (65 + i) as char
    } else if i < 52 {
        (97 + (i - 26)) as char
    } else {
        (48 + (i - 52)) as char
    }
}

/// `c` is in the base62 alphabet (ASCII letters and digits).
pub open spec fn is_base62(c: char) -> bool {
    ('A' <= c && c <= 'Z') || ('a' <= c && c <= 'z') || ('0' <= c && c <= '9')
}

/// A well-formed token text: exactly `TOKEN_LENGTH` base62 characters.
pub open spec fn is_token_text(s: Seq<char>) -> bool {
    s.len() == TOKEN_LENGTH && forall|i: int| 0 <= i < s.len() ==> is_base62(#[trigger] s[i])
}

/// The `i`-th character of the base62 alphabet.
pub fn alphabet_char(i: usize) -> (c: char)
    requires
        i < ALPHABET_LEN,
    ensures
        c == spec_alphabet_char(i as int),
        is_base62(c),
{
    if i < 26 {
        ((65 + i) as u8) as char
    } else if i < 52 {
        ((97 + (i - 26)) as u8) as char
    } else {
        ((48 + (i - 52)) as u8) as char
    }
}

/// A token, kept apart from other strings by its type.
#[derive(Debug)]
pub struct Token(String);

impl View for Token {
    type V = Seq<char>;

    closed spec fn view(&self) -> Seq<char> {
        self.0@
    }
}

impl Clone for Token {
    fn clone(&self) -> (r: Self)
        ensures
            r@ == self@,
    {
        Token(self.0.clone())
    }
}

impl Token {
    /// The token text.
    pub fn as_str(&self) -> (s: &str)
        ensures
            s@ == self@,
    {
        self.0.as_str()
    }

    /// The token text, taking the token apart.
    pub fn into_inner(self) -> (s: String)
        ensures
            s@ == self@,
    {
        self.0
    }

    /// The token as it is displayed: its text.
    pub fn to_string(&self) -> (s: String)
        ensures
            s@ == self@,
    {
        self.0.clone()
    }
}

/// A strategy for drawing fresh tokens. The service keeps asking for another
/// token until storage accepts one.
pub trait TokenGenerator: Send + Sync {
    fn generate(&self) -> Token;
}

/// The default strategy: uniformly random base62 characters, so tokens are
/// unguessable and do not reveal whether a URL was shortened before.
pub struct RandomTokenGenerator;

/// A uniformly random index below `bound`, from `rand::thread_rng()` and
/// `Rng::gen_range(0..bound)`. Only the range of the result is claimed;
/// `gen_range` panics on an empty range, so `bound` is positive.
#[verifier::external_body]
fn random_below(bound: usize) -> (r: usize)
    requires
        bound > 0,
    ensures
        r < bound,
{
    rand::thread_rng().gen_range(0..bound)
}

/// The token text spelled by indices into the base62 alphabet.
pub open spec fn spec_token_text(idx: Seq<usize>) -> Seq<char> {
    idx.map_values(|i: usize| spec_alphabet_char(i as int))
}

/// Indices that can spell a token: `TOKEN_LENGTH` of them, each in the alphabet.
pub open spec fn valid_draws(idx: Seq<usize>) -> bool {
    idx.len() == TOKEN_LENGTH && forall|k: int| 0 <= k < idx.len() ==> #[trigger] idx[k] < ALPHABET_LEN
}

/// The token spelled by the drawn alphabet indices, one character per index.
pub fn token_from_indices(idx: &Vec<usize>) -> (t: Token)
    requires
        valid_draws(idx@),
    ensures
        t@ == spec_token_text(idx@),
        is_token_text(t@),
{
    let mut s = String::new();
    let mut k: usize = 0;
    while k < idx.len()
        invariant
            valid_draws(idx@),
            k <= idx@.len(),
            s@ == spec_token_text(idx@.subrange(0, k as int)),
            forall|i: int| 0 <= i < s@.len() ==> is_base62(#[trigger] s@[i]),
        decreases idx@.len() - k,
    {
        let c = alphabet_char(idx[k]);
        push_char(&mut s, c);
        assert(idx@.subrange(0, k + 1) =~= idx@.subrange(0, k as int).push(idx@[k as int]));
        assert(spec_token_text(idx@.subrange(0, k + 1)) =~= spec_token_text(idx@.subrange(0, k as int)).push(c));
        k = k + 1;
    }
    assert(idx@.subrange(0, idx@.len() as int) =~= idx@);
    Token(s)
}

impl TokenGenerator for RandomTokenGenerator {
    /// Draws `TOKEN_LENGTH` uniformly random alphabet indices and spells them.
    fn generate(&self) -> (t: Token)
        ensures
            exists|idx: Seq<usize>| valid_draws(idx) && t@ == spec_token_text(idx),
            is_token_text(t@),
    {
        let mut idx: Vec<usize> = Vec::new();
        while idx.len() < TOKEN_LENGTH
            invariant
                idx@.len() <= TOKEN_LENGTH,
                forall|k: int| 0 <= k < idx@.len() ==> #[trigger] idx@[k] < ALPHABET_LEN,
            decreases TOKEN_LENGTH - idx@.len(),
        {
            idx.push(random_below(ALPHABET_LEN));
        }
        token_from_indices(&idx)
    }
}

} // verus!
