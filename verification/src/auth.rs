//! The identity of the user behind a request, taken from its bearer token.
use vstd::prelude::*;
use crate::text::push_char;

verus! {

/// The Auth0 identifier of the user making a request.
pub struct Auth0UserId {
    pub id: String,
}

/// The claims of an Auth0 access token that the server reads.
pub struct Auth0UserClaims {
    pub sub: String,
}

impl Auth0UserId {
    /// The user a token's claims name: its subject.
    pub fn from_claims(claims: Auth0UserClaims) -> (u: Auth0UserId)
        ensures
            u.id == claims.sub,
    {
        Auth0UserId { id: claims.sub }
    }
}

/// Whether a character has the Unicode `White_Space` property (what
/// `char::is_whitespace` tests).
pub open spec fn is_white_space(c: char) -> bool {
    let u = c as u32;
    ||| 0x9 <= u <= 0xD
    ||| u == 0x20
    ||| u == 0x85
    ||| u == 0xA0
    ||| u == 0x1680
    ||| 0x2000 <= u <= 0x200A
    ||| u == 0x2028
    ||| u == 0x2029
    ||| u == 0x202F
    ||| u == 0x205F
    ||| u == 0x3000
}

fn white_space(c: char) -> (b: bool)
    ensures
        b == is_white_space(c),
{
    let u = c as u32;
    (0x9 <= u && u <= 0xD) || u == 0x20 || u == 0x85 || u == 0xA0 || u == 0x1680 || (0x2000 <= u && u
        <= 0x200A) || u == 0x2028 || u == 0x2029 || u == 0x202F || u == 0x205F || u == 0x3000
}

/// The words of a text: its maximal runs of characters that are not white space,
/// in order (what `str::split_whitespace` yields).
pub open spec fn words(s: Seq<char>) -> Seq<Seq<char>>
    decreases s.len(),
{
    if s.len() == 0 {
        Seq::empty()
    } else {
        let w = words(s.drop_last());
        let c = s.last();
        if is_white_space(c) {
            w
        } else if s.len() >= 2 && !is_white_space(s[s.len() - 2]) {
            w.update(w.len() - 1, w.last().push(c))
        } else {
            w.push(seq![c])
        }
    }
}

/// A text that does not end in white space and is not empty has at least one word.
proof fn lemma_words_nonempty(s: Seq<char>)
    requires
        s.len() > 0,
        !is_white_space(s.last()),
    ensures
        words(s).len() > 0,
    decreases s.len(),
{
    if s.len() >= 2 && !is_white_space(s[s.len() - 2]) {
        assert(s.drop_last().last() == s[s.len() - 2]);
        lemma_words_nonempty(s.drop_last());
    }
}

/// Every word of a text is a non-empty run of characters none of which is
/// white space.
pub proof fn lemma_words_hold_no_white_space(s: Seq<char>)
    ensures
        forall|k: int|
            0 <= k < words(s).len() ==> (#[trigger] words(s)[k]).len() > 0 && forall|j: int|
                0 <= j < words(s)[k].len() ==> !is_white_space(words(s)[k][j]),
    decreases s.len(),
{
    if s.len() > 0 {
        lemma_words_hold_no_white_space(s.drop_last());
        let w = words(s.drop_last());
        let c = s.last();
        if !is_white_space(c) && s.len() >= 2 && !is_white_space(s[s.len() - 2]) {
            assert(s.drop_last().last() == s[s.len() - 2]);
            lemma_words_nonempty(s.drop_last());
            assert forall|k: int| 0 <= k < words(s).len() implies (#[trigger] words(s)[k]).len() > 0
                && forall|j: int| 0 <= j < words(s)[k].len() ==> !is_white_space(words(s)[k][j]) by {
                if k == w.len() - 1 {
                    assert forall|j: int| 0 <= j < words(s)[k].len() implies !is_white_space(words(s)[k][j]) by {
                        if j < w[k].len() {
                            assert(words(s)[k][j] == w[k][j]);
                        }
                    }
                }
            }
        } else if !is_white_space(c) {
            assert forall|k: int| 0 <= k < words(s).len() implies (#[trigger] words(s)[k]).len() > 0
                && forall|j: int| 0 <= j < words(s)[k].len() ==> !is_white_space(words(s)[k][j]) by {
                if k == w.len() {
                    assert(words(s)[k] == seq![c]);
                }
            }
        }
    }
}

/// The access token of an `Authorization` header value: its second word (the
/// first being the scheme, `Bearer`). A value with fewer than two words has none.
pub fn access_token(header: &str) -> (token: Option<String>)
    ensures
        words(header@).len() >= 2 ==> (token matches Some(t) && t@ == words(header@)[1]),
        words(header@).len() < 2 ==> token is None,
{
    let n = header.unicode_len();
    let mut count: usize = 0;
    let mut in_word = false;
    let mut second = String::new();
    let mut i: usize = 0;
    while i < n
        invariant
            n == header@.len(),
            i <= n,
            count <= 3,
            count == words(header@.take(i as int)).len() || (count == 3 && words(header@.take(
                i as int,
            )).len() >= 3),
            in_word <==> (i > 0 && !is_white_space(header@[i - 1])),
            count >= 2 ==> second@ == words(header@.take(i as int))[1],
        decreases n - i,
    {
        let c = header.get_char(i);
        let ghost before = header@.take(i as int);
        let ghost after = header@.take(i + 1);
        proof {
            assert(after.drop_last() =~= before);
            assert(after.last() == c);
            if i > 0 {
                assert(after[after.len() - 2] == header@[i - 1]);
            }
        }
        if white_space(c) {
            in_word = false;
        } else if in_word {
            proof {
                lemma_words_nonempty(before);
            }
            if count == 2 {
                push_char(&mut second, c);
            }
        } else {
            if count < 3 {
                count = count + 1;
            }
            if count == 2 {
                second = String::new();
                push_char(&mut second, c);
                assert(second@ =~= seq![c]);
            }
            in_word = true;
        }
        i = i + 1;
    }
    assert(header@.take(n as int) =~= header@);
    if count >= 2 {
        Some(second)
    } else {
        None
    }
}

} // verus!
