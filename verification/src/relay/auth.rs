//! Session tokens, and how a request is recognized as coming from a signed-in
//! user.

use vstd::prelude::*;
use crate::relay::models::User;
use crate::text::push_char;
use crate::string_map::StringMap;
use rand::seq::SliceRandom;

verus! {

/// The number of letters in a session token.
pub const SESSION_TOKEN_LEN: usize = 64;

/// Picks one letter of `alphabet` with `rand::seq::SliceRandom::choose`
/// and the thread's random number generator. Which letter comes out
/// rests on chance: the contract says only that it is one of the
/// alphabet's, and that there is one exactly when the alphabet is not
/// empty.
#[verifier::external_body]
fn choose_letter(alphabet: &Vec<char>) -> (r: Option<char>)
    ensures
        r is None <==> alphabet@.len() == 0,
        r matches Some(c) ==> alphabet@.contains(c),
{
    alphabet.choose(&mut rand::thread_rng()).copied()
}

/// Whether `c` is a lower-case ASCII letter.
pub open spec fn is_lower_letter(c: char) -> bool {
    'a' <= c <= 'z'
}

/// The letters of session tokens: `a` to `z`, in order.
pub fn token_alphabet() -> (r: Vec<char>)
    ensures
        r@.len() == 26,
        forall|i: int| 0 <= i < 26 ==> #[trigger] r@[i] as int == 'a' as int + i,
        forall|c: char| is_lower_letter(c) ==> r@.contains(c),
        forall|i: int| 0 <= i < r@.len() ==> is_lower_letter(#[trigger] r@[i]),
{
    let r: Vec<char> = vec![
        'a', 'b', 'c', 'd', 'e', 'f', 'g', 'h', 'i', 'j', 'k', 'l', 'm',
        'n', 'o', 'p', 'q', 'r', 's', 't', 'u', 'v', 'w', 'x', 'y', 'z',
    ];
    proof {
        assert forall|c: char| is_lower_letter(c) implies r@.contains(c) by {
            let i = c as int - 'a' as int;
            assert(r@[i] == c);
        }
    }
    r
}

/// The token made of the drawn `letters`, in the order they were drawn.
pub fn token_of_letters(letters: &Vec<char>) -> (r: String)
    ensures
        r@ == letters@,
{
    let mut token = String::new();
    let mut i: usize = 0;
    while i < letters.len()
        invariant
            i <= letters@.len(),
            token@ == letters@.subrange(0, i as int),
        decreases letters@.len() - i,
    {
        push_char(&mut token, letters[i]);
        assert(letters@.subrange(0, i + 1) =~= letters@.subrange(0, i as int).push(
            letters@[i as int],
        ));
        i = i + 1;
    }
    assert(letters@.subrange(0, letters@.len() as int) =~= letters@);
    token
}

/// A fresh session token: 64 letters from `a` to `z`, each picked at
/// random. Two calls may give different tokens.
pub fn random_session_token() -> (r: String)
    ensures
        r@.len() == SESSION_TOKEN_LEN,
        forall|i: int| 0 <= i < r@.len() ==> is_lower_letter(#[trigger] r@[i]),
{
    let alphabet = token_alphabet();
    let mut letters: Vec<char> = Vec::new();
    while letters.len() < SESSION_TOKEN_LEN
        invariant
            letters@.len() <= SESSION_TOKEN_LEN,
            alphabet@.len() == 26,
            forall|i: int| 0 <= i < alphabet@.len() ==> is_lower_letter(#[trigger] alphabet@[i]),
            forall|i: int| 0 <= i < letters@.len() ==> is_lower_letter(#[trigger] letters@[i]),
        decreases SESSION_TOKEN_LEN - letters@.len(),
    {
        let c = match choose_letter(&alphabet) {
            Some(c) => c,
            None => {
                // The alphabet is not empty, so a letter is always drawn.
                proof {
                    assert(false);
                }
                'a'
            },
        };
        proof {
            let k = choose|k: int| 0 <= k < alphabet@.len() && alphabet@[k] == c;
            assert(is_lower_letter(alphabet@[k]));
        }
        letters.push(c);
    }
    token_of_letters(&letters)
}

/// The `len` lowest binary digits of `k`, lowest first, spelled with `a`
/// for 0 and `b` for 1.
pub open spec fn binary_letters(k: nat, len: nat) -> Seq<char>
    decreases len,
{
    if len == 0 {
        Seq::empty()
    } else {
        seq![if k % 2 == 1 { 'b' } else { 'a' }] + binary_letters(k / 2, (len - 1) as nat)
    }
}

/// Two to the power `len`.
pub open spec fn two_to(len: nat) -> nat
    decreases len,
{
    if len == 0 {
        1
    } else {
        2 * two_to((len - 1) as nat)
    }
}

proof fn lemma_binary_letters_shape(k: nat, len: nat)
    ensures
        binary_letters(k, len).len() == len,
        forall|i: int| 0 <= i < len ==> is_lower_letter(#[trigger] binary_letters(k, len)[i]),
    decreases len,
{
    if len > 0 {
        lemma_binary_letters_shape(k / 2, (len - 1) as nat);
        let rest = binary_letters(k / 2, (len - 1) as nat);
        assert forall|i: int| 0 <= i < len implies is_lower_letter(
            #[trigger] binary_letters(k, len)[i],
        ) by {
            if i > 0 {
                assert(binary_letters(k, len)[i] == rest[i - 1]);
            }
        }
    }
}

/// Different numbers below `two_to(len)` are spelled differently.
proof fn lemma_binary_letters_injective(k1: nat, k2: nat, len: nat)
    requires
        k1 < two_to(len),
        k2 < two_to(len),
        k1 != k2,
    ensures
        binary_letters(k1, len) != binary_letters(k2, len),
    decreases len,
{
    if len > 0 {
        let a = binary_letters(k1, len);
        let b = binary_letters(k2, len);
        if k1 % 2 != k2 % 2 {
            assert(a[0] != b[0]);
        } else {
            assert(k1 / 2 != k2 / 2);
            lemma_binary_letters_injective(k1 / 2, k2 / 2, (len - 1) as nat);
            lemma_binary_letters_shape(k1 / 2, (len - 1) as nat);
            lemma_binary_letters_shape(k2 / 2, (len - 1) as nat);
            assert(a.subrange(1, len as int) =~= binary_letters(k1 / 2, (len - 1) as nat));
            assert(b.subrange(1, len as int) =~= binary_letters(k2 / 2, (len - 1) as nat));
        }
    }
}

proof fn lemma_two_to_64()
    ensures
        two_to(64) == 0x1_0000_0000_0000_0000,
{
    reveal_with_fuel(two_to, 65);
}

/// A finite set of `n` tokens misses the spelling of one of the numbers
/// 0 to `n`.
proof fn lemma_binary_token_free(taken: Set<Seq<char>>, n: nat)
    requires
        taken.finite(),
        taken.len() == n,
        n < two_to(SESSION_TOKEN_LEN as nat),
    ensures
        exists|j: nat| j <= n && !taken.contains(#[trigger] binary_letters(j, SESSION_TOKEN_LEN as nat)),
{
    let len = SESSION_TOKEN_LEN as nat;
    if forall|j: nat| j <= n ==> taken.contains(#[trigger] binary_letters(j, len)) {
        let s = Seq::new(n + 1, |j: int| binary_letters(j as nat, len));
        assert forall|i: int, j: int| 0 <= i < s.len() && 0 <= j < s.len() && i != j implies s[i]
            != s[j] by {
            lemma_binary_letters_injective(i as nat, j as nat, len);
        }
        s.unique_seq_to_set();
        assert forall|t: Seq<char>| s.to_set().contains(t) implies taken.contains(t) by {
            let j = choose|j: int| 0 <= j < s.len() && s[j] == t;
            assert(taken.contains(binary_letters(j as nat, len)));
        }
        vstd::set_lib::lemma_len_subset(s.to_set(), taken);
    }
}

/// The token that spells the binary digits of `k`: 64 letters `a` or `b`.
fn binary_token(k: u64) -> (r: String)
    ensures
        r@ == binary_letters(k as nat, SESSION_TOKEN_LEN as nat),
{
    let mut token = String::new();
    let mut rem: u64 = k;
    let mut i: usize = 0;
    while i < SESSION_TOKEN_LEN
        invariant
            i <= SESSION_TOKEN_LEN,
            token@ + binary_letters(rem as nat, (SESSION_TOKEN_LEN - i) as nat) == binary_letters(
                k as nat,
                SESSION_TOKEN_LEN as nat,
            ),
        decreases SESSION_TOKEN_LEN - i,
    {
        let c = if rem % 2 == 1 {
            'b'
        } else {
            'a'
        };
        let ghost rest = binary_letters((rem / 2) as nat, (SESSION_TOKEN_LEN - i - 1) as nat);
        assert(binary_letters(rem as nat, (SESSION_TOKEN_LEN - i) as nat) == seq![c] + rest);
        assert(token@.push(c) + rest =~= token@ + (seq![c] + rest));
        push_char(&mut token, c);
        rem = rem / 2;
        i = i + 1;
    }
    assert(token@ + binary_letters(rem as nat, 0) =~= token@);
    token
}

/// A session token that `taken` does not hold: `drawn` when it is free
/// (the usual case, a random token); otherwise the first of the tokens
/// spelling 0, 1, 2, ... in binary that is free, which exists since
/// `taken` holds fewer tokens than there are such spellings.
pub fn fresh_token<V>(taken: &StringMap<V>, drawn: String) -> (r: String)
    ensures
        !taken.view().dom().contains(r@),
        !taken.view().dom().contains(drawn@) ==> r@ == drawn@,
        (drawn@.len() == SESSION_TOKEN_LEN && forall|i: int|
            0 <= i < drawn@.len() ==> is_lower_letter(#[trigger] drawn@[i])) ==> (r@.len()
            == SESSION_TOKEN_LEN && forall|i: int| 0 <= i < r@.len() ==> is_lower_letter(#[trigger] r@[i])),
{
    if !taken.contains_key(&drawn) {
        return drawn;
    }
    let n = taken.len();
    let mut k: usize = 0;
    loop
        invariant
            k <= n,
            n == taken.view().dom().len(),
            taken.view().dom().finite(),
            taken.view().dom().contains(drawn@),
            forall|j: nat| j < k ==> taken.view().dom().contains(
                #[trigger] binary_letters(j, SESSION_TOKEN_LEN as nat),
            ),
        decreases n - k,
    {
        let candidate = binary_token(k as u64);
        proof {
            lemma_binary_letters_shape(k as nat, SESSION_TOKEN_LEN as nat);
        }
        if !taken.contains_key(&candidate) {
            return candidate;
        }
        if k == n {
            proof {
                lemma_two_to_64();
                lemma_binary_token_free(taken.view().dom(), n as nat);
                let j = choose|j: nat| j <= n && !taken.view().dom().contains(
                    #[trigger] binary_letters(j, SESSION_TOKEN_LEN as nat),
                );
                assert(j < k || j == k);
                assert(false);
            }
            return candidate;
        }
        k = k + 1;
    }
}

/// A fresh session token that `taken` does not hold yet: 64 letters from
/// `a` to `z`, drawn at random, and drawn differently in the rare case
/// that the draw is already taken.
pub fn new_session_token<V>(taken: &StringMap<V>) -> (r: String)
    ensures
        !taken.view().dom().contains(r@),
        r@.len() == SESSION_TOKEN_LEN,
        forall|i: int| 0 <= i < r@.len() ==> is_lower_letter(#[trigger] r@[i]),
{
    fresh_token(taken, random_session_token())
}

/// The session cookies of a request, when both are there: the token and
/// the username.
pub open spec fn credentials(
    token_cookie: Option<String>,
    username_cookie: Option<String>,
) -> Option<(String, String)> {
    match (token_cookie, username_cookie) {
        (Some(t), Some(u)) => Some((t, u)),
        _ => None,
    }
}

/// The first half of authenticating a request: both the `token` and the
/// `username` cookie must be set.
pub fn session_credentials(
    token_cookie: Option<String>,
    username_cookie: Option<String>,
) -> (r: Option<(String, String)>)
    ensures
        r == credentials(token_cookie, username_cookie),
{
    let token = match token_cookie {
        Some(t) => t,
        None => return None,
    };
    let username = match username_cookie {
        Some(u) => u,
        None => return None,
    };
    Some((token, username))
}

/// The second half: the account found for the username is the
/// authenticated user exactly when the session token is one of its
/// tokens.
pub fn authenticated_user(user: Option<User>, user_has_token: bool) -> (r: Option<User>)
    ensures
        r == (if user_has_token { user } else { None }),
{
    match user {
        Some(u) => if user_has_token {
            Some(u)
        } else {
            None
        },
        None => None,
    }
}

} // verus!
