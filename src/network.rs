use vstd::prelude::*;

verus! {

/// The chains a node and its wallet can run on.
#[derive(Debug, Clone, Copy, PartialEq, Eq, Structural)]
pub enum NetworkKind {
    Main,
    Test,
    Signet,
    Regtest,
}

/// What `str::to_lowercase` returns for a string.
pub uninterp spec fn lower_of(s: Seq<char>) -> Seq<char>;

/// The ASCII lower case of a character: `A`-`Z` become `a`-`z`, every other
/// character stays.
pub open spec fn ascii_lower(c: char) -> char {
    if 'A' <= c && c <= 'Z' {
        ((c as u32) + 32) as char
    } else {
        c
    }
}

/// Relies on `str::to_lowercase`: the result depends on the characters alone;
/// on ASCII text it maps `A`-`Z` to `a`-`z` and keeps every other character.
#[verifier::external_body]
fn lowercase(s: &str) -> (r: String)
    ensures
        r@ == lower_of(s@),
        s@.len() == 0 ==> r@.len() == 0,
        (forall|i: int| 0 <= i < s@.len() ==> (#[trigger] s@[i] as u32) < 128) ==> {
            &&& r@.len() == s@.len()
            &&& forall|i: int| 0 <= i < s@.len() ==> #[trigger] r@[i] == ascii_lower(s@[i])
        },
{
    s.to_lowercase()
}

/// The network that an already lower-cased name stands for.
pub open spec fn network_of_lower(s: Seq<char>) -> Option<NetworkKind> {
    if s == seq!['b', 'i', 't', 'c', 'o', 'i', 'n'] {
        Some(NetworkKind::Main)
    } else if s == seq!['t', 'e', 's', 't', 'n', 'e', 't'] || s == seq![
        't',
        'e',
        's',
        't',
        'n',
        'e',
        't',
        '3',
    ] {
        Some(NetworkKind::Test)
    } else if s == seq!['s', 'i', 'g', 'n', 'e', 't'] {
        Some(NetworkKind::Signet)
    } else if s == seq!['r', 'e', 'g', 't', 'e', 's', 't'] {
        Some(NetworkKind::Regtest)
    } else {
        None
    }
}

/// The network that a name stands for, letters compared without case.
pub open spec fn network_of(s: Seq<char>) -> Option<NetworkKind> {
    network_of_lower(lower_of(s))
}

/// Whether `s` is exactly the characters of `w`.
fn text_is(s: &str, w: &str) -> (r: bool)
    ensures
        r == (s@ == w@),
{
    let n = s.unicode_len();
    if n != w.unicode_len() {
        return false;
    }
    let mut i: usize = 0;
    while i < n
        invariant
            n == s@.len(),
            n == w@.len(),
            i <= n,
            forall|j: int| 0 <= j < i ==> s@[j] == w@[j],
        decreases n - i,
    {
        if s.get_char(i) != w.get_char(i) {
            return false;
        }
        i = i + 1;
    }
    assert(s@ =~= w@);
    true
}

/// Maps a lower-case network name to its network.
pub fn network_from_lower(s: &str) -> (r: Option<NetworkKind>)
    ensures
        r == network_of_lower(s@),
{
    proof {
        reveal_strlit("bitcoin");
        reveal_strlit("testnet");
        reveal_strlit("testnet3");
        reveal_strlit("signet");
        reveal_strlit("regtest");
        assert("bitcoin"@ =~= seq!['b', 'i', 't', 'c', 'o', 'i', 'n']);
        assert("testnet"@ =~= seq!['t', 'e', 's', 't', 'n', 'e', 't']);
        assert("testnet3"@ =~= seq!['t', 'e', 's', 't', 'n', 'e', 't', '3']);
        assert("signet"@ =~= seq!['s', 'i', 'g', 'n', 'e', 't']);
        assert("regtest"@ =~= seq!['r', 'e', 'g', 't', 'e', 's', 't']);
    }
    if text_is(s, "bitcoin") {
        Some(NetworkKind::Main)
    } else if text_is(s, "testnet") || text_is(s, "testnet3") {
        Some(NetworkKind::Test)
    } else if text_is(s, "signet") {
        Some(NetworkKind::Signet)
    } else if text_is(s, "regtest") {
        Some(NetworkKind::Regtest)
    } else {
        None
    }
}

/// Parses a network name: `bitcoin`, `testnet`, `testnet3`, `signet` or
/// `regtest`, in any case.
pub fn parse_network(s: &str) -> (r: Option<NetworkKind>)
    ensures
        r == network_of(s@),
{
    let lower = lowercase(s);
    network_from_lower(lower.as_str())
}

/// The BIP-44 coin type: 0 on the main chain, 1 on every test chain.
pub open spec fn coin_type_of(n: NetworkKind) -> u32 {
    match n {
        NetworkKind::Main => 0,
        _ => 1,
    }
}

pub fn coin_type(n: NetworkKind) -> (r: u32)
    ensures
        r == coin_type_of(n),
{
    match n {
        NetworkKind::Main => 0,
        _ => 1,
    }
}

} // verus!
