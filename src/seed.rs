use vstd::prelude::*;
use crate::error::ServiceError;

verus! {

/// Name of the file that holds the seed phrase inside a data directory.
pub const SEED_FILE_NAME: &'static str = "mnemonic.txt";

/// Whether `bip39::Mnemonic::parse` accepts a phrase.
pub uninterp spec fn phrase_is_valid(p: Seq<char>) -> bool;

/// The phrase (words joined by single spaces) that `bip39::Mnemonic::from_entropy`
/// gives for the entropy bytes.
pub uninterp spec fn phrase_of_entropy(e: Seq<u8>) -> Seq<char>;

/// Whether a character has the Unicode `White_Space` property, the
/// whitespace that `str::trim` removes.
pub open spec fn is_unicode_space(c: char) -> bool {
    ('\u{9}' <= c && c <= '\u{d}') || c == ' ' || c == '\u{85}' || c == '\u{a0}' || c
        == '\u{1680}' || ('\u{2000}' <= c && c <= '\u{200a}') || c == '\u{2028}' || c
        == '\u{2029}' || c == '\u{202f}' || c == '\u{205f}' || c == '\u{3000}'
}

/// A string without its leading whitespace.
pub open spec fn trim_start(s: Seq<char>) -> Seq<char>
    decreases s.len(),
{
    if s.len() > 0 && is_unicode_space(s[0]) {
        trim_start(s.drop_first())
    } else {
        s
    }
}

/// A string without its trailing whitespace.
pub open spec fn trim_end(s: Seq<char>) -> Seq<char>
    decreases s.len(),
{
    if s.len() > 0 && is_unicode_space(s.last()) {
        trim_end(s.drop_last())
    } else {
        s
    }
}

/// A string without its leading and trailing whitespace.
pub open spec fn trimmed(s: Seq<char>) -> Seq<char> {
    trim_end(trim_start(s))
}

proof fn lemma_trim_start_head(s: Seq<char>)
    ensures
        trim_start(s).len() == 0 || !is_unicode_space(trim_start(s)[0]),
    decreases s.len(),
{
    if s.len() > 0 && is_unicode_space(s[0]) {
        lemma_trim_start_head(s.drop_first());
    }
}

proof fn lemma_trim_end_prefix(s: Seq<char>)
    ensures
        trim_end(s).len() <= s.len(),
        trim_end(s) =~= s.take(trim_end(s).len() as int),
        trim_end(s).len() == 0 || !is_unicode_space(trim_end(s).last()),
    decreases s.len(),
{
    if s.len() > 0 && is_unicode_space(s.last()) {
        lemma_trim_end_prefix(s.drop_last());
    }
}

/// Trimming twice trims no more than trimming once.
pub proof fn lemma_trimmed_idempotent(s: Seq<char>)
    ensures
        trimmed(trimmed(s)) == trimmed(s),
{
    let t = trim_start(s);
    let u = trim_end(t);
    lemma_trim_start_head(s);
    lemma_trim_end_prefix(t);
    if u.len() > 0 {
        assert(u[0] == t[0]);
    }
    assert(trim_start(u) == u);
    assert(trim_end(u) == u);
}

/// What `Path::join` gives for a directory and a file name, as text.
pub uninterp spec fn joined_path(dir: Seq<char>, file: Seq<char>) -> Seq<char>;

/// Number of space characters in `s`.
pub open spec fn count_spaces(s: Seq<char>) -> nat
    decreases s.len(),
{
    if s.len() == 0 {
        0
    } else {
        count_spaces(s.drop_last()) + if s.last() == ' ' {
            1nat
        } else {
            0nat
        }
    }
}

/// Relies on `rand::rng` and `RngCore::fill_bytes`: sixteen bytes from the
/// thread-local cryptographically secure generator. Nothing is promised of them.
#[verifier::external_body]
fn fresh_entropy() -> (r: [u8; 16]) {
    let mut e = [0u8; 16];
    rand::RngCore::fill_bytes(&mut rand::rng(), &mut e);
    e
}

/// Relies on `bip39::Mnemonic::from_entropy`, rendered by its `Display`: sixteen
/// bytes always give twelve English words, joined by single spaces, with no
/// surrounding whitespace, whose checksum `Mnemonic::parse` accepts.
#[verifier::external_body]
fn phrase_from_entropy(e: &[u8; 16]) -> (r: String)
    ensures
        r@ == phrase_of_entropy(e@),
        phrase_is_valid(r@),
        count_spaces(r@) == 11,
        trimmed(r@) == r@,
{
    match bip39::Mnemonic::from_entropy(e) {
        Ok(m) => m.to_string(),
        Err(_) => String::new(),
    }
}

/// Relies on `bip39::Mnemonic::parse`: whether the phrase is a BIP-39 mnemonic
/// with a valid word count, known words and a matching checksum.
#[verifier::external_body]
pub(crate) fn check_phrase(p: &str) -> (r: bool)
    ensures
        r == phrase_is_valid(p@),
{
    bip39::Mnemonic::parse(p).is_ok()
}

/// Relies on `str::trim`: leading and trailing `White_Space` characters
/// removed.
#[verifier::external_body]
fn trim_text(s: &str) -> (r: &str)
    ensures
        r@ == trimmed(s@),
{
    s.trim()
}

/// Relies on `Path::join`, rendered with `to_string_lossy`.
#[verifier::external_body]
fn join_path(dir: &str, file: &str) -> (r: String)
    ensures
        r@ == joined_path(dir@, file@),
{
    std::path::Path::new(dir).join(file).to_string_lossy().into_owned()
}

/// Relies on `Path::exists`; the answer depends on the disk, so nothing is
/// promised of it.
#[verifier::external_body]
fn path_exists(p: &str) -> (r: bool) {
    std::path::Path::new(p).exists()
}

/// Path of the seed phrase file of a data directory.
pub fn mnemonic_path(data_dir: &str) -> (r: String)
    ensures
        r@ == joined_path(data_dir@, SEED_FILE_NAME@),
{
    join_path(data_dir, SEED_FILE_NAME)
}

/// Whether the data directory holds a seed phrase file.
pub fn check_wallet_exists(data_dir: String) -> (r: bool) {
    let path = mnemonic_path(data_dir.as_str());
    path_exists(path.as_str())
}

/// Draws a fresh phrase of twelve words from the secure generator.
pub fn generate_phrase() -> (r: String)
    ensures
        phrase_is_valid(r@),
        count_spaces(r@) == 11,
        exists|e: Seq<u8>| e.len() == 16 && r@ == phrase_of_entropy(e),
{
    let e = fresh_entropy();
    phrase_from_entropy(&e)
}

/// Decides a creation request with fresh entropy from the secure generator.
pub fn create_phrase(exists: bool) -> (r: Result<String, ServiceError>)
    ensures
        exists ==> r == Err::<String, ServiceError>(ServiceError::AlreadyExists),
        !exists ==> (r matches Ok(p) && phrase_is_valid(p@) && count_spaces(p@) == 11 && trimmed(
            p@,
        ) == p@ && exists|
            e: Seq<u8>,
        | e.len() == 16 && p@ == phrase_of_entropy(e)),
{
    let e = fresh_entropy();
    phrase_to_create(exists, &e)
}

/// Resolves the phrase a wallet starts from, drawing fresh entropy from the
/// secure generator for the case where nothing is stored.
pub fn load_or_create_phrase(stored: Option<String>) -> (r: Result<(String, bool), ServiceError>)
    ensures
        stored matches Some(c) ==> (if phrase_is_valid(trimmed(c@)) {
            (r matches Ok((p, w)) && p@ == trimmed(c@) && !w)
        } else {
            r == Err::<(String, bool), ServiceError>(ServiceError::Format)
        }),
        stored is None ==> (r matches Ok((p, w)) && w && phrase_is_valid(p@) && count_spaces(p@)
            == 11 && trimmed(p@) == p@),
{
    let e = fresh_entropy();
    resolve_phrase(stored, &e)
}

/// Decides a creation request: refused when a phrase file already exists,
/// otherwise the phrase of the given entropy, to be written.
pub fn phrase_to_create(exists: bool, entropy: &[u8; 16]) -> (r: Result<String, ServiceError>)
    ensures
        exists ==> r == Err::<String, ServiceError>(ServiceError::AlreadyExists),
        !exists ==> (r matches Ok(p) && p@ == phrase_of_entropy(entropy@) && phrase_is_valid(p@)
            && count_spaces(p@) == 11 && trimmed(p@) == p@),
{
    if exists {
        Err(ServiceError::AlreadyExists)
    } else {
        Ok(phrase_from_entropy(entropy))
    }
}

/// Decides an import request: the trimmed phrase must parse, and no phrase
/// file may exist yet. On success the trimmed phrase is what gets written.
pub fn phrase_to_import(exists: bool, phrase: &str) -> (r: Result<String, ServiceError>)
    ensures
        !phrase_is_valid(trimmed(phrase@)) ==> r == Err::<String, ServiceError>(
            ServiceError::Format,
        ),
        phrase_is_valid(trimmed(phrase@)) && exists ==> r == Err::<String, ServiceError>(
            ServiceError::AlreadyExists,
        ),
        phrase_is_valid(trimmed(phrase@)) && !exists ==> (r matches Ok(p) && p@ == trimmed(
            phrase@,
        ) && trimmed(p@) == p@),
{
    let t = trim_text(phrase);
    proof {
        lemma_trimmed_idempotent(phrase@);
    }
    if !check_phrase(t) {
        Err(ServiceError::Format)
    } else if exists {
        Err(ServiceError::AlreadyExists)
    } else {
        Ok(t.to_string())
    }
}

/// Reads a stored phrase file's text: the trimmed phrase, or `Format` when it
/// does not parse.
pub fn phrase_from_file(content: &str) -> (r: Result<String, ServiceError>)
    ensures
        phrase_is_valid(trimmed(content@)) ==> (r matches Ok(p) && p@ == trimmed(content@)
            && trimmed(p@) == p@),
        !phrase_is_valid(trimmed(content@)) ==> r == Err::<String, ServiceError>(
            ServiceError::Format,
        ),
{
    let t = trim_text(content);
    proof {
        lemma_trimmed_idempotent(content@);
    }
    if check_phrase(t) {
        Ok(t.to_string())
    } else {
        Err(ServiceError::Format)
    }
}

/// The phrase to show for backup: the stored text, trimmed, if there is one.
pub fn stored_phrase(content: Option<String>) -> (r: Option<String>)
    ensures
        content is None ==> r is None,
        content matches Some(c) ==> (r matches Some(p) && p@ == trimmed(c@)),
{
    match content {
        Some(c) => Some(trim_text(c.as_str()).to_string()),
        None => None,
    }
}

/// Resolves the phrase a wallet starts from: the stored one when present
/// (which must parse), else the phrase of the fresh entropy. The flag says
/// whether the phrase is new and must be written.
pub fn resolve_phrase(stored: Option<String>, entropy: &[u8; 16]) -> (r: Result<
    (String, bool),
    ServiceError,
>)
    ensures
        stored matches Some(c) ==> (if phrase_is_valid(trimmed(c@)) {
            (r matches Ok((p, w)) && p@ == trimmed(c@) && !w)
        } else {
            r == Err::<(String, bool), ServiceError>(ServiceError::Format)
        }),
        stored is None ==> (r matches Ok((p, w)) && p@ == phrase_of_entropy(entropy@) && w
            && phrase_is_valid(p@) && count_spaces(p@) == 11 && trimmed(p@) == p@),
        r matches Ok((p, _)) ==> phrase_is_valid(p@),
{
    match stored {
        Some(c) => match phrase_from_file(c.as_str()) {
            Ok(p) => Ok((p, false)),
            Err(e) => Err(e),
        },
        None => Ok((phrase_from_entropy(entropy), true)),
    }
}

} // verus!
