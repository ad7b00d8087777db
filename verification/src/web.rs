use vstd::prelude::*;

verus! {

// ---------------------------------------------------------------------
// Hex-keyed image cache
// ---------------------------------------------------------------------

/// The in-memory cache of encoded raster outputs, keyed by their
/// 32-byte content hash.
pub type ProcessedImages = dashmap::DashMap<Vec<u8>, Vec<u8>>;

#[verifier::external_type_specification]
#[verifier::external_body]
#[verifier::reject_recursive_types(K)]
#[verifier::reject_recursive_types(V)]
#[verifier::reject_recursive_types(S)]
pub struct ExDashMap<K, V, S>(dashmap::DashMap<K, V, S>);

/// What the cache holds: the stored bytes for each stored key.
pub uninterp spec fn cache_entries(m: ProcessedImages) -> Map<Seq<u8>, Seq<u8>>;

/// The cache holds nothing.
pub open spec fn no_entries(entries: Map<Seq<u8>, Seq<u8>>) -> bool {
    entries == Map::<Seq<u8>, Seq<u8>>::empty()
}

/// Relies on dashmap::DashMap::new: it creates an empty map.
#[verifier::external_body]
fn dashmap_new() -> (r: ProcessedImages)
    ensures
        no_entries(cache_entries(r)),
{
    dashmap::DashMap::new()
}

/// Relies on dashmap::DashMap::insert: it stores the value under the
/// key, replacing any value stored there before.
#[verifier::external_body]
fn dashmap_insert(m: &mut ProcessedImages, key: Vec<u8>, value: Vec<u8>)
    ensures
        cache_entries(*final(m)) == cache_entries(*old(m)).insert(key@, value@),
{
    m.insert(key, value);
}

/// Relies on dashmap::DashMap::get: it yields the value stored under
/// the key, or nothing when the key is absent.
#[verifier::external_body]
fn dashmap_get(m: &ProcessedImages, key: &Vec<u8>) -> (r: Option<Vec<u8>>)
    ensures
        match r {
            Some(v) => cache_entries(*m).contains_key(key@) && v@ == cache_entries(*m)[key@],
            None => !cache_entries(*m).contains_key(key@),
        },
{
    match m.get(key) {
        Some(entry) => Some(entry.value().clone()),
        None => None,
    }
}

// ---------------------------------------------------------------------
// Hex hashes
// ---------------------------------------------------------------------

pub open spec fn is_hex_digit(c: char) -> bool {
    ('0' <= c && c <= '9') || ('a' <= c && c <= 'f') || ('A' <= c && c <= 'F')
}

pub open spec fn hex_digit_value(c: char) -> int {
    if '0' <= c && c <= '9' {
        c as int - '0' as int
    } else if 'a' <= c && c <= 'f' {
        c as int - 'a' as int + 10
    } else {
        c as int - 'A' as int + 10
    }
}

/// A string hex-decodes only if its length is even and every character
/// is a hex digit.
pub open spec fn valid_hex(s: Seq<char>) -> bool {
    s.len() % 2 == 0 && forall|i: int| 0 <= i < s.len() ==> is_hex_digit(#[trigger] s[i])
}

/// The bytes a valid hex string decodes to: two digits a byte, the
/// high digit first.
pub open spec fn hex_bytes(s: Seq<char>) -> Seq<u8> {
    Seq::new(
        (s.len() / 2) as nat,
        |i: int| (16 * hex_digit_value(s[2 * i]) + hex_digit_value(s[2 * i + 1])) as u8,
    )
}

#[verifier::external_type_specification]
#[verifier::external_body]
pub struct ExFromHexError(hex::FromHexError);

/// Relies on hex::decode: it yields the bytes of an even-length string
/// of hex digits, two digits a byte with the high digit first, and
/// rejects every other string.
#[verifier::external_body]
fn hex_decode(s: &str) -> (r: Result<Vec<u8>, hex::FromHexError>)
    ensures
        r is Ok <==> valid_hex(s@),
        r matches Ok(v) ==> v@ == hex_bytes(s@),
{
    hex::decode(s)
}

// ---------------------------------------------------------------------
// Request handling
// ---------------------------------------------------------------------

/// Why an image lookup is refused.
#[derive(Clone, Copy, PartialEq, Eq, Structural, Debug)]
pub enum ImageQueryError {
    /// The hash is not a hex string.
    InvalidHex,
    /// The hash decodes, but to this many bytes rather than 32.
    WrongLength(usize),
    /// No image is cached under the hash.
    NotFound,
}

/// Looks an encoded image up by its hex-written 32-byte hash:
/// malformed hex, a hash of any other length, and a cache miss are
/// each refused with their own error; a hit yields the cached bytes.
pub fn get_image(hash: &str, processed: &ProcessedImages) -> (r: Result<Vec<u8>, ImageQueryError>)
    ensures
        !valid_hex(hash@) ==> r == Err::<Vec<u8>, _>(ImageQueryError::InvalidHex),
        valid_hex(hash@) && hash@.len() != 64 ==> r == Err::<Vec<u8>, _>(
            ImageQueryError::WrongLength((hash@.len() / 2) as usize),
        ),
        valid_hex(hash@) && hash@.len() == 64 && !cache_entries(*processed).contains_key(
            hex_bytes(hash@),
        ) ==> r == Err::<Vec<u8>, _>(ImageQueryError::NotFound),
        valid_hex(hash@) && hash@.len() == 64 && cache_entries(*processed).contains_key(
            hex_bytes(hash@),
        ) ==> (r matches Ok(v) && v@ == cache_entries(*processed)[hex_bytes(hash@)]),
{
    let decoded = match hex_decode(hash) {
        Ok(d) => d,
        Err(_) => {
            return Err(ImageQueryError::InvalidHex);
        },
    };
    if decoded.len() != 32 {
        return Err(ImageQueryError::WrongLength(decoded.len()));
    }
    match dashmap_get(processed, &decoded) {
        Some(v) => Ok(v),
        None => Err(ImageQueryError::NotFound),
    }
}

/// Stores an encoded raster output under its 32-byte hash, as the
/// generation endpoint does after running a sketcher.
pub fn cache_image(processed: &mut ProcessedImages, hash: Vec<u8>, encoded: Vec<u8>)
    requires
        hash@.len() == 32,
    ensures
        cache_entries(*final(processed)) == cache_entries(*old(processed)).insert(
            hash@,
            encoded@,
        ),
{
    dashmap_insert(processed, hash, encoded);
}

/// The landing page the front end serves at its root.
pub fn get_index() -> (r: &'static str)
    ensures
        r@.len() > 0,
{
    let page = "<!DOCTYPE html><html><head><title>Generative art</title></head><body><p>Post an image to receive generative art, then fetch the result by its hash.</p></body></html>";
    proof {
        reveal_strlit(
            "<!DOCTYPE html><html><head><title>Generative art</title></head><body><p>Post an image to receive generative art, then fetch the result by its hash.</p></body></html>",
        );
    }
    page
}

/// Assembles the state the serving front end starts from: the empty
/// image cache its routes share.
pub fn rocket() -> (r: ProcessedImages)
    ensures
        no_entries(cache_entries(r)),
{
    dashmap_new()
}

} // verus!
