//! Identifiers: a type namespace, a separator and a local id.

use vstd::prelude::*;
use vstd::string::*;
use crate::error::RecordError;

verus! {

/// The character between the namespace and the local id of an identifier.
pub const SEPARATOR: char = '/';

/// Whether `tag` can name a type: it holds no separator.
pub open spec fn is_namespace(tag: Seq<char>) -> bool {
    !tag.contains(SEPARATOR)
}

/// The identifier of the document of type `tag` with the local id `local`.
pub open spec fn spec_guid_for(tag: Seq<char>, local: Seq<char>) -> Seq<char> {
    tag + seq![SEPARATOR] + local
}

/// Whether `i` is the place of the first separator in `raw`.
pub open spec fn is_first_separator(raw: Seq<char>, i: int) -> bool {
    &&& 0 <= i < raw.len()
    &&& raw[i] == SEPARATOR
    &&& forall|j: int| 0 <= j < i ==> raw[j] != SEPARATOR
}

/// The namespace and the local id of `raw`: what stands before and behind
/// its first separator. `None` where it holds no separator.
pub open spec fn spec_split_guid(raw: Seq<char>) -> Option<(Seq<char>, Seq<char>)> {
    if exists|i: int| is_first_separator(raw, i) {
        let i = choose|i: int| is_first_separator(raw, i);
        Some((raw.subrange(0, i), raw.subrange(i + 1, raw.len() as int)))
    } else {
        None
    }
}

/// The local id of `raw` where `raw` is an identifier of type `tag`, that is
/// `tag`, a separator and the local id, for a `tag` that is a namespace.
pub open spec fn spec_split_and_check_guid(tag: Seq<char>, raw: Seq<char>) -> Option<Seq<char>> {
    if is_namespace(tag) && tag.len() < raw.len() && raw.subrange(0, tag.len() as int) == tag
        && raw[tag.len() as int] == SEPARATOR {
        Some(raw.subrange(tag.len() as int + 1, raw.len() as int))
    } else {
        None
    }
}

/// Whether `raw` is an identifier of type `tag`.
pub open spec fn is_guid_of(tag: Seq<char>, raw: Seq<char>) -> bool {
    spec_split_and_check_guid(tag, raw) is Some
}

/// A sequence has at most one first separator.
proof fn lemma_first_separator_unique(raw: Seq<char>, i: int, j: int)
    requires
        is_first_separator(raw, i),
        is_first_separator(raw, j),
    ensures
        i == j,
{
    if i < j {
        assert(raw[i] != SEPARATOR);
    } else if j < i {
        assert(raw[j] != SEPARATOR);
    }
}

/// Where `i` is the first separator, the split is made there.
proof fn lemma_split_at(raw: Seq<char>, i: int)
    requires
        is_first_separator(raw, i),
    ensures
        spec_split_guid(raw) == Some((raw.subrange(0, i), raw.subrange(i + 1, raw.len() as int))),
{
    let k = choose|k: int| is_first_separator(raw, k);
    lemma_first_separator_unique(raw, i, k);
}

/// An identifier of a namespace splits into that namespace and its local id.
pub proof fn lemma_split_of_guid(tag: Seq<char>, local: Seq<char>)
    requires
        is_namespace(tag),
    ensures
        spec_split_guid(spec_guid_for(tag, local)) == Some((tag, local)),
{
    let raw = spec_guid_for(tag, local);
    let i = tag.len() as int;
    assert(raw[i] == SEPARATOR);
    assert forall|j: int| 0 <= j < i implies raw[j] != SEPARATOR by {
        assert(raw[j] == tag[j]);
        assert(tag.contains(tag[j]));
    }
    lemma_split_at(raw, i);
    assert(raw.subrange(0, i) =~= tag);
    assert(raw.subrange(i + 1, raw.len() as int) =~= local);
}

/// Checking an identifier against a type is splitting it and comparing the
/// namespace.
pub proof fn lemma_check_is_split(tag: Seq<char>, raw: Seq<char>)
    ensures
        spec_split_and_check_guid(tag, raw) == match spec_split_guid(raw) {
            Some((namespace, local)) => if namespace == tag {
                Some(local)
            } else {
                None
            },
            None => None,
        },
{
    if spec_split_and_check_guid(tag, raw) is Some {
        let i = tag.len() as int;
        assert forall|j: int| 0 <= j < i implies raw[j] != SEPARATOR by {
            assert(raw.subrange(0, i)[j] == raw[j]);
            assert(tag.contains(tag[j]));
        }
        lemma_split_at(raw, i);
    } else if spec_split_guid(raw) is Some {
        let i = choose|i: int| is_first_separator(raw, i);
        let namespace = raw.subrange(0, i);
        if namespace == tag {
            assert(namespace.len() == i);
            if tag.contains(SEPARATOR) {
                let j = choose|j: int| 0 <= j < tag.len() && tag[j] == SEPARATOR;
                assert(namespace[j] == raw[j]);
            }
            assert(false);
        }
    }
}

/// An identifier made for a type passes the check against that type and
/// gives back the local id it was made from.
pub proof fn lemma_own_guid_accepted(tag: Seq<char>, local: Seq<char>)
    requires
        is_namespace(tag),
    ensures
        spec_split_and_check_guid(tag, spec_guid_for(tag, local)) == Some(local),
{
    lemma_split_of_guid(tag, local);
    lemma_check_is_split(tag, spec_guid_for(tag, local));
}

/// An identifier made for one type fails the check against any other type.
pub proof fn lemma_foreign_guid_rejected(tag: Seq<char>, other: Seq<char>, local: Seq<char>)
    requires
        is_namespace(other),
        tag != other,
    ensures
        spec_split_and_check_guid(tag, spec_guid_for(other, local)) is None,
{
    lemma_split_of_guid(other, local);
    lemma_check_is_split(tag, spec_guid_for(other, local));
}

/// Within one type, different local ids give different identifiers.
pub proof fn lemma_guid_injective(tag: Seq<char>, a: Seq<char>, b: Seq<char>)
    requires
        spec_guid_for(tag, a) == spec_guid_for(tag, b),
    ensures
        a == b,
{
    let ga = spec_guid_for(tag, a);
    let gb = spec_guid_for(tag, b);
    let k = tag.len() as int + 1;
    assert(ga.subrange(k, ga.len() as int) =~= a);
    assert(gb.subrange(k, gb.len() as int) =~= b);
}

/// An identifier that passes the check is the one made from the type and
/// the local id found.
pub proof fn lemma_checked_guid_is_own(tag: Seq<char>, raw: Seq<char>)
    requires
        spec_split_and_check_guid(tag, raw) is Some,
    ensures
        raw == spec_guid_for(tag, spec_split_and_check_guid(tag, raw)->Some_0),
{
    let local = spec_split_and_check_guid(tag, raw)->Some_0;
    assert(raw =~= raw.subrange(0, tag.len() as int) + seq![SEPARATOR] + local);
}

/// The identifier of the document of type `tag` with the local id `local`:
/// the two joined by the separator.
pub fn guid_for(tag: &str, local: &str) -> (guid: String)
    ensures
        guid@ == spec_guid_for(tag@, local@),
{
    proof {
        reveal_strlit("/");
    }
    let mut guid = String::from_str(tag);
    guid.append("/");
    guid.append(local);
    assert("/"@ =~= seq![SEPARATOR]);
    guid
}

/// Splits an identifier at its first separator into namespace and local id.
pub fn split_guid<'a>(raw: &'a str) -> (parts: Option<(&'a str, &'a str)>)
    ensures
        match parts {
            Some((namespace, local)) => spec_split_guid(raw@) == Some((namespace@, local@)),
            None => spec_split_guid(raw@) is None,
        },
{
    let n = raw.unicode_len();
    let mut i: usize = 0;
    for c in chars: raw.chars()
        invariant
            chars.seq() == raw@,
            n == raw@.len(),
            i == chars.index(),
            forall|j: int| 0 <= j < i ==> raw@[j] != SEPARATOR,
    {
        if c == SEPARATOR {
            proof {
                lemma_split_at(raw@, i as int);
            }
            return Some((raw.substring_char(0, i), raw.substring_char(i + 1, n)));
        }
        i += 1;
    }
    assert forall|k: int| !is_first_separator(raw@, k) by {}
    None
}

/// The local id of `raw`, where `raw` is an identifier of type `tag`.
/// Any other `raw`, malformed or of another namespace, is an invalid
/// identifier.
pub fn split_and_check_guid(tag: &str, raw: &str) -> (local: Result<String, RecordError>)
    ensures
        match local {
            Ok(id) => spec_split_and_check_guid(tag@, raw@) == Some(id@),
            Err(e) => spec_split_and_check_guid(tag@, raw@) is None && e
                == RecordError::InvalidIdentifier,
        },
{
    proof {
        lemma_check_is_split(tag@, raw@);
    }
    match split_guid(raw) {
        Some((namespace, local)) => {
            if namespace.to_owned() == tag.to_owned() {
                Ok(local.to_owned())
            } else {
                Err(RecordError::InvalidIdentifier)
            }
        },
        None => Err(RecordError::InvalidIdentifier),
    }
}

/// The SHA-256 digest of a byte string.
pub uninterp spec fn sha256_digest(data: Seq<u8>) -> Seq<u8>;

/// The digest that `sha2::Sha256` computes of `data` in one go
/// (`Digest::digest`): the SHA-256 digest of these bytes.
#[verifier::external_body]
fn sha256(data: &[u8]) -> (digest: Vec<u8>)
    ensures
        digest@ == sha256_digest(data@),
{
    <sha2::Sha256 as sha2::Digest>::digest(data).to_vec()
}

/// The lower-case hexadecimal digit of a value below sixteen.
pub open spec fn hex_digit(nibble: int) -> char {
    if nibble == 0 {
        '0'
    } else if nibble == 1 {
        '1'
    } else if nibble == 2 {
        '2'
    } else if nibble == 3 {
        '3'
    } else if nibble == 4 {
        '4'
    } else if nibble == 5 {
        '5'
    } else if nibble == 6 {
        '6'
    } else if nibble == 7 {
        '7'
    } else if nibble == 8 {
        '8'
    } else if nibble == 9 {
        '9'
    } else if nibble == 10 {
        'a'
    } else if nibble == 11 {
        'b'
    } else if nibble == 12 {
        'c'
    } else if nibble == 13 {
        'd'
    } else if nibble == 14 {
        'e'
    } else {
        'f'
    }
}

/// The lower-case hexadecimal form of `bytes`: two digits for each byte, the
/// high half first.
pub open spec fn hex_lower(bytes: Seq<u8>) -> Seq<char> {
    Seq::new(
        2 * bytes.len(),
        |i: int|
            if i % 2 == 0 {
                hex_digit(bytes[i / 2] as int / 16)
            } else {
                hex_digit(bytes[i / 2] as int % 16)
            },
    )
}

/// The local id that stands for `content`: the hexadecimal form of the
/// SHA-256 digest of its UTF-8 bytes.
pub open spec fn spec_id_from_hashed_string(content: Seq<char>) -> Seq<char> {
    hex_lower(sha256_digest(vstd::utf8::encode_utf8(content)))
}

/// The hexadecimal digit of `nibble` as a string of one character.
fn hex_digit_str(nibble: u8) -> (digit: &'static str)
    requires
        nibble < 16,
    ensures
        digit@ == seq![hex_digit(nibble as int)],
{
    proof {
        reveal_strlit("0");
        reveal_strlit("1");
        reveal_strlit("2");
        reveal_strlit("3");
        reveal_strlit("4");
        reveal_strlit("5");
        reveal_strlit("6");
        reveal_strlit("7");
        reveal_strlit("8");
        reveal_strlit("9");
        reveal_strlit("a");
        reveal_strlit("b");
        reveal_strlit("c");
        reveal_strlit("d");
        reveal_strlit("e");
        reveal_strlit("f");
    }
    let digit = match nibble {
        0 => "0",
        1 => "1",
        2 => "2",
        3 => "3",
        4 => "4",
        5 => "5",
        6 => "6",
        7 => "7",
        8 => "8",
        9 => "9",
        10 => "a",
        11 => "b",
        12 => "c",
        13 => "d",
        14 => "e",
        _ => "f",
    };
    assert(digit@ =~= seq![hex_digit(nibble as int)]);
    digit
}

/// Writes `bytes` in lower-case hexadecimal.
pub fn to_hex_lower(bytes: &[u8]) -> (hex: String)
    ensures
        hex@ == hex_lower(bytes@),
{
    let mut hex = String::new();
    let mut i: usize = 0;
    while i < bytes.len()
        invariant
            i <= bytes@.len(),
            hex@ == hex_lower(bytes@.subrange(0, i as int)),
        decreases bytes@.len() - i,
    {
        let byte = bytes[i];
        let ghost before = hex@;
        hex.append(hex_digit_str(byte / 16));
        hex.append(hex_digit_str(byte % 16));
        proof {
            let done = bytes@.subrange(0, i as int);
            let next = bytes@.subrange(0, i + 1);
            assert(hex@ == before + seq![hex_digit(byte as int / 16)] + seq![
                hex_digit(byte as int % 16),
            ]);
            assert forall|k: int| 0 <= k < 2 * (i + 1) implies hex@[k] == hex_lower(next)[k] by {
                if k < 2 * i {
                    assert(hex@[k] == hex_lower(done)[k]);
                    assert(done[k / 2] == next[k / 2]);
                } else {
                    assert(next[k / 2] == byte);
                }
            }
            assert(hex@ =~= hex_lower(next));
        }
        i += 1;
    }
    assert(bytes@.subrange(0, i as int) =~= bytes@);
    hex
}

/// The local id of a document that is found by its content: a cryptographic
/// hash of `content`. The same content always gives the same id.
pub fn id_from_hashed_string(content: &str) -> (id: String)
    ensures
        id@ == spec_id_from_hashed_string(content@),
{
    let digest = sha256(content.as_bytes());
    to_hex_lower(digest.as_slice())
}

} // verus!
