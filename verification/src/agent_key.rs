//! Agent public keys, their bytes and their text form.
use crate::text::{is_white_space, lemma_trimmed_is_identity, trimmed};
use vstd::prelude::*;

verus! {

/// The three bytes that every agent public key starts with.
pub open spec fn agent_prefix() -> Seq<u8> {
    seq![0x84u8, 0x20u8, 0x24u8]
}

/// The full 39 bytes of the agent key with the given 32 bytes of Ed25519 public key: the prefix,
/// those bytes, and four location bytes computed from them.
pub uninterp spec fn key_bytes(raw: Seq<u8>) -> Seq<u8>;

/// The character for six bits in URL-safe base64.
pub open spec fn base64url_char(n: int) -> char
    recommends
        0 <= n < 64,
{
    if n < 26 {
        (65 + n) as char
    } else if n < 52 {
        (97 + (n - 26)) as char
    } else if n < 62 {
        (48 + (n - 52)) as char
    } else if n == 62 {
        '-'
    } else {
        '_'
    }
}

/// The `i`-th group of six bits of the bytes, which come in threes.
pub open spec fn six_bits(bytes: Seq<u8>, i: int) -> int {
    let first = 3 * (i / 4);
    let three = 0x10000 * bytes[first] + 0x100 * bytes[first + 1] + bytes[first + 2];
    if i % 4 == 0 {
        three / 0x40000
    } else if i % 4 == 1 {
        three / 0x1000 % 0x40
    } else if i % 4 == 2 {
        three / 0x40 % 0x40
    } else {
        three % 0x40
    }
}

/// The bytes in URL-safe base64, for a number of bytes that three divides.
pub open spec fn base64url(bytes: Seq<u8>) -> Seq<char> {
    Seq::new((bytes.len() / 3 * 4) as nat, |i: int| base64url_char(six_bits(bytes, i)))
}

/// The text form of the agent key with the given 39 bytes.
pub open spec fn key_text(bytes: Seq<u8>) -> Seq<char> {
    seq!['u'] + base64url(bytes)
}

/// What reading a key from text gives: its 39 bytes, or the debug form of the error.
pub uninterp spec fn key_read(text: Seq<char>) -> Result<Seq<u8>, Seq<char>>;

/// The text reads as the key with the given bytes.
pub open spec fn reads_as(text: Seq<char>, bytes: Seq<u8>) -> bool {
    key_read(text) == Ok::<Seq<u8>, Seq<char>>(bytes)
}

/// The text reads as no key, with the given error.
pub open spec fn fails_as(text: Seq<char>, error: Seq<char>) -> bool {
    key_read(text) == Err::<Seq<u8>, Seq<char>>(error)
}

/// What a read gave, in plain values.
pub open spec fn outcome(read: Result<[u8; 39], String>) -> Result<Seq<u8>, Seq<char>> {
    match read {
        Ok(bytes) => Ok(bytes@),
        Err(error) => Err(error@),
    }
}

/// The read was refused with the given error.
pub open spec fn refused_with(read: Result<[u8; 39], String>, error: Seq<char>) -> bool {
    read matches Err(e) && e@ == error
}

/// Bytes that start with the agent prefix and whose location bytes are the checksum of the 32
/// bytes before them.
pub open spec fn is_agent_key(bytes: Seq<u8>) -> bool {
    bytes.subrange(0, 3) == agent_prefix() && bytes == key_bytes(bytes.subrange(3, 35))
}

/// The text that a key can be read from at all: it has a first character of one byte.
pub open spec fn readable(text: Seq<char>) -> bool {
    text.len() > 0 && (text[0] as u32) < 0x80
}

/// The text form of a key is of 53 characters, none of which is white space.
proof fn lemma_key_text_has_no_white_space(bytes: Seq<u8>)
    requires
        bytes.len() == 39,
    ensures
        key_text(bytes).len() == 53,
        key_text(bytes)[0] == 'u',
        forall|i: int| 0 <= i < 53 ==> !is_white_space(#[trigger] key_text(bytes)[i]),
{
    assert forall|i: int| 0 <= i < 53 implies !is_white_space(#[trigger] key_text(bytes)[i]) by {
        if i > 0 {
            let n = six_bits(bytes, i - 1);
            assert(0 <= n < 64);
            assert(key_text(bytes)[i] == base64url_char(n));
        }
    }
}

/// Calls `holo_hash::AgentPubKey::from_raw_32`.
///
/// Its result is a function of the 32 bytes alone. It puts the agent prefix before them and four
/// location bytes, a checksum of them, behind them; how the checksum is computed is not stated.
#[verifier::external_body]
fn bytes_of_raw_32(raw: [u8; 32]) -> (bytes: [u8; 39])
    ensures
        bytes@ == key_bytes(raw@),
        bytes@.subrange(0, 3) == agent_prefix(),
        bytes@.subrange(3, 35) == raw@,
{
    let key = holo_hash::AgentPubKey::from_raw_32(raw.to_vec());
    key.into_inner().try_into().unwrap()
}

/// Calls the `Display` form of `holo_hash::AgentPubKey`, on the key with the given bytes.
///
/// The text is the letter `u` and the bytes in URL-safe base64, which takes no padding for 39
/// bytes. Reading the text gives the bytes back where the location bytes are the checksum of the 32
/// bytes before them.
#[verifier::external_body]
fn text_of_bytes(bytes: [u8; 39]) -> (text: String)
    requires
        bytes@.subrange(0, 3) == agent_prefix(),
    ensures
        text@ == key_text(bytes@),
        bytes@ == key_bytes(bytes@.subrange(3, 35)) ==> reads_as(text@, bytes@),
{
    let key = holo_hash::AgentPubKey::from_raw_39(bytes.to_vec());
    format!("{}", key)
}

/// Calls `holo_hash::AgentPubKey::try_from` on the text.
///
/// Its result is a function of the text alone; an error is given by its `Debug` form. Text that
/// does not start with `u` is refused as `NoU`. The bytes of a key that was read start with the
/// agent prefix, and its location bytes are the checksum of the 32 bytes before them. The call
/// takes the first byte of the text as a string of its own, so it needs one.
#[verifier::external_body]
fn bytes_of_text(text: &str) -> (read: Result<[u8; 39], String>)
    requires
        readable(text@),
    ensures
        outcome(read) == key_read(text@),
        text@[0] != 'u' ==> refused_with(read, "NoU"@),
        read is Ok ==> is_agent_key(read->Ok_0@),
{
    holo_hash::AgentPubKey::try_from(text)
        .map(|key| key.into_inner().try_into().unwrap())
        .map_err(|error| format!("{:?}", error))
}

/// An agent's public key: 39 bytes, of which the middle 32 are the Ed25519 public key.
#[derive(Clone, Copy, Debug, PartialEq, Eq)]
pub struct AgentPubKey {
    bytes: [u8; 39],
}

impl View for AgentPubKey {
    type V = Seq<u8>;

    closed spec fn view(&self) -> Seq<u8> {
        self.bytes@
    }
}

impl AgentPubKey {
    /// Every key is of 39 bytes and starts with the agent prefix.
    #[verifier::type_invariant]
    spec fn well_formed(self) -> bool {
        self.bytes@.subrange(0, 3) == agent_prefix()
    }

    /// The 32 bytes of Ed25519 public key.
    pub open spec fn raw_32(self) -> Seq<u8> {
        self@.subrange(3, 35)
    }

    /// Whether the location bytes are the checksum of the 32 bytes before them.
    pub open spec fn has_location(self) -> bool {
        self@ == key_bytes(self.raw_32())
    }

    /// The key with the given 39 bytes, where they start with the agent prefix.
    pub fn try_from_raw_39(bytes: [u8; 39]) -> (key: Option<AgentPubKey>)
        ensures
            key is Some <==> bytes@.subrange(0, 3) == agent_prefix(),
            key matches Some(k) ==> k@ == bytes@,
    {
        if bytes[0] == 0x84 && bytes[1] == 0x20 && bytes[2] == 0x24 {
            assert(bytes@.subrange(0, 3) =~= agent_prefix());
            Some(AgentPubKey { bytes })
        } else {
            assert(bytes@.subrange(0, 3)[0] == bytes@[0]);
            assert(bytes@.subrange(0, 3)[1] == bytes@[1]);
            assert(bytes@.subrange(0, 3)[2] == bytes@[2]);
            None
        }
    }

    /// The key with the given Ed25519 public key.
    pub fn from_raw_32(raw: [u8; 32]) -> (key: AgentPubKey)
        ensures
            key@ == key_bytes(raw@),
            key@.len() == 39,
            key.raw_32() == raw@,
            key.has_location(),
    {
        let bytes: [u8; 39] = bytes_of_raw_32(raw);
        AgentPubKey { bytes }
    }

    /// All 39 bytes of the key.
    pub fn get_raw_39(&self) -> (bytes: [u8; 39])
        ensures
            bytes@ == self@,
            bytes@.subrange(0, 3) == agent_prefix(),
    {
        proof {
            use_type_invariant(self);
        }
        self.bytes
    }

    /// The 32 bytes of Ed25519 public key.
    pub fn get_raw_32(&self) -> (raw: [u8; 32])
        ensures
            raw@ == self.raw_32(),
    {
        let mut raw: [u8; 32] = [0; 32];
        let mut i: usize = 0;
        while i < 32
            invariant
                i <= 32,
                forall|j: int| 0 <= j < i ==> raw@[j] == self.bytes@[3 + j],
            decreases 32 - i,
        {
            raw[i] = self.bytes[3 + i];
            i = i + 1;
        }
        assert(raw@ =~= self.raw_32());
        raw
    }

    /// The text form of the key. It has no white space at its ends, and where the location bytes
    /// are in order it reads back as the key, trimmed or not.
    pub fn to_text(&self) -> (text: String)
        ensures
            text@ == key_text(self@),
            readable(trimmed(text@)),
            trimmed(text@) == text@,
            self.has_location() ==> reads_as(text@, self@),
    {
        proof {
            use_type_invariant(self);
        }
        let text = text_of_bytes(self.bytes);
        proof {
            lemma_key_text_has_no_white_space(self.bytes@);
            lemma_trimmed_is_identity(text@);
        }
        text
    }

    /// Reads a key from text, or says in words what is wrong with it.
    pub fn from_text(text: &str) -> (key: Result<AgentPubKey, String>)
        requires
            readable(text@),
        ensures
            match key {
                Ok(k) => reads_as(text@, k@) && k.has_location(),
                Err(error) => fails_as(text@, error@),
            },
            text@[0] != 'u' ==> fails_as(text@, "NoU"@),
    {
        match bytes_of_text(text) {
            Ok(bytes) => Ok(AgentPubKey { bytes }),
            Err(error) => Err(error),
        }
    }
}

/// Whether a key can be read from the text, as `AgentPubKey::from_text` requires.
pub fn is_readable(text: &str) -> (yes: bool)
    ensures
        yes == readable(text@),
{
    text.unicode_len() > 0 && (text.get_char(0) as u32) < 0x80
}

/// The six bits that a character of URL-safe base64 stands for.
pub open spec fn base64url_value(c: char) -> int {
    if 'A' as int <= c as int <= 'Z' as int {
        c as int - 'A' as int
    } else if 'a' as int <= c as int <= 'z' as int {
        c as int - 'a' as int + 26
    } else if '0' as int <= c as int <= '9' as int {
        c as int - '0' as int + 52
    } else if c == '-' {
        62
    } else if c == '_' {
        63
    } else {
        64
    }
}

proof fn lemma_character_stands_for_its_bits(n: int)
    requires
        0 <= n < 64,
    ensures
        base64url_value(base64url_char(n)) == n,
{
}

/// The text form of a key is the letter `u` and 52 characters of URL-safe base64, of which every
/// four hold three of the 39 bytes of the key. So it holds all of the key, and no two keys have the
/// same text.
pub proof fn law_key_text_holds_the_key(bytes: Seq<u8>, k: int)
    requires
        bytes.len() == 39,
        0 <= k < 13,
    ensures
        key_text(bytes).len() == 53,
        key_text(bytes)[0] == 'u',
        forall|j: int|
            4 * k < j <= 4 * k + 4 ==> 0 <= base64url_value(#[trigger] key_text(bytes)[j]) < 64,
        0x40000 * base64url_value(key_text(bytes)[4 * k + 1]) + 0x1000 * base64url_value(
            key_text(bytes)[4 * k + 2],
        ) + 0x40 * base64url_value(key_text(bytes)[4 * k + 3]) + base64url_value(
            key_text(bytes)[4 * k + 4],
        ) == 0x10000 * bytes[3 * k] + 0x100 * bytes[3 * k + 1] + bytes[3 * k + 2],
{
    let three = 0x10000 * bytes[3 * k] + 0x100 * bytes[3 * k + 1] + bytes[3 * k + 2];
    lemma_text_holds_six_bits(bytes, 4 * k, k, 0);
    lemma_text_holds_six_bits(bytes, 4 * k + 1, k, 1);
    lemma_text_holds_six_bits(bytes, 4 * k + 2, k, 2);
    lemma_text_holds_six_bits(bytes, 4 * k + 3, k, 3);
    lemma_six_bits_make_three_bytes(three);
    assert forall|j: int| 4 * k < j <= 4 * k + 4 implies 0 <= base64url_value(
        #[trigger] key_text(bytes)[j],
    ) < 64 by {
        assert(j == 4 * k + 1 || j == 4 * k + 2 || j == 4 * k + 3 || j == 4 * k + 4);
    }
}

/// The `place`-th of the four groups of six bits of three bytes.
spec fn group(three: int, place: int) -> int {
    if place == 0 {
        three / 0x40000
    } else if place == 1 {
        three / 0x1000 % 0x40
    } else if place == 2 {
        three / 0x40 % 0x40
    } else {
        three % 0x40
    }
}

proof fn lemma_six_bits_make_three_bytes(three: int)
    requires
        0 <= three < 0x1000000,
    ensures
        0x40000 * group(three, 0) + 0x1000 * group(three, 1) + 0x40 * group(three, 2) + group(
            three,
            3,
        ) == three,
{
    assert(three / 0x1000 == (three / 0x40) / 0x40);
    assert(three / 0x40000 == (three / 0x1000) / 0x40);
}

proof fn lemma_text_holds_six_bits(bytes: Seq<u8>, i: int, k: int, place: int)
    requires
        bytes.len() == 39,
        0 <= k < 13,
        0 <= place < 4,
        i == 4 * k + place,
    ensures
        key_text(bytes).len() == 53,
        key_text(bytes)[0] == 'u',
        ({
            let three = 0x10000 * bytes[3 * k] + 0x100 * bytes[3 * k + 1] + bytes[3 * k + 2];
            base64url_value(key_text(bytes)[i + 1]) == group(three, place)
        }),
        0 <= base64url_value(key_text(bytes)[i + 1]) < 64,
{
    assert(i / 4 == k && i % 4 == place);
    let n = six_bits(bytes, i);
    assert(0 <= n < 64);
    assert(base64url(bytes)[i] == base64url_char(n));
    assert(key_text(bytes)[i + 1] == base64url(bytes)[i]);
    lemma_character_stands_for_its_bits(n);
}

/// The Ed25519 public key is what is between the three bytes of the prefix and the four bytes of
/// the location; keys can be read from any text that starts with an ASCII character.
pub proof fn law_public_key_is_between_prefix_and_location(
    key: AgentPubKey,
    i: int,
    text: Seq<char>,
)
    requires
        key@.len() == 39,
        0 <= i < 32,
    ensures
        key.raw_32().len() == 32,
        key.raw_32()[i] == key@[3 + i],
        readable(text) <==> text.len() > 0 && text[0] as u32 <= 127,
{
}

} // verus!
