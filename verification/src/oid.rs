//! A Git object ID (i.e., a SHA-1): an exactly-20-byte value encoded on the
//! wire either as a 40-character hexadecimal string (human-readable
//! transports) or as the raw 20 bytes (binary transports).

use vstd::prelude::*;
use vstd::arithmetic::div_mod::lemma_fundamental_div_mod_converse;

use crate::error::MalformedInput;

verus! {

/// Number of bytes in an object identifier.
pub const OID_LEN: usize = 20;

/// Number of hexadecimal characters in the textual form of an identifier.
pub const OID_HEX_LEN: usize = 40;

// ---------------------------------------------------------------------------
// Hexadecimal digits, as specification functions.
// ---------------------------------------------------------------------------

/// The value of a hexadecimal digit, or 16 for any other character.
pub open spec fn hex_digit_value(c: char) -> int {
    let u = c as u32;
    if 48 <= u && u <= 57 {
        u - 48  // '0' ..= '9'
    } else if 97 <= u && u <= 102 {
        u - 87  // 'a' ..= 'f'
    } else if 65 <= u && u <= 70 {
        u - 55  // 'A' ..= 'F'
    } else {
        16
    }
}

pub open spec fn is_hex_digit(c: char) -> bool {
    hex_digit_value(c) < 16
}

/// The lowercase hexadecimal digit for a value in `0 ..= 15`.
pub open spec fn hex_char_lower(v: int) -> char {
    if v < 10 {
        ((v + 48) as u8) as char  // '0' ..= '9'
    } else {
        ((v + 87) as u8) as char  // 'a' ..= 'f'
    }
}

/// The uppercase hexadecimal digit for a value in `0 ..= 15`.
pub open spec fn hex_char_upper(v: int) -> char {
    if v < 10 {
        ((v + 48) as u8) as char  // '0' ..= '9'
    } else {
        ((v + 55) as u8) as char  // 'A' ..= 'F'
    }
}

/// Maps `'A' ..= 'F'` to `'a' ..= 'f'` and leaves every other character as
/// it is; on hexadecimal strings this is exactly ASCII lowercasing.
pub open spec fn lower_hex_char(c: char) -> char {
    let u = c as u32;
    if 65 <= u && u <= 70 {
        ((u + 32) as u8) as char
    } else {
        c
    }
}

pub open spec fn to_lower_hex(s: Seq<char>) -> Seq<char> {
    Seq::new(s.len(), |i: int| lower_hex_char(s[i]))
}

pub open spec fn all_hex_digits(s: Seq<char>) -> bool {
    forall|i: int| 0 <= i < s.len() ==> is_hex_digit(#[trigger] s[i])
}

/// The index of the first character that is not a hexadecimal digit, or
/// `s.len()` if every character is one.
pub open spec fn first_non_hex(s: Seq<char>) -> int
    decreases s.len(),
{
    if s.len() == 0 {
        0
    } else if !is_hex_digit(s[0]) {
        0
    } else {
        1 + first_non_hex(s.drop_first())
    }
}

/// The bytes denoted by a string of hexadecimal digit pairs.
pub open spec fn hex_to_bytes(s: Seq<char>) -> Seq<u8> {
    Seq::new(
        s.len() / 2,
        |i: int| (16 * hex_digit_value(s[2 * i]) + hex_digit_value(s[2 * i + 1])) as u8,
    )
}

/// The lowercase hexadecimal rendering of a byte sequence.
pub open spec fn bytes_to_hex_lower(b: Seq<u8>) -> Seq<char> {
    Seq::new(
        2 * b.len(),
        |i: int|
            if i % 2 == 0 {
                hex_char_lower((b[i / 2] as int) / 16)
            } else {
                hex_char_lower((b[i / 2] as int) % 16)
            },
    )
}

/// The uppercase hexadecimal rendering of a byte sequence.
pub open spec fn bytes_to_hex_upper(b: Seq<u8>) -> Seq<char> {
    Seq::new(
        2 * b.len(),
        |i: int|
            if i % 2 == 0 {
                hex_char_upper((b[i / 2] as int) / 16)
            } else {
                hex_char_upper((b[i / 2] as int) % 16)
            },
    )
}

/// The all-zero identifier value.
pub open spec fn zero_oid_bytes() -> Seq<u8> {
    Seq::new(OID_LEN as nat, |i: int| 0u8)
}

/// The well-known identifier of the empty tree object,
/// `4b825dc642cb6eb9a060e54bf8d69288fbee4904`.
pub open spec fn empty_tree_oid_bytes() -> Seq<u8> {
    seq![
        0x4bu8, 0x82, 0x5d, 0xc6, 0x42, 0xcb, 0x6e, 0xb9, 0xa0, 0x60, 0xe5, 0x4b, 0xf8, 0xd6,
        0x92, 0x88, 0xfb, 0xee, 0x49, 0x04,
    ]
}

// ---------------------------------------------------------------------------
// The identifier value itself.
// ---------------------------------------------------------------------------

/// A Git object ID: an immutable 20-byte value, ordered byte-lexicographically.
#[derive(Debug, PartialEq, Eq, PartialOrd, Ord, Hash)]
pub struct Oid {
    bytes: Vec<u8>,
}

impl Clone for Oid {
    /// A clone holds the same 20 bytes.
    fn clone(&self) -> (res: Self)
        ensures
            res@ == self@,
    {
        Oid { bytes: identifier_to_bytes(self) }
    }
}

impl View for Oid {
    type V = Seq<u8>;

    closed spec fn view(&self) -> Seq<u8> {
        self.bytes@
    }
}

impl Oid {
    #[verifier::type_invariant]
    spec fn type_inv(self) -> bool {
        self.bytes@.len() == OID_LEN
    }

    /// The length of an identifier in bytes: always exactly 20.
    pub fn len(&self) -> (n: usize)
        ensures
            n == OID_LEN,
            self@.len() == OID_LEN,
    {
        proof {
            use_type_invariant(self);
        }
        OID_LEN
    }

    /// Decodes an identifier from a 40-character hexadecimal string,
    /// reporting any failure without detail.
    pub fn from_hex(s: &str) -> (r: Result<Self, ()>)
        ensures
            r matches Ok(o) ==> s@.len() == OID_HEX_LEN && all_hex_digits(s@) && o@ == hex_to_bytes(
                s@,
            ),
            r is Err <==> !(s@.len() == OID_HEX_LEN && all_hex_digits(s@)),
    {
        match identifier_from_hex(s) {
            Ok(o) => Ok(o),
            Err(_) => Err(()),
        }
    }

    /// The all-zero identifier, usually used to indicate that a ref is being
    /// created or deleted.
    pub fn zero() -> (r: Self)
        ensures
            r@ == zero_oid_bytes(),
    {
        let mut bytes: Vec<u8> = Vec::new();
        let mut i: usize = 0;
        while i < OID_LEN
            invariant
                i <= OID_LEN,
                bytes@.len() == i,
                forall|k: int| 0 <= k < i ==> bytes@[k] == 0u8,
            decreases OID_LEN - i,
        {
            bytes.push(0u8);
            i = i + 1;
        }
        let r = Oid { bytes };
        proof {
            assert(r@ =~= zero_oid_bytes());
        }
        r
    }

    /// The identifier of the empty tree object,
    /// `4b825dc642cb6eb9a060e54bf8d69288fbee4904`. This can be computed
    /// manually with `git hash-object -t tree /dev/null`.
    pub fn empty_tree() -> (r: Self)
        ensures
            r@ == empty_tree_oid_bytes(),
    {
        let bytes: Vec<u8> = vec![
            0x4bu8, 0x82, 0x5d, 0xc6, 0x42, 0xcb, 0x6e, 0xb9, 0xa0, 0x60, 0xe5, 0x4b, 0xf8, 0xd6,
            0x92, 0x88, 0xfb, 0xee, 0x49, 0x04,
        ];
        let r = Oid { bytes };
        proof {
            assert(r@ =~= empty_tree_oid_bytes());
        }
        r
    }
}

impl Default for Oid {
    /// The default identifier is the all-zero identifier.
    fn default() -> (r: Self)
        ensures
            r@ == zero_oid_bytes(),
    {
        Oid::zero()
    }
}

// ---------------------------------------------------------------------------
// Executable hexadecimal digit helpers.
// ---------------------------------------------------------------------------

/// The value of one hexadecimal digit character, if it is one.
fn try_hex_value(c: char) -> (r: Option<u8>)
    ensures
        is_hex_digit(c) ==> r == Some(hex_digit_value(c) as u8),
        !is_hex_digit(c) ==> r is None,
{
    let u = c as u32;
    if 48 <= u && u <= 57 {
        Some((u - 48) as u8)
    } else if 97 <= u && u <= 102 {
        Some((u - 87) as u8)
    } else if 65 <= u && u <= 70 {
        Some((u - 55) as u8)
    } else {
        None
    }
}

/// A one-character string holding the lowercase hexadecimal digit for `v`.
fn hex_str_lower(v: u8) -> (r: &'static str)
    requires
        v < 16,
    ensures
        r@ =~= seq![hex_char_lower(v as int)],
{
    proof {
        reveal_strlit("0");
        reveal_strlit("1");
        reveal_strlit("2");
        reveal_strlit("3");
        reveal_strlit("4");
        reveal_strlit("5");
        reveal_strlit("6");
        reveal_strlit("7");
        reveal_strlit("8");
        reveal_strlit("9");
        reveal_strlit("a");
        reveal_strlit("b");
        reveal_strlit("c");
        reveal_strlit("d");
        reveal_strlit("e");
        reveal_strlit("f");
    }
    match v {
        0 => "0",
        1 => "1",
        2 => "2",
        3 => "3",
        4 => "4",
        5 => "5",
        6 => "6",
        7 => "7",
        8 => "8",
        9 => "9",
        10 => "a",
        11 => "b",
        12 => "c",
        13 => "d",
        14 => "e",
        _ => "f",
    }
}

/// A one-character string holding the uppercase hexadecimal digit for `v`.
fn hex_str_upper(v: u8) -> (r: &'static str)
    requires
        v < 16,
    ensures
        r@ =~= seq![hex_char_upper(v as int)],
{
    proof {
        reveal_strlit("0");
        reveal_strlit("1");
        reveal_strlit("2");
        reveal_strlit("3");
        reveal_strlit("4");
        reveal_strlit("5");
        reveal_strlit("6");
        reveal_strlit("7");
        reveal_strlit("8");
        reveal_strlit("9");
        reveal_strlit("A");
        reveal_strlit("B");
        reveal_strlit("C");
        reveal_strlit("D");
        reveal_strlit("E");
        reveal_strlit("F");
    }
    match v {
        0 => "0",
        1 => "1",
        2 => "2",
        3 => "3",
        4 => "4",
        5 => "5",
        6 => "6",
        7 => "7",
        8 => "8",
        9 => "9",
        10 => "A",
        11 => "B",
        12 => "C",
        13 => "D",
        14 => "E",
        _ => "F",
    }
}

proof fn lemma_first_non_hex_at(s: Seq<char>, i: int)
    requires
        0 <= i < s.len(),
        forall|j: int| 0 <= j < i ==> is_hex_digit(#[trigger] s[j]),
        !is_hex_digit(s[i]),
    ensures
        first_non_hex(s) == i,
    decreases i,
{
    if i > 0 {
        let t = s.drop_first();
        assert(forall|j: int| 0 <= j < i - 1 ==> is_hex_digit(#[trigger] t[j]));
        assert(!is_hex_digit(t[i - 1]));
        lemma_first_non_hex_at(t, i - 1);
    }
}

// ---------------------------------------------------------------------------
// The codec itself.
// ---------------------------------------------------------------------------

/// Decodes an identifier from text: the input must be exactly 40 hexadecimal
/// characters, in either case. Length errors are reported before character
/// errors, and a character error carries the first offending character.
pub fn identifier_from_hex(s: &str) -> (r: Result<Oid, MalformedInput>)
    ensures
        r is Ok <==> s@.len() == OID_HEX_LEN && all_hex_digits(s@),
        r matches Ok(o) ==> o@ == hex_to_bytes(s@),
        s@.len() % 2 != 0 ==> r == Err::<Oid, MalformedInput>(
            MalformedInput::OddLength { found: s@.len() as usize },
        ),
        s@.len() % 2 == 0 && s@.len() != OID_HEX_LEN ==> r == Err::<Oid, MalformedInput>(
            MalformedInput::InvalidLength { found: s@.len() as usize, expected: OID_HEX_LEN },
        ),
        s@.len() == OID_HEX_LEN && !all_hex_digits(s@) ==> r == Err::<Oid, MalformedInput>(
            MalformedInput::InvalidCharacter { character: s@[first_non_hex(s@)] },
        ),
{
    let n = s.unicode_len();
    if n % 2 != 0 {
        return Err(MalformedInput::OddLength { found: n });
    }
    if n != OID_HEX_LEN {
        return Err(MalformedInput::InvalidLength { found: n, expected: OID_HEX_LEN });
    }
    let mut bytes: Vec<u8> = Vec::new();
    let mut i: usize = 0;
    while i < OID_HEX_LEN
        invariant
            s@.len() == OID_HEX_LEN,
            i % 2 == 0,
            i <= OID_HEX_LEN,
            bytes@.len() == i / 2,
            forall|j: int| 0 <= j < i ==> is_hex_digit(#[trigger] s@[j]),
            forall|k: int|
                0 <= k < i / 2 ==> bytes@[k] == (16 * hex_digit_value(s@[2 * k])
                    + hex_digit_value(s@[2 * k + 1])) as u8,
        decreases OID_HEX_LEN - i,
    {
        let hi = s.get_char(i);
        let lo = s.get_char(i + 1);
        let hv = match try_hex_value(hi) {
            Some(v) => v,
            None => {
                proof {
                    lemma_first_non_hex_at(s@, i as int);
                }
                return Err(MalformedInput::InvalidCharacter { character: hi });
            },
        };
        let lv = match try_hex_value(lo) {
            Some(v) => v,
            None => {
                proof {
                    lemma_first_non_hex_at(s@, i + 1);
                }
                return Err(MalformedInput::InvalidCharacter { character: lo });
            },
        };
        bytes.push(16 * hv + lv);
        i = i + 2;
    }
    let r = Oid { bytes };
    proof {
        assert(r@ =~= hex_to_bytes(s@));
    }
    Ok(r)
}

/// Decodes an identifier from binary: the buffer must hold exactly 20 bytes.
pub fn identifier_from_bytes(b: &[u8]) -> (r: Result<Oid, MalformedInput>)
    ensures
        r is Ok <==> b@.len() == OID_LEN,
        r matches Ok(o) ==> o@ == b@,
        b@.len() != OID_LEN ==> r == Err::<Oid, MalformedInput>(
            MalformedInput::InvalidLength { found: b@.len() as usize, expected: OID_LEN },
        ),
{
    if b.len() != OID_LEN {
        return Err(MalformedInput::InvalidLength { found: b.len(), expected: OID_LEN });
    }
    let bytes = vstd::slice::slice_to_vec(b);
    Ok(Oid { bytes })
}

/// Encodes an identifier as exactly 40 lowercase hexadecimal characters.
pub fn identifier_to_hex(oid: &Oid) -> (r: String)
    ensures
        r@ == bytes_to_hex_lower(oid@),
        r@.len() == 2 * OID_LEN,
{
    proof {
        use_type_invariant(oid);
    }
    let mut out = String::new();
    let mut i: usize = 0;
    while i < OID_LEN
        invariant
            oid@.len() == OID_LEN,
            i <= OID_LEN,
            out@.len() == 2 * i,
            forall|k: int| 0 <= k < 2 * i ==> out@[k] == bytes_to_hex_lower(oid@)[k],
        decreases OID_LEN - i,
    {
        let b = oid.bytes[i];
        out.append(hex_str_lower(b / 16));
        out.append(hex_str_lower(b % 16));
        i = i + 1;
    }
    proof {
        assert(out@ =~= bytes_to_hex_lower(oid@));
    }
    out
}

/// Encodes an identifier as exactly 40 uppercase hexadecimal characters, for
/// display purposes.
pub fn identifier_to_hex_upper(oid: &Oid) -> (r: String)
    ensures
        r@ == bytes_to_hex_upper(oid@),
        r@.len() == 2 * OID_LEN,
{
    proof {
        use_type_invariant(oid);
    }
    let mut out = String::new();
    let mut i: usize = 0;
    while i < OID_LEN
        invariant
            oid@.len() == OID_LEN,
            i <= OID_LEN,
            out@.len() == 2 * i,
            forall|k: int| 0 <= k < 2 * i ==> out@[k] == bytes_to_hex_upper(oid@)[k],
        decreases OID_LEN - i,
    {
        let b = oid.bytes[i];
        out.append(hex_str_upper(b / 16));
        out.append(hex_str_upper(b % 16));
        i = i + 1;
    }
    proof {
        assert(out@ =~= bytes_to_hex_upper(oid@));
    }
    out
}

/// Encodes an identifier as its raw 20 bytes.
pub fn identifier_to_bytes(oid: &Oid) -> (r: Vec<u8>)
    ensures
        r@ == oid@,
        r@.len() == OID_LEN,
{
    proof {
        use_type_invariant(oid);
    }
    let mut out: Vec<u8> = Vec::new();
    let mut i: usize = 0;
    while i < OID_LEN
        invariant
            oid@.len() == OID_LEN,
            i <= OID_LEN,
            out@.len() == i,
            forall|k: int| 0 <= k < i ==> out@[k] == oid@[k],
        decreases OID_LEN - i,
    {
        out.push(oid.bytes[i]);
        i = i + 1;
    }
    proof {
        assert(out@ =~= oid@);
    }
    out
}

// ---------------------------------------------------------------------------
// Round-trip laws.
// ---------------------------------------------------------------------------

/// Law: decoding any 40-character hexadecimal string and re-encoding it gives
/// back the same string up to lowercasing of its digits.
pub proof fn lemma_hex_round_trip(s: Seq<char>)
    requires
        s.len() == OID_HEX_LEN,
        all_hex_digits(s),
    ensures
        bytes_to_hex_lower(hex_to_bytes(s)) == to_lower_hex(s),
{
    let b = hex_to_bytes(s);
    let out = bytes_to_hex_lower(b);
    assert forall|i: int| 0 <= i < 40 implies out[i] == to_lower_hex(s)[i] by {
        let hv = hex_digit_value(s[2 * (i / 2)]);
        let lv = hex_digit_value(s[2 * (i / 2) + 1]);
        assert(is_hex_digit(s[2 * (i / 2)]));
        assert(is_hex_digit(s[2 * (i / 2) + 1]));
        assert(b[i / 2] as int == 16 * hv + lv);
        lemma_fundamental_div_mod_converse(16 * hv + lv, 16, hv, lv);
        if i % 2 == 0 {
            assert(2 * (i / 2) == i);
            assert(out[i] == hex_char_lower(hv));
            assert(hex_char_lower(hex_digit_value(s[i])) == lower_hex_char(s[i]));
        } else {
            assert(2 * (i / 2) + 1 == i);
            assert(out[i] == hex_char_lower(lv));
            assert(hex_char_lower(hex_digit_value(s[i])) == lower_hex_char(s[i]));
        }
    };
    assert(out =~= to_lower_hex(s));
}

/// Law: decoding any 20-byte buffer and re-encoding it gives back the same
/// bytes.
pub proof fn lemma_bytes_round_trip(b: Seq<u8>)
    requires
        b.len() == OID_LEN,
    ensures
        hex_to_bytes(bytes_to_hex_lower(b)) == b,
{
    let s = bytes_to_hex_lower(b);
    assert forall|i: int| 0 <= i < 20 implies hex_to_bytes(s)[i] == b[i] by {
        let v = b[i] as int;
        lemma_fundamental_div_mod_converse(v, 16, v / 16, v % 16);
        assert(s[2 * i] == hex_char_lower(v / 16));
        assert(s[2 * i + 1] == hex_char_lower(v % 16));
        assert(hex_digit_value(hex_char_lower(v / 16)) == v / 16);
        assert(hex_digit_value(hex_char_lower(v % 16)) == v % 16);
    };
    assert(hex_to_bytes(s) =~= b);
}

} // verus!
