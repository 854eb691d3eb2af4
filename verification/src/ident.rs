//! Account addresses and object identifiers: fixed-width byte strings with a
//! canonical lowercase-hex text form (`0x` followed by two digits per byte).

use vstd::prelude::*;

verus! {

/// Length in bytes of an account address or object identifier.
pub const ID_LEN: usize = 20;

/// The hex character for a nibble value below 16.
pub open spec fn hex_char_of(d: u8) -> char {
    if d < 10 {
        (d + 48) as char
    } else {
        (d + 87) as char
    }
}

/// Whether `c` is a lowercase hex digit.
pub open spec fn is_hex_char(c: char) -> bool {
    (48 <= c as int <= 57) || (97 <= c as int <= 102)
}

/// The nibble value of a lowercase hex digit.
pub open spec fn hex_val(c: char) -> u8 {
    if 48 <= c as int <= 57 {
        (c as int - 48) as u8
    } else {
        (c as int - 87) as u8
    }
}

/// The hex expansion of a byte string: two characters per byte, high nibble first.
pub open spec fn hex_of(bytes: Seq<u8>) -> Seq<char> {
    Seq::new(
        bytes.len() * 2,
        |i: int|
            if i % 2 == 0 {
                hex_char_of(bytes[i / 2] / 16)
            } else {
                hex_char_of(bytes[i / 2] % 16)
            },
    )
}

/// The canonical text form of an identifier's bytes.
pub open spec fn id_text_of(bytes: Seq<u8>) -> Seq<char> {
    seq!['0', 'x'] + hex_of(bytes)
}

/// Whether `s` is the canonical text form of some identifier.
pub open spec fn is_id_text(s: Seq<char>) -> bool {
    &&& s.len() == 2 + 2 * ID_LEN
    &&& s[0] == '0'
    &&& s[1] == 'x'
    &&& forall|i: int| 2 <= i < s.len() ==> is_hex_char(#[trigger] s[i])
}

/// The bytes that a canonical identifier text denotes.
pub open spec fn bytes_of_id_text(s: Seq<char>) -> Seq<u8> {
    Seq::new(
        (((s.len() - 2) / 2) as nat),
        |i: int| (hex_val(s[2 + 2 * i]) * 16 + hex_val(s[2 + 2 * i + 1])) as u8,
    )
}

/// Decoding inverts encoding: the canonical text of any identifier bytes is
/// well-formed and denotes those very bytes.
pub proof fn lemma_id_text_round_trip(bytes: Seq<u8>)
    requires
        bytes.len() == ID_LEN,
    ensures
        is_id_text(id_text_of(bytes)),
        bytes_of_id_text(id_text_of(bytes)) == bytes,
{
    let s = id_text_of(bytes);
    assert forall|i: int| 2 <= i < s.len() implies is_hex_char(#[trigger] s[i]) by {
        let b = bytes[(i - 2) / 2];
        assert(b / 16 < 16);
        assert(b % 16 < 16);
    }
    assert(is_id_text(s));
    assert forall|i: int| 0 <= i < ID_LEN implies bytes_of_id_text(s)[i] == bytes[i] by {
        let b = bytes[i];
        assert(s[2 + 2 * i] == hex_char_of(b / 16));
        assert(s[2 + 2 * i + 1] == hex_char_of(b % 16));
        assert(hex_val(hex_char_of(b / 16)) == b / 16);
        assert(hex_val(hex_char_of(b % 16)) == b % 16);
        assert((b / 16) * 16 + b % 16 == b) by {
            assert(b == 16 * (b / 16) + b % 16) by (nonlinear_arith);
        }
    }
    assert(bytes_of_id_text(s) =~= bytes);
}

/// An on-chain account address: a fixed-width byte string.
pub struct Address {
    pub bytes: Vec<u8>,
}

/// An on-chain object identifier: a fixed-width byte string.
pub struct ObjectId {
    pub bytes: Vec<u8>,
}

impl Address {
    /// A well-formed address holds exactly `ID_LEN` bytes.
    pub open spec fn wf(&self) -> bool {
        self.bytes@.len() == ID_LEN
    }

    pub fn new(bytes: Vec<u8>) -> (r: Address)
        requires
            bytes@.len() == ID_LEN,
        ensures
            r.wf(),
            r.bytes@ == bytes@,
    {
        Address { bytes }
    }

    pub fn clone_addr(&self) -> (r: Address)
        ensures
            r.bytes@ == self.bytes@,
    {
        Address { bytes: clone_bytes(&self.bytes) }
    }

    /// The canonical text form of this address.
    pub fn to_text(&self) -> (r: String)
        requires
            self.wf(),
        ensures
            r@ == id_text_of(self.bytes@),
    {
        encode_id_text(&self.bytes)
    }

    /// Parse a canonical address text; rejects anything else.
    pub fn from_text(s: &str) -> (r: Option<Address>)
        ensures
            match r {
                Some(a) => is_id_text(s@) && a.wf() && a.bytes@ == bytes_of_id_text(s@),
                None => !is_id_text(s@),
            },
    {
        match decode_id_text(s) {
            Some(bytes) => Some(Address { bytes }),
            None => None,
        }
    }
}

impl ObjectId {
    /// A well-formed object identifier holds exactly `ID_LEN` bytes.
    pub open spec fn wf(&self) -> bool {
        self.bytes@.len() == ID_LEN
    }

    pub fn new(bytes: Vec<u8>) -> (r: ObjectId)
        requires
            bytes@.len() == ID_LEN,
        ensures
            r.wf(),
            r.bytes@ == bytes@,
    {
        ObjectId { bytes }
    }

    pub fn clone_id(&self) -> (r: ObjectId)
        ensures
            r.bytes@ == self.bytes@,
    {
        ObjectId { bytes: clone_bytes(&self.bytes) }
    }

    /// The canonical text form of this object identifier.
    pub fn to_text(&self) -> (r: String)
        requires
            self.wf(),
        ensures
            r@ == id_text_of(self.bytes@),
    {
        encode_id_text(&self.bytes)
    }

    /// Parse a canonical object-identifier text; rejects anything else.
    pub fn from_text(s: &str) -> (r: Option<ObjectId>)
        ensures
            match r {
                Some(o) => is_id_text(s@) && o.wf() && o.bytes@ == bytes_of_id_text(s@),
                None => !is_id_text(s@),
            },
    {
        match decode_id_text(s) {
            Some(bytes) => Some(ObjectId { bytes }),
            None => None,
        }
    }
}

/// Copy a byte string.
pub fn clone_bytes(v: &Vec<u8>) -> (r: Vec<u8>)
    ensures
        r@ == v@,
{
    let mut out: Vec<u8> = Vec::new();
    let mut i: usize = 0;
    while i < v.len()
        invariant
            i <= v@.len(),
            out@ == v@.take(i as int),
        decreases v@.len() - i,
    {
        out.push(v[i]);
        i = i + 1;
        assert(out@ =~= v@.take(i as int));
    }
    assert(out@ =~= v@);
    out
}

/// The sequence of characters that a sequence of ASCII bytes denotes.
pub open spec fn chars_of_ascii(s: Seq<u8>) -> Seq<char> {
    Seq::new(s.len(), |i: int| s[i] as char)
}

/// Relies on `String::from_utf8`: bytes below 128 are valid UTF-8, and the
/// returned string holds exactly those bytes, one character per byte.
#[verifier::external_body]
pub(crate) fn ascii_to_string(bytes: Vec<u8>) -> (r: String)
    requires
        forall|i: int| 0 <= i < bytes@.len() ==> bytes@[i] < 128,
    ensures
        r@ == chars_of_ascii(bytes@),
{
    String::from_utf8(bytes).unwrap()
}

/// Build the canonical text of identifier bytes.
fn encode_id_text(bytes: &Vec<u8>) -> (r: String)
    requires
        bytes@.len() == ID_LEN,
    ensures
        r@ == id_text_of(bytes@),
{
    let mut out: Vec<u8> = Vec::new();
    out.push(48);
    out.push(120);
    let mut i: usize = 0;
    while i < bytes.len()
        invariant
            bytes@.len() == ID_LEN,
            i <= ID_LEN,
            out@.len() == 2 + 2 * i,
            forall|k: int| 0 <= k < out@.len() ==> out@[k] < 128,
            chars_of_ascii(out@) =~= id_text_of(bytes@).take(2 + 2 * i),
        decreases ID_LEN - i,
    {
        let b = bytes[i];
        let hi = b / 16;
        let lo = b % 16;
        let hi_c: u8 = if hi < 10 { hi + 48 } else { hi + 87 };
        let lo_c: u8 = if lo < 10 { lo + 48 } else { lo + 87 };
        out.push(hi_c);
        out.push(lo_c);
        i = i + 1;
        assert(chars_of_ascii(out@) =~= id_text_of(bytes@).take(2 + 2 * i as int));
    }
    proof {
        assert(chars_of_ascii(out@) =~= id_text_of(bytes@));
    }
    ascii_to_string(out)
}

/// Parse canonical identifier text into its bytes; rejects anything else.
fn decode_id_text(s: &str) -> (r: Option<Vec<u8>>)
    ensures
        match r {
            Some(bytes) => is_id_text(s@) && bytes@ == bytes_of_id_text(s@),
            None => !is_id_text(s@),
        },
{
    let n = s.unicode_len();
    if n != 2 + 2 * ID_LEN {
        return None;
    }
    if s.get_char(0) != '0' || s.get_char(1) != 'x' {
        return None;
    }
    let mut out: Vec<u8> = Vec::new();
    let mut i: usize = 0;
    while i < ID_LEN
        invariant
            s@.len() == 2 + 2 * ID_LEN,
            s@[0] == '0',
            s@[1] == 'x',
            i <= ID_LEN,
            out@.len() == i,
            forall|k: int| 2 <= k < 2 + 2 * i ==> is_hex_char(#[trigger] s@[k]),
            forall|k: int|
                0 <= k < i ==> out@[k] == (hex_val(s@[2 + 2 * k]) * 16 + hex_val(
                    s@[2 + 2 * k + 1],
                )) as u8,
        decreases ID_LEN - i,
    {
        let hi_c = s.get_char(2 + 2 * i);
        let lo_c = s.get_char(2 + 2 * i + 1);
        let hi = match hex_digit_value(hi_c) {
            Some(v) => v,
            None => {
                return None;
            },
        };
        let lo = match hex_digit_value(lo_c) {
            Some(v) => v,
            None => {
                return None;
            },
        };
        out.push(hi * 16 + lo);
        i = i + 1;
    }
    proof {
        assert(is_id_text(s@));
        assert(out@ =~= bytes_of_id_text(s@));
    }
    Some(out)
}

/// The value of a lowercase hex digit, or `None` for any other character.
fn hex_digit_value(c: char) -> (r: Option<u8>)
    ensures
        match r {
            Some(v) => is_hex_char(c) && v == hex_val(c) && v < 16,
            None => !is_hex_char(c),
        },
{
    let u = c as u32;
    if 48 <= u && u <= 57 {
        Some((u - 48) as u8)
    } else if 97 <= u && u <= 102 {
        Some((u - 87) as u8)
    } else {
        None
    }
}

} // verus!
