use vstd::prelude::*;

verus! {

/// A git object hash: twenty raw bytes, spelled as forty hexadecimal digits.
/// The all-zero value is the well-known sentinel for "no object", used by
/// push-update records to signal the creation or deletion of a reference.
#[derive(Debug)]
pub struct ObjectId {
    bytes: Vec<u8>,
}

pub open spec fn is_hex_digit(c: char) -> bool {
    ('0' as int <= c as int && c as int <= '9' as int)
    || ('a' as int <= c as int && c as int <= 'f' as int)
    || ('A' as int <= c as int && c as int <= 'F' as int)
}

pub open spec fn hex_digit_value(c: char) -> int {
    if '0' as int <= c as int && c as int <= '9' as int {
        c as int - '0' as int
    } else if 'a' as int <= c as int && c as int <= 'f' as int {
        10 + c as int - 'a' as int
    } else {
        10 + c as int - 'A' as int
    }
}

/// Exactly forty hex digits: the only spelling of an object hash accepted here.
pub open spec fn is_hex_oid(s: Seq<char>) -> bool {
    s.len() == 40 && forall|i: int| 0 <= i < s.len() ==> is_hex_digit(#[trigger] s[i])
}

pub open spec fn byte_of_hex_pair(hi: char, lo: char) -> u8 {
    (hex_digit_value(hi) * 16 + hex_digit_value(lo)) as u8
}

/// The twenty bytes spelled by a forty-digit hex string.
pub open spec fn bytes_of_hex(s: Seq<char>) -> Seq<u8> {
    Seq::new(20, |i: int| byte_of_hex_pair(s[2 * i], s[2 * i + 1]))
}

pub open spec fn hex_char_of_nibble(n: int) -> char {
    if n == 0 { '0' } else if n == 1 { '1' } else if n == 2 { '2' } else if n == 3 { '3' }
    else if n == 4 { '4' } else if n == 5 { '5' } else if n == 6 { '6' } else if n == 7 { '7' }
    else if n == 8 { '8' } else if n == 9 { '9' } else if n == 10 { 'a' } else if n == 11 { 'b' }
    else if n == 12 { 'c' } else if n == 13 { 'd' } else if n == 14 { 'e' } else { 'f' }
}

/// The lowercase hex spelling of a byte sequence, two digits per byte.
pub open spec fn hex_of_bytes(b: Seq<u8>) -> Seq<char> {
    Seq::new(
        b.len() * 2,
        |i: int| if i % 2 == 0 {
            hex_char_of_nibble(b[i / 2] as int / 16)
        } else {
            hex_char_of_nibble(b[i / 2] as int % 16)
        },
    )
}

impl View for ObjectId {
    type V = Seq<u8>;

    closed spec fn view(&self) -> Seq<u8> {
        self.bytes@
    }
}

fn hex_digit_val(c: char) -> (r: Option<u8>)
    ensures
        r is Some <==> is_hex_digit(c),
        r matches Some(v) ==> v as int == hex_digit_value(c) && v < 16,
{
    let u = c as u32;
    if u >= 48 && u <= 57 {
        Some((u - 48) as u8)
    } else if u >= 97 && u <= 102 {
        Some((u - 97 + 10) as u8)
    } else if u >= 65 && u <= 70 {
        Some((u - 65 + 10) as u8)
    } else {
        None
    }
}

fn append_nibble(s: &mut String, n: u8)
    requires
        n < 16,
    ensures
        final(s)@ == old(s)@ + seq![hex_char_of_nibble(n as int)],
{
    proof {
        reveal_strlit("0"); reveal_strlit("1"); reveal_strlit("2"); reveal_strlit("3");
        reveal_strlit("4"); reveal_strlit("5"); reveal_strlit("6"); reveal_strlit("7");
        reveal_strlit("8"); reveal_strlit("9"); reveal_strlit("a"); reveal_strlit("b");
        reveal_strlit("c"); reveal_strlit("d"); reveal_strlit("e"); reveal_strlit("f");
    }
    if n == 0 { s.append("0"); } else if n == 1 { s.append("1"); }
    else if n == 2 { s.append("2"); } else if n == 3 { s.append("3"); }
    else if n == 4 { s.append("4"); } else if n == 5 { s.append("5"); }
    else if n == 6 { s.append("6"); } else if n == 7 { s.append("7"); }
    else if n == 8 { s.append("8"); } else if n == 9 { s.append("9"); }
    else if n == 10 { s.append("a"); } else if n == 11 { s.append("b"); }
    else if n == 12 { s.append("c"); } else if n == 13 { s.append("d"); }
    else if n == 14 { s.append("e"); } else { s.append("f"); }
    proof {
        assert(s@ =~= old(s)@ + seq![hex_char_of_nibble(n as int)]);
    }
}

impl ObjectId {
    pub open spec fn well_formed(&self) -> bool {
        self@.len() == 20
    }

    /// Whether this is the all-zero "no object" sentinel.
    pub open spec fn is_zero_spec(&self) -> bool {
        forall|i: int| 0 <= i < self@.len() ==> self@[i] == 0
    }

    pub fn is_zero(&self) -> (r: bool)
        ensures
            r == self.is_zero_spec(),
    {
        let mut i: usize = 0;
        while i < self.bytes.len()
            invariant
                i <= self.bytes@.len(),
                forall|j: int| 0 <= j < i ==> self.bytes@[j] == 0,
            decreases self.bytes@.len() - i,
        {
            if self.bytes[i] != 0 {
                proof {
                    assert(self@[i as int] != 0);
                }
                return false;
            }
            i += 1;
        }
        true
    }

    /// Parses exactly forty hex digits into an object hash; any other
    /// length or any non-hex character is rejected.
    pub fn from_hex_chars(t: &Vec<char>) -> (r: Option<ObjectId>)
        ensures
            r is Some <==> is_hex_oid(t@),
            r matches Some(o) ==> o@ == bytes_of_hex(t@) && o.well_formed(),
    {
        if t.len() != 40 {
            return None;
        }
        let mut bytes: Vec<u8> = Vec::new();
        let mut i: usize = 0;
        while i < 20
            invariant
                t@.len() == 40,
                i <= 20,
                bytes@.len() == i,
                forall|j: int| 0 <= j < 2 * i ==> is_hex_digit(#[trigger] t@[j]),
                forall|j: int| 0 <= j < i ==> bytes@[j] == byte_of_hex_pair(t@[2 * j], t@[2 * j + 1]),
            decreases 20 - i,
        {
            let hi = match hex_digit_val(t[2 * i]) {
                Some(v) => v,
                None => {
                    return None;
                },
            };
            let lo = match hex_digit_val(t[2 * i + 1]) {
                Some(v) => v,
                None => {
                    return None;
                },
            };
            bytes.push(hi * 16 + lo);
            i += 1;
        }
        let o = ObjectId { bytes };
        proof {
            assert(o@ =~= bytes_of_hex(t@));
        }
        Some(o)
    }

    /// The forty-digit lowercase hex spelling.
    pub fn to_hex(&self) -> (r: String)
        requires
            self.well_formed(),
        ensures
            r@ == hex_of_bytes(self@),
    {
        let mut s = String::new();
        let mut i: usize = 0;
        while i < self.bytes.len()
            invariant
                self.well_formed(),
                i <= 20,
                self.bytes@.len() == 20,
                s@ == hex_of_bytes(self@.take(i as int)),
            decreases self.bytes@.len() - i,
        {
            let b = self.bytes[i];
            append_nibble(&mut s, b / 16);
            append_nibble(&mut s, b % 16);
            i += 1;
            proof {
                assert(s@ =~= hex_of_bytes(self@.take(i as int)));
            }
        }
        proof {
            assert(self@.take(20) =~= self@);
        }
        s
    }

    /// Wraps twenty raw bytes as an object hash.
    pub fn from_raw_bytes(bytes: Vec<u8>) -> (r: ObjectId)
        requires
            bytes@.len() == 20,
        ensures
            r@ == bytes@,
            r.well_formed(),
    {
        ObjectId { bytes }
    }

    /// A copy of this hash with the same bytes.
    pub fn duplicate(&self) -> (r: ObjectId)
        ensures
            r@ == self@,
    {
        let mut bytes: Vec<u8> = Vec::new();
        let mut i: usize = 0;
        while i < self.bytes.len()
            invariant
                i <= self.bytes@.len(),
                bytes@ == self.bytes@.take(i as int),
            decreases self.bytes@.len() - i,
        {
            bytes.push(self.bytes[i]);
            i += 1;
            proof {
                assert(bytes@ =~= self.bytes@.take(i as int));
            }
        }
        proof {
            assert(self.bytes@.take(self.bytes@.len() as int) =~= self.bytes@);
        }
        ObjectId { bytes }
    }
}

} // verus!
