//! Value types shared by the V1 protocol: hex-encoded byte strings and
//! hex-encoded 32-bit big-endian integers, together with the verified
//! string helpers their codecs use.

use vstd::prelude::*;
use vstd::string::StrSliceExecFns;
use vstd::string::StringExecFns;

verus! {

/// Character-for-character string equality.
pub fn str_eq(a: &str, b: &str) -> (r: bool)
    ensures
        r == (a@ == b@),
{
    let alen = a.unicode_len();
    let blen = b.unicode_len();
    if alen != blen {
        return false;
    }
    let mut i: usize = 0;
    while i < alen
        invariant
            alen == a@.len(),
            blen == b@.len(),
            alen == blen,
            i <= alen,
            forall|j: int| 0 <= j < i ==> a@[j] == b@[j],
        decreases alen - i,
    {
        if a.get_char(i) != b.get_char(i) {
            return false;
        }
        i += 1;
    }
    proof {
        assert(a@ =~= b@);
    }
    true
}

/// The lowercase hex character for a digit value.
pub open spec fn hex_digit_char(d: int) -> char {
    if d == 0 {
        '0'
    } else if d == 1 {
        '1'
    } else if d == 2 {
        '2'
    } else if d == 3 {
        '3'
    } else if d == 4 {
        '4'
    } else if d == 5 {
        '5'
    } else if d == 6 {
        '6'
    } else if d == 7 {
        '7'
    } else if d == 8 {
        '8'
    } else if d == 9 {
        '9'
    } else if d == 10 {
        'a'
    } else if d == 11 {
        'b'
    } else if d == 12 {
        'c'
    } else if d == 13 {
        'd'
    } else if d == 14 {
        'e'
    } else {
        'f'
    }
}

/// The digit value of a lowercase hex character, or -1 for any other
/// character.
pub open spec fn hex_char_val(c: char) -> int {
    if c == '0' {
        0
    } else if c == '1' {
        1
    } else if c == '2' {
        2
    } else if c == '3' {
        3
    } else if c == '4' {
        4
    } else if c == '5' {
        5
    } else if c == '6' {
        6
    } else if c == '7' {
        7
    } else if c == '8' {
        8
    } else if c == '9' {
        9
    } else if c == 'a' {
        10
    } else if c == 'b' {
        11
    } else if c == 'c' {
        12
    } else if c == 'd' {
        13
    } else if c == 'e' {
        14
    } else if c == 'f' {
        15
    } else {
        -1
    }
}

/// A one-character string for a hex digit value.
fn digit_str(d: u8) -> (r: String)
    requires
        d < 16,
    ensures
        r@ =~= seq![hex_digit_char(d as int)],
{
    let r = match d {
        0 => String::from_str("0"),
        1 => String::from_str("1"),
        2 => String::from_str("2"),
        3 => String::from_str("3"),
        4 => String::from_str("4"),
        5 => String::from_str("5"),
        6 => String::from_str("6"),
        7 => String::from_str("7"),
        8 => String::from_str("8"),
        9 => String::from_str("9"),
        10 => String::from_str("a"),
        11 => String::from_str("b"),
        12 => String::from_str("c"),
        13 => String::from_str("d"),
        14 => String::from_str("e"),
        _ => String::from_str("f"),
    };
    proof {
        reveal_strlit("0");
        reveal_strlit("1");
        reveal_strlit("2");
        reveal_strlit("3");
        reveal_strlit("4");
        reveal_strlit("5");
        reveal_strlit("6");
        reveal_strlit("7");
        reveal_strlit("8");
        reveal_strlit("9");
        reveal_strlit("a");
        reveal_strlit("b");
        reveal_strlit("c");
        reveal_strlit("d");
        reveal_strlit("e");
        reveal_strlit("f");
    }
    r
}

/// The decimal rendering of a non-negative integer.
pub open spec fn spec_dec(n: int) -> Seq<char>
    decreases n,
{
    if n < 10 {
        seq![hex_digit_char(n)]
    } else {
        spec_dec(n / 10).push(hex_digit_char(n % 10))
    }
}

/// Render an integer in decimal.
pub fn u64_to_dec(n: u64) -> (r: String)
    ensures
        r@ == spec_dec(n as int),
    decreases n,
{
    if n < 10 {
        digit_str(n as u8)
    } else {
        let mut s = u64_to_dec(n / 10);
        let d = digit_str((n % 10) as u8);
        s.append(d.as_str());
        proof {
            assert(s@ =~= spec_dec(n as int));
        }
        s
    }
}

/// The lowercase hex rendering of a byte string, two characters a byte.
pub open spec fn spec_hex(bs: Seq<u8>) -> Seq<char>
    decreases bs.len(),
{
    if bs.len() == 0 {
        Seq::empty()
    } else {
        spec_hex(bs.drop_last()).push(hex_digit_char(bs.last() as int / 16)).push(
            hex_digit_char(bs.last() as int % 16),
        )
    }
}

/// A hex rendering is twice as long as the bytes it renders.
pub proof fn lemma_spec_hex_len(bs: Seq<u8>)
    ensures
        spec_hex(bs).len() == 2 * bs.len(),
    decreases bs.len(),
{
    if bs.len() > 0 {
        lemma_spec_hex_len(bs.drop_last());
    }
}

/// A hex digit character reads back as the digit it renders.
pub proof fn lemma_hex_digit_char_val(d: int)
    requires
        0 <= d < 16,
    ensures
        hex_char_val(hex_digit_char(d)) == d,
{
}

/// A string is well-formed hex when its length is even and every character
/// is a lowercase hex digit.
pub open spec fn spec_hex_ok(s: Seq<char>) -> bool {
    s.len() % 2 == 0 && forall|i: int| 0 <= i < s.len() ==> hex_char_val(s[i]) >= 0
}

/// A hex digit value renders back to the very character it was read from.
pub proof fn lemma_hex_char_val_inverse(c: char)
    requires
        hex_char_val(c) >= 0,
    ensures
        hex_digit_char(hex_char_val(c)) == c,
{
}

/// What the hex renderer produces is well-formed hex.
pub proof fn lemma_spec_hex_is_hex_ok(bs: Seq<u8>)
    ensures
        spec_hex_ok(spec_hex(bs)),
        spec_hex(bs).len() == 2 * bs.len(),
    decreases bs.len(),
{
    lemma_spec_hex_len(bs);
    if bs.len() > 0 {
        lemma_spec_hex_is_hex_ok(bs.drop_last());
        let pre = spec_hex(bs.drop_last());
        let b = bs.last() as int;
        lemma_hex_digit_char_val(b / 16);
        lemma_hex_digit_char_val(b % 16);
        assert forall|i: int| 0 <= i < spec_hex(bs).len() implies hex_char_val(
            spec_hex(bs)[i],
        ) >= 0 by {
            if i < pre.len() {
                assert(spec_hex(bs)[i] == pre[i]);
            }
        }
    }
}

/// The digit value of a lowercase hex character, if it is one.
fn hex_val(c: char) -> (r: Option<u8>)
    ensures
        hex_char_val(c) >= 0 ==> r == Some(hex_char_val(c) as u8),
        hex_char_val(c) < 0 ==> r is None,
{
    match c {
        '0' => Some(0),
        '1' => Some(1),
        '2' => Some(2),
        '3' => Some(3),
        '4' => Some(4),
        '5' => Some(5),
        '6' => Some(6),
        '7' => Some(7),
        '8' => Some(8),
        '9' => Some(9),
        'a' => Some(10),
        'b' => Some(11),
        'c' => Some(12),
        'd' => Some(13),
        'e' => Some(14),
        'f' => Some(15),
        _ => None,
    }
}

/// A byte string that travels on the wire as lowercase hex ASCII.
#[derive(Debug, PartialEq, Eq)]
pub struct HexBytes(pub Vec<u8>);

impl HexBytes {
    /// The number of raw bytes.
    pub fn len(&self) -> (r: usize)
        ensures
            r == self.0@.len(),
    {
        self.0.len()
    }

    /// A copy with the same bytes.
    pub fn duplicate(&self) -> (r: HexBytes)
        ensures
            r.0@ == self.0@,
    {
        let mut v: Vec<u8> = Vec::new();
        let mut i: usize = 0;
        while i < self.0.len()
            invariant
                i <= self.0@.len(),
                v@ == self.0@.take(i as int),
            decreases self.0@.len() - i,
        {
            v.push(self.0[i]);
            proof {
                assert(v@ =~= self.0@.take(i + 1 as int));
            }
            i += 1;
        }
        proof {
            assert(self.0@.take(self.0@.len() as int) =~= self.0@);
        }
        HexBytes(v)
    }

    /// Render the bytes as lowercase hex.
    pub fn to_hex(&self) -> (r: String)
        ensures
            r@ == spec_hex(self.0@),
    {
        let mut s = String::new();
        let mut i: usize = 0;
        while i < self.0.len()
            invariant
                i <= self.0@.len(),
                s@ == spec_hex(self.0@.take(i as int)),
            decreases self.0@.len() - i,
        {
            let b = self.0[i];
            let hi = digit_str(b / 16);
            let lo = digit_str(b % 16);
            s.append(hi.as_str());
            s.append(lo.as_str());
            proof {
                let pre = self.0@.take(i as int);
                let post = self.0@.take(i + 1 as int);
                assert(post.drop_last() =~= pre);
                assert(post.last() == self.0@[i as int]);
                assert(s@ =~= spec_hex(post));
            }
            i += 1;
        }
        proof {
            assert(self.0@.take(self.0@.len() as int) =~= self.0@);
        }
        s
    }

    /// Parse lowercase hex into bytes. Succeeds exactly on well-formed hex,
    /// and the bytes render back to the very string.
    pub fn from_hex(s: &str) -> (r: Result<HexBytes, ()>)
        ensures
            r is Ok <==> spec_hex_ok(s@),
            r matches Ok(b) ==> spec_hex(b.0@) == s@,
    {
        let n = s.unicode_len();
        if n % 2 != 0 {
            return Err(());
        }
        let mut v: Vec<u8> = Vec::new();
        let mut i: usize = 0;
        while i < n
            invariant
                n == s@.len(),
                n % 2 == 0,
                i % 2 == 0,
                i <= n,
                forall|j: int| 0 <= j < i ==> hex_char_val(s@[j]) >= 0,
                spec_hex(v@) == s@.take(i as int),
            decreases n - i,
        {
            let c1 = s.get_char(i);
            let c2 = s.get_char(i + 1);
            match (hex_val(c1), hex_val(c2)) {
                (Some(hi), Some(lo)) => {
                    let byte = hi * 16 + lo;
                    let ghost pre_v = v@;
                    v.push(byte);
                    proof {
                        assert(byte / 16 == hi && byte % 16 == lo) by (bit_vector)
                            requires
                                hi < 16,
                                lo < 16,
                                byte == hi * 16 + lo,
                        ;
                        lemma_hex_char_val_inverse(c1);
                        lemma_hex_char_val_inverse(c2);
                        assert(v@.drop_last() =~= pre_v);
                        assert(v@.last() == byte);
                        let post = s@.take(i + 2 as int);
                        assert(post.drop_last().drop_last() =~= s@.take(i as int));
                        assert(spec_hex(v@) =~= post);
                    }
                    i += 2;
                },
                _ => {
                    proof {
                        if spec_hex_ok(s@) {
                            assert(hex_char_val(s@[i as int]) >= 0);
                            assert(hex_char_val(s@[i + 1 as int]) >= 0);
                        }
                    }
                    return Err(());
                },
            }
        }
        proof {
            assert(s@.take(n as int) =~= s@);
        }
        Ok(HexBytes(v))
    }
}

/// Two byte strings with the same hex rendering are the same bytes.
pub proof fn lemma_spec_hex_injective(a: Seq<u8>, b: Seq<u8>)
    requires
        spec_hex(a) == spec_hex(b),
    ensures
        a == b,
    decreases a.len(),
{
    lemma_spec_hex_len(a);
    lemma_spec_hex_len(b);
    if a.len() == 0 {
        assert(a =~= b);
    } else {
        let ha = spec_hex(a.drop_last());
        let hb = spec_hex(b.drop_last());
        lemma_spec_hex_len(a.drop_last());
        lemma_spec_hex_len(b.drop_last());
        let n = spec_hex(a).len();
        assert(spec_hex(a)[n - 2] == hex_digit_char(a.last() as int / 16));
        assert(spec_hex(a)[n - 1] == hex_digit_char(a.last() as int % 16));
        assert(spec_hex(b)[n - 2] == hex_digit_char(b.last() as int / 16));
        assert(spec_hex(b)[n - 1] == hex_digit_char(b.last() as int % 16));
        lemma_hex_digit_char_val(a.last() as int / 16);
        lemma_hex_digit_char_val(a.last() as int % 16);
        lemma_hex_digit_char_val(b.last() as int / 16);
        lemma_hex_digit_char_val(b.last() as int % 16);
        assert(a.last() as int / 16 == b.last() as int / 16);
        assert(a.last() as int % 16 == b.last() as int % 16);
        assert(a.last() == b.last());
        assert(ha =~= hb) by {
            assert forall|i: int| 0 <= i < ha.len() implies ha[i] == hb[i] by {
                assert(ha[i] == spec_hex(a)[i]);
                assert(hb[i] == spec_hex(b)[i]);
            }
        }
        lemma_spec_hex_injective(a.drop_last(), b.drop_last());
        assert(a =~= a.drop_last().push(a.last()));
        assert(b =~= b.drop_last().push(b.last()));
    }
}

/// Two words with the same hex rendering are the same word.
pub proof fn lemma_spec_u32_hex_injective(x: u32, y: u32)
    requires
        spec_u32_hex(x) == spec_u32_hex(y),
    ensures
        x == y,
{
    lemma_spec_hex_injective(spec_be_bytes(x), spec_be_bytes(y));
    assert(x == (x / 0x1000000) * 0x1000000 + ((x / 0x10000) % 0x100) * 0x10000 + ((x / 0x100)
        % 0x100) * 0x100 + (x % 0x100)) by (bit_vector);
    assert(y == (y / 0x1000000) * 0x1000000 + ((y / 0x10000) % 0x100) * 0x10000 + ((y / 0x100)
        % 0x100) * 0x100 + (y % 0x100)) by (bit_vector);
    assert(spec_be_bytes(x)[0] == spec_be_bytes(y)[0]);
    assert(spec_be_bytes(x)[1] == spec_be_bytes(y)[1]);
    assert(spec_be_bytes(x)[2] == spec_be_bytes(y)[2]);
    assert(spec_be_bytes(x)[3] == spec_be_bytes(y)[3]);
    assert((x / 0x1000000) as u8 == (y / 0x1000000) as u8 && ((x / 0x10000) % 0x100) as u8 == ((y
        / 0x10000) % 0x100) as u8 && ((x / 0x100) % 0x100) as u8 == ((y / 0x100) % 0x100) as u8 && (
    x % 0x100) as u8 == (y % 0x100) as u8 ==> x == y) by (bit_vector);
}

/// The big-endian bytes of a 32-bit value.
pub open spec fn spec_be_bytes(x: u32) -> Seq<u8> {
    seq![
        (x / 0x1000000) as u8,
        ((x / 0x10000) % 0x100) as u8,
        ((x / 0x100) % 0x100) as u8,
        (x % 0x100) as u8,
    ]
}

/// The eight-character lowercase hex rendering of a 32-bit value, most
/// significant byte first.
pub open spec fn spec_u32_hex(x: u32) -> Seq<char> {
    spec_hex(spec_be_bytes(x))
}

/// Bits are acceptable under a mask when no bit outside the mask is set.
pub open spec fn spec_mask_ok(mask: u32, bits: u32) -> bool {
    bits & !mask == 0
}

/// A 32-bit value that travels on the wire as eight lowercase hex ASCII
/// characters, most significant byte first.
#[derive(Clone, Copy, Debug, PartialEq, Eq, Structural)]
pub struct HexU32Be(pub u32);

impl HexU32Be {
    /// Render the value as eight hex characters.
    pub fn to_hex(&self) -> (r: String)
        ensures
            r@ == spec_u32_hex(self.0),
    {
        let x = self.0;
        let b0 = (x / 0x1000000) as u8;
        let b1 = ((x / 0x10000) % 0x100) as u8;
        let b2 = ((x / 0x100) % 0x100) as u8;
        let b3 = (x % 0x100) as u8;
        let hb = HexBytes(vec![b0, b1, b2, b3]);
        proof {
            assert(hb.0@ =~= spec_be_bytes(x));
        }
        hb.to_hex()
    }

    /// Parse exactly eight hex characters, most significant byte first.
    pub fn from_hex(s: &str) -> (r: Result<HexU32Be, ()>)
        ensures
            r is Ok <==> (spec_hex_ok(s@) && s@.len() == 8),
            r matches Ok(h) ==> spec_u32_hex(h.0) == s@,
    {
        match HexBytes::from_hex(s) {
            Ok(b) => {
                proof {
                    lemma_spec_hex_len(b.0@);
                }
                if b.0.len() == 4 {
                    let b0 = b.0[0] as u32;
                    let b1 = b.0[1] as u32;
                    let b2 = b.0[2] as u32;
                    let b3 = b.0[3] as u32;
                    let x = b0 * 0x1000000 + b1 * 0x10000 + b2 * 0x100 + b3;
                    proof {
                        assert(x / 0x1000000 == b0 && (x / 0x10000) % 0x100 == b1 && (x / 0x100)
                            % 0x100 == b2 && x % 0x100 == b3) by (bit_vector)
                            requires
                                b0 < 0x100,
                                b1 < 0x100,
                                b2 < 0x100,
                                b3 < 0x100,
                                x == b0 * 0x1000000 + b1 * 0x10000 + b2 * 0x100 + b3,
                        ;
                        assert(spec_be_bytes(x) =~= b.0@);
                    }
                    Ok(HexU32Be(x))
                } else {
                    Err(())
                }
            },
            Err(_) => Err(()),
        }
    }

    /// BIP 310 check: the submitted bits flip nothing outside this mask.
    pub fn check_mask(&self, bits: &HexU32Be) -> (r: bool)
        ensures
            r == spec_mask_ok(self.0, bits.0),
    {
        bits.0 & !self.0 == 0
    }
}

} // verus!
