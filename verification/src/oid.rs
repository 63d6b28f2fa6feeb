//! The external string form of a store-assigned identifier: 24 hexadecimal
//! characters. The store renders a fresh identifier from a counter; rendering
//! is injective, which is what makes generated identifiers fresh.
use vstd::prelude::*;
use vstd::string::StrSliceExecFns;
use vstd::string::StringExecFns;

verus! {

/// A hexadecimal digit, in either case.
pub open spec fn is_hex_char(c: char) -> bool {
    ('0' as u32 <= c as u32 && c as u32 <= '9' as u32)
    || ('a' as u32 <= c as u32 && c as u32 <= 'f' as u32)
    || ('A' as u32 <= c as u32 && c as u32 <= 'F' as u32)
}

/// A well-formed identifier string: exactly 24 hexadecimal characters.
pub open spec fn is_oid_seq(s: Seq<char>) -> bool {
    s.len() == 24 && forall|i: int| 0 <= i < 24 ==> is_hex_char(#[trigger] s[i])
}

/// The lower-case hexadecimal character of a digit value below 16.
pub open spec fn hex_char(d: u64) -> char {
    if d == 0 { '0' }
    else if d == 1 { '1' }
    else if d == 2 { '2' }
    else if d == 3 { '3' }
    else if d == 4 { '4' }
    else if d == 5 { '5' }
    else if d == 6 { '6' }
    else if d == 7 { '7' }
    else if d == 8 { '8' }
    else if d == 9 { '9' }
    else if d == 10 { 'a' }
    else if d == 11 { 'b' }
    else if d == 12 { 'c' }
    else if d == 13 { 'd' }
    else if d == 14 { 'e' }
    else { 'f' }
}

/// The hexadecimal digit of `n` rendered at position `i` of an identifier:
/// positions 8 to 23 carry the sixteen nibbles of `n`, most significant first.
pub open spec fn nibble(n: u64, i: int) -> u64 {
    (n >> ((4 * (23 - i)) as u64)) & 0xf
}

/// The identifier string assigned for counter value `n`: eight leading zero
/// characters followed by the sixteen hexadecimal digits of `n`.
pub open spec fn oid_seq(n: u64) -> Seq<char> {
    Seq::new(24, |i: int| if i < 8 { '0' } else { hex_char(nibble(n, i)) })
}

proof fn lemma_hex_char_inj(x: u64, y: u64)
    requires
        x < 16,
        y < 16,
        hex_char(x) == hex_char(y),
    ensures
        x == y,
{
}

/// Two distinct counter values render to distinct identifier strings.
pub proof fn lemma_oid_seq_injective(a: u64, b: u64)
    requires
        oid_seq(a) == oid_seq(b),
    ensures
        a == b,
{
    assert forall|i: int| 8 <= i < 24 implies nibble(a, i) == nibble(b, i) by {
        assert(oid_seq(a)[i] == oid_seq(b)[i]);
        assert(oid_seq(a)[i] == hex_char(nibble(a, i)));
        assert(oid_seq(b)[i] == hex_char(nibble(b, i)));
        let sh = (4 * (23 - i)) as u64;
        assert((a >> sh) & 0xf < 16) by (bit_vector);
        assert((b >> sh) & 0xf < 16) by (bit_vector);
        lemma_hex_char_inj(nibble(a, i), nibble(b, i));
    }
    assert(nibble(a, 8) == nibble(b, 8));
    assert(nibble(a, 9) == nibble(b, 9));
    assert(nibble(a, 10) == nibble(b, 10));
    assert(nibble(a, 11) == nibble(b, 11));
    assert(nibble(a, 12) == nibble(b, 12));
    assert(nibble(a, 13) == nibble(b, 13));
    assert(nibble(a, 14) == nibble(b, 14));
    assert(nibble(a, 15) == nibble(b, 15));
    assert(nibble(a, 16) == nibble(b, 16));
    assert(nibble(a, 17) == nibble(b, 17));
    assert(nibble(a, 18) == nibble(b, 18));
    assert(nibble(a, 19) == nibble(b, 19));
    assert(nibble(a, 20) == nibble(b, 20));
    assert(nibble(a, 21) == nibble(b, 21));
    assert(nibble(a, 22) == nibble(b, 22));
    assert(nibble(a, 23) == nibble(b, 23));
    assert(a == b) by (bit_vector)
        requires
            (a >> 60u64) & 0xf == (b >> 60u64) & 0xf,
            (a >> 56u64) & 0xf == (b >> 56u64) & 0xf,
            (a >> 52u64) & 0xf == (b >> 52u64) & 0xf,
            (a >> 48u64) & 0xf == (b >> 48u64) & 0xf,
            (a >> 44u64) & 0xf == (b >> 44u64) & 0xf,
            (a >> 40u64) & 0xf == (b >> 40u64) & 0xf,
            (a >> 36u64) & 0xf == (b >> 36u64) & 0xf,
            (a >> 32u64) & 0xf == (b >> 32u64) & 0xf,
            (a >> 28u64) & 0xf == (b >> 28u64) & 0xf,
            (a >> 24u64) & 0xf == (b >> 24u64) & 0xf,
            (a >> 20u64) & 0xf == (b >> 20u64) & 0xf,
            (a >> 16u64) & 0xf == (b >> 16u64) & 0xf,
            (a >> 12u64) & 0xf == (b >> 12u64) & 0xf,
            (a >> 8u64) & 0xf == (b >> 8u64) & 0xf,
            (a >> 4u64) & 0xf == (b >> 4u64) & 0xf,
            (a >> 0u64) & 0xf == (b >> 0u64) & 0xf,
    ;
}

/// A generated identifier string is well formed.
pub proof fn lemma_oid_seq_valid(n: u64)
    ensures
        is_oid_seq(oid_seq(n)),
{
    assert forall|i: int| 0 <= i < 24 implies is_hex_char(#[trigger] oid_seq(n)[i]) by {
        if i >= 8 {
            let sh = (4 * (23 - i)) as u64;
            assert((n >> sh) & 0xf < 16) by (bit_vector);
        }
    }
}

fn hex_str(d: u64) -> (r: &'static str)
    requires
        d < 16,
    ensures
        r@.len() == 1,
        r@[0] == hex_char(d),
{
    match d {
        0 => { proof { reveal_strlit("0"); } "0" },
        1 => { proof { reveal_strlit("1"); } "1" },
        2 => { proof { reveal_strlit("2"); } "2" },
        3 => { proof { reveal_strlit("3"); } "3" },
        4 => { proof { reveal_strlit("4"); } "4" },
        5 => { proof { reveal_strlit("5"); } "5" },
        6 => { proof { reveal_strlit("6"); } "6" },
        7 => { proof { reveal_strlit("7"); } "7" },
        8 => { proof { reveal_strlit("8"); } "8" },
        9 => { proof { reveal_strlit("9"); } "9" },
        10 => { proof { reveal_strlit("a"); } "a" },
        11 => { proof { reveal_strlit("b"); } "b" },
        12 => { proof { reveal_strlit("c"); } "c" },
        13 => { proof { reveal_strlit("d"); } "d" },
        14 => { proof { reveal_strlit("e"); } "e" },
        _ => { proof { reveal_strlit("f"); } "f" },
    }
}

/// Renders the identifier string assigned for counter value `n`.
pub fn oid_string(n: u64) -> (r: String)
    ensures
        r@ == oid_seq(n),
{
    let mut s = String::new();
    s.append("00000000");
    proof {
        reveal_strlit("00000000");
        assert(s@ =~= oid_seq(n).take(8));
    }
    let mut k: usize = 0;
    while k < 16
        invariant
            0 <= k <= 16,
            s@ == oid_seq(n).take(8 + k),
        decreases 16 - k,
    {
        let sh: u64 = 60 - 4 * (k as u64);
        let d: u64 = (n >> sh) & 0xf;
        proof {
            assert((n >> sh) & 0xf < 16) by (bit_vector);
            assert(d == nibble(n, 8 + k as int));
        }
        s.append(hex_str(d));
        proof {
            assert(s@ =~= oid_seq(n).take(8 + (k + 1)));
        }
        k = k + 1;
    }
    proof {
        assert(s@ =~= oid_seq(n));
    }
    s
}

/// Decides whether `id` is a well-formed identifier string: 24 hexadecimal
/// characters, the form the document store accepts for parsing.
pub fn is_valid_object_id(id: &str) -> (r: bool)
    ensures
        r == is_oid_seq(id@),
{
    let n = id.unicode_len();
    if n != 24 {
        return false;
    }
    let mut i: usize = 0;
    while i < 24
        invariant
            0 <= i <= 24,
            id@.len() == 24,
            forall|j: int| 0 <= j < i ==> is_hex_char(#[trigger] id@[j]),
        decreases 24 - i,
    {
        let c = id.get_char(i);
        let v = c as u32;
        let digit = 48 <= v && v <= 57;
        let lower = 97 <= v && v <= 102;
        let upper = 65 <= v && v <= 70;
        if !(digit || lower || upper) {
            assert(!is_hex_char(id@[i as int]));
            return false;
        }
        assert(is_hex_char(id@[i as int]));
        i = i + 1;
    }
    true
}

} // verus!
