use vstd::prelude::*;
use vstd::string::StringExecFns;
use vstd::utf8::encode_utf8;

use crate::model::source_id::{SourceId, SourceIdView};

verus! {

/// Where the hash starts.
pub const FNV_OFFSET: u64 = 0xcbf29ce484222325;

/// What the hash is multiplied by after each byte.
pub const FNV_PRIME: u64 = 0x100000001b3;

/// The 64-bit FNV-1a hash of `bytes`.
pub open spec fn fnv1a(bytes: Seq<u8>) -> u64
    decreases bytes.len(),
{
    if bytes.len() == 0 {
        FNV_OFFSET
    } else {
        (fnv1a(bytes.drop_last()) ^ (bytes.last() as u64)).wrapping_mul(FNV_PRIME)
    }
}

/// The hexadecimal digit that stands for a number below sixteen.
pub open spec fn hex_digit(nibble: u64) -> char {
    if nibble == 0 {
        '0'
    } else if nibble == 1 {
        '1'
    } else if nibble == 2 {
        '2'
    } else if nibble == 3 {
        '3'
    } else if nibble == 4 {
        '4'
    } else if nibble == 5 {
        '5'
    } else if nibble == 6 {
        '6'
    } else if nibble == 7 {
        '7'
    } else if nibble == 8 {
        '8'
    } else if nibble == 9 {
        '9'
    } else if nibble == 10 {
        'a'
    } else if nibble == 11 {
        'b'
    } else if nibble == 12 {
        'c'
    } else if nibble == 13 {
        'd'
    } else if nibble == 14 {
        'e'
    } else {
        'f'
    }
}

/// The digit of `hash` at place `i` of sixteen, the highest first.
pub open spec fn hex_digit_at(hash: u64, i: int) -> char {
    hex_digit((hash >> ((60 - 4 * i) as u64)) & 0xf)
}

/// `hash` in sixteen hexadecimal digits.
pub open spec fn hex_text(hash: u64) -> Seq<char> {
    Seq::new(16, |i: int| hex_digit_at(hash, i))
}

/// The name under which a source keeps its packages apart from those of
/// other sources: the hash of the text of the source id, in hexadecimal.
pub open spec fn fingerprint_of(source: SourceIdView) -> Seq<char> {
    hex_text(fnv1a(encode_utf8(source.text())))
}

/// The 64-bit FNV-1a hash of `bytes`.
pub fn hash_bytes(bytes: &[u8]) -> (hash: u64)
    ensures
        hash == fnv1a(bytes@),
{
    let mut hash: u64 = FNV_OFFSET;
    let mut i: usize = 0;
    while i < bytes.len()
        invariant
            i <= bytes.len(),
            hash == fnv1a(bytes@.take(i as int)),
        decreases bytes.len() - i,
    {
        assert(bytes@.take(i + 1).drop_last() =~= bytes@.take(i as int));
        hash = (hash ^ (bytes[i] as u64)).wrapping_mul(FNV_PRIME);
        i += 1;
    }
    assert(bytes@.take(bytes.len() as int) =~= bytes@);
    hash
}

/// The hexadecimal digit that stands for `nibble`, as a text of one character.
fn hex_digit_text(nibble: u64) -> (text: &'static str)
    requires
        nibble < 16,
    ensures
        text@ == seq![hex_digit(nibble)],
{
    proof {
        reveal_strlit("0");
        reveal_strlit("1");
        reveal_strlit("2");
        reveal_strlit("3");
        reveal_strlit("4");
        reveal_strlit("5");
        reveal_strlit("6");
        reveal_strlit("7");
        reveal_strlit("8");
        reveal_strlit("9");
        reveal_strlit("a");
        reveal_strlit("b");
        reveal_strlit("c");
        reveal_strlit("d");
        reveal_strlit("e");
        reveal_strlit("f");
    }
    let text = if nibble == 0 {
        "0"
    } else if nibble == 1 {
        "1"
    } else if nibble == 2 {
        "2"
    } else if nibble == 3 {
        "3"
    } else if nibble == 4 {
        "4"
    } else if nibble == 5 {
        "5"
    } else if nibble == 6 {
        "6"
    } else if nibble == 7 {
        "7"
    } else if nibble == 8 {
        "8"
    } else if nibble == 9 {
        "9"
    } else if nibble == 10 {
        "a"
    } else if nibble == 11 {
        "b"
    } else if nibble == 12 {
        "c"
    } else if nibble == 13 {
        "d"
    } else if nibble == 14 {
        "e"
    } else {
        "f"
    };
    assert(text@ =~= seq![hex_digit(nibble)]);
    text
}

/// `hash` in sixteen hexadecimal digits.
pub fn hex(hash: u64) -> (text: String)
    ensures
        text@ == hex_text(hash),
{
    let mut text = String::new();
    let mut i: u64 = 0;
    while i < 16
        invariant
            i <= 16,
            text@ == Seq::new(i as nat, |k: int| hex_digit_at(hash, k)),
        decreases 16 - i,
    {
        let shift: u64 = 60 - 4 * i;
        let nibble: u64 = (hash >> shift) & 0xf;
        assert(nibble < 16) by (bit_vector)
            requires
                nibble == (hash >> shift) & 0xf,
        ;
        text.append(hex_digit_text(nibble));
        assert(text@ =~= Seq::new((i + 1) as nat, |k: int| hex_digit_at(hash, k)));
        i += 1;
    }
    text
}

/// The name under which `source_id` keeps its packages apart from those of
/// other sources.
pub fn fingerprint(source_id: &SourceId) -> (name: String)
    ensures
        name@ == fingerprint_of(source_id@),
{
    let text = source_id.to_string();
    hex(hash_bytes(text.as_str().as_bytes()))
}

} // verus!
