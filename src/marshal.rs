use vstd::prelude::*;
use vstd::string::StringSliceAdditionalSpecFns;
use vstd::utf8::{decode_utf8, encode_utf8, encode_utf8_decode_utf8, encode_utf8_valid_utf8, valid_utf8};

verus! {

/// Capacity of the short name buffers the native library fills
/// (iteration names): 32 bytes of text and the terminating null.
pub const SHORT_NAME_CAPACITY: usize = 33;

/// Capacity of the name buffers of zones, coordinates and sections.
pub const NAME_CAPACITY: usize = 64;

/// `i` is the position of the first null byte of `buf`.
pub open spec fn is_first_nul(buf: Seq<u8>, i: int) -> bool {
    &&& 0 <= i < buf.len()
    &&& buf[i] == 0
    &&& forall|j: int| 0 <= j < i ==> buf[j] != 0
}

/// The text a native output buffer holds: the bytes before its first null,
/// read as UTF-8. None where the buffer has no null byte or those bytes are
/// not UTF-8.
pub open spec fn decoded_name(buf: Seq<u8>) -> Option<Seq<char>> {
    if exists|i: int| is_first_nul(buf, i) {
        let i = choose|i: int| is_first_nul(buf, i);
        if valid_utf8(buf.subrange(0, i)) {
            Some(decode_utf8(buf.subrange(0, i)))
        } else {
            None
        }
    } else {
        None
    }
}

/// The null-terminated form of the bytes of a host string.
pub open spec fn c_string_bytes(bytes: Seq<u8>) -> Seq<u8> {
    bytes.push(0u8)
}

/// The bytes of a name in a buffer of `capacity` bytes: the name, then
/// nulls up to the end.
pub open spec fn fixed_buffer_bytes(bytes: Seq<u8>, capacity: nat) -> Seq<u8> {
    bytes + Seq::new((capacity - bytes.len()) as nat, |k: int| 0u8)
}

proof fn lemma_first_nul_unique(buf: Seq<u8>, i: int, k: int)
    requires
        is_first_nul(buf, i),
        is_first_nul(buf, k),
    ensures
        i == k,
{
    if i < k {
        assert(buf[i] != 0);
    } else if k < i {
        assert(buf[k] != 0);
    }
}

/// Relies on `String::from_utf8`: it accepts exactly the valid UTF-8 byte
/// sequences and returns the text they encode.
#[verifier::external_body]
pub(crate) fn string_from_utf8(bytes: Vec<u8>) -> (r: Option<String>)
    ensures
        r is Some <==> valid_utf8(bytes@),
        r matches Some(s) ==> s@ == decode_utf8(bytes@),
{
    String::from_utf8(bytes).ok()
}

/// Reads a fixed-size native output buffer back into a host string,
/// trimming at the first null byte. None where the buffer holds no null
/// byte (its end is then unknown) or the text before it is not UTF-8.
pub fn raw_to_string(buf: &[u8]) -> (r: Option<String>)
    ensures
        r matches Some(s) ==> decoded_name(buf@) == Some(s@),
        r is None ==> decoded_name(buf@) is None,
{
    let mut i: usize = 0;
    let mut prefix: Vec<u8> = Vec::new();
    while i < buf.len() && buf[i] != 0
        invariant
            i <= buf@.len(),
            prefix@ == buf@.subrange(0, i as int),
            forall|j: int| 0 <= j < i ==> buf@[j] != 0,
        decreases buf@.len() - i,
    {
        prefix.push(buf[i]);
        i = i + 1;
        assert(prefix@ =~= buf@.subrange(0, i as int));
    }
    if i == buf.len() {
        assert(forall|k: int| !is_first_nul(buf@, k));
        return None;
    }
    assert(is_first_nul(buf@, i as int));
    proof {
        let c = choose|k: int| is_first_nul(buf@, k);
        lemma_first_nul_unique(buf@, i as int, c);
    }
    string_from_utf8(prefix)
}

/// Copies a host string into a null-terminated byte buffer for a native
/// call. None where the string itself holds a null byte, which the native
/// side would read as an earlier end.
pub fn to_c_string(s: &str) -> (r: Option<Vec<u8>>)
    ensures
        r is None <==> s.spec_bytes().contains(0u8),
        r matches Some(v) ==> v@ == c_string_bytes(s.spec_bytes()),
{
    let bytes = s.as_bytes();
    let mut out: Vec<u8> = Vec::new();
    let mut i: usize = 0;
    while i < bytes.len()
        invariant
            bytes@ == s.spec_bytes(),
            i <= bytes@.len(),
            out@ == bytes@.subrange(0, i as int),
            !bytes@.subrange(0, i as int).contains(0u8),
        decreases bytes@.len() - i,
    {
        if bytes[i] == 0 {
            assert(bytes@[i as int] == 0u8);
            return None;
        }
        out.push(bytes[i]);
        i = i + 1;
        assert(out@ =~= bytes@.subrange(0, i as int));
        assert(bytes@.subrange(0, i as int) =~= bytes@.subrange(0, i - 1 as int).push(bytes@[i - 1]));
    }
    assert(bytes@.subrange(0, i as int) =~= bytes@);
    out.push(0u8);
    Some(out)
}

/// Copies a host string into a null-padded buffer of exactly `capacity`
/// bytes. None where the string holds a null byte or leaves no room for the
/// terminating null.
pub fn to_fixed_buffer(s: &str, capacity: usize) -> (r: Option<Vec<u8>>)
    ensures
        r is None <==> (s.spec_bytes().contains(0u8) || s.spec_bytes().len() >= capacity),
        r matches Some(v) ==> v@ == fixed_buffer_bytes(s.spec_bytes(), capacity as nat),
{
    if s.len() >= capacity {
        return None;
    }
    match to_c_string(s) {
        None => None,
        Some(mut v) => {
            let ghost bytes = s.spec_bytes();
            let ghost n = bytes.len() as int;
            assert(v@ == bytes.push(0u8));
            assert(v@[n] == 0u8);
            let filled = v.len();
            assert(filled == n + 1);
            while v.len() < capacity
                invariant
                    n < v@.len() <= capacity,
                    n == bytes.len(),
                    v@.subrange(0, n) == bytes,
                    forall|j: int| n <= j < v@.len() ==> v@[j] == 0u8,
                decreases capacity - v@.len(),
            {
                let ghost prev = v@;
                v.push(0u8);
                assert(v@.subrange(0, n) =~= prev.subrange(0, n));
            }
            assert(v@ =~= fixed_buffer_bytes(bytes, capacity as nat));
            Some(v)
        },
    }
}

/// A name without null bytes that leaves room for the terminating null in a
/// buffer of `capacity` bytes comes back unchanged when that buffer is read.
pub proof fn lemma_fixed_buffer_round_trip(name: Seq<char>, capacity: nat)
    requires
        !encode_utf8(name).contains(0u8),
        encode_utf8(name).len() < capacity,
    ensures
        decoded_name(fixed_buffer_bytes(encode_utf8(name), capacity)) == Some(name),
{
    let bytes = encode_utf8(name);
    let buf = fixed_buffer_bytes(bytes, capacity);
    let n = bytes.len() as int;
    assert forall|j: int| 0 <= j < n implies buf[j] != 0 by {
        assert(buf[j] == bytes[j]);
        assert(bytes.contains(bytes[j]));
    }
    assert(is_first_nul(buf, n));
    let c = choose|k: int| is_first_nul(buf, k);
    lemma_first_nul_unique(buf, n, c);
    assert(buf.subrange(0, n) =~= bytes);
    encode_utf8_valid_utf8(name);
    encode_utf8_decode_utf8(name);
}

/// A name without null bytes, handed over null-terminated, is read back
/// unchanged.
pub proof fn lemma_c_string_round_trip(name: Seq<char>)
    requires
        !encode_utf8(name).contains(0u8),
    ensures
        decoded_name(c_string_bytes(encode_utf8(name))) == Some(name),
{
    let bytes = encode_utf8(name);
    assert(fixed_buffer_bytes(bytes, bytes.len() + 1) =~= c_string_bytes(bytes));
    lemma_fixed_buffer_round_trip(name, bytes.len() + 1);
}

} // verus!
