use vstd::prelude::*;
use vstd::string::StringExecFns;
use vstd::utf8::{encode_utf8, is_char_boundary};

verus! {

/// The largest index up to `limit` at which a character of the UTF-8 text
/// `bytes` begins or the text ends; 0 if `limit` is not positive.
pub open spec fn floor_boundary(bytes: Seq<u8>, limit: int) -> int
    decreases limit,
{
    if limit <= 0 {
        0
    } else if is_char_boundary(bytes, limit) {
        limit
    } else {
        floor_boundary(bytes, limit - 1)
    }
}

/// The UTF-8 text `bytes` cut down to `limit` bytes at most, without cutting
/// a character in two: all of it if it is no longer than `limit`, and else its
/// longest prefix that is no longer than `limit` and ends where a character
/// ends.
pub open spec fn truncated(bytes: Seq<u8>, limit: int) -> Seq<u8> {
    if bytes.len() <= limit {
        bytes
    } else {
        bytes.subrange(0, floor_boundary(bytes, limit))
    }
}

/// `a` followed by `b`.
pub fn join(a: &str, b: &str) -> (r: String)
    ensures
        r@ == a@ + b@,
{
    String::from_str(a).concat(b)
}

/// `a`, `b` and `c` in a row.
pub fn join3(a: &str, b: &str, c: &str) -> (r: String)
    ensures
        r@ == a@ + b@ + c@,
{
    String::from_str(a).concat(b).concat(c)
}

/// `a`, `b`, `c` and `d` in a row.
pub fn join4(a: &str, b: &str, c: &str, d: &str) -> (r: String)
    ensures
        r@ == a@ + b@ + c@ + d@,
{
    String::from_str(a).concat(b).concat(c).concat(d)
}

/// Whether two texts are the same.
pub fn same_text(a: &str, b: &str) -> (r: bool)
    ensures
        r == (a@ == b@),
{
    String::from_str(a) == String::from_str(b)
}

/// `text` cut down to `limit` bytes at most, without cutting a character in
/// two.
pub fn truncate_text(text: &str, limit: usize) -> (r: String)
    ensures
        encode_utf8(r@) == truncated(encode_utf8(text@), limit as int),
        encode_utf8(r@).len() <= limit || r@ == text@,
        r@.is_prefix_of(text@),
        encode_utf8(text@).len() <= limit ==> r@ == text@,
{
    let n = text.as_bytes().len();
    if n <= limit {
        return text.to_owned();
    }
    let ghost bytes = encode_utf8(text@);
    proof {
        vstd::utf8::encode_utf8_valid_utf8(text@);
    }
    let mut k = limit;
    while !text.is_char_boundary(k)
        invariant
            k <= limit < bytes.len(),
            bytes == encode_utf8(text@),
            vstd::utf8::valid_utf8(bytes),
            floor_boundary(bytes, limit as int) == floor_boundary(bytes, k as int),
        decreases k,
    {
        k = k - 1;
    }
    let (head, _) = text.split_at(k);
    proof {
        vstd::utf8::decode_utf8_split(bytes, k as int);
        vstd::utf8::encode_utf8_decode_utf8(text@);
        vstd::utf8::encode_utf8_decode_utf8(head@);
        assert(encode_utf8(head@) == bytes.subrange(0, k as int));
        assert(text@ =~= head@ + vstd::utf8::decode_utf8(
            bytes.subrange(k as int, bytes.len() as int),
        ));
    }
    head.to_owned()
}

} // verus!
