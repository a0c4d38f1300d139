//! Names the device reports as fixed-size, NUL-terminated character arrays.
use vstd::prelude::*;
use vstd::utf8::{decode_utf8, valid_utf8};

verus! {

/// The error of String::from_utf8, carried through to callers unread.
#[verifier::external_type_specification]
#[verifier::external_body]
pub struct ExFromUtf8Error(std::string::FromUtf8Error);

/// The bytes of a NUL-terminated character array, up to the first NUL or the
/// end of the array.
pub open spec fn c_string_bytes(chars: Seq<i8>) -> Seq<u8>
    decreases chars.len(),
{
    if chars.len() == 0 || chars[0] == 0 {
        Seq::empty()
    } else {
        seq![#[verifier::truncate] (chars[0] as u8)] + c_string_bytes(chars.skip(1))
    }
}

/// Relies on String::from_utf8: it succeeds exactly on valid UTF-8 and then
/// holds the characters the bytes encode.
#[verifier::external_body]
fn string_from_utf8(bytes: Vec<u8>) -> (r: Result<String, std::string::FromUtf8Error>)
    ensures
        r is Ok <==> valid_utf8(bytes@),
        r matches Ok(s) ==> s@ == decode_utf8(bytes@),
{
    String::from_utf8(bytes)
}

/// The bytes of a NUL-terminated character array before its terminator.
pub fn c_string_to_bytes(chars: &[i8]) -> (r: Vec<u8>)
    ensures
        r@ == c_string_bytes(chars@),
{
    let mut r: Vec<u8> = Vec::new();
    let mut i: usize = 0;
    proof {
        assert(chars@.skip(0) =~= chars@);
        assert(r@ + c_string_bytes(chars@) =~= c_string_bytes(chars@));
    }
    while i < chars.len()
        invariant
            i <= chars@.len(),
            r@ + c_string_bytes(chars@.skip(i as int)) == c_string_bytes(chars@),
        decreases chars@.len() - i,
    {
        let ch = chars[i];
        if ch == 0 {
            proof {
                assert(r@ =~= r@ + c_string_bytes(chars@.skip(i as int)));
            }
            return r;
        }
        proof {
            let rest = chars@.skip(i as int);
            assert(rest.skip(1) =~= chars@.skip(i + 1));
            assert(r@.push(#[verifier::truncate] (ch as u8)) + c_string_bytes(chars@.skip(i + 1)) =~= r@ + c_string_bytes(rest));
        }
        r.push(#[verifier::truncate] (ch as u8));
        i = i + 1;
    }
    proof {
        assert(chars@.skip(i as int).len() == 0);
        assert(r@ =~= r@ + c_string_bytes(chars@.skip(i as int)));
    }
    r
}

/// Reads a NUL-terminated character array as UTF-8 text; an error when the
/// bytes before the terminator are not valid UTF-8.
pub fn read_vk_string(chars: &[i8]) -> (r: Result<String, std::string::FromUtf8Error>)
    ensures
        r is Ok <==> valid_utf8(c_string_bytes(chars@)),
        r matches Ok(s) ==> s@ == decode_utf8(c_string_bytes(chars@)),
{
    let content = c_string_to_bytes(chars);
    string_from_utf8(content)
}

} // verus!
