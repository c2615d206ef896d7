use vstd::prelude::*;
use vstd::utf8::*;

verus! {

/// `String::push` from std: appends one character at the end of the string,
/// as its documentation states.
#[verifier::external_body]
pub(crate) fn push_char(s: &mut String, c: char)
    ensures
        final(s)@ == old(s)@.push(c),
{
    s.push(c);
}

/// The text that `std::str::Utf8Error` displays for a byte sequence that is
/// not valid UTF-8. It depends on the position and length of the first
/// invalid sequence, both functions of the bytes alone.
pub uninterp spec fn utf8_error_text(bytes: Seq<u8>) -> Seq<char>;

/// `std::str::from_utf8`: succeeds exactly on valid UTF-8 and then yields the
/// decoded characters (std's validity rules are those of `valid_utf8`). On
/// failure the wrapper hands back the text the `Utf8Error` displays; of that
/// text nothing is stated beyond its name.
#[verifier::external_body]
pub(crate) fn decode_utf8_text(bytes: &[u8]) -> (r: Result<String, String>)
    ensures
        r is Ok <==> valid_utf8(bytes@),
        r matches Ok(s) ==> s@ == decode_utf8(bytes@),
        r matches Err(e) ==> e@ == utf8_error_text(bytes@),
{
    match std::str::from_utf8(bytes) {
        Ok(s) => Ok(s.to_string()),
        Err(e) => Err(format!("{}", e)),
    }
}

/// `prefix` followed by `rest`, as a new string.
pub(crate) fn join_text(prefix: &str, rest: &str) -> (r: String)
    ensures
        r@ == prefix@ + rest@,
{
    prefix.to_string().concat(rest)
}

} // verus!
