use vstd::prelude::*;

verus! {

broadcast use vstd::string::group_string_axioms, vstd::utf8::is_ascii_chars_encode_utf8;

/// The number of bytes that `s` occupies when encoded as UTF-8.
pub open spec fn byte_len(s: Seq<char>) -> nat {
    vstd::utf8::encode_utf8(s).len()
}

/// Measures a string through a shared borrow: the caller keeps ownership.
/// The result is the length in bytes, which for ASCII text is the number
/// of characters.
pub fn calculate_length(s: &String) -> (r: usize)
    ensures
        r == byte_len(s@),
        vstd::utf8::is_ascii_chars(s@) ==> r == s@.len(),
{
    let bytes: &[u8] = s.as_str().as_bytes();
    bytes.len()
}

/// Extends a string through a mutable borrow: the caller still owns it and
/// sees `", world"` appended to what it held.
pub fn mudar_mutavel(some_string: &mut String)
    ensures
        final(some_string)@ == old(some_string)@ + ", world"@,
{
    some_string.append(", world");
}

/// Builds the two values that are handed out: a `String`, which moves to
/// whoever takes it, and an `i32`, which is copied and stays usable here.
/// The result holds the moved string `"hello"` and the copied integer `5`.
pub fn dar_e_devolver_ownership() -> (r: (String, i32))
    ensures
        r.0@ == "hello"@,
        r.1 == 5,
{
    let s = String::from_str("hello");
    let x: i32 = 5;
    (s, x)
}

/// Borrows `"hello"` to measure it, then lends `"Olá mutavel"` mutably to
/// extend it. Returns the measured string, its length in bytes and the
/// extended string.
pub fn parte5() -> (r: (String, usize, String))
    ensures
        r.0@ == "hello"@,
        r.1 == 5,
        r.2@ == "Olá mutavel"@ + ", world"@,
{
    let s1 = String::from_str("hello");
    let len: usize = calculate_length(&s1);
    proof {
        reveal_strlit("hello");
    }
    let mut s = String::from_str("Olá mutavel");
    mudar_mutavel(&mut s);
    (s1, len, s)
}

} // verus!
