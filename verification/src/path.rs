//! Path names from user memory.

use crate::errno::LinuxError;
use vstd::prelude::*;
use vstd::string::*;
use vstd::utf8::*;

verus! {

/// The longest path name that is read from user memory, in bytes.
pub const MAX_PATH_LEN: usize = 4096;

/// The path as the file system wants it: absolute.
pub open spec fn absolute(path: Seq<char>) -> Seq<char> {
    if path.len() > 0 && path[0] == '/' {
        path
    } else {
        seq!['/'] + path
    }
}

/// Makes a path absolute.
pub fn normalize_path(path: &str) -> (r: String)
    ensures
        r@ == absolute(path@),
{
    if !path.is_empty() && path.get_char(0) == '/' {
        path.to_owned()
    } else {
        proof {
            reveal_strlit("/");
            assert("/"@ =~= seq!['/']);
        }
        String::from_str("/").concat(path)
    }
}

/// `core::str::from_utf8`, which accepts exactly the well-formed UTF-8 byte
/// sequences and yields the text that they encode.
#[verifier::external_body]
fn str_from_utf8(bytes: &[u8]) -> (r: Option<&str>)
    ensures
        r is Some <==> valid_utf8(bytes@),
        r matches Some(s) ==> s@ == decode_utf8(bytes@),
{
    core::str::from_utf8(bytes).ok()
}

/// The text of a C string whose bytes, up to the terminating zero, are given.
pub fn c_str_to_string(bytes: &[u8]) -> (r: Result<String, LinuxError>)
    ensures
        r is Ok <==> valid_utf8(bytes@),
        r matches Ok(s) ==> s@ == decode_utf8(bytes@),
        r matches Err(e) ==> e == LinuxError::EINVAL,
{
    match str_from_utf8(bytes) {
        Some(s) => Ok(s.to_owned()),
        None => Err(LinuxError::EINVAL),
    }
}

/// An absolute path begins with a slash and ends in the given path. A path that
/// begins with a slash is left alone, any other gets exactly one in front.
pub proof fn law_absolute(path: Seq<char>)
    ensures
        absolute(path).len() > 0,
        absolute(path)[0] == '/',
        absolute(path).skip(absolute(path).len() - path.len()) == path,
        absolute(absolute(path)) == absolute(path),
        path.len() > 0 && path[0] == '/' ==> absolute(path) == path,
        path.len() == 0 || path[0] != '/' ==> absolute(path) == seq!['/'] + path,
{
    assert(absolute(path).skip(absolute(path).len() - path.len()) =~= path);
}

} // verus!
