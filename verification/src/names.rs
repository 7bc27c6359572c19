//! Names of the shared-memory region and of the frame event on POSIX
//! systems, derived from their Windows names.

use vstd::prelude::*;
use crate::text::{ascii_lower, char_is_ascii_alnum, char_to_ascii_lower, is_ascii_alnum, push_char};

verus! {

/// The POSIX form of one character of a name: ASCII letters and digits in
/// small letters, anything else an underscore.
pub open spec fn posix_char(c: char) -> char {
    if is_ascii_alnum(c) {
        ascii_lower(c)
    } else {
        '_'
    }
}

/// The POSIX form of a name: a slash, then each character mapped by
/// `posix_char`.
pub open spec fn posix_name(name: Seq<char>) -> Seq<char> {
    seq!['/'] + name.map_values(|c: char| posix_char(c))
}

/// The POSIX shared-object name for the Windows-style `name`.
pub fn to_posix_name(name: &str) -> (r: String)
    ensures
        r@ == posix_name(name@),
{
    let mut out = String::new();
    push_char(&mut out, '/');
    let n = name.unicode_len();
    let mut i: usize = 0;
    while i < n
        invariant
            n == name@.len(),
            i <= n,
            out@ == seq!['/'] + name@.subrange(0, i as int).map_values(|c: char| posix_char(c)),
        decreases n - i,
    {
        let ch = name.get_char(i);
        let mapped = if char_is_ascii_alnum(ch) {
            char_to_ascii_lower(ch)
        } else {
            '_'
        };
        push_char(&mut out, mapped);
        i = i + 1;
        assert(name@.subrange(0, i as int) =~= name@.subrange(0, i - 1).push(ch));
        assert(out@ =~= seq!['/'] + name@.subrange(0, i as int).map_values(|c: char| posix_char(c)));
    }
    assert(name@.subrange(0, n as int) =~= name@);
    out
}

/// A POSIX name never holds a NUL character, so it always converts to a C
/// string, and it never holds a slash after the leading one.
pub proof fn law_posix_name_is_clean(name: Seq<char>)
    ensures
        posix_name(name).len() == name.len() + 1,
        posix_name(name)[0] == '/',
        forall|i: int|
            1 <= i < posix_name(name).len() ==> {
                let c = #[trigger] posix_name(name)[i];
                c != '\0' && c != '/' && (c == '_' || ('0' <= c && c <= '9') || ('a' <= c && c
                    <= 'z'))
            },
{
    assert forall|i: int| 1 <= i < posix_name(name).len() implies {
        let c = #[trigger] posix_name(name)[i];
        c != '\0' && c != '/' && (c == '_' || ('0' <= c && c <= '9') || ('a' <= c && c <= 'z'))
    } by {
        let c = name[i - 1];
        assert(posix_name(name)[i] == posix_char(c));
    }
}

} // verus!
