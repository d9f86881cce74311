//! Validation of the interactively supplied music database path: trimming
//! surrounding whitespace and rejecting an empty entry.

use vstd::prelude::*;
use crate::document::line_free;
use crate::error::ConfigError;

verus! {

/// The white-space characters that trimming removes: the Unicode
/// `White_Space` set.
pub open spec fn is_space(c: char) -> bool {
    let u = c as u32;
    u == 0x20 || (0x09 <= u && u <= 0x0D) || u == 0x85 || u == 0xA0 || u == 0x1680 || (0x2000
        <= u && u <= 0x200A) || u == 0x2028 || u == 0x2029 || u == 0x202F || u == 0x205F || u
        == 0x3000
}

fn char_is_space(c: char) -> (r: bool)
    ensures
        r == is_space(c),
{
    let u = c as u32;
    u == 0x20 || (0x09 <= u && u <= 0x0D) || u == 0x85 || u == 0xA0 || u == 0x1680 || (0x2000
        <= u && u <= 0x200A) || u == 0x2028 || u == 0x2029 || u == 0x202F || u == 0x205F || u
        == 0x3000
}

/// `s` with its leading white space removed.
pub open spec fn trim_front(s: Seq<char>) -> Seq<char>
    decreases s.len(),
{
    if s.len() > 0 && is_space(s.first()) {
        trim_front(s.drop_first())
    } else {
        s
    }
}

/// `s` with its trailing white space removed.
pub open spec fn trim_back(s: Seq<char>) -> Seq<char>
    decreases s.len(),
{
    if s.len() > 0 && is_space(s.last()) {
        trim_back(s.drop_last())
    } else {
        s
    }
}

/// `s` with both leading and trailing white space removed.
pub open spec fn trim_spec(s: Seq<char>) -> Seq<char> {
    trim_back(trim_front(s))
}

/// Removes leading and trailing white space, as the prompt handling does
/// with the line read from the console.
pub fn trim(s: &str) -> (r: String)
    ensures
        r@ == trim_spec(s@),
{
    let len = s.unicode_len();
    let mut b: usize = 0;
    proof {
        assert(s@.skip(0) =~= s@);
    }
    while b < len && char_is_space(s.get_char(b))
        invariant
            b <= len,
            len == s@.len(),
            trim_front(s@.skip(b as int)) == trim_front(s@),
        decreases len - b,
    {
        proof {
            assert(s@.skip(b as int).drop_first() =~= s@.skip(b as int + 1));
        }
        b += 1;
    }
    proof {
        if b < len {
            assert(trim_front(s@.skip(b as int)) == s@.skip(b as int));
        } else {
            assert(s@.skip(b as int) =~= Seq::<char>::empty());
        }
        assert(trim_front(s@) == s@.skip(b as int));
    }
    let mut e: usize = len;
    while e > b && char_is_space(s.get_char(e - 1))
        invariant
            b <= e <= len,
            len == s@.len(),
            trim_back(s@.subrange(b as int, e as int)) == trim_back(trim_front(s@)),
        decreases e,
    {
        proof {
            assert(s@.subrange(b as int, e as int).drop_last() =~= s@.subrange(
                b as int,
                e as int - 1,
            ));
        }
        e -= 1;
    }
    proof {
        if e > b {
            assert(trim_back(s@.subrange(b as int, e as int)) == s@.subrange(b as int, e as int));
        } else {
            assert(s@.subrange(b as int, e as int) =~= Seq::<char>::empty());
        }
    }
    String::from_str(s.substring_char(b, e))
}

/// Tells whether the text still holds a line break.
fn contains_newline(s: &str) -> (r: bool)
    ensures
        r == !line_free(s@),
{
    let len = s.unicode_len();
    let mut k: usize = 0;
    while k < len
        invariant
            k <= len,
            len == s@.len(),
            forall|q: int| 0 <= q < k ==> s@[q] != '\n',
        decreases len - k,
    {
        if s.get_char(k) == '\n' {
            return true;
        }
        k += 1;
    }
    false
}

/// Checks the line entered at the music-folder prompt: surrounding white
/// space is removed, and an entry that is then empty — or that spans more
/// than one line, which no console read can produce — is rejected.  A
/// single invalid entry is final; there is no retry.
pub fn validate_music_database_path(line: &str) -> (r: Result<String, ConfigError>)
    ensures
        ({
            let t = trim_spec(line@);
            match r {
                Ok(p) => t.len() > 0 && line_free(t) && p@ == t,
                Err(e) => (t.len() == 0 || !line_free(t)) && e == ConfigError::ValidationError,
            }
        }),
{
    let t = trim(line);
    if t.as_str().is_empty() || contains_newline(t.as_str()) {
        Err(ConfigError::ValidationError)
    } else {
        Ok(t)
    }
}

} // verus!
