//! Parsing of the positional command-line token into a `Command` value.
//!
//! The match against the recognized vocabulary is case-insensitive over
//! ASCII letters; the original spelling of an unrecognized token is kept
//! for error reporting.

use vstd::prelude::*;
use vstd::string::StrSliceExecFns;
use crate::Command;

verus! {

/// Numeric value of a character, with the ASCII lowercase letters
/// (code points 97 through 122) folded onto the uppercase ones.
pub open spec fn fold_ascii_case(c: char) -> int {
    if 97 <= c as u32 <= 122 {
        c as u32 - 32
    } else {
        c as u32 as int
    }
}

/// Two character sequences are the same up to ASCII case.
pub open spec fn eq_ignore_ascii_case(s: Seq<char>, t: Seq<char>) -> bool {
    s.len() == t.len() && forall|i: int|
        0 <= i < s.len() ==> fold_ascii_case(s[i]) == fold_ascii_case(#[trigger] t[i])
}

fn chars_eq_ignore_ascii_case(a: char, b: char) -> (r: bool)
    ensures
        r == (fold_ascii_case(a) == fold_ascii_case(b)),
{
    let au = a as u32;
    let bu = b as u32;
    let af = if 97 <= au && au <= 122 { au - 32 } else { au };
    let bf = if 97 <= bu && bu <= 122 { bu - 32 } else { bu };
    af == bf
}

/// Whether the token names the migration command, ignoring ASCII case.
pub fn token_is_init(token: &str) -> (r: bool)
    ensures
        r == eq_ignore_ascii_case(token@, "init"@),
{
    proof {
        reveal_strlit("init");
    }
    let n = token.unicode_len();
    if n != 4 {
        return false;
    }
    let pattern = "init";
    let mut i: usize = 0;
    while i < 4
        invariant
            0 <= i <= 4,
            token@.len() == 4,
            pattern@ == "init"@,
            pattern@.len() == 4,
            forall|j: int|
                0 <= j < i ==> fold_ascii_case(token@[j]) == fold_ascii_case(#[trigger] pattern@[j]),
        decreases 4 - i,
    {
        let tc = token.get_char(i);
        let pc = pattern.get_char(i);
        if !chars_eq_ignore_ascii_case(tc, pc) {
            proof {
                assert(fold_ascii_case(token@[i as int]) != fold_ascii_case("init"@[i as int]));
            }
            return false;
        }
        i += 1;
    }
    true
}

/// Map the optional positional token to a command value.
///
/// An absent or empty token selects no command; a token spelling `init`
/// in any ASCII casing selects the migration run; any other non-empty
/// token is unknown, with its original casing preserved.
pub fn parse_command(token: Option<&str>) -> (r: Command)
    ensures
        match token {
            Option::None => r is Absent,
            Option::Some(t) => {
                &&& t@.len() == 0 ==> r is Absent
                &&& eq_ignore_ascii_case(t@, "init"@) ==> r is Init
                &&& t@.len() > 0 && !eq_ignore_ascii_case(t@, "init"@) ==> (r matches Command::Unknown(
                    s,
                ) && s@ == t@)
            },
        },
{
    match token {
        Option::None => Command::Absent,
        Option::Some(t) => {
            if t.unicode_len() == 0 {
                proof {
                    reveal_strlit("init");
                }
                Command::Absent
            } else if token_is_init(t) {
                Command::Init
            } else {
                Command::Unknown(t.to_owned())
            }
        },
    }
}

} // verus!
