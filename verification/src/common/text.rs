//! Comparing, measuring and building texts.

use vstd::prelude::*;
use vstd::std_specs::iter::IteratorSpec;
use vstd::string::StringExecFns;

verus! {

/// Whether two texts are made of the same characters.
pub fn same_text(left: &str, right: &str) -> (same: bool)
    ensures
        same == (left@ == right@),
{
    let mut ours = left.chars();
    let mut theirs = right.chars();
    let ghost mut done: int = 0;
    loop
        invariant
            0 <= done <= left@.len(),
            done <= right@.len(),
            ours.obeys_prophetic_iter_laws(),
            theirs.obeys_prophetic_iter_laws(),
            ours.remaining() == left@.skip(done),
            theirs.remaining() == right@.skip(done),
            left@.take(done) == right@.take(done),
        decreases left@.len() - done,
    {
        let ghost before_ours = ours;
        let ghost before_theirs = theirs;
        let mine = ours.next();
        let yours = theirs.next();
        proof {
            vstd::string::next_postcondition(&before_ours, &ours, mine);
            vstd::string::next_postcondition(&before_theirs, &theirs, yours);
        }
        match (mine, yours) {
            (Some(a), Some(b)) => {
                if a != b {
                    assert(left@[done] != right@[done]);
                    return false;
                }
                proof {
                    assert(left@.take(done + 1) =~= left@.take(done).push(left@[done]));
                    assert(right@.take(done + 1) =~= right@.take(done).push(right@[done]));
                    assert(left@.skip(done).drop_first() =~= left@.skip(done + 1));
                    assert(right@.skip(done).drop_first() =~= right@.skip(done + 1));
                    done = done + 1;
                }
            },
            (None, None) => {
                assert(left@ =~= left@.take(done));
                assert(right@ =~= right@.take(done));
                return true;
            },
            _ => {
                assert(left@.len() != right@.len());
                return false;
            },
        }
    }
}

/// The number of bytes a text takes in UTF-8.
pub open spec fn byte_length(text: Seq<char>) -> nat {
    vstd::utf8::encode_utf8(text).len()
}

/// The number of bytes a text takes in UTF-8.
pub fn byte_count(text: &str) -> (count: usize)
    ensures
        count == byte_length(text@),
{
    text.as_bytes().len()
}

/// The decimal digit for a number below ten.
pub open spec fn digit(value: nat) -> char
    recommends
        value < 10,
{
    if value == 0 {
        '0'
    } else if value == 1 {
        '1'
    } else if value == 2 {
        '2'
    } else if value == 3 {
        '3'
    } else if value == 4 {
        '4'
    } else if value == 5 {
        '5'
    } else if value == 6 {
        '6'
    } else if value == 7 {
        '7'
    } else if value == 8 {
        '8'
    } else {
        '9'
    }
}

/// A number written in decimal, without sign or leading zeros.
pub open spec fn decimal_text(value: nat) -> Seq<char>
    decreases value,
{
    if value < 10 {
        seq![digit(value)]
    } else {
        decimal_text(value / 10).push(digit(value % 10))
    }
}

fn digit_text(value: u64) -> (text: &'static str)
    requires
        value < 10,
    ensures
        text@ == seq![digit(value as nat)],
{
    proof {
        reveal_strlit("0");
        reveal_strlit("1");
        reveal_strlit("2");
        reveal_strlit("3");
        reveal_strlit("4");
        reveal_strlit("5");
        reveal_strlit("6");
        reveal_strlit("7");
        reveal_strlit("8");
        reveal_strlit("9");
    }
    let text = if value == 0 {
        "0"
    } else if value == 1 {
        "1"
    } else if value == 2 {
        "2"
    } else if value == 3 {
        "3"
    } else if value == 4 {
        "4"
    } else if value == 5 {
        "5"
    } else if value == 6 {
        "6"
    } else if value == 7 {
        "7"
    } else if value == 8 {
        "8"
    } else {
        "9"
    };
    assert(text@ =~= seq![digit(value as nat)]);
    text
}

/// Writes a number in decimal.
pub fn decimal(value: u64) -> (text: String)
    ensures
        text@ == decimal_text(value as nat),
    decreases value,
{
    if value < 10 {
        digit_text(value).to_string()
    } else {
        let mut text = decimal(value / 10);
        text.append(digit_text(value % 10));
        assert(text@ =~= decimal_text((value / 10) as nat).push(digit((value % 10) as nat)));
        text
    }
}

/// Whether a character occurs in a text.
pub fn has_char(text: &str, wanted: char) -> (found: bool)
    ensures
        found == text@.contains(wanted),
{
    let mut found = false;
    for c in it: text.chars()
        invariant
            it.seq() == text@,
            found == exists|i: int| 0 <= i < it.index() && text@[i] == wanted,
    {
        if c == wanted {
            found = true;
        }
    }
    found
}

/// Two path segments joined by a slash.
pub open spec fn joined(left: Seq<char>, right: Seq<char>) -> Seq<char> {
    left + "/"@ + right
}

/// Joins two path segments by a slash.
pub fn join(left: &str, right: &str) -> (path: String)
    ensures
        path@ == joined(left@, right@),
{
    let mut path = left.to_string();
    path.append("/");
    path.append(right);
    path
}

} // verus!
