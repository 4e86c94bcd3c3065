//! Making a URL safe to hand to the Windows command interpreter.

use vstd::prelude::*;
use vstd::string::StrSliceExecFns;
use vstd::string::StringExecFns;

verus! {

/// Whether the command interpreter gives `c` a meaning of its own, the
/// caret apart.
pub open spec fn is_command_operator(c: char) -> bool {
    c == '&' || c == '|' || c == '(' || c == ')' || c == '<' || c == '>'
}

/// What stands for one character of a URL in the escaped URL: two carets
/// for a caret, two carets and the character for an operator, and any other
/// character as it is.
pub open spec fn escaped_char(c: char) -> Seq<char> {
    if c == '^' {
        seq!['^', '^']
    } else if is_command_operator(c) {
        seq!['^', '^', c]
    } else {
        seq![c]
    }
}

/// The escaped form of a URL: character by character.
pub open spec fn escaped(url: Seq<char>) -> Seq<char>
    decreases url.len(),
{
    if url.len() == 0 {
        Seq::empty()
    } else {
        escaped(url.drop_last()) + escaped_char(url.last())
    }
}

/// Escapes a URL for the command interpreter: puts two carets before each
/// of `&`, `|`, `(`, `)`, `<`, `>`, and doubles each caret.
pub fn escape_for_cmd(url: String) -> (escaped_url: String)
    ensures
        escaped_url@ == escaped(url@),
{
    let text = url.as_str();
    let length: usize = text.unicode_len();
    let mut escaped_url = String::new();
    let mut i: usize = 0;
    proof {
        reveal_strlit("^^");
        assert(text@.take(0) =~= Seq::<char>::empty());
    }
    while i < length
        invariant
            i <= length,
            length == text@.len(),
            text@ == url@,
            "^^"@ == seq!['^', '^'],
            escaped_url@ == escaped(text@.take(i as int)),
        decreases length - i,
    {
        let c = text.get_char(i);
        let ghost before = escaped_url@;
        if c == '^' {
            escaped_url.append("^^");
        } else if c == '&' || c == '|' || c == '(' || c == ')' || c == '<' || c == '>' {
            escaped_url.append("^^");
            escaped_url.append(text.substring_char(i, i + 1));
        } else {
            escaped_url.append(text.substring_char(i, i + 1));
        }
        proof {
            assert(text@.subrange(i as int, i + 1) =~= seq![c]);
            assert(text@.take(i + 1).drop_last() =~= text@.take(i as int));
            assert(text@.take(i + 1).last() == c);
            assert(escaped_url@ =~= before + escaped_char(c));
        }
        i += 1;
    }
    assert(text@.take(length as int) =~= text@);
    escaped_url
}

} // verus!
