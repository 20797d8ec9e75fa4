use vstd::prelude::*;

verus! {

/// The two characters with which an ANSI escape sequence starts.
pub open spec fn escape() -> Seq<char> {
    seq!['\x1b', '[']
}

/// Whether `text` starts with an ANSI escape sequence.
pub open spec fn starts_escape(text: Seq<char>) -> bool {
    text.len() >= 2 && text[0] == '\x1b' && text[1] == '['
}

/// What the terminal attribute with the number `code` makes of `text`. Text
/// that starts with an escape sequence gets the attribute into that
/// sequence. Other text gets a sequence of its own in front, and `reset`
/// behind: the sequence that goes back to the colours set for the thread.
pub open spec fn packed(code: Seq<char>, text: Seq<char>, reset: Seq<char>) -> Seq<char> {
    if starts_escape(text) {
        escape() + code + seq![';'] + text.skip(2)
    } else {
        escape() + code + seq!['m'] + text + reset
    }
}

/// `colorize::AnsiColor::red` on a `String`: the text with the attribute 31.
/// What goes back to the thread's colours is not known here.
#[verifier::external_body]
pub(crate) fn red(text: String) -> (painted: String)
    ensures
        exists|reset: Seq<char>| painted@ == packed(seq!['3', '1'], text@, reset),
{
    colorize::AnsiColor::red(text)
}

/// `colorize::AnsiColor::yellow` on a `String`: the text with the attribute
/// 33. What goes back to the thread's colours is not known here.
#[verifier::external_body]
pub(crate) fn yellow(text: String) -> (painted: String)
    ensures
        exists|reset: Seq<char>| painted@ == packed(seq!['3', '3'], text@, reset),
{
    colorize::AnsiColor::yellow(text)
}

/// `colorize::AnsiColor::green` on a `String`: the text with the attribute
/// 32. What goes back to the thread's colours is not known here.
#[verifier::external_body]
pub(crate) fn green(text: String) -> (painted: String)
    ensures
        exists|reset: Seq<char>| painted@ == packed(seq!['3', '2'], text@, reset),
{
    colorize::AnsiColor::green(text)
}

/// `colorize::AnsiColor::grey` on a `String`: the text with the attribute 37.
/// What goes back to the thread's colours is not known here.
#[verifier::external_body]
pub(crate) fn grey(text: String) -> (painted: String)
    ensures
        exists|reset: Seq<char>| painted@ == packed(seq!['3', '7'], text@, reset),
{
    colorize::AnsiColor::grey(text)
}

/// `colorize::AnsiColor::cyan` on a `String`: the text with the attribute 36.
/// What goes back to the thread's colours is not known here.
#[verifier::external_body]
pub(crate) fn cyan(text: String) -> (painted: String)
    ensures
        exists|reset: Seq<char>| painted@ == packed(seq!['3', '6'], text@, reset),
{
    colorize::AnsiColor::cyan(text)
}

/// `colorize::AnsiColor::bold` on a `String`: the text with the attribute 1.
/// What goes back to the thread's colours is not known here.
#[verifier::external_body]
pub(crate) fn bold(text: String) -> (painted: String)
    ensures
        exists|reset: Seq<char>| painted@ == packed(seq!['1'], text@, reset),
{
    colorize::AnsiColor::bold(text)
}

} // verus!
