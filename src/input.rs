use vstd::prelude::*;

verus! {

/// What `str::trim` leaves of `s`: `s` without its leading and trailing
/// whitespace.
pub uninterp spec fn trimmed(s: Seq<char>) -> Seq<char>;

/// Relies on `str::trim`: the line without its leading and trailing whitespace,
/// a result that depends on the characters of the line alone.
#[verifier::external_body]
fn trim_line(line: &str) -> (r: &str)
    ensures
        r@ == trimmed(line@),
{
    line.trim()
}

/// The letter that a trimmed line stands for: its one character, if it holds
/// exactly one.
pub open spec fn letter_spec(t: Seq<char>) -> Option<char> {
    if t.len() == 1 {
        Some(t[0])
    } else {
        None
    }
}

/// The letter that the already trimmed text `t` names, or `None` unless it
/// holds exactly one character.
pub fn letter_of(t: &str) -> (r: Option<char>)
    ensures
        r == letter_spec(t@),
{
    if t.unicode_len() == 1 {
        Some(t.get_char(0))
    } else {
        None
    }
}

/// The letter guessed on an input line: the line is trimmed, and must then hold
/// exactly one character.
pub fn letter_from_line(line: &str) -> (r: Option<char>)
    ensures
        r == letter_spec(trimmed(line@)),
{
    letter_of(trim_line(line))
}

/// The word that the already trimmed text `t` names, or `None` when it is
/// empty.
pub fn word_of(t: &str) -> (r: Option<String>)
    ensures
        r is None <==> t@.len() == 0,
        r is Some ==> r->0@ == t@,
{
    if t.unicode_len() == 0 {
        None
    } else {
        Some(t.to_owned())
    }
}

/// The secret word given on an input line: the line is trimmed, and must not
/// then be empty.
pub fn word_from_line(line: &str) -> (r: Option<String>)
    ensures
        r is None <==> trimmed(line@).len() == 0,
        r is Some ==> r->0@ == trimmed(line@),
{
    word_of(trim_line(line))
}

} // verus!
