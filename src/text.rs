use vstd::prelude::*;

verus! {

/// Relies on `String::push`: appends one character at the end.
#[verifier::external_body]
fn push_char(s: &mut String, c: char)
    ensures
        final(s)@ == old(s)@.push(c),
{
    s.push(c);
}

/// Builds a `String` that holds exactly the given characters.
pub fn string_from_chars(cs: &Vec<char>) -> (r: String)
    ensures
        r@ == cs@,
{
    let mut s = String::new();
    let mut i: usize = 0;
    while i < cs.len()
        invariant
            i <= cs@.len(),
            s@ == cs@.take(i as int),
        decreases cs@.len() - i,
    {
        push_char(&mut s, cs[i]);
        i = i + 1;
        assert(s@ =~= cs@.take(i as int));
    }
    assert(s@ =~= cs@);
    s
}

/// The characters of a string slice, in order.
pub fn chars_of(s: &str) -> (r: Vec<char>)
    ensures
        r@ == s@,
{
    let mut v: Vec<char> = Vec::new();
    for c in it: s.chars()
        invariant
            v@ == it.seq().take(it.index() as int),
            it.seq() == s@,
    {
        v.push(c);
    }
    v
}

/// Whether a string holds exactly the characters of a string slice.
pub fn string_is(t: &String, s: &str) -> (r: bool)
    ensures
        r == (t@ == s@),
{
    let a = t.as_str();
    let n = a.unicode_len();
    if n != s.unicode_len() {
        return false;
    }
    let mut i: usize = 0;
    while i < n
        invariant
            n == a@.len(),
            n == s@.len(),
            a@ == t@,
            i <= n,
            forall|k: int| 0 <= k < i ==> a@[k] == s@[k],
        decreases n - i,
    {
        if a.get_char(i) != s.get_char(i) {
            return false;
        }
        i = i + 1;
    }
    assert(t@ =~= s@);
    true
}

/// Whether a string is the single character `c`.
pub fn string_is_char(t: &String, c: char) -> (r: bool)
    ensures
        r == (t@ == seq![c]),
{
    let a = t.as_str();
    if a.unicode_len() != 1 {
        return false;
    }
    let r = a.get_char(0) == c;
    assert(r ==> t@ =~= seq![c]);
    r
}

} // verus!
