//! Small verified string helpers: character-level editing and decimal
//! formatting, shared by the record mapper and the query builder.
use vstd::prelude::*;

verus! {

/// Relies on std's `String::push`: appends one character at the end.
#[verifier::external_body]
pub(crate) fn push_char(s: &mut String, c: char)
    ensures
        final (s)@ == old(s)@.push(c),
{
    s.push(c)
}

/// A name with every path-separator character replaced by an underscore.
pub open spec fn sanitized(name: Seq<char>) -> Seq<char> {
    name.map(|i: int, c: char| if c == '/' { '_' } else { c })
}

/// Replaces every path-separator character of a monitor name with an
/// underscore, so that the name is usable as a single file name; every
/// other character is kept as it is.
pub fn sanitize_name(name: &str) -> (r: String)
    ensures
        r@ == sanitized(name@),
        r@.len() == name@.len(),
        forall|i: int|
            0 <= i < name@.len() ==> r@[i] == (if name@[i] == '/' {
                '_'
            } else {
                name@[i]
            }),
        forall|i: int| 0 <= i < r@.len() ==> r@[i] != '/',
{
    let n: usize = name.unicode_len();
    let mut out = String::new();
    let mut done: usize = 0;
    while done < n
        invariant
            n == name@.len(),
            0 <= done <= n,
            out@.len() == done,
            forall|i: int|
                0 <= i < done ==> out@[i] == (if name@[i] == '/' {
                    '_'
                } else {
                    name@[i]
                }),
        decreases n - done,
    {
        let c = name.get_char(done);
        if c == '/' {
            push_char(&mut out, '_');
        } else {
            push_char(&mut out, c);
        }
        done = done + 1;
    }
    proof {
        assert(out@ =~= sanitized(name@));
    }
    out
}

/// Character-for-character equality of two string slices.
pub fn str_eq(a: &str, b: &str) -> (r: bool)
    ensures
        r == (a@ == b@),
{
    let la: usize = a.unicode_len();
    let lb: usize = b.unicode_len();
    if la != lb {
        return false;
    }
    let mut i: usize = 0;
    while i < la
        invariant
            la == a@.len(),
            lb == b@.len(),
            la == lb,
            0 <= i <= la,
            forall|j: int| 0 <= j < i ==> a@[j] == b@[j],
        decreases la - i,
    {
        if a.get_char(i) != b.get_char(i) {
            return false;
        }
        i = i + 1;
    }
    proof {
        assert(a@ =~= b@);
    }
    true
}

/// `p` is a prefix of `s`.
pub open spec fn has_prefix(s: Seq<char>, p: Seq<char>) -> bool {
    p.len() <= s.len() && (forall|i: int| 0 <= i < p.len() ==> s[i] == p[i])
}

/// Tests whether `s` begins with the prefix `p`.
pub fn str_has_prefix(s: &str, p: &str) -> (r: bool)
    ensures
        r == has_prefix(s@, p@),
{
    let ls: usize = s.unicode_len();
    let lp: usize = p.unicode_len();
    if lp > ls {
        return false;
    }
    let mut i: usize = 0;
    while i < lp
        invariant
            ls == s@.len(),
            lp == p@.len(),
            lp <= ls,
            0 <= i <= lp,
            forall|j: int| 0 <= j < i ==> s@[j] == p@[j],
        decreases lp - i,
    {
        if s.get_char(i) != p.get_char(i) {
            return false;
        }
        i = i + 1;
    }
    true
}

/// The character for one decimal digit.
pub open spec fn digit_char(d: nat) -> char {
    if d == 0 {
        '0'
    } else if d == 1 {
        '1'
    } else if d == 2 {
        '2'
    } else if d == 3 {
        '3'
    } else if d == 4 {
        '4'
    } else if d == 5 {
        '5'
    } else if d == 6 {
        '6'
    } else if d == 7 {
        '7'
    } else if d == 8 {
        '8'
    } else {
        '9'
    }
}

/// The decimal notation of a natural number, most significant digit first,
/// with no leading zero except for the number zero itself.
pub open spec fn dec_str(n: nat) -> Seq<char>
    decreases n,
{
    if n < 10 {
        seq![digit_char(n)]
    } else {
        dec_str(n / 10).push(digit_char(n % 10))
    }
}

fn digit_char_exec(d: u32) -> (c: char)
    requires
        d < 10,
    ensures
        c == digit_char(d as nat),
{
    if d == 0 {
        '0'
    } else if d == 1 {
        '1'
    } else if d == 2 {
        '2'
    } else if d == 3 {
        '3'
    } else if d == 4 {
        '4'
    } else if d == 5 {
        '5'
    } else if d == 6 {
        '6'
    } else if d == 7 {
        '7'
    } else if d == 8 {
        '8'
    } else {
        '9'
    }
}

/// Formats a number in decimal notation.
pub fn u32_to_string(n: u32) -> (s: String)
    ensures
        s@ == dec_str(n as nat),
    decreases n,
{
    if n < 10 {
        let mut s = String::new();
        push_char(&mut s, digit_char_exec(n));
        proof {
            assert(s@ =~= dec_str(n as nat));
        }
        s
    } else {
        let mut s = u32_to_string(n / 10);
        push_char(&mut s, digit_char_exec(n % 10));
        s
    }
}

} // verus!
