//! Small operations on text, stated over sequences of characters.

use vstd::prelude::*;
use vstd::std_specs::iter::IteratorSpec;
use vstd::string::*;

verus! {

/// The lower-case form of an ASCII capital letter; any other character is kept.
pub open spec fn ascii_lower_char(c: char) -> char {
    if 'A' <= c && c <= 'Z' {
        ((c as u8) + 32) as char
    } else {
        c
    }
}

/// A text with each ASCII capital letter replaced by its lower-case form.
pub open spec fn ascii_lower(s: Seq<char>) -> Seq<char> {
    Seq::new(s.len(), |i: int| ascii_lower_char(s[i]))
}

/// The text of an optional string.
pub open spec fn text_of(s: Option<String>) -> Option<Seq<char>> {
    match s {
        Some(s) => Some(s@),
        None => None,
    }
}

/// The text of an optional string slice.
pub open spec fn text_of_str(s: Option<&str>) -> Option<Seq<char>> {
    match s {
        Some(s) => Some(s@),
        None => None,
    }
}

/// Whether `text` begins with `prefix`.
pub fn starts_with(text: &str, prefix: &str) -> (r: bool)
    ensures
        r == prefix@.is_prefix_of(text@),
{
    let mut rest = text.chars();
    let mut wanted = prefix.chars();
    let ghost mut n: int = 0;
    loop
        invariant
            0 <= n <= text@.len(),
            n <= prefix@.len(),
            rest.remaining() == text@.skip(n),
            wanted.remaining() == prefix@.skip(n),
            text@.take(n) == prefix@.take(n),
        decreases prefix@.len() - n,
    {
        match wanted.next() {
            None => {
                return true;
            },
            Some(w) => {
                match rest.next() {
                    None => {
                        return false;
                    },
                    Some(c) => {
                        if c != w {
                            return false;
                        }
                        proof {
                            n = n + 1;
                        }
                    },
                }
            },
        }
    }
}

/// Whether two texts are the same.
pub fn same_text(a: &str, b: &str) -> (r: bool)
    ensures
        r == (a@ == b@),
{
    let mut left = a.chars();
    let mut right = b.chars();
    let ghost mut n: int = 0;
    loop
        invariant
            0 <= n <= a@.len(),
            n <= b@.len(),
            left.remaining() == a@.skip(n),
            right.remaining() == b@.skip(n),
            a@.take(n) == b@.take(n),
        decreases a@.len() - n,
    {
        match left.next() {
            None => {
                let last = right.next();
                proof {
                    if last is None {
                        assert(a@ =~= a@.take(n) && b@ =~= b@.take(n));
                    }
                }
                return last.is_none();
            },
            Some(c) => {
                match right.next() {
                    None => {
                        return false;
                    },
                    Some(d) => {
                        if c != d {
                            assert(a@[n] != b@[n]);
                            return false;
                        }
                        proof {
                            assert(a@.take(n + 1) =~= a@.take(n).push(c));
                            assert(b@.take(n + 1) =~= b@.take(n).push(d));
                            n = n + 1;
                        }
                    },
                }
            },
        }
    }
}

/// The lower-case form of an ASCII capital letter; any other character is kept.
pub fn lower_char(c: char) -> (r: char)
    ensures
        r == ascii_lower_char(c),
{
    if c >= 'A' && c <= 'Z' {
        ((c as u8) + 32) as char
    } else {
        c
    }
}

/// Whether two texts are the same but for the case of their ASCII letters.
pub fn same_text_ignoring_case(a: &str, b: &str) -> (r: bool)
    ensures
        r == (ascii_lower(a@) == ascii_lower(b@)),
{
    let mut left = a.chars();
    let mut right = b.chars();
    let ghost mut n: int = 0;
    loop
        invariant
            0 <= n <= a@.len(),
            n <= b@.len(),
            left.remaining() == a@.skip(n),
            right.remaining() == b@.skip(n),
            ascii_lower(a@).take(n) == ascii_lower(b@).take(n),
        decreases a@.len() - n,
    {
        match left.next() {
            None => {
                let last = right.next();
                proof {
                    if last is None {
                        assert(ascii_lower(a@) =~= ascii_lower(a@).take(n));
                        assert(ascii_lower(b@) =~= ascii_lower(b@).take(n));
                    } else {
                        assert(ascii_lower(a@).len() != ascii_lower(b@).len());
                    }
                }
                return last.is_none();
            },
            Some(c) => {
                match right.next() {
                    None => {
                        assert(ascii_lower(a@).len() != ascii_lower(b@).len());
                        return false;
                    },
                    Some(d) => {
                        if lower_char(c) != lower_char(d) {
                            assert(ascii_lower(a@)[n] != ascii_lower(b@)[n]);
                            return false;
                        }
                        proof {
                            assert(ascii_lower(a@).take(n + 1) =~= ascii_lower(a@).take(n).push(
                                ascii_lower_char(c),
                            ));
                            assert(ascii_lower(b@).take(n + 1) =~= ascii_lower(b@).take(n).push(
                                ascii_lower_char(d),
                            ));
                            n = n + 1;
                        }
                    },
                }
            },
        }
    }
}

/// `n` is the place of the first `stop` in a text, or the length of the text
/// where it holds none.
pub open spec fn stops_at(s: Seq<char>, stop: char, n: int) -> bool {
    &&& 0 <= n <= s.len()
    &&& forall|i: int| 0 <= i < n ==> s[i] != stop
    &&& n < s.len() ==> s[n] == stop
}

/// The part of a text before its first `stop`; the whole text where it holds
/// none.
pub open spec fn before(s: Seq<char>, stop: char) -> Seq<char> {
    s.take(choose|n: int| stops_at(s, stop, n))
}

/// A text stops at one place only.
pub proof fn lemma_stops_once(s: Seq<char>, stop: char, n: int, m: int)
    requires
        stops_at(s, stop, n),
        stops_at(s, stop, m),
    ensures
        n == m,
        before(s, stop) == s.take(n),
{
    if n < m {
        assert(s[n] == stop);
    }
    if m < n {
        assert(s[m] == stop);
    }
    let k = choose|k: int| stops_at(s, stop, k);
    if k < n {
        assert(s[k] == stop);
    }
    if n < k {
        assert(s[n] == stop);
    }
}

/// The part of a text before its first `stop`.
pub fn prefix_before(s: &str, stop: char) -> (r: String)
    ensures
        r@ == before(s@, stop),
        stops_at(s@, stop, r@.len() as int),
{
    let total = s.unicode_len();
    let mut rest = s.chars();
    let mut n: usize = 0;
    loop
        invariant_except_break
            rest.remaining() == s@.skip(n as int),
        invariant
            0 <= n <= s@.len(),
            total == s@.len(),
            forall|i: int| 0 <= i < n ==> s@[i] != stop,
        ensures
            stops_at(s@, stop, n as int),
        decreases s@.len() - n,
    {
        match rest.next() {
            None => {
                break ;
            },
            Some(c) => {
                if c == stop {
                    break ;
                }
                n += 1;
            },
        }
    }
    proof {
        lemma_stops_once(s@, stop, n as int, n as int);
    }
    let head = s.substring_char(0, n);
    assert(head@ =~= s@.take(n as int));
    String::from_str(head)
}

} // verus!
