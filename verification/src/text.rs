//! String utilities: equality, case-insensitive search, name shortening,
//! and decimal rendering of IPv4 octets.

use vstd::prelude::*;
use vstd::string::StrSliceExecFns;
use vstd::string::StringExecFns;

verus! {

/// Compares two string slices character by character.
#[verifier::loop_isolation(false)]
pub fn str_eq(a: &str, b: &str) -> (r: bool)
    ensures
        r == (a@ == b@),
{
    let alen = a.unicode_len();
    let blen = b.unicode_len();
    if alen != blen {
        return false;
    }
    let mut i: usize = 0;
    while i < alen
        invariant
            i <= alen,
            alen == a@.len(),
            alen == b@.len(),
            forall|j: int| 0 <= j < i ==> a@[j] == b@[j],
        decreases alen - i,
    {
        if a.get_char(i) != b.get_char(i) {
            return false;
        }
        i += 1;
    }
    proof {
        assert(a@ =~= b@);
    }
    true
}

/// The code point of a character with an ASCII upper-case letter folded to
/// its lower-case counterpart.
pub open spec fn lower_code(c: char) -> int {
    if 'A' as u32 <= c as u32 && c as u32 <= 'Z' as u32 {
        c as u32 + 32
    } else {
        c as u32 as int
    }
}

/// Character equality up to ASCII case.
pub open spec fn chars_eq_ci(a: char, b: char) -> bool {
    lower_code(a) == lower_code(b)
}

/// The pattern occurs at offset `off` of `s`, up to ASCII case.
pub open spec fn contains_ci_at(s: Seq<char>, pat: Seq<char>, off: int) -> bool {
    &&& 0 <= off
    &&& off + pat.len() <= s.len()
    &&& forall|j: int| 0 <= j < pat.len() ==> chars_eq_ci(s[off + j], pat[j])
}

/// The pattern occurs somewhere in `s`, up to ASCII case.
pub open spec fn contains_ci(s: Seq<char>, pat: Seq<char>) -> bool {
    exists|off: int| contains_ci_at(s, pat, off)
}

/// Compares two characters up to ASCII case.
pub fn char_eq_ci(a: char, b: char) -> (r: bool)
    ensures
        r == chars_eq_ci(a, b),
{
    let ac = a as u32;
    let bc = b as u32;
    let al = if 'A' as u32 <= ac && ac <= 'Z' as u32 {
        ac + 32
    } else {
        ac
    };
    let bl = if 'A' as u32 <= bc && bc <= 'Z' as u32 {
        bc + 32
    } else {
        bc
    };
    al == bl
}

/// Searches `s` for `pat` ignoring ASCII case.
#[verifier::loop_isolation(false)]
pub fn contains_ignore_case(s: &str, pat: &str) -> (r: bool)
    ensures
        r == contains_ci(s@, pat@),
{
    let slen = s.unicode_len();
    let plen = pat.unicode_len();
    if plen > slen {
        proof {
            assert forall|off: int| !contains_ci_at(s@, pat@, off) by {}
        }
        return false;
    }
    let mut off: usize = 0;
    while off <= slen - plen
        invariant
            plen <= slen,
            off <= slen - plen + 1,
            forall|o: int| 0 <= o < off ==> !contains_ci_at(s@, pat@, o),
        decreases slen - plen - off + 1,
    {
        let mut j: usize = 0;
        let mut matched = true;
        while j < plen
            invariant
                j <= plen,
                off + plen <= slen,
                matched ==> forall|k: int| 0 <= k < j ==> chars_eq_ci(s@[off + k], pat@[k]),
                !matched ==> !contains_ci_at(s@, pat@, off as int),
            decreases plen - j,
        {
            if !char_eq_ci(s.get_char(off + j), pat.get_char(j)) {
                matched = false;
                proof {
                    assert(!chars_eq_ci(s@[off + j], pat@[j as int]));
                }
                break;
            }
            j += 1;
        }
        if matched {
            proof {
                assert(contains_ci_at(s@, pat@, off as int));
            }
            return true;
        }
        off += 1;
    }
    proof {
        assert forall|o: int| !contains_ci_at(s@, pat@, o) by {
            if 0 <= o < off {
            } else {
            }
        }
    }
    false
}

/// The index of the first '.' in `s`, or its length when none occurs.
pub open spec fn first_dot_index(s: Seq<char>) -> int
    decreases s.len(),
{
    if s.len() == 0 {
        0
    } else if s[0] == '.' {
        0
    } else {
        1 + first_dot_index(s.skip(1))
    }
}

/// The short display name: everything before the first '.'.
pub open spec fn short_name_of(s: Seq<char>) -> Seq<char> {
    s.take(first_dot_index(s))
}

/// The first index without a '.' before it that ends the string or holds a
/// '.' is the first-dot index.
pub proof fn lemma_first_dot_index(s: Seq<char>, i: int)
    requires
        0 <= i <= s.len(),
        forall|j: int| 0 <= j < i ==> s[j] != '.',
        i == s.len() || s[i] == '.',
    ensures
        first_dot_index(s) == i,
    decreases i,
{
    if s.len() == 0 {
    } else if s[0] == '.' {
        assert(i == 0);
    } else {
        assert(i >= 1);
        let t = s.skip(1);
        assert forall|j: int| 0 <= j < i - 1 implies t[j] != '.' by {
            assert(t[j] == s[j + 1]);
        }
        assert(i - 1 == t.len() || t[i - 1] == s[i]);
        lemma_first_dot_index(t, i - 1);
    }
}

/// Takes the substring of the advertised full name up to its first '.'.
#[verifier::loop_isolation(false)]
pub fn short_name(fullname: &str) -> (r: String)
    ensures
        r@ == short_name_of(fullname@),
{
    let n = fullname.unicode_len();
    let mut i: usize = 0;
    while i < n
        invariant
            i <= n,
            n == fullname@.len(),
            forall|j: int| 0 <= j < i ==> fullname@[j] != '.',
        decreases n - i,
    {
        if fullname.get_char(i) == '.' {
            proof {
                lemma_first_dot_index(fullname@, i as int);
            }
            let prefix = fullname.substring_char(0, i);
            return prefix.to_owned();
        }
        i += 1;
    }
    proof {
        lemma_first_dot_index(fullname@, n as int);
        assert(fullname@.take(n as int) =~= fullname@);
    }
    fullname.to_owned()
}

/// The character of one decimal digit.
pub open spec fn decimal_digit(d: int) -> char {
    if d == 0 {
        '0'
    } else if d == 1 {
        '1'
    } else if d == 2 {
        '2'
    } else if d == 3 {
        '3'
    } else if d == 4 {
        '4'
    } else if d == 5 {
        '5'
    } else if d == 6 {
        '6'
    } else if d == 7 {
        '7'
    } else if d == 8 {
        '8'
    } else {
        '9'
    }
}

/// The decimal rendering of one octet, without leading zeros.
pub open spec fn decimal_of_octet(n: int) -> Seq<char> {
    if n >= 100 {
        seq![decimal_digit(n / 100), decimal_digit((n / 10) % 10), decimal_digit(n % 10)]
    } else if n >= 10 {
        seq![decimal_digit(n / 10), decimal_digit(n % 10)]
    } else {
        seq![decimal_digit(n)]
    }
}

/// Appends one decimal digit to the string.
fn append_digit(s: &mut String, d: u8)
    requires
        d < 10,
    ensures
        final(s)@ == old(s)@ + seq![decimal_digit(d as int)],
{
    proof {
        reveal_strlit("0");
        reveal_strlit("1");
        reveal_strlit("2");
        reveal_strlit("3");
        reveal_strlit("4");
        reveal_strlit("5");
        reveal_strlit("6");
        reveal_strlit("7");
        reveal_strlit("8");
        reveal_strlit("9");
    }
    if d == 0 {
        s.append("0");
    } else if d == 1 {
        s.append("1");
    } else if d == 2 {
        s.append("2");
    } else if d == 3 {
        s.append("3");
    } else if d == 4 {
        s.append("4");
    } else if d == 5 {
        s.append("5");
    } else if d == 6 {
        s.append("6");
    } else if d == 7 {
        s.append("7");
    } else if d == 8 {
        s.append("8");
    } else {
        s.append("9");
    }
    proof {
        assert(s@ =~= old(s)@ + seq![decimal_digit(d as int)]);
    }
}

/// Appends the decimal rendering of one octet to the string.
fn append_octet(s: &mut String, n: u8)
    ensures
        final(s)@ == old(s)@ + decimal_of_octet(n as int),
{
    if n >= 100 {
        append_digit(s, n / 100);
        append_digit(s, (n / 10) % 10);
        append_digit(s, n % 10);
    } else if n >= 10 {
        append_digit(s, n / 10);
        append_digit(s, n % 10);
    } else {
        append_digit(s, n);
    }
    proof {
        assert(s@ =~= old(s)@ + decimal_of_octet(n as int));
    }
}

/// The dotted-decimal form of an IPv4 address.
pub open spec fn ipv4_string(a: u8, b: u8, c: u8, d: u8) -> Seq<char> {
    decimal_of_octet(a as int) + seq!['.'] + decimal_of_octet(b as int) + seq!['.']
        + decimal_of_octet(c as int) + seq!['.'] + decimal_of_octet(d as int)
}

/// Renders an IPv4 address in dotted decimal form.
pub fn ipv4_to_string(a: u8, b: u8, c: u8, d: u8) -> (r: String)
    ensures
        r@ == ipv4_string(a, b, c, d),
{
    proof {
        reveal_strlit(".");
    }
    let mut s = String::new();
    append_octet(&mut s, a);
    s.append(".");
    append_octet(&mut s, b);
    s.append(".");
    append_octet(&mut s, c);
    s.append(".");
    append_octet(&mut s, d);
    proof {
        assert(s@ =~= ipv4_string(a, b, c, d));
    }
    s
}

} // verus!
