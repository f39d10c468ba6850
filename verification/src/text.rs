//! Small verified text helpers: ASCII case folding, file-name extensions,
//! string equality, and decimal rendering of counters.

use vstd::prelude::*;

verus! {

/// ASCII case folding of one character: an upper-case ASCII letter becomes
/// the corresponding lower-case letter, every other character is unchanged.
pub open spec fn spec_lower_char(c: char) -> char {
    match c {
        'A' => 'a',
        'B' => 'b',
        'C' => 'c',
        'D' => 'd',
        'E' => 'e',
        'F' => 'f',
        'G' => 'g',
        'H' => 'h',
        'I' => 'i',
        'J' => 'j',
        'K' => 'k',
        'L' => 'l',
        'M' => 'm',
        'N' => 'n',
        'O' => 'o',
        'P' => 'p',
        'Q' => 'q',
        'R' => 'r',
        'S' => 's',
        'T' => 't',
        'U' => 'u',
        'V' => 'v',
        'W' => 'w',
        'X' => 'x',
        'Y' => 'y',
        'Z' => 'z',
        _ => c,
    }
}

/// ASCII case folding of a character sequence, character by character.
pub open spec fn spec_lower(s: Seq<char>) -> Seq<char> {
    s.map_values(|c: char| spec_lower_char(c))
}

/// Folds one character to lower case as `spec_lower_char` describes.
pub fn lower_char(c: char) -> (r: char)
    ensures
        r == spec_lower_char(c),
{
    match c {
        'A' => 'a',
        'B' => 'b',
        'C' => 'c',
        'D' => 'd',
        'E' => 'e',
        'F' => 'f',
        'G' => 'g',
        'H' => 'h',
        'I' => 'i',
        'J' => 'j',
        'K' => 'k',
        'L' => 'l',
        'M' => 'm',
        'N' => 'n',
        'O' => 'o',
        'P' => 'p',
        'Q' => 'q',
        'R' => 'r',
        'S' => 's',
        'T' => 't',
        'U' => 'u',
        'V' => 'v',
        'W' => 'w',
        'X' => 'x',
        'Y' => 'y',
        'Z' => 'z',
        _ => c,
    }
}

/// Whether the two strings are equal.
pub fn str_eq(a: &str, b: &str) -> (r: bool)
    ensures
        r == (a@ == b@),
{
    let a_len = a.unicode_len();
    let b_len = b.unicode_len();
    if a_len != b_len {
        assert(a@.len() != b@.len());
        return false;
    }
    let mut i: usize = 0;
    while i < a_len
        invariant
            a_len == a@.len(),
            b_len == b@.len(),
            a_len == b_len,
            i <= a_len,
            forall|j: int| 0 <= j < i ==> a@[j] == b@[j],
        decreases a_len - i,
    {
        if a.get_char(i) != b.get_char(i) {
            return false;
        }
        i += 1;
    }
    proof {
        assert(a@ =~= b@);
    }
    true
}

/// Index of the last `'.'` in `s`, or `-1` if there is none.
pub open spec fn spec_last_dot(s: Seq<char>) -> int
    decreases s.len(),
{
    if s.len() == 0 {
        -1
    } else if s[s.len() - 1] == '.' {
        s.len() - 1
    } else {
        spec_last_dot(s.drop_last())
    }
}

/// `spec_last_dot` names the greatest index holding a `'.'`, or `-1` when no
/// character of `s` is a `'.'`.
pub proof fn lemma_last_dot(s: Seq<char>)
    ensures
        -1 <= spec_last_dot(s) < s.len(),
        spec_last_dot(s) == -1 ==> forall|j: int| 0 <= j < s.len() ==> s[j] != '.',
        spec_last_dot(s) >= 0 ==> s[spec_last_dot(s)] == '.',
        forall|j: int| spec_last_dot(s) < j < s.len() ==> s[j] != '.',
    decreases s.len(),
{
    if s.len() > 0 && s[s.len() - 1] != '.' {
        lemma_last_dot(s.drop_last());
        assert forall|j: int| 0 <= j < s.len() - 1 implies s.drop_last()[j] == s[j] by {}
    }
}

/// The extension of a file name: the characters after the last `'.'`, if
/// that dot stands at index one or later; the empty sequence otherwise (no
/// dot at all, a leading dot only, or a trailing dot).
pub open spec fn spec_ext_of(s: Seq<char>) -> Seq<char> {
    let d = spec_last_dot(s);
    if d >= 1 {
        s.subrange(d + 1, s.len() as int)
    } else {
        Seq::<char>::empty()
    }
}

/// Whether the extension of the file name `name`, folded to lower case,
/// equals the configured extension `ext` (given in lower case).
pub fn extension_matches(name: &str, ext: &str) -> (r: bool)
    ensures
        r == (spec_lower(spec_ext_of(name@)) == ext@),
{
    let n_len = name.unicode_len();
    let e_len = ext.unicode_len();

    // Find the last dot of `name`, scanning from the end.
    let mut dot: usize = 0;
    let mut found = false;
    let mut i: usize = n_len;
    while i > 0
        invariant
            n_len == name@.len(),
            i <= n_len,
            !found ==> forall|j: int| i <= j < n_len ==> name@[j] != '.',
            found ==> {
                &&& i <= dot < n_len
                &&& name@[dot as int] == '.'
                &&& forall|j: int| dot < j < n_len ==> name@[j] != '.'
            },
        decreases i,
    {
        if !found {
            let c = name.get_char(i - 1);
            if c == '.' {
                dot = i - 1;
                found = true;
            }
        }
        i -= 1;
    }

    proof {
        lemma_last_dot(name@);
        let d = spec_last_dot(name@);
        if found {
            // Both `dot` and `spec_last_dot` name the greatest dot index.
            assert(name@[dot as int] == '.');
            if d < dot as int {
                // the lemma says everything after `d` is not a dot
                assert(d < dot < name@.len());
                assert(name@[dot as int] != '.');
                assert(false);
            } else if d > dot as int {
                // the loop found no dot after `dot`
                assert(dot < d < name@.len());
                assert(name@[d] == '.');
                assert(name@[d] != '.');
                assert(false);
            }
            assert(d == dot as int);
        } else {
            // the loop saw every character and found no dot
            if d >= 0 {
                assert(0 <= d < name@.len());
                assert(name@[d] == '.');
                assert(name@[d] != '.');
                assert(false);
            }
            assert(d == -1);
        }
    }

    if !found || dot == 0 {
        // No extension: it matches exactly the empty configured extension.
        proof {
            assert(spec_ext_of(name@) =~= Seq::<char>::empty());
            assert(spec_lower(spec_ext_of(name@)) =~= Seq::<char>::empty());
            if e_len == 0 {
                assert(ext@ =~= Seq::<char>::empty());
            } else {
                assert(spec_lower(spec_ext_of(name@)).len() != ext@.len());
            }
        }
        return e_len == 0;
    }

    let ghost ext_seq = spec_ext_of(name@);
    assert(ext_seq =~= name@.subrange(dot + 1, n_len as int));

    if n_len - dot - 1 != e_len {
        assert(spec_lower(ext_seq).len() == ext_seq.len());
        return false;
    }

    // Compare the folded extension characters with `ext`.
    let mut k: usize = 0;
    while k < e_len
        invariant
            n_len == name@.len(),
            e_len == ext@.len(),
            dot < n_len,
            n_len - dot - 1 == e_len,
            ext_seq == spec_ext_of(name@),
            ext_seq =~= name@.subrange(dot + 1, n_len as int),
            k <= e_len,
            forall|j: int| 0 <= j < k ==> spec_lower_char(ext_seq[j]) == ext@[j],
        decreases e_len - k,
    {
        let c = lower_char(name.get_char(dot + 1 + k));
        if c != ext.get_char(k) {
            assert(spec_lower(ext_seq)[k as int] != ext@[k as int]);
            return false;
        }
        k += 1;
    }
    proof {
        assert(spec_lower(ext_seq) =~= ext@);
    }
    true
}

/// The decimal digit character for `d`.
pub open spec fn spec_digit(d: nat) -> char {
    if d == 0 {
        '0'
    } else if d == 1 {
        '1'
    } else if d == 2 {
        '2'
    } else if d == 3 {
        '3'
    } else if d == 4 {
        '4'
    } else if d == 5 {
        '5'
    } else if d == 6 {
        '6'
    } else if d == 7 {
        '7'
    } else if d == 8 {
        '8'
    } else {
        '9'
    }
}

/// The usual decimal rendering of `n`, most significant digit first, with no
/// leading zeroes (and `0` rendered as `"0"`).
pub open spec fn spec_decimal(n: nat) -> Seq<char>
    decreases n,
{
    if n < 10 {
        seq![spec_digit(n)]
    } else {
        spec_decimal(n / 10).push(spec_digit(n % 10))
    }
}

/// One decimal digit as a string.
fn digit_str(d: u64) -> (r: String)
    requires
        d < 10,
    ensures
        r@ =~= seq![spec_digit(d as nat)],
{
    proof {
        reveal_strlit("0");
        reveal_strlit("1");
        reveal_strlit("2");
        reveal_strlit("3");
        reveal_strlit("4");
        reveal_strlit("5");
        reveal_strlit("6");
        reveal_strlit("7");
        reveal_strlit("8");
        reveal_strlit("9");
    }
    match d {
        0 => String::from_str("0"),
        1 => String::from_str("1"),
        2 => String::from_str("2"),
        3 => String::from_str("3"),
        4 => String::from_str("4"),
        5 => String::from_str("5"),
        6 => String::from_str("6"),
        7 => String::from_str("7"),
        8 => String::from_str("8"),
        _ => String::from_str("9"),
    }
}

/// Renders `n` in decimal, as `spec_decimal` describes.
pub fn decimal_string(n: u64) -> (r: String)
    ensures
        r@ == spec_decimal(n as nat),
    decreases n,
{
    if n < 10 {
        digit_str(n)
    } else {
        let mut s = decimal_string(n / 10);
        let d = digit_str(n % 10);
        s.append(d.as_str());
        proof {
            assert(s@ =~= spec_decimal(n as nat));
        }
        s
    }
}

} // verus!
