//! Field-local shape checks shared by the payment-method setters: the BIC
//! shape, the lexical date shape, and the masked primary-account-number shape.

use vstd::prelude::*;

verus! {

/// A decimal digit `0`..`9`.
pub open spec fn is_digit_char(c: char) -> bool {
    48 <= c as int && c as int <= 57
}

/// An ASCII letter or decimal digit.
pub open spec fn is_alnum_char(c: char) -> bool {
    is_digit_char(c) || (65 <= c as int && c as int <= 90) || (97 <= c as int && c as int <= 122)
}

/// The BIC shape: exactly 8 or 11 alphanumeric characters.
pub open spec fn bic_shape(s: Seq<char>) -> bool {
    (s.len() == 8 || s.len() == 11) && (forall|i: int| 0 <= i < s.len() ==> is_alnum_char(#[trigger] s[i]))
}

/// The lexical date shape `YYYY-MM-DD`: ten characters, digits everywhere but
/// the two hyphens. Purely lexical; calendar-invalid dates still match.
pub open spec fn date_shape(s: Seq<char>) -> bool {
    &&& s.len() == 10
    &&& (forall|i: int| 0 <= i < 10 && i != 4 && i != 7 ==> is_digit_char(#[trigger] s[i]))
    &&& s[4] == '-'
    &&& s[7] == '-'
}

/// The masked primary-account-number shape: up to 6 leading digits, one
/// literal `*`, up to 4 trailing digits. Zero digits on either side is legal.
pub open spec fn masked_pan_shape(s: Seq<char>) -> bool {
    exists|k: int|
        {
            &&& 0 <= k < s.len()
            &&& #[trigger] s[k] == '*'
            &&& k <= 6
            &&& s.len() - k - 1 <= 4
            &&& (forall|i: int| 0 <= i < s.len() && i != k ==> is_digit_char(#[trigger] s[i]))
        }
}

fn char_is_digit(c: char) -> (r: bool)
    ensures
        r == is_digit_char(c),
{
    let u = c as u32;
    48 <= u && u <= 57
}

fn char_is_alnum(c: char) -> (r: bool)
    ensures
        r == is_alnum_char(c),
{
    let u = c as u32;
    (48 <= u && u <= 57) || (65 <= u && u <= 90) || (97 <= u && u <= 122)
}

/// Decides the BIC shape.
pub fn check_bic(s: &str) -> (r: bool)
    ensures
        r == bic_shape(s@),
{
    let n = s.unicode_len();
    if n != 8 && n != 11 {
        return false;
    }
    let mut i: usize = 0;
    while i < n
        invariant
            n == s@.len(),
            i <= n,
            forall|j: int| 0 <= j < i ==> is_alnum_char(#[trigger] s@[j]),
        decreases n - i,
    {
        if !char_is_alnum(s.get_char(i)) {
            return false;
        }
        i += 1;
    }
    true
}

/// Decides the lexical date shape `YYYY-MM-DD`.
pub fn check_date(s: &str) -> (r: bool)
    ensures
        r == date_shape(s@),
{
    let n = s.unicode_len();
    if n != 10 {
        return false;
    }
    let mut i: usize = 0;
    while i < 10
        invariant
            s@.len() == 10,
            i <= 10,
            forall|j: int| 0 <= j < i && j != 4 && j != 7 ==> is_digit_char(#[trigger] s@[j]),
            i > 4 ==> s@[4] == '-',
            i > 7 ==> s@[7] == '-',
        decreases 10 - i,
    {
        let c = s.get_char(i);
        if i == 4 || i == 7 {
            if c as u32 != 45 {
                proof {
                    assert(c != '-');
                }
                return false;
            }
        } else {
            if !char_is_digit(c) {
                return false;
            }
        }
        i += 1;
    }
    true
}

/// Decides the masked primary-account-number shape.
pub fn check_masked_pan(s: &str) -> (r: bool)
    ensures
        r == masked_pan_shape(s@),
{
    let n = s.unicode_len();
    // Position of the single `*`, if one was seen so far; `n` means none yet.
    let mut star: usize = n;
    let mut i: usize = 0;
    while i < n
        invariant
            n == s@.len(),
            i <= n,
            star <= n,
            star == n ==> forall|j: int| 0 <= j < i ==> is_digit_char(#[trigger] s@[j]),
            star < n ==> star < i && s@[star as int] == '*',
            star < n ==> forall|j: int| 0 <= j < i && j != star ==> is_digit_char(#[trigger] s@[j]),
        decreases n - i,
    {
        let c = s.get_char(i);
        if c as u32 == 42 {
            proof {
                assert(c == '*');
            }
            if star != n {
                // A second asterisk: no witness position can satisfy the shape,
                // because one of the two asterisks would have to be a digit.
                proof {
                    assert(!masked_pan_shape(s@)) by {
                        if masked_pan_shape(s@) {
                            let k = choose|k: int|
                                0 <= k < s@.len() && #[trigger] s@[k] == '*' && k <= 6
                                    && s@.len() - k - 1 <= 4
                                    && (forall|j: int|
                                    0 <= j < s@.len() && j != k ==> is_digit_char(#[trigger] s@[j]));
                            assert(!is_digit_char('*'));
                            if k != star {
                                assert(is_digit_char(s@[star as int]));
                            } else {
                                assert(is_digit_char(s@[i as int]));
                            }
                        }
                    }
                }
                return false;
            }
            star = i;
        } else if !char_is_digit(c) {
            // Neither a digit nor the asterisk: no witness position fits.
            proof {
                assert(!masked_pan_shape(s@)) by {
                    if masked_pan_shape(s@) {
                        let k = choose|k: int|
                            0 <= k < s@.len() && #[trigger] s@[k] == '*' && k <= 6
                                && s@.len() - k - 1 <= 4
                                && (forall|j: int|
                                0 <= j < s@.len() && j != k ==> is_digit_char(#[trigger] s@[j]));
                        if k == i {
                            assert(s@[i as int] == '*');
                        } else {
                            assert(is_digit_char(s@[i as int]));
                        }
                    }
                }
            }
            return false;
        }
        i += 1;
    }
    if star == n {
        // No asterisk at all: every character is a digit, so no witness fits.
        proof {
            assert(!masked_pan_shape(s@)) by {
                if masked_pan_shape(s@) {
                    let k = choose|k: int|
                        0 <= k < s@.len() && #[trigger] s@[k] == '*' && k <= 6 && s@.len() - k - 1
                            <= 4
                            && (forall|j: int|
                            0 <= j < s@.len() && j != k ==> is_digit_char(#[trigger] s@[j]));
                    assert(is_digit_char(s@[k]));
                    assert(!is_digit_char('*'));
                }
            }
        }
        return false;
    }
    if star > 6 || n - star - 1 > 4 {
        // The single asterisk sits outside the allowed window; the only
        // candidate witness is its own position, which fails the bound.
        proof {
            assert(!masked_pan_shape(s@)) by {
                if masked_pan_shape(s@) {
                    let k = choose|k: int|
                        0 <= k < s@.len() && #[trigger] s@[k] == '*' && k <= 6 && s@.len() - k - 1
                            <= 4
                            && (forall|j: int|
                            0 <= j < s@.len() && j != k ==> is_digit_char(#[trigger] s@[j]));
                    assert(!is_digit_char('*'));
                    if k != star {
                        assert(is_digit_char(s@[star as int]));
                    }
                }
            }
        }
        return false;
    }
    proof {
        let k = star as int;
        assert(s@[k] == '*' && k <= 6 && s@.len() - k - 1 <= 4);
    }
    true
}

} // verus!
