//! Character-sequence building blocks: runs of one character, decimal digit
//! strings, zero padding, and counting occurrences of a character.

use vstd::prelude::*;

verus! {

/// A run of `n` copies of the character `c`.
pub open spec fn char_rep(c: char, n: nat) -> Seq<char> {
    Seq::new(n, |i: int| c)
}

/// Builds the run `char_rep(c, n)` from a one-character piece.
pub fn repeat_piece(piece: &str, n: usize) -> (r: String)
    requires
        piece@.len() == 1,
    ensures
        r@ == char_rep(piece@[0], n as nat),
{
    let mut s = String::new();
    let mut i: usize = 0;
    proof {
        assert(s@ =~= char_rep(piece@[0], 0));
    }
    while i < n
        invariant
            i <= n,
            piece@.len() == 1,
            s@ == char_rep(piece@[0], i as nat),
        decreases n - i,
    {
        s.append(piece);
        i = i + 1;
        proof {
            assert(s@ =~= char_rep(piece@[0], i as nat));
        }
    }
    s
}

/// The decimal digit character for `d` in `0..=9`.
pub open spec fn digit_char(d: int) -> char {
    if d == 0 {
        '0'
    } else if d == 1 {
        '1'
    } else if d == 2 {
        '2'
    } else if d == 3 {
        '3'
    } else if d == 4 {
        '4'
    } else if d == 5 {
        '5'
    } else if d == 6 {
        '6'
    } else if d == 7 {
        '7'
    } else if d == 8 {
        '8'
    } else {
        '9'
    }
}

/// A one-character piece holding the digit character for `d`.
pub fn digit_piece(d: u32) -> (r: &'static str)
    requires
        d < 10,
    ensures
        r@ == seq![digit_char(d as int)],
{
    proof {
        reveal_strlit("0");
        reveal_strlit("1");
        reveal_strlit("2");
        reveal_strlit("3");
        reveal_strlit("4");
        reveal_strlit("5");
        reveal_strlit("6");
        reveal_strlit("7");
        reveal_strlit("8");
        reveal_strlit("9");
    }
    if d == 0 {
        proof { assert("0"@ =~= seq![digit_char(0)]); }
        "0"
    } else if d == 1 {
        proof { assert("1"@ =~= seq![digit_char(1)]); }
        "1"
    } else if d == 2 {
        proof { assert("2"@ =~= seq![digit_char(2)]); }
        "2"
    } else if d == 3 {
        proof { assert("3"@ =~= seq![digit_char(3)]); }
        "3"
    } else if d == 4 {
        proof { assert("4"@ =~= seq![digit_char(4)]); }
        "4"
    } else if d == 5 {
        proof { assert("5"@ =~= seq![digit_char(5)]); }
        "5"
    } else if d == 6 {
        proof { assert("6"@ =~= seq![digit_char(6)]); }
        "6"
    } else if d == 7 {
        proof { assert("7"@ =~= seq![digit_char(7)]); }
        "7"
    } else if d == 8 {
        proof { assert("8"@ =~= seq![digit_char(8)]); }
        "8"
    } else {
        proof { assert("9"@ =~= seq![digit_char(9)]); }
        "9"
    }
}

/// The decimal digit characters of `n`, most significant first, no padding.
pub open spec fn dec_chars(n: nat) -> Seq<char>
    decreases n,
{
    if n < 10 {
        seq![digit_char(n as int)]
    } else {
        dec_chars(n / 10) + seq![digit_char((n % 10) as int)]
    }
}

/// Builds the decimal digit string of `n`.
pub fn dec_string(n: u32) -> (r: String)
    ensures
        r@ == dec_chars(n as nat),
    decreases n,
{
    if n < 10 {
        let mut s = String::new();
        s.append(digit_piece(n));
        proof {
            assert(s@ =~= dec_chars(n as nat));
        }
        s
    } else {
        let mut s = dec_string(n / 10);
        s.append(digit_piece(n % 10));
        s
    }
}

/// `s` padded on the left with zeros to at least `w` characters.
pub open spec fn zero_pad(s: Seq<char>, w: nat) -> Seq<char> {
    if s.len() >= w {
        s
    } else {
        char_rep('0', (w - s.len()) as nat) + s
    }
}

/// The decimal of `n`, zero-padded on the left to at least `w` characters.
pub open spec fn padded_dec(n: nat, w: nat) -> Seq<char> {
    zero_pad(dec_chars(n), w)
}

/// Builds the zero-padded decimal string of `n`.
pub fn padded_dec_string(n: u32, w: usize) -> (r: String)
    ensures
        r@ == padded_dec(n as nat, w as nat),
{
    let s = dec_string(n);
    let len = s.as_str().unicode_len();
    if len >= w {
        s
    } else {
        proof {
            reveal_strlit("0");
        }
        let mut z = repeat_piece("0", w - len);
        proof {
            assert(char_rep("0"@[0], (w - len) as nat) =~= char_rep('0', (w - len) as nat));
        }
        z.append(s.as_str());
        z
    }
}

/// `10^k`.
pub open spec fn ten_pow(k: nat) -> nat
    decreases k,
{
    if k == 0 {
        1
    } else {
        10 * ten_pow((k - 1) as nat)
    }
}

/// A number below `10^k` has at most `k` decimal digits.
pub proof fn lemma_dec_chars_len(n: nat, k: nat)
    requires
        1 <= k,
        n < ten_pow(k),
    ensures
        dec_chars(n).len() <= k,
    decreases k,
{
    if n >= 10 {
        assert(k >= 2) by {
            if k == 1 {
                assert(ten_pow(1) == 10);
            }
        }
        assert(n / 10 < ten_pow((k - 1) as nat)) by (nonlinear_arith)
            requires
                n < 10 * ten_pow((k - 1) as nat),
                n >= 10,
        {
        }
        lemma_dec_chars_len(n / 10, (k - 1) as nat);
    }
}

/// Every `u32` has at most 10 decimal digits.
pub proof fn lemma_dec_chars_len_u32(n: u32)
    ensures
        dec_chars(n as nat).len() <= 10,
{
    assert(ten_pow(0) == 1);
    assert(ten_pow(1) == 10);
    assert(ten_pow(2) == 100);
    assert(ten_pow(3) == 1000);
    assert(ten_pow(4) == 10000);
    assert(ten_pow(5) == 100000);
    assert(ten_pow(6) == 1000000);
    assert(ten_pow(7) == 10000000);
    assert(ten_pow(8) == 100000000);
    assert(ten_pow(9) == 1000000000);
    assert(ten_pow(10) == 10000000000);
    lemma_dec_chars_len(n as nat, 10);
}

/// How many times the character `c` occurs in `s`.
pub open spec fn count_char(s: Seq<char>, c: char) -> nat
    decreases s.len(),
{
    if s.len() == 0 {
        0
    } else {
        count_char(s.drop_last(), c) + (if s.last() == c {
            1nat
        } else {
            0nat
        })
    }
}

/// Occurrence counts add up over concatenation.
pub proof fn lemma_count_concat(a: Seq<char>, b: Seq<char>, c: char)
    ensures
        count_char(a + b, c) == count_char(a, c) + count_char(b, c),
    decreases b.len(),
{
    if b.len() == 0 {
        assert(a + b =~= a);
    } else {
        assert((a + b).drop_last() =~= a + b.drop_last());
        assert((a + b).last() == b.last());
        lemma_count_concat(a, b.drop_last(), c);
    }
}

/// A sequence with no occurrence of `c` counts zero.
pub proof fn lemma_count_absent(s: Seq<char>, c: char)
    requires
        forall|i: int| 0 <= i < s.len() ==> s[i] != c,
    ensures
        count_char(s, c) == 0,
    decreases s.len(),
{
    if s.len() > 0 {
        lemma_count_absent(s.drop_last(), c);
    }
}

/// No line break occurs anywhere in `s`.
pub open spec fn no_newline(s: Seq<char>) -> bool {
    forall|i: int| 0 <= i < s.len() ==> s[i] != '\n'
}

/// Concatenation keeps sequences free of line breaks.
pub proof fn lemma_no_newline_concat(a: Seq<char>, b: Seq<char>)
    requires
        no_newline(a),
        no_newline(b),
    ensures
        no_newline(a + b),
{
    assert forall|i: int| 0 <= i < (a + b).len() implies (a + b)[i] != '\n' by {
        if i < a.len() {
            assert((a + b)[i] == a[i]);
        } else {
            assert((a + b)[i] == b[i - a.len()]);
        }
    }
}

/// A run of a character other than the line break has no line break.
pub proof fn lemma_no_newline_rep(c: char, n: nat)
    requires
        c != '\n',
    ensures
        no_newline(char_rep(c, n)),
{
}

/// A sequence free of line breaks counts zero of them.
pub proof fn lemma_no_newline_count(s: Seq<char>)
    requires
        no_newline(s),
    ensures
        count_char(s, '\n') == 0,
{
    lemma_count_absent(s, '\n');
}

/// Padding to width `w` gives exactly `w` characters when the digits fit.
pub proof fn lemma_padded_dec_len(n: nat, w: nat)
    requires
        dec_chars(n).len() <= w,
    ensures
        padded_dec(n, w).len() == w,
{
}

/// A zero-padded decimal has no line break.
pub proof fn lemma_no_newline_padded_dec(n: nat, w: nat)
    ensures
        no_newline(padded_dec(n, w)),
{
    lemma_dec_chars_no_newline(n);
    lemma_no_newline_rep('0', if dec_chars(n).len() >= w {
        0nat
    } else {
        (w - dec_chars(n).len()) as nat
    });
    if dec_chars(n).len() < w {
        lemma_no_newline_concat(char_rep('0', (w - dec_chars(n).len()) as nat), dec_chars(n));
    }
}

/// The digits of a decimal never include a line break.
pub proof fn lemma_dec_chars_no_newline(n: nat)
    ensures
        forall|i: int| 0 <= i < dec_chars(n).len() ==> dec_chars(n)[i] != '\n',
    decreases n,
{
    if n >= 10 {
        lemma_dec_chars_no_newline(n / 10);
        let a = dec_chars(n / 10);
        let b = seq![digit_char((n % 10) as int)];
        assert forall|i: int| 0 <= i < dec_chars(n).len() implies dec_chars(n)[i] != '\n' by {
            assert(dec_chars(n) == a + b);
            if i < a.len() {
                assert(dec_chars(n)[i] == a[i]);
            } else {
                assert(dec_chars(n)[i] == b[i - a.len()]);
            }
        }
    }
}

} // verus!
