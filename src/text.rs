//! Text building blocks for rendering error chains: decimal numbers,
//! left padding and line indentation.
use vstd::prelude::*;

verus! {

/// The character of a decimal digit.
pub open spec fn digit_char(d: int) -> char {
    if d == 0 {
        '0'
    } else if d == 1 {
        '1'
    } else if d == 2 {
        '2'
    } else if d == 3 {
        '3'
    } else if d == 4 {
        '4'
    } else if d == 5 {
        '5'
    } else if d == 6 {
        '6'
    } else if d == 7 {
        '7'
    } else if d == 8 {
        '8'
    } else {
        '9'
    }
}

/// The decimal notation of `n`, without leading zeros.
pub open spec fn decimal(n: nat) -> Seq<char>
    decreases n,
{
    if n < 10 {
        seq![digit_char(n as int)]
    } else {
        decimal(n / 10) + seq![digit_char((n % 10) as int)]
    }
}

/// `n` blanks.
pub open spec fn blanks(n: nat) -> Seq<char> {
    Seq::new(n, |i: int| ' ')
}

/// `s` right-aligned in a field of five characters.
pub open spec fn pad_left5(s: Seq<char>) -> Seq<char> {
    if s.len() < 5 {
        blanks((5 - s.len()) as nat) + s
    } else {
        s
    }
}

/// `s` with `cont` inserted after each line break.
pub open spec fn indent_lines(s: Seq<char>, cont: Seq<char>) -> Seq<char>
    decreases s.len(),
{
    if s.len() == 0 {
        Seq::empty()
    } else {
        indent_lines(s.drop_last(), cont) + indent_piece(s.last(), cont)
    }
}

/// What one character of the input becomes under `indent_lines`.
pub open spec fn indent_piece(c: char, cont: Seq<char>) -> Seq<char> {
    if c == '\n' {
        seq!['\n'] + cont
    } else {
        seq![c]
    }
}

/// Appends the digit `d` to `out`.
fn push_digit(out: &mut String, d: u64)
    requires
        d < 10,
    ensures
        final(out)@ == old(out)@ + seq![digit_char(d as int)],
{
    proof {
        reveal_strlit("0");
        reveal_strlit("1");
        reveal_strlit("2");
        reveal_strlit("3");
        reveal_strlit("4");
        reveal_strlit("5");
        reveal_strlit("6");
        reveal_strlit("7");
        reveal_strlit("8");
        reveal_strlit("9");
    }
    let digit: &str = if d == 0 {
        "0"
    } else if d == 1 {
        "1"
    } else if d == 2 {
        "2"
    } else if d == 3 {
        "3"
    } else if d == 4 {
        "4"
    } else if d == 5 {
        "5"
    } else if d == 6 {
        "6"
    } else if d == 7 {
        "7"
    } else if d == 8 {
        "8"
    } else {
        "9"
    };
    assert(digit@ =~= seq![digit_char(d as int)]);
    out.append(digit);
}

/// Appends the decimal notation of `n` to `out`.
pub fn push_decimal(out: &mut String, n: u64)
    ensures
        final(out)@ == old(out)@ + decimal(n as nat),
    decreases n,
{
    if n >= 10 {
        push_decimal(out, n / 10);
    }
    push_digit(out, n % 10);
    proof {
        if n >= 10 {
            assert(final(out)@ =~= old(out)@ + decimal(n as nat));
        } else {
            assert(final(out)@ =~= old(out)@ + decimal(n as nat));
        }
    }
}

/// The number of characters in the decimal notation of `n`.
fn digit_count(n: u64) -> (r: u64)
    ensures
        r == decimal(n as nat).len(),
    decreases n,
{
    if n < 10 {
        1
    } else {
        let inner = digit_count(n / 10);
        proof {
            lemma_decimal_len_bound((n / 10) as nat);
        }
        inner + 1
    }
}

/// A number has no more decimal digits than its value plus one.
proof fn lemma_decimal_len_bound(n: nat)
    ensures
        decimal(n).len() <= n + 1,
    decreases n,
{
    if n >= 10 {
        lemma_decimal_len_bound(n / 10);
    }
}

/// Appends `n` blanks to `out`.
fn push_blanks(out: &mut String, n: u64)
    ensures
        final(out)@ == old(out)@ + blanks(n as nat),
{
    let mut i: u64 = 0;
    while i < n
        invariant
            i <= n,
            out@ == old(out)@ + blanks(i as nat),
        decreases n - i,
    {
        out.append(" ");
        proof {
            reveal_strlit(" ");
            assert(" "@ =~= seq![' ']);
            assert(out@ =~= old(out)@ + blanks((i + 1) as nat));
        }
        i = i + 1;
    }
    assert(out@ =~= old(out)@ + blanks(n as nat));
}

/// Appends `n` in decimal, right-aligned in a field of five characters.
pub fn push_padded_number(out: &mut String, n: u64)
    ensures
        final(out)@ == old(out)@ + pad_left5(decimal(n as nat)),
{
    let width = digit_count(n);
    if width < 5 {
        push_blanks(out, 5 - width);
    }
    push_decimal(out, n);
    assert(final(out)@ =~= old(out)@ + pad_left5(decimal(n as nat)));
}

/// Appends `s` to `out`, inserting `cont` after each line break of `s`.
pub fn push_indented(out: &mut String, s: &str, cont: &str)
    ensures
        final(out)@ == old(out)@ + indent_lines(s@, cont@),
{
    let len = s.unicode_len();
    let mut i: usize = 0;
    while i < len
        invariant
            len == s@.len(),
            i <= len,
            out@ == old(out)@ + indent_lines(s@.subrange(0, i as int), cont@),
        decreases len - i,
    {
        let c = s.get_char(i);
        if c == '\n' {
            out.append("\n");
            out.append(cont);
        } else {
            let one = s.substring_char(i, i + 1);
            assert(one@ =~= seq![c]);
            out.append(one);
        }
        proof {
            reveal_strlit("\n");
            assert("\n"@ =~= seq!['\n']);
            let next = s@.subrange(0, i + 1);
            assert(next.drop_last() =~= s@.subrange(0, i as int));
            assert(next.last() == c);
            assert(out@ =~= old(out)@ + indent_lines(next, cont@));
        }
        i = i + 1;
    }
    assert(s@.subrange(0, len as int) =~= s@);
}

} // verus!
