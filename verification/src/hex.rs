//! Verified lowercase hexadecimal rendering of unsigned values.
//!
//! Error messages in this crate quote the offending address or offset in
//! hexadecimal.  The spec functions here define that text exactly, and the
//! executable builders are proved to produce it.

use vstd::prelude::*;
use vstd::string::*;

verus! {

/// The lowercase hexadecimal digit character for a value below 16.
pub open spec fn hex_char(d: nat) -> char {
    if d == 0 {
        '0'
    } else if d == 1 {
        '1'
    } else if d == 2 {
        '2'
    } else if d == 3 {
        '3'
    } else if d == 4 {
        '4'
    } else if d == 5 {
        '5'
    } else if d == 6 {
        '6'
    } else if d == 7 {
        '7'
    } else if d == 8 {
        '8'
    } else if d == 9 {
        '9'
    } else if d == 10 {
        'a'
    } else if d == 11 {
        'b'
    } else if d == 12 {
        'c'
    } else if d == 13 {
        'd'
    } else if d == 14 {
        'e'
    } else {
        'f'
    }
}

/// The hexadecimal digits of `n`, most significant first, without leading
/// zeros (just "0" for zero itself).
pub open spec fn hex_digits(n: nat) -> Seq<char>
    decreases n,
{
    if n < 16 {
        seq![hex_char(n)]
    } else {
        hex_digits(n / 16).push(hex_char(n % 16))
    }
}

/// `hex_digits(n)`, left-padded with '0' to at least eight digits: the shape
/// of a 32-bit address quoted in an error message.
pub open spec fn hex_pad8(n: nat) -> Seq<char> {
    if hex_digits(n).len() >= 8 {
        hex_digits(n)
    } else {
        Seq::new((8 - hex_digits(n).len()) as nat, |i: int| '0') + hex_digits(n)
    }
}

/// Sixteen to the power `k`; used only to bound the digit count.
spec fn pow16(k: nat) -> nat
    decreases k,
{
    if k == 0 {
        1
    } else {
        16 * pow16((k - 1) as nat)
    }
}

proof fn lemma_hex_digits_len_bounded(n: nat, k: nat)
    requires
        1 <= k,
        n < pow16(k),
    ensures
        hex_digits(n).len() <= k,
    decreases n,
{
    if n < 16 {
    } else {
        if k == 1 {
            assert(pow16(1) == 16);
            assert(false);
        }
        assert(n / 16 < pow16((k - 1) as nat)) by (nonlinear_arith)
            requires
                n < 16 * pow16((k - 1) as nat),
                n >= 16,
        ;
        lemma_hex_digits_len_bounded(n / 16, (k - 1) as nat);
    }
}

fn append_hex_char(out: &mut String, d: usize)
    requires
        d < 16,
    ensures
        final(out)@ == old(out)@ + seq![hex_char(d as nat)],
{
    match d {
        0 => {
            out.append("0");
            proof {
                reveal_strlit("0");
                assert(out@ =~= old(out)@ + seq![hex_char(d as nat)]);
            }
        },
        1 => {
            out.append("1");
            proof {
                reveal_strlit("1");
                assert(out@ =~= old(out)@ + seq![hex_char(d as nat)]);
            }
        },
        2 => {
            out.append("2");
            proof {
                reveal_strlit("2");
                assert(out@ =~= old(out)@ + seq![hex_char(d as nat)]);
            }
        },
        3 => {
            out.append("3");
            proof {
                reveal_strlit("3");
                assert(out@ =~= old(out)@ + seq![hex_char(d as nat)]);
            }
        },
        4 => {
            out.append("4");
            proof {
                reveal_strlit("4");
                assert(out@ =~= old(out)@ + seq![hex_char(d as nat)]);
            }
        },
        5 => {
            out.append("5");
            proof {
                reveal_strlit("5");
                assert(out@ =~= old(out)@ + seq![hex_char(d as nat)]);
            }
        },
        6 => {
            out.append("6");
            proof {
                reveal_strlit("6");
                assert(out@ =~= old(out)@ + seq![hex_char(d as nat)]);
            }
        },
        7 => {
            out.append("7");
            proof {
                reveal_strlit("7");
                assert(out@ =~= old(out)@ + seq![hex_char(d as nat)]);
            }
        },
        8 => {
            out.append("8");
            proof {
                reveal_strlit("8");
                assert(out@ =~= old(out)@ + seq![hex_char(d as nat)]);
            }
        },
        9 => {
            out.append("9");
            proof {
                reveal_strlit("9");
                assert(out@ =~= old(out)@ + seq![hex_char(d as nat)]);
            }
        },
        10 => {
            out.append("a");
            proof {
                reveal_strlit("a");
                assert(out@ =~= old(out)@ + seq![hex_char(d as nat)]);
            }
        },
        11 => {
            out.append("b");
            proof {
                reveal_strlit("b");
                assert(out@ =~= old(out)@ + seq![hex_char(d as nat)]);
            }
        },
        12 => {
            out.append("c");
            proof {
                reveal_strlit("c");
                assert(out@ =~= old(out)@ + seq![hex_char(d as nat)]);
            }
        },
        13 => {
            out.append("d");
            proof {
                reveal_strlit("d");
                assert(out@ =~= old(out)@ + seq![hex_char(d as nat)]);
            }
        },
        14 => {
            out.append("e");
            proof {
                reveal_strlit("e");
                assert(out@ =~= old(out)@ + seq![hex_char(d as nat)]);
            }
        },
        _ => {
            out.append("f");
            proof {
                reveal_strlit("f");
                assert(out@ =~= old(out)@ + seq![hex_char(d as nat)]);
            }
        },
    }
}

/// Appends the hexadecimal digits of `n`, without leading zeros, to `out`.
pub fn append_hex(out: &mut String, n: usize)
    ensures
        final(out)@ == old(out)@ + hex_digits(n as nat),
    decreases n,
{
    if n >= 16 {
        append_hex(out, n / 16);
        append_hex_char(out, n % 16);
        proof {
            assert(out@ =~= old(out)@ + hex_digits(n as nat));
        }
    } else {
        append_hex_char(out, n);
    }
}

/// The number of digits `append_hex` would write for `n`.
fn hex_width(n: usize) -> (c: usize)
    ensures
        c == hex_digits(n as nat).len(),
        1 <= c <= 16,
    decreases n,
{
    if n < 16 {
        1
    } else {
        let rest = hex_width(n / 16);
        proof {
            assert(pow16(16) == 0x1_0000_0000_0000_0000) by {
                reveal_with_fuel(pow16, 17);
            }
            assert((n as nat) < pow16(16));
            lemma_hex_digits_len_bounded(n as nat, 16);
        }
        rest + 1
    }
}

fn append_zeros(out: &mut String, k: usize)
    ensures
        final(out)@ == old(out)@ + Seq::new(k as nat, |i: int| '0'),
{
    let mut j: usize = 0;
    while j < k
        invariant
            j <= k,
            out@ == old(out)@ + Seq::new(j as nat, |i: int| '0'),
        decreases k - j,
    {
        out.append("0");
        j = j + 1;
        proof {
            reveal_strlit("0");
            assert(out@ =~= old(out)@ + Seq::new(j as nat, |i: int| '0'));
        }
    }
}

/// Appends the hexadecimal digits of `n`, left-padded with '0' to at least
/// eight digits, to `out`.
pub fn append_hex_pad8(out: &mut String, n: usize)
    ensures
        final(out)@ == old(out)@ + hex_pad8(n as nat),
{
    let w = hex_width(n);
    if w < 8 {
        append_zeros(out, 8 - w);
    }
    append_hex(out, n);
    proof {
        assert(out@ =~= old(out)@ + hex_pad8(n as nat));
    }
}

} // verus!
