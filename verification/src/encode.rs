//! The stable textual encoding of a concrete identity.
//!
//! A [`LongId`] encodes as the generic name followed, when arguments are
//! present, by the comma-separated encodings of the arguments in angle
//! brackets: a type argument by its concrete name, a value argument in
//! decimal, a user-type tag behind the marker `ut@`.  The encoding is a pure
//! function of the long id, so the same identity always encodes identically —
//! within a session and across runs — which makes it fit for cache keys in
//! diagnostics and for reproducible builds.

use vstd::prelude::*;

use crate::program::GenericArg;
use crate::program::GenericArgView;
use crate::program::LongId;
use crate::program::LongIdView;
use crate::program::args_view;

verus! {

/// The character of one decimal digit.
pub open spec fn spec_digit_char(d: int) -> char {
    if d == 0 {
        '0'
    } else if d == 1 {
        '1'
    } else if d == 2 {
        '2'
    } else if d == 3 {
        '3'
    } else if d == 4 {
        '4'
    } else if d == 5 {
        '5'
    } else if d == 6 {
        '6'
    } else if d == 7 {
        '7'
    } else if d == 8 {
        '8'
    } else {
        '9'
    }
}

/// The decimal digits of a natural number, most significant first.
pub open spec fn spec_nat_decimal(n: nat) -> Seq<char>
    decreases n,
{
    if n < 10 {
        seq![spec_digit_char(n as int)]
    } else {
        spec_nat_decimal(n / 10).push(spec_digit_char((n % 10) as int))
    }
}

/// The decimal rendering of an integer, with a leading minus sign when it is
/// negative.
pub open spec fn spec_value_decimal(v: int) -> Seq<char> {
    if v < 0 {
        seq!['-'] + spec_nat_decimal((-v) as nat)
    } else {
        spec_nat_decimal(v as nat)
    }
}

/// The encoding of one generic argument.
pub open spec fn spec_encode_arg(a: GenericArgView) -> Seq<char> {
    match a {
        GenericArgView::Type(name) => name,
        GenericArgView::Value(v) => spec_value_decimal(v),
        GenericArgView::UserType(name) => seq!['u', 't', '@'] + name,
    }
}

/// The encoding of an argument list, separated by `", "`.
pub open spec fn spec_encode_args(args: Seq<GenericArgView>) -> Seq<char>
    decreases args.len(),
{
    if args.len() == 0 {
        Seq::empty()
    } else if args.len() == 1 {
        spec_encode_arg(args[0])
    } else {
        spec_encode_args(args.drop_last()) + seq![',', ' '] + spec_encode_arg(args.last())
    }
}

/// The encoding of a whole long id.
pub open spec fn spec_encode_long_id(id: LongIdView) -> Seq<char> {
    if id.args.len() == 0 {
        id.generic_id
    } else {
        id.generic_id + seq!['<'] + spec_encode_args(id.args) + seq!['>']
    }
}

/// Appends one decimal digit.
fn push_digit(s: &mut String, d: u128)
    requires
        d < 10,
    ensures
        final(s)@ == old(s)@.push(spec_digit_char(d as int)),
{
    if d == 0 {
        proof {
            reveal_strlit("0");
        }
        s.append("0");
        proof {
            assert(s@ =~= old(s)@.push('0'));
        }
    } else if d == 1 {
        proof {
            reveal_strlit("1");
        }
        s.append("1");
        proof {
            assert(s@ =~= old(s)@.push('1'));
        }
    } else if d == 2 {
        proof {
            reveal_strlit("2");
        }
        s.append("2");
        proof {
            assert(s@ =~= old(s)@.push('2'));
        }
    } else if d == 3 {
        proof {
            reveal_strlit("3");
        }
        s.append("3");
        proof {
            assert(s@ =~= old(s)@.push('3'));
        }
    } else if d == 4 {
        proof {
            reveal_strlit("4");
        }
        s.append("4");
        proof {
            assert(s@ =~= old(s)@.push('4'));
        }
    } else if d == 5 {
        proof {
            reveal_strlit("5");
        }
        s.append("5");
        proof {
            assert(s@ =~= old(s)@.push('5'));
        }
    } else if d == 6 {
        proof {
            reveal_strlit("6");
        }
        s.append("6");
        proof {
            assert(s@ =~= old(s)@.push('6'));
        }
    } else if d == 7 {
        proof {
            reveal_strlit("7");
        }
        s.append("7");
        proof {
            assert(s@ =~= old(s)@.push('7'));
        }
    } else if d == 8 {
        proof {
            reveal_strlit("8");
        }
        s.append("8");
        proof {
            assert(s@ =~= old(s)@.push('8'));
        }
    } else {
        proof {
            reveal_strlit("9");
        }
        s.append("9");
        proof {
            assert(s@ =~= old(s)@.push('9'));
        }
    }
}

/// Appends the decimal digits of a natural number.
fn append_decimal(s: &mut String, n: u128)
    ensures
        final(s)@ == old(s)@ + spec_nat_decimal(n as nat),
    decreases n,
{
    if n < 10 {
        push_digit(s, n);
        proof {
            assert(s@ =~= old(s)@ + spec_nat_decimal(n as nat));
        }
    } else {
        append_decimal(s, n / 10);
        push_digit(s, n % 10);
        proof {
            assert(s@ =~= old(s)@ + spec_nat_decimal(n as nat));
        }
    }
}

/// Appends the decimal rendering of a value argument.
fn append_value(s: &mut String, v: i128)
    ensures
        final(s)@ == old(s)@ + spec_value_decimal(v as int),
{
    if v < 0 {
        proof {
            reveal_strlit("-");
        }
        s.append("-");
        let m: u128 = ((-(v + 1)) as u128) + 1;
        proof {
            assert(m as int == -(v as int));
        }
        append_decimal(s, m);
        proof {
            assert(s@ =~= old(s)@ + spec_value_decimal(v as int));
        }
    } else {
        append_decimal(s, v as u128);
    }
}

/// Appends the encoding of one generic argument.
fn append_arg(s: &mut String, a: &GenericArg)
    ensures
        final(s)@ == old(s)@ + spec_encode_arg(a@),
{
    match a {
        GenericArg::Type(ty) => {
            s.append(ty.name.as_str());
        },
        GenericArg::Value(v) => {
            append_value(s, *v);
        },
        GenericArg::UserType(name) => {
            proof {
                reveal_strlit("ut@");
            }
            s.append("ut@");
            s.append(name.as_str());
            proof {
                assert(s@ =~= old(s)@ + (seq!['u', 't', '@'] + name@));
            }
        },
    }
}

/// Appends the comma-separated encodings of an argument list.
fn append_args(s: &mut String, args: &Vec<GenericArg>)
    ensures
        final(s)@ == old(s)@ + spec_encode_args(args_view(args@)),
{
    let ghost av = args_view(args@);
    let mut i: usize = 0;
    while i < args.len()
        invariant
            i <= args@.len(),
            av == args_view(args@),
            av.len() == args@.len(),
            s@ == old(s)@ + spec_encode_args(av.take(i as int)),
        decreases args@.len() - i,
    {
        proof {
            assert(av[i as int] == args@[i as int]@);
            assert(av.take(i + 1).drop_last() =~= av.take(i as int));
        }
        if i > 0 {
            proof {
                reveal_strlit(", ");
            }
            s.append(", ");
            proof {
                assert(", "@ =~= seq![',', ' ']);
            }
        }
        append_arg(s, &args[i]);
        proof {
            if i == 0 {
                assert(s@ =~= old(s)@ + spec_encode_args(av.take(i + 1)));
            } else {
                assert(s@ =~= old(s)@ + spec_encode_args(av.take(i + 1)));
            }
        }
        i = i + 1;
    }
    proof {
        assert(av.take(av.len() as int) =~= av);
        assert(s@ =~= old(s)@ + spec_encode_args(av));
    }
}

impl LongId {
    /// The stable, deterministic textual encoding of this identity: the same
    /// long id always encodes to the same text.
    pub fn encode(&self) -> (r: String)
        ensures
            r@ == spec_encode_long_id(self@),
    {
        let mut s = self.generic_id.name.clone();
        if self.args.len() == 0 {
            return s;
        }
        proof {
            reveal_strlit("<");
            reveal_strlit(">");
        }
        s.append("<");
        append_args(&mut s, &self.args);
        s.append(">");
        proof {
            assert(s@ =~= spec_encode_long_id(self@));
        }
        s
    }
}

} // verus!
