use vstd::prelude::*;

verus! {

/// The character of a decimal digit.
pub open spec fn digit_char(d: nat) -> char {
    if d == 0 {
        '0'
    } else if d == 1 {
        '1'
    } else if d == 2 {
        '2'
    } else if d == 3 {
        '3'
    } else if d == 4 {
        '4'
    } else if d == 5 {
        '5'
    } else if d == 6 {
        '6'
    } else if d == 7 {
        '7'
    } else if d == 8 {
        '8'
    } else {
        '9'
    }
}

/// The decimal text of `n`, without leading zeros.
pub open spec fn decimal(n: nat) -> Seq<char>
    decreases n,
{
    if n < 10 {
        seq![digit_char(n)]
    } else {
        decimal(n / 10).push(digit_char(n % 10))
    }
}

/// The dotted-quad text of the address whose first three octets are `a`, `b`
/// and `c` and whose last octet is zero.
pub open spec fn anonymized_text(a: u8, b: u8, c: u8) -> Seq<char> {
    decimal(a as nat) + "."@ + decimal(b as nat) + "."@ + decimal(c as nat) + ".0"@
}

/// An IPv4 address with its last octet set to zero, in dotted-quad form.
#[derive(PartialEq, Debug)]
pub struct AnonymousIpv4(String);

impl View for AnonymousIpv4 {
    type V = Seq<char>;

    closed spec fn view(&self) -> Seq<char> {
        self.0@
    }
}

impl AnonymousIpv4 {
    /// The text is that of some address whose last octet is zero.
    #[verifier::type_invariant]
    spec fn wf(self) -> bool {
        exists|a: u8, b: u8, c: u8| self.0@ == anonymized_text(a, b, c)
    }

    /// Keeps the first three octets of `octets` and replaces the last with zero.
    pub fn from_ipv4(octets: [u8; 4]) -> (r: AnonymousIpv4)
        ensures
            r@ == anonymized_text(octets[0], octets[1], octets[2]),
    {
        let mut text = String::new();
        append_decimal(&mut text, octets[0]);
        text.append(".");
        append_decimal(&mut text, octets[1]);
        text.append(".");
        append_decimal(&mut text, octets[2]);
        text.append(".0");
        assert(text@ =~= anonymized_text(octets[0], octets[1], octets[2]));
        AnonymousIpv4(text)
    }

    pub fn as_str(&self) -> (r: &str)
        ensures
            r@ == self@,
    {
        self.0.as_str()
    }
}

impl Clone for AnonymousIpv4 {
    fn clone(&self) -> (r: Self)
        ensures
            r == *self,
    {
        proof {
            use_type_invariant(self);
        }
        AnonymousIpv4(self.0.clone())
    }
}

/// The text of one decimal digit.
fn digit_str(d: u8) -> (r: &'static str)
    requires
        d < 10,
    ensures
        r@ == seq![digit_char(d as nat)],
{
    proof {
        reveal_strlit("0");
        reveal_strlit("1");
        reveal_strlit("2");
        reveal_strlit("3");
        reveal_strlit("4");
        reveal_strlit("5");
        reveal_strlit("6");
        reveal_strlit("7");
        reveal_strlit("8");
        reveal_strlit("9");
    }
    let r = match d {
        0 => "0",
        1 => "1",
        2 => "2",
        3 => "3",
        4 => "4",
        5 => "5",
        6 => "6",
        7 => "7",
        8 => "8",
        _ => "9",
    };
    assert(r@ =~= seq![digit_char(d as nat)]);
    r
}

/// Appends the decimal text of `n` to `out`.
fn append_decimal(out: &mut String, n: u8)
    ensures
        final(out)@ == old(out)@ + decimal(n as nat),
{
    if n >= 100 {
        out.append(digit_str(n / 100));
    }
    if n >= 10 {
        out.append(digit_str(n / 10 % 10));
    }
    out.append(digit_str(n % 10));
    proof {
        let n = n as nat;
        if n >= 100 {
            assert(decimal(n / 100) == seq![digit_char(n / 100)]);
            assert(decimal(n / 10) == decimal(n / 100).push(digit_char(n / 10 % 10)));
        } else if n >= 10 {
            assert(decimal(n / 10) == seq![digit_char(n / 10)]);
        }
        assert(final(out)@ =~= old(out)@ + decimal(n));
    }
}

/// Whether `c` is a decimal digit.
spec fn is_digit(c: char) -> bool {
    '0' <= c <= '9'
}

/// Decimal text is a non-empty run of digits.
proof fn lemma_decimal_digits(n: nat)
    ensures
        decimal(n).len() >= 1,
        n >= 10 ==> decimal(n).len() >= 2,
        forall|i: int| 0 <= i < decimal(n).len() ==> is_digit(#[trigger] decimal(n)[i]),
    decreases n,
{
    if n >= 10 {
        lemma_decimal_digits(n / 10);
    }
}

/// Distinct numbers have distinct decimal texts.
proof fn lemma_decimal_injective(n: nat, m: nat)
    requires
        decimal(n) == decimal(m),
    ensures
        n == m,
    decreases n,
{
    lemma_decimal_digits(n);
    lemma_decimal_digits(m);
    if n >= 10 && m >= 10 {
        assert(decimal(n).drop_last() =~= decimal(n / 10));
        assert(decimal(m).drop_last() =~= decimal(m / 10));
        lemma_decimal_injective(n / 10, m / 10);
        assert(digit_char(n % 10) == decimal(n).last());
        assert(digit_char(m % 10) == decimal(m).last());
        assert(n % 10 == m % 10);
    } else if n < 10 && m < 10 {
        assert(digit_char(n) == decimal(n)[0]);
        assert(digit_char(m) == decimal(m)[0]);
    }
}

/// Two runs of digits, each followed by a dot, split a text in one way only.
proof fn lemma_split_at_dot(x: Seq<char>, y: Seq<char>, r: Seq<char>, t: Seq<char>)
    requires
        forall|i: int| 0 <= i < x.len() ==> is_digit(#[trigger] x[i]),
        forall|i: int| 0 <= i < y.len() ==> is_digit(#[trigger] y[i]),
        x + seq!['.'] + r == y + seq!['.'] + t,
    ensures
        x == y,
        r == t,
{
    let whole = x + seq!['.'] + r;
    if x.len() < y.len() {
        assert(whole[x.len() as int] == '.');
        assert(whole[x.len() as int] == y[x.len() as int]);
    } else if y.len() < x.len() {
        assert(whole[y.len() as int] == x[y.len() as int]);
        assert((y + seq!['.'] + t)[y.len() as int] == '.');
    }
    assert(x =~= whole.take(x.len() as int));
    assert(y =~= whole.take(x.len() as int));
    assert(r =~= whole.skip(x.len() + 1 as int));
    assert(t =~= (y + seq!['.'] + t).skip(y.len() + 1 as int));
}

/// Anonymizing keeps exactly the first three octets: two addresses give the
/// same text if and only if they agree on their first three octets, whatever
/// their last ones.
pub proof fn lemma_anonymized_text_keeps_first_octets(a: u8, b: u8, c: u8, x: u8, y: u8, z: u8)
    ensures
        anonymized_text(a, b, c) == anonymized_text(x, y, z) <==> (a == x && b == y && c == z),
{
    if anonymized_text(a, b, c) == anonymized_text(x, y, z) {
        reveal_strlit(".");
        reveal_strlit(".0");
        let dot = "."@;
        assert(dot =~= seq!['.']);
        assert(".0"@ =~= seq!['.'] + seq!['0']);
        lemma_decimal_digits(a as nat);
        lemma_decimal_digits(b as nat);
        lemma_decimal_digits(c as nat);
        lemma_decimal_digits(x as nat);
        lemma_decimal_digits(y as nat);
        lemma_decimal_digits(z as nat);
        let (da, db, dc) = (decimal(a as nat), decimal(b as nat), decimal(c as nat));
        let (dx, dy, dz) = (decimal(x as nat), decimal(y as nat), decimal(z as nat));
        let zero = seq!['0'];
        assert(anonymized_text(a, b, c) =~= da + seq!['.'] + (db + seq!['.'] + (dc + seq!['.'] + zero)));
        assert(anonymized_text(x, y, z) =~= dx + seq!['.'] + (dy + seq!['.'] + (dz + seq!['.'] + zero)));
        lemma_split_at_dot(da, dx, db + seq!['.'] + (dc + seq!['.'] + zero), dy + seq!['.'] + (dz + seq!['.'] + zero));
        lemma_split_at_dot(db, dy, dc + seq!['.'] + zero, dz + seq!['.'] + zero);
        lemma_split_at_dot(dc, dz, zero, zero);
        lemma_decimal_injective(a as nat, x as nat);
        lemma_decimal_injective(b as nat, y as nat);
        lemma_decimal_injective(c as nat, z as nat);
    }
}

} // verus!
