use vstd::prelude::*;

verus! {

/// The decimal digit `d` (for `d < 10`) as a character.
pub open spec fn digit_char(d: nat) -> char {
    if d == 0 {
        '0'
    } else if d == 1 {
        '1'
    } else if d == 2 {
        '2'
    } else if d == 3 {
        '3'
    } else if d == 4 {
        '4'
    } else if d == 5 {
        '5'
    } else if d == 6 {
        '6'
    } else if d == 7 {
        '7'
    } else if d == 8 {
        '8'
    } else {
        '9'
    }
}

/// The decimal representation of `n`, most significant digit first, with no
/// leading zeros (`0` is written `"0"`).
pub open spec fn decimal(n: nat) -> Seq<char>
    decreases n,
{
    if n < 10 {
        seq![digit_char(n)]
    } else {
        decimal(n / 10).push(digit_char(n % 10))
    }
}

fn digit_str(d: u32) -> (r: &'static str)
    requires
        d < 10,
    ensures
        r@ == seq![digit_char(d as nat)],
{
    proof {
        reveal_strlit("0");
        reveal_strlit("1");
        reveal_strlit("2");
        reveal_strlit("3");
        reveal_strlit("4");
        reveal_strlit("5");
        reveal_strlit("6");
        reveal_strlit("7");
        reveal_strlit("8");
        reveal_strlit("9");
    }
    match d {
        0 => "0",
        1 => "1",
        2 => "2",
        3 => "3",
        4 => "4",
        5 => "5",
        6 => "6",
        7 => "7",
        8 => "8",
        _ => "9",
    }
}

/// Writes `n` in decimal, as `u32`'s `Display` does.
pub fn decimal_string(n: u32) -> (r: String)
    ensures
        r@ == decimal(n as nat),
        is_canonical_decimal(r@),
        read_decimal(r@) == n,
    decreases n,
{
    let r = if n < 10 {
        String::from_str(digit_str(n))
    } else {
        let mut s = decimal_string(n / 10);
        s.append(digit_str(n % 10));
        s
    };
    proof {
        decimal_reads_back(n as nat);
    }
    r
}

/// `a` followed by `b`.
pub fn joined(a: &str, b: &str) -> (r: String)
    ensures
        r@ == a@ + b@,
{
    let mut s = String::from_str(a);
    s.append(b);
    s
}

/// The value of a decimal digit character: its code minus the code of `'0'`.
pub open spec fn digit_value(c: char) -> int {
    c as int - '0' as int
}

/// `c` is one of the characters `'0'` to `'9'`.
pub open spec fn is_digit(c: char) -> bool {
    '0' as int <= c as int <= '9' as int
}

/// The number that a string of decimal digits denotes, read most significant
/// digit first.
pub open spec fn read_decimal(s: Seq<char>) -> int
    decreases s.len(),
{
    if s.len() == 0 {
        0
    } else {
        10 * read_decimal(s.drop_last()) + digit_value(s.last())
    }
}

/// `s` is written the way integers are displayed in base ten: at least one
/// digit, only digits, and no leading zero unless it is the single digit `0`.
pub open spec fn is_canonical_decimal(s: Seq<char>) -> bool {
    &&& s.len() >= 1
    &&& forall|i: int| 0 <= i < s.len() ==> is_digit(#[trigger] s[i])
    &&& s.len() > 1 ==> s[0] != '0'
}

/// The digit character for `d` is the one whose code is `'0' + d`.
pub proof fn digit_char_has_digit_code(d: nat)
    requires
        d < 10,
    ensures
        digit_char(d) as int == '0' as int + d,
        is_digit(digit_char(d)),
        digit_value(digit_char(d)) == d,
{
}

/// `decimal(n)` is the base-ten representation of `n`: it is canonical and it
/// reads back as `n`.
pub proof fn decimal_reads_back(n: nat)
    ensures
        is_canonical_decimal(decimal(n)),
        read_decimal(decimal(n)) == n,
        n > 0 ==> decimal(n)[0] != '0',
    decreases n,
{
    if n < 10 {
        digit_char_has_digit_code(n);
        let s = decimal(n);
        assert(s.drop_last() =~= Seq::<char>::empty());
        assert(read_decimal(s.drop_last()) == 0);
        assert(s.last() == digit_char(n));
    } else {
        decimal_reads_back(n / 10);
        digit_char_has_digit_code(n % 10);
        let p = decimal(n / 10);
        let s = decimal(n);
        assert(s.drop_last() =~= p);
        assert(s.last() == digit_char(n % 10));
        assert(read_decimal(s) == 10 * read_decimal(p) + digit_value(s.last()));
        assert(10 * (n / 10) + n % 10 == n);
        assert(s[0] == p[0]);
        assert forall|i: int| 0 <= i < s.len() implies is_digit(#[trigger] s[i]) by {
            if i < p.len() {
                assert(s[i] == p[i]);
            }
        }
    }
}

proof fn leading_nonzero_reads_positive(s: Seq<char>)
    requires
        s.len() >= 1,
        forall|i: int| 0 <= i < s.len() ==> is_digit(#[trigger] s[i]),
        s[0] != '0',
    ensures
        read_decimal(s) >= 1,
    decreases s.len(),
{
    assert(is_digit(s[s.len() - 1]));
    assert(s.last() == s[s.len() - 1]);
    if s.len() == 1 {
        assert(s.last() == s[0]);
        assert(s.drop_last() =~= Seq::<char>::empty());
        assert(read_decimal(s.drop_last()) == 0);
        assert(s[0] as int != '0' as int);
    } else {
        let p = s.drop_last();
        assert forall|i: int| 0 <= i < p.len() implies is_digit(#[trigger] p[i]) by {
            assert(p[i] == s[i]);
        }
        assert(p[0] == s[0]);
        leading_nonzero_reads_positive(p);
    }
}

proof fn read_decimal_nonnegative(s: Seq<char>)
    requires
        forall|i: int| 0 <= i < s.len() ==> is_digit(#[trigger] s[i]),
    ensures
        read_decimal(s) >= 0,
    decreases s.len(),
{
    if s.len() > 0 {
        let p = s.drop_last();
        assert(is_digit(s[s.len() - 1]));
        assert forall|i: int| 0 <= i < p.len() implies is_digit(#[trigger] p[i]) by {
            assert(p[i] == s[i]);
        }
        read_decimal_nonnegative(p);
    }
}

/// The base-ten representation is unique: every canonical digit string that
/// reads as `n` is `decimal(n)`.
pub proof fn decimal_is_the_only_representation(s: Seq<char>, n: nat)
    requires
        is_canonical_decimal(s),
        read_decimal(s) == n,
    ensures
        s == decimal(n),
    decreases s.len(),
{
    let c = s.last();
    assert(is_digit(s[s.len() - 1]));
    assert(c == s[s.len() - 1]);
    let d = digit_value(c);
    if s.len() == 1 {
        assert(s.drop_last() =~= Seq::<char>::empty());
        assert(read_decimal(s.drop_last()) == 0);
        assert(n == d);
        digit_char_has_digit_code(n);
        assert(digit_char(n) == c);
        assert(s =~= seq![c]);
    } else {
        let p = s.drop_last();
        assert forall|i: int| 0 <= i < p.len() implies is_digit(#[trigger] p[i]) by {
            assert(p[i] == s[i]);
        }
        assert(p[0] == s[0]);
        leading_nonzero_reads_positive(p);
        let m = read_decimal(p);
        assert(n == 10 * m + d);
        assert(n / 10 == m && n % 10 == d);
        decimal_is_the_only_representation(p, m as nat);
        digit_char_has_digit_code(d as nat);
        assert(digit_char(d as nat) == c);
        assert(s =~= p.push(c));
    }
}

/// Appending a digit to a positive number appends its character to the
/// number's decimal text.
pub proof fn decimal_of_appended_digit(k: nat, d: nat)
    requires
        k > 0,
        d < 10,
    ensures
        decimal(10 * k + d) == decimal(k).push(digit_char(d)),
{
    assert((10 * k + d) / 10 == k && (10 * k + d) % 10 == d);
}

} // verus!
