use vstd::prelude::*;
use vstd::string::*;

verus! {

/// Whether two strings hold the same characters.
pub fn same_text(a: &str, b: &str) -> (r: bool)
    ensures
        r == (a@ == b@),
{
    let n = a.unicode_len();
    if n != b.unicode_len() {
        return false;
    }
    let mut i: usize = 0;
    while i < n
        invariant
            n == a@.len(),
            n == b@.len(),
            i <= n,
            a@.subrange(0, i as int) == b@.subrange(0, i as int),
        decreases n - i,
    {
        if a.get_char(i) != b.get_char(i) {
            assert(a@[i as int] != b@[i as int]);
            return false;
        }
        assert(a@.subrange(0, i + 1) == a@.subrange(0, i as int).push(a@[i as int]));
        assert(b@.subrange(0, i + 1) == b@.subrange(0, i as int).push(b@[i as int]));
        i = i + 1;
    }
    assert(a@ == a@.subrange(0, n as int));
    assert(b@ == b@.subrange(0, n as int));
    true
}

pub open spec fn is_digit(c: char) -> bool {
    '0' <= c && c <= '9'
}

pub open spec fn digit_value(c: char) -> nat {
    (c as u32 - '0' as u32) as nat
}

pub open spec fn digit_char(d: nat) -> char {
    ((d + 48) as u8) as char
}

/// The number that a sequence of decimal digits spells, most significant first.
pub open spec fn decimal_value(s: Seq<char>) -> nat
    decreases s.len(),
{
    if s.len() == 0 {
        0
    } else {
        decimal_value(s.drop_last()) * 10 + digit_value(s.last())
    }
}

/// The shortest decimal spelling of a number.
pub open spec fn decimal_text(n: nat) -> Seq<char>
    decreases n,
{
    if n < 10 {
        seq![digit_char(n)]
    } else {
        decimal_text(n / 10).push(digit_char(n % 10))
    }
}

fn digit_str(d: u8) -> (r: &'static str)
    requires
        d < 10,
    ensures
        r@ == seq![digit_char(d as nat)],
{
    proof {
        reveal_strlit("0");
        reveal_strlit("1");
        reveal_strlit("2");
        reveal_strlit("3");
        reveal_strlit("4");
        reveal_strlit("5");
        reveal_strlit("6");
        reveal_strlit("7");
        reveal_strlit("8");
        reveal_strlit("9");
    }
    let r = match d {
        0 => "0",
        1 => "1",
        2 => "2",
        3 => "3",
        4 => "4",
        5 => "5",
        6 => "6",
        7 => "7",
        8 => "8",
        _ => "9",
    };
    assert(r@ =~= seq![digit_char(d as nat)]);
    r
}

/// Spells a number in decimal.
pub fn decimal_string(n: u64) -> (r: String)
    ensures
        r@ == decimal_text(n as nat),
    decreases n,
{
    let d = digit_str((n % 10) as u8);
    if n < 10 {
        String::from_str(d)
    } else {
        let r = decimal_string(n / 10);
        r.concat(d)
    }
}

/// A token that is none of the accepted ones.
#[derive(Clone, Debug, PartialEq, Eq)]
pub struct UnknownVariant {
    pub found: String,
}

/// The boolean that a "yes" / "no" token stands for.
pub open spec fn yes_no_value(t: Seq<char>) -> Option<bool> {
    if t == "yes"@ {
        Some(true)
    } else if t == "no"@ {
        Some(false)
    } else {
        None
    }
}

/// Reads a "yes" / "no" token as a boolean; any other token is refused.
pub fn parse_yes_no(s: &str) -> (r: Result<bool, UnknownVariant>)
    ensures
        match r {
            Ok(b) => yes_no_value(s@) == Some(b),
            Err(e) => yes_no_value(s@).is_none() && e.found@ == s@,
        },
{
    if same_text(s, "yes") {
        Ok(true)
    } else if same_text(s, "no") {
        Ok(false)
    } else {
        Err(UnknownVariant { found: String::from_str(s) })
    }
}

/// "yes" reads as true, "no" as false, and every other token is refused.
pub proof fn lemma_yes_no_tokens(t: Seq<char>)
    ensures
        yes_no_value("yes"@) == Some(true),
        yes_no_value("no"@) == Some(false),
        t != "yes"@ && t != "no"@ ==> yes_no_value(t).is_none(),
{
    reveal_strlit("yes");
    reveal_strlit("no");
    assert("yes"@.len() != "no"@.len());
}

} // verus!
