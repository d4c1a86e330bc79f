//! Rendering of the priority announcement: a 1-indexed numbered list, one
//! line per voter, tab between the position and the display name, lines
//! joined by newlines under a fixed header.

use vstd::prelude::*;
use vstd::string::StringExecFns;

use crate::models::Voter;

verus! {

/// The decimal digit character for a value below ten.
pub open spec fn digit_char(d: int) -> char {
    if d == 0 {
        '0'
    } else if d == 1 {
        '1'
    } else if d == 2 {
        '2'
    } else if d == 3 {
        '3'
    } else if d == 4 {
        '4'
    } else if d == 5 {
        '5'
    } else if d == 6 {
        '6'
    } else if d == 7 {
        '7'
    } else if d == 8 {
        '8'
    } else {
        '9'
    }
}

/// The decimal notation of `n`, most significant digit first, without
/// leading zeroes (a single zero for zero itself).
pub open spec fn spec_decimal(n: nat) -> Seq<char>
    decreases n,
{
    if n < 10 {
        seq![digit_char(n as int)]
    } else {
        spec_decimal(n / 10) + seq![digit_char((n % 10) as int)]
    }
}

/// The one-character string for a decimal digit.
fn digit_str(d: usize) -> (r: &'static str)
    requires
        d < 10,
    ensures
        r@ == seq![digit_char(d as int)],
{
    let s = match d {
        0 => "0",
        1 => "1",
        2 => "2",
        3 => "3",
        4 => "4",
        5 => "5",
        6 => "6",
        7 => "7",
        8 => "8",
        _ => "9",
    };
    proof {
        reveal_strlit("0");
        reveal_strlit("1");
        reveal_strlit("2");
        reveal_strlit("3");
        reveal_strlit("4");
        reveal_strlit("5");
        reveal_strlit("6");
        reveal_strlit("7");
        reveal_strlit("8");
        reveal_strlit("9");
    }
    s
}

/// The decimal notation of `n` as a string.
pub fn decimal_string(n: usize) -> (r: String)
    ensures
        r@ == spec_decimal(n as nat),
    decreases n,
{
    if n < 10 {
        String::from_str(digit_str(n))
    } else {
        let mut s = decimal_string(n / 10);
        s.append(digit_str(n % 10));
        s
    }
}

/// One line of the announcement: the 1-indexed position, a dot and a tab,
/// then the voter's display name.
pub open spec fn spec_line(pos: nat, v: Voter) -> Seq<char> {
    spec_decimal(pos) + ".\t"@ + v.display_name@
}

/// The lines for the voters from index `i` on, joined by newlines.
pub open spec fn spec_lines_from(vs: Seq<Voter>, i: int) -> Seq<char>
    decreases vs.len() - i,
{
    if i < 0 || i >= vs.len() {
        Seq::<char>::empty()
    } else if i == vs.len() - 1 {
        spec_line((i + 1) as nat, vs[i])
    } else {
        spec_line((i + 1) as nat, vs[i]) + "\n"@ + spec_lines_from(vs, i + 1)
    }
}

/// The whole announcement: the header line, then the numbered voter lines.
pub open spec fn spec_announcement(vs: Seq<Voter>) -> Seq<char> {
    "Щасливці у порядку пріоритету:\n"@ + spec_lines_from(vs, 0)
}

/// The numbered lines for the voters from index `i` on.
fn render_lines_from(voters: &Vec<Voter>, i: usize) -> (r: String)
    requires
        i < voters@.len(),
    ensures
        r@ == spec_lines_from(voters@, i as int),
    decreases voters@.len() - i,
{
    let n = voters.len();
    let mut line = decimal_string(i + 1);
    line.append(".\t");
    line.append(voters[i].display_name.as_str());
    if i + 1 < voters.len() {
        line.append("\n");
        let rest = render_lines_from(voters, i + 1);
        line.append(rest.as_str());
    }
    line
}

/// The priority announcement for a non-empty list of voters, in the order
/// given.
pub fn render_announcement(voters: &Vec<Voter>) -> (r: String)
    requires
        voters@.len() > 0,
    ensures
        r@ == spec_announcement(voters@),
{
    let mut s = String::from_str("Щасливці у порядку пріоритету:\n");
    let lines = render_lines_from(voters, 0);
    s.append(lines.as_str());
    s
}

} // verus!
