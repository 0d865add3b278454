//! A text framed in a box of asterisks, as five lines.
use vstd::prelude::*;
use vstd::string::*;

verus! {

/// `n` copies of `c`.
pub open spec fn run_of(c: char, n: nat) -> Seq<char> {
    Seq::new(n, |i: int| c)
}

/// `n` asterisks.
fn stars(n: usize) -> (r: String)
    ensures
        r@ == run_of('*', n as nat),
{
    let mut r = String::new();
    let mut i: usize = 0;
    proof {
        reveal_strlit("*");
    }
    while i < n
        invariant
            i <= n,
            r@ == run_of('*', i as nat),
            "*"@ == seq!['*'],
        decreases n - i,
    {
        r.append("*");
        i = i + 1;
        assert(r@ =~= run_of('*', i as nat));
    }
    r
}

/// An asterisk, `n` spaces, an asterisk.
fn hollow(n: usize) -> (r: String)
    ensures
        r@ == seq!['*'] + run_of(' ', n as nat) + seq!['*'],
{
    let mut r = String::new();
    proof {
        reveal_strlit("*");
        reveal_strlit(" ");
    }
    r.append("*");
    let mut i: usize = 0;
    while i < n
        invariant
            i <= n,
            r@ == seq!['*'] + run_of(' ', i as nat),
            " "@ == seq![' '],
            "*"@ == seq!['*'],
        decreases n - i,
    {
        r.append(" ");
        i = i + 1;
        assert(r@ =~= seq!['*'] + run_of(' ', i as nat));
    }
    r.append("*");
    r
}

/// The five lines of `text` framed in asterisks: a full row, a hollow row,
/// the text between `"* "` and `" *"`, a hollow row, a full row. The frame
/// is as wide as the text's length in bytes plus four; that length must
/// leave room for the four.
pub fn outline(text: &str) -> (r: Vec<String>)
    requires
        text.len() + 4 <= usize::MAX,
    ensures
        r@.len() == 5,
        r@[0]@ == run_of('*', (text.len() + 4) as nat),
        r@[1]@ == seq!['*'] + run_of(' ', (text.len() + 2) as nat) + seq!['*'],
        r@[2]@ == "* "@ + text@ + " *"@,
        r@[3]@ == r@[1]@,
        r@[4]@ == r@[0]@,
{
    let len = text.len();
    let mut middle = String::new();
    middle.append("* ");
    middle.append(text);
    middle.append(" *");
    let mut r: Vec<String> = Vec::new();
    r.push(stars(len + 4));
    r.push(hollow(len + 2));
    r.push(middle);
    r.push(hollow(len + 2));
    r.push(stars(len + 4));
    r
}

} // verus!
