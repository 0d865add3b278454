//! Small everyday helpers: the largest number of a list, the longer of two
//! strings, the first word of a sentence, coin values, optional increments,
//! dice moves and new user accounts.
use vstd::prelude::*;
use vstd::string::*;
use crate::search::chars_of;

verus! {

/// The largest number of a non-empty list.
pub fn largest(list: &[i32]) -> (r: i32)
    requires
        list@.len() > 0,
    ensures
        list@.contains(r),
        forall|i: int| 0 <= i < list@.len() ==> list@[i] <= r,
{
    let mut largest = list[0];
    let mut i: usize = 1;
    assert(list@.subrange(0, 1)[0] == largest);
    while i < list.len()
        invariant
            1 <= i <= list@.len(),
            list@.subrange(0, i as int).contains(largest),
            forall|k: int| 0 <= k < i ==> list@[k] <= largest,
        decreases list@.len() - i,
    {
        if list[i] > largest {
            largest = list[i];
            assert(list@.subrange(0, i + 1)[i as int] == largest);
        } else {
            proof {
                let k = choose|k: int| 0 <= k < i && list@.subrange(0, i as int)[k] == largest;
                assert(list@.subrange(0, i + 1)[k] == largest);
            }
        }
        i = i + 1;
    }
    assert(list@.subrange(0, i as int) =~= list@);
    largest
}

/// Of two strings, the one with more bytes; the second one on a tie.
pub fn longest<'a>(left: &'a str, right: &'a str) -> (r: &'a str)
    ensures
        r == (if left.len() > right.len() {
            left
        } else {
            right
        }),
{
    if left.len() > right.len() {
        left
    } else {
        right
    }
}

/// Index of the first space in `s`, or its length when it holds none.
pub open spec fn word_end(s: Seq<char>) -> nat
    decreases s.len(),
{
    if s.len() == 0 {
        0
    } else if s[0] == ' ' {
        0
    } else {
        1 + word_end(s.drop_first())
    }
}

proof fn lemma_word_end(s: Seq<char>, j: int)
    requires
        0 <= j <= s.len(),
        forall|k: int| 0 <= k < j ==> s[k] != ' ',
        j == s.len() || s[j] == ' ',
    ensures
        word_end(s) == j,
    decreases j,
{
    if j > 0 {
        assert(s[0] != ' ');
        lemma_word_end(s.drop_first(), j - 1);
    }
}

/// The text of `s` before its first space; all of `s` when it has none.
pub fn first_word(s: &str) -> (r: &str)
    ensures
        r@ == s@.subrange(0, word_end(s@) as int),
{
    let cs = chars_of(s);
    let mut i: usize = 0;
    while i < cs.len() && cs[i] != ' '
        invariant
            i <= cs@.len(),
            cs@ == s@,
            forall|k: int| 0 <= k < i ==> cs@[k] != ' ',
        decreases cs@.len() - i,
    {
        i = i + 1;
    }
    proof {
        lemma_word_end(s@, i as int);
    }
    s.substring_char(0, i)
}

#[derive(Clone, Copy, Debug, PartialEq, Eq, Structural)]
pub enum UsState {
    Alabama,
    Alaska,
}

#[derive(Clone, Copy, Debug, PartialEq, Eq, Structural)]
pub enum Coin {
    Penny,
    Nickel,
    Dime,
    Quarter(UsState),
}

/// A coin's value in cents.
pub fn value_in_cents(coin: Coin) -> (r: u8)
    ensures
        r == match coin {
            Coin::Penny => 1u8,
            Coin::Nickel => 5u8,
            Coin::Dime => 10u8,
            Coin::Quarter(_) => 25u8,
        },
{
    match coin {
        Coin::Penny => 1,
        Coin::Nickel => 5,
        Coin::Dime => 10,
        Coin::Quarter(_) => 25,
    }
}

/// One more than the value held, if a value is held.
pub fn plus_one(x: Option<i32>) -> (r: Option<i32>)
    requires
        x matches Some(i) ==> i < i32::MAX,
    ensures
        r == match x {
            None => None::<i32>,
            Some(i) => Some((i + 1) as i32),
        },
{
    match x {
        None => None,
        Some(i) => Some(i + 1),
    }
}

/// `x + 1`; `x` must be below `i32::MAX`.
pub fn add_one(x: i32) -> (r: i32)
    requires
        x < i32::MAX,
    ensures
        r == x + 1,
{
    x + 1
}

/// What a dice roll makes the player do.
#[derive(Clone, Copy, Debug, PartialEq, Eq, Structural)]
pub enum RollAction {
    AddFancyHat,
    RemoveFancyHat,
    MovePlayer(u8),
}

/// A 3 earns a fancy hat, a 7 loses it, any other roll moves the player
/// that many spaces.
pub fn do_roll(dice_roll: u8) -> (r: RollAction)
    ensures
        r == (if dice_roll == 3 {
            RollAction::AddFancyHat
        } else if dice_roll == 7 {
            RollAction::RemoveFancyHat
        } else {
            RollAction::MovePlayer(dice_roll)
        }),
{
    match dice_roll {
        3 => RollAction::AddFancyHat,
        7 => RollAction::RemoveFancyHat,
        other => RollAction::MovePlayer(other),
    }
}

/// An account.
pub struct User {
    pub username: String,
    pub email: String,
    pub sign_in_count: u64,
}

/// A new account that has signed in once.
pub fn build_user(email: String, username: String) -> (r: User)
    ensures
        r.email == email,
        r.username == username,
        r.sign_in_count == 1,
{
    User { sign_in_count: 1, username, email }
}

} // verus!
