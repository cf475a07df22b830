//! The human seat and the validation of text a human types: a hand index
//! or `d` to draw, and a one-letter colour choice for a wild card.  The
//! reading and printing itself belongs to the hosting shell; the library
//! only holds the seat's state and decides what a line of input means.

use vstd::prelude::*;
use vstd::string::StrSliceExecFns;
use crate::actor::UserAction;
use crate::card::{Card, Colour};
use crate::player::Player;

verus! {

/// Whether `c` is one of the whitespace characters stripped from typed
/// input before it is read.
pub open spec fn spec_is_space(c: char) -> bool {
    c == ' ' || c == '\t' || c == '\n' || c == '\r'
}

/// `s` with leading and trailing whitespace removed.
pub open spec fn spec_trim(s: Seq<char>) -> Seq<char>
    decreases s.len(),
{
    if s.len() == 0 {
        s
    } else if spec_is_space(s.first()) {
        spec_trim(s.drop_first())
    } else if spec_is_space(s.last()) {
        spec_trim(s.drop_last())
    } else {
        s
    }
}

/// Whether `c` is a decimal digit.
pub open spec fn spec_is_digit(c: char) -> bool {
    '0' <= c && c <= '9'
}

/// The value of the digit `c`.
pub open spec fn spec_digit_val(c: char) -> int {
    (c as u32) - 48
}

/// Whether `s` is one or more decimal digits.
pub open spec fn spec_all_digits(s: Seq<char>) -> bool {
    s.len() > 0 && forall|k: int| 0 <= k < s.len() ==> spec_is_digit(#[trigger] s[k])
}

/// The number the digit string `s` denotes.
pub open spec fn spec_digits_val(s: Seq<char>) -> int
    decreases s.len(),
{
    if s.len() == 0 {
        0
    } else {
        spec_digits_val(s.drop_last()) * 10 + spec_digit_val(s.last())
    }
}

/// `s` without its optional leading plus sign.
pub open spec fn spec_numeric_body(s: Seq<char>) -> Seq<char> {
    if s.len() > 0 && s.first() == '+' {
        s.drop_first()
    } else {
        s
    }
}

/// Whether `s` reads as an unsigned machine integer: digits after an
/// optional plus sign, small enough to fit.
pub open spec fn spec_parses_as_usize(s: Seq<char>) -> bool {
    spec_all_digits(spec_numeric_body(s)) && spec_digits_val(spec_numeric_body(s)) <= usize::MAX
}

/// A digit string denotes a non-negative number.
proof fn lemma_digits_val_nonneg(s: Seq<char>)
    requires
        forall|k: int| 0 <= k < s.len() ==> spec_is_digit(#[trigger] s[k]),
    ensures
        spec_digits_val(s) >= 0,
    decreases s.len(),
{
    if s.len() > 0 {
        lemma_digits_val_nonneg(s.drop_last());
    }
}

/// Extending a digit string never shrinks the number it denotes.
proof fn lemma_digits_val_prefix(s: Seq<char>, p: int)
    requires
        0 <= p <= s.len(),
        forall|k: int| 0 <= k < s.len() ==> spec_is_digit(#[trigger] s[k]),
    ensures
        spec_digits_val(s) >= spec_digits_val(s.subrange(0, p)),
    decreases s.len() - p,
{
    if p < s.len() {
        lemma_digits_val_prefix(s, p + 1);
        assert(s.subrange(0, p + 1).drop_last() =~= s.subrange(0, p));
        lemma_digits_val_nonneg(s.subrange(0, p));
        assert(spec_digits_val(s.subrange(0, p + 1)) == spec_digits_val(s.subrange(0, p)) * 10
            + spec_digit_val(s[p]));
    } else {
        assert(s.subrange(0, p) =~= s);
    }
}

/// Cutting the whitespace margins of `s` is what `spec_trim` computes.
proof fn lemma_trim_range(s: Seq<char>, start: int, end: int)
    requires
        0 <= start <= end <= s.len(),
        forall|k: int| 0 <= k < start ==> spec_is_space(#[trigger] s[k]),
        forall|k: int| end <= k < s.len() ==> spec_is_space(#[trigger] s[k]),
        start < end ==> !spec_is_space(s[start]) && !spec_is_space(s[end - 1]),
    ensures
        spec_trim(s) == s.subrange(start, end),
    decreases s.len(),
{
    if s.len() == 0 {
        assert(s.subrange(0, 0) =~= s);
    } else if spec_is_space(s.first()) {
        if start > 0 {
            lemma_trim_range(s.drop_first(), start - 1, end - 1);
            assert(s.drop_first().subrange(start - 1, end - 1) =~= s.subrange(start, end));
        } else {
            // The first character is whitespace and yet lies at or after
            // `start`, so the trimmed region is empty.
            assert(start == end);
            lemma_trim_range(s.drop_first(), 0, 0);
            assert(s.drop_first().subrange(0, 0) =~= s.subrange(start, end));
        }
    } else if spec_is_space(s.last()) {
        assert(start == 0);
        assert(end < s.len());
        lemma_trim_range(s.drop_last(), start, end);
        assert(s.drop_last().subrange(start, end) =~= s.subrange(start, end));
    } else {
        assert(start == 0);
        assert(end == s.len());
        assert(s.subrange(0, s.len() as int) =~= s);
    }
}

/// Reads the characters of `input` between `from` and `to` as a decimal
/// number, or nothing when they are not one or more digits denoting a
/// number that fits the machine.
fn parse_digits(input: &str, from: usize, to: usize) -> (r: Option<usize>)
    requires
        from <= to <= input@.len(),
    ensures
        ({
            let body = input@.subrange(from as int, to as int);
            match r {
                Some(v) => spec_all_digits(body) && spec_digits_val(body) == v,
                None => !(spec_all_digits(body) && spec_digits_val(body) <= usize::MAX),
            }
        }),
{
    let ghost body = input@.subrange(from as int, to as int);
    if from == to {
        return None;
    }
    let mut acc: usize = 0;
    let mut j: usize = from;
    while j < to
        invariant
            from <= j <= to <= input@.len(),
            body == input@.subrange(from as int, to as int),
            forall|k: int| 0 <= k < j - from ==> spec_is_digit(#[trigger] body[k]),
            acc == spec_digits_val(body.subrange(0, j - from)),
        decreases to - j,
    {
        let c = input.get_char(j);
        proof {
            assert(body[j - from] == input@[j as int]);
            assert(body.subrange(0, j - from + 1).drop_last() =~= body.subrange(0, j - from));
            assert(body.subrange(0, j - from + 1).last() == body[j - from]);
        }
        if c < '0' || c > '9' {
            return None;
        }
        let d = ((c as u32) - 48) as usize;
        if acc > (usize::MAX - d) / 10 {
            proof {
                let m = usize::MAX as int;
                let q = (m - d) / 10;
                vstd::arithmetic::div_mod::lemma_fundamental_div_mod(m - d, 10);
                assert(acc * 10 >= (q + 1) * 10) by (nonlinear_arith)
                    requires
                        acc >= q + 1,
                ;
                assert(spec_digits_val(body.subrange(0, j - from + 1)) > m);
                if spec_all_digits(body) {
                    lemma_digits_val_prefix(body, j - from + 1);
                }
            }
            return None;
        }
        proof {
            let m = usize::MAX as int;
            let q = (m - d) / 10;
            vstd::arithmetic::div_mod::lemma_fundamental_div_mod(m - d, 10);
            assert(acc * 10 <= q * 10) by (nonlinear_arith)
                requires
                    acc <= q,
            ;
        }
        acc = acc * 10 + d;
        j += 1;
    }
    proof {
        assert(body.subrange(0, (j - from) as int) =~= body);
        lemma_digits_val_nonneg(body);
    }
    Some(acc)
}

/// Whether `c` is whitespace.
fn is_space_char(c: char) -> (b: bool)
    ensures
        b == spec_is_space(c),
{
    c == ' ' || c == '\t' || c == '\n' || c == '\r'
}

/// Reads a typed line as a turn action: a hand index (digits, as a number
/// reads) means playing that card, and the letter `d` means drawing;
/// whitespace around the input is ignored.  Anything else is rejected.
pub fn check_turn_action_input(input: &str) -> (r: Result<UserAction, ()>)
    ensures
        ({
            let t = spec_trim(input@);
            if spec_parses_as_usize(t) {
                r == Ok::<UserAction, ()>(
                    UserAction::Play(spec_digits_val(spec_numeric_body(t)) as usize),
                )
            } else if t == "d"@ {
                r == Ok::<UserAction, ()>(UserAction::Draw)
            } else {
                r == Err::<UserAction, ()>(())
            }
        }),
{
    proof {
        reveal_strlit("d");
    }
    let n = input.unicode_len();
    let mut start: usize = 0;
    while start < n && is_space_char(input.get_char(start))
        invariant
            n == input@.len(),
            start <= n,
            forall|k: int| 0 <= k < start ==> spec_is_space(#[trigger] input@[k]),
        decreases n - start,
    {
        start += 1;
    }
    let mut end: usize = n;
    while end > start && is_space_char(input.get_char(end - 1))
        invariant
            n == input@.len(),
            start <= end <= n,
            forall|k: int| 0 <= k < start ==> spec_is_space(#[trigger] input@[k]),
            forall|k: int| end <= k < n ==> spec_is_space(#[trigger] input@[k]),
        decreases end,
    {
        end -= 1;
    }
    proof {
        lemma_trim_range(input@, start as int, end as int);
    }
    let ghost t = input@.subrange(start as int, end as int);
    let mut i: usize = start;
    if i < end && input.get_char(i) == '+' {
        i += 1;
    }
    let ghost body = input@.subrange(i as int, end as int);
    proof {
        assert(body =~= spec_numeric_body(t));
    }
    if let Some(v) = parse_digits(input, i, end) {
        return Ok(UserAction::Play(v));
    }
    if end > start && end - start == 1 && input.get_char(start) == 'd' {
        proof {
            assert(t =~= "d"@);
        }
        return Ok(UserAction::Draw);
    }
    proof {
        if t == "d"@ {
            assert(t.len() == 1);
            assert(input@[start as int] == t[0]);
        }
    }
    Err(())
}

/// Reads a typed letter as a wild-card colour: `r`, `g`, `b` or `y`.
/// Anything else is rejected.
pub fn check_colour_input(input: &str) -> (r: Result<Colour, ()>)
    ensures
        input@ == "r"@ ==> r == Ok::<Colour, ()>(Colour::Red),
        input@ == "g"@ ==> r == Ok::<Colour, ()>(Colour::Green),
        input@ == "b"@ ==> r == Ok::<Colour, ()>(Colour::Blue),
        input@ == "y"@ ==> r == Ok::<Colour, ()>(Colour::Yellow),
        input@ != "r"@ && input@ != "g"@ && input@ != "b"@ && input@ != "y"@ ==> r == Err::<
            Colour,
            (),
        >(()),
{
    proof {
        reveal_strlit("r");
        reveal_strlit("g");
        reveal_strlit("b");
        reveal_strlit("y");
    }
    if input.unicode_len() == 1 {
        let c = input.get_char(0);
        if c == 'r' {
            proof {
                assert(input@ =~= "r"@);
            }
            return Ok(Colour::Red);
        }
        if c == 'g' {
            proof {
                assert(input@ =~= "g"@);
            }
            return Ok(Colour::Green);
        }
        if c == 'b' {
            proof {
                assert(input@ =~= "b"@);
            }
            return Ok(Colour::Blue);
        }
        if c == 'y' {
            proof {
                assert(input@ =~= "y"@);
            }
            return Ok(Colour::Yellow);
        }
    }
    Err(())
}

/// A human-controlled seat: the seat id and the hand.  Its decisions come
/// from the hosting shell, which reads them from the terminal and checks
/// them with [`check_turn_action_input`] and [`check_colour_input`].
pub struct HumanActor {
    id: usize,
    player: Player,
}

impl HumanActor {
    /// The player (the hand) of this seat.
    pub closed spec fn spec_player(&self) -> Player {
        self.player
    }

    /// The stable seat id.
    pub closed spec fn spec_id(&self) -> usize {
        self.id
    }

    /// Creates a human seat with an empty hand.
    pub fn new(id: usize) -> (a: HumanActor)
        ensures
            a.spec_id() == id,
            a.spec_player()@ == Seq::<Card>::empty(),
    {
        HumanActor { id, player: Player::new() }
    }

    /// The seat id.
    pub fn get_id(&self) -> (r: usize)
        ensures
            r == self.spec_id(),
    {
        self.id
    }

    /// The player of this seat.
    pub fn get_player(&self) -> (p: &Player)
        ensures
            *p == self.spec_player(),
    {
        &self.player
    }

    /// Mutable access to the player of this seat.
    pub fn get_player_mut(&mut self) -> (p: &mut Player)
        ensures
            *p == old(self).spec_player(),
            final(self).spec_player() == *final(p),
            final(self).spec_id() == old(self).spec_id(),
    {
        &mut self.player
    }
}

} // verus!
