//! What the simulated actions say: the text of a message, a display name,
//! a reaction.

use vstd::prelude::*;
use vstd::string::{StrSliceExecFns, StringExecFns};
use crate::chance::choose_index;
use crate::naming::{find_char, lemma_find_char, position_of, to_chars};

verus! {

/// The number of reactions to choose from.
pub const REACTION_COUNT: usize = 7;

/// The display names carry a number from 1 up to this one.
pub const DISPLAY_NAME_NUMBERS: usize = 999;

/// The number of words of a message, from the number that was drawn for
/// it and the number of words that the text has: at least one word, and
/// no more than there are.
pub fn message_word_count(drawn: usize, available: usize) -> (count: usize)
    ensures
        count == if drawn > available {
            if available >= 1 {
                available
            } else {
                1
            }
        } else if drawn >= 1 {
            drawn
        } else {
            1
        },
        count >= 1,
        available >= 1 ==> count <= available,
{
    let capped = if drawn < available {
        drawn
    } else {
        available
    };
    if capped > 1 {
        capped
    } else {
        1
    }
}

/// Where the first `count` words of `s` end, where words are what single
/// spaces separate: at the space after word number `count`, or at the
/// end of `s` if it has no more words than that.
pub open spec fn words_end(s: Seq<char>, count: nat) -> int
    decreases count,
{
    if count == 0 {
        0
    } else if count == 1 {
        match find_char(s, ' ', 0) {
            Some(i) => i,
            None => s.len() as int,
        }
    } else {
        let before = words_end(s, (count - 1) as nat);
        if before >= s.len() {
            s.len() as int
        } else {
            match find_char(s, ' ', before + 1) {
                Some(i) => i,
                None => s.len() as int,
            }
        }
    }
}

/// The first `count` words of `s`, with the spaces between them.
pub open spec fn first_words_of(s: Seq<char>, count: nat) -> Seq<char> {
    s.take(words_end(s, count))
}

/// The end of the first `count` words lies within the text.
pub proof fn lemma_words_end_in_range(s: Seq<char>, count: nat)
    ensures
        0 <= words_end(s, count) <= s.len(),
    decreases count,
{
    if count == 1 {
        lemma_find_char(s, ' ', 0);
    } else if count > 1 {
        lemma_words_end_in_range(s, (count - 1) as nat);
        let before = words_end(s, (count - 1) as nat);
        if before < s.len() {
            lemma_find_char(s, ' ', before + 1);
        }
    }
}

/// Once the words reach the end of the text, more words end there too.
pub proof fn lemma_words_end_at_the_end(s: Seq<char>, reached: nat, count: nat)
    requires
        1 <= reached <= count,
        words_end(s, reached) == s.len(),
    ensures
        words_end(s, count) == s.len(),
    decreases count,
{
    if reached < count {
        lemma_words_end_at_the_end(s, reached, (count - 1) as nat);
    }
}

/// The first `count` words of `text`, with the spaces between them.
pub fn first_words(text: &str, count: usize) -> (words: String)
    ensures
        words@ == first_words_of(text@, count as nat),
{
    let chars = to_chars(text);
    let n = chars.len();
    let mut end: usize = 0;
    let mut taken: usize = 0;
    while taken < count && (taken == 0 || end < n)
        invariant
            n == chars@.len(),
            chars@ == text@,
            taken <= count,
            end <= n,
            end == words_end(text@, taken as nat),
        decreases count - taken,
    {
        let from = if taken == 0 {
            0
        } else {
            end + 1
        };
        end = match position_of(&chars, ' ', from) {
            Some(i) => i,
            None => n,
        };
        taken += 1;
    }
    proof {
        if taken < count {
            lemma_words_end_at_the_end(text@, taken as nat, count as nat);
        }
        assert(text@.subrange(0, end as int) =~= text@.take(end as int));
    }
    String::from_str(text.substring_char(0, end))
}

/// The position after the last `c` in `s` before position `upto`, or 0 if
/// there is none.
pub open spec fn after_last(s: Seq<char>, c: char, upto: int) -> int
    decreases upto,
{
    if upto <= 0 {
        0
    } else if s[upto - 1] == c {
        upto
    } else {
        after_last(s, c, upto - 1)
    }
}

/// What follows the last `.` of `s`, and all of `s` if it has none.
pub open spec fn last_segment(s: Seq<char>) -> Seq<char> {
    s.skip(after_last(s, '.', s.len() as int))
}

/// The digit for a number below ten.
pub open spec fn digit_of(d: nat) -> char {
    if d == 0 {
        '0'
    } else if d == 1 {
        '1'
    } else if d == 2 {
        '2'
    } else if d == 3 {
        '3'
    } else if d == 4 {
        '4'
    } else if d == 5 {
        '5'
    } else if d == 6 {
        '6'
    } else if d == 7 {
        '7'
    } else if d == 8 {
        '8'
    } else {
        '9'
    }
}

/// The decimal digits of `n`, without leading zeros.
pub open spec fn decimal_of(n: nat) -> Seq<char>
    decreases n,
{
    if n < 10 {
        seq![digit_of(n)]
    } else {
        decimal_of(n / 10).push(digit_of(n % 10))
    }
}

/// The display name of the user `username` with the number `number`:
/// `User `, what follows the last `.` of the user's name, and the number
/// as `(random=..)`.
pub open spec fn display_name_of(username: Seq<char>, number: nat) -> Seq<char> {
    "User "@ + last_segment(username) + " (random="@ + decimal_of(number) + ")"@
}

/// The digit for a number below ten.
fn digit(d: usize) -> (text: &'static str)
    requires
        d < 10,
    ensures
        text@ == seq![digit_of(d as nat)],
{
    proof {
        reveal_strlit("0");
        reveal_strlit("1");
        reveal_strlit("2");
        reveal_strlit("3");
        reveal_strlit("4");
        reveal_strlit("5");
        reveal_strlit("6");
        reveal_strlit("7");
        reveal_strlit("8");
        reveal_strlit("9");
    }
    let text = match d {
        0 => "0",
        1 => "1",
        2 => "2",
        3 => "3",
        4 => "4",
        5 => "5",
        6 => "6",
        7 => "7",
        8 => "8",
        _ => "9",
    };
    assert(text@ =~= seq![digit_of(d as nat)]);
    text
}

/// Writes the decimal digits of `n` after `text`.
pub fn append_decimal(text: &mut String, n: usize)
    ensures
        final(text)@ == old(text)@ + decimal_of(n as nat),
    decreases n,
{
    if n >= 10 {
        append_decimal(text, n / 10);
    }
    text.append(digit(n % 10));
    proof {
        if n >= 10 {
            assert(old(text)@ + decimal_of(n as nat) =~= (old(text)@ + decimal_of((n / 10) as nat)).push(
                digit_of((n % 10) as nat),
            ));
            assert(text@ =~= (old(text)@ + decimal_of((n / 10) as nat)) + seq![digit_of((n % 10) as nat)]);
        } else {
            assert(text@ =~= old(text)@ + decimal_of(n as nat));
        }
    }
}

/// The display name of the user `username` with the number `number`.
pub fn display_name(username: &str, number: usize) -> (name: String)
    ensures
        name@ == display_name_of(username@, number as nat),
{
    let chars = to_chars(username);
    let n = chars.len();
    let mut start: usize = n;
    while start > 0 && chars[start - 1] != '.'
        invariant
            n == chars@.len(),
            start <= n,
            after_last(chars@, '.', n as int) == after_last(chars@, '.', start as int),
        decreases start,
    {
        start -= 1;
    }
    assert(username@.subrange(start as int, n as int) =~= last_segment(username@));
    let mut name = String::from_str("User ");
    name.append(username.substring_char(start, n));
    name.append(" (random=");
    append_decimal(&mut name, number);
    name.append(")");
    name
}

/// A display name for the user `username`, with a number drawn at random
/// from 1 to 999.
pub fn random_display_name(username: &str) -> (name: String)
    ensures
        exists|number: nat| 1 <= number <= DISPLAY_NAME_NUMBERS && name@ == #[trigger] display_name_of(username@, number),
{
    let number = match choose_index(DISPLAY_NAME_NUMBERS) {
        Some(i) => i + 1,
        None => 1,
    };
    display_name(username, number)
}

/// The reaction at position `pick` of the list of reactions.
pub fn reaction(pick: usize) -> (key: &'static str)
    requires
        pick < REACTION_COUNT,
    ensures
        key@ == match pick {
            0 => "💩"@,
            1 => "👍"@,
            2 => "❤️"@,
            3 => "👎"@,
            4 => "🤯"@,
            5 => "😱"@,
            _ => "👏"@,
        },
{
    match pick {
        0 => "💩",
        1 => "👍",
        2 => "❤️",
        3 => "👎",
        4 => "🤯",
        5 => "😱",
        _ => "👏",
    }
}

/// A reaction, picked at random from the list of reactions.
pub fn random_reaction() -> (key: &'static str)
    ensures
        key@ == "💩"@ || key@ == "👍"@ || key@ == "❤️"@ || key@ == "👎"@ || key@ == "🤯"@ || key@ == "😱"@ || key@
            == "👏"@,
{
    match choose_index(REACTION_COUNT) {
        Some(pick) => reaction(pick),
        None => reaction(0),
    }
}

} // verus!
