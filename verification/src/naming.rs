//! The name under which a request is accounted.
//!
//! Requests are reported by endpoint, not by URL: what varies from one
//! request to the next (the query, room ids, user ids, transaction ids) is
//! cut out of the URL or collapsed to a `_`, so that all requests to one
//! endpoint share one name. A room id starts with `!`, a user id with `@`,
//! and a transaction id follows `/send/` and the type of the event.

use vstd::prelude::*;
use vstd::string::{StrSliceExecFns, StringExecFns};

verus! {

/// The position of the first `c` in `s` at or after position `from`.
pub open spec fn find_char(s: Seq<char>, c: char, from: int) -> Option<int>
    decreases s.len() - from,
{
    if from < 0 || from >= s.len() {
        None
    } else if s[from] == c {
        Some(from)
    } else {
        find_char(s, c, from + 1)
    }
}

/// Whether `pattern` stands in `s` at position `at`.
pub open spec fn occurs_at(s: Seq<char>, pattern: Seq<char>, at: int) -> bool {
    &&& 0 <= at
    &&& at + pattern.len() <= s.len()
    &&& s.subrange(at, at + pattern.len()) == pattern
}

/// The position of the first `pattern` in `s` at or after position `from`.
pub open spec fn find_pattern(s: Seq<char>, pattern: Seq<char>, from: int) -> Option<int>
    decreases s.len() - from + 1,
{
    if from < 0 || from + pattern.len() > s.len() {
        None
    } else if occurs_at(s, pattern, from) {
        Some(from)
    } else {
        find_pattern(s, pattern, from + 1)
    }
}

/// `s` up to its first `?`, and all of it if it has none.
pub open spec fn without_query(s: Seq<char>) -> Seq<char> {
    match find_char(s, '?', 0) {
        Some(i) => s.take(i),
        None => s,
    }
}

/// Whether an id starts with `c`: `!` starts a room id, `@` a user id.
pub open spec fn is_id_mark(c: char) -> bool {
    c == '!' || c == '@'
}

/// `s` from position `from` on, with every stretch from a `!` or `@` up
/// to the next `/` replaced by `_`; the last stretch may run to the end.
/// `inside` says whether position `from` lies in such a stretch.
pub open spec fn collapsed_ids_from(s: Seq<char>, from: int, inside: bool) -> Seq<char>
    decreases s.len() - from,
{
    if from < 0 || from >= s.len() {
        Seq::empty()
    } else if inside {
        if s[from] == '/' {
            seq!['/'] + collapsed_ids_from(s, from + 1, false)
        } else {
            collapsed_ids_from(s, from + 1, true)
        }
    } else if is_id_mark(s[from]) {
        seq!['_'] + collapsed_ids_from(s, from + 1, true)
    } else {
        seq![s[from]] + collapsed_ids_from(s, from + 1, false)
    }
}

/// `s` with every stretch from a `!` or `@` up to the next `/` replaced by `_`.
pub open spec fn with_collapsed_ids(s: Seq<char>) -> Seq<char> {
    collapsed_ids_from(s, 0, false)
}

/// The path segment that the type of an event and then the transaction
/// id follow.
pub open spec fn send_segment() -> Seq<char> {
    "/send/"@
}

/// `s` with all that follows `/send/` and the segment after it replaced
/// by `_`. Without a `/send/`, or without a `/` after the segment that
/// follows it, `s` itself.
pub open spec fn with_collapsed_transaction(s: Seq<char>) -> Seq<char> {
    match find_pattern(s, send_segment(), 0) {
        Some(i) => match find_char(s, '/', i + send_segment().len()) {
            Some(j) => s.take(j + 1).push('_'),
            None => s,
        },
        None => s,
    }
}

/// `s` with all that follows its first `pattern` replaced by `_`.
/// Without a `pattern`, `s` itself.
pub open spec fn with_collapsed_rest(s: Seq<char>, pattern: Seq<char>) -> Seq<char> {
    match find_pattern(s, pattern, 0) {
        Some(i) => s.take(i + pattern.len()).push('_'),
        None => s,
    }
}

/// The path segment that a message's transaction id follows.
pub open spec fn message_segment() -> Seq<char> {
    "m.room.message/"@
}

/// The name under which the request to `url` is accounted: the URL
/// without its query, with every room id and user id collapsed, with the
/// transaction id after `/send/` and the event's type collapsed, and with
/// what follows `m.room.message/` collapsed.
pub open spec fn request_name_of(url: Seq<char>) -> Seq<char> {
    with_collapsed_rest(
        with_collapsed_transaction(with_collapsed_ids(without_query(url))),
        message_segment(),
    )
}

/// Whether `s` holds none of the characters that mark what varies from
/// request to request: no `?`, no `!`, no `@`.
pub open spec fn has_no_marks(s: Seq<char>) -> bool {
    forall|i: int| 0 <= i < s.len() ==> s[i] != '?' && !is_id_mark(#[trigger] s[i])
}

/// What `find_char` finds is the first `c` from `from` on, and it finds
/// none only where there is none.
pub proof fn lemma_find_char(s: Seq<char>, c: char, from: int)
    requires
        0 <= from,
    ensures
        match find_char(s, c, from) {
            Some(i) => {
                &&& from <= i < s.len()
                &&& s[i] == c
                &&& forall|k: int| from <= k < i ==> s[k] != c
            },
            None => forall|k: int| from <= k < s.len() ==> s[k] != c,
        },
    decreases s.len() - from,
{
    if from < s.len() && s[from] != c {
        lemma_find_char(s, c, from + 1);
    }
}

/// What `find_pattern` finds is the first place from `from` on where the
/// pattern stands, and it finds none only where it stands nowhere.
pub proof fn lemma_find_pattern(s: Seq<char>, pattern: Seq<char>, from: int)
    requires
        0 <= from,
    ensures
        match find_pattern(s, pattern, from) {
            Some(i) => {
                &&& from <= i
                &&& occurs_at(s, pattern, i)
                &&& forall|k: int| from <= k < i ==> !occurs_at(s, pattern, k)
            },
            None => forall|k: int| from <= k ==> !occurs_at(s, pattern, k),
        },
    decreases s.len() - from + 1,
{
    if from + pattern.len() <= s.len() && !occurs_at(s, pattern, from) {
        lemma_find_pattern(s, pattern, from + 1);
    }
}

/// Collapsing the ids leaves no `!` and no `@`, and brings in no `?`.
pub proof fn lemma_collapsed_ids_have_no_marks(s: Seq<char>, from: int, inside: bool)
    requires
        0 <= from,
        forall|k: int| from <= k < s.len() ==> s[k] != '?',
    ensures
        has_no_marks(collapsed_ids_from(s, from, inside)),
    decreases s.len() - from,
{
    if from < s.len() {
        lemma_collapsed_ids_have_no_marks(s, from + 1, true);
        lemma_collapsed_ids_have_no_marks(s, from + 1, false);
    }
}

/// The name of a request holds no `?`, no `!` and no `@`: the query is
/// gone, and every room id and user id is collapsed.
pub proof fn lemma_request_name_has_no_marks(url: Seq<char>)
    ensures
        has_no_marks(request_name_of(url)),
{
    let cut = without_query(url);
    lemma_find_char(url, '?', 0);
    assert(forall|k: int| 0 <= k < cut.len() ==> cut[k] != '?');
    lemma_collapsed_ids_have_no_marks(cut, 0, false);
    let ids = with_collapsed_ids(cut);
    let sent = with_collapsed_transaction(ids);
    assert(has_no_marks(sent)) by {
        lemma_find_pattern(ids, send_segment(), 0);
        match find_pattern(ids, send_segment(), 0) {
            Some(i) => {
                lemma_find_char(ids, '/', i + send_segment().len());
            },
            None => {},
        }
    }
    assert(has_no_marks(with_collapsed_rest(sent, message_segment()))) by {
        lemma_find_pattern(sent, message_segment(), 0);
    }
}

/// The characters of a string.
pub fn to_chars(s: &str) -> (chars: Vec<char>)
    ensures
        chars@ == s@,
{
    let mut chars: Vec<char> = Vec::new();
    for c in it: s.chars()
        invariant
            chars@ == it.seq().take(it.index() as int),
            it.seq() == s@,
    {
        chars.push(c);
    }
    chars
}

/// The position of the first `c` in `chars` at or after position `from`.
pub fn position_of(chars: &Vec<char>, c: char, from: usize) -> (found: Option<usize>)
    ensures
        match found {
            Some(i) => from <= i < chars@.len() && find_char(chars@, c, from as int) == Some(i as int),
            None => find_char(chars@, c, from as int) is None,
        },
{
    let mut i: usize = from;
    while i < chars.len()
        invariant
            from <= i,
            find_char(chars@, c, from as int) == find_char(chars@, c, i as int),
        decreases chars.len() - i,
    {
        if chars[i] == c {
            return Some(i);
        }
        i += 1;
    }
    None
}

/// Whether `pattern` stands in `chars` at position `at`.
pub fn stands_at(chars: &Vec<char>, pattern: &Vec<char>, at: usize) -> (found: bool)
    requires
        at + pattern@.len() <= chars@.len(),
    ensures
        found == occurs_at(chars@, pattern@, at as int),
{
    let n = chars.len();
    let mut k: usize = 0;
    while k < pattern.len()
        invariant
            n == chars@.len(),
            k <= pattern@.len(),
            at + pattern@.len() <= n,
            forall|m: int| 0 <= m < k ==> chars@[at + m] == pattern@[m],
        decreases pattern.len() - k,
    {
        if chars[at + k] != pattern[k] {
            proof {
                let stretch = chars@.subrange(at as int, at + pattern@.len());
                assert(stretch[k as int] == chars@[at + k]);
            }
            return false;
        }
        k += 1;
    }
    assert(chars@.subrange(at as int, at + pattern@.len()) =~= pattern@);
    true
}

/// The position of the first `pattern` in `chars`.
pub fn position_of_pattern(chars: &Vec<char>, pattern: &Vec<char>) -> (found: Option<usize>)
    ensures
        match found {
            Some(i) => i + pattern@.len() <= chars@.len() && find_pattern(chars@, pattern@, 0) == Some(i as int),
            None => find_pattern(chars@, pattern@, 0) is None,
        },
{
    if pattern.len() > chars.len() {
        return None;
    }
    if pattern.len() == 0 {
        assert(chars@.subrange(0, 0) =~= pattern@);
        return Some(0);
    }
    let end: usize = chars.len() - pattern.len() + 1;
    let mut i: usize = 0;
    while i < end
        invariant
            end == chars@.len() - pattern@.len() + 1,
            i <= end,
            find_pattern(chars@, pattern@, 0) == find_pattern(chars@, pattern@, i as int),
        decreases end - i,
    {
        if stands_at(chars, pattern, i) {
            return Some(i);
        }
        i += 1;
    }
    None
}

/// `name` up to its first `?`.
pub fn strip_query(name: &str) -> (stripped: String)
    ensures
        stripped@ == without_query(name@),
{
    let chars = to_chars(name);
    match position_of(&chars, '?', 0) {
        Some(i) => {
            assert(name@.subrange(0, i as int) =~= name@.take(i as int));
            String::from_str(name.substring_char(0, i))
        },
        None => String::from_str(name),
    }
}

/// `name` with every stretch from a `!` or `@` up to the next `/`
/// replaced by `_`.
pub fn collapse_ids(name: &str) -> (collapsed: String)
    ensures
        collapsed@ == with_collapsed_ids(name@),
{
    let chars = to_chars(name);
    let n = chars.len();
    proof {
        reveal_strlit("_");
        assert("_"@ =~= seq!['_']);
    }
    let mut collapsed = String::new();
    // Where the stretch of plain characters starts that is not copied yet.
    let mut kept_from: usize = 0;
    let mut inside = false;
    let mut i: usize = 0;
    while i < n
        invariant
            n == chars@.len(),
            chars@ == name@,
            "_"@ == seq!['_'],
            kept_from <= i <= n,
            collapsed@ + (if inside {
                Seq::<char>::empty()
            } else {
                name@.subrange(kept_from as int, i as int)
            }) + collapsed_ids_from(name@, i as int, inside) == with_collapsed_ids(name@),
        decreases n - i,
    {
        let c = chars[i];
        let ghost before = collapsed@;
        let ghost rest = collapsed_ids_from(name@, i + 1, if inside {
            c != '/'
        } else {
            c == '!' || c == '@'
        });
        if inside {
            if c == '/' {
                inside = false;
                kept_from = i;
                assert(before + name@.subrange(i as int, i + 1) + rest =~= before + Seq::<char>::empty() + (seq!['/']
                    + rest));
            }
        } else if c == '!' || c == '@' {
            collapsed.append(name.substring_char(kept_from, i));
            collapsed.append("_");
            inside = true;
            assert(collapsed@ + Seq::<char>::empty() + rest =~= before + name@.subrange(
                kept_from as int,
                i as int,
            ) + (seq!['_'] + rest));
        } else {
            assert(before + name@.subrange(kept_from as int, i + 1) + rest =~= before + name@.subrange(
                kept_from as int,
                i as int,
            ) + (seq![c] + rest));
        }
        i += 1;
    }
    if !inside {
        collapsed.append(name.substring_char(kept_from, n));
    }
    assert(collapsed@ =~= with_collapsed_ids(name@));
    collapsed
}

/// `name` with all that follows `/send/` and the segment after it
/// replaced by `_`.
pub fn collapse_transaction(name: &str) -> (collapsed: String)
    ensures
        collapsed@ == with_collapsed_transaction(name@),
{
    let chars = to_chars(name);
    let send = to_chars("/send/");
    let n = chars.len();
    proof {
        reveal_strlit("_");
        assert("_"@ =~= seq!['_']);
    }
    match position_of_pattern(&chars, &send) {
        Some(i) => match position_of(&chars, '/', i + send.len()) {
            Some(j) => {
                assert(j < n);
                let mut collapsed = String::from_str(name.substring_char(0, j + 1));
                collapsed.append("_");
                assert(collapsed@ =~= name@.take(j + 1).push('_'));
                collapsed
            },
            None => String::from_str(name),
        },
        None => String::from_str(name),
    }
}

/// `name` with all that follows its first `pattern` replaced by `_`.
pub fn collapse_rest(name: &str, pattern: &str) -> (collapsed: String)
    ensures
        collapsed@ == with_collapsed_rest(name@, pattern@),
{
    let chars = to_chars(name);
    let wanted = to_chars(pattern);
    proof {
        reveal_strlit("_");
        assert("_"@ =~= seq!['_']);
    }
    match position_of_pattern(&chars, &wanted) {
        Some(i) => {
            assert(i + wanted@.len() <= chars.len());
            let mut collapsed = String::from_str(name.substring_char(0, i + wanted.len()));
            collapsed.append("_");
            assert(collapsed@ =~= name@.take(i + pattern@.len()).push('_'));
            collapsed
        },
        None => String::from_str(name),
    }
}

/// The name under which the request to `url` is accounted.
pub fn request_name(url: &str) -> (name: String)
    ensures
        name@ == request_name_of(url@),
{
    let name = strip_query(url);
    let name = collapse_ids(name.as_str());
    let name = collapse_transaction(name.as_str());
    collapse_rest(name.as_str(), "m.room.message/")
}

} // verus!
