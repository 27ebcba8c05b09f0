//! What a run is set up from: the users and their credentials, the rooms to
//! create with their creators and guests, and the rule for repeating a
//! setup request that failed.

use vstd::prelude::*;
use vstd::string::{StrSliceExecFns, StringExecFns};
use std::collections::HashMap;
use crate::naming::{occurs_at, stands_at, to_chars};

verus! {

broadcast use vstd::std_specs::hash::group_hash_axioms;

/// The number of times that a setup request is tried.
pub const SETUP_ATTEMPTS: u32 = 3;

/// A user's credentials.
#[derive(Clone, Debug, PartialEq, Eq)]
pub struct User {
    pub username: String,
    pub password: String,
}

/// A room to create.
#[derive(Clone, Debug, PartialEq, Eq)]
pub struct RoomInfo {
    /// The user who creates the room.
    pub creator: String,
    /// The room's name.
    pub name: String,
    /// The users to invite.
    pub users: Vec<String>,
}

/// The rooms to create.
#[derive(Clone, Debug, PartialEq, Eq)]
pub struct RoomList {
    pub creators: Vec<RoomInfo>,
}

/// A lookup that found nothing.
#[derive(Clone, Copy, Debug, PartialEq, Eq, Structural)]
pub enum LookupError {
    /// Nothing is registered for the user.
    NotFound,
}

/// The user in slot `index`, where there is one.
pub fn user_at(users: &Vec<User>, index: usize) -> (res: Result<&User, LookupError>)
    ensures
        match res {
            Ok(user) => index < users@.len() && *user == users@[index as int],
            Err(e) => index >= users@.len() && e == LookupError::NotFound,
        },
{
    if index < users.len() {
        Ok(&users[index])
    } else {
        Err(LookupError::NotFound)
    }
}

/// The positions of the rooms among `rooms` that `creator` creates, in order.
pub open spec fn rooms_created_by(rooms: Seq<RoomInfo>, creator: Seq<char>) -> Seq<int>
    decreases rooms.len(),
{
    if rooms.len() == 0 {
        Seq::empty()
    } else if rooms.last().creator@ == creator {
        rooms_created_by(rooms.drop_last(), creator).push(rooms.len() - 1)
    } else {
        rooms_created_by(rooms.drop_last(), creator)
    }
}

/// The positions that `rooms_created_by` gives are those of the rooms of
/// `creator`, all of them, each once and in rising order.
pub proof fn lemma_rooms_created_by(rooms: Seq<RoomInfo>, creator: Seq<char>)
    ensures
        ({
            let found = rooms_created_by(rooms, creator);
            &&& forall|k: int|
                0 <= k < found.len() ==> 0 <= #[trigger] found[k] < rooms.len() && rooms[found[k]].creator@
                    == creator
            &&& forall|k: int, m: int| 0 <= k < m < found.len() ==> found[k] < found[m]
            &&& forall|i: int|
                0 <= i < rooms.len() && (#[trigger] rooms[i]).creator@ == creator ==> found.contains(i)
        }),
    decreases rooms.len(),
{
    if rooms.len() > 0 {
        let front = rooms.drop_last();
        let before = rooms_created_by(front, creator);
        let found = rooms_created_by(rooms, creator);
        lemma_rooms_created_by(front, creator);
        assert(forall|i: int| 0 <= i < front.len() ==> front[i] == rooms[i]);
        assert forall|i: int| 0 <= i < rooms.len() && (#[trigger] rooms[i]).creator@ == creator implies found.contains(
            i,
        ) by {
            if i < front.len() {
                assert(front[i].creator@ == creator);
                let k = choose|k: int| 0 <= k < before.len() && before[k] == i;
                assert(found[k] == i);
            } else {
                assert(found[found.len() - 1] == i);
            }
        }
    }
}

impl RoomList {
    /// The positions of the rooms that `creator` creates, in order.
    pub fn rooms_of(&self, creator: &String) -> (found: Vec<usize>)
        ensures
            found@.len() == rooms_created_by(self.creators@, creator@).len(),
            forall|k: int| 0 <= k < found@.len() ==> found@[k] == rooms_created_by(self.creators@, creator@)[k],
            forall|k: int| 0 <= k < found@.len() ==> found@[k] < self.creators@.len(),
    {
        let mut found: Vec<usize> = Vec::new();
        let mut i: usize = 0;
        while i < self.creators.len()
            invariant
                i <= self.creators@.len(),
                found@.len() == rooms_created_by(self.creators@.take(i as int), creator@).len(),
                forall|k: int|
                    0 <= k < found@.len() ==> found@[k] == rooms_created_by(
                        self.creators@.take(i as int),
                        creator@,
                    )[k],
                forall|k: int| 0 <= k < found@.len() ==> found@[k] < i,
            decreases self.creators.len() - i,
        {
            proof {
                assert(self.creators@.take(i + 1).drop_last() =~= self.creators@.take(i as int));
                assert(self.creators@.take(i + 1).last() == self.creators@[i as int]);
            }
            if self.creators[i].creator == *creator {
                found.push(i);
            }
            i += 1;
        }
        proof {
            assert(self.creators@.take(i as int) =~= self.creators@);
        }
        found
    }

    /// Whether `creator` creates a room.
    pub fn creates_any(&self, creator: &String) -> (any: bool)
        ensures
            any == (rooms_created_by(self.creators@, creator@).len() > 0),
    {
        self.rooms_of(creator).len() > 0
    }
}

/// The full id of the user `name` on the server `server_name`.
pub open spec fn user_id_of(name: Seq<char>, server_name: Seq<char>) -> Seq<char> {
    seq!['@'] + name + seq![':'] + server_name
}

/// The full id of the user `name` on the server `server_name`.
pub fn full_user_id(name: &str, server_name: &str) -> (id: String)
    ensures
        id@ == user_id_of(name@, server_name@),
{
    proof {
        reveal_strlit("@");
        reveal_strlit(":");
        assert("@"@ =~= seq!['@']);
        assert(":"@ =~= seq![':']);
    }
    let mut id = String::from_str("@");
    id.append(name);
    id.append(":");
    id.append(server_name);
    id
}

/// `s` from position `from` on, with every `pattern` cut out. The
/// patterns are found from left to right, and none overlaps the one
/// before it. Nothing is cut out for the empty pattern.
pub open spec fn without_pattern_from(s: Seq<char>, pattern: Seq<char>, from: int) -> Seq<char>
    decreases s.len() - from,
{
    if from < 0 || from >= s.len() {
        Seq::empty()
    } else if pattern.len() > 0 && occurs_at(s, pattern, from) {
        without_pattern_from(s, pattern, from + pattern.len())
    } else {
        seq![s[from]] + without_pattern_from(s, pattern, from + 1)
    }
}

/// The label that a host name carries where the server and its users'
/// ids differ by it.
pub open spec fn host_label() -> Seq<char> {
    "matrix."@
}

/// The name of the server in its users' ids, for a server at `host`: the
/// host name without any `matrix.` in it.
pub open spec fn server_name_of(host: Seq<char>) -> Seq<char> {
    without_pattern_from(host, host_label(), 0)
}

/// `text` with every `pattern` cut out.
pub fn without_pattern(text: &str, pattern: &str) -> (cut: String)
    ensures
        cut@ == without_pattern_from(text@, pattern@, 0),
{
    let chars = to_chars(text);
    let wanted = to_chars(pattern);
    let n = chars.len();
    let m = wanted.len();
    let mut cut = String::new();
    // Where the stretch starts that is kept and not copied yet.
    let mut kept_from: usize = 0;
    let mut i: usize = 0;
    while i < n
        invariant
            n == chars@.len(),
            m == wanted@.len(),
            chars@ == text@,
            wanted@ == pattern@,
            kept_from <= i <= n,
            cut@ + text@.subrange(kept_from as int, i as int) + without_pattern_from(text@, pattern@, i as int)
                == without_pattern_from(text@, pattern@, 0),
        decreases n - i,
    {
        let ghost before = cut@;
        if m > 0 && m <= n - i && stands_at(&chars, &wanted, i) {
            cut.append(text.substring_char(kept_from, i));
            i += m;
            kept_from = i;
            assert(cut@ + text@.subrange(kept_from as int, i as int) =~= cut@);
        } else {
            let ghost rest = without_pattern_from(text@, pattern@, i + 1);
            assert(before + text@.subrange(kept_from as int, i + 1) + rest =~= before + text@.subrange(
                kept_from as int,
                i as int,
            ) + (seq![text@[i as int]] + rest));
            i += 1;
        }
    }
    cut.append(text.substring_char(kept_from, n));
    assert(cut@ =~= without_pattern_from(text@, pattern@, 0));
    cut
}

/// The name of the server in its users' ids, for a server at `host`.
pub fn server_name(host: &str) -> (name: String)
    ensures
        name@ == server_name_of(host@),
{
    without_pattern(host, "matrix.")
}

/// What follows an attempt of a setup request.
#[derive(Clone, Copy, Debug, PartialEq, Eq, Structural)]
pub enum SetupStep {
    /// The request succeeded.
    Succeeded,
    /// The request failed; try again.
    TryAgain,
    /// The request failed for the last time; go on without it.
    Skip,
}

/// The attempts that are left for one setup request.
#[derive(Clone, Copy, Debug, PartialEq, Eq)]
pub struct Retries {
    left: u32,
}

impl View for Retries {
    type V = u32;

    closed spec fn view(&self) -> u32 {
        self.left
    }
}

/// What follows an attempt with `left` attempts left, itself included.
pub open spec fn setup_step(left: u32, ok: bool) -> SetupStep {
    if ok {
        SetupStep::Succeeded
    } else if left > 1 {
        SetupStep::TryAgain
    } else {
        SetupStep::Skip
    }
}

/// The attempts that are left after an attempt: none after a success, and
/// one less after a failure.
pub open spec fn left_after(left: u32, ok: bool) -> u32 {
    if ok || left == 0 {
        0
    } else {
        (left - 1) as u32
    }
}

impl Retries {
    /// No more attempts are left than there are at the start.
    #[verifier::type_invariant]
    spec fn within_bounds(self) -> bool {
        self.left <= SETUP_ATTEMPTS
    }

    /// Three attempts, none made yet.
    pub fn new() -> (r: Retries)
        ensures
            r@ == SETUP_ATTEMPTS,
    {
        Retries { left: SETUP_ATTEMPTS }
    }

    /// The number of the attempt that is due, counted from 1, or `None`
    /// when no attempt is left.
    pub fn attempt(&self) -> (number: Option<u32>)
        ensures
            self@ <= SETUP_ATTEMPTS,
            number == if self@ > 0 {
                Some((SETUP_ATTEMPTS + 1 - self@) as u32)
            } else {
                None
            },
    {
        proof {
            use_type_invariant(self);
        }
        if self.left > 0 {
            Some(SETUP_ATTEMPTS + 1 - self.left)
        } else {
            None
        }
    }

    /// Takes the result of the attempt that was due, and says what follows.
    pub fn record(&mut self, ok: bool) -> (step: SetupStep)
        ensures
            step == setup_step(old(self)@, ok),
            final(self)@ == left_after(old(self)@, ok),
            final(self)@ <= old(self)@,
    {
        proof {
            use_type_invariant(&*self);
        }
        let left = self.left;
        if ok {
            self.left = 0;
            SetupStep::Succeeded
        } else if left > 1 {
            self.left = left - 1;
            SetupStep::TryAgain
        } else {
            self.left = 0;
            SetupStep::Skip
        }
    }
}

/// The attempts left after a series of results.
pub open spec fn left_after_all(left: u32, results: Seq<bool>) -> u32
    decreases results.len(),
{
    if results.len() == 0 {
        left
    } else {
        left_after(left_after_all(left, results.drop_last()), results.last())
    }
}

/// A setup request is tried three times at most: after three failures no
/// attempt is left, and the third failure says to skip the request.
pub proof fn lemma_three_attempts_at_most()
    ensures
        left_after_all(SETUP_ATTEMPTS, seq![false, false, false]) == 0,
        setup_step(left_after_all(SETUP_ATTEMPTS, seq![false, false]), false) == SetupStep::Skip,
        setup_step(left_after_all(SETUP_ATTEMPTS, seq![false]), false) == SetupStep::TryAgain,
        setup_step(SETUP_ATTEMPTS, false) == SetupStep::TryAgain,
{
    reveal_with_fuel(left_after_all, 4);
    let three = seq![false, false, false];
    assert(three.drop_last() =~= seq![false, false]);
    assert(three.drop_last().drop_last() =~= seq![false]);
    assert(seq![false, false].drop_last() =~= seq![false]);
    assert(seq![false].drop_last() =~= Seq::<bool>::empty());
}

/// After a success no attempt is left, whatever results are reported later.
pub proof fn lemma_success_ends_attempts(left: u32, results: Seq<bool>)
    ensures
        left_after_all(left_after(left, true), results) == 0,
    decreases results.len(),
{
    if results.len() > 0 {
        lemma_success_ends_attempts(left, results.drop_last());
    }
}

/// What is kept for each user of a run, by the user's slot.
pub struct Registry<T> {
    slots: HashMap<usize, T>,
}

impl<T> View for Registry<T> {
    type V = Map<usize, T>;

    closed spec fn view(&self) -> Map<usize, T> {
        self.slots@
    }
}

impl<T> Registry<T> {
    /// A registry without users.
    pub fn new() -> (registry: Registry<T>)
        ensures
            registry@ == Map::<usize, T>::empty(),
    {
        Registry { slots: HashMap::new() }
    }

    /// Registers `entry` for the user in slot `index`, in place of what
    /// was registered there before.
    pub fn register(&mut self, index: usize, entry: T)
        ensures
            final(self)@ == old(self)@.insert(index, entry),
    {
        self.slots.insert(index, entry);
    }

    /// What is registered for the user in slot `index`.
    pub fn get(&self, index: usize) -> (res: Result<&T, LookupError>)
        ensures
            match res {
                Ok(entry) => self@.contains_key(index) && *entry == self@[index],
                Err(e) => !self@.contains_key(index) && e == LookupError::NotFound,
            },
    {
        match self.slots.get(&index) {
            Some(entry) => Ok(entry),
            None => Err(LookupError::NotFound),
        }
    }
}

} // verus!
