//! Per-user preferences: whether links posted by a user are rewritten
//! automatically. A user who was never set is disabled.

use vstd::prelude::*;

verus! {

/// The preference mapping as a mathematical map from user identifier to flag.
pub type Preferences = Map<Seq<char>, bool>;

/// What the store answers for `user_id`: the stored flag, `false` when absent.
pub open spec fn spec_get(prefs: Preferences, user_id: Seq<char>) -> bool {
    if prefs.contains_key(user_id) {
        prefs[user_id]
    } else {
        false
    }
}

/// The mapping after `user_id` has been set to `value`.
pub open spec fn spec_set(prefs: Preferences, user_id: Seq<char>, value: bool) -> Preferences {
    prefs.insert(user_id, value)
}

/// The mapping that a list of entries stands for; of two entries with the
/// same user the later one counts.
pub open spec fn entries_map(entries: Seq<(String, bool)>) -> Preferences
    decreases entries.len(),
{
    if entries.len() == 0 {
        Map::empty()
    } else {
        entries_map(entries.drop_last()).insert(entries.last().0@, entries.last().1)
    }
}

/// No user occurs twice in `entries`.
pub open spec fn distinct_users(entries: Seq<(String, bool)>) -> bool {
    forall|i: int, j: int|
        0 <= i < j < entries.len() ==> (#[trigger] entries[i]).0@ != (#[trigger] entries[j]).0@
}

/// A user is in the mapping exactly when one of the entries names them.
pub proof fn lemma_entries_map_domain(entries: Seq<(String, bool)>, user_id: Seq<char>)
    ensures
        entries_map(entries).contains_key(user_id) <==> exists|i: int|
            0 <= i < entries.len() && (#[trigger] entries[i]).0@ == user_id,
    decreases entries.len(),
{
    if entries.len() > 0 {
        let front = entries.drop_last();
        lemma_entries_map_domain(front, user_id);
        if entries_map(entries).contains_key(user_id) {
            if entries.last().0@ == user_id {
                assert(entries[entries.len() - 1].0@ == user_id);
            } else {
                let i = choose|i: int| 0 <= i < front.len() && (#[trigger] front[i]).0@ == user_id;
                assert(entries[i].0@ == user_id);
            }
        }
        if exists|i: int| 0 <= i < entries.len() && (#[trigger] entries[i]).0@ == user_id {
            let i = choose|i: int| 0 <= i < entries.len() && (#[trigger] entries[i]).0@ == user_id;
            if i < entries.len() - 1 {
                assert(front[i].0@ == user_id);
            }
        }
    }
}

/// With no user twice, each entry's flag is the one the mapping holds.
pub proof fn lemma_entries_map_value(entries: Seq<(String, bool)>, i: int)
    requires
        distinct_users(entries),
        0 <= i < entries.len(),
    ensures
        entries_map(entries).contains_key(entries[i].0@),
        entries_map(entries)[entries[i].0@] == entries[i].1,
    decreases entries.len(),
{
    let front = entries.drop_last();
    if i < entries.len() - 1 {
        assert(distinct_users(front)) by {
            assert forall|a: int, b: int| 0 <= a < b < front.len() implies (#[trigger] front[a]).0@
                != (#[trigger] front[b]).0@ by {
                assert(entries[a].0@ != entries[b].0@);
            }
        }
        lemma_entries_map_value(front, i);
        assert(front[i] == entries[i]);
        assert(entries[i].0@ != entries[entries.len() - 1].0@);
    }
}

/// Replacing the flag of entry `i` sets that entry's user in the mapping.
pub proof fn lemma_entries_map_update(entries: Seq<(String, bool)>, i: int, entry: (String, bool))
    requires
        0 <= i < entries.len(),
        distinct_users(entries),
        entry.0@ == entries[i].0@,
    ensures
        distinct_users(entries.update(i, entry)),
        entries_map(entries.update(i, entry)) == entries_map(entries).insert(entry.0@, entry.1),
    decreases entries.len(),
{
    let updated = entries.update(i, entry);
    assert(distinct_users(updated)) by {
        assert forall|a: int, b: int| 0 <= a < b < updated.len() implies (#[trigger] updated[a]).0@
            != (#[trigger] updated[b]).0@ by {
            assert(entries[a].0@ != entries[b].0@);
        }
    }
    let front = entries.drop_last();
    if i == entries.len() - 1 {
        assert(updated.drop_last() =~= front);
        assert(entries_map(updated) =~= entries_map(entries).insert(entry.0@, entry.1));
    } else {
        assert(distinct_users(front)) by {
            assert forall|a: int, b: int| 0 <= a < b < front.len() implies (#[trigger] front[a]).0@
                != (#[trigger] front[b]).0@ by {
                assert(entries[a].0@ != entries[b].0@);
            }
        }
        lemma_entries_map_update(front, i, entry);
        assert(updated.drop_last() =~= front.update(i, entry));
        assert(updated.last() == entries.last());
        assert(entries[i].0@ != entries[entries.len() - 1].0@);
        assert(entries_map(updated) =~= entries_map(entries).insert(entry.0@, entry.1));
    }
}

/// Why the stored configuration could not be loaded or saved.
#[derive(Clone, Copy, Debug, PartialEq, Eq, Structural)]
pub enum StoreError {
    /// The backing file does not exist.
    ConfigMissing,
    /// The backing file exists but does not hold what is expected.
    ConfigCorrupt,
    /// The mapping could not be written back.
    PersistError,
}

/// The chat platform's secret.
#[derive(Debug, PartialEq, Eq)]
pub struct Token {
    pub token: String,
}

/// The settings store: one flag per user, no user twice. The mapping is
/// kept as a list of entries, so that it can be handed out whole for
/// writing and every operation on it is proved.
#[derive(Debug)]
pub struct UserSetting {
    user_map: Vec<(String, bool)>,
}

impl View for UserSetting {
    type V = Preferences;

    closed spec fn view(&self) -> Preferences {
        entries_map(self.user_map@)
    }
}

impl UserSetting {
    /// The store's invariant: no user occurs twice.
    pub closed spec fn wf(&self) -> bool {
        distinct_users(self.user_map@)
    }

    /// The empty store: every user is disabled.
    pub fn new() -> (store: UserSetting)
        ensures
            store.wf(),
            store@ == Map::<Seq<char>, bool>::empty(),
    {
        UserSetting { user_map: Vec::new() }
    }

    /// Index of the entry of `user_id`, if there is one.
    fn position(&self, user_id: &String) -> (found: Option<usize>)
        ensures
            match found {
                Some(i) => i < self.user_map@.len() && self.user_map@[i as int].0@ == user_id@,
                None => forall|i: int|
                    0 <= i < self.user_map@.len() ==> (#[trigger] self.user_map@[i]).0@
                        != user_id@,
            },
    {
        let mut i: usize = 0;
        while i < self.user_map.len()
            invariant
                i <= self.user_map@.len(),
                forall|j: int| 0 <= j < i ==> (#[trigger] self.user_map@[j]).0@ != user_id@,
            decreases self.user_map@.len() - i,
        {
            if self.user_map[i].0 == *user_id {
                return Some(i);
            }
            i += 1;
        }
        None
    }

    /// The stored preference of `user_id`, `false` for a user never set.
    pub fn get(&self, user_id: &str) -> (enabled: bool)
        requires
            self.wf(),
        ensures
            enabled == spec_get(self@, user_id@),
            !self@.contains_key(user_id@) ==> !enabled,
    {
        let key = user_id.to_owned();
        proof {
            lemma_entries_map_domain(self.user_map@, user_id@);
        }
        match self.position(&key) {
            Some(i) => {
                proof {
                    lemma_entries_map_value(self.user_map@, i as int);
                }
                self.user_map[i].1
            },
            None => false,
        }
    }

    /// Sets the preference of `user_id`; every other user keeps theirs.
    pub fn set(&mut self, user_id: &str, value: bool)
        requires
            old(self).wf(),
        ensures
            final(self).wf(),
            final(self)@ == spec_set(old(self)@, user_id@, value),
    {
        let key = user_id.to_owned();
        proof {
            lemma_entries_map_domain(self.user_map@, user_id@);
        }
        match self.position(&key) {
            Some(i) => {
                proof {
                    lemma_entries_map_update(self.user_map@, i as int, (key, value));
                }
                self.user_map.set(i, (key, value));
            },
            None => {
                let ghost before = self.user_map@;
                self.user_map.push((key, value));
                proof {
                    assert(self.user_map@.drop_last() =~= before);
                    assert forall|a: int, b: int|
                        0 <= a < b < self.user_map@.len() implies (#[trigger] self.user_map@[a]).0@
                        != (#[trigger] self.user_map@[b]).0@ by {
                        if b < before.len() {
                            assert(before[a].0@ != before[b].0@);
                        } else {
                            assert(before[a].0@ != user_id@);
                        }
                    }
                }
            },
        }
    }
}

impl UserSetting {
    /// How many users have a stored preference.
    pub fn len(&self) -> (n: usize)
        requires
            self.wf(),
        ensures
            n == self@.dom().len(),
            self@.dom().finite(),
    {
        proof {
            lemma_entries_map_len(self.user_map@);
        }
        self.user_map.len()
    }

    /// The whole mapping as a list of entries, one for each user: what is
    /// written back on every change.
    pub fn entries(&self) -> (entries: Vec<(String, bool)>)
        requires
            self.wf(),
        ensures
            distinct_users(entries@),
            entries_map(entries@) == self@,
    {
        let mut entries: Vec<(String, bool)> = Vec::new();
        let mut i: usize = 0;
        while i < self.user_map.len()
            invariant
                i <= self.user_map@.len(),
                entries@.len() == i,
                forall|j: int|
                    0 <= j < i ==> (#[trigger] entries@[j]).0@ == self.user_map@[j].0@
                        && entries@[j].1 == self.user_map@[j].1,
            decreases self.user_map@.len() - i,
        {
            entries.push((self.user_map[i].0.clone(), self.user_map[i].1));
            i += 1;
        }
        proof {
            assert forall|a: int, b: int| 0 <= a < b < entries@.len() implies (
            #[trigger] entries@[a]).0@ != (#[trigger] entries@[b]).0@ by {
                assert(self.user_map@[a].0@ != self.user_map@[b].0@);
            }
            lemma_entries_map_same(entries@, self.user_map@);
        }
        entries
    }

    /// The store that a list of entries stands for; of two entries with the
    /// same user the later one counts.
    pub fn from_entries(entries: &Vec<(String, bool)>) -> (store: UserSetting)
        ensures
            store.wf(),
            store@ == entries_map(entries@),
    {
        let mut store = UserSetting::new();
        let mut i: usize = 0;
        while i < entries.len()
            invariant
                i <= entries@.len(),
                store.wf(),
                store@ == entries_map(entries@.take(i as int)),
            decreases entries@.len() - i,
        {
            proof {
                assert(entries@.take(i + 1).drop_last() =~= entries@.take(i as int));
            }
            store.set(entries[i].0.as_str(), entries[i].1);
            i += 1;
        }
        assert(entries@.take(i as int) =~= entries@);
        store
    }
}

/// Lists that agree entry by entry, in user and flag, stand for one mapping.
pub proof fn lemma_entries_map_same(a: Seq<(String, bool)>, b: Seq<(String, bool)>)
    requires
        a.len() == b.len(),
        forall|j: int| 0 <= j < a.len() ==> (#[trigger] a[j]).0@ == b[j].0@ && a[j].1 == b[j].1,
    ensures
        entries_map(a) == entries_map(b),
    decreases a.len(),
{
    if a.len() > 0 {
        assert(a[a.len() - 1].0@ == b[a.len() - 1].0@);
        assert forall|j: int| 0 <= j < a.drop_last().len() implies (#[trigger] a.drop_last()[j]).0@
            == b.drop_last()[j].0@ && a.drop_last()[j].1 == b.drop_last()[j].1 by {
            assert(a[j].0@ == b[j].0@);
        }
        lemma_entries_map_same(a.drop_last(), b.drop_last());
    }
}

/// With no user twice, the mapping has as many users as the list has entries.
pub proof fn lemma_entries_map_len(entries: Seq<(String, bool)>)
    requires
        distinct_users(entries),
    ensures
        entries_map(entries).dom().finite(),
        entries_map(entries).dom().len() == entries.len(),
    decreases entries.len(),
{
    if entries.len() > 0 {
        let front = entries.drop_last();
        assert(distinct_users(front)) by {
            assert forall|a: int, b: int| 0 <= a < b < front.len() implies (#[trigger] front[a]).0@
                != (#[trigger] front[b]).0@ by {
                assert(entries[a].0@ != entries[b].0@);
            }
        }
        lemma_entries_map_len(front);
        lemma_entries_map_domain(front, entries.last().0@);
        if entries_map(front).contains_key(entries.last().0@) {
            let i = choose|i: int| 0 <= i < front.len() && (#[trigger] front[i]).0@
                == entries.last().0@;
            assert(entries[i].0@ != entries[entries.len() - 1].0@);
        }
    }
}

/// What loading yields: the file must exist and must have been parsed into
/// entries; the store is then the mapping of those entries.
pub open spec fn spec_load(exists: bool, parsed: Option<Seq<(String, bool)>>) -> Result<
    Preferences,
    StoreError,
> {
    if !exists {
        Err(StoreError::ConfigMissing)
    } else {
        match parsed {
            Some(entries) => Ok(entries_map(entries)),
            None => Err(StoreError::ConfigCorrupt),
        }
    }
}

/// The secret, from what was found on disk: `exists` says whether the file
/// is there, `parsed` holds the secret read from it, if it could be read.
pub fn get_token(exists: bool, parsed: Option<String>) -> (result: Result<Token, StoreError>)
    ensures
        !exists ==> result == Err::<Token, StoreError>(StoreError::ConfigMissing),
        exists && parsed is None ==> result == Err::<Token, StoreError>(StoreError::ConfigCorrupt),
        exists && parsed is Some ==> result == Ok::<Token, StoreError>(
            Token { token: parsed->0 },
        ),
{
    if !exists {
        return Err(StoreError::ConfigMissing);
    }
    match parsed {
        Some(token) => Ok(Token { token }),
        None => Err(StoreError::ConfigCorrupt),
    }
}

/// The settings store, from what was found on disk: `exists` says whether
/// the file is there, `parsed` holds the entries read from it, if they could
/// be read.
pub fn get_user_setting(exists: bool, parsed: Option<Vec<(String, bool)>>) -> (result: Result<
    UserSetting,
    StoreError,
>)
    ensures
        match result {
            Ok(store) => store.wf() && spec_load(exists, spec_parsed(parsed)) == Ok::<
                Preferences,
                StoreError,
            >(store@),
            Err(error) => spec_load(exists, spec_parsed(parsed)) == Err::<Preferences, StoreError>(
                error,
            ),
        },
{
    if !exists {
        return Err(StoreError::ConfigMissing);
    }
    match parsed {
        Some(entries) => Ok(UserSetting::from_entries(&entries)),
        None => Err(StoreError::ConfigCorrupt),
    }
}

/// The parsed entries as a sequence.
pub open spec fn spec_parsed(parsed: Option<Vec<(String, bool)>>) -> Option<Seq<(String, bool)>> {
    match parsed {
        Some(entries) => Some(entries@),
        None => None,
    }
}

/// Sets the preference of `user_id` and hands out the whole mapping, which
/// the caller writes back at once.
pub fn update_user_setting(settings: &mut UserSetting, user_id: &str, value: bool) -> (entries: Vec<
    (String, bool),
>)
    requires
        old(settings).wf(),
    ensures
        final(settings).wf(),
        final(settings)@ == spec_set(old(settings)@, user_id@, value),
        distinct_users(entries@),
        entries_map(entries@) == final(settings)@,
{
    settings.set(user_id, value);
    settings.entries()
}

/// How a change ended, given whether the mapping was written back: the
/// change stays in memory either way.
pub fn persisted(written: bool) -> (result: Result<(), StoreError>)
    ensures
        written ==> result == Ok::<(), StoreError>(()),
        !written ==> result == Err::<(), StoreError>(StoreError::PersistError),
{
    if written {
        Ok(())
    } else {
        Err(StoreError::PersistError)
    }
}

/// A user who is not in the mapping is disabled.
pub proof fn lemma_absent_user_is_disabled(prefs: Preferences, user_id: Seq<char>)
    requires
        !prefs.contains_key(user_id),
    ensures
        spec_get(prefs, user_id) == false,
{
}

/// After a user has been set, the store answers the value set, and so does
/// a store loaded from the entries written back.
pub proof fn lemma_set_then_get(
    prefs: Preferences,
    user_id: Seq<char>,
    value: bool,
    written: Seq<(String, bool)>,
)
    requires
        entries_map(written) == spec_set(prefs, user_id, value),
    ensures
        spec_get(spec_set(prefs, user_id, value), user_id) == value,
        spec_load(true, Some(written)) matches Ok(loaded) && spec_get(loaded, user_id) == value,
{
}

/// Setting one user leaves every other user's answer as it was.
pub proof fn lemma_set_keeps_other_users(
    prefs: Preferences,
    user_id: Seq<char>,
    value: bool,
    other: Seq<char>,
)
    requires
        other != user_id,
    ensures
        spec_get(spec_set(prefs, user_id, value), other) == spec_get(prefs, other),
        spec_set(prefs, user_id, value).contains_key(other) == prefs.contains_key(other),
{
}

/// Two changes for different users give the same mapping in either order,
/// and both entries are in it.
pub proof fn lemma_sets_of_different_users_commute(
    prefs: Preferences,
    first: Seq<char>,
    first_value: bool,
    second: Seq<char>,
    second_value: bool,
)
    requires
        first != second,
    ensures
        spec_set(spec_set(prefs, first, first_value), second, second_value) == spec_set(
            spec_set(prefs, second, second_value),
            first,
            first_value,
        ),
        spec_get(spec_set(spec_set(prefs, first, first_value), second, second_value), first)
            == first_value,
        spec_get(spec_set(spec_set(prefs, first, first_value), second, second_value), second)
            == second_value,
{
    assert(spec_set(spec_set(prefs, first, first_value), second, second_value) =~= spec_set(
        spec_set(prefs, second, second_value),
        first,
        first_value,
    ));
}

/// Setting a user twice to one value gives the mapping that setting them
/// once gives.
pub proof fn lemma_set_twice_is_set_once(prefs: Preferences, user_id: Seq<char>, value: bool)
    ensures
        spec_set(spec_set(prefs, user_id, value), user_id, value) == spec_set(
            prefs,
            user_id,
            value,
        ),
{
    assert(spec_set(spec_set(prefs, user_id, value), user_id, value) =~= spec_set(
        prefs,
        user_id,
        value,
    ));
}

} // verus!
