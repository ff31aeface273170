//! Bounded, deduplicated list management for a user's media references.
//! Both operations read the full list, compute the full replacement list and
//! restamp the mutation timestamps, mirroring the read-modify-write contract
//! of the backing store.
use vstd::prelude::*;
use vstd::string::*;
use crate::errors::StoreError;
use crate::text::str_eq;
use crate::user::{
    same_identity, same_profile_attrs, stamped_at, user_wf, clone_media_keys, clone_opt_string,
    clone_roles, clone_string, media_keys_wf, User, MAX_USER_MEDIA_ITEMS,
};

verus! {

/// The result of an `add`: a no-op when the key is already present, a
/// capacity failure when the list is full, and an append at the end
/// otherwise.
pub open spec fn spec_add_media(keys: Seq<Seq<char>>, k: Seq<char>) -> Result<
    Seq<Seq<char>>,
    StoreError,
> {
    if keys.contains(k) {
        Ok(keys)
    } else if keys.len() >= MAX_USER_MEDIA_ITEMS {
        Err(StoreError::LimitExceeded)
    } else {
        Ok(keys.push(k))
    }
}

/// The result of a `remove`: every occurrence of `k` is dropped and the
/// order of the rest is kept. On a well-formed (duplicate-free) list this
/// removes exactly one occurrence, or nothing.
pub open spec fn spec_remove_media(keys: Seq<Seq<char>>, k: Seq<char>) -> Seq<Seq<char>>
    decreases keys.len(),
{
    if keys.len() == 0 {
        Seq::empty()
    } else if keys[0] == k {
        spec_remove_media(keys.drop_first(), k)
    } else {
        seq![keys[0]] + spec_remove_media(keys.drop_first(), k)
    }
}

/// Removing an absent key changes nothing.
pub proof fn lemma_remove_media_absent(keys: Seq<Seq<char>>, k: Seq<char>)
    requires
        !keys.contains(k),
    ensures
        spec_remove_media(keys, k) == keys,
    decreases keys.len(),
{
    if keys.len() > 0 {
        assert(keys[0] != k);
        assert(forall|i: int|
            0 <= i < keys.drop_first().len() ==> keys.drop_first()[i] == keys[i + 1]);
        assert(!keys.drop_first().contains(k));
        lemma_remove_media_absent(keys.drop_first(), k);
        assert(seq![keys[0]] + keys.drop_first() =~= keys);
    } else {
        assert(spec_remove_media(keys, k) =~= keys);
    }
}

/// The removal result never contains the removed key, and every element of
/// the result comes from the original list.
pub proof fn lemma_remove_media_elements(keys: Seq<Seq<char>>, k: Seq<char>)
    ensures
        !spec_remove_media(keys, k).contains(k),
        forall|x: Seq<char>| #[trigger]
            spec_remove_media(keys, k).contains(x) ==> keys.contains(x),
        spec_remove_media(keys, k).len() <= keys.len(),
    decreases keys.len(),
{
    if keys.len() > 0 {
        lemma_remove_media_elements(keys.drop_first(), k);
        assert forall|x: Seq<char>| #[trigger]
            spec_remove_media(keys, k).contains(x) implies keys.contains(x) by {
            if keys[0] != k {
                let r = seq![keys[0]] + spec_remove_media(keys.drop_first(), k);
                let i = choose|i: int| 0 <= i < r.len() && r[i] == x;
                if i == 0 {
                    assert(keys.contains(x)) by { assert(keys[0] == x) }
                } else {
                    assert(spec_remove_media(keys.drop_first(), k)[i - 1] == x);
                    assert(spec_remove_media(keys.drop_first(), k).contains(x));
                    let j = choose|j: int|
                        0 <= j < keys.drop_first().len() && keys.drop_first()[j] == x;
                    assert(keys[j + 1] == x);
                }
            } else {
                assert(spec_remove_media(keys.drop_first(), k).contains(x));
                let j = choose|j: int|
                    0 <= j < keys.drop_first().len() && keys.drop_first()[j] == x;
                assert(keys[j + 1] == x);
            }
        }
        if keys[0] == k {
            assert(!spec_remove_media(keys, k).contains(k));
        } else {
            let r = seq![keys[0]] + spec_remove_media(keys.drop_first(), k);
            assert forall|i: int| 0 <= i < r.len() implies r[i] != k by {
                if i > 0 {
                    assert(spec_remove_media(keys.drop_first(), k).contains(r[i])) by {
                        assert(spec_remove_media(keys.drop_first(), k)[i - 1] == r[i]);
                    }
                }
            }
        }
    }
}

/// On a duplicate-free list that contains `k`, removal drops exactly one
/// element.
pub proof fn lemma_remove_media_present(keys: Seq<Seq<char>>, k: Seq<char>)
    requires
        forall|i: int, j: int| 0 <= i < j < keys.len() ==> keys[i] != keys[j],
        keys.contains(k),
    ensures
        spec_remove_media(keys, k).len() == keys.len() - 1,
    decreases keys.len(),
{
    let rest = keys.drop_first();
    assert(forall|i: int| 0 <= i < rest.len() ==> rest[i] == keys[i + 1]);
    if keys[0] == k {
        assert(forall|i: int| 0 <= i < rest.len() ==> rest[i] != k);
        assert(!rest.contains(k));
        lemma_remove_media_absent(rest, k);
    } else {
        let w = choose|w: int| 0 <= w < keys.len() && keys[w] == k;
        assert(rest[w - 1] == k);
        assert(rest.contains(k));
        lemma_remove_media_present(rest, k);
    }
}

/// Removal preserves well-formedness.
pub proof fn lemma_remove_media_wf(keys: Seq<Seq<char>>, k: Seq<char>)
    requires
        media_keys_wf(keys),
    ensures
        media_keys_wf(spec_remove_media(keys, k)),
    decreases keys.len(),
{
    lemma_remove_media_elements(keys, k);
    if keys.len() > 0 && keys[0] != k {
        let rest = keys.drop_first();
        assert(forall|i: int| 0 <= i < rest.len() ==> rest[i] == keys[i + 1]);
        lemma_remove_media_wf(rest, k);
        lemma_remove_media_elements(rest, k);
        let r = seq![keys[0]] + spec_remove_media(rest, k);
        assert forall|i: int, j: int| 0 <= i < j < r.len() implies r[i] != r[j] by {
            if i == 0 {
                assert(spec_remove_media(rest, k).contains(r[j])) by {
                    assert(spec_remove_media(rest, k)[j - 1] == r[j]);
                }
                assert(rest.contains(r[j]));
                let w = choose|w: int| 0 <= w < rest.len() && rest[w] == r[j];
                assert(keys[w + 1] == r[j]);
            } else {
                assert(spec_remove_media(rest, k)[i - 1] != spec_remove_media(rest, k)[j - 1]);
            }
        }
    } else if keys.len() > 0 {
        let rest = keys.drop_first();
        assert(forall|i: int| 0 <= i < rest.len() ==> rest[i] == keys[i + 1]);
        lemma_remove_media_wf(rest, k);
    }
}

/// Law: below the bound, adding a fresh key succeeds and grows the list by
/// exactly one, appending at the end; so a run of distinct adds starting
/// from an empty list fills it to `MAX_USER_MEDIA_ITEMS`, one per call.
pub proof fn lemma_media_add_fresh_grows(keys: Seq<Seq<char>>, k: Seq<char>)
    requires
        !keys.contains(k),
        keys.len() < MAX_USER_MEDIA_ITEMS,
    ensures
        spec_add_media(keys, k) == Ok::<Seq<Seq<char>>, StoreError>(keys.push(k)),
        spec_add_media(keys, k)->Ok_0.len() == keys.len() + 1,
        spec_add_media(keys, k)->Ok_0.last() == k,
{
}

/// Law: once a list holds the full `MAX_USER_MEDIA_ITEMS` distinct keys, a
/// further add of a key not among them fails with `LimitExceeded`, and the
/// list it would have written is the unchanged one of full length.
pub proof fn lemma_media_add_limit(keys: Seq<Seq<char>>, k: Seq<char>)
    requires
        keys.len() == MAX_USER_MEDIA_ITEMS,
        !keys.contains(k),
    ensures
        spec_add_media(keys, k) == Err::<Seq<Seq<char>>, StoreError>(StoreError::LimitExceeded),
{
}

/// Law: adding a key twice in a row is a no-op the second time: after a
/// successful add of `k`, adding `k` again succeeds and returns the same
/// list, so it neither errors nor duplicates.
pub proof fn lemma_media_add_idempotent(keys: Seq<Seq<char>>, k: Seq<char>)
    requires
        spec_add_media(keys, k) is Ok,
    ensures
        spec_add_media(spec_add_media(keys, k)->Ok_0, k) == spec_add_media(keys, k),
{
    let once = spec_add_media(keys, k)->Ok_0;
    if keys.contains(k) {
        assert(once == keys);
    } else {
        assert(once == keys.push(k));
        assert(once[keys.len() as int] == k);
        assert(once.contains(k));
    }
}

/// Law: a successful add preserves well-formedness: the list stays within
/// the bound and free of duplicates.
pub proof fn lemma_media_add_preserves_wf(keys: Seq<Seq<char>>, k: Seq<char>)
    requires
        media_keys_wf(keys),
        spec_add_media(keys, k) is Ok,
    ensures
        media_keys_wf(spec_add_media(keys, k)->Ok_0),
{
    let once = spec_add_media(keys, k)->Ok_0;
    if keys.contains(k) {
        assert(once == keys);
    } else {
        assert(once == keys.push(k));
        assert forall|i: int, j: int| 0 <= i < j < once.len() implies once[i] != once[j] by {
            if j == keys.len() as int {
                if once[i] == k {
                    assert(keys.contains(k)) by { assert(keys[i] == k) }
                }
            }
        }
    }
}

/// True when one of the stored keys equals `k`.
pub fn keys_contain(keys: &Vec<String>, k: &str) -> (found: bool)
    ensures
        found == keys.deep_view().contains(k@),
{
    let mut i: usize = 0;
    while i < keys.len()
        invariant
            0 <= i <= keys@.len(),
            forall|j: int| 0 <= j < i ==> keys.deep_view()[j] != k@,
        decreases keys@.len() - i,
    {
        if str_eq(keys[i].as_str(), k) {
            assert(keys.deep_view()[i as int] == k@);
            return true;
        }
        i += 1;
    }
    assert(!keys.deep_view().contains(k@));
    false
}

/// Adds a media reference to the user's list. A key already present is a
/// no-op, not an error; a full list fails with `LimitExceeded`; otherwise
/// the key is appended at the end. Either successful outcome restamps the
/// mutation timestamps; nothing else of the row changes.
pub fn add_media_key_to_user(user: &User, key: String, now: u64) -> (result: Result<
    User,
    StoreError,
>)
    requires
        user_wf(*user),
    ensures
        user.media_keys.deep_view().contains(key@) ==> result is Ok,
        !user.media_keys.deep_view().contains(key@) && user.media_keys@.len()
            < MAX_USER_MEDIA_ITEMS ==> result is Ok,
        !user.media_keys.deep_view().contains(key@) && user.media_keys@.len()
            >= MAX_USER_MEDIA_ITEMS ==> result is Err,
        match result {
            Ok(updated) => {
                &&& Ok::<Seq<Seq<char>>, StoreError>(updated.media_keys.deep_view())
                    == spec_add_media(user.media_keys.deep_view(), key@)
                &&& same_identity(*user, updated)
                &&& same_profile_attrs(*user, updated)
                &&& updated.state == user.state
                &&& stamped_at(updated, now)
                &&& user_wf(updated)
            },
            Err(e) => {
                &&& e == StoreError::LimitExceeded
                &&& Err::<Seq<Seq<char>>, StoreError>(e) == spec_add_media(
                    user.media_keys.deep_view(),
                    key@,
                )
                &&& user.media_keys@.len() == MAX_USER_MEDIA_ITEMS
            },
        },
{
    let dup = keys_contain(&user.media_keys, key.as_str());
    if dup {
        let updated = crate::user::stamp_interaction(user, now);
        proof {
            assert(updated.media_keys.deep_view() =~= user.media_keys.deep_view());
        }
        Ok(updated)
    } else if user.media_keys.len() >= MAX_USER_MEDIA_ITEMS {
        Err(StoreError::LimitExceeded)
    } else {
        let mut keys2 = clone_media_keys(&user.media_keys);
        keys2.push(key);
        let ghost old_dv = user.media_keys.deep_view();
        proof {
            assert(keys2.deep_view() =~= old_dv.push(key@));
            assert forall|i: int| 0 <= i < old_dv.len() implies old_dv[i] != key@ by {
                if old_dv[i] == key@ {
                    assert(old_dv.contains(key@));
                }
            }
            assert(media_keys_wf(old_dv.push(key@)));
        }
        let updated = User {
            id: clone_string(&user.id),
            telegram_id: user.telegram_id,
            telegram_username: clone_opt_string(&user.telegram_username),
            name: clone_opt_string(&user.name),
            age: user.age,
            gender: clone_opt_string(&user.gender),
            bio: clone_opt_string(&user.bio),
            location_text: clone_opt_string(&user.location_text),
            latitude_micro: user.latitude_micro,
            longitude_micro: user.longitude_micro,
            media_keys: keys2,
            created_at: user.created_at,
            updated_at: now,
            last_interaction_at: now,
            state: user.state,
            roles: clone_roles(&user.roles),
        };
        Ok(updated)
    }
}

/// Removes a media reference from the user's list. Removing an absent key is
/// not an error and leaves the list byte-for-byte unchanged; removing a
/// present key deletes exactly that one occurrence and keeps the order of
/// the rest. Both outcomes restamp the mutation timestamps.
pub fn remove_media_key_from_user(user: &User, key: &str, now: u64) -> (updated: User)
    requires
        user_wf(*user),
    ensures
        updated.media_keys.deep_view() == spec_remove_media(user.media_keys.deep_view(), key@),
        !user.media_keys.deep_view().contains(key@) ==> updated.media_keys@ == user.media_keys@,
        user.media_keys.deep_view().contains(key@) ==> updated.media_keys@.len()
            == user.media_keys@.len() - 1,
        !updated.media_keys.deep_view().contains(key@),
        same_identity(*user, updated),
        same_profile_attrs(*user, updated),
        updated.state == user.state,
        stamped_at(updated, now),
        user_wf(updated),
{
    let ghost dv = user.media_keys.deep_view();
    let mut keys2: Vec<String> = Vec::new();
    let mut i: usize = 0;
    proof {
        assert(dv.skip(0) =~= dv);
        assert(keys2.deep_view() =~= Seq::<Seq<char>>::empty());
        assert(keys2.deep_view() + spec_remove_media(dv, key@) =~= spec_remove_media(dv, key@));
    }
    while i < user.media_keys.len()
        invariant
            0 <= i <= user.media_keys@.len(),
            dv == user.media_keys.deep_view(),
            dv.len() == user.media_keys@.len(),
            keys2.deep_view() + spec_remove_media(dv.skip(i as int), key@) == spec_remove_media(
                dv,
                key@,
            ),
            (forall|j: int| 0 <= j < i ==> dv[j] != key@) ==> keys2@ =~= user.media_keys@.take(
                i as int,
            ),
        decreases user.media_keys@.len() - i,
    {
        let ghost pre = keys2.deep_view();
        let ghost tail = dv.skip(i as int);
        proof {
            assert(tail[0] == dv[i as int]);
            assert(tail.drop_first() =~= dv.skip(i as int + 1));
        }
        if str_eq(user.media_keys[i].as_str(), key) {
            proof {
                assert(spec_remove_media(tail, key@) == spec_remove_media(
                    dv.skip(i as int + 1),
                    key@,
                ));
            }
        } else {
            keys2.push(user.media_keys[i].clone());
            proof {
                assert(keys2.deep_view() =~= pre.push(dv[i as int]));
                assert(spec_remove_media(tail, key@) == seq![tail[0]] + spec_remove_media(
                    tail.drop_first(),
                    key@,
                ));
                assert(pre.push(dv[i as int]) + spec_remove_media(dv.skip(i as int + 1), key@)
                    =~= pre + spec_remove_media(tail, key@));
            }
        }
        i += 1;
    }
    proof {
        assert(dv.skip(dv.len() as int) =~= Seq::<Seq<char>>::empty());
        assert(spec_remove_media(Seq::<Seq<char>>::empty(), key@)
            == Seq::<Seq<char>>::empty());
        assert(keys2.deep_view() + Seq::<Seq<char>>::empty() =~= keys2.deep_view());
        assert(keys2.deep_view() == spec_remove_media(dv, key@));
        lemma_remove_media_elements(dv, key@);
        lemma_remove_media_wf(dv, key@);
        if !dv.contains(key@) {
            lemma_remove_media_absent(dv, key@);
            assert forall|j: int| 0 <= j < dv.len() implies dv[j] != key@ by {
                if dv[j] == key@ {
                    assert(dv.contains(key@));
                }
            }
            assert(keys2@ =~= user.media_keys@.take(dv.len() as int));
            assert(user.media_keys@.take(dv.len() as int) =~= user.media_keys@);
        }
        if dv.contains(key@) {
            lemma_remove_media_present(dv, key@);
        }
    }
    let updated = User {
        id: clone_string(&user.id),
        telegram_id: user.telegram_id,
        telegram_username: clone_opt_string(&user.telegram_username),
        name: clone_opt_string(&user.name),
        age: user.age,
        gender: clone_opt_string(&user.gender),
        bio: clone_opt_string(&user.bio),
        location_text: clone_opt_string(&user.location_text),
        latitude_micro: user.latitude_micro,
        longitude_micro: user.longitude_micro,
        media_keys: keys2,
        created_at: user.created_at,
        updated_at: now,
        last_interaction_at: now,
        state: user.state,
        roles: clone_roles(&user.roles),
    };
    updated
}

} // verus!
