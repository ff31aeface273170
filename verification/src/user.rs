//! The durable User entity, modelled over plain values: timestamps are whole
//! seconds since the Unix epoch, and coordinates are integer microdegrees
//! (degrees times one million). The store that persists rows of this shape
//! lives outside the library; every transition of the record is a pure,
//! verified function over it.
use vstd::prelude::*;
use vstd::string::*;
use crate::rbac::Role;

verus! {

/// Upper bound on the number of media references a user may own.
pub const MAX_USER_MEDIA_ITEMS: usize = 5;

/// The account lifecycle. `New` exists only as the default of a freshly
/// deserialized row; accounts are created directly in `Onboarding`, become
/// `Active` once a valid display name is accepted, and `Blocked` is terminal
/// for ordinary operation.
#[derive(Debug, Clone, Copy, PartialEq, Eq, Structural)]
pub enum UserState {
    New,
    Onboarding,
    Active,
    Blocked,
}

impl Default for UserState {
    fn default() -> (state: Self)
        ensures
            state == UserState::New,
    {
        UserState::New
    }
}

/// The role set given to every account at creation.
pub fn default_user_roles() -> (roles: Vec<Role>)
    ensures
        roles@ == seq![Role::User],
{
    let mut roles: Vec<Role> = Vec::new();
    roles.push(Role::User);
    proof {
        assert(roles@ =~= seq![Role::User]);
    }
    roles
}

/// The media list given to every account at creation.
pub fn default_media_keys() -> (keys: Vec<String>)
    ensures
        keys@ =~= Seq::<String>::empty(),
{
    Vec::new()
}

#[derive(Debug, Clone, PartialEq)]
pub struct User {
    /// Opaque unique identifier, generated at creation, immutable.
    pub id: String,
    /// The messaging gateway's numeric user identifier; unique; immutable.
    pub telegram_id: i64,
    pub telegram_username: Option<String>,
    pub name: Option<String>,
    pub age: Option<u8>,
    pub gender: Option<String>,
    pub bio: Option<String>,
    pub location_text: Option<String>,
    /// Latitude in microdegrees (degrees times one million).
    pub latitude_micro: Option<i64>,
    /// Longitude in microdegrees (degrees times one million).
    pub longitude_micro: Option<i64>,
    /// Ordered media references; insertion order significant, no duplicates,
    /// never longer than `MAX_USER_MEDIA_ITEMS`.
    pub media_keys: Vec<String>,
    pub created_at: u64,
    pub updated_at: u64,
    pub last_interaction_at: u64,
    pub state: UserState,
    /// Non-empty role set; defaults to the single `User` role.
    pub roles: Vec<Role>,
}

/// Well-formedness of a media list: within the bound and free of duplicates.
pub open spec fn media_keys_wf(keys: Seq<Seq<char>>) -> bool {
    &&& keys.len() <= MAX_USER_MEDIA_ITEMS
    &&& forall|i: int, j: int| 0 <= i < j < keys.len() ==> keys[i] != keys[j]
}

/// The invariant every stored User row satisfies.
pub open spec fn user_wf(u: User) -> bool {
    &&& media_keys_wf(u.media_keys.deep_view())
    &&& u.roles@.len() > 0
}

/// The immutable core of an account is preserved.
pub open spec fn same_identity(a: User, b: User) -> bool {
    &&& a.id == b.id
    &&& a.telegram_id == b.telegram_id
    &&& a.telegram_username == b.telegram_username
    &&& a.created_at == b.created_at
    &&& a.roles@ == b.roles@
}

/// Every optional profile attribute is preserved.
pub open spec fn same_profile_attrs(a: User, b: User) -> bool {
    &&& a.name == b.name
    &&& a.age == b.age
    &&& a.gender == b.gender
    &&& a.bio == b.bio
    &&& a.location_text == b.location_text
    &&& a.latitude_micro == b.latitude_micro
    &&& a.longitude_micro == b.longitude_micro
}

/// The media list is preserved.
pub open spec fn same_media(a: User, b: User) -> bool {
    a.media_keys@ == b.media_keys@
}

/// Both mutation timestamps were refreshed to `now`.
pub open spec fn stamped_at(a: User, now: u64) -> bool {
    a.updated_at == now && a.last_interaction_at == now
}

impl User {
    /// A profile is complete exactly when a display name is set and the
    /// account is `Active`.
    pub open spec fn spec_profile_complete(self) -> bool {
        self.name is Some && self.state == UserState::Active
    }

    pub fn is_profile_complete(&self) -> (complete: bool)
        ensures
            complete == self.spec_profile_complete(),
    {
        self.name.is_some() && self.state == UserState::Active
    }
}

pub fn clone_string(s: &String) -> (r: String)
    ensures
        r == *s,
{
    s.clone()
}

pub fn clone_opt_string(o: &Option<String>) -> (r: Option<String>)
    ensures
        r == *o,
{
    match o {
        Some(s) => Some(s.clone()),
        None => None,
    }
}

pub fn clone_media_keys(keys: &Vec<String>) -> (r: Vec<String>)
    ensures
        r@ == keys@,
{
    let mut r: Vec<String> = Vec::new();
    let mut i: usize = 0;
    while i < keys.len()
        invariant
            0 <= i <= keys@.len(),
            r@ =~= keys@.take(i as int),
        decreases keys@.len() - i,
    {
        r.push(keys[i].clone());
        i += 1;
    }
    proof {
        assert(r@ =~= keys@);
    }
    r
}

pub fn clone_roles(roles: &Vec<Role>) -> (r: Vec<Role>)
    ensures
        r@ == roles@,
{
    let mut r: Vec<Role> = Vec::new();
    let mut i: usize = 0;
    while i < roles.len()
        invariant
            0 <= i <= roles@.len(),
            r@ =~= roles@.take(i as int),
        decreases roles@.len() - i,
    {
        r.push(roles[i]);
        i += 1;
    }
    proof {
        assert(r@ =~= roles@);
    }
    r
}

/// The row inserted for a first contact from an unknown external user:
/// `Onboarding`, the default role set, no profile attributes, all timestamps
/// set to `now`.
pub fn new_user(id: String, telegram_id: i64, telegram_username: Option<String>, now: u64) -> (u:
    User)
    ensures
        u.id == id,
        u.telegram_id == telegram_id,
        u.telegram_username == telegram_username,
        u.name is None,
        u.age is None,
        u.gender is None,
        u.bio is None,
        u.location_text is None,
        u.latitude_micro is None,
        u.longitude_micro is None,
        u.media_keys@ =~= Seq::<String>::empty(),
        u.created_at == now,
        u.updated_at == now,
        u.last_interaction_at == now,
        u.state == UserState::Onboarding,
        u.roles@ == seq![Role::User],
        user_wf(u),
{
    let u = User {
        id,
        telegram_id,
        telegram_username,
        name: None,
        age: None,
        gender: None,
        bio: None,
        location_text: None,
        latitude_micro: None,
        longitude_micro: None,
        media_keys: default_media_keys(),
        created_at: now,
        updated_at: now,
        last_interaction_at: now,
        state: UserState::Onboarding,
        roles: default_user_roles(),
    };
    proof {
        assert(u.media_keys.deep_view() =~= Seq::<Seq<char>>::empty());
    }
    u
}

/// The onboarding-completion transition (and administrative state changes):
/// sets `name` and `state` together and refreshes the mutation timestamps;
/// everything else is preserved.
pub fn apply_state_and_name(u: &User, name: Option<String>, state: UserState, now: u64) -> (r:
    User)
    ensures
        same_identity(*u, r),
        same_media(*u, r),
        r.name == name,
        r.state == state,
        r.age == u.age,
        r.gender == u.gender,
        r.bio == u.bio,
        r.location_text == u.location_text,
        r.latitude_micro == u.latitude_micro,
        r.longitude_micro == u.longitude_micro,
        stamped_at(r, now),
        user_wf(*u) ==> user_wf(r),
{
    let r = User {
        id: clone_string(&u.id),
        telegram_id: u.telegram_id,
        telegram_username: clone_opt_string(&u.telegram_username),
        name,
        age: u.age,
        gender: clone_opt_string(&u.gender),
        bio: clone_opt_string(&u.bio),
        location_text: clone_opt_string(&u.location_text),
        latitude_micro: u.latitude_micro,
        longitude_micro: u.longitude_micro,
        media_keys: clone_media_keys(&u.media_keys),
        created_at: u.created_at,
        updated_at: now,
        last_interaction_at: now,
        state,
        roles: clone_roles(&u.roles),
    };
    proof {
        assert(r.media_keys.deep_view() =~= u.media_keys.deep_view());
    }
    r
}

/// Best-effort interaction recording: refreshes the mutation timestamps and
/// changes nothing else.
pub fn stamp_interaction(u: &User, now: u64) -> (r: User)
    ensures
        same_identity(*u, r),
        same_profile_attrs(*u, r),
        same_media(*u, r),
        r.state == u.state,
        stamped_at(r, now),
        user_wf(*u) ==> user_wf(r),
{
    let r = User {
        id: clone_string(&u.id),
        telegram_id: u.telegram_id,
        telegram_username: clone_opt_string(&u.telegram_username),
        name: clone_opt_string(&u.name),
        age: u.age,
        gender: clone_opt_string(&u.gender),
        bio: clone_opt_string(&u.bio),
        location_text: clone_opt_string(&u.location_text),
        latitude_micro: u.latitude_micro,
        longitude_micro: u.longitude_micro,
        media_keys: clone_media_keys(&u.media_keys),
        created_at: u.created_at,
        updated_at: now,
        last_interaction_at: now,
        state: u.state,
        roles: clone_roles(&u.roles),
    };
    proof {
        assert(r.media_keys.deep_view() =~= u.media_keys.deep_view());
    }
    r
}

/// A single profile-attribute update, as carried by a store effect.
#[derive(Debug, Clone, PartialEq)]
pub enum FieldValue {
    Name(String),
    Age(u8),
    Gender(String),
    Bio(String),
    Location { text: Option<String>, latitude_micro: Option<i64>, longitude_micro: Option<i64> },
}

/// A profile-field edit: sets exactly the addressed attribute, refreshes the
/// mutation timestamps, and preserves everything else, including `state`.
pub fn apply_field(u: &User, value: &FieldValue, now: u64) -> (r: User)
    ensures
        same_identity(*u, r),
        same_media(*u, r),
        r.state == u.state,
        stamped_at(r, now),
        user_wf(*u) ==> user_wf(r),
        value matches FieldValue::Name(n) ==> r.name == Some(*n) && r.age == u.age && r.gender
            == u.gender && r.bio == u.bio && r.location_text == u.location_text
            && r.latitude_micro == u.latitude_micro && r.longitude_micro == u.longitude_micro,
        value matches FieldValue::Age(a) ==> r.age == Some(*a) && r.name == u.name && r.gender
            == u.gender && r.bio == u.bio && r.location_text == u.location_text
            && r.latitude_micro == u.latitude_micro && r.longitude_micro == u.longitude_micro,
        value matches FieldValue::Gender(g) ==> r.gender == Some(*g) && r.name == u.name && r.age
            == u.age && r.bio == u.bio && r.location_text == u.location_text && r.latitude_micro
            == u.latitude_micro && r.longitude_micro == u.longitude_micro,
        value matches FieldValue::Bio(b) ==> r.bio == Some(*b) && r.name == u.name && r.age == u.age
            && r.gender == u.gender && r.location_text == u.location_text && r.latitude_micro
            == u.latitude_micro && r.longitude_micro == u.longitude_micro,
        value matches FieldValue::Location { text, latitude_micro, longitude_micro }
            ==> r.location_text == *text && r.latitude_micro == *latitude_micro && r.longitude_micro
            == *longitude_micro && r.name == u.name && r.age == u.age && r.gender == u.gender
            && r.bio == u.bio,
{
    let mut name = clone_opt_string(&u.name);
    let mut age = u.age;
    let mut gender = clone_opt_string(&u.gender);
    let mut bio = clone_opt_string(&u.bio);
    let mut location_text = clone_opt_string(&u.location_text);
    let mut latitude_micro = u.latitude_micro;
    let mut longitude_micro = u.longitude_micro;
    match value {
        FieldValue::Name(n) => {
            name = Some(clone_string(n));
        },
        FieldValue::Age(a) => {
            age = Some(*a);
        },
        FieldValue::Gender(g) => {
            gender = Some(clone_string(g));
        },
        FieldValue::Bio(b) => {
            bio = Some(clone_string(b));
        },
        FieldValue::Location { text, latitude_micro: lat, longitude_micro: lon } => {
            location_text = clone_opt_string(text);
            latitude_micro = *lat;
            longitude_micro = *lon;
        },
    }
    let r = User {
        id: clone_string(&u.id),
        telegram_id: u.telegram_id,
        telegram_username: clone_opt_string(&u.telegram_username),
        name,
        age,
        gender,
        bio,
        location_text,
        latitude_micro,
        longitude_micro,
        media_keys: clone_media_keys(&u.media_keys),
        created_at: u.created_at,
        updated_at: now,
        last_interaction_at: now,
        state: u.state,
        roles: clone_roles(&u.roles),
    };
    proof {
        assert(r.media_keys.deep_view() =~= u.media_keys.deep_view());
    }
    r
}

/// Display-name validation for onboarding and name edits: the (already
/// trimmed) candidate must be 1 to 50 characters long and must not begin
/// with the command-prefix character.
pub open spec fn valid_name(name: Seq<char>) -> bool {
    &&& 1 <= name.len() <= 50
    &&& name[0] != '/'
}

pub fn name_is_valid(name: &str) -> (valid: bool)
    ensures
        valid == valid_name(name@),
{
    let len = name.unicode_len();
    if len < 1 || len > 50 {
        return false;
    }
    name.get_char(0) != '/'
}

} // verus!
