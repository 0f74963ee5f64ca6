//! Reconciliation of a verified identity against local account records.
//!
//! A verified claims record maps to an auth record keyed by
//! (provider, subject), paired one-to-one with a user record created in
//! the same step.  A returning identity only has its last sign-in time
//! updated.  The relational store itself lives outside this crate; two
//! things here stand for it: a step machine that tells a driver which
//! store operation to run next (so the uniqueness-conflict retry is
//! verified logic, not driver code), and an in-memory store with the
//! same interface and invariants, against which the whole algorithm is
//! verified end to end.

use vstd::prelude::*;

use crate::errors::AuthError;
use crate::verify::{view_opt_string, ClaimsView, GoogleClaims};

verus! {

/// A local auth record, unique per (provider, subject).
#[derive(Debug)]
pub struct AuthRecord {
    pub id: u128,
    pub provider: String,
    pub sub: String,
    pub email: String,
    pub fullname: String,
    pub picture: String,
    pub created_at: i64,
    pub updated_at: i64,
    pub last_sign_in_at: i64,
}

/// The mathematical content of an auth record.
pub ghost struct AuthRecordView {
    pub id: u128,
    pub provider: Seq<char>,
    pub sub: Seq<char>,
    pub email: Seq<char>,
    pub fullname: Seq<char>,
    pub picture: Seq<char>,
    pub created_at: i64,
    pub updated_at: i64,
    pub last_sign_in_at: i64,
}

impl View for AuthRecord {
    type V = AuthRecordView;

    open spec fn view(&self) -> AuthRecordView {
        AuthRecordView {
            id: self.id,
            provider: self.provider@,
            sub: self.sub@,
            email: self.email@,
            fullname: self.fullname@,
            picture: self.picture@,
            created_at: self.created_at,
            updated_at: self.updated_at,
            last_sign_in_at: self.last_sign_in_at,
        }
    }
}

impl Clone for AuthRecord {
    fn clone(&self) -> (r: Self)
        ensures
            r@ == self@,
    {
        AuthRecord {
            id: self.id,
            provider: self.provider.clone(),
            sub: self.sub.clone(),
            email: self.email.clone(),
            fullname: self.fullname.clone(),
            picture: self.picture.clone(),
            created_at: self.created_at,
            updated_at: self.updated_at,
            last_sign_in_at: self.last_sign_in_at,
        }
    }
}

/// A local user record, created as the pair of exactly one auth record.
#[derive(Debug)]
pub struct UserRecord {
    pub auth_id: u128,
    pub picture: String,
    pub username: String,
    pub email: String,
    pub fullname: String,
    pub created_at: i64,
    pub updated_at: i64,
}

/// The mathematical content of a user record.
pub ghost struct UserRecordView {
    pub auth_id: u128,
    pub picture: Seq<char>,
    pub username: Seq<char>,
    pub email: Seq<char>,
    pub fullname: Seq<char>,
    pub created_at: i64,
    pub updated_at: i64,
}

impl View for UserRecord {
    type V = UserRecordView;

    open spec fn view(&self) -> UserRecordView {
        UserRecordView {
            auth_id: self.auth_id,
            picture: self.picture@,
            username: self.username@,
            email: self.email@,
            fullname: self.fullname@,
            created_at: self.created_at,
            updated_at: self.updated_at,
        }
    }
}

/// The auth record a first sign-in creates: every timestamp is the
/// creation instant, the rest is seeded from the claims.
pub open spec fn spec_new_auth(
    c: ClaimsView,
    provider: Seq<char>,
    now: i64,
    new_id: u128,
) -> AuthRecordView {
    AuthRecordView {
        id: new_id,
        provider: provider,
        sub: c.sub,
        email: c.email,
        fullname: c.name,
        picture: c.picture,
        created_at: now,
        updated_at: now,
        last_sign_in_at: now,
    }
}

/// The user record created as the pair of that auth record; the
/// username is seeded from the email.
pub open spec fn spec_new_user(c: ClaimsView, now: i64, new_id: u128) -> UserRecordView {
    UserRecordView {
        auth_id: new_id,
        picture: c.picture,
        username: c.email,
        email: c.email,
        fullname: c.name,
        created_at: now,
        updated_at: now,
    }
}

/// Builds the auth/user pair a first sign-in inserts.
pub fn build_new_records(
    claims: &GoogleClaims,
    provider: &String,
    now: i64,
    new_id: u128,
) -> (r: (AuthRecord, UserRecord))
    ensures
        r.0@ == spec_new_auth(claims@, provider@, now, new_id),
        r.1@ == spec_new_user(claims@, now, new_id),
{
    let auth = AuthRecord {
        id: new_id,
        provider: provider.clone(),
        sub: claims.sub.clone(),
        email: claims.email.clone(),
        fullname: claims.name.clone(),
        picture: claims.picture.clone(),
        created_at: now,
        updated_at: now,
        last_sign_in_at: now,
    };
    let user = UserRecord {
        auth_id: new_id,
        picture: claims.picture.clone(),
        username: claims.email.clone(),
        email: claims.email.clone(),
        fullname: claims.name.clone(),
        created_at: now,
        updated_at: now,
    };
    (auth, user)
}

/// A record updated by a repeat sign-in: only the last sign-in time
/// moves.
pub open spec fn touched(a: AuthRecordView, now: i64) -> AuthRecordView {
    AuthRecordView { last_sign_in_at: now, ..a }
}

/// Whether a record carries the reconciliation key.
pub open spec fn key_at(a: AuthRecordView, provider: Seq<char>, sub: Seq<char>) -> bool {
    a.provider == provider && a.sub == sub
}

/// The first index of `s` satisfying `p`, if any.
pub open spec fn first_where<T>(s: Seq<T>, p: spec_fn(T) -> bool) -> Option<int>
    decreases s.len(),
{
    if s.len() == 0 {
        None
    } else if p(s[0]) {
        Some(0)
    } else {
        match first_where(s.drop_first(), p) {
            None => None,
            Some(i) => Some(i + 1),
        }
    }
}

pub proof fn lemma_first_where_characterises<T>(s: Seq<T>, p: spec_fn(T) -> bool)
    ensures
        first_where(s, p) matches Some(i) ==> 0 <= i < s.len() && p(s[i]) && (forall|j: int|
            0 <= j < i ==> !p(s[j])),
        first_where(s, p) is None <==> (forall|j: int| 0 <= j < s.len() ==> !p(s[j])),
    decreases s.len(),
{
    if s.len() == 0 {
    } else if p(s[0]) {
    } else {
        let d = s.drop_first();
        lemma_first_where_characterises(d, p);
        assert(forall|j: int| 0 <= j < d.len() ==> #[trigger] d[j] == s[j + 1]);
        match first_where(d, p) {
            None => {
                assert forall|j: int| 0 <= j < s.len() implies !p(s[j]) by {
                    if j > 0 {
                        assert(d[j - 1] == s[j]);
                        assert(!p(d[j - 1]));
                    }
                }
            },
            Some(i) => {
                assert(first_where(s, p) == Some(i + 1));
                assert(d[i] == s[i + 1]);
                assert forall|j: int| 0 <= j < i + 1 implies !p(s[j]) by {
                    if j > 0 {
                        assert(d[j - 1] == s[j]);
                        assert(!p(d[j - 1]));
                    }
                }
                assert(p(s[i + 1]));
            },
        }
    }
}

pub proof fn lemma_first_where_witness<T>(s: Seq<T>, p: spec_fn(T) -> bool, i: int)
    requires
        0 <= i < s.len(),
        p(s[i]),
        forall|j: int| 0 <= j < i ==> !p(s[j]),
    ensures
        first_where(s, p) == Some(i),
    decreases s.len(),
{
    if i == 0 {
    } else {
        assert(!p(s[0]));
        assert(forall|j: int| 0 <= j < s.drop_first().len() ==> s.drop_first()[j] == s[j + 1]);
        lemma_first_where_witness(s.drop_first(), p, i - 1);
    }
}

pub proof fn lemma_first_where_push<T>(s: Seq<T>, p: spec_fn(T) -> bool, x: T)
    requires
        first_where(s, p) is None,
        p(x),
    ensures
        first_where(s.push(x), p) == Some(s.len() as int),
{
    lemma_first_where_characterises(s, p);
    assert(forall|j: int| 0 <= j < s.len() ==> s.push(x)[j] == s[j]);
    assert(s.push(x)[s.len() as int] == x);
    lemma_first_where_witness(s.push(x), p, s.len() as int);
}

/// The first index holding the key (provider, sub), if any.
pub open spec fn spec_find(auths: Seq<AuthRecordView>, provider: Seq<char>, sub: Seq<char>) -> Option<int> {
    first_where(auths, |a: AuthRecordView| key_at(a, provider, sub))
}

/// The first index holding the record id, if any.
pub open spec fn spec_find_id(auths: Seq<AuthRecordView>, id: u128) -> Option<int> {
    first_where(auths, |a: AuthRecordView| a.id == id)
}

pub proof fn lemma_find_characterises(auths: Seq<AuthRecordView>, provider: Seq<char>, sub: Seq<char>)
    ensures
        spec_find(auths, provider, sub) matches Some(i) ==> 0 <= i < auths.len() && key_at(
            auths[i],
            provider,
            sub,
        ) && (forall|j: int| 0 <= j < i ==> !key_at(#[trigger] auths[j], provider, sub)),
        spec_find(auths, provider, sub) is None <==> (forall|j: int|
            0 <= j < auths.len() ==> !key_at(#[trigger] auths[j], provider, sub)),
{
    lemma_first_where_characterises(auths, |a: AuthRecordView| key_at(a, provider, sub));
}

pub proof fn lemma_find_witness(
    auths: Seq<AuthRecordView>,
    provider: Seq<char>,
    sub: Seq<char>,
    i: int,
)
    requires
        0 <= i < auths.len(),
        key_at(auths[i], provider, sub),
        forall|j: int| 0 <= j < i ==> !key_at(#[trigger] auths[j], provider, sub),
    ensures
        spec_find(auths, provider, sub) == Some(i),
{
    lemma_first_where_witness(auths, |a: AuthRecordView| key_at(a, provider, sub), i);
}

pub proof fn lemma_find_push(
    auths: Seq<AuthRecordView>,
    provider: Seq<char>,
    sub: Seq<char>,
    x: AuthRecordView,
)
    requires
        spec_find(auths, provider, sub) is None,
        key_at(x, provider, sub),
    ensures
        spec_find(auths.push(x), provider, sub) == Some(auths.len() as int),
{
    lemma_first_where_push(auths, |a: AuthRecordView| key_at(a, provider, sub), x);
}

pub proof fn lemma_find_id_characterises(auths: Seq<AuthRecordView>, id: u128)
    ensures
        spec_find_id(auths, id) matches Some(i) ==> 0 <= i < auths.len() && auths[i].id == id && (
        forall|j: int| 0 <= j < i ==> (#[trigger] auths[j]).id != id),
        spec_find_id(auths, id) is None <==> (forall|j: int|
            0 <= j < auths.len() ==> (#[trigger] auths[j]).id != id),
{
    lemma_first_where_characterises(auths, |a: AuthRecordView| a.id == id);
}

pub proof fn lemma_find_id_witness(auths: Seq<AuthRecordView>, id: u128, i: int)
    requires
        0 <= i < auths.len(),
        auths[i].id == id,
        forall|j: int| 0 <= j < i ==> (#[trigger] auths[j]).id != id,
    ensures
        spec_find_id(auths, id) == Some(i),
{
    lemma_first_where_witness(auths, |a: AuthRecordView| a.id == id, i);
}

/// Whether some record carries the key.
pub open spec fn has_auth(auths: Seq<AuthRecordView>, provider: Seq<char>, sub: Seq<char>) -> bool {
    exists|i: int| 0 <= i < auths.len() && key_at(#[trigger] auths[i], provider, sub)
}

/// Well-formed store content: record ids are unique, no two records
/// share a (provider, subject) key, and the user records pair up
/// one-to-one, in step, with the auth records.
pub open spec fn wf_records(auths: Seq<AuthRecordView>, users: Seq<UserRecordView>) -> bool {
    &&& (forall|i: int, j: int|
        0 <= i < j < auths.len() ==> !(#[trigger] auths[i].provider == #[trigger] auths[j].provider
            && auths[i].sub == auths[j].sub))
    &&& (forall|i: int, j: int|
        0 <= i < j < auths.len() ==> #[trigger] auths[i].id != #[trigger] auths[j].id)
    &&& users.len() == auths.len()
    &&& (forall|i: int| 0 <= i < auths.len() ==> #[trigger] users[i].auth_id == auths[i].id)
}

/// What inserting a pair does to well-formed store content: a conflict
/// on an existing (provider, subject) key leaves everything unchanged,
/// otherwise both records are appended.  The bool says "conflict".
pub open spec fn spec_insert(
    auths: Seq<AuthRecordView>,
    users: Seq<UserRecordView>,
    auth: AuthRecordView,
    user: UserRecordView,
) -> (Seq<AuthRecordView>, Seq<UserRecordView>, bool) {
    if spec_find(auths, auth.provider, auth.sub) is Some {
        (auths, users, true)
    } else {
        (auths.push(auth), users.push(user), false)
    }
}

/// What updating the last sign-in time by id does: the first record
/// with that id is touched, everything else stays.
pub open spec fn spec_touch(auths: Seq<AuthRecordView>, id: u128, now: i64) -> Seq<
    AuthRecordView,
> {
    match spec_find_id(auths, id) {
        None => auths,
        Some(i) => auths.update(i, touched(auths[i], now)),
    }
}

/// What a whole reconcile does to store content, and the record it
/// reports: an update of the existing record for the key, or the
/// insertion of a freshly built pair.
pub open spec fn spec_reconcile(
    auths: Seq<AuthRecordView>,
    users: Seq<UserRecordView>,
    c: ClaimsView,
    provider: Seq<char>,
    now: i64,
    new_id: u128,
) -> (Seq<AuthRecordView>, Seq<UserRecordView>, AuthRecordView) {
    match spec_find(auths, provider, c.sub) {
        Some(i) => (auths.update(i, touched(auths[i], now)), users, touched(auths[i], now)),
        None => (
            auths.push(spec_new_auth(c, provider, now, new_id)),
            users.push(spec_new_user(c, now, new_id)),
            spec_new_auth(c, provider, now, new_id),
        ),
    }
}

/// No record carries this id yet.
pub open spec fn id_fresh(auths: Seq<AuthRecordView>, id: u128) -> bool {
    forall|i: int| 0 <= i < auths.len() ==> (#[trigger] auths[i]).id != id
}

/// The insert was refused: the store already holds a record for the
/// (provider, subject) key.
#[derive(Debug, Clone, Copy, PartialEq, Eq, Structural)]
pub enum StoreConflict {
    DuplicateKey,
}

/// An in-memory transactional store with the interface and invariants
/// the reconciler relies on: point lookup by key, insert of an
/// auth/user pair with uniqueness enforced on (provider, subject), and
/// update of the last sign-in time by id.
pub struct AuthStore {
    auths: Vec<AuthRecord>,
    users: Vec<UserRecord>,
}

impl AuthStore {
    /// The auth records held, for specifications.
    pub closed spec fn auths_view(self) -> Seq<AuthRecordView> {
        self.auths@.map_values(|a: AuthRecord| a@)
    }

    /// The user records held, for specifications.
    pub closed spec fn users_view(self) -> Seq<UserRecordView> {
        self.users@.map_values(|u: UserRecord| u@)
    }

    pub open spec fn wf(self) -> bool {
        wf_records(self.auths_view(), self.users_view())
    }

    /// An empty store.
    pub fn new() -> (r: AuthStore)
        ensures
            r.auths_view() == Seq::<AuthRecordView>::empty(),
            r.users_view() == Seq::<UserRecordView>::empty(),
            r.wf(),
    {
        let r = AuthStore { auths: Vec::new(), users: Vec::new() };
        proof {
            assert(r.auths_view() =~= Seq::<AuthRecordView>::empty());
            assert(r.users_view() =~= Seq::<UserRecordView>::empty());
        }
        r
    }

    pub fn auth_count(&self) -> (n: usize)
        ensures
            n == self.auths_view().len(),
    {
        self.auths.len()
    }

    pub fn user_count(&self) -> (n: usize)
        ensures
            n == self.users_view().len(),
    {
        self.users.len()
    }

    /// Point lookup by (provider, subject): the first — under the store
    /// invariant, only — record carrying the key.
    pub fn find_auth(&self, provider: &String, sub: &String) -> (r: Option<AuthRecord>)
        ensures
            match spec_find(self.auths_view(), provider@, sub@) {
                None => r is None,
                Some(i) => r matches Some(a) && a@ == self.auths_view()[i],
            },
    {
        proof {
            assert(self.auths_view().len() == self.auths@.len());
        }
        let n = self.auths.len();
        let mut i: usize = 0;
        while i < n
            invariant
                n == self.auths.len(),
                n == self.auths_view().len(),
                0 <= i <= n,
                forall|j: int|
                    0 <= j < i ==> !key_at(#[trigger] self.auths_view()[j], provider@, sub@),
            decreases n - i,
        {
            proof {
                assert(self.auths_view()[i as int] == self.auths@[i as int]@);
            }
            if self.auths[i].provider == *provider && self.auths[i].sub == *sub {
                proof {
                    lemma_find_witness(self.auths_view(), provider@, sub@, i as int);
                }
                return Some(self.auths[i].clone());
            }
            i = i + 1;
        }
        proof {
            lemma_find_characterises(self.auths_view(), provider@, sub@);
        }
        None
    }

    /// Updates the last sign-in time of the record with the given id,
    /// leaving every other field and record alone.  Keeps the store
    /// invariant.
    pub fn touch_last_sign_in(&mut self, id: u128, now: i64) -> (found: bool)
        ensures
            final(self).auths_view() == spec_touch(old(self).auths_view(), id, now),
            final(self).users_view() == old(self).users_view(),
            found == (spec_find_id(old(self).auths_view(), id) is Some),
            old(self).wf() ==> final(self).wf(),
    {
        let ghost v0 = self.auths_view();
        proof {
            assert(v0.len() == self.auths@.len());
        }
        let n = self.auths.len();
        let mut i: usize = 0;
        while i < n
            invariant
                n == self.auths.len(),
                n == v0.len(),
                0 <= i <= n,
                self.auths_view() == v0,
                self.users_view() == old(self).users_view(),
                v0 == old(self).auths_view(),
                forall|j: int| 0 <= j < i ==> (#[trigger] v0[j]).id != id,
            decreases n - i,
        {
            proof {
                assert(v0[i as int] == self.auths@[i as int]@);
            }
            if self.auths[i].id == id {
                proof {
                    lemma_find_id_witness(v0, id, i as int);
                }
                self.auths[i].last_sign_in_at = now;
                proof {
                    assert(self.auths_view() =~= v0.update(i as int, touched(v0[i as int], now)));
                    if wf_records(v0, old(self).users_view()) {
                        let v1 = self.auths_view();
                        assert(forall|k: int| 0 <= k < v1.len() ==> (#[trigger] v1[k]).provider
                            == v0[k].provider && v1[k].sub == v0[k].sub && v1[k].id == v0[k].id);
                        assert(wf_records(v1, old(self).users_view()));
                    }
                }
                return true;
            }
            i = i + 1;
        }
        proof {
            lemma_find_id_characterises(v0, id);
        }
        false
    }

    /// Inserts an auth/user pair, enforcing uniqueness of the
    /// (provider, subject) key: on a conflict nothing changes and the
    /// caller must fall back to an update.
    pub fn insert_pair(&mut self, auth: AuthRecord, user: UserRecord) -> (r: Result<
        (),
        StoreConflict,
    >)
        requires
            user@.auth_id == auth@.id,
            old(self).wf(),
            id_fresh(old(self).auths_view(), auth@.id),
        ensures
            ({
                let (a2, u2, conflict) = spec_insert(
                    old(self).auths_view(),
                    old(self).users_view(),
                    auth@,
                    user@,
                );
                &&& final(self).auths_view() == a2
                &&& final(self).users_view() == u2
                &&& (r is Err <==> conflict)
            }),
            final(self).wf(),
    {
        match self.find_auth(&auth.provider, &auth.sub) {
            Some(_) => Err(StoreConflict::DuplicateKey),
            None => {
                proof {
                    lemma_find_characterises(self.auths_view(), auth.provider@, auth.sub@);
                }
                let ghost v0 = self.auths_view();
                let ghost w0 = self.users_view();
                self.auths.push(auth);
                self.users.push(user);
                proof {
                    assert(self.auths_view() =~= v0.push(auth@));
                    assert(self.users_view() =~= w0.push(user@));
                    let v1 = self.auths_view();
                    assert(forall|k: int| 0 <= k < v0.len() ==> v1[k] == #[trigger] v0[k]);
                    assert(wf_records(v1, self.users_view()));
                }
                Ok(())
            },
        }
    }
}

/// Finds-or-creates the account records for a verified identity:
/// a known (provider, subject) key only has its last sign-in time
/// updated; an unknown one gets a fresh auth/user pair, created
/// together.  A uniqueness conflict on insert — a concurrent request
/// won the race — is resolved by falling back to an update, never
/// surfaced to the caller.
pub fn reconcile(
    store: &mut AuthStore,
    claims: &GoogleClaims,
    provider: &String,
    now: i64,
    new_id: u128,
) -> (r: Result<AuthRecord, AuthError>)
    requires
        old(store).wf(),
        id_fresh(old(store).auths_view(), new_id),
    ensures
        final(store).wf(),
        ({
            let (a2, u2, rec) = spec_reconcile(
                old(store).auths_view(),
                old(store).users_view(),
                claims@,
                provider@,
                now,
                new_id,
            );
            &&& final(store).auths_view() == a2
            &&& final(store).users_view() == u2
            &&& (r matches Ok(out) && out@ == rec)
        }),
{
    match store.find_auth(provider, &claims.sub) {
        Some(existing) => {
            proof {
                let v0 = old(store).auths_view();
                let i = spec_find(v0, provider@, claims.sub@).unwrap();
                lemma_find_characterises(v0, provider@, claims.sub@);
                assert forall|j: int| 0 <= j < i implies (#[trigger] v0[j]).id != existing@.id by {
                    assert(v0[j].id != v0[i].id);
                }
                lemma_find_id_witness(v0, existing@.id, i);
            }
            let mut updated = existing;
            store.touch_last_sign_in(updated.id, now);
            updated.last_sign_in_at = now;
            Ok(updated)
        },
        None => {
            let (auth, user) = build_new_records(claims, provider, now, new_id);
            let ret = auth.clone();
            match store.insert_pair(auth, user) {
                Ok(()) => Ok(ret),
                Err(_) => {
                    // A concurrent request created the record between the
                    // lookup and the insert: fall back to an update.
                    match store.find_auth(provider, &claims.sub) {
                        Some(existing) => {
                            let mut updated = existing;
                            store.touch_last_sign_in(updated.id, now);
                            updated.last_sign_in_at = now;
                            Ok(updated)
                        },
                        None => Err(AuthError::StorageFailure),
                    }
                },
            }
        },
    }
}

/// The API response of a successful sign-in, carrying the up-to-date
/// record's public fields.
pub struct AuthResponse {
    sub: Option<String>,
    email: Option<String>,
    fullname: Option<String>,
    picture: Option<String>,
    provider: Option<String>,
    last_sign_in_at: i64,
}

impl AuthResponse {
    pub closed spec fn spec_sub(self) -> Option<Seq<char>> {
        view_opt_string(self.sub)
    }

    pub closed spec fn spec_email(self) -> Option<Seq<char>> {
        view_opt_string(self.email)
    }

    pub closed spec fn spec_fullname(self) -> Option<Seq<char>> {
        view_opt_string(self.fullname)
    }

    pub closed spec fn spec_picture(self) -> Option<Seq<char>> {
        view_opt_string(self.picture)
    }

    pub closed spec fn spec_provider(self) -> Option<Seq<char>> {
        view_opt_string(self.provider)
    }

    pub closed spec fn spec_last_sign_in_at(self) -> i64 {
        self.last_sign_in_at
    }

    /// The response a reconciled record yields: subject, email, full
    /// name, picture and provider straight from the record, together
    /// with its last sign-in time.
    pub fn from_record(auth: &AuthRecord) -> (r: AuthResponse)
        ensures
            r.spec_sub() == Some(auth@.sub),
            r.spec_email() == Some(auth@.email),
            r.spec_fullname() == Some(auth@.fullname),
            r.spec_picture() == Some(auth@.picture),
            r.spec_provider() == Some(auth@.provider),
            r.spec_last_sign_in_at() == auth@.last_sign_in_at,
    {
        AuthResponse {
            sub: Some(auth.sub.clone()),
            email: Some(auth.email.clone()),
            fullname: Some(auth.fullname.clone()),
            picture: Some(auth.picture.clone()),
            provider: Some(auth.provider.clone()),
            last_sign_in_at: auth.last_sign_in_at,
        }
    }

    pub fn sub(&self) -> (r: &Option<String>)
        ensures
            view_opt_string(*r) == self.spec_sub(),
    {
        &self.sub
    }

    pub fn email(&self) -> (r: &Option<String>)
        ensures
            view_opt_string(*r) == self.spec_email(),
    {
        &self.email
    }

    pub fn fullname(&self) -> (r: &Option<String>)
        ensures
            view_opt_string(*r) == self.spec_fullname(),
    {
        &self.fullname
    }

    pub fn picture(&self) -> (r: &Option<String>)
        ensures
            view_opt_string(*r) == self.spec_picture(),
    {
        &self.picture
    }

    pub fn provider(&self) -> (r: &Option<String>)
        ensures
            view_opt_string(*r) == self.spec_provider(),
    {
        &self.provider
    }

    pub fn last_sign_in_at(&self) -> (r: i64)
        ensures
            r == self.spec_last_sign_in_at(),
    {
        self.last_sign_in_at
    }
}

/// How the store answered the operation a driver last ran.
#[derive(Debug, Clone, Copy, PartialEq, Eq, Structural)]
pub enum StoreEvent {
    /// The lookup found the record with this id.
    Found { id: u128 },
    /// The lookup found no record for the key.
    Missing,
    /// The pair was inserted.
    Inserted,
    /// The insert hit the uniqueness constraint on (provider, subject).
    InsertConflict,
    /// The last sign-in time was updated.
    Updated,
    /// The store failed.
    StoreError,
}

/// The next store operation a driver must run, or how to end the run.
pub enum StoreAction {
    /// Look the (provider, subject) key up.
    Lookup,
    /// Insert this auth/user pair in one transaction.
    Insert { auth: AuthRecord, user: UserRecord },
    /// Set the last sign-in time of the record with this id.
    Update { id: u128, now: i64 },
    /// The run is over: the record with this id is current.
    Finish { id: u128 },
    /// The run is over: surface this error.
    Fail { error: AuthError },
}

/// Where a reconciliation run stands.
#[derive(Debug, Clone, Copy, PartialEq, Eq, Structural)]
pub enum ReconcileState {
    /// Waiting for the initial lookup's answer.
    Looking,
    /// Waiting for the insert's answer.
    Inserting,
    /// The insert conflicted; waiting for the second lookup's answer.
    RetryLooking,
    /// Waiting for the update's answer.
    Updating { id: u128 },
    /// Finished with this record id.
    Done { id: u128 },
    /// Finished with a storage failure.
    Failed,
}

/// The mathematical content of a store action.
pub ghost enum ActionView {
    Lookup,
    Insert(AuthRecordView, UserRecordView),
    Update(u128, i64),
    Finish(u128),
    Fail(AuthError),
}

pub open spec fn action_view(a: StoreAction) -> ActionView {
    match a {
        StoreAction::Lookup => ActionView::Lookup,
        StoreAction::Insert { auth, user } => ActionView::Insert(auth@, user@),
        StoreAction::Update { id, now } => ActionView::Update(id, now),
        StoreAction::Finish { id } => ActionView::Finish(id),
        StoreAction::Fail { error } => ActionView::Fail(error),
    }
}

/// The transition relation of a reconciliation run.  A store error
/// fails the run from any waiting state; the one recovered case is an
/// insert conflict, which goes back to a lookup.
pub open spec fn spec_next(s: ReconcileState, ev: StoreEvent, new_id: u128) -> ReconcileState {
    match s {
        ReconcileState::Looking => match ev {
            StoreEvent::Found { id } => ReconcileState::Updating { id },
            StoreEvent::Missing => ReconcileState::Inserting,
            _ => ReconcileState::Failed,
        },
        ReconcileState::Inserting => match ev {
            StoreEvent::Inserted => ReconcileState::Done { id: new_id },
            StoreEvent::InsertConflict => ReconcileState::RetryLooking,
            _ => ReconcileState::Failed,
        },
        ReconcileState::RetryLooking => match ev {
            StoreEvent::Found { id } => ReconcileState::Updating { id },
            _ => ReconcileState::Failed,
        },
        ReconcileState::Updating { id } => match ev {
            StoreEvent::Updated => ReconcileState::Done { id },
            _ => ReconcileState::Failed,
        },
        ReconcileState::Done { id } => ReconcileState::Done { id },
        ReconcileState::Failed => ReconcileState::Failed,
    }
}

/// The operation each transition asks the driver to run next.
pub open spec fn spec_action(
    s: ReconcileState,
    ev: StoreEvent,
    c: ClaimsView,
    provider: Seq<char>,
    now: i64,
    new_id: u128,
) -> ActionView {
    match s {
        ReconcileState::Looking => match ev {
            StoreEvent::Found { id } => ActionView::Update(id, now),
            StoreEvent::Missing => ActionView::Insert(
                spec_new_auth(c, provider, now, new_id),
                spec_new_user(c, now, new_id),
            ),
            _ => ActionView::Fail(AuthError::StorageFailure),
        },
        ReconcileState::Inserting => match ev {
            StoreEvent::Inserted => ActionView::Finish(new_id),
            StoreEvent::InsertConflict => ActionView::Lookup,
            _ => ActionView::Fail(AuthError::StorageFailure),
        },
        ReconcileState::RetryLooking => match ev {
            StoreEvent::Found { id } => ActionView::Update(id, now),
            _ => ActionView::Fail(AuthError::StorageFailure),
        },
        ReconcileState::Updating { id } => match ev {
            StoreEvent::Updated => ActionView::Finish(id),
            _ => ActionView::Fail(AuthError::StorageFailure),
        },
        ReconcileState::Done { id } => ActionView::Finish(id),
        ReconcileState::Failed => ActionView::Fail(AuthError::StorageFailure),
    }
}

/// One reconciliation run as a step machine: a driver runs each store
/// operation the machine asks for and hands the answer back.  All the
/// decisions — including the uniqueness-conflict fallback to an update
/// — are made here, so a driver carries no logic of its own.
pub struct Reconciler {
    claims: GoogleClaims,
    provider: String,
    now: i64,
    new_id: u128,
    state: ReconcileState,
}

impl Reconciler {
    pub closed spec fn spec_claims(self) -> ClaimsView {
        self.claims@
    }

    pub closed spec fn spec_provider(self) -> Seq<char> {
        self.provider@
    }

    pub closed spec fn spec_now(self) -> i64 {
        self.now
    }

    pub closed spec fn spec_new_id(self) -> u128 {
        self.new_id
    }

    pub closed spec fn spec_state(self) -> ReconcileState {
        self.state
    }

    /// Starts a run for a verified identity: the first operation is
    /// always the point lookup by (provider, subject).
    pub fn start(claims: GoogleClaims, provider: String, now: i64, new_id: u128) -> (r: (
        Reconciler,
        StoreAction,
    ))
        ensures
            r.0.spec_claims() == claims@,
            r.0.spec_provider() == provider@,
            r.0.spec_now() == now,
            r.0.spec_new_id() == new_id,
            r.0.spec_state() == ReconcileState::Looking,
            action_view(r.1) == ActionView::Lookup,
    {
        (Reconciler { claims, provider, now, new_id, state: ReconcileState::Looking }, StoreAction::Lookup)
    }

    /// Feeds the store's answer in and yields the next operation.
    pub fn step(&mut self, ev: StoreEvent) -> (a: StoreAction)
        ensures
            final(self).spec_claims() == old(self).spec_claims(),
            final(self).spec_provider() == old(self).spec_provider(),
            final(self).spec_now() == old(self).spec_now(),
            final(self).spec_new_id() == old(self).spec_new_id(),
            final(self).spec_state() == spec_next(
                old(self).spec_state(),
                ev,
                old(self).spec_new_id(),
            ),
            action_view(a) == spec_action(
                old(self).spec_state(),
                ev,
                old(self).spec_claims(),
                old(self).spec_provider(),
                old(self).spec_now(),
                old(self).spec_new_id(),
            ),
    {
        match self.state {
            ReconcileState::Looking => match ev {
                StoreEvent::Found { id } => {
                    self.state = ReconcileState::Updating { id };
                    StoreAction::Update { id, now: self.now }
                },
                StoreEvent::Missing => {
                    self.state = ReconcileState::Inserting;
                    let (auth, user) = build_new_records(
                        &self.claims,
                        &self.provider,
                        self.now,
                        self.new_id,
                    );
                    StoreAction::Insert { auth, user }
                },
                _ => {
                    self.state = ReconcileState::Failed;
                    StoreAction::Fail { error: AuthError::StorageFailure }
                },
            },
            ReconcileState::Inserting => match ev {
                StoreEvent::Inserted => {
                    self.state = ReconcileState::Done { id: self.new_id };
                    StoreAction::Finish { id: self.new_id }
                },
                StoreEvent::InsertConflict => {
                    // A concurrent run created the pair first: retry as
                    // an update, starting with a fresh lookup.
                    self.state = ReconcileState::RetryLooking;
                    StoreAction::Lookup
                },
                _ => {
                    self.state = ReconcileState::Failed;
                    StoreAction::Fail { error: AuthError::StorageFailure }
                },
            },
            ReconcileState::RetryLooking => match ev {
                StoreEvent::Found { id } => {
                    self.state = ReconcileState::Updating { id };
                    StoreAction::Update { id, now: self.now }
                },
                _ => {
                    self.state = ReconcileState::Failed;
                    StoreAction::Fail { error: AuthError::StorageFailure }
                },
            },
            ReconcileState::Updating { id } => match ev {
                StoreEvent::Updated => {
                    self.state = ReconcileState::Done { id };
                    StoreAction::Finish { id }
                },
                _ => {
                    self.state = ReconcileState::Failed;
                    StoreAction::Fail { error: AuthError::StorageFailure }
                },
            },
            ReconcileState::Done { id } => StoreAction::Finish { id },
            ReconcileState::Failed => StoreAction::Fail { error: AuthError::StorageFailure },
        }
    }
}

/// Whether this transition issues the insert.
pub open spec fn issues_insert(s: ReconcileState, ev: StoreEvent) -> bool {
    s is Looking && ev is Missing
}

/// How many inserts a run issues from state `s` on this event trace.
pub open spec fn inserts_in_run(s: ReconcileState, evs: Seq<StoreEvent>, new_id: u128) -> nat
    decreases evs.len(),
{
    if evs.len() == 0 {
        0
    } else {
        (if issues_insert(s, evs[0]) {
            1nat
        } else {
            0nat
        }) + inserts_in_run(spec_next(s, evs[0], new_id), evs.drop_first(), new_id)
    }
}

/// A run never returns to its initial state, so once past the first
/// lookup it issues no insert at all.
pub proof fn lemma_no_insert_after_first_lookup(s: ReconcileState, evs: Seq<StoreEvent>, new_id: u128)
    requires
        !(s is Looking),
    ensures
        inserts_in_run(s, evs, new_id) == 0,
    decreases evs.len(),
{
    if evs.len() > 0 {
        lemma_no_insert_after_first_lookup(spec_next(s, evs[0], new_id), evs.drop_first(), new_id);
    }
}

/// However the store answers, one reconciliation run issues at most
/// one insert: with many first logins racing, each run contributes at
/// most one attempt, and the store's uniqueness constraint lets only
/// one of those attempts through.
pub proof fn lemma_at_most_one_insert(evs: Seq<StoreEvent>, new_id: u128)
    ensures
        inserts_in_run(ReconcileState::Looking, evs, new_id) <= 1,
{
    if evs.len() > 0 {
        lemma_no_insert_after_first_lookup(
            spec_next(ReconcileState::Looking, evs[0], new_id),
            evs.drop_first(),
            new_id,
        );
    }
}

/// Once well-formed store content holds a record for a key, any
/// further insert of a pair with the same key conflicts and changes
/// nothing: the first racer through the store's uniqueness constraint
/// creates the only pair.
pub proof fn lemma_second_insert_conflicts(
    auths: Seq<AuthRecordView>,
    users: Seq<UserRecordView>,
    auth: AuthRecordView,
    user: UserRecordView,
)
    requires
        has_auth(auths, auth.provider, auth.sub),
    ensures
        spec_insert(auths, users, auth, user) == (auths, users, true),
{
    lemma_find_characterises(auths, auth.provider, auth.sub);
    if spec_find(auths, auth.provider, auth.sub) is None {
        let i = choose|i: int| 0 <= i < auths.len() && key_at(#[trigger] auths[i], auth.provider, auth.sub);
        assert(!key_at(auths[i], auth.provider, auth.sub));
    }
}

/// Well-formed store content never holds two records for one key: any
/// two indices carrying the same (provider, subject) are the same
/// index.  Together with the conflict rule above, racing first logins
/// end with exactly one pair, the losers observed as updates.
pub proof fn lemma_one_record_per_key(
    auths: Seq<AuthRecordView>,
    users: Seq<UserRecordView>,
    provider: Seq<char>,
    sub: Seq<char>,
    i: int,
    j: int,
)
    requires
        wf_records(auths, users),
        0 <= i < auths.len(),
        0 <= j < auths.len(),
        key_at(auths[i], provider, sub),
        key_at(auths[j], provider, sub),
    ensures
        i == j,
{
}

/// Reconciling the same (provider, subject) twice in a row touches the
/// same record: the second call reports the same id, moves only the
/// last sign-in time, and creates no second user record.
pub proof fn lemma_reconcile_idempotent(
    auths: Seq<AuthRecordView>,
    users: Seq<UserRecordView>,
    c: ClaimsView,
    provider: Seq<char>,
    t1: i64,
    id1: u128,
    t2: i64,
    id2: u128,
)
    ensures
        ({
            let (a1, u1, r1) = spec_reconcile(auths, users, c, provider, t1, id1);
            let (a2, u2, r2) = spec_reconcile(a1, u1, c, provider, t2, id2);
            &&& r2.id == r1.id
            &&& r2 == touched(r1, t2)
            &&& u2 == u1
            &&& a2.len() == a1.len()
        }),
{
    lemma_find_characterises(auths, provider, c.sub);
    match spec_find(auths, provider, c.sub) {
        None => {
            let r1 = spec_new_auth(c, provider, t1, id1);
            lemma_find_push(auths, provider, c.sub, r1);
        },
        Some(i) => {
            let a1 = auths.update(i, touched(auths[i], t1));
            assert(key_at(a1[i], provider, c.sub));
            assert forall|j: int| 0 <= j < i implies !key_at(#[trigger] a1[j], provider, c.sub) by {
                assert(a1[j] == auths[j]);
            }
            lemma_find_witness(a1, provider, c.sub, i);
        },
    }
}

} // verus!
