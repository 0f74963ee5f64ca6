//! Identity reconciliation: find-or-create pairs, idempotent repeats,
//! and the uniqueness-conflict retry under racing first logins.

use authcore::content::{ArticleData, ArticleResponse, AudioResponse, GlossaryData, GlossaryResponse, ImageResponse};
use authcore::reconcile::{
    build_new_records, reconcile, AuthResponse, AuthStore, Reconciler, StoreAction, StoreEvent,
};
use authcore::verify::GoogleClaims;

fn claims() -> GoogleClaims {
    GoogleClaims {
        sub: "117".to_string(),
        email: "a@b.com".to_string(),
        name: "A B".to_string(),
        picture: "https://p.example/a.png".to_string(),
        exp: 32503680000,
        iss: "https://accounts.google.com".to_string(),
        aud: "client-app-id".to_string(),
        issued_at: 1700000000,
    }
}

fn google() -> String {
    "Google".to_string()
}

#[test]
fn a_first_login_creates_one_pair_with_seeded_fields() {
    let mut store = AuthStore::new();
    let rec = reconcile(&mut store, &claims(), &google(), 5000, 42).unwrap();
    assert_eq!(rec.id, 42);
    assert_eq!(rec.provider, "Google");
    assert_eq!(rec.sub, "117");
    assert_eq!(rec.email, "a@b.com");
    assert_eq!(rec.fullname, "A B");
    assert_eq!(rec.picture, "https://p.example/a.png");
    assert_eq!(rec.created_at, 5000);
    assert_eq!(rec.updated_at, 5000);
    assert_eq!(rec.last_sign_in_at, 5000);
    assert_eq!(store.auth_count(), 1);
    assert_eq!(store.user_count(), 1);
}

#[test]
fn a_second_login_updates_the_same_record_and_makes_no_second_pair() {
    let mut store = AuthStore::new();
    let first = reconcile(&mut store, &claims(), &google(), 5000, 42).unwrap();
    let second = reconcile(&mut store, &claims(), &google(), 6000, 77).unwrap();
    assert_eq!(second.id, first.id);
    assert_eq!(second.created_at, 5000);
    assert_eq!(second.last_sign_in_at, 6000);
    assert_eq!(store.auth_count(), 1);
    assert_eq!(store.user_count(), 1);
}

#[test]
fn distinct_subjects_get_distinct_pairs() {
    let mut store = AuthStore::new();
    reconcile(&mut store, &claims(), &google(), 5000, 1).unwrap();
    let mut other = claims();
    other.sub = "118".to_string();
    let rec = reconcile(&mut store, &other, &google(), 5001, 2).unwrap();
    assert_eq!(rec.id, 2);
    assert_eq!(store.auth_count(), 2);
    assert_eq!(store.user_count(), 2);
}

#[test]
fn an_insert_conflict_leaves_the_store_unchanged() {
    let mut store = AuthStore::new();
    let (auth, user) = build_new_records(&claims(), &google(), 5000, 1);
    store.insert_pair(auth, user).unwrap();
    let (auth2, user2) = build_new_records(&claims(), &google(), 6000, 2);
    assert!(store.insert_pair(auth2, user2).is_err());
    assert_eq!(store.auth_count(), 1);
    assert_eq!(store.user_count(), 1);
    let kept = store.find_auth(&google(), &"117".to_string()).unwrap();
    assert_eq!(kept.id, 1);
    assert_eq!(kept.last_sign_in_at, 5000);
}

#[test]
fn touch_moves_only_the_last_sign_in_time() {
    let mut store = AuthStore::new();
    let (auth, user) = build_new_records(&claims(), &google(), 5000, 1);
    store.insert_pair(auth, user).unwrap();
    assert!(store.touch_last_sign_in(1, 9000));
    let rec = store.find_auth(&google(), &"117".to_string()).unwrap();
    assert_eq!(rec.last_sign_in_at, 9000);
    assert_eq!(rec.created_at, 5000);
    assert_eq!(rec.updated_at, 5000);
    assert!(!store.touch_last_sign_in(99, 9001));
}

#[test]
fn build_new_records_seeds_the_username_from_the_email() {
    let (auth, user) = build_new_records(&claims(), &google(), 5000, 7);
    assert_eq!(auth.id, 7);
    assert_eq!(user.auth_id, 7);
    assert_eq!(user.username, "a@b.com");
    assert_eq!(user.email, "a@b.com");
    assert_eq!(user.fullname, "A B");
    assert_eq!(user.picture, "https://p.example/a.png");
    assert_eq!(user.created_at, 5000);
    assert_eq!(user.updated_at, 5000);
}

#[test]
fn racing_first_logins_end_with_one_pair_and_the_losers_update() {
    let mut store = AuthStore::new();
    let (mut m1, _a) = Reconciler::start(claims(), google(), 5000, 1);
    let (mut m2, _b) = Reconciler::start(claims(), google(), 5001, 2);

    // Both runs look the key up before either inserted: both miss.
    let a1 = m1.step(StoreEvent::Missing);
    let a2 = m2.step(StoreEvent::Missing);

    // The first racer's insert goes through.
    match a1 {
        StoreAction::Insert { auth, user } => store.insert_pair(auth, user).unwrap(),
        _ => panic!("expected an insert"),
    }
    match m1.step(StoreEvent::Inserted) {
        StoreAction::Finish { id } => assert_eq!(id, 1),
        _ => panic!("expected the run to finish"),
    }

    // The second racer's insert hits the uniqueness constraint ...
    match a2 {
        StoreAction::Insert { auth, user } => assert!(store.insert_pair(auth, user).is_err()),
        _ => panic!("expected an insert"),
    }
    // ... and the machine retries it as an update, not an error.
    match m2.step(StoreEvent::InsertConflict) {
        StoreAction::Lookup => {},
        _ => panic!("expected a retry lookup"),
    }
    let winner = store.find_auth(&google(), &"117".to_string()).unwrap();
    match m2.step(StoreEvent::Found { id: winner.id }) {
        StoreAction::Update { id, now } => {
            assert_eq!(id, 1);
            assert!(store.touch_last_sign_in(id, now));
        },
        _ => panic!("expected an update"),
    }
    match m2.step(StoreEvent::Updated) {
        StoreAction::Finish { id } => assert_eq!(id, 1),
        _ => panic!("expected the run to finish"),
    }

    // Exactly one pair exists, and the loser was observed as an update.
    assert_eq!(store.auth_count(), 1);
    assert_eq!(store.user_count(), 1);
    let rec = store.find_auth(&google(), &"117".to_string()).unwrap();
    assert_eq!(rec.id, 1);
    assert_eq!(rec.last_sign_in_at, 5001);
}

#[test]
fn a_store_error_fails_the_run() {
    let (mut m, _a) = Reconciler::start(claims(), google(), 5000, 1);
    match m.step(StoreEvent::StoreError) {
        StoreAction::Fail { error } => {
            assert_eq!(error, authcore::errors::AuthError::StorageFailure)
        },
        _ => panic!("expected the run to fail"),
    }
}

#[test]
fn a_known_identity_is_updated_without_any_insert() {
    let mut store = AuthStore::new();
    reconcile(&mut store, &claims(), &google(), 5000, 1).unwrap();
    let (mut m, _a) = Reconciler::start(claims(), google(), 6000, 2);
    let existing = store.find_auth(&google(), &"117".to_string()).unwrap();
    match m.step(StoreEvent::Found { id: existing.id }) {
        StoreAction::Update { id, now } => {
            assert_eq!(id, 1);
            assert!(store.touch_last_sign_in(id, now));
        },
        _ => panic!("expected an update"),
    }
    match m.step(StoreEvent::Updated) {
        StoreAction::Finish { id } => assert_eq!(id, 1),
        _ => panic!("expected the run to finish"),
    }
    assert_eq!(store.auth_count(), 1);
}

#[test]
fn the_end_to_end_example_round() {
    // First login of subject 117: a fresh pair, echoed back.
    let mut store = AuthStore::new();
    let rec = reconcile(&mut store, &claims(), &google(), 7000, 9).unwrap();
    let resp = AuthResponse::from_record(&rec);
    assert_eq!(resp.sub().as_deref(), Some("117"));
    assert_eq!(resp.email().as_deref(), Some("a@b.com"));
    assert_eq!(resp.fullname().as_deref(), Some("A B"));
    assert_eq!(resp.provider().as_deref(), Some("Google"));
    assert_eq!(resp.picture().as_deref(), Some("https://p.example/a.png"));
    assert_eq!(resp.last_sign_in_at(), 7000);

    // A second login moments later: same identity, later sign-in time.
    let rec = reconcile(&mut store, &claims(), &google(), 7010, 10).unwrap();
    let resp = AuthResponse::from_record(&rec);
    assert_eq!(resp.sub().as_deref(), Some("117"));
    assert_eq!(resp.email().as_deref(), Some("a@b.com"));
    assert_eq!(resp.fullname().as_deref(), Some("A B"));
    assert_eq!(resp.last_sign_in_at(), 7010);
}

#[test]
fn content_responses_echo_what_was_stored() {
    let article = ArticleData {
        title: "t".to_string(),
        content: "c".to_string(),
        authorid: "a".to_string(),
        ispublished: "true".to_string(),
        language: "en".to_string(),
        readtime: "3".to_string(),
        subheading: "s".to_string(),
        isarchived: "false".to_string(),
        realtitle: "rt".to_string(),
        ismainpage: "false".to_string(),
        isurltitledifferent: "false".to_string(),
        mobiletitle: "mt".to_string(),
    };
    let r: ArticleResponse = ArticleResponse::echoed(article, "id-1".to_string());
    assert_eq!(r.id.as_deref(), Some("id-1"));
    assert_eq!(r.title.as_deref(), Some("t"));
    assert_eq!(r.mobiletitle.as_deref(), Some("mt"));

    let g = GlossaryData { title: "word".to_string(), definition: "sense".to_string() };
    let r: GlossaryResponse = GlossaryResponse::echoed(g, "id-2".to_string());
    assert_eq!(r.id.as_deref(), Some("id-2"));
    assert_eq!(r.title.as_deref(), Some("word"));
    assert_eq!(r.definition.as_deref(), Some("sense"));

    let r = ImageResponse::stored(Some("id-3".to_string()), Some("https://u".to_string()));
    assert_eq!(r.is_indb, Some(1));
    let r = AudioResponse::stored(Some("id-4".to_string()), Some("https://u".to_string()));
    assert_eq!(r.is_indb, Some(1));
    assert_eq!(r.url.as_deref(), Some("https://u"));
}
