use article_reflect::reflect::{reflect, ReflectError};
use article_reflect::session::{Action, Event, Phase, Session};
use article_reflect::store::{Bucket, StoreError};
use article_reflect::tables::{Article, Articles, DbError, EditingArticle, Tables, Transaction};

fn s(v: &str) -> String {
    v.to_string()
}

fn tables(article_body: &str) -> Tables {
    Tables {
        drafts: vec![
            EditingArticle { id: 1, article_id: 10, title: s("old"), body: s(article_body) },
            EditingArticle { id: 2, article_id: 99, title: s("lost"), body: s("") },
        ],
        articles: vec![Article { id: 10, title: s("old"), body: s(article_body) }],
        max_draft_title: 20,
        max_article_title: 10,
    }
}

fn bucket(keys: &[&str], online: bool) -> Bucket {
    Bucket { objects: keys.iter().map(|k| s(k)).collect(), online }
}

const OLD_BODY: &str = "...img/key1.png...img/key2.png...";
const NEW_BODY: &str = "...img/key1.png...";

#[test]
fn test_rollback() {
    let mut t = Tables {
        drafts: Vec::new(),
        articles: vec![Article { id: 1, title: s("test"), body: s("test") }],
        max_draft_title: 10,
        max_article_title: 10,
    };
    let mut tx = Transaction::begin(&t);
    let before = tx.update_article(&mut t, 1, &s("changed"), &s("changed")).unwrap();
    assert_eq!(before.title, "test");
    assert_eq!(t.articles[0].title, "changed");
    tx.rollback(&mut t);
    let article_title: Vec<String> = t.articles.iter().map(|a| a.title.clone()).collect();
    assert_eq!(vec!["test"], article_title);
}

#[test]
fn transaction_reports_missing_rows_and_constraints() {
    let mut t = tables("body");
    let mut tx = Transaction::begin(&t);
    assert_eq!(tx.update_draft(&mut t, 7, &s("x"), &s("y")), Err(DbError::NotFound));
    assert_eq!(tx.update_article(&mut t, 10, &s("far too long a title"), &s("y")), Err(DbError::ConstraintViolation));
    let written = tx.update_draft(&mut t, 1, &s("new"), &s("y")).unwrap();
    assert_eq!(written, EditingArticle { id: 1, article_id: 10, title: s("new"), body: s("y") });
    tx.commit();
    assert_eq!(t.drafts[0].title, "new");
}

#[test]
fn reflect_commits_both_rows_and_deletes_orphans() {
    let mut t = tables(OLD_BODY);
    let mut b = bucket(&["key1.png", "key2.png", "other.png"], true);
    let r = reflect(&mut t, &mut b, 1, s("new"), s(NEW_BODY));
    let expected = EditingArticle { id: 1, article_id: 10, title: s("new"), body: s(NEW_BODY) };
    assert_eq!(r, Ok(expected.clone()));
    assert_eq!(t.drafts[0], expected);
    assert_eq!(t.articles[0], Article { id: 10, title: s("new"), body: s(NEW_BODY) });
    assert_eq!(b.objects, vec![s("key1.png"), s("other.png")]);
}

#[test]
fn reflect_missing_draft_is_not_found() {
    let mut t = tables(OLD_BODY);
    let mut b = bucket(&["key2.png"], true);
    assert_eq!(reflect(&mut t, &mut b, 42, s("new"), s(NEW_BODY)), Err(ReflectError::NotFound));
    assert_eq!(t.articles[0], Article { id: 10, title: s("old"), body: s(OLD_BODY) });
    assert_eq!(t.drafts[0].title, "old");
    assert_eq!(b.objects, vec![s("key2.png")]);
}

#[test]
fn reflect_missing_article_rolls_back_draft() {
    let mut t = tables(OLD_BODY);
    let mut b = bucket(&[], true);
    assert_eq!(reflect(&mut t, &mut b, 2, s("new"), s("x")), Err(ReflectError::NotFound));
    assert_eq!(t.drafts[1], EditingArticle { id: 2, article_id: 99, title: s("lost"), body: s("") });
}

#[test]
fn reflect_article_constraint_keeps_draft() {
    let mut t = tables(OLD_BODY);
    let mut b = bucket(&["key2.png"], true);
    let long = s("fifteen letters");
    assert_eq!(reflect(&mut t, &mut b, 1, long, s(NEW_BODY)), Err(ReflectError::ConstraintViolation));
    assert_eq!(t.drafts[0], EditingArticle { id: 1, article_id: 10, title: s("old"), body: s(OLD_BODY) });
    assert_eq!(t.articles[0].body, OLD_BODY);
    assert_eq!(b.objects, vec![s("key2.png")]);
}

#[test]
fn reflect_draft_constraint_reported() {
    let mut t = tables(OLD_BODY);
    let mut b = bucket(&[], true);
    let r = reflect(&mut t, &mut b, 1, s("a title of more than twenty"), s(NEW_BODY));
    assert_eq!(r, Err(ReflectError::ConstraintViolation));
    assert_eq!(t.drafts[0].title, "old");
}

#[test]
fn reflect_cleanup_failure_keeps_both_rows() {
    let mut t = tables(OLD_BODY);
    let mut b = bucket(&["key1.png", "key2.png"], false);
    assert_eq!(reflect(&mut t, &mut b, 1, s("new"), s(NEW_BODY)), Err(ReflectError::CleanupFailed));
    assert_eq!(t.drafts[0], EditingArticle { id: 1, article_id: 10, title: s("old"), body: s(OLD_BODY) });
    assert_eq!(t.articles[0], Article { id: 10, title: s("old"), body: s(OLD_BODY) });
    assert_eq!(b.objects, vec![s("key1.png"), s("key2.png")]);
}

#[test]
fn reflect_twice_gives_same_rows() {
    let mut t = tables(OLD_BODY);
    let mut b = bucket(&["key1.png", "key2.png"], true);
    let first = reflect(&mut t, &mut b, 1, s("new"), s(NEW_BODY));
    let drafts = t.drafts.clone();
    let articles = t.articles.clone();
    b.online = false;
    let second = reflect(&mut t, &mut b, 1, s("new"), s(NEW_BODY));
    assert!(first.is_ok());
    assert_eq!(first, second);
    assert_eq!(t.drafts, drafts);
    assert_eq!(t.articles, articles);
    assert_eq!(b.objects, vec![s("key1.png")]);
}

#[test]
fn bucket_deletes_batches() {
    let mut b = bucket(&["a.png", "b.png"], true);
    assert_eq!(b.delete_batch(&vec![s("b.png"), s("gone.png")]), Ok(1));
    assert_eq!(b.objects, vec![s("a.png")]);
    assert!(b.holds(&s("a.png")));
    assert!(!b.holds(&s("b.png")));
    b.online = false;
    assert_eq!(b.delete_batch(&Vec::new()), Ok(0));
    assert_eq!(b.delete_batch(&vec![s("a.png")]), Err(StoreError::Unavailable));
    assert_eq!(b.objects, vec![s("a.png")]);
}

#[test]
fn articles_keep_their_order() {
    let list = vec![
        Article { id: 1, title: s("a"), body: s("") },
        Article { id: 2, title: s("b"), body: s("") },
    ];
    let packed = Articles::new(list.clone());
    assert_eq!(packed.articles, list);
}

#[test]
fn session_runs_to_commit() {
    let (mut session, first) = Session::start(1, s("new"), s(NEW_BODY));
    assert!(matches!(first, Action::Begin));
    match session.step(Event::Began) {
        Action::UpdateDraft { id, title, body } => {
            assert_eq!((id, title.as_str(), body.as_str()), (1, "new", NEW_BODY));
        },
        _ => panic!("expected a draft update"),
    }
    let draft = EditingArticle { id: 1, article_id: 10, title: s("new"), body: s(NEW_BODY) };
    match session.step(Event::DraftWritten { draft: draft.clone() }) {
        Action::UpdateArticle { id, .. } => assert_eq!(id, 10),
        _ => panic!("expected an article update"),
    }
    let previous = Article { id: 10, title: s("old"), body: s(OLD_BODY) };
    match session.step(Event::ArticleWritten { previous }) {
        Action::DeleteKeys { keys } => assert_eq!(keys, vec![s("key2.png")]),
        _ => panic!("expected a deletion"),
    }
    assert!(matches!(session.step(Event::KeysDeleted), Action::Commit));
    match session.step(Event::Committed) {
        Action::Finish { outcome } => assert_eq!(outcome, Ok(draft)),
        _ => panic!("expected the end"),
    }
    assert_eq!(session.phase, Phase::Finished);
}

#[test]
fn session_rolls_back_on_cleanup_failure() {
    let (mut session, _) = Session::start(1, s("new"), s(NEW_BODY));
    session.step(Event::Began);
    let draft = EditingArticle { id: 1, article_id: 10, title: s("new"), body: s(NEW_BODY) };
    session.step(Event::DraftWritten { draft });
    let previous = Article { id: 10, title: s("old"), body: s(OLD_BODY) };
    session.step(Event::ArticleWritten { previous });
    let next = session.step(Event::StoreFailed { error: StoreError::Unavailable });
    assert!(matches!(next, Action::Rollback));
    match session.step(Event::RolledBack) {
        Action::Finish { outcome } => assert_eq!(outcome, Err(ReflectError::CleanupFailed)),
        _ => panic!("expected the end"),
    }
}

#[test]
fn session_reports_database_errors() {
    let (mut session, _) = Session::start(5, s("t"), s("b"));
    session.step(Event::Began);
    assert!(matches!(session.step(Event::DbFailed { error: DbError::NotFound }), Action::Rollback));
    match session.step(Event::RolledBack) {
        Action::Finish { outcome } => assert_eq!(outcome, Err(ReflectError::NotFound)),
        _ => panic!("expected the end"),
    }
    let (mut other, _) = Session::start(5, s("t"), s("b"));
    match other.step(Event::DbFailed { error: DbError::Failed }) {
        Action::Finish { outcome } => assert_eq!(outcome, Err(ReflectError::DatabaseFailed)),
        _ => panic!("expected the end"),
    }
    let (mut third, _) = Session::start(5, s("t"), s("b"));
    third.step(Event::Began);
    third.step(Event::DbFailed { error: DbError::ConstraintViolation });
    match third.step(Event::DbFailed { error: DbError::Failed }) {
        Action::Finish { outcome } => assert_eq!(outcome, Err(ReflectError::DatabaseFailed)),
        _ => panic!("expected the end"),
    }
}
