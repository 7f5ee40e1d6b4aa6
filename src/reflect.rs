//! Reflecting a draft into its article: both rows are written in one
//! transaction, the objects that only the replaced body referred to are
//! deleted, and the transaction commits only where that deletion succeeded.
use vstd::prelude::*;
use crate::keys::{extract, key_set, keys_to_delete, lemma_key_set_empty, lemma_self_diff_empty, orphaned};
use crate::store::{Bucket, StoreError};
use crate::tables::{
    find_article, find_draft, lemma_find_article, lemma_find_draft, Article, DbError,
    EditingArticle, TableRows, Tables, Transaction,
};

verus! {

/// Why a reflect left both tables as they were.
#[derive(PartialEq, Eq, Structural, Clone, Copy, Debug)]
pub enum ReflectError {
    /// The draft, or the article it belongs to, does not exist.
    NotFound,
    /// The new values break a rule of one of the tables.
    ConstraintViolation,
    /// The relational store failed otherwise.
    DatabaseFailed,
    /// The orphaned objects could not be deleted, so the edit was undone.
    CleanupFailed,
}

pub open spec fn reflect_error_of(e: DbError) -> ReflectError {
    match e {
        DbError::NotFound => ReflectError::NotFound,
        DbError::ConstraintViolation => ReflectError::ConstraintViolation,
        DbError::Failed => ReflectError::DatabaseFailed,
    }
}

/// The error a reflect reports for a failed write.
pub fn reflect_error(e: DbError) -> (r: ReflectError)
    ensures
        r == reflect_error_of(e),
{
    match e {
        DbError::NotFound => ReflectError::NotFound,
        DbError::ConstraintViolation => ReflectError::ConstraintViolation,
        DbError::Failed => ReflectError::DatabaseFailed,
    }
}

/// The error a reflect reports where deleting the orphaned objects failed.
pub fn cleanup_error(e: StoreError) -> (r: ReflectError)
    ensures
        r == ReflectError::CleanupFailed,
{
    match e {
        StoreError::Unavailable => ReflectError::CleanupFailed,
    }
}

/// Position of the draft `id` in `m`.
pub open spec fn draft_pos(m: TableRows, id: i32) -> int {
    find_draft(m.drafts, id).unwrap()
}

/// Id of the article that draft `id` belongs to.
pub open spec fn target_id(m: TableRows, id: i32) -> i32 {
    m.drafts[draft_pos(m, id)].article_id
}

/// Position of the article that draft `id` belongs to.
pub open spec fn article_pos(m: TableRows, id: i32) -> int {
    find_article(m.articles, target_id(m, id)).unwrap()
}

/// The body that a reflect of draft `id` replaces in the article.
pub open spec fn replaced_body(m: TableRows, id: i32) -> Seq<char> {
    m.articles[article_pos(m, id)].body@
}

/// The keys that a reflect of draft `id` with `body` leaves orphaned.
pub open spec fn doomed(m: TableRows, id: i32, body: Seq<char>) -> Set<Seq<char>> {
    orphaned(extract(replaced_body(m, id)), extract(body))
}

/// The draft row as a reflect writes it.
pub open spec fn reflected_draft(m: TableRows, id: i32, title: String, body: String) -> EditingArticle {
    EditingArticle { id, article_id: target_id(m, id), title, body }
}

/// The drafts after a reflect that commits.
pub open spec fn reflected_drafts(m: TableRows, id: i32, title: String, body: String) -> Seq<
    EditingArticle,
> {
    m.drafts.update(draft_pos(m, id), reflected_draft(m, id, title, body))
}

/// The articles after a reflect that commits.
pub open spec fn reflected_articles(m: TableRows, id: i32, title: String, body: String) -> Seq<
    Article,
> {
    m.articles.update(article_pos(m, id), Article { id: target_id(m, id), title, body })
}

/// What a reflect of draft `id` returns, on tables `m` and a store that is
/// reachable where `online` holds.
pub open spec fn reflect_result(m: TableRows, online: bool, id: i32, title: String, body: String) -> Result<
    EditingArticle,
    ReflectError,
> {
    if find_draft(m.drafts, id).is_none() {
        Err(ReflectError::NotFound)
    } else if title@.len() > m.max_draft_title {
        Err(ReflectError::ConstraintViolation)
    } else if find_article(m.articles, target_id(m, id)).is_none() {
        Err(ReflectError::NotFound)
    } else if title@.len() > m.max_article_title {
        Err(ReflectError::ConstraintViolation)
    } else if !online && doomed(m, id, body@) != Set::<Seq<char>>::empty() {
        Err(ReflectError::CleanupFailed)
    } else {
        Ok(reflected_draft(m, id, title, body))
    }
}

/// Writes `title` and `body` to draft `draft_id` and to the article it
/// belongs to, deletes from `bucket` the objects that the article's former
/// body referred to and `body` does not, and commits. Any failure leaves
/// the tables and the store as they were.
pub fn reflect(tables: &mut Tables, bucket: &mut Bucket, draft_id: i32, title: String, body: String) -> (r:
    Result<EditingArticle, ReflectError>)
    ensures
        r == reflect_result(old(tables)@, old(bucket).online, draft_id, title, body),
        final(tables).max_draft_title == old(tables).max_draft_title,
        final(tables).max_article_title == old(tables).max_article_title,
        r is Ok ==> {
            &&& final(tables).drafts@ == reflected_drafts(old(tables)@, draft_id, title, body)
            &&& final(tables).articles@ == reflected_articles(old(tables)@, draft_id, title, body)
            &&& final(bucket).online == old(bucket).online
            &&& key_set(final(bucket).objects@) == key_set(old(bucket).objects@).difference(
                doomed(old(tables)@, draft_id, body@),
            )
        },
        r is Err ==> {
            &&& final(tables).drafts@ == old(tables).drafts@
            &&& final(tables).articles@ == old(tables).articles@
            &&& *final(bucket) == *old(bucket)
        },
{
    let ghost m = tables@;
    let mut tx = Transaction::begin(tables);
    let draft = match tx.update_draft(tables, draft_id, &title, &body) {
        Ok(d) => d,
        Err(e) => {
            tx.rollback(tables);
            return Err(reflect_error(e));
        },
    };
    let replaced = match tx.update_article(tables, draft.article_id, &title, &body) {
        Ok(a) => a,
        Err(e) => {
            tx.rollback(tables);
            return Err(reflect_error(e));
        },
    };
    let orphans = keys_to_delete(replaced.body.as_str(), body.as_str());
    proof {
        lemma_key_set_empty(orphans@);
    }
    match bucket.delete_batch(&orphans) {
        Ok(_) => {
            tx.commit();
            Ok(draft)
        },
        Err(e) => {
            tx.rollback(tables);
            Err(cleanup_error(e))
        },
    }
}

/// Reflecting a draft that does not exist reports `NotFound`, and so, by
/// the contract of `reflect`, leaves both tables as they were.
pub proof fn lemma_missing_draft(m: TableRows, online: bool, id: i32, title: String, body: String)
    requires
        forall|i: int| 0 <= i < m.drafts.len() ==> m.drafts[i].id != id,
    ensures
        reflect_result(m, online, id, title, body) == Err::<EditingArticle, ReflectError>(
            ReflectError::NotFound,
        ),
{
}

/// Where the draft accepts the new title and its article does not, a
/// reflect reports `ConstraintViolation`, and so leaves the draft row as it
/// was.
pub proof fn lemma_article_constraint(
    m: TableRows,
    online: bool,
    id: i32,
    title: String,
    body: String,
)
    requires
        find_draft(m.drafts, id).is_some(),
        find_article(m.articles, target_id(m, id)).is_some(),
        title@.len() <= m.max_draft_title,
        title@.len() > m.max_article_title,
    ensures
        reflect_result(m, online, id, title, body) == Err::<EditingArticle, ReflectError>(
            ReflectError::ConstraintViolation,
        ),
{
}

/// A reflect repeated on the tables that a committed reflect left succeeds
/// again, whether or not the store can be reached, orphans nothing and
/// leaves the rows as they were.
pub proof fn lemma_reflect_twice(
    m: TableRows,
    online: bool,
    again_online: bool,
    id: i32,
    title: String,
    body: String,
)
    requires
        reflect_result(m, online, id, title, body) is Ok,
    ensures
        ({
            let after = TableRows {
                drafts: reflected_drafts(m, id, title, body),
                articles: reflected_articles(m, id, title, body),
                max_draft_title: m.max_draft_title,
                max_article_title: m.max_article_title,
            };
            &&& reflect_result(after, again_online, id, title, body) == reflect_result(
                m,
                online,
                id,
                title,
                body,
            )
            &&& doomed(after, id, body@) == Set::<Seq<char>>::empty()
            &&& reflected_drafts(after, id, title, body) == after.drafts
            &&& reflected_articles(after, id, title, body) == after.articles
        }),
{
    let after = TableRows {
        drafts: reflected_drafts(m, id, title, body),
        articles: reflected_articles(m, id, title, body),
        max_draft_title: m.max_draft_title,
        max_article_title: m.max_article_title,
    };
    let i = draft_pos(m, id);
    let j = article_pos(m, id);
    let a = target_id(m, id);
    assert(crate::tables::draft_at(after.drafts, id, i));
    lemma_find_draft(after.drafts, id, i);
    assert(target_id(after, id) == a);
    assert(crate::tables::article_at(after.articles, a, j));
    lemma_find_article(after.articles, a, j);
    assert(replaced_body(after, id) == body@);
    lemma_self_diff_empty(body@);
    assert(after.drafts.update(i, reflected_draft(after, id, title, body)) =~= after.drafts);
    assert(after.articles.update(j, Article { id: a, title, body }) =~= after.articles);
}

} // verus!
