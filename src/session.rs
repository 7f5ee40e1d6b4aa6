//! A reflect run against stores outside the process: the session decides
//! each step from the answer to the last one, and the caller carries the
//! steps out.
use vstd::prelude::*;
use crate::keys::{distinct, extract, key_set, keys_to_delete, orphaned};
use crate::reflect::{cleanup_error, reflect_error, reflect_error_of, ReflectError};
use crate::store::StoreError;
use crate::tables::{Article, DbError, EditingArticle};

verus! {

/// What the session waits for.
#[derive(PartialEq, Eq, Structural, Clone, Copy, Debug)]
pub enum Phase {
    /// The transaction to open.
    Opening,
    /// The draft row to be written.
    WritingDraft,
    /// The article row to be written.
    WritingArticle,
    /// The orphaned objects to be deleted.
    CleaningUp,
    /// The transaction to commit.
    Committing,
    /// The transaction to roll back.
    RollingBack,
    /// Nothing: the run is over.
    Finished,
}

/// A step for the caller to carry out.
pub enum Action {
    /// Open a transaction.
    Begin,
    /// Set the title and body of the draft with this id.
    UpdateDraft { id: i32, title: String, body: String },
    /// Set the title and body of the article with this id, and answer with
    /// the row as it was before.
    UpdateArticle { id: i32, title: String, body: String },
    /// Delete the objects under these keys.
    DeleteKeys { keys: Vec<String> },
    /// Commit the transaction.
    Commit,
    /// Roll the transaction back.
    Rollback,
    /// Report this outcome; the run is over.
    Finish { outcome: Result<EditingArticle, ReflectError> },
}

/// The answer to the last step.
pub enum Event {
    Began,
    DraftWritten { draft: EditingArticle },
    ArticleWritten { previous: Article },
    KeysDeleted,
    Committed,
    RolledBack,
    DbFailed { error: DbError },
    StoreFailed { error: StoreError },
}

/// One reflect run.
pub struct Session {
    pub phase: Phase,
    pub draft_id: i32,
    pub title: String,
    pub body: String,
    /// The draft as written, once it is.
    pub draft: Option<EditingArticle>,
    /// Why the transaction is being rolled back.
    pub error: ReflectError,
}

impl Session {
    /// Starts a run that writes `title` and `body` to draft `draft_id`.
    pub fn start(draft_id: i32, title: String, body: String) -> (r: (Session, Action))
        ensures
            r.0.phase == Phase::Opening,
            r.0.draft_id == draft_id,
            r.0.title == title,
            r.0.body == body,
            r.0.draft.is_none(),
            r.1 is Begin,
    {
        (
            Session {
                phase: Phase::Opening,
                draft_id,
                title,
                body,
                draft: None,
                error: ReflectError::DatabaseFailed,
            },
            Action::Begin,
        )
    }

    /// Rolls back for `error`.
    fn abort(&mut self, error: ReflectError) -> (r: Action)
        ensures
            final(self).phase == Phase::RollingBack,
            final(self).error == error,
            final(self).draft_id == old(self).draft_id,
            final(self).title == old(self).title,
            final(self).body == old(self).body,
            final(self).draft == old(self).draft,
            r is Rollback,
    {
        self.phase = Phase::RollingBack;
        self.error = error;
        Action::Rollback
    }

    /// Ends the run with `outcome`.
    fn finish(&mut self, outcome: Result<EditingArticle, ReflectError>) -> (r: Action)
        ensures
            final(self).phase == Phase::Finished,
            final(self).error == old(self).error,
            final(self).draft_id == old(self).draft_id,
            final(self).title == old(self).title,
            final(self).body == old(self).body,
            final(self).draft == old(self).draft,
            r == (Action::Finish { outcome }),
    {
        self.phase = Phase::Finished;
        Action::Finish { outcome }
    }

    /// Takes the answer to the last step and returns the next one. An
    /// answer that does not fit the step rolls back what is open, as a
    /// failure of the relational store; a session driven past its end
    /// answers with that failure too.
    pub fn step(&mut self, event: Event) -> (r: Action)
        ensures
            final(self).draft_id == old(self).draft_id,
            final(self).title == old(self).title,
            final(self).body == old(self).body,
            old(self).phase == Phase::Finished ==> final(self).phase == Phase::Finished && r == (
            Action::Finish { outcome: Err(ReflectError::DatabaseFailed) }),
            old(self).phase == Phase::Opening ==> match event {
                Event::Began => final(self).phase == Phase::WritingDraft && r == (Action::UpdateDraft {
                    id: old(self).draft_id,
                    title: old(self).title,
                    body: old(self).body,
                }),
                Event::DbFailed { error } => final(self).phase == Phase::Finished && r == (
                Action::Finish { outcome: Err(reflect_error_of(error)) }),
                _ => final(self).phase == Phase::Finished && r == (Action::Finish {
                    outcome: Err(ReflectError::DatabaseFailed),
                }),
            },
            old(self).phase == Phase::WritingDraft ==> match event {
                Event::DraftWritten { draft } => final(self).phase == Phase::WritingArticle
                    && final(self).draft == Some(draft) && r == (Action::UpdateArticle {
                    id: draft.article_id,
                    title: old(self).title,
                    body: old(self).body,
                }),
                Event::DbFailed { error } => final(self).phase == Phase::RollingBack
                    && final(self).error == reflect_error_of(error) && r is Rollback,
                _ => final(self).phase == Phase::RollingBack && final(self).error
                    == ReflectError::DatabaseFailed && r is Rollback,
            },
            old(self).phase == Phase::WritingArticle ==> match event {
                Event::ArticleWritten { previous } => final(self).phase == Phase::CleaningUp
                    && final(self).draft == old(self).draft && match r {
                    Action::DeleteKeys { keys } => key_set(keys@) == orphaned(
                        extract(previous.body@),
                        extract(old(self).body@),
                    ) && distinct(keys@),
                    _ => false,
                },
                Event::DbFailed { error } => final(self).phase == Phase::RollingBack
                    && final(self).error == reflect_error_of(error) && r is Rollback,
                _ => final(self).phase == Phase::RollingBack && final(self).error
                    == ReflectError::DatabaseFailed && r is Rollback,
            },
            old(self).phase == Phase::CleaningUp ==> match event {
                Event::KeysDeleted => final(self).phase == Phase::Committing && final(self).draft
                    == old(self).draft && r is Commit,
                Event::StoreFailed { error } => final(self).phase == Phase::RollingBack
                    && final(self).error == ReflectError::CleanupFailed && r is Rollback,
                _ => final(self).phase == Phase::RollingBack && final(self).error
                    == ReflectError::DatabaseFailed && r is Rollback,
            },
            old(self).phase == Phase::Committing ==> match event {
                Event::Committed => final(self).phase == Phase::Finished && match old(self).draft {
                    Some(d) => r == (Action::Finish { outcome: Ok(d) }),
                    None => r == (Action::Finish { outcome: Err(ReflectError::DatabaseFailed) }),
                },
                Event::DbFailed { .. } => final(self).phase == Phase::Finished && r == (
                Action::Finish { outcome: Err(ReflectError::DatabaseFailed) }),
                _ => final(self).phase == Phase::RollingBack && final(self).error
                    == ReflectError::DatabaseFailed && r is Rollback,
            },
            old(self).phase == Phase::RollingBack ==> match event {
                Event::RolledBack => final(self).phase == Phase::Finished && r == (Action::Finish {
                    outcome: Err(old(self).error),
                }),
                _ => final(self).phase == Phase::Finished && r == (Action::Finish {
                    outcome: Err(ReflectError::DatabaseFailed),
                }),
            },
    {
        match self.phase {
            Phase::Finished => Action::Finish { outcome: Err(ReflectError::DatabaseFailed) },
            Phase::Opening => match event {
                Event::Began => {
                    self.phase = Phase::WritingDraft;
                    Action::UpdateDraft {
                        id: self.draft_id,
                        title: self.title.clone(),
                        body: self.body.clone(),
                    }
                },
                Event::DbFailed { error } => self.finish(Err(reflect_error(error))),
                _ => self.finish(Err(ReflectError::DatabaseFailed)),
            },
            Phase::WritingDraft => match event {
                Event::DraftWritten { draft } => {
                    let id = draft.article_id;
                    self.phase = Phase::WritingArticle;
                    self.draft = Some(draft);
                    Action::UpdateArticle { id, title: self.title.clone(), body: self.body.clone() }
                },
                Event::DbFailed { error } => self.abort(reflect_error(error)),
                _ => self.abort(ReflectError::DatabaseFailed),
            },
            Phase::WritingArticle => match event {
                Event::ArticleWritten { previous } => {
                    let keys = keys_to_delete(previous.body.as_str(), self.body.as_str());
                    self.phase = Phase::CleaningUp;
                    Action::DeleteKeys { keys }
                },
                Event::DbFailed { error } => self.abort(reflect_error(error)),
                _ => self.abort(ReflectError::DatabaseFailed),
            },
            Phase::CleaningUp => match event {
                Event::KeysDeleted => {
                    self.phase = Phase::Committing;
                    Action::Commit
                },
                Event::StoreFailed { error } => self.abort(cleanup_error(error)),
                _ => self.abort(ReflectError::DatabaseFailed),
            },
            Phase::Committing => match event {
                Event::Committed => {
                    let outcome = match &self.draft {
                        Some(d) => Ok(EditingArticle {
                            id: d.id,
                            article_id: d.article_id,
                            title: d.title.clone(),
                            body: d.body.clone(),
                        }),
                        None => Err(ReflectError::DatabaseFailed),
                    };
                    self.finish(outcome)
                },
                Event::DbFailed { .. } => self.finish(Err(ReflectError::DatabaseFailed)),
                _ => self.abort(ReflectError::DatabaseFailed),
            },
            Phase::RollingBack => match event {
                Event::RolledBack => {
                    let error = self.error;
                    self.finish(Err(error))
                },
                _ => self.finish(Err(ReflectError::DatabaseFailed)),
            },
        }
    }
}

} // verus!
