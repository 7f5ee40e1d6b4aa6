//! The two related tables, drafts and published articles, and a transaction
//! scope over them that undoes its writes unless it is committed.
use vstd::prelude::*;

verus! {

/// A draft row: an editable copy of an article's title and body.
#[derive(Clone, Debug, PartialEq, Eq)]
pub struct EditingArticle {
    pub id: i32,
    pub article_id: i32,
    pub title: String,
    pub body: String,
}

/// A published article row.
#[derive(Clone, Debug, PartialEq, Eq)]
pub struct Article {
    pub id: i32,
    pub title: String,
    pub body: String,
}

/// A list of articles, as handed to a client.
pub struct Articles {
    pub articles: Vec<Article>,
}

impl Articles {
    /// Packages the given articles, in their order.
    pub fn new(input_articles: Vec<Article>) -> (r: Articles)
        ensures
            r.articles@ == input_articles@,
    {
        let mut articles: Vec<Article> = Vec::new();
        let mut input = input_articles;
        let ghost all = input@;
        while input.len() > 0
            invariant
                all == articles@ + input@,
            decreases input@.len(),
        {
            let a = input.remove(0);
            articles.push(a);
            assert(all =~= articles@ + input@);
        }
        assert(articles@ =~= all);
        Articles { articles }
    }
}

/// Why a write to a table did not take place.
#[derive(PartialEq, Eq, Structural, Clone, Copy, Debug)]
pub enum DbError {
    /// No row has the id written to.
    NotFound,
    /// The new values break a rule of the table.
    ConstraintViolation,
    /// Any other failure of the store.
    Failed,
}

/// Both tables, each with the longest title it accepts.
pub struct Tables {
    pub drafts: Vec<EditingArticle>,
    pub articles: Vec<Article>,
    pub max_draft_title: usize,
    pub max_article_title: usize,
}

/// What the tables hold: their rows and their limits on title length.
pub struct TableRows {
    pub drafts: Seq<EditingArticle>,
    pub articles: Seq<Article>,
    pub max_draft_title: nat,
    pub max_article_title: nat,
}

impl View for Tables {
    type V = TableRows;

    open spec fn view(&self) -> TableRows {
        TableRows {
            drafts: self.drafts@,
            articles: self.articles@,
            max_draft_title: self.max_draft_title as nat,
            max_article_title: self.max_article_title as nat,
        }
    }
}

/// Row `i` is the first draft with id `id`.
pub open spec fn draft_at(s: Seq<EditingArticle>, id: i32, i: int) -> bool {
    &&& 0 <= i < s.len()
    &&& s[i].id == id
    &&& forall|j: int| 0 <= j < i ==> s[j].id != id
}

/// Row `i` is the first article with id `id`.
pub open spec fn article_at(s: Seq<Article>, id: i32, i: int) -> bool {
    &&& 0 <= i < s.len()
    &&& s[i].id == id
    &&& forall|j: int| 0 <= j < i ==> s[j].id != id
}

/// The position of the first draft with id `id`, if any.
pub open spec fn find_draft(s: Seq<EditingArticle>, id: i32) -> Option<int> {
    if exists|i: int| draft_at(s, id, i) {
        Some(choose|i: int| draft_at(s, id, i))
    } else {
        None
    }
}

/// The position of the first article with id `id`, if any.
pub open spec fn find_article(s: Seq<Article>, id: i32) -> Option<int> {
    if exists|i: int| article_at(s, id, i) {
        Some(choose|i: int| article_at(s, id, i))
    } else {
        None
    }
}

pub proof fn lemma_draft_at_unique(s: Seq<EditingArticle>, id: i32, i: int, j: int)
    requires
        draft_at(s, id, i),
        draft_at(s, id, j),
    ensures
        i == j,
{
    if i < j {
        assert(s[i].id != id);
    } else if j < i {
        assert(s[j].id != id);
    }
}

pub proof fn lemma_article_at_unique(s: Seq<Article>, id: i32, i: int, j: int)
    requires
        article_at(s, id, i),
        article_at(s, id, j),
    ensures
        i == j,
{
    if i < j {
        assert(s[i].id != id);
    } else if j < i {
        assert(s[j].id != id);
    }
}

/// Where a draft with id `id` is, `find_draft` gives its first position.
pub proof fn lemma_find_draft(s: Seq<EditingArticle>, id: i32, i: int)
    requires
        draft_at(s, id, i),
    ensures
        find_draft(s, id) == Some(i),
{
    let c = choose|c: int| draft_at(s, id, c);
    lemma_draft_at_unique(s, id, i, c);
}

/// Where an article with id `id` is, `find_article` gives its first position.
pub proof fn lemma_find_article(s: Seq<Article>, id: i32, i: int)
    requires
        article_at(s, id, i),
    ensures
        find_article(s, id) == Some(i),
{
    let c = choose|c: int| article_at(s, id, c);
    lemma_article_at_unique(s, id, i, c);
}

impl Tables {
    /// Position of the first draft with id `id`.
    pub fn position_of_draft(&self, id: i32) -> (r: Option<usize>)
        ensures
            r.is_some() == find_draft(self.drafts@, id).is_some(),
            r.is_some() ==> find_draft(self.drafts@, id) == Some(r.unwrap() as int),
    {
        let mut i: usize = 0;
        while i < self.drafts.len()
            invariant
                i <= self.drafts@.len(),
                forall|j: int| 0 <= j < i ==> self.drafts@[j].id != id,
            decreases self.drafts@.len() - i,
        {
            if self.drafts[i].id == id {
                proof {
                    lemma_find_draft(self.drafts@, id, i as int);
                }
                return Some(i);
            }
            i = i + 1;
        }
        None
    }

    /// Position of the first article with id `id`.
    pub fn position_of_article(&self, id: i32) -> (r: Option<usize>)
        ensures
            r.is_some() == find_article(self.articles@, id).is_some(),
            r.is_some() ==> find_article(self.articles@, id) == Some(r.unwrap() as int),
    {
        let mut i: usize = 0;
        while i < self.articles.len()
            invariant
                i <= self.articles@.len(),
                forall|j: int| 0 <= j < i ==> self.articles@[j].id != id,
            decreases self.articles@.len() - i,
        {
            if self.articles[i].id == id {
                proof {
                    lemma_find_article(self.articles@, id, i as int);
                }
                return Some(i);
            }
            i = i + 1;
        }
        None
    }
}

/// What a transaction must put back to undo its writes.
pub struct Transaction {
    saved_draft: Option<(usize, EditingArticle)>,
    saved_article: Option<(usize, Article)>,
    start_drafts: Ghost<Seq<EditingArticle>>,
    start_articles: Ghost<Seq<Article>>,
}

impl Transaction {
    /// The drafts as they were when the transaction began.
    pub closed spec fn started_drafts(&self) -> Seq<EditingArticle> {
        self.start_drafts@
    }

    /// The articles as they were when the transaction began.
    pub closed spec fn started_articles(&self) -> Seq<Article> {
        self.start_articles@
    }

    /// The rows of `t`, with this transaction's writes undone.
    pub closed spec fn undone_drafts(&self, t: &Tables) -> Seq<EditingArticle> {
        match self.saved_draft {
            Some((i, row)) => t.drafts@.update(i as int, row),
            None => t.drafts@,
        }
    }

    pub closed spec fn undone_articles(&self, t: &Tables) -> Seq<Article> {
        match self.saved_article {
            Some((i, row)) => t.articles@.update(i as int, row),
            None => t.articles@,
        }
    }

    /// The transaction is open on `t`: undoing its writes gives back the rows
    /// it started from.
    pub closed spec fn open_on(&self, t: &Tables) -> bool {
        &&& self.saved_draft matches Some((i, _)) ==> i < t.drafts@.len()
        &&& self.saved_article matches Some((i, _)) ==> i < t.articles@.len()
        &&& self.undone_drafts(t) == self.start_drafts@
        &&& self.undone_articles(t) == self.start_articles@
    }

    pub closed spec fn draft_written(&self) -> bool {
        self.saved_draft.is_some()
    }

    pub closed spec fn article_written(&self) -> bool {
        self.saved_article.is_some()
    }

    /// Opens a transaction on `t`.
    pub fn begin(t: &Tables) -> (r: Transaction)
        ensures
            r.open_on(t),
            r.started_drafts() == t.drafts@,
            r.started_articles() == t.articles@,
            !r.draft_written(),
            !r.article_written(),
    {
        Transaction {
            saved_draft: None,
            saved_article: None,
            start_drafts: Ghost(t.drafts@),
            start_articles: Ghost(t.articles@),
        }
    }

    /// Sets the title and body of the first draft with id `id`, and returns
    /// the draft as written.
    pub fn update_draft(&mut self, t: &mut Tables, id: i32, title: &String, body: &String) -> (r:
        Result<EditingArticle, DbError>)
        requires
            old(self).open_on(old(t)),
            !old(self).draft_written(),
        ensures
            final(self).open_on(final(t)),
            final(self).started_drafts() == old(self).started_drafts(),
            final(self).started_articles() == old(self).started_articles(),
            final(self).article_written() == old(self).article_written(),
            final(t).max_draft_title == old(t).max_draft_title,
            final(t).max_article_title == old(t).max_article_title,
            final(t).articles@ == old(t).articles@,
            match find_draft(old(t).drafts@, id) {
                None => r == Err::<EditingArticle, DbError>(DbError::NotFound),
                Some(i) => if title@.len() > old(t).max_draft_title {
                    r == Err::<EditingArticle, DbError>(DbError::ConstraintViolation)
                } else {
                    r == Ok::<EditingArticle, DbError>(
                        EditingArticle {
                            id,
                            article_id: old(t).drafts@[i].article_id,
                            title: *title,
                            body: *body,
                        },
                    )
                },
            },
            r.is_ok() ==> final(self).draft_written() && final(t).drafts@ == old(
                t,
            ).drafts@.update(find_draft(old(t).drafts@, id).unwrap(), r.unwrap()),
            r.is_err() ==> *final(self) == *old(self) && final(t).drafts@ == old(t).drafts@,
    {
        let pos = t.position_of_draft(id);
        match pos {
            None => Err(DbError::NotFound),
            Some(i) => {
                if title.as_str().unicode_len() > t.max_draft_title {
                    return Err(DbError::ConstraintViolation);
                }
                let ghost before = t.drafts@;
                let article_id = t.drafts[i].article_id;
                let row = EditingArticle { id, article_id, title: title.clone(), body: body.clone() };
                let previous = EditingArticle {
                    id: t.drafts[i].id,
                    article_id,
                    title: t.drafts[i].title.clone(),
                    body: t.drafts[i].body.clone(),
                };
                let written = EditingArticle {
                    id,
                    article_id,
                    title: title.clone(),
                    body: body.clone(),
                };
                t.drafts[i] = row;
                self.saved_draft = Some((i, previous));
                assert(t.drafts@.update(i as int, previous) =~= before);
                Ok(written)
            },
        }
    }

    /// Sets the title and body of the first article with id `id`, and returns
    /// the article as it was before.
    pub fn update_article(&mut self, t: &mut Tables, id: i32, title: &String, body: &String) -> (r:
        Result<Article, DbError>)
        requires
            old(self).open_on(old(t)),
            !old(self).article_written(),
        ensures
            final(self).open_on(final(t)),
            final(self).started_drafts() == old(self).started_drafts(),
            final(self).started_articles() == old(self).started_articles(),
            final(self).draft_written() == old(self).draft_written(),
            final(t).max_draft_title == old(t).max_draft_title,
            final(t).max_article_title == old(t).max_article_title,
            final(t).drafts@ == old(t).drafts@,
            match find_article(old(t).articles@, id) {
                None => r == Err::<Article, DbError>(DbError::NotFound),
                Some(i) => if title@.len() > old(t).max_article_title {
                    r == Err::<Article, DbError>(DbError::ConstraintViolation)
                } else {
                    r == Ok::<Article, DbError>(old(t).articles@[i])
                },
            },
            r.is_ok() ==> final(self).article_written() && final(t).articles@ == old(
                t,
            ).articles@.update(
                find_article(old(t).articles@, id).unwrap(),
                Article { id, title: *title, body: *body },
            ),
            r.is_err() ==> *final(self) == *old(self) && final(t).articles@ == old(t).articles@,
    {
        let pos = t.position_of_article(id);
        match pos {
            None => Err(DbError::NotFound),
            Some(i) => {
                if title.as_str().unicode_len() > t.max_article_title {
                    return Err(DbError::ConstraintViolation);
                }
                let ghost before = t.articles@;
                let row = Article { id, title: title.clone(), body: body.clone() };
                let previous = Article {
                    id: t.articles[i].id,
                    title: t.articles[i].title.clone(),
                    body: t.articles[i].body.clone(),
                };
                let handed = Article {
                    id: t.articles[i].id,
                    title: t.articles[i].title.clone(),
                    body: t.articles[i].body.clone(),
                };
                t.articles[i] = row;
                self.saved_article = Some((i, previous));
                assert(t.articles@.update(i as int, previous) =~= before);
                Ok(handed)
            },
        }
    }

    /// Keeps the writes made in this transaction.
    pub fn commit(self) {
    }

    /// Undoes the writes made in this transaction.
    pub fn rollback(self, t: &mut Tables)
        requires
            self.open_on(old(t)),
        ensures
            final(t).drafts@ == self.started_drafts(),
            final(t).articles@ == self.started_articles(),
            final(t).max_draft_title == old(t).max_draft_title,
            final(t).max_article_title == old(t).max_article_title,
    {
        let Transaction { saved_draft, saved_article, start_drafts, start_articles } = self;
        match saved_article {
            Some((i, row)) => {
                t.articles[i] = row;
            },
            None => {},
        }
        match saved_draft {
            Some((i, row)) => {
                t.drafts[i] = row;
            },
            None => {},
        }
    }
}

} // verus!
