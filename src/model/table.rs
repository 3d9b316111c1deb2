//! An in-memory reference model of the `Post` table and of the five SQL
//! statements that the service runs against its SQLite store (list drafts,
//! list published posts, insert a draft, delete a draft, publish): rows in
//! insertion order, identifiers handed out once, as an auto-increment key
//! does. The laws of the data-access layer are proved on this model.
use vstd::prelude::*;

use super::input::{valid_body, valid_title};
use super::post::{delete_draft_response, publish_response, DeleteDraftResponse, Post, PublishResponse};

verus! {

/// Most rows that a listing returns.
pub const LIST_LIMIT: usize = 100;

/// Why a row could not be inserted.
#[derive(Debug, Clone, Copy, PartialEq, Eq, Structural)]
pub enum TableError {
    /// Every identifier up to `i64::MAX` has been handed out.
    IdsExhausted,
}

/// Selects the rows whose `published` flag is `published`.
pub open spec fn in_state(published: bool) -> spec_fn(Post) -> bool {
    |p: Post| p.published == published
}

/// Unpublished rows, in insertion order.
pub open spec fn drafts_of(rows: Seq<Post>) -> Seq<Post> {
    rows.filter(in_state(false))
}

/// Published rows, in insertion order.
pub open spec fn published_of(rows: Seq<Post>) -> Seq<Post> {
    rows.filter(in_state(true))
}

/// The first `LIST_LIMIT` items of `s`.
pub open spec fn first_page(s: Seq<Post>) -> Seq<Post> {
    if s.len() <= LIST_LIMIT {
        s
    } else {
        s.take(LIST_LIMIT as int)
    }
}

/// Whether some row has the identifier `id`.
pub open spec fn has_id(rows: Seq<Post>, id: int) -> bool {
    exists|i: int| 0 <= i < rows.len() && rows[i].id == id
}

/// Whether some unpublished row has the identifier `id`.
pub open spec fn has_draft(rows: Seq<Post>, id: int) -> bool {
    exists|i: int| 0 <= i < rows.len() && rows[i].id == id && !rows[i].published
}

/// Identifiers grow strictly along the rows, start at 1 and never pass `last_id`.
pub open spec fn rows_well_formed(rows: Seq<Post>, last_id: int) -> bool {
    &&& 0 <= last_id
    &&& forall|i: int, j: int| 0 <= i < j < rows.len() ==> rows[i].id < rows[j].id
    &&& forall|i: int| 0 <= i < rows.len() ==> 1 <= #[trigger] rows[i].id <= last_id
}

/// `p` with its `published` flag set.
pub open spec fn as_published(p: Post) -> Post {
    Post { id: p.id, title: p.title, body: p.body, published: true }
}

/// The table of posts.
pub struct PostTable {
    rows: Vec<Post>,
    last_id: i64,
}

impl PostTable {
    /// The rows, in insertion order.
    pub closed spec fn rows(&self) -> Seq<Post> {
        self.rows@
    }

    /// The largest identifier ever handed out, 0 before the first insert.
    pub closed spec fn last_id(&self) -> int {
        self.last_id as int
    }

    /// Identifiers are unique, grow with insertion order and were all handed out.
    pub open spec fn wf(&self) -> bool {
        rows_well_formed(self.rows(), self.last_id())
    }

    /// What inserting a draft with `title` and `body` into `before` does:
    /// the new row takes the next identifier and goes last.
    pub open spec fn creates(
        before: PostTable,
        after: PostTable,
        title: Seq<char>,
        body: Seq<char>,
        r: Result<Post, TableError>,
    ) -> bool {
        if before.last_id() == i64::MAX {
            &&& r == Err::<Post, TableError>(TableError::IdsExhausted)
            &&& after.rows() == before.rows()
            &&& after.last_id() == before.last_id()
        } else {
            &&& r is Ok
            &&& r->Ok_0.id == before.last_id() + 1
            &&& r->Ok_0.title@ == title
            &&& r->Ok_0.body@ == body
            &&& !r->Ok_0.published
            &&& after.rows() == before.rows().push(r->Ok_0)
            &&& after.last_id() == before.last_id() + 1
        }
    }

    /// What deleting the draft `id` from `before` does: the unpublished row
    /// with that identifier goes; a published one stays.
    pub open spec fn deletes(
        before: PostTable,
        after: PostTable,
        id: int,
        r: DeleteDraftResponse,
    ) -> bool {
        &&& after.last_id() == before.last_id()
        &&& forall|i: int|
            0 <= i < before.rows().len() && before.rows()[i].id == id && !before.rows()[i].published
                ==> {
                &&& after.rows() == before.rows().remove(i)
                &&& r.reports(id, Some(before.rows()[i]))
            }
        &&& !has_draft(before.rows(), id) ==> {
            &&& after.rows() == before.rows()
            &&& r.reports(id, None)
        }
    }

    /// What publishing `id` in `before` does: the row with that identifier
    /// is published, whatever its state was.
    pub open spec fn publishes(
        before: PostTable,
        after: PostTable,
        id: int,
        r: PublishResponse,
    ) -> bool {
        &&& after.last_id() == before.last_id()
        &&& forall|i: int|
            0 <= i < before.rows().len() && before.rows()[i].id == id ==> {
                &&& after.rows() == before.rows().update(i, as_published(before.rows()[i]))
                &&& r.reports(id, Some(as_published(before.rows()[i])))
            }
        &&& !has_id(before.rows(), id) ==> {
            &&& after.rows() == before.rows()
            &&& r.reports(id, None)
        }
    }

    /// An empty table.
    pub fn new() -> (r: PostTable)
        ensures
            r.wf(),
            r.rows() == Seq::<Post>::empty(),
            r.last_id() == 0,
    {
        PostTable { rows: Vec::new(), last_id: 0 }
    }

    /// The first `LIST_LIMIT` rows whose `published` flag is `published`, in
    /// insertion order.
    fn listing(&self, published: bool) -> (r: Vec<Post>)
        ensures
            r@ == first_page(self.rows().filter(in_state(published))),
    {
        let mut out: Vec<Post> = Vec::new();
        let mut i: usize = 0;
        while i < self.rows.len() && out.len() < LIST_LIMIT
            invariant
                i <= self.rows@.len(),
                out@ == first_page(self.rows@.take(i as int).filter(in_state(published))),
            decreases self.rows@.len() - i,
        {
            let ghost before = self.rows@.take(i as int).filter(in_state(published));
            let ghost next = self.rows@.take(i as int + 1);
            proof {
                reveal(Seq::filter);
                assert(before.len() < LIST_LIMIT);
                assert(next.drop_last() =~= self.rows@.take(i as int));
                assert(next.last() == self.rows@[i as int]);
                assert(in_state(published)(self.rows@[i as int]) == (self.rows@[i as int].published == published));
                assert(next.filter(in_state(published)) == if in_state(published)(next.last()) {
                    before.push(next.last())
                } else {
                    before
                });
            }
            if self.rows[i].published == published {
                out.push(self.rows[i].copied());
                proof {
                    assert(out@ =~= first_page(before.push(self.rows@[i as int])));
                }
            }
            i += 1;
        }
        proof {
            let head = self.rows@.take(i as int);
            let tail = self.rows@.skip(i as int);
            assert(self.rows@ =~= head + tail);
            Seq::filter_distributes_over_add(head, tail, in_state(published));
            if i < self.rows@.len() {
                assert(head.filter(in_state(published)).len() >= LIST_LIMIT);
                assert(first_page(head.filter(in_state(published)) + tail.filter(in_state(published))) =~= first_page(head.filter(in_state(published))));
            }
        }
        out
    }

    /// Up to `LIST_LIMIT` drafts, in insertion order.
    pub fn drafts(&self) -> (r: Vec<Post>)
        ensures
            r@ == first_page(drafts_of(self.rows())),
    {
        self.listing(false)
    }

    /// Up to `LIST_LIMIT` published posts, in insertion order.
    pub fn posts(&self) -> (r: Vec<Post>)
        ensures
            r@ == first_page(published_of(self.rows())),
    {
        self.listing(true)
    }

    /// Inserts an unpublished post and returns the row as stored.
    pub fn create_draft(&mut self, title: &str, body: &str) -> (r: Result<Post, TableError>)
        requires
            old(self).wf(),
        ensures
            final(self).wf(),
            Self::creates(*old(self), *final(self), title@, body@, r),
    {
        if self.last_id == i64::MAX {
            return Err(TableError::IdsExhausted);
        }
        let id = self.last_id + 1;
        let post = Post { id, title: String::from_str(title), body: String::from_str(body), published: false };
        let stored = post.copied();
        self.rows.push(post);
        self.last_id = id;
        Ok(stored)
    }

    /// Position of the row with identifier `id`, if any.
    fn position_of(&self, id: i64) -> (r: Option<usize>)
        requires
            self.wf(),
        ensures
            match r {
                Some(i) => i < self.rows().len() && self.rows()[i as int].id == id,
                None => !has_id(self.rows(), id as int),
            },
    {
        let mut i: usize = 0;
        while i < self.rows.len()
            invariant
                i <= self.rows@.len(),
                forall|k: int| 0 <= k < i ==> self.rows@[k].id != id,
            decreases self.rows@.len() - i,
        {
            if self.rows[i].id == id {
                return Some(i);
            }
            i += 1;
        }
        None
    }

    /// Deletes the unpublished post `id`; a published post is never deleted.
    pub fn delete_draft(&mut self, id: i64) -> (r: DeleteDraftResponse)
        requires
            old(self).wf(),
        ensures
            final(self).wf(),
            Self::deletes(*old(self), *final(self), id as int, r),
    {
        let ghost before = self.rows@;
        let found = self.position_of(id);
        let deleted = match found {
            Some(i) => {
                if self.rows[i].published {
                    None
                } else {
                    Some(self.rows.remove(i))
                }
            },
            None => None,
        };
        proof {
            match found {
                Some(i) => {
                    assert forall|k: int| 0 <= k < before.len() && before[k].id == id implies k == i by {
                        if k < i {
                            assert(before[k].id < before[i as int].id);
                        } else if k > i {
                            assert(before[i as int].id < before[k].id);
                        }
                    }
                    if !before[i as int].published {
                        assert forall|a: int, b: int| 0 <= a < b < self.rows@.len() implies self.rows@[a].id < self.rows@[b].id by {
                            let a0 = if a < i { a } else { a + 1 };
                            let b0 = if b < i { b } else { b + 1 };
                            assert(self.rows@[a] == before[a0]);
                            assert(self.rows@[b] == before[b0]);
                        }
                        assert forall|k: int| 0 <= k < self.rows@.len() implies 1 <= #[trigger] self.rows@[k].id <= self.last_id by {
                            let k0 = if k < i { k } else { k + 1 };
                            assert(self.rows@[k] == before[k0]);
                        }
                    }
                },
                None => {},
            }
        }
        delete_draft_response(id, deleted)
    }

    /// Publishes the post `id`, whatever its state.
    pub fn publish(&mut self, id: i64) -> (r: PublishResponse)
        requires
            old(self).wf(),
        ensures
            final(self).wf(),
            Self::publishes(*old(self), *final(self), id as int, r),
    {
        let ghost before = self.rows@;
        let found = self.position_of(id);
        let updated = match found {
            Some(i) => {
                let current = &self.rows[i];
                let post = Post {
                    id: current.id,
                    title: current.title.clone(),
                    body: current.body.clone(),
                    published: true,
                };
                let stored = post.copied();
                self.rows.set(i, post);
                Some(stored)
            },
            None => None,
        };
        proof {
            match found {
                Some(i) => {
                    assert forall|k: int| 0 <= k < before.len() && before[k].id == id implies k == i by {
                        if k < i {
                            assert(before[k].id < before[i as int].id);
                        } else if k > i {
                            assert(before[i as int].id < before[k].id);
                        }
                    }
                    assert(self.rows@ == before.update(i as int, as_published(before[i as int])));
                    assert forall|k: int| 0 <= k < self.rows@.len() implies self.rows@[k].id == before[k].id by {
                        if k == i {
                        }
                    }
                },
                None => {},
            }
        }
        publish_response(id, updated)
    }
}

/// Every row of `rows.filter(f)` is a row of `rows` that `f` accepts.
proof fn lemma_filtered_row(rows: Seq<Post>, f: spec_fn(Post) -> bool, x: Post)
    requires
        rows.filter(f).contains(x),
    ensures
        rows.contains(x),
        f(x),
{
    rows.lemma_filter_contains_rev(f, x);
    let k = choose|k: int| 0 <= k < rows.filter(f).len() && rows.filter(f)[k] == x;
    rows.lemma_filter_pred(f, k);
}

/// A page is a prefix of what it is taken from.
proof fn lemma_page_row(s: Seq<Post>, x: Post)
    requires
        first_page(s).contains(x),
    ensures
        s.contains(x),
{
    let k = choose|k: int| 0 <= k < first_page(s).len() && first_page(s)[k] == x;
    assert(s[k] == x);
}

/// Inserting a draft with a valid title and body adds exactly one entry to
/// the drafts listing, at its end: an unpublished row with that title and
/// body, under an identifier that no row had before. Holds while the listing
/// is not full and identifiers remain.
pub proof fn lemma_created_draft_is_listed(
    before: PostTable,
    after: PostTable,
    title: Seq<char>,
    body: Seq<char>,
    r: Result<Post, TableError>,
)
    requires
        before.wf(),
        valid_title(title),
        valid_body(body),
        before.last_id() < i64::MAX,
        drafts_of(before.rows()).len() < LIST_LIMIT,
        PostTable::creates(before, after, title, body, r),
    ensures
        r is Ok,
        first_page(drafts_of(after.rows())) == first_page(drafts_of(before.rows())).push(r->Ok_0),
        r->Ok_0.title@ == title,
        r->Ok_0.body@ == body,
        !r->Ok_0.published,
        !has_id(before.rows(), r->Ok_0.id as int),
{
    let p = r->Ok_0;
    reveal(Seq::filter);
    assert(before.rows().push(p).drop_last() =~= before.rows());
    assert(drafts_of(after.rows()) == drafts_of(before.rows()).push(p));
    if has_id(before.rows(), p.id as int) {
        let k = choose|k: int| 0 <= k < before.rows().len() && before.rows()[k].id == p.id;
        assert(1 <= before.rows()[k].id <= before.last_id());
    }
}

/// Publishing an existing draft moves it: afterwards no draft in the listing
/// has its identifier, and the published listing holds the published row.
/// The second part holds while the published listing is not full.
pub proof fn lemma_published_draft_moves(
    before: PostTable,
    after: PostTable,
    id: int,
    r: PublishResponse,
)
    requires
        before.wf(),
        has_draft(before.rows(), id),
        published_of(before.rows()).len() < LIST_LIMIT,
        PostTable::publishes(before, after, id, r),
    ensures
        forall|x: Post| first_page(drafts_of(after.rows())).contains(x) ==> x.id != id,
        exists|x: Post| #[trigger] first_page(published_of(after.rows())).contains(x) && x.id == id && x.published,
        r is PublishSuccessResponse,
{
    let i = choose|i: int| 0 <= i < before.rows().len() && before.rows()[i].id == id && !before.rows()[i].published;
    let rows = after.rows();
    assert(rows == before.rows().update(i, as_published(before.rows()[i])));
    assert forall|x: Post| first_page(drafts_of(rows)).contains(x) implies x.id != id by {
        lemma_page_row(drafts_of(rows), x);
        lemma_filtered_row(rows, in_state(false), x);
        let k = choose|k: int| 0 <= k < rows.len() && rows[k] == x;
        if k < i {
            assert(before.rows()[k].id < before.rows()[i].id);
        } else if k > i {
            assert(before.rows()[i].id < before.rows()[k].id);
        }
    }
    let q = as_published(before.rows()[i]);
    rows.lemma_filter_contains(in_state(true), i);
    // the published rows of `after` are those of `before` and the new one
    assert(published_of(rows).len() <= LIST_LIMIT) by {
        lemma_publish_grows_by_one(before.rows(), i);
    }
    assert(first_page(published_of(rows)).contains(q));
}

/// Publishing the unpublished row `i` adds one row to the published rows.
proof fn lemma_publish_grows_by_one(rows: Seq<Post>, i: int)
    requires
        0 <= i < rows.len(),
        !rows[i].published,
    ensures
        published_of(rows.update(i, as_published(rows[i]))).len() == published_of(rows).len() + 1,
    decreases rows.len(),
{
    reveal(Seq::filter);
    let after = rows.update(i, as_published(rows[i]));
    if i == rows.len() - 1 {
        assert(after.drop_last() =~= rows.drop_last());
    } else {
        assert(after.drop_last() =~= rows.drop_last().update(i, as_published(rows[i])));
        lemma_publish_grows_by_one(rows.drop_last(), i);
    }
}

/// Deleting an existing draft takes it out of the drafts listing.
pub proof fn lemma_deleted_draft_is_gone(
    before: PostTable,
    after: PostTable,
    id: int,
    r: DeleteDraftResponse,
)
    requires
        before.wf(),
        has_draft(before.rows(), id),
        PostTable::deletes(before, after, id, r),
    ensures
        !has_id(after.rows(), id),
        forall|x: Post| first_page(drafts_of(after.rows())).contains(x) ==> x.id != id,
        r is DeleteDraftSuccessResponse,
{
    let i = choose|i: int| 0 <= i < before.rows().len() && before.rows()[i].id == id && !before.rows()[i].published;
    let rows = after.rows();
    assert(rows == before.rows().remove(i));
    assert forall|k: int| 0 <= k < rows.len() implies rows[k].id != id by {
        if k < i {
            assert(rows[k] == before.rows()[k]);
            assert(before.rows()[k].id < before.rows()[i].id);
        } else {
            assert(rows[k] == before.rows()[k + 1]);
            assert(before.rows()[i].id < before.rows()[k + 1].id);
        }
    }
    assert forall|x: Post| first_page(drafts_of(rows)).contains(x) implies x.id != id by {
        lemma_page_row(drafts_of(rows), x);
        lemma_filtered_row(rows, in_state(false), x);
    }
}

/// A row-changing call: inserting a draft, deleting a draft or publishing
/// turns `before` into `after`. Listings leave the table as it is.
pub open spec fn one_call(before: PostTable, after: PostTable) -> bool {
    ||| exists|title: Seq<char>, body: Seq<char>, r: Result<Post, TableError>|
        #[trigger] PostTable::creates(before, after, title, body, r)
    ||| exists|id: int, r: DeleteDraftResponse| #[trigger] PostTable::deletes(before, after, id, r)
    ||| exists|id: int, r: PublishResponse| #[trigger] PostTable::publishes(before, after, id, r)
    ||| after == before
}

/// `tables` are the states of a valid table along a sequence of calls.
pub open spec fn call_sequence(tables: Seq<PostTable>) -> bool {
    &&& forall|k: int| 0 <= k < tables.len() ==> (#[trigger] tables[k]).wf()
    &&& forall|k: int| 0 <= k < tables.len() - 1 ==> one_call(#[trigger] tables[k], tables[k + 1])
}

/// No row has `id`, and `id` has been handed out.
pub open spec fn retired(t: PostTable, id: int) -> bool {
    !has_id(t.rows(), id) && id <= t.last_id()
}

proof fn lemma_create_keeps_retired(
    before: PostTable,
    after: PostTable,
    id: int,
    title: Seq<char>,
    body: Seq<char>,
    r: Result<Post, TableError>,
)
    requires
        before.wf(),
        retired(before, id),
        PostTable::creates(before, after, title, body, r),
    ensures
        retired(after, id),
{
    let rows = before.rows();
    if before.last_id() < i64::MAX {
        assert forall|k: int| 0 <= k < after.rows().len() implies after.rows()[k].id != id by {
            if k < rows.len() {
                assert(after.rows()[k] == rows[k]);
            }
        }
    }
}

proof fn lemma_delete_keeps_retired(before: PostTable, after: PostTable, id: int, other: int, r: DeleteDraftResponse)
    requires
        before.wf(),
        retired(before, id),
        PostTable::deletes(before, after, other, r),
    ensures
        retired(after, id),
{
    let rows = before.rows();
    if has_draft(rows, other) {
        let i = choose|i: int| 0 <= i < rows.len() && rows[i].id == other && !rows[i].published;
        assert(after.rows() == rows.remove(i));
        assert forall|k: int| 0 <= k < after.rows().len() implies after.rows()[k].id != id by {
            if k < i {
                assert(after.rows()[k] == rows[k]);
            } else {
                assert(after.rows()[k] == rows[k + 1]);
            }
        }
    }
}

proof fn lemma_publish_keeps_retired(before: PostTable, after: PostTable, id: int, other: int, r: PublishResponse)
    requires
        before.wf(),
        retired(before, id),
        PostTable::publishes(before, after, other, r),
    ensures
        retired(after, id),
{
    let rows = before.rows();
    if has_id(rows, other) {
        let i = choose|i: int| 0 <= i < rows.len() && rows[i].id == other;
        assert(after.rows() == rows.update(i, as_published(rows[i])));
        assert forall|k: int| 0 <= k < after.rows().len() implies after.rows()[k].id != id by {
            assert(after.rows()[k].id == rows[k].id);
        }
    }
}

/// A retired identifier stays retired through every later state.
proof fn lemma_retired_along(tables: Seq<PostTable>, id: int, k: int)
    requires
        call_sequence(tables),
        tables.len() > 0,
        retired(tables[0], id),
        0 <= k < tables.len(),
    ensures
        retired(tables[k], id),
    decreases k,
{
    if k > 0 {
        lemma_retired_along(tables, id, k - 1);
        let a = tables[k - 1];
        let b = tables[k];
        assert(a.wf());
        assert(one_call(a, b));
        if exists|title: Seq<char>, body: Seq<char>, r: Result<Post, TableError>| #[trigger] PostTable::creates(a, b, title, body, r) {
            let (title, body, r) = choose|title: Seq<char>, body: Seq<char>, r: Result<Post, TableError>| #[trigger] PostTable::creates(a, b, title, body, r);
            lemma_create_keeps_retired(a, b, id, title, body, r);
        } else if exists|other: int, r: DeleteDraftResponse| #[trigger] PostTable::deletes(a, b, other, r) {
            let (other, r) = choose|other: int, r: DeleteDraftResponse| #[trigger] PostTable::deletes(a, b, other, r);
            lemma_delete_keeps_retired(a, b, id, other, r);
        } else if exists|other: int, r: PublishResponse| #[trigger] PostTable::publishes(a, b, other, r) {
            let (other, r) = choose|other: int, r: PublishResponse| #[trigger] PostTable::publishes(a, b, other, r);
            lemma_publish_keeps_retired(a, b, id, other, r);
        }
    }
}

/// A deleted draft is gone for good: after deleting the draft `id`, no
/// later sequence of inserts, deletes, publishes and listings brings a row
/// with `id` back, and no drafts listing shows it.
pub proof fn lemma_deleted_draft_stays_gone(
    before: PostTable,
    id: int,
    r: DeleteDraftResponse,
    tables: Seq<PostTable>,
)
    requires
        before.wf(),
        has_draft(before.rows(), id),
        tables.len() > 0,
        PostTable::deletes(before, tables[0], id, r),
        call_sequence(tables),
    ensures
        forall|k: int| 0 <= k < tables.len() ==> !has_id(#[trigger] tables[k].rows(), id),
        forall|k: int, x: Post|
            0 <= k < tables.len() && first_page(drafts_of(tables[k].rows())).contains(x) ==> x.id != id,
{
    lemma_deleted_draft_is_gone(before, tables[0], id, r);
    let i = choose|i: int| 0 <= i < before.rows().len() && before.rows()[i].id == id && !before.rows()[i].published;
    assert(before.rows()[i].id <= before.last_id());
    assert forall|k: int| 0 <= k < tables.len() implies !has_id(#[trigger] tables[k].rows(), id) by {
        lemma_retired_along(tables, id, k);
    }
    assert forall|k: int, x: Post|
        0 <= k < tables.len() && first_page(drafts_of(tables[k].rows())).contains(x) implies x.id != id by {
        lemma_retired_along(tables, id, k);
        lemma_page_row(drafts_of(tables[k].rows()), x);
        lemma_filtered_row(tables[k].rows(), in_state(false), x);
    }
}

/// A published post is never deleted: the table stays as it was and the
/// response is the not-found error.
pub proof fn lemma_published_post_is_kept(
    before: PostTable,
    after: PostTable,
    id: int,
    r: DeleteDraftResponse,
)
    requires
        before.wf(),
        exists|i: int| 0 <= i < before.rows().len() && before.rows()[i].id == id && before.rows()[i].published,
        PostTable::deletes(before, after, id, r),
    ensures
        after.rows() == before.rows(),
        r.reports(id, None),
{
    let rows = before.rows();
    let i = choose|i: int| 0 <= i < rows.len() && rows[i].id == id && rows[i].published;
    if has_draft(rows, id) {
        let j = choose|j: int| 0 <= j < rows.len() && rows[j].id == id && !rows[j].published;
        if j < i {
            assert(rows[j].id < rows[i].id);
        } else if j > i {
            assert(rows[i].id < rows[j].id);
        }
    }
}

/// A listing is empty exactly when no row is in the state it lists.
pub proof fn lemma_empty_listing(rows: Seq<Post>, published: bool)
    ensures
        (forall|k: int| 0 <= k < rows.len() ==> rows[k].published != published)
            ==> first_page(rows.filter(in_state(published))) == Seq::<Post>::empty(),
        first_page(rows.filter(in_state(published))) == Seq::<Post>::empty()
            ==> forall|k: int| 0 <= k < rows.len() ==> rows[k].published != published,
{
    let f = in_state(published);
    if forall|k: int| 0 <= k < rows.len() ==> rows[k].published != published {
        if rows.filter(f).len() > 0 {
            let x = rows.filter(f)[0];
            assert(rows.filter(f).contains(x));
            lemma_filtered_row(rows, f, x);
        }
        assert(rows.filter(f) =~= Seq::<Post>::empty());
    }
    assert forall|k: int| 0 <= k < rows.len() && first_page(rows.filter(f)) == Seq::<Post>::empty() implies rows[k].published != published by {
        if rows[k].published == published {
            rows.lemma_filter_contains(f, k);
            let m = choose|m: int| 0 <= m < rows.filter(f).len() && rows.filter(f)[m] == rows[k];
            assert(first_page(rows.filter(f)).len() > 0);
        }
    }
}

} // verus!
