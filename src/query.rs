//! The moderation queue as pages: sanitizing the request, the store filters,
//! and the snapshot mode whose filter depends on which levels have a published
//! thumbnail.
use vstd::prelude::*;
use crate::model::{is_moderating, Role};

verus! {

/// Page size when the request gives none.
pub const DEFAULT_PENDING_PAGE_SIZE: u32 = 24;

/// Largest page size served.
pub const MAX_PENDING_PAGE_SIZE: u32 = 100;

/// Relies on chrono::NaiveDateTime only to carry an upload's time through
/// unread; the store orders the rows by it.
#[verifier::external_type_specification]
#[verifier::external_body]
pub struct ExNaiveDateTime(chrono::NaiveDateTime);

/// A listing request as the client sent it.
#[derive(Debug, Clone)]
pub struct PendingQueryParams {
    pub page: u32,
    pub per_page: u32,
    pub replacement_only: bool,
    pub new_only: bool,
    pub level_id: Option<i64>,
    pub user_id: Option<i64>,
    pub username: Option<String>,
}

impl Default for PendingQueryParams {
    fn default() -> (r: Self)
        ensures
            r.page == 1,
            r.per_page == DEFAULT_PENDING_PAGE_SIZE,
            !r.replacement_only,
            !r.new_only,
            r.level_id is None,
            r.user_id is None,
            r.username is None,
    {
        PendingQueryParams {
            page: 1,
            per_page: DEFAULT_PENDING_PAGE_SIZE,
            replacement_only: false,
            new_only: false,
            level_id: None,
            user_id: None,
            username: None,
        }
    }
}

/// The page number that is served: page 0 is page 1.
pub open spec fn served_page(page: u32) -> u32 {
    if page == 0 {
        1
    } else {
        page
    }
}

/// The page size that is served: 0 asks for the default, and sizes over the
/// maximum are cut to it.
pub open spec fn served_per_page(per_page: u32) -> u32 {
    if per_page == 0 {
        DEFAULT_PENDING_PAGE_SIZE
    } else if per_page > MAX_PENDING_PAGE_SIZE {
        MAX_PENDING_PAGE_SIZE
    } else {
        per_page
    }
}

/// A request with its page and page size made servable.
pub open spec fn sanitize(p: PendingQueryParams) -> PendingQueryParams {
    PendingQueryParams { page: served_page(p.page), per_page: served_per_page(p.per_page), ..p }
}

impl PendingQueryParams {
    /// The request with page 0 read as page 1 and the page size brought into
    /// `1..=MAX_PENDING_PAGE_SIZE`, 0 meaning the default.
    pub fn sanitized(self) -> (r: Self)
        ensures
            r == sanitize(self),
            r.page >= 1,
            0 < r.per_page <= MAX_PENDING_PAGE_SIZE,
    {
        let mut p = self;
        if p.page == 0 {
            p.page = 1;
        }
        if p.per_page == 0 {
            p.per_page = DEFAULT_PENDING_PAGE_SIZE;
        }
        if p.per_page > MAX_PENDING_PAGE_SIZE {
            p.per_page = MAX_PENDING_PAGE_SIZE;
        }
        p
    }

    /// The store query for this request under a route's filter: the request
    /// sanitized, with the route's level or user in place of the request's.
    pub fn into_options(self, filter: PendingFilter) -> (r: PendingQueryOptions)
        ensures
            r.page == served_page(self.page),
            r.per_page == served_per_page(self.per_page),
            r.replacement_only == self.replacement_only,
            r.new_only == self.new_only,
            r.username == self.username,
            r.level_id == match filter {
                PendingFilter::ByLevel(l) => Some(l),
                _ => self.level_id,
            },
            r.user_id == match filter {
                PendingFilter::ByUser(u) => Some(u),
                _ => self.user_id,
            },
    {
        let q = self.sanitized();
        let level_id = match filter {
            PendingFilter::ByLevel(l) => Some(l),
            _ => q.level_id,
        };
        let user_id = match filter {
            PendingFilter::ByUser(u) => Some(u),
            _ => q.user_id,
        };
        PendingQueryOptions {
            page: q.page,
            per_page: q.per_page,
            level_id,
            user_id,
            username: q.username,
            replacement_only: q.replacement_only,
            new_only: q.new_only,
        }
    }
}

/// Which waiting uploads a listing route covers.
#[derive(Debug, Clone, Copy, PartialEq, Eq, Structural)]
pub enum PendingFilter {
    All,
    ByLevel(i64),
    ByUser(i64),
}

/// Why a listing is refused.
#[derive(Debug, Clone, Copy, PartialEq, Eq, Structural)]
pub enum ListingDenied {
    /// Only moderators and admins may list beyond their own uploads.
    NotModerator,
    /// A user may list only their own uploads.
    NotOwner,
}

/// Whether a viewer may use a listing route: moderators and admins everywhere,
/// anyone else only for their own uploads.
pub fn listing_access(filter: PendingFilter, viewer_id: i64, viewer_role: Role) -> (r: Result<(), ListingDenied>)
    ensures
        is_moderating(viewer_role) ==> r is Ok,
        !is_moderating(viewer_role) ==> r == match filter {
            PendingFilter::ByUser(u) => if u == viewer_id {
                Ok::<(), ListingDenied>(())
            } else {
                Err(ListingDenied::NotOwner)
            },
            _ => Err(ListingDenied::NotModerator),
        },
{
    if viewer_role.can_moderate() {
        return Ok(());
    }
    match filter {
        PendingFilter::ByUser(u) => if u == viewer_id {
            Ok(())
        } else {
            Err(ListingDenied::NotOwner)
        },
        _ => Err(ListingDenied::NotModerator),
    }
}

/// A sanitized listing query.
#[derive(Debug, Clone)]
pub struct PendingQueryOptions {
    pub page: u32,
    pub per_page: u32,
    pub level_id: Option<i64>,
    pub user_id: Option<i64>,
    pub username: Option<String>,
    pub replacement_only: bool,
    pub new_only: bool,
}

/// How a listing is computed.
#[derive(Debug, Clone, Copy, PartialEq, Eq, Structural)]
pub enum ListingMode {
    /// The store filters, pages and counts.
    Simple,
    /// All matching rows are fetched, then kept where the level's published
    /// thumbnail exists (`keep_existing`) or does not, then paged in memory.
    Snapshot { keep_existing: bool },
}

/// The mode of a query; asking for both replacements and new levels reads as
/// replacements only.
pub open spec fn mode_of(o: PendingQueryOptions) -> ListingMode {
    if o.replacement_only || o.new_only {
        ListingMode::Snapshot { keep_existing: o.replacement_only }
    } else {
        ListingMode::Simple
    }
}

/// Number of rows before the given page.
pub open spec fn page_offset(page: u32, per_page: u32) -> int {
    (if page == 0 {
        0
    } else {
        page - 1
    }) * per_page
}

/// One condition of the store query, on top of "waiting for a decision".
#[derive(Debug, Clone, PartialEq, Eq)]
pub enum FilterClause {
    /// The upload is for this level.
    LevelIs(i64),
    /// The upload is by this user.
    UserIs(i64),
    /// The uploader's name matches this pattern, case-insensitively, with `%`
    /// standing for any text.
    UsernameLike(String),
}

/// The pattern that finds names containing `s`.
pub open spec fn containing_pattern(s: Seq<char>) -> Seq<char> {
    "%"@ + s + "%"@
}

impl PendingQueryOptions {
    /// The mode of this query.
    pub fn mode(&self) -> (r: ListingMode)
        ensures
            r == mode_of(*self),
    {
        if self.replacement_only || self.new_only {
            ListingMode::Snapshot { keep_existing: self.replacement_only }
        } else {
            ListingMode::Simple
        }
    }

    /// `LIMIT` and `OFFSET` of the page in simple mode.
    pub fn page_window(&self) -> (r: (i64, i64))
        requires
            self.per_page <= MAX_PENDING_PAGE_SIZE,
        ensures
            r.0 == self.per_page,
            r.1 == page_offset(self.page, self.per_page),
    {
        let before: i64 = if self.page == 0 {
            0
        } else {
            (self.page - 1) as i64
        };
        assert(before * (self.per_page as i64) <= (u32::MAX as int) * 100) by (nonlinear_arith)
            requires
                0 <= before <= u32::MAX,
                self.per_page <= 100,
        ;
        (self.per_page as i64, before * self.per_page as i64)
    }

    /// The conditions of this query, in order: level, user, name. The page
    /// query and the count query both use exactly these.
    pub fn filter_clauses(&self) -> (r: Vec<FilterClause>)
        ensures
            clause_views(r@) == clauses_of(*self),
    {
        let mut v: Vec<FilterClause> = Vec::new();
        if let Some(l) = self.level_id {
            v.push(FilterClause::LevelIs(l));
        }
        if let Some(u) = self.user_id {
            v.push(FilterClause::UserIs(u));
        }
        if let Some(name) = &self.username {
            let pattern = String::from_str("%").concat(name.as_str()).concat("%");
            v.push(FilterClause::UsernameLike(pattern));
        }
        proof {
            assert(clause_views(v@) =~= clauses_of(*self));
        }
        v
    }
}

/// A clause for each filter that the query sets.
pub open spec fn clauses_of(o: PendingQueryOptions) -> Seq<ClauseView> {
    let a = if o.level_id is Some {
        seq![ClauseView::LevelIs(o.level_id->0)]
    } else {
        Seq::empty()
    };
    let b = if o.user_id is Some {
        seq![ClauseView::UserIs(o.user_id->0)]
    } else {
        Seq::empty()
    };
    let c = if o.username is Some {
        seq![ClauseView::UsernameLike(containing_pattern(o.username->0@))]
    } else {
        Seq::empty()
    };
    a + b + c
}

/// A store condition with its text as a sequence of characters.
pub enum ClauseView {
    LevelIs(i64),
    UserIs(i64),
    UsernameLike(Seq<char>),
}

impl View for FilterClause {
    type V = ClauseView;

    open spec fn view(&self) -> ClauseView {
        match self {
            FilterClause::LevelIs(l) => ClauseView::LevelIs(*l),
            FilterClause::UserIs(u) => ClauseView::UserIs(*u),
            FilterClause::UsernameLike(p) => ClauseView::UsernameLike(p@),
        }
    }
}

/// The views of a list of clauses.
pub open spec fn clause_views(v: Seq<FilterClause>) -> Seq<ClauseView> {
    v.map_values(|c: FilterClause| c@)
}

/// A waiting upload as listed to moderators.
#[derive(Debug)]
pub struct PendingUpload {
    pub id: i64,
    pub user_id: i64,
    pub username: String,
    pub level_id: i64,
    pub accepted: bool,
    pub upload_time: chrono::NaiveDateTime,
    /// The level already has a published thumbnail, as probed when listed.
    pub replacement: bool,
}

impl PendingUpload {
    /// An equal copy.
    pub fn copy(&self) -> (r: Self)
        ensures
            r == *self,
    {
        PendingUpload {
            id: self.id,
            user_id: self.user_id,
            username: self.username.clone(),
            level_id: self.level_id,
            accepted: self.accepted,
            upload_time: self.upload_time,
            replacement: self.replacement,
        }
    }
}

/// One page of a listing and the number of rows over all pages.
#[derive(Debug)]
pub struct PendingUploadsPage {
    pub uploads: Vec<PendingUpload>,
    pub total: i64,
}

/// Whether snapshot mode keeps a row, given whether its level's published
/// thumbnail exists.
pub open spec fn snapshot_keeps(keep_existing: bool, exists: bool) -> bool {
    if keep_existing {
        exists
    } else {
        !exists
    }
}

/// The first `n` rows, in order, that snapshot mode keeps; `exists[i]` tells
/// whether the level of `rows[i]` has a published thumbnail.
pub open spec fn kept_prefix<T>(rows: Seq<T>, exists: Seq<bool>, keep_existing: bool, n: nat) -> Seq<T>
    decreases n,
{
    if n == 0 {
        Seq::empty()
    } else {
        let before = kept_prefix(rows, exists, keep_existing, (n - 1) as nat);
        if snapshot_keeps(keep_existing, exists[n - 1]) {
            before.push(rows[n - 1])
        } else {
            before
        }
    }
}

/// All the rows, in order, that snapshot mode keeps.
pub open spec fn kept_rows<T>(rows: Seq<T>, exists: Seq<bool>, keep_existing: bool) -> Seq<T> {
    kept_prefix(rows, exists, keep_existing, rows.len())
}

/// The part of `s` that a page covers: `per_page` items from `offset`, fewer
/// at the end.
pub open spec fn page_of<T>(s: Seq<T>, offset: int, per_page: int) -> Seq<T> {
    let start = if offset < s.len() {
        offset
    } else {
        s.len() as int
    };
    let end = if offset + per_page < s.len() {
        offset + per_page
    } else {
        s.len() as int
    };
    s.subrange(start, end)
}

/// Snapshot mode over the rows that the store gave, in its order: keeps the
/// rows whose level's published thumbnail exists (`keep_existing`) or does not,
/// counts them, and cuts the requested page out of them.
pub fn snapshot_page(rows: Vec<PendingUpload>, exists: &Vec<bool>, keep_existing: bool, page: u32, per_page: u32) -> (r:
    PendingUploadsPage)
    requires
        rows@.len() == exists@.len(),
        rows@.len() <= i64::MAX,
    ensures
        r.total == kept_rows(rows@, exists@, keep_existing).len(),
        r.uploads@ == page_of(
            kept_rows(rows@, exists@, keep_existing),
            page_offset(page, per_page),
            per_page as int,
        ),
{
    let mut kept: Vec<PendingUpload> = Vec::new();
    let mut i: usize = 0;
    while i < rows.len()
        invariant
            rows@.len() == exists@.len(),
            i <= rows@.len(),
            kept@ == kept_prefix(rows@, exists@, keep_existing, i as nat),
            kept@.len() <= i,
        decreases rows@.len() - i,
    {
        let keep = if keep_existing {
            exists[i]
        } else {
            !exists[i]
        };
        if keep {
            kept.push(rows[i].copy());
        }
        i = i + 1;
    }
    let total = kept.len();
    let before: u64 = if page == 0 {
        0
    } else {
        (page - 1) as u64
    };
    assert(before * (per_page as u64) <= (u32::MAX as int) * (u32::MAX as int)) by (nonlinear_arith)
        requires
            0 <= before <= u32::MAX,
            per_page <= u32::MAX,
    ;
    let offset: u64 = before * per_page as u64;
    let start: usize = if offset < total as u64 {
        offset as usize
    } else {
        total
    };
    let end: usize = if offset + (per_page as u64) < total as u64 {
        (offset + per_page as u64) as usize
    } else {
        total
    };
    let mut uploads: Vec<PendingUpload> = Vec::new();
    let mut j: usize = start;
    while j < end
        invariant
            start <= j <= end <= total == kept@.len(),
            uploads@ == kept@.subrange(start as int, j as int),
        decreases end - j,
    {
        uploads.push(kept[j].copy());
        proof {
            assert(kept@.subrange(start as int, j + 1) =~= kept@.subrange(start as int, j as int).push(
                kept@[j as int],
            ));
        }
        j = j + 1;
    }
    PendingUploadsPage { uploads, total: total as i64 }
}

/// Marks each listed row with whether its level has a published thumbnail.
pub fn mark_replacements(uploads: &mut Vec<PendingUpload>, exists: &Vec<bool>)
    requires
        old(uploads)@.len() == exists@.len(),
    ensures
        final(uploads)@.len() == old(uploads)@.len(),
        forall|i: int|
            0 <= i < exists@.len() ==> #[trigger] final(uploads)@[i] == (PendingUpload {
                replacement: exists@[i],
                ..old(uploads)@[i]
            }),
{
    let mut i: usize = 0;
    while i < uploads.len()
        invariant
            uploads@.len() == old(uploads)@.len() == exists@.len(),
            i <= uploads@.len(),
            forall|k: int|
                0 <= k < i ==> #[trigger] uploads@[k] == (PendingUpload {
                    replacement: exists@[k],
                    ..old(uploads)@[k]
                }),
            forall|k: int| i <= k < uploads@.len() ==> #[trigger] uploads@[k] == old(uploads)@[k],
        decreases uploads@.len() - i,
    {
        let mut row = uploads[i].copy();
        row.replacement = exists[i];
        uploads.set(i, row);
        i = i + 1;
    }
}

/// Page 0 is served as page 1, and the page size served always lies in
/// `1..=MAX_PENDING_PAGE_SIZE`.
pub proof fn lemma_page_zero_is_page_one(p: PendingQueryParams)
    ensures
        sanitize(PendingQueryParams { page: 0, ..p }) == sanitize(PendingQueryParams { page: 1, ..p }),
        page_offset(0, served_per_page(p.per_page)) == page_offset(1, served_per_page(p.per_page)),
        0 < sanitize(p).per_page <= MAX_PENDING_PAGE_SIZE,
        sanitize(p).page >= 1,
{
}

/// For every row exactly one of the two snapshot modes keeps it: the
/// replacements and the new levels split the rows between them.
pub proof fn lemma_snapshot_modes_partition<T>(rows: Seq<T>, exists: Seq<bool>)
    requires
        rows.len() == exists.len(),
    ensures
        forall|e: bool| snapshot_keeps(true, e) != snapshot_keeps(false, e),
        kept_rows(rows, exists, true).len() + kept_rows(rows, exists, false).len() == rows.len(),
{
    lemma_kept_prefix_counts(rows, exists, rows.len());
}

proof fn lemma_kept_prefix_counts<T>(rows: Seq<T>, exists: Seq<bool>, n: nat)
    requires
        n <= rows.len() == exists.len(),
    ensures
        kept_prefix(rows, exists, true, n).len() + kept_prefix(rows, exists, false, n).len() == n,
    decreases n,
{
    if n > 0 {
        lemma_kept_prefix_counts(rows, exists, (n - 1) as nat);
    }
}

} // verus!
