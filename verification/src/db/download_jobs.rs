//! Listing download jobs: the sort orders, the filter by state, and the
//! keyset pages cut from the sorted rows.

use vstd::prelude::*;

use crate::api::downloads::{
    job_type_named, status_named, status_text, DownloadJobStatus, DownloadJobType,
};
use crate::api::keyset::{
    cursor_text, finish_keyset_page, key_view, kind_of, KeyView, KeysetPage, SortKeyKind,
    SortKeyValue, SortOrder,
};
use crate::error::{is_message, ApiError};
use crate::order::{
    compare_chars, compare_i64, compare_int, compare_text, flip, lemma_compare_text_equal,
    lemma_compare_text_flip, lemma_compare_text_trans, Comparison,
};
use crate::text::{append_chars, chars_of, str_is, string_of};

verus! {

#[derive(Debug, Clone, Copy, PartialEq, Eq, Structural)]
pub enum DownloadsSort {
    Id,
    CreatedAt,
    Status,
    QueuePosition,
}

pub open spec fn downloads_sort_text(s: DownloadsSort) -> Seq<char> {
    match s {
        DownloadsSort::Id => "id"@,
        DownloadsSort::CreatedAt => "created_at"@,
        DownloadsSort::Status => "status"@,
        DownloadsSort::QueuePosition => "queue_position"@,
    }
}

pub open spec fn downloads_sort_named(t: Seq<char>) -> Option<DownloadsSort> {
    if t == "id"@ {
        Some(DownloadsSort::Id)
    } else if t == "created_at"@ {
        Some(DownloadsSort::CreatedAt)
    } else if t == "status"@ {
        Some(DownloadsSort::Status)
    } else if t == "queue_position"@ {
        Some(DownloadsSort::QueuePosition)
    } else {
        None
    }
}

/// The columns of a download job row that listing sorts, filters and pages
/// by; `id` identifies the row.
#[derive(Debug)]
pub struct JobKey {
    pub id: i64,
    pub status: String,
    pub created_at: String,
    pub queue_position: i64,
}

pub open spec fn downloads_key_kind(s: DownloadsSort) -> SortKeyKind {
    match s {
        DownloadsSort::Id | DownloadsSort::QueuePosition => SortKeyKind::Int,
        _ => SortKeyKind::Text,
    }
}

/// A row's value in the primary sort column.
pub open spec fn job_primary(s: DownloadsSort, j: JobKey) -> KeyView {
    match s {
        DownloadsSort::Id => KeyView::Int(j.id),
        DownloadsSort::CreatedAt => KeyView::Text(j.created_at@),
        DownloadsSort::Status => KeyView::Text(j.status@),
        DownloadsSort::QueuePosition => KeyView::Int(j.queue_position),
    }
}

impl DownloadsSort {
    pub fn parse(s: &str) -> (r: Result<DownloadsSort, ApiError>)
        ensures
            downloads_sort_named(s@) matches Some(v) ==> r == Ok::<DownloadsSort, ApiError>(v),
            downloads_sort_named(s@) is None ==> (r matches Err(e) && is_message(
                e,
                "sort must be id, created_at, status, or queue_position"@,
            )),
    {
        if str_is(s, "id") {
            Ok(DownloadsSort::Id)
        } else if str_is(s, "created_at") {
            Ok(DownloadsSort::CreatedAt)
        } else if str_is(s, "status") {
            Ok(DownloadsSort::Status)
        } else if str_is(s, "queue_position") {
            Ok(DownloadsSort::QueuePosition)
        } else {
            Err(ApiError::bad_request("sort must be id, created_at, status, or queue_position"))
        }
    }

    pub fn as_str(self) -> (r: &'static str)
        ensures
            r@ == downloads_sort_text(self),
    {
        match self {
            DownloadsSort::Id => "id",
            DownloadsSort::CreatedAt => "created_at",
            DownloadsSort::Status => "status",
            DownloadsSort::QueuePosition => "queue_position",
        }
    }

    pub fn key_kind(self) -> (r: SortKeyKind)
        ensures
            r == downloads_key_kind(self),
    {
        match self {
            DownloadsSort::Id | DownloadsSort::QueuePosition => SortKeyKind::Int,
            _ => SortKeyKind::Text,
        }
    }

    pub fn primary_key(self, row: &JobKey) -> (r: SortKeyValue)
        ensures
            key_view(r) == job_primary(self, *row),
            kind_of(r) == downloads_key_kind(self),
    {
        match self {
            DownloadsSort::Id => SortKeyValue::Int(row.id),
            DownloadsSort::CreatedAt => SortKeyValue::Text(row.created_at.clone()),
            DownloadsSort::Status => SortKeyValue::Text(row.status.clone()),
            DownloadsSort::QueuePosition => SortKeyValue::Int(row.queue_position),
        }
    }
}

#[derive(Debug, Clone, Copy, PartialEq, Eq, Structural)]
pub enum PriorityDirection {
    Up,
    Down,
}

#[derive(Debug, Clone)]
pub struct DownloadsListParams {
    pub sort: DownloadsSort,
    pub order: SortOrder,
    pub limit: u32,
    pub status: Option<DownloadJobStatus>,
    pub cursor: Option<String>,
}

/// Comparison of two sort keys; keys of different kinds compare equal.
pub open spec fn compare_keys(a: KeyView, b: KeyView) -> Comparison {
    match (a, b) {
        (KeyView::Text(x), KeyView::Text(y)) => compare_text(x, y),
        (KeyView::Int(x), KeyView::Int(y)) => compare_int(x as int, y as int),
        (KeyView::Bool(x), KeyView::Bool(y)) => compare_int(x as int, y as int),
        _ => Comparison::Equal,
    }
}

pub open spec fn same_kind(a: KeyView, b: KeyView) -> bool {
    match (a, b) {
        (KeyView::Text(_), KeyView::Text(_)) => true,
        (KeyView::Int(_), KeyView::Int(_)) => true,
        (KeyView::Bool(_), KeyView::Bool(_)) => true,
        _ => false,
    }
}

/// The listing order: by primary key in the requested direction, then by
/// ascending id.
pub open spec fn compare_jobs(s: DownloadsSort, o: SortOrder, a: JobKey, b: JobKey) -> Comparison {
    let p = compare_keys(job_primary(s, a), job_primary(s, b));
    let ordered = match o {
        SortOrder::Asc => p,
        SortOrder::Desc => flip(p),
    };
    if ordered != Comparison::Equal {
        ordered
    } else {
        compare_int(a.id as int, b.id as int)
    }
}

/// Does row `r` come after the cursor position `(primary, tie)`?
pub open spec fn after_cursor(
    s: DownloadsSort,
    o: SortOrder,
    r: JobKey,
    primary: KeyView,
    tie: i64,
) -> bool {
    match compare_keys(job_primary(s, r), primary) {
        Comparison::Greater => o == SortOrder::Asc,
        Comparison::Less => o == SortOrder::Desc,
        Comparison::Equal => r.id > tie,
    }
}

pub proof fn lemma_compare_keys_flip(a: KeyView, b: KeyView)
    ensures
        compare_keys(b, a) == flip(compare_keys(a, b)),
{
    match (a, b) {
        (KeyView::Text(x), KeyView::Text(y)) => lemma_compare_text_flip(x, y),
        _ => {},
    }
}

pub proof fn lemma_compare_keys_trans(a: KeyView, b: KeyView, c: KeyView)
    requires
        same_kind(a, b),
        same_kind(b, c),
    ensures
        (compare_keys(a, b) != Comparison::Greater && compare_keys(b, c) != Comparison::Greater)
            ==> compare_keys(a, c) != Comparison::Greater,
        (compare_keys(a, b) == Comparison::Less && compare_keys(b, c) != Comparison::Greater)
            ==> compare_keys(a, c) == Comparison::Less,
        (compare_keys(a, b) != Comparison::Greater && compare_keys(b, c) == Comparison::Less)
            ==> compare_keys(a, c) == Comparison::Less,
        (compare_keys(a, b) == Comparison::Equal && compare_keys(b, c) == Comparison::Equal)
            ==> compare_keys(a, c) == Comparison::Equal,
{
    match (a, b, c) {
        (KeyView::Text(x), KeyView::Text(y), KeyView::Text(z)) => {
            if compare_text(x, y) != Comparison::Greater && compare_text(y, z)
                != Comparison::Greater {
                lemma_compare_text_trans(x, y, z);
            }
            lemma_compare_text_equal(x, y);
            lemma_compare_text_equal(y, z);
            lemma_compare_text_equal(x, z);
        },
        _ => {},
    }
}

/// Swapping two rows flips their order.
pub proof fn lemma_compare_jobs_flip(s: DownloadsSort, o: SortOrder, a: JobKey, b: JobKey)
    ensures
        compare_jobs(s, o, b, a) == flip(compare_jobs(s, o, a, b)),
{
    lemma_compare_keys_flip(job_primary(s, a), job_primary(s, b));
}

/// The listing order is transitive, strictly so where either step is strict.
pub proof fn lemma_compare_jobs_trans(
    s: DownloadsSort,
    o: SortOrder,
    a: JobKey,
    b: JobKey,
    c: JobKey,
)
    requires
        compare_jobs(s, o, a, b) != Comparison::Greater,
        compare_jobs(s, o, b, c) != Comparison::Greater,
    ensures
        compare_jobs(s, o, a, c) != Comparison::Greater,
        (compare_jobs(s, o, a, b) == Comparison::Less || compare_jobs(s, o, b, c)
            == Comparison::Less) ==> compare_jobs(s, o, a, c) == Comparison::Less,
{
    let pa = job_primary(s, a);
    let pb = job_primary(s, b);
    let pc = job_primary(s, c);
    lemma_compare_keys_trans(pa, pb, pc);
    lemma_compare_keys_trans(pc, pb, pa);
    lemma_compare_keys_flip(pa, pb);
    lemma_compare_keys_flip(pb, pc);
    lemma_compare_keys_flip(pa, pc);
}

/// A page picks up exactly after the row its cursor was taken from: a row
/// passes the cursor test for the sort key and id of row `x` if and only if
/// it comes after `x` in the listing order.
pub proof fn lemma_after_cursor_is_later(s: DownloadsSort, o: SortOrder, x: JobKey, r: JobKey)
    ensures
        after_cursor(s, o, r, job_primary(s, x), x.id) == (compare_jobs(s, o, x, r)
            == Comparison::Less),
{
    lemma_compare_keys_flip(job_primary(s, x), job_primary(s, r));
}

/// Rows in listing order: no row compares greater than a later one.
pub open spec fn jobs_sorted(s: DownloadsSort, o: SortOrder, rows: Seq<JobKey>) -> bool {
    forall|i: int, j: int|
        0 <= i < j < rows.len() ==> compare_jobs(s, o, rows[i], rows[j]) != Comparison::Greater
}

/// Where a stable insertion puts `x` into `rows`: after the last row that
/// does not compare greater than it.
pub open spec fn insert_pos(s: DownloadsSort, o: SortOrder, rows: Seq<JobKey>, x: JobKey) -> nat
    decreases rows.len(),
{
    if rows.len() == 0 {
        0
    } else if compare_jobs(s, o, rows.last(), x) == Comparison::Greater {
        insert_pos(s, o, rows.drop_last(), x)
    } else {
        rows.len()
    }
}

/// The rows in listing order, equal rows kept in their original order
/// (the stable sort of `sort_by`).
pub open spec fn sort_jobs(s: DownloadsSort, o: SortOrder, rows: Seq<JobKey>) -> Seq<JobKey>
    decreases rows.len(),
{
    if rows.len() == 0 {
        rows
    } else {
        let t = sort_jobs(s, o, rows.drop_last());
        t.insert(insert_pos(s, o, t, rows.last()) as int, rows.last())
    }
}

proof fn lemma_insert_pos(s: DownloadsSort, o: SortOrder, rows: Seq<JobKey>, x: JobKey)
    requires
        jobs_sorted(s, o, rows),
    ensures
        insert_pos(s, o, rows, x) <= rows.len(),
        forall|i: int|
            0 <= i < insert_pos(s, o, rows, x) ==> compare_jobs(s, o, rows[i], x)
                != Comparison::Greater,
        forall|i: int|
            insert_pos(s, o, rows, x) <= i < rows.len() ==> compare_jobs(s, o, rows[i], x)
                == Comparison::Greater,
    decreases rows.len(),
{
    if rows.len() > 0 {
        let n = rows.len() as int;
        if compare_jobs(s, o, rows.last(), x) == Comparison::Greater {
            let d = rows.drop_last();
            assert forall|i: int, j: int| 0 <= i < j < d.len() implies compare_jobs(
                s,
                o,
                d[i],
                d[j],
            ) != Comparison::Greater by {
                assert(d[i] == rows[i] && d[j] == rows[j]);
            }
            lemma_insert_pos(s, o, d, x);
            let p = insert_pos(s, o, d, x) as int;
            assert forall|i: int| 0 <= i < p implies compare_jobs(s, o, rows[i], x)
                != Comparison::Greater by {
                assert(d[i] == rows[i]);
            }
            assert forall|i: int| p <= i < n implies compare_jobs(s, o, rows[i], x)
                == Comparison::Greater by {
                if i < n - 1 {
                    assert(d[i] == rows[i]);
                }
            }
        } else {
            assert forall|i: int| 0 <= i < n implies compare_jobs(s, o, rows[i], x)
                != Comparison::Greater by {
                if i < n - 1 {
                    lemma_compare_jobs_trans(s, o, rows[i], rows[n - 1], x);
                }
            }
        }
    }
}

proof fn lemma_insert_keeps_sorted(s: DownloadsSort, o: SortOrder, rows: Seq<JobKey>, x: JobKey)
    requires
        jobs_sorted(s, o, rows),
    ensures
        jobs_sorted(s, o, rows.insert(insert_pos(s, o, rows, x) as int, x)),
{
    lemma_insert_pos(s, o, rows, x);
    let p = insert_pos(s, o, rows, x) as int;
    let r = rows.insert(p, x);
    rows.insert_ensures(p, x);
    assert forall|i: int, j: int| 0 <= i < j < r.len() implies compare_jobs(s, o, r[i], r[j])
        != Comparison::Greater by {
        if j < p {
        } else if j == p {
        } else if i < p {
            assert(r[j] == rows[j - 1]);
        } else if i == p {
            assert(r[j] == rows[j - 1]);
            lemma_compare_jobs_flip(s, o, rows[j - 1], x);
        } else {
            assert(r[i] == rows[i - 1]);
            assert(r[j] == rows[j - 1]);
        }
    }
}

proof fn lemma_sort_jobs_sorted(s: DownloadsSort, o: SortOrder, rows: Seq<JobKey>)
    ensures
        jobs_sorted(s, o, sort_jobs(s, o, rows)),
        sort_jobs(s, o, rows).len() == rows.len(),
    decreases rows.len(),
{
    if rows.len() > 0 {
        let d = rows.drop_last();
        let x = rows.last();
        lemma_sort_jobs_sorted(s, o, d);
        let t = sort_jobs(s, o, d);
        lemma_insert_pos(s, o, t, x);
        lemma_insert_keeps_sorted(s, o, t, x);
        t.insert_ensures(insert_pos(s, o, t, x) as int, x);
    }
}

/// Sorting yields rows in listing order that are a rearrangement of the
/// input: the same rows, each as often.
#[verifier::spinoff_prover]
pub proof fn lemma_sort_jobs_sorted_permutation(s: DownloadsSort, o: SortOrder, rows: Seq<JobKey>)
    ensures
        jobs_sorted(s, o, sort_jobs(s, o, rows)),
        sort_jobs(s, o, rows).to_multiset() == rows.to_multiset(),
        sort_jobs(s, o, rows).len() == rows.len(),
    decreases rows.len(),
{
    lemma_sort_jobs_sorted(s, o, rows);
    if rows.len() > 0 {
        let d = rows.drop_last();
        let x = rows.last();
        lemma_sort_jobs_sorted_permutation(s, o, d);
        let t = sort_jobs(s, o, d);
        lemma_insert_pos(s, o, t, x);
        let p = insert_pos(s, o, t, x) as int;
        vstd::seq_lib::to_multiset_insert(t, p, x);
        vstd::seq_lib::to_multiset_build(d, x);
        assert(rows =~= d.push(x));
    }
}

/// Rows in the state the filter names; all rows without a filter.
pub open spec fn status_ok(status: Option<DownloadJobStatus>, r: JobKey) -> bool {
    match status {
        None => true,
        Some(st) => r.status@ == status_text(st),
    }
}

pub open spec fn keep_status(rows: Seq<JobKey>, status: Option<DownloadJobStatus>) -> Seq<JobKey>
    decreases rows.len(),
{
    if rows.len() == 0 {
        rows
    } else {
        let k = keep_status(rows.drop_last(), status);
        if status_ok(status, rows.last()) {
            k.push(rows.last())
        } else {
            k
        }
    }
}

pub open spec fn keep_after(
    rows: Seq<JobKey>,
    s: DownloadsSort,
    o: SortOrder,
    primary: KeyView,
    tie: i64,
) -> Seq<JobKey>
    decreases rows.len(),
{
    if rows.len() == 0 {
        rows
    } else {
        let k = keep_after(rows.drop_last(), s, o, primary, tie);
        if after_cursor(s, o, rows.last(), primary, tie) {
            k.push(rows.last())
        } else {
            k
        }
    }
}

pub fn compare_jobs_exec(s: DownloadsSort, o: SortOrder, a: &JobKey, b: &JobKey) -> (r: Comparison)
    ensures
        r == compare_jobs(s, o, *a, *b),
{
    let p = match s {
        DownloadsSort::Id => compare_i64(a.id, b.id),
        DownloadsSort::QueuePosition => compare_i64(a.queue_position, b.queue_position),
        DownloadsSort::CreatedAt => {
            let x = chars_of(a.created_at.as_str());
            let y = chars_of(b.created_at.as_str());
            compare_chars(x.as_slice(), y.as_slice())
        },
        DownloadsSort::Status => {
            let x = chars_of(a.status.as_str());
            let y = chars_of(b.status.as_str());
            compare_chars(x.as_slice(), y.as_slice())
        },
    };
    let ordered = match o {
        SortOrder::Asc => p,
        SortOrder::Desc => match p {
            Comparison::Less => Comparison::Greater,
            Comparison::Equal => Comparison::Equal,
            Comparison::Greater => Comparison::Less,
        },
    };
    if ordered != Comparison::Equal {
        ordered
    } else {
        compare_i64(a.id, b.id)
    }
}

/// `rows` in listing order (a stable sort).
pub fn sort_job_keys(rows: Vec<JobKey>, s: DownloadsSort, o: SortOrder) -> (r: Vec<JobKey>)
    ensures
        r@ == sort_jobs(s, o, rows@),
{
    let ghost orig = rows@;
    assert(orig.len() == rows.len());
    let mut rest = rows;
    let mut out: Vec<JobKey> = Vec::new();
    let mut i: usize = 0;
    assert(orig.take(0) =~= Seq::<JobKey>::empty());
    while rest.len() > 0
        invariant
            i <= orig.len(),
            orig.len() <= usize::MAX,
            i + rest.len() == orig.len(),
            rest@ == orig.skip(i as int),
            out@ == sort_jobs(s, o, orig.take(i as int)),
        decreases rest.len(),
    {
        let x = rest.remove(0);
        proof {
            assert(orig.take(i as int + 1).drop_last() =~= orig.take(i as int));
            assert(orig[i as int] == x);
            assert(rest@ =~= orig.skip(i as int + 1));
        }
        let mut p = out.len();
        proof {
            assert(out@.take(out@.len() as int) =~= out@);
        }
        while p > 0 && compare_jobs_exec(s, o, &out[p - 1], &x) == Comparison::Greater
            invariant
                p <= out.len(),
                insert_pos(s, o, out@, x) == insert_pos(s, o, out@.take(p as int), x),
            decreases p,
        {
            proof {
                assert(out@.take(p as int).drop_last() =~= out@.take(p as int - 1));
            }
            p -= 1;
        }
        out.insert(p, x);
        i += 1;
    }
    assert(orig.take(i as int) =~= orig);
    out
}

fn status_matches(status: Option<DownloadJobStatus>, r: &JobKey) -> (b: bool)
    ensures
        b == status_ok(status, *r),
{
    match status {
        None => true,
        Some(st) => str_is(r.status.as_str(), st.as_str()),
    }
}

/// The rows in the state `status` names, in their order.
pub fn filter_by_status(rows: Vec<JobKey>, status: Option<DownloadJobStatus>) -> (r: Vec<JobKey>)
    ensures
        r@ == keep_status(rows@, status),
{
    let ghost orig = rows@;
    assert(orig.len() == rows.len());
    let mut rest = rows;
    let mut out: Vec<JobKey> = Vec::new();
    let mut i: usize = 0;
    assert(orig.take(0) =~= Seq::<JobKey>::empty());
    while rest.len() > 0
        invariant
            i <= orig.len(),
            orig.len() <= usize::MAX,
            i + rest.len() == orig.len(),
            rest@ == orig.skip(i as int),
            out@ == keep_status(orig.take(i as int), status),
        decreases rest.len(),
    {
        let x = rest.remove(0);
        proof {
            assert(orig.take(i as int + 1).drop_last() =~= orig.take(i as int));
            assert(orig[i as int] == x);
            assert(rest@ =~= orig.skip(i as int + 1));
        }
        if status_matches(status, &x) {
            out.push(x);
        }
        i += 1;
    }
    assert(orig.take(i as int) =~= orig);
    out
}

/// The rows that come after the cursor position `(primary, tie)`, in their
/// order.
pub fn filter_after_cursor(
    rows: Vec<JobKey>,
    s: DownloadsSort,
    o: SortOrder,
    primary: &SortKeyValue,
    tie: i64,
) -> (r: Vec<JobKey>)
    ensures
        r@ == keep_after(rows@, s, o, key_view(*primary), tie),
{
    let ghost orig = rows@;
    assert(orig.len() == rows.len());
    let mut rest = rows;
    let mut out: Vec<JobKey> = Vec::new();
    let mut i: usize = 0;
    assert(orig.take(0) =~= Seq::<JobKey>::empty());
    while rest.len() > 0
        invariant
            i <= orig.len(),
            orig.len() <= usize::MAX,
            i + rest.len() == orig.len(),
            rest@ == orig.skip(i as int),
            out@ == keep_after(orig.take(i as int), s, o, key_view(*primary), tie),
        decreases rest.len(),
    {
        let x = rest.remove(0);
        proof {
            assert(orig.take(i as int + 1).drop_last() =~= orig.take(i as int));
            assert(orig[i as int] == x);
            assert(rest@ =~= orig.skip(i as int + 1));
        }
        let row_key = s.primary_key(&x);
        let c = compare_sort_values(&row_key, primary);
        let keep = match c {
            Comparison::Greater => o == SortOrder::Asc,
            Comparison::Less => o == SortOrder::Desc,
            Comparison::Equal => x.id > tie,
        };
        if keep {
            out.push(x);
        }
        i += 1;
    }
    assert(orig.take(i as int) =~= orig);
    out
}

/// Comparison of two sort keys (`compare_sort_values`): keys of the same
/// kind by value, keys of different kinds equal.
pub fn compare_sort_values(left: &SortKeyValue, right: &SortKeyValue) -> (r: Comparison)
    ensures
        r == compare_keys(key_view(*left), key_view(*right)),
{
    match (left, right) {
        (SortKeyValue::Text(a), SortKeyValue::Text(b)) => {
            let x = chars_of(a.as_str());
            let y = chars_of(b.as_str());
            compare_chars(x.as_slice(), y.as_slice())
        },
        (SortKeyValue::Int(a), SortKeyValue::Int(b)) => compare_i64(*a, *b),
        (SortKeyValue::Bool(a), SortKeyValue::Bool(b)) => compare_i64(*a as i64, *b as i64),
        _ => Comparison::Equal,
    }
}

pub open spec fn after_view(after: Option<(SortKeyValue, i64)>) -> Option<(KeyView, i64)> {
    match after {
        Some((p, t)) => Some((key_view(p), t)),
        None => None,
    }
}

/// The rows a listing request shows before paging: those in the requested
/// state, in listing order, after the cursor position where there is one.
pub open spec fn listed_jobs(
    rows: Seq<JobKey>,
    s: DownloadsSort,
    o: SortOrder,
    status: Option<DownloadJobStatus>,
    after: Option<(KeyView, i64)>,
) -> Seq<JobKey> {
    let sorted = sort_jobs(s, o, keep_status(rows, status));
    match after {
        None => sorted,
        Some((p, t)) => keep_after(sorted, s, o, p, t),
    }
}

/// One page of the download job listing (`list_keyset` after the rows are
/// read): filter by state, sort, skip to the cursor position, then cut the
/// page, whose cursor carries the last row's sort key and id.
pub fn list_job_page(
    rows: Vec<JobKey>,
    s: DownloadsSort,
    o: SortOrder,
    status: Option<DownloadJobStatus>,
    after: Option<(SortKeyValue, i64)>,
    limit: u32,
    fingerprint: &str,
) -> (page: KeysetPage<JobKey>)
    requires
        limit as int + 1 <= usize::MAX,
    ensures
        ({
            let l = listed_jobs(rows@, s, o, status, after_view(after));
            &&& page.has_more == (l.len() > limit)
            &&& page.items@ == (if l.len() > limit {
                l.take(limit as int)
            } else {
                l
            })
            &&& (l.len() > limit && limit > 0) ==> (page.next_cursor matches Some(c) && c@
                == cursor_text(
                downloads_sort_text(s),
                o,
                fingerprint@,
                job_primary(s, l[limit - 1]),
                l[limit - 1].id,
            ))
            &&& !(l.len() > limit && limit > 0) ==> page.next_cursor is None
        }),
{
    let filtered = filter_by_status(rows, status);
    let sorted = sort_job_keys(filtered, s, o);
    let mut kept = match after {
        Some((p, t)) => filter_after_cursor(sorted, s, o, &p, t),
        None => sorted,
    };
    let ghost l = kept@;
    kept.truncate(limit as usize + 1);
    let extract = |r: &JobKey| -> (k: (SortKeyValue, i64))
        ensures
            key_view(k.0) == job_primary(s, *r),
            k.1 == r.id,
        { (s.primary_key(r), r.id) };
    let page = finish_keyset_page(kept, limit as usize, s.as_str(), o, fingerprint, extract);
    proof {
        if l.len() > limit {
            assert(l.take(limit as int + 1).take(limit as int) =~= l.take(limit as int));
        } else {
            assert(l.take(l.len() as int) =~= l);
        }
    }
    page
}

/// A configuration error carrying `text`.
pub open spec fn is_config(e: ApiError, text: Seq<char>) -> bool {
    e is Config && e->Config_0@ == text
}

fn config_error(prefix: &str, value: &str) -> (e: ApiError)
    ensures
        is_config(e, prefix@ + value@),
{
    let mut v = chars_of(prefix);
    let w = chars_of(value);
    append_chars(&mut v, w.as_slice());
    ApiError::Config(string_of(v.as_slice()))
}

/// The type and state of a stored job row (`JobRow::into_job`): an
/// unknown type or state is a configuration error naming it, the type
/// checked first.
pub fn job_row_kinds(job_type: &str, status: &str) -> (r: Result<
    (DownloadJobType, DownloadJobStatus),
    ApiError,
>)
    ensures
        match (job_type_named(job_type@), status_named(status@)) {
            (Some(t), Some(s)) => r == Ok::<(DownloadJobType, DownloadJobStatus), ApiError>((t, s)),
            (None, _) => r matches Err(e) && is_config(e, "invalid job_type "@ + job_type@),
            (Some(_), None) => r matches Err(e) && is_config(e, "invalid status "@ + status@),
        },
{
    let t = match DownloadJobType::parse(job_type) {
        Some(t) => t,
        None => {
            return Err(config_error("invalid job_type ", job_type));
        },
    };
    match DownloadJobStatus::parse(status) {
        Some(s) => Ok((t, s)),
        None => Err(config_error("invalid status ", status)),
    }
}

} // verus!
