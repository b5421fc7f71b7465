//! Selection, mutation and pagination, up to the point where the store is
//! asked.
//!
//! Nothing here talks to the store. [`select`], [`insert`] and [`execute`]
//! hand out the statement to run. [`paginate`] is a step function: from what
//! has happened so far it tells what to do next, and it is called again with
//! the outcome until it yields a result.

use crate::sqlite::bind::{
    bind_cond_json_list, bind_values, bound_params, coerce_json, no_arguments, real_param, Param,
};
use crate::sqlite::model::{PageRequest, PageRequestView, PageResult, PageResultView};
use crate::sqlite::pages::{
    lemma_pages_needed_is_ceiling, lemma_rows_on_page, pages_needed, rows_before, rows_on_page,
    total_pages,
};
use crate::sqlite::sql::{columns_of, count_sql, count_statement_text, fetch_sql, fetch_statement_text};
use crate::sqlite::value::{number_from, number_from_u64, DynamicValue, DynamicValueView};
use serde_json::Value;
use sqlx::sqlite::SqliteArguments;
use vstd::prelude::*;

verus! {

/// A statement with its parameters bound, ready to be handed to the store.
#[derive(Debug)]
pub struct Statement {
    pub sql: String,
    pub arguments: SqliteArguments<'static>,
}

/// The mathematical content of a [`Statement`].
pub struct StatementView {
    pub sql: Seq<char>,
    pub params: Seq<Param>,
}

impl View for Statement {
    type V = StatementView;

    open spec fn view(&self) -> StatementView {
        StatementView { sql: self.sql@, params: bound_params(self.arguments) }
    }
}

impl Statement {
    /// The statement `sql` with the JSON values bound in order, one parameter
    /// each.
    pub fn bound(sql: &str, values: Vec<Value>) -> (statement: Statement)
        ensures
            statement@ == (StatementView { sql: sql@, params: coerce_json(values@) }),
    {
        let arguments = bind_cond_json_list(no_arguments(), values);
        proof {
            assert(Seq::<Param>::empty() + coerce_json(values@) =~= coerce_json(values@));
        }
        Statement { sql: sql.to_owned(), arguments }
    }
}

/// The statement of a selection: to be run as a query whose rows are all
/// decoded; one row that cannot be decoded fails the whole call.
pub fn select(sql: &str, values: Vec<Value>) -> (statement: Statement)
    ensures
        statement@ == (StatementView { sql: sql@, params: coerce_json(values@) }),
{
    Statement::bound(sql, values)
}

/// The statement of an insertion: to be run as a mutation that reports the
/// number of rows it affected, or the store's message.
pub fn insert(sql: &str, values: Vec<Value>) -> (statement: Statement)
    ensures
        statement@ == (StatementView { sql: sql@, params: coerce_json(values@) }),
{
    Statement::bound(sql, values)
}

/// The statement of any other mutation: run and reported as an insertion is.
pub fn execute(sql: &str, values: Vec<Value>) -> (statement: Statement)
    ensures
        statement@ == (StatementView { sql: sql@, params: coerce_json(values@) }),
{
    Statement::bound(sql, values)
}

/// What has happened so far in one pagination.
#[derive(Debug)]
pub enum PageProgress<T> {
    /// Nothing has been asked of the store yet.
    Start,
    /// The counting statement has run: its count, or the store's message.
    Counted(Result<u64, String>),
    /// The fetching statement has run: the decoded rows, or the store's
    /// message, together with the totals that came with the statement.
    Fetched { total: u64, total_pages: u64, rows: Result<Vec<T>, String> },
}

/// The mathematical content of a [`PageProgress`].
pub enum PageProgressView<T> {
    Start,
    Counted(Result<nat, Seq<char>>),
    Fetched { total: nat, total_pages: nat, rows: Result<Seq<T>, Seq<char>> },
}

impl<T> View for PageProgress<T> {
    type V = PageProgressView<T>;

    open spec fn view(&self) -> PageProgressView<T> {
        match self {
            PageProgress::Start => PageProgressView::Start,
            PageProgress::Counted(Ok(total)) => PageProgressView::Counted(Ok(*total as nat)),
            PageProgress::Counted(Err(message)) => PageProgressView::Counted(Err(message@)),
            PageProgress::Fetched { total, total_pages, rows: Ok(items) } => PageProgressView::Fetched {
                total: *total as nat,
                total_pages: *total_pages as nat,
                rows: Ok(items@),
            },
            PageProgress::Fetched { total, total_pages, rows: Err(message) } => PageProgressView::Fetched {
                total: *total as nat,
                total_pages: *total_pages as nat,
                rows: Err(message@),
            },
        }
    }
}

/// What to do next in one pagination.
#[derive(Debug)]
pub enum PageStep<T> {
    /// Run the statement, which yields one row with the count in its first
    /// column, and come back with [`PageProgress::Counted`].
    Count(Statement),
    /// Run the statement, decode its rows, and come back with
    /// [`PageProgress::Fetched`] and the totals given here.
    Fetch { statement: Statement, total: u64, total_pages: u64 },
    /// The pagination is over: its page, or the store's message.
    Done(Result<PageResult<T>, String>),
}

/// The mathematical content of a [`PageStep`].
pub enum PageStepView<T> {
    Count(StatementView),
    Fetch { statement: StatementView, total: nat, total_pages: nat },
    Done(Result<PageResultView<T>, Seq<char>>),
}

impl<T> View for PageStep<T> {
    type V = PageStepView<T>;

    open spec fn view(&self) -> PageStepView<T> {
        match self {
            PageStep::Count(statement) => PageStepView::Count(statement@),
            PageStep::Fetch { statement, total, total_pages } => PageStepView::Fetch {
                statement: statement@,
                total: *total as nat,
                total_pages: *total_pages as nat,
            },
            PageStep::Done(Ok(page)) => PageStepView::Done(Ok(page@)),
            PageStep::Done(Err(message)) => PageStepView::Done(Err(message@)),
        }
    }
}

/// The counting statement of a request: the count over the base query,
/// filtered by the request's conditions, each value bound as text.
pub open spec fn count_statement(base_query: Seq<char>, request: PageRequestView) -> StatementView {
    StatementView {
        sql: count_sql(base_query, columns_of(request.condition_list())),
        params: request.condition_list().map_values(|c: (Seq<char>, Seq<char>)| Param::Text(c.1)),
    }
}

/// The fetching statement of a request: the base query as it is, with the
/// page size as its limit and the rows before the page as its offset, both
/// bound as numbers.
pub open spec fn fetch_statement(base_query: Seq<char>, request: PageRequestView) -> StatementView {
    StatementView {
        sql: fetch_sql(base_query),
        params: seq![
            real_param(number_from(request.page_size as u64)),
            real_param(number_from(rows_before(request.page_no, request.page_size) as u64)),
        ],
    }
}

/// The step that ends a pagination with the empty page of the request.
pub open spec fn empty_page<T>(request: PageRequestView) -> PageStepView<T> {
    PageStepView::Done(Ok(PageResultView::<T>::empty(request.page_no, request.page_size)))
}

/// The step that follows from what has happened so far.
pub open spec fn next_step<T>(
    base_query: Seq<char>,
    request: PageRequestView,
    progress: PageProgressView<T>,
) -> PageStepView<T> {
    if request.page_no < 1 {
        empty_page(request)
    } else {
        match progress {
            PageProgressView::Start => PageStepView::Count(count_statement(base_query, request)),
            PageProgressView::Counted(Err(message)) => PageStepView::Done(Err(message)),
            PageProgressView::Counted(Ok(total)) => {
                if total == 0 || request.page_no > pages_needed(total, request.page_size) {
                    empty_page(request)
                } else {
                    PageStepView::Fetch {
                        statement: fetch_statement(base_query, request),
                        total,
                        total_pages: pages_needed(total, request.page_size),
                    }
                }
            },
            PageProgressView::Fetched { rows: Err(message), .. } => PageStepView::Done(Err(message)),
            PageProgressView::Fetched { total, total_pages, rows: Ok(items) } => PageStepView::Done(
                Ok(
                    PageResultView {
                        items,
                        total,
                        page_no: request.page_no,
                        page_size: request.page_size,
                        total_pages,
                    },
                ),
            ),
        }
    }
}

/// Whether the step divides by the page size: only a count above zero does.
pub open spec fn needs_page_size<T>(request: PageRequestView, progress: PageProgressView<T>) -> bool {
    &&& request.page_no >= 1
    &&& progress matches PageProgressView::Counted(Ok(total))
    &&& total > 0
}

/// A pagination that gets as far as fetching ends with the rows it was given
/// and with as many pages as the total, rounded up, fills. Where the store
/// handed back the rows of the page, and no others, the page is well formed:
/// full unless it is the last, and never longer than its size.
pub proof fn lemma_fetched_page<T>(
    base_query: Seq<char>,
    request: PageRequestView,
    total: nat,
    items: Seq<T>,
)
    requires
        request.page_size > 0,
        next_step::<T>(base_query, request, PageProgressView::Counted(Ok(total))) is Fetch,
    ensures
        ({
            let fetch = next_step::<T>(base_query, request, PageProgressView::Counted(Ok(total)));
            let pages = pages_needed(total, request.page_size);
            let page = PageResultView {
                items,
                total,
                page_no: request.page_no,
                page_size: request.page_size,
                total_pages: pages,
            };
            &&& fetch == (PageStepView::<T>::Fetch {
                statement: fetch_statement(base_query, request),
                total,
                total_pages: pages,
            })
            &&& next_step(
                base_query,
                request,
                PageProgressView::Fetched { total, total_pages: pages, rows: Ok(items) },
            ) == PageStepView::Done(Ok(page))
            &&& 1 <= request.page_no <= pages
            &&& items.len() == rows_on_page(total, request.page_no, request.page_size) ==> {
                &&& page.well_formed()
                &&& 1 <= items.len() <= request.page_size
                &&& request.page_no < pages ==> items.len() == request.page_size
            }
        }),
{
    lemma_pages_needed_is_ceiling(total, request.page_size);
    lemma_rows_on_page(total, request.page_no, request.page_size);
}

fn count_statement_of(base_query: &str, page_request: &PageRequest) -> (statement: Statement)
    ensures
        statement@ == count_statement(base_query@, page_request@),
{
    let none: Vec<(String, String)> = Vec::new();
    let conditions = match &page_request.conditions {
        Some(conditions) => conditions,
        None => &none,
    };
    let ghost list = page_request@.condition_list();
    assert(list =~= conditions@.map_values(|p: (String, String)| (p.0@, p.1@)));
    let sql = count_statement_text(base_query, conditions);
    assert(columns_of(list) =~= conditions@.map_values(|c: (String, String)| c.0@));
    let mut values: Vec<DynamicValue> = Vec::new();
    let mut i: usize = 0;
    while i < conditions.len()
        invariant
            i <= conditions.len(),
            values@.len() == i,
            forall|k: int| 0 <= k < i ==> (#[trigger] values@[k])@ == DynamicValueView::Text(conditions@[k].1@),
        decreases conditions.len() - i,
    {
        values.push(DynamicValue::Text(conditions[i].1.clone()));
        i += 1;
    }
    let arguments = bind_values(no_arguments(), &values);
    assert(bound_params(arguments) =~= list.map_values(|c: (Seq<char>, Seq<char>)| Param::Text(c.1)));
    Statement { sql, arguments }
}

fn fetch_statement_of(base_query: &str, page_request: &PageRequest, offset: u64) -> (statement: Statement)
    requires
        page_request.page_no >= 1,
        offset == rows_before(page_request.page_no as nat, page_request.page_size as nat),
    ensures
        statement@ == fetch_statement(base_query@, page_request@),
{
    let sql = fetch_statement_text(base_query);
    let mut values: Vec<DynamicValue> = Vec::new();
    values.push(DynamicValue::Number(number_from_u64(page_request.page_size)));
    values.push(DynamicValue::Number(number_from_u64(offset)));
    let arguments = bind_values(no_arguments(), &values);
    assert(bound_params(arguments) =~= fetch_statement(base_query@, page_request@).params);
    Statement { sql, arguments }
}

/// Takes one pagination a step further.
///
/// A page number below 1 yields the empty page at once. Otherwise the rows
/// are counted first; no rows, or a page beyond the last, yield the empty page
/// after the count alone. Only then are the rows fetched, at most a page of
/// them. A message from the store ends the pagination with that message.
///
/// The conditions filter the count only: the fetch runs the base query as it
/// is, so with conditions the total and the rows may speak of different sets.
pub fn paginate<T>(base_query: &str, page_request: &PageRequest, progress: PageProgress<T>) -> (step:
    PageStep<T>)
    requires
        needs_page_size(page_request@, progress@) ==> page_request.page_size > 0,
    ensures
        step@ == next_step(base_query@, page_request@, progress@),
        page_request.page_no < 1 ==> step@ == empty_page::<T>(page_request@),
        progress@ matches PageProgressView::Counted(Ok(total)) ==> (total == 0
            || page_request.page_no > pages_needed(total, page_request.page_size as nat) ==> step@
            == empty_page::<T>(page_request@)),
        step@ matches PageStepView::Fetch { total, total_pages, .. } ==> total > 0 && total_pages
            == pages_needed(total, page_request.page_size as nat) && 1 <= page_request.page_no
            <= total_pages,
        step@ is Count ==> progress@ is Start,
        step@ is Fetch ==> progress@ is Counted,
{
    if page_request.page_no < 1 {
        return PageStep::Done(Ok(PageResult::empty(page_request.page_no, page_request.page_size)));
    }
    match progress {
        PageProgress::Start => PageStep::Count(count_statement_of(base_query, page_request)),
        PageProgress::Counted(Err(message)) => PageStep::Done(Err(message)),
        PageProgress::Counted(Ok(total)) => {
            if total == 0 {
                return PageStep::Done(Ok(PageResult::empty(page_request.page_no, page_request.page_size)));
            }
            let pages: u64 = total_pages(total, page_request.page_size);
            if page_request.page_no > pages {
                return PageStep::Done(Ok(PageResult::empty(page_request.page_no, page_request.page_size)));
            }
            proof {
                lemma_rows_on_page(total as nat, page_request.page_no as nat, page_request.page_size as nat);
            }
            let offset: u64 = (page_request.page_no - 1) * page_request.page_size;
            PageStep::Fetch {
                statement: fetch_statement_of(base_query, page_request, offset),
                total,
                total_pages: pages,
            }
        },
        PageProgress::Fetched { rows: Err(message), .. } => PageStep::Done(Err(message)),
        PageProgress::Fetched { total, total_pages, rows: Ok(items) } => PageStep::Done(
            Ok(PageResult::new(items, total, page_request.page_no, page_request.page_size, total_pages)),
        ),
    }
}

} // verus!
