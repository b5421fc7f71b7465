use ocean_db::sqlite::execute::{execute, insert, paginate, select, PageProgress, PageStep, Statement};
use ocean_db::sqlite::model::{PageRequest, PageResult};
use serde_json::{Number, Value};
use sqlx::sqlite::{SqlitePool, SqlitePoolOptions, SqliteRow};
use sqlx::{FromRow, Row, Sqlite};

#[derive(Default, Clone, Debug, PartialEq)]
pub struct Task {
    pub id: Option<String>,
    pub title: Option<String>,
    pub remark: Option<String>,
    pub create_time: Option<String>,
    pub update_time: Option<String>,
    pub display_order: Option<u64>,
}

impl<'r> FromRow<'r, SqliteRow> for Task {
    fn from_row(row: &'r SqliteRow) -> Result<Self, sqlx::Error> {
        Ok(Task {
            id: row.try_get("id")?,
            title: row.try_get("title")?,
            remark: row.try_get("remark")?,
            create_time: row.try_get("create_time")?,
            update_time: row.try_get("update_time")?,
            display_order: row.try_get("display_order")?,
        })
    }
}

impl Task {
    fn to_json_value(&self) -> Vec<Value> {
        fn text(field: &Option<String>) -> Value {
            match field {
                Some(s) => Value::String(s.clone()),
                None => Value::Null,
            }
        }
        vec![
            text(&self.id),
            text(&self.title),
            text(&self.remark),
            text(&self.create_time),
            text(&self.update_time),
            match self.display_order {
                Some(n) => Value::Number(Number::from(n)),
                None => Value::Null,
            },
        ]
    }
}

const INSERT_TASK: &str =
    "insert into tb_task(id,title,remark,create_time,update_time,display_order) values(?1,?2,?3,?4,?5,?6)";

fn block_on<F: std::future::Future>(future: F) -> F::Output {
    tokio::runtime::Builder::new_current_thread().enable_all().build().unwrap().block_on(future)
}

async fn get_pool() -> SqlitePool {
    let pool = SqlitePoolOptions::new().max_connections(1).connect("sqlite::memory:").await.unwrap();
    sqlx::query(
        "CREATE TABLE IF NOT EXISTS tb_task (id TEXT, title TEXT, remark TEXT, create_time TEXT, update_time TEXT, display_order INTEGER)",
    )
    .execute(&pool)
    .await
    .unwrap();
    pool
}

async fn run_mutation(pool: &SqlitePool, statement: Statement) -> Result<u64, String> {
    match sqlx::query_with(&statement.sql, statement.arguments).execute(pool).await {
        Ok(done) => Ok(done.rows_affected()),
        Err(e) => Err(e.to_string()),
    }
}

async fn run_select<T>(pool: &SqlitePool, statement: Statement) -> Vec<T>
where
    T: for<'r> FromRow<'r, SqliteRow> + Send + Unpin,
{
    sqlx::query_as_with::<Sqlite, T, _>(&statement.sql, statement.arguments).fetch_all(pool).await.unwrap()
}

async fn run_paginate<T>(
    pool: &SqlitePool,
    base_query: &str,
    request: &PageRequest,
) -> (Result<PageResult<T>, String>, usize)
where
    T: for<'r> FromRow<'r, SqliteRow> + Send + Unpin,
{
    let mut progress = PageProgress::Start;
    let mut round_trips = 0;
    loop {
        match paginate(base_query, request, progress) {
            PageStep::Done(outcome) => return (outcome, round_trips),
            PageStep::Count(statement) => {
                round_trips += 1;
                let counted = sqlx::query_with(&statement.sql, statement.arguments).fetch_one(pool).await;
                progress = PageProgress::Counted(match counted {
                    Ok(row) => Ok(row.get::<u64, _>(0)),
                    Err(e) => Err(e.to_string()),
                });
            }
            PageStep::Fetch { statement, total, total_pages } => {
                round_trips += 1;
                let fetched = sqlx::query_as_with::<Sqlite, T, _>(&statement.sql, statement.arguments)
                    .fetch_all(pool)
                    .await;
                progress = PageProgress::Fetched {
                    total,
                    total_pages,
                    rows: match fetched {
                        Ok(rows) => Ok(rows),
                        Err(e) => Err(e.to_string()),
                    },
                };
            }
        }
    }
}

async fn fill(pool: &SqlitePool, rows: u64) {
    for i in 0..rows {
        let task = Task {
            id: Some(format!("id-{}", i)),
            title: Some(if i % 2 == 0 { "even".to_string() } else { "odd".to_string() }),
            remark: None,
            create_time: Some("2024-01-01 00:00:00".to_string()),
            update_time: Some("2024-01-01 00:00:00".to_string()),
            display_order: Some(i),
        };
        assert_eq!(run_mutation(pool, insert(INSERT_TASK, task.to_json_value())).await, Ok(1));
    }
}

#[test]
fn test_page() {
    block_on(async {
        let pool = get_pool().await;
        let task = Task {
            id: None,
            title: Some("title".to_string()),
            remark: Some("remark".to_string()),
            create_time: Some("2024-05-06 07:08:09".to_string()),
            update_time: Some("2024-05-06 07:08:09".to_string()),
            display_order: Some(1714979289000),
        };
        run_mutation(&pool, insert(INSERT_TASK, task.to_json_value())).await.unwrap();
        let request = PageRequest::new(1, 10);
        let (outcome, _) = run_paginate::<Task>(&pool, "select * from tb_task", &request).await;
        let result: PageResult<Task> = outcome.unwrap();
        println!("{:?}", result);
        assert_eq!(result.items, vec![task]);
        assert_eq!(result.total, 1);
        assert_eq!(result.total_pages, 1);
    });
}

#[test]
fn test_find() {
    block_on(async {
        let pool = get_pool().await;
        let result: Vec<Task> = run_select(&pool, select("select * from tb_task", vec![])).await;
        println!("{:?}", result);
        assert!(result.is_empty());
    });
}

#[test]
fn empty_table_gives_the_empty_first_page() {
    block_on(async {
        let pool = get_pool().await;
        let request = PageRequest::new(1, 10);
        let (outcome, round_trips) = run_paginate::<Task>(&pool, "select * from tb_task", &request).await;
        let page = outcome.unwrap();
        assert!(page.items.is_empty());
        assert_eq!(page.total, 0);
        assert_eq!(page.page_no, 1);
        assert_eq!(page.page_size, 10);
        assert_eq!(page.total_pages, 0);
        assert_eq!(round_trips, 1);
    });
}

#[test]
fn third_page_of_25_rows_holds_the_last_five() {
    block_on(async {
        let pool = get_pool().await;
        fill(&pool, 25).await;
        let request = PageRequest::new(3, 10);
        let (outcome, round_trips) = run_paginate::<Task>(&pool, "select * from tb_task", &request).await;
        let page = outcome.unwrap();
        assert_eq!(page.items.len(), 5);
        assert_eq!(page.total, 25);
        assert_eq!(page.total_pages, 3);
        assert_eq!(page.page_no, 3);
        assert_eq!(page.page_size, 10);
        assert_eq!(page.items[0].id, Some("id-20".to_string()));
        assert_eq!(page.items[4].id, Some("id-24".to_string()));
        assert_eq!(round_trips, 2);
    });
}

#[test]
fn pages_before_the_last_are_full() {
    block_on(async {
        let pool = get_pool().await;
        fill(&pool, 25).await;
        for page_no in 1..=2u64 {
            let request = PageRequest::new(page_no, 10);
            let (outcome, _) = run_paginate::<Task>(&pool, "select * from tb_task", &request).await;
            let page = outcome.unwrap();
            assert_eq!(page.items.len(), 10);
            assert_eq!(page.items[0].display_order, Some((page_no - 1) * 10));
            assert_eq!(page.total, 25);
            assert_eq!(page.total_pages, 3);
        }
    });
}

#[test]
fn fourth_page_of_25_rows_is_empty() {
    block_on(async {
        let pool = get_pool().await;
        fill(&pool, 25).await;
        let request = PageRequest::new(4, 10);
        let (outcome, round_trips) = run_paginate::<Task>(&pool, "select * from tb_task", &request).await;
        let page = outcome.unwrap();
        assert!(page.items.is_empty());
        assert_eq!(page.total, 0);
        assert_eq!(page.total_pages, 0);
        assert_eq!(page.page_no, 4);
        assert_eq!(page.page_size, 10);
        assert_eq!(round_trips, 1);
    });
}

#[test]
fn page_zero_asks_nothing_of_the_store() {
    block_on(async {
        let pool = get_pool().await;
        fill(&pool, 3).await;
        let request = PageRequest::new(0, 10);
        let (outcome, round_trips) = run_paginate::<Task>(&pool, "select * from tb_task", &request).await;
        let page = outcome.unwrap();
        assert!(page.items.is_empty());
        assert_eq!(page.total, 0);
        assert_eq!(page.total_pages, 0);
        assert_eq!(page.page_no, 0);
        assert_eq!(page.page_size, 10);
        assert_eq!(round_trips, 0);
    });
}

#[test]
fn conditions_filter_the_count_only() {
    block_on(async {
        let pool = get_pool().await;
        fill(&pool, 25).await;
        let mut request = PageRequest::new(1, 10);
        request.conditions = Some(vec![("title".to_string(), "odd".to_string())]);
        let (outcome, _) = run_paginate::<Task>(&pool, "select * from tb_task", &request).await;
        let page = outcome.unwrap();
        assert_eq!(page.total, 12);
        assert_eq!(page.total_pages, 2);
        assert_eq!(page.items.len(), 10);
        assert_eq!(page.items[0].title, Some("even".to_string()));
    });
}

#[test]
fn conditions_that_match_nothing_give_the_empty_page() {
    block_on(async {
        let pool = get_pool().await;
        fill(&pool, 25).await;
        let mut request = PageRequest::new(1, 10);
        request.conditions =
            Some(vec![("title".to_string(), "odd".to_string()), ("id".to_string(), "id-2".to_string())]);
        let (outcome, round_trips) = run_paginate::<Task>(&pool, "select * from tb_task", &request).await;
        let page = outcome.unwrap();
        assert!(page.items.is_empty());
        assert_eq!(page.total, 0);
        assert_eq!(page.total_pages, 0);
        assert_eq!(round_trips, 1);
    });
}

#[test]
fn missing_table_is_reported_with_the_stores_message() {
    block_on(async {
        let pool = get_pool().await;
        let request = PageRequest::new(1, 10);
        let (outcome, round_trips) = run_paginate::<Task>(&pool, "select * from nowhere", &request).await;
        let message = outcome.err().unwrap();
        assert!(message.contains("no such table"));
        assert_eq!(round_trips, 1);
    });
}

#[test]
fn rows_that_cannot_be_decoded_fail_the_page() {
    block_on(async {
        let pool = get_pool().await;
        fill(&pool, 2).await;
        let request = PageRequest::new(1, 10);
        let (outcome, round_trips) =
            run_paginate::<Task>(&pool, "select id, title from tb_task", &request).await;
        assert!(outcome.is_err());
        assert_eq!(round_trips, 2);
    });
}

#[test]
fn inserted_null_is_preserved() {
    block_on(async {
        let pool = get_pool().await;
        let statement = insert(
            "insert into tb_task(id,title) values(?1,?2)",
            vec![Value::Null, Value::String("kept".to_string())],
        );
        assert_eq!(run_mutation(&pool, statement).await, Ok(1));
        let found: Vec<Task> = run_select(
            &pool,
            select("select * from tb_task where title = ?1", vec![Value::String("kept".to_string())]),
        )
        .await;
        assert_eq!(found.len(), 1);
        assert_eq!(found[0].id, None);
        assert_eq!(found[0].title, Some("kept".to_string()));
    });
}

#[test]
fn execute_reports_the_rows_it_changed() {
    block_on(async {
        let pool = get_pool().await;
        fill(&pool, 5).await;
        let statement = execute(
            "update tb_task set remark = ?1 where title = ?2",
            vec![Value::String("seen".to_string()), Value::String("even".to_string())],
        );
        assert_eq!(run_mutation(&pool, statement).await, Ok(3));
        let statement = execute("delete from tb_task where display_order >= ?1", vec![Value::Number(Number::from(3u64))]);
        assert_eq!(run_mutation(&pool, statement).await, Ok(2));
    });
}

#[test]
fn failed_mutation_reports_the_stores_message() {
    block_on(async {
        let pool = get_pool().await;
        let statement = insert("insert into nowhere(id) values(?1)", vec![Value::Null]);
        let message = run_mutation(&pool, statement).await.err().unwrap();
        assert!(message.contains("no such table"));
    });
}
