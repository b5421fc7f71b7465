//! Statement text: the counting statement with its conditions, and the
//! bounded fetch.

use vstd::prelude::*;

verus! {

/// The character of a decimal digit.
pub open spec fn digit_char(d: nat) -> char
    recommends
        d < 10,
{
    if d == 0 {
        '0'
    } else if d == 1 {
        '1'
    } else if d == 2 {
        '2'
    } else if d == 3 {
        '3'
    } else if d == 4 {
        '4'
    } else if d == 5 {
        '5'
    } else if d == 6 {
        '6'
    } else if d == 7 {
        '7'
    } else if d == 8 {
        '8'
    } else {
        '9'
    }
}

/// A natural number in decimal, without leading zeros.
pub open spec fn decimal(n: nat) -> Seq<char>
    decreases n,
{
    if n < 10 {
        seq![digit_char(n)]
    } else {
        decimal(n / 10).push(digit_char(n % 10))
    }
}

/// One equality predicate: the column, compared with the numbered
/// placeholder at `position`.
pub open spec fn predicate(column: Seq<char>, position: nat) -> Seq<char> {
    column + " = ?"@ + decimal(position)
}

/// The predicates of all columns, numbered from 1 and joined by `AND`.
pub open spec fn conjunction(columns: Seq<Seq<char>>) -> Seq<char>
    decreases columns.len(),
{
    if columns.len() == 0 {
        Seq::empty()
    } else if columns.len() == 1 {
        predicate(columns[0], 1)
    } else {
        conjunction(columns.drop_last()) + " AND "@ + predicate(columns.last(), columns.len())
    }
}

/// The counting statement: the base query wrapped in a count, filtered by the
/// conjunction of the columns' predicates where there are any.
pub open spec fn count_sql(base_query: Seq<char>, columns: Seq<Seq<char>>) -> Seq<char> {
    let counted = "SELECT COUNT(1) AS cnt FROM ("@ + base_query + ")"@;
    if columns.len() == 0 {
        counted
    } else {
        counted + " WHERE "@ + conjunction(columns)
    }
}

/// The fetching statement: the base query, bounded by two last placeholders
/// for the limit and the offset.
pub open spec fn fetch_sql(base_query: Seq<char>) -> Seq<char> {
    base_query + " LIMIT ? OFFSET ?"@
}

/// The columns of a list of conditions, in order.
pub open spec fn columns_of(conditions: Seq<(Seq<char>, Seq<char>)>) -> Seq<Seq<char>> {
    conditions.map_values(|c: (Seq<char>, Seq<char>)| c.0)
}

fn digit_text(d: usize) -> (text: &'static str)
    requires
        d < 10,
    ensures
        text@ == seq![digit_char(d as nat)],
{
    proof {
        reveal_strlit("0");
        reveal_strlit("1");
        reveal_strlit("2");
        reveal_strlit("3");
        reveal_strlit("4");
        reveal_strlit("5");
        reveal_strlit("6");
        reveal_strlit("7");
        reveal_strlit("8");
        reveal_strlit("9");
    }
    let text = if d == 0 {
        "0"
    } else if d == 1 {
        "1"
    } else if d == 2 {
        "2"
    } else if d == 3 {
        "3"
    } else if d == 4 {
        "4"
    } else if d == 5 {
        "5"
    } else if d == 6 {
        "6"
    } else if d == 7 {
        "7"
    } else if d == 8 {
        "8"
    } else {
        "9"
    };
    assert(text@ =~= seq![digit_char(d as nat)]);
    text
}

/// Appends a number in decimal.
pub fn append_decimal(text: &mut String, n: usize)
    ensures
        final(text)@ == old(text)@ + decimal(n as nat),
    decreases n,
{
    if n >= 10 {
        append_decimal(text, n / 10);
    }
    text.append(digit_text(n % 10));
    proof {
        if n >= 10 {
            assert(decimal(n as nat) == decimal((n / 10) as nat).push(digit_char((n % 10) as nat)));
        }
        assert(text@ =~= old(text)@ + decimal(n as nat));
    }
}

/// Builds the counting statement for a base query and the condition columns.
pub fn count_statement_text(base_query: &str, conditions: &Vec<(String, String)>) -> (sql: String)
    ensures
        sql@ == count_sql(
            base_query@,
            conditions@.map_values(|c: (String, String)| c.0@),
        ),
{
    let ghost columns = conditions@.map_values(|c: (String, String)| c.0@);
    let mut sql = String::from_str("SELECT COUNT(1) AS cnt FROM (");
    sql.append(base_query);
    sql.append(")");
    let ghost counted = sql@;
    let mut i: usize = 0;
    while i < conditions.len()
        invariant
            i <= conditions.len(),
            columns == conditions@.map_values(|c: (String, String)| c.0@),
            counted == "SELECT COUNT(1) AS cnt FROM ("@ + base_query@ + ")"@,
            i == 0 ==> sql@ == counted,
            i > 0 ==> sql@ == counted + " WHERE "@ + conjunction(columns.take(i as int)),
        decreases conditions.len() - i,
    {
        let ghost before = sql@;
        if i == 0 {
            sql.append(" WHERE ");
        } else {
            sql.append(" AND ");
        }
        sql.append(conditions[i].0.as_str());
        sql.append(" = ?");
        append_decimal(&mut sql, i + 1);
        proof {
            let prefix = columns.take(i + 1);
            assert(prefix.len() == i + 1);
            assert(prefix.last() == columns[i as int]);
            assert(prefix.drop_last() =~= columns.take(i as int));
            assert(columns[i as int] == conditions@[i as int].0@);
            if i == 0 {
                assert(prefix[0] == columns[0]);
                assert(conjunction(prefix) == predicate(columns[0], 1));
                assert(sql@ =~= counted + " WHERE "@ + conjunction(prefix));
            } else {
                assert(conjunction(prefix) == conjunction(columns.take(i as int)) + " AND "@
                    + predicate(columns[i as int], (i + 1) as nat));
                assert(sql@ =~= counted + " WHERE "@ + conjunction(prefix));
            }
        }
        i += 1;
    }
    proof {
        assert(columns.take(conditions.len() as int) =~= columns);
    }
    sql
}

/// Builds the fetching statement for a base query.
pub fn fetch_statement_text(base_query: &str) -> (sql: String)
    ensures
        sql@ == fetch_sql(base_query@),
{
    let mut sql = String::from_str(base_query);
    sql.append(" LIMIT ? OFFSET ?");
    sql
}

} // verus!
