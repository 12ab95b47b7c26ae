use crate::driver::OracleDriver;
use vstd::prelude::*;
use vstd::string::StringExecFns;

verus! {

/// The query that lists the current user's tables for the menu.
pub open spec fn menu_text() -> Seq<char> {
    "select user, table_name from user_tables where tablespace_name is not null order by user, table_name"@
}

/// The query that previews the first hundred rows of a table.
pub open spec fn preview_rows_text(schema: Seq<char>, table: Seq<char>) -> Seq<char> {
    "select * from \""@ + schema + "\".\""@ + table + "\" where rownum <= 100"@
}

/// A query over one of the user's dictionary views, narrowed to one table and one
/// user: `opening` runs up to the quote that opens the table's name.
pub open spec fn dictionary_text(opening: Seq<char>, schema: Seq<char>, table: Seq<char>) -> Seq<
    char,
> {
    opening + table + "' and user = '"@ + schema + "'"@
}

/// The query that lists the columns of a table.
pub open spec fn preview_columns_text(schema: Seq<char>, table: Seq<char>) -> Seq<char> {
    dictionary_text("select * from user_tab_columns where table_name = '"@, schema, table)
}

/// The query that lists the constraints of a table.
pub open spec fn preview_constraints_text(schema: Seq<char>, table: Seq<char>) -> Seq<char> {
    dictionary_text("select * from user_constraints where table_name = '"@, schema, table)
}

/// The query that lists the indexed columns of a table.
pub open spec fn preview_indexes_text(schema: Seq<char>, table: Seq<char>) -> Seq<char> {
    dictionary_text("select * from user_ind_columns where table_name = '"@, schema, table)
}

/// The query that lists the security policies on a table.
pub open spec fn preview_policies_text(schema: Seq<char>, table: Seq<char>) -> Seq<char> {
    dictionary_text("select * from user_policies where object_name = '"@, schema, table)
}

/// Completes a dictionary query that `opening` begins.
fn dictionary_query(opening: &str, schema: &str, table: &str) -> (sql: String)
    ensures
        sql@ == dictionary_text(opening@, schema@, table@),
{
    let mut sql = String::from_str(opening);
    sql.append(table);
    sql.append("' and user = '");
    sql.append(schema);
    sql.append("'");
    sql
}

impl<P, C> OracleDriver<P, C> {
    /// The text of the menu query. It is run outside the task slot.
    pub fn menu_query(&self) -> (sql: String)
        ensures
            sql@ == menu_text(),
    {
        String::from_str(
            "select user, table_name from user_tables where tablespace_name is not null order by user, table_name",
        )
    }

    /// The text of the query that previews the rows of `schema`.`table`.
    pub fn preview_rows_query(&self, schema: &str, table: &str) -> (sql: String)
        ensures
            sql@ == preview_rows_text(schema@, table@),
    {
        let mut sql = String::from_str("select * from \"");
        sql.append(schema);
        sql.append("\".\"");
        sql.append(table);
        sql.append("\" where rownum <= 100");
        sql
    }

    /// The text of the query that lists the columns of `table`.
    pub fn preview_columns_query(&self, schema: &str, table: &str) -> (sql: String)
        ensures
            sql@ == preview_columns_text(schema@, table@),
    {
        dictionary_query("select * from user_tab_columns where table_name = '", schema, table)
    }

    /// The text of the query that lists the constraints of `table`.
    pub fn preview_constraints_query(&self, schema: &str, table: &str) -> (sql: String)
        ensures
            sql@ == preview_constraints_text(schema@, table@),
    {
        dictionary_query("select * from user_constraints where table_name = '", schema, table)
    }

    /// The text of the query that lists the indexed columns of `table`.
    pub fn preview_indexes_query(&self, schema: &str, table: &str) -> (sql: String)
        ensures
            sql@ == preview_indexes_text(schema@, table@),
    {
        dictionary_query("select * from user_ind_columns where table_name = '", schema, table)
    }

    /// The text of the query that lists the security policies on `table`.
    pub fn preview_policies_query(&self, schema: &str, table: &str) -> (sql: String)
        ensures
            sql@ == preview_policies_text(schema@, table@),
    {
        dictionary_query("select * from user_policies where object_name = '", schema, table)
    }
}

} // verus!
