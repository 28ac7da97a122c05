//! Schema descriptions and the SQL text built from them.  Building the
//! statements is pure string work and is specified character by
//! character; running them is the persistence collaborator's concern.

use vstd::prelude::*;
use vstd::string::StringExecFns;

verus! {

/// One column of a table: its name, type, and optional constraints.
pub struct ColumnDetail {
    pub name: String,
    pub column_type: String,
    pub constraints: Option<Vec<String>>,
}

/// One table: its name and columns.
pub struct TableDetail {
    pub name: String,
    pub columns: Vec<ColumnDetail>,
}

pub type TableDetails = Vec<TableDetail>;

/// The first `n` parts joined with a single space.
pub open spec fn joined_upto(parts: Seq<String>, n: int) -> Seq<char>
    decreases n,
{
    if n <= 0 {
        Seq::empty()
    } else if n == 1 {
        parts[0]@
    } else {
        joined_upto(parts, n - 1) + " "@ + parts[n - 1]@
    }
}

/// All parts joined with a single space.
pub open spec fn joined_constraints(parts: Seq<String>) -> Seq<char> {
    joined_upto(parts, parts.len() as int)
}

/// The SQL fragment declaring one column.
pub open spec fn column_sql(c: ColumnDetail) -> Seq<char> {
    let base = "["@ + c.name@ + "] "@ + c.column_type@;
    match c.constraints {
        Some(cs) => base + " "@ + joined_constraints(cs@),
        None => base,
    }
}

/// The first `n` column fragments joined with commas.
pub open spec fn columns_upto(cols: Seq<ColumnDetail>, n: int) -> Seq<char>
    decreases n,
{
    if n <= 0 {
        Seq::empty()
    } else if n == 1 {
        column_sql(cols[0])
    } else {
        columns_upto(cols, n - 1) + ","@ + column_sql(cols[n - 1])
    }
}

/// The complete statement creating one table.
pub open spec fn table_sql(t: TableDetail) -> Seq<char> {
    "CREATE TABLE IF NOT EXISTS \""@ + t.name@ + "\" ("@ + columns_upto(
        t.columns@,
        t.columns@.len() as int,
    ) + ")"@
}

fn join_spaced(parts: &Vec<String>) -> (r: String)
    ensures
        r@ == joined_constraints(parts@),
{
    let mut out = String::new();
    let mut i: usize = 0;
    while i < parts.len()
        invariant
            i <= parts@.len(),
            out@ == joined_upto(parts@, i as int),
        decreases parts@.len() - i,
    {
        if i > 0 {
            out.append(" ");
        }
        out.append(parts[i].as_str());
        proof {
            assert(out@ =~= joined_upto(parts@, i + 1));
        }
        i = i + 1;
    }
    out
}

fn column_to_sql(c: &ColumnDetail) -> (r: String)
    ensures
        r@ == column_sql(*c),
{
    let mut out = String::new();
    out.append("[");
    out.append(c.name.as_str());
    out.append("] ");
    out.append(c.column_type.as_str());
    match &c.constraints {
        Some(cs) => {
            out.append(" ");
            let joined = join_spaced(cs);
            out.append(joined.as_str());
        },
        None => {},
    }
    proof {
        assert(out@ =~= column_sql(*c));
    }
    out
}

/// Builds the statement that creates the given table if it is absent.
pub fn get_create_table_query(table_details: &TableDetail) -> (r: String)
    ensures
        r@ == table_sql(*table_details),
{
    let mut query = String::new();
    query.append("CREATE TABLE IF NOT EXISTS \"");
    query.append(table_details.name.as_str());
    query.append("\" (");
    let ghost head = query@;
    let mut count: usize = 0;
    while count < table_details.columns.len()
        invariant
            count <= table_details.columns@.len(),
            head == "CREATE TABLE IF NOT EXISTS \""@ + table_details.name@ + "\" ("@,
            query@ == head + columns_upto(table_details.columns@, count as int),
        decreases table_details.columns@.len() - count,
    {
        if count > 0 {
            query.append(",");
        }
        let col_sql = column_to_sql(&table_details.columns[count]);
        query.append(col_sql.as_str());
        proof {
            assert(query@ =~= head + columns_upto(table_details.columns@, count + 1));
        }
        count = count + 1;
    }
    query.append(")");
    proof {
        assert(query@ =~= table_sql(*table_details));
    }
    query
}

/// Builds the statement that stores the given name and id.
pub fn save_user_details_query(user_name: &str, user_id: &str) -> (r: String)
    ensures
        r@ == "INSERT INTO USER_INFO (USER_NAME, USER_ID) VALUES ('"@ + user_name@ + "', '"@
            + user_id@ + "')"@,
{
    let mut query = String::new();
    query.append("INSERT INTO USER_INFO (USER_NAME, USER_ID) VALUES ('");
    query.append(user_name);
    query.append("', '");
    query.append(user_id);
    query.append("')");
    proof {
        assert(query@ =~= "INSERT INTO USER_INFO (USER_NAME, USER_ID) VALUES ('"@ + user_name@
            + "', '"@ + user_id@ + "')"@);
    }
    query
}

} // verus!
