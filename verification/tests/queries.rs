use chatui::tables::{get_create_table_query, save_user_details_query, ColumnDetail, TableDetail};

#[test]
fn test_create_table_query() {
    let table = TableDetail {
        name: String::from("USER_INFO"),
        columns: vec![
            ColumnDetail {
                name: String::from("USER_NAME"),
                column_type: String::from("TEXT"),
                constraints: Some(vec![String::from("NOT"), String::from("NULL")]),
            },
            ColumnDetail {
                name: String::from("USER_ID"),
                column_type: String::from("TEXT"),
                constraints: None,
            },
        ],
    };

    assert_eq!(
        get_create_table_query(&table),
        "CREATE TABLE IF NOT EXISTS \"USER_INFO\" ([USER_NAME] TEXT NOT NULL,[USER_ID] TEXT)"
    );
}

#[test]
fn test_create_table_query_single_column() {
    let table = TableDetail {
        name: String::from("T"),
        columns: vec![ColumnDetail {
            name: String::from("A"),
            column_type: String::from("INTEGER"),
            constraints: None,
        }],
    };

    assert_eq!(get_create_table_query(&table), "CREATE TABLE IF NOT EXISTS \"T\" ([A] INTEGER)");
}

#[test]
fn test_save_user_details_query() {
    assert_eq!(
        save_user_details_query("Alice", "alice-01"),
        "INSERT INTO USER_INFO (USER_NAME, USER_ID) VALUES ('Alice', 'alice-01')"
    );
}
