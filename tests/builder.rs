use sqlite3builder::{esc, quote, Sqlite3Builder};

#[test]
fn test_esc() {
    let sql = esc("Hello, 'World'");

    assert_eq!(&sql, "Hello, ''World''");
}

#[test]
fn test_quote() {
    let sql = quote("Hello, 'World'");

    assert_eq!(&sql, "'Hello, ''World'''");
}

#[test]
fn test_select_only_values() {
    let values = Sqlite3Builder::select_values(&["10", &quote("100")]).sql().unwrap();

    assert_eq!("SELECT 10, '100';", &values);
}

#[test]
fn test_select_all_books() {
    let sql = Sqlite3Builder::select_from("books").sql().unwrap();

    assert_eq!(&sql, "SELECT * FROM books;");
}

#[test]
fn test_show_all_prices() {
    let sql = Sqlite3Builder::select_from("books")
        .distinct()
        .field("price")
        .sql()
        .unwrap();

    assert_eq!(&sql, "SELECT DISTINCT price FROM books;");
}

#[test]
fn test_select_title_and_price() {
    let sql = Sqlite3Builder::select_from("books")
        .fields(&["title", "price"])
        .sql()
        .unwrap();

    assert_eq!(&sql, "SELECT title, price FROM books;");

    let sql = Sqlite3Builder::select_from("books")
        .field("title")
        .field("price")
        .sql()
        .unwrap();

    assert_eq!(&sql, "SELECT title, price FROM books;");
}

#[test]
fn test_select_expensive_books() {
    let sql = Sqlite3Builder::select_from("books")
        .field("title")
        .field("price")
        .and_where("price > 100")
        .sql()
        .unwrap();

    assert_eq!(&sql, "SELECT title, price FROM books WHERE price > 100;");

    let sql = Sqlite3Builder::select_from("books")
        .field("title")
        .field("price")
        .and_where_gt("price", &200.to_string())
        .sql()
        .unwrap();

    assert_eq!(&sql, "SELECT title, price FROM books WHERE price > 200;");

    let sql = Sqlite3Builder::select_from("books")
        .field("title")
        .field("price")
        .and_where_ge("price", &300.to_string())
        .sql()
        .unwrap();

    assert_eq!(&sql, "SELECT title, price FROM books WHERE price >= 300;");
}

#[test]
fn test_select_price_for_harry_potter_and_phil_stone() {
    let sql = Sqlite3Builder::select_from("books")
        .field("price")
        .and_where_eq("title", &quote("Harry Potter and the Philosopher's Stone"))
        .sql()
        .unwrap();

    assert_eq!(
        &sql,
        "SELECT price FROM books WHERE title = 'Harry Potter and the Philosopher''s Stone';"
    );
}

#[test]
fn test_select_price_not_for_harry_potter_and_phil_stone() {
    let sql = Sqlite3Builder::select_from("books")
        .field("price")
        .and_where_ne("title", &quote("Harry Potter and the Philosopher's Stone"))
        .sql()
        .unwrap();

    assert_eq!(
        &sql,
        "SELECT price FROM books WHERE title <> 'Harry Potter and the Philosopher''s Stone';"
    );
}

#[test]
fn test_select_expensive_harry_potter() {
    let sql = Sqlite3Builder::select_from("books")
        .field("title")
        .field("price")
        .and_where("price > 100")
        .and_where_like_left("title", "Harry Potter")
        .sql()
        .unwrap();

    assert_eq!(
        &sql,
        "SELECT title, price FROM books WHERE (price > 100) AND (title LIKE 'Harry Potter%');"
    );
}

#[test]
fn test_select_strange_books() {
    let sql = Sqlite3Builder::select_from("books")
        .field("title")
        .field("price")
        .and_where("price < 2")
        .or_where("price > 1000")
        .or_where_eq("title", &quote("Harry Potter and the Philosopher's Stone"))
        .or_where_ne("price", "100")
        .or_where_like("title", "Alice's")
        .or_where_not_like_any("LOWER(title)", " the ")
        .or_where_is_null("title")
        .or_where_is_not_null("price")
        .sql()
        .unwrap();

    assert_eq!(
        &sql,
        "SELECT title, price FROM books WHERE price < 2 OR price > 1000 OR title = 'Harry Potter and the Philosopher''s Stone' OR price <> 100 OR title LIKE 'Alice''s' OR LOWER(title) NOT LIKE '% the %' OR title IS NULL OR price IS NOT NULL;"
    );
}

#[test]
fn test_order_harry_potter_by_price() {
    let sql = Sqlite3Builder::select_from("books")
        .field("title")
        .field("price")
        .and_where_like_left("title", "Harry Potter")
        .order_by("price", false)
        .sql()
        .unwrap();

    assert_eq!(
        &sql,
        "SELECT title, price FROM books WHERE title LIKE 'Harry Potter%' ORDER BY price;"
    );

    let sql = Sqlite3Builder::select_from("books")
        .field("title")
        .field("price")
        .and_where_like_left("title", "Harry Potter")
        .order_desc("price")
        .sql()
        .unwrap();

    assert_eq!(
        &sql,
        "SELECT title, price FROM books WHERE title LIKE 'Harry Potter%' ORDER BY price DESC;"
    );

    let sql = Sqlite3Builder::select_from("books")
        .field("title")
        .field("price")
        .and_where_like_left("title", "Harry Potter")
        .order_desc("price")
        .order_asc("title")
        .sql()
        .unwrap();

    assert_eq!(&sql, "SELECT title, price FROM books WHERE title LIKE 'Harry Potter%' ORDER BY price DESC, title;");
}

#[test]
fn test_find_cheap_or_harry_potter() {
    let append = Sqlite3Builder::select_from("books")
        .field("title")
        .field("price")
        .and_where("price < 100")
        .order_asc("title")
        .query()
        .unwrap();

    let sql = Sqlite3Builder::select_from("books")
        .field("title")
        .field("price")
        .and_where_like_left("title", "Harry Potter")
        .order_desc("price")
        .union(&append)
        .sql()
        .unwrap();

    assert_eq!(
        "SELECT title, price FROM books WHERE title LIKE 'Harry Potter%' UNION SELECT title, price FROM books WHERE price < 100 ORDER BY title;",
        &sql
    );

    let append = Sqlite3Builder::select_values(&["'The Great Gatsby'", "124"])
        .query_values()
        .unwrap();

    let sql = Sqlite3Builder::select_from("books")
        .field("title")
        .field("price")
        .and_where_like_left("title", "Harry Potter")
        .order_desc("price")
        .union_all(&append)
        .sql()
        .unwrap();

    assert_eq!(
        "SELECT title, price FROM books WHERE title LIKE 'Harry Potter%' UNION ALL SELECT 'The Great Gatsby', 124;",
        &sql
    );
}

#[test]
fn test_select_first_3_harry_potter_books() {
    let sql = Sqlite3Builder::select_from("books")
        .field("title")
        .field("price")
        .and_where_like_left("title", "Harry Potter")
        .order_asc("title")
        .limit(3)
        .sql()
        .unwrap();

    assert_eq!(&sql, "SELECT title, price FROM books WHERE title LIKE 'Harry Potter%' ORDER BY title LIMIT 3;");
}

#[test]
fn test_select_harry_potter_from_second_book() {
    let sql = Sqlite3Builder::select_from("books")
        .field("title")
        .field("price")
        .and_where_like_left("title", "Harry Potter")
        .order_asc("title")
        .offset(2)
        .sql()
        .unwrap();

    assert_eq!(&sql, "SELECT title, price FROM books WHERE title LIKE 'Harry Potter%' ORDER BY title OFFSET 2;");

    let sql = Sqlite3Builder::select_from("books")
        .field("title")
        .field("price")
        .and_where_like_left("title", "Harry Potter")
        .order_asc("title")
        .limit(3)
        .offset(2)
        .sql()
        .unwrap();

    assert_eq!(&sql, "SELECT title, price FROM books WHERE title LIKE 'Harry Potter%' ORDER BY title LIMIT 3 OFFSET 2;");
}

#[test]
fn test_find_books_not_about_alice() {
    let sql = Sqlite3Builder::select_from("books")
        .field("title")
        .and_where_not_like_any("title", "Alice's")
        .sql()
        .unwrap();

    assert_eq!(
        "SELECT title FROM books WHERE title NOT LIKE '%Alice''s%';",
        &sql
    );
}

#[test]
fn test_books_without_price() {
    let sql = Sqlite3Builder::select_from("books")
        .field("title")
        .and_where_is_null("price")
        .sql()
        .unwrap();

    assert_eq!(&sql, "SELECT title FROM books WHERE price IS NULL;");

    let sql = Sqlite3Builder::select_from("books")
        .field("title")
        .and_where_is_not_null("price")
        .sql()
        .unwrap();

    assert_eq!(&sql, "SELECT title FROM books WHERE price IS NOT NULL;");
}

#[test]
fn test_group_books_by_price() {
    let sql = Sqlite3Builder::select_from("books")
        .field("price")
        .field("COUNT(price) AS cnt")
        .group_by("price")
        .order_desc("cnt")
        .sql()
        .unwrap();

    assert_eq!(
        &sql,
        "SELECT price, COUNT(price) AS cnt FROM books GROUP BY price ORDER BY cnt DESC;"
    );

    let sql = Sqlite3Builder::select_from("books")
        .field("price")
        .field("COUNT(price) AS cnt")
        .group_by("price")
        .having("price > 100")
        .order_desc("cnt")
        .sql()
        .unwrap();

    assert_eq!(&sql, "SELECT price, COUNT(price) AS cnt FROM books GROUP BY price HAVING price > 100 ORDER BY cnt DESC;");
}

#[test]
fn test_group_books_by_price_category() {
    let cat = Sqlite3Builder::select_from("books")
        .field("CASE WHEN price < 100 THEN 'cheap' ELSE 'expensive' END AS category")
        .subquery()
        .unwrap();

    assert_eq!("(SELECT CASE WHEN price < 100 THEN 'cheap' ELSE 'expensive' END AS category FROM books)", &cat);

    let sql = Sqlite3Builder::select_from(&cat)
        .field("category")
        .field("COUNT(category) AS cnt")
        .group_by("category")
        .order_desc("cnt")
        .order_asc("category")
        .sql()
        .unwrap();

    assert_eq!("SELECT category, COUNT(category) AS cnt FROM (SELECT CASE WHEN price < 100 THEN 'cheap' ELSE 'expensive' END AS category FROM books) GROUP BY category ORDER BY cnt DESC, category;", &sql);

    let cat = Sqlite3Builder::select_from("books")
        .field("CASE WHEN price < 100 THEN 'cheap' ELSE 'expensive' END")
        .subquery_as("category")
        .unwrap();

    assert_eq!("(SELECT CASE WHEN price < 100 THEN 'cheap' ELSE 'expensive' END FROM books) AS category", &cat);

    let sql = Sqlite3Builder::select_from("books")
        .field("title")
        .field("price")
        .field(&cat)
        .sql()
        .unwrap();

    assert_eq!("SELECT title, price, (SELECT CASE WHEN price < 100 THEN 'cheap' ELSE 'expensive' END FROM books) AS category FROM books;", &sql);
}

#[test]
fn test_grow_price() {
    let sql = Sqlite3Builder::update_table("books")
        .set("price", "price + 10")
        .sql()
        .unwrap();

    assert_eq!(&sql, "UPDATE books SET price = price + 10;");

    let sql = Sqlite3Builder::update_table("books")
        .set("price", "price * 0.1")
        .and_where_like_left("title", "Harry Potter")
        .sql()
        .unwrap();

    assert_eq!(
        &sql,
        "UPDATE books SET price = price * 0.1 WHERE title LIKE 'Harry Potter%';"
    );
}

#[test]
fn test_add_new_books() {
    let sql = Sqlite3Builder::insert_into("books")
        .field("title")
        .field("price")
        .values(&[&quote("In Search of Lost Time"), &150.to_string()])
        .values(&["'Don Quixote', 200"])
        .sql()
        .unwrap();

    assert_eq!(&sql, "INSERT INTO books (title, price) VALUES ('In Search of Lost Time', 150), ('Don Quixote', 200);");
}

#[test]
fn test_add_books_from_warehouse() {
    let query = Sqlite3Builder::select_from("warehouse")
        .field("title")
        .field("preliminary_price * 2")
        .query()
        .unwrap();

    assert_eq!("SELECT title, preliminary_price * 2 FROM warehouse", &query);

    let sql = Sqlite3Builder::insert_into("books")
        .field("title")
        .field("price")
        .select(&query)
        .sql()
        .unwrap();

    assert_eq!(
        "INSERT INTO books (title, price) SELECT title, preliminary_price * 2 FROM warehouse;",
        &sql
    );
}

#[test]
fn test_sold_all_harry_potter() {
    let sql = Sqlite3Builder::update_table("books")
        .set("price", "0")
        .set("title", "'[SOLD!]' || title")
        .and_where_like_left("title", "Harry Potter")
        .sql()
        .unwrap();

    assert_eq!(&sql, "UPDATE books SET price = 0, title = '[SOLD!]' || title WHERE title LIKE 'Harry Potter%';");
}

#[test]
fn test_mark_as_not_distr() {
    let sql = Sqlite3Builder::update_table("books")
        .set_str("comment", "Don't distribute!")
        .and_where_le("price", "100")
        .sql()
        .unwrap();

    assert_eq!(
        "UPDATE books SET comment = 'Don''t distribute!' WHERE price <= 100;",
        &sql
    );
}

#[test]
fn test_remove_all_expensive_books() {
    let sql = Sqlite3Builder::delete_from("books")
        .and_where("price > 100")
        .sql()
        .unwrap();

    assert_eq!(&sql, "DELETE FROM books WHERE price > 100;");
}

#[test]
fn test_count_books_in_shops() {
    let sql = Sqlite3Builder::select_from("books AS b")
        .field("b.title")
        .field("s.total")
        .left_outer()
        .join("shops AS s")
        .on("b.id = s.book")
        .sql()
        .unwrap();

    assert_eq!(
        &sql,
        "SELECT b.title, s.total FROM books AS b LEFT OUTER JOIN shops AS s ON b.id = s.book;"
    );
}
