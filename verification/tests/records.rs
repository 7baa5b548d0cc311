use product_service::error::RequestError;
use product_service::json::{append_decimal, render_fields, render_listing, render_product};
use product_service::product::{map_rows, sort_by_id, Cell, Product, Row};

fn product(id: i32, name: &str, price: Option<i32>) -> Product {
    Product { id, name: name.to_string(), price }
}

fn cells(cells: Vec<Cell>) -> Row {
    Row { cells }
}

fn text(s: &str) -> Cell {
    Cell::Text(s.to_string())
}

fn decimal(n: i32) -> String {
    let mut out = String::from("x");
    append_decimal(&mut out, n);
    out
}

#[test]
fn row_becomes_a_product() {
    let row = cells(vec![Cell::Integer(7), text("Lamp"), Cell::Integer(4500)]);
    assert_eq!(Product::from_row(&row), Ok(product(7, "Lamp", Some(4500))));
    let row = cells(vec![Cell::Integer(-1), text(""), Cell::Null]);
    assert_eq!(Product::from_row(&row), Ok(product(-1, "", None)));
}

#[test]
fn row_at_the_limits_of_32_bits() {
    let row = cells(vec![Cell::Integer(2147483647), text("max"), Cell::Integer(-2147483648)]);
    assert_eq!(Product::from_row(&row), Ok(product(i32::MAX, "max", Some(i32::MIN))));
    let row = cells(vec![Cell::Integer(2147483648), text("over"), Cell::Null]);
    assert_eq!(Product::from_row(&row), Err(RequestError::MappingFailed));
    let row = cells(vec![Cell::Integer(-2147483649), text("under"), Cell::Null]);
    assert_eq!(Product::from_row(&row), Err(RequestError::MappingFailed));
    let row = cells(vec![Cell::Integer(1), text("price over"), Cell::Integer(2147483648)]);
    assert_eq!(Product::from_row(&row), Err(RequestError::MappingFailed));
    let row = cells(vec![Cell::Integer(1), text("price under"), Cell::Integer(i64::MIN)]);
    assert_eq!(Product::from_row(&row), Err(RequestError::MappingFailed));
}

#[test]
fn row_of_another_shape_does_not_map() {
    let bad = [
        vec![],
        vec![Cell::Integer(1)],
        vec![Cell::Integer(1), text("a")],
        vec![Cell::Integer(1), text("a"), Cell::Null, Cell::Null],
        vec![Cell::Null, text("a"), Cell::Null],
        vec![text("1"), text("a"), Cell::Null],
        vec![Cell::Integer(1), Cell::Null, Cell::Null],
        vec![Cell::Integer(1), Cell::Integer(2), Cell::Null],
        vec![Cell::Integer(1), text("a"), text("3")],
        vec![text("a"), Cell::Integer(1), Cell::Null],
    ];
    for row in bad {
        assert_eq!(Product::from_row(&cells(row.clone())), Err(RequestError::MappingFailed), "{row:?}");
    }
}

#[test]
fn rows_map_in_their_order() {
    let rows = vec![
        cells(vec![Cell::Integer(2), text("b"), Cell::Null]),
        cells(vec![Cell::Integer(1), text("a"), Cell::Integer(1)]),
    ];
    assert_eq!(map_rows(&rows), Ok(vec![product(2, "b", None), product(1, "a", Some(1))]));
    assert_eq!(map_rows(&vec![]), Ok(vec![]));
}

#[test]
fn rows_map_all_or_none() {
    let good = cells(vec![Cell::Integer(1), text("a"), Cell::Null]);
    let bad = cells(vec![Cell::Integer(1), text("a")]);
    assert_eq!(map_rows(&vec![bad.clone(), good.clone()]), Err(RequestError::MappingFailed));
    assert_eq!(map_rows(&vec![good.clone(), bad.clone()]), Err(RequestError::MappingFailed));
    assert_eq!(map_rows(&vec![good.clone(), good.clone(), bad]), Err(RequestError::MappingFailed));
}

#[test]
fn sort_orders_by_identifier() {
    let given = vec![product(5, "e", None), product(-3, "m", None), product(9, "i", None), product(0, "z", None)];
    let ids: Vec<i32> = sort_by_id(given).iter().map(|p| p.id).collect();
    assert_eq!(ids, vec![-3, 0, 5, 9]);
    assert_eq!(sort_by_id(vec![]), vec![]);
    assert_eq!(sort_by_id(vec![product(1, "a", None)]), vec![product(1, "a", None)]);
}

#[test]
fn sort_keeps_what_it_was_given() {
    let given = vec![product(3, "c", Some(30)), product(1, "a", None), product(2, "b", Some(20))];
    assert_eq!(
        sort_by_id(given),
        vec![product(1, "a", None), product(2, "b", Some(20)), product(3, "c", Some(30))]
    );
}

#[test]
fn sort_is_stable() {
    let given = vec![
        product(2, "first two", None),
        product(1, "first one", None),
        product(2, "second two", None),
        product(1, "second one", None),
        product(2, "third two", None),
    ];
    let names: Vec<String> = sort_by_id(given).into_iter().map(|p| p.name).collect();
    assert_eq!(names, vec!["first one", "second one", "first two", "second two", "third two"]);
}

#[test]
fn sort_leaves_an_ordered_sequence_alone() {
    let given: Vec<Product> = (0..20).map(|i| product(i, "p", None)).collect();
    assert_eq!(sort_by_id(given.clone()), given);
    let mut reversed = given.clone();
    reversed.reverse();
    assert_eq!(sort_by_id(reversed), given);
}

#[test]
fn decimal_of_integers() {
    assert_eq!(decimal(0), "x0");
    assert_eq!(decimal(7), "x7");
    assert_eq!(decimal(10), "x10");
    assert_eq!(decimal(1234567890), "x1234567890");
    assert_eq!(decimal(-1), "x-1");
    assert_eq!(decimal(-908), "x-908");
    assert_eq!(decimal(i32::MAX), "x2147483647");
    assert_eq!(decimal(i32::MIN), "x-2147483648");
    for n in [-100000, -99, -10, -9, 9, 99, 100, 101, 65535, 1000000] {
        assert_eq!(decimal(n), format!("x{n}"));
    }
}

#[test]
fn fields_are_framed_as_an_object() {
    assert_eq!(render_fields(1, "\"Shoes\"", Some(1200)), "{\"id\":1,\"name\":\"Shoes\",\"price\":1200}");
    assert_eq!(render_fields(-4, "\"\"", None), "{\"id\":-4,\"name\":\"\",\"price\":null}");
    assert_eq!(render_fields(0, "anything", Some(-1)), "{\"id\":0,\"name\":anything,\"price\":-1}");
}

#[test]
fn name_is_written_as_a_json_string() {
    assert_eq!(render_product(&product(1, "Hat", None)), "{\"id\":1,\"name\":\"Hat\",\"price\":null}");
    assert_eq!(
        render_product(&product(2, "6\" nail \\ tab\there", Some(3))),
        "{\"id\":2,\"name\":\"6\\\" nail \\\\ tab\\there\",\"price\":3}"
    );
    assert_eq!(
        render_product(&product(3, "line\nbreak \u{1} caf\u{e9} \u{2603}", None)),
        "{\"id\":3,\"name\":\"line\\nbreak \\u0001 caf\u{e9} \u{2603}\",\"price\":null}"
    );
}

#[test]
fn product_text_agrees_with_serde_json() {
    for name in ["", "plain", "with \"quotes\"", "\\", "\u{0}\u{1f}\u{7f}", "\r\n\t\u{8}\u{c}", "/slash", "\u{1F600}"] {
        let rendered = render_product(&product(42, name, Some(-17)));
        let parsed: serde_json::Value = serde_json::from_str(&rendered).unwrap();
        assert_eq!(parsed["id"].as_i64(), Some(42));
        assert_eq!(parsed["name"].as_str(), Some(name));
        assert_eq!(parsed["price"].as_i64(), Some(-17));
        let mut expected = serde_json::Map::new();
        expected.insert("id".to_string(), serde_json::Value::from(42));
        expected.insert("name".to_string(), serde_json::Value::from(name));
        expected.insert("price".to_string(), serde_json::Value::from(-17));
        assert_eq!(parsed, serde_json::Value::Object(expected));
    }
}

#[test]
fn listing_is_an_array_in_the_given_order() {
    assert_eq!(render_listing(&vec![]), "[]");
    assert_eq!(render_listing(&vec![product(1, "a", None)]), "[{\"id\":1,\"name\":\"a\",\"price\":null}]");
    assert_eq!(
        render_listing(&vec![product(2, "b", Some(2)), product(1, "a", None), product(3, "c", Some(0))]),
        "[{\"id\":2,\"name\":\"b\",\"price\":2},{\"id\":1,\"name\":\"a\",\"price\":null},{\"id\":3,\"name\":\"c\",\"price\":0}]"
    );
}
