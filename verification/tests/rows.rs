use minisql::data_descriptor::{SelectFields, TableData, TableRowData};
use minisql::text_map::TextMap;

fn text(s: &str) -> String {
    s.to_string()
}

fn some(s: &str) -> Option<String> {
    Some(s.to_string())
}

fn owned(values: Vec<&Option<String>>) -> Vec<Option<String>> {
    values.into_iter().cloned().collect()
}

fn person(id: &str, name: Option<&str>) -> TableRowData {
    let mut row = TableRowData::new();
    row.insert(text("id"), some(id));
    row.insert(text("name"), name.map(text));
    row
}

#[test]
fn it_works() {
    let mut data = TableData::new();
    data.insert(text("1"), person("1", Some("ann")));
    data.insert(text("2"), person("2", None));
    let rows = data.find_all(SelectFields::WildCard);
    let result = rows[0].len() + rows[1].len();
    assert_eq!(result, 4);
}

#[test]
fn new_row_is_empty() {
    let row = TableRowData::new();
    assert!(row.get_wild_card().is_empty());
    assert!(row.get_named_fields(&Vec::new()).is_empty());
}

#[test]
fn row_keeps_the_order_of_its_columns() {
    let mut row = TableRowData::new();
    row.insert(text("b"), some("2"));
    row.insert(text("a"), some("1"));
    row.insert(text("c"), None);
    assert_eq!(owned(row.get_wild_card()), vec![some("2"), some("1"), None]);
}

#[test]
fn row_keeps_the_last_value_of_a_column() {
    let mut row = TableRowData::new();
    row.insert(text("a"), some("1"));
    row.insert(text("b"), some("2"));
    row.insert(text("a"), some("3"));
    assert_eq!(owned(row.get_wild_card()), vec![some("3"), some("2")]);
}

#[test]
fn named_fields_come_in_the_order_asked() {
    let mut row = TableRowData::new();
    row.insert(text("a"), some("1"));
    row.insert(text("b"), None);
    row.insert(text("c"), some("3"));
    let fields = vec![text("c"), text("a"), text("b"), text("c")];
    assert_eq!(owned(row.get_named_fields(&fields)), vec![some("3"), some("1"), None, some("3")]);
}

#[test]
fn new_row_store_is_empty() {
    let data = TableData::new();
    assert_eq!(data.len(), 0);
    assert!(data.find_all(SelectFields::WildCard).is_empty());
    assert!(data.find_all(SelectFields::NamedFields(vec![text("id")])).is_empty());
}

#[test]
fn row_store_reads_all_rows_in_their_order() {
    let mut data = TableData::new();
    data.insert(text("2"), person("2", Some("bob")));
    data.insert(text("1"), person("1", None));
    assert_eq!(data.len(), 2);
    let rows = data.find_all(SelectFields::WildCard);
    assert_eq!(rows.len(), 2);
    assert_eq!(owned(rows[0].clone()), vec![some("2"), some("bob")]);
    assert_eq!(owned(rows[1].clone()), vec![some("1"), None]);
}

#[test]
fn row_store_projects_named_fields() {
    let mut data = TableData::new();
    data.insert(text("1"), person("1", Some("ann")));
    data.insert(text("2"), person("2", Some("bob")));
    let rows = data.find_all(SelectFields::NamedFields(vec![text("name"), text("id")]));
    assert_eq!(owned(rows[0].clone()), vec![some("ann"), some("1")]);
    assert_eq!(owned(rows[1].clone()), vec![some("bob"), some("2")]);
}

#[test]
fn row_store_keeps_the_last_row_of_a_key() {
    let mut data = TableData::new();
    data.insert(text("1"), person("1", Some("ann")));
    data.insert(text("2"), person("2", Some("bob")));
    data.insert(text("1"), person("1", Some("eve")));
    assert_eq!(data.len(), 2);
    let rows = data.find_all(SelectFields::WildCard);
    assert_eq!(owned(rows[0].clone()), vec![some("1"), some("eve")]);
    assert_eq!(owned(rows[1].clone()), vec![some("2"), some("bob")]);
}

#[test]
fn row_store_takes_a_batch_in_order() {
    let mut data = TableData::new();
    data.insert(text("1"), person("1", Some("ann")));
    data.insert_all(vec![
        (text("2"), person("2", Some("bob"))),
        (text("1"), person("1", Some("eve"))),
        (text("2"), person("2", Some("dan"))),
    ]);
    let rows = data.find_all(SelectFields::WildCard);
    assert_eq!(rows.len(), 2);
    assert_eq!(owned(rows[0].clone()), vec![some("1"), some("eve")]);
    assert_eq!(owned(rows[1].clone()), vec![some("2"), some("dan")]);
}

#[test]
fn text_map_is_a_map_in_order() {
    let mut map: TextMap<u32> = TextMap::new();
    assert_eq!(map.len(), 0);
    assert!(!map.contains_key(&text("a")));
    assert_eq!(map.get(&text("a")), None);
    map.insert(text("b"), 2);
    map.insert(text("a"), 1);
    map.insert(text("b"), 3);
    assert_eq!(map.len(), 2);
    assert_eq!(map.position(&text("b")), Some(0));
    assert_eq!(map.position(&text("a")), Some(1));
    assert_eq!(map.position(&text("c")), None);
    assert_eq!(map.get(&text("b")), Some(&3));
    assert_eq!(map.get(&text("a")), Some(&1));
    assert_eq!(map.key_at(0), "b");
    assert_eq!(*map.value_at(1), 1);
    *map.value_at_mut(1) = 7;
    assert_eq!(map.get(&text("a")), Some(&7));
    assert!(map.contains_key(&text("a")));
}
