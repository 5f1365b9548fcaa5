use dotlinks::render::{lay_out, render};

#[test]
fn lay_out_puts_the_parts_in_their_places() {
    assert_eq!(
        lay_out("\"t\"", "/repo", "/home/u", "shell", "a = \"b\"\n"),
        "title = \"t\"\nsrc_dir = \"/repo\"\ndst_dir = \"/home/u\"\n[shell]\na = \"b\"\n"
    );
}

#[test]
fn lay_out_of_empty_parts_keeps_the_frame() {
    assert_eq!(lay_out("", "", "", "", ""), "title = \nsrc_dir = \"\"\ndst_dir = \"\"\n[]\n");
}

#[test]
fn render_writes_title_and_entries_as_toml() {
    let entries = vec![
        (String::from("b"), Some(String::from("second"))),
        (String::from("a"), Some(String::from("first"))),
    ];
    let text = render("my title", "/repo", "/home/u", "shell", &entries);
    assert!(text.starts_with("title = \"my title\"\nsrc_dir = \"/repo\"\ndst_dir = \"/home/u\"\n[shell]\n"));
    let table: toml::Table = text.parse().unwrap();
    assert_eq!(table["title"].as_str(), Some("my title"));
    assert_eq!(table["shell"]["a"].as_str(), Some("first"));
    assert_eq!(table["shell"]["b"].as_str(), Some("second"));
    assert_eq!(table["shell"].as_table().unwrap().len(), 2);
}

#[test]
fn render_escapes_what_toml_must_escape() {
    let entries = vec![(String::from("key with \"quotes\""), Some(String::from("line\nbreak")))];
    let text = render("a \\ b", "/repo", "/home/u", "c", &entries);
    let table: toml::Table = text.parse().unwrap();
    assert_eq!(table["title"].as_str(), Some("a \\ b"));
    assert_eq!(table["c"]["key with \"quotes\""].as_str(), Some("line\nbreak"));
}

#[test]
fn render_leaves_out_entries_without_a_string() {
    let entries = vec![
        (String::from("a"), None),
        (String::from("b"), Some(String::from("x"))),
        (String::from("c"), None),
    ];
    assert_eq!(
        render("t", "", "", "c", &entries),
        "title = \"t\"\nsrc_dir = \"\"\ndst_dir = \"\"\n[c]\nb = \"x\"\n"
    );
}

#[test]
fn render_of_no_entries_has_an_empty_table() {
    assert_eq!(render("t", "/s", "/d", "c", &Vec::new()), "title = \"t\"\nsrc_dir = \"/s\"\ndst_dir = \"/d\"\n[c]\n");
}
