use std::collections::HashMap;

use dotlinks::document::{Document, Item};
use dotlinks::failure::{ErrorKind, Failure, Reason};
use dotlinks::manager::Manager;
use dotlinks::parse::parse;
use dotlinks::reconcile::{advance, conclude, End, Goal, Operation, Reply, State};

const HOME: &str = "/home/u";

const TEXT: &str = r#"
title = "My dotfiles"
src_dir = "/repo"
dst_dir = "/home/u"

[shell]
".bashrc" = "bashrc"

[editor]
".vimrc" = "~/external/vimrc"
"#;

fn home() -> Option<String> {
    Some(String::from(HOME))
}

fn found(path: &str) -> Option<String> {
    Some(String::from(path))
}

fn store(text: &str, dry_run: bool) -> Manager {
    Manager::new(text, dry_run, home(), found("/repo"), found("/home/u")).unwrap()
}

#[derive(Clone, Debug, PartialEq)]
enum Node {
    Symlink(String),
    File(Vec<u8>),
}

type Tree = HashMap<String, Node>;

fn perform(tree: &mut Tree, op: Operation, source: &str, destination: &str) -> Reply {
    match op {
        Operation::Create => {
            if tree.contains_key(destination) {
                Reply::Exists
            } else {
                tree.insert(destination.to_string(), Node::Symlink(source.to_string()));
                Reply::Done
            }
        }
        Operation::Inspect => match tree.get(destination) {
            None => Reply::Missing,
            Some(Node::Symlink(_)) => Reply::Symlink,
            Some(_) => Reply::NotSymlink,
        },
        Operation::Remove => match tree.remove(destination) {
            None => Reply::Missing,
            Some(_) => Reply::Done,
        },
    }
}

fn reconcile(tree: &mut Tree, manager: &Manager, goal: Goal, source: &str, destination: &str) -> Result<End, Failure> {
    let mut state = manager.begin(goal);
    loop {
        match state.request() {
            Some(op) => {
                let reply = perform(tree, op, source, destination);
                state = advance(goal, state, reply);
            }
            None => match state {
                State::Finished(end) => return conclude(end, destination),
                _ => unreachable!(),
            },
        }
    }
}

fn deploy(tree: &mut Tree, manager: &Manager, config: &str) -> Result<Vec<Result<End, Failure>>, Failure> {
    let plans = manager.deploy_config(config)?;
    Ok(plans
        .into_iter()
        .map(|plan| plan.and_then(|link| reconcile(tree, manager, Goal::Link, &link.source, &link.destination)))
        .collect())
}

fn clean(tree: &mut Tree, manager: &Manager, config: &str) -> Result<Vec<Result<End, Failure>>, Failure> {
    let plans = manager.clean_config(config)?;
    Ok(plans
        .into_iter()
        .map(|plan| plan.and_then(|destination| reconcile(tree, manager, Goal::Unlink, "", &destination)))
        .collect())
}

#[test]
fn deploy_creates_the_link_of_the_entry() {
    let manager = store(TEXT, false);
    let mut tree = Tree::new();
    let results = deploy(&mut tree, &manager, "shell").unwrap();
    assert_eq!(results.len(), 1);
    assert_eq!(*results[0].as_ref().unwrap(), End::Linked);
    assert_eq!(tree.len(), 1);
    assert_eq!(tree.get("/home/u/.bashrc"), Some(&Node::Symlink(String::from("/repo/bashrc"))));
}

#[test]
fn home_relative_source_ignores_the_source_root() {
    let manager = store(TEXT, false);
    let plans = manager.deploy_config("editor").unwrap();
    assert_eq!(plans.len(), 1);
    let link = plans[0].as_ref().unwrap();
    assert_eq!(link.source, "/home/u/external/vimrc");
    assert_eq!(link.destination, "/home/u/.vimrc");
}

#[test]
fn deploy_of_an_unknown_config_fails_and_changes_nothing() {
    let manager = store(TEXT, false);
    let mut tree = Tree::new();
    tree.insert(String::from("/home/u/.bashrc"), Node::File(b"mine".to_vec()));
    let before = tree.clone();
    let failure = deploy(&mut tree, &manager, "nonexistent").unwrap_err();
    assert_eq!(failure.kind(), ErrorKind::NotFound);
    assert_eq!(failure.reason, Reason::UnknownConfig);
    assert_eq!(failure.path, "nonexistent");
    assert_eq!(tree, before);
}

#[test]
fn deploy_of_a_key_that_is_no_table_fails() {
    let manager = store(TEXT, false);
    let failure = manager.deploy_config("title").unwrap_err();
    assert_eq!(failure.kind(), ErrorKind::NotFound);
    assert_eq!(failure.reason, Reason::NotATable);
    let failure = manager.clean_config("src_dir").unwrap_err();
    assert_eq!(failure.reason, Reason::NotATable);
    assert_eq!(failure.path, "src_dir");
}

#[test]
fn deploy_twice_replaces_the_link() {
    let manager = store(TEXT, false);
    let mut tree = Tree::new();
    deploy(&mut tree, &manager, "shell").unwrap();
    let once = tree.clone();
    let results = deploy(&mut tree, &manager, "shell").unwrap();
    assert_eq!(*results[0].as_ref().unwrap(), End::Replaced);
    assert_eq!(tree, once);
}

#[test]
fn deploy_does_not_clobber_a_regular_file() {
    let manager = store(TEXT, false);
    let mut tree = Tree::new();
    tree.insert(String::from("/home/u/.bashrc"), Node::File(b"mine".to_vec()));
    let results = deploy(&mut tree, &manager, "shell").unwrap();
    let failure = results[0].as_ref().unwrap_err();
    assert_eq!(failure.kind(), ErrorKind::Conflict);
    assert_eq!(failure.path, "/home/u/.bashrc");
    assert_eq!(tree.get("/home/u/.bashrc"), Some(&Node::File(b"mine".to_vec())));
}

#[test]
fn one_failing_entry_does_not_hold_up_the_others() {
    let text = "[mixed]\na = 1\nb = \"~/b\"\nc = \"c\"\n\"~/d\" = \"d\"\ne = \"e\"\n";
    let manager = Manager::new(text, false, None, None, None).unwrap();
    let plans = manager.deploy_config("mixed").unwrap();
    assert_eq!(plans.len(), 5);
    let mut seen = Vec::new();
    for plan in &plans {
        match plan {
            Ok(link) => seen.push(format!("{} -> {}", link.destination, link.source)),
            Err(failure) => seen.push(format!("{}: {:?}", failure.path, failure.reason)),
        }
    }
    seen.sort();
    assert_eq!(seen, vec!["a: SourceNotString", "c -> c", "e -> e", "~/b: HomeUnset", "~/d: HomeUnset"]);

    let mut tree = Tree::new();
    tree.insert(String::from("c"), Node::File(b"in the way".to_vec()));
    let results = deploy(&mut tree, &manager, "mixed").unwrap();
    assert_eq!(results.len(), 5);
    assert_eq!(results.iter().filter(|r| r.is_ok()).count(), 1);
    assert_eq!(tree.get("e"), Some(&Node::Symlink(String::from("e"))));
    assert_eq!(tree.get("c"), Some(&Node::File(b"in the way".to_vec())));
}

#[test]
fn source_that_is_no_string_is_a_config_error() {
    let manager = Manager::new("[c]\na = 1\n", false, home(), None, None).unwrap();
    let plans = manager.deploy_config("c").unwrap();
    let failure = plans[0].as_ref().unwrap_err();
    assert_eq!(failure.kind(), ErrorKind::Config);
    assert_eq!(failure.reason, Reason::SourceNotString);
    assert_eq!(failure.path, "a");
}

#[test]
fn destination_is_resolved_before_the_source_is_looked_at() {
    let manager = Manager::new("[c]\n\"~/a\" = 1\n", false, None, None, None).unwrap();
    let plans = manager.deploy_config("c").unwrap();
    let failure = plans[0].as_ref().unwrap_err();
    assert_eq!(failure.reason, Reason::HomeUnset);
    assert_eq!(failure.path, "~/a");
}

#[test]
fn clean_removes_the_links_and_ignores_the_sources() {
    let text = "dst_dir = \"/home/u\"\n[c]\na = 1\nb = \"~/b\"\n";
    let manager = Manager::new(text, false, None, None, found("/home/u")).unwrap();
    let plans = manager.clean_config("c").unwrap();
    let mut destinations: Vec<String> = plans.into_iter().map(|plan| plan.unwrap()).collect();
    destinations.sort();
    assert_eq!(destinations, vec!["/home/u/a", "/home/u/b"]);

    let mut tree = Tree::new();
    tree.insert(String::from("/home/u/a"), Node::Symlink(String::from("/repo/a")));
    tree.insert(String::from("/home/u/other"), Node::Symlink(String::from("/repo/other")));
    let mut ends: Vec<End> = clean(&mut tree, &manager, "c").unwrap().into_iter().map(|r| r.unwrap()).collect();
    ends.sort_by_key(|end| format!("{:?}", end));
    assert_eq!(ends, vec![End::Absent, End::Removed]);
    assert_eq!(tree.len(), 1);
    assert!(tree.contains_key("/home/u/other"));
}

#[test]
fn clean_does_not_remove_a_regular_file() {
    let manager = store(TEXT, false);
    let mut tree = Tree::new();
    tree.insert(String::from("/home/u/.bashrc"), Node::File(b"mine".to_vec()));
    let results = clean(&mut tree, &manager, "shell").unwrap();
    assert_eq!(results[0].as_ref().unwrap_err().kind(), ErrorKind::Conflict);
    assert_eq!(tree.get("/home/u/.bashrc"), Some(&Node::File(b"mine".to_vec())));
}

#[test]
fn clean_of_an_unknown_config_fails() {
    let failure = store(TEXT, false).clean_config("nonexistent").unwrap_err();
    assert_eq!(failure.reason, Reason::UnknownConfig);
    assert_eq!(failure.path, "nonexistent");
}

#[test]
fn dry_run_plans_and_touches_nothing() {
    let manager = store(TEXT, true);
    assert!(manager.dry_run());
    assert_eq!(manager.begin(Goal::Link), State::Finished(End::Planned));
    assert_eq!(manager.begin(Goal::Unlink), State::Finished(End::Planned));
    let mut tree = Tree::new();
    tree.insert(String::from("/home/u/.vimrc"), Node::Symlink(String::from("/old")));
    let before = tree.clone();
    for config in ["shell", "editor"] {
        let deployed = deploy(&mut tree, &manager, config).unwrap();
        assert_eq!(*deployed[0].as_ref().unwrap(), End::Planned);
        let cleaned = clean(&mut tree, &manager, config).unwrap();
        assert_eq!(*cleaned[0].as_ref().unwrap(), End::Planned);
    }
    assert_eq!(tree, before);
}

#[test]
fn without_dry_run_the_store_begins_with_an_operation() {
    let manager = store(TEXT, false);
    assert!(!manager.dry_run());
    assert_eq!(manager.begin(Goal::Link), State::Creating);
    assert_eq!(manager.begin(Goal::Unlink), State::Inspecting);
}

#[test]
fn new_keeps_the_roots_that_were_found() {
    let manager = Manager::new(TEXT, false, home(), found("/real/repo"), found("/real/home")).unwrap();
    assert_eq!(manager.src_dir(), "/real/repo");
    assert_eq!(manager.dst_dir(), "/real/home");
    assert_eq!(manager.home(), Some(HOME));
    assert_eq!(manager.title().unwrap(), "My dotfiles");
    let plans = manager.deploy_config("shell").unwrap();
    let link = plans[0].as_ref().unwrap();
    assert_eq!(link.source, "/real/repo/bashrc");
    assert_eq!(link.destination, "/real/home/.bashrc");
}

#[test]
fn new_without_declared_roots_keeps_empty_roots() {
    let manager = Manager::new("[shell]\n\".bashrc\" = \"bashrc\"\n", false, None, found("/ignored"), None).unwrap();
    assert_eq!(manager.src_dir(), "");
    assert_eq!(manager.dst_dir(), "");
    assert!(manager.title().is_none());
    let plans = manager.deploy_config("shell").unwrap();
    let link = plans[0].as_ref().unwrap();
    assert_eq!(link.source, "bashrc");
    assert_eq!(link.destination, ".bashrc");
}

#[test]
fn new_treats_a_root_that_is_no_string_as_undeclared() {
    let manager = Manager::new("src_dir = 5\n", false, None, None, None).unwrap();
    assert_eq!(manager.src_dir(), "");
}

#[test]
fn new_fails_on_malformed_text() {
    let failure = Manager::new("title = \"x", false, home(), None, None).unwrap_err();
    assert_eq!(failure.kind(), ErrorKind::Parse);
    assert_eq!(failure.reason, Reason::Malformed);
}

#[test]
fn new_fails_where_a_declared_root_was_not_found() {
    let failure = Manager::new(TEXT, false, home(), None, found("/home/u")).unwrap_err();
    assert_eq!(failure.kind(), ErrorKind::NotFound);
    assert_eq!(failure.reason, Reason::RootMissing);
    assert_eq!(failure.path, "/repo");
    let failure = Manager::new(TEXT, false, home(), found("/repo"), None).unwrap_err();
    assert_eq!(failure.reason, Reason::RootMissing);
    assert_eq!(failure.path, "/home/u");
}

#[test]
fn new_names_the_expanded_root_that_was_not_found() {
    let failure = Manager::new("dst_dir = \"~/dots\"\n", false, home(), None, None).unwrap_err();
    assert_eq!(failure.reason, Reason::RootMissing);
    assert_eq!(failure.path, "/home/u/dots");
}

#[test]
fn new_needs_home_only_where_a_root_uses_it() {
    let failure = Manager::new("src_dir = \"~/dots\"\n", false, None, found("/x"), None).unwrap_err();
    assert_eq!(failure.kind(), ErrorKind::NotFound);
    assert_eq!(failure.reason, Reason::HomeUnset);
    assert_eq!(failure.path, "~/dots");
    assert!(Manager::new(TEXT, false, None, found("/repo"), found("/home/u")).is_ok());
}

#[test]
fn root_requests_are_the_declared_roots_expanded() {
    let document = parse("src_dir = \"~/dots\"\ndst_dir = \"target\"\n").unwrap();
    let (src, dst) = Manager::root_requests(&document, Some(HOME)).unwrap();
    assert_eq!(src.unwrap(), "/home/u/dots");
    assert_eq!(dst.unwrap(), "target");
}

#[test]
fn root_requests_ask_for_nothing_that_is_not_declared() {
    let document = parse("title = \"t\"\n").unwrap();
    let (src, dst) = Manager::root_requests(&document, None).unwrap();
    assert!(src.is_none());
    assert!(dst.is_none());
}

#[test]
fn root_requests_fail_without_home() {
    let document = parse("dst_dir = \"~\"\n").unwrap();
    let failure = Manager::root_requests(&document, None).unwrap_err();
    assert_eq!(failure.reason, Reason::HomeUnset);
    assert_eq!(failure.path, "~");
}

#[test]
fn from_document_builds_the_same_store() {
    let document = Document {
        items: vec![
            (String::from("dst_dir"), Item::Text(String::from("/home/u"))),
            (String::from("shell"), Item::Table(vec![(String::from(".bashrc"), Some(String::from("bashrc")))])),
        ],
    };
    let manager = Manager::from_document(document, true, None, None, found("/home/u")).unwrap();
    assert_eq!(manager.list_entries(), vec!["shell"]);
    assert_eq!(manager.document().items.len(), 2);
    assert_eq!(manager.dst_dir(), "/home/u");
    assert!(manager.dry_run());
}

#[test]
fn list_entries_names_the_tables_only() {
    let mut names = store(TEXT, false).list_entries();
    names.sort();
    assert_eq!(names, vec!["editor", "shell"]);
    assert!(Manager::new("title = \"t\"\n", false, None, None, None).unwrap().list_entries().is_empty());
}

#[test]
fn full_path_uses_the_root_of_its_side() {
    let manager = store(TEXT, false);
    assert_eq!(manager.full_path("bashrc", true).unwrap(), "/repo/bashrc");
    assert_eq!(manager.full_path(".bashrc", false).unwrap(), "/home/u/.bashrc");
    assert_eq!(manager.full_path("~/x", true).unwrap(), "/home/u/x");
    assert_eq!(manager.full_path("~/x", false).unwrap(), "/home/u/x");
}

#[test]
fn full_path_fails_without_home() {
    let manager = Manager::new(TEXT, false, None, found("/repo"), found("/home/u")).unwrap();
    let failure = manager.full_path("~/x", true).unwrap_err();
    assert_eq!(failure.reason, Reason::HomeUnset);
    assert_eq!(manager.full_path("x", true).unwrap(), "/repo/x");
}

#[test]
fn print_full_config_lists_every_config() {
    let text = "[shell]\n\".bashrc\" = \"bashrc\"\n[editor]\n\".vimrc\" = \"~/external/vimrc\"\n\".broken\" = 7\n";
    let manager = Manager::new(text, false, home(), None, None).unwrap();
    let mut listings = manager.print_full_config();
    listings.sort_by(|a, b| a.name.cmp(&b.name));
    assert_eq!(listings.len(), 2);
    assert_eq!(listings[0].name, "editor");
    assert_eq!(listings[0].links.len(), 2);
    let mut lines = Vec::new();
    for link in &listings[0].links {
        match link {
            Ok(link) => lines.push(format!("{} -> {}", link.destination, link.source)),
            Err(failure) => lines.push(failure.message()),
        }
    }
    lines.sort();
    assert_eq!(lines, vec![".broken: not a string", ".vimrc -> /home/u/external/vimrc"]);
    assert_eq!(listings[1].name, "shell");
    assert_eq!(listings[1].links.len(), 1);
    let link = listings[1].links[0].as_ref().unwrap();
    assert_eq!(link.source, "bashrc");
    assert_eq!(link.destination, ".bashrc");
}

#[test]
fn print_full_config_agrees_with_deploy_config() {
    let manager = store(TEXT, false);
    for listing in manager.print_full_config() {
        let plans = manager.deploy_config(&listing.name).unwrap();
        assert_eq!(plans.len(), listing.links.len());
        for (plan, link) in plans.iter().zip(listing.links.iter()) {
            let plan = plan.as_ref().unwrap();
            let link = link.as_ref().unwrap();
            assert_eq!(plan.source, link.source);
            assert_eq!(plan.destination, link.destination);
        }
    }
}

#[test]
fn serialize_config_writes_a_document_of_its_own() {
    let manager = store(TEXT, false);
    let text = manager.serialize_config_to_string("shell");
    assert_eq!(
        text,
        "title = \"My dotfiles\"\nsrc_dir = \"/repo\"\ndst_dir = \"/home/u\"\n[shell]\n\".bashrc\" = \"bashrc\"\n"
    );
    let again = Manager::new(&text, false, home(), found("/repo"), found("/home/u")).unwrap();
    assert_eq!(again.list_entries(), vec!["shell"]);
    let plans = again.deploy_config("shell").unwrap();
    assert_eq!(plans[0].as_ref().unwrap().source, "/repo/bashrc");
}

#[test]
fn serialize_config_quotes_the_title() {
    let text = "title = 'say \"hi\"'\n[c]\nplain = \"p\"\n";
    let manager = Manager::new(text, false, None, None, None).unwrap();
    assert_eq!(manager.title().unwrap(), "say \"hi\"");
    let out = manager.serialize_config_to_string("c");
    assert!(out.starts_with("title = "));
    let first_line = out.lines().next().unwrap();
    assert_ne!(first_line, "title = say \"hi\"");
    let again = Manager::new(&out, false, None, found(""), found("")).unwrap();
    assert_eq!(again.title().unwrap(), "say \"hi\"");
    assert!(out.ends_with("[c]\nplain = \"p\"\n"));
}

#[test]
fn serialize_config_leaves_out_what_is_no_string() {
    let text = "title = \"t\"\n[c]\na = 1\nb = \"x\"\n";
    let manager = Manager::new(text, false, None, None, None).unwrap();
    assert_eq!(
        manager.serialize_config_to_string("c"),
        "title = \"t\"\nsrc_dir = \"\"\ndst_dir = \"\"\n[c]\nb = \"x\"\n"
    );
}

#[test]
fn serialize_config_is_empty_where_it_cannot_be_written() {
    let manager = store(TEXT, false);
    assert_eq!(manager.serialize_config_to_string("nonexistent"), "");
    assert_eq!(manager.serialize_config_to_string("title"), "");
    let untitled = Manager::new("[c]\na = \"b\"\n", false, None, None, None).unwrap();
    assert_eq!(untitled.serialize_config_to_string("c"), "");
}

#[test]
fn every_listed_config_can_be_deployed_and_nothing_else() {
    let manager = store("title = \"t\"\ncount = 3\n[a]\nx = \"y\"\n[b]\n[c]\nu = 1\nv = \"w\"\n", false);
    let names = manager.list_entries();
    assert_eq!(names.len(), 3);
    for name in &names {
        let links = manager.deploy_config(name).unwrap();
        let removals = manager.clean_config(name).unwrap();
        let entries = manager.document().config(name).unwrap();
        assert_eq!(links.len(), entries.len());
        assert_eq!(removals.len(), entries.len());
    }
    for other in ["title", "count", "x", "d", ""] {
        assert!(!names.iter().any(|name| name == other));
        assert!(manager.deploy_config(other).is_err());
        assert!(manager.clean_config(other).is_err());
    }
}
