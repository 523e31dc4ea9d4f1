use ihft::data::Data;
use ihft::error::IhftError;
use ihft::lines::{parse_lines, render_lines};
use ihft::record::Record;
use ihft::store::{data_dir, store_path, Store};

fn strings(v: &[&str]) -> Vec<String> {
    v.iter().map(|s| s.to_string()).collect()
}

fn store(v: &[&str]) -> Store {
    Store::new("/tmp/x".to_string(), strings(v))
}

fn data(things: &[&str], hist: &[&str]) -> Data {
    Data::new(store(things), store(hist))
}

#[test]
fn parse_lines_plain() {
    assert_eq!(parse_lines("a\nb\n"), strings(&["a", "b"]));
}

#[test]
fn parse_lines_without_final_newline() {
    assert_eq!(parse_lines("a\nb"), strings(&["a", "b"]));
}

#[test]
fn parse_lines_crlf() {
    assert_eq!(parse_lines("a\r\nb c\r\n"), strings(&["a", "b c"]));
}

#[test]
fn parse_lines_keeps_lone_carriage_return_at_end() {
    assert_eq!(parse_lines("a\r"), strings(&["a\r"]));
}

#[test]
fn parse_lines_empty_text() {
    assert_eq!(parse_lines(""), Vec::<String>::new());
}

#[test]
fn parse_lines_empty_lines() {
    assert_eq!(parse_lines("\n\nx\n"), strings(&["", "", "x"]));
}

#[test]
fn parse_lines_matches_std_lines() {
    let text = "one\r\ntwo\n\nthree four\rfive\nsix";
    let expected: Vec<String> = text.lines().map(|l| l.to_string()).collect();
    assert_eq!(parse_lines(text), expected);
}

#[test]
fn render_lines_one_per_line() {
    assert_eq!(render_lines(&strings(&["a", "b c"])), "a\nb c\n");
    assert_eq!(render_lines(&Vec::new()), "");
}

#[test]
fn store_reload_after_operations() {
    let mut d = data(&[], &[]);
    d.add(Some("walk dog".to_string()));
    d.add(Some("read".to_string()));
    d.add(Some("read".to_string()));
    d.remove("walk dog".to_string()).unwrap();
    d.add(Some("swim".to_string()));
    let things = Store::from_text("p".to_string(), &d.things.contents());
    let hist = Store::from_text("q".to_string(), &d.hist.contents());
    assert_eq!(things.entries, d.things.entries);
    assert_eq!(hist.entries, d.hist.entries);
    assert_eq!(things.entries, strings(&["swim", "read", "read"]));
    assert_eq!(things.path, "p");
}

#[test]
fn add_then_remove_restores_things() {
    let mut d = data(&["a", "b"], &[]);
    assert!(d.add(Some("c".to_string())));
    assert_eq!(d.things.entries, strings(&["c", "a", "b"]));
    d.remove("c".to_string()).unwrap();
    assert_eq!(d.things.entries, strings(&["a", "b"]));
    assert_eq!(d.hist.entries, strings(&["remove c", "add c"]));
}

#[test]
fn add_nothing_or_empty_is_a_no_op() {
    let mut d = data(&["a"], &["add a"]);
    assert!(!d.add(None));
    assert!(!d.add(Some(String::new())));
    assert_eq!(d.things.entries, strings(&["a"]));
    assert_eq!(d.hist.entries, strings(&["add a"]));
}

#[test]
fn pick_single_entry() {
    let mut d = data(&["A"], &[]);
    let t = d.ihft().unwrap();
    assert_eq!(t, "A");
    assert!(d.things.entries.is_empty());
    assert_eq!(d.hist.entries, strings(&["remove A"]));
}

#[test]
fn pick_empty_store() {
    let mut d = data(&[], &["add x"]);
    let r = d.ihft();
    assert!(matches!(r, Err(IhftError::EmptyStore)));
    assert!(d.things.entries.is_empty());
    assert_eq!(d.hist.entries, strings(&["add x"]));
}

#[test]
fn pick_takes_one_of_the_entries() {
    let mut d = data(&["a", "b", "c"], &[]);
    let t = d.ihft().unwrap();
    assert!(["a", "b", "c"].contains(&t.as_str()));
    assert_eq!(d.things.entries.len(), 2);
    assert!(!d.things.entries.contains(&t));
    assert_eq!(d.hist.entries, vec![format!("remove {}", t)]);
}

#[test]
fn pick_chosen_removes_first_equal_entry() {
    let mut d = data(&["a", "b", "a"], &[]);
    let t = d.pick_chosen(Some(2)).unwrap();
    assert_eq!(t, "a");
    assert_eq!(d.things.entries, strings(&["b", "a"]));
    assert_eq!(d.hist.entries, strings(&["remove a"]));
}

#[test]
fn pick_chosen_without_choice() {
    let mut d = data(&[], &[]);
    assert!(matches!(d.pick_chosen(None), Err(IhftError::EmptyStore)));
    assert!(d.hist.entries.is_empty());
}

#[test]
fn undo_after_add() {
    let mut d = data(&[], &[]);
    d.add(Some("X".to_string()));
    d.undo().unwrap();
    assert!(d.things.entries.is_empty());
    assert!(d.hist.entries.is_empty());
}

#[test]
fn undo_after_remove() {
    let mut d = data(&["a", "X", "b"], &[]);
    d.remove("X".to_string()).unwrap();
    assert_eq!(d.things.entries, strings(&["a", "b"]));
    d.undo().unwrap();
    assert_eq!(d.things.entries, strings(&["X", "a", "b"]));
    assert!(d.hist.entries.is_empty());
}

#[test]
fn undo_with_empty_history() {
    let mut d = data(&["a"], &[]);
    assert!(matches!(d.undo(), Err(IhftError::NothingToUndo)));
    assert_eq!(d.things.entries, strings(&["a"]));
}

#[test]
fn undo_corrupt_history() {
    for line in ["add", "frob x", "", "adda x", "remove"] {
        let mut d = data(&["x"], &[line, "add x"]);
        assert!(matches!(d.undo(), Err(IhftError::CorruptHistory)));
        assert_eq!(d.things.entries, strings(&["x"]));
        assert_eq!(d.hist.entries, strings(&[line, "add x"]));
    }
}

#[test]
fn undo_add_of_missing_thing() {
    let mut d = data(&["a"], &["add b"]);
    let r = d.undo();
    assert!(matches!(r, Err(IhftError::NotFound(ref t)) if t == "b"));
    assert_eq!(d.things.entries, strings(&["a"]));
    assert_eq!(d.hist.entries, strings(&["add b"]));
}

#[test]
fn undo_thing_with_spaces() {
    let mut d = data(&["walk the dog"], &["add walk the dog"]);
    d.undo().unwrap();
    assert!(d.things.entries.is_empty());
}

#[test]
fn remove_missing_thing() {
    let mut d = data(&["a"], &["add a"]);
    let r = d.remove("z".to_string());
    assert!(matches!(r, Err(IhftError::NotFound(ref t)) if t == "z"));
    assert_eq!(d.things.entries, strings(&["a"]));
    assert_eq!(d.hist.entries, strings(&["add a"]));
}

#[test]
fn remove_takes_first_duplicate() {
    let mut s = store(&["b", "a", "c", "a"]);
    s.remove(&"a".to_string()).unwrap();
    assert_eq!(s.entries, strings(&["b", "c", "a"]));
}

#[test]
fn walk_dog_scenario() {
    let mut d = data(&[], &[]);
    d.add(Some("walk dog".to_string()));
    assert_eq!(d.things.entries, strings(&["walk dog"]));
    assert_eq!(d.hist.entries, strings(&["add walk dog"]));
    let t = d.ihft().unwrap();
    assert_eq!(t, "walk dog");
    assert!(d.things.entries.is_empty());
    assert_eq!(d.hist.entries, strings(&["remove walk dog", "add walk dog"]));
    d.undo().unwrap();
    assert_eq!(d.things.entries, strings(&["walk dog"]));
    assert_eq!(d.hist.entries, strings(&["add walk dog"]));
}

#[test]
fn list_things_and_empty() {
    assert_eq!(data(&["a", "b"], &[]).list(), strings(&["a", "b"]));
    assert_eq!(data(&[], &[]).list(), strings(&["No things stored"]));
}

#[test]
fn record_lines() {
    assert_eq!(Record::Added("walk dog".to_string()).to_line(), "add walk dog");
    assert_eq!(Record::Removed("x".to_string()).to_line(), "remove x");
    assert!(matches!(Record::parse("add walk dog"), Ok(Record::Added(ref t)) if t == "walk dog"));
    assert!(matches!(Record::parse("remove "), Ok(Record::Removed(ref t)) if t.is_empty()));
    assert!(matches!(Record::parse("remove add x"), Ok(Record::Removed(ref t)) if t == "add x"));
    assert!(matches!(Record::parse("undo x"), Err(IhftError::CorruptHistory)));
}

#[test]
fn error_messages() {
    assert_eq!(IhftError::NotFound("x y".to_string()).message(), "thing: 'x y' does not exist");
    assert_eq!(IhftError::EmptyStore.message(), "store empty");
    assert_eq!(IhftError::NothingToUndo.message(), "nothing to undo");
    assert_eq!(IhftError::CorruptHistory.message(), "hist file corrupted");
}

#[test]
fn paths() {
    let dir = data_dir("/home/u");
    assert_eq!(dir, "/home/u/.local/share/ihft");
    assert_eq!(store_path(&dir, "things"), "/home/u/.local/share/ihft/things");
}

#[test]
fn store_len_and_insert() {
    let mut s = store(&["b"]);
    s.insert(&"a".to_string());
    assert_eq!(s.entries, strings(&["a", "b"]));
    assert_eq!(s.len(), 2);
}
