use rpw::command::{arg_map, Command};
use rpw::config::Config;
use rpw::string_map::StringMap;

fn strings(list: &[&str]) -> Vec<String> {
    list.iter().map(|s| s.to_string()).collect()
}

fn sorted_pairs(map: &StringMap) -> Vec<(String, String)> {
    let mut pairs = map.pairs();
    pairs.sort();
    pairs
}

#[test]
fn arg_map_pairs_each_argument_with_the_next() {
    let am = arg_map(&strings(&["--vault", "work", "--alias", "mail"]));
    assert_eq!(sorted_pairs(&am), vec![
        ("--alias".to_string(), "mail".to_string()),
        ("--vault".to_string(), "work".to_string()),
        ("work".to_string(), "--alias".to_string()),
    ]);
    assert_eq!(am.get(&"--vault".to_string()), Some(&"work".to_string()));
    assert_eq!(am.get(&"mail".to_string()), None);
}

#[test]
fn arg_map_of_short_lists_is_empty() {
    assert!(arg_map(&[]).is_empty());
    assert!(arg_map(&strings(&["only"])).is_empty());
    assert_eq!(sorted_pairs(&arg_map(&strings(&["a", "b"]))), vec![(
        "a".to_string(),
        "b".to_string()
    )]);
}

#[test]
fn arg_map_later_pair_wins() {
    let am = arg_map(&strings(&["k", "1", "k", "2"]));
    assert_eq!(am.get(&"k".to_string()), Some(&"2".to_string()));
    assert_eq!(am.get(&"1".to_string()), Some(&"k".to_string()));
    assert_eq!(am.pairs().len(), 2);
}

#[test]
fn require_reads_a_present_argument() {
    let am = arg_map(&strings(&["--sec", "12", "--name", "x"]));
    let mut cmd = Command::new("clear");
    assert!(cmd.is_ok());
    assert_eq!(cmd.require::<u64>("--sec", &am).unwrap(), 12);
    assert_eq!(cmd.require::<String>("--name", &am).unwrap(), "x");
    assert!(cmd.is_ok());
    assert_eq!(cmd.usage(), "Error command 'clear'\n ");
}

#[test]
fn require_notes_a_missing_argument() {
    let am = arg_map(&strings(&["--sec", "12"]));
    let mut cmd = Command::new("get");
    let err = cmd.require::<String>("--vault", &am).unwrap_err();
    assert_eq!(err.arg(), "--vault");
    assert_eq!(err.value(), "None");
    assert_eq!(err.message(), "Failed to parse argument '--vault'\n from 'None'");
    assert!(!cmd.is_ok());
    assert_eq!(cmd.usage(), "Error command 'get'\n  \tMissing required argument '--vault'\n");
    let _ = cmd.require::<String>("--alias", &am);
    assert_eq!(
        cmd.usage(),
        "Error command 'get'\n  \tMissing required argument '--vault'\n \tMissing required argument '--alias'\n"
    );
}

#[test]
fn require_notes_an_argument_of_the_wrong_kind() {
    let am = arg_map(&strings(&["--sec", "soon"]));
    let mut cmd = Command::new("clear");
    let err = cmd.require::<u64>("--sec", &am).unwrap_err();
    assert_eq!(err.arg(), "--sec");
    assert_eq!(err.value(), "None");
    assert!(!cmd.is_ok());
}

#[test]
fn note_passes_its_argument_through() {
    let mut cmd = Command::new("c");
    assert_eq!(cmd.note::<u8>("k", Ok(3)).unwrap(), 3);
    assert!(cmd.is_ok());
    let am = StringMap::new();
    let miss = Command::new("other").require::<u8>("k", &am);
    let err = cmd.note::<u8>("k", miss).unwrap_err();
    assert_eq!(err.arg(), "k");
    assert!(!cmd.is_ok());
}

#[test]
fn default_takes_the_value_given_where_the_argument_fails() {
    let am = arg_map(&strings(&["--sec", "7", "--bad", "x"]));
    let mut cmd = Command::new("clear");
    assert_eq!(cmd.default::<u64>("--sec", &am, 5), 7);
    assert!(cmd.is_ok());
    assert_eq!(cmd.default::<u64>("--none", &am, 5), 5);
    assert!(!cmd.is_ok());
    assert_eq!(cmd.default::<u64>("--bad", &am, 9), 9);
}

#[test]
fn hidden_reads_what_was_typed() {
    let mut cmd = Command::new("open");
    assert_eq!(cmd.hidden::<String>("--password", "hunter2").unwrap(), "hunter2");
    assert!(cmd.is_ok());
    let err = cmd.hidden::<u32>("--count", "many").unwrap_err();
    assert_eq!(err.arg(), "--count");
    assert_eq!(err.value(), "many");
    assert!(!cmd.is_ok());
    assert_eq!(cmd.usage(), "Error command 'open'\n ");
}

#[test]
fn typed_settles_a_reading() {
    let mut cmd = Command::new("open");
    assert_eq!(cmd.typed::<u8>("k", "4", Some(4)).unwrap(), 4);
    assert!(cmd.is_ok());
    let err = cmd.typed::<u8>("k", "x", None).unwrap_err();
    assert_eq!(err.value(), "x");
    assert!(!cmd.is_ok());
}

#[test]
fn config_starts_with_five_seconds() {
    assert_eq!(Config::new().clear_copy_timeout, 5);
    assert_eq!(Config::default().clear_copy_timeout, 5);
}

#[test]
fn string_map_upserts() {
    let mut m = StringMap::new();
    assert!(m.is_empty());
    assert!(!m.insert("a".to_string(), "1".to_string()));
    assert!(m.insert("a".to_string(), "2".to_string()));
    assert!(!m.insert("b".to_string(), "3".to_string()));
    assert!(!m.is_empty());
    assert!(m.contains_key(&"a".to_string()));
    assert!(!m.contains_key(&"c".to_string()));
    assert_eq!(m.get(&"a".to_string()), Some(&"2".to_string()));
    assert_eq!(m.get(&"c".to_string()), None);
    assert_eq!(sorted_pairs(&m), vec![
        ("a".to_string(), "2".to_string()),
        ("b".to_string(), "3".to_string()),
    ]);
}
