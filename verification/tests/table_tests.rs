use microcc::literal::{char_literal_value, parse_char_literal, parse_string_literal};
use microcc::error::CompileError;
use microcc::structs::FieldTable;
use microcc::symbols::{VarStorageType, VariableData};
use microcc::table::{str_eq, NameSet, Table};
use microcc::types::{Type, VariableType};

#[test]
fn table_records_the_last_value_of_a_name() {
    let mut t: Table<u32> = Table::new();
    assert_eq!(t.len(), 0);
    assert!(t.get("a").is_none());
    t.insert("a".to_string(), 1);
    t.insert("b".to_string(), 2);
    t.insert("a".to_string(), 3);
    assert_eq!(t.len(), 2);
    assert_eq!(t.get("a"), Some(&3));
    assert_eq!(t.get("b"), Some(&2));
    assert!(t.contains_key("b"));
    assert!(!t.contains_key("c"));
}

#[test]
fn table_remove_takes_one_name_out() {
    let mut t: Table<u32> = Table::new();
    for (i, n) in ["a", "b", "c", "d"].iter().enumerate() {
        t.insert(n.to_string(), i as u32);
    }
    assert_eq!(t.remove("b"), Some(1));
    assert_eq!(t.remove("b"), None);
    assert_eq!(t.len(), 3);
    assert_eq!(t.get("a"), Some(&0));
    assert_eq!(t.get("c"), Some(&2));
    assert_eq!(t.get("d"), Some(&3));
    assert_eq!(t.remove("d"), Some(3));
    assert_eq!(t.remove("a"), Some(0));
    assert_eq!(t.remove("c"), Some(2));
    assert_eq!(t.len(), 0);
}

#[test]
fn table_extend_prefers_the_new_entries() {
    let mut t: Table<u32> = Table::new();
    t.insert("a".to_string(), 1);
    t.insert("b".to_string(), 2);
    let mut more: Table<u32> = Table::new();
    more.insert("b".to_string(), 20);
    more.insert("c".to_string(), 30);
    t.extend(more);
    assert_eq!(t.len(), 3);
    assert_eq!(t.get("a"), Some(&1));
    assert_eq!(t.get("b"), Some(&20));
    assert_eq!(t.get("c"), Some(&30));
    let mut names = NameSet::new();
    names.insert("z".to_string());
    t.add_names_to(&mut names);
    for n in ["a", "b", "c", "z"] {
        assert!(names.contains(n));
    }
    assert!(!names.contains("d"));
}

#[test]
fn strings_are_compared_by_their_characters() {
    assert!(str_eq("", ""));
    assert!(str_eq("_GLOBAL", "_GLOBAL"));
    assert!(!str_eq("_GLOBAL", "_GLOBAl"));
    assert!(!str_eq("ab", "abc"));
    assert!(str_eq("h\u{e9}", "h\u{e9}"));
    assert!(!str_eq("h\u{e9}", "he"));
}

fn field(name: &str, offset: u32) -> VariableData {
    VariableData {
        name: name.to_string(),
        storage: VarStorageType::Local,
        var_type: VariableType::Regular { ty: Type::Int },
        offset,
        size: 1,
    }
}

#[test]
fn field_table_finds_fields_by_name() {
    let mut t = FieldTable::new();
    assert!(t.get("x").is_none());
    t.insert(field("x", 0));
    t.insert(field("y", 1));
    assert_eq!(t.get("x").unwrap().offset, 0);
    assert_eq!(t.get("y").unwrap().offset, 1);
    assert_eq!(t.get("y").unwrap().name, "y");
    assert!(t.get("z").is_none());
    t.insert(field("x", 5));
    assert_eq!(t.get("x").unwrap().offset, 5);
    assert_eq!(t.get("y").unwrap().offset, 1);
}

#[test]
fn the_value_of_a_character_literal() {
    assert_eq!(char_literal_value("a"), Ok(97));
    assert_eq!(char_literal_value("\\n"), Ok(10));
    assert_eq!(char_literal_value("\\t"), Ok(9));
    assert_eq!(char_literal_value("\u{20ac}"), Ok(0x20ac));
    assert_eq!(char_literal_value("\\"), Ok(92));
    assert_eq!(char_literal_value("\\x"), Err(CompileError::InvalidCharLiteral));
    assert_eq!(char_literal_value("nn"), Err(CompileError::InvalidCharLiteral));
    assert_eq!(char_literal_value(""), Err(CompileError::InvalidCharLiteral));
    assert_eq!(char_literal_value("abc"), Err(CompileError::InvalidCharLiteral));
}

#[test]
fn literals_lose_their_quotes() {
    assert_eq!(parse_string_literal("\"hi there\""), Ok("hi there".to_string()));
    assert_eq!(parse_string_literal("x = \"a\";"), Ok("a".to_string()));
    assert_eq!(parse_string_literal("\"a\" \"b\""), Ok("a\" \"b".to_string()));
    assert_eq!(parse_string_literal("\""), Err(CompileError::InvalidStringLiteral));
    assert_eq!(parse_string_literal("none"), Err(CompileError::InvalidStringLiteral));
    assert_eq!(parse_char_literal("'z'"), Ok(122));
    assert_eq!(parse_char_literal("'\\n'"), Ok(10));
    assert_eq!(parse_char_literal("'''"), Ok(39));
    assert_eq!(parse_char_literal("z"), Err(CompileError::InvalidCharLiteral));
    assert_eq!(parse_char_literal("'zz'"), Err(CompileError::InvalidCharLiteral));
}
