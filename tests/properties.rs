use desktop_entry::parse;
use desktop_entry::{DesktopFile, EntryType, ParseError};

fn app_fields(f: &DesktopFile) -> &desktop_entry::ApplicationFields {
    match &f.entry.entry_type {
        EntryType::Application(fields) => fields,
        _ => panic!("not an application"),
    }
}

fn key_error(r: Result<DesktopFile, ParseError>) -> String {
    match r {
        Err(ParseError::KeyError { msg }) => msg,
        Err(e) => panic!("unexpected error {:?}", e),
        Ok(_) => panic!("parsed"),
    }
}

#[test]
fn minimal_valid_input() {
    let f = parse("[Desktop Entry]\nType=Application\nName=X\nExec=Y").unwrap();
    assert_eq!(f.entry.name.default, "X");
    assert_eq!(app_fields(&f).exec.as_ref().unwrap(), "Y");
    assert!(f.entry.name.variants.is_empty());
    assert_eq!(f.actions.len(), 0);
}

#[test]
fn parsing_twice_gives_equal_results() {
    let text = "[Desktop Entry]\nType=Application\nName=X\nName[de]=Y\nExec=Y\nCategories=A;B;\n[Desktop Action a]\nName=A";
    let a = parse(text).unwrap();
    let b = parse(text).unwrap();
    assert_eq!(a.entry.name.default, b.entry.name.default);
    assert_eq!(a.entry.name.variants.get("de"), b.entry.name.variants.get("de"));
    assert_eq!(app_fields(&a).exec, app_fields(&b).exec);
    assert_eq!(app_fields(&a).categories, app_fields(&b).categories);
    assert_eq!(a.actions.len(), b.actions.len());
    assert_eq!(
        a.actions.get("a").unwrap().name.default,
        b.actions.get("a").unwrap().name.default
    );
}

#[test]
fn locale_fallback() {
    let f = parse("[Desktop Entry]\nType=Application\nName=Default\nName[es]=Spanish\nName[fr]=French").unwrap();
    let name = &f.entry.name;
    assert_eq!(name.default, "Default");
    assert_eq!(name.variants.get("es").unwrap(), "Spanish");
    assert_eq!(name.variants.get("fr").unwrap(), "French");
    assert_eq!(name.get_variant("es"), "Spanish");
    assert_eq!(name.get_variant("fr"), "French");
    assert_eq!(name.get_variant("de"), "Default");
}

#[test]
fn locale_list_fallback() {
    let f = parse("[Desktop Entry]\nType=Application\nName=N\nKeywords=a;b;\nKeywords[es]=c;").unwrap();
    let k = app_fields(&f).keywords.as_ref().unwrap();
    assert_eq!(k.get_variant("es"), &["c".to_string()]);
    assert_eq!(k.get_variant("de"), &["a".to_string(), "b".to_string()]);
}

#[test]
fn list_trailing_separator() {
    let f = parse("[Desktop Entry]\nType=Application\nName=N\nCategories=A;B;").unwrap();
    assert_eq!(app_fields(&f).categories.as_ref().unwrap(), &vec!["A", "B"]);
    let f = parse("[Desktop Entry]\nType=Application\nName=N\nCategories=A;;B").unwrap();
    assert_eq!(app_fields(&f).categories.as_ref().unwrap(), &vec!["A", "", "B"]);
    let f = parse("[Desktop Entry]\nType=Application\nName=N\nCategories=A;;").unwrap();
    assert_eq!(app_fields(&f).categories.as_ref().unwrap(), &vec!["A", ""]);
    let f = parse("[Desktop Entry]\nType=Application\nName=N\nCategories=").unwrap();
    assert!(app_fields(&f).categories.as_ref().unwrap().is_empty());
}

#[test]
fn duplicate_key_cites_second_line() {
    let r = parse("[Desktop Entry]\nType=Application\nName=X\nExec=a\nExec=b");
    match r {
        Err(ParseError::RepetitiveKey { key, row, col }) => {
            assert_eq!(key, "Exec");
            assert_eq!(row, 5);
            assert_eq!(col, 0);
        }
        _ => panic!("expected a repeated key"),
    }
}

#[test]
fn duplicate_key_in_action() {
    let r = parse("[Desktop Entry]\nType=Application\nName=X\n[Desktop Action a]\nName=A\nExec=a\nExec=b");
    assert!(matches!(r, Err(ParseError::RepetitiveKey { row: 7, .. })));
}

#[test]
fn duplicate_locale_rejected() {
    let r = parse("[Desktop Entry]\nType=Application\nName=X\nName[de]=a\nName[de]=b");
    assert!(matches!(r, Err(ParseError::RepetitiveKey { row: 5, .. })));
    let r = parse("[Desktop Entry]\nType=Application\nType=Link\nName=X");
    assert!(matches!(r, Err(ParseError::RepetitiveKey { row: 3, .. })));
}

#[test]
fn action_before_entry_is_format_error() {
    let r = parse("[Desktop Action x]\nName=A\n[Desktop Entry]\nType=Application\nName=X");
    assert!(matches!(r, Err(ParseError::FormatError { row: 1, .. })));
}

#[test]
fn second_entry_is_repetitive() {
    let r = parse("[Desktop Entry]\nType=Application\nName=X\n[Desktop Entry]");
    assert!(matches!(r, Err(ParseError::RepetitiveEntry { row: 4, .. })));
    let r = parse("[Desktop Entry]\nType=Application\nName=X\n[Desktop Action a]\nName=A\n[Desktop Entry]");
    assert!(matches!(r, Err(ParseError::RepetitiveEntry { row: 6, .. })));
    let r = parse("[X-Vendor]\n[Desktop Entry]\nType=Application\nName=X");
    assert!(matches!(r, Err(ParseError::RepetitiveEntry { row: 2, .. })));
}

#[test]
fn repeated_action_name_rejected() {
    let r = parse("[Desktop Entry]\nType=Application\nName=X\n[Desktop Action a]\nName=A\n[Desktop Action a]\nName=B");
    assert!(matches!(r, Err(ParseError::RepetitiveEntry { row: 6, .. })));
}

#[test]
fn link_requires_url() {
    let r = parse("[Desktop Entry]\nType=Link\nName=L");
    assert_eq!(key_error(r), "URL required for Link");
    let f = parse("[Desktop Entry]\nType=Link\nName=L\nURL=https://example.com").unwrap();
    match f.entry.entry_type {
        EntryType::Link(l) => assert_eq!(l.url, "https://example.com"),
        _ => panic!("not a link"),
    }
}

#[test]
fn unknown_type_kept() {
    let f = parse("[Desktop Entry]\nType=SomeVendorType\nName=X").unwrap();
    match f.entry.entry_type {
        EntryType::Unknown(t) => assert_eq!(t, "SomeVendorType"),
        _ => panic!("not unknown"),
    }
}

#[test]
fn unknown_key_ignored() {
    let f = parse("[Desktop Entry]\nType=Application\nName=X\nX-Vendor-Key=1\nExec=e").unwrap();
    assert_eq!(f.entry.name.default, "X");
    assert_eq!(app_fields(&f).exec.as_ref().unwrap(), "e");
    let f = parse("[Desktop Entry]\nType=Application\nName=X\n[Desktop Action a]\nName=A\nX-Other=2").unwrap();
    assert_eq!(f.actions.get("a").unwrap().name.default, "A");
}

#[test]
fn only_comments_needs_type() {
    let r = parse("# a comment\n\n   \n  # another\n");
    assert_eq!(key_error(r), "type is required");
    let r = parse("");
    assert_eq!(key_error(r), "type is required");
    let r = parse("# a comment\nType=Application\n");
    assert_eq!(key_error(r), "name is required");
}

#[test]
fn defaults_required_for_localized_keys() {
    let r = parse("[Desktop Entry]\nType=Application\nName[de]=X");
    assert_eq!(key_error(r), "name is required");
    let r = parse("[Desktop Entry]\nType=Application\nName=X\nGenericName[de]=G");
    assert_eq!(key_error(r), "default value required for GenericName");
    let r = parse("[Desktop Entry]\nType=Application\nName=X\nComment[de]=C");
    assert_eq!(key_error(r), "default value required for Comment");
    let f = parse("[Desktop Entry]\nType=Application\nName=X\nKeywords[es]=a").unwrap();
    let k = app_fields(&f).keywords.as_ref().unwrap();
    assert!(k.default.is_empty());
    assert_eq!(k.variants.get("es").unwrap(), &vec!["a"]);
    assert_eq!(k.get_variant("de").len(), 0);
    let r = parse("[Desktop Entry]\nType=Application\nName=X\n[Desktop Action a]\nExec=e");
    assert_eq!(key_error(r), "name is required for action a");
    let r = parse("[Desktop Entry]\nType=Application\nName=X\n[Desktop Action a]\nName=A\n[Desktop Action b]\nName[de]=B\n[Desktop Action c]");
    assert_eq!(key_error(r), "name is required for action b");
}

#[test]
fn header_errors() {
    let r = parse("[Desktop [Entry]");
    match r {
        Err(ParseError::UnacceptableCharacter { ch, row, col, .. }) => {
            assert_eq!(ch, "[");
            assert_eq!(row, 1);
            assert_eq!(col, 9);
        }
        _ => panic!("expected an unacceptable character"),
    }
    let r = parse("[Desktop\u{7}Entry]");
    assert!(matches!(r, Err(ParseError::UnacceptableCharacter { row: 1, col: 8, .. })));
    let r = parse("\n[Desktop Entry]x");
    assert!(matches!(r, Err(ParseError::Syntax { row: 2, col: 14, .. })));
}

#[test]
fn key_syntax_errors() {
    let r = parse("[Desktop Entry]\nNa me=x");
    assert!(matches!(r, Err(ParseError::Syntax { row: 2, col: 3, .. })));
    let r = parse("[Desktop Entry]\n Na_me=x");
    assert!(matches!(r, Err(ParseError::Syntax { row: 2, col: 3, .. })));
    let r = parse("[Desktop Entry]\nName[de]x=y");
    assert!(matches!(r, Err(ParseError::Syntax { row: 2, col: 8, .. })));
    let r = parse("[Desktop Entry]\nType=Application\nName=X\nTerminal=yes");
    assert!(matches!(r, Err(ParseError::Syntax { row: 4, col: 0, .. })));
    let r = parse("[Desktop Entry]\nType=Application\nName=X\nTerminal=True");
    assert!(matches!(r, Err(ParseError::Syntax { row: 4, .. })));
}

#[test]
fn spaces_around_equals_and_indent() {
    let f = parse("[Desktop Entry]\n Type = Application\nName =   X  \nExec=a b").unwrap();
    assert_eq!(f.entry.name.default, "X");
    assert_eq!(app_fields(&f).exec.as_ref().unwrap(), "a b");
}

#[test]
fn other_groups_do_not_change_the_target() {
    let f = parse("[Desktop Entry]\nType=Application\nName=X\n[X-Vendor]\nExec=e").unwrap();
    assert_eq!(app_fields(&f).exec.as_ref().unwrap(), "e");
}

#[test]
fn fields_of_other_types_are_dropped() {
    let f = parse("[Desktop Entry]\nType=Directory\nName=D\nExec=e\nURL=u").unwrap();
    assert!(matches!(f.entry.entry_type, EntryType::Directory));
    let f = parse("[Desktop Entry]\nType=Link\nName=D\nExec=e\nURL=u").unwrap();
    assert!(matches!(f.entry.entry_type, EntryType::Link(_)));
}

#[test]
fn startup_wm_class_and_version() {
    let f = parse("[Desktop Entry]\nType=Application\nName=X\nStartupWMClass=cls\nVersion=1.5\nPath=/tmp\nTryExec=t").unwrap();
    let a = app_fields(&f);
    assert_eq!(a.startup_wm_class.as_ref().unwrap(), "cls");
    assert_eq!(a.path.as_ref().unwrap(), "/tmp");
    assert_eq!(a.try_exec.as_ref().unwrap(), "t");
    assert_eq!(f.entry.version.as_ref().unwrap(), "1.5");
}

#[test]
fn crlf_line_endings() {
    let f = parse("[Desktop Entry]\r\nType=Application\r\nName=X\r\n").unwrap();
    assert_eq!(f.entry.name.default, "X");
}

#[test]
fn entry_type_names() {
    assert_eq!(EntryType::from_name("Link").to_string(), "Link");
    assert!(matches!(EntryType::from_name("Application"), EntryType::Application(_)));
    assert!(matches!(EntryType::from_name("Directory"), EntryType::Directory));
    match EntryType::from_name("Vendor") {
        EntryType::Unknown(s) => assert_eq!(s, "Vendor"),
        _ => panic!("not unknown"),
    }
    assert_eq!(EntryType::from_name("Vendor").to_string(), "Unknown");
    assert_eq!(EntryType::Directory.to_string(), "Directory");
}

#[test]
fn entry_type_from_str() {
    let t: EntryType = "Link".parse().unwrap();
    assert!(matches!(t, EntryType::Link(_)));
    let t: EntryType = "X-Custom".parse().unwrap();
    assert!(matches!(t, EntryType::Unknown(ref s) if s == "X-Custom"));
}

#[test]
fn byte_columns_after_non_ascii() {
    let r = parse("[Désktop [Entry]");
    assert!(matches!(r, Err(ParseError::UnacceptableCharacter { row: 1, col: 10, .. })));
    let r = parse("[Desktop Entry]\nName[é]x=y");
    assert!(matches!(r, Err(ParseError::Syntax { row: 2, col: 8, .. })));
    let r = parse("[Desktop Entry]\nNäme=x");
    assert!(matches!(r, Err(ParseError::Syntax { row: 2, col: 1, .. })));
}

#[test]
fn locale_and_action_order() {
    let f = parse("[Desktop Entry]\nType=Application\nName=N\nName[fr]=F\nName[de]=D\nKeywords=k;\nKeywords[es]=e;\n[Desktop Action b]\nName=B\n[Desktop Action a]\nName=A").unwrap();
    assert_eq!(f.entry.name.locales, vec!["fr", "de"]);
    assert_eq!(f.action_names, vec!["b", "a"]);
    assert_eq!(app_fields(&f).keywords.as_ref().unwrap().locales, vec!["es"]);
    let icon = desktop_entry::IconString { content: "x".to_string() };
    assert_eq!(icon.clone().content, "x");
    assert!(format!("{:?}", icon).contains("x"));
}

#[test]
fn rejected_line_keeps_earlier_values() {
    let r = parse("[Desktop Entry]\nType=Application\nName=X\nName=Y");
    assert!(matches!(r, Err(ParseError::RepetitiveKey { row: 4, .. })));
}

#[test]
fn defaults_and_error_clone() {
    let f = DesktopFile::default();
    assert_eq!(f.entry.name.default, "");
    assert!(matches!(f.entry.entry_type, EntryType::Unknown(ref s) if s.is_empty()));
    assert_eq!(f.actions.len(), 0);
    assert!(f.action_names.is_empty());
    let a = desktop_entry::ApplicationFields::default();
    assert!(a.exec.is_none() && a.keywords.is_none());
    let e = parse("[Desktop Entry]\nType=Link\nName=L").err().unwrap();
    assert!(matches!(e.clone(), ParseError::KeyError { ref msg } if msg == "URL required for Link"));
}
