use fluvio_entry::util::parse_isolation;
use fluvio_entry::util::parse_key_val;
use fluvio_entry::util::CliError;
use fluvio_entry::util::Isolation;

#[test]
fn read_committed_has_four_spellings() {
    for word in ["read_committed", "ReadCommitted", "readCommitted", "readcommitted"] {
        assert_eq!(parse_isolation(word), Ok(Isolation::ReadCommitted));
    }
}

#[test]
fn read_uncommitted_has_four_spellings() {
    for word in ["read_uncommitted", "ReadUncommitted", "readUncommitted", "readuncommitted"] {
        assert_eq!(parse_isolation(word), Ok(Isolation::ReadUncommitted));
    }
}

#[test]
fn other_words_are_no_isolation() {
    assert_eq!(
        parse_isolation("serializable"),
        Err(
            "unrecognized isolation: serializable. Supported: read_committed (ReadCommitted), read_uncommitted (ReadUncommitted)"
                .to_string()
        )
    );
}

#[test]
fn isolation_spelling_is_exact() {
    assert!(parse_isolation("READ_COMMITTED").is_err());
    assert!(parse_isolation("read_committed ").is_err());
    assert!(parse_isolation("").is_err());
}

#[test]
fn key_val_splits_at_equals() {
    assert_eq!(parse_key_val("key=value").unwrap(), ("key".to_string(), "value".to_string()));
}

#[test]
fn key_val_splits_at_first_equals_only() {
    assert_eq!(parse_key_val("a=b=c").unwrap(), ("a".to_string(), "b=c".to_string()));
}

#[test]
fn key_val_allows_empty_key_and_empty_value() {
    assert_eq!(parse_key_val("=v").unwrap(), (String::new(), "v".to_string()));
    assert_eq!(parse_key_val("k=").unwrap(), ("k".to_string(), String::new()));
    assert_eq!(parse_key_val("=").unwrap(), (String::new(), String::new()));
}

#[test]
fn key_val_keeps_wide_characters() {
    assert_eq!(parse_key_val("clé=värde").unwrap(), ("clé".to_string(), "värde".to_string()));
}

#[test]
fn key_val_without_equals_is_refused() {
    match parse_key_val("novalue") {
        Err(CliError::InvalidArg(reason)) => {
            assert_eq!(reason, "invalid KEY=value: no `=` found in `novalue`")
        }
        other => panic!("unexpected result {:?}", other),
    }
}

#[test]
fn empty_key_val_is_refused() {
    match parse_key_val("") {
        Err(CliError::InvalidArg(reason)) => {
            assert_eq!(reason, "invalid KEY=value: no `=` found in ``")
        }
        other => panic!("unexpected result {:?}", other),
    }
}
