use core::convert::TryFrom;
use core::str::FromStr;
use rename_rule::{ParseError, RenameRule};

fn table() -> Vec<(&'static str, RenameRule)> {
    vec![
        ("lowercase", RenameRule::LowerCase),
        ("UPPERCASE", RenameRule::UpperCase),
        ("PascalCase", RenameRule::PascalCase),
        ("camelCase", RenameRule::CamelCase),
        ("snake_case", RenameRule::SnakeCase),
        ("SCREAMING_SNAKE_CASE", RenameRule::ScreamingSnakeCase),
        ("kebab-case", RenameRule::KebabCase),
        ("SCREAMING-KEBAB-CASE", RenameRule::ScreamingKebabCase),
    ]
}

#[test]
fn test_from_rename_all_str_and_to_rename_all_str() {
    for (name, rule) in table().iter() {
        assert_eq!(&RenameRule::from_rename_all_str(name).unwrap(), rule);
        assert_eq!(&rule.to_rename_all_str(), name);
    }

    match RenameRule::from_rename_all_str("foo") {
        Ok(_) => panic!(""),
        Err(ParseError::Unknown(s)) => assert_eq!(s, "foo"),
    }
}

#[test]
fn test_impl_trait() {
    let (name, rule) = ("lowercase", RenameRule::LowerCase);
    assert_eq!(RenameRule::from_str(name).unwrap(), rule);
    assert_eq!(name.parse::<RenameRule>().unwrap(), rule);
    assert_eq!(RenameRule::try_from(name).unwrap(), rule);
    assert_eq!(rule.to_string(), name);
}

#[test]
fn test_parse_snake_and_kebab() {
    assert_eq!(
        RenameRule::from_rename_all_str("snake_case").unwrap(),
        RenameRule::SnakeCase
    );
    assert_eq!(
        RenameRule::from_rename_all_str("kebab-case").unwrap(),
        RenameRule::KebabCase
    );
}

#[test]
fn test_parse_empty_fails() {
    match RenameRule::from_rename_all_str("") {
        Ok(_) => panic!("the empty string is not a canonical label"),
        Err(ParseError::Unknown(s)) => assert_eq!(s, ""),
    }
}

#[test]
fn test_format_screaming_kebab_case() {
    assert_eq!(
        RenameRule::ScreamingKebabCase.to_rename_all_str(),
        "SCREAMING-KEBAB-CASE"
    );
}

#[test]
fn test_parse_and_format_pascal_case() {
    assert_eq!(
        RenameRule::from_rename_all_str("PascalCase").unwrap(),
        RenameRule::PascalCase
    );
    assert_eq!(RenameRule::PascalCase.to_rename_all_str(), "PascalCase");
}

#[test]
fn test_case_sensitive_no_fuzzy_match() {
    match RenameRule::from_rename_all_str("SNAKE_CASE") {
        Ok(_) => panic!("lookup must be case-sensitive"),
        Err(ParseError::Unknown(s)) => assert_eq!(s, "SNAKE_CASE"),
    }
}

#[test]
fn test_labels_and_rules_pairwise_distinct() {
    let rules = table();
    for i in 0..rules.len() {
        for j in 0..rules.len() {
            if i != j {
                assert_ne!(rules[i].0, rules[j].0);
                assert_ne!(rules[i].1, rules[j].1);
            }
        }
    }
}

#[test]
fn test_round_trip_both_directions() {
    for (name, rule) in table() {
        assert_eq!(
            RenameRule::from_rename_all_str(rule.to_rename_all_str()).unwrap(),
            rule
        );
        assert_eq!(
            RenameRule::from_rename_all_str(name)
                .unwrap()
                .to_rename_all_str(),
            name
        );
    }
}

#[test]
fn test_format_equals_label() {
    for (name, rule) in table() {
        assert_eq!(rule.to_string(), rule.to_rename_all_str());
        assert_eq!(rule.to_string(), name);
    }
}
