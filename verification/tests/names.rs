use camino_tempfile::util::tmpname;

#[test]
fn name_has_prefix_random_part_and_suffix() {
    let name = tmpname("pre-", ".txt", 8);
    assert_eq!(name.chars().count(), 4 + 8 + 4);
    assert!(name.starts_with("pre-"));
    assert!(name.ends_with(".txt"));
    assert!(name[4..12].chars().all(|c| c.is_ascii_alphanumeric()));
}

#[test]
fn name_without_random_part_is_prefix_and_suffix() {
    assert_eq!(tmpname("fixed", ".lock", 0), "fixed.lock");
    assert_eq!(tmpname("", "", 0), "");
}

#[test]
fn name_of_random_characters_only() {
    let name = tmpname("", "", 64);
    assert_eq!(name.len(), 64);
    assert!(name.chars().all(|c| c.is_ascii_alphanumeric()));
}

#[test]
fn name_keeps_non_ascii_prefix_and_suffix() {
    let name = tmpname("présent-", "-fin✓", 5);
    assert_eq!(name.chars().count(), 8 + 5 + 5);
    assert!(name.starts_with("présent-"));
    assert!(name.ends_with("-fin✓"));
    let middle: String = name.chars().skip(8).take(5).collect();
    assert!(middle.chars().all(|c| c.is_ascii_alphanumeric()));
}

#[test]
fn long_random_names_differ() {
    let first = tmpname(".tmp", "", 32);
    let second = tmpname(".tmp", "", 32);
    assert_ne!(first, second);
}

#[test]
fn random_part_draws_letters_of_both_cases_and_digits() {
    let name = tmpname("", "", 4096);
    assert!(name.chars().any(|c| c.is_ascii_lowercase()));
    assert!(name.chars().any(|c| c.is_ascii_uppercase()));
    assert!(name.chars().any(|c| c.is_ascii_digit()));
}
