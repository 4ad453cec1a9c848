use zeroclaw::allowlist::allowed;

fn pats(list: &[&str]) -> Vec<String> {
    list.iter().map(|s| s.to_string()).collect()
}

#[test]
fn empty_list_denies_everyone() {
    assert!(!allowed("+1234567890", &pats(&[])));
    assert!(!allowed("anyone@example.com", &pats(&[])));
}

#[test]
fn wildcard_allows_everyone() {
    let p = pats(&["*"]);
    assert!(allowed("+1234567890", &p));
    assert!(allowed("user@example.com", &p));
    assert!(allowed("anything at all", &p));
}

#[test]
fn exact_match_is_case_insensitive() {
    let p = pats(&["Allowed@Example.COM"]);
    assert!(allowed("allowed@example.com", &p));
    assert!(allowed("ALLOWED@EXAMPLE.COM", &p));
    assert!(!allowed("other@example.com", &p));
}

#[test]
fn domain_suffix_match_is_case_insensitive() {
    let p = pats(&["@corp.example.com"]);
    assert!(allowed("user_a@corp.example.com", &p));
    assert!(allowed("USER_B@Corp.Example.Com", &p));
    assert!(!allowed("user@example.com", &p));
    assert!(!allowed("user@corp.example.org", &p));
}

#[test]
fn any_pattern_in_the_list_suffices() {
    let p = pats(&["+111", "@corp.example.com", "ops@example.com"]);
    assert!(allowed("+111", &p));
    assert!(allowed("dev@corp.example.com", &p));
    assert!(allowed("ops@example.com", &p));
    assert!(!allowed("+222", &p));
}

#[test]
fn suffix_pattern_must_fit_inside_candidate() {
    let p = pats(&["@a-very-long-domain.example.com"]);
    assert!(!allowed("@x", &p));
    assert!(allowed("u@a-very-long-domain.example.com", &p));
}
