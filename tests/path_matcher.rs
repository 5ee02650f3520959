use auth_lib::path_matcher::PathMatcher;

#[test]
fn path_matcher_should_match_wildcard() {
    let matcher = PathMatcher::new(vec!["/api/users/*", "/some-other/route"], false);

    assert!(matcher.matches("/api/users/231/edit"));
}

#[test]
fn path_matcher_should_match_any_path_that_is_not_in_list_when_excluded() {
    let matcher = PathMatcher::new(vec!["/some-other/route"], true);

    assert!(matcher.matches("/api/users/231/edit"));
}

#[test]
fn path_matcher_default_should_secure_any_but_login() {
    let matcher = PathMatcher::default();

    assert!(matcher.matches("/api/users/231/edit"));
    assert!(!matcher.matches("/login"));
}

#[test]
fn inclusion_wildcard_protects_only_listed_paths() {
    let matcher = PathMatcher::new(vec!["/api/users/*"], false);
    assert!(matcher.matches("/api/users/231/edit"));
    assert!(!matcher.matches("/api/other"));
}

#[test]
fn exclusion_protects_paths_not_listed() {
    let matcher = PathMatcher::new(vec!["/some-other/route"], true);
    assert!(matcher.matches("/api/users/231/edit"));
    assert!(!matcher.matches("/some-other/route"));
}

#[test]
fn empty_list_protects_all_when_excluding_and_nothing_when_including() {
    let excluding = PathMatcher::new(vec![], true);
    let including = PathMatcher::new(vec![], false);
    for path in ["/", "/login", "/api/users/1", ""] {
        assert!(excluding.matches(path));
        assert!(!including.matches(path));
    }
}

#[test]
fn default_public_set_covers_login_and_register_variants() {
    let matcher = PathMatcher::default();
    for path in ["/login", "/login?error=true", "/login-anything", "/login/mfa", "/register", "/register-error"] {
        assert!(!matcher.matches(path), "{} should be public", path);
    }
    for path in ["/", "/api/login", "/logout", "/regist", "/api/register"] {
        assert!(matcher.matches(path), "{} should be protected", path);
    }
}

#[test]
fn pattern_without_wildcard_matches_whole_path_only() {
    let matcher = PathMatcher::new(vec!["/api/test"], false);
    assert!(matcher.matches("/api/test"));
    assert!(!matcher.matches("/api/test/more"));
    assert!(!matcher.matches("/x/api/test"));
}

#[test]
fn dot_in_pattern_is_literal() {
    let matcher = PathMatcher::new(vec!["/web/index.html"], false);
    assert!(matcher.matches("/web/index.html"));
    assert!(!matcher.matches("/web/indexXhtml"));
}

#[test]
fn wildcard_in_the_middle_and_several_wildcards() {
    let matcher = PathMatcher::new(vec!["/api/*/edit", "/files/*/*.txt"], false);
    assert!(matcher.matches("/api/users/231/edit"));
    assert!(matcher.matches("/api//edit"));
    assert!(!matcher.matches("/api/users/231/view"));
    assert!(matcher.matches("/files/a/b/c.txt"));
    assert!(!matcher.matches("/files/a.txt"));
}

#[test]
fn encoded_characters_do_not_confuse_matching() {
    let matcher = PathMatcher::new(vec!["/a b/*"], false);
    assert!(matcher.matches("/a b/c"));
    assert!(!matcher.matches("/a%20b/c"));
    let star = PathMatcher::new(vec!["/x/*"], false);
    assert!(star.matches("/x/%2F"));
    assert!(star.matches("/x/*"));
}

#[test]
fn first_matching_pattern_decides_in_inclusion_mode() {
    let matcher = PathMatcher::new(vec!["/a/*", "/b/*"], false);
    assert!(matcher.matches("/b/1"));
    let excl = PathMatcher::new(vec!["/a/*", "/b/*"], true);
    assert!(!excl.matches("/b/1"));
    assert!(!excl.matches("/a/1"));
    assert!(excl.matches("/c/1"));
}
