use prompt_server::bearer::{bearer_token, strip_bearer};

#[test]
fn strips_the_scheme() {
    assert_eq!(strip_bearer("Bearer abc.def.ghi"), "abc.def.ghi");
}

#[test]
fn header_without_scheme_is_kept() {
    assert_eq!(strip_bearer("abc.def.ghi"), "abc.def.ghi");
    assert_eq!(strip_bearer(""), "");
    assert_eq!(strip_bearer("Bearer"), "Bearer");
}

#[test]
fn every_occurrence_is_removed() {
    assert_eq!(strip_bearer("Bearer Bearer x"), "x");
    assert_eq!(strip_bearer("xBearer y"), "xy");
    assert_eq!(strip_bearer("a Bearer b Bearer "), "a b ");
}

#[test]
fn occurrences_do_not_overlap() {
    assert_eq!(strip_bearer("BearerBearer  z"), "Bearer z");
    assert_eq!(strip_bearer("BearerBearer  z"), "BearerBearer  z".replace("Bearer ", ""));
}

#[test]
fn works_on_non_ascii_headers() {
    assert_eq!(strip_bearer("Bearer ü€x"), "ü€x");
    assert_eq!(strip_bearer("€Bearer ü"), "€ü");
}

#[test]
fn agrees_with_str_replace() {
    let headers = ["Bearer t", "BBearer t", "Bearer  t", "t Bearer", "Beare r t", "Bearer Bearer Bearer ", "ééBearer é"];
    for h in headers {
        assert_eq!(strip_bearer(h), h.replace("Bearer ", ""));
    }
}

#[test]
fn missing_header_has_no_token() {
    assert_eq!(bearer_token(None), None);
    assert_eq!(bearer_token(Some("Bearer tok")), Some("tok".to_string()));
}
