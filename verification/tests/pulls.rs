use auto_merge::error::RunError;
use auto_merge::json::parse;
use auto_merge::json::Json;
use auto_merge::pulls::candidate;
use auto_merge::pulls::candidates;
use auto_merge::pulls::list_pull_requests;
use auto_merge::pulls::report_found;
use auto_merge::pulls::Candidate;

fn found(number: u64, sha: &str, branch: &str) -> Candidate {
    Candidate {
        number,
        head_sha: sha.to_string(),
        head_ref: branch.to_string(),
        author_login: "dependabot[bot]".to_string(),
    }
}

#[test]
fn listing_yields_the_bots_pull_request() {
    let body =
        br#"[{"user":{"login":"dependabot[bot]"},"number":7,"head":{"sha":"abc123","ref":"deps/bump"}}]"#;
    let listed = list_pull_requests(body).unwrap();
    assert_eq!(listed, vec![found(7, "abc123", "deps/bump")]);
    assert_eq!(
        (listed[0].number, listed[0].head_sha.as_str(), listed[0].head_ref.as_str()),
        (7, "abc123", "deps/bump")
    );
}

#[test]
fn listing_fails_on_an_object_at_the_top_level() {
    let body = br#"{"message":"Not Found"}"#;
    assert_eq!(
        list_pull_requests(body),
        Err(RunError::UnexpectedResponse { payload: body.to_vec() })
    );
}

#[test]
fn listing_fails_on_every_top_level_that_is_no_array() {
    for body in [&b"null"[..], b"true", b"1", b"\"[]\"", b"{}"] {
        assert_eq!(
            list_pull_requests(body),
            Err(RunError::UnexpectedResponse { payload: body.to_vec() })
        );
    }
}

#[test]
fn listing_fails_on_a_body_that_is_no_json() {
    let body = b"<html>502</html>";
    assert_eq!(
        list_pull_requests(body),
        Err(RunError::UnexpectedResponse { payload: body.to_vec() })
    );
}

#[test]
fn listing_of_an_empty_array_is_empty() {
    assert_eq!(list_pull_requests(b"[]"), Ok(vec![]));
}

#[test]
fn listing_keeps_only_the_bot_and_keeps_the_order() {
    let body = br#"[
        {"user":{"login":"dependabot[bot]"},"number":3,"head":{"sha":"s3","ref":"r3"}},
        {"user":{"login":"alice"},"number":4,"head":{"sha":"s4","ref":"r4"}},
        {"user":{"login":"dependabot[bot]"},"number":1,"head":{"sha":"s1","ref":"r1"}},
        {"user":{"login":"dependabot"},"number":5,"head":{"sha":"s5","ref":"r5"}},
        {"user":{"login":"dependabot[bot]"},"number":2,"head":{"sha":"s2","ref":"r2"}}
    ]"#;
    assert_eq!(
        list_pull_requests(body),
        Ok(vec![found(3, "s3", "r3"), found(1, "s1", "r1"), found(2, "s2", "r2")])
    );
}

#[test]
fn listing_drops_entries_that_lack_a_field() {
    let body = br#"[
        {"user":{"login":"dependabot[bot]"},"head":{"sha":"s1","ref":"r1"}},
        {"user":{"login":"dependabot[bot]"},"number":2,"head":{"ref":"r2"}},
        {"user":{"login":"dependabot[bot]"},"number":3,"head":{"sha":"s3"}},
        {"user":{"login":"dependabot[bot]"},"number":4},
        {"number":5,"head":{"sha":"s5","ref":"r5"}},
        {"user":{"login":"dependabot[bot]"},"number":6,"head":{"sha":"s6","ref":"r6"}}
    ]"#;
    assert_eq!(list_pull_requests(body), Ok(vec![found(6, "s6", "r6")]));
}

#[test]
fn listing_drops_entries_whose_fields_have_another_type() {
    let body = br#"[
        {"user":{"login":"dependabot[bot]"},"number":"1","head":{"sha":"s","ref":"r"}},
        {"user":{"login":"dependabot[bot]"},"number":-1,"head":{"sha":"s","ref":"r"}},
        {"user":{"login":"dependabot[bot]"},"number":1.5,"head":{"sha":"s","ref":"r"}},
        {"user":{"login":"dependabot[bot]"},"number":1,"head":{"sha":1,"ref":"r"}},
        {"user":{"login":"dependabot[bot]"},"number":1,"head":{"sha":"s","ref":null}},
        {"user":{"login":["dependabot[bot]"]},"number":1,"head":{"sha":"s","ref":"r"}},
        {"user":"dependabot[bot]","number":1,"head":{"sha":"s","ref":"r"}},
        "dependabot[bot]",
        null,
        []
    ]"#;
    assert_eq!(list_pull_requests(body), Ok(vec![]));
}

#[test]
fn listing_keeps_a_number_above_32_bits_as_it_is() {
    let body =
        br#"[{"user":{"login":"dependabot[bot]"},"number":4294967303,"head":{"sha":"a","ref":"x"}}]"#;
    let listed = list_pull_requests(body).unwrap();
    assert_eq!(listed, vec![found(4294967303, "a", "x")]);
    assert_ne!(listed, vec![found(7, "a", "x")]);
}

#[test]
fn listing_keeps_every_number_that_fits_64_bits() {
    let body = br#"[
        {"user":{"login":"dependabot[bot]"},"number":4294967295,"head":{"sha":"a","ref":"b"}},
        {"user":{"login":"dependabot[bot]"},"number":4294967296,"head":{"sha":"c","ref":"d"}},
        {"user":{"login":"dependabot[bot]"},"number":18446744073709551615,"head":{"sha":"e","ref":"f"}},
        {"user":{"login":"dependabot[bot]"},"number":18446744073709551616,"head":{"sha":"i","ref":"j"}},
        {"user":{"login":"dependabot[bot]"},"number":0,"head":{"sha":"g","ref":"h"}}
    ]"#;
    assert_eq!(
        list_pull_requests(body),
        Ok(vec![
            found(4294967295, "a", "b"),
            found(4294967296, "c", "d"),
            found(18446744073709551615, "e", "f"),
            found(0, "g", "h")
        ])
    );
}

#[test]
fn candidate_reads_one_entry() {
    let entry = Json::Object(vec![
        ("number".to_string(), Json::Number(Some(12))),
        (
            "head".to_string(),
            Json::Object(vec![
                ("ref".to_string(), Json::Text("deps/x".to_string())),
                ("sha".to_string(), Json::Text("0123abcd".to_string())),
            ]),
        ),
        (
            "user".to_string(),
            Json::Object(vec![("login".to_string(), Json::Text("dependabot[bot]".to_string()))]),
        ),
    ]);
    assert_eq!(candidate(&entry), Some(found(12, "0123abcd", "deps/x")));
}

#[test]
fn candidate_passes_over_another_author() {
    let entry = parse(br#"{"user":{"login":"bob"},"number":1,"head":{"sha":"s","ref":"r"}}"#)
        .unwrap();
    assert_eq!(candidate(&entry), None);
}

#[test]
fn candidates_needs_an_array() {
    assert_eq!(candidates(&Json::Null), None);
    assert_eq!(candidates(&Json::Object(vec![])), None);
    assert_eq!(candidates(&Json::Array(vec![])), Some(vec![]));
    assert_eq!(candidates(&Json::Array(vec![Json::Null, Json::Bool(true)])), Some(vec![]));
}

#[test]
fn candidates_of_two_stretches_are_those_of_each_in_turn() {
    let first = br#"[{"user":{"login":"dependabot[bot]"},"number":1,"head":{"sha":"a","ref":"b"}},{"x":1}]"#;
    let second = br#"[{"user":{"login":"dependabot[bot]"},"number":2,"head":{"sha":"c","ref":"d"}}]"#;
    let both = br#"[{"user":{"login":"dependabot[bot]"},"number":1,"head":{"sha":"a","ref":"b"}},{"x":1},{"user":{"login":"dependabot[bot]"},"number":2,"head":{"sha":"c","ref":"d"}}]"#;
    let mut joined = list_pull_requests(first).unwrap();
    joined.extend(list_pull_requests(second).unwrap());
    assert_eq!(list_pull_requests(both).unwrap(), joined);
}

#[test]
fn a_candidate_found_is_reported_with_its_number_and_branch() {
    assert_eq!(found(7, "abc123", "deps/bump").line(), "found: #7 deps/bump");
    assert_eq!(found(0, "", "").line(), "found: #0 ");
    assert_eq!(found(4294967303, "a", "x").line(), "found: #4294967303 x");
}

#[test]
fn every_candidate_found_is_reported_in_order() {
    let listed = vec![found(3, "s3", "r3"), found(1, "s1", "r1"), found(2, "s2", "r2")];
    assert_eq!(
        report_found(&listed),
        vec!["found: #3 r3".to_string(), "found: #1 r1".to_string(), "found: #2 r2".to_string()]
    );
    assert_eq!(report_found(&vec![]), Vec::<String>::new());
}
