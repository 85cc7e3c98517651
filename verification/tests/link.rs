use imgur::{Exchange, Handle, Json, UploadInfo};

fn text(s: &str) -> Json {
    Json::Text(s.to_string())
}

fn object(members: Vec<(&str, Json)>) -> Json {
    Json::Object(
        members
            .into_iter()
            .map(|(key, member)| (key.to_string(), member))
            .collect(),
    )
}

fn info_of(doc: Json) -> UploadInfo {
    UploadInfo::from_parsed(String::new(), Ok(doc)).unwrap()
}

fn parsed(body: &str) -> UploadInfo {
    Handle::new("id".to_string())
        .upload(Exchange::Received(body.as_bytes().to_vec()))
        .unwrap()
}

#[test]
fn link_is_the_string_at_data_link() {
    let urls = ["https://i.imgur.com/abc123.png", "", "x", "not even a url \u{e9}"];
    for url in urls {
        let doc = object(vec![("data", object(vec![("link", text(url))]))]);
        assert_eq!(info_of(doc).link(), Some(url));
    }
}

#[test]
fn link_is_found_among_other_members() {
    let doc = object(vec![
        ("success", Json::Bool(true)),
        ("link", text("https://wrong.example/top-level")),
        (
            "data",
            object(vec![
                ("id", text("abc123")),
                ("data", object(vec![("link", text("https://wrong.example/nested"))])),
                ("link", text("https://i.imgur.com/abc123.png")),
            ]),
        ),
        ("status", Json::Number("200".to_string())),
    ]);
    assert_eq!(info_of(doc).link(), Some("https://i.imgur.com/abc123.png"));
}

#[test]
fn no_link_without_data() {
    assert_eq!(info_of(object(vec![])).link(), None);
    assert_eq!(info_of(object(vec![("link", text("https://x"))])).link(), None);
    assert_eq!(
        info_of(object(vec![("Data", object(vec![("link", text("https://x"))]))])).link(),
        None
    );
    assert_eq!(parsed(r#"{"success":true}"#).link(), None);
}

#[test]
fn no_link_where_the_document_is_no_object() {
    assert_eq!(info_of(Json::Null).link(), None);
    assert_eq!(info_of(Json::Bool(true)).link(), None);
    assert_eq!(info_of(Json::Number("1".to_string())).link(), None);
    assert_eq!(info_of(text("data")).link(), None);
    assert_eq!(
        info_of(Json::Array(vec![object(vec![(
            "data",
            object(vec![("link", text("https://x"))])
        )])]))
        .link(),
        None
    );
    assert_eq!(parsed(r#"[{"data":{"link":"https://x"}}]"#).link(), None);
}

#[test]
fn no_link_where_data_is_no_object() {
    let others = vec![
        Json::Null,
        Json::Bool(false),
        Json::Number("7".to_string()),
        text("link"),
        Json::Array(vec![text("link")]),
        Json::Array(vec![]),
    ];
    for data in others {
        assert_eq!(info_of(object(vec![("data", data)])).link(), None);
    }
    assert_eq!(parsed(r#"{"data":"https://i.imgur.com/abc123.png"}"#).link(), None);
    assert_eq!(parsed(r#"{"data":["link"]}"#).link(), None);
    assert_eq!(parsed(r#"{"data":null}"#).link(), None);
}

#[test]
fn no_link_where_data_has_none() {
    assert_eq!(info_of(object(vec![("data", object(vec![]))])).link(), None);
    assert_eq!(
        info_of(object(vec![("data", object(vec![("Link", text("https://x"))]))])).link(),
        None
    );
    assert_eq!(parsed(r#"{"data":{"id":"abc123"}}"#).link(), None);
}

#[test]
fn no_link_where_it_is_no_string() {
    let others = vec![
        Json::Null,
        Json::Bool(true),
        Json::Number("5".to_string()),
        Json::Array(vec![text("https://x")]),
        object(vec![("link", text("https://x"))]),
    ];
    for link in others {
        let doc = object(vec![("data", object(vec![("link", link)]))]);
        assert_eq!(info_of(doc).link(), None);
    }
    assert_eq!(parsed(r#"{"data":{"link":5}}"#).link(), None);
    assert_eq!(parsed(r#"{"data":{"link":null}}"#).link(), None);
    assert_eq!(parsed(r#"{"data":{"link":["https://x"]}}"#).link(), None);
}

#[test]
fn the_first_of_two_members_of_one_name_is_read() {
    let doc = object(vec![
        ("data", object(vec![("link", text("first")), ("link", text("second"))])),
        ("data", object(vec![("link", text("third"))])),
    ]);
    assert_eq!(info_of(doc).link(), Some("first"));
    let doc = object(vec![
        ("data", Json::Null),
        ("data", object(vec![("link", text("hidden"))])),
    ]);
    assert_eq!(info_of(doc).link(), None);
}

#[test]
fn link_can_be_asked_for_again() {
    let info = parsed(r#"{"data":{"link":"https://i.imgur.com/abc123.png"}}"#);
    assert_eq!(info.link(), Some("https://i.imgur.com/abc123.png"));
    assert_eq!(info.link(), Some("https://i.imgur.com/abc123.png"));
}
