use widget_overlay::localhost::{
    asset_segments, content_type_response, resolve_request_path, Builder, Request, Response,
};

#[test]
fn request_carries_its_url() {
    let request = Request::new(String::from("/widgets/clock/index.html"));
    assert_eq!(request.url(), "/widgets/clock/index.html");
}

#[test]
fn response_headers_accumulate_last_wins() {
    let mut response = Response::new();
    response.add_header(String::from("Content-Type"), String::from("text/plain"));
    response.add_header(String::from("Cache-Control"), String::from("no-store"));
    response.add_header(String::from("Content-Type"), String::from("text/html"));

    let headers = response.header_list();
    let last_content_type = headers
        .iter()
        .rev()
        .find(|(name, _)| name == "Content-Type")
        .map(|(_, value)| value.as_str());
    assert_eq!(last_content_type, Some("text/html"));
    assert!(headers.iter().any(|(name, value)| name == "Cache-Control" && value == "no-store"));
}

#[test]
fn builder_holds_port_and_host() {
    let builder = Builder::new(8080);
    assert_eq!(builder.port(), 8080);
    assert_eq!(builder.host_or_default(), "localhost");

    let bound = Builder::new(9090).host(String::from("127.0.0.1"));
    assert_eq!(bound.port(), 9090);
    assert_eq!(bound.host_or_default(), "127.0.0.1");
}

#[test]
fn request_paths_drop_query_and_fragment() {
    assert_eq!(resolve_request_path("/clock/index.html?v=1"), "/clock/index.html");
    assert_eq!(resolve_request_path("/a/b"), "/a/b");
    // A target that is no URI at all is served as given.
    assert_eq!(resolve_request_path("no spaces allowed"), "no spaces allowed");
}

#[test]
fn paths_split_into_segments() {
    assert_eq!(
        asset_segments("/clock/index.html"),
        vec![String::new(), String::from("clock"), String::from("index.html")]
    );
    assert_eq!(
        asset_segments("a//b"),
        vec![String::from("a"), String::new(), String::from("b")]
    );
    assert_eq!(asset_segments(""), vec![String::new()]);
    assert_eq!(asset_segments("plain"), vec![String::from("plain")]);
}

#[test]
fn content_type_is_guessed_from_the_extension() {
    let response = content_type_response("clock/index.html");
    let headers = response.header_list();
    assert_eq!(headers.len(), 1);
    assert_eq!(headers[0].0, "Content-Type");
    assert_eq!(headers[0].1, "text/html");

    let response = content_type_response("data.bin.weird");
    let headers = response.header_list();
    assert_eq!(headers[0].1, "application/octet-stream");
}
