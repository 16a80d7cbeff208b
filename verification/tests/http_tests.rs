use p25rx::http::{cors_headers, plan, stream_header, HttpVersion, Method, Plan, Route, StatusCode};

fn v11() -> HttpVersion {
    HttpVersion::from_parts(1, 1)
}

#[test]
fn known_paths_name_their_routes() {
    assert_eq!(Route::try_from("/subscribe"), Ok(Route::Subscribe));
    assert_eq!(Route::try_from("/ctlfreq"), Ok(Route::CtlFreq));
}

#[test]
fn unknown_paths_are_not_found() {
    for path in ["", "/", "/subscribe/", "/Subscribe", "/ctlfreq2", "/ctlfre", "subscribe", "/anything"] {
        assert_eq!(Route::try_from(path), Err(StatusCode::NotFound));
    }
}

#[test]
fn get_subscribe_is_planned() {
    assert_eq!(plan(v11(), Method::Get, "/subscribe"), Ok(Plan::Subscribe));
}

#[test]
fn get_and_put_ctlfreq_are_planned() {
    assert_eq!(plan(v11(), Method::Get, "/ctlfreq"), Ok(Plan::GetCtlFreq));
    assert_eq!(plan(v11(), Method::Put, "/ctlfreq"), Ok(Plan::PutCtlFreq));
}

#[test]
fn options_is_answered_for_any_path() {
    assert_eq!(plan(v11(), Method::Options, "/anything"), Ok(Plan::Options));
    assert_eq!(plan(v11(), Method::Options, "/subscribe"), Ok(Plan::Options));
    assert_eq!(plan(v11(), Method::Options, ""), Ok(Plan::Options));
}

#[test]
fn other_versions_are_not_implemented() {
    assert_eq!(
        plan(HttpVersion::from_parts(1, 0), Method::Get, "/ctlfreq"),
        Err(StatusCode::NotImplemented)
    );
    assert_eq!(
        plan(HttpVersion::from_parts(2, 0), Method::Get, "/subscribe"),
        Err(StatusCode::NotImplemented)
    );
    assert_eq!(
        plan(HttpVersion::from_parts(1, 0), Method::Options, "/anything"),
        Err(StatusCode::NotImplemented)
    );
    assert_eq!(
        plan(HttpVersion::from_parts(0, 9), Method::Get, "/nowhere"),
        Err(StatusCode::NotImplemented)
    );
}

#[test]
fn unknown_paths_are_not_found_for_other_methods() {
    assert_eq!(plan(v11(), Method::Get, "/nowhere"), Err(StatusCode::NotFound));
    assert_eq!(plan(v11(), Method::Put, "/nowhere"), Err(StatusCode::NotFound));
    assert_eq!(plan(v11(), Method::Extension, "/nowhere"), Err(StatusCode::NotFound));
}

#[test]
fn methods_a_route_does_not_offer_are_not_allowed() {
    assert_eq!(plan(v11(), Method::Put, "/subscribe"), Err(StatusCode::MethodNotAllowed));
    assert_eq!(plan(v11(), Method::Post, "/subscribe"), Err(StatusCode::MethodNotAllowed));
    for method in [
        Method::Post,
        Method::Delete,
        Method::Head,
        Method::Trace,
        Method::Connect,
        Method::Patch,
        Method::Extension,
    ] {
        assert_eq!(plan(v11(), method, "/ctlfreq"), Err(StatusCode::MethodNotAllowed));
    }
}

#[test]
fn status_codes_have_their_numbers() {
    assert_eq!(StatusCode::Okay.code(), 200);
    assert_eq!(StatusCode::NotFound.code(), 404);
    assert_eq!(StatusCode::MethodNotAllowed.code(), 405);
    assert_eq!(StatusCode::TooManyRequests.code(), 429);
    assert_eq!(StatusCode::InternalServerError.code(), 500);
    assert_eq!(StatusCode::NotImplemented.code(), 501);
}

#[test]
fn header_lines_are_spelled_out() {
    assert_eq!(stream_header(), "Content-Type: text/event-stream");
    let (methods, headers) = cors_headers();
    assert_eq!(methods, "Access-Control-Allow-Methods: GET, PUT");
    assert_eq!(headers, "Access-Control-Allow-Headers: Content-Type");
}
