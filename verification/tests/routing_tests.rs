use article_proxy::response::serve_404;
use article_proxy::routing::{route_of, server_address, Method, Route};

fn expect_static(route: Route, path: &str, content_type: &str) {
    match route {
        Route::StaticAsset {
            file_path,
            content_type: ct,
        } => {
            assert_eq!(file_path, path);
            assert_eq!(ct, content_type);
        }
        _ => panic!("expected a static asset route"),
    }
}

#[test]
fn get_root_serves_index() {
    let route = route_of(&Method::Get, "/");
    expect_static(route, "index.html", "text/html; charset=utf-8");
}

#[test]
fn get_main_css_serves_stylesheet() {
    let route = route_of(&Method::Get, "/main.css");
    expect_static(route, "main.css", "text/css; charset=utf-8");
}

#[test]
fn post_a_serves_article() {
    assert!(matches!(route_of(&Method::Post, "/a"), Route::Article));
}

#[test]
fn unmatched_pairs_fall_through() {
    assert!(matches!(route_of(&Method::Post, "/"), Route::NotFound));
    assert!(matches!(route_of(&Method::Post, "/main.css"), Route::NotFound));
    assert!(matches!(route_of(&Method::Get, "/a"), Route::NotFound));
    assert!(matches!(route_of(&Method::Get, "/other"), Route::NotFound));
    assert!(matches!(route_of(&Method::Get, ""), Route::NotFound));
    assert!(matches!(route_of(&Method::Other, "/"), Route::NotFound));
    assert!(matches!(route_of(&Method::Other, "/a"), Route::NotFound));
}

#[test]
fn not_found_response_is_404_with_body_404() {
    let resp = serve_404();
    assert_eq!(resp.status, 404);
    assert_eq!(resp.body, b"404".to_vec());
    assert!(resp.content_type.is_none());
}

#[test]
fn listener_address_is_fixed_local_port() {
    assert_eq!(server_address(), "127.0.0.1:1337");
}
