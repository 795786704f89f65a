use ball_demo::assets::{asset_path, format_url, starts_with};

#[test]
fn starts_with_prefix_and_not() {
    assert!(starts_with("assets/ball.obj", "assets/"));
    assert!(starts_with("assets/", "assets/"));
    assert!(!starts_with("asset", "assets/"));
    assert!(!starts_with("ball.obj", "assets/"));
    assert!(starts_with("anything", ""));
}

#[test]
fn asset_path_adds_directory() {
    assert_eq!(asset_path("ball_solo.obj"), "assets/ball_solo.obj");
    assert_eq!(asset_path(""), "assets/");
    assert_eq!(asset_path("textures/ball.png"), "assets/textures/ball.png");
}

#[test]
fn asset_path_keeps_placed_names() {
    assert_eq!(asset_path("assets/ball.mtl"), "assets/ball.mtl");
    assert_eq!(asset_path("assets/"), "assets/");
}

#[test]
fn asset_path_is_idempotent() {
    for name in ["ball.obj", "assets/ball.obj", "", "asset", "x/assets/y"] {
        let once = asset_path(name);
        assert_eq!(asset_path(&once), once);
        assert!(once.starts_with("assets/"));
    }
}

#[test]
fn format_url_joins_origin_and_asset_path() {
    assert_eq!(
        format_url("https://example.com", "ball_solo.obj"),
        Some("https://example.com/assets/ball_solo.obj".to_string())
    );
    assert_eq!(
        format_url("http://localhost:8080", "assets/ball_solo.mtl"),
        Some("http://localhost:8080/assets/ball_solo.mtl".to_string())
    );
}

#[test]
fn format_url_same_for_prefixed_name() {
    let origin = "https://example.com";
    assert_eq!(
        format_url(origin, &asset_path("ball.png")),
        format_url(origin, "ball.png")
    );
}

#[test]
fn format_url_rejects_relative_origin() {
    assert_eq!(format_url("not a url", "ball.obj"), None);
    assert_eq!(format_url("", "ball.obj"), None);
}
