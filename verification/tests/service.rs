use osrs_hiscore_proxy::catalog::minigames;
use osrs_hiscore_proxy::catalog::skills;
use osrs_hiscore_proxy::catalog::DELIMITER_LEN;
use osrs_hiscore_proxy::cors::Cors;
use osrs_hiscore_proxy::cors::Header;
use osrs_hiscore_proxy::cors::Info;
use osrs_hiscore_proxy::error::ApiError;
use osrs_hiscore_proxy::error::Level;
use osrs_hiscore_proxy::rocket;
use osrs_hiscore_proxy::Method;

fn malformed() -> ApiError {
    ApiError::Csv { message: String::from("CSV deserialize error") }
}

#[test]
fn a_parse_failure_is_a_500() {
    assert_eq!(malformed().to_status(), 500);
}

#[test]
fn an_upstream_status_is_forwarded_whatever_it_is() {
    for code in [400u16, 403, 404, 418, 429, 451, 499, 500, 502, 503, 511, 520, 599] {
        assert_eq!(ApiError::Reqwest { status: Some(code) }.to_status(), code);
    }
    for code in 0..=u16::MAX {
        assert_eq!(ApiError::Reqwest { status: Some(code) }.to_status(), code);
    }
}

#[test]
fn a_failure_without_status_is_a_500() {
    assert_eq!(ApiError::Reqwest { status: None }.to_status(), 500);
}

#[test]
fn server_side_failures_are_logged_as_errors() {
    assert_eq!(malformed().log(), Level::Error);
    assert_eq!(ApiError::Reqwest { status: None }.log(), Level::Error);
    assert_eq!(ApiError::Reqwest { status: Some(500) }.log(), Level::Error);
    assert_eq!(ApiError::Reqwest { status: Some(503) }.log(), Level::Error);
    assert_eq!(ApiError::Reqwest { status: Some(520) }.log(), Level::Error);
}

#[test]
fn failures_below_500_are_logged_for_debugging() {
    assert_eq!(ApiError::Reqwest { status: Some(404) }.log(), Level::Debug);
    assert_eq!(ApiError::Reqwest { status: Some(429) }.log(), Level::Debug);
    assert_eq!(ApiError::Reqwest { status: Some(499) }.log(), Level::Debug);
    assert_eq!(ApiError::Reqwest { status: Some(302) }.log(), Level::Debug);
    assert_eq!(ApiError::Reqwest { status: Some(299) }.log(), Level::Debug);
}

#[test]
fn the_catalog_is_in_upstream_order() {
    let skills = skills();
    assert_eq!(skills.len(), 24);
    assert_eq!(skills[0], "Total");
    assert_eq!(skills[1], "Attack");
    assert_eq!(skills[23], "Construction");
    let minigames = minigames();
    assert_eq!(minigames.len(), 58);
    assert_eq!(minigames[0], "Clue Scroll (All)");
    assert_eq!(minigames[7], "LMS - Rank");
    assert_eq!(minigames[57], "Zulrah");
    assert_eq!(DELIMITER_LEN, 3);
}

#[test]
fn no_name_is_in_both_sections() {
    let skills = skills();
    for name in minigames() {
        assert!(!skills.contains(&name));
    }
}

#[test]
fn every_response_allows_every_origin_to_get() {
    assert_eq!(
        Cors.on_response(),
        vec![
            Header { name: "Access-Control-Allow-Origin", value: "*" },
            Header { name: "Access-Control-Allow-Methods", value: "GET" },
        ]
    );
}

#[test]
fn cors_acts_on_responses() {
    assert_eq!(Cors.info(), Info { name: "Add CORS headers to responses", on_response: true });
}

#[test]
fn the_server_mounts_the_hiscore_route_at_the_root() {
    let launch = rocket();
    assert_eq!(launch.cors, Cors);
    assert_eq!(launch.route.method, Method::Get);
    assert_eq!(launch.route.base, "/");
    assert_eq!(launch.route.path, "/hiscore/<player_name>");
}
