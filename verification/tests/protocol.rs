use desktop_shell::bridge::JsBridge;
use desktop_shell::media::MediaItem;
use desktop_shell::envelope::{encode_response, WebResponse};
use desktop_shell::media::MockMetadataService;
use desktop_shell::services::{ServiceError, ServiceManager};

const INCEPTION_POSTER: &str = "https://m.media-amazon.com/images/M/MV5BMjAxMzY3NjcxNF5BMl5BanBnXkFtZTcwNTI5OTM0Mw@@._V1_FMjpg_UX1000_.jpg";
const INTERSTELLAR_POSTER: &str = "https://m.media-amazon.com/images/M/MV5BZjdkOTU3MDktN2IxOS00OGEyLWFmMjktY2FiMmZkNWIyODZiXkEyXkFqcGdeQXVyMTMxODk2OTU@._V1_FMjpg_UX1000_.jpg";
const FIGHT_CLUB_POSTER: &str = "https://m.media-amazon.com/images/M/MV5BNDIzNDU0YzEtYzE5Ni00ZjlkLTk5ZjgtNjM3NWE4YzA3Nzk3XkEyXkFqcGdeQXVyMjUzOTY1NTc@._V1_FMjpg_UX1000_.jpg";

fn expected_catalog_json() -> String {
    format!(
        "[{{\"id\":\"tt1375666\",\"title\":\"Inception\",\"year\":2010,\"poster\":\"{}\"}},{{\"id\":\"tt0816692\",\"title\":\"Interstellar\",\"year\":2014,\"poster\":\"{}\"}},{{\"id\":\"tt0137523\",\"title\":\"Fight Club\",\"year\":1999,\"poster\":\"{}\"}}]",
        INCEPTION_POSTER, INTERSTELLAR_POSTER, FIGHT_CLUB_POSTER
    )
}

#[test]
fn get_catalog_succeeds_with_full_catalog() {
    let services = ServiceManager::init();
    let reply = services
        .handle_web_message("{\"cmd\":\"getCatalog\",\"requestId\":\"r1\"}")
        .expect("getCatalog must succeed");
    let expected = format!(
        "{{\"requestId\":\"r1\",\"success\":true,\"data\":{}}}",
        expected_catalog_json()
    );
    assert_eq!(reply, expected);
}

#[test]
fn get_catalog_ignores_args() {
    let services = ServiceManager::init();
    let with_args = services
        .handle_web_message("{\"cmd\":\"getCatalog\",\"requestId\":\"r1\",\"args\":{\"page\":3,\"q\":[1,2]}}")
        .expect("getCatalog must succeed");
    let without_args = services
        .handle_web_message("{\"cmd\":\"getCatalog\",\"requestId\":\"r1\"}")
        .expect("getCatalog must succeed");
    assert_eq!(with_args, without_args);
}

#[test]
fn get_catalog_reply_is_valid_json_with_three_items() {
    let services = ServiceManager::init();
    let reply = services
        .handle_web_message("{\"cmd\":\"getCatalog\",\"requestId\":\"r1\"}")
        .expect("getCatalog must succeed");
    let value: serde_json::Value = serde_json::from_str(&reply).expect("reply must be JSON");
    assert_eq!(value["requestId"].as_str(), Some("r1"));
    assert_eq!(value["success"].as_bool(), Some(true));
    let data = value["data"].as_array().expect("data must be an array");
    assert_eq!(data.len(), 3);
    assert_eq!(data[0]["title"].as_str(), Some("Inception"));
    assert_eq!(data[1]["title"].as_str(), Some("Interstellar"));
    assert_eq!(data[2]["title"].as_str(), Some("Fight Club"));
    assert_eq!(data[2]["year"].as_i64(), Some(1999));
}

#[test]
fn unknown_command_fails_with_exact_envelope() {
    let services = ServiceManager::init();
    let bridge = JsBridge::new(services);
    let reply = bridge
        .handle_message("{\"cmd\":\"bogus\",\"requestId\":\"r2\"}")
        .expect("a decodable request always gets a reply");
    assert_eq!(
        reply,
        "{\"requestId\":\"r2\",\"success\":false,\"error\":\"Unknown command: bogus\"}"
    );
}

#[test]
fn unknown_command_error_carries_cmd_and_request_id() {
    let services = ServiceManager::init();
    let outcome = services.handle_web_message("{\"cmd\":\"search\",\"requestId\":\"q7\"}");
    match outcome {
        Err(ServiceError::UnknownCommand { cmd, request_id }) => {
            assert_eq!(cmd, "search");
            assert_eq!(request_id, "q7");
        }
        _ => panic!("expected an unknown-command error"),
    }
}

#[test]
fn missing_command_fails_with_echoed_request_id() {
    let services = ServiceManager::init();
    let outcome = services.handle_web_message("{\"requestId\":\"m1\",\"args\":4}");
    match &outcome {
        Err(ServiceError::MissingCommand { request_id }) => {
            assert_eq!(request_id, "m1");
        }
        _ => panic!("expected a missing-command error"),
    }
    let bridge = JsBridge::new(ServiceManager::init());
    let reply = bridge
        .handle_message("{\"requestId\":\"m1\",\"args\":4}")
        .expect("a decodable request always gets a reply");
    assert_eq!(
        reply,
        "{\"requestId\":\"m1\",\"success\":false,\"error\":\"Missing command\"}"
    );
}

#[test]
fn non_string_command_counts_as_missing() {
    let services = ServiceManager::init();
    let outcome = services.handle_web_message("{\"cmd\":17,\"requestId\":\"m2\"}");
    assert!(matches!(outcome, Err(ServiceError::MissingCommand { .. })));
}

#[test]
fn undecodable_message_is_dropped() {
    let services = ServiceManager::init();
    assert!(matches!(
        services.handle_web_message("this is not json"),
        Err(ServiceError::Parse)
    ));
    assert!(matches!(
        services.handle_web_message(""),
        Err(ServiceError::Parse)
    ));
    let bridge = JsBridge::new(ServiceManager::init());
    assert!(bridge.handle_message("{\"cmd\":").is_none());
    assert!(bridge.handle_message("").is_none());
}

#[test]
fn request_id_round_trips_byte_for_byte() {
    let bridge = JsBridge::new(ServiceManager::init());
    let ids = ["r1", "", " ", "0", "a-b.c:d", "\\u00e9dition", "id with spaces"];
    for id in ids {
        let request = format!(
            "{{\"cmd\":\"getCatalog\",\"requestId\":{}}}",
            serde_json::to_string(id).unwrap()
        );
        let reply = bridge.handle_message(&request).expect("reply owed");
        let value: serde_json::Value = serde_json::from_str(&reply).unwrap();
        assert_eq!(value["requestId"].as_str(), Some(id));
    }
}

#[test]
fn absent_request_id_echoes_empty_string() {
    let bridge = JsBridge::new(ServiceManager::init());
    let reply = bridge
        .handle_message("{\"cmd\":\"getCatalog\"}")
        .expect("reply owed");
    let value: serde_json::Value = serde_json::from_str(&reply).unwrap();
    assert_eq!(value["requestId"].as_str(), Some(""));
    let failure = bridge
        .handle_message("{\"cmd\":\"nope\"}")
        .expect("reply owed");
    assert_eq!(
        failure,
        "{\"requestId\":\"\",\"success\":false,\"error\":\"Unknown command: nope\"}"
    );
}

#[test]
fn request_id_with_json_metacharacters_round_trips() {
    let bridge = JsBridge::new(ServiceManager::init());
    let id = "a\"b\\c\nd\te\u{1f}f";
    let request = format!(
        "{{\"cmd\":\"getCatalog\",\"requestId\":{}}}",
        serde_json::to_string(id).unwrap()
    );
    let reply = bridge.handle_message(&request).expect("reply owed");
    let value: serde_json::Value = serde_json::from_str(&reply).unwrap();
    assert_eq!(value["requestId"].as_str(), Some(id));
}

#[test]
fn encoder_escapes_error_text() {
    let response = WebResponse::Failure {
        request_id: String::from("x"),
        error: String::from("a\"b\\c\nd\u{1f}"),
    };
    let encoded = encode_response(&response);
    assert_eq!(
        encoded,
        "{\"requestId\":\"x\",\"success\":false,\"error\":\"a\\\"b\\\\c\\nd\\u001f\"}"
    );
    let value: serde_json::Value = serde_json::from_str(&encoded).unwrap();
    assert_eq!(value["error"].as_str(), Some("a\"b\\c\nd\u{1f}"));
    assert_eq!(value["success"].as_bool(), Some(false));
}

#[test]
fn encoder_renders_negative_years() {
    let response = WebResponse::Success {
        request_id: String::from("y"),
        data: vec![MediaItem {
            id: String::from("x1"),
            title: String::from("Old"),
            year: -44,
            poster: String::from("p"),
        }],
    };
    let encoded = encode_response(&response);
    assert_eq!(
        encoded,
        "{\"requestId\":\"y\",\"success\":true,\"data\":[{\"id\":\"x1\",\"title\":\"Old\",\"year\":-44,\"poster\":\"p\"}]}"
    );
}

#[test]
fn error_text_of_each_variant() {
    assert_eq!(ServiceError::Parse.error_text(), "Invalid message format");
    assert_eq!(
        ServiceError::MissingCommand { request_id: String::from("a") }.error_text(),
        "Missing command"
    );
    assert_eq!(
        ServiceError::UnknownCommand {
            cmd: String::from("play"),
            request_id: String::from("a")
        }
        .error_text(),
        "Unknown command: play"
    );
}

#[test]
fn mock_search_reports_fixed_results() {
    let service = MockMetadataService::new();
    let with_query = service.search("anything at all");
    let without_query = service.search("");
    assert_eq!(with_query.len(), 2);
    assert_eq!(without_query.len(), 2);
    assert_eq!(with_query[0].id, "tt1375666");
    assert_eq!(with_query[0].title, "Inception");
    assert_eq!(with_query[0].year, 2010);
    assert_eq!(with_query[1].title, "Interstellar");
}

#[test]
fn mock_catalog_has_three_items() {
    let service = MockMetadataService::new();
    let catalog = service.get_catalog();
    assert_eq!(catalog.len(), 3);
    assert_eq!(catalog[0].title, "Inception");
    assert_eq!(catalog[1].title, "Interstellar");
    assert_eq!(catalog[2].title, "Fight Club");
    assert_eq!(catalog[2].id, "tt0137523");
    assert_eq!(catalog[2].year, 1999);
    assert_eq!(catalog[2].poster, FIGHT_CLUB_POSTER);
}
