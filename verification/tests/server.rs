use loadavg::body::Rendered;
use loadavg::reading::{LoadAvg, LoadError};
use loadavg::route::{routes, Handler, Method};
use loadavg::server::{
    dispatch, loadavg, ContentType, Response, STATUS_INTERNAL_SERVER_ERROR, STATUS_NOT_FOUND,
    STATUS_OK,
};

fn number(bits: u64) -> String {
    serde_json::to_string(&f64::from_bits(bits)).unwrap()
}

fn render(snapshot: &LoadAvg) -> Rendered {
    Rendered {
        last: number(snapshot.last),
        last5: number(snapshot.last5),
        last15: number(snapshot.last15),
    }
}

/// What a server built on the library answers to one request, given what the
/// operating system would report.
fn answer(method: Method, path: &str, reported: i32, samples: [f64; 3]) -> Response {
    match dispatch(&routes(), method, path) {
        Err(response) => response,
        Ok(Handler::LoadAvg) => {
            let samples = [samples[0].to_bits(), samples[1].to_bits(), samples[2].to_bits()];
            loadavg(LoadAvg::new(reported, samples).map(|snapshot| render(&snapshot)))
        }
    }
}

#[test]
fn status_codes() {
    assert_eq!(STATUS_OK, 200);
    assert_eq!(STATUS_NOT_FOUND, 404);
    assert_eq!(STATUS_INTERNAL_SERVER_ERROR, 500);
}

#[test]
fn json_media_type() {
    assert_eq!(ContentType::Json.mime(), "application/json");
}

#[test]
fn body_is_the_object_of_the_three_numbers() {
    let rendered = Rendered {
        last: "0.5".to_string(),
        last5: "0.75".to_string(),
        last15: "1.2".to_string(),
    };
    assert_eq!(rendered.to_json(), r#"{"last":0.5,"last5":0.75,"last15":1.2}"#);
}

#[test]
fn body_keeps_each_number_under_its_own_key() {
    let rendered =
        Rendered { last: "1".to_string(), last5: "22".to_string(), last15: "333".to_string() };
    assert_eq!(rendered.to_json(), r#"{"last":1,"last5":22,"last15":333}"#);
}

#[test]
fn get_loadavg_answers_with_the_snapshot() {
    let response = answer(Method::Get, "/loadavg", 3, [0.5, 0.75, 1.2]);
    assert_eq!(response.status, 200);
    assert_eq!(response.content_type, Some(ContentType::Json));
    assert_eq!(response.body, r#"{"last":0.5,"last5":0.75,"last15":1.2}"#);
}

#[test]
fn missing_samples_are_reported_as_zero() {
    let response = answer(Method::Get, "/loadavg", 1, [2.5, 7.0, 9.0]);
    assert_eq!(response.status, 200);
    assert_eq!(response.body, r#"{"last":2.5,"last5":0.0,"last15":0.0}"#);
}

#[test]
fn successful_body_decodes_to_exactly_three_numbers() {
    for reported in 0..=3 {
        let response = answer(Method::Get, "/loadavg", reported, [0.01, 3.25, 118.5]);
        assert_eq!(response.status, 200);
        let decoded: serde_json::Value = serde_json::from_str(&response.body).unwrap();
        let object = decoded.as_object().unwrap();
        let keys: Vec<&str> = object.keys().map(|key| key.as_str()).collect();
        assert_eq!(keys.len(), 3);
        for key in ["last", "last5", "last15"] {
            let value = object.get(key).unwrap().as_f64().unwrap();
            assert!(value.is_finite() && value >= 0.0);
        }
        let expected = [0.01, 3.25, 118.5];
        for (slot, key) in ["last", "last5", "last15"].iter().enumerate() {
            let value = object.get(*key).unwrap().as_f64().unwrap();
            let wanted = if (slot as i32) < reported { expected[slot] } else { 0.0 };
            assert_eq!(value, wanted);
        }
    }
}

#[test]
fn failed_reading_is_a_server_error_without_body() {
    let response = loadavg(Err(LoadError::UnsupportedPlatform));
    assert_eq!(response.status, 500);
    assert_eq!(response.content_type, None);
    assert_eq!(response.body, "");
}

#[test]
fn failed_query_is_answered_with_a_server_error() {
    let response = answer(Method::Get, "/loadavg", -1, [0.5, 0.75, 1.2]);
    assert!((500..=599).contains(&response.status));
    assert!(response.body.is_empty());
}

#[test]
fn other_paths_are_not_found() {
    for path in ["/", "", "/loadavg/", "/metrics", "/loadavg/last", "/LoadAvg"] {
        let response = answer(Method::Get, path, 3, [0.5, 0.75, 1.2]);
        assert_eq!(response.status, 404, "{path}");
        assert_ne!(response.status, 200);
        assert_eq!(response.content_type, None);
        assert_eq!(response.body, "");
    }
}

#[test]
fn other_methods_on_loadavg_are_not_found() {
    let methods = [
        Method::Put,
        Method::Post,
        Method::Delete,
        Method::Options,
        Method::Head,
        Method::Trace,
        Method::Connect,
        Method::Patch,
    ];
    for method in methods {
        let response = answer(method, "/loadavg", 3, [0.5, 0.75, 1.2]);
        assert_eq!(response.status, 404, "{method:?}");
        assert_ne!(response.status, 200);
        assert_eq!(response.body, "");
    }
}

#[test]
fn dispatch_names_the_handler_for_get_loadavg() {
    match dispatch(&routes(), Method::Get, "/loadavg") {
        Ok(handler) => assert_eq!(handler, Handler::LoadAvg),
        Err(response) => panic!("answered with {}", response.status),
    }
}

#[test]
fn answers_do_not_depend_on_earlier_requests() {
    let first = answer(Method::Get, "/loadavg", 3, [0.5, 0.75, 1.2]);
    let _ = answer(Method::Get, "/nowhere", 3, [9.0, 9.0, 9.0]);
    let _ = answer(Method::Get, "/loadavg", -1, [9.0, 9.0, 9.0]);
    let second = answer(Method::Get, "/loadavg", 3, [0.5, 0.75, 1.2]);
    assert_eq!(first.status, second.status);
    assert_eq!(first.body, second.body);
}
