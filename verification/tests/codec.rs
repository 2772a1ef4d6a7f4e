use task_api::codec::{encode_task, encode_task_list, decode_task};
use task_api::requests::{decode_create_request, decode_update_request};
use task_api::task::TaskResponse;

fn sample_task() -> TaskResponse {
    TaskResponse {
        id: "11111111-2222-3333-4444-555555555555".to_string(),
        title: "Buy milk".to_string(),
        description: Some("two bottles".to_string()),
        completed: false,
        created_at: "2024-01-01T12:00:00Z".to_string(),
        updated_at: "2024-01-02T12:00:00Z".to_string(),
    }
}

#[test]
fn test_encode_task_exact() {
    let encoded = encode_task(&sample_task());
    assert_eq!(
        encoded,
        "{\"id\":\"11111111-2222-3333-4444-555555555555\",\"title\":\"Buy milk\",\
         \"description\":\"two bottles\",\"completed\":false,\
         \"created_at\":\"2024-01-01T12:00:00Z\",\"updated_at\":\"2024-01-02T12:00:00Z\"}"
    );
}

#[test]
fn test_encode_task_null_description() {
    let mut task = sample_task();
    task.description = None;
    task.completed = true;
    let encoded = encode_task(&task);
    assert!(encoded.contains("\"description\":null"));
    assert!(encoded.contains("\"completed\":true"));
}

#[test]
fn test_encode_escapes_special_characters() {
    let mut task = sample_task();
    task.title = "say \"hi\"\\\n".to_string();
    let encoded = encode_task(&task);
    assert!(encoded.contains("\"title\":\"say \\\"hi\\\"\\\\\\u000a\""));
}

#[test]
fn test_round_trip_plain() {
    let task = sample_task();
    let decoded = decode_task(&encode_task(&task)).unwrap();
    assert_eq!(decoded.id, task.id);
    assert_eq!(decoded.title, task.title);
    assert_eq!(decoded.description, task.description);
    assert_eq!(decoded.completed, task.completed);
    assert_eq!(decoded.created_at, task.created_at);
    assert_eq!(decoded.updated_at, task.updated_at);
}

#[test]
fn test_round_trip_with_escapes_and_null() {
    let task = TaskResponse {
        id: "id-1".to_string(),
        title: "a \"quoted\" \\ title\twith\ncontrols\u{1}".to_string(),
        description: None,
        completed: true,
        created_at: "t0".to_string(),
        updated_at: "t1".to_string(),
    };
    let decoded = decode_task(&encode_task(&task)).unwrap();
    assert_eq!(decoded.title, task.title);
    assert_eq!(decoded.description, None);
    assert_eq!(decoded.completed, true);
}

#[test]
fn test_decode_accepts_short_and_unicode_escapes() {
    let text = "{\"id\":\"x\",\"title\":\"\\u0041\\t\\/\",\"description\":null,\
                \"completed\":false,\"created_at\":\"c\",\"updated_at\":\"u\"}";
    let decoded = decode_task(text).unwrap();
    assert_eq!(decoded.title, "A\t/");
}

#[test]
fn test_decode_general_unicode_escape() {
    let text = "{\"id\":\"x\",\"title\":\"\\u0141ukasz \\u00e9 \\u20AC\",\"description\":null,\
                \"completed\":false,\"created_at\":\"c\",\"updated_at\":\"u\"}";
    let decoded = decode_task(text).unwrap();
    assert_eq!(decoded.title, "\u{141}ukasz \u{e9} \u{20ac}");

    let req = decode_create_request("{\"title\":\"\\u0141ukasz\"}").unwrap();
    assert_eq!(req.title, "\u{141}ukasz");
}

#[test]
fn test_decode_rejects_lone_surrogate_escape() {
    let text = "{\"id\":\"x\",\"title\":\"\\uD800\",\"description\":null,\
                \"completed\":false,\"created_at\":\"c\",\"updated_at\":\"u\"}";
    assert!(decode_task(text).is_none());
    assert!(decode_create_request("{\"title\":\"\\uD83D\\uDE00\"}").is_none());
}

#[test]
fn test_decode_rejects_malformed() {
    assert!(decode_task("").is_none());
    assert!(decode_task("{}").is_none());
    assert!(decode_task("{\"id\":\"x\"}").is_none());
    let good = encode_task(&sample_task());
    let mut trailing = good.clone();
    trailing.push('x');
    assert!(decode_task(&trailing).is_none());
}

#[test]
fn test_encode_task_list() {
    let mut a = sample_task();
    a.id = "a".to_string();
    let mut b = sample_task();
    b.id = "b".to_string();
    let expected_a = encode_task(&a);
    let expected_b = encode_task(&b);
    let one = encode_task_list(&vec![a]);
    assert_eq!(one, format!("[{}]", expected_a));
    let mut a = sample_task();
    a.id = "a".to_string();
    let two = encode_task_list(&vec![a, b]);
    assert_eq!(two, format!("[{},{}]", expected_a, expected_b));
    let none: Vec<TaskResponse> = Vec::new();
    assert_eq!(encode_task_list(&none), "[]");
}

#[test]
fn test_encoded_task_is_valid_json_for_serde() {
    let task = TaskResponse {
        id: "id \"quoted\"".to_string(),
        title: "title with \\ and \n".to_string(),
        description: Some("desc".to_string()),
        completed: true,
        created_at: "c".to_string(),
        updated_at: "u".to_string(),
    };
    let encoded = encode_task(&task);
    let value: serde_json::Value = serde_json::from_str(&encoded).unwrap();
    assert_eq!(value["id"].as_str().unwrap(), task.id);
    assert_eq!(value["title"].as_str().unwrap(), task.title);
    assert_eq!(value["description"].as_str().unwrap(), "desc");
    assert_eq!(value["completed"].as_bool().unwrap(), true);
    assert_eq!(value["created_at"].as_str().unwrap(), "c");
    assert_eq!(value["updated_at"].as_str().unwrap(), "u");
}

#[test]
fn test_decode_create_request_minimal() {
    let req = decode_create_request("{\"title\":\"Test\"}").unwrap();
    assert_eq!(req.title, "Test");
    assert_eq!(req.description, None);
    assert_eq!(req.completed, false);
}

#[test]
fn test_decode_create_request_full_any_order() {
    let req = decode_create_request(
        " { \"completed\" : true , \"title\" : \"T\" , \"description\" : \"D\" } ",
    )
    .unwrap();
    assert_eq!(req.title, "T");
    assert_eq!(req.description, Some("D".to_string()));
    assert_eq!(req.completed, true);
}

#[test]
fn test_decode_create_request_null_description() {
    let req = decode_create_request("{\"title\":\"T\",\"description\":null}").unwrap();
    assert_eq!(req.description, None);
}

#[test]
fn test_decode_create_request_rejects_bad_bodies() {
    assert!(decode_create_request("").is_none());
    assert!(decode_create_request("not json").is_none());
    assert!(decode_create_request("{}").is_none());
    assert!(decode_create_request("{\"description\":\"D\"}").is_none());
    assert!(decode_create_request("{\"title\":\"a\",\"title\":\"b\"}").is_none());
    assert!(decode_create_request("{\"title\":\"a\",\"other\":1}").is_none());
    assert!(decode_create_request("{\"title\":\"a\"} trailing").is_none());
    assert!(decode_create_request("{\"title\":true}").is_none());
}

#[test]
fn test_decode_update_request() {
    let req = decode_update_request("{}").unwrap();
    assert_eq!(req.title, None);
    assert_eq!(req.description, None);
    assert_eq!(req.completed, None);

    let req = decode_update_request("{\"completed\":false}").unwrap();
    assert_eq!(req.completed, Some(false));

    let req = decode_update_request("{\"title\":\"New\",\"description\":null}").unwrap();
    assert_eq!(req.title, Some("New".to_string()));
    assert_eq!(req.description, None);

    assert!(decode_update_request("{\"completed\":\"yes\"}").is_none());
}
