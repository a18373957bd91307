use instagram_reels_scraper::slack::{
    SlackAction, SlackEvent, SlackFileSender, COMPLETE_UPLOAD, GET_UPLOAD_URL,
};
use instagram_reels_scraper::telegram::Telegram;

fn fields(action: &SlackAction) -> (String, Vec<(String, String)>) {
    match action {
        SlackAction::PostForm { url, fields } => (url.clone(), fields.clone()),
        _ => panic!("a form was expected"),
    }
}

fn pair(a: &str, b: &str) -> (String, String) {
    (a.to_string(), b.to_string())
}

#[test]
fn telegram_request_is_the_bot_api_call() {
    let tg = Telegram::new("123:abc".to_string(), "-100".to_string());
    let req = tg.request("hi \"there\"\nnext\u{1}");
    assert_eq!(req.url, "https://api.telegram.org/bot123:abc/sendMessage");
    assert_eq!(
        req.body,
        "{\n  \"chat_id\": \"-100\",\n  \"text\": \"hi \\\"there\\\"\\nnext\\u0001\"\n}"
    );
    let mut object = serde_json::Map::new();
    object.insert("chat_id".to_string(), serde_json::Value::String("-100".to_string()));
    object.insert(
        "text".to_string(),
        serde_json::Value::String("hi \"there\"\nnext\u{1}".to_string()),
    );
    let expected = serde_json::to_string_pretty(&serde_json::Value::Object(object)).unwrap();
    assert_eq!(req.body, expected);
}

#[test]
fn a_slack_upload_goes_through_three_calls() {
    let sender = SlackFileSender::new("xoxb".to_string(), "C1".to_string());
    let (mut upload, first) = sender.send_file("/tmp/a \"b\".ods");
    match first {
        SlackAction::ReadFile { path } => assert_eq!(path, "/tmp/a \"b\".ods"),
        _ => panic!("read expected"),
    }
    let ev = SlackEvent::FileRead { length: 2048 };
    assert!(upload.accepts(&ev));
    let (url, form) = fields(&upload.step(ev));
    assert_eq!(url, GET_UPLOAD_URL);
    assert_eq!(
        form,
        vec![pair("length", "2048"), pair("filename", "/tmp/a \"b\".ods"), pair("token", "xoxb")]
    );
    let ev = SlackEvent::UploadUrlReply {
        ok: true,
        upload_url: Some("https://files.slack.com/upload/v1/X".to_string()),
        file_id: Some("F9".to_string()),
        reply: String::new(),
    };
    assert!(upload.accepts(&ev));
    match upload.step(ev) {
        SlackAction::PostFile { url } => assert_eq!(url, "https://files.slack.com/upload/v1/X"),
        _ => panic!("file post expected"),
    }
    let ev = SlackEvent::UploadStatus { code: 200, status: "200 OK".to_string() };
    assert!(upload.accepts(&ev));
    let (url, form) = fields(&upload.step(ev));
    assert_eq!(url, COMPLETE_UPLOAD);
    let mut file = serde_json::Map::new();
    file.insert("id".to_string(), serde_json::Value::String("F9".to_string()));
    file.insert("title".to_string(), serde_json::Value::String("/tmp/a \"b\".ods".to_string()));
    let files = serde_json::Value::Array(vec![serde_json::Value::Object(file)]).to_string();
    assert_eq!(form, vec![pair("files", &files), pair("token", "xoxb"), pair("channel_id", "C1")]);
    assert!(!upload.is_over());
    let ev = SlackEvent::CompletionReply { ok: true, reply: String::new() };
    assert!(matches!(upload.step(ev), SlackAction::Finished));
    assert!(upload.is_over());
    assert!(!upload.accepts(&SlackEvent::FileRead { length: 1 }));
}

#[test]
fn a_slack_refusal_fails_the_upload() {
    let sender = SlackFileSender::new("t".to_string(), "c".to_string());
    let (mut upload, _) = sender.send_file("f.ods");
    upload.step(SlackEvent::FileRead { length: 1 });
    let ev = SlackEvent::UploadUrlReply {
        ok: false,
        upload_url: None,
        file_id: None,
        reply: "Object {\"ok\": Bool(false)}".to_string(),
    };
    assert!(upload.accepts(&ev));
    match upload.step(ev) {
        SlackAction::Failed { message } => assert_eq!(
            message,
            "non-ok response on getUploadURLExternal: Object {\"ok\": Bool(false)}"
        ),
        _ => panic!("failure expected"),
    }
    assert!(upload.is_over());
}

#[test]
fn a_bad_status_or_completion_fails_the_upload() {
    let sender = SlackFileSender::new("t".to_string(), "c".to_string());
    let (mut upload, _) = sender.send_file("f.ods");
    upload.step(SlackEvent::FileRead { length: 1 });
    upload.step(SlackEvent::UploadUrlReply {
        ok: true,
        upload_url: Some("u".to_string()),
        file_id: None,
        reply: String::new(),
    });
    let missing_id = SlackEvent::UploadStatus { code: 200, status: "200 OK".to_string() };
    assert!(!upload.accepts(&missing_id));
    match upload.step(SlackEvent::UploadStatus { code: 204, status: "204 No Content".to_string() }) {
        SlackAction::Failed { message } => {
            assert_eq!(message, "non-200 response on upload_url: 204 No Content")
        }
        _ => panic!("failure expected"),
    }

    let (mut upload, _) = sender.send_file("f.ods");
    upload.step(SlackEvent::FileRead { length: 1 });
    upload.step(SlackEvent::UploadUrlReply {
        ok: true,
        upload_url: Some("u".to_string()),
        file_id: Some("F".to_string()),
        reply: String::new(),
    });
    upload.step(SlackEvent::UploadStatus { code: 200, status: "200 OK".to_string() });
    match upload.step(SlackEvent::CompletionReply { ok: false, reply: "no".to_string() }) {
        SlackAction::Failed { message } => {
            assert_eq!(message, "non-ok response on completeUploadExternal: no")
        }
        _ => panic!("failure expected"),
    }
}
