use neoteo_courses::json::{write_answers_document, write_reply_document};

fn reference_reply(reply: &str, feedback: &str) -> String {
    let mut object = serde_json::Map::new();
    object.insert(String::from("reply"), serde_json::Value::from(reply));
    object.insert(String::from("feedback"), serde_json::Value::from(feedback));
    serde_json::Value::Object(object).to_string()
}

#[test]
fn answers_are_written_as_an_object_with_an_array() {
    assert_eq!(write_answers_document(&vec![1, 0, 1]), "{\"answers\":[1,0,1]}");
    assert_eq!(write_answers_document(&vec![]), "{\"answers\":[]}");
    assert_eq!(write_answers_document(&vec![255]), "{\"answers\":[255]}");
    assert_eq!(write_answers_document(&vec![0, 10, 200]), "{\"answers\":[0,10,200]}");
}

#[test]
fn written_answers_read_back() {
    let written = write_answers_document(&vec![3, 14, 15]);
    let value: serde_json::Value = serde_json::from_str(&written).unwrap();
    assert_eq!(value["answers"][0], 3);
    assert_eq!(value["answers"][1], 14);
    assert_eq!(value["answers"][2], 15);
    assert_eq!(value["answers"].as_array().unwrap().len(), 3);
}

#[test]
fn a_reply_is_written_with_feedback_first() {
    assert_eq!(
        write_reply_document("Done", "Good"),
        "{\"feedback\":\"Good\",\"reply\":\"Done\"}"
    );
    assert_eq!(write_reply_document("", ""), "{\"feedback\":\"\",\"reply\":\"\"}");
}

#[test]
fn strings_are_escaped() {
    assert_eq!(
        write_reply_document("say \"hi\"\n", "a\\b\tc"),
        "{\"feedback\":\"a\\\\b\\tc\",\"reply\":\"say \\\"hi\\\"\\n\"}"
    );
    assert_eq!(
        write_reply_document("\u{8}\u{c}\r", "\u{0}\u{1f}\u{7f}"),
        "{\"feedback\":\"\\u0000\\u001f\u{7f}\",\"reply\":\"\\b\\f\\r\"}"
    );
    assert_eq!(
        write_reply_document("ответ", "/ é 😀"),
        "{\"feedback\":\"/ é 😀\",\"reply\":\"ответ\"}"
    );
}

#[test]
fn a_written_reply_is_what_the_json_library_writes() {
    let samples = [
        ("", ""),
        ("plain", "text"),
        ("quote \" and \\ backslash", "line\nbreak\r\n"),
        ("\u{1}\u{2}\u{b}\u{e}\u{1b}", "tab\there"),
        ("юникод", "{\"nested\": [1, 2]}"),
    ];
    for (reply, feedback) in samples {
        assert_eq!(write_reply_document(reply, feedback), reference_reply(reply, feedback));
    }
}

#[test]
fn a_written_reply_reads_back() {
    let written = write_reply_document("a \"b\"", "c\\d");
    let value: serde_json::Value = serde_json::from_str(&written).unwrap();
    assert_eq!(value["reply"], "a \"b\"");
    assert_eq!(value["feedback"], "c\\d");
}
