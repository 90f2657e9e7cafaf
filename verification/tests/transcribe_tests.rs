use rust_transcriber::transcribe::HttpResponse;
use rust_transcriber::transcribe::OpenAITranscriber;
use rust_transcriber::transcribe::TranscribeError;

#[test]
fn unreadable_artifact_is_a_transport_failure() {
    let t = OpenAITranscriber::new("sk-test".to_string());
    let r = t.transcribe_request("missing.wav", None, "XYZ");
    assert!(matches!(r, Err(TranscribeError::Transport)));
}

#[test]
fn request_carries_exact_multipart_body() {
    let t = OpenAITranscriber::new("sk-123".to_string());
    let audio = vec![1u8, 2, 3, 255];
    let req = t.transcribe_request("a.wav", Some(&audio), "XYZ").unwrap();
    assert_eq!(req.url, "https://api.openai.com/v1/audio/transcriptions");
    assert_eq!(req.auth_header, "Bearer sk-123");
    assert_eq!(req.content_type, "multipart/form-data; boundary=XYZ");
    let mut expected: Vec<u8> = Vec::new();
    let preamble = "--XYZ\r\nContent-Disposition: form-data; name=\"model\"\r\n\r\nwhisper-1\r\n--XYZ\r\nContent-Disposition: form-data; name=\"file\"; filename=\"a.wav\"\r\nContent-Type: audio/wav\r\n\r\n";
    expected.extend_from_slice(preamble.as_bytes());
    expected.extend_from_slice(&[1, 2, 3, 255]);
    expected.extend_from_slice(b"\r\n--XYZ--\r\n");
    assert_eq!(req.body, expected);
}

#[test]
fn no_response_is_a_transport_failure() {
    let t = OpenAITranscriber::new("sk-test".to_string());
    let r = t.transcribe(None);
    assert!(matches!(r, Err(TranscribeError::Transport)));
}

#[test]
fn success_response_yields_the_text_field() {
    let t = OpenAITranscriber::new("sk-test".to_string());
    let r = t.transcribe(Some(HttpResponse {
        status: 200,
        body: "{\"text\": \"hello world\"}".to_string(),
    }));
    assert_eq!(r.unwrap(), "hello world");
}

#[test]
fn missing_or_non_string_text_yields_empty() {
    let t = OpenAITranscriber::new("sk-test".to_string());
    let r = t.transcribe(Some(HttpResponse { status: 204, body: "{}".to_string() }));
    assert_eq!(r.unwrap(), "");
    let r = t.transcribe(Some(HttpResponse { status: 200, body: "{\"text\": 5}".to_string() }));
    assert_eq!(r.unwrap(), "");
    let r = t.transcribe(Some(HttpResponse { status: 200, body: "not json".to_string() }));
    assert_eq!(r.unwrap(), "");
}

#[test]
fn error_status_is_remote_with_status_and_body() {
    let t = OpenAITranscriber::new("sk-test".to_string());
    let r = t.transcribe(Some(HttpResponse { status: 401, body: "denied".to_string() }));
    match r {
        Err(TranscribeError::Remote { status, body }) => {
            assert_eq!(status, 401);
            assert_eq!(body, "denied");
        },
        _ => panic!("a non-success status must be a remote error"),
    }
}
