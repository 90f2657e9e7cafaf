//! Transcription requests and responses.
//!
//! A finished artifact is uploaded to a remote speech-to-text endpoint as
//! a multipart form carrying a fixed model identifier and the WAV bytes,
//! and the recognized text is read from the JSON response.  The verified
//! part assembles the request — URL, authorization header, content type
//! and the exact multipart body — and decides the result from the
//! outcome the unverified shell reports back; the shell only reads the
//! artifact file, performs the HTTP exchange, and never retries.

use vstd::prelude::*;
use vstd::string::StringExecFns;
use vstd::utf8::encode_utf8;

verus! {

/// Why a transcription attempt failed.
#[derive(Debug)]
pub enum TranscribeError {
    /// The endpoint answered with a non-success status; its status code
    /// and response body are kept for logging.
    Remote { status: u16, body: String },
    /// The artifact could not be read, or the exchange itself failed.
    Transport,
}

/// An HTTP response as the unverified shell reports it.
#[derive(Debug)]
pub struct HttpResponse {
    /// Status code of the response.
    pub status: u16,
    /// Response body, decoded as text.
    pub body: String,
}

/// A fully assembled upload request, ready to be sent as-is.
#[derive(Debug)]
pub struct TranscriptionRequest {
    /// Endpoint the request is posted to.
    pub url: String,
    /// Value of the `Authorization` header.
    pub auth_header: String,
    /// Value of the `Content-Type` header, naming the boundary.
    pub content_type: String,
    /// The multipart request body.
    pub body: Vec<u8>,
}

/// Builds upload requests and interprets their outcomes for one
/// configured credential.
#[derive(Debug)]
pub struct OpenAITranscriber {
    /// Credential sent as a bearer token with each request.
    pub api_key: String,
}

/// The characters before the audio bytes in the multipart body: the
/// model part carrying the fixed identifier, then the opening of the
/// file part.
pub open spec fn preamble_chars(boundary: Seq<char>, file_name: Seq<char>) -> Seq<char> {
    "--"@ + boundary
        + "\r\nContent-Disposition: form-data; name=\"model\"\r\n\r\nwhisper-1\r\n--"@ + boundary
        + "\r\nContent-Disposition: form-data; name=\"file\"; filename=\""@ + file_name
        + "\"\r\nContent-Type: audio/wav\r\n\r\n"@
}

/// The characters after the audio bytes: the closing boundary.
pub open spec fn epilogue_chars(boundary: Seq<char>) -> Seq<char> {
    "\r\n--"@ + boundary + "--\r\n"@
}

/// The complete multipart body: UTF-8 text around the raw audio bytes.
pub open spec fn multipart_body(boundary: Seq<char>, file_name: Seq<char>, audio: Seq<u8>) -> Seq<
    u8,
> {
    encode_utf8(preamble_chars(boundary, file_name)) + audio + encode_utf8(
        epilogue_chars(boundary),
    )
}

/// The string value under `key` in the JSON text `body`, when `body`
/// parses and holds a string there.
pub uninterp spec fn json_str_field(body: Seq<char>, key: Seq<char>) -> Option<Seq<char>>;

/// Relies on `serde_json` (`from_str`, `Value::get`, `Value::as_str`):
/// looks up the string value under `key` in the JSON text `body`.  The
/// result is a function of the two strings alone; parse failures, a
/// missing key, and a non-string value all yield `None`.
#[verifier::external_body]
fn read_json_str_field(body: &str, key: &str) -> (r: Option<String>)
    ensures
        r is Some <==> json_str_field(body@, key@) is Some,
        r is Some ==> r->0@ == json_str_field(body@, key@)->0,
{
    serde_json::from_str::<serde_json::Value>(body).ok().as_ref().and_then(|v| v.get(key)).and_then(
        |t| t.as_str(),
    ).map(|t| t.to_string())
}

/// Append a byte slice to a buffer.
fn extend_bytes(dst: &mut Vec<u8>, src: &[u8])
    ensures
        final(dst)@ == old(dst)@ + src@,
{
    let ghost base = dst@;
    dst.extend_from_slice(src);
    proof {
        assert forall|i: int| 0 <= i < dst@.len() implies dst@[i] == (base + src@)[i] by {
            if i >= base.len() {
                assert(vstd::pervasive::cloned::<u8>(src@[i - base.len()], dst@[i]));
            }
        }
        assert(dst@ =~= base + src@);
    }
}

impl OpenAITranscriber {
    /// A client that authorizes with the given credential.
    pub fn new(api_key: String) -> (r: OpenAITranscriber)
        ensures
            r.api_key == api_key,
    {
        OpenAITranscriber { api_key }
    }

    /// Turn the outcome of reading an artifact into the upload request.
    ///
    /// `audio` is the artifact's content if reading it succeeded; a
    /// missing or unreadable artifact is reported as `Transport`, never a
    /// panic.  On success the request carries the endpoint URL, the
    /// bearer credential, and the multipart body holding the fixed model
    /// identifier and the audio bytes between boundaries.
    pub fn transcribe_request(&self, file_name: &str, audio: Option<&Vec<u8>>, boundary: &str)
        -> (r: Result<TranscriptionRequest, TranscribeError>)
        ensures
            r is Ok <==> audio is Some,
            audio is None ==> r matches Err(TranscribeError::Transport),
            r matches Ok(req) ==> {
                &&& req.url@ == "https://api.openai.com/v1/audio/transcriptions"@
                &&& req.auth_header@ == "Bearer "@ + self.api_key@
                &&& req.content_type@ == "multipart/form-data; boundary="@ + boundary@
                &&& req.body@ == multipart_body(boundary@, file_name@, audio->0@)
            },
    {
        match audio {
            None => Err(TranscribeError::Transport),
            Some(bytes) => {
                let mut pre = "--".to_owned();
                pre.append(boundary);
                pre.append(
                    "\r\nContent-Disposition: form-data; name=\"model\"\r\n\r\nwhisper-1\r\n--",
                );
                pre.append(boundary);
                pre.append("\r\nContent-Disposition: form-data; name=\"file\"; filename=\"");
                pre.append(file_name);
                pre.append("\"\r\nContent-Type: audio/wav\r\n\r\n");
                proof {
                    assert(pre@ =~= preamble_chars(boundary@, file_name@));
                }
                let mut epi = "\r\n--".to_owned();
                epi.append(boundary);
                epi.append("--\r\n");
                proof {
                    assert(epi@ =~= epilogue_chars(boundary@));
                }
                let mut body: Vec<u8> = Vec::new();
                extend_bytes(&mut body, pre.as_str().as_bytes());
                extend_bytes(&mut body, bytes.as_slice());
                extend_bytes(&mut body, epi.as_str().as_bytes());
                proof {
                    assert(body@ =~= multipart_body(boundary@, file_name@, bytes@));
                }
                let mut auth = "Bearer ".to_owned();
                auth.append(self.api_key.as_str());
                let mut ctype = "multipart/form-data; boundary=".to_owned();
                ctype.append(boundary);
                Ok(
                    TranscriptionRequest {
                        url: "https://api.openai.com/v1/audio/transcriptions".to_owned(),
                        auth_header: auth,
                        content_type: ctype,
                        body,
                    },
                )
            },
        }
    }

    /// Decide the transcription result from the exchange's outcome.
    ///
    /// No response (a network or transport failure) is `Transport`.  A
    /// success status yields the `text` field of the JSON body — or the
    /// empty string when the body carries none — and any other status is
    /// `Remote` with that status and body.  No outcome is retried.
    pub fn transcribe(&self, outcome: Option<HttpResponse>) -> (r: Result<String, TranscribeError>)
        ensures
            outcome is None ==> r matches Err(TranscribeError::Transport),
            outcome matches Some(resp) ==> {
                if 200 <= resp.status < 300 {
                    &&& r is Ok
                    &&& match json_str_field(resp.body@, "text"@) {
                        Some(t) => r->Ok_0@ == t,
                        None => r->Ok_0@ == Seq::<char>::empty(),
                    }
                } else {
                    r matches Err(TranscribeError::Remote { status, body }) && status
                        == resp.status && body@ == resp.body@
                }
            },
    {
        match outcome {
            None => Err(TranscribeError::Transport),
            Some(resp) => {
                if 200 <= resp.status && resp.status < 300 {
                    match read_json_str_field(resp.body.as_str(), "text") {
                        Some(text) => Ok(text),
                        None => Ok(String::new()),
                    }
                } else {
                    Err(TranscribeError::Remote { status: resp.status, body: resp.body })
                }
            },
        }
    }
}

} // verus!
