use imgmc::codec::decode_payload;
use imgmc::codec::encode_decode_round_trip;
use imgmc::codec::encode_payload;
use imgmc::errors::ImgError;
use imgmc::indicator::clear_line;
use imgmc::indicator::frame_line;
use imgmc::indicator::indicator_step;
use imgmc::json::ImagePayload;
use imgmc::orchestrate::advance_phase;
use imgmc::orchestrate::Phase;
use imgmc::orchestrate::PhaseEvent;
use imgmc::request::ImageQuality;
use imgmc::request::ImageResolution;
use imgmc::slugger::file_slug;
use imgmc::text::u64_to_decimal;

#[test]
fn decimal_rendering() {
    assert_eq!(u64_to_decimal(0), "0");
    assert_eq!(u64_to_decimal(7), "7");
    assert_eq!(u64_to_decimal(10), "10");
    assert_eq!(u64_to_decimal(12345), "12345");
    assert_eq!(u64_to_decimal(u64::MAX), "18446744073709551615");
}

#[test]
fn quality_and_resolution_strings() {
    assert_eq!(ImageQuality::High.as_str(), "high");
    assert_eq!(ImageQuality::Medium.as_str(), "medium");
    assert_eq!(ImageQuality::Low.as_str(), "low");
    assert_eq!(ImageResolution::R1024x1024.as_str(), "1024x1024");
    assert_eq!(ImageResolution::R1024x1536.as_str(), "1024x1536");
    assert_eq!(ImageResolution::R1536x1024.as_str(), "1536x1024");
}

#[test]
fn slugs_are_lowercased_and_separated() {
    assert_eq!(file_slug(&"A red fox in snow".to_string()), "a-red-fox-in-snow");
    assert_eq!(file_slug(&"My Test String!!!1!1".to_string()), "my-test-string-1-1");
    assert_eq!(file_slug(&"  --test_-_cool".to_string()), "test-cool");
}

#[test]
fn long_slug_is_cut_to_fifty_characters() {
    let prompt = "abcdefghij klmnopqrst uvwxyz abcdefghij klmnopqrst uvwxyz".to_string();
    let full = "abcdefghij-klmnopqrst-uvwxyz-abcdefghij-klmnopqrst-uvwxyz";
    let slug = file_slug(&prompt);
    assert_eq!(slug.len(), 50);
    assert_eq!(slug, &full[..50]);
}

#[test]
fn base64_payload_decoding() {
    let p = ImagePayload {
        b64_json: "Zm9v".to_string(),
    };
    assert_eq!(decode_payload(&p).unwrap(), b"foo");
    let bad = ImagePayload {
        b64_json: "Zm9v!".to_string(),
    };
    assert!(matches!(decode_payload(&bad), Err(ImgError::Base64Decode)));
}

#[test]
fn base64_payload_encoding() {
    let p = encode_payload(&b"foo".to_vec());
    assert_eq!(p.b64_json, "Zm9v");
    let empty = encode_payload(&Vec::new());
    assert_eq!(empty.b64_json, "");
}

#[test]
fn base64_round_trip_returns_original_bytes() {
    let bytes: Vec<u8> = (0u8..=255).collect();
    assert_eq!(encode_decode_round_trip(&bytes), bytes);
    assert_eq!(encode_decode_round_trip(&Vec::new()), Vec::<u8>::new());
}

#[test]
fn indicator_frames_cycle() {
    let msg = "Calling API...".to_string();
    assert_eq!(frame_line(0, &msg), "\r- Calling API...");
    assert_eq!(frame_line(1, &msg), "\r\\ Calling API...");
    assert_eq!(frame_line(2, &msg), "\r| Calling API...");
    assert_eq!(frame_line(3, &msg), "\r/ Calling API...");
    assert_eq!(frame_line(5, &msg), "\r\\ Calling API...");
}

#[test]
fn indicator_stop_clears_line_and_ends() {
    let msg = "Calling API...".to_string();
    let (text, keep_going) = indicator_step(false, 0, &msg);
    assert_eq!(text, "\r- Calling API...");
    assert!(keep_going);
    let (text, keep_going) = indicator_step(true, 3, &msg);
    assert_eq!(text, "\r\u{1b}[2K");
    assert!(!keep_going);
    assert_eq!(clear_line(), "\r\u{1b}[2K");
}

#[test]
fn error_messages_name_their_cause() {
    assert_eq!(ImgError::Base64Decode.message(), "a returned payload was not valid base64");
    assert_eq!(ImgError::CounterOverflow.message(), "too many files with similar names");
    assert_eq!(ImgError::Decode.message(), "could not decode the service response");
}

#[test]
fn orchestrator_phases_advance_in_order() {
    let p = Phase::Idle;
    let p = advance_phase(&p, &PhaseEvent::Dispatched);
    assert_eq!(p, Phase::Requesting);
    let p = advance_phase(&p, &PhaseEvent::ResponseReceived);
    assert_eq!(p, Phase::Decoding);
    let p = advance_phase(&p, &PhaseEvent::PayloadsDecoded);
    assert_eq!(p, Phase::Materializing);
    let p = advance_phase(&p, &PhaseEvent::FilesWritten);
    assert_eq!(p, Phase::Done);
}

#[test]
fn orchestrator_fails_directly_on_error() {
    let p = advance_phase(&Phase::Requesting, &PhaseEvent::StepFailed(ImgError::Transport));
    assert_eq!(p, Phase::Failed(ImgError::Transport));
    let p = advance_phase(&Phase::Idle, &PhaseEvent::FilesWritten);
    assert_eq!(p, Phase::Idle);
}
