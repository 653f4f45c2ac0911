use imgmc::errors::ImgError;
use imgmc::json::decode_response;
use imgmc::json::ImagePayload;
use imgmc::materialize::candidate_name;
use imgmc::materialize::materialize_plan;
use imgmc::materialize::pick_filename;
use imgmc::materialize::plan_item;
use imgmc::materialize::saved_message;
use imgmc::request::build_request;
use imgmc::request::ApiRequest;
use imgmc::request::ImageQuality;
use imgmc::request::ImageResolution;
use imgmc::request::RequestDescriptor;
use imgmc::slugger::file_slug;

fn descriptor(reference: Option<&str>) -> RequestDescriptor {
    RequestDescriptor {
        prompt: "A red fox in snow".to_string(),
        quality: ImageQuality::High,
        resolution: ImageResolution::R1024x1024,
        count: 2,
        reference_image_path: reference.map(|p| p.to_string()),
        endpoint_base: "https://example.test".to_string(),
        credential: "test-api-key".to_string(),
        deployment_id: "dalle".to_string(),
    }
}

#[test]
fn generate_request_without_reference() {
    let r = build_request(&descriptor(None));
    match r {
        ApiRequest::Generate {
            url,
            api_key,
            prompt,
            n,
            size,
            quality,
        } => {
            assert_eq!(
                url,
                "https://example.test/openai/deployments/dalle/images/generations?api-version=2025-04-01-preview"
            );
            assert_eq!(api_key, "test-api-key");
            assert_eq!(prompt, "A red fox in snow");
            assert_eq!(n, 2);
            assert_eq!(size, "1024x1024");
            assert_eq!(quality, "high");
        }
        ApiRequest::Edit { .. } => panic!("expected a generate request"),
    }
}

#[test]
fn edit_request_with_reference() {
    let r = build_request(&descriptor(Some("ref.png")));
    match r {
        ApiRequest::Edit {
            url,
            api_key,
            prompt,
            n,
            size,
            quality,
            image_path,
        } => {
            assert_eq!(
                url,
                "https://example.test/openai/deployments/dalle/images/edits?api-version=2025-04-01-preview"
            );
            assert_eq!(api_key, "test-api-key");
            assert_eq!(prompt, "A red fox in snow");
            assert_eq!(n, "2");
            assert_eq!(size, "1024x1024");
            assert_eq!(quality, "high");
            assert_eq!(image_path, "ref.png");
        }
        ApiRequest::Generate { .. } => panic!("expected an edit request"),
    }
}

fn payloads(texts: &[&str]) -> Vec<ImagePayload> {
    texts
        .iter()
        .map(|t| ImagePayload {
            b64_json: t.to_string(),
        })
        .collect()
}

#[test]
fn decode_response_two_payloads() {
    let body = br#"{"data":[{"b64_json":"Zm9v"},{"b64_json":"YmFy"}]}"#.to_vec();
    let ps = decode_response(&body).unwrap();
    assert_eq!(ps.len(), 2);
    assert_eq!(ps[0].b64_json, "Zm9v");
    assert_eq!(ps[1].b64_json, "YmFy");
}

#[test]
fn decode_response_ignores_other_members() {
    let body = br#"
        {"created": 1700000000,
         "quality": null,
         "data": [{"revised_prompt": "a fox", "b64_json": "AA==", "index": 0}],
         "usage": {"total_tokens": 7, "nested": [1, 2.5, true, {"a": []}]}}
    "#
    .to_vec();
    let ps = decode_response(&body).unwrap();
    assert_eq!(ps.len(), 1);
    assert_eq!(ps[0].b64_json, "AA==");
}

#[test]
fn decode_response_empty_data() {
    let body = br#"{"data":[]}"#.to_vec();
    let ps = decode_response(&body).unwrap();
    assert_eq!(ps.len(), 0);
}

#[test]
fn decode_response_rejects_malformed() {
    let cases: &[&[u8]] = &[
        b"not json at all",
        b"",
        br#"{"data":[{"b64_json":"Zm9v"}]}trailing"#,
        br#"{"no_data":[]}"#,
        br#"{"data":{"b64_json":"Zm9v"}}"#,
        br#"{"data":["Zm9v"]}"#,
        br#"{"data":[{"b64_json":7}]}"#,
        br#"{"data":[{"revised_prompt":"x"}]}"#,
        br#"[{"b64_json":"Zm9v"}]"#,
    ];
    for body in cases {
        let r = decode_response(&body.to_vec());
        assert!(matches!(r, Err(ImgError::Decode)), "case: {:?}", body);
    }
}

#[test]
fn candidate_name_forms_slug_counter_png() {
    assert_eq!(candidate_name(&"fox".to_string(), 3), "fox_3.png");
    assert_eq!(candidate_name(&"fox".to_string(), 10), "fox_10.png");
}

#[test]
fn pick_filename_takes_first_free() {
    let slug = "fox".to_string();
    assert_eq!(pick_filename(&slug, 1, &vec![]).unwrap(), "fox_1.png");
    let taken = vec!["fox_1.png".to_string()];
    assert_eq!(pick_filename(&slug, 1, &taken).unwrap(), "fox_2.png");
    let taken = vec![
        "fox_1.png".to_string(),
        "fox_2.png".to_string(),
        "fox_3.png".to_string(),
    ];
    assert_eq!(pick_filename(&slug, 1, &taken).unwrap(), "fox_4.png");
}

#[test]
fn pick_filename_counter_overflow() {
    let slug = "fox".to_string();
    let last = candidate_name(&slug, usize::MAX);
    let r = pick_filename(&slug, usize::MAX, &vec![last]);
    assert!(matches!(r, Err(ImgError::CounterOverflow)));
}

#[test]
fn plan_item_rejects_corrupt_base64() {
    let p = ImagePayload {
        b64_json: "@@not base64@@".to_string(),
    };
    let r = plan_item(&"fox".to_string(), 1, &p, &vec![]);
    assert!(matches!(r, Err(ImgError::Base64Decode)));
}

#[test]
fn materialize_plan_numbers_in_response_order() {
    let slug = file_slug(&"A red fox in snow".to_string());
    assert_eq!(slug, "a-red-fox-in-snow");
    let files = materialize_plan(&slug, &payloads(&["Zm9v", "YmFy"]), &vec![]).unwrap();
    assert_eq!(files.len(), 2);
    assert_eq!(files[0].name, "a-red-fox-in-snow_1.png");
    assert_eq!(files[1].name, "a-red-fox-in-snow_2.png");
    assert_eq!(files[0].bytes, b"foo");
    assert_eq!(files[1].bytes, b"bar");
}

#[test]
fn materialize_plan_avoids_existing_names() {
    let slug = "fox".to_string();
    let taken = vec!["fox_1.png".to_string()];
    let files = materialize_plan(&slug, &payloads(&["Zm9v", "YmFy"]), &taken).unwrap();
    assert_eq!(files[0].name, "fox_2.png");
    assert_eq!(files[1].name, "fox_3.png");
}

#[test]
fn materialize_plan_aborts_on_corrupt_payload() {
    let slug = "fox".to_string();
    let r = materialize_plan(&slug, &payloads(&["Zm9v", "!!!"]), &vec![]);
    assert!(matches!(r, Err(ImgError::Base64Decode)));
}

#[test]
fn saved_message_line() {
    assert_eq!(
        saved_message(&"fox_1.png".to_string()),
        "Image saved to: fox_1.png"
    );
}
