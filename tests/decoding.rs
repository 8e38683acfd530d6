use bedrock_ask::decode::{decode_chunk, decode_complete, process_response};
use bedrock_ask::dispatch::{concat_chunks, StepAction, StreamDecoder, StreamEvent};
use bedrock_ask::error::BedrockError;
use bedrock_ask::json::Json;
use bedrock_ask::models::{ModelEntry, ModelFamily};

const SONNET: &str = "example.sonnet-3-v1:0";
const HAIKU: &str = "example.haiku-3-v1:0";
const TEXT_ONLY: &str = "example.text-only-v1:0";

fn registry() -> Vec<ModelEntry> {
    vec![
        ModelEntry { model_id: SONNET.to_string(), family: ModelFamily::ClaudeV3, multimodal: true },
        ModelEntry { model_id: HAIKU.to_string(), family: ModelFamily::ClaudeV3, multimodal: true },
        ModelEntry { model_id: TEXT_ONLY.to_string(), family: ModelFamily::ClaudeV3, multimodal: false },
    ]
}

fn s(t: &str) -> Json {
    Json::Str(t.to_string())
}

fn obj(pairs: Vec<(&str, Json)>) -> Json {
    Json::Object(pairs.into_iter().map(|(k, v)| (k.to_string(), v)).collect())
}

fn delta(kind: &str, text: Option<&str>) -> Json {
    let mut d = vec![("type", s(kind))];
    if let Some(t) = text {
        d.push(("text", s(t)));
    }
    obj(vec![("type", s("content_block_delta")), ("delta", obj(d))])
}

fn response(text: &str) -> Json {
    obj(vec![
        ("id", s("msg_01")),
        ("content", Json::Array(vec![obj(vec![("type", s("text")), ("text", s(text))])])),
        ("stop_reason", s("end_turn")),
    ])
}

fn scenario_chunks() -> Vec<Json> {
    vec![
        obj(vec![("type", s("message_start"))]),
        obj(vec![("delta", obj(vec![("type", s("text_delta")), ("text", s("Hel"))]))]),
        obj(vec![("delta", obj(vec![("type", s("text_delta")), ("text", s("lo"))]))]),
        obj(vec![("type", s("message_stop"))]),
    ]
}

#[test]
fn complete_response_gives_first_text() {
    let r = obj(vec![("content", Json::Array(vec![obj(vec![("text", s("A cat."))])]))]);
    assert_eq!(decode_complete(&registry(), HAIKU, &r).unwrap(), "A cat.");
    assert_eq!(decode_complete(&registry(), SONNET, &response("Two dogs.")).unwrap(), "Two dogs.");
}

#[test]
fn complete_response_takes_only_the_first_item() {
    let r = obj(vec![(
        "content",
        Json::Array(vec![obj(vec![("text", s("first"))]), obj(vec![("text", s("second"))])]),
    )]);
    assert_eq!(decode_complete(&registry(), HAIKU, &r).unwrap(), "first");
}

#[test]
fn complete_response_without_content_is_malformed() {
    let empty = obj(vec![("content", Json::Array(vec![]))]);
    assert!(matches!(decode_complete(&registry(), HAIKU, &empty), Err(BedrockError::MalformedResponse)));
    let missing = obj(vec![("id", s("x"))]);
    assert!(matches!(decode_complete(&registry(), HAIKU, &missing), Err(BedrockError::MalformedResponse)));
    let not_text = obj(vec![("content", Json::Array(vec![obj(vec![("text", Json::Null)])]))]);
    assert!(matches!(decode_complete(&registry(), HAIKU, &not_text), Err(BedrockError::MalformedResponse)));
    assert!(matches!(decode_complete(&registry(), HAIKU, &Json::Bool(true)), Err(BedrockError::MalformedResponse)));
}

#[test]
fn decoding_an_unknown_model_fails() {
    match decode_complete(&registry(), "amazon.titan-text-express-v1", &response("x")) {
        Err(BedrockError::UnknownModel(m)) => assert_eq!(m, "amazon.titan-text-express-v1"),
        other => panic!("unexpected {:?}", other),
    }
    match decode_chunk(&registry(), "meta.llama2-13b-chat-v1", &delta("text_delta", Some("x"))) {
        Err(BedrockError::UnknownModel(m)) => assert_eq!(m, "meta.llama2-13b-chat-v1"),
        other => panic!("unexpected {:?}", other),
    }
}

#[test]
fn streaming_scenario_decodes_each_chunk() {
    let outs: Vec<String> =
        scenario_chunks().iter().map(|c| decode_chunk(&registry(), HAIKU, c).unwrap()).collect();
    assert_eq!(outs, vec!["", "Hel", "lo", ""]);
    assert_eq!(outs.concat(), "Hello");
    assert_eq!(concat_chunks(&registry(), HAIKU, &scenario_chunks()).unwrap(), "Hello");
}

#[test]
fn streamed_text_matches_complete_response() {
    let streamed = concat_chunks(&registry(), SONNET, &scenario_chunks()).unwrap();
    let complete = decode_complete(&registry(), SONNET, &response("Hello")).unwrap();
    assert_eq!(streamed, complete);
}

#[test]
fn non_text_delta_is_empty() {
    for kind in ["input_json_delta", "thinking_delta", "TEXT_DELTA", ""] {
        assert_eq!(decode_chunk(&registry(), HAIKU, &delta(kind, Some("ignored"))).unwrap(), "");
    }
    let delta_not_object = obj(vec![("delta", s("text_delta"))]);
    assert_eq!(decode_chunk(&registry(), HAIKU, &delta_not_object).unwrap(), "");
    assert_eq!(decode_chunk(&registry(), HAIKU, &Json::Array(vec![])).unwrap(), "");
}

#[test]
fn text_delta_without_text_is_malformed() {
    assert!(matches!(
        decode_chunk(&registry(), HAIKU, &delta("text_delta", None)),
        Err(BedrockError::MalformedResponse)
    ));
    let text_not_string =
        obj(vec![("delta", obj(vec![("type", s("text_delta")), ("text", Json::Number("3".to_string()))]))]);
    assert!(matches!(decode_chunk(&registry(), HAIKU, &text_not_string), Err(BedrockError::MalformedResponse)));
}

#[test]
fn stream_decoder_keeps_output_over_a_bad_chunk() {
    let mut dec = StreamDecoder::new(HAIKU);
    assert!(matches!(dec.step(&registry(), &StreamEvent::Chunk(Some(delta("text_delta", Some("Hel"))))), Ok(StepAction::Emit(t)) if t == "Hel"));
    assert!(matches!(
        dec.step(&registry(), &StreamEvent::Chunk(Some(delta("text_delta", None)))),
        Ok(StepAction::Report(BedrockError::MalformedResponse))
    ));
    assert_eq!(dec.output, "Hel");
    assert!(matches!(dec.step(&registry(), &StreamEvent::Chunk(None)), Ok(StepAction::Report(BedrockError::MalformedResponse))));
    assert!(matches!(dec.step(&registry(), &StreamEvent::EmptyChunk), Ok(StepAction::Skip)));
    assert!(matches!(dec.step(&registry(), &StreamEvent::Chunk(Some(delta("text_delta", Some("lo"))))), Ok(StepAction::Emit(t)) if t == "lo"));
    assert_eq!(dec.output, "Hello");
}

#[test]
fn stream_decoder_scenario_outputs() {
    let mut dec = StreamDecoder::new(SONNET);
    let mut outs = Vec::new();
    for c in scenario_chunks() {
        match dec.step(&registry(), &StreamEvent::Chunk(Some(c))).unwrap() {
            StepAction::Emit(t) => outs.push(t),
            other => panic!("unexpected {:?}", other),
        }
    }
    assert_eq!(outs, vec!["", "Hel", "lo", ""]);
    assert_eq!(dec.output, "Hello");
}

#[test]
fn stream_decoder_rejects_other_events() {
    let mut dec = StreamDecoder::new(HAIKU);
    dec.step(&registry(), &StreamEvent::Chunk(Some(delta("text_delta", Some("a"))))).unwrap();
    assert!(matches!(dec.step(&registry(), &StreamEvent::Other), Err(BedrockError::UnrecoverableEvent)));
    assert_eq!(dec.output, "a");
}

#[test]
fn stream_decoder_reports_unknown_model() {
    let mut dec = StreamDecoder::new("cohere.command-text-v14");
    match dec.step(&registry(), &StreamEvent::Chunk(Some(delta("text_delta", Some("a"))))) {
        Ok(StepAction::Report(BedrockError::UnknownModel(m))) => assert_eq!(m, "cohere.command-text-v14"),
        other => panic!("unexpected {:?}", other),
    }
    assert_eq!(dec.output, "");
}

#[test]
fn process_response_branches_on_mode() {
    let r = response("whole");
    assert_eq!(process_response(&registry(), HAIKU, Some(&r), false).unwrap(), "whole");
    assert_eq!(process_response(&registry(), HAIKU, Some(&r), true).unwrap(), "");
    let c = delta("text_delta", Some("part"));
    assert_eq!(process_response(&registry(), HAIKU, Some(&c), true).unwrap(), "part");
    assert!(matches!(process_response(&registry(), HAIKU, Some(&c), false), Err(BedrockError::MalformedResponse)));
    assert!(matches!(process_response(&registry(), HAIKU, None, false), Err(BedrockError::MalformedResponse)));
    assert!(matches!(process_response(&registry(), "x", None, true), Err(BedrockError::UnknownModel(_))));
}

#[test]
fn json_get_finds_first_member() {
    let j = obj(vec![("a", s("1")), ("b", s("2")), ("a", s("3"))]);
    assert_eq!(j.get("a").and_then(|v| v.as_str()), Some("1"));
    assert_eq!(j.get("b").and_then(|v| v.as_str()), Some("2"));
    assert!(j.get("c").is_none());
    assert!(s("a").get("a").is_none());
    assert!(Json::Null.as_str().is_none());
}
