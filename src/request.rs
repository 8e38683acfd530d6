//! Model-specific request payloads and the wire envelope built from them.
use vstd::prelude::*;
use crate::error::BedrockError;
use crate::models::{ModelConfigs, ModelFamily, model_family, spec_family};

verus! {

/// An image handed over by the caller, already base64-encoded.
#[derive(Debug)]
pub struct Image {
    pub base64: String,
    pub extension: String,
}

/// The image reference that a ClaudeV3 request carries.
#[derive(Debug)]
pub struct ClaudeImageSource {
    pub image_type: String,
    pub data: String,
    pub media_type: String,
}

/// The body of a ClaudeV3 messages request.
#[derive(Debug)]
pub struct ClaudeV3Body {
    pub anthropic_version: String,
    pub max_tokens: u32,
    pub role: String,
    pub content_type: String,
    pub question: Option<String>,
    pub image: Option<ClaudeImageSource>,
}

/// One request, in the shape of the model family it is for.
#[derive(Debug)]
pub enum BedrockCallSum {
    Claude3BCS { model_id: String, body: ClaudeV3Body },
}

/// The model-agnostic envelope handed to the invocation gateway.
#[derive(Debug)]
pub struct BedrockCall {
    pub body: String,
    pub content_type: String,
    pub accept: String,
    pub model_id: String,
}

impl BedrockCall {
    pub fn new(body: String, content_type: String, accept: String, model_id: String) -> (r: BedrockCall)
        ensures
            r.body == body,
            r.content_type == content_type,
            r.accept == accept,
            r.model_id == model_id,
    {
        BedrockCall { body, content_type, accept, model_id }
    }
}

/// The JSON string literal that encodes `s`, quotes and escapes included;
/// `None` where the encoder reports an error.
pub uninterp spec fn json_string_of(s: Seq<char>) -> Option<Seq<char>>;

/// Relies on serde_json::to_string on a `str`: the JSON string literal for
/// the text, which depends on the text alone.
#[verifier::external_body]
fn quote_json(s: &str) -> (r: Option<String>)
    ensures
        match r {
            Some(q) => json_string_of(s@) == Some(q@),
            None => json_string_of(s@) is None,
        },
{
    serde_json::to_string(s).ok()
}

/// The encoded form of `s`, where the encoder accepts it.
pub open spec fn quoted(s: Seq<char>) -> Seq<char> {
    json_string_of(s).unwrap()
}

/// Whether the encoder accepts `s`.
pub open spec fn quotable(s: Seq<char>) -> bool {
    json_string_of(s) is Some
}

/// The decimal numeral of `n`, without leading zeros.
pub open spec fn decimal(n: nat) -> Seq<char>
    decreases n,
{
    if n < 10 {
        "0123456789"@.subrange(n as int, n + 1int)
    } else {
        decimal(n / 10) + "0123456789"@.subrange((n % 10) as int, (n % 10) + 1int)
    }
}

/// The image reference a request carries for `img`.
pub open spec fn spec_image_source(img: Image) -> (Seq<char>, Seq<char>, Seq<char>) {
    ("base64"@, img.base64@, "image/"@ + img.extension@)
}

/// Whether `src` is the image reference built from `img`.
pub open spec fn image_source_of(src: ClaudeImageSource, img: Image) -> bool {
    (src.image_type@, src.data@, src.media_type@) == spec_image_source(img)
}

/// Whether `body` is the ClaudeV3 body for `question` and `image` under `defaults`.
pub open spec fn claude_body_of(
    body: ClaudeV3Body,
    question: Option<String>,
    image: Option<Image>,
    defaults: ModelConfigs,
) -> bool {
    &&& body.anthropic_version == defaults.claude_v3.anthropic_version
    &&& body.max_tokens == defaults.claude_v3.max_tokens
    &&& body.role == defaults.claude_v3.role
    &&& body.content_type == defaults.claude_v3.default_content_type
    &&& body.question == question
    &&& match (body.image, image) {
        (Some(src), Some(img)) => image_source_of(src, img),
        (None, None) => true,
        _ => false,
    }
}

fn image_source(img: &Image) -> (r: ClaudeImageSource)
    ensures
        image_source_of(r, *img),
{
    let mut media_type = String::from_str("image/");
    media_type.append(img.extension.as_str());
    ClaudeImageSource {
        image_type: String::from_str("base64"),
        data: img.base64.clone(),
        media_type,
    }
}

/// Builds the request for `model_id` with the defaults of its family;
/// fails with `UnknownModel` for an identifier outside the known set.
pub fn q_to_bcs_with_defaults(
    question: Option<String>,
    model_id: &str,
    image: Option<&Image>,
    defaults: &ModelConfigs,
) -> (r: Result<BedrockCallSum, BedrockError>)
    ensures
        spec_family(defaults.models@, model_id@) is None ==> (r matches Err(BedrockError::UnknownModel(m))
            && m@ == model_id@),
        spec_family(defaults.models@, model_id@) == Some(ModelFamily::ClaudeV3) ==> (r matches Ok(
            BedrockCallSum::Claude3BCS { model_id: m, body },
        ) && m@ == model_id@ && claude_body_of(
            body,
            question,
            match image {
                Some(i) => Some(*i),
                None => None,
            },
            *defaults,
        )),
{
    match model_family(&defaults.models, model_id) {
        Some(ModelFamily::ClaudeV3) => {
            let claude_image = match image {
                Some(img) => Some(image_source(img)),
                None => None,
            };
            let d = &defaults.claude_v3;
            let body = ClaudeV3Body {
                anthropic_version: d.anthropic_version.clone(),
                max_tokens: d.max_tokens,
                role: d.role.clone(),
                content_type: d.default_content_type.clone(),
                question,
                image: claude_image,
            };
            Ok(BedrockCallSum::Claude3BCS { model_id: model_id.to_owned(), body })
        },
        None => Err(BedrockError::UnknownModel(model_id.to_owned())),
    }
}

/// An image reference as plain texts: encoding, data, media type.
pub type SourceView = (Seq<char>, Seq<char>, Seq<char>);

/// An image reference as plain texts.
pub open spec fn source_view(src: ClaudeImageSource) -> SourceView {
    (src.image_type@, src.data@, src.media_type@)
}

/// An optional question as plain text.
pub open spec fn question_view(q: Option<String>) -> Option<Seq<char>> {
    match q {
        Some(s) => Some(s@),
        None => None,
    }
}

/// An optional image reference as plain texts.
pub open spec fn image_view(i: Option<ClaudeImageSource>) -> Option<SourceView> {
    match i {
        Some(src) => Some(source_view(src)),
        None => None,
    }
}

/// Whether every text that a ClaudeV3 body puts on the wire can be encoded.
pub open spec fn claude_quotable(
    version: Seq<char>,
    role: Seq<char>,
    content_type: Seq<char>,
    question: Option<Seq<char>>,
    image: Option<SourceView>,
) -> bool {
    &&& quotable(version)
    &&& quotable(role)
    &&& (question matches Some(q) ==> quotable(content_type) && quotable(q))
    &&& (image matches Some(src) ==> quotable(src.0) && quotable(src.1) && quotable(src.2))
}

/// The content item that carries an image.
pub open spec fn image_part(src: SourceView) -> Seq<char> {
    "{\"type\":\"image\",\"source\":{\"type\":"@ + quoted(src.0) + ",\"media_type\":"@ + quoted(
        src.2,
    ) + ",\"data\":"@ + quoted(src.1) + "}}"@
}

/// The content item that carries the question.
pub open spec fn text_part(content_type: Seq<char>, question: Seq<char>) -> Seq<char> {
    "{\"type\":"@ + quoted(content_type) + ",\"text\":"@ + quoted(question) + "}"@
}

/// The content list of the single user message: the image first, then the question.
pub open spec fn content_text(
    content_type: Seq<char>,
    question: Option<Seq<char>>,
    image: Option<SourceView>,
) -> Seq<char> {
    match (image, question) {
        (Some(src), Some(q)) => "["@ + image_part(src) + ","@ + text_part(content_type, q) + "]"@,
        (Some(src), None) => "["@ + image_part(src) + "]"@,
        (None, Some(q)) => "["@ + text_part(content_type, q) + "]"@,
        (None, None) => "[]"@,
    }
}

/// The JSON text of a ClaudeV3 body.
pub open spec fn claude_text(
    version: Seq<char>,
    max_tokens: nat,
    role: Seq<char>,
    content_type: Seq<char>,
    question: Option<Seq<char>>,
    image: Option<SourceView>,
) -> Seq<char> {
    "{\"anthropic_version\":"@ + quoted(version) + ",\"max_tokens\":"@ + decimal(max_tokens)
        + ",\"messages\":[{\"role\":"@ + quoted(role) + ",\"content\":"@ + content_text(
        content_type,
        question,
        image,
    ) + "}]}"@
}

/// Whether every text of `b` can be encoded.
pub open spec fn body_quotable(b: ClaudeV3Body) -> bool {
    claude_quotable(
        b.anthropic_version@,
        b.role@,
        b.content_type@,
        question_view(b.question),
        image_view(b.image),
    )
}

/// The JSON text of `b`.
pub open spec fn body_text(b: ClaudeV3Body) -> Seq<char> {
    claude_text(
        b.anthropic_version@,
        b.max_tokens as nat,
        b.role@,
        b.content_type@,
        question_view(b.question),
        image_view(b.image),
    )
}

/// Whether `call` is the envelope for `bcs`.
pub open spec fn envelope_of(call: BedrockCall, bcs: BedrockCallSum) -> bool {
    match bcs {
        BedrockCallSum::Claude3BCS { model_id, body } => {
            &&& call.body@ == body_text(body)
            &&& call.content_type@ == "application/json"@
            &&& call.accept@ == "*/*"@
            &&& call.model_id == model_id
        },
    }
}

/// Whether the envelope for `bcs` can be encoded.
pub open spec fn envelope_encodable(bcs: BedrockCallSum) -> bool {
    match bcs {
        BedrockCallSum::Claude3BCS { body, .. } => body_quotable(body),
    }
}

fn push_quoted(out: &mut String, s: &str) -> (ok: bool)
    ensures
        ok == quotable(s@),
        ok ==> final(out)@ == old(out)@ + quoted(s@),
{
    match quote_json(s) {
        Some(q) => {
            out.append(q.as_str());
            true
        },
        None => false,
    }
}

fn push_decimal(out: &mut String, n: u32)
    ensures
        final(out)@ == old(out)@ + decimal(n as nat),
    decreases n,
{
    let digits = "0123456789";
    proof {
        reveal_strlit("0123456789");
    }
    if n < 10 {
        out.append(digits.substring_char(n as usize, n as usize + 1));
    } else {
        push_decimal(out, n / 10);
        let d = (n % 10) as usize;
        out.append(digits.substring_char(d, d + 1));
        assert(final(out)@ =~= old(out)@ + decimal(n as nat));
    }
}

fn push_image_part(out: &mut String, src: &ClaudeImageSource) -> (ok: bool)
    ensures
        ok == (quotable(src.image_type@) && quotable(src.media_type@) && quotable(src.data@)),
        ok ==> final(out)@ =~= old(out)@ + image_part(source_view(*src)),
{
    out.append("{\"type\":\"image\",\"source\":{\"type\":");
    if !push_quoted(out, src.image_type.as_str()) {
        return false;
    }
    out.append(",\"media_type\":");
    if !push_quoted(out, src.media_type.as_str()) {
        return false;
    }
    out.append(",\"data\":");
    if !push_quoted(out, src.data.as_str()) {
        return false;
    }
    out.append("}}");
    true
}

fn push_text_part(out: &mut String, content_type: &String, question: &String) -> (ok: bool)
    ensures
        ok == (quotable(content_type@) && quotable(question@)),
        ok ==> final(out)@ =~= old(out)@ + text_part(content_type@, question@),
{
    out.append("{\"type\":");
    if !push_quoted(out, content_type.as_str()) {
        return false;
    }
    out.append(",\"text\":");
    if !push_quoted(out, question.as_str()) {
        return false;
    }
    out.append("}");
    true
}

fn push_content(out: &mut String, b: &ClaudeV3Body) -> (ok: bool)
    ensures
        ok == ((b.question matches Some(q) ==> quotable(b.content_type@) && quotable(q@)) && (b.image matches Some(src)
            ==> quotable(src.image_type@) && quotable(src.media_type@) && quotable(src.data@))),
        ok ==> final(out)@ =~= old(out)@ + content_text(
            b.content_type@,
            question_view(b.question),
            image_view(b.image),
        ),
{
    let ghost start = out@;
    out.append("[");
    if let Some(src) = &b.image {
        if !push_image_part(out, src) {
            return false;
        }
        if b.question.is_some() {
            out.append(",");
        }
    }
    if let Some(q) = &b.question {
        if !push_text_part(out, &b.content_type, q) {
            return false;
        }
    }
    out.append("]");
    proof {
        if b.image is Some && b.question is Some {
            assert(out@ =~= start + content_text(b.content_type@, question_view(b.question), image_view(b.image)));
        } else if b.image is Some {
            assert(out@ =~= start + content_text(b.content_type@, question_view(b.question), image_view(b.image)));
        } else if b.question is Some {
            assert(out@ =~= start + content_text(b.content_type@, question_view(b.question), image_view(b.image)));
        } else {
            reveal_strlit("[");
            reveal_strlit("]");
            reveal_strlit("[]");
            assert(out@ =~= start + content_text(b.content_type@, question_view(b.question), image_view(b.image)));
        }
    }
    true
}

/// The JSON text of `b`; `None` where one of its texts cannot be encoded.
pub fn body_json(b: &ClaudeV3Body) -> (r: Option<String>)
    ensures
        r is Some == body_quotable(*b),
        r matches Some(t) ==> t@ == body_text(*b),
{
    let mut out = String::from_str("{\"anthropic_version\":");
    if !push_quoted(&mut out, b.anthropic_version.as_str()) {
        return None;
    }
    out.append(",\"max_tokens\":");
    push_decimal(&mut out, b.max_tokens);
    out.append(",\"messages\":[{\"role\":");
    if !push_quoted(&mut out, b.role.as_str()) {
        return None;
    }
    out.append(",\"content\":");
    if !push_content(&mut out, b) {
        return None;
    }
    out.append("}]}");
    assert(out@ =~= body_text(*b));
    Some(out)
}

/// Wraps a request into the envelope the gateway takes; fails with
/// `Serialization` exactly when the body cannot be encoded.
pub fn bcs_to_bedrock_call(bcs: BedrockCallSum) -> (r: Result<BedrockCall, BedrockError>)
    ensures
        envelope_encodable(bcs) ==> (r matches Ok(call) && envelope_of(call, bcs)),
        !envelope_encodable(bcs) ==> (r matches Err(BedrockError::Serialization)),
{
    match bcs {
        BedrockCallSum::Claude3BCS { model_id, body } => {
            match body_json(&body) {
                Some(text) => Ok(
                    BedrockCall::new(
                        text,
                        String::from_str("application/json"),
                        String::from_str("*/*"),
                        model_id,
                    ),
                ),
                None => Err(BedrockError::Serialization),
            }
        },
    }
}

/// The image reference built from a caller's image, as plain texts.
pub open spec fn caller_image_view(image: Option<&Image>) -> Option<SourceView> {
    match image {
        Some(i) => Some(spec_image_source(*i)),
        None => None,
    }
}

/// Whether the request for `question` and `image` under `defaults` can be encoded.
pub open spec fn call_encodable(
    question: Seq<char>,
    image: Option<SourceView>,
    defaults: ModelConfigs,
) -> bool {
    let d = defaults.claude_v3;
    claude_quotable(d.anthropic_version@, d.role@, d.default_content_type@, Some(question), image)
}

/// The body text of the request for `question` and `image` under `defaults`.
pub open spec fn call_text(
    question: Seq<char>,
    image: Option<SourceView>,
    defaults: ModelConfigs,
) -> Seq<char> {
    let d = defaults.claude_v3;
    claude_text(
        d.anthropic_version@,
        d.max_tokens as nat,
        d.role@,
        d.default_content_type@,
        Some(question),
        image,
    )
}

/// Whether `r` is what building the envelope for `question`, `image` and
/// `model_id` under `defaults` yields: `UnknownModel` for an identifier
/// outside the known set, `Serialization` where a text cannot be encoded,
/// else the envelope.
pub open spec fn built_call(
    r: Result<BedrockCall, BedrockError>,
    question: Seq<char>,
    image: Option<SourceView>,
    model_id: Seq<char>,
    defaults: ModelConfigs,
) -> bool {
    if spec_family(defaults.models@, model_id) is None {
        r matches Err(BedrockError::UnknownModel(m)) && m@ == model_id
    } else if call_encodable(question, image, defaults) {
        &&& r matches Ok(call)
        &&& call.model_id@ == model_id
        &&& call.body@ == call_text(question, image, defaults)
        &&& call.content_type@ == "application/json"@
        &&& call.accept@ == "*/*"@
    } else {
        r matches Err(BedrockError::Serialization)
    }
}

/// Builds the envelope asking `question` (with `image`, if any) of `model_id`.
pub fn mk_bedrock_call(
    question: &String,
    image: Option<&Image>,
    model_id: &str,
    defaults: &ModelConfigs,
) -> (r: Result<BedrockCall, BedrockError>)
    ensures
        built_call(r, question@, caller_image_view(image), model_id@, *defaults),
{
    let bcs = q_to_bcs_with_defaults(Some(question.clone()), model_id, image, defaults);
    match bcs {
        Ok(bcs) => bcs_to_bedrock_call(bcs),
        Err(e) => Err(e),
    }
}

} // verus!
