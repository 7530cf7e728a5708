use vstd::prelude::*;
use crate::errors::ApiError;
use crate::request::str_eq;

verus! {

#[verifier::external_type_specification]
#[verifier::external_body]
pub struct ExValue(serde_json::Value);

/// A JSON document as plain library data. Numbers carry no payload: no field
/// of the response shape is numeric, and a number where the shape needs text
/// or structure is a shape mismatch either way.
pub enum JsonValue {
    Null,
    Bool(bool),
    Number,
    Text(String),
    Array(Vec<JsonValue>),
    Object(Vec<(String, JsonValue)>),
}

impl JsonValue {
    /// Relies on serde_json::Value's variants: each is carried over
    /// one-for-one, numbers to the bare marker.
    #[verifier::external_body]
    fn of_value(v: &serde_json::Value) -> JsonValue {
        match v {
            serde_json::Value::Null => JsonValue::Null,
            serde_json::Value::Bool(b) => JsonValue::Bool(*b),
            serde_json::Value::Number(_) => JsonValue::Number,
            serde_json::Value::String(s) => JsonValue::Text(s.clone()),
            serde_json::Value::Array(a) => JsonValue::Array(
                a.iter().map(JsonValue::of_value).collect(),
            ),
            serde_json::Value::Object(o) => JsonValue::Object(
                o.iter().map(|(k, x)| (k.clone(), JsonValue::of_value(x))).collect(),
            ),
        }
    }
}

/// What serde_json parses a text to, read as plain library data: object
/// entries in the map's iteration order, numbers collapsed to the bare
/// marker; or the parser's own error description where the text is not one
/// JSON document.
pub uninterp spec fn json_of(s: Seq<char>) -> Result<JsonValue, Seq<char>>;

/// Relies on serde_json::from_str::<Value>: parsing is a pure function of
/// the text, failing exactly on text that is not one JSON document; the
/// error description is the parser's own.
#[verifier::external_body]
fn parse_json(s: &str) -> (r: Result<JsonValue, String>)
    ensures
        r is Ok <==> json_of(s@) is Ok,
        r matches Ok(v) ==> (json_of(s@) matches Ok(w) && w == v),
        r matches Err(e) ==> (json_of(s@) matches Err(c) && c == e@),
{
    match serde_json::from_str::<serde_json::Value>(s) {
        Ok(v) => Ok(JsonValue::of_value(&v)),
        Err(e) => Err(e.to_string()),
    }
}

/// The value under `key` among an object's entries: the first entry with
/// that key. (serde_json's map holds each key once.)
pub open spec fn json_lookup(fields: Seq<(String, JsonValue)>, key: Seq<char>) -> Option<JsonValue>
    decreases fields.len(),
{
    if fields.len() == 0 {
        None
    } else if fields[0].0@ == key {
        Some(fields[0].1)
    } else {
        json_lookup(fields.drop_first(), key)
    }
}

proof fn lemma_json_lookup_prefix(fields: Seq<(String, JsonValue)>, key: Seq<char>, i: int)
    requires
        0 <= i <= fields.len(),
        forall|k: int| 0 <= k < i ==> #[trigger] fields[k].0@ != key,
    ensures
        i == fields.len() ==> json_lookup(fields, key) is None,
        i < fields.len() && fields[i].0@ == key ==> json_lookup(fields, key) == Some(fields[i].1),
    decreases i,
{
    if i > 0 {
        assert(forall|k: int| 0 <= k < fields.len() - 1
            ==> #[trigger] fields.drop_first()[k] == fields[k + 1]);
        lemma_json_lookup_prefix(fields.drop_first(), key, i - 1);
    }
}

fn lookup<'a>(fields: &'a Vec<(String, JsonValue)>, key: &str) -> (r: Option<&'a JsonValue>)
    ensures
        r is Some <==> json_lookup(fields@, key@) is Some,
        r matches Some(v) ==> json_lookup(fields@, key@) == Some(*v),
{
    let n = fields.len();
    let mut i: usize = 0;
    while i < n
        invariant
            0 <= i <= n,
            n == fields@.len(),
            forall|k: int| 0 <= k < i ==> #[trigger] fields@[k].0@ != key@,
        decreases n - i,
    {
        if str_eq(fields[i].0.as_str(), key) {
            proof {
                lemma_json_lookup_prefix(fields@, key@, i as int);
            }
            return Some(&fields[i].1);
        }
        i = i + 1;
    }
    proof {
        lemma_json_lookup_prefix(fields@, key@, n as int);
    }
    None
}

// ---------------------------------------------------------------------------
// The response model
// ---------------------------------------------------------------------------

/// One image-bearing unit of a response payload.
pub struct ResponseInlineData {
    pub mime_type: String,
    pub data: String,
}

/// One unit of a response payload: optional text, optional image data.
pub struct ResponsePart {
    pub inline_data: Option<ResponseInlineData>,
    pub text: Option<String>,
}

/// The ordered parts of one candidate.
pub struct CandidateContent {
    pub parts: Vec<ResponsePart>,
}

/// One candidate answer of the backend.
pub struct Candidate {
    pub content: CandidateContent,
}

/// An explicit error object of the backend.
pub struct GeminiError {
    pub message: String,
}

/// A parsed response body: optional candidates, optional explicit error.
pub struct GeminiResponse {
    pub candidates: Option<Vec<Candidate>>,
    pub error: Option<GeminiError>,
}

// ---------------------------------------------------------------------------
// The response shape, over the JSON document
// ---------------------------------------------------------------------------

/// The "text" field of a part object: the text's characters where the field
/// holds a string, `None` where it is absent or null.
pub open spec fn part_text_json(v: JsonValue) -> Option<Seq<char>> {
    match v {
        JsonValue::Object(fields) => match json_lookup(fields@, "text"@) {
            Some(JsonValue::Text(s)) => Some(s@),
            _ => None,
        },
        _ => None,
    }
}

/// The "inlineData" field of a part object, as (mime type, data), where it
/// holds an object with both strings; `None` where it is absent or null.
pub open spec fn part_inline_json(v: JsonValue) -> Option<(Seq<char>, Seq<char>)> {
    match v {
        JsonValue::Object(fields) => match json_lookup(fields@, "inlineData"@) {
            Some(JsonValue::Object(df)) => match (
                json_lookup(df@, "mimeType"@),
                json_lookup(df@, "data"@),
            ) {
                (Some(JsonValue::Text(mt)), Some(JsonValue::Text(d))) => Some((mt@, d@)),
                _ => None,
            },
            _ => None,
        },
        _ => None,
    }
}

/// The part object matches the expected shape: an object whose "text" is
/// absent, null or a string, and whose "inlineData" is absent, null or an
/// object holding string "mimeType" and "data".
pub open spec fn part_wf(v: JsonValue) -> bool {
    v matches JsonValue::Object(fields) && (
        match json_lookup(fields@, "text"@) {
            None => true,
            Some(JsonValue::Null) => true,
            Some(JsonValue::Text(_)) => true,
            Some(_) => false,
        }
    ) && (
        match json_lookup(fields@, "inlineData"@) {
            None => true,
            Some(JsonValue::Null) => true,
            Some(JsonValue::Object(df)) => (json_lookup(df@, "mimeType"@) matches Some(
                JsonValue::Text(_),
            )) && (json_lookup(df@, "data"@) matches Some(JsonValue::Text(_))),
            Some(_) => false,
        }
    )
}

/// The parsed part holds exactly what the part object holds, field by field.
pub open spec fn part_matches_json(p: ResponsePart, v: JsonValue) -> bool {
    &&& (p.text is Some <==> part_text_json(v) is Some)
    &&& (p.text matches Some(t) ==> part_text_json(v) == Some(t@))
    &&& (p.inline_data is Some <==> part_inline_json(v) is Some)
    &&& (p.inline_data matches Some(d) ==> part_inline_json(v) == Some((d.mime_type@, d.data@)))
}

/// The parts array of a candidate object: under "content", itself an object,
/// under "parts", an array. `None` on any other shape.
pub open spec fn candidate_parts_json(v: JsonValue) -> Option<Seq<JsonValue>> {
    match v {
        JsonValue::Object(fields) => match json_lookup(fields@, "content"@) {
            Some(JsonValue::Object(cf)) => match json_lookup(cf@, "parts"@) {
                Some(JsonValue::Array(pa)) => Some(pa@),
                _ => None,
            },
            _ => None,
        },
        _ => None,
    }
}

/// The candidate object matches the expected shape: it carries a parts array
/// and every part matches the part shape.
pub open spec fn candidate_wf(v: JsonValue) -> bool {
    candidate_parts_json(v) matches Some(ps) && forall|i: int|
        0 <= i < ps.len() ==> part_wf(#[trigger] ps[i])
}

/// The parsed candidate holds exactly the parts of the candidate object.
pub open spec fn candidate_matches_json(c: Candidate, v: JsonValue) -> bool {
    candidate_parts_json(v) matches Some(ps) && c.content.parts@.len() == ps.len()
        && forall|i: int| 0 <= i < ps.len() ==> part_matches_json(
            #[trigger] c.content.parts@[i], ps[i],
        )
}

/// The response's explicit error message, where the document carries an
/// "error" object with a string "message".
pub open spec fn response_error_json(v: JsonValue) -> Option<Seq<char>> {
    match v {
        JsonValue::Object(fields) => match json_lookup(fields@, "error"@) {
            Some(JsonValue::Object(ef)) => match json_lookup(ef@, "message"@) {
                Some(JsonValue::Text(m)) => Some(m@),
                _ => None,
            },
            _ => None,
        },
        _ => None,
    }
}

/// The response's candidates array, where present and non-null.
pub open spec fn response_candidates_json(v: JsonValue) -> Option<Seq<JsonValue>> {
    match v {
        JsonValue::Object(fields) => match json_lookup(fields@, "candidates"@) {
            Some(JsonValue::Array(arr)) => Some(arr@),
            _ => None,
        },
        _ => None,
    }
}

/// The document matches the expected response shape: an object whose "error"
/// is absent, null or an object with a string message, and whose
/// "candidates" is absent, null or an array of well-shaped candidates.
pub open spec fn response_wf(v: JsonValue) -> bool {
    v matches JsonValue::Object(fields) && (
        match json_lookup(fields@, "error"@) {
            None => true,
            Some(JsonValue::Null) => true,
            Some(JsonValue::Object(ef)) => json_lookup(ef@, "message"@) matches Some(
                JsonValue::Text(_),
            ),
            Some(_) => false,
        }
    ) && (
        match json_lookup(fields@, "candidates"@) {
            None => true,
            Some(JsonValue::Null) => true,
            Some(JsonValue::Array(arr)) => forall|i: int|
                0 <= i < arr@.len() ==> candidate_wf(#[trigger] arr@[i]),
            Some(_) => false,
        }
    )
}

/// The body parses into the expected response shape.
pub open spec fn body_shape_ok(s: Seq<char>) -> bool {
    json_of(s) matches Ok(v) && response_wf(v)
}

/// The explicit error message the body carries, if any.
pub open spec fn body_error_msg(s: Seq<char>) -> Option<Seq<char>> {
    match json_of(s) {
        Ok(v) => response_error_json(v),
        Err(_) => None,
    }
}

/// The candidates array the body carries, if any.
pub open spec fn body_candidates(s: Seq<char>) -> Option<Seq<JsonValue>> {
    match json_of(s) {
        Ok(v) => response_candidates_json(v),
        Err(_) => None,
    }
}


// ---------------------------------------------------------------------------
// Extraction
// ---------------------------------------------------------------------------

/// The part carries image data: its declared mime type begins with "image/".
pub open spec fn part_is_image(p: ResponsePart) -> bool {
    p.inline_data matches Some(d) && is_image_mime(d.mime_type@)
}

/// The mime type names an image: it begins with "image/".
pub open spec fn is_image_mime(m: Seq<char>) -> bool {
    m.len() >= 6 && m[0] == 'i' && m[1] == 'm' && m[2] == 'a' && m[3] == 'g' && m[4] == 'e'
        && m[5] == '/'
}

/// The image data of an image-bearing part.
pub open spec fn part_image_data(p: ResponsePart) -> Seq<char> {
    p.inline_data->Some_0.data@
}

/// The data of the first image-bearing part of the sequence, in order.
pub open spec fn first_image_in_parts(parts: Seq<ResponsePart>) -> Option<Seq<char>>
    decreases parts.len(),
{
    if parts.len() == 0 {
        None
    } else if part_is_image(parts[0]) {
        Some(part_image_data(parts[0]))
    } else {
        first_image_in_parts(parts.drop_first())
    }
}

/// The data of the first image-bearing part across all candidates, scanning
/// candidates in order and each candidate's parts in order.
pub open spec fn first_image_in_candidates(cands: Seq<Candidate>) -> Option<Seq<char>>
    decreases cands.len(),
{
    if cands.len() == 0 {
        None
    } else {
        match first_image_in_parts(cands[0].content.parts@) {
            Some(d) => Some(d),
            None => first_image_in_candidates(cands.drop_first()),
        }
    }
}

/// The same scan over the part objects of the JSON document: a part bears an
/// image when its inline data holds an image mime type.
pub open spec fn first_image_in_parts_json(ps: Seq<JsonValue>) -> Option<Seq<char>>
    decreases ps.len(),
{
    if ps.len() == 0 {
        None
    } else {
        match part_inline_json(ps[0]) {
            Some(md) => if is_image_mime(md.0) {
                Some(md.1)
            } else {
                first_image_in_parts_json(ps.drop_first())
            },
            None => first_image_in_parts_json(ps.drop_first()),
        }
    }
}

/// The same scan over the candidate objects of the JSON document.
pub open spec fn first_image_json(cands: Seq<JsonValue>) -> Option<Seq<char>>
    decreases cands.len(),
{
    if cands.len() == 0 {
        None
    } else {
        match candidate_parts_json(cands[0]) {
            Some(ps) => match first_image_in_parts_json(ps) {
                Some(d) => Some(d),
                None => first_image_json(cands.drop_first()),
            },
            None => first_image_json(cands.drop_first()),
        }
    }
}

proof fn lemma_parts_first_image(parts: Seq<ResponsePart>, ps: Seq<JsonValue>)
    requires
        parts.len() == ps.len(),
        forall|i: int| 0 <= i < ps.len() ==> part_matches_json(#[trigger] parts[i], ps[i]),
    ensures
        first_image_in_parts(parts) == first_image_in_parts_json(ps),
    decreases parts.len(),
{
    if parts.len() > 0 {
        assert(part_matches_json(parts[0], ps[0]));
        assert(forall|k: int| 0 <= k < parts.len() - 1
            ==> #[trigger] parts.drop_first()[k] == parts[k + 1]);
        assert(forall|k: int| 0 <= k < ps.len() - 1
            ==> #[trigger] ps.drop_first()[k] == ps[k + 1]);
        lemma_parts_first_image(parts.drop_first(), ps.drop_first());
    }
}

proof fn lemma_cands_first_image(cs: Seq<Candidate>, arr: Seq<JsonValue>)
    requires
        cs.len() == arr.len(),
        forall|i: int| 0 <= i < arr.len() ==> candidate_matches_json(#[trigger] cs[i], arr[i]),
    ensures
        first_image_in_candidates(cs) == first_image_json(arr),
    decreases cs.len(),
{
    if cs.len() > 0 {
        assert(candidate_matches_json(cs[0], arr[0]));
        lemma_parts_first_image(cs[0].content.parts@, candidate_parts_json(arr[0])->Some_0);
        assert(forall|k: int| 0 <= k < cs.len() - 1
            ==> #[trigger] cs.drop_first()[k] == cs[k + 1]);
        assert(forall|k: int| 0 <= k < arr.len() - 1
            ==> #[trigger] arr.drop_first()[k] == arr[k + 1]);
        lemma_cands_first_image(cs.drop_first(), arr.drop_first());
    }
}

proof fn lemma_first_image_parts_prefix(parts: Seq<ResponsePart>, j: int)
    requires
        0 <= j <= parts.len(),
        forall|k: int| 0 <= k < j ==> !part_is_image(parts[k]),
    ensures
        j == parts.len() ==> first_image_in_parts(parts) is None,
        j < parts.len() && part_is_image(parts[j]) ==> first_image_in_parts(parts) == Some(
            part_image_data(parts[j]),
        ),
    decreases j,
{
    if j > 0 {
        assert(!part_is_image(parts[0]));
        lemma_first_image_parts_prefix(parts.drop_first(), j - 1);
        assert(parts.drop_first().len() == parts.len() - 1);
        assert(forall|k: int| 0 <= k < parts.len() - 1 ==> parts.drop_first()[k] == parts[k + 1]);
    }
}

proof fn lemma_first_image_cands_prefix(cands: Seq<Candidate>, i: int)
    requires
        0 <= i <= cands.len(),
        forall|k: int| 0 <= k < i ==> first_image_in_parts(#[trigger] cands[k].content.parts@) is None,
    ensures
        i == cands.len() ==> first_image_in_candidates(cands) is None,
        i < cands.len() ==> first_image_in_candidates(cands) == (
            match first_image_in_parts(cands[i].content.parts@) {
                Some(d) => Some(d),
                None => first_image_in_candidates(cands.subrange(i + 1, cands.len() as int)),
            }
        ),
    decreases i,
{
    if i == 0 {
        if 0 < cands.len() {
            assert(cands.subrange(1, cands.len() as int) =~= cands.drop_first());
        }
    } else {
        lemma_first_image_cands_prefix(cands.drop_first(), i - 1);
        assert(forall|k: int| 0 <= k < cands.len() - 1 ==> cands.drop_first()[k] == cands[k + 1]);
        assert(first_image_in_parts(cands[0].content.parts@) is None);
        if i < cands.len() {
            assert(cands.drop_first().subrange(i, cands.len() - 1) =~= cands.subrange(
                i + 1,
                cands.len() as int,
            ));
        }
    }
}

fn part_image(p: &ResponsePart) -> (r: bool)
    ensures
        r == part_is_image(*p),
{
    match &p.inline_data {
        None => false,
        Some(d) => {
            let m = d.mime_type.as_str();
            if m.unicode_len() < 6 {
                false
            } else {
                m.get_char(0) == 'i' && m.get_char(1) == 'm' && m.get_char(2) == 'a'
                    && m.get_char(3) == 'g' && m.get_char(4) == 'e' && m.get_char(5) == '/'
            }
        },
    }
}

/// Walk a parsed response for its result. An explicit backend error takes
/// precedence over any candidate data; otherwise the first image-bearing part
/// wins, scanning candidates and their parts in order; text-only parts are
/// ignored; a response without a usable image yields NoImageGenerated.
pub fn extract_image(resp: &GeminiResponse) -> (r: Result<String, ApiError>)
    ensures
        resp.error matches Some(e) ==> (r matches Err(err) && err matches ApiError::ApiError(m)
            && m@ == e.message@),
        resp.error is None && resp.candidates is None ==> (r matches Err(err)
            && err is NoImageGenerated),
        resp.error is None && (resp.candidates matches Some(cs)) ==> (
            match first_image_in_candidates(resp.candidates->Some_0@) {
                Some(d) => r matches Ok(s) && s@ == d,
                None => r matches Err(err) && err is NoImageGenerated,
            }
        ),
{
    if let Some(e) = &resp.error {
        return Err(ApiError::ApiError(String::from_str(e.message.as_str())));
    }
    let cands = match &resp.candidates {
        None => { return Err(ApiError::NoImageGenerated); },
        Some(cs) => cs,
    };
    let n = cands.len();
    let mut i: usize = 0;
    while i < n
        invariant
            0 <= i <= n,
            n == cands@.len(),
            resp.error is None,
            resp.candidates == Some(*cands),
            forall|k: int| 0 <= k < i ==> first_image_in_parts(
                #[trigger] cands@[k].content.parts@,
            ) is None,
        decreases n - i,
    {
        let parts = &cands[i].content.parts;
        let np = parts.len();
        let mut j: usize = 0;
        while j < np
            invariant
                0 <= j <= np,
                0 <= i < n,
                n == cands@.len(),
                resp.error is None,
                resp.candidates == Some(*cands),
                np == cands@[i as int].content.parts@.len(),
                parts == cands@[i as int].content.parts,
                forall|k: int| 0 <= k < i ==> first_image_in_parts(
                    #[trigger] cands@[k].content.parts@,
                ) is None,
                forall|l: int| 0 <= l < j ==> !part_is_image(cands@[i as int].content.parts@[l]),
            decreases np - j,
        {
            if part_image(&parts[j]) {
                proof {
                    lemma_first_image_parts_prefix(cands@[i as int].content.parts@, j as int);
                    lemma_first_image_cands_prefix(cands@, i as int);
                }
                let d = match &parts[j].inline_data {
                    Some(d) => d,
                    None => { proof { assert(false); } unreached() },
                };
                return Ok(String::from_str(d.data.as_str()));
            }
            j = j + 1;
        }
        proof {
            lemma_first_image_parts_prefix(cands@[i as int].content.parts@, np as int);
        }
        i = i + 1;
    }
    proof {
        lemma_first_image_cands_prefix(cands@, n as int);
    }
    Err(ApiError::NoImageGenerated)
}

// ---------------------------------------------------------------------------
// Parsing a raw body
// ---------------------------------------------------------------------------

fn parse_part(v: &JsonValue) -> (r: Option<ResponsePart>)
    ensures
        r is Some <==> part_wf(*v),
        r matches Some(p) ==> part_matches_json(p, *v),
{
    let fields = match v {
        JsonValue::Object(fields) => fields,
        _ => { return None; },
    };
    let text = match lookup(fields, "text") {
        None => None,
        Some(t) => match t {
            JsonValue::Null => None,
            JsonValue::Text(s) => Some(String::from_str(s.as_str())),
            _ => { return None; },
        },
    };
    let inline_data = match lookup(fields, "inlineData") {
        None => None,
        Some(d) => match d {
            JsonValue::Null => None,
            JsonValue::Object(df) => {
                let mime_type = match lookup(df, "mimeType") {
                    Some(m) => match m {
                        JsonValue::Text(s) => String::from_str(s.as_str()),
                        _ => { return None; },
                    },
                    None => { return None; },
                };
                let data = match lookup(df, "data") {
                    Some(m) => match m {
                        JsonValue::Text(s) => String::from_str(s.as_str()),
                        _ => { return None; },
                    },
                    None => { return None; },
                };
                Some(ResponseInlineData { mime_type, data })
            },
            _ => { return None; },
        },
    };
    Some(ResponsePart { inline_data, text })
}

fn parse_candidate(v: &JsonValue) -> (r: Option<Candidate>)
    ensures
        r is Some <==> candidate_wf(*v),
        r matches Some(c) ==> candidate_matches_json(c, *v),
{
    let fields = match v {
        JsonValue::Object(fields) => fields,
        _ => { return None; },
    };
    let content = match lookup(fields, "content") {
        Some(c) => c,
        None => { return None; },
    };
    let cfields = match content {
        JsonValue::Object(cf) => cf,
        _ => { return None; },
    };
    let parts_arr = match lookup(cfields, "parts") {
        Some(p) => match p {
            JsonValue::Array(a) => a,
            _ => { return None; },
        },
        None => { return None; },
    };
    let mut parts: Vec<ResponsePart> = Vec::new();
    let n = parts_arr.len();
    let mut i: usize = 0;
    while i < n
        invariant
            0 <= i <= n,
            n == parts_arr@.len(),
            candidate_parts_json(*v) == Some(parts_arr@),
            parts@.len() == i,
            forall|k: int| 0 <= k < i ==> part_wf(#[trigger] parts_arr@[k]),
            forall|k: int| 0 <= k < i ==> part_matches_json(#[trigger] parts@[k], parts_arr@[k]),
        decreases n - i,
    {
        match parse_part(&parts_arr[i]) {
            None => {
                proof {
                    assert(!part_wf(parts_arr@[i as int]));
                    assert(candidate_parts_json(*v)->Some_0 == parts_arr@);
                    assert(!candidate_wf(*v));
                }
                return None;
            },
            Some(p) => { parts.push(p); },
        }
        i = i + 1;
    }
    Some(Candidate { content: CandidateContent { parts } })
}

/// Parse a raw response body into its optional candidates and optional
/// explicit error. `None` exactly where the body does not match the response
/// shape; a parsed result holds, field by field, what the document holds.
pub fn parse_gemini_response(body: &str) -> (r: Option<GeminiResponse>)
    ensures
        r is Some <==> body_shape_ok(body@),
        r matches Some(resp) ==> {
            &&& (resp.error is Some <==> body_error_msg(body@) is Some)
            &&& (resp.error matches Some(e) ==> body_error_msg(body@) == Some(e.message@))
            &&& (resp.candidates is Some <==> body_candidates(body@) is Some)
            &&& (resp.candidates matches Some(cs) ==> (body_candidates(body@) matches Some(arr)
                && cs@.len() == arr.len()
                && forall|i: int| 0 <= i < arr.len() ==> candidate_matches_json(
                    #[trigger] cs@[i], arr[i],
                )))
        },
{
    let v = match parse_json(body) {
        Err(_) => { return None; },
        Ok(v) => v,
    };
    let fields = match &v {
        JsonValue::Object(fields) => fields,
        _ => { return None; },
    };
    let error = match lookup(fields, "error") {
        None => None,
        Some(e) => match e {
            JsonValue::Null => None,
            JsonValue::Object(ef) => match lookup(ef, "message") {
                Some(m) => match m {
                    JsonValue::Text(s) => Some(GeminiError { message: String::from_str(s.as_str()) }),
                    _ => { return None; },
                },
                None => { return None; },
            },
            _ => { return None; },
        },
    };
    let candidates = match lookup(fields, "candidates") {
        None => None,
        Some(c) => match c {
            JsonValue::Null => None,
            JsonValue::Array(arr) => {
                let mut cands: Vec<Candidate> = Vec::new();
                let n = arr.len();
                let mut i: usize = 0;
                while i < n
                    invariant
                        0 <= i <= n,
                        n == arr@.len(),
                        json_of(body@) == Ok::<JsonValue, Seq<char>>(v),
                        v == JsonValue::Object(*fields),
                        json_lookup(fields@, "candidates"@) == Some(JsonValue::Array(*arr)),
                        cands@.len() == i,
                        forall|k: int| 0 <= k < i ==> candidate_wf(#[trigger] arr@[k]),
                        forall|k: int| 0 <= k < i ==> candidate_matches_json(
                            #[trigger] cands@[k], arr@[k],
                        ),
                    decreases n - i,
                {
                    match parse_candidate(&arr[i]) {
                        None => { return None; },
                        Some(cd) => { cands.push(cd); },
                    }
                    i = i + 1;
                }
                Some(cands)
            },
            _ => { return None; },
        },
    };
    Some(GeminiResponse { candidates, error })
}

/// The raw body capped for diagnostics: its first 200 characters.
pub open spec fn body_excerpt(s: Seq<char>) -> Seq<char> {
    if s.len() <= 200 {
        s
    } else {
        s.subrange(0, 200)
    }
}

/// The ParseError message for a body that does not match the response shape:
/// where the body is not JSON at all, the parser's own cause, a separator
/// and the capped excerpt; where it is JSON of the wrong shape, the capped
/// excerpt alone.
pub open spec fn parse_error_msg(s: Seq<char>) -> Seq<char> {
    match json_of(s) {
        Err(cause) => cause + ": "@ + body_excerpt(s),
        Ok(_) => body_excerpt(s),
    }
}

/// Parse a raw response body and walk it for its result. A body that does
/// not match the response shape yields ParseError, its message holding the
/// capped excerpt behind any cause the JSON parser gave; a parsed body is
/// judged exactly as extract_image judges it: the explicit error first, else
/// the first image-bearing part, else NoImageGenerated.
pub fn extract_from_body(body: &str) -> (r: Result<String, ApiError>)
    ensures
        !body_shape_ok(body@) ==> (r matches Err(ApiError::ParseError(m))
            && m@ == parse_error_msg(body@)),
        body_shape_ok(body@) ==> match body_error_msg(body@) {
            Some(msg) => r matches Err(ApiError::ApiError(em)) && em@ == msg,
            None => match body_candidates(body@) {
                None => r matches Err(err) && err is NoImageGenerated,
                Some(arr) => match first_image_json(arr) {
                    Some(d) => r matches Ok(s) && s@ == d,
                    None => r matches Err(err) && err is NoImageGenerated,
                },
            },
        },
{
    match parse_gemini_response(body) {
        None => {
            let n = body.unicode_len();
            let cut: usize = if n <= 200 { n } else { 200 };
            let excerpt = String::from_str(body.substring_char(0, cut));
            proof {
                if body@.len() <= 200 {
                    assert(body@.subrange(0, body@.len() as int) =~= body@);
                }
            }
            let msg = match parse_json(body) {
                Err(cause) => cause.concat(": ").concat(excerpt.as_str()),
                Ok(_) => excerpt,
            };
            Err(ApiError::ParseError(msg))
        },
        Some(resp) => {
            proof {
                if resp.candidates is Some {
                    lemma_cands_first_image(
                        resp.candidates->Some_0@, body_candidates(body@)->Some_0,
                    );
                }
            }
            extract_image(&resp)
        },
    }
}

} // verus!
