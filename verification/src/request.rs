use vstd::prelude::*;
use crate::codec::{b64_decode, b64_decode_of, is_png_header, be_u32, png_dimensions};
use crate::errors::ApiError;
use crate::ratio::{calculate_aspect_ratio, resolve_index, ratio_label};

verus! {

/// Which backend model a generation request is addressed to.
#[derive(Debug, Clone, Copy, PartialEq, Eq, Structural)]
pub enum Model {
    NanoBanana,
    NanoBananaPro,
}

/// The opaque backend model name each variant maps to: a pure, static lookup.
pub open spec fn gemini_model_name(m: Model) -> Seq<char> {
    match m {
        Model::NanoBanana => "gemini-2.5-flash-image"@,
        Model::NanoBananaPro => "gemini-3-pro-image-preview"@,
    }
}

impl Model {
    /// The backend model name for this variant.
    pub fn to_gemini_model(&self) -> (r: &'static str)
        ensures
            r@ == gemini_model_name(*self),
    {
        match self {
            Model::NanoBanana => "gemini-2.5-flash-image",
            Model::NanoBananaPro => "gemini-3-pro-image-preview",
        }
    }
}

pub(crate) fn str_eq(a: &str, b: &str) -> (r: bool)
    ensures
        r == (a@ == b@),
{
    let la = a.unicode_len();
    let lb = b.unicode_len();
    if la != lb {
        return false;
    }
    let mut i: usize = 0;
    while i < la
        invariant
            0 <= i <= la,
            la == a@.len(),
            la == b@.len(),
            forall|k: int| 0 <= k < i ==> a@[k] == b@[k],
        decreases la - i,
    {
        if a.get_char(i) != b.get_char(i) {
            return false;
        }
        i = i + 1;
    }
    proof {
        assert(a@ =~= b@);
    }
    true
}

/// Map the inbound model selector string to a model: "nano-banana-pro"
/// selects the pro model, every other value defaults to the fast one.
pub fn model_from_string(s: &str) -> (m: Model)
    ensures
        s@ == "nano-banana-pro"@ ==> m == Model::NanoBananaPro,
        s@ != "nano-banana-pro"@ ==> m == Model::NanoBanana,
{
    if str_eq(s, "nano-banana-pro") {
        Model::NanoBananaPro
    } else {
        Model::NanoBanana
    }
}

/// The backend endpoint for a model, with the API key as a query parameter.
pub fn build_request_url(model: Model, api_key: &str) -> (r: String)
    ensures
        r@ == "https://generativelanguage.googleapis.com/v1beta/models/"@
            + gemini_model_name(model) + ":generateContent?key="@ + api_key@,
{
    String::from_str("https://generativelanguage.googleapis.com/v1beta/models/")
        .concat(model.to_gemini_model())
        .concat(":generateContent?key=")
        .concat(api_key)
}

/// One image-bearing unit of the request payload: base64 data under a mime
/// type.
pub struct InlineData {
    pub mime_type: String,
    pub data: String,
}

/// One unit of the multi-part request payload: either text or image-bearing.
pub enum Part {
    Text { text: String },
    InlineData { inline_data: InlineData },
}

/// An ordered list of payload parts.
pub struct Content {
    pub parts: Vec<Part>,
}

/// The aspect-ratio hint of the generation options.
pub struct ImageConfig {
    pub aspect_ratio: String,
}

/// Generation options: the response modality (always image-only here) and an
/// optional aspect-ratio hint.
pub struct GenerationConfig {
    pub response_modalities: Vec<String>,
    pub image_config: Option<ImageConfig>,
}

/// A complete generation request: ordered contents plus options.
pub struct GeminiRequest {
    pub contents: Vec<Content>,
    pub generation_config: GenerationConfig,
}

/// The instructional prompt used when no reference images are present.
pub open spec fn prompt_without_refs(p: Seq<char>) -> Seq<char> {
    "Edit this image. The second image is a mask where white areas should be replaced. In the white masked areas, generate: "@
        + p
        + ". Keep the black areas unchanged. Match the style and lighting of the original image."@
}

/// The instructional prompt used when reference images are present.
pub open spec fn prompt_with_refs(p: Seq<char>) -> Seq<char> {
    "Edit the first image. The second image is a mask where white areas should be replaced. The additional images are references to help guide the generation. In the white masked areas, generate: "@
        + p
        + ". Use the reference images as context for the generation. Keep the black areas unchanged."@
}

/// The part is an image part tagged "image/png" carrying exactly `data`.
pub open spec fn is_png_part(p: Part, data: Seq<char>) -> bool {
    p matches Part::InlineData { inline_data }
        && inline_data.mime_type@ == "image/png"@
        && inline_data.data@ == data
}

/// Every entry of `refs` is valid standard base64.
pub open spec fn all_refs_valid(refs: Seq<String>) -> bool {
    forall|i: int| 0 <= i < refs.len() ==> b64_decode_of(refs[i]@) is Ok
}

fn png_part(data: &str) -> (p: Part)
    ensures
        is_png_part(p, data@),
{
    Part::InlineData {
        inline_data: InlineData {
            mime_type: String::from_str("image/png"),
            data: String::from_str(data),
        },
    }
}

/// Assemble the generation request: the source image, the mask, each
/// reference image in input order, then the instructional prompt, always
/// last; options fixed to image-only responses, with an aspect-ratio hint
/// computed from the source image exactly when reference images are present.
/// Malformed base64 in any image is rejected here, before network time.
pub fn build_generation_request(
    prompt: &str,
    image_base64: &str,
    mask_base64: &str,
    reference_images: &Vec<String>,
) -> (r: Result<GeminiRequest, ApiError>)
    ensures
        r is Ok <==> (b64_decode_of(image_base64@) is Ok && b64_decode_of(mask_base64@) is Ok
            && all_refs_valid(reference_images@)),
        r is Err ==> r matches Err(ApiError::InvalidImageData),
        r matches Ok(req) ==> {
            let parts = req.contents@[0].parts@;
            let nrefs = reference_images@.len() as int;
            &&& req.contents@.len() == 1
            &&& parts.len() == nrefs + 3
            &&& is_png_part(parts[0], image_base64@)
            &&& is_png_part(parts[1], mask_base64@)
            &&& forall|i: int| 0 <= i < nrefs ==> is_png_part(parts[2 + i], reference_images@[i]@)
            &&& (parts[nrefs + 2] matches Part::Text { text } && text@ == (
                if nrefs == 0 { prompt_without_refs(prompt@) } else { prompt_with_refs(prompt@) }
            ))
            &&& req.generation_config.response_modalities@.len() == 1
            &&& req.generation_config.response_modalities@[0]@ == "IMAGE"@
            &&& (nrefs == 0 ==> req.generation_config.image_config is None)
            &&& (nrefs > 0 ==> (b64_decode_of(image_base64@) matches Ok(bs) && {
                &&& is_png_header(bs) ==> (req.generation_config.image_config matches Some(ic)
                    && ic.aspect_ratio@ == ratio_label(resolve_index(be_u32(bs, 16), be_u32(bs, 20))))
                &&& !is_png_header(bs) ==> req.generation_config.image_config is None
            }))
        },
{
    let image_bytes = match b64_decode(image_base64) {
        Ok(b) => b,
        Err(_) => { return Err(ApiError::InvalidImageData); },
    };
    if b64_decode(mask_base64).is_err() {
        return Err(ApiError::InvalidImageData);
    }
    let nrefs = reference_images.len();
    let mut i: usize = 0;
    while i < nrefs
        invariant
            0 <= i <= nrefs,
            nrefs == reference_images@.len(),
            forall|k: int| 0 <= k < i ==> b64_decode_of(reference_images@[k]@) is Ok,
        decreases nrefs - i,
    {
        if b64_decode(reference_images[i].as_str()).is_err() {
            return Err(ApiError::InvalidImageData);
        }
        i = i + 1;
    }

    let mut parts: Vec<Part> = Vec::new();
    parts.push(png_part(image_base64));
    parts.push(png_part(mask_base64));
    let mut i: usize = 0;
    while i < nrefs
        invariant
            0 <= i <= nrefs,
            nrefs == reference_images@.len(),
            parts@.len() == i + 2,
            is_png_part(parts@[0], image_base64@),
            is_png_part(parts@[1], mask_base64@),
            forall|k: int| 0 <= k < i ==> is_png_part(parts@[2 + k], reference_images@[k]@),
        decreases nrefs - i,
    {
        parts.push(png_part(reference_images[i].as_str()));
        i = i + 1;
    }

    let prompt_text = if nrefs == 0 {
        String::from_str(
            "Edit this image. The second image is a mask where white areas should be replaced. In the white masked areas, generate: ",
        ).concat(prompt).concat(
            ". Keep the black areas unchanged. Match the style and lighting of the original image.",
        )
    } else {
        String::from_str(
            "Edit the first image. The second image is a mask where white areas should be replaced. The additional images are references to help guide the generation. In the white masked areas, generate: ",
        ).concat(prompt).concat(
            ". Use the reference images as context for the generation. Keep the black areas unchanged.",
        )
    };
    parts.push(Part::Text { text: prompt_text });

    let image_config = if nrefs > 0 {
        match png_dimensions(&image_bytes) {
            Some(dims) => Some(ImageConfig { aspect_ratio: calculate_aspect_ratio(dims.0, dims.1) }),
            None => None,
        }
    } else {
        None
    };

    let mut modalities: Vec<String> = Vec::new();
    modalities.push(String::from_str("IMAGE"));
    let mut contents: Vec<Content> = Vec::new();
    contents.push(Content { parts });
    Ok(GeminiRequest {
        contents,
        generation_config: GenerationConfig {
            response_modalities: modalities,
            image_config,
        },
    })
}

} // verus!
