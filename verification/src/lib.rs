mod codec;
mod commands;
mod composite;
mod errors;
mod keystore;
mod raster;
mod ratio;
mod request;
mod response;

pub use codec::{OutputFormat, png_dimensions, get_image_dimensions, output_format, decode_image,
    encode_image, b64_decode_of, b64_encode_of, decoded_image_of, encoded_image_of,
    lanczos3_resize_of, is_png_header, be_u32, format_code, format_of_token, lower_code,
    eq_ignore_ascii_case, decode_image_result, encode_image_result};
pub use commands::{AppInfo, ImageData, GenerateRequest, GenerateResponse};
pub use composite::{blend_channel, alpha_blend, in_patch_region, composited_channel,
    composite_rasters, blended_byte, blended_buffer, lemma_opaque_patch_composite,
    CompositeRequest, CompositeResponse, composite_output, composite_patch};
pub use errors::{ApiError, KeyringError};
pub use keystore::{api_key_from_contents, trimmed_of};
pub use raster::{Raster, pixel_index, lemma_pixel_index_bounds, lemma_pixel_index_injective};
pub use ratio::{calculate_aspect_ratio, resolve_index, ratio_label, lemma_resolve_scale_invariant,
    lemma_best_upto_first_min, best_upto, strictly_closer, ratio_err, ratio_w, ratio_h, abs_diff};
pub use request::{Model, gemini_model_name, model_from_string, build_request_url, InlineData, Part,
    Content, ImageConfig, GenerationConfig, GeminiRequest, prompt_without_refs, prompt_with_refs,
    is_png_part, all_refs_valid, build_generation_request};
pub use response::{ResponseInlineData, ResponsePart, CandidateContent, Candidate, GeminiError,
    GeminiResponse, part_is_image, part_image_data, is_image_mime, first_image_in_parts,
    first_image_in_candidates, extract_image, parse_gemini_response, extract_from_body,
    body_excerpt, JsonValue, json_of, json_lookup, part_text_json, part_inline_json, part_wf,
    part_matches_json, candidate_parts_json, candidate_wf, candidate_matches_json,
    response_error_json, response_candidates_json, response_wf, body_shape_ok, body_error_msg,
    body_candidates, first_image_in_parts_json, first_image_json, parse_error_msg};
