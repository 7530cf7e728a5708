use vstd::prelude::*;

verus! {

/// Application identity handed to the UI layer.
pub struct AppInfo {
    pub name: String,
    pub version: String,
}

impl AppInfo {
    /// The application's info under its fixed name and a given version.
    pub fn new(version: String) -> (r: AppInfo)
        ensures
            r.name@ == "BananaSlice"@,
            r.version == version,
    {
        AppInfo { name: String::from_str("BananaSlice"), version }
    }
}

/// An opened image handed to the UI layer: its bytes as base64, its
/// dimensions, and its container format token.
pub struct ImageData {
    pub data: String,
    pub width: u32,
    pub height: u32,
    pub format: String,
}

/// The inbound generation request of the UI layer: the model selector, the
/// prompt, the source image and mask as base64, and an optional list of
/// reference images, forwarded to the backend call in input order.
pub struct GenerateRequest {
    pub model: String,
    pub prompt: String,
    pub image_base64: String,
    pub mask_base64: String,
    pub reference_images: Option<Vec<String>>,
}

/// The outbound generation response to the UI layer: either the generated
/// image as base64 or an error message, never both.
pub struct GenerateResponse {
    pub success: bool,
    pub image_base64: Option<String>,
    pub error: Option<String>,
}

impl GenerateResponse {
    /// A successful response carrying the generated image.
    pub fn ok(image_base64: String) -> (r: GenerateResponse)
        ensures
            r.success,
            r.image_base64 == Some(image_base64),
            r.error is None,
    {
        GenerateResponse { success: true, image_base64: Some(image_base64), error: None }
    }

    /// A failed response carrying the error message.
    pub fn failed(error: String) -> (r: GenerateResponse)
        ensures
            !r.success,
            r.image_base64 is None,
            r.error == Some(error),
    {
        GenerateResponse { success: false, image_base64: None, error: Some(error) }
    }
}

} // verus!
