//! Image request and response types.

use vstd::prelude::*;
use vstd::utf8::encode_utf8;

use crate::encoding::{base64_decode, base64_standard_decode, decode_error_text};
use crate::error::OpenAIError;
use crate::text::str_equal;

verus! {

/// Image quality level.
#[derive(Debug, PartialEq, Eq)]
pub enum ImageQuality {
    Standard,
    Hd,
    Low,
    Medium,
    High,
    Auto,
    /// A value this version does not know (kept as sent).
    Other(String),
}

impl Clone for ImageQuality {
    fn clone(&self) -> (r: Self)
        ensures
            r == *self,
    {
        match self {
            ImageQuality::Standard => ImageQuality::Standard,
            ImageQuality::Hd => ImageQuality::Hd,
            ImageQuality::Low => ImageQuality::Low,
            ImageQuality::Medium => ImageQuality::Medium,
            ImageQuality::High => ImageQuality::High,
            ImageQuality::Auto => ImageQuality::Auto,
            ImageQuality::Other(s) => ImageQuality::Other(s.clone()),
        }
    }
}

impl ImageQuality {
    /// The wire name (the JSON string) of the value.
    pub open spec fn wire(&self) -> Seq<char> {
        match self {
            ImageQuality::Standard => "standard"@,
            ImageQuality::Hd => "hd"@,
            ImageQuality::Low => "low"@,
            ImageQuality::Medium => "medium"@,
            ImageQuality::High => "high"@,
            ImageQuality::Auto => "auto"@,
            ImageQuality::Other(s) => s@,
        }
    }

    /// Whether a wire name is one this version knows.
    pub open spec fn is_known(s: Seq<char>) -> bool {
        s == "standard"@ || s == "hd"@ || s == "low"@ || s == "medium"@ || s == "high"@ || s == "auto"@
    }

    /// The wire name of the value.
    pub fn as_str(&self) -> (r: &str)
        ensures
            r@ == self.wire(),
    {
        match self {
            ImageQuality::Standard => "standard",
            ImageQuality::Hd => "hd",
            ImageQuality::Low => "low",
            ImageQuality::Medium => "medium",
            ImageQuality::High => "high",
            ImageQuality::Auto => "auto",
            ImageQuality::Other(s) => s.as_str(),
        }
    }

    /// The value a wire name stands for; an unknown name is kept in
    /// `Other`.
    pub fn from_wire(s: &str) -> (r: ImageQuality)
        ensures
            r.wire() == s@,
            r is Other <==> !ImageQuality::is_known(s@),
    {
        if str_equal(s, "standard") {
            ImageQuality::Standard
        } else if str_equal(s, "hd") {
            ImageQuality::Hd
        } else if str_equal(s, "low") {
            ImageQuality::Low
        } else if str_equal(s, "medium") {
            ImageQuality::Medium
        } else if str_equal(s, "high") {
            ImageQuality::High
        } else if str_equal(s, "auto") {
            ImageQuality::Auto
        } else {
            ImageQuality::Other(s.to_string())
        }
    }
}
/// Image dimensions.
#[derive(Debug, Clone, Copy, PartialEq, Eq)]
pub enum ImageSize {
    Auto,
    S1024x1024,
    S1536x1024,
    S1024x1536,
    S256x256,
    S512x512,
    S1792x1024,
    S1024x1792,
}

impl ImageSize {
    /// The wire name (the JSON string) of the value.
    pub open spec fn wire(&self) -> Seq<char> {
        match self {
            ImageSize::Auto => "auto"@,
            ImageSize::S1024x1024 => "1024x1024"@,
            ImageSize::S1536x1024 => "1536x1024"@,
            ImageSize::S1024x1536 => "1024x1536"@,
            ImageSize::S256x256 => "256x256"@,
            ImageSize::S512x512 => "512x512"@,
            ImageSize::S1792x1024 => "1792x1024"@,
            ImageSize::S1024x1792 => "1024x1792"@,
        }
    }

    /// Whether a wire name is one this version knows.
    pub open spec fn is_known(s: Seq<char>) -> bool {
        s == "auto"@ || s == "1024x1024"@ || s == "1536x1024"@ || s == "1024x1536"@ || s == "256x256"@ || s == "512x512"@ || s == "1792x1024"@ || s == "1024x1792"@
    }

    /// The wire name of the value.
    pub fn as_str(&self) -> (r: &str)
        ensures
            r@ == self.wire(),
    {
        match self {
            ImageSize::Auto => "auto",
            ImageSize::S1024x1024 => "1024x1024",
            ImageSize::S1536x1024 => "1536x1024",
            ImageSize::S1024x1536 => "1024x1536",
            ImageSize::S256x256 => "256x256",
            ImageSize::S512x512 => "512x512",
            ImageSize::S1792x1024 => "1792x1024",
            ImageSize::S1024x1792 => "1024x1792",
        }
    }

    /// The value a wire name stands for, if it is one.
    pub fn from_wire(s: &str) -> (r: Option<ImageSize>)
        ensures
            r is Some <==> ImageSize::is_known(s@),
            r matches Some(v) ==> v.wire() == s@,
    {
        if str_equal(s, "auto") {
            Some(ImageSize::Auto)
        } else if str_equal(s, "1024x1024") {
            Some(ImageSize::S1024x1024)
        } else if str_equal(s, "1536x1024") {
            Some(ImageSize::S1536x1024)
        } else if str_equal(s, "1024x1536") {
            Some(ImageSize::S1024x1536)
        } else if str_equal(s, "256x256") {
            Some(ImageSize::S256x256)
        } else if str_equal(s, "512x512") {
            Some(ImageSize::S512x512)
        } else if str_equal(s, "1792x1024") {
            Some(ImageSize::S1792x1024)
        } else if str_equal(s, "1024x1792") {
            Some(ImageSize::S1024x1792)
        } else {
            None
        }
    }
}
/// Image style (dall-e-3 only).
#[derive(Debug, PartialEq, Eq)]
pub enum ImageStyle {
    Vivid,
    Natural,
    /// A value this version does not know (kept as sent).
    Other(String),
}

impl Clone for ImageStyle {
    fn clone(&self) -> (r: Self)
        ensures
            r == *self,
    {
        match self {
            ImageStyle::Vivid => ImageStyle::Vivid,
            ImageStyle::Natural => ImageStyle::Natural,
            ImageStyle::Other(s) => ImageStyle::Other(s.clone()),
        }
    }
}

impl ImageStyle {
    /// The wire name (the JSON string) of the value.
    pub open spec fn wire(&self) -> Seq<char> {
        match self {
            ImageStyle::Vivid => "vivid"@,
            ImageStyle::Natural => "natural"@,
            ImageStyle::Other(s) => s@,
        }
    }

    /// Whether a wire name is one this version knows.
    pub open spec fn is_known(s: Seq<char>) -> bool {
        s == "vivid"@ || s == "natural"@
    }

    /// The wire name of the value.
    pub fn as_str(&self) -> (r: &str)
        ensures
            r@ == self.wire(),
    {
        match self {
            ImageStyle::Vivid => "vivid",
            ImageStyle::Natural => "natural",
            ImageStyle::Other(s) => s.as_str(),
        }
    }

    /// The value a wire name stands for; an unknown name is kept in
    /// `Other`.
    pub fn from_wire(s: &str) -> (r: ImageStyle)
        ensures
            r.wire() == s@,
            r is Other <==> !ImageStyle::is_known(s@),
    {
        if str_equal(s, "vivid") {
            ImageStyle::Vivid
        } else if str_equal(s, "natural") {
            ImageStyle::Natural
        } else {
            ImageStyle::Other(s.to_string())
        }
    }
}
/// Output format for generated images (GPT image models).
#[derive(Debug, PartialEq, Eq)]
pub enum ImageOutputFormat {
    Png,
    Jpeg,
    Webp,
    /// A value this version does not know (kept as sent).
    Other(String),
}

impl Clone for ImageOutputFormat {
    fn clone(&self) -> (r: Self)
        ensures
            r == *self,
    {
        match self {
            ImageOutputFormat::Png => ImageOutputFormat::Png,
            ImageOutputFormat::Jpeg => ImageOutputFormat::Jpeg,
            ImageOutputFormat::Webp => ImageOutputFormat::Webp,
            ImageOutputFormat::Other(s) => ImageOutputFormat::Other(s.clone()),
        }
    }
}

impl ImageOutputFormat {
    /// The wire name (the JSON string) of the value.
    pub open spec fn wire(&self) -> Seq<char> {
        match self {
            ImageOutputFormat::Png => "png"@,
            ImageOutputFormat::Jpeg => "jpeg"@,
            ImageOutputFormat::Webp => "webp"@,
            ImageOutputFormat::Other(s) => s@,
        }
    }

    /// Whether a wire name is one this version knows.
    pub open spec fn is_known(s: Seq<char>) -> bool {
        s == "png"@ || s == "jpeg"@ || s == "webp"@
    }

    /// The wire name of the value.
    pub fn as_str(&self) -> (r: &str)
        ensures
            r@ == self.wire(),
    {
        match self {
            ImageOutputFormat::Png => "png",
            ImageOutputFormat::Jpeg => "jpeg",
            ImageOutputFormat::Webp => "webp",
            ImageOutputFormat::Other(s) => s.as_str(),
        }
    }

    /// The value a wire name stands for; an unknown name is kept in
    /// `Other`.
    pub fn from_wire(s: &str) -> (r: ImageOutputFormat)
        ensures
            r.wire() == s@,
            r is Other <==> !ImageOutputFormat::is_known(s@),
    {
        if str_equal(s, "png") {
            ImageOutputFormat::Png
        } else if str_equal(s, "jpeg") {
            ImageOutputFormat::Jpeg
        } else if str_equal(s, "webp") {
            ImageOutputFormat::Webp
        } else {
            ImageOutputFormat::Other(s.to_string())
        }
    }
}
/// Response format for images.
#[derive(Debug, PartialEq, Eq)]
pub enum ImageResponseFormat {
    Url,
    B64Json,
    /// A value this version does not know (kept as sent).
    Other(String),
}

impl Clone for ImageResponseFormat {
    fn clone(&self) -> (r: Self)
        ensures
            r == *self,
    {
        match self {
            ImageResponseFormat::Url => ImageResponseFormat::Url,
            ImageResponseFormat::B64Json => ImageResponseFormat::B64Json,
            ImageResponseFormat::Other(s) => ImageResponseFormat::Other(s.clone()),
        }
    }
}

impl ImageResponseFormat {
    /// The wire name (the JSON string) of the value.
    pub open spec fn wire(&self) -> Seq<char> {
        match self {
            ImageResponseFormat::Url => "url"@,
            ImageResponseFormat::B64Json => "b64_json"@,
            ImageResponseFormat::Other(s) => s@,
        }
    }

    /// Whether a wire name is one this version knows.
    pub open spec fn is_known(s: Seq<char>) -> bool {
        s == "url"@ || s == "b64_json"@
    }

    /// The wire name of the value.
    pub fn as_str(&self) -> (r: &str)
        ensures
            r@ == self.wire(),
    {
        match self {
            ImageResponseFormat::Url => "url",
            ImageResponseFormat::B64Json => "b64_json",
            ImageResponseFormat::Other(s) => s.as_str(),
        }
    }

    /// The value a wire name stands for; an unknown name is kept in
    /// `Other`.
    pub fn from_wire(s: &str) -> (r: ImageResponseFormat)
        ensures
            r.wire() == s@,
            r is Other <==> !ImageResponseFormat::is_known(s@),
    {
        if str_equal(s, "url") {
            ImageResponseFormat::Url
        } else if str_equal(s, "b64_json") {
            ImageResponseFormat::B64Json
        } else {
            ImageResponseFormat::Other(s.to_string())
        }
    }
}
/// Background transparency for generated images (GPT image models).
#[derive(Debug, PartialEq, Eq)]
pub enum ImageBackground {
    Transparent,
    Opaque,
    Auto,
    /// A value this version does not know (kept as sent).
    Other(String),
}

impl Clone for ImageBackground {
    fn clone(&self) -> (r: Self)
        ensures
            r == *self,
    {
        match self {
            ImageBackground::Transparent => ImageBackground::Transparent,
            ImageBackground::Opaque => ImageBackground::Opaque,
            ImageBackground::Auto => ImageBackground::Auto,
            ImageBackground::Other(s) => ImageBackground::Other(s.clone()),
        }
    }
}

impl ImageBackground {
    /// The wire name (the JSON string) of the value.
    pub open spec fn wire(&self) -> Seq<char> {
        match self {
            ImageBackground::Transparent => "transparent"@,
            ImageBackground::Opaque => "opaque"@,
            ImageBackground::Auto => "auto"@,
            ImageBackground::Other(s) => s@,
        }
    }

    /// Whether a wire name is one this version knows.
    pub open spec fn is_known(s: Seq<char>) -> bool {
        s == "transparent"@ || s == "opaque"@ || s == "auto"@
    }

    /// The wire name of the value.
    pub fn as_str(&self) -> (r: &str)
        ensures
            r@ == self.wire(),
    {
        match self {
            ImageBackground::Transparent => "transparent",
            ImageBackground::Opaque => "opaque",
            ImageBackground::Auto => "auto",
            ImageBackground::Other(s) => s.as_str(),
        }
    }

    /// The value a wire name stands for; an unknown name is kept in
    /// `Other`.
    pub fn from_wire(s: &str) -> (r: ImageBackground)
        ensures
            r.wire() == s@,
            r is Other <==> !ImageBackground::is_known(s@),
    {
        if str_equal(s, "transparent") {
            ImageBackground::Transparent
        } else if str_equal(s, "opaque") {
            ImageBackground::Opaque
        } else if str_equal(s, "auto") {
            ImageBackground::Auto
        } else {
            ImageBackground::Other(s.to_string())
        }
    }
}
/// Content moderation level for image generation.
#[derive(Debug, PartialEq, Eq)]
pub enum ImageModeration {
    Low,
    Auto,
    /// A value this version does not know (kept as sent).
    Other(String),
}

impl Clone for ImageModeration {
    fn clone(&self) -> (r: Self)
        ensures
            r == *self,
    {
        match self {
            ImageModeration::Low => ImageModeration::Low,
            ImageModeration::Auto => ImageModeration::Auto,
            ImageModeration::Other(s) => ImageModeration::Other(s.clone()),
        }
    }
}

impl ImageModeration {
    /// The wire name (the JSON string) of the value.
    pub open spec fn wire(&self) -> Seq<char> {
        match self {
            ImageModeration::Low => "low"@,
            ImageModeration::Auto => "auto"@,
            ImageModeration::Other(s) => s@,
        }
    }

    /// Whether a wire name is one this version knows.
    pub open spec fn is_known(s: Seq<char>) -> bool {
        s == "low"@ || s == "auto"@
    }

    /// The wire name of the value.
    pub fn as_str(&self) -> (r: &str)
        ensures
            r@ == self.wire(),
    {
        match self {
            ImageModeration::Low => "low",
            ImageModeration::Auto => "auto",
            ImageModeration::Other(s) => s.as_str(),
        }
    }

    /// The value a wire name stands for; an unknown name is kept in
    /// `Other`.
    pub fn from_wire(s: &str) -> (r: ImageModeration)
        ensures
            r.wire() == s@,
            r is Other <==> !ImageModeration::is_known(s@),
    {
        if str_equal(s, "low") {
            ImageModeration::Low
        } else if str_equal(s, "auto") {
            ImageModeration::Auto
        } else {
            ImageModeration::Other(s.to_string())
        }
    }
}
/// Request body for `POST /images/generations`.
#[derive(Debug, Clone)]
pub struct ImageGenerateRequest {
    /// Text description of desired image(s).
    pub prompt: String,
    /// Model to use (e.g. "dall-e-3", "gpt-image-1").
    pub model: Option<String>,
    /// Number of images to generate.
    pub n: Option<i64>,
    /// Quality level (standard or hd for dall-e-3; low/medium/high/auto for gpt-image-1).
    pub quality: Option<ImageQuality>,
    /// Image dimensions.
    pub size: Option<ImageSize>,
    /// Response format (url or b64_json).
    pub response_format: Option<ImageResponseFormat>,
    /// Style (vivid or natural), dall-e-3 only.
    pub style: Option<ImageStyle>,
    /// A unique identifier representing your end-user.
    pub user: Option<String>,
    /// Output format (png, jpeg, webp), GPT image models.
    pub output_format: Option<ImageOutputFormat>,
    /// Output compression quality (0 to 100).
    pub output_compression: Option<i64>,
    /// Background style (transparent, opaque, auto).
    pub background: Option<ImageBackground>,
    /// Moderation level (low, auto).
    pub moderation: Option<ImageModeration>,
}

impl ImageGenerateRequest {
    /// A request for the prompt with every option unset.
    pub fn new(prompt: &str) -> (r: ImageGenerateRequest)
        ensures
            r.prompt@ == prompt@,
            r.model is None && r.n is None && r.quality is None && r.size is None,
            r.response_format is None && r.style is None && r.user is None,
            r.output_format is None && r.output_compression is None,
            r.background is None && r.moderation is None,
    {
        ImageGenerateRequest {
            prompt: prompt.to_string(),
            model: None,
            n: None,
            quality: None,
            size: None,
            response_format: None,
            style: None,
            user: None,
            output_format: None,
            output_compression: None,
            background: None,
            moderation: None,
        }
    }

    /// Sets the model.
    pub fn model(self, model: &str) -> (r: ImageGenerateRequest)
        ensures
            r.model matches Some(v) && v@ == model@,
            r == (ImageGenerateRequest { model: r.model, ..self }),
    {
        ImageGenerateRequest { model: Some(model.to_string()), ..self }
    }

    /// Sets the number of images.
    pub fn n(self, n: i64) -> (r: ImageGenerateRequest)
        ensures
            r == (ImageGenerateRequest { n: Some(n), ..self }),
    {
        ImageGenerateRequest { n: Some(n), ..self }
    }

    /// Sets the quality.
    pub fn quality(self, quality: ImageQuality) -> (r: ImageGenerateRequest)
        ensures
            r == (ImageGenerateRequest { quality: Some(quality), ..self }),
    {
        ImageGenerateRequest { quality: Some(quality), ..self }
    }

    /// Sets the image size.
    pub fn size(self, size: ImageSize) -> (r: ImageGenerateRequest)
        ensures
            r == (ImageGenerateRequest { size: Some(size), ..self }),
    {
        ImageGenerateRequest { size: Some(size), ..self }
    }

    /// Sets the response format.
    pub fn response_format(self, response_format: ImageResponseFormat) -> (r: ImageGenerateRequest)
        ensures
            r == (ImageGenerateRequest { response_format: Some(response_format), ..self }),
    {
        ImageGenerateRequest { response_format: Some(response_format), ..self }
    }

    /// Sets the style.
    pub fn style(self, style: ImageStyle) -> (r: ImageGenerateRequest)
        ensures
            r == (ImageGenerateRequest { style: Some(style), ..self }),
    {
        ImageGenerateRequest { style: Some(style), ..self }
    }

    /// Sets the end-user identifier.
    pub fn user(self, user: &str) -> (r: ImageGenerateRequest)
        ensures
            r.user matches Some(v) && v@ == user@,
            r == (ImageGenerateRequest { user: r.user, ..self }),
    {
        ImageGenerateRequest { user: Some(user.to_string()), ..self }
    }

    /// Sets the output format.
    pub fn output_format(self, output_format: ImageOutputFormat) -> (r: ImageGenerateRequest)
        ensures
            r == (ImageGenerateRequest { output_format: Some(output_format), ..self }),
    {
        ImageGenerateRequest { output_format: Some(output_format), ..self }
    }

    /// Sets the output compression.
    pub fn output_compression(self, output_compression: i64) -> (r: ImageGenerateRequest)
        ensures
            r == (ImageGenerateRequest { output_compression: Some(output_compression), ..self }),
    {
        ImageGenerateRequest { output_compression: Some(output_compression), ..self }
    }

    /// Sets the background.
    pub fn background(self, background: ImageBackground) -> (r: ImageGenerateRequest)
        ensures
            r == (ImageGenerateRequest { background: Some(background), ..self }),
    {
        ImageGenerateRequest { background: Some(background), ..self }
    }

    /// Sets the moderation level.
    pub fn moderation(self, moderation: ImageModeration) -> (r: ImageGenerateRequest)
        ensures
            r == (ImageGenerateRequest { moderation: Some(moderation), ..self }),
    {
        ImageGenerateRequest { moderation: Some(moderation), ..self }
    }
}

/// Request body for `POST /images/edits`.
#[derive(Debug, Clone)]
pub struct ImageEditRequest {
    /// Image to edit (multipart file).
    pub image: Vec<u8>,
    pub image_filename: String,
    /// Prompt describing the edit.
    pub prompt: String,
    /// Mask image (optional).
    pub mask: Option<Vec<u8>>,
    pub mask_filename: Option<String>,
    /// Model to use.
    pub model: Option<String>,
    /// Number of images to generate.
    pub n: Option<i64>,
    /// Image dimensions.
    pub size: Option<ImageSize>,
    /// Response format.
    pub response_format: Option<ImageResponseFormat>,
    /// A unique identifier representing your end-user.
    pub user: Option<String>,
}

impl ImageEditRequest {
    /// An edit of the image with the prompt, every option unset.
    pub fn new(image: Vec<u8>, image_filename: &str, prompt: &str) -> (r: ImageEditRequest)
        ensures
            r.image == image,
            r.image_filename@ == image_filename@,
            r.prompt@ == prompt@,
            r.mask is None && r.mask_filename is None && r.model is None && r.n is None,
            r.size is None && r.response_format is None && r.user is None,
    {
        ImageEditRequest {
            image,
            image_filename: image_filename.to_string(),
            prompt: prompt.to_string(),
            mask: None,
            mask_filename: None,
            model: None,
            n: None,
            size: None,
            response_format: None,
            user: None,
        }
    }
}

/// Request body for `POST /images/variations`.
#[derive(Debug, Clone)]
pub struct ImageVariationRequest {
    /// Image to vary (multipart file).
    pub image: Vec<u8>,
    pub image_filename: String,
    /// Number of images to generate.
    pub n: Option<i64>,
    /// Image dimensions.
    pub size: Option<ImageSize>,
    /// Response format.
    pub response_format: Option<ImageResponseFormat>,
    /// A unique identifier representing your end-user.
    pub user: Option<String>,
}

impl ImageVariationRequest {
    /// Variations of the image, every option unset.
    pub fn new(image: Vec<u8>, image_filename: &str) -> (r: ImageVariationRequest)
        ensures
            r.image == image,
            r.image_filename@ == image_filename@,
            r.n is None && r.size is None && r.response_format is None && r.user is None,
    {
        ImageVariationRequest {
            image,
            image_filename: image_filename.to_string(),
            n: None,
            size: None,
            response_format: None,
            user: None,
        }
    }
}

/// A single generated image.
#[derive(Debug, Clone)]
pub struct Image {
    /// The URL of the generated image (when the response format is url).
    pub url: Option<String>,
    /// The Base64 data of the generated image (when the response format is
    /// b64_json).
    pub b64_json: Option<String>,
    /// The prompt that was used to generate the image (dall-e-3 only).
    pub revised_prompt: Option<String>,
}

impl Image {
    /// The image's bytes, decoded from its Base64 data: what saving the image
    /// writes. Fails with `No base64 data available` when there is none, and
    /// with `Failed to decode base64: ...` when the data is not valid Base64.
    pub fn decoded_bytes(&self) -> (r: Result<Vec<u8>, OpenAIError>)
        ensures
            self.b64_json is None ==> (r matches Err(OpenAIError::InvalidArgument(m)) && m@
                == "No base64 data available"@),
            self.b64_json matches Some(t) ==> match base64_standard_decode(encode_utf8(t@)) {
                Some(bytes) => (r matches Ok(v) && v@ == bytes),
                None => (r matches Err(OpenAIError::InvalidArgument(m))
                    && "Failed to decode base64: "@.is_prefix_of(m@)),
            },
    {
        match &self.b64_json {
            None => Err(OpenAIError::InvalidArgument("No base64 data available".to_string())),
            Some(b64) => match base64_decode(b64.as_str().as_bytes()) {
                Ok(bytes) => Ok(bytes),
                Err(e) => {
                    let mut message = "Failed to decode base64: ".to_string();
                    message.append(decode_error_text(&e).as_str());
                    Err(OpenAIError::InvalidArgument(message))
                },
            },
        }
    }
}

/// Response from image generation endpoints.
#[derive(Debug, Clone)]
pub struct ImagesResponse {
    pub created: i64,
    pub data: Vec<Image>,
}

} // verus!
