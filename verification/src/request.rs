use vstd::prelude::*;
use vstd::string::*;

use crate::text::dec_rep;
use crate::text::u64_to_decimal;

verus! {

/// The requested quality of the generated images.
#[derive(Clone, Copy, Debug, PartialEq, Eq, Structural)]
pub enum ImageQuality {
    High,
    Medium,
    Low,
}

impl ImageQuality {
    /// The quality string sent to the service.
    pub open spec fn chars_spec(self) -> Seq<char> {
        match self {
            ImageQuality::High => "high"@,
            ImageQuality::Medium => "medium"@,
            ImageQuality::Low => "low"@,
        }
    }

    /// The quality as the string the service expects.
    pub fn as_str(&self) -> (r: &'static str)
        ensures
            r@ == self.chars_spec(),
    {
        match self {
            ImageQuality::High => "high",
            ImageQuality::Medium => "medium",
            ImageQuality::Low => "low",
        }
    }
}

/// The requested resolution, one of the fixed set the service offers.
#[derive(Clone, Copy, Debug, PartialEq, Eq, Structural)]
pub enum ImageResolution {
    R1024x1024,
    R1024x1536,
    R1536x1024,
}

impl ImageResolution {
    /// The "WxH" string sent to the service.
    pub open spec fn chars_spec(self) -> Seq<char> {
        match self {
            ImageResolution::R1024x1024 => "1024x1024"@,
            ImageResolution::R1024x1536 => "1024x1536"@,
            ImageResolution::R1536x1024 => "1536x1024"@,
        }
    }

    /// The resolution as the string the service expects.
    pub fn as_str(&self) -> (r: &'static str)
        ensures
            r@ == self.chars_spec(),
    {
        match self {
            ImageResolution::R1024x1024 => "1024x1024",
            ImageResolution::R1024x1536 => "1024x1536",
            ImageResolution::R1536x1024 => "1536x1024",
        }
    }
}

/// A fully validated request: what the excluded configuration and
/// command-line layers hand the pipeline.
pub struct RequestDescriptor {
    /// The prompt text.
    pub prompt: String,
    /// The requested quality.
    pub quality: ImageQuality,
    /// The requested resolution.
    pub resolution: ImageResolution,
    /// How many images to request; positive.
    pub count: u8,
    /// The reference image's path, when the request edits an image.
    pub reference_image_path: Option<String>,
    /// The service's base URL.
    pub endpoint_base: String,
    /// The API key attached to the request.
    pub credential: String,
    /// The deployment the request addresses.
    pub deployment_id: String,
}

/// The fixed API version interpolated into every endpoint URL.
pub open spec fn api_version_chars() -> Seq<char> {
    "2025-04-01-preview"@
}

/// The fixed output format requested from the service.
pub fn output_format() -> (r: &'static str)
    ensures
        r@ == "png"@,
{
    "png"
}

/// The URL of the "generate" endpoint for a base URL and a deployment.
pub open spec fn generate_url_spec(base: Seq<char>, deployment: Seq<char>) -> Seq<char> {
    base + "/openai/deployments/"@ + deployment + "/images/generations?api-version="@
        + api_version_chars()
}

/// The URL of the "edit" endpoint for a base URL and a deployment.
pub open spec fn edit_url_spec(base: Seq<char>, deployment: Seq<char>) -> Seq<char> {
    base + "/openai/deployments/"@ + deployment + "/images/edits?api-version="@
        + api_version_chars()
}

/// Builds the "generate" endpoint URL.
pub fn generate_url(base: &String, deployment: &String) -> (r: String)
    ensures
        r@ == generate_url_spec(base@, deployment@),
{
    let mut u = base.clone();
    u.append("/openai/deployments/");
    u.append(deployment.as_str());
    u.append("/images/generations?api-version=");
    u.append("2025-04-01-preview");
    proof {
        assert(u@ =~= generate_url_spec(base@, deployment@));
    }
    u
}

/// Builds the "edit" endpoint URL.
pub fn edit_url(base: &String, deployment: &String) -> (r: String)
    ensures
        r@ == edit_url_spec(base@, deployment@),
{
    let mut u = base.clone();
    u.append("/openai/deployments/");
    u.append(deployment.as_str());
    u.append("/images/edits?api-version=");
    u.append("2025-04-01-preview");
    proof {
        assert(u@ =~= edit_url_spec(base@, deployment@));
    }
    u
}

/// One outgoing request: a JSON body for the "generate" endpoint, or a
/// multipart form for the "edit" endpoint. The transport layer attaches the
/// key as a header, serializes the fields (with the fixed `png` output
/// format), and for an edit reads and attaches the reference file's bytes.
/// An edit carries the count in its string form, as the form field holds it.
#[allow(inconsistent_fields)]
pub enum ApiRequest {
    Generate { url: String, api_key: String, prompt: String, n: u8, size: String, quality: String },
    Edit {
        url: String,
        api_key: String,
        prompt: String,
        n: String,
        size: String,
        quality: String,
        image_path: String,
    },
}

impl ApiRequest {
    /// Whether this request targets the "edit" endpoint.
    pub open spec fn is_edit(self) -> bool {
        self is Edit
    }
}

/// Builds the request for a descriptor: an edit request if and only if a
/// reference image is given, with every field taken from the descriptor and
/// the matching endpoint URL.
pub fn build_request(d: &RequestDescriptor) -> (r: ApiRequest)
    ensures
        r.is_edit() <==> d.reference_image_path is Some,
        d.reference_image_path is None ==> (r matches ApiRequest::Generate {
            url,
            api_key,
            prompt,
            n,
            size,
            quality,
        } && url@ == generate_url_spec(d.endpoint_base@, d.deployment_id@) && api_key@
            == d.credential@ && prompt@ == d.prompt@ && n == d.count && size@
            == d.resolution.chars_spec() && quality@ == d.quality.chars_spec()),
        d.reference_image_path matches Some(p) ==> (r matches ApiRequest::Edit {
            url,
            api_key,
            prompt,
            n,
            size,
            quality,
            image_path,
        } && url@ == edit_url_spec(d.endpoint_base@, d.deployment_id@) && api_key@
            == d.credential@ && prompt@ == d.prompt@ && n@ == dec_rep(d.count as nat) && size@
            == d.resolution.chars_spec() && quality@ == d.quality.chars_spec() && image_path@
            == p@),
{
    match &d.reference_image_path {
        None => ApiRequest::Generate {
            url: generate_url(&d.endpoint_base, &d.deployment_id),
            api_key: d.credential.clone(),
            prompt: d.prompt.clone(),
            n: d.count,
            size: d.resolution.as_str().to_owned(),
            quality: d.quality.as_str().to_owned(),
        },
        Some(p) => ApiRequest::Edit {
            url: edit_url(&d.endpoint_base, &d.deployment_id),
            api_key: d.credential.clone(),
            prompt: d.prompt.clone(),
            n: u64_to_decimal(d.count as u64),
            size: d.resolution.as_str().to_owned(),
            quality: d.quality.as_str().to_owned(),
            image_path: p.clone(),
        },
    }
}

} // verus!
