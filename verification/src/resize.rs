//! The request's way through the service: what is checked, what is read, and
//! which response goes out.

use vstd::prelude::*;
use vstd::string::*;
use crate::codec::DecodedImage;
use crate::config::{image_extension, is_resizable_extension, resizable_extension, Config};
use crate::response::{
    cache_control_text,
    create_failure_response,
    create_image_response,
    create_refusal,
    image_response,
    internal_failure,
    refusal,
    Response,
    ResponseView,
};
use crate::text::{extension, extension_of, text_of};
use crate::transcode::{
    decode,
    lemma_thumbnail_dims,
    resize_image_to_webp,
    should_resize,
    thumbnail_dims,
    transcoded_of,
    transcoding,
};
use crate::validate::{
    image_url_outcome,
    is_remote,
    origin_allowed,
    validate_image_url,
    validate_origin,
    validate_width,
    width_outcome,
    UrlType,
};

verus! {

/// An accepted request: where the image is, and how wide it may be.
#[derive(Clone, Debug, PartialEq, Eq)]
pub struct ImageRequest {
    /// The kind of source.
    pub url_type: UrlType,
    /// The URL to fetch, or the path to read.
    pub location: String,
    /// The width asked for, above zero.
    pub width: u32,
}

/// What the service does next with a request.
#[derive(Clone, Debug, PartialEq, Eq)]
pub enum Step {
    /// Answer at once.
    Respond(Response),
    /// Read the image, then answer with `image_loaded`.
    Read(ImageRequest),
}

/// `Step` as plain values.
pub enum StepView {
    Respond(ResponseView),
    Read { url_type: UrlType, location: Seq<char>, width: u32 },
}

impl View for Step {
    type V = StepView;

    open spec fn view(&self) -> StepView {
        match *self {
            Step::Respond(response) => StepView::Respond(response@),
            Step::Read(request) => StepView::Read {
                url_type: request.url_type,
                location: request.location@,
                width: request.width,
            },
        }
    }
}

/// Where an image of the given kind is read from: a remote URL as it stands,
/// a local path behind the mount path.
pub open spec fn location_of(url_type: UrlType, mount_path: Seq<char>, url: Seq<char>) -> Seq<
    char,
> {
    match url_type {
        UrlType::Http => url,
        UrlType::Local => mount_path + url,
    }
}

/// The first step for a request: the origin is judged first, then
/// `image_url`, then `width`; the first that fails decides the response.
pub open spec fn first_step(
    origin: Option<Seq<char>>,
    image_url: Option<Seq<char>>,
    width: Option<Seq<char>>,
    allowed_origins: Seq<String>,
    is_development: bool,
    mount_path: Seq<char>,
) -> StepView {
    if !origin_allowed(origin, allowed_origins, is_development) {
        StepView::Respond(refusal(403, "Invalid origin"@))
    } else {
        match image_url {
            None => StepView::Respond(refusal(400, "image_url is required"@)),
            Some(url) => match image_url_outcome(url, is_development) {
                Err(message) => StepView::Respond(refusal(400, message)),
                Ok(url_type) => match width {
                    None => StepView::Respond(refusal(400, "width is required"@)),
                    Some(raw) => match width_outcome(raw) {
                        Err(message) => StepView::Respond(refusal(400, message)),
                        Ok(w) => StepView::Read {
                            url_type,
                            location: location_of(url_type, mount_path, url),
                            width: w,
                        },
                    },
                },
            },
        }
    }
}

/// Judges a request by its `Origin` header and its two query parameters, each
/// absent or as sent, and says what to read or what to answer.
pub fn resize_image(
    origin: Option<&str>,
    image_url: Option<&str>,
    width: Option<&str>,
    config: &Config,
) -> (step: Step)
    ensures
        step@ == first_step(
            text_of(origin),
            text_of(image_url),
            text_of(width),
            config.allowed_origins@,
            config.is_development,
            config.mount_path@,
        ),
{
    if !validate_origin(origin, config) {
        return Step::Respond(create_refusal(403, String::from_str("Invalid origin")));
    }
    let url: &str = match image_url {
        Some(url) => url,
        None => {
            return Step::Respond(create_refusal(400, String::from_str("image_url is required")));
        },
    };
    let url_type = match validate_image_url(url, config) {
        Ok(url_type) => url_type,
        Err(message) => {
            return Step::Respond(create_refusal(400, message));
        },
    };
    let raw: &str = match width {
        Some(raw) => raw,
        None => {
            return Step::Respond(create_refusal(400, String::from_str("width is required")));
        },
    };
    let wanted: u32 = match validate_width(raw) {
        Ok(w) => w,
        Err(message) => {
            return Step::Respond(create_refusal(400, message));
        },
    };
    let location = match url_type {
        UrlType::Http => String::from_str(url),
        UrlType::Local => config.mount_path.clone().concat(url),
    };
    Step::Read(ImageRequest { url_type, location, width: wanted })
}

/// Why an image could not be read.
#[derive(Clone, Copy, Debug, PartialEq, Eq, Structural)]
pub enum ReadFailure {
    /// The remote server could not be asked, or refused.
    Download,
    /// The remote server's answer broke off.
    RemoteBody,
    /// The file could not be read from storage.
    Storage,
}

/// A failed read: its kind and the cause as the reader gave it.
#[derive(Clone, Debug, PartialEq, Eq)]
pub struct ReadError {
    /// What failed.
    pub kind: ReadFailure,
    /// The reader's own words.
    pub cause: String,
}

/// The headline of a failed read.
pub open spec fn read_headline(kind: ReadFailure) -> Seq<char> {
    match kind {
        ReadFailure::Download => "Failed to download image"@,
        ReadFailure::RemoteBody => "Failed to read image from URL"@,
        ReadFailure::Storage => "Failed to read image from storage"@,
    }
}

impl ReadError {
    /// The headline of the failure, without its cause.
    pub fn headline(&self) -> (text: &'static str)
        ensures
            text@ == read_headline(self.kind),
    {
        match self.kind {
            ReadFailure::Download => "Failed to download image",
            ReadFailure::RemoteBody => "Failed to read image from URL",
            ReadFailure::Storage => "Failed to read image from storage",
        }
    }

    /// The failure in one line: headline, colon, cause.
    pub fn message(&self) -> (text: String)
        ensures
            text@ == read_headline(self.kind) + ": "@ + self.cause@,
    {
        let mut text = String::from_str(self.headline());
        text.append(": ");
        text.append(self.cause.as_str());
        text
    }
}

/// The content type of an image that goes out as it came in.
pub open spec fn original_content_type(extension: Seq<char>) -> Seq<char> {
    "image/"@ + extension
}

/// The response for an image whose transcoding ended in `transcoded`.
pub open spec fn transcoded_view(
    transcoded: Result<Seq<u8>, Seq<char>>,
    max_age: u32,
    s_max_age: u32,
) -> ResponseView {
    match transcoded {
        Ok(data) => image_response("image/webp"@, data, max_age, s_max_age),
        Err(cause) => internal_failure("Image processing failed"@, cause),
    }
}

/// The response for an image of the given extension whose decoding ended in
/// `decoded`: a failure where it could not be decoded, the file as it came
/// where it is not to be shrunk, the transcoded thumbnail otherwise.
pub open spec fn decoded_view(
    extension: Seq<char>,
    original: Seq<u8>,
    decoded: Result<(u32, u32, Seq<u8>), Seq<char>>,
    width: u32,
    max_age: u32,
    s_max_age: u32,
) -> ResponseView {
    match decoded {
        Err(cause) => internal_failure("Failed to handle image"@, cause),
        Ok(picture) => if resizable_extension(extension) && picture.0 > width {
            transcoded_view(transcoding(picture.2, picture.0, picture.1, width), max_age, s_max_age)
        } else {
            image_response(original_content_type(extension), original, max_age, s_max_age)
        },
    }
}

/// Whether a decoding has to decide the response: the image was read, and
/// its extension is one that is resized.
pub open spec fn needs_decoding(
    location: Seq<char>,
    loaded: Result<Seq<u8>, (ReadFailure, Seq<char>)>,
) -> bool {
    loaded is Ok && resizable_extension(extension_of(location))
}

/// A decoded picture holds four samples for each pixel.
pub open spec fn decoded_fits(decoded: Result<(u32, u32, Seq<u8>), Seq<char>>) -> bool {
    decoded matches Ok(picture) ==> picture.2.len() == picture.0 as int * picture.1 as int * 4
}

/// The response once the read has ended in `loaded` and, where the image is
/// decoded, the decoding in `decoded`.
pub open spec fn loaded_view(
    location: Seq<char>,
    width: u32,
    loaded: Result<Seq<u8>, (ReadFailure, Seq<char>)>,
    decoded: Result<(u32, u32, Seq<u8>), Seq<char>>,
    max_age: u32,
    s_max_age: u32,
) -> ResponseView {
    match loaded {
        Err(failure) => internal_failure(read_headline(failure.0), failure.1),
        Ok(bytes) => if !resizable_extension(extension_of(location)) {
            image_response(
                original_content_type(extension_of(location)),
                bytes,
                max_age,
                s_max_age,
            )
        } else {
            decoded_view(
                extension_of(location),
                bytes,
                decoded,
                width,
                max_age,
                s_max_age,
            )
        },
    }
}

/// The outcome of a read as plain values.
pub open spec fn loaded_of(loaded: Result<Vec<u8>, ReadError>) -> Result<
    Seq<u8>,
    (ReadFailure, Seq<char>),
> {
    match loaded {
        Ok(bytes) => Ok(bytes@),
        Err(e) => Err((e.kind, e.cause@)),
    }
}

/// The outcome of a decoding as plain values.
pub open spec fn decoded_of(decoded: Result<DecodedImage, String>) -> Result<
    (u32, u32, Seq<u8>),
    Seq<char>,
> {
    match decoded {
        Ok(img) => Ok((img.width, img.height, img.pixels@)),
        Err(e) => Err(e@),
    }
}

/// Builds the response for an image whose transcoding has ended.
pub fn transcoded_response(transcoded: Result<Vec<u8>, String>, config: &Config) -> (response:
    Response)
    ensures
        response@ == transcoded_view(transcoded_of(transcoded), config.max_age, config.s_max_age),
{
    match transcoded {
        Ok(data) => create_image_response("image/webp", data, config),
        Err(cause) => create_failure_response("Image processing failed", cause.as_str()),
    }
}

/// Builds the response with the file as it came in.
pub fn original_response(extension: &str, original: Vec<u8>, config: &Config) -> (response:
    Response)
    ensures
        response@ == image_response(
            original_content_type(extension@),
            original@,
            config.max_age,
            config.s_max_age,
        ),
{
    let content_type = String::from_str("image/").concat(extension);
    create_image_response(content_type.as_str(), original, config)
}

/// Builds the response for an image whose decoding has ended: compares the
/// widths, and transcodes where the picture is to be shrunk.
pub fn decoded_response(
    extension: &str,
    original: Vec<u8>,
    decoded: Result<DecodedImage, String>,
    width: u32,
    config: &Config,
) -> (response: Response)
    requires
        decoded matches Ok(img) ==> img.wf(),
    ensures
        response@ == decoded_view(
            extension@,
            original@,
            decoded_of(decoded),
            width,
            config.max_age,
            config.s_max_age,
        ),
{
    match decoded {
        Err(cause) => create_failure_response("Failed to handle image", cause.as_str()),
        Ok(img) => {
            if should_resize(extension, img.width, width) {
                transcoded_response(resize_image_to_webp(&img, width), config)
            } else {
                original_response(extension, original, config)
            }
        },
    }
}

/// Builds the response once the image has been read, or could not be. Where
/// the read failed or the extension is not one that is resized, the response
/// is fixed by the arguments. Otherwise the bytes that were read, and nothing
/// else, go to the decoder, and the response is the one that
/// `decoded_response` gives for what the decoder made of them.
pub fn image_loaded(
    request: &ImageRequest,
    loaded: Result<Vec<u8>, ReadError>,
    config: &Config,
) -> (response: Response)
    ensures
        !needs_decoding(request.location@, loaded_of(loaded)) ==> forall|
            decoded: Result<(u32, u32, Seq<u8>), Seq<char>>,
        |
            response@ == #[trigger] loaded_view(
                request.location@,
                request.width,
                loaded_of(loaded),
                decoded,
                config.max_age,
                config.s_max_age,
            ),
        exists|decoded: Result<(u32, u32, Seq<u8>), Seq<char>>|
            decoded_fits(decoded) && response@ == #[trigger] loaded_view(
                request.location@,
                request.width,
                loaded_of(loaded),
                decoded,
                config.max_age,
                config.s_max_age,
            ),
{
    let ghost read = loaded_of(loaded);
    let ghost none = Err::<(u32, u32, Seq<u8>), Seq<char>>(Seq::empty());
    match loaded {
        Err(e) => {
            let response = create_failure_response(e.headline(), e.cause.as_str());
            assert(response@ == loaded_view(
                request.location@,
                request.width,
                read,
                none,
                config.max_age,
                config.s_max_age,
            ));
            response
        },
        Ok(bytes) => {
            let ext = extension(request.location.as_str());
            if !is_resizable_extension(ext) {
                let response = original_response(ext, bytes, config);
                assert(response@ == loaded_view(
                    request.location@,
                    request.width,
                    read,
                    none,
                    config.max_age,
                    config.s_max_age,
                ));
                response
            } else {
                let decoded = decode(bytes.as_slice());
                let ghost outcome = decoded_of(decoded);
                let response = decoded_response(ext, bytes, decoded, request.width, config);
                assert(decoded_fits(outcome) && response@ == loaded_view(
                    request.location@,
                    request.width,
                    read,
                    outcome,
                    config.max_age,
                    config.s_max_age,
                ));
                response
            }
        },
    }
}

/// An image that is no wider than asked for goes out byte for byte as it
/// came in, under the content type of its extension.
pub proof fn lemma_narrow_image_passes_through(
    extension: Seq<char>,
    original: Seq<u8>,
    picture: (u32, u32, Seq<u8>),
    width: u32,
    max_age: u32,
    s_max_age: u32,
)
    requires
        picture.0 <= width,
    ensures
        decoded_view(
            extension,
            original,
            Ok(picture),
            width,
            max_age,
            s_max_age,
        ) matches ResponseView::Image { content_type, body, .. } && body == original
            && content_type == "image/"@ + extension,
{
}

/// An image of a resized extension that is wider than asked for goes out as
/// the transcoding of its thumbnail, which is as wide as asked for and as
/// high as the proportions give, rounded down.
pub proof fn lemma_wide_image_is_shrunk(
    extension: Seq<char>,
    original: Seq<u8>,
    picture: (u32, u32, Seq<u8>),
    width: u32,
    max_age: u32,
    s_max_age: u32,
)
    requires
        resizable_extension(extension),
        picture.0 > width,
    ensures
        decoded_view(extension, original, Ok(picture), width, max_age, s_max_age)
            == transcoded_view(
            transcoding(picture.2, picture.0, picture.1, width),
            max_age,
            s_max_age,
        ),
        thumbnail_dims(picture.0, picture.1, width).0 == width,
        thumbnail_dims(picture.0, picture.1, width).1 == picture.1 as int * width as int
            / picture.0 as int,
        thumbnail_dims(picture.0, picture.1, width).1 <= picture.1,
{
    lemma_thumbnail_dims(picture.0, picture.1, width);
}

/// Whatever way an image takes, the response that carries it lets any origin
/// read it and names the configured cache lifetimes.
pub proof fn lemma_images_carry_the_cache_headers(
    location: Seq<char>,
    width: u32,
    loaded: Result<Seq<u8>, (ReadFailure, Seq<char>)>,
    decoded: Result<(u32, u32, Seq<u8>), Seq<char>>,
    max_age: u32,
    s_max_age: u32,
)
    ensures
        match loaded_view(location, width, loaded, decoded, max_age, s_max_age) {
            ResponseView::Image { allow_origin, cache_control, .. } => allow_origin == "*"@
                && cache_control == cache_control_text(max_age, s_max_age),
            ResponseView::Failure { status, .. } => status == 500,
        },
{
}

/// Nothing is read for a request that has not passed every check: the origin
/// is allowed, the URL names an image, a remote source is asked for in
/// development mode only, and the width is above zero.
pub proof fn lemma_read_only_what_is_valid(
    origin: Option<Seq<char>>,
    image_url: Option<Seq<char>>,
    width: Option<Seq<char>>,
    allowed_origins: Seq<String>,
    is_development: bool,
    mount_path: Seq<char>,
)
    requires
        first_step(origin, image_url, width, allowed_origins, is_development, mount_path) is Read,
    ensures
        origin_allowed(origin, allowed_origins, is_development),
        image_url matches Some(url) && url.len() > 0 && image_extension(extension_of(url)) && (
        is_remote(url) ==> is_development),
        first_step(
            origin,
            image_url,
            width,
            allowed_origins,
            is_development,
            mount_path,
        ) matches StepView::Read { url_type, width: w, .. } && w > 0 && (url_type == UrlType::Http
            <==> is_remote(image_url.unwrap())),
{
}

/// Two responses to the same request, with the same outcome of the read and
/// of the decoding and under the same settings, are the same in every header
/// and byte.
pub proof fn lemma_same_request_same_response(
    first: Response,
    second: Response,
    location: Seq<char>,
    width: u32,
    loaded: Result<Seq<u8>, (ReadFailure, Seq<char>)>,
    decoded: Result<(u32, u32, Seq<u8>), Seq<char>>,
    max_age: u32,
    s_max_age: u32,
)
    requires
        first@ == loaded_view(location, width, loaded, decoded, max_age, s_max_age),
        second@ == loaded_view(location, width, loaded, decoded, max_age, s_max_age),
    ensures
        first@ == second@,
{
}

} // verus!
