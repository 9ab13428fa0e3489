//! The checks a request passes before anything is read.

use vstd::prelude::*;
use vstd::string::*;
use crate::config::{image_extension, is_image_extension, Config};
use crate::text::{
    all_digits,
    decimal_digits,
    extension,
    extension_of,
    is_digit,
    lemma_digits_value_nonnegative,
    lemma_numeral_of_decimal,
    read_digits,
    signed_numeral,
    Digits,
    starts_with,
    text_of,
};

verus! {

/// Where an image comes from.
#[derive(Clone, Copy, Debug, PartialEq, Eq, Structural)]
pub enum UrlType {
    /// Fetched over HTTP or HTTPS.
    Http,
    /// Read from the mounted storage.
    Local,
}

/// Whether the allow-list holds `origin`, character for character.
pub open spec fn origin_listed(allowed: Seq<String>, origin: Seq<char>) -> bool {
    exists|i: int| 0 <= i < allowed.len() && (#[trigger] allowed[i])@ == origin
}

/// The origin a request is judged by: its header, or the empty text where it
/// sent none.
pub open spec fn effective_origin(origin: Option<Seq<char>>) -> Seq<char> {
    match origin {
        Some(o) => o,
        None => Seq::empty(),
    }
}

/// Whether a request from `origin` is served.
pub open spec fn origin_allowed(
    origin: Option<Seq<char>>,
    allowed: Seq<String>,
    is_development: bool,
) -> bool {
    is_development || origin_listed(allowed, effective_origin(origin))
}

/// Judges the `Origin` header of a request. In development mode every request
/// passes; otherwise the header must equal an entry of the allow-list, and a
/// request without the header is judged as one with an empty header.
pub fn validate_origin(origin: Option<&str>, config: &Config) -> (ok: bool)
    ensures
        ok == origin_allowed(text_of(origin), config.allowed_origins@, config.is_development),
{
    if config.is_development {
        return true;
    }
    let sent: &str = match origin {
        Some(o) => o,
        None => "",
    };
    proof {
        reveal_strlit("");
        assert(""@ =~= Seq::<char>::empty());
    }
    let wanted = String::from_str(sent);
    let n: usize = config.allowed_origins.len();
    let mut i: usize = 0;
    while i < n
        invariant
            i <= n,
            n == config.allowed_origins@.len(),
            !config.is_development,
            wanted@ == effective_origin(text_of(origin)),
            forall|j: int| 0 <= j < i ==> config.allowed_origins@[j]@ != wanted@,
        decreases n - i,
    {
        if config.allowed_origins[i] == wanted {
            return true;
        }
        i += 1;
    }
    false
}

/// Whether `url` names a remote source.
pub open spec fn is_remote(url: Seq<char>) -> bool {
    "http://"@.is_prefix_of(url) || "https://"@.is_prefix_of(url)
}

/// The verdict on an `image_url` parameter: the kind of source, or the
/// message the request is refused with.
pub open spec fn image_url_outcome(url: Seq<char>, is_development: bool) -> Result<
    UrlType,
    Seq<char>,
> {
    if url.len() == 0 {
        Err("image_url is required."@)
    } else if !image_extension(extension_of(url)) {
        Err(extension_of(url) + " is not image extension."@)
    } else if is_remote(url) && !is_development {
        Err("image_url is invalid."@)
    } else if is_remote(url) {
        Ok(UrlType::Http)
    } else {
        Ok(UrlType::Local)
    }
}

/// Whether `url` begins with the scheme of a remote source.
pub fn is_remote_url(url: &str) -> (remote: bool)
    ensures
        remote == is_remote(url@),
{
    starts_with(url, "http://") || starts_with(url, "https://")
}

/// Judges the `image_url` parameter.
pub fn validate_image_url(image_url: &str, config: &Config) -> (verdict: Result<UrlType, String>)
    ensures
        match verdict {
            Ok(kind) => image_url_outcome(image_url@, config.is_development) == Ok::<
                UrlType,
                Seq<char>,
            >(kind),
            Err(message) => image_url_outcome(image_url@, config.is_development) == Err::<
                UrlType,
                Seq<char>,
            >(message@),
        },
{
    if image_url.unicode_len() == 0 {
        return Err(String::from_str("image_url is required."));
    }
    let ext = extension(image_url);
    if !is_image_extension(ext) {
        return Err(String::from_str(ext).concat(" is not image extension."));
    }
    let remote = is_remote_url(image_url);
    if remote && !config.is_development {
        return Err(String::from_str("image_url is invalid."));
    }
    Ok(if remote { UrlType::Http } else { UrlType::Local })
}

/// The verdict on a `width` parameter: the width, or the message the request
/// is refused with. Every integer above zero that 32 bits hold is a width; a
/// larger one counts as no number.
pub open spec fn width_outcome(width: Seq<char>) -> Result<u32, Seq<char>> {
    if width.len() == 0 {
        Err("width is required."@)
    } else {
        match signed_numeral(width) {
            None => Err("width should be number."@),
            Some(w) => if w <= 0 {
                Err("width should be greater than 0."@)
            } else if w > 0xffff_ffff {
                Err("width should be number."@)
            } else {
                Ok(w as u32)
            },
        }
    }
}

/// Judges the `width` parameter.
pub fn validate_width(width: &str) -> (verdict: Result<u32, String>)
    ensures
        match verdict {
            Ok(w) => width_outcome(width@) == Ok::<u32, Seq<char>>(w),
            Err(message) => width_outcome(width@) == Err::<u32, Seq<char>>(message@),
        },
{
    let n: usize = width.unicode_len();
    if n == 0 {
        return Err(String::from_str("width is required."));
    }
    let first = width.get_char(0);
    let start: usize = if first == '-' || first == '+' { 1 } else { 0 };
    proof {
        if start == 0 {
            assert(width@.subrange(0, n as int) =~= width@);
        } else {
            let digits = width@.subrange(1, n as int);
            if all_digits(digits) {
                lemma_digits_value_nonnegative(digits);
            }
        }
    }
    match read_digits(width, start, 0xffff_ffff) {
        Digits::Invalid => Err(String::from_str("width should be number.")),
        Digits::TooLarge => if first == '-' {
            Err(String::from_str("width should be greater than 0."))
        } else {
            Err(String::from_str("width should be number."))
        },
        Digits::Value(v) => if first == '-' || v == 0 {
            Err(String::from_str("width should be greater than 0."))
        } else {
            Ok(v as u32)
        },
    }
}

/// A non-empty `image_url` whose extension names no image is refused, and
/// the message names the extension.
pub proof fn lemma_unknown_extension_refused(url: Seq<char>, is_development: bool)
    requires
        url.len() > 0,
        !image_extension(extension_of(url)),
    ensures
        image_url_outcome(url, is_development) == Err::<UrlType, Seq<char>>(
            extension_of(url) + " is not image extension."@,
        ),
{
}

/// Outside development mode a remote `image_url` is refused, whatever its
/// extension.
pub proof fn lemma_remote_refused_when_restricted(url: Seq<char>)
    requires
        is_remote(url),
    ensures
        image_url_outcome(url, false) is Err,
{
}

/// A `width` that is empty, that is no number, or that is zero or less is
/// refused.
pub proof fn lemma_bad_width_refused(width: Seq<char>)
    requires
        width.len() == 0 || signed_numeral(width) is None || signed_numeral(width).unwrap() <= 0,
    ensures
        width_outcome(width) is Err,
{
}

/// A `width` that holds anything but digits behind an optional sign is no
/// number.
pub proof fn lemma_non_digit_is_no_number(width: Seq<char>, i: int)
    requires
        0 <= i < width.len(),
        !is_digit(width[i]),
        i > 0 || (width[0] != '-' && width[0] != '+'),
    ensures
        signed_numeral(width) is None,
        width_outcome(width) is Err,
{
    if width[0] == '-' || width[0] == '+' {
        let digits = width.subrange(1, width.len() as int);
        assert(digits[i - 1] == width[i]);
    }
}

/// The numeral of a number above zero is accepted as a `width`, and gives
/// that number.
pub proof fn lemma_positive_width_accepted(n: u32)
    requires
        0 < n,
    ensures
        width_outcome(decimal_digits(n as nat)) == Ok::<u32, Seq<char>>(n),
{
    lemma_numeral_of_decimal(n as nat);
}

} // verus!
