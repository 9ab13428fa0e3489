//! The service's settings, fixed at startup.

use vstd::prelude::*;
use vstd::string::*;
use crate::text::{
    parse_u32,
    parse_u32_spec,
    same_text,
    split,
    split_spec,
    text_of,
    texts_of,
};

verus! {

/// The cache lifetime for browsers where none is configured: one day.
pub const DEFAULT_MAX_AGE: u32 = 86400;

/// The cache lifetime for shared caches where none is configured: thirty days.
pub const DEFAULT_S_MAX_AGE: u32 = 2592000;

/// Settings that every request is judged by.
#[derive(Clone, Debug, PartialEq, Eq)]
pub struct Config {
    /// Prefix of the paths that local images are read from.
    pub mount_path: String,
    /// Development mode: every origin passes and remote sources are allowed.
    pub is_development: bool,
    /// Seconds a browser may keep a response.
    pub max_age: u32,
    /// Seconds a shared cache may keep a response.
    pub s_max_age: u32,
    /// The origins that may ask outside development mode.
    pub allowed_origins: Vec<String>,
}

/// The extensions that name an image.
pub open spec fn image_extension(ext: Seq<char>) -> bool {
    ext == "jpg"@ || ext == "jpeg"@ || ext == "png"@ || ext == "webp"@ || ext == "gif"@
}

/// The extensions whose images are shrunk; the others pass through.
pub open spec fn resizable_extension(ext: Seq<char>) -> bool {
    ext == "jpg"@ || ext == "jpeg"@ || ext == "png"@
}

/// Whether `ext` names an image.
pub fn is_image_extension(ext: &str) -> (yes: bool)
    ensures
        yes == image_extension(ext@),
{
    same_text(ext, "jpg") || same_text(ext, "jpeg") || same_text(ext, "png") || same_text(
        ext,
        "webp",
    ) || same_text(ext, "gif")
}

/// Whether images of extension `ext` are shrunk.
pub fn is_resizable_extension(ext: &str) -> (yes: bool)
    ensures
        yes == resizable_extension(ext@),
{
    same_text(ext, "jpg") || same_text(ext, "jpeg") || same_text(ext, "png")
}

/// Every extension that is shrunk names an image.
pub proof fn lemma_resizable_is_image(ext: Seq<char>)
    requires
        resizable_extension(ext),
    ensures
        image_extension(ext),
{
}

/// The port that a `PORT` setting names: it must be there, and be a number
/// of 16 bits.
pub open spec fn port_outcome(raw: Option<Seq<char>>) -> Result<u16, Seq<char>> {
    match raw {
        None => Err("PORT must be set"@),
        Some(s) => match parse_u32_spec(s) {
            Some(v) => if v <= 0xffff {
                Ok(v as u16)
            } else {
                Err("PORT must be a number"@)
            },
            None => Err("PORT must be a number"@),
        },
    }
}

/// Reads the `PORT` setting.
pub fn port_setting(raw: Option<&str>) -> (port: Result<u16, String>)
    ensures
        match port {
            Ok(p) => port_outcome(text_of(raw)) == Ok::<u16, Seq<char>>(p),
            Err(message) => port_outcome(text_of(raw)) == Err::<u16, Seq<char>>(message@),
        },
{
    match raw {
        None => Err(String::from_str("PORT must be set")),
        Some(s) => match parse_u32(s) {
            Some(v) => if v <= 0xffff {
                Ok(v as u16)
            } else {
                Err(String::from_str("PORT must be a number"))
            },
            None => Err(String::from_str("PORT must be a number")),
        },
    }
}

/// The lifetime that a setting called `name` gives: `default` where it is
/// not set, else the number it holds.
pub open spec fn age_outcome(name: Seq<char>, raw: Option<Seq<char>>, default: u32) -> Result<
    u32,
    Seq<char>,
> {
    match raw {
        None => Ok(default),
        Some(s) => match parse_u32_spec(s) {
            Some(v) => Ok(v as u32),
            None => Err(name + " must be a number"@),
        },
    }
}

/// Reads a cache lifetime, `MAX_AGE` or `S_MAX_AGE`.
pub fn age_setting(name: &str, raw: Option<&str>, default: u32) -> (age: Result<u32, String>)
    ensures
        match age {
            Ok(a) => age_outcome(name@, text_of(raw), default) == Ok::<u32, Seq<char>>(a),
            Err(message) => age_outcome(name@, text_of(raw), default) == Err::<
                u32,
                Seq<char>,
            >(message@),
        },
{
    match raw {
        None => Ok(default),
        Some(s) => match parse_u32(s) {
            Some(v) => Ok(v),
            None => Err(String::from_str(name).concat(" must be a number")),
        },
    }
}

/// Whether an `ENVIRONMENT` setting means development mode: it does where it
/// is not set or is `dev`.
pub open spec fn development_outcome(raw: Option<Seq<char>>) -> bool {
    match raw {
        None => true,
        Some(s) => s == "dev"@,
    }
}

/// Reads the `ENVIRONMENT` setting.
pub fn development_setting(raw: Option<&str>) -> (is_development: bool)
    ensures
        is_development == development_outcome(text_of(raw)),
{
    match raw {
        None => true,
        Some(s) => same_text(s, "dev"),
    }
}

/// The allow-list that an `ALLOWED_ORIGINS` setting gives: its pieces between
/// commas; outside development mode it must be set.
pub open spec fn origins_outcome(raw: Option<Seq<char>>, is_development: bool) -> Result<
    Seq<Seq<char>>,
    Seq<char>,
> {
    match raw {
        Some(s) => Ok(split_spec(s, ',')),
        None => if is_development {
            Ok(Seq::empty())
        } else {
            Err("ALLOWED_ORIGINS must be set"@)
        },
    }
}

/// Reads the `ALLOWED_ORIGINS` setting.
pub fn origins_setting(raw: Option<&str>, is_development: bool) -> (origins: Result<
    Vec<String>,
    String,
>)
    ensures
        match origins {
            Ok(list) => origins_outcome(text_of(raw), is_development) == Ok::<
                Seq<Seq<char>>,
                Seq<char>,
            >(texts_of(list@)),
            Err(message) => origins_outcome(text_of(raw), is_development) == Err::<
                Seq<Seq<char>>,
                Seq<char>,
            >(message@),
        },
{
    match raw {
        Some(s) => Ok(split(s, ',')),
        None => if is_development {
            let list: Vec<String> = Vec::new();
            assert(texts_of(list@) =~= Seq::<Seq<char>>::empty());
            Ok(list)
        } else {
            Err(String::from_str("ALLOWED_ORIGINS must be set"))
        },
    }
}

/// Reads the `MOUNT_PATH` setting: empty where it is not set.
pub fn mount_path_setting(raw: Option<&str>) -> (mount_path: String)
    ensures
        mount_path@ == match raw {
            Some(s) => s@,
            None => Seq::<char>::empty(),
        },
{
    match raw {
        Some(s) => String::from_str(s),
        None => String::new(),
    }
}

} // verus!
