//! Turning command-line arguments into one download invocation.
//!
//! The caller hands over each argument as an optional plain string plus
//! the boolean toggles; this module picks the documented defaults for
//! absent optional arguments and rejects a missing mode, a missing target
//! URL, and an unrecognized mode value — each a fatal configuration
//! error, reported before any network activity.

use vstd::prelude::*;

use crate::error::ErrorKind;
use crate::error::PipelineError;
use crate::request::DownloadRequest;
use crate::request::Mode;
use crate::strutil::str_eq;

verus! {

/// Everything one run of the pipeline needs: the resolver host, the
/// destination directory, and the download request itself.
pub struct Invocation {
    pub host: String,
    pub dest_dir: String,
    pub request: DownloadRequest,
}

/// The reason given when no mode argument was passed.
pub open spec fn no_mode_text() -> Seq<char> {
    "you didn't specify a mode"@
}

/// The reason given when no target URL argument was passed.
pub open spec fn no_url_text() -> Seq<char> {
    "you didn't specify a video url"@
}

/// The reason given for a mode argument that names no known mode.
pub open spec fn bad_mode_text() -> Seq<char> {
    "invalid mode. options: auto, audio"@
}

/// The default resolver host.
pub open spec fn default_host() -> Seq<char> {
    "co.wuk.sh"@
}

/// The default destination directory under a home directory.
pub open spec fn spec_default_dest_dir(home: Seq<char>) -> Seq<char> {
    home + "/Downloads"@
}

/// The configuration error that the given arguments earn, if any: a
/// missing mode first, then a missing URL, then an unrecognized mode.
pub open spec fn spec_config_error(mode: Option<Seq<char>>, url: Option<Seq<char>>) -> Option<
    Seq<char>,
> {
    match mode {
        None => Some(no_mode_text()),
        Some(m) => match url {
            None => Some(no_url_text()),
            Some(_) => if m == "auto"@ || m == "audio"@ {
                None
            } else {
                Some(bad_mode_text())
            },
        },
    }
}

/// The mode that a well-formed mode argument names.
pub open spec fn spec_mode_of(m: Seq<char>) -> Mode {
    if m == "audio"@ {
        Mode::AudioOnly
    } else {
        Mode::Auto
    }
}

/// An optional argument's view, or the default where it is absent.
pub open spec fn spec_or_default(arg: Option<Seq<char>>, default: Seq<char>) -> Seq<char> {
    match arg {
        Some(a) => a,
        None => default,
    }
}

/// Returns the argument where one was given, the default otherwise.
fn pick(arg: Option<&str>, default: &str) -> (r: String)
    ensures
        r@ == spec_or_default(arg.deep_view(), default@),
{
    match arg {
        Some(a) => a.to_owned(),
        None => default.to_owned(),
    }
}

/// Assembles one invocation from the raw arguments: explicit arguments
/// win; `co.wuk.sh`, `<home>/Downloads`, `1080p`, `h264` and `mp3` stand
/// in for an absent host, path, quality, codec and audio format; and the
/// arguments are rejected with the exact configuration error that
/// `spec_config_error` assigns when the mode or URL is missing or the
/// mode names no known mode.
pub fn assemble_invocation(
    mode: Option<&str>,
    apiurl: Option<&str>,
    path: Option<&str>,
    home: &str,
    url: Option<&str>,
    quality: Option<&str>,
    codec: Option<&str>,
    audioformat: Option<&str>,
    ttwatermark: bool,
    dublang: bool,
    fullaudio: bool,
    mute: bool,
) -> (r: Result<Invocation, PipelineError>)
    ensures
        match r {
            Ok(inv) => {
                &&& spec_config_error(mode.deep_view(), url.deep_view()) is None
                &&& mode matches Some(m)
                &&& inv.request.mode == spec_mode_of(m@)
                &&& url matches Some(u)
                &&& inv.request.url@ == u@
                &&& inv.host@ == spec_or_default(apiurl.deep_view(), default_host())
                &&& inv.dest_dir@ == spec_or_default(
                    path.deep_view(),
                    spec_default_dest_dir(home@),
                )
                &&& inv.request.vquality@ == spec_or_default(quality.deep_view(), "1080p"@)
                &&& inv.request.vcodec@ == spec_or_default(codec.deep_view(), "h264"@)
                &&& inv.request.aformat@ == spec_or_default(audioformat.deep_view(), "mp3"@)
                &&& inv.request.ttwatermark == ttwatermark
                &&& inv.request.dublang == dublang
                &&& inv.request.fullaudio == fullaudio
                &&& inv.request.mute == mute
            },
            Err(e) => {
                &&& e.spec_kind() == ErrorKind::Configuration
                &&& spec_config_error(mode.deep_view(), url.deep_view()) == Some(e.spec_message())
            },
        },
{
    let m = match mode {
        Some(m) => m,
        None => {
            return Err(PipelineError::Configuration("you didn't specify a mode".to_owned()));
        },
    };
    let u = match url {
        Some(u) => u,
        None => {
            return Err(PipelineError::Configuration("you didn't specify a video url".to_owned()));
        },
    };
    proof {
        reveal_strlit("auto");
        reveal_strlit("audio");
        assert(("auto"@).len() == 4);
        assert(("audio"@).len() == 5);
    }
    let request_mode = if str_eq(m, "auto") {
        Mode::Auto
    } else if str_eq(m, "audio") {
        Mode::AudioOnly
    } else {
        return Err(PipelineError::Configuration("invalid mode. options: auto, audio".to_owned()));
    };
    let mut default_dir = home.to_owned();
    default_dir.append("/Downloads");
    Ok(
        Invocation {
            host: pick(apiurl, "co.wuk.sh"),
            dest_dir: match path {
                Some(p) => p.to_owned(),
                None => default_dir,
            },
            request: DownloadRequest {
                url: u.to_owned(),
                mode: request_mode,
                vquality: pick(quality, "1080p"),
                vcodec: pick(codec, "h264"),
                aformat: pick(audioformat, "mp3"),
                ttwatermark,
                fullaudio,
                mute,
                dublang,
            },
        },
    )
}

} // verus!
