//! MIME classification for favicons: a closed set of known image kinds plus
//! an `Unknown` fallback that carries the original string for diagnostics.

use vstd::prelude::*;
use vstd::string::*;

use base64::Engine;

use crate::favicon::{Favicon, FaviconV};
use crate::utils::str_eq;

verus! {

/// Specification-level image kind of a favicon. `Unknown` carries the raw
/// content-type text it was classified from.
pub enum MimeKind {
    Png,
    Svg,
    Ico,
    VndIcon,
    Gif,
    Jpeg,
    Webp,
    Unknown(Seq<char>),
}

/// Exact, case-sensitive classification of a content-type string: the seven
/// known favicon image types, anything else is `Unknown` with the raw text.
pub open spec fn classify(s: Seq<char>) -> MimeKind {
    if s == "image/png"@ {
        MimeKind::Png
    } else if s == "image/svg+xml"@ {
        MimeKind::Svg
    } else if s == "image/x-icon"@ {
        MimeKind::Ico
    } else if s == "image/vnd.microsoft.icon"@ {
        MimeKind::VndIcon
    } else if s == "image/gif"@ {
        MimeKind::Gif
    } else if s == "image/jpeg"@ {
        MimeKind::Jpeg
    } else if s == "image/webp"@ {
        MimeKind::Webp
    } else {
        MimeKind::Unknown(s)
    }
}

/// The canonical content-type text of a kind; for `Unknown` the raw text it
/// was built from.
pub open spec fn kind_text(k: MimeKind) -> Seq<char> {
    match k {
        MimeKind::Png => "image/png"@,
        MimeKind::Svg => "image/svg+xml"@,
        MimeKind::Ico => "image/x-icon"@,
        MimeKind::VndIcon => "image/vnd.microsoft.icon"@,
        MimeKind::Gif => "image/gif"@,
        MimeKind::Jpeg => "image/jpeg"@,
        MimeKind::Webp => "image/webp"@,
        MimeKind::Unknown(s) => s,
    }
}

/// A declared or inferred content type, classified into the closed set of
/// image kinds a favicon may have.
pub enum MimeType {
    ImagePng,
    ImageSvgXml,
    ImageXIcon,
    ImageVndMicrosoftIcon,
    ImageGif,
    ImageJpeg,
    ImageWebp,
    Unknown(String),
}

impl View for MimeType {
    type V = MimeKind;

    open spec fn view(&self) -> MimeKind {
        match self {
            MimeType::ImagePng => MimeKind::Png,
            MimeType::ImageSvgXml => MimeKind::Svg,
            MimeType::ImageXIcon => MimeKind::Ico,
            MimeType::ImageVndMicrosoftIcon => MimeKind::VndIcon,
            MimeType::ImageGif => MimeKind::Gif,
            MimeType::ImageJpeg => MimeKind::Jpeg,
            MimeType::ImageWebp => MimeKind::Webp,
            MimeType::Unknown(s) => MimeKind::Unknown(s@),
        }
    }
}

impl MimeType {
    /// Classifies a content-type string: exact match only, no normalization.
    pub fn from_str(mime_type: &str) -> (m: MimeType)
        ensures
            m@ == classify(mime_type@),
    {
        if str_eq(mime_type, "image/png") {
            MimeType::ImagePng
        } else if str_eq(mime_type, "image/svg+xml") {
            MimeType::ImageSvgXml
        } else if str_eq(mime_type, "image/x-icon") {
            MimeType::ImageXIcon
        } else if str_eq(mime_type, "image/vnd.microsoft.icon") {
            MimeType::ImageVndMicrosoftIcon
        } else if str_eq(mime_type, "image/gif") {
            MimeType::ImageGif
        } else if str_eq(mime_type, "image/jpeg") {
            MimeType::ImageJpeg
        } else if str_eq(mime_type, "image/webp") {
            MimeType::ImageWebp
        } else {
            MimeType::Unknown(mime_type.to_owned())
        }
    }

    /// The content-type text of this kind.
    pub fn as_str<'a>(&'a self) -> (r: &'a str)
        ensures
            r@ == kind_text(self@),
    {
        match self {
            MimeType::ImagePng => "image/png",
            MimeType::ImageSvgXml => "image/svg+xml",
            MimeType::ImageXIcon => "image/x-icon",
            MimeType::ImageVndMicrosoftIcon => "image/vnd.microsoft.icon",
            MimeType::ImageGif => "image/gif",
            MimeType::ImageJpeg => "image/jpeg",
            MimeType::ImageWebp => "image/webp",
            MimeType::Unknown(s) => s.as_str(),
        }
    }
}

// ---------------------------------------------------------------------------
// Data URIs: inline textual encoding of a favicon's bytes.
// ---------------------------------------------------------------------------

/// The padded standard base64 encoding of a byte sequence.
pub uninterp spec fn base64_of(bytes: Seq<u8>) -> Seq<char>;

/// The text a byte sequence decodes to as UTF-8, invalid sequences replaced.
pub uninterp spec fn utf8_lossy_of(bytes: Seq<u8>) -> Seq<char>;

/// Relies on base64's `general_purpose::STANDARD` engine: the padded standard
/// encoding of a byte sequence depends on the bytes alone.
#[verifier::external_body]
fn base64_standard(bytes: &Vec<u8>) -> (r: String)
    ensures
        r@ == base64_of(bytes@),
{
    base64::engine::general_purpose::STANDARD.encode(bytes)
}

/// Relies on std's `String::from_utf8_lossy`: the replacement-decoded text
/// depends on the bytes alone.
#[verifier::external_body]
fn utf8_lossy(bytes: &Vec<u8>) -> (r: String)
    ensures
        r@ == utf8_lossy_of(bytes@),
{
    String::from_utf8_lossy(bytes).into_owned()
}

/// The data URI that embeds a favicon: a base64 payload for binary kinds
/// (both ICO aliases are emitted as `image/x-icon`), UTF-8 text embedding for
/// SVG, and nothing for an unknown kind, which is never encoded.
pub open spec fn data_uri_of(f: FaviconV) -> Option<Seq<char>> {
    match f.mime {
        MimeKind::Png => Some("data:image/png;base64,"@ + base64_of(f.data)),
        MimeKind::Svg => Some("data:image/svg+xml;utf8,"@ + utf8_lossy_of(f.data)),
        MimeKind::Ico => Some("data:image/x-icon;base64,"@ + base64_of(f.data)),
        MimeKind::VndIcon => Some("data:image/x-icon;base64,"@ + base64_of(f.data)),
        MimeKind::Gif => Some("data:image/gif;base64,"@ + base64_of(f.data)),
        MimeKind::Jpeg => Some("data:image/jpeg;base64,"@ + base64_of(f.data)),
        MimeKind::Webp => Some("data:image/webp;base64,"@ + base64_of(f.data)),
        MimeKind::Unknown(_) => None,
    }
}

/// Encodes a favicon as a data URI; an unknown kind yields nothing rather
/// than an error.
pub fn generate_data_uri(favicon: &Favicon) -> (r: Option<String>)
    ensures
        r.deep_view() == data_uri_of(favicon@),
{
    match &favicon.mime_type {
        MimeType::ImagePng => {
            let mut s = String::from_str("data:image/png;base64,");
            let encoded = base64_standard(&favicon.data);
            s.append(encoded.as_str());
            Some(s)
        },
        MimeType::ImageSvgXml => {
            let mut s = String::from_str("data:image/svg+xml;utf8,");
            let text = utf8_lossy(&favicon.data);
            s.append(text.as_str());
            Some(s)
        },
        MimeType::ImageXIcon | MimeType::ImageVndMicrosoftIcon => {
            let mut s = String::from_str("data:image/x-icon;base64,");
            let encoded = base64_standard(&favicon.data);
            s.append(encoded.as_str());
            Some(s)
        },
        MimeType::ImageGif => {
            let mut s = String::from_str("data:image/gif;base64,");
            let encoded = base64_standard(&favicon.data);
            s.append(encoded.as_str());
            Some(s)
        },
        MimeType::ImageJpeg => {
            let mut s = String::from_str("data:image/jpeg;base64,");
            let encoded = base64_standard(&favicon.data);
            s.append(encoded.as_str());
            Some(s)
        },
        MimeType::ImageWebp => {
            let mut s = String::from_str("data:image/webp;base64,");
            let encoded = base64_standard(&favicon.data);
            s.append(encoded.as_str());
            Some(s)
        },
        MimeType::Unknown(_) => None,
    }
}

} // verus!
