//! The direct-link resolver: a fixed allow-list of image extensions, a
//! content-type check against the matching allow-list, and a best-effort
//! reverse-search enrichment whose failure only costs the attribution. The
//! existence probe, the download and the search call are the caller's.

use crate::sites::{file_ext, get_file_ext, PostInfo};
use crate::strutil::{chars_of, check_ends_with, ends_with};
use vstd::prelude::*;

verus! {

/// The URL ends in one of the allowed image extensions.
pub open spec fn ext_allowed(s: Seq<char>) -> bool {
    ||| ends_with(s, "png"@)
    ||| ends_with(s, "jpg"@)
    ||| ends_with(s, "jpeg"@)
    ||| ends_with(s, "gif"@)
}

/// The probed content type is in the allow-list that matches the extension
/// list.
pub open spec fn type_allowed(ct: Seq<char>) -> bool {
    ct == "image/png"@ || ct == "image/jpeg"@ || ct == "image/gif"@
}

/// What the lightweight existence probe reported: whether the response was a
/// success, and the content-type header when one was present.
#[derive(Clone, Debug)]
pub struct HeadProbe {
    pub success: bool,
    pub content_type: Option<String>,
}

/// A hit from the exact-match reverse search, reduced to its attribution.
#[derive(Clone, Debug)]
pub struct ReverseMatch {
    pub source_url: String,
    pub site_name: String,
}

pub struct Direct;

impl Direct {
    pub fn new() -> (r: Self) {
        Direct
    }

    /// The provider's human readable name, and the fallback attribution.
    pub fn name(&self) -> (r: String)
        ensures
            r@ == "direct link"@,
    {
        "direct link".to_owned()
    }

    /// Whether the URL ends in an allowed image extension; only then is the
    /// existence probe worth making.
    pub fn ext_supported(&self, url: &str) -> (r: bool)
        ensures
            r == ext_allowed(url@),
    {
        let v = chars_of(url);
        let png = chars_of("png");
        let jpg = chars_of("jpg");
        let jpeg = chars_of("jpeg");
        let gif = chars_of("gif");
        proof {
            reveal_strlit("png");
            reveal_strlit("jpg");
            reveal_strlit("jpeg");
            reveal_strlit("gif");
        }
        check_ends_with(&v, &png) || check_ends_with(&v, &jpg) || check_ends_with(&v, &jpeg)
            || check_ends_with(&v, &gif)
    }

    /// The applicability test, given the probe's outcome: both the extension
    /// check and the content-type check must pass. A failed probe is "not
    /// supported", never an error.
    pub fn url_supported(&self, url: &str, probe: Option<&HeadProbe>) -> (r: bool)
        ensures
            r == (ext_allowed(url@) && match probe {
                Some(p) => p.success && (p.content_type matches Some(ct) && type_allowed(ct@)),
                None => false,
            }),
    {
        if !self.ext_supported(url) {
            return false;
        }
        let p = match probe {
            Some(p) => p,
            None => {
                return false;
            },
        };
        if !p.success {
            return false;
        }
        let ct = match &p.content_type {
            Some(ct) => ct,
            None => {
                return false;
            },
        };
        let v = chars_of(ct.as_str());
        let png = chars_of("image/png");
        let jpeg = chars_of("image/jpeg");
        let gif = chars_of("image/gif");
        proof {
            reveal_strlit("image/png");
            reveal_strlit("image/jpeg");
            reveal_strlit("image/gif");
        }
        crate::json::eq_chars(&v, &png) || crate::json::eq_chars(&v, &jpeg)
            || crate::json::eq_chars(&v, &gif)
    }

    /// Builds the one record for a direct link. A reverse-search hit lends
    /// its attribution; a timeout, a search failure or an empty result set
    /// arrives as `None` and the record falls back to the provider's own
    /// name with no source link.
    pub fn get_images(&self, url: &str, search: Option<&ReverseMatch>) -> (r: Vec<PostInfo>)
        ensures
            r@.len() == 1,
            r@[0].file_type@ == file_ext(url@),
            r@[0].url@ == url@,
            r@[0].personal == false,
            r@[0].thumb is None,
            r@[0].extra_caption is None,
            r@[0].title is None,
            match search {
                Some(m) => (r@[0].source_link matches Some(l) && l@ == m.source_url@)
                    && r@[0].site_name@ == m.site_name@,
                None => r@[0].source_link is None && r@[0].site_name@ == "direct link"@,
            },
    {
        let (source_link, site_name) = match search {
            Some(m) => (Some(m.source_url.clone()), m.site_name.clone()),
            None => (None, self.name()),
        };
        let ext = match get_file_ext(url) {
            Some(ext) => ext,
            None => {
                proof {
                    assert(false);
                }
                vstd::pervasive::unreached()
            },
        };
        let mut out: Vec<PostInfo> = Vec::new();
        out.push(
            PostInfo {
                file_type: ext,
                url: url.to_owned(),
                personal: false,
                thumb: None,
                source_link,
                extra_caption: None,
                title: None,
                site_name,
            },
        );
        out
    }
}

} // verus!
