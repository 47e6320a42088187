//! Where the external map library's stylesheet and script come from:
//! a CDN pinned to a version, or locally hosted files.

use vstd::prelude::*;
use vstd::string::StringExecFns;
use crate::encode::str_eq;

verus! {

/// Resource configuration for the external map library.
#[derive(Debug, PartialEq)]
pub enum LeafletResources {
    /// Use a CDN with the given library version, and optionally a custom
    /// CDN base URL.
    Cdn { version: String, base_url: Option<String> },
    /// Use locally hosted files.
    Local { css_path: String, js_path: String },
}

/// Mathematical image of a `LeafletResources`.
pub enum LeafletResourcesView {
    Cdn { version: Seq<char>, base_url: Option<Seq<char>> },
    Local { css_path: Seq<char>, js_path: Seq<char> },
}

impl View for LeafletResources {
    type V = LeafletResourcesView;

    open spec fn view(&self) -> LeafletResourcesView {
        match self {
            LeafletResources::Cdn { version, base_url } => LeafletResourcesView::Cdn {
                version: version@,
                base_url: base_url.deep_view(),
            },
            LeafletResources::Local { css_path, js_path } => LeafletResourcesView::Local {
                css_path: css_path@,
                js_path: js_path@,
            },
        }
    }
}

impl Clone for LeafletResources {
    /// Clones preserve the configuration exactly.
    fn clone(&self) -> (r: Self)
        ensures
            r@ == self@,
    {
        match self {
            LeafletResources::Cdn { version, base_url } => LeafletResources::Cdn {
                version: version.clone(),
                base_url: match base_url {
                    Some(b) => Some(b.clone()),
                    None => None,
                },
            },
            LeafletResources::Local { css_path, js_path } => LeafletResources::Local {
                css_path: css_path.clone(),
                js_path: js_path.clone(),
            },
        }
    }
}

/// The CDN base that applies: the custom one when given, else unpkg.
pub open spec fn spec_cdn_base(base_url: Option<Seq<char>>) -> Seq<char> {
    match base_url {
        Some(b) => b,
        None => "https://unpkg.com"@,
    }
}

/// The stylesheet URL for a resource configuration.
pub open spec fn spec_css_url(v: LeafletResourcesView) -> Seq<char> {
    match v {
        LeafletResourcesView::Cdn { version, base_url } => spec_cdn_base(base_url)
            + "/leaflet@"@ + version + "/dist/leaflet.css"@,
        LeafletResourcesView::Local { css_path, .. } => css_path,
    }
}

/// The script URL for a resource configuration.
pub open spec fn spec_js_url(v: LeafletResourcesView) -> Seq<char> {
    match v {
        LeafletResourcesView::Cdn { version, base_url } => spec_cdn_base(base_url)
            + "/leaflet@"@ + version + "/dist/leaflet.js"@,
        LeafletResourcesView::Local { js_path, .. } => js_path,
    }
}

/// The subresource integrity hash for the stylesheet: only known for the
/// default CDN and a few known versions.
pub open spec fn spec_css_integrity(v: LeafletResourcesView) -> Option<Seq<char>> {
    match v {
        LeafletResourcesView::Cdn { version, base_url } => if base_url is None {
            if version == "1.9.4"@ {
                Some("sha256-p4NxAoJBhIIN+hmNHrzRCf9tD/miZyoHS5obTRR9BMY="@)
            } else if version == "1.9.3"@ {
                Some("sha256-kLaT2GOSpHechhsozzB+flnD+zUyjE2LlfWPgU04xyI="@)
            } else if version == "1.9.2"@ {
                Some("sha256-sA+zWATbFveLLNqWO2gtiw3HL/lh1giY/Inf1BJ0z14="@)
            } else {
                None
            }
        } else {
            None
        },
        LeafletResourcesView::Local { .. } => None,
    }
}

/// The subresource integrity hash for the script: only known for the
/// default CDN and a few known versions.
pub open spec fn spec_js_integrity(v: LeafletResourcesView) -> Option<Seq<char>> {
    match v {
        LeafletResourcesView::Cdn { version, base_url } => if base_url is None {
            if version == "1.9.4"@ {
                Some("sha256-20nQCchB9co0qIjJZRGuk2/Z9VM+kNiyxNV1lvTlZBo="@)
            } else if version == "1.9.3"@ {
                Some("sha256-WBkoXOwTeyKclOHuWtc+i2uENFpDZ9YPdf5Hf+D7ewM="@)
            } else if version == "1.9.2"@ {
                Some("sha256-o9N4PsYA2zOcVD5OHEHviWpTGQ4Q1jEzU7oJiE+zRCE="@)
            } else {
                None
            }
        } else {
            None
        },
        LeafletResourcesView::Local { .. } => None,
    }
}

impl LeafletResources {
    /// Creates a CDN configuration with the given version.
    pub fn cdn(version: String) -> (r: Self)
        ensures
            r@ == (LeafletResourcesView::Cdn { version: version@, base_url: None }),
    {
        LeafletResources::Cdn { version, base_url: None }
    }

    /// Creates a CDN configuration with a custom base URL.
    pub fn cdn_with_base_url(version: String, base_url: String) -> (r: Self)
        ensures
            r@ == (LeafletResourcesView::Cdn {
                version: version@,
                base_url: Some(base_url@),
            }),
    {
        LeafletResources::Cdn { version, base_url: Some(base_url) }
    }

    /// Creates a local files configuration.
    pub fn local(css_path: String, js_path: String) -> (r: Self)
        ensures
            r@ == (LeafletResourcesView::Local { css_path: css_path@, js_path: js_path@ }),
    {
        LeafletResources::Local { css_path, js_path }
    }

    /// The stylesheet URL or path.
    pub fn css_url(&self) -> (r: String)
        ensures
            r@ == spec_css_url(self@),
    {
        match self {
            LeafletResources::Cdn { version, base_url } => {
                let base = match base_url {
                    Some(b) => String::from_str(b.as_str()),
                    None => String::from_str("https://unpkg.com"),
                };
                base.concat("/leaflet@").concat(version.as_str()).concat("/dist/leaflet.css")
            },
            LeafletResources::Local { css_path, .. } => String::from_str(css_path.as_str()),
        }
    }

    /// The script URL or path.
    pub fn js_url(&self) -> (r: String)
        ensures
            r@ == spec_js_url(self@),
    {
        match self {
            LeafletResources::Cdn { version, base_url } => {
                let base = match base_url {
                    Some(b) => String::from_str(b.as_str()),
                    None => String::from_str("https://unpkg.com"),
                };
                base.concat("/leaflet@").concat(version.as_str()).concat("/dist/leaflet.js")
            },
            LeafletResources::Local { js_path, .. } => String::from_str(js_path.as_str()),
        }
    }

    /// The integrity hash for the stylesheet, when one is known.
    pub fn css_integrity(&self) -> (r: Option<String>)
        ensures
            r.deep_view() == spec_css_integrity(self@),
    {
        match self {
            LeafletResources::Cdn { version, base_url } => match base_url {
                Some(_) => None,
                None => {
                    if str_eq(version.as_str(), "1.9.4") {
                        Some(String::from_str("sha256-p4NxAoJBhIIN+hmNHrzRCf9tD/miZyoHS5obTRR9BMY="))
                    } else if str_eq(version.as_str(), "1.9.3") {
                        Some(String::from_str("sha256-kLaT2GOSpHechhsozzB+flnD+zUyjE2LlfWPgU04xyI="))
                    } else if str_eq(version.as_str(), "1.9.2") {
                        Some(String::from_str("sha256-sA+zWATbFveLLNqWO2gtiw3HL/lh1giY/Inf1BJ0z14="))
                    } else {
                        None
                    }
                },
            },
            LeafletResources::Local { .. } => None,
        }
    }

    /// The integrity hash for the script, when one is known.
    pub fn js_integrity(&self) -> (r: Option<String>)
        ensures
            r.deep_view() == spec_js_integrity(self@),
    {
        match self {
            LeafletResources::Cdn { version, base_url } => match base_url {
                Some(_) => None,
                None => {
                    if str_eq(version.as_str(), "1.9.4") {
                        Some(String::from_str("sha256-20nQCchB9co0qIjJZRGuk2/Z9VM+kNiyxNV1lvTlZBo="))
                    } else if str_eq(version.as_str(), "1.9.3") {
                        Some(String::from_str("sha256-WBkoXOwTeyKclOHuWtc+i2uENFpDZ9YPdf5Hf+D7ewM="))
                    } else if str_eq(version.as_str(), "1.9.2") {
                        Some(String::from_str("sha256-o9N4PsYA2zOcVD5OHEHviWpTGQ4Q1jEzU7oJiE+zRCE="))
                    } else {
                        None
                    }
                },
            },
            LeafletResources::Local { .. } => None,
        }
    }
}

impl Default for LeafletResources {
    /// The newest known CDN version.
    fn default() -> (r: Self)
        ensures
            r@ == (LeafletResourcesView::Cdn { version: "1.9.4"@, base_url: None }),
    {
        LeafletResources::cdn(String::from_str("1.9.4"))
    }
}

/// Whether two resource configurations are the same.
pub fn eq_leaflet_resources(a: &LeafletResources, b: &LeafletResources) -> (r: bool)
    ensures
        r == (a@ == b@),
{
    match (a, b) {
        (
            LeafletResources::Cdn { version: va, base_url: ba },
            LeafletResources::Cdn { version: vb, base_url: bb },
        ) => {
            let bases_eq = match (ba, bb) {
                (Some(x), Some(y)) => x.eq(y),
                (None, None) => true,
                _ => false,
            };
            va.eq(vb) && bases_eq
        },
        (
            LeafletResources::Local { css_path: ca, js_path: ja },
            LeafletResources::Local { css_path: cb, js_path: jb },
        ) => ca.eq(cb) && ja.eq(jb),
        _ => false,
    }
}

} // verus!
