//! Custom marker icon configuration.

use vstd::prelude::*;

verus! {

/// Custom icon for a marker: an image URL with optional sizing and
/// anchoring, and an optional shadow image.
#[derive(Debug, PartialEq)]
pub struct MarkerIcon {
    pub icon_url: String,
    pub icon_size: Option<(u32, u32)>,
    pub icon_anchor: Option<(u32, u32)>,
    pub popup_anchor: Option<(i32, i32)>,
    pub shadow_url: Option<String>,
    pub shadow_size: Option<(u32, u32)>,
}

/// Mathematical image of a `MarkerIcon`: URLs as character sequences.
pub struct MarkerIconView {
    pub icon_url: Seq<char>,
    pub icon_size: Option<(u32, u32)>,
    pub icon_anchor: Option<(u32, u32)>,
    pub popup_anchor: Option<(i32, i32)>,
    pub shadow_url: Option<Seq<char>>,
    pub shadow_size: Option<(u32, u32)>,
}

impl View for MarkerIcon {
    type V = MarkerIconView;

    open spec fn view(&self) -> MarkerIconView {
        MarkerIconView {
            icon_url: self.icon_url@,
            icon_size: self.icon_size,
            icon_anchor: self.icon_anchor,
            popup_anchor: self.popup_anchor,
            shadow_url: self.shadow_url.deep_view(),
            shadow_size: self.shadow_size,
        }
    }
}

impl DeepView for MarkerIcon {
    type V = MarkerIconView;

    open spec fn deep_view(&self) -> MarkerIconView {
        self.view()
    }
}

impl Clone for MarkerIcon {
    /// Clones preserve the configuration exactly.
    fn clone(&self) -> (r: Self)
        ensures
            r@ == self@,
    {
        MarkerIcon {
            icon_url: self.icon_url.clone(),
            icon_size: self.icon_size,
            icon_anchor: self.icon_anchor,
            popup_anchor: self.popup_anchor,
            shadow_url: match &self.shadow_url {
                Some(s) => Some(s.clone()),
                None => None,
            },
            shadow_size: self.shadow_size,
        }
    }
}

impl MarkerIcon {
    /// Creates a MarkerIcon with just the URL.
    pub fn new(icon_url: String) -> (r: Self)
        ensures
            r@ == (MarkerIconView {
                icon_url: icon_url@,
                icon_size: None,
                icon_anchor: None,
                popup_anchor: None,
                shadow_url: None,
                shadow_size: None,
            }),
    {
        MarkerIcon {
            icon_url,
            icon_size: None,
            icon_anchor: None,
            popup_anchor: None,
            shadow_url: None,
            shadow_size: None,
        }
    }
}

fn eq_opt_u32_pair(a: &Option<(u32, u32)>, b: &Option<(u32, u32)>) -> (r: bool)
    ensures
        r == (*a == *b),
{
    match (a, b) {
        (Some(x), Some(y)) => x.0 == y.0 && x.1 == y.1,
        (None, None) => true,
        _ => false,
    }
}

fn eq_opt_string(a: &Option<String>, b: &Option<String>) -> (r: bool)
    ensures
        r == (a.deep_view() == b.deep_view()),
{
    match (a, b) {
        (Some(x), Some(y)) => x.eq(y),
        (None, None) => true,
        _ => false,
    }
}

/// Whether two icons describe the same configuration.
pub fn eq_marker_icon(a: &MarkerIcon, b: &MarkerIcon) -> (r: bool)
    ensures
        r == (a@ == b@),
{
    let urls_eq = a.icon_url.eq(&b.icon_url);
    let anchors_eq = match (&a.popup_anchor, &b.popup_anchor) {
        (Some(x), Some(y)) => x.0 == y.0 && x.1 == y.1,
        (None, None) => true,
        _ => false,
    };
    urls_eq && anchors_eq && eq_opt_u32_pair(&a.icon_size, &b.icon_size)
        && eq_opt_u32_pair(&a.icon_anchor, &b.icon_anchor)
        && eq_opt_string(&a.shadow_url, &b.shadow_url)
        && eq_opt_u32_pair(&a.shadow_size, &b.shadow_size)
}

} // verus!
