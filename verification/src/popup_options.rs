//! Popup configuration options.

use vstd::prelude::*;

verus! {

/// Sizing and behavior of a popup: size limits in pixels, auto-pan and
/// close behavior, and an optional CSS class for the content element.
#[derive(Debug, PartialEq)]
pub struct PopupOptions {
    pub max_width: Option<u32>,
    pub min_width: Option<u32>,
    pub max_height: Option<u32>,
    pub auto_pan: Option<bool>,
    pub keep_in_view: Option<bool>,
    pub close_button: Option<bool>,
    pub auto_close: Option<bool>,
    pub close_on_escape_key: Option<bool>,
    pub class_name: Option<String>,
}

/// Mathematical image of `PopupOptions`: the class name as a character
/// sequence.
pub struct PopupOptionsView {
    pub max_width: Option<u32>,
    pub min_width: Option<u32>,
    pub max_height: Option<u32>,
    pub auto_pan: Option<bool>,
    pub keep_in_view: Option<bool>,
    pub close_button: Option<bool>,
    pub auto_close: Option<bool>,
    pub close_on_escape_key: Option<bool>,
    pub class_name: Option<Seq<char>>,
}

impl View for PopupOptions {
    type V = PopupOptionsView;

    open spec fn view(&self) -> PopupOptionsView {
        PopupOptionsView {
            max_width: self.max_width,
            min_width: self.min_width,
            max_height: self.max_height,
            auto_pan: self.auto_pan,
            keep_in_view: self.keep_in_view,
            close_button: self.close_button,
            auto_close: self.auto_close,
            close_on_escape_key: self.close_on_escape_key,
            class_name: self.class_name.deep_view(),
        }
    }
}

impl Clone for PopupOptions {
    /// Clones preserve the configuration exactly.
    fn clone(&self) -> (r: Self)
        ensures
            r@ == self@,
    {
        PopupOptions {
            max_width: self.max_width,
            min_width: self.min_width,
            max_height: self.max_height,
            auto_pan: self.auto_pan,
            keep_in_view: self.keep_in_view,
            close_button: self.close_button,
            auto_close: self.auto_close,
            close_on_escape_key: self.close_on_escape_key,
            class_name: match &self.class_name {
                Some(s) => Some(s.clone()),
                None => None,
            },
        }
    }
}

/// What `PopupOptions::default` returns.
pub open spec fn spec_default_popup_options() -> PopupOptionsView {
    PopupOptionsView {
        max_width: Some(300u32),
        min_width: Some(50u32),
        max_height: None,
        auto_pan: Some(true),
        keep_in_view: Some(false),
        close_button: Some(true),
        auto_close: Some(true),
        close_on_escape_key: Some(true),
        class_name: None,
    }
}

impl Default for PopupOptions {
    /// A 50-to-300 pixel wide popup that pans into view, with a close
    /// button, closing on escape and when another popup opens.
    fn default() -> (r: Self)
        ensures
            r@ == spec_default_popup_options(),
    {
        PopupOptions {
            max_width: Some(300),
            min_width: Some(50),
            max_height: None,
            auto_pan: Some(true),
            keep_in_view: Some(false),
            close_button: Some(true),
            auto_close: Some(true),
            close_on_escape_key: Some(true),
            class_name: None,
        }
    }
}

fn eq_opt_string(a: &Option<String>, b: &Option<String>) -> (r: bool)
    ensures
        r == (a.deep_view() == b.deep_view()),
{
    match (a, b) {
        (Some(x), Some(y)) => x.eq(y),
        (None, None) => true,
        _ => false,
    }
}

/// Whether two popup configurations are the same.
pub fn eq_popup_options(a: &PopupOptions, b: &PopupOptions) -> (r: bool)
    ensures
        r == (a@ == b@),
{
    a.max_width == b.max_width && a.min_width == b.min_width && a.max_height == b.max_height
        && a.auto_pan == b.auto_pan && a.keep_in_view == b.keep_in_view
        && a.close_button == b.close_button && a.auto_close == b.auto_close
        && a.close_on_escape_key == b.close_on_escape_key
        && eq_opt_string(&a.class_name, &b.class_name)
}

} // verus!
