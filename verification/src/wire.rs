//! The wire format of bridge requests: every request is one field-named
//! text payload. Numbers are decimal, strings are escaped and quoted,
//! missing options are `null`. The format is an internal contract between
//! the binding layer and its host page, not a public protocol.

use vstd::prelude::*;
use vstd::string::StringExecFns;
use crate::encode::{
    bool_to_js, i64_to_string, join_comma, json_string, spec_comma_join,
    spec_decimal, spec_decimal_signed, spec_json_string, u64_to_string,
};
use crate::bridge::{BridgeRequest, BridgeRequestView};
use crate::latlng::LatLng;
use crate::leaflet_resources::{LeafletResources, LeafletResourcesView};
use crate::map_options::{MapOptions, MapOptionsView};
use crate::map_position::MapPosition;
use crate::marker_icon::{MarkerIcon, MarkerIconView};
use crate::path_options::{Color, LineCap, LineJoin, PathOptions};
use crate::popup_options::{PopupOptions, PopupOptionsView};
use crate::tile_layer::{TileLayer, TileLayerView};

verus! {

/// An optional number: its decimal spelling, or `null`.
pub open spec fn spec_wire_opt_i64(v: Option<i64>) -> Seq<char> {
    match v {
        Some(n) => spec_decimal_signed(n as int),
        None => "null"@,
    }
}

fn wire_opt_i64(v: &Option<i64>) -> (r: String)
    ensures
        r@ == spec_wire_opt_i64(*v),
{
    match v {
        Some(n) => i64_to_string(*n),
        None => String::from_str("null"),
    }
}

/// A coordinate as the store reads it: microdegree fields by name.
pub open spec fn spec_wire_latlng(c: LatLng) -> Seq<char> {
    "{\"latMicro\":"@ + spec_decimal_signed(c.lat_micro as int) + ",\"lngMicro\":"@
        + spec_decimal_signed(c.lng_micro as int) + ",\"altMicro\":"@ + spec_wire_opt_i64(
        c.alt_micro,
    ) + "}"@
}

/// Writes a coordinate payload.
pub fn wire_latlng(c: &LatLng) -> (r: String)
    ensures
        r@ == spec_wire_latlng(*c),
{
    let mut out = String::new();
    out.append("{\"latMicro\":");
    out.append(i64_to_string(c.lat_micro).as_str());
    out.append(",\"lngMicro\":");
    out.append(i64_to_string(c.lng_micro).as_str());
    out.append(",\"altMicro\":");
    out.append(wire_opt_i64(&c.alt_micro).as_str());
    out.append("}");
    proof {
        assert(out@ =~= spec_wire_latlng(*c));
    }
    out
}

/// A position: the coordinate and the zoom in thousandths.
pub open spec fn spec_wire_position(p: MapPosition) -> Seq<char> {
    "{\"coordinates\":"@ + spec_wire_latlng(p.coordinates) + ",\"zoomMilli\":"@ + spec_decimal(
        p.zoom_milli as int,
    ) + "}"@
}

/// Writes a position payload.
pub fn wire_position(p: &MapPosition) -> (r: String)
    ensures
        r@ == spec_wire_position(*p),
{
    let mut out = String::new();
    out.append("{\"coordinates\":");
    out.append(wire_latlng(&p.coordinates).as_str());
    out.append(",\"zoomMilli\":");
    out.append(u64_to_string(p.zoom_milli as u64).as_str());
    out.append("}");
    proof {
        assert(out@ =~= spec_wire_position(*p));
    }
    out
}

/// An optional pixel pair: `[x,y]`, or `null`.
pub open spec fn spec_wire_opt_u32_pair(v: Option<(u32, u32)>) -> Seq<char> {
    match v {
        Some(p) => seq!['['] + spec_decimal(p.0 as int) + seq![','] + spec_decimal(p.1 as int)
            + seq![']'],
        None => "null"@,
    }
}

fn wire_opt_u32_pair(v: &Option<(u32, u32)>) -> (r: String)
    ensures
        r@ == spec_wire_opt_u32_pair(*v),
{
    match v {
        Some(p) => {
            let mut out = String::new();
            out.push('[');
            out.append(u64_to_string(p.0 as u64).as_str());
            out.push(',');
            out.append(u64_to_string(p.1 as u64).as_str());
            out.push(']');
            proof {
                assert(out@ =~= spec_wire_opt_u32_pair(*v));
            }
            out
        },
        None => String::from_str("null"),
    }
}

/// An optional signed pixel pair: `[x,y]`, or `null`.
pub open spec fn spec_wire_opt_i32_pair(v: Option<(i32, i32)>) -> Seq<char> {
    match v {
        Some(p) => seq!['['] + spec_decimal_signed(p.0 as int) + seq![','] + spec_decimal_signed(
            p.1 as int,
        ) + seq![']'],
        None => "null"@,
    }
}

fn wire_opt_i32_pair(v: &Option<(i32, i32)>) -> (r: String)
    ensures
        r@ == spec_wire_opt_i32_pair(*v),
{
    match v {
        Some(p) => {
            let mut out = String::new();
            out.push('[');
            out.append(i64_to_string(p.0 as i64).as_str());
            out.push(',');
            out.append(i64_to_string(p.1 as i64).as_str());
            out.push(']');
            proof {
                assert(out@ =~= spec_wire_opt_i32_pair(*v));
            }
            out
        },
        None => String::from_str("null"),
    }
}

/// An optional string: quoted and escaped, or `null`.
pub open spec fn spec_wire_opt_string(v: Option<Seq<char>>) -> Seq<char> {
    match v {
        Some(s) => spec_json_string(s),
        None => "null"@,
    }
}

fn wire_opt_string(v: &Option<String>) -> (r: String)
    ensures
        r@ == spec_wire_opt_string(v.deep_view()),
{
    match v {
        Some(s) => json_string(s.as_str()),
        None => String::from_str("null"),
    }
}

/// An optional number: decimal, or `null`.
pub open spec fn spec_wire_opt_u32(v: Option<u32>) -> Seq<char> {
    match v {
        Some(n) => spec_decimal(n as int),
        None => "null"@,
    }
}

fn wire_opt_u32(v: &Option<u32>) -> (r: String)
    ensures
        r@ == spec_wire_opt_u32(*v),
{
    match v {
        Some(n) => u64_to_string(*n as u64),
        None => String::from_str("null"),
    }
}

/// An optional bool, or `null`.
pub open spec fn spec_wire_bool(b: bool) -> Seq<char> {
    if b {
        "true"@
    } else {
        "false"@
    }
}

pub open spec fn spec_wire_opt_bool(v: Option<bool>) -> Seq<char> {
    match v {
        Some(b) => spec_wire_bool(b),
        None => "null"@,
    }
}

fn wire_opt_bool(v: &Option<bool>) -> (r: String)
    ensures
        r@ == spec_wire_opt_bool(*v),
{
    match v {
        Some(b) => String::from_str(bool_to_js(*b)),
        None => String::from_str("null"),
    }
}

/// A color in the `rgb(r, g, b)` form style sheets use.
pub open spec fn spec_color_css(c: Color) -> Seq<char> {
    "rgb("@ + spec_decimal(c.r as int) + ", "@ + spec_decimal(c.g as int) + ", "@ + spec_decimal(
        c.b as int,
    ) + ")"@
}

/// Writes a color as `rgb(r, g, b)`.
pub fn color_css(c: &Color) -> (r: String)
    ensures
        r@ == spec_color_css(*c),
{
    let mut out = String::new();
    out.append("rgb(");
    out.append(u64_to_string(c.r as u64).as_str());
    out.append(", ");
    out.append(u64_to_string(c.g as u64).as_str());
    out.append(", ");
    out.append(u64_to_string(c.b as u64).as_str());
    out.append(")");
    proof {
        assert(out@ =~= spec_color_css(*c));
    }
    out
}

/// The name of a line cap, as the store expects it.
pub open spec fn spec_line_cap_name(c: LineCap) -> Seq<char> {
    match c {
        LineCap::Butt => "butt"@,
        LineCap::Round => "round"@,
        LineCap::Square => "square"@,
    }
}

fn line_cap_name(c: &LineCap) -> (r: &'static str)
    ensures
        r@ == spec_line_cap_name(*c),
{
    match c {
        LineCap::Butt => "butt",
        LineCap::Round => "round",
        LineCap::Square => "square",
    }
}

/// The name of a line join, as the store expects it.
pub open spec fn spec_line_join_name(j: LineJoin) -> Seq<char> {
    match j {
        LineJoin::Arcs => "arcs"@,
        LineJoin::Bevel => "bevel"@,
        LineJoin::Miter => "miter"@,
        LineJoin::MiterClip => "miter-clip"@,
        LineJoin::Round => "round"@,
    }
}

fn line_join_name(j: &LineJoin) -> (r: &'static str)
    ensures
        r@ == spec_line_join_name(*j),
{
    match j {
        LineJoin::Arcs => "arcs",
        LineJoin::Bevel => "bevel",
        LineJoin::Miter => "miter",
        LineJoin::MiterClip => "miter-clip",
        LineJoin::Round => "round",
    }
}

/// A path styling bundle by field name.
pub open spec fn spec_wire_path_options(o: PathOptions) -> Seq<char> {
    "{\"stroke\":"@ + spec_wire_bool(o.stroke) + ",\"color\":"@ + spec_json_string(
        spec_color_css(o.color),
    ) + ",\"weight\":"@ + spec_decimal(o.weight as int) + ",\"opacityPermille\":"@ + spec_decimal(
        o.opacity_permille as int,
    ) + ",\"lineCap\":"@ + spec_json_string(spec_line_cap_name(o.line_cap)) + ",\"lineJoin\":"@
        + spec_json_string(spec_line_join_name(o.line_join)) + ",\"fill\":"@ + spec_wire_bool(
        o.fill,
    ) + ",\"fillColor\":"@ + spec_json_string(spec_color_css(o.fill_color))
        + ",\"fillOpacityPermille\":"@ + spec_decimal(o.fill_opacity_permille as int) + "}"@
}

/// Writes a path styling payload.
pub fn wire_path_options(o: &PathOptions) -> (r: String)
    ensures
        r@ == spec_wire_path_options(*o),
{
    let mut out = String::new();
    out.append("{\"stroke\":");
    out.append(bool_to_js(o.stroke));
    out.append(",\"color\":");
    out.append(json_string(color_css(&o.color).as_str()).as_str());
    out.append(",\"weight\":");
    out.append(u64_to_string(o.weight as u64).as_str());
    out.append(",\"opacityPermille\":");
    out.append(u64_to_string(o.opacity_permille as u64).as_str());
    out.append(",\"lineCap\":");
    out.append(json_string(line_cap_name(&o.line_cap)).as_str());
    out.append(",\"lineJoin\":");
    out.append(json_string(line_join_name(&o.line_join)).as_str());
    out.append(",\"fill\":");
    out.append(bool_to_js(o.fill));
    out.append(",\"fillColor\":");
    out.append(json_string(color_css(&o.fill_color).as_str()).as_str());
    out.append(",\"fillOpacityPermille\":");
    out.append(u64_to_string(o.fill_opacity_permille as u64).as_str());
    out.append("}");
    proof {
        assert(out@ =~= spec_wire_path_options(*o));
    }
    out
}

/// A marker icon by field name, or `null` when the marker has none.
pub open spec fn spec_wire_icon(v: MarkerIconView) -> Seq<char> {
    "{\"iconUrl\":"@ + spec_json_string(v.icon_url) + ",\"iconSize\":"@ + spec_wire_opt_u32_pair(
        v.icon_size,
    ) + ",\"iconAnchor\":"@ + spec_wire_opt_u32_pair(v.icon_anchor) + ",\"popupAnchor\":"@
        + spec_wire_opt_i32_pair(v.popup_anchor) + ",\"shadowUrl\":"@ + spec_wire_opt_string(
        v.shadow_url,
    ) + ",\"shadowSize\":"@ + spec_wire_opt_u32_pair(v.shadow_size) + "}"@
}

pub open spec fn spec_wire_opt_icon(v: Option<MarkerIconView>) -> Seq<char> {
    match v {
        Some(icon) => spec_wire_icon(icon),
        None => "null"@,
    }
}

/// Writes a marker icon payload.
pub fn wire_icon(icon: &MarkerIcon) -> (r: String)
    ensures
        r@ == spec_wire_icon(icon@),
{
    let mut out = String::new();
    out.append("{\"iconUrl\":");
    out.append(json_string(icon.icon_url.as_str()).as_str());
    out.append(",\"iconSize\":");
    out.append(wire_opt_u32_pair(&icon.icon_size).as_str());
    out.append(",\"iconAnchor\":");
    out.append(wire_opt_u32_pair(&icon.icon_anchor).as_str());
    out.append(",\"popupAnchor\":");
    out.append(wire_opt_i32_pair(&icon.popup_anchor).as_str());
    out.append(",\"shadowUrl\":");
    out.append(wire_opt_string(&icon.shadow_url).as_str());
    out.append(",\"shadowSize\":");
    out.append(wire_opt_u32_pair(&icon.shadow_size).as_str());
    out.append("}");
    proof {
        assert(out@ =~= spec_wire_icon(icon@));
    }
    out
}

fn wire_opt_icon(icon: &Option<MarkerIcon>) -> (r: String)
    ensures
        r@ == spec_wire_opt_icon(icon.deep_view()),
{
    match icon {
        Some(ic) => wire_icon(ic),
        None => String::from_str("null"),
    }
}

/// Popup options by field name.
pub open spec fn spec_wire_popup_options(v: PopupOptionsView) -> Seq<char> {
    "{\"maxWidth\":"@ + spec_wire_opt_u32(v.max_width) + ",\"minWidth\":"@ + spec_wire_opt_u32(
        v.min_width,
    ) + ",\"maxHeight\":"@ + spec_wire_opt_u32(v.max_height) + ",\"autoPan\":"@
        + spec_wire_opt_bool(v.auto_pan) + ",\"keepInView\":"@ + spec_wire_opt_bool(v.keep_in_view)
        + ",\"closeButton\":"@ + spec_wire_opt_bool(v.close_button) + ",\"autoClose\":"@
        + spec_wire_opt_bool(v.auto_close) + ",\"closeOnEscapeKey\":"@ + spec_wire_opt_bool(
        v.close_on_escape_key,
    ) + ",\"className\":"@ + spec_wire_opt_string(v.class_name) + "}"@
}

/// Writes a popup options payload.
pub fn wire_popup_options(o: &PopupOptions) -> (r: String)
    ensures
        r@ == spec_wire_popup_options(o@),
{
    let mut out = String::new();
    out.append("{\"maxWidth\":");
    out.append(wire_opt_u32(&o.max_width).as_str());
    out.append(",\"minWidth\":");
    out.append(wire_opt_u32(&o.min_width).as_str());
    out.append(",\"maxHeight\":");
    out.append(wire_opt_u32(&o.max_height).as_str());
    out.append(",\"autoPan\":");
    out.append(wire_opt_bool(&o.auto_pan).as_str());
    out.append(",\"keepInView\":");
    out.append(wire_opt_bool(&o.keep_in_view).as_str());
    out.append(",\"closeButton\":");
    out.append(wire_opt_bool(&o.close_button).as_str());
    out.append(",\"autoClose\":");
    out.append(wire_opt_bool(&o.auto_close).as_str());
    out.append(",\"closeOnEscapeKey\":");
    out.append(wire_opt_bool(&o.close_on_escape_key).as_str());
    out.append(",\"className\":");
    out.append(wire_opt_string(&o.class_name).as_str());
    out.append("}");
    proof {
        assert(out@ =~= spec_wire_popup_options(o@));
    }
    out
}

/// The subdomain list as an array of quoted strings.
pub open spec fn spec_wire_subdomains(subs: Seq<Seq<char>>) -> Seq<char> {
    seq!['['] + spec_comma_join(subs.map_values(|s: Seq<char>| spec_json_string(s))) + seq![']']
}

fn wire_subdomains(subs: &Vec<String>) -> (r: String)
    ensures
        r@ == spec_wire_subdomains(subs.deep_view()),
{
    let ghost d = subs.deep_view();
    let mut items: Vec<String> = Vec::new();
    let n = subs.len();
    let mut i: usize = 0;
    while i < n
        invariant
            i <= n,
            n == subs@.len(),
            d == subs.deep_view(),
            items.deep_view() == d.take(i as int).map_values(
                |s: Seq<char>| spec_json_string(s),
            ),
        decreases n - i,
    {
        let ghost pre = items.deep_view();
        items.push(json_string(subs[i].as_str()));
        proof {
            let f = |s: Seq<char>| spec_json_string(s);
            let lhs = items.deep_view();
            let rhs = d.take(i + 1).map_values(f);
            assert(d.len() == subs@.len());
            assert(pre.len() == i);
            assert(lhs.len() == i + 1);
            assert(rhs.len() == i + 1);
            assert(d[i as int] == subs@[i as int]@);
            assert(lhs[i as int] == spec_json_string(subs@[i as int]@));
            assert(rhs[i as int] == f(d.take(i + 1)[i as int]));
            assert forall|j: int| 0 <= j < i implies lhs[j] == rhs[j] by {
                assert(lhs[j] == pre[j]);
                assert(pre[j] == f(d.take(i as int)[j]));
                assert(rhs[j] == f(d.take(i + 1)[j]));
            }
            assert(lhs =~= rhs);
        }
        i = i + 1;
    }
    let mut out = String::new();
    out.push('[');
    out.append(join_comma(&items).as_str());
    out.push(']');
    proof {
        assert(d.take(n as int) =~= d);
        assert(out@ =~= spec_wire_subdomains(d));
    }
    out
}

/// A tile layer by field name.
pub open spec fn spec_wire_tile_layer(v: TileLayerView) -> Seq<char> {
    "{\"url\":"@ + spec_json_string(v.url) + ",\"attribution\":"@ + spec_json_string(v.attribution)
        + ",\"maxZoom\":"@ + spec_decimal(v.max_zoom as int) + ",\"subdomains\":"@
        + spec_wire_subdomains(v.subdomains) + "}"@
}

/// Writes a tile layer payload.
pub fn wire_tile_layer(t: &TileLayer) -> (r: String)
    ensures
        r@ == spec_wire_tile_layer(t@),
{
    let mut out = String::new();
    out.append("{\"url\":");
    out.append(json_string(t.url.as_str()).as_str());
    out.append(",\"attribution\":");
    out.append(json_string(t.attribution.as_str()).as_str());
    out.append(",\"maxZoom\":");
    out.append(u64_to_string(t.max_zoom as u64).as_str());
    out.append(",\"subdomains\":");
    out.append(wire_subdomains(&t.subdomains).as_str());
    out.append("}");
    proof {
        assert(out@ =~= spec_wire_tile_layer(t@));
    }
    out
}

/// A resource configuration, tagged by kind.
pub open spec fn spec_wire_resources(v: LeafletResourcesView) -> Seq<char> {
    match v {
        LeafletResourcesView::Cdn { version, base_url } => "{\"kind\":\"cdn\",\"version\":"@
            + spec_json_string(version) + ",\"baseUrl\":"@ + spec_wire_opt_string(base_url) + "}"@,
        LeafletResourcesView::Local { css_path, js_path } => "{\"kind\":\"local\",\"cssPath\":"@
            + spec_json_string(css_path) + ",\"jsPath\":"@ + spec_json_string(js_path) + "}"@,
    }
}

/// Writes a resource configuration payload.
pub fn wire_resources(res: &LeafletResources) -> (r: String)
    ensures
        r@ == spec_wire_resources(res@),
{
    let mut out = String::new();
    match res {
        LeafletResources::Cdn { version, base_url } => {
            out.append("{\"kind\":\"cdn\",\"version\":");
            out.append(json_string(version.as_str()).as_str());
            out.append(",\"baseUrl\":");
            out.append(wire_opt_string(base_url).as_str());
            out.append("}");
        },
        LeafletResources::Local { css_path, js_path } => {
            out.append("{\"kind\":\"local\",\"cssPath\":");
            out.append(json_string(css_path.as_str()).as_str());
            out.append(",\"jsPath\":");
            out.append(json_string(js_path.as_str()).as_str());
            out.append("}");
        },
    }
    proof {
        assert(out@ =~= spec_wire_resources(res@));
    }
    out
}

/// A map options bundle by field name.
pub open spec fn spec_wire_map_options(v: MapOptionsView) -> Seq<char> {
    "{\"zoomControl\":"@ + spec_wire_bool(v.zoom_control) + ",\"scrollWheelZoom\":"@
        + spec_wire_bool(v.scroll_wheel_zoom) + ",\"doubleClickZoom\":"@ + spec_wire_bool(
        v.double_click_zoom,
    ) + ",\"touchZoom\":"@ + spec_wire_bool(v.touch_zoom) + ",\"dragging\":"@ + spec_wire_bool(
        v.dragging,
    ) + ",\"keyboard\":"@ + spec_wire_bool(v.keyboard) + ",\"attributionControl\":"@
        + spec_wire_bool(v.attribution_control) + ",\"tileLayer\":"@ + spec_wire_tile_layer(
        v.tile_layer,
    ) + ",\"leafletResources\":"@ + spec_wire_resources(v.leaflet_resources) + "}"@
}

/// Writes a map options payload.
pub fn wire_map_options(o: &MapOptions) -> (r: String)
    ensures
        r@ == spec_wire_map_options(o@),
{
    let mut out = String::new();
    out.append("{\"zoomControl\":");
    out.append(bool_to_js(o.zoom_control));
    out.append(",\"scrollWheelZoom\":");
    out.append(bool_to_js(o.scroll_wheel_zoom));
    out.append(",\"doubleClickZoom\":");
    out.append(bool_to_js(o.double_click_zoom));
    out.append(",\"touchZoom\":");
    out.append(bool_to_js(o.touch_zoom));
    out.append(",\"dragging\":");
    out.append(bool_to_js(o.dragging));
    out.append(",\"keyboard\":");
    out.append(bool_to_js(o.keyboard));
    out.append(",\"attributionControl\":");
    out.append(bool_to_js(o.attribution_control));
    out.append(",\"tileLayer\":");
    out.append(wire_tile_layer(&o.tile_layer).as_str());
    out.append(",\"leafletResources\":");
    out.append(wire_resources(&o.leaflet_resources).as_str());
    out.append("}");
    proof {
        assert(out@ =~= spec_wire_map_options(o@));
    }
    out
}

/// One ring: an array of coordinates.
pub open spec fn spec_wire_ring(ring: Seq<LatLng>) -> Seq<char> {
    seq!['['] + spec_comma_join(ring.map_values(|c: LatLng| spec_wire_latlng(c))) + seq![']']
}

/// One polygon part: an array of rings.
pub open spec fn spec_wire_rings(rings: Seq<Seq<LatLng>>) -> Seq<char> {
    seq!['['] + spec_comma_join(rings.map_values(|r: Seq<LatLng>| spec_wire_ring(r))) + seq![']']
}

/// A full multi-polygon: an array of parts.
pub open spec fn spec_wire_ring_sets(sets: Seq<Seq<Seq<LatLng>>>) -> Seq<char> {
    seq!['['] + spec_comma_join(sets.map_values(|r: Seq<Seq<LatLng>>| spec_wire_rings(r)))
        + seq![']']
}

fn wire_ring(ring: &Vec<LatLng>) -> (r: String)
    ensures
        r@ == spec_wire_ring(ring@),
{
    let ghost d = ring@;
    let mut items: Vec<String> = Vec::new();
    let n = ring.len();
    let mut i: usize = 0;
    while i < n
        invariant
            i <= n,
            n == d.len(),
            ring@ == d,
            items.deep_view() == d.take(i as int).map_values(|c: LatLng| spec_wire_latlng(c)),
        decreases n - i,
    {
        let ghost pre = items.deep_view();
        items.push(wire_latlng(&ring[i]));
        proof {
            let f = |c: LatLng| spec_wire_latlng(c);
            let lhs = items.deep_view();
            let rhs = d.take(i + 1).map_values(f);
            assert(pre.len() == i);
            assert(lhs[i as int] == spec_wire_latlng(d[i as int]));
            assert(rhs[i as int] == f(d.take(i + 1)[i as int]));
            assert forall|j: int| 0 <= j < i implies lhs[j] == rhs[j] by {
                assert(lhs[j] == pre[j]);
                assert(pre[j] == f(d.take(i as int)[j]));
                assert(rhs[j] == f(d.take(i + 1)[j]));
            }
            assert(lhs =~= rhs);
        }
        i = i + 1;
    }
    let mut out = String::new();
    out.push('[');
    out.append(join_comma(&items).as_str());
    out.push(']');
    proof {
        assert(d.take(n as int) =~= d);
        assert(out@ =~= spec_wire_ring(d));
    }
    out
}

fn wire_rings(rings: &Vec<Vec<LatLng>>) -> (r: String)
    ensures
        r@ == spec_wire_rings(rings.deep_view()),
{
    let ghost d = rings.deep_view();
    let mut items: Vec<String> = Vec::new();
    let n = rings.len();
    let mut i: usize = 0;
    while i < n
        invariant
            i <= n,
            n == rings@.len(),
            d == rings.deep_view(),
            items.deep_view() == d.take(i as int).map_values(
                |r: Seq<LatLng>| spec_wire_ring(r),
            ),
        decreases n - i,
    {
        let ghost pre = items.deep_view();
        items.push(wire_ring(&rings[i]));
        proof {
            let f = |r: Seq<LatLng>| spec_wire_ring(r);
            let lhs = items.deep_view();
            let rhs = d.take(i + 1).map_values(f);
            assert(d.len() == rings@.len());
            assert(pre.len() == i);
            assert(d[i as int] == rings@[i as int]@);
            assert(lhs[i as int] == spec_wire_ring(rings@[i as int]@));
            assert(rhs[i as int] == f(d.take(i + 1)[i as int]));
            assert forall|j: int| 0 <= j < i implies lhs[j] == rhs[j] by {
                assert(lhs[j] == pre[j]);
                assert(pre[j] == f(d.take(i as int)[j]));
                assert(rhs[j] == f(d.take(i + 1)[j]));
            }
            assert(lhs =~= rhs);
        }
        i = i + 1;
    }
    let mut out = String::new();
    out.push('[');
    out.append(join_comma(&items).as_str());
    out.push(']');
    proof {
        assert(d.take(n as int) =~= d);
        assert(out@ =~= spec_wire_rings(d));
    }
    out
}

/// Writes a polygon's coordinates payload.
pub fn wire_ring_sets(sets: &Vec<Vec<Vec<LatLng>>>) -> (r: String)
    ensures
        r@ == spec_wire_ring_sets(sets.deep_view()),
{
    let ghost d = sets.deep_view();
    let mut items: Vec<String> = Vec::new();
    let n = sets.len();
    let mut i: usize = 0;
    while i < n
        invariant
            i <= n,
            n == sets@.len(),
            d == sets.deep_view(),
            items.deep_view() == d.take(i as int).map_values(
                |r: Seq<Seq<LatLng>>| spec_wire_rings(r),
            ),
        decreases n - i,
    {
        let ghost pre = items.deep_view();
        items.push(wire_rings(&sets[i]));
        proof {
            let f = |r: Seq<Seq<LatLng>>| spec_wire_rings(r);
            let lhs = items.deep_view();
            let rhs = d.take(i + 1).map_values(f);
            assert(d.len() == sets@.len());
            assert(pre.len() == i);
            assert(d[i as int] == sets@[i as int].deep_view());
            assert(lhs[i as int] == spec_wire_rings(sets@[i as int].deep_view()));
            assert(rhs[i as int] == f(d.take(i + 1)[i as int]));
            assert forall|j: int| 0 <= j < i implies lhs[j] == rhs[j] by {
                assert(lhs[j] == pre[j]);
                assert(pre[j] == f(d.take(i as int)[j]));
                assert(rhs[j] == f(d.take(i + 1)[j]));
            }
            assert(lhs =~= rhs);
        }
        i = i + 1;
    }
    let mut out = String::new();
    out.push('[');
    out.append(join_comma(&items).as_str());
    out.push(']');
    proof {
        assert(d.take(n as int) =~= d);
        assert(out@ =~= spec_wire_ring_sets(d));
    }
    out
}

/// The complete payload of one request, tagged by operation name.
pub open spec fn spec_wire_request(v: BridgeRequestView) -> Seq<char> {
    match v {
        BridgeRequestView::UpdateMap { id, initial_position, options } =>
            "{\"op\":\"updateMap\",\"id\":"@ + spec_decimal(id as int) + ",\"position\":"@
                + spec_wire_position(initial_position) + ",\"options\":"@ + spec_wire_map_options(
                options,
            ) + "}"@,
        BridgeRequestView::DeleteMap { id } => "{\"op\":\"deleteMap\",\"id\":"@ + spec_decimal(
            id as int,
        ) + "}"@,
        BridgeRequestView::OnMapClick { id } => "{\"op\":\"onMapClick\",\"id\":"@ + spec_decimal(
            id as int,
        ) + "}"@,
        BridgeRequestView::UpdateMarker { map_id, marker_id, coordinate, icon } =>
            "{\"op\":\"updateMarker\",\"mapId\":"@ + spec_decimal(map_id as int) + ",\"markerId\":"@
                + spec_decimal(marker_id as int) + ",\"coordinate\":"@ + spec_wire_latlng(
                coordinate,
            ) + ",\"icon\":"@ + spec_wire_opt_icon(icon) + "}"@,
        BridgeRequestView::DeleteMarker { map_id, marker_id } =>
            "{\"op\":\"deleteMarker\",\"mapId\":"@ + spec_decimal(map_id as int) + ",\"markerId\":"@
                + spec_decimal(marker_id as int) + "}"@,
        BridgeRequestView::UpdatePolygon { map_id, polygon_id, coordinates, options } =>
            "{\"op\":\"updatePolygon\",\"mapId\":"@ + spec_decimal(map_id as int)
                + ",\"polygonId\":"@ + spec_decimal(polygon_id as int) + ",\"coordinates\":"@
                + spec_wire_ring_sets(coordinates) + ",\"options\":"@ + spec_wire_path_options(
                options,
            ) + "}"@,
        BridgeRequestView::DeletePolygon { map_id, polygon_id } =>
            "{\"op\":\"deletePolygon\",\"mapId\":"@ + spec_decimal(map_id as int)
                + ",\"polygonId\":"@ + spec_decimal(polygon_id as int) + "}"@,
        BridgeRequestView::UpdatePopup { parent_id, popup_id, options } =>
            "{\"op\":\"updatePopup\",\"parentId\":"@ + spec_decimal(parent_id as int)
                + ",\"popupId\":"@ + spec_decimal(popup_id as int) + ",\"options\":"@
                + spec_wire_popup_options(options) + "}"@,
    }
}

/// Writes the payload that carries one request to the store.
pub fn encode_request(req: &BridgeRequest) -> (r: String)
    ensures
        r@ == spec_wire_request(req@),
{
    let mut out = String::new();
    match req {
        BridgeRequest::UpdateMap { id, initial_position, options } => {
            out.append("{\"op\":\"updateMap\",\"id\":");
            out.append(u64_to_string(*id as u64).as_str());
            out.append(",\"position\":");
            out.append(wire_position(initial_position).as_str());
            out.append(",\"options\":");
            out.append(wire_map_options(options).as_str());
            out.append("}");
        },
        BridgeRequest::DeleteMap { id } => {
            out.append("{\"op\":\"deleteMap\",\"id\":");
            out.append(u64_to_string(*id as u64).as_str());
            out.append("}");
        },
        BridgeRequest::OnMapClick { id } => {
            out.append("{\"op\":\"onMapClick\",\"id\":");
            out.append(u64_to_string(*id as u64).as_str());
            out.append("}");
        },
        BridgeRequest::UpdateMarker { map_id, marker_id, coordinate, icon } => {
            out.append("{\"op\":\"updateMarker\",\"mapId\":");
            out.append(u64_to_string(*map_id as u64).as_str());
            out.append(",\"markerId\":");
            out.append(u64_to_string(*marker_id as u64).as_str());
            out.append(",\"coordinate\":");
            out.append(wire_latlng(coordinate).as_str());
            out.append(",\"icon\":");
            out.append(wire_opt_icon(icon).as_str());
            out.append("}");
        },
        BridgeRequest::DeleteMarker { map_id, marker_id } => {
            out.append("{\"op\":\"deleteMarker\",\"mapId\":");
            out.append(u64_to_string(*map_id as u64).as_str());
            out.append(",\"markerId\":");
            out.append(u64_to_string(*marker_id as u64).as_str());
            out.append("}");
        },
        BridgeRequest::UpdatePolygon { map_id, polygon_id, coordinates, options } => {
            out.append("{\"op\":\"updatePolygon\",\"mapId\":");
            out.append(u64_to_string(*map_id as u64).as_str());
            out.append(",\"polygonId\":");
            out.append(u64_to_string(*polygon_id as u64).as_str());
            out.append(",\"coordinates\":");
            out.append(wire_ring_sets(coordinates).as_str());
            out.append(",\"options\":");
            out.append(wire_path_options(options).as_str());
            out.append("}");
        },
        BridgeRequest::DeletePolygon { map_id, polygon_id } => {
            out.append("{\"op\":\"deletePolygon\",\"mapId\":");
            out.append(u64_to_string(*map_id as u64).as_str());
            out.append(",\"polygonId\":");
            out.append(u64_to_string(*polygon_id as u64).as_str());
            out.append("}");
        },
        BridgeRequest::UpdatePopup { parent_id, popup_id, options } => {
            out.append("{\"op\":\"updatePopup\",\"parentId\":");
            out.append(u64_to_string(*parent_id as u64).as_str());
            out.append(",\"popupId\":");
            out.append(u64_to_string(*popup_id as u64).as_str());
            out.append(",\"options\":");
            out.append(wire_popup_options(options).as_str());
            out.append("}");
        },
    }
    proof {
        assert(out@ =~= spec_wire_request(req@));
    }
    out
}

} // verus!
