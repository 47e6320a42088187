//! Tile layer configuration.

use vstd::prelude::*;
use vstd::string::StringExecFns;

verus! {

/// A tile source: URL template, attribution text, maximum zoom level and
/// the subdomains substituted into the template.
#[derive(Debug, PartialEq)]
pub struct TileLayer {
    pub url: String,
    pub attribution: String,
    pub max_zoom: u8,
    pub subdomains: Vec<String>,
}

/// Mathematical image of a `TileLayer`.
pub struct TileLayerView {
    pub url: Seq<char>,
    pub attribution: Seq<char>,
    pub max_zoom: u8,
    pub subdomains: Seq<Seq<char>>,
}

impl View for TileLayer {
    type V = TileLayerView;

    open spec fn view(&self) -> TileLayerView {
        TileLayerView {
            url: self.url@,
            attribution: self.attribution@,
            max_zoom: self.max_zoom,
            subdomains: self.subdomains.deep_view(),
        }
    }
}

impl Clone for TileLayer {
    /// Clones preserve the configuration exactly.
    fn clone(&self) -> (r: Self)
        ensures
            r@ == self@,
    {
        let mut subdomains: Vec<String> = Vec::new();
        let n = self.subdomains.len();
        let mut i: usize = 0;
        while i < n
            invariant
                i <= n,
                n == self.subdomains@.len(),
                subdomains@.len() == i,
                forall|j: int| 0 <= j < i ==> subdomains@[j] == self.subdomains@[j],
            decreases n - i,
        {
            subdomains.push(self.subdomains[i].clone());
            i = i + 1;
        }
        proof {
            assert(subdomains.deep_view() =~= self.subdomains.deep_view());
        }
        let r = TileLayer {
            url: self.url.clone(),
            attribution: self.attribution.clone(),
            max_zoom: self.max_zoom,
            subdomains,
        };
        proof {
            assert(r@ =~= self@);
        }
        r
    }
}

/// What `TileLayer::openstreetmap` returns.
pub open spec fn spec_openstreetmap() -> TileLayerView {
    TileLayerView {
        url: "https://{s}.tile.openstreetmap.org/{z}/{x}/{y}.png"@,
        attribution:
            "&copy; <a href=\"https://www.openstreetmap.org/copyright\">OpenStreetMap</a> contributors"@,
        max_zoom: 19,
        subdomains: seq!["a"@, "b"@, "c"@],
    }
}

/// What `TileLayer::satellite` returns.
pub open spec fn spec_satellite() -> TileLayerView {
    TileLayerView {
        url:
            "https://server.arcgisonline.com/ArcGIS/rest/services/World_Imagery/MapServer/tile/{z}/{y}/{x}"@,
        attribution: "Tiles &copy; Esri"@,
        max_zoom: 18,
        subdomains: Seq::empty(),
    }
}

impl TileLayer {
    /// The OpenStreetMap tile layer, the default.
    pub fn openstreetmap() -> (r: Self)
        ensures
            r@ == spec_openstreetmap(),
    {
        let subdomains = vec![
            String::from_str("a"),
            String::from_str("b"),
            String::from_str("c"),
        ];
        let r = TileLayer {
            url: String::from_str("https://{s}.tile.openstreetmap.org/{z}/{x}/{y}.png"),
            attribution: String::from_str(
                "&copy; <a href=\"https://www.openstreetmap.org/copyright\">OpenStreetMap</a> contributors",
            ),
            max_zoom: 19,
            subdomains,
        };
        proof {
            assert(r@.subdomains =~= seq!["a"@, "b"@, "c"@]);
            assert(r@ =~= spec_openstreetmap());
        }
        r
    }

    /// Esri world imagery, a satellite tile layer.
    pub fn satellite() -> (r: Self)
        ensures
            r@ == spec_satellite(),
    {
        let r = TileLayer {
            url: String::from_str(
                "https://server.arcgisonline.com/ArcGIS/rest/services/World_Imagery/MapServer/tile/{z}/{y}/{x}",
            ),
            attribution: String::from_str("Tiles &copy; Esri"),
            max_zoom: 18,
            subdomains: Vec::new(),
        };
        proof {
            assert(r@.subdomains =~= Seq::<Seq<char>>::empty());
            assert(r@ =~= spec_satellite());
        }
        r
    }
}

impl Default for TileLayer {
    /// The OpenStreetMap layer.
    fn default() -> (r: Self)
        ensures
            r@ == spec_openstreetmap(),
    {
        TileLayer::openstreetmap()
    }
}

fn eq_string_vec(a: &Vec<String>, b: &Vec<String>) -> (r: bool)
    ensures
        r == (a.deep_view() == b.deep_view()),
{
    if a.len() != b.len() {
        proof {
            assert(a.deep_view().len() == a@.len());
            assert(b.deep_view().len() == b@.len());
        }
        return false;
    }
    let n = a.len();
    let mut i: usize = 0;
    while i < n
        invariant
            i <= n,
            n == a@.len() == b@.len(),
            forall|j: int| 0 <= j < i ==> a@[j]@ == b@[j]@,
        decreases n - i,
    {
        if !a[i].eq(&b[i]) {
            proof {
                assert(a.deep_view()[i as int] != b.deep_view()[i as int]);
            }
            return false;
        }
        i = i + 1;
    }
    proof {
        assert(a.deep_view() =~= b.deep_view());
    }
    true
}

/// Whether two tile layers describe the same source.
pub fn eq_tile_layer(a: &TileLayer, b: &TileLayer) -> (r: bool)
    ensures
        r == (a@ == b@),
{
    a.url.eq(&b.url) && a.attribution.eq(&b.attribution) && a.max_zoom == b.max_zoom
        && eq_string_vec(&a.subdomains, &b.subdomains)
}

} // verus!
