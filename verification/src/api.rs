//! The service's identity, its dependency endpoints, and the description of
//! the routes it documents.

use vstd::prelude::*;

use crate::reply::{dependency_name, Dependency};

verus! {

/// The service's name.
pub const SERVICE: &'static str = "srvcs-slope";

/// The service's single concern.
pub const CONCERN: &'static str = "geometry: slope between two points";

/// The service's name.
pub open spec fn service_name() -> Seq<char> {
    "srvcs-slope"@
}

/// The service's single concern.
pub open spec fn concern_text() -> Seq<char> {
    "geometry: slope between two points"@
}

/// The names of the services this one calls, in the order it calls them.
pub open spec fn dependency_names() -> Seq<Seq<char>> {
    seq![dependency_name(Dependency::FloatSubtract), dependency_name(Dependency::FloatDivide)]
}

/// The views of a list of names.
pub open spec fn names_view(names: Seq<&'static str>) -> Seq<Seq<char>> {
    names.map_values(|name: &'static str| name@)
}

/// The dependency endpoints the service calls.
#[derive(Clone)]
pub struct Deps {
    pub floatsubtract_url: String,
    pub floatdivide_url: String,
}

impl Deps {
    /// The base URL at which `dependency` is reached.
    pub open spec fn url_of(self, dependency: Dependency) -> String {
        match dependency {
            Dependency::FloatSubtract => self.floatsubtract_url,
            Dependency::FloatDivide => self.floatdivide_url,
        }
    }

    /// The base URL at which `dependency` is reached.
    pub fn url_for(&self, dependency: Dependency) -> (url: &String)
        ensures
            *url == self.url_of(dependency),
            dependency == Dependency::FloatSubtract ==> *url == self.floatsubtract_url,
            dependency == Dependency::FloatDivide ==> *url == self.floatdivide_url,
    {
        match dependency {
            Dependency::FloatSubtract => &self.floatsubtract_url,
            Dependency::FloatDivide => &self.floatdivide_url,
        }
    }
}

/// The service's identity (srvcs service standard).
pub struct Info {
    pub service: &'static str,
    pub concern: &'static str,
    pub depends_on: Vec<&'static str>,
}

/// The names of the services this one calls: `srvcs-floatsubtract`, then
/// `srvcs-floatdivide`.
pub fn depends_on() -> (names: Vec<&'static str>)
    ensures
        names_view(names@) == dependency_names(),
{
    let names = vec![Dependency::FloatSubtract.name(), Dependency::FloatDivide.name()];
    assert(names_view(names@) =~= dependency_names());
    names
}

/// `GET /`: the service's identity, its concern, and its dependency list.
pub fn index() -> (info: Info)
    ensures
        info.service@ == service_name(),
        info.concern@ == concern_text(),
        names_view(info.depends_on@) == dependency_names(),
{
    proof {
        reveal_strlit("srvcs-slope");
        reveal_strlit("geometry: slope between two points");
    }
    Info { service: SERVICE, concern: CONCERN, depends_on: depends_on() }
}

} // verus!

verus! {

/// Whether two texts are the same, character by character.
pub fn same_text(a: &str, b: &str) -> (same: bool)
    ensures
        same == (a@ == b@),
{
    let n = a.unicode_len();
    if n != b.unicode_len() {
        return false;
    }
    let mut i: usize = 0;
    while i < n
        invariant
            n == a@.len(),
            n == b@.len(),
            i <= n,
            forall|j: int| 0 <= j < i ==> a@[j] == b@[j],
        decreases n - i,
    {
        if a.get_char(i) != b.get_char(i) {
            return false;
        }
        i = i + 1;
    }
    assert(a@ =~= b@);
    true
}

/// One documented operation of a route: its id and the statuses it may
/// answer with.
pub struct Operation {
    pub operation_id: &'static str,
    pub responses: Vec<u16>,
}

/// The documented operations of one path.
pub struct PathItem {
    pub get: Option<Operation>,
    pub post: Option<Operation>,
}

/// The documented paths, each with its operations.
pub struct PathMap {
    pub entries: Vec<(&'static str, PathItem)>,
}

/// The first entry of `entries` whose path is `path`.
pub open spec fn lookup(entries: Seq<(&'static str, PathItem)>, path: Seq<char>) -> Option<PathItem>
    decreases entries.len(),
{
    if entries.len() == 0 {
        None
    } else if entries[0].0@ == path {
        Some(entries[0].1)
    } else {
        lookup(entries.drop_first(), path)
    }
}

impl PathMap {
    /// The operations documented for `path`, if it is documented.
    pub fn get(&self, path: &str) -> (item: Option<&PathItem>)
        ensures
            item is Some == lookup(self.entries@, path@) is Some,
            item matches Some(found) ==> lookup(self.entries@, path@) == Some(*found),
    {
        let mut i: usize = 0;
        assert(self.entries@.skip(0) =~= self.entries@);
        while i < self.entries.len()
            invariant
                i <= self.entries@.len(),
                lookup(self.entries@, path@) == lookup(self.entries@.skip(i as int), path@),
            decreases self.entries@.len() - i,
        {
            assert(self.entries@.skip(i as int).drop_first() =~= self.entries@.skip(i + 1));
            if same_text(self.entries[i].0, path) {
                return Some(&self.entries[i].1);
            }
            i = i + 1;
        }
        None
    }
}

/// The documented routes.
pub struct Paths {
    pub paths: PathMap,
}

/// The service's API description: its routes, and the schemas they name.
pub struct OpenApi {
    pub paths: Paths,
    pub schemas: Vec<&'static str>,
}

/// The statuses documented for `GET /`.
pub open spec fn documented_index_statuses() -> Seq<u16> {
    seq![200]
}

/// The statuses documented for `POST /`: the slope, a forwarded rejection,
/// a malformed dependency result, an unavailable dependency.
pub open spec fn documented_evaluate_statuses() -> Seq<u16> {
    seq![200, 422, 500, 503]
}

/// The schemas the API description names.
pub open spec fn documented_schemas() -> Seq<Seq<char>> {
    seq!["Info"@, "EvalRequest"@, "SlopeResponse"@]
}

/// Whether `item` documents `GET /` as `index` and `POST /` as `evaluate`,
/// each with its statuses.
pub open spec fn documents_root(item: PathItem) -> bool {
    &&& item.get matches Some(op) && op.operation_id@ == "index"@
        && op.responses@ == documented_index_statuses()
    &&& item.post matches Some(op) && op.operation_id@ == "evaluate"@
        && op.responses@ == documented_evaluate_statuses()
}

/// The API description of the service (OpenAPI).
pub struct ApiDoc;

impl ApiDoc {
    /// The API description: the one path `/`, with `GET` (the identity) and
    /// `POST` (the slope), and the schemas they use.
    pub fn openapi() -> (doc: OpenApi)
        ensures
            doc.paths.paths.entries@.len() == 1,
            lookup(doc.paths.paths.entries@, "/"@) matches Some(item) && documents_root(item),
            names_view(doc.schemas@) == documented_schemas(),
    {
        proof {
            reveal_strlit("/");
            reveal_strlit("index");
            reveal_strlit("evaluate");
            reveal_strlit("Info");
            reveal_strlit("EvalRequest");
            reveal_strlit("SlopeResponse");
        }
        let index = Operation { operation_id: "index", responses: vec![200] };
        let evaluate = Operation { operation_id: "evaluate", responses: vec![200, 422, 500, 503] };
        let root = PathItem { get: Some(index), post: Some(evaluate) };
        let entries = vec![("/", root)];
        let schemas = vec!["Info", "EvalRequest", "SlopeResponse"];
        assert(names_view(schemas@) =~= documented_schemas());
        assert(entries@[0].1.get->0.responses@ =~= documented_index_statuses());
        assert(entries@[0].1.post->0.responses@ =~= documented_evaluate_statuses());
        OpenApi { paths: Paths { paths: PathMap { entries } }, schemas }
    }
}

} // verus!
