//! The request router: from a request path to the content that answers it.
//!
//! Routing never touches the file system itself. Where an answer depends on
//! a file or a directory, `handle_request` and its companions return a
//! `RoutePlan` that says what to look up, and take the outcome of the lookup
//! as an argument of the next call.

use crate::mime::{
    asset_content_type, asset_type_of, content_type_of_path, determine_content_type, ContentType,
};
use crate::reload::{listed_once, ReloadState, ReloadView};
use crate::session::{ServerSession, SessionView};
use crate::text::{
    ends_with, file_name, file_name_of, has_parent_segment, is_traversal, join, join_path,
    starts_with, strip_leading_slashes, text_eq, without_leading_slashes,
};
use vstd::prelude::*;
use vstd::string::StrSliceExecFns;
use vstd::string::StringExecFns;
use vstd::utf8::encode_utf8;

verus! {

/// Which rule answered a request.
#[derive(Clone, Copy, Debug, PartialEq, Eq, Structural)]
pub enum RouteKind {
    EntryPage,
    PrimaryArtifact,
    GlueScript,
    ReloadPoll,
    AssetFile,
    OutputFile,
    NotFound,
}

/// What an unresolved path falls back to.
#[derive(Clone, Copy, Debug, PartialEq, Eq, Structural)]
pub enum ServingMode {
    /// A single module: an unresolved path is not found.
    Module,
    /// A single-page web application: an unresolved path gets the entry
    /// page, so that routes handled in the browser keep working.
    WebApp,
}

/// The answer to one request.
#[derive(Clone, Debug, PartialEq, Eq)]
pub struct RouteResult {
    pub kind: RouteKind,
    /// The HTTP status code.
    pub status: u16,
    pub content_type: ContentType,
    /// The payload, or the text of the error.
    pub body: Vec<u8>,
    /// The poll saw a rebuild that no earlier poll had seen.
    pub reload_needed: bool,
    /// The answer must not be cached.
    pub no_cache: bool,
}

/// A `RouteResult` as mathematical values.
pub struct ResultView {
    pub kind: RouteKind,
    pub status: u16,
    pub content_type: ContentType,
    pub body: Seq<u8>,
    pub reload_needed: bool,
    pub no_cache: bool,
}

impl View for RouteResult {
    type V = ResultView;

    open spec fn view(&self) -> ResultView {
        ResultView {
            kind: self.kind,
            status: self.status,
            content_type: self.content_type,
            body: self.body@,
            reload_needed: self.reload_needed,
            no_cache: self.no_cache,
        }
    }
}

/// What to do next for a request.
#[derive(Clone, Debug, PartialEq, Eq)]
pub enum RoutePlan {
    /// Nothing is left to look up: send this.
    Respond(RouteResult),
    /// Read the file at `path` and hand the outcome to `serve_file`.
    ReadFile { kind: RouteKind, path: String, content_type: ContentType },
    /// Read the asset at `path` and hand the outcome to `serve_asset`.
    ReadAsset { path: String, content_type: ContentType },
    /// Find out whether `path` is a regular file and hand the answer to
    /// `output_probed`.
    ProbeOutput { path: String },
    /// List `directory` and hand the entries to `output_listed`.
    ListOutput { directory: String },
}

/// A `RoutePlan` as mathematical values.
pub enum PlanView {
    Respond(ResultView),
    ReadFile { kind: RouteKind, path: Seq<char>, content_type: ContentType },
    ReadAsset { path: Seq<char>, content_type: ContentType },
    ProbeOutput { path: Seq<char> },
    ListOutput { directory: Seq<char> },
}

impl View for RoutePlan {
    type V = PlanView;

    open spec fn view(&self) -> PlanView {
        match self {
            RoutePlan::Respond(result) => PlanView::Respond(result@),
            RoutePlan::ReadFile { kind, path, content_type } => PlanView::ReadFile {
                kind: *kind,
                path: path@,
                content_type: *content_type,
            },
            RoutePlan::ReadAsset { path, content_type } => PlanView::ReadAsset {
                path: path@,
                content_type: *content_type,
            },
            RoutePlan::ProbeOutput { path } => PlanView::ProbeOutput { path: path@ },
            RoutePlan::ListOutput { directory } => PlanView::ListOutput { directory: directory@ },
        }
    }
}

/// One entry of a directory listing.
#[derive(Clone, Debug, PartialEq, Eq)]
pub struct DirEntry {
    /// The entry's name within its directory.
    pub name: String,
    /// The entry is a regular file.
    pub is_file: bool,
}

/// A `DirEntry` as mathematical values.
pub struct EntryView {
    pub name: Seq<char>,
    pub is_file: bool,
}

impl View for DirEntry {
    type V = EntryView;

    open spec fn view(&self) -> EntryView {
        EntryView { name: self.name@, is_file: self.is_file }
    }
}

/// The views of a listing's entries, in listing order.
pub open spec fn listing(entries: Seq<DirEntry>) -> Seq<EntryView> {
    Seq::new(entries.len(), |i: int| entries[i]@)
}

/// The entry page: the given HTML, served as such.
pub open spec fn entry_page(html: Seq<char>) -> ResultView {
    ResultView {
        kind: RouteKind::EntryPage,
        status: 200,
        content_type: ContentType::Html,
        body: encode_utf8(html),
        reload_needed: false,
        no_cache: false,
    }
}

/// The answer to a path that nothing resolves.
pub open spec fn not_found() -> ResultView {
    ResultView {
        kind: RouteKind::NotFound,
        status: 404,
        content_type: ContentType::Plain,
        body: encode_utf8("404 Not Found"@),
        reload_needed: false,
        no_cache: false,
    }
}

/// The answer to a reload poll. Outside watch mode it is `not-watching`
/// whatever the flag holds. In watch mode it states the flag: `reload` where
/// a rebuild is pending, `no-reload` where none is.
pub open spec fn poll_answer(watch: bool, pending: bool) -> ResultView {
    ResultView {
        kind: RouteKind::ReloadPoll,
        status: 200,
        content_type: ContentType::Plain,
        body: if !watch {
            encode_utf8("not-watching"@)
        } else if pending {
            encode_utf8("reload"@)
        } else {
            encode_utf8("no-reload"@)
        },
        reload_needed: watch && pending,
        no_cache: watch,
    }
}

/// The answer for a file that was read, or could not be read.
pub open spec fn file_served(
    kind: RouteKind,
    content_type: ContentType,
    read: Result<Seq<u8>, Seq<char>>,
) -> ResultView {
    match read {
        Ok(bytes) => ResultView {
            kind,
            status: 200,
            content_type,
            body: bytes,
            reload_needed: false,
            no_cache: false,
        },
        Err(cause) => ResultView {
            kind,
            status: 500,
            content_type: ContentType::Plain,
            body: encode_utf8("Error: "@ + cause),
            reload_needed: false,
            no_cache: false,
        },
    }
}

/// The answer for an asset that was read, or could not be read. Whatever
/// went wrong, the asset counts as not found.
pub open spec fn asset_served(url: Seq<char>, read: Result<Seq<u8>, Seq<char>>) -> ResultView {
    match read {
        Ok(bytes) => ResultView {
            kind: RouteKind::AssetFile,
            status: 200,
            content_type: asset_type_of(url),
            body: bytes,
            reload_needed: false,
            no_cache: false,
        },
        Err(cause) => ResultView {
            kind: RouteKind::AssetFile,
            status: 404,
            content_type: ContentType::Plain,
            body: encode_utf8("Asset not found: "@ + cause),
            reload_needed: false,
            no_cache: false,
        },
    }
}

/// `url` is `/` followed by the file name that `path` ends in.
pub open spec fn names_file(url: Seq<char>, path: Seq<char>) -> bool {
    match file_name_of(path) {
        Some(name) => url == seq!['/'] + name,
        None => false,
    }
}

/// `url` is `/` followed by the glue script's file name.
pub open spec fn names_glue_script(url: Seq<char>, session: SessionView) -> bool {
    match session.glue_script_path {
        Some(path) => names_file(url, path),
        None => false,
    }
}

/// `url` is one of the two reload endpoints.
pub open spec fn is_reload_poll(url: Seq<char>) -> bool {
    url == "/reload"@ || url == "/reload-check"@
}

/// `url` lies under `/assets/`.
pub open spec fn is_asset(url: Seq<char>) -> bool {
    "/assets/"@.is_prefix_of(url)
}

/// The asset named by `url`: what follows `/assets/`, or nothing where
/// `url` does not lie under it.
pub open spec fn asset_name(url: Seq<char>) -> Seq<char> {
    if is_asset(url) {
        url.skip("/assets/"@.len() as int)
    } else {
        Seq::empty()
    }
}

/// The directory that holds the static assets.
pub open spec fn assets_root_location() -> Seq<char> {
    "./assets"@
}

/// Where the asset requested as `url` lies: under the fixed assets root,
/// whatever the output directory is.
pub open spec fn asset_path(url: Seq<char>) -> Seq<char> {
    join_path(assets_root_location(), asset_name(url))
}

/// `url` escapes the output directory: one of its segments is `..`.
pub open spec fn escapes_root(url: Seq<char>) -> bool {
    has_parent_segment(without_leading_slashes(url))
}

/// Where `url` lies under the session's output directory.
pub open spec fn output_path(session: SessionView, url: Seq<char>) -> Seq<char> {
    join_path(session.output_directory, without_leading_slashes(url))
}

/// `name` ends like the binary that the build tool names by itself.
pub open spec fn is_generated_name(name: Seq<char>) -> bool {
    "_bg.wasm"@.is_suffix_of(name)
}

/// The last resort for a path that nothing resolved.
pub open spec fn fallback(mode: ServingMode, html: Seq<char>) -> PlanView {
    match mode {
        ServingMode::WebApp => PlanView::Respond(entry_page(html)),
        ServingMode::Module => PlanView::Respond(not_found()),
    }
}

/// What follows when `url` is not a file of the output directory: a scan
/// for a generated binary if `url` asks for one, else the fallback.
pub open spec fn missed(
    session: SessionView,
    mode: ServingMode,
    html: Seq<char>,
    url: Seq<char>,
) -> PlanView {
    if is_generated_name(url) {
        PlanView::ListOutput { directory: session.output_directory }
    } else {
        fallback(mode, html)
    }
}

/// The routing rules, in priority order, together with what they do to the
/// reload state. Only the entry page (in watch mode) and a reload poll (in
/// watch mode) change the state.
pub open spec fn route(
    session: SessionView,
    mode: ServingMode,
    html: Seq<char>,
    reload: ReloadView,
    url: Seq<char>,
    client: Seq<char>,
) -> (PlanView, ReloadView) {
    if url == seq!['/'] {
        (
            PlanView::Respond(entry_page(html)),
            if session.watch_mode_enabled {
                reload.observing(client)
            } else {
                reload
            },
        )
    } else if names_file(url, session.primary_artifact_path) {
        (
            PlanView::ReadFile {
                kind: RouteKind::PrimaryArtifact,
                path: session.primary_artifact_path,
                content_type: ContentType::Wasm,
            },
            reload,
        )
    } else if names_glue_script(url, session) {
        (
            PlanView::ReadFile {
                kind: RouteKind::GlueScript,
                path: session.glue_script_path->0,
                content_type: ContentType::JavaScript,
            },
            reload,
        )
    } else if is_reload_poll(url) {
        if session.watch_mode_enabled {
            (PlanView::Respond(poll_answer(true, reload.pending)), reload.consumed())
        } else {
            (PlanView::Respond(poll_answer(false, reload.pending)), reload)
        }
    } else if is_asset(url) {
        (PlanView::ReadAsset { path: asset_path(url), content_type: asset_type_of(url) }, reload)
    } else if escapes_root(url) {
        (missed(session, mode, html, url), reload)
    } else {
        (PlanView::ProbeOutput { path: output_path(session, url) }, reload)
    }
}

/// What follows the probe of `url` under the output directory.
pub open spec fn after_probe(
    session: SessionView,
    mode: ServingMode,
    html: Seq<char>,
    url: Seq<char>,
    is_file: bool,
) -> PlanView {
    if is_file && !escapes_root(url) {
        PlanView::ReadFile {
            kind: RouteKind::OutputFile,
            path: output_path(session, url),
            content_type: content_type_of_path(output_path(session, url)),
        }
    } else {
        missed(session, mode, html, url)
    }
}

/// A regular file whose name marks it as a generated binary.
pub open spec fn is_generated_file(entry: EntryView) -> bool {
    entry.is_file && is_generated_name(entry.name)
}

/// Entry `i` is the first generated binary of the listing.
pub open spec fn is_first_generated(entries: Seq<EntryView>, i: int) -> bool {
    &&& 0 <= i < entries.len()
    &&& is_generated_file(entries[i])
    &&& forall|j: int| 0 <= j < i ==> !is_generated_file(#[trigger] entries[j])
}

/// The index of the first generated binary of the listing, if it has one.
pub open spec fn first_generated(entries: Seq<EntryView>) -> Option<int> {
    if exists|i: int| is_first_generated(entries, i) {
        Some(choose|i: int| is_first_generated(entries, i))
    } else {
        None
    }
}

/// What follows the listing of the output directory: the first generated
/// binary stands in for the primary artifact; without one, the fallback.
pub open spec fn after_listing(
    session: SessionView,
    mode: ServingMode,
    html: Seq<char>,
    url: Seq<char>,
    entries: Seq<EntryView>,
) -> PlanView {
    if !is_generated_name(url) {
        fallback(mode, html)
    } else {
        match first_generated(entries) {
            Some(i) => PlanView::ReadFile {
                kind: RouteKind::PrimaryArtifact,
                path: join_path(session.output_directory, entries[i].name),
                content_type: ContentType::Wasm,
            },
            None => fallback(mode, html),
        }
    }
}

fn entry_page_result(html: &str) -> (result: RouteResult)
    ensures
        result@ == entry_page(html@),
{
    RouteResult {
        kind: RouteKind::EntryPage,
        status: 200,
        content_type: ContentType::Html,
        body: html.as_bytes_vec(),
        reload_needed: false,
        no_cache: false,
    }
}

fn not_found_result() -> (result: RouteResult)
    ensures
        result@ == not_found(),
{
    RouteResult {
        kind: RouteKind::NotFound,
        status: 404,
        content_type: ContentType::Plain,
        body: "404 Not Found".as_bytes_vec(),
        reload_needed: false,
        no_cache: false,
    }
}

fn poll_result(watch: bool, pending: bool) -> (result: RouteResult)
    ensures
        result@ == poll_answer(watch, pending),
{
    let text = if !watch {
        "not-watching"
    } else if pending {
        "reload"
    } else {
        "no-reload"
    };
    RouteResult {
        kind: RouteKind::ReloadPoll,
        status: 200,
        content_type: ContentType::Plain,
        body: text.as_bytes_vec(),
        reload_needed: watch && pending,
        no_cache: watch,
    }
}

fn fallback_plan(mode: ServingMode, html: &str) -> (plan: RoutePlan)
    ensures
        plan@ == fallback(mode, html@),
{
    match mode {
        ServingMode::WebApp => RoutePlan::Respond(entry_page_result(html)),
        ServingMode::Module => RoutePlan::Respond(not_found_result()),
    }
}

fn missed_plan(session: &ServerSession, mode: ServingMode, html: &str, url: &str) -> (plan:
    RoutePlan)
    ensures
        plan@ == missed(session@, mode, html@, url@),
{
    if ends_with(url, "_bg.wasm") {
        RoutePlan::ListOutput { directory: session.output_directory.clone() }
    } else {
        fallback_plan(mode, html)
    }
}

fn url_names_file(url: &str, path: &str) -> (r: bool)
    ensures
        r == names_file(url@, path@),
{
    match file_name(path) {
        Some(name) => {
            let mut expected = String::from_str("/");
            expected.append(name.as_str());
            proof {
                reveal_strlit("/");
                assert("/"@ =~= seq!['/']);
            }
            text_eq(url, expected.as_str())
        },
        None => false,
    }
}

/// Resolves `url` by the routing rules, taken in this order:
/// the entry page at `/`; the primary artifact under its file name; the glue
/// script under its file name, where the session has one; the reload poll at
/// `/reload` and `/reload-check`; an asset under `/assets/`; and at last a
/// file of the output directory, which is first probed for.
///
/// Two rules change `reload`, both in watch mode only: the entry page
/// records `client_addr`, and a reload poll clears the flag it reports.
pub fn resolve(
    session: &ServerSession,
    mode: ServingMode,
    html: &str,
    reload: &mut ReloadState,
    url: &str,
    client_addr: &str,
) -> (plan: RoutePlan)
    ensures
        (plan@, final(reload)@) == route(
            session@,
            mode,
            html@,
            old(reload)@,
            url@,
            client_addr@,
        ),
        old(reload)@.well_formed(),
        final(reload)@.well_formed(),
        url@ == seq!['/'] && session.watch_mode_enabled ==> listed_once(
            final(reload)@.clients,
            client_addr@,
        ),
{
    proof {
        reveal_strlit("/");
        assert("/"@ =~= seq!['/']);
        use_type_invariant(&*reload);
        reload.lemma_valid_is_well_formed();
        crate::reload::lemma_observed_exactly_once(reload@.clients, client_addr@);
    }
    if text_eq(url, "/") {
        if session.watch_mode_enabled {
            reload.observe_client(client_addr);
        }
        return RoutePlan::Respond(entry_page_result(html));
    }
    if url_names_file(url, session.primary_artifact_path.as_str()) {
        return RoutePlan::ReadFile {
            kind: RouteKind::PrimaryArtifact,
            path: session.primary_artifact_path.clone(),
            content_type: ContentType::Wasm,
        };
    }
    match &session.glue_script_path {
        Some(glue) => {
            if url_names_file(url, glue.as_str()) {
                return RoutePlan::ReadFile {
                    kind: RouteKind::GlueScript,
                    path: glue.clone(),
                    content_type: ContentType::JavaScript,
                };
            }
        },
        None => {},
    }
    if text_eq(url, "/reload") || text_eq(url, "/reload-check") {
        if session.watch_mode_enabled {
            let pending = reload.take_pending();
            return RoutePlan::Respond(poll_result(true, pending));
        }
        return RoutePlan::Respond(poll_result(false, reload.is_pending()));
    }
    if starts_with(url, "/assets/") {
        return RoutePlan::ReadAsset {
            path: asset_location(url),
            content_type: asset_content_type(url),
        };
    }
    let relative = strip_leading_slashes(url);
    if is_traversal(relative.as_str()) {
        return missed_plan(session, mode, html, url);
    }
    RoutePlan::ProbeOutput { path: join(session.output_directory.as_str(), relative.as_str()) }
}

/// The directory that holds the static assets.
pub fn assets_root() -> (root: &'static str)
    ensures
        root@ == assets_root_location(),
{
    "./assets"
}

/// Where the asset requested as `url` lies. A `url` that does not lie
/// under `/assets/` names the assets root itself.
pub fn asset_location(url: &str) -> (path: String)
    ensures
        path@ == asset_path(url@),
{
    if starts_with(url, "/assets/") {
        let skip = "/assets/".unicode_len();
        join(assets_root(), url.substring_char(skip, url.unicode_len()))
    } else {
        proof {
            reveal_strlit("");
            assert(""@ =~= Seq::<char>::empty());
        }
        join(assets_root(), "")
    }
}

/// Resolves a request to a server that serves a single module: a path that
/// nothing resolves is not found.
pub fn handle_request(
    session: &ServerSession,
    html: &str,
    reload: &mut ReloadState,
    url: &str,
    client_addr: &str,
) -> (plan: RoutePlan)
    ensures
        (plan@, final(reload)@) == route(
            session@,
            ServingMode::Module,
            html@,
            old(reload)@,
            url@,
            client_addr@,
        ),
        old(reload)@.well_formed(),
        final(reload)@.well_formed(),
        url@ == seq!['/'] && session.watch_mode_enabled ==> listed_once(
            final(reload)@.clients,
            client_addr@,
        ),
{
    resolve(session, ServingMode::Module, html, reload, url, client_addr)
}

/// Resolves a request to a server that serves a web application: a path
/// that nothing resolves gets the entry page.
pub fn handle_webapp_request(
    session: &ServerSession,
    html: &str,
    reload: &mut ReloadState,
    url: &str,
    client_addr: &str,
) -> (plan: RoutePlan)
    ensures
        (plan@, final(reload)@) == route(
            session@,
            ServingMode::WebApp,
            html@,
            old(reload)@,
            url@,
            client_addr@,
        ),
        old(reload)@.well_formed(),
        final(reload)@.well_formed(),
        url@ == seq!['/'] && session.watch_mode_enabled ==> listed_once(
            final(reload)@.clients,
            client_addr@,
        ),
{
    resolve(session, ServingMode::WebApp, html, reload, url, client_addr)
}

/// Continues after `ProbeOutput`: `is_file` says whether the probed path is
/// a regular file. A path that leaves the output directory is never served,
/// whatever `is_file` says.
pub fn output_probed(
    session: &ServerSession,
    mode: ServingMode,
    html: &str,
    url: &str,
    is_file: bool,
) -> (plan: RoutePlan)
    ensures
        plan@ == after_probe(session@, mode, html@, url@, is_file),
{
    let relative = strip_leading_slashes(url);
    if is_file && !is_traversal(relative.as_str()) {
        let path = join(session.output_directory.as_str(), relative.as_str());
        let content_type = determine_content_type(path.as_str());
        RoutePlan::ReadFile { kind: RouteKind::OutputFile, path, content_type }
    } else {
        missed_plan(session, mode, html, url)
    }
}

/// The first generated binary of `entries`, by index.
fn find_generated(entries: &Vec<DirEntry>) -> (found: Option<usize>)
    ensures
        match found {
            Some(i) => first_generated(listing(entries@)) == Some(i as int),
            None => first_generated(listing(entries@)) is None,
        },
{
    let n = entries.len();
    let mut i: usize = 0;
    while i < n
        invariant
            i <= n,
            n == entries.len(),
            forall|j: int| 0 <= j < i ==> !is_generated_file(#[trigger] listing(entries@)[j]),
        decreases n - i,
    {
        if entries[i].is_file && ends_with(entries[i].name.as_str(), "_bg.wasm") {
            proof {
                let all = listing(entries@);
                assert(is_first_generated(all, i as int));
                let k = choose|k: int| is_first_generated(all, k);
                assert(k == i) by {
                    if k < i {
                        assert(!is_generated_file(all[k]));
                    }
                    if i < k {
                        assert(!is_generated_file(all[i as int]));
                    }
                }
            }
            return Some(i);
        }
        i += 1;
    }
    proof {
        let all = listing(entries@);
        assert forall|k: int| !is_first_generated(all, k) by {
            if 0 <= k < all.len() {
                assert(!is_generated_file(all[k]));
            }
        }
    }
    None
}

/// Continues after `ListOutput`: `entries` is what the output directory
/// holds, in the order the listing gave. The first regular file with the
/// generated suffix is served in place of the primary artifact.
pub fn output_listed(
    session: &ServerSession,
    mode: ServingMode,
    html: &str,
    url: &str,
    entries: &Vec<DirEntry>,
) -> (plan: RoutePlan)
    ensures
        plan@ == after_listing(session@, mode, html@, url@, listing(entries@)),
{
    if !ends_with(url, "_bg.wasm") {
        return fallback_plan(mode, html);
    }
    match find_generated(entries) {
        Some(i) => RoutePlan::ReadFile {
            kind: RouteKind::PrimaryArtifact,
            path: join(session.output_directory.as_str(), entries[i].name.as_str()),
            content_type: ContentType::Wasm,
        },
        None => fallback_plan(mode, html),
    }
}

/// The view of the outcome of reading a file.
pub open spec fn read_view(read: Result<Vec<u8>, String>) -> Result<Seq<u8>, Seq<char>> {
    match read {
        Ok(bytes) => Ok(bytes@),
        Err(cause) => Err(cause@),
    }
}

/// Finishes `ReadFile`: the bytes are served as they are, with the content
/// type the plan gave; a failed read is an internal error that names its
/// cause.
pub fn serve_file(
    kind: RouteKind,
    content_type: ContentType,
    read: Result<Vec<u8>, String>,
) -> (result: RouteResult)
    ensures
        result@ == file_served(kind, content_type, read_view(read)),
{
    match read {
        Ok(bytes) => RouteResult {
            kind,
            status: 200,
            content_type,
            body: bytes,
            reload_needed: false,
            no_cache: false,
        },
        Err(cause) => {
            let mut text = String::from_str("Error: ");
            text.append(cause.as_str());
            RouteResult {
                kind,
                status: 500,
                content_type: ContentType::Plain,
                body: text.as_str().as_bytes_vec(),
                reload_needed: false,
                no_cache: false,
            }
        },
    }
}

/// Finishes `ReadAsset` for the asset requested as `url`: the bytes are
/// served with the content type that the request path's ending selects; a
/// failed read is answered as not found, whatever its cause.
pub fn serve_asset(url: &str, read: Result<Vec<u8>, String>) -> (result: RouteResult)
    ensures
        result@ == asset_served(url@, read_view(read)),
{
    match read {
        Ok(bytes) => RouteResult {
            kind: RouteKind::AssetFile,
            status: 200,
            content_type: asset_content_type(url),
            body: bytes,
            reload_needed: false,
            no_cache: false,
        },
        Err(cause) => {
            let mut text = String::from_str("Asset not found: ");
            text.append(cause.as_str());
            RouteResult {
                kind: RouteKind::AssetFile,
                status: 404,
                content_type: ContentType::Plain,
                body: text.as_str().as_bytes_vec(),
                reload_needed: false,
                no_cache: false,
            }
        },
    }
}

/// The name a client goes by: its address, or `unknown` where the
/// connection has none.
pub open spec fn client_label(remote: Option<Seq<char>>) -> Seq<char> {
    match remote {
        Some(address) => address,
        None => "unknown"@,
    }
}

/// The name to record a client under.
pub fn client_address(remote: Option<&str>) -> (label: String)
    ensures
        label@ == client_label(
            match remote {
                Some(address) => Some(address@),
                None => None,
            },
        ),
{
    match remote {
        Some(address) => String::from_str(address),
        None => String::from_str("unknown"),
    }
}

/// The header lines of an answer: its content type, and the cache and
/// reload markers where they apply.
pub open spec fn header_lines(result: ResultView) -> Seq<(Seq<char>, Seq<char>)> {
    seq![("Content-Type"@, result.content_type.text())] + (if result.no_cache {
        seq![("Cache-Control"@, "no-cache, no-store, must-revalidate"@)]
    } else {
        seq![]
    }) + (if result.reload_needed {
        seq![("X-Reload-Needed"@, "true"@)]
    } else {
        seq![]
    })
}

impl RouteResult {
    /// The header lines to send with this answer, as name and value.
    pub fn headers(&self) -> (lines: Vec<(String, String)>)
        ensures
            lines.deep_view() == header_lines(self@),
    {
        let mut lines: Vec<(String, String)> = Vec::new();
        lines.push(
            (String::from_str("Content-Type"), String::from_str(self.content_type.as_str())),
        );
        if self.no_cache {
            lines.push(
                (
                    String::from_str("Cache-Control"),
                    String::from_str("no-cache, no-store, must-revalidate"),
                ),
            );
        }
        if self.reload_needed {
            lines.push((String::from_str("X-Reload-Needed"), String::from_str("true")));
        }
        assert(lines.deep_view() =~= header_lines(self@));
        lines
    }
}

/// What the assets root turned out to be when an asset could not be read.
#[derive(Clone, Copy, Debug, PartialEq, Eq, Structural)]
pub enum AssetRoot {
    /// Nothing exists at the root's place.
    Missing,
    /// Something exists there, but it is not a directory.
    NotADirectory,
    /// The root is a directory.
    Directory,
}

/// Why an asset could not be served. The distinction is for the operator
/// only: the client is told "not found" in every case.
#[derive(Clone, Copy, Debug, PartialEq, Eq, Structural)]
pub enum AssetError {
    /// The assets root does not exist.
    RootMissing,
    /// The assets root exists but is not a directory.
    RootNotADirectory,
    /// The root is in place; the file is missing within it.
    FileMissing,
}

impl AssetError {
    /// The diagnostic for the operator.
    pub open spec fn text(self) -> Seq<char> {
        match self {
            AssetError::RootMissing =>
                "The assets directory doesn't exist at the expected location!"@,
            AssetError::RootNotADirectory => "Found 'assets' but it's not a directory!"@,
            AssetError::FileMissing =>
                "The assets directory exists, but the specific file wasn't found"@,
        }
    }

    /// The diagnostic for the operator.
    pub fn message(&self) -> (s: &'static str)
        ensures
            s@ == self.text(),
    {
        match self {
            AssetError::RootMissing =>
                "The assets directory doesn't exist at the expected location!",
            AssetError::RootNotADirectory => "Found 'assets' but it's not a directory!",
            AssetError::FileMissing =>
                "The assets directory exists, but the specific file wasn't found",
        }
    }
}

/// The cause of a failed asset read, told from the state of the assets root.
pub open spec fn asset_failure(root: AssetRoot) -> AssetError {
    match root {
        AssetRoot::Missing => AssetError::RootMissing,
        AssetRoot::NotADirectory => AssetError::RootNotADirectory,
        AssetRoot::Directory => AssetError::FileMissing,
    }
}

/// Tells a missing assets root from a file missing within an existing root.
pub fn check_assets_directory(root: AssetRoot) -> (error: AssetError)
    ensures
        error == asset_failure(root),
{
    match root {
        AssetRoot::Missing => AssetError::RootMissing,
        AssetRoot::NotADirectory => AssetError::RootNotADirectory,
        AssetRoot::Directory => AssetError::FileMissing,
    }
}

/// `url` is claimed by neither the primary artifact nor the glue script.
pub open spec fn names_no_artifact(url: Seq<char>, session: SessionView) -> bool {
    !names_file(url, session.primary_artifact_path) && !names_glue_script(url, session)
}

/// A request for `/` is answered with the entry page, with status 200 and
/// the HTML content type, in every session and mode. In watch mode the
/// client is afterwards listed exactly once, and a repeated request leaves
/// the reload state as the first one left it; outside watch mode the state
/// does not change at all.
pub proof fn lemma_root_serves_entry_page(
    session: SessionView,
    mode: ServingMode,
    html: Seq<char>,
    reload: ReloadView,
    client: Seq<char>,
)
    requires
        reload.well_formed(),
    ensures
        ({
            let (plan, after) = route(session, mode, html, reload, seq!['/'], client);
            let (again, after_again) = route(session, mode, html, after, seq!['/'], client);
            &&& plan == PlanView::Respond(entry_page(html))
            &&& plan->Respond_0.status == 200
            &&& plan->Respond_0.content_type == ContentType::Html
            &&& after.well_formed()
            &&& after.pending == reload.pending
            &&& session.watch_mode_enabled ==> listed_once(after.clients, client)
            &&& !session.watch_mode_enabled ==> after == reload
            &&& again == plan
            &&& after_again == after
        }),
{
    crate::reload::lemma_observed_exactly_once(reload.clients, client);
    crate::reload::lemma_observe_idempotent(reload.clients, client);
}

/// Outside watch mode a reload poll is answered with exactly `not-watching`,
/// whatever the flag holds, and the reload state is left alone. This holds
/// of every session whose artifact and glue script are not themselves named
/// like a reload endpoint.
pub proof fn lemma_poll_outside_watch_mode(
    session: SessionView,
    mode: ServingMode,
    html: Seq<char>,
    reload: ReloadView,
    url: Seq<char>,
    client: Seq<char>,
)
    requires
        !session.watch_mode_enabled,
        is_reload_poll(url),
        names_no_artifact(url, session),
    ensures
        ({
            let (plan, after) = route(session, mode, html, reload, url, client);
            &&& plan is Respond
            &&& plan->Respond_0.kind == RouteKind::ReloadPoll
            &&& plan->Respond_0.status == 200
            &&& plan->Respond_0.body == encode_utf8("not-watching"@)
            &&& !plan->Respond_0.reload_needed
            &&& after == reload
        }),
{
    lemma_poll_is_not_root(url);
}

/// Neither reload endpoint is the root path.
proof fn lemma_poll_is_not_root(url: Seq<char>)
    requires
        is_reload_poll(url),
    ensures
        url != seq!['/'],
{
    reveal_strlit("/reload");
    reveal_strlit("/reload-check");
    assert(url.len() > 1);
}

/// In watch mode a rebuild is signalled to exactly one poll: the first poll
/// after the flag was set reports that a reload is needed and clears the
/// flag, and a poll right after it reports none. The observed clients are
/// not touched. This holds of every session whose artifact and glue script
/// are not themselves named like a reload endpoint.
pub proof fn lemma_rebuild_signalled_once(
    session: SessionView,
    mode: ServingMode,
    html: Seq<char>,
    reload: ReloadView,
    url: Seq<char>,
    client: Seq<char>,
)
    requires
        session.watch_mode_enabled,
        is_reload_poll(url),
        names_no_artifact(url, session),
    ensures
        ({
            let (first, cleared) = route(session, mode, html, reload.notified(), url, client);
            let (second, after) = route(session, mode, html, cleared, url, client);
            &&& first == PlanView::Respond(poll_answer(true, true))
            &&& first->Respond_0.reload_needed
            &&& !cleared.pending
            &&& second == PlanView::Respond(poll_answer(true, false))
            &&& !second->Respond_0.reload_needed
            &&& !after.pending
            &&& after.clients == reload.clients
        }),
{
    lemma_poll_is_not_root(url);
}

/// No request prunes the observed clients: whatever is resolved, the
/// clients seen before stay listed, in their order.
pub proof fn lemma_clients_are_never_pruned(
    session: SessionView,
    mode: ServingMode,
    html: Seq<char>,
    reload: ReloadView,
    url: Seq<char>,
    client: Seq<char>,
)
    ensures
        reload.clients.is_prefix_of(route(session, mode, html, reload, url, client).1.clients),
{
}

/// Only the entry page and the reload poll ever change the reload state.
pub proof fn lemma_other_paths_keep_reload_state(
    session: SessionView,
    mode: ServingMode,
    html: Seq<char>,
    reload: ReloadView,
    url: Seq<char>,
    client: Seq<char>,
)
    requires
        url != seq!['/'],
        !is_reload_poll(url),
    ensures
        route(session, mode, html, reload, url, client).1 == reload,
{
}

/// Where exactly one entry of the output directory is a generated binary, a
/// request for a generated name that is itself no file of the directory is
/// answered with that entry, as `application/wasm`.
pub proof fn lemma_single_generated_binary_is_served(
    session: SessionView,
    mode: ServingMode,
    html: Seq<char>,
    url: Seq<char>,
    entries: Seq<EntryView>,
    i: int,
    bytes: Seq<u8>,
)
    requires
        is_generated_name(url),
        0 <= i < entries.len(),
        is_generated_file(entries[i]),
        forall|j: int|
            0 <= j < entries.len() && j != i ==> !is_generated_file(#[trigger] entries[j]),
    ensures
        after_probe(session, mode, html, url, false) == (PlanView::ListOutput {
            directory: session.output_directory,
        }),
        after_listing(session, mode, html, url, entries) == (PlanView::ReadFile {
            kind: RouteKind::PrimaryArtifact,
            path: join_path(session.output_directory, entries[i].name),
            content_type: ContentType::Wasm,
        }),
        file_served(RouteKind::PrimaryArtifact, ContentType::Wasm, Ok(bytes)).status == 200,
        file_served(RouteKind::PrimaryArtifact, ContentType::Wasm, Ok(bytes)).content_type
            == ContentType::Wasm,
        file_served(RouteKind::PrimaryArtifact, ContentType::Wasm, Ok(bytes)).body == bytes,
{
    assert(is_first_generated(entries, i));
    let k = choose|k: int| is_first_generated(entries, k);
    assert(k == i);
}

/// Where no entry of the output directory is a generated binary, a server
/// of a single module answers a request for a generated name with 404.
pub proof fn lemma_no_generated_binary_is_not_found(
    session: SessionView,
    html: Seq<char>,
    url: Seq<char>,
    entries: Seq<EntryView>,
)
    requires
        forall|j: int| 0 <= j < entries.len() ==> !is_generated_file(#[trigger] entries[j]),
    ensures
        after_listing(session, ServingMode::Module, html, url, entries) == PlanView::Respond(
            not_found(),
        ),
        not_found().status == 404,
{
    assert forall|k: int| !is_first_generated(entries, k) by {
        if 0 <= k < entries.len() {
            assert(!is_generated_file(entries[k]));
        }
    }
}

/// The plans lead to an answer in a few steps: a probe is asked for at most
/// once, by the first resolution only, and a listing at most once, after the
/// probe at the latest.
pub proof fn lemma_plans_make_progress(
    session: SessionView,
    mode: ServingMode,
    html: Seq<char>,
    url: Seq<char>,
    is_file: bool,
    entries: Seq<EntryView>,
)
    ensures
        !(after_probe(session, mode, html, url, is_file) is ProbeOutput),
        !(after_listing(session, mode, html, url, entries) is ProbeOutput),
        !(after_listing(session, mode, html, url, entries) is ListOutput),
{
}

/// No plan ever names a path of the output directory that climbs out of it:
/// what is probed, and what is read after a probe, lies under the output
/// directory by a relative path without a `..` segment.
pub proof fn lemma_output_paths_stay_inside(
    session: SessionView,
    mode: ServingMode,
    html: Seq<char>,
    reload: ReloadView,
    url: Seq<char>,
    client: Seq<char>,
    is_file: bool,
)
    ensures
        route(session, mode, html, reload, url, client).0 is ProbeOutput ==> !escapes_root(url)
            && route(session, mode, html, reload, url, client).0->ProbeOutput_path == output_path(
            session,
            url,
        ),
        after_probe(session, mode, html, url, is_file) is ReadFile ==> !escapes_root(url)
            && after_probe(session, mode, html, url, is_file)->ReadFile_path == output_path(
            session,
            url,
        ),
{
}

} // verus!
