//! The config store: a document, the two roots its specs are relative
//! to, the home directory, and whether this is a dry run.
//!
//! The store reads and plans. It looks nothing up on disk: the caller
//! finds the declared roots (see [`Manager::root_requests`]) and hands
//! them to the constructor, and carries out what a plan asks for through
//! the reconciler.

use vstd::prelude::*;
use crate::document::{
    config_entries,
    config_names,
    declared,
    distinct_keys,
    law_listed_configs_have_entries,
    lookup,
    well_formed,
    Document,
    Item,
    Shape,
};
use crate::failure::{failed, Failure, FailureView, Reason};
use crate::parse::{parse, toml_parse};
use crate::path::{agrees, as_text, resolve, resolved, text_of};
use crate::plan::{
    links_view,
    plan_links,
    plan_removals,
    planned_links,
    planned_removals,
    removals_view,
    LinkView,
    ResolvedLink,
};
use crate::reconcile::{begin, requested, started, Goal, State};
use crate::render::{render, rendered};

verus! {

/// The store.
#[derive(Clone, Debug)]
pub struct Manager {
    document: Document,
    src_dir: String,
    dst_dir: String,
    home: Option<String>,
    dry_run: bool,
}

/// A [`Manager`] as plain values.
pub struct ManagerView {
    pub document: Seq<(Seq<char>, Shape)>,
    pub src_dir: Seq<char>,
    pub dst_dir: Seq<char>,
    pub home: Option<Seq<char>>,
    pub dry_run: bool,
}

impl View for Manager {
    type V = ManagerView;

    closed spec fn view(&self) -> ManagerView {
        ManagerView {
            document: self.document@,
            src_dir: self.src_dir@,
            dst_dir: self.dst_dir@,
            home: self.home.deep_view(),
            dry_run: self.dry_run,
        }
    }
}

/// One config with the links its entries ask for.
#[derive(Clone, Debug)]
pub struct Listing {
    pub name: String,
    pub links: Vec<Result<ResolvedLink, Failure>>,
}

/// A [`Listing`] as plain values.
pub struct ListingView {
    pub name: Seq<char>,
    pub links: Seq<Result<LinkView, FailureView>>,
}

impl DeepView for Listing {
    type V = ListingView;

    open spec fn deep_view(&self) -> ListingView {
        ListingView { name: self.name@, links: links_view(self.links@) }
    }
}

/// The path to look up on disk for the root that the document declares
/// under `key`: the declared spec, resolved against no root. `None`
/// where the document declares none.
pub open spec fn root_request(
    doc: Seq<(Seq<char>, Shape)>,
    key: Seq<char>,
    home: Option<Seq<char>>,
) -> Result<Option<Seq<char>>, FailureView> {
    match declared(doc, key) {
        None => Ok(None),
        Some(spec) => match resolved(spec, Seq::empty(), home) {
            Ok(path) => Ok(Some(path)),
            Err(reason) => Err(failed(reason, spec)),
        },
    }
}

/// The root that the store keeps for `key`: empty where the document
/// declares none, else what was found on disk for the request. A declared
/// root that was not found is an error that names the path looked up.
pub open spec fn root_kept(
    doc: Seq<(Seq<char>, Shape)>,
    key: Seq<char>,
    home: Option<Seq<char>>,
    found: Option<Seq<char>>,
) -> Result<Seq<char>, FailureView> {
    match root_request(doc, key, home) {
        Err(f) => Err(f),
        Ok(None) => Ok(Seq::empty()),
        Ok(Some(path)) => match found {
            Some(root) => Ok(root),
            None => Err(failed(Reason::RootMissing, path)),
        },
    }
}

/// The store built from a document, or why there is none. The source
/// root is settled before the destination root.
pub open spec fn constructed(
    doc: Seq<(Seq<char>, Shape)>,
    dry_run: bool,
    home: Option<Seq<char>>,
    src_found: Option<Seq<char>>,
    dst_found: Option<Seq<char>>,
) -> Result<ManagerView, FailureView> {
    match root_kept(doc, "src_dir"@, home, src_found) {
        Err(f) => Err(f),
        Ok(src_dir) => match root_kept(doc, "dst_dir"@, home, dst_found) {
            Err(f) => Err(f),
            Ok(dst_dir) => Ok(ManagerView { document: doc, src_dir, dst_dir, home, dry_run }),
        },
    }
}

/// Whether an executable result is the store that the model gives, or
/// the model's failure.
pub open spec fn built(r: Result<Manager, Failure>, model: Result<ManagerView, FailureView>) -> bool {
    match model {
        Ok(view) => r is Ok && r->Ok_0@ == view,
        Err(f) => r is Err && r->Err_0@ == f,
    }
}

/// The listing of one item, if it is a config.
pub open spec fn listing_of(store: ManagerView) -> spec_fn((Seq<char>, Shape)) -> Option<
    ListingView,
> {
    |item: (Seq<char>, Shape)|
        match item.1 {
            Shape::Table(entries) => Some(
                ListingView {
                    name: item.0,
                    links: planned_links(entries, store.src_dir, store.dst_dir, store.home),
                },
            ),
            _ => None,
        }
}

impl ManagerView {
    /// Every config with the links its entries ask for, in the order of
    /// the document.
    pub open spec fn full_config(self) -> Seq<ListingView> {
        self.document.filter_map(listing_of(self))
    }

    /// The links that the entries of one config ask for.
    pub open spec fn deployment(self, config: Seq<char>) -> Result<
        Seq<Result<LinkView, FailureView>>,
        FailureView,
    > {
        match config_entries(self.document, config) {
            Ok(entries) => Ok(planned_links(entries, self.src_dir, self.dst_dir, self.home)),
            Err(f) => Err(f),
        }
    }

    /// The destinations that the entries of one config name.
    pub open spec fn cleaning(self, config: Seq<char>) -> Result<
        Seq<Result<Seq<char>, FailureView>>,
        FailureView,
    > {
        match config_entries(self.document, config) {
            Ok(entries) => Ok(planned_removals(entries, self.dst_dir, self.home)),
            Err(f) => Err(f),
        }
    }

    /// One config as a document of its own; empty where the document has
    /// no title that is a string, or no such config.
    pub open spec fn serialized(self, config: Seq<char>) -> Seq<char> {
        match (declared(self.document, "title"@), config_entries(self.document, config)) {
            (Some(title), Ok(entries)) => rendered(
                title,
                self.src_dir,
                self.dst_dir,
                config,
                entries,
            ),
            _ => Seq::empty(),
        }
    }
}

/// The root to keep for a key.
fn keep_root(document: &Document, key: &str, home: Option<&str>, found: Option<String>) -> (r:
    Result<String, Failure>)
    ensures
        match root_kept(document@, key@, text_of(home), found.deep_view()) {
            Ok(root) => r is Ok && r->Ok_0@ == root,
            Err(f) => r is Err && r->Err_0@ == f,
        },
{
    proof {
        reveal_strlit("");
        assert(""@ == Seq::<char>::empty());
    }
    match document.text(key) {
        None => Ok(String::new()),
        Some(spec) => match resolve(spec.as_str(), "", home) {
            Err(f) => Err(f),
            Ok(path) => match found {
                Some(root) => Ok(root),
                None => Err(Failure::new(Reason::RootMissing, path.as_str())),
            },
        },
    }
}

/// The path to look up for a key.
fn request_root(document: &Document, key: &str, home: Option<&str>) -> (r: Result<
    Option<String>,
    Failure,
>)
    ensures
        match root_request(document@, key@, text_of(home)) {
            Ok(path) => r is Ok && r->Ok_0.deep_view() == path,
            Err(f) => r is Err && r->Err_0@ == f,
        },
{
    proof {
        reveal_strlit("");
    }
    match document.text(key) {
        None => Ok(None),
        Some(spec) => match resolve(spec.as_str(), "", home) {
            Ok(path) => Ok(Some(path)),
            Err(f) => Err(f),
        },
    }
}

impl Manager {
    /// The paths to look up on disk before a store can be built: for the
    /// source root and for the destination root, each `None` where the
    /// document declares none.
    pub fn root_requests(document: &Document, home: Option<&str>) -> (r: Result<
        (Option<String>, Option<String>),
        Failure,
    >)
        ensures
            match root_request(document@, "src_dir"@, text_of(home)) {
                Err(f) => r is Err && r->Err_0@ == f,
                Ok(src) => match root_request(document@, "dst_dir"@, text_of(home)) {
                    Err(f) => r is Err && r->Err_0@ == f,
                    Ok(dst) => r is Ok && r->Ok_0.0.deep_view() == src && r->Ok_0.1.deep_view()
                        == dst,
                },
            },
    {
        let src = match request_root(document, "src_dir", home) {
            Ok(src) => src,
            Err(f) => {
                return Err(f);
            },
        };
        match request_root(document, "dst_dir", home) {
            Ok(dst) => Ok((src, dst)),
            Err(f) => Err(f),
        }
    }

    /// Builds the store from a document that was read already.
    /// `src_root` and `dst_root` are what was found on disk for the two
    /// requests: the canonical path of the directory, or `None` where
    /// there is none.
    pub fn from_document(
        document: Document,
        dry_run: bool,
        home: Option<String>,
        src_root: Option<String>,
        dst_root: Option<String>,
    ) -> (r: Result<Manager, Failure>)
        ensures
            built(
                r,
                constructed(
                    document@,
                    dry_run,
                    home.deep_view(),
                    src_root.deep_view(),
                    dst_root.deep_view(),
                ),
            ),
    {
        let src_dir = match keep_root(&document, "src_dir", as_text(&home), src_root) {
            Ok(root) => root,
            Err(f) => {
                return Err(f);
            },
        };
        let dst_dir = match keep_root(&document, "dst_dir", as_text(&home), dst_root) {
            Ok(root) => root,
            Err(f) => {
                return Err(f);
            },
        };
        Ok(Manager { document, src_dir, dst_dir, home, dry_run })
    }

    /// Builds the store from the text of a document. Malformed text is an
    /// error; so is a declared root that was not found.
    pub fn new(
        text: &str,
        dry_run: bool,
        home: Option<String>,
        src_root: Option<String>,
        dst_root: Option<String>,
    ) -> (r: Result<Manager, Failure>)
        ensures
            match toml_parse(text@) {
                None => r is Err && r->Err_0@.reason == Reason::Malformed && r->Err_0@.path.len()
                    == 0,
                Some(doc) => well_formed(doc) && built(
                    r,
                    constructed(
                        doc,
                        dry_run,
                        home.deep_view(),
                        src_root.deep_view(),
                        dst_root.deep_view(),
                    ),
                ),
            },
    {
        match parse(text) {
            Ok(document) => Manager::from_document(document, dry_run, home, src_root, dst_root),
            Err(f) => Err(f),
        }
    }

    /// The document that the store was built from.
    pub fn document(&self) -> (document: &Document)
        ensures
            document@ == self@.document,
    {
        &self.document
    }

    /// The root that source specs are relative to.
    pub fn src_dir(&self) -> (root: &str)
        ensures
            root@ == self@.src_dir,
    {
        self.src_dir.as_str()
    }

    /// The root that destination specs are relative to.
    pub fn dst_dir(&self) -> (root: &str)
        ensures
            root@ == self@.dst_dir,
    {
        self.dst_dir.as_str()
    }

    /// The home directory, if one is known.
    pub fn home(&self) -> (home: Option<&str>)
        ensures
            text_of(home) == self@.home,
    {
        as_text(&self.home)
    }

    /// Whether this is a dry run.
    pub fn dry_run(&self) -> (dry_run: bool)
        ensures
            dry_run == self@.dry_run,
    {
        self.dry_run
    }

    /// The title that the document declares.
    pub fn title(&self) -> (title: Option<&String>)
        ensures
            match title {
                Some(t) => declared(self@.document, "title"@) == Some(t@),
                None => declared(self@.document, "title"@) is None,
            },
    {
        self.document.text("title")
    }

    /// The names of the configs, in the order of the document.
    pub fn list_entries(&self) -> (names: Vec<String>)
        ensures
            names.deep_view() == config_names(self@.document),
    {
        self.document.config_names()
    }

    /// The path that a spec stands for: a source spec against the source
    /// root, a destination spec against the destination root.
    pub fn full_path(&self, spec: &str, is_src: bool) -> (r: Result<String, Failure>)
        ensures
            agrees(
                r,
                resolved(
                    spec@,
                    if is_src {
                        self@.src_dir
                    } else {
                        self@.dst_dir
                    },
                    self@.home,
                ),
                spec@,
            ),
    {
        if is_src {
            resolve(spec, self.src_dir.as_str(), as_text(&self.home))
        } else {
            resolve(spec, self.dst_dir.as_str(), as_text(&self.home))
        }
    }

    /// Everything a full listing shows: every config with, for each of
    /// its entries, the link it asks for or why it asks for none.
    pub fn print_full_config(&self) -> (listings: Vec<Listing>)
        ensures
            listings.deep_view() == self@.full_config(),
    {
        let mut listings: Vec<Listing> = Vec::new();
        let mut i: usize = 0;
        while i < self.document.items.len()
            invariant
                i <= self.document.items.len(),
                self.document@ == self@.document,
                listings.deep_view() == self@.document.take(i as int).filter_map(
                    listing_of(self@),
                ),
            decreases self.document.items.len() - i,
        {
            proof {
                self@.document.lemma_filter_map_take_succ(listing_of(self@), i as int);
            }
            match &self.document.items[i].1 {
                Item::Table(entries) => {
                    let links = plan_links(
                        entries,
                        self.src_dir.as_str(),
                        self.dst_dir.as_str(),
                        as_text(&self.home),
                    );
                    let listing = Listing { name: self.document.items[i].0.clone(), links };
                    listings.push(listing);
                },
                _ => {},
            }
            i += 1;
        }
        assert(self@.document.take(self@.document.len() as int) == self@.document);
        listings
    }

    /// One config written as a document of its own: the title, the two
    /// roots, and the config's entries under its name.
    pub fn serialize_config_to_string(&self, config: &str) -> (text: String)
        ensures
            text@ == self@.serialized(config@),
    {
        let title = match self.document.text("title") {
            Some(title) => title,
            None => {
                return String::new();
            },
        };
        match self.document.config(config) {
            Ok(entries) => render(
                title.as_str(),
                self.src_dir.as_str(),
                self.dst_dir.as_str(),
                config,
                entries,
            ),
            Err(_) => String::new(),
        }
    }

    /// The links to make for one config: one result for each entry, in
    /// their order. An entry that cannot be used has its failure in its
    /// place and holds up no other.
    pub fn deploy_config(&self, config: &str) -> (r: Result<
        Vec<Result<ResolvedLink, Failure>>,
        Failure,
    >)
        ensures
            match self@.deployment(config@) {
                Ok(plans) => r is Ok && links_view(r->Ok_0@) == plans,
                Err(f) => r is Err && r->Err_0@ == f,
            },
    {
        match self.document.config(config) {
            Ok(entries) => Ok(
                plan_links(
                    entries,
                    self.src_dir.as_str(),
                    self.dst_dir.as_str(),
                    as_text(&self.home),
                ),
            ),
            Err(f) => Err(f),
        }
    }

    /// The destinations to clear for one config: one result for each
    /// entry, in their order.
    pub fn clean_config(&self, config: &str) -> (r: Result<Vec<Result<String, Failure>>, Failure>)
        ensures
            match self@.cleaning(config@) {
                Ok(plans) => r is Ok && removals_view(r->Ok_0@) == plans,
                Err(f) => r is Err && r->Err_0@ == f,
            },
    {
        match self.document.config(config) {
            Ok(entries) => Ok(
                plan_removals(entries, self.dst_dir.as_str(), as_text(&self.home)),
            ),
            Err(f) => Err(f),
        }
    }

    /// The state in which the reconciliation of one planned entry starts.
    /// Under a dry run it is finished at once, so that nothing is asked
    /// of the filesystem.
    pub fn begin(&self, goal: Goal) -> (state: State)
        ensures
            state == started(goal, self@.dry_run),
    {
        begin(goal, self.dry_run)
    }
}

/// A config that the document does not hold is not deployed and not
/// cleaned: both fail, and no link and no destination is planned.
pub proof fn law_unknown_config_plans_nothing(store: ManagerView, config: Seq<char>)
    requires
        lookup(store.document, config) is None,
    ensures
        store.deployment(config) == Err::<Seq<Result<LinkView, FailureView>>, FailureView>(
            failed(Reason::UnknownConfig, config),
        ),
        store.cleaning(config) == Err::<Seq<Result<Seq<char>, FailureView>>, FailureView>(
            failed(Reason::UnknownConfig, config),
        ),
{
}

/// Where no key of the document occurs twice, every config that the
/// store lists can be deployed and cleaned, with one plan for each of
/// its entries; and nothing else can.
pub proof fn law_listed_configs_are_the_ones_to_deploy(store: ManagerView, config: Seq<char>)
    requires
        distinct_keys(store.document),
    ensures
        config_names(store.document).contains(config) <==> store.deployment(config) is Ok,
        config_names(store.document).contains(config) <==> store.cleaning(config) is Ok,
        store.deployment(config) is Ok ==> store.deployment(config)->Ok_0.len()
            == config_entries(store.document, config)->Ok_0.len(),
        store.cleaning(config) is Ok ==> store.cleaning(config)->Ok_0.len() == config_entries(
            store.document,
            config,
        )->Ok_0.len(),
{
    law_listed_configs_have_entries(store.document, config);
}

/// Under a dry run every reconciliation that the store starts is
/// finished already and asks for no operation.
pub proof fn law_dry_run_store_requests_nothing(store: ManagerView, goal: Goal)
    requires
        store.dry_run,
    ensures
        requested(started(goal, store.dry_run)) is None,
{
}

} // verus!
