//! From the entries of a config to what is to be done: for each entry the
//! link to make, or the destination to clear, or why the entry cannot be
//! used. Each entry is judged by itself: a failure in one says nothing
//! about the next.

use vstd::prelude::*;
use crate::failure::{failed, Failure, FailureView, Reason};
use crate::path::{as_text, is_home_relative, joined, resolve, resolved, text_of};

verus! {

/// A link to be made: the destination is to point at the source.
#[derive(Clone, Debug)]
pub struct ResolvedLink {
    pub source: String,
    pub destination: String,
}

/// A [`ResolvedLink`] as plain values.
pub struct LinkView {
    pub source: Seq<char>,
    pub destination: Seq<char>,
}

impl View for ResolvedLink {
    type V = LinkView;

    open spec fn view(&self) -> LinkView {
        LinkView { source: self.source@, destination: self.destination@ }
    }
}

/// The link that an entry asks for. The destination spec is resolved
/// against the destination root first; then the source must be a string;
/// then it is resolved against the source root. The first of these that
/// fails is the entry's failure.
pub open spec fn planned_link(
    entry: (Seq<char>, Option<Seq<char>>),
    src_root: Seq<char>,
    dst_root: Seq<char>,
    home: Option<Seq<char>>,
) -> Result<LinkView, FailureView> {
    match resolved(entry.0, dst_root, home) {
        Err(reason) => Err(failed(reason, entry.0)),
        Ok(destination) => match entry.1 {
            None => Err(failed(Reason::SourceNotString, entry.0)),
            Some(spec) => match resolved(spec, src_root, home) {
                Err(reason) => Err(failed(reason, spec)),
                Ok(source) => Ok(LinkView { source, destination }),
            },
        },
    }
}

/// The destination that an entry names. Its source plays no part.
pub open spec fn planned_removal(
    entry: (Seq<char>, Option<Seq<char>>),
    dst_root: Seq<char>,
    home: Option<Seq<char>>,
) -> Result<Seq<char>, FailureView> {
    match resolved(entry.0, dst_root, home) {
        Err(reason) => Err(failed(reason, entry.0)),
        Ok(destination) => Ok(destination),
    }
}

/// One planned link as plain values.
pub open spec fn link_view(r: Result<ResolvedLink, Failure>) -> Result<LinkView, FailureView> {
    match r {
        Ok(link) => Ok(link@),
        Err(f) => Err(f@),
    }
}

/// One planned removal as plain values.
pub open spec fn removal_view(r: Result<String, Failure>) -> Result<Seq<char>, FailureView> {
    match r {
        Ok(path) => Ok(path@),
        Err(f) => Err(f@),
    }
}

/// The links that the entries of a config ask for, entry by entry.
pub open spec fn planned_links(
    entries: Seq<(Seq<char>, Option<Seq<char>>)>,
    src_root: Seq<char>,
    dst_root: Seq<char>,
    home: Option<Seq<char>>,
) -> Seq<Result<LinkView, FailureView>> {
    Seq::new(entries.len(), |i: int| planned_link(entries[i], src_root, dst_root, home))
}

/// The destinations that the entries of a config name, entry by entry.
pub open spec fn planned_removals(
    entries: Seq<(Seq<char>, Option<Seq<char>>)>,
    dst_root: Seq<char>,
    home: Option<Seq<char>>,
) -> Seq<Result<Seq<char>, FailureView>> {
    Seq::new(entries.len(), |i: int| planned_removal(entries[i], dst_root, home))
}

/// Planned links as plain values.
pub open spec fn links_view(plans: Seq<Result<ResolvedLink, Failure>>) -> Seq<
    Result<LinkView, FailureView>,
> {
    Seq::new(plans.len(), |i: int| link_view(plans[i]))
}

/// Planned removals as plain values.
pub open spec fn removals_view(plans: Seq<Result<String, Failure>>) -> Seq<
    Result<Seq<char>, FailureView>,
> {
    Seq::new(plans.len(), |i: int| removal_view(plans[i]))
}

/// Plans the link of one entry.
pub fn plan_link(
    destination_spec: &str,
    source_spec: Option<&str>,
    src_root: &str,
    dst_root: &str,
    home: Option<&str>,
) -> (r: Result<ResolvedLink, Failure>)
    ensures
        link_view(r) == planned_link(
            (destination_spec@, text_of(source_spec)),
            src_root@,
            dst_root@,
            text_of(home),
        ),
{
    let destination = match resolve(destination_spec, dst_root, home) {
        Ok(path) => path,
        Err(f) => {
            return Err(f);
        },
    };
    let spec = match source_spec {
        Some(spec) => spec,
        None => {
            return Err(Failure::new(Reason::SourceNotString, destination_spec));
        },
    };
    match resolve(spec, src_root, home) {
        Ok(source) => Ok(ResolvedLink { source, destination }),
        Err(f) => Err(f),
    }
}

/// Plans the removal of one entry's link.
pub fn plan_removal(destination_spec: &str, dst_root: &str, home: Option<&str>) -> (r: Result<
    String,
    Failure,
>)
    ensures
        removal_view(r) == planned_removal((destination_spec@, None), dst_root@, text_of(home)),
{
    resolve(destination_spec, dst_root, home)
}

/// The links that the entries of a config ask for, one result for each
/// entry and in their order.
pub fn plan_links(
    entries: &Vec<(String, Option<String>)>,
    src_root: &str,
    dst_root: &str,
    home: Option<&str>,
) -> (plans: Vec<Result<ResolvedLink, Failure>>)
    ensures
        links_view(plans@) == planned_links(
            entries.deep_view(),
            src_root@,
            dst_root@,
            text_of(home),
        ),
{
    let mut plans: Vec<Result<ResolvedLink, Failure>> = Vec::new();
    let mut i: usize = 0;
    while i < entries.len()
        invariant
            i <= entries.len(),
            plans.len() == i,
            forall|j: int|
                0 <= j < i ==> link_view(#[trigger] plans@[j]) == planned_link(
                    entries.deep_view()[j],
                    src_root@,
                    dst_root@,
                    text_of(home),
                ),
        decreases entries.len() - i,
    {
        let plan = plan_link(
            entries[i].0.as_str(),
            as_text(&entries[i].1),
            src_root,
            dst_root,
            home,
        );
        plans.push(plan);
        i += 1;
    }
    plans
}

/// The destinations that the entries of a config name, one result for
/// each entry and in their order.
pub fn plan_removals(entries: &Vec<(String, Option<String>)>, dst_root: &str, home: Option<&str>) -> (plans:
    Vec<Result<String, Failure>>)
    ensures
        removals_view(plans@) == planned_removals(entries.deep_view(), dst_root@, text_of(home)),
{
    let mut plans: Vec<Result<String, Failure>> = Vec::new();
    let mut i: usize = 0;
    while i < entries.len()
        invariant
            i <= entries.len(),
            plans.len() == i,
            forall|j: int|
                0 <= j < i ==> removal_view(#[trigger] plans@[j]) == planned_removal(
                    entries.deep_view()[j],
                    dst_root@,
                    text_of(home),
                ),
        decreases entries.len() - i,
    {
        let plan = plan_removal(entries[i].0.as_str(), dst_root, home);
        plans.push(plan);
        i += 1;
    }
    plans
}

/// Each side of an entry has its own root: a destination spec that is
/// not home-relative is joined onto the destination root, a source spec
/// that is not home-relative onto the source root.
pub proof fn law_each_side_has_its_root(
    destination_spec: Seq<char>,
    source_spec: Seq<char>,
    src_root: Seq<char>,
    dst_root: Seq<char>,
    home: Option<Seq<char>>,
)
    requires
        !is_home_relative(destination_spec),
        !is_home_relative(source_spec),
    ensures
        planned_link((destination_spec, Some(source_spec)), src_root, dst_root, home) == Ok::<
            LinkView,
            FailureView,
        >(
            LinkView {
                source: joined(src_root, source_spec),
                destination: joined(dst_root, destination_spec),
            },
        ),
        planned_removal((destination_spec, Some(source_spec)), dst_root, home) == Ok::<
            Seq<char>,
            FailureView,
        >(joined(dst_root, destination_spec)),
{
}

/// A home-relative spec passes the roots by: whatever the two roots are,
/// the plan of an entry whose specs are both home-relative is the same.
pub proof fn law_home_relative_entry_passes_roots_by(
    entry: (Seq<char>, Option<Seq<char>>),
    src_root: Seq<char>,
    dst_root: Seq<char>,
    other_src_root: Seq<char>,
    other_dst_root: Seq<char>,
    home: Option<Seq<char>>,
)
    requires
        is_home_relative(entry.0),
        entry.1 is Some ==> is_home_relative(entry.1->0),
    ensures
        planned_link(entry, src_root, dst_root, home) == planned_link(
            entry,
            other_src_root,
            other_dst_root,
            home,
        ),
        planned_removal(entry, dst_root, home) == planned_removal(entry, other_dst_root, home),
{
}

/// An entry is planned from itself, the roots and the home directory,
/// and from nothing else: whatever surrounds it, its plan is the same,
/// and every entry has one.
pub proof fn law_entries_are_planned_one_by_one(
    before: Seq<(Seq<char>, Option<Seq<char>>)>,
    entry: (Seq<char>, Option<Seq<char>>),
    after: Seq<(Seq<char>, Option<Seq<char>>)>,
    src_root: Seq<char>,
    dst_root: Seq<char>,
    home: Option<Seq<char>>,
)
    ensures
        ({
            let entries = before.push(entry) + after;
            let plans = planned_links(entries, src_root, dst_root, home);
            let removals = planned_removals(entries, dst_root, home);
            &&& plans.len() == entries.len()
            &&& plans[before.len() as int] == planned_link(entry, src_root, dst_root, home)
            &&& removals.len() == entries.len()
            &&& removals[before.len() as int] == planned_removal(entry, dst_root, home)
        }),
{
}

} // verus!
