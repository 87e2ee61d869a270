//! Finding models: local engines, search, sorting and pages, and the choice of a
//! model for a task.
use crate::capability;
use crate::capability::ModelCapability;
use crate::catalog::{CatalogEntry, EntryView, ModelView};
use crate::error;
use crate::error::ApiError;
use crate::generation;
use crate::order;
use crate::text;
use vstd::prelude::*;
use vstd::string::*;

verus! {

// ---------------------------------------------------------------------------
// Local engines
// ---------------------------------------------------------------------------

/// An engine of this service, with the repository that stands for it.
#[derive(Debug)]
pub struct LocalRuntime {
    pub id: String,
    pub repository: String,
}

/// The engines of this service, which need no download.
pub open spec fn local_engines() -> Seq<(Seq<char>, Seq<char>)> {
    seq![
        (generation::CANVAS@, "local/vidio-canvas"@),
        (generation::MOTION@, "local/vidio-motion"@),
    ]
}

/// The engines of this service, which need no download.
pub fn local_runtime_models() -> (engines: Vec<LocalRuntime>)
    ensures
        Seq::new(engines@.len(), |i: int| (engines@[i].id@, engines@[i].repository@))
            == local_engines(),
{
    let mut engines: Vec<LocalRuntime> = Vec::new();
    engines.push(
        LocalRuntime {
            id: generation::CANVAS.to_owned(),
            repository: "local/vidio-canvas".to_owned(),
        },
    );
    engines.push(
        LocalRuntime {
            id: generation::MOTION.to_owned(),
            repository: "local/vidio-motion".to_owned(),
        },
    );
    assert(Seq::new(engines@.len(), |i: int| (engines@[i].id@, engines@[i].repository@))
        =~= local_engines());
    engines
}

/// Whether an identifier is that of an engine of this service.
pub fn is_local_engine(id: &str) -> (yes: bool)
    ensures
        yes == (exists|i: int| 0 <= i < local_engines().len() && (#[trigger] local_engines()[i]).0
            == id@),
{
    let first = *id == *generation::CANVAS;
    let second = *id == *generation::MOTION;
    proof {
        assert(local_engines()[0].0 == generation::CANVAS@);
        assert(local_engines()[1].0 == generation::MOTION@);
    }
    first || second
}

/// The first model that a look-up in the catalogue gave, or the refusal: that of
/// the look-up, or that there is no such model.
pub fn resolved_model(found: Result<Vec<CatalogEntry>, String>) -> (result: Result<
    CatalogEntry,
    ApiError,
>)
    ensures
        match (found, result) {
            (Ok(models), Ok(entry)) => models@.len() > 0 && entry == models@[0],
            (Ok(models), Err(refusal)) => models@.len() == 0 && error::says(refusal) == (
                error::NOT_FOUND,
                "Modèle Hugging Face inconnu."@,
            ),
            (Err(cause), Err(refusal)) => error::says(refusal) == (
                error::SERVICE_UNAVAILABLE,
                cause@,
            ),
            (Err(_), Ok(_)) => false,
        },
{
    match found {
        Ok(mut models) => {
            if models.len() > 0 {
                Ok(models.remove(0))
            } else {
                Err(ApiError::not_found("Modèle Hugging Face inconnu.".to_owned()))
            }
        },
        Err(cause) => Err(ApiError::unavailable(cause)),
    }
}

// ---------------------------------------------------------------------------
// Search
// ---------------------------------------------------------------------------

/// What models are looked for.
#[derive(Debug)]
pub struct CatalogQuery {
    pub search: Option<String>,
    pub author: Option<String>,
    pub category: Option<String>,
    pub task: Option<String>,
    pub installed: Option<bool>,
    pub compatible: Option<bool>,
    pub sort: Option<String>,
}

/// A text without all the prefixes at its start.
pub open spec fn stripped(content: Seq<char>, prefix: Seq<char>) -> Seq<char>
    decreases content.len(),
{
    if prefix.len() > 0 && text::opens(content, prefix) {
        stripped(content.skip(prefix.len() as int), prefix)
    } else {
        content
    }
}

fn strip<'a>(content: &'a str, prefix: &str) -> (rest: &'a str)
    ensures
        rest@ == stripped(content@, prefix@),
{
    let step: usize = text::chars_of(prefix).len();
    let length: usize = text::chars_of(content).len();
    let mut from: usize = 0;
    assert(content@.skip(0) =~= content@);
    if step == 0 {
        return content;
    }
    while from < length && text::starts_with(content.substring_char(from, length), prefix)
        invariant
            step == prefix@.len(),
            step > 0,
            from <= length,
            length == content@.len(),
            stripped(content@, prefix@) == stripped(content@.skip(from as int), prefix@),
        decreases length - from,
    {
        assert(content@.subrange(from as int, length as int) =~= content@.skip(from as int));
        assert(content@.skip(from as int).skip(step as int) =~= content@.skip(from + step));
        from = from + step;
    }
    assert(content@.subrange(from as int, length as int) =~= content@.skip(from as int));
    content.substring_char(from, length)
}

/// Whether an entry is one that a search finds: the words of the search, without
/// the address of the hub, stand in its identifier, name and description.
pub open spec fn found_by(entry: EntryView, search: Seq<char>) -> bool {
    let words = text::trimmed(search);
    words.len() == 0 || text::occurs(
        text::lower(entry.id + " "@ + entry.name + " "@ + entry.description),
        text::lower(stripped(words, "https://huggingface.co/"@)),
    )
}

/// Whether an entry can do a task, by its name in any case.
pub open spec fn does_task(capabilities: Seq<ModelCapability>, task: Seq<char>) -> bool {
    exists|i: int|
        0 <= i < capabilities.len() && text::lower((#[trigger] capabilities[i]).name())
            == text::lower(task)
}

/// Whether an entry answers a query.
pub open spec fn matches_query(entry: EntryView, query: CatalogQuery) -> bool {
    &&& query.search matches Some(search) ==> found_by(entry, search@)
    &&& query.author matches Some(author) ==> entry.author is Some && text::lower(entry.author->0)
        == text::lower(author@)
    &&& query.category matches Some(category) ==> text::lower(entry.kind) == text::lower(category@)
    &&& query.task matches Some(task) ==> does_task(entry.capabilities, task@)
}

fn has_task(capabilities: &Vec<ModelCapability>, task: &str) -> (found: bool)
    ensures
        found == does_task(capabilities@, task@),
{
    for i in 0..capabilities.len()
        invariant
            forall|j: int|
                0 <= j < i ==> text::lower((#[trigger] capabilities@[j]).name()) != text::lower(
                    task@,
                ),
    {
        if text::same_ignoring_ascii_case(capabilities[i].api_name(), task) {
            return true;
        }
    }
    false
}

/// Whether an entry answers a query.
pub fn entry_matches_query(entry: &CatalogEntry, query: &CatalogQuery) -> (yes: bool)
    ensures
        yes == matches_query(entry@, *query),
{
    match &query.search {
        Some(search) => {
            let words = text::trim(search.as_str());
            if text::chars_of(words).len() > 0 {
                let needle = text::ascii_lowercase(strip(words, "https://huggingface.co/"));
                let mut whole = entry.id.clone();
                whole.append(" ");
                whole.append(entry.name.as_str());
                whole.append(" ");
                whole.append(entry.description.as_str());
                if !text::contains(text::ascii_lowercase(whole.as_str()).as_str(), needle.as_str()) {
                    return false;
                }
            }
        },
        None => {},
    }
    match &query.author {
        Some(author) => match &entry.author {
            Some(known) => if !text::same_ignoring_ascii_case(known.as_str(), author.as_str()) {
                return false;
            },
            None => {
                return false;
            },
        },
        None => {},
    }
    match &query.category {
        Some(category) => if !text::same_ignoring_ascii_case(
            entry.kind.as_str(),
            category.as_str(),
        ) {
            return false;
        },
        None => {},
    }
    match &query.task {
        Some(task) => if !has_task(&entry.capabilities, task.as_str()) {
            return false;
        },
        None => {},
    }
    true
}

// ---------------------------------------------------------------------------
// Sorting and pages
// ---------------------------------------------------------------------------

/// Whether a model is one that the query wants by what holds on this machine.
pub open spec fn wanted(view: ModelView, query: CatalogQuery) -> bool {
    &&& query.installed matches Some(expected) ==> view.installed == expected
    &&& query.compatible matches Some(expected) ==> view.compatible == expected
}

/// The positions of the models that the query wants.
pub open spec fn kept(views: Seq<ModelView>, query: CatalogQuery) -> Seq<usize>
    decreases views.len(),
{
    if views.len() == 0 {
        Seq::empty()
    } else {
        let before = kept(views.drop_last(), query);
        if wanted(views.last(), query) {
            before.push((views.len() - 1) as usize)
        } else {
            before
        }
    }
}

/// A number that may be missing.
pub open spec fn or_zero(number: Option<u64>) -> u64 {
    match number {
        Some(value) => value,
        None => 0,
    }
}

fn number_or_zero(number: Option<u64>) -> (value: u64)
    ensures
        value == or_zero(number),
{
    match number {
        Some(found) => found,
        None => 0,
    }
}

/// The order of dates that may be missing: none comes before all.
pub open spec fn date_before(left: Option<Seq<char>>, right: Option<Seq<char>>) -> bool {
    match (left, right) {
        (None, Some(_)) => true,
        (Some(first), Some(second)) => text::before(first, second),
        _ => false,
    }
}

fn is_date_before(left: &Option<String>, right: &Option<String>) -> (yes: bool)
    ensures
        yes == date_before(text::opt(*left), text::opt(*right)),
{
    match (left, right) {
        (None, Some(_)) => true,
        (Some(first), Some(second)) => text::sorts_before(first.as_str(), second.as_str()),
        _ => false,
    }
}

/// How much a model is to be recommended: supported before suited to the machine
/// before ready, and then by how often it was downloaded.
pub open spec fn merit(view: ModelView) -> int {
    ((if view.vidioai_supported {
        4int
    } else {
        0
    }) + (if view.hardware_compatible {
        2int
    } else {
        0
    }) + (if view.runtime_ready {
        1int
    } else {
        0
    })) * 0x1_0000_0000_0000_0000 + or_zero(view.entry.downloads)
}

fn merit_of(view: &ModelView) -> (value: u128)
    ensures
        value == merit(*view),
{
    let mut flags: u128 = 0;
    if view.vidioai_supported {
        flags = flags + 4;
    }
    if view.hardware_compatible {
        flags = flags + 2;
    }
    if view.runtime_ready {
        flags = flags + 1;
    }
    flags * 0x1_0000_0000_0000_0000 + number_or_zero(view.entry.downloads) as u128
}

/// The ways in which models are sorted.
#[derive(Clone, Copy, Debug, PartialEq, Eq, Structural)]
pub enum Sorting {
    Name,
    Downloads,
    Likes,
    Updated,
    Merit,
    /// As they come.
    Given,
}

/// The way of sorting that a query asks for.
pub open spec fn sorting_of(sort: Option<Seq<char>>) -> Sorting {
    match sort {
        Some(name) => if name == "name"@ {
            Sorting::Name
        } else if name == "downloads"@ {
            Sorting::Downloads
        } else if name == "likes"@ {
            Sorting::Likes
        } else if name == "updated"@ || name == "last_modified"@ {
            Sorting::Updated
        } else if name == "compatibility"@ || name == "recommended"@ {
            Sorting::Merit
        } else {
            Sorting::Given
        },
        None => Sorting::Given,
    }
}

fn read_sorting(sort: &Option<String>) -> (sorting: Sorting)
    ensures
        sorting == sorting_of(text::opt(*sort)),
{
    match sort {
        Some(name) => {
            let name = name.as_str();
            if *name == *"name" {
                Sorting::Name
            } else if *name == *"downloads" {
                Sorting::Downloads
            } else if *name == *"likes" {
                Sorting::Likes
            } else if *name == *"updated" || *name == *"last_modified" {
                Sorting::Updated
            } else if *name == *"compatibility" || *name == *"recommended" {
                Sorting::Merit
            } else {
                Sorting::Given
            }
        },
        None => Sorting::Given,
    }
}

/// Whether one model is listed before another.
pub open spec fn listed_before(left: ModelView, right: ModelView, sorting: Sorting) -> bool {
    match sorting {
        Sorting::Name => text::before(text::lower(left.entry.name@), text::lower(right.entry.name@)),
        Sorting::Downloads => or_zero(left.entry.downloads) > or_zero(right.entry.downloads),
        Sorting::Likes => or_zero(left.entry.likes) > or_zero(right.entry.likes),
        Sorting::Updated => date_before(
            text::opt(right.entry.last_modified),
            text::opt(left.entry.last_modified),
        ),
        Sorting::Merit => merit(left) > merit(right),
        Sorting::Given => false,
    }
}

fn is_listed_before(left: &ModelView, right: &ModelView, sorting: Sorting) -> (yes: bool)
    ensures
        yes == listed_before(*left, *right, sorting),
{
    match sorting {
        Sorting::Name => text::sorts_before(
            text::ascii_lowercase(left.entry.name.as_str()).as_str(),
            text::ascii_lowercase(right.entry.name.as_str()).as_str(),
        ),
        Sorting::Downloads => number_or_zero(left.entry.downloads) > number_or_zero(
            right.entry.downloads,
        ),
        Sorting::Likes => number_or_zero(left.entry.likes) > number_or_zero(right.entry.likes),
        Sorting::Updated => is_date_before(&right.entry.last_modified, &left.entry.last_modified),
        Sorting::Merit => merit_of(left) > merit_of(right),
        Sorting::Given => false,
    }
}

/// The order of the models at some positions.
pub open spec fn listing_order(
    views: Seq<ModelView>,
    positions: Seq<usize>,
    sorting: Sorting,
) -> spec_fn(int, int) -> bool {
    |i: int, j: int|
        listed_before(views[positions[i] as int], views[positions[j] as int], sorting)
}

proof fn lemma_listing_sorts(views: Seq<ModelView>, positions: Seq<usize>, sorting: Sorting)
    ensures
        order::sorts(listing_order(views, positions, sorting)),
{
    let less = listing_order(views, positions, sorting);
    assert forall|i: int, j: int, k: int|
        !#[trigger] less(j, i) && !#[trigger] less(k, j) implies !less(k, i) by {
        let a = views[positions[i] as int];
        let b = views[positions[j] as int];
        let c = views[positions[k] as int];
        text::lemma_before_is_transitive(
            text::lower(a.entry.name@),
            text::lower(b.entry.name@),
            text::lower(c.entry.name@),
        );
        let (x, y, z) = (
            text::opt(a.entry.last_modified),
            text::opt(b.entry.last_modified),
            text::opt(c.entry.last_modified),
        );
        if x is Some && y is Some && z is Some {
            text::lemma_before_is_transitive(z->0, y->0, x->0);
        }
    }
    assert forall|i: int, j: int| #[trigger] less(i, j) implies !less(j, i) by {
        let a = views[positions[i] as int];
        let b = views[positions[j] as int];
        text::lemma_before_is_total(text::lower(a.entry.name@), text::lower(b.entry.name@));
        let (x, y) = (text::opt(a.entry.last_modified), text::opt(b.entry.last_modified));
        if x is Some && y is Some {
            text::lemma_before_is_total(x->0, y->0);
        }
    }
    assert forall|i: int| !#[trigger] less(i, i) by {
        let a = views[positions[i] as int];
        text::lemma_before_is_total(text::lower(a.entry.name@), text::lower(a.entry.name@));
        let x = text::opt(a.entry.last_modified);
        if x is Some {
            text::lemma_before_is_total(x->0, x->0);
        }
    }
}

/// Where a page begins; as far as can be counted where it would lie further.
pub open spec fn page_start(page: usize, limit: usize) -> int {
    let before = if page == 0 {
        0
    } else {
        page - 1
    };
    if before * limit > usize::MAX {
        usize::MAX as int
    } else {
        before * limit
    }
}

/// Where a page ends; as far as can be counted where it would lie further.
pub open spec fn page_end(page: usize, limit: usize) -> int {
    if page_start(page, limit) + limit > usize::MAX {
        usize::MAX as int
    } else {
        page_start(page, limit) + limit
    }
}

/// The part of a list between two places, as far as the list goes.
pub open spec fn part<T>(list: Seq<T>, from: int, to: int) -> Seq<T> {
    let first = if from < list.len() {
        from
    } else {
        list.len() as int
    };
    let last = if to < list.len() {
        to
    } else {
        list.len() as int
    };
    list.subrange(
        first,
        if last < first {
            first
        } else {
            last
        },
    )
}

/// A page of models: the positions of those on it, and how many there are.
#[derive(Debug)]
pub struct Page {
    pub positions: Vec<usize>,
    pub total: usize,
    pub has_more: bool,
}

/// Whether positions are those of a page: the wanted models, sorted stably, from
/// the start of the page to its end.
pub open spec fn is_page(
    positions: Seq<usize>,
    views: Seq<ModelView>,
    query: CatalogQuery,
    page: usize,
    limit: usize,
) -> bool {
    let all = kept(views, query);
    let less = listing_order(views, all, sorting_of(text::opt(query.sort)));
    exists|order: Seq<usize>|
        order::stable(order, all.len(), less) && positions == part(
            #[trigger] order::picked(all, order),
            page_start(page, limit),
            page_start(page, limit) + limit,
        )
}

proof fn lemma_kept(views: Seq<ModelView>, query: CatalogQuery)
    ensures
        kept(views, query).len() <= views.len(),
        forall|i: int|
            0 <= i < kept(views, query).len() ==> #[trigger] kept(views, query)[i] < views.len(),
    decreases views.len(),
{
    if views.len() > 0 {
        lemma_kept(views.drop_last(), query);
    }
}

/// Chooses the models of a page.
pub fn choose_page(views: &Vec<ModelView>, query: &CatalogQuery, page: usize, limit: usize) -> (chosen:
    Page)
    ensures
        is_page(chosen.positions@, views@, *query, page, limit),
        chosen.total == kept(views@, *query).len(),
        chosen.has_more == (page_end(page, limit) < chosen.total),
{
    let mut positions: Vec<usize> = Vec::new();
    assert(views@.take(0) =~= Seq::<ModelView>::empty());
    for i in 0..views.len()
        invariant
            positions@ == kept(views@.take(i as int), *query),
    {
        assert(views@.take(i + 1).drop_last() =~= views@.take(i as int));
        assert(views@.take(i + 1).last() == views@[i as int]);
        let fits_installed = match query.installed {
            Some(expected) => views[i].installed == expected,
            None => true,
        };
        let fits_compatible = match query.compatible {
            Some(expected) => views[i].compatible == expected,
            None => true,
        };
        if fits_installed && fits_compatible {
            positions.push(i);
        }
    }
    assert(views@.take(views@.len() as int) =~= views@);
    let sorting = read_sorting(&query.sort);
    proof {
        lemma_kept(views@, *query);
        lemma_listing_sorts(views@, positions@, sorting);
    }
    let less = |i: usize, j: usize| -> (answer: bool)
        requires
            i < positions@.len(),
            j < positions@.len(),
            forall|k: int| 0 <= k < positions@.len() ==> #[trigger] positions@[k] < views@.len(),
        ensures
            answer == listed_before(
                views@[positions@[i as int] as int],
                views@[positions@[j as int] as int],
                sorting,
            ),
        {
            let left: usize = positions[i];
            let right: usize = positions[j];
            is_listed_before(&views[left], &views[right], sorting)
        };
    let total: usize = positions.len();
    let order = order::stable_order(
        total,
        less,
        Ghost(listing_order(views@, positions@, sorting)),
    );
    let skipped: usize = if page == 0 {
        0
    } else {
        page - 1
    };
    let start: usize = match skipped.checked_mul(limit) {
        Some(product) => product,
        None => usize::MAX,
    };
    let end: usize = match start.checked_add(limit) {
        Some(sum) => sum,
        None => usize::MAX,
    };
    let first: usize = if start < total {
        start
    } else {
        total
    };
    let last: usize = if end < total {
        end
    } else {
        total
    };
    let mut chosen: Vec<usize> = Vec::new();
    let ghost arranged = order::picked(kept(views@, *query), order@);
    let mut n: usize = first;
    while n < last
        invariant
            first <= n,
            n <= last || n == first,
            last <= total,
            total == positions@.len(),
            positions@ == kept(views@, *query),
            order::permutes(order@, positions@.len()),
            arranged == order::picked(kept(views@, *query), order@),
            chosen@ =~= arranged.subrange(first as int, n as int),
        decreases last - n,
    {
        let at: usize = order[n];
        chosen.push(positions[at]);
        n = n + 1;
    }
    assert(chosen@ =~= part(
        arranged,
        page_start(page, limit),
        page_start(page, limit) + limit,
    ));
    Page { positions: chosen, total, has_more: end < total }
}

// ---------------------------------------------------------------------------
// The choice of a model for a task
// ---------------------------------------------------------------------------

/// Whether a repository stands for an engine of this service.
pub open spec fn local_repository(repository: Seq<char>) -> bool {
    text::opens(repository, "local/"@)
}

/// Whether a model may be chosen for a capability.
pub open spec fn eligible(view: ModelView, capability: ModelCapability) -> bool {
    view.entry.capabilities@.contains(capability) && view.installed && view.compatible
}

/// How well a model suits a request.
pub open spec fn score(view: ModelView, preset: Seq<char>) -> i32 {
    let local = local_repository(view.entry.repository@);
    (40 + (if local {
        35int
    } else {
        0
    }) + (if view.loaded {
        30int
    } else {
        0
    }) + (if text::lower(preset) == text::lower("quality"@) && !local {
        25int
    } else {
        0
    })) as i32
}

/// The position of the model that suits a request best, the last of equals.
pub open spec fn best(
    views: Seq<ModelView>,
    capability: ModelCapability,
    preset: Seq<char>,
) -> Option<int>
    decreases views.len(),
{
    if views.len() == 0 {
        None
    } else {
        let before = best(views.drop_last(), capability, preset);
        if eligible(views.last(), capability) && (before is None || score(
            views[before->0],
            preset,
        ) <= score(views.last(), preset)) {
            Some(views.len() - 1)
        } else {
            before
        }
    }
}

fn score_of(view: &ModelView, preset: &str) -> (value: i32)
    ensures
        value == score(*view, preset@),
{
    let local = text::starts_with(view.entry.repository.as_str(), "local/");
    let mut value: i32 = 40;
    if local {
        value = value + 35;
    }
    if view.loaded {
        value = value + 30;
    }
    if text::same_ignoring_ascii_case(preset, "quality") && !local {
        value = value + 25;
    }
    value
}

/// Chooses the model for a capability and a preset: returns its position and its
/// score.
pub fn route_model(views: &Vec<ModelView>, capability: &ModelCapability, preset: &str) -> (result: Result<
    (usize, i32),
    ApiError,
>)
    ensures
        match result {
            Ok(chosen) => best(views@, *capability, preset@) == Some(chosen.0 as int) && chosen.0
                < views@.len() && chosen.1 == score(views@[chosen.0 as int], preset@),
            Err(refusal) => best(views@, *capability, preset@) is None && error::says(refusal) == (
                error::CONFLICT,
                "Aucun modèle installé et compatible pour cette capacité."@,
            ),
        },
{
    let mut found: Option<(usize, i32)> = None;
    assert(views@.take(0) =~= Seq::<ModelView>::empty());
    for i in 0..views.len()
        invariant
            match found {
                Some(chosen) => best(views@.take(i as int), *capability, preset@) == Some(
                    chosen.0 as int,
                ) && chosen.0 < i && chosen.1 == score(views@[chosen.0 as int], preset@),
                None => best(views@.take(i as int), *capability, preset@) is None,
            },
    {
        assert(views@.take(i + 1).drop_last() =~= views@.take(i as int));
        assert(views@.take(i + 1).last() == views@[i as int]);
        let view = &views[i];
        if capability::includes(&view.entry.capabilities, *capability) && view.installed
            && view.compatible {
            let value: i32 = score_of(view, preset);
            let better = match found {
                Some(chosen) => chosen.1 <= value,
                None => true,
            };
            if better {
                found = Some((i, value));
            }
        }
    }
    assert(views@.take(views@.len() as int) =~= views@);
    match found {
        Some(chosen) => Ok(chosen),
        None => Err(
            ApiError::conflict(
                "Aucun modèle installé et compatible pour cette capacité.".to_owned(),
            ),
        ),
    }
}

// ---------------------------------------------------------------------------
// Laws
// ---------------------------------------------------------------------------

/// The model that is chosen for a task is installed, compatible and able, and no
/// other that is scores higher.
pub proof fn law_route_is_best(
    views: Seq<ModelView>,
    capability: ModelCapability,
    preset: Seq<char>,
    other: int,
)
    requires
        0 <= other < views.len(),
        eligible(views[other], capability),
    ensures
        best(views, capability, preset) matches Some(at) && 0 <= at < views.len() && eligible(
            views[at],
            capability,
        ) && score(views[other], preset) <= score(views[at], preset),
    decreases views.len(),
{
    let rest = views.drop_last();
    lemma_best(rest, capability, preset);
    if other < rest.len() {
        assert(rest[other] == views[other]);
        law_route_is_best(rest, capability, preset, other);
        let at = best(rest, capability, preset)->0;
        assert(rest[at] == views[at]);
    } else {
        match best(rest, capability, preset) {
            Some(at) => {
                assert(rest[at] == views[at]);
            },
            None => {},
        }
    }
}

proof fn lemma_best(views: Seq<ModelView>, capability: ModelCapability, preset: Seq<char>)
    ensures
        best(views, capability, preset) matches Some(at) ==> 0 <= at < views.len() && eligible(
            views[at],
            capability,
        ),
    decreases views.len(),
{
    if views.len() > 0 {
        lemma_best(views.drop_last(), capability, preset);
        match best(views.drop_last(), capability, preset) {
            Some(at) => {
                assert(views.drop_last()[at] == views[at]);
            },
            None => {},
        }
    }
}

/// A page holds no more models than its limit, and models that were not wanted on
/// none.
pub proof fn law_pages_are_bounded(
    positions: Seq<usize>,
    views: Seq<ModelView>,
    query: CatalogQuery,
    page: usize,
    limit: usize,
)
    requires
        is_page(positions, views, query, page, limit),
    ensures
        positions.len() <= limit,
        positions.len() <= kept(views, query).len(),
        forall|i: int|
            0 <= i < positions.len() ==> kept(views, query).contains(#[trigger] positions[i]),
{
    let all = kept(views, query);
    let less = listing_order(views, all, sorting_of(text::opt(query.sort)));
    let from = page_start(page, limit);
    let order = choose|order: Seq<usize>|
        order::stable(order, all.len(), less) && positions == part(
            #[trigger] order::picked(all, order),
            from,
            from + limit,
        );
    let arranged = order::picked(all, order);
    assert(0 <= from) by {
        if page > 0 {
            assert(0 <= (page - 1) * limit) by (nonlinear_arith)
                requires
                    page > 0,
            ;
        }
    }
    let first = if from < arranged.len() {
        from
    } else {
        arranged.len() as int
    };
    assert forall|i: int| 0 <= i < positions.len() implies all.contains(#[trigger] positions[i]) by {
        assert(positions[i] == arranged[first + i]);
        assert(order[first + i] < all.len());
        assert(all[order[first + i] as int] == positions[i]);
    }
}

proof fn lemma_on_page(
    positions: Seq<usize>,
    views: Seq<ModelView>,
    query: CatalogQuery,
    page: usize,
    limit: usize,
    i: int,
    j: int,
)
    requires
        is_page(positions, views, query, page, limit),
        views.len() <= usize::MAX,
        0 <= i < j < positions.len(),
    ensures
        positions[i] < views.len() && positions[j] < views.len(),
        !listed_before(
            views[positions[j] as int],
            views[positions[i] as int],
            sorting_of(text::opt(query.sort)),
        ),
        !listed_before(
            views[positions[i] as int],
            views[positions[j] as int],
            sorting_of(text::opt(query.sort)),
        ) ==> positions[i] < positions[j],
        positions[i] != positions[j],
{
    let all = kept(views, query);
    let sorting = sorting_of(text::opt(query.sort));
    let less = listing_order(views, all, sorting);
    let from = page_start(page, limit);
    let order = choose|order: Seq<usize>|
        order::stable(order, all.len(), less) && positions == part(
            #[trigger] order::picked(all, order),
            from,
            from + limit,
        );
    let arranged = order::picked(all, order);
    assert(0 <= from) by {
        if page > 0 {
            assert(0 <= (page - 1) * limit) by (nonlinear_arith)
                requires
                    page > 0,
            ;
        }
    }
    let first = if from < arranged.len() {
        from
    } else {
        arranged.len() as int
    };
    lemma_listing_sorts(views, all, sorting);
    lemma_kept(views, query);
    lemma_kept_in_order(views, query);
    assert(positions[i] == arranged[first + i] && positions[j] == arranged[first + j]);
    let (a, b) = (order[first + i], order[first + j]);
    assert(a < all.len() && b < all.len() && a != b);
    assert(all[a as int] < views.len() && all[b as int] < views.len());
    assert(less(a as int, b as int) || (!less(b as int, a as int) && a < b));
    assert(!less(b as int, a as int)) by {
        if less(a as int, b as int) {
            assert(!less(b as int, a as int));
        }
    }
    if a < b {
        assert(all[a as int] < all[b as int]);
    } else {
        assert(all[b as int] < all[a as int]);
    }
}

proof fn lemma_kept_in_order(views: Seq<ModelView>, query: CatalogQuery)
    requires
        views.len() <= usize::MAX,
    ensures
        forall|i: int, j: int|
            0 <= i < j < kept(views, query).len() ==> (#[trigger] kept(views, query)[i]) < (
            #[trigger] kept(views, query)[j]),
    decreases views.len(),
{
    if views.len() > 0 {
        lemma_kept_in_order(views.drop_last(), query);
        lemma_kept(views.drop_last(), query);
    }
}

/// On a page that is sorted, no model has less of what it is sorted by than one
/// that stands behind it: likes, downloads, a later date, or a name further on in
/// the alphabet.
pub proof fn law_pages_are_sorted(
    positions: Seq<usize>,
    views: Seq<ModelView>,
    query: CatalogQuery,
    page: usize,
    limit: usize,
    i: int,
    j: int,
)
    requires
        is_page(positions, views, query, page, limit),
        views.len() <= usize::MAX,
        0 <= i < j < positions.len(),
    ensures
        positions[i] != positions[j],
        ({
            let ahead = views[positions[i] as int].entry;
            let behind = views[positions[j] as int].entry;
            let sort = text::opt(query.sort);
            &&& sort == Some("likes"@) ==> (behind.likes matches Some(fewer) ==> fewer > 0 ==> (
            ahead.likes matches Some(more) && more >= fewer))
            &&& sort == Some("downloads"@) ==> (behind.downloads matches Some(fewer) ==> fewer > 0
                ==> (ahead.downloads matches Some(more) && more >= fewer))
            &&& sort == Some("name"@) ==> !text::before(
                text::lower(behind.name@),
                text::lower(ahead.name@),
            )
            &&& sort == Some("updated"@) || sort == Some("last_modified"@) ==> (
            behind.last_modified matches Some(older) ==> (ahead.last_modified matches Some(newer)
                && !text::before(newer@, older@)))
            &&& sort is None ==> positions[i] < positions[j]
        }),
{
    lemma_on_page(positions, views, query, page, limit, i, j);
    reveal_strlit("name");
    reveal_strlit("likes");
    reveal_strlit("downloads");
    reveal_strlit("updated");
    reveal_strlit("last_modified");
    assert("name"@.len() == 4 && "likes"@.len() == 5 && "downloads"@.len() == 9 && "updated"@.len()
        == 7 && "last_modified"@.len() == 13);
}

/// Among the recommended, a model that is supported stands before one that is not,
/// then one that fits the machine, then one that is ready, then the one with more
/// downloads.
pub proof fn law_recommended_models_come_first(
    positions: Seq<usize>,
    views: Seq<ModelView>,
    query: CatalogQuery,
    page: usize,
    limit: usize,
    i: int,
    j: int,
)
    requires
        is_page(positions, views, query, page, limit),
        views.len() <= usize::MAX,
        0 <= i < j < positions.len(),
        text::opt(query.sort) == Some("recommended"@) || text::opt(query.sort) == Some(
            "compatibility"@,
        ),
    ensures
        ({
            let ahead = views[positions[i] as int];
            let behind = views[positions[j] as int];
            &&& behind.vidioai_supported ==> ahead.vidioai_supported
            &&& ahead.vidioai_supported == behind.vidioai_supported && behind.hardware_compatible
                ==> ahead.hardware_compatible
            &&& ahead.vidioai_supported == behind.vidioai_supported && ahead.hardware_compatible
                == behind.hardware_compatible && behind.runtime_ready ==> ahead.runtime_ready
            &&& ahead.vidioai_supported == behind.vidioai_supported && ahead.hardware_compatible
                == behind.hardware_compatible && ahead.runtime_ready == behind.runtime_ready ==> (
            behind.entry.downloads matches Some(fewer) ==> fewer > 0 ==> (
            ahead.entry.downloads matches Some(more) && more >= fewer))
        }),
{
    lemma_on_page(positions, views, query, page, limit, i, j);
    reveal_strlit("name");
    reveal_strlit("likes");
    reveal_strlit("downloads");
    reveal_strlit("updated");
    reveal_strlit("last_modified");
    reveal_strlit("recommended");
    reveal_strlit("compatibility");
    assert("name"@.len() == 4 && "likes"@.len() == 5 && "downloads"@.len() == 9 && "updated"@.len()
        == 7 && "last_modified"@.len() == 13 && "recommended"@.len() == 11 && "compatibility"@.len()
        == 13);
    assert("last_modified"@[0] == 'l' && "compatibility"@[0] == 'c');
}

/// The models that are counted are those that are installed, or not, and
/// compatible, or not, as the query wants.
pub proof fn law_wanted_models_are_counted(views: Seq<ModelView>, query: CatalogQuery, at: int)
    requires
        0 <= at < views.len() <= usize::MAX,
    ensures
        kept(views, query).contains(at as usize) <==> {
            &&& query.installed is Some ==> query.installed == Some(views[at].installed)
            &&& query.compatible is Some ==> query.compatible == Some(views[at].compatible)
        },
        query.installed is None && query.compatible is None ==> kept(views, query).len()
            == views.len(),
    decreases views.len(),
{
    let rest = views.drop_last();
    let before = kept(rest, query);
    lemma_kept(rest, query);
    lemma_kept(views, query);
    let all = kept(views, query);
    if at < rest.len() {
        law_wanted_models_are_counted(rest, query, at);
        assert(rest[at] == views[at]);
        if before.contains(at as usize) {
            let k = choose|k: int| 0 <= k < before.len() && before[k] == at as usize;
            assert(all[k] == at as usize);
        }
        if all.contains(at as usize) {
            let k = choose|k: int| 0 <= k < all.len() && all[k] == at as usize;
            assert(before[k] == at as usize);
        }
    } else {
        if wanted(views.last(), query) {
            assert(all[all.len() - 1] == at as usize);
        } else if all.contains(at as usize) {
            let k = choose|k: int| 0 <= k < all.len() && all[k] == at as usize;
            assert(before[k] < rest.len());
        }
        if rest.len() > 0 {
            law_wanted_models_are_counted(rest, query, rest.len() - 1);
        }
    }
}

/// The first page begins with the first model and each other page where the one
/// before it ends: a page is full unless the models end on it, and there is more
/// exactly where a model stands behind it.
pub proof fn law_pages_follow_each_other(
    positions: Seq<usize>,
    views: Seq<ModelView>,
    query: CatalogQuery,
    page: usize,
    limit: usize,
)
    requires
        is_page(positions, views, query, page, limit),
        page > 0,
        page * limit <= usize::MAX,
    ensures
        ({
            let total = kept(views, query).len();
            &&& total <= (page - 1) * limit ==> positions.len() == 0
            &&& (page - 1) * limit < total < page * limit ==> positions.len() == total - (page - 1)
                * limit
            &&& total >= page * limit ==> positions.len() == limit
            &&& page_end(page, limit) < total <==> page * limit < total
        }),
{
    assert(page * limit == (page - 1) * limit + limit) by (nonlinear_arith);
    assert(0 <= (page - 1) * limit) by (nonlinear_arith)
        requires
            page > 0,
    ;
}

/// Two pages of one listing have no model in common, and those of the earlier page
/// do not stand behind those of the later.
pub proof fn law_no_model_is_on_two_pages(
    earlier: Seq<usize>,
    later: Seq<usize>,
    views: Seq<ModelView>,
    query: CatalogQuery,
    first: usize,
    second: usize,
    limit: usize,
    i: int,
    j: int,
)
    requires
        is_page(earlier, views, query, first, limit),
        is_page(later, views, query, second, limit),
        views.len() <= usize::MAX,
        0 < first < second,
        second * limit <= usize::MAX,
        0 <= i < earlier.len(),
        0 <= j < later.len(),
    ensures
        earlier[i] != later[j],
        text::opt(query.sort) is None ==> earlier[i] < later[j],
{
    let all = kept(views, query);
    let sorting = sorting_of(text::opt(query.sort));
    let less = listing_order(views, all, sorting);
    lemma_listing_sorts(views, all, sorting);
    lemma_kept_in_order(views, query);
    assert((second - 1) * limit >= first * limit && first * limit == (first - 1) * limit + limit
        && (second - 1) * limit <= second * limit && (first - 1) * limit >= 0) by (nonlinear_arith)
        requires
            0 < first < second,
    ;
    let from = page_start(first, limit);
    let onward = page_start(second, limit);
    let one = choose|order: Seq<usize>|
        order::stable(order, all.len(), less) && earlier == part(
            #[trigger] order::picked(all, order),
            from,
            from + limit,
        );
    let other = choose|order: Seq<usize>|
        order::stable(order, all.len(), less) && later == part(
            #[trigger] order::picked(all, order),
            onward,
            onward + limit,
        );
    order::law_stable_order_is_unique(one, other, all.len(), less);
    let arranged = order::picked(all, one);
    assert(earlier[i] == arranged[from + i]);
    assert(later[j] == arranged[onward + j]);
    let (a, b) = (one[from + i], one[onward + j]);
    assert(a != b && a < all.len() && b < all.len());
    assert(less(a as int, b as int) || (!less(b as int, a as int) && a < b));
    if a < b {
        assert(all[a as int] < all[b as int]);
    } else {
        assert(all[b as int] < all[a as int]);
    }
}

/// A search finds what it names, wherever that stands in the name of a model and
/// however it is written; a blank one finds everything.
pub proof fn law_searches_find_what_they_name(entry: EntryView, search: Seq<char>, at: int)
    ensures
        text::trimmed(search).len() == 0 ==> found_by(entry, search),
        text::occurs_at(entry.name, text::trimmed(search), at) && stripped(
            text::trimmed(search),
            "https://huggingface.co/"@,
        ) == text::trimmed(search) ==> found_by(entry, search),
        text::occurs_at(entry.id, text::trimmed(search), at) && stripped(
            text::trimmed(search),
            "https://huggingface.co/"@,
        ) == text::trimmed(search) ==> found_by(entry, search),
        text::occurs_at(entry.description, text::trimmed(search), at) && stripped(
            text::trimmed(search),
            "https://huggingface.co/"@,
        ) == text::trimmed(search) ==> found_by(entry, search),
{
    let words = text::trimmed(search);
    let hay = text::lower(entry.id + " "@ + entry.name + " "@ + entry.description);
    let needle = text::lower(words);
    reveal_strlit(" ");
    assert(" "@.len() == 1);
    if text::occurs_at(entry.name, words, at) {
        let k = entry.id.len() + 1 + at;
        assert forall|i: int| 0 <= i < needle.len() implies hay.subrange(k, k + needle.len())[i]
            == needle[i] by {
            assert(entry.name.subrange(at, at + words.len())[i] == words[i]);
        }
        assert(hay.subrange(k, k + needle.len()) =~= needle);
        assert(text::occurs_at(hay, needle, k));
    }
    if text::occurs_at(entry.id, words, at) {
        assert forall|i: int| 0 <= i < needle.len() implies hay.subrange(at, at + needle.len())[i]
            == needle[i] by {
            assert(entry.id.subrange(at, at + words.len())[i] == words[i]);
        }
        assert(hay.subrange(at, at + needle.len()) =~= needle);
        assert(text::occurs_at(hay, needle, at));
    }
    if text::occurs_at(entry.description, words, at) {
        let k = entry.id.len() + 1 + entry.name.len() + 1 + at;
        assert forall|i: int| 0 <= i < needle.len() implies hay.subrange(k, k + needle.len())[i]
            == needle[i] by {
            assert(entry.description.subrange(at, at + words.len())[i] == words[i]);
        }
        assert(hay.subrange(k, k + needle.len()) =~= needle);
        assert(text::occurs_at(hay, needle, k));
    }
}

/// A model that is matched has the author, the category and the task that the
/// query names, whatever their case; a query that names nothing matches every
/// model, and a wrong author, category or task is enough for none.
pub proof fn law_queries_filter(entry: EntryView, query: CatalogQuery)
    ensures
        query.search is None && query.author is None && query.category is None && query.task is None
            ==> matches_query(entry, query),
        matches_query(entry, query) ==> {
            &&& query.author matches Some(asked) ==> (entry.author matches Some(author)
                && text::lower(author) == text::lower(asked@))
            &&& query.category matches Some(asked) ==> text::lower(entry.kind) == text::lower(
                asked@,
            )
            &&& query.task matches Some(asked) ==> exists|i: int|
                0 <= i < entry.capabilities.len() && text::lower(
                    (#[trigger] entry.capabilities[i]).name(),
                ) == text::lower(asked@)
            &&& query.search matches Some(asked) ==> found_by(entry, asked@)
        },
        query.search is None && query.category is None && query.task is None
            && query.author is Some && entry.author is Some && query.author->0@ == entry.author->0
            ==> matches_query(entry, query),
        query.search is None && query.author is None && query.task is None
            && query.category is Some && query.category->0@ == entry.kind ==> matches_query(
            entry,
            query,
        ),
        forall|i: int|
            query.search is None && query.author is None && query.category is None
                && query.task is Some && 0 <= i < entry.capabilities.len() && query.task->0@ == (
            #[trigger] entry.capabilities[i]).name() ==> matches_query(entry, query),
{
}

/// A task goes to a model that has the capability, is installed and compatible;
/// none is found only where there is no such model, and of two that are judged
/// alike the later one is taken.
pub proof fn law_routes_lead_to_models_that_serve(
    views: Seq<ModelView>,
    capability: ModelCapability,
    preset: Seq<char>,
    other: int,
)
    requires
        0 <= other < views.len(),
    ensures
        best(views, capability, preset) matches Some(at) ==> {
            &&& 0 <= at < views.len()
            &&& views[at].installed && views[at].compatible
            &&& views[at].entry.capabilities@.contains(capability)
            &&& views[other].installed && views[other].compatible
                && views[other].entry.capabilities@.contains(capability) ==> score(
                views[other],
                preset,
            ) <= score(views[at], preset) && (other > at ==> score(views[other], preset) < score(
                views[at],
                preset,
            ))
        },
        best(views, capability, preset) is None ==> !(views[other].installed
            && views[other].compatible && views[other].entry.capabilities@.contains(capability)),
    decreases views.len(),
{
    lemma_best(views, capability, preset);
    if eligible(views[other], capability) {
        law_route_is_best(views, capability, preset, other);
    }
    let rest = views.drop_last();
    lemma_best(rest, capability, preset);
    if other < rest.len() {
        law_routes_lead_to_models_that_serve(rest, capability, preset, other);
        assert(rest[other] == views[other]);
        match best(rest, capability, preset) {
            Some(at) => {
                assert(rest[at] == views[at]);
            },
            None => {},
        }
    }
}

/// A model in memory is preferred to one that is not, an engine of this service to
/// a model of a catalogue, and less so where quality is wanted.
pub proof fn law_loaded_and_local_models_are_preferred(
    one: ModelView,
    other: ModelView,
    preset: Seq<char>,
)
    ensures
        one.entry.repository@ == other.entry.repository@ && one.loaded && !other.loaded ==> score(
            one,
            preset,
        ) == score(other, preset) + 30,
        text::opens(one.entry.repository@, "local/"@) && !text::opens(
            other.entry.repository@,
            "local/"@,
        ) && one.loaded == other.loaded ==> {
            &&& text::lower(preset) == "quality"@ ==> score(one, preset) == score(other, preset) + 10
            &&& text::lower(preset) != "quality"@ ==> score(one, preset) == score(other, preset) + 35
        },
        !one.loaded && !text::opens(one.entry.repository@, "local/"@) && text::lower(preset)
            != "quality"@ ==> score(one, preset) == 40,
{
    reveal_strlit("quality");
    assert(text::lower("quality"@) =~= "quality"@);
}

/// The engines of this service are two, one for pictures and one for videos.
pub proof fn law_two_engines_are_built_in()
    ensures
        local_engines().len() == 2,
        local_engines()[0].0 == "vidio-canvas-local"@,
        local_engines()[1].0 == "vidio-motion-local"@,
        local_engines()[0].1 == "local/vidio-canvas"@,
        local_engines()[1].1 == "local/vidio-motion"@,
{
}

} // verus!
