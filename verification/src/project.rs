//! Projects: assets, generations and conversations that belong together.
use crate::error;
use crate::error::ApiError;
use crate::identity;
use crate::lookup;
use crate::order;
use crate::pack;
use crate::text;
use vstd::prelude::*;
use vstd::string::*;

verus! {

/// A project.
#[derive(Debug)]
pub struct Project {
    pub id: u128,
    pub name: String,
    pub description: String,
    pub asset_ids: Vec<u128>,
    pub generation_ids: Vec<u128>,
    pub chat_ids: Vec<u128>,
    pub created_at: u64,
    pub updated_at: u64,
}

/// What [`Project`] says.
#[verifier::ext_equal]
pub struct ProjectView {
    pub id: u128,
    pub name: Seq<char>,
    pub description: Seq<char>,
    pub asset_ids: Seq<u128>,
    pub generation_ids: Seq<u128>,
    pub chat_ids: Seq<u128>,
    pub created_at: u64,
    pub updated_at: u64,
}

impl View for Project {
    type V = ProjectView;

    open spec fn view(&self) -> ProjectView {
        ProjectView {
            id: self.id,
            name: self.name@,
            description: self.description@,
            asset_ids: self.asset_ids@,
            generation_ids: self.generation_ids@,
            chat_ids: self.chat_ids@,
            created_at: self.created_at,
            updated_at: self.updated_at,
        }
    }
}

impl Project {
    /// A copy of the value.
    pub fn copy(&self) -> (copy: Self)
        ensures
            copy@ == self@,
    {
        Project {
            id: self.id,
            name: self.name.clone(),
            description: self.description.clone(),
            asset_ids: lookup::copy_ids(&self.asset_ids),
            generation_ids: lookup::copy_ids(&self.generation_ids),
            chat_ids: lookup::copy_ids(&self.chat_ids),
            created_at: self.created_at,
            updated_at: self.updated_at,
        }
    }
}

/// What a project is to be.
#[derive(Debug)]
pub struct ProjectInput {
    pub name: String,
    pub description: String,
    pub asset_ids: Vec<u128>,
    pub generation_ids: Vec<u128>,
    pub chat_ids: Vec<u128>,
}

/// What [`ProjectInput`] says.
#[verifier::ext_equal]
pub struct ProjectInputView {
    pub name: Seq<char>,
    pub description: Seq<char>,
    pub asset_ids: Seq<u128>,
    pub generation_ids: Seq<u128>,
    pub chat_ids: Seq<u128>,
}

impl View for ProjectInput {
    type V = ProjectInputView;

    open spec fn view(&self) -> ProjectInputView {
        ProjectInputView {
            name: self.name@,
            description: self.description@,
            asset_ids: self.asset_ids@,
            generation_ids: self.generation_ids@,
            chat_ids: self.chat_ids@,
        }
    }
}

impl ProjectInput {
    /// A copy of the value.
    pub fn copy(&self) -> (copy: Self)
        ensures
            copy@ == self@,
    {
        ProjectInput {
            name: self.name.clone(),
            description: self.description.clone(),
            asset_ids: lookup::copy_ids(&self.asset_ids),
            generation_ids: lookup::copy_ids(&self.generation_ids),
            chat_ids: lookup::copy_ids(&self.chat_ids),
        }
    }
}

/// Projects by their identifiers.
pub struct Projects {
    pub list: Vec<Project>,
}

/// The identifiers of projects.
pub open spec fn ids(list: Seq<ProjectView>) -> Seq<u128> {
    Seq::new(list.len(), |i: int| list[i].id)
}

/// Where one of projects stands.
pub open spec fn place(list: Seq<ProjectView>, id: u128) -> Option<int> {
    lookup::place(ids(list), id)
}

/// When projects were created.
pub open spec fn creations(list: Seq<ProjectView>) -> Seq<u64> {
    Seq::new(list.len(), |i: int| list[i].created_at)
}

/// When projects were changed last.
pub open spec fn changes(list: Seq<ProjectView>) -> Seq<u64> {
    Seq::new(list.len(), |i: int| list[i].updated_at)
}

/// Whether a list is that of all projects, the last changed first.
pub open spec fn is_listing(listing: Seq<ProjectView>, list: Seq<ProjectView>) -> bool {
    exists|order: Seq<usize>|
        order::stable(order, list.len(), order::falling(changes(list))) && listing
            == #[trigger] order::picked(list, order)
}

/// Whether a list is that of all projects, the oldest first.
pub open spec fn is_record(record: Seq<ProjectView>, list: Seq<ProjectView>) -> bool {
    exists|order: Seq<usize>|
        order::stable(order, list.len(), order::rising(creations(list))) && record
            == #[trigger] order::picked(list, order)
}

/// What is said of one that is not known.
pub open spec fn unknown() -> (u16, Seq<char>) {
    (error::NOT_FOUND, "Projet inconnu."@)
}

impl View for Projects {
    type V = Seq<ProjectView>;

    open spec fn view(&self) -> Seq<ProjectView> {
        Seq::new(self.list@.len(), |i: int| self.list@[i]@)
    }
}

impl Projects {
    /// No two have one identifier.
    pub open spec fn wf(&self) -> bool {
        lookup::distinct(ids(self@))
    }

    /// None.
    pub fn new() -> (all: Self)
        ensures
            all.wf(),
            all@ == Seq::<ProjectView>::empty(),
    {
        let all = Projects { list: Vec::new() };
        assert(all@ =~= Seq::<ProjectView>::empty());
        all
    }

    /// Where one stands.
    pub fn find(&self, id: u128) -> (at: Option<usize>)
        ensures
            match at {
                Some(k) => k < self@.len() && place(self@, id) == Some(k as int),
                None => place(self@, id) is None,
            },
    {
        for k in 0..self.list.len()
            invariant
                forall|j: int| 0 <= j < k ==> (#[trigger] self.list@[j])@.id != id,
        {
            if self.list[k].id == id {
                proof {
                    lookup::lemma_place_is(ids(self@), id, k as int);
                }
                return Some(k);
            }
        }
        proof {
            lookup::lemma_no_place(ids(self@), id);
        }
        None
    }

    /// Enters one, in place of one with the same identifier.
    pub fn insert(&mut self, entry: Project)
        requires
            old(self).wf(),
        ensures
            final(self).wf(),
            final(self)@ == match place(old(self)@, entry@.id) {
                Some(at) => old(self)@.update(at, entry@),
                None => old(self)@.push(entry@),
            },
    {
        let ghost before = self@;
        let ghost entered = entry@;
        proof {
            lookup::lemma_place(ids(before), entered.id);
        }
        match self.find(entry.id) {
            Some(at) => {
                self.list.set(at, entry);
                assert(self@ =~= before.update(at as int, entered));
                assert(ids(self@) =~= ids(before));
            },
            None => {
                self.list.push(entry);
                assert(self@ =~= before.push(entered));
                assert forall|i: int| 0 <= i < before.len() implies before[i].id != entered.id by {
                    assert(ids(before)[i] == before[i].id);
                    assert(ids(before).contains(ids(before)[i]));
                }
                assert forall|i: int, j: int| 0 <= i < j < ids(self@).len() implies ids(self@)[i]
                    != ids(self@)[j] by {
                    assert(ids(before)[i] == before[i].id);
                    if j < before.len() {
                        assert(ids(before)[j] == before[j].id);
                    }
                }
            },
        }
    }

    fn in_order(&self, order: &Vec<usize>) -> (listing: Vec<Project>)
        requires
            order::permutes(order@, self@.len()),
        ensures
            Seq::new(listing@.len(), |i: int| listing@[i]@) == order::picked(self@, order@),
    {
        let mut listing: Vec<Project> = Vec::new();
        for n in 0..order.len()
            invariant
                order::permutes(order@, self@.len()),
                listing@.len() == n,
                forall|i: int|
                    0 <= i < n ==> (#[trigger] listing@[i])@ == self@[order@[i] as int],
        {
            let at: usize = order[n];
            listing.push(self.list[at].copy());
        }
        assert(Seq::new(listing@.len(), |i: int| listing@[i]@) =~= order::picked(self@, order@));
        listing
    }

    /// Copies of all, the last changed first.
    pub fn listing(&self) -> (listing: Vec<Project>)
        ensures
            is_listing(Seq::new(listing@.len(), |i: int| listing@[i]@), self@),
    {
        let mut keys: Vec<u64> = Vec::new();
        for k in 0..self.list.len()
            invariant
                keys@.len() == k,
                forall|j: int| 0 <= j < k ==> keys@[j] == (#[trigger] self.list@[j])@.updated_at,
        {
            keys.push(self.list[k].updated_at);
        }
        assert(keys@ =~= changes(self@));
        let order = order::falling_order(&keys);
        self.in_order(&order)
    }

    /// Copies of all, the oldest first, as they are kept on the disk.
    pub fn record(&self) -> (record: Vec<Project>)
        ensures
            is_record(Seq::new(record@.len(), |i: int| record@[i]@), self@),
    {
        let mut keys: Vec<u64> = Vec::new();
        for k in 0..self.list.len()
            invariant
                keys@.len() == k,
                forall|j: int| 0 <= j < k ==> keys@[j] == (#[trigger] self.list@[j])@.created_at,
        {
            keys.push(self.list[k].created_at);
        }
        assert(keys@ =~= creations(self@));
        let order = order::rising_order(&keys);
        self.in_order(&order)
    }

    /// A copy of one.
    pub fn get(&self, id: u128) -> (result: Result<Project, ApiError>)
        ensures
            match result {
                Ok(entry) => place(self@, id) is Some && entry@ == self@[place(self@, id)->0],
                Err(refusal) => place(self@, id) is None && error::says(refusal) == unknown(),
            },
    {
        match self.find(id) {
            Some(at) => Ok(self.list[at].copy()),
            None => Err(ApiError::not_found("Projet inconnu.".to_owned())),
        }
    }

    /// Forgets one; what belongs to it stays.
    pub fn delete(&mut self, id: u128) -> (result: Result<(), ApiError>)
        requires
            old(self).wf(),
        ensures
            final(self).wf(),
            match place(old(self)@, id) {
                Some(at) => result is Ok && final(self)@ == old(self)@.remove(at),
                None => *final(self) == *old(self) && pack::refused(result) == Some(unknown()),
            },
    {
        match self.find(id) {
            Some(at) => {
                let ghost before = self@;
                self.list.remove(at);
                assert(self@ =~= before.remove(at as int));
                assert forall|i: int, j: int| 0 <= i < j < ids(self@).len() implies ids(self@)[i]
                    != ids(self@)[j] by {
                    let a = if i < at {
                        i
                    } else {
                        i + 1
                    };
                    let b = if j < at {
                        j
                    } else {
                        j + 1
                    };
                    assert(ids(before)[a] != ids(before)[b]);
                }
                Ok(())
            },
            None => Err(ApiError::not_found("Projet inconnu.".to_owned())),
        }
    }
}

/// Whether the length of a name is refused: fewer than 2 or more than 80 bytes
/// once it is trimmed.
pub open spec fn name_refused(name: Seq<char>) -> bool {
    text::utf8_len(text::trimmed(name)) < 2 || text::utf8_len(text::trimmed(name)) > 80
}

/// What is said of a name of a length that is refused.
pub open spec fn name_refusal() -> (u16, Seq<char>) {
    (error::BAD_REQUEST, "Le nom doit contenir entre 2 et 80 caractères."@)
}

fn is_name_refused(name: &str) -> (refused: bool)
    ensures
        refused == name_refused(name@),
{
    let length: usize = text::byte_len(text::trim(name));
    length < 2 || length > 80
}

/// A project as it is to be.
pub open spec fn shaped(
    input: ProjectInputView,
    id: u128,
    created_at: u64,
    updated_at: u64,
) -> ProjectView {
    ProjectView {
        id,
        name: text::trimmed(input.name),
        description: text::trimmed(input.description),
        asset_ids: input.asset_ids,
        generation_ids: input.generation_ids,
        chat_ids: input.chat_ids,
        created_at,
        updated_at,
    }
}

fn shape(input: &ProjectInput, id: u128, created_at: u64, updated_at: u64) -> (project: Project)
    ensures
        project@ == shaped(input@, id, created_at, updated_at),
{
    Project {
        id,
        name: text::trim(input.name.as_str()).to_owned(),
        description: text::trim(input.description.as_str()).to_owned(),
        asset_ids: lookup::copy_ids(&input.asset_ids),
        generation_ids: lookup::copy_ids(&input.generation_ids),
        chat_ids: lookup::copy_ids(&input.chat_ids),
        created_at,
        updated_at,
    }
}

/// What a project, or the refusal of one, says.
pub open spec fn outcome(result: Result<Project, ApiError>) -> Result<ProjectView, (u16, Seq<char>)> {
    match result {
        Ok(project) => Ok(project@),
        Err(refusal) => Err(error::says(refusal)),
    }
}

/// Makes a project under an identifier.
pub fn new_project(input: &ProjectInput, id: u128, now: u64) -> (result: Result<Project, ApiError>)
    ensures
        outcome(result) == if name_refused(input@.name) {
            Err(name_refusal())
        } else {
            Ok(shaped(input@, id, now, now))
        },
{
    if is_name_refused(input.name.as_str()) {
        return Err(
            ApiError::bad_request("Le nom doit contenir entre 2 et 80 caractères.".to_owned()),
        );
    }
    Ok(shape(input, id, now, now))
}

impl Projects {
    /// Creates a project now, under a fresh identifier, and returns it.
    pub fn create_project(&mut self, input: &ProjectInput) -> (result: Result<Project, ApiError>)
        requires
            old(self).wf(),
        ensures
            final(self).wf(),
            match result {
                Ok(project) => !name_refused(input@.name) && project@ == shaped(
                    input@,
                    project.id,
                    project.created_at,
                    project.created_at,
                ) && final(self)@ == match place(old(self)@, project.id) {
                    Some(at) => old(self)@.update(at, project@),
                    None => old(self)@.push(project@),
                },
                Err(refusal) => name_refused(input@.name) && *final(self) == *old(self)
                    && error::says(refusal) == name_refusal(),
            },
    {
        let id: u128 = identity::new_id();
        let now: u64 = identity::unix_now();
        match new_project(input, id, now) {
            Ok(project) => {
                let copy = project.copy();
                self.insert(copy);
                Ok(project)
            },
            Err(refusal) => Err(refusal),
        }
    }

    /// Changes a project, and returns it: first it must be known, then its name
    /// must be one.
    pub fn update_project(&mut self, id: u128, input: &ProjectInput, now: u64) -> (result: Result<
        Project,
        ApiError,
    >)
        requires
            old(self).wf(),
        ensures
            final(self).wf(),
            match place(old(self)@, id) {
                None => *final(self) == *old(self) && outcome(result) == Err::<
                    ProjectView,
                    (u16, Seq<char>),
                >(unknown()),
                Some(at) => if name_refused(input@.name) {
                    *final(self) == *old(self) && outcome(result) == Err::<
                        ProjectView,
                        (u16, Seq<char>),
                    >(name_refusal())
                } else {
                    let changed = shaped(input@, id, old(self)@[at].created_at, now);
                    outcome(result) == Ok::<ProjectView, (u16, Seq<char>)>(changed) && final(self)@
                        == old(self)@.update(at, changed)
                },
            },
    {
        let ghost before = self@;
        proof {
            lookup::lemma_place(ids(before), id);
        }
        match self.find(id) {
            None => Err(ApiError::not_found("Projet inconnu.".to_owned())),
            Some(at) => {
                if is_name_refused(input.name.as_str()) {
                    return Err(
                        ApiError::bad_request(
                            "Le nom doit contenir entre 2 et 80 caractères.".to_owned(),
                        ),
                    );
                }
                let created_at: u64 = self.list[at].created_at;
                let changed = shape(input, id, created_at, now);
                let copy = changed.copy();
                self.list.set(at, copy);
                assert(self@ =~= before.update(at as int, changed@));
                assert(ids(self@) =~= ids(before));
                Ok(changed)
            },
        }
    }
}

/// A project that was entered is found again as it was entered.
pub proof fn law_projects_are_found_again(list: Seq<ProjectView>, project: ProjectView)
    requires
        place(list, project.id) is None,
    ensures
        place(list.push(project), project.id) == Some(list.len() as int),
        list.push(project)[list.len() as int] == project,
{
    lookup::lemma_place(ids(list), project.id);
    let after = ids(list.push(project));
    assert forall|j: int| 0 <= j < list.len() implies after[j] != project.id by {
        assert(ids(list)[j] == after[j]);
        assert(ids(list).contains(ids(list)[j]));
    }
    lookup::lemma_place_is(after, project.id, list.len() as int);
}

/// A project is what was entered: its name and its description without the space
/// around them, and what belongs to it.
pub proof fn law_projects_are_as_entered(
    input: ProjectInputView,
    id: u128,
    created_at: u64,
    updated_at: u64,
)
    ensures
        ({
            let project = shaped(input, id, created_at, updated_at);
            &&& project.id == id && project.name == text::trimmed(input.name)
            &&& project.description == text::trimmed(input.description)
            &&& project.asset_ids == input.asset_ids && project.generation_ids
                == input.generation_ids && project.chat_ids == input.chat_ids
            &&& project.created_at == created_at && project.updated_at == updated_at
        }),
        name_refused(input.name) <==> text::utf8_len(text::trimmed(input.name)) < 2
            || text::utf8_len(text::trimmed(input.name)) > 80,
        name_refusal().0 == 400 && unknown().0 == 404,
{
}

/// A list of projects holds each of them once, the one changed last first; the
/// record of them has the oldest first.
pub proof fn law_projects_are_listed_in_order(
    listing: Seq<ProjectView>,
    record: Seq<ProjectView>,
    list: Seq<ProjectView>,
)
    requires
        is_listing(listing, list),
        is_record(record, list),
        list.len() <= usize::MAX,
    ensures
        listing.len() == list.len() && record.len() == list.len(),
        forall|i: int|
            0 <= i < list.len() ==> listing.contains(#[trigger] list[i]) && record.contains(
                list[i],
            ),
        forall|i: int, j: int|
            0 <= i < j < listing.len() ==> (#[trigger] listing[i]).updated_at >= (
            #[trigger] listing[j]).updated_at,
        forall|i: int, j: int|
            0 <= i < j < record.len() ==> (#[trigger] record[i]).created_at <= (
            #[trigger] record[j]).created_at,
{
    let order = choose|order: Seq<usize>|
        order::stable(order, list.len(), order::falling(changes(list))) && listing
            == #[trigger] order::picked(list, order);
    let oldest = choose|order: Seq<usize>|
        order::stable(order, list.len(), order::rising(creations(list))) && record
            == #[trigger] order::picked(list, order);
    order::lemma_picked_are_all(list, order);
    order::lemma_picked_are_all(list, oldest);
    assert forall|i: int, j: int| 0 <= i < j < listing.len() implies (
    #[trigger] listing[i]).updated_at >= (#[trigger] listing[j]).updated_at by {
        order::law_keys_are_in_order(order, changes(list), i, j);
        assert(order[i] < list.len() && order[j] < list.len());
    }
    assert forall|i: int, j: int| 0 <= i < j < record.len() implies (
    #[trigger] record[i]).created_at <= (#[trigger] record[j]).created_at by {
        order::law_keys_are_in_order(oldest, creations(list), i, j);
        assert(oldest[i] < list.len() && oldest[j] < list.len());
    }
}

} // verus!
