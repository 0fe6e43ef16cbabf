//! The repositories of the account and the highlight that moves over them.

use vstd::prelude::*;

verus! {

/// Whether a repository is marked for deletion.
#[derive(Debug, Clone, Copy, PartialEq, Eq, PartialOrd, Ord, Hash, Structural)]
pub enum Status {
    /// Marked: the next confirmed pass deletes it.
    Selected,
    /// Not marked.
    Unselected,
}

impl Status {
    /// The other status.
    pub open spec fn toggled(self) -> Status {
        match self {
            Status::Selected => Status::Unselected,
            Status::Unselected => Status::Selected,
        }
    }

    /// The other status.
    pub fn toggle(self) -> (other: Status)
        ensures
            other == self.toggled(),
    {
        match self {
            Status::Selected => Status::Unselected,
            Status::Unselected => Status::Selected,
        }
    }
}

/// One repository of the list, as mathematics.
pub struct RepositoryView {
    /// The repository's name.
    pub name: Seq<char>,
    /// Whether it is marked for deletion.
    pub status: Status,
}

/// One repository of the list.
#[derive(Debug)]
pub struct Repository {
    /// The repository's name; the service keeps names apart, this type does not.
    pub name: String,
    /// Whether it is marked for deletion.
    pub status: Status,
}

impl View for Repository {
    type V = RepositoryView;

    open spec fn view(&self) -> RepositoryView {
        RepositoryView { name: self.name@, status: self.status }
    }
}

impl Clone for Repository {
    fn clone(&self) -> (copy: Repository)
        ensures
            copy@ == self@,
    {
        Repository { name: self.name.clone(), status: self.status }
    }
}

impl Repository {
    /// The repository `name` with the given status.
    pub fn new(status: Status, name: &str) -> (repository: Repository)
        ensures
            repository@ == (RepositoryView { name: name@, status }),
    {
        Repository { status, name: name.to_owned() }
    }
}

/// Whether a repository is marked.
pub open spec fn is_selected() -> spec_fn(RepositoryView) -> bool {
    |repository: RepositoryView| repository.status == Status::Selected
}

/// The name of a repository.
pub open spec fn name_of() -> spec_fn(RepositoryView) -> Seq<char> {
    |repository: RepositoryView| repository.name
}

/// Whether a repository is called anything but `name`.
pub open spec fn not_named(name: Seq<char>) -> spec_fn(RepositoryView) -> bool {
    |repository: RepositoryView| repository.name != name
}

/// The names of the marked repositories, in list order.
pub open spec fn selected_names(repos: Seq<RepositoryView>) -> Seq<Seq<char>> {
    repos.filter(is_selected()).map_values(name_of())
}

/// The repositories that are not called `name`, in list order.
pub open spec fn without_name(repos: Seq<RepositoryView>, name: Seq<char>) -> Seq<RepositoryView> {
    repos.filter(not_named(name))
}

/// A highlight brought back onto a list of `len` entries: none on an empty
/// list, else at most the last entry.
pub open spec fn clamp_highlight(cursor: Option<nat>, len: nat) -> Option<nat> {
    match cursor {
        Some(i) => if len == 0 {
            None
        } else if i < len {
            Some(i)
        } else {
            Some((len - 1) as nat)
        },
        None => None,
    }
}

/// What a [`GithubContent`] holds, as mathematics.
pub struct GithubContentView {
    /// The account that owns the repositories.
    pub owner: Seq<char>,
    /// The repositories, in the order in which the service listed them.
    pub repos: Seq<RepositoryView>,
    /// The index of the highlighted repository, if one is highlighted.
    pub cursor: Option<nat>,
}

impl GithubContentView {
    /// A highlight, where there is one, lies on a repository of the list.
    pub open spec fn wf(self) -> bool {
        self.cursor matches Some(i) ==> i < self.repos.len()
    }

    /// The highlight moves down one entry and stops at the last; from no
    /// highlight it goes to the first entry.
    pub open spec fn select_next(self) -> GithubContentView {
        let next: nat = match self.cursor {
            Some(i) => i + 1,
            None => 0,
        };
        GithubContentView { cursor: clamp_highlight(Some(next), self.repos.len()), ..self }
    }

    /// The highlight moves up one entry and stops at the first; from no
    /// highlight it goes to the last entry.
    pub open spec fn select_previous(self) -> GithubContentView {
        let previous: nat = match self.cursor {
            Some(i) => if i > 0 {
                (i - 1) as nat
            } else {
                0
            },
            None => self.repos.len(),
        };
        GithubContentView { cursor: clamp_highlight(Some(previous), self.repos.len()), ..self }
    }

    /// The mark of the highlighted repository flips; without a highlight
    /// nothing changes.
    pub open spec fn toggle_at_cursor(self) -> GithubContentView {
        match self.cursor {
            Some(i) if i < self.repos.len() => GithubContentView {
                repos: self.repos.update(
                    i as int,
                    RepositoryView {
                        status: self.repos[i as int].status.toggled(),
                        ..self.repos[i as int]
                    },
                ),
                ..self
            },
            _ => self,
        }
    }

    /// At least one repository is marked.
    pub open spec fn any_selected(self) -> bool {
        exists|i: int| 0 <= i < self.repos.len() && self.repos[i].status == Status::Selected
    }

    /// The names of the marked repositories, in list order.
    pub open spec fn selected_names(self) -> Seq<Seq<char>> {
        selected_names(self.repos)
    }

    /// Every repository called `name` leaves the list; the others keep their
    /// order and their marks, and the highlight is brought back onto the list.
    pub open spec fn remove_by_name(self, name: Seq<char>) -> GithubContentView {
        let repos = without_name(self.repos, name);
        GithubContentView { repos, cursor: clamp_highlight(self.cursor, repos.len()), ..self }
    }
}

/// The list that the names `names` make for `owner`: each repository with
/// the mark `status`, nothing highlighted.
pub open spec fn listing(
    owner: Seq<char>,
    names: Seq<Seq<char>>,
    status: Status,
) -> GithubContentView {
    GithubContentView {
        owner,
        repos: Seq::new(names.len(), |i: int| RepositoryView { name: names[i], status }),
        cursor: None,
    }
}

/// The repositories of an account, with the highlight that moves over them.
pub struct GithubContent {
    owner: String,
    repos: Vec<Repository>,
    highlight: Option<usize>,
}

/// The views of `repos`, entry by entry.
pub open spec fn repository_views(repos: Seq<Repository>) -> Seq<RepositoryView> {
    Seq::new(repos.len(), |i: int| repos[i]@)
}

/// The texts of `names`, entry by entry.
pub open spec fn string_views(names: Seq<String>) -> Seq<Seq<char>> {
    Seq::new(names.len(), |i: int| names[i]@)
}

impl View for GithubContent {
    type V = GithubContentView;

    /// The highlight is read clamped to the list, so every value of the type
    /// stands for a well-formed list.
    closed spec fn view(&self) -> GithubContentView {
        GithubContentView {
            owner: self.owner@,
            repos: repository_views(self.repos@),
            cursor: clamp_highlight(
                match self.highlight {
                    Some(i) => Some(i as nat),
                    None => None,
                },
                self.repos@.len(),
            ),
        }
    }
}

impl GithubContent {
    /// Every list is well-formed, whatever was done to it.
    pub proof fn lemma_always_wf(&self)
        ensures
            self@.wf(),
    {
    }

    /// The list `repos` of the account `owner`, with nothing highlighted.
    pub fn new(owner: String, repos: Vec<Repository>) -> (content: GithubContent)
        ensures
            content@ == (GithubContentView {
                owner: owner@,
                repos: repository_views(repos@),
                cursor: None,
            }),
    {
        GithubContent { owner, repos, highlight: None }
    }

    /// The repositories called `names`, in that order, each with the mark
    /// `status`, for the account `owner`; nothing is highlighted.
    pub fn from_names(owner: &str, names: &Vec<String>, status: Status) -> (content: GithubContent)
        ensures
            content@ == listing(owner@, string_views(names@), status),
    {
        let mut repos: Vec<Repository> = Vec::new();
        let mut i: usize = 0;
        while i < names.len()
            invariant
                i <= names@.len(),
                repos@.len() == i,
                forall|j: int|
                    0 <= j < i ==> (#[trigger] repos@[j])@ == (RepositoryView {
                        name: names@[j]@,
                        status,
                    }),
            decreases names@.len() - i,
        {
            repos.push(Repository { name: names[i].clone(), status });
            i = i + 1;
        }
        let content = GithubContent { owner: owner.to_owned(), repos, highlight: None };
        assert(content@.repos =~= listing(owner@, string_views(names@), status).repos);
        content
    }

    /// The account that owns the repositories.
    pub fn owner(&self) -> (owner: &str)
        ensures
            owner@ == self@.owner,
    {
        self.owner.as_str()
    }

    /// The repositories, in list order.
    pub fn repos(&self) -> (repos: &Vec<Repository>)
        ensures
            repository_views(repos@) == self@.repos,
    {
        &self.repos
    }

    /// The number of repositories in the list.
    pub fn len(&self) -> (len: usize)
        ensures
            len == self@.repos.len(),
    {
        self.repos.len()
    }

    /// The index of the highlighted repository, if one is highlighted.
    pub fn cursor(&self) -> (cursor: Option<usize>)
        ensures
            match cursor {
                Some(i) => self@.cursor == Some(i as nat) && i < self@.repos.len(),
                None => self@.cursor is None,
            },
    {
        let len = self.repos.len();
        match self.highlight {
            Some(i) => if len == 0 {
                None
            } else if i < len {
                Some(i)
            } else {
                Some(len - 1)
            },
            None => None,
        }
    }

    /// Moves the highlight to the next repository, stopping at the last.
    pub fn select_next(&mut self)
        ensures
            final(self)@ == old(self)@.select_next(),
    {
        let len = self.repos.len();
        let next: usize = match self.cursor() {
            Some(i) => if i + 1 < len {
                i + 1
            } else {
                i
            },
            None => 0,
        };
        self.highlight = Some(next);
    }

    /// Moves the highlight to the previous repository, stopping at the first.
    pub fn select_previous(&mut self)
        ensures
            final(self)@ == old(self)@.select_previous(),
    {
        let previous: usize = match self.cursor() {
            Some(i) => if i > 0 {
                i - 1
            } else {
                0
            },
            None => self.repos.len(),
        };
        self.highlight = Some(previous);
    }

    /// Flips the mark of the highlighted repository, if one is highlighted.
    pub fn toggle_at_cursor(&mut self)
        ensures
            final(self)@ == old(self)@.toggle_at_cursor(),
    {
        if let Some(i) = self.cursor() {
            let status = self.repos[i].status.toggle();
            self.repos[i].status = status;
            assert(self@.repos =~= old(self)@.toggle_at_cursor().repos);
        }
    }

    /// Whether at least one repository is marked.
    pub fn any_selected(&self) -> (any: bool)
        ensures
            any == self@.any_selected(),
    {
        let mut i: usize = 0;
        while i < self.repos.len()
            invariant
                i <= self.repos@.len(),
                forall|j: int| 0 <= j < i ==> self@.repos[j].status != Status::Selected,
            decreases self.repos@.len() - i,
        {
            if self.repos[i].status == Status::Selected {
                assert(self@.repos[i as int].status == Status::Selected);
                return true;
            }
            i = i + 1;
        }
        false
    }

    /// The names of the marked repositories, in list order.
    pub fn selected_names(&self) -> (names: Vec<String>)
        ensures
            string_views(names@) == self@.selected_names(),
    {
        let mut names: Vec<String> = Vec::new();
        let mut i: usize = 0;
        while i < self.repos.len()
            invariant
                i <= self.repos@.len(),
                string_views(names@) == selected_names(self@.repos.take(i as int)),
            decreases self.repos@.len() - i,
        {
            proof {
                let seen = self@.repos.take(i as int);
                let entry = self.repos[i as int]@;
                assert(self@.repos.take(i + 1) == seen.push(entry));
                seen.lemma_filter_push(entry, is_selected());
                seen.filter(is_selected()).lemma_push_map_commute(name_of(), entry);
            }
            if self.repos[i].status == Status::Selected {
                names.push(self.repos[i].name.clone());
            }
            i = i + 1;
        }
        assert(self@.repos.take(i as int) == self@.repos);
        names
    }

    /// Takes every repository called `name` off the list.  The others keep
    /// their order and marks; the highlight stays where it was, or moves up
    /// to the last entry where the list has become too short for it.
    pub fn remove_by_name(&mut self, name: &str)
        ensures
            final(self)@ == old(self)@.remove_by_name(name@),
    {
        let cursor = self.cursor();
        let name = name.to_owned();
        let mut kept: Vec<Repository> = Vec::new();
        let mut i: usize = 0;
        while i < self.repos.len()
            invariant
                i <= self.repos@.len(),
                repository_views(kept@) == without_name(self@.repos.take(i as int), name@),
            decreases self.repos@.len() - i,
        {
            proof {
                let seen = self@.repos.take(i as int);
                let entry = self.repos[i as int]@;
                assert(self@.repos.take(i + 1) == seen.push(entry));
                seen.lemma_filter_push(entry, not_named(name@));
            }
            if self.repos[i].name != name {
                kept.push(self.repos[i].clone());
            }
            i = i + 1;
        }
        assert(self@.repos.take(i as int) == self@.repos);
        self.repos = kept;
        self.highlight = cursor;
    }
}

/// Flipping the mark under the highlight twice leaves the list as it was:
/// the repository under the highlight has its first mark again, and nothing
/// else was touched.
pub proof fn lemma_toggle_twice_restores(list: GithubContentView)
    ensures
        list.toggle_at_cursor().toggle_at_cursor() == list,
{
    assert(list.toggle_at_cursor().toggle_at_cursor().repos =~= list.repos);
}

/// Moving the highlight and flipping marks keep the highlight on the list
/// and the repositories in their places.
pub proof fn lemma_highlight_stays_on_list(list: GithubContentView)
    ensures
        list.select_next().wf(),
        list.select_previous().wf(),
        list.wf() ==> list.toggle_at_cursor().wf(),
        list.select_next().repos == list.repos,
        list.select_previous().repos == list.repos,
        list.toggle_at_cursor().repos.len() == list.repos.len(),
        list.repos.len() > 0 ==> list.select_next().cursor is Some && list.select_previous().cursor
            is Some,
{
}

/// Some repository is marked exactly if there are names of marked
/// repositories.
pub proof fn lemma_any_selected_iff_names(list: GithubContentView)
    ensures
        list.any_selected() <==> list.selected_names().len() > 0,
{
    let marked = list.repos.filter(is_selected());
    if list.any_selected() {
        let i = choose|i: int| 0 <= i < list.repos.len() && list.repos[i].status == Status::Selected;
        list.repos.lemma_filter_contains(is_selected(), i);
    }
    if marked.len() > 0 {
        list.repos.lemma_filter_contains_rev(is_selected(), marked[0]);
        list.repos.lemma_filter_pred(is_selected(), 0);
    }
}

/// After a removal no repository of the list is called `name`; every other
/// repository is still there, and the highlight lies on the list.
pub proof fn lemma_remove_by_name_removes(list: GithubContentView, name: Seq<char>)
    ensures
        list.remove_by_name(name).wf(),
        list.remove_by_name(name).owner == list.owner,
        forall|repository: RepositoryView|
            #[trigger] list.remove_by_name(name).repos.contains(repository) <==> (
            list.repos.contains(repository) && repository.name != name),
{
    let kept = list.repos.filter(not_named(name));
    assert forall|repository: RepositoryView| #[trigger]
        kept.contains(repository) <==> (list.repos.contains(repository) && repository.name
            != name) by {
        if kept.contains(repository) {
            list.repos.lemma_filter_contains_rev(not_named(name), repository);
            let k = choose|k: int| 0 <= k < kept.len() && kept[k] == repository;
            list.repos.lemma_filter_pred(not_named(name), k);
        }
        if list.repos.contains(repository) && repository.name != name {
            let i = choose|i: int| 0 <= i < list.repos.len() && list.repos[i] == repository;
            list.repos.lemma_filter_contains(not_named(name), i);
        }
    }
}

} // verus!
