use vstd::prelude::*;

use crate::action::Action;
use crate::ui::{get_items_for_view, items_of};
use crate::view::{lemma_pop_undoes_push, NavigationStack, ViewType};

verus! {

/// A fetch from the data provider that a descent waits on. The host performs
/// it and hands the outcome back to the matching `finish_` method.
#[derive(Debug, PartialEq, Eq)]
pub enum Fetch {
    Projects { profile: String },
    Targets { project: String },
    Services { project: String, target: String },
}

/// One subgraph of a published version: its service and its SDL, if any.
#[derive(Debug, PartialEq, Eq)]
pub struct SubgraphSchema {
    pub service: String,
    pub source: Option<String>,
}

/// The latest published version of a target's schema.
#[derive(Debug, PartialEq, Eq)]
pub struct LatestVersion {
    pub schemas: Vec<SubgraphSchema>,
    pub supergraph: Option<String>,
}

/// The text of an optional string.
pub open spec fn opt_text(o: Option<String>) -> Option<Seq<char>> {
    match o {
        Some(s) => Some(s@),
        None => None,
    }
}

/// The SDL text of a subgraph, empty where it has none.
pub open spec fn source_text(o: Option<String>) -> Seq<char> {
    match o {
        Some(s) => s@,
        None => Seq::empty(),
    }
}

/// The SDL of the first entry of `sdls` whose service is called `name`.
pub open spec fn sdl_for(sdls: Seq<(String, String)>, name: Seq<char>) -> Option<Seq<char>>
    decreases sdls.len(),
{
    if sdls.len() == 0 {
        None
    } else if sdls[0].0@ == name {
        Some(sdls[0].1@)
    } else {
        sdl_for(sdls.drop_first(), name)
    }
}

/// The dataset whose entries the current view lists; none in the leaf view.
pub open spec fn dataset(app: App) -> Seq<String> {
    match app.navigation@.current {
        ViewType::ProfileSelect => app.profiles@,
        ViewType::Projects => app.projects@,
        ViewType::Targets { .. } => app.targets@,
        ViewType::Services { .. } => app.services@,
        ViewType::Schema { .. } => Seq::empty(),
    }
}

/// The entry under the cursor; none on a placeholder row, past the end, or
/// where the identifier is empty.
pub open spec fn selection(app: App) -> Option<String> {
    let ds = dataset(app);
    if app.selected_index < ds.len() && ds[app.selected_index as int]@.len() > 0 {
        Some(ds[app.selected_index as int])
    } else {
        None
    }
}

/// The cursor after one step up or down in a list of `count` rows.
pub open spec fn index_after(i: nat, count: nat, down: bool) -> nat {
    if down {
        if i + 1 < count {
            i + 1
        } else {
            i
        }
    } else if i > 0 {
        (i - 1) as nat
    } else {
        0
    }
}

/// The scroll offset after one step up or down.
pub open spec fn scroll_after(s: u16, down: bool) -> u16 {
    if down {
        if s < u16::MAX {
            (s + 1) as u16
        } else {
            s
        }
    } else if s > 0 {
        (s - 1) as u16
    } else {
        0
    }
}

/// A step up or down: it scrolls the schema in the leaf view and moves the
/// cursor elsewhere.
pub open spec fn moved(old: App, new: App, down: bool) -> bool {
    if old.navigation@.current is Schema {
        new == (App { scroll_offset: scroll_after(old.scroll_offset, down), ..old })
    } else {
        let count = items_of(old.navigation@.current, old).len();
        new == (App { selected_index: index_after(old.selected_index as nat, count, down) as usize, ..old })
    }
}

/// A descent into `v` that keeps everything else but what `new` lists
/// beside it.
pub open spec fn descended(old: App, new: App, v: ViewType) -> bool {
    &&& new.navigation@ == old.navigation@.pushed(v)
    &&& new.selected_index == 0
}

/// What `Select` does: the fetch it asks for, and what it changes at once.
pub open spec fn selected(old: App, new: App, r: Option<Fetch>) -> bool {
    match selection(old) {
        None => new == old && r is None,
        Some(item) => match old.navigation@.current {
            ViewType::ProfileSelect => {
                &&& new == (App { selected_profile: Some(item), ..old })
                &&& r == Some(Fetch::Projects { profile: item })
            },
            ViewType::Projects => new == old && r == Some(Fetch::Targets { project: item }),
            ViewType::Targets { project } => {
                &&& new == old
                &&& r == Some(Fetch::Services { project, target: item })
            },
            ViewType::Services { project, target } => {
                &&& r is None
                &&& descended(old, new, ViewType::Schema { project, target, service: item })
                &&& opt_text(new.schema_content) == sdl_for(old.subgraph_sdls@, item@)
                &&& new == (App {
                    navigation: new.navigation,
                    selected_index: 0,
                    schema_content: new.schema_content,
                    scroll_offset: 0,
                    showing_supergraph: false,
                    ..old
                })
            },
            ViewType::Schema { .. } => new == old && r is None,
        },
    }
}

/// What `Back` does: ascend one level where there is one, and put the
/// cursor on the first row; the datasets stay as they were.
pub open spec fn went_back(old: App, new: App) -> bool {
    let can = old.navigation@.history.len() > 0;
    &&& new.navigation@ == old.navigation@.popped()
    &&& new == (App {
        navigation: new.navigation,
        selected_index: if can { 0 } else { old.selected_index },
        ..old
    })
}

/// What `ToggleSupergraph` does: flip between the supergraph and the SDL
/// of the service shown, and scroll back to the top.
pub open spec fn toggled(old: App, new: App) -> bool {
    &&& new == (App {
        showing_supergraph: !old.showing_supergraph,
        scroll_offset: 0,
        schema_content: new.schema_content,
        ..old
    })
    &&& if !old.showing_supergraph {
        new.schema_content == old.supergraph_content
    } else {
        match old.navigation@.current {
            ViewType::Schema { service, .. } => opt_text(new.schema_content) == sdl_for(
                old.subgraph_sdls@,
                service@,
            ),
            _ => new.schema_content == old.schema_content,
        }
    }
}

/// The controller's transition: `action` takes `old` to `new`, asking the
/// host for the fetch `r`.
pub open spec fn step(old: App, action: Action, new: App, r: Option<Fetch>) -> bool {
    match action {
        Action::Quit => new == (App { running: false, ..old }) && r is None,
        Action::Tick | Action::Render => new == old && r is None,
        Action::NavigateUp => moved(old, new, false) && r is None,
        Action::NavigateDown => moved(old, new, true) && r is None,
        Action::Select => selected(old, new, r),
        Action::Back => went_back(old, new) && r is None,
        Action::ToggleSupergraph => toggled(old, new) && r is None,
    }
}

/// The datasets of the services level as `latest` gives them; all empty
/// where the target has no published version.
pub open spec fn bundle_loaded(latest: Option<LatestVersion>, app: App) -> bool {
    match latest {
        None => {
            &&& app.services@.len() == 0
            &&& app.subgraph_sdls@.len() == 0
            &&& app.supergraph_content is None
        },
        Some(l) => {
            &&& app.services@.len() == l.schemas@.len()
            &&& app.subgraph_sdls@.len() == l.schemas@.len()
            &&& forall|i: int|
                0 <= i < l.schemas@.len() ==> {
                    &&& #[trigger] app.services@[i] == l.schemas@[i].service
                    &&& app.subgraph_sdls@[i].0 == l.schemas@[i].service
                    &&& app.subgraph_sdls@[i].1@ == source_text(l.schemas@[i].source)
                }
            &&& app.supergraph_content == l.supergraph
        },
    }
}

/// The service names and the (service, SDL) pairs of `schemas`, in order.
fn split_schemas(schemas: &Vec<SubgraphSchema>) -> (r: (Vec<String>, Vec<(String, String)>))
    ensures
        r.0@.len() == schemas@.len(),
        r.1@.len() == schemas@.len(),
        forall|i: int|
            0 <= i < schemas@.len() ==> {
                &&& #[trigger] r.0@[i] == schemas@[i].service
                &&& r.1@[i].0 == schemas@[i].service
                &&& r.1@[i].1@ == source_text(schemas@[i].source)
            },
{
    let mut names: Vec<String> = Vec::new();
    let mut sdls: Vec<(String, String)> = Vec::new();
    let mut i: usize = 0;
    while i < schemas.len()
        invariant
            i <= schemas@.len(),
            names@.len() == i,
            sdls@.len() == i,
            forall|j: int|
                0 <= j < i ==> {
                    &&& names@[j] == (#[trigger] schemas@[j]).service
                    &&& sdls@[j].0 == schemas@[j].service
                    &&& sdls@[j].1@ == source_text(schemas@[j].source)
                },
        decreases schemas@.len() - i,
    {
        let entry = &schemas[i];
        let source = match &entry.source {
            Some(text) => text.clone(),
            None => String::new(),
        };
        names.push(entry.service.clone());
        sdls.push((entry.service.clone(), source));
        i = i + 1;
    }
    (names, sdls)
}

/// A copy of the SDL of the first entry of `sdls` whose service is `name`.
fn find_sdl(sdls: &Vec<(String, String)>, name: &String) -> (r: Option<String>)
    ensures
        opt_text(r) == sdl_for(sdls@, name@),
{
    let mut i: usize = 0;
    assert(sdls@.subrange(0, sdls@.len() as int) =~= sdls@);
    while i < sdls.len()
        invariant
            i <= sdls@.len(),
            sdl_for(sdls@, name@) == sdl_for(sdls@.subrange(i as int, sdls@.len() as int), name@),
        decreases sdls@.len() - i,
    {
        let ghost rest = sdls@.subrange(i as int, sdls@.len() as int);
        assert(rest.drop_first() =~= sdls@.subrange(i + 1, sdls@.len() as int));
        if sdls[i].0 == *name {
            return Some(sdls[i].1.clone());
        }
        i = i + 1;
    }
    None
}

/// The session: the datasets last fetched for each level, the navigation
/// stack, and the transient state of the screen.
pub struct App {
    pub running: bool,
    pub selected_index: usize,
    pub navigation: NavigationStack,
    pub profiles: Vec<String>,
    pub error: Option<String>,
    pub selected_profile: Option<String>,
    pub projects: Vec<String>,
    pub targets: Vec<String>,
    pub services: Vec<String>,
    pub schema_content: Option<String>,
    pub supergraph_content: Option<String>,
    pub subgraph_sdls: Vec<(String, String)>,
    pub scroll_offset: u16,
    pub showing_supergraph: bool,
}

impl App {
    /// A fresh session at the root. `startup` is the list of profile names
    /// read from the configuration, or the message of the error that stopped
    /// reading it.
    pub fn new(startup: Result<Vec<String>, String>) -> (r: Self)
        ensures
            r.running,
            r.selected_index == 0,
            r.navigation@.history.len() == 0,
            r.navigation@.current == ViewType::ProfileSelect,
            match startup {
                Ok(names) => r.profiles == names && r.error is None,
                Err(e) => r.profiles@.len() == 0 && r.error == Some(e),
            },
            r.selected_profile is None,
            r.projects@.len() == 0,
            r.targets@.len() == 0,
            r.services@.len() == 0,
            r.schema_content is None,
            r.supergraph_content is None,
            r.subgraph_sdls@.len() == 0,
            r.scroll_offset == 0,
            !r.showing_supergraph,
    {
        let (profiles, error) = match startup {
            Ok(names) => (names, None),
            Err(e) => (Vec::new(), Some(e)),
        };
        App {
            running: true,
            selected_index: 0,
            navigation: NavigationStack::new(),
            profiles,
            error,
            selected_profile: None,
            projects: Vec::new(),
            targets: Vec::new(),
            services: Vec::new(),
            schema_content: None,
            supergraph_content: None,
            subgraph_sdls: Vec::new(),
            scroll_offset: 0,
            showing_supergraph: false,
        }
    }

    /// Put the cursor on the first row.
    pub fn reset_selection(&mut self)
        ensures
            *final(self) == (App { selected_index: 0, ..*old(self) }),
    {
        self.selected_index = 0;
    }

    /// The entry under the cursor, if it names something to descend into.
    fn selected_item(&self) -> (r: Option<String>)
        ensures
            r == selection(*self),
    {
        let ds: &Vec<String> = match self.navigation.current() {
            ViewType::ProfileSelect => &self.profiles,
            ViewType::Projects => &self.projects,
            ViewType::Targets { .. } => &self.targets,
            ViewType::Services { .. } => &self.services,
            ViewType::Schema { .. } => {
                return None;
            },
        };
        if self.selected_index < ds.len() && !ds[self.selected_index].as_str().is_empty() {
            Some(ds[self.selected_index].clone())
        } else {
            None
        }
    }

    /// Act on the entry under the cursor. A descent that needs data returns
    /// the fetch to perform; the leaf of the hierarchy is entered at once.
    pub fn handle_select(&mut self) -> (r: Option<Fetch>)
        ensures
            selected(*old(self), *final(self), r),
    {
        let view = self.navigation.current().clone();
        let item = match self.selected_item() {
            Some(s) => s,
            None => {
                return None;
            },
        };
        match view {
            ViewType::ProfileSelect => {
                self.selected_profile = Some(item.clone());
                Some(Fetch::Projects { profile: item })
            },
            ViewType::Projects => Some(Fetch::Targets { project: item }),
            ViewType::Targets { project } => Some(Fetch::Services { project, target: item }),
            ViewType::Services { project, target } => {
                self.schema_content = find_sdl(&self.subgraph_sdls, &item);
                self.scroll_offset = 0;
                self.showing_supergraph = false;
                self.navigation.push(ViewType::Schema { project, target, service: item });
                self.reset_selection();
                None
            },
            ViewType::Schema { .. } => None,
        }
    }

    /// Complete the descent from the profile list: on success show the
    /// projects that came back; on failure record the error and stay.
    pub fn finish_projects(&mut self, outcome: Result<Vec<String>, String>)
        ensures
            match outcome {
                Ok(projects) => {
                    &&& descended(*old(self), *final(self), ViewType::Projects)
                    &&& *final(self) == (App {
                        navigation: final(self).navigation,
                        selected_index: 0,
                        projects,
                        error: None,
                        ..*old(self)
                    })
                },
                Err(e) => *final(self) == (App { error: Some(e), ..*old(self) }),
            },
    {
        match outcome {
            Ok(projects) => {
                self.projects = projects;
                self.error = None;
                self.navigation.push(ViewType::Projects);
                self.reset_selection();
            },
            Err(e) => {
                self.error = Some(e);
            },
        }
    }

    /// Complete the descent into `project`: on success show its targets; on
    /// failure record the error and stay.
    pub fn finish_targets(&mut self, project: String, outcome: Result<Vec<String>, String>)
        ensures
            match outcome {
                Ok(targets) => {
                    &&& descended(*old(self), *final(self), ViewType::Targets { project })
                    &&& *final(self) == (App {
                        navigation: final(self).navigation,
                        selected_index: 0,
                        targets,
                        error: None,
                        ..*old(self)
                    })
                },
                Err(e) => *final(self) == (App { error: Some(e), ..*old(self) }),
            },
    {
        match outcome {
            Ok(targets) => {
                self.targets = targets;
                self.error = None;
                self.navigation.push(ViewType::Targets { project });
                self.reset_selection();
            },
            Err(e) => {
                self.error = Some(e);
            },
        }
    }

    /// Complete the descent into `target` of `project`: on success show the
    /// services of its latest version and keep their schemas; on failure
    /// record the error and stay.
    pub fn finish_services(
        &mut self,
        project: String,
        target: String,
        outcome: Result<Option<LatestVersion>, String>,
    )
        ensures
            match outcome {
                Ok(latest) => {
                    &&& descended(*old(self), *final(self), ViewType::Services { project, target })
                    &&& bundle_loaded(latest, *final(self))
                    &&& *final(self) == (App {
                        navigation: final(self).navigation,
                        selected_index: 0,
                        services: final(self).services,
                        subgraph_sdls: final(self).subgraph_sdls,
                        supergraph_content: final(self).supergraph_content,
                        scroll_offset: 0,
                        showing_supergraph: false,
                        error: None,
                        ..*old(self)
                    })
                },
                Err(e) => *final(self) == (App { error: Some(e), ..*old(self) }),
            },
    {
        match outcome {
            Ok(latest) => {
                match latest {
                    Some(l) => {
                        let (names, sdls) = split_schemas(&l.schemas);
                        self.services = names;
                        self.subgraph_sdls = sdls;
                        self.supergraph_content = l.supergraph;
                    },
                    None => {
                        self.services = Vec::new();
                        self.subgraph_sdls = Vec::new();
                        self.supergraph_content = None;
                    },
                }
                self.scroll_offset = 0;
                self.showing_supergraph = false;
                self.error = None;
                self.navigation.push(ViewType::Services { project, target });
                self.reset_selection();
            },
            Err(e) => {
                self.error = Some(e);
            },
        }
    }

    /// Apply `action`. Where it asks for data, the fetch to perform comes back.
    pub fn update(&mut self, action: Action) -> (r: Option<Fetch>)
        ensures
            step(*old(self), action, *final(self), r),
    {
        let in_schema = match self.navigation.current() {
            ViewType::Schema { .. } => true,
            _ => false,
        };
        match action {
            Action::Quit => {
                self.running = false;
                None
            },
            Action::NavigateUp => {
                if in_schema {
                    if self.scroll_offset > 0 {
                        self.scroll_offset = self.scroll_offset - 1;
                    }
                } else if self.selected_index > 0 {
                    self.selected_index = self.selected_index - 1;
                }
                None
            },
            Action::NavigateDown => {
                if in_schema {
                    if self.scroll_offset < u16::MAX {
                        self.scroll_offset = self.scroll_offset + 1;
                    }
                } else {
                    let count = get_items_for_view(self.navigation.current(), self).len();
                    if self.selected_index < count - 1 {
                        self.selected_index = self.selected_index + 1;
                    }
                }
                None
            },
            Action::Select => self.handle_select(),
            Action::Back => {
                if self.navigation.pop() {
                    self.reset_selection();
                }
                None
            },
            Action::ToggleSupergraph => {
                self.showing_supergraph = !self.showing_supergraph;
                self.scroll_offset = 0;
                if self.showing_supergraph {
                    self.schema_content = match &self.supergraph_content {
                        Some(s) => Some(s.clone()),
                        None => None,
                    };
                } else {
                    let service = match self.navigation.current() {
                        ViewType::Schema { service, .. } => Some(service.clone()),
                        _ => None,
                    };
                    if let Some(service) = service {
                        self.schema_content = find_sdl(&self.subgraph_sdls, &service);
                    }
                }
                None
            },
            Action::Tick | Action::Render => None,
        }
    }
}

/// The cursor after each step of `moves` in turn (`true` is a step down) in
/// a list of `count` rows.
pub open spec fn index_after_all(i: nat, count: nat, moves: Seq<bool>) -> nat
    decreases moves.len(),
{
    if moves.len() == 0 {
        i
    } else {
        index_after(index_after_all(i, count, moves.drop_last()), count, moves.last())
    }
}

/// However often the cursor is moved up and down, it stays on a row of the
/// list; in a list without rows it stays on the first position.
pub proof fn lemma_cursor_stays_in_list(i: nat, count: nat, moves: Seq<bool>)
    requires
        i < count || i == 0,
    ensures
        count >= 1 ==> index_after_all(i, count, moves) < count,
        count == 0 ==> index_after_all(i, count, moves) == 0,
    decreases moves.len(),
{
    if moves.len() > 0 {
        lemma_cursor_stays_in_list(i, count, moves.drop_last());
    }
}

/// A step up or down keeps the cursor on a row of the list shown.
pub proof fn lemma_move_keeps_cursor(old: App, new: App, down: bool)
    requires
        old.selected_index < items_of(old.navigation@.current, old).len(),
        moved(old, new, down),
    ensures
        new.selected_index < items_of(new.navigation@.current, new).len(),
{
}

/// In the schema view, toggling once shows the supergraph from the top;
/// toggling again shows the SDL of the service of the view, from the top.
pub proof fn lemma_toggle_twice(a: App, b: App, c: App)
    requires
        a.navigation@.current is Schema,
        !a.showing_supergraph,
        toggled(a, b),
        toggled(b, c),
    ensures
        b.showing_supergraph,
        b.schema_content == a.supergraph_content,
        b.scroll_offset == 0,
        !c.showing_supergraph,
        c.scroll_offset == 0,
        match a.navigation@.current {
            ViewType::Schema { service, .. } => opt_text(c.schema_content) == sdl_for(
                a.subgraph_sdls@,
                service@,
            ),
            _ => true,
        },
{
}

/// `Back` after entering a service's schema from the services view returns
/// to exactly that view, with the services list it had.
pub proof fn lemma_select_then_back(a: App, b: App, c: App, r: Option<Fetch>)
    requires
        a.navigation@.current is Services,
        selection(a) is Some,
        selected(a, b, r),
        went_back(b, c),
    ensures
        c.navigation@ == a.navigation@,
        c.services == a.services,
        c.subgraph_sdls == a.subgraph_sdls,
        c == (App {
            navigation: c.navigation,
            selected_index: 0,
            schema_content: c.schema_content,
            scroll_offset: 0,
            showing_supergraph: false,
            ..a
        }),
{
    let item = selection(a)->Some_0;
    match a.navigation@.current {
        ViewType::Services { project, target } => {
            lemma_pop_undoes_push(
                a.navigation@,
                ViewType::Schema { project, target, service: item },
            );
        },
        _ => {},
    }
}

} // verus!
