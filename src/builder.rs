//! Building an application: its root UI, tabs, background tasks, timer and
//! initial focus, checked before anything touches the terminal.

use vstd::prelude::*;

use std::time::Duration;

use crate::focus::{FocusManager, FocusModel};
use crate::tabs::{TabManager, TabModel, TabsModel};
use crate::terminal::{TerminalConfig, TerminalError};

verus! {

/// Why an application could not be built.
#[derive(Debug)]
pub enum BuildError {
    /// No root UI was given.
    NoMainUi,
    /// Two background tasks were given the same name.
    DuplicateTask(&'static str),
}

/// A failure of a running application.
#[derive(Debug)]
pub enum AppError {
    /// The terminal failed.
    Terminal(TerminalError),
    /// The application could not be built.
    Build(BuildError),
    /// Reading input failed.
    Io(std::io::Error),
}

impl From<TerminalError> for AppError {
    fn from(err: TerminalError) -> (r: AppError) {
        AppError::Terminal(err)
    }
}

impl vstd::std_specs::convert::FromSpecImpl<TerminalError> for AppError {
    open spec fn obeys_from_spec() -> bool {
        true
    }

    open spec fn from_spec(err: TerminalError) -> AppError {
        AppError::Terminal(err)
    }
}

impl From<BuildError> for AppError {
    fn from(err: BuildError) -> (r: AppError) {
        AppError::Build(err)
    }
}

impl vstd::std_specs::convert::FromSpecImpl<BuildError> for AppError {
    open spec fn obeys_from_spec() -> bool {
        true
    }

    open spec fn from_spec(err: BuildError) -> AppError {
        AppError::Build(err)
    }
}

impl From<std::io::Error> for AppError {
    fn from(err: std::io::Error) -> (r: AppError) {
        AppError::Io(err)
    }
}

impl vstd::std_specs::convert::FromSpecImpl<std::io::Error> for AppError {
    open spec fn obeys_from_spec() -> bool {
        true
    }

    open spec fn from_spec(err: std::io::Error) -> AppError {
        AppError::Io(err)
    }
}

/// A background task waiting to be started, under its name.
pub struct PendingTask<T> {
    pub name: &'static str,
    pub task: T,
}

/// Whether the name at `j` already occurs before it.
pub open spec fn repeats_earlier(names: Seq<Seq<char>>, j: int) -> bool {
    exists|i: int| 0 <= i < j && names[i] == names[j]
}

/// `j` is the first position whose name occurs before it.
pub open spec fn first_repeat(names: Seq<Seq<char>>, j: int) -> bool {
    &&& 0 <= j < names.len()
    &&& repeats_earlier(names, j)
    &&& forall|k: int| 0 <= k < j ==> !#[trigger] repeats_earlier(names, k)
}

/// Whether some name occurs twice.
pub open spec fn has_repeat(names: Seq<Seq<char>>) -> bool {
    exists|j: int| 0 <= j < names.len() && #[trigger] repeats_earlier(names, j)
}

/// A built application's parts: its root UI `M`, its background tasks `T`
/// and its initial state.
pub struct AppParts<M, T> {
    pub main_ui: M,
    pub tasks: Vec<PendingTask<T>>,
    pub tab_manager: TabManager,
    pub focus_manager: FocusManager,
    pub tick_rate: Option<Duration>,
    pub terminal_config: TerminalConfig,
}

/// Collects what an application is made of, then checks it.
pub struct AppBuilder<M, T> {
    main_ui: Option<M>,
    tasks: Vec<PendingTask<T>>,
    tab_manager: TabManager,
    focus_manager: FocusManager,
    tick_rate: Option<Duration>,
    mouse_capture: bool,
}

impl<M, T> AppBuilder<M, T> {
    /// The root UI, if given.
    pub closed spec fn main_ui_spec(&self) -> Option<M> {
        self.main_ui
    }

    /// The background tasks, in the order given.
    pub closed spec fn tasks_spec(&self) -> Seq<PendingTask<T>> {
        self.tasks@
    }

    /// The names of the background tasks, in the order given.
    pub open spec fn task_names(&self) -> Seq<Seq<char>> {
        self.tasks_spec().map_values(|t: PendingTask<T>| t.name@)
    }

    /// The tabs so far.
    pub closed spec fn tabs(&self) -> TabsModel {
        self.tab_manager@
    }

    /// The focus order so far.
    pub closed spec fn focus(&self) -> FocusModel {
        self.focus_manager@
    }

    /// The tick interval, if any.
    pub closed spec fn tick_rate_spec(&self) -> Option<Duration> {
        self.tick_rate
    }

    /// Whether pointer events will be captured.
    pub closed spec fn mouse_capture_spec(&self) -> bool {
        self.mouse_capture
    }

    /// The tab and focus managers are well formed.
    pub closed spec fn wf(&self) -> bool {
        self.tab_manager.wf() && self.focus_manager.wf()
    }

    /// Nothing given yet; pointer capture on, no timer.
    pub fn new() -> (r: AppBuilder<M, T>)
        ensures
            r.wf(),
            r.main_ui_spec() is None,
            r.tasks_spec().len() == 0,
            r.tabs().tabs.len() == 0,
            r.tabs().active == 0,
            r.tabs().disabled.is_empty(),
            r.focus() == FocusModel::empty(),
            r.tick_rate_spec() is None,
            r.mouse_capture_spec(),
    {
        AppBuilder {
            main_ui: None,
            tasks: Vec::new(),
            tab_manager: TabManager::new(),
            focus_manager: FocusManager::new(),
            tick_rate: None,
            mouse_capture: true,
        }
    }

    /// Sets the root UI, which building requires.
    pub fn main_ui(self, ui: M) -> (r: AppBuilder<M, T>)
        requires
            self.wf(),
        ensures
            r.wf(),
            r.main_ui_spec() == Some(ui),
            r.tasks_spec() == self.tasks_spec(),
            r.tabs() == self.tabs(),
            r.focus() == self.focus(),
            r.tick_rate_spec() == self.tick_rate_spec(),
            r.mouse_capture_spec() == self.mouse_capture_spec(),
    {
        AppBuilder { main_ui: Some(ui), ..self }
    }

    /// Appends a tab; the first one added starts active.
    pub fn add_tab(self, id: &str, title: &str, own_enabled: bool) -> (r: AppBuilder<M, T>)
        requires
            self.wf(),
        ensures
            r.wf(),
            r.main_ui_spec() == self.main_ui_spec(),
            r.tasks_spec() == self.tasks_spec(),
            r.tabs() == (TabsModel {
                tabs: self.tabs().tabs.push(TabModel { id: id@, title: title@, own_enabled }),
                ..self.tabs()
            }),
            r.focus() == self.focus(),
            r.tick_rate_spec() == self.tick_rate_spec(),
            r.mouse_capture_spec() == self.mouse_capture_spec(),
    {
        let mut b = self;
        b.tab_manager.add(id, title, own_enabled);
        b
    }

    /// Appends a background task under `name`.
    pub fn add_task(self, name: &'static str, task: T) -> (r: AppBuilder<M, T>)
        requires
            self.wf(),
        ensures
            r.wf(),
            r.main_ui_spec() == self.main_ui_spec(),
            r.tasks_spec() == self.tasks_spec().push(PendingTask { name, task }),
            r.tabs() == self.tabs(),
            r.focus() == self.focus(),
            r.tick_rate_spec() == self.tick_rate_spec(),
            r.mouse_capture_spec() == self.mouse_capture_spec(),
    {
        let mut b = self;
        b.tasks.push(PendingTask { name, task });
        b
    }

    /// Sets the interval of the timer; without one the loop only wakes for
    /// input and messages.
    pub fn tick_rate(self, rate: Duration) -> (r: AppBuilder<M, T>)
        requires
            self.wf(),
        ensures
            r.wf(),
            r.main_ui_spec() == self.main_ui_spec(),
            r.tasks_spec() == self.tasks_spec(),
            r.tabs() == self.tabs(),
            r.focus() == self.focus(),
            r.tick_rate_spec() == Some(rate),
            r.mouse_capture_spec() == self.mouse_capture_spec(),
    {
        AppBuilder { tick_rate: Some(rate), ..self }
    }

    /// Whether pointer events are captured at start.
    pub fn mouse_capture(self, enabled: bool) -> (r: AppBuilder<M, T>)
        requires
            self.wf(),
        ensures
            r.wf(),
            r.main_ui_spec() == self.main_ui_spec(),
            r.tasks_spec() == self.tasks_spec(),
            r.tabs() == self.tabs(),
            r.focus() == self.focus(),
            r.tick_rate_spec() == self.tick_rate_spec(),
            r.mouse_capture_spec() == enabled,
    {
        AppBuilder { mouse_capture: enabled, ..self }
    }

    /// Registers a focusable id.
    pub fn register_focus(self, id: &str) -> (r: AppBuilder<M, T>)
        requires
            self.wf(),
        ensures
            r.wf(),
            r.main_ui_spec() == self.main_ui_spec(),
            r.tasks_spec() == self.tasks_spec(),
            r.tabs() == self.tabs(),
            r.focus() == self.focus().register(id@),
            r.tick_rate_spec() == self.tick_rate_spec(),
            r.mouse_capture_spec() == self.mouse_capture_spec(),
    {
        let mut b = self;
        b.focus_manager.register(id);
        b
    }

    /// Registers `id` if needed and focuses it.
    pub fn initial_focus(self, id: &str) -> (r: AppBuilder<M, T>)
        requires
            self.wf(),
        ensures
            r.wf(),
            r.main_ui_spec() == self.main_ui_spec(),
            r.tasks_spec() == self.tasks_spec(),
            r.tabs() == self.tabs(),
            r.focus() == self.focus().register(id@).set_focus(id@),
            r.tick_rate_spec() == self.tick_rate_spec(),
            r.mouse_capture_spec() == self.mouse_capture_spec(),
    {
        let mut b = self;
        b.focus_manager.register(id);
        b.focus_manager.set_focus(id);
        b
    }

    /// The first task whose name an earlier task already has.
    fn find_repeat(&self) -> (r: Option<usize>)
        ensures
            match r {
                Some(j) => first_repeat(self.task_names(), j as int),
                None => !has_repeat(self.task_names()),
            },
    {
        let ghost names = self.task_names();
        let mut j: usize = 0;
        while j < self.tasks.len()
            invariant
                names == self.task_names(),
                names.len() == self.tasks.len(),
                j <= self.tasks.len(),
                forall|k: int| 0 <= k < j ==> !#[trigger] repeats_earlier(names, k),
            decreases self.tasks.len() - j,
        {
            let name_j = self.tasks[j].name.to_owned();
            assert(names[j as int] == self.tasks@[j as int].name@);
            let mut i: usize = 0;
            while i < j
                invariant
                    names == self.task_names(),
                    names.len() == self.tasks.len(),
                    j < self.tasks.len(),
                    i <= j,
                    name_j@ == names[j as int],
                    forall|k: int| 0 <= k < j ==> !#[trigger] repeats_earlier(names, k),
                    forall|k: int| 0 <= k < i ==> names[k] != names[j as int],
                decreases j - i,
            {
                assert(names[i as int] == self.tasks@[i as int].name@);
                if self.tasks[i].name.to_owned() == name_j {
                    assert(repeats_earlier(names, j as int));
                    return Some(j);
                }
                i += 1;
            }
            j += 1;
        }
        None
    }

    /// Checks and takes apart the configuration. Fails with `NoMainUi` when
    /// no root UI was given, then with `DuplicateTask` naming the first
    /// task whose name an earlier one already has. Nothing else happens:
    /// the terminal is not touched.
    pub fn build(self) -> (r: Result<AppParts<M, T>, BuildError>)
        requires
            self.wf(),
        ensures
            r is Ok <==> self.main_ui_spec() is Some && !has_repeat(self.task_names()),
            match r {
                Ok(parts) => {
                    &&& Some(parts.main_ui) == self.main_ui_spec()
                    &&& parts.tasks@ == self.tasks_spec()
                    &&& parts.tab_manager.wf()
                    &&& parts.tab_manager@ == self.tabs()
                    &&& parts.focus_manager.wf()
                    &&& parts.focus_manager@ == self.focus()
                    &&& parts.tick_rate == self.tick_rate_spec()
                    &&& parts.terminal_config.mouse_capture == self.mouse_capture_spec()
                },
                Err(BuildError::NoMainUi) => self.main_ui_spec() is None,
                Err(BuildError::DuplicateTask(name)) => {
                    &&& self.main_ui_spec() is Some
                    &&& exists|j: int|
                        first_repeat(self.task_names(), j) && name@ == self.task_names()[j]
                },
            },
    {
        if self.main_ui.is_none() {
            return Err(BuildError::NoMainUi);
        }
        match self.find_repeat() {
            Some(j) => {
                let name = self.tasks[j].name;
                assert(name@ == self.task_names()[j as int]);
                return Err(BuildError::DuplicateTask(name));
            },
            None => {},
        }
        match self.main_ui {
            Some(main_ui) => Ok(
                AppParts {
                    main_ui,
                    tasks: self.tasks,
                    tab_manager: self.tab_manager,
                    focus_manager: self.focus_manager,
                    tick_rate: self.tick_rate,
                    terminal_config: TerminalConfig { mouse_capture: self.mouse_capture },
                },
            ),
            None => Err(BuildError::NoMainUi),
        }
    }
}

} // verus!
